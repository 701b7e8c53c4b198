use vstd::prelude::*;
use super::registers::Flags;

verus! {

/// 8-bit addition: result and flags.
pub open spec fn add8(a: u8, v: u8) -> (u8, Flags) {
    let r = a.wrapping_add(v);
    (r, Flags { zero: r == 0, subtract: false, half_carry: a % 16 + v % 16 > 15, carry: a + v > 255 })
}

/// 8-bit addition with the carry flag as carry in.
pub open spec fn adc8(a: u8, v: u8, carry_in: bool) -> (u8, Flags) {
    let c: u8 = if carry_in { 1 } else { 0 };
    let r = a.wrapping_add(v).wrapping_add(c);
    (
        r,
        Flags {
            zero: r == 0,
            subtract: false,
            half_carry: a % 16 + v % 16 + c > 15,
            carry: a + v + c > 255,
        },
    )
}

/// 8-bit subtraction.
pub open spec fn sub8(a: u8, v: u8) -> (u8, Flags) {
    let r = a.wrapping_sub(v);
    (r, Flags { zero: r == 0, subtract: true, half_carry: a % 16 < v % 16, carry: a < v })
}

/// 8-bit subtraction with the carry flag as borrow in.
pub open spec fn sbc8(a: u8, v: u8, carry_in: bool) -> (u8, Flags) {
    let c: u8 = if carry_in { 1 } else { 0 };
    let r = a.wrapping_sub(v).wrapping_sub(c);
    (r, Flags { zero: r == 0, subtract: true, half_carry: a % 16 < v % 16 + c, carry: a < v + c })
}

/// Bitwise and.
pub open spec fn and8(a: u8, v: u8) -> (u8, Flags) {
    let r = a & v;
    (r, Flags { zero: r == 0, subtract: false, half_carry: true, carry: false })
}

/// Bitwise exclusive or.
pub open spec fn xor8(a: u8, v: u8) -> (u8, Flags) {
    let r = a ^ v;
    (r, Flags { zero: r == 0, subtract: false, half_carry: false, carry: false })
}

/// Bitwise or.
pub open spec fn or8(a: u8, v: u8) -> (u8, Flags) {
    let r = a | v;
    (r, Flags { zero: r == 0, subtract: false, half_carry: false, carry: false })
}

/// The arithmetic/logic operation selected by bits 3..5 of an opcode, applied to A and `v`.
/// Kind 7 (compare) computes the flags of a subtraction and keeps A.
pub open spec fn alu8(kind: u8, a: u8, v: u8, f: Flags) -> (u8, Flags) {
    if kind == 0 {
        add8(a, v)
    } else if kind == 1 {
        adc8(a, v, f.carry)
    } else if kind == 2 {
        sub8(a, v)
    } else if kind == 3 {
        sbc8(a, v, f.carry)
    } else if kind == 4 {
        and8(a, v)
    } else if kind == 5 {
        xor8(a, v)
    } else if kind == 6 {
        or8(a, v)
    } else {
        (a, sub8(a, v).1)
    }
}

pub fn alu(kind: u8, a: u8, v: u8, f: Flags) -> (r: (u8, Flags))
    requires
        kind < 8,
    ensures
        r == alu8(kind, a, v, f),
{
    if kind == 0 {
        let r = a.wrapping_add(v);
        (r, Flags { zero: r == 0, subtract: false, half_carry: a % 16 + v % 16 > 15, carry: a as u16 + v as u16 > 255 })
    } else if kind == 1 {
        let c: u8 = if f.carry { 1 } else { 0 };
        let r = a.wrapping_add(v).wrapping_add(c);
        (
            r,
            Flags {
                zero: r == 0,
                subtract: false,
                half_carry: a % 16 + v % 16 + c > 15,
                carry: a as u16 + v as u16 + c as u16 > 255,
            },
        )
    } else if kind == 2 || kind == 7 {
        let r = a.wrapping_sub(v);
        let flags = Flags { zero: r == 0, subtract: true, half_carry: a % 16 < v % 16, carry: a < v };
        if kind == 2 {
            (r, flags)
        } else {
            (a, flags)
        }
    } else if kind == 3 {
        let c: u8 = if f.carry { 1 } else { 0 };
        let r = a.wrapping_sub(v).wrapping_sub(c);
        (
            r,
            Flags {
                zero: r == 0,
                subtract: true,
                half_carry: a % 16 < v % 16 + c,
                carry: (a as u16) < v as u16 + c as u16,
            },
        )
    } else if kind == 4 {
        let r = a & v;
        (r, Flags { zero: r == 0, subtract: false, half_carry: true, carry: false })
    } else if kind == 5 {
        let r = a ^ v;
        (r, Flags { zero: r == 0, subtract: false, half_carry: false, carry: false })
    } else {
        let r = a | v;
        (r, Flags { zero: r == 0, subtract: false, half_carry: false, carry: false })
    }
}

/// Increment: carry is kept.
pub open spec fn inc8(v: u8, f: Flags) -> (u8, Flags) {
    let r = v.wrapping_add(1);
    (r, Flags { zero: r == 0, subtract: false, half_carry: v % 16 + 1 > 15, carry: f.carry })
}

/// Decrement: carry is kept.
pub open spec fn dec8(v: u8, f: Flags) -> (u8, Flags) {
    let r = v.wrapping_sub(1);
    (r, Flags { zero: r == 0, subtract: true, half_carry: v % 16 < 1, carry: f.carry })
}

pub fn inc(v: u8, f: Flags) -> (r: (u8, Flags))
    ensures
        r == inc8(v, f),
{
    let r = v.wrapping_add(1);
    (r, Flags { zero: r == 0, subtract: false, half_carry: v % 16 + 1 > 15, carry: f.carry })
}

pub fn dec(v: u8, f: Flags) -> (r: (u8, Flags))
    ensures
        r == dec8(v, f),
{
    let r = v.wrapping_sub(1);
    (r, Flags { zero: r == 0, subtract: true, half_carry: v % 16 < 1, carry: f.carry })
}

/// The rotate/shift selected by bits 3..5 of a CB-prefixed opcode: RLC, RRC, RL, RR, SLA, SRA,
/// SWAP, SRL. The zero flag follows the result; subtract and half carry are cleared.
pub open spec fn shift8(kind: u8, v: u8, f: Flags) -> (u8, Flags) {
    let c: u8 = if f.carry { 1 } else { 0 };
    let (r, carry) = if kind == 0 {
        ((v << 1u8) | (v >> 7u8), (v >> 7u8) != 0)
    } else if kind == 1 {
        ((v >> 1u8) | (v << 7u8), (v & 1) != 0)
    } else if kind == 2 {
        ((v << 1u8) | c, (v >> 7u8) != 0)
    } else if kind == 3 {
        ((v >> 1u8) | (c << 7u8), (v & 1) != 0)
    } else if kind == 4 {
        (v << 1u8, (v >> 7u8) != 0)
    } else if kind == 5 {
        ((v & 0x80) | (v >> 1u8), (v & 1) != 0)
    } else if kind == 6 {
        ((v << 4u8) | (v >> 4u8), false)
    } else {
        (v >> 1u8, (v & 1) != 0)
    };
    (r, Flags { zero: r == 0, subtract: false, half_carry: false, carry })
}

/// The flags of BIT b, v: zero when the bit is clear; carry is kept.
pub open spec fn bit8(b: u8, v: u8, f: Flags) -> Flags {
    Flags { zero: (v & (1u8 << b)) == 0, subtract: false, half_carry: true, carry: f.carry }
}

/// RES b, v.
pub open spec fn res8(b: u8, v: u8) -> u8 {
    v & !(1u8 << b)
}

/// SET b, v.
pub open spec fn set8(b: u8, v: u8) -> u8 {
    v | (1u8 << b)
}

/// 16-bit addition into HL: the zero flag is kept.
pub open spec fn add16(hl: u16, v: u16, f: Flags) -> (u16, Flags) {
    (
        hl.wrapping_add(v),
        Flags {
            zero: f.zero,
            subtract: false,
            half_carry: hl % 0x1000 + v % 0x1000 > 0xfff,
            carry: hl > 0xffff - v,
        },
    )
}

/// Adding a signed 8-bit offset to SP: flags come from the low byte.
pub open spec fn add_sp8(sp: u16, n: u8) -> (u16, Flags) {
    let s = n as i8 as i16 as u16;
    (
        sp.wrapping_add(s),
        Flags {
            zero: false,
            subtract: false,
            half_carry: sp % 16 + s % 16 > 0xf,
            carry: sp % 256 + s % 256 > 0xff,
        },
    )
}

pub fn add_sp(sp: u16, n: u8) -> (r: (u16, Flags))
    ensures
        r == add_sp8(sp, n),
{
    let s = n as i8 as i16 as u16;
    (
        sp.wrapping_add(s),
        Flags {
            zero: false,
            subtract: false,
            half_carry: sp % 16 + s % 16 > 0xf,
            carry: sp % 256 + s % 256 > 0xff,
        },
    )
}

/// Decimal adjust of A after a BCD addition or subtraction.
pub open spec fn daa8(a: u8, f: Flags) -> (u8, Flags) {
    let adjust0: u8 = if f.carry { 0x60 } else { 0x00 };
    let adjust1: u8 = if f.half_carry { adjust0 | 0x06 } else { adjust0 };
    let (r, adjust) = if !f.subtract {
        let adjust2: u8 = if a % 16 > 0x09 { adjust1 | 0x06 } else { adjust1 };
        let adjust3: u8 = if a > 0x99 { adjust2 | 0x60 } else { adjust2 };
        (a.wrapping_add(adjust3), adjust3)
    } else {
        (a.wrapping_sub(adjust1), adjust1)
    };
    (r, Flags { zero: r == 0, subtract: f.subtract, half_carry: false, carry: adjust >= 0x60 })
}

pub fn daa(a: u8, f: Flags) -> (r: (u8, Flags))
    ensures
        r == daa8(a, f),
{
    let mut a = a;
    let mut adjust: u8 = if f.carry { 0x60 } else { 0x00 };
    if f.half_carry {
        adjust = adjust | 0x06;
    }
    if !f.subtract {
        if a % 16 > 0x09 {
            adjust = adjust | 0x06;
        }
        if a > 0x99 {
            adjust = adjust | 0x60;
        }
        a = a.wrapping_add(adjust);
    } else {
        a = a.wrapping_sub(adjust);
    }
    (a, Flags { zero: a == 0, subtract: f.subtract, half_carry: false, carry: adjust >= 0x60 })
}

/// Whether a byte holds two decimal digits (packed BCD).
pub open spec fn is_bcd(b: u8) -> bool {
    b / 16 <= 9 && b % 16 <= 9
}

/// The number 0-99 that a packed-BCD byte holds.
pub open spec fn bcd_value(b: u8) -> int {
    (b / 16) * 10 + b % 16
}

/// The packed-BCD byte of a number 0-99: tens in the high nibble, units in the low one.
pub open spec fn bcd_byte(n: int) -> int {
    (n / 10) * 16 + n % 10
}

/// DAA after a BCD addition: adding two packed-BCD bytes (with or without a carry in) and
/// then adjusting gives the packed-BCD byte of the decimal sum modulo 100, and the carry
/// flag tells whether the sum reached 100.
pub proof fn lemma_daa_after_add(x: u8, y: u8, carry_in: bool)
    requires
        is_bcd(x),
        is_bcd(y),
    ensures
        ({
            let c: int = if carry_in { 1 } else { 0 };
            let (s, f) = add8(x, y);
            let (r, g) = daa8(s, f);
            &&& !carry_in ==> r == bcd_byte((bcd_value(x) + bcd_value(y)) % 100)
            &&& !carry_in ==> g.carry == (bcd_value(x) + bcd_value(y) >= 100)
            &&& !carry_in ==> g.zero == (r == 0) && !g.subtract && !g.half_carry
        }),
        ({
            let c: int = if carry_in { 1 } else { 0 };
            let (s, f) = adc8(x, y, carry_in);
            let (r, g) = daa8(s, f);
            &&& r == bcd_byte((bcd_value(x) + bcd_value(y) + c) % 100)
            &&& g.carry == (bcd_value(x) + bcd_value(y) + c >= 100)
            &&& g.zero == (r == 0) && !g.subtract && !g.half_carry
        }),
{
    let ci: u8 = if carry_in { 1 } else { 0 };
    // addition without carry in
    let (s, f) = add8(x, y);
    let a0: u8 = if f.carry { 0x60 } else { 0x00 };
    let a1: u8 = if f.half_carry { a0 | 0x06 } else { a0 };
    let a2: u8 = if s % 16 > 0x09 { a1 | 0x06 } else { a1 };
    let a3: u8 = if s > 0x99 { a2 | 0x60 } else { a2 };
    let r = s.wrapping_add(a3);
    assert(x / 16 <= 9 && x % 16 <= 9 && y / 16 <= 9 && y % 16 <= 9 && s == (if x + y > 255 {
        (x + y - 256) as u8
    } else {
        (x + y) as u8
    }) && a0 == (if x + y > 255 { 0x60u8 } else { 0u8 }) && a1 == (if x % 16 + y % 16 > 15 {
        a0 | 0x06u8
    } else {
        a0
    }) && a2 == (if s % 16 > 9 { a1 | 0x06u8 } else { a1 }) && a3 == (if s > 0x99 { a2 | 0x60u8 } else { a2 })
        && r == (if s + a3 > 255 { (s + a3 - 256) as u8 } else { (s + a3) as u8 }) ==> r == ((x / 16 * 10
        + x % 16 + y / 16 * 10 + y % 16) % 100) / 10 * 16 + ((x / 16 * 10 + x % 16 + y / 16 * 10 + y % 16)
        % 100) % 10 && (a3 >= 0x60) == (x / 16 * 10 + x % 16 + y / 16 * 10 + y % 16 >= 100)) by (bit_vector);
    // addition with carry in
    let (s2, f2) = adc8(x, y, carry_in);
    let b0: u8 = if f2.carry { 0x60 } else { 0x00 };
    let b1: u8 = if f2.half_carry { b0 | 0x06 } else { b0 };
    let b2: u8 = if s2 % 16 > 0x09 { b1 | 0x06 } else { b1 };
    let b3: u8 = if s2 > 0x99 { b2 | 0x60 } else { b2 };
    let r2 = s2.wrapping_add(b3);
    let t = x.wrapping_add(y);
    assert(x / 16 <= 9 && x % 16 <= 9 && y / 16 <= 9 && y % 16 <= 9 && ci <= 1 && t == (if x + y > 255 {
        (x + y - 256) as u8
    } else {
        (x + y) as u8
    }) && s2 == (if t + ci > 255 { (t + ci - 256) as u8 } else { (t + ci) as u8 }) && b0 == (if x + y + ci
        > 255 {
        0x60u8
    } else {
        0u8
    }) && b1 == (if x % 16 + y % 16 + ci > 15 { b0 | 0x06u8 } else { b0 }) && b2 == (if s2 % 16 > 9 {
        b1 | 0x06u8
    } else {
        b1
    }) && b3 == (if s2 > 0x99 { b2 | 0x60u8 } else { b2 }) && r2 == (if s2 + b3 > 255 {
        (s2 + b3 - 256) as u8
    } else {
        (s2 + b3) as u8
    }) ==> r2 == ((x / 16 * 10 + x % 16 + y / 16 * 10 + y % 16 + ci) % 100) / 10 * 16 + ((x / 16 * 10 + x % 16
        + y / 16 * 10 + y % 16 + ci) % 100) % 10 && (b3 >= 0x60) == (x / 16 * 10 + x % 16 + y / 16 * 10 + y % 16
        + ci >= 100)) by (bit_vector);
}

/// DAA after a BCD subtraction: subtracting one packed-BCD byte from another (with or
/// without a borrow in) and then adjusting gives the packed-BCD byte of the decimal difference
/// modulo 100, and the carry flag tells whether it went below zero.
pub proof fn lemma_daa_after_sub(x: u8, y: u8, borrow_in: bool)
    requires
        is_bcd(x),
        is_bcd(y),
    ensures
        ({
            let (s, f) = sub8(x, y);
            let (r, g) = daa8(s, f);
            &&& r == bcd_byte((bcd_value(x) - bcd_value(y)) % 100)
            &&& g.carry == (bcd_value(x) < bcd_value(y))
            &&& g.zero == (r == 0) && g.subtract && !g.half_carry
        }),
        ({
            let c: int = if borrow_in { 1 } else { 0 };
            let (s, f) = sbc8(x, y, borrow_in);
            let (r, g) = daa8(s, f);
            &&& r == bcd_byte((bcd_value(x) - bcd_value(y) - c) % 100)
            &&& g.carry == (bcd_value(x) - bcd_value(y) - c < 0)
            &&& g.zero == (r == 0) && g.subtract && !g.half_carry
        }),
{
    let ci: u8 = if borrow_in { 1 } else { 0 };
    let (s, f) = sbc8(x, y, borrow_in);
    let a0: u8 = if f.carry { 0x60 } else { 0x00 };
    let a1: u8 = if f.half_carry { a0 | 0x06 } else { a0 };
    let r = s.wrapping_sub(a1);
    let t = x.wrapping_sub(y);
    assert(x / 16 <= 9 && x % 16 <= 9 && y / 16 <= 9 && y % 16 <= 9 && ci <= 1 && t == (if x < y {
        (x - y + 256) as u8
    } else {
        (x - y) as u8
    }) && s == (if t < ci { (t - ci + 256) as u8 } else { (t - ci) as u8 }) && a0 == (if x < y + ci {
        0x60u8
    } else {
        0u8
    }) && a1 == (if x % 16 < y % 16 + ci { a0 | 0x06u8 } else { a0 }) && r == (if s < a1 {
        (s - a1 + 256) as u8
    } else {
        (s - a1) as u8
    }) ==> r == ((x / 16 * 10 + x % 16 + 100 - (y / 16 * 10 + y % 16) - ci) % 100) / 10 * 16 + ((x / 16 * 10
        + x % 16 + 100 - (y / 16 * 10 + y % 16) - ci) % 100) % 10 && (a1 >= 0x60) == (x / 16 * 10 + x % 16 < y
        / 16 * 10 + y % 16 + ci)) by (bit_vector);
    let (s1, f1) = sub8(x, y);
    let c0: u8 = if f1.carry { 0x60 } else { 0x00 };
    let c1: u8 = if f1.half_carry { c0 | 0x06 } else { c0 };
    let r1 = s1.wrapping_sub(c1);
    assert(x / 16 <= 9 && x % 16 <= 9 && y / 16 <= 9 && y % 16 <= 9 && s1 == (if x < y {
        (x - y + 256) as u8
    } else {
        (x - y) as u8
    }) && c0 == (if x < y { 0x60u8 } else { 0u8 }) && c1 == (if x % 16 < y % 16 { c0 | 0x06u8 } else { c0 })
        && r1 == (if s1 < c1 { (s1 - c1 + 256) as u8 } else { (s1 - c1) as u8 }) ==> r1 == ((x / 16 * 10 + x % 16
        + 100 - (y / 16 * 10 + y % 16)) % 100) / 10 * 16 + ((x / 16 * 10 + x % 16 + 100 - (y / 16 * 10 + y % 16))
        % 100) % 10 && (c1 >= 0x60) == (x / 16 * 10 + x % 16 < y / 16 * 10 + y % 16)) by (bit_vector);
    let dx = bcd_value(x);
    let dy = bcd_value(y);
    assert((dx - dy) % 100 == (dx + 100 - dy) % 100) by (nonlinear_arith)
        requires
            0 <= dx <= 99,
            0 <= dy <= 99,
    ;
    assert((dx - dy - ci) % 100 == (dx + 100 - dy - ci) % 100) by (nonlinear_arith)
        requires
            0 <= dx <= 99,
            0 <= dy <= 99,
            0 <= ci <= 1,
    ;
}

} // verus!
