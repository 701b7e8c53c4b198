use vstd::prelude::*;
use crate::addressable::{Addressable, word_of, low_byte, high_byte, lemma_word_roundtrip};
use crate::cpu::{Cpu, lowest_bit};
use crate::mmu::{Mmu, INTERRUPT_FLAGS, INTERRUPT_ENABLE, is_plain_addr, same_cell, lemma_write_read, lemma_write_other};

verus! {

/// EI turns the master enable on only through the dispatch that ends its step: the
/// instruction itself sets the pending flag, and when no interrupt is requested and enabled,
/// the dispatch then turns the master enable on and clears the pending flag.
pub proof fn lemma_ei_delay<B: Addressable>(c: Cpu<B>)
    requires
        c.bus.spec_read_byte(0xFF0F) & c.bus.spec_read_byte(0xFFFF) == 0,
    ensures
        c.spec_execute(0xFB).0.ime == c.ime,
        c.spec_execute(0xFB).0.ime_next,
        c.spec_execute(0xFB).0.spec_handle_interrupts().0.ime,
        !c.spec_execute(0xFB).0.spec_handle_interrupts().0.ime_next,
{
}

/// DI right after EI cancels it: the master enable stays off through the next dispatch.
pub proof fn lemma_di_cancels_ei<B: Addressable>(c: Cpu<B>)
    ensures
        ({
            let c1 = c.spec_execute(0xFB).0.spec_execute(0xF3).0;
            &&& !c1.ime && !c1.ime_next
            &&& !c1.spec_handle_interrupts().0.ime
            &&& !c1.spec_handle_interrupts().0.ime_next
        }),
{
}

/// RETI returns to the address on top of the stack and turns the master enable on at once.
pub proof fn lemma_reti<B: Addressable>(c: Cpu<B>)
    ensures
        c.spec_execute(0xD9).0.ime,
        c.spec_execute(0xD9).1 == Ok::<(u16, u32), crate::cpu::CpuErr>((c.spec_top(), 13)),
        c.spec_execute(0xD9).0.reg.sp == c.reg.sp.wrapping_add(2),
{
}

/// Interrupt dispatch: when the master enable is on and some interrupt is both requested and
/// enabled, the one with the lowest bit is taken: execution goes to its vector 0x40 + 8n,
/// 20 cycles are added, the master enable and any pending EI are cleared, HALT ends, and the
/// return address is pushed.
pub proof fn lemma_dispatch<B: Addressable>(c: Cpu<B>)
    requires
        c.ime,
        c.bus.spec_read_byte(0xFF0F) & c.bus.spec_read_byte(0xFFFF) != 0,
    ensures
        ({
            let n = lowest_bit(c.bus.spec_read_byte(0xFF0F) & c.bus.spec_read_byte(0xFFFF));
            let (c1, r) = c.spec_handle_interrupts();
            &&& n < 5 ==> r == Some(((0x40 + 8 * n) as u16, 20u32))
            &&& !c1.ime && !c1.ime_next && !c1.halted
            &&& c1.reg.sp == c.reg.sp.wrapping_sub(2)
        }),
{
    let x = c.bus.spec_read_byte(0xFF0F) & c.bus.spec_read_byte(0xFFFF);
    let n = lowest_bit(x);
    assert(n < 5 ==> 0x0040u16 | ((n as u16) << 3u16) == (0x40 + 8 * n) as u16) by (bit_vector);
}

/// Without the master enable no interrupt is taken, but a requested and enabled one still
/// ends HALT.
pub proof fn lemma_halt_wakes<B: Addressable>(c: Cpu<B>)
    requires
        !c.ime,
        c.bus.spec_read_byte(0xFF0F) & c.bus.spec_read_byte(0xFFFF) != 0,
    ensures
        c.spec_handle_interrupts().1 is None,
        !c.spec_handle_interrupts().0.halted,
        c.spec_handle_interrupts().0.reg == c.reg,
        c.spec_handle_interrupts().0.bus == c.bus,
{
}

/// On the memory map, a dispatch acknowledges the interrupt: IF reads back with the taken bit
/// cleared, and the return address is on top of the stack (the stack bytes being plain memory
/// apart from the interrupt registers).
pub proof fn lemma_dispatch_acknowledges(c: Cpu<Mmu>)
    requires
        c.ime,
        c.bus.spec_read(INTERRUPT_FLAGS) & c.bus.spec_read(INTERRUPT_ENABLE) != 0,
        c.reg.sp >= 2,
        is_plain_addr((c.reg.sp - 2) as u16),
        is_plain_addr((c.reg.sp - 1) as u16),
        !same_cell((c.reg.sp - 2) as u16, (c.reg.sp - 1) as u16),
        !same_cell((c.reg.sp - 2) as u16, INTERRUPT_FLAGS),
        !same_cell((c.reg.sp - 1) as u16, INTERRUPT_FLAGS),
    ensures
        ({
            let intf = c.bus.spec_read(INTERRUPT_FLAGS);
            let n = lowest_bit(intf & c.bus.spec_read(INTERRUPT_ENABLE));
            let c1 = c.spec_handle_interrupts().0;
            &&& c1.bus.spec_read(INTERRUPT_FLAGS) == intf & !(1u8 << n)
            &&& c1.spec_top() == c.reg.pc
        }),
{
    let intf = c.bus.spec_read(INTERRUPT_FLAGS);
    let n = lowest_bit(intf & c.bus.spec_read(INTERRUPT_ENABLE));
    let b1 = c.bus.spec_write(INTERRUPT_FLAGS, intf & !(1u8 << n));
    lemma_write_read(c.bus, INTERRUPT_FLAGS, intf & !(1u8 << n));
    let sp = (c.reg.sp - 2) as u16;
    let b2 = b1.spec_write(sp, low_byte(c.reg.pc));
    lemma_write_other(b1, sp, low_byte(c.reg.pc), INTERRUPT_FLAGS);
    lemma_write_read(b1, sp, low_byte(c.reg.pc));
    lemma_write_other(b2, (sp + 1) as u16, high_byte(c.reg.pc), INTERRUPT_FLAGS);
    lemma_write_other(b2, (sp + 1) as u16, high_byte(c.reg.pc), sp);
    lemma_write_read(b2, (sp + 1) as u16, high_byte(c.reg.pc));
    lemma_word_roundtrip(c.reg.pc);
}

/// Popping what was pushed gives the word back and restores SP, when the two stack bytes are
/// distinct plain cells.
pub proof fn lemma_push_pop(c: Cpu<Mmu>, v: u16)
    requires
        c.reg.sp >= 2,
        is_plain_addr((c.reg.sp - 2) as u16),
        is_plain_addr((c.reg.sp - 1) as u16),
        !same_cell((c.reg.sp - 2) as u16, (c.reg.sp - 1) as u16),
    ensures
        c.spec_push(v).spec_top() == v,
        c.spec_push(v).spec_popped().reg == c.reg,
{
    let sp = (c.reg.sp - 2) as u16;
    let b1 = c.bus.spec_write(sp, low_byte(v));
    lemma_write_read(c.bus, sp, low_byte(v));
    lemma_write_other(b1, (sp + 1) as u16, high_byte(v), sp);
    lemma_write_read(b1, (sp + 1) as u16, high_byte(v));
    lemma_word_roundtrip(v);
}

/// The arithmetic block of the opcode table (0x80-0xBF): bits 0-2 name the operand (B, C, D,
/// E, H, L, the byte at HL, A) and bits 3-5 the operation on A: ADD, ADC, SUB, SBC, AND, XOR,
/// OR, CP. Each sets A to the result (CP keeps A) and the flags as the operation defines them,
/// changes nothing else, and takes 4 cycles (8 with the byte at HL).
pub proof fn lemma_alu_opcodes<B: Addressable>(c: Cpu<B>, op: u8)
    requires
        0x80 <= op <= 0xBF,
    ensures
        ({
            let a = c.reg.a;
            let v = if op % 8 == 0 {
                c.reg.b
            } else if op % 8 == 1 {
                c.reg.c
            } else if op % 8 == 2 {
                c.reg.d
            } else if op % 8 == 3 {
                c.reg.e
            } else if op % 8 == 4 {
                c.reg.h
            } else if op % 8 == 5 {
                c.reg.l
            } else if op % 8 == 6 {
                c.bus.spec_read_byte(c.reg.spec_hl())
            } else {
                a
            };
            let cin: int = if c.reg.f.carry { 1 } else { 0 };
            let (c2, res) = c.spec_execute(op);
            let r = c2.reg.a;
            let f = c2.reg.f;
            let k = op / 8 % 8;
            &&& res == Ok::<(u16, u32), crate::cpu::CpuErr>((c.reg.pc.wrapping_add(1), if op % 8 == 6 { 8u32 } else { 4u32 }))
            &&& c2 == (Cpu { reg: crate::cpu::registers::Registers { a: r, f, ..c.reg }, ..c })
            &&& k == 0 ==> r == (a + v) % 256 && f.carry == (a + v > 255) && f.half_carry == (a % 16 + v % 16 > 15)
                && !f.subtract
            &&& k == 1 ==> r == (a + v + cin) % 256 && f.carry == (a + v + cin > 255) && f.half_carry == (a % 16
                + v % 16 + cin > 15) && !f.subtract
            &&& k == 2 ==> r == (a - v + 256) % 256 && f.carry == (a < v) && f.half_carry == (a % 16 < v % 16)
                && f.subtract
            &&& k == 3 ==> r == (a - v - cin + 512) % 256 && f.carry == (a < v + cin) && f.half_carry == (a % 16 < v
                % 16 + cin) && f.subtract
            &&& k == 4 ==> r == a & v && !f.carry && f.half_carry && !f.subtract
            &&& k == 5 ==> r == a ^ v && !f.carry && !f.half_carry && !f.subtract
            &&& k == 6 ==> r == a | v && !f.carry && !f.half_carry && !f.subtract
            &&& k == 7 ==> r == a && f.zero == (a == v) && f.carry == (a < v) && f.half_carry == (a % 16 < v % 16)
                && f.subtract
            &&& k != 7 ==> f.zero == (r == 0)
        }),
{
    let a = c.reg.a;
    let src = op % 8;
    let k = op / 8 % 8;
    let v = c.spec_r8(src);
    let (r, f) = crate::cpu::alu::alu8(k, a, v, c.reg.f);
    assert(c.spec_execute(op) == (c.spec_with_a_f(r, f), Ok::<(u16, u32), crate::cpu::CpuErr>((
        c.reg.pc.wrapping_add(1),
        if src == 6 { 8u32 } else { 4u32 },
    ))));
    lemma_alu8_arith(k, a, v, c.reg.f);
}

/// The operations of `alu8` in plain arithmetic.
proof fn lemma_alu8_arith(k: u8, a: u8, v: u8, f0: crate::cpu::registers::Flags)
    requires
        k < 8,
    ensures
        ({
            let cin: int = if f0.carry { 1 } else { 0 };
            let (r, f) = crate::cpu::alu::alu8(k, a, v, f0);
            &&& k == 0 ==> r == (a + v) % 256 && f.carry == (a + v > 255) && f.half_carry == (a % 16 + v % 16 > 15)
                && !f.subtract
            &&& k == 1 ==> r == (a + v + cin) % 256 && f.carry == (a + v + cin > 255) && f.half_carry == (a % 16
                + v % 16 + cin > 15) && !f.subtract
            &&& k == 2 ==> r == (a - v + 256) % 256 && f.carry == (a < v) && f.half_carry == (a % 16 < v % 16)
                && f.subtract
            &&& k == 3 ==> r == (a - v - cin + 512) % 256 && f.carry == (a < v + cin) && f.half_carry == (a % 16 < v
                % 16 + cin) && f.subtract
            &&& k == 4 ==> r == a & v && !f.carry && f.half_carry && !f.subtract
            &&& k == 5 ==> r == a ^ v && !f.carry && !f.half_carry && !f.subtract
            &&& k == 6 ==> r == a | v && !f.carry && !f.half_carry && !f.subtract
            &&& k == 7 ==> r == a && f.zero == (a == v) && f.carry == (a < v) && f.half_carry == (a % 16 < v % 16)
                && f.subtract
            &&& k != 7 ==> f.zero == (r == 0)
        }),
{
    let cin: int = if f0.carry { 1 } else { 0 };
    if k == 0 {
        lemma_mod_256(a + v);
    } else if k == 1 {
        lemma_mod_256(a + v + cin);
    } else if k == 2 {
        lemma_mod_256(a - v + 256);
    } else if k == 3 {
        lemma_mod_256(a - v - cin + 512);
        lemma_mod_256(a - v - cin + 256);
    }
}

/// Reducing a number 0-767 modulo 256.
proof fn lemma_mod_256(x: int)
    requires
        0 <= x < 768,
    ensures
        x < 256 ==> x % 256 == x,
        256 <= x < 512 ==> x % 256 == x - 256,
        512 <= x ==> x % 256 == x - 512,
{
}

/// The value of bit `b` of a byte: 1, 2, 4, ..., 128.
pub open spec fn bit_weight(b: int) -> int {
    if b == 0 {
        1
    } else if b == 1 {
        2
    } else if b == 2 {
        4
    } else if b == 3 {
        8
    } else if b == 4 {
        16
    } else if b == 5 {
        32
    } else if b == 6 {
        64
    } else {
        128
    }
}

/// The result of the rotate or shift numbered `k` (RLC, RRC, RL, RR, SLA, SRA, SWAP, SRL) on
/// `v` with carry `cin`, in plain arithmetic.
pub open spec fn rotated(k: int, v: int, cin: int) -> int {
    if k == 0 {
        (v * 2) % 256 + v / 128
    } else if k == 1 {
        v / 2 + (v % 2) * 128
    } else if k == 2 {
        (v * 2) % 256 + cin
    } else if k == 3 {
        v / 2 + cin * 128
    } else if k == 4 {
        (v * 2) % 256
    } else if k == 5 {
        v / 2 + (v / 128) * 128
    } else if k == 6 {
        (v % 16) * 16 + v / 16
    } else {
        v / 2
    }
}

/// The carry out of the rotate or shift numbered `k`: bit 7 for left moves, bit 0 for right
/// moves, none for SWAP.
pub open spec fn rotated_out(k: int, v: int) -> bool {
    if k == 0 || k == 2 || k == 4 {
        v >= 128
    } else if k == 6 {
        false
    } else {
        v % 2 == 1
    }
}

/// The CB-prefixed opcode table: bits 0-2 name the operand (B, C, D, E, H, L, the byte at HL,
/// A). 0x00-0x3F rotate or shift it (bits 3-5: RLC, RRC, RL, RR, SLA, SRA, SWAP, SRL), setting
/// Z from the result and C from the bit moved out; 0x40-0x7F test bit `b` (bits 3-5), setting Z
/// when it is clear and H, keeping C; 0x80-0xBF clear bit `b`; 0xC0-0xFF set it. Nothing else
/// changes; 8 cycles (16 with the byte at HL).
pub proof fn lemma_cb_opcodes<B: Addressable>(c: Cpu<B>, n: u8)
    ensures
        ({
            let v = c.spec_r8(n % 8) as int;
            let cin: int = if c.reg.f.carry { 1 } else { 0 };
            let k = (n / 8 % 8) as int;
            let w = bit_weight(k);
            let bit = (v / w) % 2;
            let (c2, res) = c.spec_execute_prefixed(n);
            &&& res == Ok::<(u16, u32), crate::cpu::CpuErr>((c.reg.pc.wrapping_add(2), if n % 8 == 6 { 16u32 } else { 8u32 }))
            &&& n < 0x40 ==> c2 == c.spec_with_f(
                crate::cpu::registers::Flags {
                    zero: rotated(k, v, cin) == 0,
                    subtract: false,
                    half_carry: false,
                    carry: rotated_out(k, v),
                },
            ).spec_with_r8(n % 8, rotated(k, v, cin) as u8)
            &&& 0x40 <= n < 0x80 ==> c2 == c.spec_with_f(
                crate::cpu::registers::Flags { zero: bit == 0, subtract: false, half_carry: true, carry: c.reg.f.carry },
            )
            &&& 0x80 <= n < 0xC0 ==> c2 == c.spec_with_r8(n % 8, (v - bit * w) as u8)
            &&& 0xC0 <= n ==> c2 == c.spec_with_r8(n % 8, (v + (1 - bit) * w) as u8)
        }),
{
    let v8 = c.spec_r8(n % 8);
    let k8 = n / 8 % 8;
    let ci: u8 = if c.reg.f.carry { 1 } else { 0 };
    let p: u8 = bit_weight(k8 as int) as u8;
    assert(k8 < 8 ==> p == (1u8 << k8)) by (bit_vector)
        requires
            p == (if k8 == 0 { 1u8 } else if k8 == 1 { 2u8 } else if k8 == 2 { 4u8 } else if k8 == 3 { 8u8 } else if k8
                == 4 { 16u8 } else if k8 == 5 { 32u8 } else if k8 == 6 { 64u8 } else { 128u8 }),
    ;
    assert(k8 < 8 && p == (1u8 << k8) ==> ((v8 & p) == 0) == ((v8 / p) % 2 == 0) && (v8 & !p) == v8 - ((v8 / p) % 2)
        * p && (v8 | p) == v8 + (1 - (v8 / p) % 2) * p) by (bit_vector);
    assert(ci <= 1 ==> ((v8 << 1u8) | (v8 >> 7u8)) == (v8 * 2) % 256 + v8 / 128 && ((v8 >> 7u8) != 0) == (v8 >= 128)
        && ((v8 >> 1u8) | (v8 << 7u8)) == v8 / 2 + (v8 % 2) * 128 && ((v8 & 1) != 0) == (v8 % 2 == 1) && ((v8 << 1u8)
        | ci) == (v8 * 2) % 256 + ci && ((v8 >> 1u8) | (ci << 7u8)) == v8 / 2 + ci * 128 && (v8 << 1u8) == (v8 * 2)
        % 256 && ((v8 & 0x80) | (v8 >> 1u8)) == v8 / 2 + (v8 / 128) * 128 && ((v8 << 4u8) | (v8 >> 4u8)) == (v8 % 16)
        * 16 + v8 / 16 && (v8 >> 1u8) == v8 / 2) by (bit_vector);
}

/// The load block of the opcode table (0x40-0x7F but HALT): the operand named by bits 3-5
/// receives the value of the operand named by bits 0-2 (B, C, D, E, H, L, the byte at HL, A);
/// nothing else changes; 4 cycles (8 with the byte at HL).
pub proof fn lemma_load_opcodes<B: Addressable>(c: Cpu<B>, op: u8)
    requires
        0x40 <= op <= 0x7F,
        op != 0x76,
    ensures
        c.spec_execute(op) == (
            c.spec_with_r8(op / 8 % 8, c.spec_r8(op % 8)),
            Ok::<(u16, u32), crate::cpu::CpuErr>((
                c.reg.pc.wrapping_add(1),
                if op % 8 == 6 || op / 8 % 8 == 6 { 8u32 } else { 4u32 },
            )),
        ),
{
}

/// INC r and DEC r (0x04 + 8 r and 0x05 + 8 r): the operand named by r (B, C, D, E, H, L,
/// the byte at HL, A) goes up or down by one, wrapping; Z follows the result, N is set for
/// DEC, H tells whether the low nibble carried (INC, from 0xF) or borrowed (DEC, from 0x0),
/// and C stays.
pub proof fn lemma_inc_dec_opcodes<B: Addressable>(c: Cpu<B>, op: u8)
    requires
        op < 0x40,
        op % 8 == 4 || op % 8 == 5,
    ensures
        ({
            let r = op / 8;
            let v = c.spec_r8(r) as int;
            let inc = op % 8 == 4;
            let nv: int = if inc { (v + 1) % 256 } else { (v + 255) % 256 };
            c.spec_execute(op) == (
                c.spec_with_f(
                    crate::cpu::registers::Flags {
                        zero: nv == 0,
                        subtract: !inc,
                        half_carry: if inc { v % 16 == 15 } else { v % 16 == 0 },
                        carry: c.reg.f.carry,
                    },
                ).spec_with_r8(r, nv as u8),
                Ok::<(u16, u32), crate::cpu::CpuErr>((c.reg.pc.wrapping_add(1), if r == 6 { 12u32 } else { 4u32 })),
            )
        }),
{
    let v = c.spec_r8(op / 8) as int;
    lemma_mod_256(v + 1);
    lemma_mod_256(v + 255);
    assert(c.spec_execute(op) == c.spec_execute_low(op));
}

/// The conditional branches: condition `i` (bits 3-4 of the opcode) is NZ, Z, NC or C. JR cc
/// (0x20 + 8 i), JP cc (0xC2 + 8 i), CALL cc (0xC4 + 8 i) and RET cc (0xC0 + 8 i) branch exactly
/// when it holds (taking the longer time), and otherwise go on to the next instruction.
pub proof fn lemma_conditional_branches<B: Addressable>(c: Cpu<B>, i: u8)
    requires
        i < 4,
    ensures
        ({
            let taken = if i == 0 {
                !c.reg.f.zero
            } else if i == 1 {
                c.reg.f.zero
            } else if i == 2 {
                !c.reg.f.carry
            } else {
                c.reg.f.carry
            };
            let pc = c.reg.pc;
            &&& c.spec_execute((0x20 + 8 * i) as u8) == (c, Ok::<(u16, u32), crate::cpu::CpuErr>(
                if taken { (c.spec_jr_target(), 12u32) } else { (pc.wrapping_add(2), 8u32) },
            ))
            &&& c.spec_execute((0xC2 + 8 * i) as u8) == (c, Ok::<(u16, u32), crate::cpu::CpuErr>(
                if taken { (c.spec_imm16(), 16u32) } else { (pc.wrapping_add(3), 12u32) },
            ))
            &&& c.spec_execute((0xC4 + 8 * i) as u8) == if taken {
                (c.spec_push(pc.wrapping_add(3)), Ok::<(u16, u32), crate::cpu::CpuErr>((c.spec_imm16(), 24u32)))
            } else {
                (c, Ok::<(u16, u32), crate::cpu::CpuErr>((pc.wrapping_add(3), 12u32)))
            }
            &&& c.spec_execute((0xC0 + 8 * i) as u8) == if taken {
                (c.spec_popped(), Ok::<(u16, u32), crate::cpu::CpuErr>((c.spec_top(), 20u32)))
            } else {
                (c, Ok::<(u16, u32), crate::cpu::CpuErr>((pc.wrapping_add(1), 8u32)))
            }
        }),
{
    if i == 0 {
        lemma_branches_at(c, 0x20, 0xC2, 0xC4, 0xC0);
    } else if i == 1 {
        lemma_branches_at(c, 0x28, 0xCA, 0xCC, 0xC8);
    } else if i == 2 {
        lemma_branches_at(c, 0x30, 0xD2, 0xD4, 0xD0);
    } else {
        lemma_branches_at(c, 0x38, 0xDA, 0xDC, 0xD8);
    }
}

/// The four branch opcodes of one condition go to the conditional-branch code.
proof fn lemma_branches_at<B: Addressable>(c: Cpu<B>, jr: u8, jp: u8, call: u8, ret: u8)
    requires
        (jr, jp, call, ret) == (0x20u8, 0xC2u8, 0xC4u8, 0xC0u8) || (jr, jp, call, ret) == (0x28u8, 0xCAu8, 0xCCu8, 0xC8u8)
            || (jr, jp, call, ret) == (0x30u8, 0xD2u8, 0xD4u8, 0xD0u8) || (jr, jp, call, ret) == (0x38u8, 0xDAu8, 0xDCu8,
        0xD8u8),
    ensures
        ({
            let i = ((jr - 0x20) / 8) as u8;
            let pc = c.reg.pc;
            let taken = c.spec_cond(i);
            &&& c.spec_execute(jr) == (c, Ok::<(u16, u32), crate::cpu::CpuErr>(
                if taken { (c.spec_jr_target(), 12u32) } else { (pc.wrapping_add(2), 8u32) },
            ))
            &&& c.spec_execute(jp) == (c, Ok::<(u16, u32), crate::cpu::CpuErr>(
                if taken { (c.spec_imm16(), 16u32) } else { (pc.wrapping_add(3), 12u32) },
            ))
            &&& c.spec_execute(call) == if taken {
                (c.spec_push(pc.wrapping_add(3)), Ok::<(u16, u32), crate::cpu::CpuErr>((c.spec_imm16(), 24u32)))
            } else {
                (c, Ok::<(u16, u32), crate::cpu::CpuErr>((pc.wrapping_add(3), 12u32)))
            }
            &&& c.spec_execute(ret) == if taken {
                (c.spec_popped(), Ok::<(u16, u32), crate::cpu::CpuErr>((c.spec_top(), 20u32)))
            } else {
                (c, Ok::<(u16, u32), crate::cpu::CpuErr>((pc.wrapping_add(1), 8u32)))
            }
        }),
{
    assert(c.spec_execute(jr) == c.spec_execute_low(jr));
    assert(c.spec_execute(jp) == c.spec_execute_high(jp));
    assert(c.spec_execute(call) == c.spec_execute_high(call));
    assert(c.spec_execute(ret) == c.spec_execute_high(ret));
}

/// The arithmetic operations on an immediate (0xC6 + 8 k): the same operations as the
/// arithmetic block, numbered by bits 3-5, on the byte after the opcode; 8 cycles.
pub proof fn lemma_alu_immediate_opcodes<B: Addressable>(c: Cpu<B>, op: u8)
    requires
        op >= 0xC0,
        op % 8 == 6,
    ensures
        ({
            let a = c.reg.a;
            let v = c.spec_imm8();
            let cin: int = if c.reg.f.carry { 1 } else { 0 };
            let (c2, res) = c.spec_execute(op);
            let r = c2.reg.a;
            let f = c2.reg.f;
            let k = op / 8 % 8;
            &&& res == Ok::<(u16, u32), crate::cpu::CpuErr>((c.reg.pc.wrapping_add(2), 8u32))
            &&& c2 == (Cpu { reg: crate::cpu::registers::Registers { a: r, f, ..c.reg }, ..c })
            &&& k == 0 ==> r == (a + v) % 256 && f.carry == (a + v > 255) && f.half_carry == (a % 16 + v % 16 > 15)
                && !f.subtract
            &&& k == 1 ==> r == (a + v + cin) % 256 && f.carry == (a + v + cin > 255) && f.half_carry == (a % 16
                + v % 16 + cin > 15) && !f.subtract
            &&& k == 2 ==> r == (a - v + 256) % 256 && f.carry == (a < v) && f.half_carry == (a % 16 < v % 16)
                && f.subtract
            &&& k == 3 ==> r == (a - v - cin + 512) % 256 && f.carry == (a < v + cin) && f.half_carry == (a % 16 < v
                % 16 + cin) && f.subtract
            &&& k == 4 ==> r == a & v && !f.carry && f.half_carry && !f.subtract
            &&& k == 5 ==> r == a ^ v && !f.carry && !f.half_carry && !f.subtract
            &&& k == 6 ==> r == a | v && !f.carry && !f.half_carry && !f.subtract
            &&& k == 7 ==> r == a && f.zero == (a == v) && f.carry == (a < v) && f.half_carry == (a % 16 < v % 16)
                && f.subtract
            &&& k != 7 ==> f.zero == (r == 0)
        }),
{
    let k = op / 8 % 8;
    let (r, f) = crate::cpu::alu::alu8(k, c.reg.a, c.spec_imm8(), c.reg.f);
    assert(c.spec_execute(op) == (c.spec_with_a_f(r, f), Ok::<(u16, u32), crate::cpu::CpuErr>((
        c.reg.pc.wrapping_add(2),
        8u32,
    ))));
    lemma_alu8_arith(k, c.reg.a, c.spec_imm8(), c.reg.f);
}

/// The 16-bit arithmetic on register pairs (bits 4-5 of the opcode: BC, DE, HL, SP): INC rr
/// (0x03 + 16 p) and DEC rr (0x0B + 16 p) add or subtract one modulo 65536 and leave the flags;
/// ADD HL, rr (0x09 + 16 p) adds modulo 65536, sets C on a carry out of bit 15 and H on one out
/// of bit 11, clears N and keeps Z.
#[verifier::rlimit(60)]
#[verifier::spinoff_prover]
pub proof fn lemma_pair_arith_opcodes<B: Addressable>(c: Cpu<B>, p: u8)
    requires
        p < 4,
    ensures
        ({
            let v = if p == 0 {
                c.reg.spec_bc()
            } else if p == 1 {
                c.reg.spec_de()
            } else if p == 2 {
                c.reg.spec_hl()
            } else {
                c.reg.sp
            } as int;
            let hl = c.reg.spec_hl() as int;
            let pc1 = c.reg.pc.wrapping_add(1);
            &&& c.spec_execute((0x03 + 16 * p) as u8) == (c.spec_with_r16(p, ((v + 1) % 65536) as u16), Ok::<
                (u16, u32),
                crate::cpu::CpuErr,
            >((pc1, 8u32)))
            &&& c.spec_execute((0x0B + 16 * p) as u8) == (c.spec_with_r16(p, ((v + 65535) % 65536) as u16), Ok::<
                (u16, u32),
                crate::cpu::CpuErr,
            >((pc1, 8u32)))
            &&& c.spec_execute((0x09 + 16 * p) as u8) == (c.spec_with_f(
                crate::cpu::registers::Flags {
                    zero: c.reg.f.zero,
                    subtract: false,
                    half_carry: hl % 4096 + v % 4096 > 4095,
                    carry: hl + v > 65535,
                },
            ).spec_with_r16(2, ((hl + v) % 65536) as u16), Ok::<(u16, u32), crate::cpu::CpuErr>((pc1, 8u32)))
        }),
{
    if p == 0 {
        lemma_pair_ops_at(c, 0, 0x03, 0x0B, 0x09);
    } else if p == 1 {
        lemma_pair_ops_at(c, 1, 0x13, 0x1B, 0x19);
    } else if p == 2 {
        lemma_pair_ops_at(c, 2, 0x23, 0x2B, 0x29);
    } else {
        lemma_pair_ops_at(c, 3, 0x33, 0x3B, 0x39);
    }
    let v = c.spec_r16(p) as int;
    let hl = c.reg.spec_hl() as int;
    assert(((v + 1) % 65536) as u16 == c.spec_r16(p).wrapping_add(1)) by {
        if v + 1 > 65535 {
            assert((v + 1) % 65536 == v + 1 - 65536);
        } else {
            assert((v + 1) % 65536 == v + 1);
        }
    }
    assert(((v + 65535) % 65536) as u16 == c.spec_r16(p).wrapping_sub(1)) by {
        if v == 0 {
            assert((v + 65535) % 65536 == 65535);
        } else {
            assert((v + 65535) % 65536 == v - 1);
        }
    }
    assert(((hl + v) % 65536) as u16 == c.reg.spec_hl().wrapping_add(c.spec_r16(p))) by {
        if hl + v > 65535 {
            assert((hl + v) % 65536 == hl + v - 65536);
        } else {
            assert((hl + v) % 65536 == hl + v);
        }
    }
}

/// The three pair opcodes of pair `p` go to the 16-bit arithmetic code.
proof fn lemma_pair_ops_at<B: Addressable>(c: Cpu<B>, p: u8, inc: u8, dec: u8, add: u8)
    requires
        (p, inc, dec, add) == (0u8, 0x03u8, 0x0Bu8, 0x09u8) || (p, inc, dec, add) == (1u8, 0x13u8, 0x1Bu8, 0x19u8) || (
        p,
        inc,
        dec,
        add,
        ) == (2u8, 0x23u8, 0x2Bu8, 0x29u8) || (p, inc, dec, add) == (3u8, 0x33u8, 0x3Bu8, 0x39u8),
    ensures
        inc == (0x03 + 16 * p) as u8 && dec == (0x0B + 16 * p) as u8 && add == (0x09 + 16 * p) as u8,
        c.spec_execute(inc) == (c.spec_with_r16(p, c.spec_r16(p).wrapping_add(1)), Ok::<(u16, u32), crate::cpu::CpuErr>(
            (c.reg.pc.wrapping_add(1), 8u32),
        )),
        c.spec_execute(dec) == (c.spec_with_r16(p, c.spec_r16(p).wrapping_sub(1)), Ok::<(u16, u32), crate::cpu::CpuErr>(
            (c.reg.pc.wrapping_add(1), 8u32),
        )),
        c.spec_execute(add) == ({
            let (hl, f) = crate::cpu::alu::add16(c.reg.spec_hl(), c.spec_r16(p), c.reg.f);
            (c.spec_with_f(f).spec_with_r16(2, hl), Ok::<(u16, u32), crate::cpu::CpuErr>((c.reg.pc.wrapping_add(1), 8u32)))
        }),
{
    assert(c.spec_execute(inc) == c.spec_execute_low(inc));
    assert(c.spec_execute(dec) == c.spec_execute_low(dec));
    assert(c.spec_execute(add) == c.spec_execute_low(add));
}

/// RST (0xC7 + 8 k): pushes the address of the next instruction and jumps to 8 k; 16 cycles.
pub proof fn lemma_rst_opcodes<B: Addressable>(c: Cpu<B>, k: u8)
    requires
        k < 8,
    ensures
        c.spec_execute((0xC7 + 8 * k) as u8) == (c.spec_push(c.reg.pc.wrapping_add(1)), Ok::<(u16, u32), crate::cpu::CpuErr>(
            ((8 * k) as u16, 16u32),
        )),
{
    let op = (0xC7 + 8 * k) as u8;
    valid_opcode_rst_holds(op);
    assert(c.spec_execute(op) == c.spec_execute_high(op));
}

/// RST opcodes exist.
proof fn valid_opcode_rst_holds(op: u8)
    requires
        op >= 0xC7,
        op % 8 == 7,
    ensures
        crate::cpu::valid_opcode(op),
{
}

} // verus!
