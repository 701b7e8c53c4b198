use vstd::prelude::*;
use crate::addressable::{Addressable, word_of, low_byte, high_byte};
use crate::mmu::Mmu;
use self::registers::{Flags, Registers, flags_of_byte};
use self::alu::{alu, inc, dec, daa, add_sp, alu8, inc8, dec8, shift8, bit8, res8, set8, add16, add_sp8, daa8};

pub mod alu;
pub mod laws;
pub mod registers;

verus! {

#[derive(Debug, Clone, Copy, PartialEq, Eq, Structural)]
pub enum CpuErr {
    /// The opcode is not an instruction of the Sharp LR35902.
    InvalidInstruction(u8),
    /// The instruction would access a word or the stack across the end of the address space.
    AddressOverflow(u16),
}

/// Whether a word access starting at `addr` stays inside the address space.
pub open spec fn word_in_range(addr: u16) -> bool {
    addr < 0xFFFF
}

/// Whether `op` is an opcode of the instruction set.
pub open spec fn valid_opcode(op: u8) -> bool {
    !(op == 0xD3 || op == 0xDB || op == 0xDD || op == 0xE3 || op == 0xE4 || op == 0xEB || op
        == 0xEC || op == 0xED || op == 0xF4 || op == 0xFC || op == 0xFD)
}

/// Index of the lowest set bit of a non-zero byte.
pub open spec fn lowest_bit(x: u8) -> u8 {
    if x & 1 != 0 {
        0
    } else if x & 2 != 0 {
        1
    } else if x & 4 != 0 {
        2
    } else if x & 8 != 0 {
        3
    } else if x & 16 != 0 {
        4
    } else if x & 32 != 0 {
        5
    } else if x & 64 != 0 {
        6
    } else {
        7
    }
}

/// Implementation of the Sharp LR35902
#[derive(Debug)]
pub struct Cpu<B> {
    pub reg: Registers,
    pub bus: B,
    pub halted: bool,
    /// Interrupt master enable.
    pub ime: bool,
    /// Set by EI: the master enable turns on after the next instruction.
    pub ime_next: bool,
    pub debug: bool,
}

impl Cpu<Mmu> {
    /// A CPU at power-on, attached to fresh memory: all registers zero, interrupts enabled,
    /// execution starting at address 0 in the boot ROM.
    pub fn new(debug: bool) -> (r: Self)
        ensures
            r.reg == (Registers { pc: 0, sp: 0, a: 0, b: 0, c: 0, d: 0, e: 0, h: 0, l: 0, f: Flags { zero: false, subtract: false, half_carry: false, carry: false } }),
            r.bus.fresh(),
            !r.halted,
            r.ime,
            !r.ime_next,
            r.debug == debug,
    {
        Self {
            reg: Registers {
                pc: 0,
                sp: 0,
                a: 0,
                b: 0,
                c: 0,
                d: 0,
                e: 0,
                h: 0,
                l: 0,
                f: Flags::zero(),
            },
            bus: Mmu::new(),
            halted: false,
            ime: true,
            ime_next: false,
            debug,
        }
    }
}

impl<B: Addressable> Cpu<B> {
    // ----- spec model -----

    /// The 8-bit operand with index `i` (B, C, D, E, H, L, (HL), A).
    pub open spec fn spec_r8(self, i: u8) -> u8 {
        if i == 0 {
            self.reg.b
        } else if i == 1 {
            self.reg.c
        } else if i == 2 {
            self.reg.d
        } else if i == 3 {
            self.reg.e
        } else if i == 4 {
            self.reg.h
        } else if i == 5 {
            self.reg.l
        } else if i == 6 {
            self.bus.spec_read_byte(self.reg.spec_hl())
        } else {
            self.reg.a
        }
    }

    /// The state after storing `v` into the 8-bit operand with index `i`.
    pub open spec fn spec_with_r8(self, i: u8, v: u8) -> Self {
        if i == 0 {
            Cpu { reg: Registers { b: v, ..self.reg }, ..self }
        } else if i == 1 {
            Cpu { reg: Registers { c: v, ..self.reg }, ..self }
        } else if i == 2 {
            Cpu { reg: Registers { d: v, ..self.reg }, ..self }
        } else if i == 3 {
            Cpu { reg: Registers { e: v, ..self.reg }, ..self }
        } else if i == 4 {
            Cpu { reg: Registers { h: v, ..self.reg }, ..self }
        } else if i == 5 {
            Cpu { reg: Registers { l: v, ..self.reg }, ..self }
        } else if i == 6 {
            Cpu { bus: self.bus.spec_write_byte(self.reg.spec_hl(), v), ..self }
        } else {
            Cpu { reg: Registers { a: v, ..self.reg }, ..self }
        }
    }

    pub open spec fn spec_with_a_f(self, a: u8, f: Flags) -> Self {
        Cpu { reg: Registers { a, f, ..self.reg }, ..self }
    }

    pub open spec fn spec_with_f(self, f: Flags) -> Self {
        Cpu { reg: Registers { f, ..self.reg }, ..self }
    }

    /// The 16-bit register pair with index `i` (BC, DE, HL, SP).
    pub open spec fn spec_r16(self, i: u8) -> u16 {
        if i == 0 {
            self.reg.spec_bc()
        } else if i == 1 {
            self.reg.spec_de()
        } else if i == 2 {
            self.reg.spec_hl()
        } else {
            self.reg.sp
        }
    }

    pub open spec fn spec_with_r16(self, i: u8, v: u16) -> Self {
        if i == 0 {
            Cpu { reg: Registers { b: high_byte(v), c: low_byte(v), ..self.reg }, ..self }
        } else if i == 1 {
            Cpu { reg: Registers { d: high_byte(v), e: low_byte(v), ..self.reg }, ..self }
        } else if i == 2 {
            Cpu { reg: Registers { h: high_byte(v), l: low_byte(v), ..self.reg }, ..self }
        } else {
            Cpu { reg: Registers { sp: v, ..self.reg }, ..self }
        }
    }

    /// The register pair with index `i` for PUSH and POP (BC, DE, HL, AF).
    pub open spec fn spec_r16_stack(self, i: u8) -> u16 {
        if i == 3 {
            self.reg.spec_af()
        } else {
            self.spec_r16(i)
        }
    }

    pub open spec fn spec_with_r16_stack(self, i: u8, v: u16) -> Self {
        if i == 3 {
            Cpu {
                reg: Registers { a: high_byte(v), f: flags_of_byte(low_byte(v)), ..self.reg },
                ..self
            }
        } else {
            self.spec_with_r16(i, v)
        }
    }

    /// Condition with index `i` (NZ, Z, NC, C).
    pub open spec fn spec_cond(self, i: u8) -> bool {
        if i == 0 {
            !self.reg.f.zero
        } else if i == 1 {
            self.reg.f.zero
        } else if i == 2 {
            !self.reg.f.carry
        } else {
            self.reg.f.carry
        }
    }

    pub open spec fn spec_read_word(self, addr: u16) -> u16 {
        word_of(self.bus.spec_read_byte(addr), self.bus.spec_read_byte((addr + 1) as u16))
    }

    /// The byte that follows the opcode.
    pub open spec fn spec_imm8(self) -> u8 {
        self.bus.spec_read_byte(self.reg.pc.wrapping_add(1))
    }

    /// The word that follows the opcode.
    pub open spec fn spec_imm16(self) -> u16 {
        self.spec_read_word(self.reg.pc.wrapping_add(1))
    }

    /// Pushing a word: SP moves down by two, then the word is written little-endian.
    pub open spec fn spec_push(self, v: u16) -> Self {
        let sp = self.reg.sp.wrapping_sub(2);
        Cpu {
            reg: Registers { sp, ..self.reg },
            bus: self.bus.spec_write_byte(sp, low_byte(v)).spec_write_byte(
                (sp + 1) as u16,
                high_byte(v),
            ),
            ..self
        }
    }

    /// The word on top of the stack.
    pub open spec fn spec_top(self) -> u16 {
        self.spec_read_word(self.reg.sp)
    }

    /// Popping a word: the state with SP moved up by two.
    pub open spec fn spec_popped(self) -> Self {
        Cpu { reg: Registers { sp: self.reg.sp.wrapping_add(2), ..self.reg }, ..self }
    }

    pub open spec fn push_ok(self) -> bool {
        word_in_range(self.reg.sp.wrapping_sub(2))
    }

    pub open spec fn pop_ok(self) -> bool {
        word_in_range(self.reg.sp)
    }

    pub open spec fn imm16_ok(self) -> bool {
        word_in_range(self.reg.pc.wrapping_add(1))
    }

    /// The target of a relative jump: the address after the instruction plus the signed offset.
    pub open spec fn spec_jr_target(self) -> u16 {
        ((self.reg.pc + 2) as i32 + (self.spec_imm8() as i8) as i32) as u16
    }

    // ----- execution of one opcode -----

    /// The effect of executing `op`: the next state, and the next program counter with the
    /// number of clock cycles, or the error for an opcode that does not exist.
    pub open spec fn spec_execute(self, op: u8) -> (Self, Result<(u16, u32), CpuErr>) {
        let pc = self.reg.pc;
        if op == 0xCB {
            self.spec_execute_prefixed(self.spec_imm8())
        } else if 0x40 <= op < 0x80 && op != 0x76 {
            // LD r, r'
            let dst = (op / 8) % 8;
            let src = op % 8;
            let cycles: u32 = if src == 6 || dst == 6 { 8 } else { 4 };
            (self.spec_with_r8(dst, self.spec_r8(src)), Ok((pc.wrapping_add(1), cycles)))
        } else if 0x80 <= op < 0xC0 {
            // ALU A, r
            let src = op % 8;
            let kind = (op / 8) % 8;
            let (a, f) = alu8(kind, self.reg.a, self.spec_r8(src), self.reg.f);
            let cycles: u32 = if src == 6 { 8 } else { 4 };
            (self.spec_with_a_f(a, f), Ok((pc.wrapping_add(1), cycles)))
        } else if op >= 0xC0 && op % 8 == 6 {
            // ALU A, n
            let kind = (op / 8) % 8;
            let (a, f) = alu8(kind, self.reg.a, self.spec_imm8(), self.reg.f);
            (self.spec_with_a_f(a, f), Ok((pc.wrapping_add(2), 8)))
        } else if op < 0x40 {
            self.spec_execute_low(op)
        } else {
            self.spec_execute_high(op)
        }
    }

    /// Opcodes 0x00..0x3F other than the 8-bit loads and arithmetic above.
    pub open spec fn spec_execute_low(self, op: u8) -> (Self, Result<(u16, u32), CpuErr>) {
        let pc = self.reg.pc;
        let r = op / 8;
        if op % 8 == 4 || op % 8 == 5 {
            // INC r / DEC r
            let (v, f) = if op % 8 == 4 {
                inc8(self.spec_r8(r), self.reg.f)
            } else {
                dec8(self.spec_r8(r), self.reg.f)
            };
            let cycles: u32 = if r == 6 { 12 } else { 4 };
            (self.spec_with_f(f).spec_with_r8(r, v), Ok((pc.wrapping_add(1), cycles)))
        } else if op % 8 == 6 {
            // LD r, n
            let cycles: u32 = if r == 6 { 12 } else { 8 };
            (self.spec_with_r8(r, self.spec_imm8()), Ok((pc.wrapping_add(2), cycles)))
        } else if op % 16 == 1 {
            // LD rr, nn
            (self.spec_with_r16(op / 16, self.spec_imm16()), Ok((pc.wrapping_add(3), 12)))
        } else if op % 16 == 3 {
            // INC rr
            let rr = op / 16;
            (self.spec_with_r16(rr, self.spec_r16(rr).wrapping_add(1)), Ok((pc.wrapping_add(1), 8)))
        } else if op % 16 == 0xB {
            // DEC rr
            let rr = op / 16;
            (self.spec_with_r16(rr, self.spec_r16(rr).wrapping_sub(1)), Ok((pc.wrapping_add(1), 8)))
        } else if op % 16 == 9 {
            // ADD HL, rr
            let (hl, f) = add16(self.reg.spec_hl(), self.spec_r16(op / 16), self.reg.f);
            (self.spec_with_f(f).spec_with_r16(2, hl), Ok((pc.wrapping_add(1), 8)))
        } else if op % 16 == 2 || op % 16 == 0xA {
            // LD (BC)/(DE)/(HL+)/(HL-), A and LD A, (BC)/(DE)/(HL+)/(HL-)
            let i = op / 16;
            let addr = if i == 0 {
                self.reg.spec_bc()
            } else if i == 1 {
                self.reg.spec_de()
            } else {
                self.reg.spec_hl()
            };
            let s = if op % 16 == 2 {
                Cpu { bus: self.bus.spec_write_byte(addr, self.reg.a), ..self }
            } else {
                Cpu { reg: Registers { a: self.bus.spec_read_byte(addr), ..self.reg }, ..self }
            };
            let s2 = if i == 2 {
                s.spec_with_r16(2, addr.wrapping_add(1))
            } else if i == 3 {
                s.spec_with_r16(2, addr.wrapping_sub(1))
            } else {
                s
            };
            (s2, Ok((pc.wrapping_add(1), 8)))
        } else if op == 0x07 || op == 0x17 || op == 0x0F || op == 0x1F {
            // RLCA, RLA, RRCA, RRA: the zero flag is cleared
            let (a, f) = shift8(op / 8, self.reg.a, self.reg.f);
            (self.spec_with_a_f(a, Flags { zero: false, ..f }), Ok((pc.wrapping_add(1), 4)))
        } else if op == 0x27 {
            let (a, f) = daa8(self.reg.a, self.reg.f);
            (self.spec_with_a_f(a, f), Ok((pc.wrapping_add(1), 4)))
        } else if op == 0x2F {
            // CPL
            (
                self.spec_with_a_f(!self.reg.a, Flags { subtract: true, half_carry: true, ..self.reg.f }),
                Ok((pc.wrapping_add(1), 4)),
            )
        } else if op == 0x37 || op == 0x3F {
            // SCF, CCF
            let carry = if op == 0x37 { true } else { !self.reg.f.carry };
            (
                self.spec_with_f(Flags { carry, half_carry: false, subtract: false, ..self.reg.f }),
                Ok((pc.wrapping_add(1), 4)),
            )
        } else if op == 0x08 {
            // LD (nn), SP
            let nn = self.spec_imm16();
            (
                Cpu {
                    bus: self.bus.spec_write_byte(nn, low_byte(self.reg.sp)).spec_write_byte(
                        (nn + 1) as u16,
                        high_byte(self.reg.sp),
                    ),
                    ..self
                },
                Ok((pc.wrapping_add(3), 20)),
            )
        } else if op == 0x18 || op == 0x20 || op == 0x28 || op == 0x30 || op == 0x38 {
            // JR, JR cc
            let taken = op == 0x18 || self.spec_cond(((op - 0x20) / 8) as u8);
            if taken {
                (self, Ok((self.spec_jr_target(), 12)))
            } else {
                (self, Ok((pc.wrapping_add(2), 8)))
            }
        } else {
            // NOP, STOP
            (self, Ok((pc.wrapping_add(1), 4)))
        }
    }

    /// Opcodes 0xC0..0xFF other than the arithmetic with an immediate operand.
    pub open spec fn spec_execute_high(self, op: u8) -> (Self, Result<(u16, u32), CpuErr>) {
        let pc = self.reg.pc;
        if !valid_opcode(op) {
            (self, Err(CpuErr::InvalidInstruction(op)))
        } else if op == 0x76 {
            (Cpu { halted: true, ..self }, Ok((pc.wrapping_add(1), 4)))
        } else if op % 8 == 7 {
            // RST
            (self.spec_push(pc.wrapping_add(1)), Ok(((op - 0xC7) as u16, 16)))
        } else if op % 16 == 1 {
            // POP rr
            (self.spec_popped().spec_with_r16_stack(((op - 0xC0) / 16) as u8, self.spec_top()), Ok((pc.wrapping_add(1), 12)))
        } else if op % 16 == 5 {
            // PUSH rr
            (self.spec_push(self.spec_r16_stack(((op - 0xC0) / 16) as u8)), Ok((pc.wrapping_add(1), 16)))
        } else if op < 0xE0 && op % 8 == 0 {
            // RET cc
            if self.spec_cond(((op - 0xC0) / 8) as u8) {
                (self.spec_popped(), Ok((self.spec_top(), 20)))
            } else {
                (self, Ok((pc.wrapping_add(1), 8)))
            }
        } else if op < 0xE0 && op % 8 == 2 {
            // JP cc, nn
            if self.spec_cond(((op - 0xC0) / 8) as u8) {
                (self, Ok((self.spec_imm16(), 16)))
            } else {
                (self, Ok((pc.wrapping_add(3), 12)))
            }
        } else if op < 0xE0 && op % 8 == 4 {
            // CALL cc, nn
            if self.spec_cond(((op - 0xC0) / 8) as u8) {
                (self.spec_push(pc.wrapping_add(3)), Ok((self.spec_imm16(), 24)))
            } else {
                (self, Ok((pc.wrapping_add(3), 12)))
            }
        } else if op == 0xC3 {
            (self, Ok((self.spec_imm16(), 16)))
        } else if op == 0xCD {
            (self.spec_push(pc.wrapping_add(3)), Ok((self.spec_imm16(), 24)))
        } else if op == 0xC9 {
            (self.spec_popped(), Ok((self.spec_top(), 16)))
        } else if op == 0xD9 {
            // RETI
            (Cpu { ime: true, ..self.spec_popped() }, Ok((self.spec_top(), 13)))
        } else if op == 0xE0 {
            // LDH (n), A
            let addr = 0xFF00u16 | (self.spec_imm8() as u16);
            (Cpu { bus: self.bus.spec_write_byte(addr, self.reg.a), ..self }, Ok((pc.wrapping_add(2), 12)))
        } else if op == 0xF0 {
            // LDH A, (n)
            let addr = 0xFF00u16 | (self.spec_imm8() as u16);
            (Cpu { reg: Registers { a: self.bus.spec_read_byte(addr), ..self.reg }, ..self }, Ok((pc.wrapping_add(2), 12)))
        } else if op == 0xE2 {
            // LD (C), A
            let addr = 0xFF00u16 | (self.reg.c as u16);
            (Cpu { bus: self.bus.spec_write_byte(addr, self.reg.a), ..self }, Ok((pc.wrapping_add(1), 8)))
        } else if op == 0xF2 {
            // LD A, (C)
            let addr = 0xFF00u16 | (self.reg.c as u16);
            (Cpu { reg: Registers { a: self.bus.spec_read_byte(addr), ..self.reg }, ..self }, Ok((pc.wrapping_add(1), 8)))
        } else if op == 0xEA {
            // LD (nn), A
            (Cpu { bus: self.bus.spec_write_byte(self.spec_imm16(), self.reg.a), ..self }, Ok((pc.wrapping_add(3), 16)))
        } else if op == 0xFA {
            // LD A, (nn)
            (Cpu { reg: Registers { a: self.bus.spec_read_byte(self.spec_imm16()), ..self.reg }, ..self }, Ok((pc.wrapping_add(3), 16)))
        } else if op == 0xE8 {
            // ADD SP, n
            let (sp, f) = add_sp8(self.reg.sp, self.spec_imm8());
            (Cpu { reg: Registers { sp, f, ..self.reg }, ..self }, Ok((pc.wrapping_add(2), 16)))
        } else if op == 0xF8 {
            // LD HL, SP + n
            let (hl, f) = add_sp8(self.reg.sp, self.spec_imm8());
            (self.spec_with_f(f).spec_with_r16(2, hl), Ok((pc.wrapping_add(2), 12)))
        } else if op == 0xF9 {
            // LD SP, HL
            (self.spec_with_r16(3, self.reg.spec_hl()), Ok((pc.wrapping_add(1), 8)))
        } else if op == 0xE9 {
            // JP HL
            (self, Ok((self.reg.spec_hl(), 4)))
        } else if op == 0xF3 {
            // DI
            (Cpu { ime: false, ime_next: false, ..self }, Ok((pc.wrapping_add(1), 4)))
        } else {
            // EI
            (Cpu { ime_next: true, ..self }, Ok((pc.wrapping_add(1), 4)))
        }
    }

    /// The effect of the CB-prefixed opcode `op`.
    pub open spec fn spec_execute_prefixed(self, op: u8) -> (Self, Result<(u16, u32), CpuErr>) {
        let r = op % 8;
        let b = (op / 8) % 8;
        let v = self.spec_r8(r);
        let next = self.reg.pc.wrapping_add(2);
        let cycles: u32 = if r == 6 { 16 } else { 8 };
        if op < 0x40 {
            let (nv, f) = shift8(op / 8, v, self.reg.f);
            (self.spec_with_f(f).spec_with_r8(r, nv), Ok((next, cycles)))
        } else if op < 0x80 {
            (self.spec_with_f(bit8(b, v, self.reg.f)), Ok((next, cycles)))
        } else if op < 0xC0 {
            (self.spec_with_r8(r, res8(b, v)), Ok((next, cycles)))
        } else {
            (self.spec_with_r8(r, set8(b, v)), Ok((next, cycles)))
        }
    }

    /// Whether executing `op` stays clear of word accesses across the end of the address
    /// space (the only way an instruction can fail besides an invalid opcode).
    pub open spec fn spec_execute_ok(self, op: u8) -> bool {
        if op < 0x40 {
            if op % 16 == 1 {
                self.imm16_ok()
            } else if op == 0x08 {
                self.imm16_ok() && word_in_range(self.spec_imm16())
            } else if op == 0x18 || op == 0x20 || op == 0x28 || op == 0x30 || op == 0x38 {
                (op == 0x18 || self.spec_cond(((op - 0x20) / 8) as u8)) ==> self.reg.pc <= 0xFFFD
            } else {
                true
            }
        } else if op < 0xC0 || !valid_opcode(op) {
            true
        } else if op % 8 == 7 || op % 16 == 5 {
            self.push_ok()
        } else if op % 16 == 1 || op == 0xC9 || op == 0xD9 {
            self.pop_ok()
        } else if op < 0xE0 && op % 8 == 0 {
            self.spec_cond(((op - 0xC0) / 8) as u8) ==> self.pop_ok()
        } else if op < 0xE0 && op % 8 == 2 {
            self.spec_cond(((op - 0xC0) / 8) as u8) ==> self.imm16_ok()
        } else if op < 0xE0 && op % 8 == 4 {
            self.spec_cond(((op - 0xC0) / 8) as u8) ==> (self.imm16_ok() && self.push_ok())
        } else if op == 0xC3 || op == 0xEA || op == 0xFA {
            self.imm16_ok()
        } else if op == 0xCD {
            self.imm16_ok() && self.push_ok()
        } else {
            true
        }
    }

    // ----- interrupts and the fetch/execute step -----

    /// Interrupt dispatch: when a requested interrupt is enabled the CPU leaves HALT; when the
    /// master enable is on as well, the lowest such interrupt is acknowledged, PC is pushed and
    /// execution continues at its vector. Otherwise a pending EI takes effect.
    pub open spec fn spec_handle_interrupts(self) -> (Self, Option<(u16, u32)>) {
        let intf = self.bus.spec_read_byte(0xFF0F);
        let inte = self.bus.spec_read_byte(0xFFFF);
        let interrupt = intf & inte;
        let s1 = if interrupt != 0 { Cpu { halted: false, ..self } } else { self };
        if interrupt != 0 && self.ime {
            let n = lowest_bit(interrupt);
            let s2 = Cpu { bus: s1.bus.spec_write_byte(0xFF0F, intf & !(1u8 << n)), ..s1 };
            let s3 = s2.spec_push(s2.reg.pc);
            (
                Cpu { ime: false, ime_next: false, ..s3 },
                Some((0x0040u16 | ((n as u16) << 3u16), 20)),
            )
        } else if s1.ime_next {
            (Cpu { ime: true, ime_next: false, ..s1 }, None)
        } else {
            (s1, None)
        }
    }

    /// Whether dispatching an interrupt keeps the pushed return address inside the address space.
    pub open spec fn spec_interrupts_ok(self) -> bool {
        let interrupt = self.bus.spec_read_byte(0xFF0F) & self.bus.spec_read_byte(0xFFFF);
        (interrupt != 0 && self.ime) ==> self.push_ok()
    }

    /// The opcode at the program counter.
    pub open spec fn spec_opcode(self) -> u8 {
        self.bus.spec_read_byte(self.reg.pc)
    }

    /// Whether the instruction part of a step can run: a halted CPU runs none.
    pub open spec fn spec_instruction_ok(self) -> bool {
        !self.halted ==> (valid_opcode(self.spec_opcode()) && self.spec_execute_ok(self.spec_opcode()))
    }

    /// The state and cycles after the instruction part of a step (4 cycles when halted).
    pub open spec fn spec_after_instruction(self) -> (Self, u32) {
        if !self.halted {
            let (s, r) = self.spec_execute(self.spec_opcode());
            match r {
                Ok((pc, cycles)) => (Cpu { reg: Registers { pc, ..s.reg }, ..s }, cycles),
                Err(_) => (s, 0),
            }
        } else {
            (self, 4)
        }
    }

    /// Whether a whole step runs without fault.
    pub open spec fn spec_step_ok(self) -> bool {
        self.spec_instruction_ok() && self.spec_after_instruction().0.spec_interrupts_ok()
    }

    /// One step: execute the instruction at PC (unless halted), then dispatch interrupts.
    pub open spec fn spec_step(self) -> (Self, u32) {
        let (s1, cycles) = self.spec_after_instruction();
        let (s2, vector) = s1.spec_handle_interrupts();
        match vector {
            Some((pc, c)) => (Cpu { reg: Registers { pc, ..s2.reg }, ..s2 }, (cycles + c) as u32),
            None => (s2, cycles),
        }
    }

    /// The state a faulting step leaves: unchanged when the instruction faults, after the
    /// instruction when the interrupt dispatch faults.
    pub open spec fn spec_fault_state(self) -> Self {
        if self.spec_instruction_ok() {
            self.spec_after_instruction().0
        } else {
            self
        }
    }

    /// An instruction that runs takes between 4 and 24 clock cycles.
    pub proof fn lemma_instruction_cycles(self)
        requires
            self.spec_instruction_ok(),
        ensures
            4 <= self.spec_after_instruction().1 <= 24,
    {
        if !self.halted {
            let op = self.spec_opcode();
            if op == 0xCB {
            } else if op < 0x40 {
                assert(4 <= self.spec_execute_low(op).1.unwrap().1 <= 24);
            } else if op >= 0xC0 && !(op % 8 == 6) {
                assert(4 <= self.spec_execute_high(op).1.unwrap().1 <= 24);
            }
        }
    }

    /// Every step that runs takes between 4 and 44 clock cycles: the instruction's and, when
    /// an interrupt is dispatched, 20 more.
    pub proof fn lemma_step_cycles(self)
        requires
            self.spec_step_ok(),
        ensures
            4 <= self.spec_step().1 <= 44,
    {
        self.lemma_instruction_cycles();
    }

    /// The error a faulting step reports.
    pub open spec fn spec_step_error(self) -> CpuErr {
        if !self.spec_instruction_ok() {
            if !valid_opcode(self.spec_opcode()) {
                CpuErr::InvalidInstruction(self.spec_opcode())
            } else {
                CpuErr::AddressOverflow(self.reg.pc)
            }
        } else {
            CpuErr::AddressOverflow(self.spec_after_instruction().0.reg.sp)
        }
    }

    fn lowest_set_bit(x: u8) -> (n: u8)
        ensures
            n == lowest_bit(x),
            n < 8,
    {
        if x & 1 != 0 {
            0
        } else if x & 2 != 0 {
            1
        } else if x & 4 != 0 {
            2
        } else if x & 8 != 0 {
            3
        } else if x & 16 != 0 {
            4
        } else if x & 32 != 0 {
            5
        } else if x & 64 != 0 {
            6
        } else {
            7
        }
    }

    /// Dispatches a pending interrupt; returns the vector and the cycles it took, if any.
    pub fn handle_interrupts(&mut self) -> (r: Option<(u16, u32)>)
        requires
            old(self).spec_interrupts_ok(),
        ensures
            (*final(self), r) == old(self).spec_handle_interrupts(),
    {
        let intf = self.bus.read_byte(0xFF0F);
        let inte = self.bus.read_byte(0xFFFF);
        let interrupt = intf & inte;
        if interrupt != 0 {
            self.halted = false;
            if self.ime {
                let n = Self::lowest_set_bit(interrupt);
                self.bus.write_byte(0xFF0F, intf & !(1u8 << n));
                let pc = self.reg.pc;
                self.push(pc);
                self.ime = false;
                self.ime_next = false;
                return Some((0x0040u16 | ((n as u16) << 3), 20));
            }
        }
        if self.ime_next {
            self.ime = true;
            self.ime_next = false;
        }
        None
    }

    fn interrupts_ok(&self) -> (b: bool)
        ensures
            b == self.spec_interrupts_ok(),
    {
        let interrupt = self.bus.read_byte(0xFF0F) & self.bus.read_byte(0xFFFF);
        !(interrupt != 0 && self.ime) || self.reg.sp.wrapping_sub(2) < 0xFFFF
    }

    /// Whether `spec_execute_ok` holds, computed.
    fn execute_ok(&self, op: u8) -> (b: bool)
        ensures
            b == self.spec_execute_ok(op),
    {
        let pc_ok = self.reg.pc.wrapping_add(1) < 0xFFFF;
        let push_ok = self.reg.sp.wrapping_sub(2) < 0xFFFF;
        let pop_ok = self.reg.sp < 0xFFFF;
        if op < 0x40 {
            if op % 16 == 1 {
                pc_ok
            } else if op == 0x08 {
                pc_ok && self.imm16() < 0xFFFF
            } else if op == 0x18 || op == 0x20 || op == 0x28 || op == 0x30 || op == 0x38 {
                !(op == 0x18 || self.cond((op - 0x20) / 8)) || self.reg.pc <= 0xFFFD
            } else {
                true
            }
        } else if op < 0xC0 || op == 0xD3 || op == 0xDB || op == 0xDD || op == 0xE3 || op == 0xE4
            || op == 0xEB || op == 0xEC || op == 0xED || op == 0xF4 || op == 0xFC || op == 0xFD {
            true
        } else if op % 8 == 7 || op % 16 == 5 {
            push_ok
        } else if op % 16 == 1 || op == 0xC9 || op == 0xD9 {
            pop_ok
        } else if op < 0xE0 && op % 8 == 0 {
            !self.cond((op - 0xC0) / 8) || pop_ok
        } else if op < 0xE0 && op % 8 == 2 {
            !self.cond((op - 0xC0) / 8) || pc_ok
        } else if op < 0xE0 && op % 8 == 4 {
            !self.cond((op - 0xC0) / 8) || (pc_ok && push_ok)
        } else if op == 0xC3 || op == 0xEA || op == 0xFA {
            pc_ok
        } else if op == 0xCD {
            pc_ok && push_ok
        } else {
            true
        }
    }

    /// The instruction part of a step, or the fault it would hit (then nothing changes).
    fn run_instruction(&mut self) -> (r: Result<u32, CpuErr>)
        ensures
            match r {
                Ok(cycles) => old(self).spec_instruction_ok() && (*final(self), cycles)
                    == old(self).spec_after_instruction(),
                Err(e) => !old(self).spec_instruction_ok() && *final(self) == *old(self) && e
                    == old(self).spec_step_error(),
            },
    {
        let opcode = self.bus.read_byte(self.reg.pc);
        if self.halted {
            return Ok(4);
        }
        if opcode == 0xD3 || opcode == 0xDB || opcode == 0xDD || opcode == 0xE3 || opcode == 0xE4
            || opcode == 0xEB || opcode == 0xEC || opcode == 0xED || opcode == 0xF4 || opcode
            == 0xFC || opcode == 0xFD {
            return Err(CpuErr::InvalidInstruction(opcode));
        }
        if !self.execute_ok(opcode) {
            return Err(CpuErr::AddressOverflow(self.reg.pc));
        }
        match self.execute(opcode) {
            Ok((pc, cycles)) => {
                self.reg.pc = pc;
                Ok(cycles)
            },
            Err(err) => Err(err),
        }
    }

    /// Executes one instruction (none when halted) and dispatches interrupts; returns the
    /// clock cycles taken.
    pub fn step(&mut self) -> (cycles: u32)
        requires
            old(self).spec_step_ok(),
        ensures
            (*final(self), cycles) == old(self).spec_step(),
    {
        let mut cycles = match self.run_instruction() {
            Ok(c) => c,
            Err(_) => 0,
        };
        if let Some((pc, c)) = self.handle_interrupts() {
            self.reg.pc = pc;
            cycles = cycles + c;
        }
        cycles
    }

    /// Like `step`, but reports the fault where `step` would be out of its domain: an invalid
    /// opcode or a word access across the end of the address space. A fault in the instruction
    /// leaves the state as it was; a fault in the interrupt dispatch leaves it after the
    /// instruction.
    pub fn try_step(&mut self) -> (r: Result<u32, CpuErr>)
        ensures
            match r {
                Ok(cycles) => old(self).spec_step_ok() && (*final(self), cycles)
                    == old(self).spec_step(),
                Err(e) => !old(self).spec_step_ok() && e == old(self).spec_step_error()
                    && *final(self) == old(self).spec_fault_state(),
            },
    {
        let mut cycles = match self.run_instruction() {
            Ok(c) => c,
            Err(e) => return Err(e),
        };
        if !self.interrupts_ok() {
            return Err(CpuErr::AddressOverflow(self.reg.sp));
        }
        if let Some((pc, c)) = self.handle_interrupts() {
            self.reg.pc = pc;
            cycles = cycles + c;
        }
        Ok(cycles)
    }

    // ----- operand access -----

    fn read_r8(&self, i: u8) -> (v: u8)
        requires
            i < 8,
        ensures
            v == self.spec_r8(i),
    {
        if i == 0 {
            self.reg.b
        } else if i == 1 {
            self.reg.c
        } else if i == 2 {
            self.reg.d
        } else if i == 3 {
            self.reg.e
        } else if i == 4 {
            self.reg.h
        } else if i == 5 {
            self.reg.l
        } else if i == 6 {
            self.bus.read_byte(self.reg.hl())
        } else {
            self.reg.a
        }
    }

    fn write_r8(&mut self, i: u8, v: u8)
        requires
            i < 8,
        ensures
            *final(self) == old(self).spec_with_r8(i, v),
    {
        if i == 0 {
            self.reg.b = v;
        } else if i == 1 {
            self.reg.c = v;
        } else if i == 2 {
            self.reg.d = v;
        } else if i == 3 {
            self.reg.e = v;
        } else if i == 4 {
            self.reg.h = v;
        } else if i == 5 {
            self.reg.l = v;
        } else if i == 6 {
            let hl = self.reg.hl();
            self.bus.write_byte(hl, v);
        } else {
            self.reg.a = v;
        }
    }

    fn read_r16(&self, i: u8) -> (v: u16)
        requires
            i < 4,
        ensures
            v == self.spec_r16(i),
    {
        if i == 0 {
            self.reg.bc()
        } else if i == 1 {
            self.reg.de()
        } else if i == 2 {
            self.reg.hl()
        } else {
            self.reg.sp
        }
    }

    fn write_r16(&mut self, i: u8, v: u16)
        requires
            i < 4,
        ensures
            *final(self) == old(self).spec_with_r16(i, v),
    {
        if i == 0 {
            self.reg.set_bc(v);
        } else if i == 1 {
            self.reg.set_de(v);
        } else if i == 2 {
            self.reg.set_hl(v);
        } else {
            self.reg.sp = v;
        }
    }

    fn cond(&self, i: u8) -> (c: bool)
        requires
            i < 4,
        ensures
            c == self.spec_cond(i),
    {
        if i == 0 {
            !self.reg.f.zero
        } else if i == 1 {
            self.reg.f.zero
        } else if i == 2 {
            !self.reg.f.carry
        } else {
            self.reg.f.carry
        }
    }

    fn imm8(&self) -> (v: u8)
        ensures
            v == self.spec_imm8(),
    {
        self.bus.read_byte(self.reg.pc.wrapping_add(1))
    }

    fn imm16(&self) -> (v: u16)
        requires
            self.imm16_ok(),
        ensures
            v == self.spec_imm16(),
    {
        self.bus.read_word(self.reg.pc.wrapping_add(1))
    }

    fn push(&mut self, value: u16)
        requires
            old(self).push_ok(),
        ensures
            *final(self) == old(self).spec_push(value),
    {
        self.reg.sp = self.reg.sp.wrapping_sub(2);
        let sp = self.reg.sp;
        self.bus.write_word(sp, value);
    }

    fn pop(&mut self) -> (value: u16)
        requires
            old(self).pop_ok(),
        ensures
            value == old(self).spec_top(),
            *final(self) == old(self).spec_popped(),
    {
        let value = self.bus.read_word(self.reg.sp);
        self.reg.sp = self.reg.sp.wrapping_add(2);
        value
    }

    // ----- arithmetic helpers that update the flags -----

    /// ADD A, value.
    fn add(&mut self, value: u8)
        ensures
            *final(self) == old(self).spec_with_a_f(
                alu8(0, old(self).reg.a, value, old(self).reg.f).0,
                alu8(0, old(self).reg.a, value, old(self).reg.f).1,
            ),
    {
        let (a, f) = alu(0, self.reg.a, value, self.reg.f);
        self.reg.a = a;
        self.reg.f = f;
    }

    /// ADD HL, value.
    fn add16(&mut self, value: u16)
        ensures
            *final(self) == old(self).spec_with_f(add16(old(self).reg.spec_hl(), value, old(self).reg.f).1)
                .spec_with_r16(2, add16(old(self).reg.spec_hl(), value, old(self).reg.f).0),
    {
        let hl = self.reg.hl();
        let res = hl.wrapping_add(value);
        self.reg.f.set_n(false);
        self.reg.f.set_h(hl % 0x1000 + value % 0x1000 > 0xfff);
        self.reg.f.set_c(hl > 0xffff - value);
        self.reg.set_hl(res);
    }

    /// The rotate/shift of kind `kind` (see `shift8`) applied to `value`; sets the flags.
    fn shift(&mut self, kind: u8, value: u8) -> (r: u8)
        requires
            kind < 8,
        ensures
            r == shift8(kind, value, old(self).reg.f).0,
            *final(self) == old(self).spec_with_f(shift8(kind, value, old(self).reg.f).1),
    {
        if kind == 0 {
            self.rlc(value)
        } else if kind == 1 {
            self.rrc(value)
        } else if kind == 2 {
            self.rl(value)
        } else if kind == 3 {
            self.rr(value)
        } else if kind == 4 {
            self.sla(value)
        } else if kind == 5 {
            self.sra(value)
        } else if kind == 6 {
            self.swap(value)
        } else {
            self.srl(value)
        }
    }

    fn rlc(&mut self, value: u8) -> (r: u8)
        ensures
            r == shift8(0, value, old(self).reg.f).0,
            *final(self) == old(self).spec_with_f(shift8(0, value, old(self).reg.f).1),
    {
        let carry = (value >> 7) != 0;
        let new_value = (value << 1) | (value >> 7);
        self.reg.f = Flags { zero: new_value == 0, subtract: false, half_carry: false, carry };
        new_value
    }

    fn rrc(&mut self, value: u8) -> (r: u8)
        ensures
            r == shift8(1, value, old(self).reg.f).0,
            *final(self) == old(self).spec_with_f(shift8(1, value, old(self).reg.f).1),
    {
        let carry = (value & 1) != 0;
        let new_value = (value >> 1) | (value << 7);
        self.reg.f = Flags { zero: new_value == 0, subtract: false, half_carry: false, carry };
        new_value
    }

    fn rl(&mut self, value: u8) -> (r: u8)
        ensures
            r == shift8(2, value, old(self).reg.f).0,
            *final(self) == old(self).spec_with_f(shift8(2, value, old(self).reg.f).1),
    {
        let carry = (value >> 7) != 0;
        let c: u8 = if self.reg.f.carry { 1 } else { 0 };
        let new_value = (value << 1) | c;
        self.reg.f = Flags { zero: new_value == 0, subtract: false, half_carry: false, carry };
        new_value
    }

    fn rr(&mut self, value: u8) -> (r: u8)
        ensures
            r == shift8(3, value, old(self).reg.f).0,
            *final(self) == old(self).spec_with_f(shift8(3, value, old(self).reg.f).1),
    {
        let carry = (value & 1) != 0;
        let c: u8 = if self.reg.f.carry { 1 } else { 0 };
        let new_value = (value >> 1) | (c << 7);
        self.reg.f = Flags { zero: new_value == 0, subtract: false, half_carry: false, carry };
        new_value
    }

    fn sla(&mut self, value: u8) -> (r: u8)
        ensures
            r == shift8(4, value, old(self).reg.f).0,
            *final(self) == old(self).spec_with_f(shift8(4, value, old(self).reg.f).1),
    {
        let carry = (value >> 7) != 0;
        let new_value = value << 1;
        self.reg.f = Flags { zero: new_value == 0, subtract: false, half_carry: false, carry };
        new_value
    }

    fn sra(&mut self, value: u8) -> (r: u8)
        ensures
            r == shift8(5, value, old(self).reg.f).0,
            *final(self) == old(self).spec_with_f(shift8(5, value, old(self).reg.f).1),
    {
        let carry = (value & 1) != 0;
        let new_value = (value & 0x80) | (value >> 1);
        self.reg.f = Flags { zero: new_value == 0, subtract: false, half_carry: false, carry };
        new_value
    }

    fn swap(&mut self, value: u8) -> (r: u8)
        ensures
            r == shift8(6, value, old(self).reg.f).0,
            *final(self) == old(self).spec_with_f(shift8(6, value, old(self).reg.f).1),
    {
        let new_value = (value << 4) | (value >> 4);
        self.reg.f = Flags { zero: new_value == 0, subtract: false, half_carry: false, carry: false };
        new_value
    }

    fn srl(&mut self, value: u8) -> (r: u8)
        ensures
            r == shift8(7, value, old(self).reg.f).0,
            *final(self) == old(self).spec_with_f(shift8(7, value, old(self).reg.f).1),
    {
        let carry = (value & 1) != 0;
        let new_value = value >> 1;
        self.reg.f = Flags { zero: new_value == 0, subtract: false, half_carry: false, carry };
        new_value
    }

    /// BIT b, value: only the flags change.
    fn bit(&mut self, bit: u8, value: u8)
        requires
            bit < 8,
        ensures
            *final(self) == old(self).spec_with_f(bit8(bit, value, old(self).reg.f)),
    {
        self.reg.f.set_z((value & (1u8 << bit)) == 0x0);
        self.reg.f.set_n(false);
        self.reg.f.set_h(true);
    }

    fn res(&self, bit: u8, value: u8) -> (r: u8)
        requires
            bit < 8,
        ensures
            r == res8(bit, value),
    {
        value & !(1u8 << bit)
    }

    fn set(&self, bit: u8, value: u8) -> (r: u8)
        requires
            bit < 8,
        ensures
            r == set8(bit, value),
    {
        value | (1u8 << bit)
    }

    // ----- execution -----

    /// Executes `instruction` and returns the next program counter with the cycles it took;
    /// the program counter itself is left for the caller to update.
    pub fn execute(&mut self, instruction: u8) -> (r: Result<(u16, u32), CpuErr>)
        requires
            old(self).spec_execute_ok(instruction),
        ensures
            (*final(self), r) == old(self).spec_execute(instruction),
    {
        let op = instruction;
        let pc = self.reg.pc;
        if op == 0xCB {
            let prefixed = self.imm8();
            self.execute_prefixed(prefixed)
        } else if 0x40 <= op && op < 0x80 && op != 0x76 {
            let dst = (op / 8) % 8;
            let src = op % 8;
            let v = self.read_r8(src);
            self.write_r8(dst, v);
            let cycles: u32 = if src == 6 || dst == 6 { 8 } else { 4 };
            Ok((pc.wrapping_add(1), cycles))
        } else if 0x80 <= op && op < 0xC0 {
            let src = op % 8;
            let kind = (op / 8) % 8;
            let v = self.read_r8(src);
            if kind == 0 {
                self.add(v);
            } else {
                let (a, f) = alu(kind, self.reg.a, v, self.reg.f);
                self.reg.a = a;
                self.reg.f = f;
            }
            let cycles: u32 = if src == 6 { 8 } else { 4 };
            Ok((pc.wrapping_add(1), cycles))
        } else if op >= 0xC0 && op % 8 == 6 {
            let kind = (op / 8) % 8;
            let n = self.imm8();
            let (a, f) = alu(kind, self.reg.a, n, self.reg.f);
            self.reg.a = a;
            self.reg.f = f;
            Ok((pc.wrapping_add(2), 8))
        } else if op < 0x40 {
            self.execute_low(op)
        } else {
            self.execute_high(op)
        }
    }

    fn execute_low(&mut self, op: u8) -> (r: Result<(u16, u32), CpuErr>)
        requires
            op < 0x40,
            old(self).spec_execute_ok(op),
        ensures
            (*final(self), r) == old(self).spec_execute_low(op),
    {
        let pc = self.reg.pc;
        let r = op / 8;
        if op % 8 == 4 || op % 8 == 5 {
            let v = self.read_r8(r);
            let (nv, f) = if op % 8 == 4 {
                inc(v, self.reg.f)
            } else {
                dec(v, self.reg.f)
            };
            self.reg.f = f;
            self.write_r8(r, nv);
            let cycles: u32 = if r == 6 { 12 } else { 4 };
            Ok((pc.wrapping_add(1), cycles))
        } else if op % 8 == 6 {
            let n = self.imm8();
            self.write_r8(r, n);
            let cycles: u32 = if r == 6 { 12 } else { 8 };
            Ok((pc.wrapping_add(2), cycles))
        } else if op % 16 == 1 {
            let nn = self.imm16();
            self.write_r16(op / 16, nn);
            Ok((pc.wrapping_add(3), 12))
        } else if op % 16 == 3 {
            let rr = op / 16;
            let v = self.read_r16(rr);
            self.write_r16(rr, v.wrapping_add(1));
            Ok((pc.wrapping_add(1), 8))
        } else if op % 16 == 0xB {
            let rr = op / 16;
            let v = self.read_r16(rr);
            self.write_r16(rr, v.wrapping_sub(1));
            Ok((pc.wrapping_add(1), 8))
        } else if op % 16 == 9 {
            let v = self.read_r16(op / 16);
            self.add16(v);
            Ok((pc.wrapping_add(1), 8))
        } else if op % 16 == 2 || op % 16 == 0xA {
            let i = op / 16;
            let addr = if i == 0 {
                self.reg.bc()
            } else if i == 1 {
                self.reg.de()
            } else {
                self.reg.hl()
            };
            if op % 16 == 2 {
                let a = self.reg.a;
                self.bus.write_byte(addr, a);
            } else {
                self.reg.a = self.bus.read_byte(addr);
            }
            if i == 2 {
                self.reg.set_hl(addr.wrapping_add(1));
            } else if i == 3 {
                self.reg.set_hl(addr.wrapping_sub(1));
            }
            Ok((pc.wrapping_add(1), 8))
        } else if op == 0x07 || op == 0x17 || op == 0x0F || op == 0x1F {
            let a = self.reg.a;
            let na = self.shift(op / 8, a);
            self.reg.a = na;
            self.reg.f.set_z(false);
            Ok((pc.wrapping_add(1), 4))
        } else if op == 0x27 {
            let (a, f) = daa(self.reg.a, self.reg.f);
            self.reg.a = a;
            self.reg.f = f;
            Ok((pc.wrapping_add(1), 4))
        } else if op == 0x2F {
            self.reg.a = !self.reg.a;
            self.reg.f.set_n(true);
            self.reg.f.set_h(true);
            Ok((pc.wrapping_add(1), 4))
        } else if op == 0x37 || op == 0x3F {
            let carry = if op == 0x37 { true } else { !self.reg.f.carry };
            self.reg.f.set_c(carry);
            self.reg.f.set_h(false);
            self.reg.f.set_n(false);
            Ok((pc.wrapping_add(1), 4))
        } else if op == 0x08 {
            let nn = self.imm16();
            let sp = self.reg.sp;
            self.bus.write_word(nn, sp);
            Ok((pc.wrapping_add(3), 20))
        } else if op == 0x18 || op == 0x20 || op == 0x28 || op == 0x30 || op == 0x38 {
            let taken = op == 0x18 || self.cond((op - 0x20) / 8);
            if taken {
                let s = self.imm8() as i8;
                Ok((((pc + 2) as i32 + (s as i32)) as u16, 12))
            } else {
                Ok((pc.wrapping_add(2), 8))
            }
        } else {
            Ok((pc.wrapping_add(1), 4))
        }
    }

    fn execute_high(&mut self, op: u8) -> (r: Result<(u16, u32), CpuErr>)
        requires
            op == 0x76 || (op >= 0xC0 && op % 8 != 6),
            old(self).spec_execute_ok(op),
        ensures
            (*final(self), r) == old(self).spec_execute_high(op),
    {
        let pc = self.reg.pc;
        if op == 0xD3 || op == 0xDB || op == 0xDD || op == 0xE3 || op == 0xE4 || op == 0xEB || op
            == 0xEC || op == 0xED || op == 0xF4 || op == 0xFC || op == 0xFD {
            Err(CpuErr::InvalidInstruction(op))
        } else if op == 0x76 {
            self.halted = true;
            Ok((pc.wrapping_add(1), 4))
        } else if op % 8 == 7 {
            self.push(pc.wrapping_add(1));
            Ok(((op - 0xC7) as u16, 16))
        } else if op % 16 == 1 {
            let n = self.pop();
            let i = (op - 0xC0) / 16;
            if i == 3 {
                self.reg.set_af(n);
            } else {
                self.write_r16(i, n);
            }
            Ok((pc.wrapping_add(1), 12))
        } else if op % 16 == 5 {
            let i = (op - 0xC0) / 16;
            let v = if i == 3 {
                self.reg.af()
            } else {
                self.read_r16(i)
            };
            self.push(v);
            Ok((pc.wrapping_add(1), 16))
        } else if op < 0xE0 && op % 8 == 0 {
            if self.cond((op - 0xC0) / 8) {
                Ok((self.pop(), 20))
            } else {
                Ok((pc.wrapping_add(1), 8))
            }
        } else if op < 0xE0 && op % 8 == 2 {
            if self.cond((op - 0xC0) / 8) {
                Ok((self.imm16(), 16))
            } else {
                Ok((pc.wrapping_add(3), 12))
            }
        } else if op < 0xE0 && op % 8 == 4 {
            if self.cond((op - 0xC0) / 8) {
                let addr = self.imm16();
                self.push(pc.wrapping_add(3));
                Ok((addr, 24))
            } else {
                Ok((pc.wrapping_add(3), 12))
            }
        } else if op == 0xC3 {
            Ok((self.imm16(), 16))
        } else if op == 0xCD {
            let addr = self.imm16();
            self.push(pc.wrapping_add(3));
            Ok((addr, 24))
        } else if op == 0xC9 {
            Ok((self.pop(), 16))
        } else if op == 0xD9 {
            self.ime = true;
            Ok((self.pop(), 13))
        } else if op == 0xE0 {
            let n = self.imm8() as u16;
            let a = self.reg.a;
            self.bus.write_byte(0xFF00 | n, a);
            Ok((pc.wrapping_add(2), 12))
        } else if op == 0xF0 {
            let n = self.imm8() as u16;
            self.reg.a = self.bus.read_byte(0xFF00 | n);
            Ok((pc.wrapping_add(2), 12))
        } else if op == 0xE2 {
            let a = self.reg.a;
            let c = self.reg.c as u16;
            self.bus.write_byte(0xFF00 | c, a);
            Ok((pc.wrapping_add(1), 8))
        } else if op == 0xF2 {
            self.reg.a = self.bus.read_byte(0xFF00 | (self.reg.c as u16));
            Ok((pc.wrapping_add(1), 8))
        } else if op == 0xEA {
            let nn = self.imm16();
            let a = self.reg.a;
            self.bus.write_byte(nn, a);
            Ok((pc.wrapping_add(3), 16))
        } else if op == 0xFA {
            let nn = self.imm16();
            self.reg.a = self.bus.read_byte(nn);
            Ok((pc.wrapping_add(3), 16))
        } else if op == 0xE8 {
            let (sp, f) = add_sp(self.reg.sp, self.imm8());
            self.reg.f = f;
            self.reg.sp = sp;
            Ok((pc.wrapping_add(2), 16))
        } else if op == 0xF8 {
            let (hl, f) = add_sp(self.reg.sp, self.imm8());
            self.reg.f = f;
            self.reg.set_hl(hl);
            Ok((pc.wrapping_add(2), 12))
        } else if op == 0xF9 {
            self.reg.sp = self.reg.hl();
            Ok((pc.wrapping_add(1), 8))
        } else if op == 0xE9 {
            Ok((self.reg.hl(), 4))
        } else if op == 0xF3 {
            self.ime = false;
            self.ime_next = false;
            Ok((pc.wrapping_add(1), 4))
        } else {
            self.ime_next = true;
            Ok((pc.wrapping_add(1), 4))
        }
    }

    /// Executes the CB-prefixed opcode `instruction`.
    pub fn execute_prefixed(&mut self, instruction: u8) -> (r: Result<(u16, u32), CpuErr>)
        ensures
            (*final(self), r) == old(self).spec_execute_prefixed(instruction),
    {
        let op = instruction;
        let r = op % 8;
        let b = (op / 8) % 8;
        let v = self.read_r8(r);
        let next = self.reg.pc.wrapping_add(2);
        let cycles: u32 = if r == 6 { 16 } else { 8 };
        if op < 0x40 {
            let nv = self.shift(op / 8, v);
            self.write_r8(r, nv);
        } else if op < 0x80 {
            self.bit(b, v);
        } else if op < 0xC0 {
            let nv = self.res(b, v);
            self.write_r8(r, nv);
        } else {
            let nv = self.set(b, v);
            self.write_r8(r, nv);
        }
        Ok((next, cycles))
    }
}

} // verus!
