use vstd::prelude::*;
use vstd::array::spec_array_update;
use crate::prototype::instruction::{ArithmaticTarget, Instruction, spec_decode};
use crate::prototype::mmu::MemBus;
use crate::prototype::registers::{FlagsReg, Registers};

pub mod interrupts;
pub mod registers;

verus! {

/// The clock of the first CPU: `t` holds the machine cycles of the last instruction.
#[derive(Debug, Clone, Copy, PartialEq, Eq, Structural)]
pub struct Clock {
    pub t: u16,
    // unused for now
    pub _m: u16,
}

/// A's value and the flags after adding `value` to `a`: zero, subtract cleared, half carry
/// out of the low nibble, carry out of the byte.
pub open spec fn add_result(a: u8, value: u8) -> (u8, FlagsReg) {
    let r = a.wrapping_add(value);
    (r, FlagsReg {
        zero: r == 0,
        subtract: false,
        half_carry: (a & 0xF) + (value & 0xF) > 0xF,
        carry: a + value > 0xFF,
    })
}

/// Implementation of the Sharp LR35902
#[derive(Debug)]
pub struct CPU {
    /// registers A, B, C, D, E, H, L
    reg: Registers,
    /// program counter
    pc: u16,
    /// stack pointer
    sp: u16,
    /// MMU
    bus: MemBus,
    /// The clock runs at 4.194304 MHz. This means that each clock cycle
    /// takes 1/4.194304 MHz = 0.238 μs = 238 ns. The CPU clock is also
    /// referred to as the “T-cycle”. This can be divided by 4 to get the
    /// machine cycle (M-cycle) which is 1.048576 MHz.
    clock: Clock,
}

impl CPU {
    pub closed spec fn regs(self) -> Registers {
        self.reg
    }

    pub closed spec fn pc(self) -> u16 {
        self.pc
    }

    pub closed spec fn sp(self) -> u16 {
        self.sp
    }

    pub closed spec fn memory(self) -> MemBus {
        self.bus
    }

    pub closed spec fn clock(self) -> Clock {
        self.clock
    }

    /// The byte an 8-bit addition takes as operand.
    pub open spec fn spec_operand(self, target: ArithmaticTarget) -> u8 {
        let r = self.regs();
        match target {
            ArithmaticTarget::A => r.a,
            ArithmaticTarget::B => r.b,
            ArithmaticTarget::C => r.c,
            ArithmaticTarget::D => r.d,
            ArithmaticTarget::E => r.e,
            ArithmaticTarget::H => r.h,
            ArithmaticTarget::L => r.l,
            ArithmaticTarget::HL => self.memory().mem[r.spec_hl() as int],
            ArithmaticTarget::Data => self.memory().mem[self.pc().wrapping_add(1) as int],
        }
    }

    /// Whether an 8-bit addition reads inside memory: (HL) and the immediate byte must lie
    /// below 0xFFFF.
    pub open spec fn operand_ok(self, target: ArithmaticTarget) -> bool {
        match target {
            ArithmaticTarget::HL => self.regs().spec_hl() < 0xFFFF,
            ArithmaticTarget::Data => self.pc().wrapping_add(1) < 0xFFFF,
            _ => true,
        }
    }

    /// Whether the instruction at PC can run: PC lies inside memory and its opcode decodes to
    /// an 8-bit addition (with its operand inside memory) or to NOP, the instructions this CPU
    /// executes.
    pub open spec fn step_ok(self) -> bool {
        self.pc() < 0xFFFF && match spec_decode(self.memory().mem[self.pc() as int]) {
            Ok(Instruction::ADD(t)) => self.operand_ok(t),
            Ok(Instruction::NOP) => true,
            _ => false,
        }
    }

    /// The registers, PC and clock after one step: ADD adds its operand to A, sets the flags,
    /// takes one machine cycle (two with a memory operand) and moves PC past the instruction;
    /// NOP leaves everything as it was.
    pub open spec fn spec_step(self) -> (Registers, u16, Clock) {
        match spec_decode(self.memory().mem[self.pc() as int]) {
            Ok(Instruction::ADD(t)) => {
                let (a, f) = add_result(self.regs().a, self.spec_operand(t));
                let long = t == ArithmaticTarget::HL || t == ArithmaticTarget::Data;
                (
                    Registers { a, f, ..self.regs() },
                    self.pc().wrapping_add(if t == ArithmaticTarget::Data { 2 } else { 1 }),
                    Clock { t: if long { 2 } else { 1 }, ..self.clock() },
                )
            },
            _ => (self.regs(), self.pc(), self.clock()),
        }
    }

    /// A CPU with zeroed registers, PC and SP at 0, zeroed memory and a zeroed clock.
    pub fn new() -> (r: Self)
        ensures
            r.regs() == Registers::zeroed(),
            r.pc() == 0 && r.sp() == 0,
            forall|i: int| 0 <= i < 0xFFFF ==> #[trigger] r.memory().mem[i] == 0,
            r.clock() == (Clock { t: 0, _m: 0 }),
    {
        Self { reg: Registers::new(), pc: 0, sp: 0, bus: MemBus::new(), clock: Clock { _m: 0, t: 0 } }
    }

    /// Executes the instruction at PC; returns the machine cycles it took.
    pub fn step(&mut self) -> (t: u16)
        requires
            old(self).step_ok(),
        ensures
            (final(self).regs(), final(self).pc(), final(self).clock()) == old(self).spec_step(),
            final(self).sp() == old(self).sp(),
            final(self).memory() == old(self).memory(),
            t == final(self).clock().t,
    {
        let opcode = self.bus.read_byte(self.pc);
        let instruction = match Instruction::decode(opcode) {
            Ok(ins) => ins,
            Err(_) => {
                proof {
                    assert(false);
                }
                Instruction::NOP
            },
        };
        self.pc = self.execute(instruction);
        self.clock.t
    }

    /// Clears the registers, SP and PC.
    fn reset(&mut self)
        ensures
            final(self).reg == Registers::zeroed(),
            final(self).sp == 0 && final(self).pc == 0,
            final(self).bus == old(self).bus && final(self).clock == old(self).clock,
    {
        self.reg.reset();
        self.sp = 0;
        self.pc = 0;
    }

    fn execute(&mut self, instruction: Instruction) -> (pc: u16)
        requires
            spec_decode(old(self).bus.mem[old(self).pc as int]) == Ok::<Instruction, crate::prototype::instruction::InstructionError>(instruction),
            old(self).step_ok(),
        ensures
            (final(self).reg, pc, final(self).clock) == old(self).spec_step(),
            final(self).sp == old(self).sp && final(self).bus == old(self).bus,
            final(self).pc == old(self).pc,
    {
        match instruction {
            Instruction::ADD(target) => match target {
                ArithmaticTarget::A => {
                    let value = self.reg.a;
                    let new_value = self.add(value);
                    self.reg.a = new_value;
                    self.clock.t = 1;
                    self.pc.wrapping_add(1)
                },
                ArithmaticTarget::B => {
                    let value = self.reg.b;
                    let new_value = self.add(value);
                    self.reg.a = new_value;
                    self.clock.t = 1;
                    self.pc.wrapping_add(1)
                },
                ArithmaticTarget::C => {
                    let value = self.reg.c;
                    let new_value = self.add(value);
                    self.reg.a = new_value;
                    self.clock.t = 1;
                    self.pc.wrapping_add(1)
                },
                ArithmaticTarget::D => {
                    let value = self.reg.d;
                    let new_value = self.add(value);
                    self.reg.a = new_value;
                    self.clock.t = 1;
                    self.pc.wrapping_add(1)
                },
                ArithmaticTarget::E => {
                    let value = self.reg.e;
                    let new_value = self.add(value);
                    self.reg.a = new_value;
                    self.clock.t = 1;
                    self.pc.wrapping_add(1)
                },
                ArithmaticTarget::H => {
                    let value = self.reg.h;
                    let new_value = self.add(value);
                    self.reg.a = new_value;
                    self.clock.t = 1;
                    self.pc.wrapping_add(1)
                },
                ArithmaticTarget::L => {
                    let value = self.reg.l;
                    let new_value = self.add(value);
                    self.reg.a = new_value;
                    self.clock.t = 1;
                    self.pc.wrapping_add(1)
                },
                ArithmaticTarget::HL => {
                    let value = self.bus.read_byte(self.reg.hl());
                    let new_value = self.add(value);
                    self.reg.a = new_value;
                    self.clock.t = 2;
                    self.pc.wrapping_add(1)
                },
                ArithmaticTarget::Data => {
                    let value = self.bus.read_byte(self.pc.wrapping_add(1));
                    let new_value = self.add(value);
                    self.reg.a = new_value;
                    self.clock.t = 2;
                    self.pc.wrapping_add(2)
                },
            },
            _ => self.pc.wrapping_add(0),
        }
    }

    /// Sets the flags of adding `value` to A and returns the sum; A itself is left to the caller.
    fn add(&mut self, value: u8) -> (r: u8)
        ensures
            (r, final(self).reg.f) == add_result(old(self).reg.a, value),
            final(self).reg == (Registers { f: final(self).reg.f, ..old(self).reg }),
            final(self).pc == old(self).pc && final(self).sp == old(self).sp,
            final(self).bus == old(self).bus && final(self).clock == old(self).clock,
    {
        let new_value = self.reg.a.wrapping_add(value);
        proof {
            crate::bits::lemma_byte_fields(self.reg.a);
            crate::bits::lemma_byte_fields(value);
        }
        let did_overflow = self.reg.a as u16 + value as u16 > 0xFF;
        self.reg.f.set_all(
            new_value == 0,
            false,
            // Half Carry is set if adding the lower nibbles of the value and register A
            // together result in a value bigger than 0xF. If the result is larger than 0xF
            // than the addition caused a carry from the lower nibble to the upper nibble.
            (self.reg.a & 0xF) + (value & 0xF) > 0xF,
            did_overflow,
        );
        new_value
    }

    /// Pushes `value`: SP moves down and the high byte is written, then SP moves down again
    /// and the low byte is written.
    fn push(&mut self, value: u16)
        requires
            old(self).sp.wrapping_sub(1) < 0xFFFF,
            old(self).sp.wrapping_sub(2) < 0xFFFF,
        ensures
            final(self).sp == old(self).sp.wrapping_sub(2),
            final(self).bus.mem == spec_array_update(
                spec_array_update(
                    old(self).bus.mem,
                    old(self).sp.wrapping_sub(1) as int,
                    ((value & 0xFF00) >> 8u16) as u8,
                ),
                old(self).sp.wrapping_sub(2) as int,
                (value & 0xFF) as u8,
            ),
            final(self).reg == old(self).reg && final(self).pc == old(self).pc,
    {
        self.sp = self.sp.wrapping_sub(1);
        self.bus.write_byte(self.sp, ((value & 0xFF00) >> 8) as u8);
        self.sp = self.sp.wrapping_sub(1);
        self.bus.write_byte(self.sp, (value & 0xFF) as u8);
    }
}

} // verus!
