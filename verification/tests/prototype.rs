use gameboy::prototype::cpu::interrupts::Interrupt;
use gameboy::prototype::cpu::registers as cpu_registers;
use gameboy::prototype::cpu::CPU;
use gameboy::prototype::gpu::lcdc::LCDC;
use gameboy::prototype::gpu::GPU;
use gameboy::prototype::instruction::{
    ArithmaticTarget, Instruction, InstructionError, LDPointer, LDTarget,
};
use gameboy::prototype::memory::interrupts::{self, InterruptVector, Interrupts};
use gameboy::prototype::memory::Memory;
use gameboy::prototype::mmu::MemBus;
use gameboy::prototype::registers::{FlagsReg, Registers};

#[test]
fn cpu_test_add() {}

#[test]
fn decode_arithmetic_and_loads() {
    assert_eq!(Instruction::decode(0x80), Ok(Instruction::ADD(ArithmaticTarget::B)));
    assert_eq!(Instruction::decode(0xC6), Ok(Instruction::ADD(ArithmaticTarget::Data)));
    assert_eq!(Instruction::decode(0xBE), Ok(Instruction::CP(ArithmaticTarget::HL)));
    assert_eq!(Instruction::decode(0x3D), Ok(Instruction::DEC(ArithmaticTarget::A)));
    assert_eq!(
        Instruction::decode(0x36),
        Ok(Instruction::LD(LDTarget::Pointer(LDPointer::HL), LDTarget::Data))
    );
    assert_eq!(
        Instruction::decode(0xE2),
        Ok(Instruction::LD(LDTarget::Pointer(LDPointer::C), LDTarget::A))
    );
    assert_eq!(Instruction::decode(0x76), Ok(Instruction::HALT));
}

#[test]
fn decode_rejects_missing_opcodes() {
    assert_eq!(Instruction::decode(0x0A), Err(InstructionError::NotImplemented));
    assert_eq!(Instruction::decode(0xCB), Err(InstructionError::NotImplemented));
    assert_eq!(Instruction::decode(0xFF), Err(InstructionError::NotImplemented));
}

#[test]
fn prototype_cpu_nop_step() {
    let mut cpu = CPU::new();
    assert_eq!(cpu.step(), 0);
}

#[test]
fn register_pairs() {
    let mut r = Registers::new();
    r.set_bc(0xBEEF);
    assert_eq!((r.b, r.c), (0xBE, 0xEF));
    assert_eq!(r.bc(), 0xBEEF);
    r.set_de(0x1234);
    assert_eq!(r.de(), 0x1234);
    r.set_hl(0xFFFF);
    assert_eq!(r.hl(), 0xFFFF);
    r.reset();
    assert_eq!(r.hl(), 0);
    let mut f = FlagsReg::from_byte(0xB0);
    assert!(f.zero && !f.subtract && f.half_carry && f.carry);
    assert_eq!(f.to_byte(), 0xB0);
    f.set_all(false, true, false, false);
    assert_eq!(f.to_byte(), 0x40);
}

#[test]
fn af_keeps_the_flag_nibble() {
    let mut r = cpu_registers::Registers::new();
    r.set_af(0x12FF);
    assert_eq!(r.a, 0x12);
    assert_eq!(r.af(), 0x12F0);
    let mut f = cpu_registers::FlagsReg::from_byte(0);
    f.set_z(true);
    f.set_c(true);
    assert_eq!(f.to_byte(), 0x90);
}

#[test]
fn interrupt_vector_bytes() {
    let v = InterruptVector::from_byte(0b1111_0101);
    assert!(v.vblank && !v.lcd_stat && v.timer && !v.serial && v.joypad);
    assert_eq!(v.to_byte(), 0b0001_0101);
    let mut w = InterruptVector::new();
    assert!(w.is_zero());
    w.bitor_assign(v);
    assert_eq!(w, v);
    w.reset();
    assert!(w.is_zero());
}

#[test]
fn interrupts_request() {
    let mut i = Interrupts::new();
    i.request(interrupts::Interrupt::Timer);
    assert!(i.int_r.timer);
    assert!(!i.int_e.timer);
    let mut e = InterruptVector::new();
    e.set_serial(true);
    i.set_int_e(e);
    assert!(i.int_e.serial);
    let mut flags = Interrupt::new();
    flags.set_lcd_stat(true);
    assert!(flags.lcd_stat && !flags.vblank);
}

#[test]
fn membus_words() {
    let mut bus = MemBus::new();
    bus.write_byte(0x10, 0x34);
    bus.write_byte(0x11, 0x12);
    assert_eq!(bus.read_word(0x10), 0x1234);
    // the high byte of a written word is stored as zero
    bus.write_word(0x20, 0xABCD);
    assert_eq!(bus.read_byte(0x20), 0xCD);
    assert_eq!(bus.read_byte(0x21), 0x00);
}

#[test]
fn prototype_gpu_lines() {
    let mut gpu = GPU::new();
    gpu.step(456);
    assert_eq!(gpu.ly, 1);
    assert_eq!(gpu.read8(0xFF44), 1);
    for _ in 0..143 {
        gpu.step(456);
    }
    assert_eq!(gpu.ly, 144);
    assert!(gpu.vblank);
    for _ in 0..10 {
        gpu.step(456);
    }
    assert_eq!(gpu.ly, 0);
    assert!(!gpu.vblank);
}

#[test]
fn prototype_gpu_memory() {
    let mut gpu = GPU::new();
    gpu.write8(0x8000, 0x34);
    gpu.write8(0x8001, 0x12);
    assert_eq!(gpu.read16(0x8000), 0x1234);
    gpu.write16(0x8010, 0xABCD);
    assert_eq!(gpu.read8(0x8010), 0x00);
    assert_eq!(gpu.read8(0x8011), 0xCD);
    gpu.write8(0xFF40, 0x91);
    assert_eq!(gpu.read8(0xFF40), 0x91);
    assert_eq!(LCDC::from_byte(0x91).to_byte(), 0x91);
    assert!(!LCDC::new().lcd_enable);
}

#[test]
fn prototype_stat_write_keeps_read_only_bits() {
    let mut gpu = GPU::new();
    let before = gpu.read8(0xFF41);
    gpu.write8(0xFF41, 0xFF);
    assert_eq!(gpu.read8(0xFF41) & 0x07, before & 0x07);
    assert_eq!(gpu.read8(0xFF41) & 0x78, 0x78);
}
