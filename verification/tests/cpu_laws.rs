use gameboy::addressable::Addressable;
use gameboy::cpu::{Cpu, CpuErr};

#[test]
fn interrupt_dispatch_jumps_to_vector() {
    let mut cpu = Cpu::new(false);
    cpu.reg.sp = 0xD000;
    cpu.reg.pc = 0x1234;
    cpu.bus.write_byte(0xFF0F, 0b0000_0110);
    cpu.bus.write_byte(0xFFFF, 0b0000_0100);
    let r = cpu.handle_interrupts();
    assert_eq!(r, Some((0x50, 20)));
    assert!(!cpu.ime);
    assert_eq!(cpu.bus.read_byte(0xFF0F), 0b0000_0010);
    assert_eq!(cpu.reg.sp, 0xCFFE);
    assert_eq!(cpu.bus.read_word(0xCFFE), 0x1234);
}

#[test]
fn halt_ends_without_master_enable() {
    let mut cpu = Cpu::new(false);
    cpu.ime = false;
    cpu.halted = true;
    cpu.bus.write_byte(0xFF0F, 0x01);
    cpu.bus.write_byte(0xFFFF, 0x01);
    assert_eq!(cpu.handle_interrupts(), None);
    assert!(!cpu.halted);
}

#[test]
fn push_then_pop_restores_the_word() {
    let mut cpu = Cpu::new(false);
    cpu.reg.sp = 0xDFF0;
    cpu.reg.b = 0xBE;
    cpu.reg.c = 0xEF;
    // PUSH BC, POP DE
    cpu.execute(0xC5).unwrap();
    assert_eq!(cpu.reg.sp, 0xDFEE);
    cpu.execute(0xD1).unwrap();
    assert_eq!(cpu.reg.sp, 0xDFF0);
    assert_eq!(cpu.reg.d, 0xBE);
    assert_eq!(cpu.reg.e, 0xEF);
}

#[test]
fn add_sets_half_carry_and_carry() {
    let mut cpu = Cpu::new(false);
    cpu.reg.a = 0x8F;
    cpu.reg.b = 0x81;
    let (pc, cycles) = cpu.execute(0x80).unwrap();
    assert_eq!((pc, cycles), (1, 4));
    assert_eq!(cpu.reg.a, 0x10);
    assert!(cpu.reg.f.half_carry);
    assert!(cpu.reg.f.carry);
    assert!(!cpu.reg.f.zero);
}

#[test]
fn invalid_opcode_is_reported() {
    let mut cpu = Cpu::new(false);
    cpu.bus.write_byte(0xFF50, 1);
    cpu.bus.write_byte(0x0000, 0xD3);
    assert_eq!(cpu.try_step(), Err(CpuErr::InvalidInstruction(0xD3)));
}

#[test]
fn word_access_past_the_end_is_reported() {
    let mut cpu = Cpu::new(false);
    cpu.bus.write_byte(0xFF50, 1);
    // LD BC, nn with the operand running past 0xFFFF
    cpu.reg.pc = 0xFFFE;
    cpu.bus.write_byte(0xFFFE, 0x01);
    assert_eq!(cpu.try_step(), Err(CpuErr::AddressOverflow(0xFFFE)));
}

#[test]
fn step_runs_the_boot_rom() {
    let mut cpu = Cpu::new(false);
    // LD SP, 0xFFFE
    let cycles = cpu.step();
    assert_eq!(cycles, 12);
    assert_eq!(cpu.reg.sp, 0xFFFE);
    assert_eq!(cpu.reg.pc, 3);
    // XOR A
    assert_eq!(cpu.step(), 4);
    assert_eq!(cpu.reg.a, 0);
    assert!(cpu.reg.f.zero);
}

#[test]
fn cb_prefixed_swap() {
    let mut cpu = Cpu::new(false);
    cpu.bus.write_byte(0xFF50, 1);
    cpu.reg.pc = 0xC000;
    cpu.bus.write_byte(0xC000, 0xCB);
    cpu.bus.write_byte(0xC001, 0x37);
    cpu.reg.a = 0xF1;
    assert_eq!(cpu.execute(0xCB), Ok((0xC002, 8)));
    assert_eq!(cpu.reg.a, 0x1F);
}
