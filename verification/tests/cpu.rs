use gameboy::addressable::Addressable;
use gameboy::cpu::Cpu;

#[test]
fn reti_leaves_ime_enabled() {
    let mut cpu = Cpu::new(false);
    cpu.ime = false;
    cpu.reg.sp = 0xC000;
    cpu.bus.write_word(cpu.reg.sp, 0x1234);

    let (pc, _) = cpu.execute(0xD9).unwrap();
    cpu.reg.pc = pc;
    cpu.handle_interrupts();

    assert!(cpu.ime);
    assert!(!cpu.ime_next);
}

#[test]
fn ei_enables_ime_once_after_current_instruction() {
    let mut cpu = Cpu::new(false);
    cpu.ime = false;

    cpu.execute(0xFB).unwrap();
    assert!(!cpu.ime);
    assert!(cpu.ime_next);

    cpu.handle_interrupts();
    assert!(cpu.ime);
    assert!(!cpu.ime_next);

    cpu.handle_interrupts();
    assert!(cpu.ime);
}

#[test]
fn di_cancels_pending_ei() {
    let mut cpu = Cpu::new(false);

    cpu.execute(0xFB).unwrap();
    cpu.execute(0xF3).unwrap();
    cpu.handle_interrupts();

    assert!(!cpu.ime);
    assert!(!cpu.ime_next);
}
