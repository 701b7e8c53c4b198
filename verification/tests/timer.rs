use gameboy::clock::frames_due;
use gameboy::mmu::interrupts::Interrupts;
use gameboy::timer::{Speed, Timer, TimerControl};

#[test]
fn timer_control_keeps_three_bits() {
    let mut timer = Timer::new();
    timer.write_byte(0xFF07, 0x05);
    assert_eq!(timer.read_byte(0xFF07), 0x05);
    assert_eq!(timer.tac, TimerControl { speed: Speed::T256, running: true });
    timer.write_byte(0xFF07, 0xFF);
    assert_eq!(timer.read_byte(0xFF07), 0x07);
}

#[test]
fn writing_div_clears_it() {
    let mut timer = Timer::new();
    let mut intf = Interrupts::new();
    for _ in 0..16 {
        timer.step(16, &mut intf);
    }
    assert_eq!(timer.read_byte(0xFF04), 1);
    timer.write_byte(0xFF04, 0x99);
    assert_eq!(timer.read_byte(0xFF04), 0);
}

#[test]
fn tima_overflow_reloads_tma_and_requests_interrupt() {
    let mut timer = Timer::new();
    let mut intf = Interrupts::new();
    timer.write_byte(0xFF06, 0xAB);
    timer.write_byte(0xFF05, 0xFF);
    timer.write_byte(0xFF07, 0x05);
    timer.step(16, &mut intf);
    assert_eq!(timer.read_byte(0xFF05), 0xAB);
    assert_eq!(intf.data, 0b0000_0100);
}

#[test]
fn stopped_timer_does_not_count() {
    let mut timer = Timer::new();
    let mut intf = Interrupts::new();
    timer.write_byte(0xFF05, 0x10);
    for _ in 0..100 {
        timer.step(16, &mut intf);
    }
    assert_eq!(timer.read_byte(0xFF05), 0x10);
    assert_eq!(intf.data, 0);
}

#[test]
fn can_step_refuses_overflow() {
    let timer = Timer::new();
    assert!(timer.can_step(16));
    assert!(timer.can_step(u32::MAX));
}

#[test]
fn tima_counts_at_the_selected_speed() {
    let mut intf = Interrupts::new();
    // 16 clocks per increment
    let mut timer = Timer::new();
    timer.write_byte(0xFF07, 0x05);
    for _ in 0..10 {
        timer.step(16, &mut intf);
    }
    assert_eq!(timer.read_byte(0xFF05), 10);
    // 1024 clocks per increment
    let mut timer = Timer::new();
    timer.write_byte(0xFF07, 0x04);
    for _ in 0..130 {
        timer.step(16, &mut intf);
    }
    assert_eq!(timer.read_byte(0xFF05), 2);
    // 256 clocks per increment
    let mut timer = Timer::new();
    timer.write_byte(0xFF07, 0x07);
    for _ in 0..48 {
        timer.step(16, &mut intf);
    }
    assert_eq!(timer.read_byte(0xFF05), 3);
    assert_eq!(intf.data, 0);
}

#[test]
fn frames_due_counts_whole_intervals() {
    assert_eq!(frames_due(0, 33_333_332), (2, 0));
    assert_eq!(frames_due(16_000_000, 1_000_000), (1, 333_334));
    // a long pause counts as 250 ms only
    assert_eq!(frames_due(0, 1_000_000_000), (15, 10));
    assert_eq!(frames_due(5, 0), (0, 5));
}
