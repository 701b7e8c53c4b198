use vstd::prelude::*;
use crate::mmu::interrupts::{InterruptFlag, Interrupts, with_flag};

verus! {

/// Possible divider values usable as timer clock source.
#[derive(Debug, Clone, Copy, PartialEq, Eq, Structural)]
pub enum Speed {
    /// Divide sysclk by 1024. Timer clock is 4.096kHz
    T4,
    /// Divide sysclk by 16. Timer clock is 262.144kHz
    T256,
    /// Divide sysclk by 64. Timer clock is 65.536kHz
    T64,
    /// Divide sysclk by 256. Timer clock is 16.384kHz
    T16,
}

/// The timer control register (TAC): clock select in bits 0-1, enable in bit 2.
#[derive(Debug, Clone, Copy, PartialEq, Eq, Structural)]
pub struct TimerControl {
    pub speed: Speed,
    pub running: bool,
}

/// The clock-select bits of a speed.
pub open spec fn speed_bits(s: Speed) -> u8 {
    match s {
        Speed::T4 => 0,
        Speed::T256 => 1,
        Speed::T64 => 2,
        Speed::T16 => 3,
    }
}

/// The speed selected by the low two bits of `b`.
pub open spec fn speed_of_bits(b: u8) -> Speed {
    let s = b & 0x3;
    if s == 0 {
        Speed::T4
    } else if s == 1 {
        Speed::T256
    } else if s == 2 {
        Speed::T64
    } else {
        Speed::T16
    }
}

/// The TAC byte of a control value.
pub open spec fn control_byte(t: TimerControl) -> u8 {
    speed_bits(t.speed) | ((if t.running { 1u8 } else { 0u8 }) << 2u8)
}

/// The control value that a TAC byte selects; bits above bit 2 are ignored.
pub open spec fn control_of_byte(b: u8) -> TimerControl {
    TimerControl { speed: speed_of_bits(b), running: b & 0x4 != 0 }
}

/// How many main-clock ticks (of 16 system cycles) make one TIMA increment.
pub open spec fn threshold(s: Speed) -> u32 {
    match s {
        Speed::T4 => 64,
        Speed::T256 => 1,
        Speed::T64 => 4,
        Speed::T16 => 16,
    }
}

impl TimerControl {
    /// Stopped, at the slowest speed.
    pub fn new() -> (r: Self)
        ensures
            r == (TimerControl { speed: Speed::T4, running: false }),
    {
        Self { speed: Speed::T4, running: false }
    }

    /// The TAC byte of this value.
    pub fn to_byte(self) -> (r: u8)
        ensures
            r == control_byte(self),
    {
        let speed: u8 = match self.speed {
            Speed::T4 => 0x0,
            Speed::T256 => 0x1,
            Speed::T64 => 0x2,
            Speed::T16 => 0x3,
        };
        let running: u8 = if self.running { 1 } else { 0 };
        speed | (running << 2)
    }

    /// The control value that a TAC byte selects.
    pub fn from_byte(value: u8) -> (r: Self)
        ensures
            r == control_of_byte(value),
    {
        let s = value & 0x3;
        let speed = if s == 0 {
            Speed::T4
        } else if s == 1 {
            Speed::T256
        } else if s == 2 {
            Speed::T64
        } else {
            Speed::T16
        };
        let running = (value & 0x4) != 0;
        Self { speed, running }
    }
}

/// Reading back a written control value gives it again.
pub proof fn lemma_control_roundtrip(t: TimerControl)
    ensures
        control_of_byte(control_byte(t)) == t,
{
    let r: u8 = if t.running { 1u8 } else { 0u8 };
    let s = speed_bits(t.speed);
    assert(s <= 3);
    assert((s | (r << 2u8)) & 0x3 == s && ((s | (r << 2u8)) & 0x4 != 0) == (r == 1)) by (bit_vector)
        requires
            s <= 3,
            r <= 1,
    ;
}

/// Writing a byte to TAC and reading it back keeps its low three bits.
pub proof fn lemma_control_byte_of_byte(b: u8)
    ensures
        control_byte(control_of_byte(b)) == b & 0x7,
{
    let r: u8 = if b & 0x4 != 0 { 1u8 } else { 0u8 };
    assert(b & 0x3 < 4) by (bit_vector);
    assert(speed_bits(speed_of_bits(b)) == b & 0x3);
    assert(((b & 0x3) | (r << 2u8)) == b & 0x7) by (bit_vector)
        requires
            r == (if b & 0x4 != 0 { 1u8 } else { 0u8 }),
    ;
}

/// The internal counters of the timer: `sub` counts machine cycles, `main` counts ticks of
/// four machine cycles and `div` counts main ticks towards the next DIV increment.
#[derive(Debug, Clone, Copy, PartialEq, Eq, Structural)]
pub struct TimerClock {
    pub main: u32,
    pub sub: u32,
    pub div: u32,
}

/// The timer and divider registers.
#[derive(Debug, Clone, Copy, PartialEq, Eq, Structural)]
pub struct Timer {
    pub clock: TimerClock,
    /// divider
    pub div: u8,
    /// timer counter
    pub tima: u8,
    /// timer modulo
    pub tma: u8,
    /// timer control
    pub tac: TimerControl,
}

/// Whether `addr` is one of the four timer registers.
pub open spec fn is_timer_addr(addr: u16) -> bool {
    0xFF04 <= addr <= 0xFF07
}

impl Timer {
    /// Whether a step of `cycles` keeps the internal counters inside `u32`.
    pub open spec fn step_ok(self, cycles: u32) -> bool {
        let sub = self.clock.sub + cycles / 4;
        &&& sub <= u32::MAX
        &&& sub >= 4 ==> self.clock.main < u32::MAX && self.clock.div < u32::MAX
    }

    /// The counters after `cycles` clock cycles: the machine cycles are added to `sub`; once
    /// it holds four, one main tick is taken, and every sixteenth main tick increments DIV.
    pub open spec fn spec_advance(self, cycles: u32) -> Timer {
        let sub = (self.clock.sub + cycles / 4) as u32;
        if sub >= 4 {
            let d = (self.clock.div + 1) as u32;
            let main = (self.clock.main + 1) as u32;
            if d == 16 {
                Timer {
                    clock: TimerClock { main, sub: (sub - 4) as u32, div: 0 },
                    div: self.div.wrapping_add(1),
                    ..self
                }
            } else {
                Timer { clock: TimerClock { main, sub: (sub - 4) as u32, div: d }, ..self }
            }
        } else {
            Timer { clock: TimerClock { sub, ..self.clock }, ..self }
        }
    }

    /// TIMA counting: when the timer runs and enough main ticks have passed, TIMA is
    /// incremented; on overflow it is reloaded from TMA and the timer interrupt is requested.
    pub open spec fn spec_check(self, i: Interrupts) -> (Timer, Interrupts) {
        if self.tac.running && self.clock.main >= threshold(self.tac.speed) {
            let tima = self.tima.wrapping_add(1);
            let t = Timer { clock: TimerClock { main: 0, ..self.clock }, tima, ..self };
            if tima == 0 {
                (Timer { tima: self.tma, ..t }, with_flag(i, InterruptFlag::Timer))
            } else {
                (t, i)
            }
        } else {
            (self, i)
        }
    }

    /// One step of `cycles` clock cycles.
    pub open spec fn spec_step(self, cycles: u32, i: Interrupts) -> (Timer, Interrupts) {
        self.spec_advance(cycles).spec_check(i)
    }

    /// The byte a read of timer register `addr` returns.
    pub open spec fn spec_read_byte(self, addr: u16) -> u8 {
        if addr == 0xFF04 {
            self.div
        } else if addr == 0xFF05 {
            self.tima
        } else if addr == 0xFF06 {
            self.tma
        } else {
            control_byte(self.tac)
        }
    }

    /// The timer after writing `value` to register `addr`; any write to DIV clears it.
    pub open spec fn spec_write_byte(self, addr: u16, value: u8) -> Timer {
        if addr == 0xFF04 {
            Timer { div: 0, ..self }
        } else if addr == 0xFF05 {
            Timer { tima: value, ..self }
        } else if addr == 0xFF06 {
            Timer { tma: value, ..self }
        } else {
            Timer { tac: control_of_byte(value), ..self }
        }
    }

    /// The timer at power-on: stopped, with all registers and counters at zero.
    pub open spec fn new_spec() -> Timer {
        Timer {
            clock: TimerClock { main: 0, sub: 0, div: 0 },
            div: 0,
            tima: 0,
            tma: 0,
            tac: TimerControl { speed: Speed::T4, running: false },
        }
    }

    /// A stopped timer with all registers and counters at zero.
    pub fn new() -> (r: Self)
        ensures
            r == Timer::new_spec(),
    {
        Self {
            div: 0,
            tima: 0,
            tma: 0,
            tac: TimerControl::new(),
            clock: TimerClock { main: 0, sub: 0, div: 0 },
        }
    }

    /// Whether `step_ok` holds, computed.
    pub fn can_step(&self, cycles: u32) -> (r: bool)
        ensures
            r == self.step_ok(cycles),
    {
        let q = cycles / 4;
        if self.clock.sub > u32::MAX - q {
            return false;
        }
        let sub = self.clock.sub + q;
        sub < 4 || (self.clock.main < u32::MAX && self.clock.div < u32::MAX)
    }

    /// Advances the timer by `cycles` clock cycles; a TIMA overflow requests the timer
    /// interrupt in `intf`.
    pub fn step(&mut self, cycles: u32, intf: &mut Interrupts)
        requires
            old(self).step_ok(cycles),
        ensures
            (*final(self), *final(intf)) == old(self).spec_step(cycles, *old(intf)),
    {
        self.clock.sub = self.clock.sub + cycles / 4;
        if self.clock.sub >= 4 {
            self.clock.main = self.clock.main + 1;
            self.clock.sub = self.clock.sub - 4;
            self.clock.div = self.clock.div + 1;
            if self.clock.div == 16 {
                self.div = self.div.wrapping_add(1);
                self.clock.div = 0;
            }
        }
        self.check(intf);
    }

    fn check(&mut self, intf: &mut Interrupts)
        ensures
            (*final(self), *final(intf)) == old(self).spec_check(*old(intf)),
    {
        if self.tac.running {
            let threshold: u32 = match self.tac.speed {
                Speed::T4 => 64,
                Speed::T256 => 1,
                Speed::T64 => 4,
                Speed::T16 => 16,
            };
            if self.clock.main >= threshold {
                self.clock.main = 0;
                self.tima = self.tima.wrapping_add(1);
                if self.tima == 0x0 {
                    self.tima = self.tma;
                    intf.set_flag(InterruptFlag::Timer);
                }
            }
        }
    }

    /// Reads timer register `addr` (DIV, TIMA, TMA or TAC).
    pub fn read_byte(&self, addr: u16) -> (r: u8)
        requires
            is_timer_addr(addr),
        ensures
            r == self.spec_read_byte(addr),
    {
        if addr == 0xFF04 {
            self.div
        } else if addr == 0xFF05 {
            self.tima
        } else if addr == 0xFF06 {
            self.tma
        } else {
            self.tac.to_byte()
        }
    }

    /// Writes timer register `addr`.
    pub fn write_byte(&mut self, addr: u16, value: u8)
        requires
            is_timer_addr(addr),
        ensures
            *final(self) == old(self).spec_write_byte(addr, value),
    {
        if addr == 0xFF04 {
            self.div = 0x0;
        } else if addr == 0xFF05 {
            self.tima = value;
        } else if addr == 0xFF06 {
            self.tma = value;
        } else {
            self.tac = TimerControl::from_byte(value);
        }
    }
}

/// A timer register reads back what was written to it, but DIV, which any write clears, and
/// TAC, which keeps only its low three bits.
pub proof fn lemma_timer_write_read(t: Timer, addr: u16, value: u8)
    requires
        is_timer_addr(addr),
    ensures
        t.spec_write_byte(addr, value).spec_read_byte(addr) == if addr == 0xFF04 {
            0u8
        } else if addr == 0xFF07 {
            value & 0x7
        } else {
            value
        },
{
    lemma_control_byte_of_byte(value);
}

/// A stopped timer never changes TIMA nor requests the timer interrupt.
pub proof fn lemma_stopped_timer(t: Timer, cycles: u32, i: Interrupts)
    requires
        !t.tac.running,
    ensures
        t.spec_step(cycles, i).0.tima == t.tima,
        t.spec_step(cycles, i).1 == i,
{
}

/// When TIMA overflows it is reloaded from TMA and the timer interrupt is requested.
pub proof fn lemma_tima_overflow(t: Timer, cycles: u32, i: Interrupts)
    requires
        t.tac.running,
        t.tima == 0xFF,
        t.spec_advance(cycles).clock.main >= threshold(t.tac.speed),
    ensures
        t.spec_step(cycles, i).0.tima == t.tma,
        t.spec_step(cycles, i).1 == with_flag(i, InterruptFlag::Timer),
        t.spec_step(cycles, i).0.clock.main == 0,
{
}

/// Below the threshold TIMA counts up by one per tick of the selected speed, without interrupt.
pub proof fn lemma_tima_counts(t: Timer, cycles: u32, i: Interrupts)
    requires
        t.tac.running,
        t.tima < 0xFF,
        t.spec_advance(cycles).clock.main >= threshold(t.tac.speed),
    ensures
        t.spec_step(cycles, i).0.tima == t.tima + 1,
        t.spec_step(cycles, i).1 == i,
{
}

/// Clock cycles per TIMA increment at each speed: the system clock divided by 1024, 16, 64
/// or 256.
pub open spec fn period(s: Speed) -> int {
    match s {
        Speed::T4 => 1024,
        Speed::T256 => 16,
        Speed::T64 => 64,
        Speed::T16 => 256,
    }
}

/// The timer and the interrupt requests after `k` steps of `cycles` clock cycles each, with
/// no register written between them.
pub open spec fn spec_steps(t: Timer, cycles: u32, i: Interrupts, k: nat) -> (Timer, Interrupts)
    decreases k,
{
    if k == 0 {
        (t, i)
    } else {
        let (t1, i1) = spec_steps(t, cycles, i, (k - 1) as nat);
        t1.spec_step(cycles, i1)
    }
}

/// Counting one step further: `k` splits into whole ticks of `th` and a remainder, and one
/// more either completes a tick or grows the remainder.
proof fn lemma_count_on(k: int, th: int)
    requires
        k >= 1,
        th >= 1,
    ensures
        (k - 1) % th == th - 1 ==> k % th == 0 && k / th == (k - 1) / th + 1,
        (k - 1) % th != th - 1 ==> k % th == (k - 1) % th + 1 && k / th == (k - 1) / th,
        0 <= (k - 1) % th < th,
        (k - 1) / th <= k / th,
{
    let q = (k - 1) / th;
    let r = (k - 1) % th;
    vstd::arithmetic::div_mod::lemma_fundamental_div_mod(k - 1, th);
    vstd::arithmetic::div_mod::lemma_mod_bound(k - 1, th);
    if r == th - 1 {
        assert(k == (q + 1) * th + 0) by (nonlinear_arith)
            requires
                k - 1 == th * q + r,
                r == th - 1,
        ;
        vstd::arithmetic::div_mod::lemma_fundamental_div_mod_converse(k, th, q + 1, 0);
    } else {
        assert(k == q * th + (r + 1)) by (nonlinear_arith)
            requires
                k - 1 == th * q + r,
        ;
        vstd::arithmetic::div_mod::lemma_fundamental_div_mod_converse(k, th, q, r + 1);
    }
}

/// `16 k` clock cycles make `k / threshold` ticks of a speed's period.
proof fn lemma_period_ticks(k: int, s: Speed)
    requires
        k >= 0,
    ensures
        (16 * k) / period(s) == k / (threshold(s) as int),
{
    let th = threshold(s) as int;
    let q = k / th;
    let r = k % th;
    vstd::arithmetic::div_mod::lemma_fundamental_div_mod(k, th);
    vstd::arithmetic::div_mod::lemma_mod_bound(k, th);
    assert(16 * k == q * period(s) + 16 * r && 0 <= 16 * r < period(s)) by (nonlinear_arith)
        requires
            k == th * q + r,
            0 <= r < th,
            period(s) == 16 * th,
    ;
    vstd::arithmetic::div_mod::lemma_fundamental_div_mod_converse(16 * k, period(s), q, 16 * r);
}

/// The timer rate: a running timer started with its tick counters (`main`, `sub`) at zero
/// counts TIMA at its speed. After `k` steps of 16 clock cycles with no register written,
/// TIMA has gone up by `16 k / period`, that is by 16 k divided by 1024, 16, 64 or 256 for the
/// four speeds, as long as it does not overflow, and no timer interrupt is requested. Each of
/// those steps is a valid one. (A step counts at most one tick of four machine cycles, so
/// 16-cycle steps are the ones counted in full.)
pub proof fn lemma_tima_after_steps(t: Timer, i: Interrupts, k: nat)
    requires
        t.tac.running,
        t.clock.main == 0,
        t.clock.sub == 0,
        t.clock.div < 16 || t.clock.div + k < u32::MAX,
        t.tima + (16 * k as int) / period(t.tac.speed) <= 0xFF,
    ensures
        ({
            let (t2, i2) = spec_steps(t, 16, i, k);
            &&& t2.tima == t.tima + (16 * k as int) / period(t.tac.speed)
            &&& i2 == i
            &&& t2.tac == t.tac && t2.tma == t.tma
            &&& t2.clock.sub == 0
            &&& t.clock.div < 16 ==> t2.clock.div < 16
            &&& t.clock.div >= 16 ==> t2.clock.div == t.clock.div + k
            &&& t2.clock.main == (k as int) % (threshold(t.tac.speed) as int)
            &&& t2.step_ok(16)
        }),
    decreases k,
{
    let th = threshold(t.tac.speed) as int;
    lemma_period_ticks(k as int, t.tac.speed);
    if k == 0 {
        assert(0int % th == 0) by (nonlinear_arith) requires th >= 1;
    } else {
        lemma_count_on(k as int, th);
        lemma_period_ticks(k - 1, t.tac.speed);
        lemma_tima_after_steps(t, i, (k - 1) as nat);
    }
}

/// The divider rate: DIV (0xFF04) goes up by one every 256 clock cycles, wrapping at 256,
/// whether or not the timer runs. After `k` steps of 16 clock cycles from a clean tick counter,
/// DIV has gone up by `(d + k) / 16` (modulo 256), `d` being the sixteenth-steps already counted
/// towards the next increment; each step is a valid one.
pub proof fn lemma_div_after_steps(t: Timer, i: Interrupts, k: nat)
    requires
        t.clock.sub == 0,
        t.clock.div < 16,
        t.clock.main + k < u32::MAX,
    ensures
        ({
            let (t2, i2) = spec_steps(t, 16, i, k);
            &&& t2.div as int == (t.div + (t.clock.div + k) / 16) % 256
            &&& t2.clock.div == (t.clock.div + k) % 16
            &&& t2.clock.sub == 0
            &&& t2.clock.main <= t.clock.main + k
            &&& t2.step_ok(16)
        }),
    decreases k,
{
    if k > 0 {
        lemma_div_after_steps(t, i, (k - 1) as nat);
        lemma_count_on(t.clock.div + k, 16);
        let (t1, i1) = spec_steps(t, 16, i, (k - 1) as nat);
        let q = (t.clock.div + k - 1) / 16;
        let d = t.div as int;
        assert((d + q) % 256 < 256 && 0 <= (d + q) % 256);
        if (t.clock.div + k - 1) % 16 == 15 {
            assert(t1.div.wrapping_add(1) as int == (d + q + 1) % 256) by (nonlinear_arith)
                requires
                    t1.div as int == (d + q) % 256,
                    t1.div.wrapping_add(1) as int == if t1.div + 1 > 255 { t1.div + 1 - 256 } else { t1.div + 1 },
            ;
        }
    }
}

} // verus!
