use vstd::prelude::*;
use crate::addressable::Addressable;
use crate::clock::{Clock, MAX_CYCLES_PER_FRAME};
use crate::cpu::{Cpu, CpuErr};
use crate::gpu::{Color, Screen, Theme};
use crate::gpu::palette::{theme_rgba, color_bits};
use crate::joypad::{Key, KeyState};
use crate::mmu::Mmu;
use crate::mmu::interrupts::{InterruptFlag, with_flag};

pub use crate::gpu::{SCREEN_HEIGHT, SCREEN_WIDTH};

verus! {

/// Why a frame stopped early.
#[derive(Debug, Clone, Copy, PartialEq, Eq, Structural)]
pub enum Fault {
    /// The CPU met an invalid opcode or a word access across the end of memory.
    Cpu(CpuErr),
    /// A step would run a GPU, timer or clock counter past `u32::MAX`.
    ClockOverflow,
}

/// One step of the machine on CPU `cpu`, frame clock `clock` and serial output `out`: the CPU
/// executes an instruction and dispatches interrupts, the GPU and the timer advance by the
/// same number of cycles, the clock counts them, and a serial transfer started with 0x81 in
/// SC emits the character in SB and clears SC. A fault stops the step where it happens.
pub open spec fn spec_tick(cpu: Cpu<Mmu>, clock: Clock, out: Seq<char>) -> (Cpu<Mmu>, Clock, Seq<char>, Option<Fault>) {
    if !cpu.spec_step_ok() {
        (cpu.spec_fault_state(), clock, out, Some(Fault::Cpu(cpu.spec_step_error())))
    } else {
        let (c1, cycles) = cpu.spec_step();
        if !c1.bus.step_ok(cycles) || !clock.step_ok(cycles) {
            (c1, clock, out, Some(Fault::ClockOverflow))
        } else {
            let bus = c1.bus.spec_step(cycles);
            let clock2 = Clock { t: (clock.t + cycles) as u32, m: (clock.m + cycles / 4) as u32 };
            if bus.sc == 0x81 {
                (Cpu { bus: bus.spec_write(0xFF02, 0), ..c1 }, clock2, out.push(bus.sb as char), None)
            } else {
                (Cpu { bus, ..c1 }, clock2, out, None)
            }
        }
    }
}

/// The steps of one frame: steps run while the clock has not passed the frame budget, and
/// stop at the first fault.
pub open spec fn spec_run(cpu: Cpu<Mmu>, clock: Clock, out: Seq<char>) -> (Cpu<Mmu>, Clock, Seq<char>, Option<Fault>)
    decreases MAX_CYCLES_PER_FRAME + 45 - clock.t,
{
    if clock.t > MAX_CYCLES_PER_FRAME {
        (cpu, clock, out, None)
    } else {
        let (c, k, o, f) = spec_tick(cpu, clock, out);
        if f is Some {
            (c, k, o, f)
        } else {
            proof {
                cpu.lemma_step_cycles();
            }
            spec_run(c, k, o)
        }
    }
}

/// One call of `update` on CPU `cpu`, frame clock `clock`, serial output `out` and pause state
/// `paused`: the CPU, clock and serial output after it, and what it returns. A paused console
/// only resets its clock; a running one runs a frame, which resets the clock unless a fault
/// ends it early.
pub open spec fn spec_update(cpu: Cpu<Mmu>, clock: Clock, out: Seq<char>, paused: bool) -> (
    Cpu<Mmu>,
    Clock,
    Seq<char>,
    Result<(), Fault>,
) {
    if paused {
        (cpu, Clock { t: 0, m: 0 }, out, Ok(()))
    } else {
        let (c, k, o, f) = spec_run(cpu, clock, out);
        match f {
            None => (c, Clock { t: 0, m: 0 }, o, Ok(())),
            Some(e) => (c, k, o, Err(e)),
        }
    }
}

/// `n` calls of `update` one after another, with nothing else in between: the CPU, clock and
/// serial output after them, and what the last one returned (`Ok` when there was none).
pub open spec fn spec_updates(cpu: Cpu<Mmu>, clock: Clock, out: Seq<char>, paused: bool, n: nat) -> (
    Cpu<Mmu>,
    Clock,
    Seq<char>,
    Result<(), Fault>,
)
    decreases n,
{
    if n == 0 {
        (cpu, clock, out, Ok(()))
    } else {
        let (c, k, o, r) = spec_updates(cpu, clock, out, paused, (n - 1) as nat);
        spec_update(c, k, o, paused)
    }
}

/// Appends `c` to `s` with std's `String::push`: the characters of `s` gain `c` at the end.
#[verifier::external_body]
fn push_char(s: &mut String, c: char)
    ensures
        final(s)@ == old(s)@.push(c),
{
    s.push(c);
}

/// The emulated console: CPU with memory, the frame clock and the serial output.
pub struct Gameboy {
    cpu: Cpu<Mmu>,
    clock: Clock,
    serial_output: String,
    paused: bool,
}

impl Gameboy {
    pub closed spec fn cpu(self) -> Cpu<Mmu> {
        self.cpu
    }

    pub closed spec fn clock(self) -> Clock {
        self.clock
    }

    pub closed spec fn serial(self) -> Seq<char> {
        self.serial_output@
    }

    pub closed spec fn is_paused(self) -> bool {
        self.paused
    }

    /// A console at power-on, running, with empty serial output.
    pub fn new(debug: bool) -> (r: Self)
        ensures
            r.cpu().bus.fresh(),
            r.cpu().reg.pc == 0,
            r.cpu().ime && !r.cpu().halted,
            r.cpu().debug == debug,
            r.clock() == (Clock { t: 0, m: 0 }),
            r.serial() == Seq::<char>::empty(),
            !r.is_paused(),
    {
        let cpu = Cpu::new(debug);
        Gameboy { cpu, clock: Clock::new(), serial_output: String::new(), paused: false }
    }

    /// Copies a ROM image into the cartridge ROM area.
    pub fn load_rom(&mut self, bin: Vec<u8>)
        requires
            bin.len() <= 0x8000,
        ensures
            forall|i: int| 0 <= i < bin.len() ==> final(self).cpu().bus.rom[i] == bin[i],
            forall|i: int| bin.len() <= i < 0x8000 ==> final(self).cpu().bus.rom[i] == old(self).cpu().bus.rom[i],
            final(self).cpu() == (Cpu { bus: Mmu { rom: final(self).cpu().bus.rom, ..old(self).cpu().bus }, ..old(self).cpu() }),
            final(self).clock() == old(self).clock(),
            final(self).serial() == old(self).serial(),
            final(self).is_paused() == old(self).is_paused(),
    {
        self.cpu.bus.load_rom(bin);
    }

    /// Runs the machine for one frame: steps until the clock passes the frame budget, then
    /// resets the clock. A paused console does not step. A fault ends the frame early with
    /// the state where it happened.
    pub fn update(&mut self) -> (r: Result<(), Fault>)
        ensures
            final(self).is_paused() == old(self).is_paused(),
            old(self).is_paused() ==> r is Ok && final(self).cpu() == old(self).cpu()
                && final(self).serial() == old(self).serial() && final(self).clock() == (Clock { t: 0, m: 0 }),
            (final(self).cpu(), final(self).clock(), final(self).serial(), r) == spec_update(
                old(self).cpu(),
                old(self).clock(),
                old(self).serial(),
                old(self).is_paused(),
            ),
            !old(self).is_paused() ==> ({
                let (c, k, o, f) = spec_run(old(self).cpu(), old(self).clock(), old(self).serial());
                &&& final(self).cpu() == c
                &&& final(self).serial() == o
                &&& match f {
                    None => r == Ok::<(), Fault>(()) && final(self).clock() == (Clock { t: 0, m: 0 }),
                    Some(e) => r == Err::<(), Fault>(e) && final(self).clock() == k,
                }
            }),
    {
        while self.clock.t <= MAX_CYCLES_PER_FRAME && !self.paused
            invariant
                self.paused == old(self).paused,
                old(self).paused ==> self.cpu == old(self).cpu && self.serial_output@ == old(self).serial_output@,
                !old(self).paused ==> spec_run(self.cpu, self.clock, self.serial_output@) == spec_run(
                    old(self).cpu,
                    old(self).clock,
                    old(self).serial_output@,
                ),
            decreases MAX_CYCLES_PER_FRAME + 44 - (if self.clock.t <= MAX_CYCLES_PER_FRAME + 44 {
                self.clock.t as int
            } else {
                MAX_CYCLES_PER_FRAME + 44
            }),
        {
            let ghost before = (self.cpu, self.clock, self.serial_output@);
            let cycles = match self.cpu.try_step() {
                Ok(c) => c,
                Err(e) => return Err(Fault::Cpu(e)),
            };
            proof {
                before.0.lemma_step_cycles();
            }
            if !self.cpu.bus.can_step(cycles) || self.clock.t > u32::MAX - cycles || self.clock.m
                > u32::MAX - cycles / 4 {
                return Err(Fault::ClockOverflow);
            }
            self.cpu.bus.step(cycles);
            self.clock.step(cycles);
            // Serial output
            if self.cpu.bus.sc == 0x81 {
                let c: char = self.cpu.bus.sb as char;
                push_char(&mut self.serial_output, c);
                self.cpu.bus.write_byte(0xFF02, 0);
            }
        }
        self.clock.reset();
        Ok(())
    }

    pub fn pause(&mut self)
        ensures
            final(self).is_paused(),
            final(self).cpu() == old(self).cpu() && final(self).clock() == old(self).clock()
                && final(self).serial() == old(self).serial(),
    {
        self.paused = true;
    }

    pub fn resume(&mut self)
        ensures
            !final(self).is_paused(),
            final(self).cpu() == old(self).cpu() && final(self).clock() == old(self).clock()
                && final(self).serial() == old(self).serial(),
    {
        self.paused = false;
    }

    /// Presses `key` on the joypad, which requests the joypad interrupt.
    pub fn press_key(&mut self, key: Key)
        ensures
            final(self).cpu() == (Cpu {
                bus: Mmu {
                    joypad: old(self).cpu().bus.joypad.with_key(key, KeyState::Pressed),
                    intf: with_flag(old(self).cpu().bus.intf, InterruptFlag::Joypad),
                    ..old(self).cpu().bus
                },
                ..old(self).cpu()
            }),
            final(self).clock() == old(self).clock() && final(self).serial() == old(self).serial(),
            final(self).is_paused() == old(self).is_paused(),
    {
        self.cpu.bus.joypad.press(key, &mut self.cpu.bus.intf);
    }

    /// Releases `key` on the joypad.
    pub fn release_key(&mut self, key: Key)
        ensures
            final(self).cpu() == (Cpu {
                bus: Mmu { joypad: old(self).cpu().bus.joypad.with_key(key, KeyState::Released), ..old(self).cpu().bus },
                ..old(self).cpu()
            }),
            final(self).clock() == old(self).clock() && final(self).serial() == old(self).serial(),
            final(self).is_paused() == old(self).is_paused(),
    {
        self.cpu.bus.joypad.release(key);
    }

    /// The frame the GPU has drawn.
    pub fn screen(&self) -> (r: Screen)
        ensures
            r == self.cpu().bus.gpu.frame(),
    {
        self.cpu.bus.gpu.get_frame_buffer()
    }

    pub fn set_theme(&mut self, theme: Theme)
        ensures
            final(self).cpu().bus.gpu.theme() == theme,
            final(self).cpu() == (Cpu {
                bus: Mmu { gpu: old(self).cpu().bus.gpu.with_theme_of(final(self).cpu().bus.gpu), ..old(self).cpu().bus },
                ..old(self).cpu()
            }),
            final(self).clock() == old(self).clock() && final(self).serial() == old(self).serial(),
            final(self).is_paused() == old(self).is_paused(),
    {
        self.cpu.bus.gpu.set_theme(theme);
    }

    pub fn get_theme(&self) -> (r: Theme)
        ensures
            r == self.cpu().bus.gpu.theme(),
    {
        self.cpu.bus.gpu.get_theme()
    }

    /// The RGBA value of `color` in the current theme.
    pub fn get_color_rgba(&self, color: Color) -> (r: [u8; 4])
        ensures
            r@ == theme_rgba(self.cpu().bus.gpu.theme(), color_bits(color)),
    {
        self.cpu.bus.gpu.get_color_rgba(color)
    }

    /// Everything written to the serial port so far.
    pub fn read_serial_output(&self) -> (r: &str)
        ensures
            r@ == self.serial(),
    {
        self.serial_output.as_str()
    }
}

/// A step appends at most one character to the serial output.
proof fn lemma_tick_extends(cpu: Cpu<Mmu>, clock: Clock, out: Seq<char>)
    ensures
        out.is_prefix_of(spec_tick(cpu, clock, out).2),
{
    assert forall|c: char| out.is_prefix_of(#[trigger] out.push(c)) by {
        assert(out.push(c).subrange(0, out.len() as int) =~= out);
    }
}

/// The serial output only grows: a frame appends to what was written before.
pub proof fn lemma_serial_append_only(cpu: Cpu<Mmu>, clock: Clock, out: Seq<char>)
    ensures
        out.is_prefix_of(spec_run(cpu, clock, out).2),
    decreases MAX_CYCLES_PER_FRAME + 45 - clock.t,
{
    if clock.t <= MAX_CYCLES_PER_FRAME {
        let (c, k, o, f) = spec_tick(cpu, clock, out);
        lemma_tick_extends(cpu, clock, out);
        if f is None {
            cpu.lemma_step_cycles();
            lemma_serial_append_only(c, k, o);
            assert(o.is_prefix_of(spec_run(c, k, o).2));
            assert(spec_run(cpu, clock, out) == spec_run(c, k, o));
        }
    }
}

/// A step does not depend on the serial output written before it: it appends to that output
/// what it would append to an empty one, and its CPU, clock and fault are the same.
proof fn lemma_tick_output_independent(cpu: Cpu<Mmu>, clock: Clock, out: Seq<char>)
    ensures
        ({
            let (c, k, o, f) = spec_tick(cpu, clock, out);
            let (c0, k0, o0, f0) = spec_tick(cpu, clock, Seq::<char>::empty());
            c == c0 && k == k0 && f == f0 && o == out + o0
        }),
{
    assert forall|x: char| out.push(x) == out + Seq::<char>::empty().push(x) by {
        assert(out.push(x) =~= out + Seq::<char>::empty().push(x));
    }
    assert(out =~= out + Seq::<char>::empty());
}

/// A frame does not depend on the serial output written before it: it appends to that output
/// the characters it emits from an empty one, and its CPU, clock and fault are the same.
#[verifier::rlimit(50)]
#[verifier::spinoff_prover]
pub proof fn lemma_run_output_independent(cpu: Cpu<Mmu>, clock: Clock, out: Seq<char>)
    ensures
        ({
            let (c, k, o, f) = spec_run(cpu, clock, out);
            let (c0, k0, o0, f0) = spec_run(cpu, clock, Seq::<char>::empty());
            c == c0 && k == k0 && f == f0 && o == out + o0
        }),
    decreases MAX_CYCLES_PER_FRAME + 45 - clock.t,
{
    if clock.t <= MAX_CYCLES_PER_FRAME {
        let (c, k, o, f) = spec_tick(cpu, clock, out);
        let (c0, k0, o0, f0) = spec_tick(cpu, clock, Seq::<char>::empty());
        lemma_tick_output_independent(cpu, clock, out);
        if f is None {
            cpu.lemma_step_cycles();
            assert(spec_run(cpu, clock, out) == spec_run(c, k, o));
            assert(spec_run(cpu, clock, Seq::<char>::empty()) == spec_run(c0, k0, o0));
            lemma_run_output_independent(c, k, o);
            lemma_run_output_independent(c0, k0, o0);
            let e = spec_run(c, k, Seq::<char>::empty()).2;
            assert(out + o0 + e =~= out + (o0 + e));
        } else {
            assert(spec_run(cpu, clock, out) == (c, k, o, f));
            assert(spec_run(cpu, clock, Seq::<char>::empty()) == (c0, k0, o0, f0));
        }
    } else {
        assert(out =~= out + Seq::<char>::empty());
    }
}

/// `n` frames run one after another from `cpu`, each from a frame clock at zero as `update`
/// leaves it, with serial output `out` before them; they stop at the first fault. Gives the CPU
/// after them, the serial output and the fault.
pub open spec fn spec_frames(cpu: Cpu<Mmu>, out: Seq<char>, n: nat) -> (Cpu<Mmu>, Seq<char>, Option<Fault>)
    decreases n,
{
    if n == 0 {
        (cpu, out, None)
    } else {
        let (c, o, f) = spec_frames(cpu, out, (n - 1) as nat);
        if f is Some {
            (c, o, f)
        } else {
            let (c2, k2, o2, f2) = spec_run(c, Clock { t: 0, m: 0 }, o);
            (c2, o2, f2)
        }
    }
}

/// Over any number of frames the serial output is what was written before followed by the
/// characters the frames emit, in order; which characters these are does not depend on the
/// earlier output. Each frame emits the character in SB after every step that leaves 0x81 in
/// SC (`spec_tick`), so from power-on the serial output is exactly those characters.
#[verifier::rlimit(50)]
#[verifier::spinoff_prover]
pub proof fn lemma_frames_serial(cpu: Cpu<Mmu>, out: Seq<char>, n: nat)
    ensures
        ({
            let (c, o, f) = spec_frames(cpu, out, n);
            let (c0, o0, f0) = spec_frames(cpu, Seq::<char>::empty(), n);
            c == c0 && f == f0 && o == out + o0
        }),
    decreases n,
{
    if n == 0 {
        assert(out =~= out + Seq::<char>::empty());
    } else {
        lemma_frames_serial(cpu, out, (n - 1) as nat);
        let (c, o, f) = spec_frames(cpu, out, (n - 1) as nat);
        let (c0, o0, f0) = spec_frames(cpu, Seq::<char>::empty(), (n - 1) as nat);
        if f is None {
            let z = Clock { t: 0, m: 0 };
            lemma_run_output_independent(c, z, o);
            lemma_run_output_independent(c, z, o0);
            let e = spec_run(c, z, Seq::<char>::empty()).2;
            assert(out + o0 + e =~= out + (o0 + e));
        }
    }
}

/// A frame that ends without fault has used up the frame budget.
pub proof fn lemma_run_uses_budget(cpu: Cpu<Mmu>, clock: Clock, out: Seq<char>)
    ensures
        spec_run(cpu, clock, out).3 is None ==> spec_run(cpu, clock, out).1.t > MAX_CYCLES_PER_FRAME,
    decreases MAX_CYCLES_PER_FRAME + 45 - clock.t,
{
    if clock.t <= MAX_CYCLES_PER_FRAME {
        let (c, k, o, f) = spec_tick(cpu, clock, out);
        if f is None {
            cpu.lemma_step_cycles();
            lemma_run_uses_budget(c, k, o);
        }
    }
}

/// While the console is paused, any number of `update` calls runs no CPU step: the CPU and
/// the serial output stay as they were, every call returns `Ok`, and only the frame clock is
/// reset to zero.
pub proof fn lemma_paused_updates(cpu: Cpu<Mmu>, clock: Clock, out: Seq<char>, n: nat)
    ensures
        ({
            let (c, k, o, r) = spec_updates(cpu, clock, out, true, n);
            &&& c == cpu
            &&& o == out
            &&& r == Ok::<(), Fault>(())
            &&& n > 0 ==> k == (Clock { t: 0, m: 0 })
        }),
    decreases n,
{
    if n > 0 {
        lemma_paused_updates(cpu, clock, out, (n - 1) as nat);
    }
}

/// The characters one step emits on the serial port: the byte in SB, when the step (CPU
/// instruction with interrupt dispatch, then GPU and timer) leaves 0x81 in SC; nothing
/// otherwise, and nothing from a step that faults.
pub open spec fn step_emits(cpu: Cpu<Mmu>, clock: Clock) -> Seq<char> {
    if !cpu.spec_step_ok() {
        Seq::empty()
    } else {
        let (c1, cycles) = cpu.spec_step();
        if !c1.bus.step_ok(cycles) || !clock.step_ok(cycles) {
            Seq::empty()
        } else {
            let bus = c1.bus.spec_step(cycles);
            if bus.sc == 0x81 {
                seq![bus.sb as char]
            } else {
                Seq::empty()
            }
        }
    }
}

/// The characters one frame emits: those of each of its steps, in order.
pub open spec fn frame_emits(cpu: Cpu<Mmu>, clock: Clock) -> Seq<char>
    decreases MAX_CYCLES_PER_FRAME + 45 - clock.t,
{
    if clock.t > MAX_CYCLES_PER_FRAME {
        Seq::empty()
    } else {
        let (c, k, o, f) = spec_tick(cpu, clock, Seq::empty());
        if f is Some {
            step_emits(cpu, clock)
        } else {
            proof {
                cpu.lemma_step_cycles();
            }
            step_emits(cpu, clock) + frame_emits(c, k)
        }
    }
}

/// The characters `n` frames from `cpu` emit (as `spec_frames` runs them): those of each
/// frame, in order, up to the first fault.
pub open spec fn frames_emit(cpu: Cpu<Mmu>, n: nat) -> Seq<char>
    decreases n,
{
    if n == 0 {
        Seq::empty()
    } else {
        let (c, o, f) = spec_frames(cpu, Seq::<char>::empty(), (n - 1) as nat);
        if f is Some {
            frames_emit(cpu, (n - 1) as nat)
        } else {
            frames_emit(cpu, (n - 1) as nat) + frame_emits(c, Clock { t: 0, m: 0 })
        }
    }
}

/// A step appends to the serial output exactly what it emits.
proof fn lemma_tick_emits(cpu: Cpu<Mmu>, clock: Clock, out: Seq<char>)
    ensures
        spec_tick(cpu, clock, out).2 == out + step_emits(cpu, clock),
{
    assert(out =~= out + Seq::<char>::empty());
    assert forall|x: char| out.push(x) == out + seq![x] by {
        assert(out.push(x) =~= out + seq![x]);
    }
}

/// A frame appends to the serial output exactly what its steps emit, in order.
#[verifier::rlimit(50)]
#[verifier::spinoff_prover]
pub proof fn lemma_run_emits(cpu: Cpu<Mmu>, clock: Clock, out: Seq<char>)
    ensures
        spec_run(cpu, clock, out).2 == out + frame_emits(cpu, clock),
    decreases MAX_CYCLES_PER_FRAME + 45 - clock.t,
{
    if clock.t <= MAX_CYCLES_PER_FRAME {
        let (c, k, o, f) = spec_tick(cpu, clock, out);
        let (c0, k0, o0, f0) = spec_tick(cpu, clock, Seq::<char>::empty());
        lemma_tick_output_independent(cpu, clock, out);
        lemma_tick_emits(cpu, clock, out);
        if f is None {
            cpu.lemma_step_cycles();
            assert(spec_run(cpu, clock, out) == spec_run(c, k, o));
            lemma_run_emits(c, k, o);
            let e = frame_emits(c, k);
            assert(out + step_emits(cpu, clock) + e =~= out + (step_emits(cpu, clock) + e));
        } else {
            assert(spec_run(cpu, clock, out) == (c, k, o, f));
        }
    } else {
        assert(out =~= out + Seq::<char>::empty());
    }
}

/// Over `n` frames the serial output grows by exactly the characters they emit: the SB byte
/// of every step that left 0x81 in SC, in order.
#[verifier::rlimit(50)]
#[verifier::spinoff_prover]
pub proof fn lemma_frames_emit(cpu: Cpu<Mmu>, out: Seq<char>, n: nat)
    ensures
        spec_frames(cpu, out, n).1 == out + frames_emit(cpu, n),
    decreases n,
{
    if n == 0 {
        assert(out =~= out + Seq::<char>::empty());
    } else {
        lemma_frames_emit(cpu, out, (n - 1) as nat);
        lemma_frames_serial(cpu, out, (n - 1) as nat);
        let (c, o, f) = spec_frames(cpu, out, (n - 1) as nat);
        if f is None {
            lemma_run_emits(c, Clock { t: 0, m: 0 }, o);
            let e = frame_emits(c, Clock { t: 0, m: 0 });
            assert(out + frames_emit(cpu, (n - 1) as nat) + e =~= out + (frames_emit(cpu, (n - 1) as nat) + e));
        }
    }
}

/// Calls of `update` on a running console that starts a frame with its clock at zero run the
/// frames of `spec_frames`, as long as none of them faults.
pub proof fn lemma_updates_run_frames(cpu: Cpu<Mmu>, out: Seq<char>, n: nat)
    requires
        spec_frames(cpu, out, n).2 is None,
    ensures
        ({
            let (c, k, o, r) = spec_updates(cpu, Clock { t: 0, m: 0 }, out, false, n);
            &&& c == spec_frames(cpu, out, n).0
            &&& o == spec_frames(cpu, out, n).1
            &&& k == (Clock { t: 0, m: 0 })
            &&& r == Ok::<(), Fault>(())
        }),
    decreases n,
{
    if n > 0 {
        assert(spec_frames(cpu, out, (n - 1) as nat).2 is None);
        lemma_updates_run_frames(cpu, out, (n - 1) as nat);
    }
}

/// From power-on (empty serial output, clock at zero, running), after `n` calls of `update`
/// that all succeed, the serial output is exactly the characters the frames emitted: the SB
/// byte of every step that left 0x81 in SC, in order, and empty if there was none.
pub proof fn lemma_serial_from_power_on(cpu: Cpu<Mmu>, n: nat)
    requires
        spec_frames(cpu, Seq::<char>::empty(), n).2 is None,
    ensures
        spec_updates(cpu, Clock { t: 0, m: 0 }, Seq::<char>::empty(), false, n).2 == frames_emit(cpu, n),
{
    lemma_updates_run_frames(cpu, Seq::<char>::empty(), n);
    lemma_frames_emit(cpu, Seq::<char>::empty(), n);
    assert(Seq::<char>::empty() + frames_emit(cpu, n) =~= frames_emit(cpu, n));
}

} // verus!
