//! An emulator of an 8-bit console: a 6502 processor, a tile-based picture
//! unit, a sound unit that reports what is to be played, two controllers
//! and a cartridge with one of five mappers.
//!
//! [`Console`] is the machine itself; every operation on it is a function
//! of its state. [`Nes`] joins a console to a screen and a loudspeaker and
//! hands them what the console has to show and to play.
use vstd::prelude::*;
use crate::apu::{Apu, ApuView, AudioEvent};
use crate::cartridge::{parse_ines, Cartridge};
use crate::console::{Console, ConsoleView};
use crate::error::NesError;
use crate::joypad::Button;
use crate::nesaudio::NesAudio;
use crate::nesscreen::{NesScreen, Pixel};
use crate::ppu::render::{frame_pixels, render_frame};

pub mod apu;
pub mod buscpu;
pub mod busppu;
pub mod cartridge;
pub mod commands;
pub mod console;
pub mod cpu;
pub mod error;
pub mod joypad;
pub mod laws;
pub mod mappers;
pub mod memory;
pub mod nesaudio;
pub mod nesscreen;
pub mod ppu;
pub mod rom;

verus! {

/// A console with its screen and its loudspeaker.
pub struct Nes<S, A> {
    pub console: Console,
    pub screen: S,
    pub audio: A,
}

/// The console with its queue of sound events emptied.
pub open spec fn with_events_sent(v: ConsoleView) -> ConsoleView {
    ConsoleView { apu: ApuView { events: Seq::empty(), ..v.apu }, ..v }
}

/// The console after one dot of the picture unit, and whether the dot and
/// the frame that may be due on it could be computed. On the dot at which
/// the vertical blank starts the status bits are set and the frame is
/// drawn, from the console as it then is; only then is the processor
/// interrupted, and the beam moves on. A frame that cannot be computed
/// leaves the console with the status bits set, the processor not
/// interrupted and the beam where it was.
pub open spec fn spec_dot(v: ConsoleView) -> (ConsoleView, Result<(), NesError>) {
    let entered = ppu::spec_begin_dot(v);
    if ppu::frame_starts(v.ppu) {
        match frame_pixels(entered) {
            Ok(_) => ppu::spec_end_dot(entered, true),
            Err(e) => (entered, Err(e)),
        }
    } else {
        ppu::spec_end_dot(entered, false)
    }
}

/// The console after up to `n` dots of the picture unit; a dot that fails
/// is the last.
pub open spec fn spec_dots(v: ConsoleView, n: nat) -> (ConsoleView, Result<(), NesError>)
    decreases n,
{
    if n == 0 {
        (v, Ok(()))
    } else {
        let (before, earlier) = spec_dots(v, (n - 1) as nat);
        if earlier is Err {
            (before, earlier)
        } else {
            spec_dot(before)
        }
    }
}

/// The console after one cycle of the processor whose sound events are
/// sent off, without a dot of the picture unit.
pub open spec fn spec_cycle(v: ConsoleView) -> (ConsoleView, Result<(), NesError>) {
    let (clocked, res) = cpu::spec_clock(v);
    (with_events_sent(clocked), res)
}

/// The console after one tick: one cycle of the processor, whose sound
/// events are sent off, and then three dots of the picture unit.
pub open spec fn spec_tick(v: ConsoleView) -> (ConsoleView, Result<(), NesError>) {
    let (sent, res) = spec_cycle(v);
    if res is Err {
        (sent, res)
    } else {
        spec_dots(sent, 3)
    }
}

/// The console after up to `n` ticks; a tick that fails is the last.
pub open spec fn spec_ticks(v: ConsoleView, n: nat) -> (ConsoleView, Result<(), NesError>)
    decreases n,
{
    if n == 0 {
        (v, Ok(()))
    } else {
        let (before, earlier) = spec_ticks(v, (n - 1) as nat);
        if earlier is Err {
            (before, earlier)
        } else {
            spec_tick(before)
        }
    }
}

/// The cycles that a step waits out: those that the processor has left to
/// wait after the step's first cycle. Where the step finds no cycle left
/// to wait, its first cycle runs the instruction, and these are the
/// instruction's cycles: its base cycles and what it adds to them.
pub open spec fn step_cycles(v: ConsoleView) -> nat {
    spec_cycle(buscpu::spec_read(v, v.cpu.pc).0).0.cpu.cycles as nat
}

/// The console after one step, and the trace line of the instruction at
/// the program counter. The opcode is read for the trace. Then comes one
/// cycle of the processor, on which the instruction runs, without a dot;
/// and after it one tick for each cycle that the processor then has left
/// to wait, so that the picture unit advances by three dots for each cycle
/// of the instruction. Then the instruction's bytes are read for the trace.
pub open spec fn spec_step(v: ConsoleView) -> (ConsoleView, Result<Seq<char>, NesError>) {
    let (peeked, res) = buscpu::spec_read(v, v.cpu.pc);
    match res {
        Ok(opcode) => {
            let (first, ran) = spec_cycle(peeked);
            if ran is Err {
                (first, Err(ran->Err_0))
            } else {
                let (waited, rest) = spec_ticks(first, first.cpu.cycles as nat);
                if rest is Err {
                    (waited, Err(rest->Err_0))
                } else {
                    let instruction = cpu::decode::instruction_of(opcode);
                    let (read, bytes) = cpu::spec_read_bytes(
                        waited,
                        v.cpu.pc,
                        cpu::decode::instruction_len(
                            instruction,
                            cpu::decode::addr_mode_of(opcode),
                        ) as nat,
                    );
                    match bytes {
                        Ok(bytes) => (
                            read,
                            Ok(
                                cpu::trace::spec_trace_line(
                                    v.cpu.pc,
                                    bytes,
                                    instruction.spec_mnemonic(),
                                    v.cpu.ac,
                                    v.cpu.x,
                                    v.cpu.y,
                                    v.cpu.status,
                                    v.cpu.sp,
                                ),
                            ),
                        ),
                        Err(e) => (read, Err(e)),
                    }
                }
            }
        },
        Err(e) => (peeked, Err(e)),
    }
}

/// Whether a tick that stopped after `dots` dots can have left the console
/// as `left`: after those dots, or with the next dot begun where the
/// screen refused its frame.
pub open spec fn left_after_dots(start: ConsoleView, dots: nat, left: ConsoleView) -> bool {
    left == spec_dots(start, dots).0 || (dots < 3 && left == ppu::spec_begin_dot(
        spec_dots(start, dots).0,
    ))
}

/// Once a dot has failed the dots after it are not run.
pub proof fn lemma_dots_stop(v: ConsoleView, k: nat, n: nat)
    requires
        k <= n,
        spec_dots(v, k).1 is Err,
    ensures
        spec_dots(v, n) == spec_dots(v, k),
    decreases n,
{
    if k < n {
        lemma_dots_stop(v, k, (n - 1) as nat);
    }
}

/// While no dot fails, the picture unit of the console moves as the
/// picture unit alone does.
pub proof fn lemma_dots_move_the_beam(v: ConsoleView, n: nat)
    requires
        spec_dots(v, n).1 is Ok,
    ensures
        spec_dots(v, n).0.ppu == ppu::spec_dots(v.ppu, n),
    decreases n,
{
    if n > 0 {
        if spec_dots(v, (n - 1) as nat).1 is Err {
            lemma_dots_stop(v, (n - 1) as nat, n);
        }
        lemma_dots_move_the_beam(v, (n - 1) as nat);
        ppu::lemma_end_is_dot(spec_dots(v, (n - 1) as nat).0);
    }
}

/// Frame cadence of the console: while no dot fails, the one of the next
/// 89342 dots that finds the beam where the vertical blank starts is the
/// one that is `dots_to_frame` away, and no other. That dot is the one on
/// which the frame is drawn and the screen is told that it is complete.
pub proof fn lemma_frame_dot(v: ConsoleView, j: nat)
    requires
        v.ppu.beam_valid(),
        j < ppu::DOTS_PER_FRAME,
        spec_dots(v, j).1 is Ok,
    ensures
        ppu::frame_starts(spec_dots(v, j).0.ppu) <==> j == ppu::dots_to_frame(v.ppu),
{
    lemma_dots_move_the_beam(v, j);
    ppu::lemma_frame_dot(v.ppu, j);
}

/// A tick that succeeds leaves the beam three dots further, counted modulo
/// the frame's length. The processor's cycle does not move it.
pub proof fn lemma_tick_moves_the_beam(v: ConsoleView)
    requires
        v.ppu.beam_valid(),
        spec_tick(v).1 is Ok,
    ensures
        ppu::beam_moved_by(v.ppu, spec_tick(v).0.ppu, 3),
{
    let sent = spec_cycle(v).0;
    cpu::laws::lemma_clock_keeps_beam(v);
    assert(ppu::same_beam(v.ppu, sent.ppu));
    assert(spec_tick(v) == spec_dots(sent, 3));
    lemma_dots_move_the_beam(sent, 3);
    ppu::lemma_dots_advance(sent.ppu, 3);
}

/// Ticks move the beam by three dots each: while no tick fails, the beam
/// is `3 * n` dots further after `n` ticks, counted modulo the frame's
/// length.
pub proof fn lemma_ticks_move_the_beam(v: ConsoleView, n: nat)
    requires
        v.ppu.beam_valid(),
        spec_ticks(v, n).1 is Ok,
    ensures
        ppu::beam_moved_by(v.ppu, spec_ticks(v, n).0.ppu, 3 * n),
    decreases n,
{
    if n > 0 {
        if spec_ticks(v, (n - 1) as nat).1 is Err {
            lemma_ticks_stop(v, (n - 1) as nat, n);
        }
        lemma_ticks_move_the_beam(v, (n - 1) as nat);
        let before = spec_ticks(v, (n - 1) as nat).0;
        lemma_tick_moves_the_beam(before);
        ppu::lemma_beam_moves_on(
            v.ppu,
            before.ppu,
            spec_tick(before).0.ppu,
            (3 * (n - 1)) as nat,
            3,
        );
    } else {
        ppu::lemma_beam_at_rest(v.ppu, v.ppu);
    }
}

/// The dots of a step: a step that succeeds leaves the beam three dots
/// further for each of the cycles that it waits out, counted modulo the
/// frame's length. From a console with no cycle left to wait these are
/// the cycles of the instruction that the step runs, its base cycles and
/// what it adds to them: two for a load of a constant, three for a branch
/// that is taken. An interrupt within the step does not change the count.
pub proof fn lemma_step_dots(v: ConsoleView)
    requires
        v.ppu.beam_valid(),
        spec_step(v).1 is Ok,
    ensures
        ppu::beam_moved_by(v.ppu, spec_step(v).0.ppu, 3 * step_cycles(v)),
{
    let (peeked, res) = buscpu::spec_read(v, v.cpu.pc);
    let opcode = res->Ok_0;
    cpu::laws::lemma_read_keeps_beam(v, v.cpu.pc);
    let first = spec_cycle(peeked).0;
    cpu::laws::lemma_clock_keeps_beam(peeked);
    assert(ppu::same_beam(v.ppu, first.ppu));
    lemma_ticks_move_the_beam(first, first.cpu.cycles as nat);
    let waited = spec_ticks(first, first.cpu.cycles as nat).0;
    let instruction = cpu::decode::instruction_of(opcode);
    cpu::laws::lemma_read_bytes_keeps_beam(
        waited,
        v.cpu.pc,
        cpu::decode::instruction_len(instruction, cpu::decode::addr_mode_of(opcode)) as nat,
    );
}

/// However many dots the picture unit runs, the B flag of the processor
/// stays clear.
pub proof fn lemma_dots_keep_break_clear(v: ConsoleView, n: nat)
    ensures
        cpu::alu::keeps_break_clear(v.cpu, spec_dots(v, n).0.cpu),
    decreases n,
{
    if n > 0 {
        lemma_dots_keep_break_clear(v, (n - 1) as nat);
        ppu::lemma_clock_keeps_break_clear(spec_dots(v, (n - 1) as nat).0);
    }
}

/// However many ticks the console runs, the B flag of the processor stays
/// clear: it is set only in copies of the status byte on the stack.
pub proof fn lemma_ticks_keep_break_clear(v: ConsoleView, n: nat)
    ensures
        cpu::alu::keeps_break_clear(v.cpu, spec_ticks(v, n).0.cpu),
    decreases n,
{
    if n > 0 {
        lemma_ticks_keep_break_clear(v, (n - 1) as nat);
        let before = spec_ticks(v, (n - 1) as nat).0;
        cpu::laws::lemma_clock_keeps_break_clear(before);
        lemma_dots_keep_break_clear(with_events_sent(cpu::spec_clock(before).0), 3);
    }
}

/// Whether the first `n` dots from `v` on call for no drawing: none of
/// those that are run finds the beam where the vertical blank starts.
pub open spec fn dots_are_quiet(v: ConsoleView, n: nat) -> bool
    decreases n,
{
    n == 0 || (dots_are_quiet(v, (n - 1) as nat) && (spec_dots(v, (n - 1) as nat).1 is Err
        || !ppu::frame_starts(spec_dots(v, (n - 1) as nat).0.ppu)))
}

/// Whether a cycle of the processor calls no sink: it leaves no sound
/// event in the queue.
pub open spec fn cycle_is_quiet(v: ConsoleView) -> bool {
    cpu::spec_clock(v).0.apu.events.len() == 0
}

/// Whether a tick calls no sink: the processor's cycle leaves no sound
/// event in the queue, and no frame falls due on the three dots.
pub open spec fn tick_is_quiet(v: ConsoleView) -> bool {
    cycle_is_quiet(v) && (spec_cycle(v).1 is Err || dots_are_quiet(spec_cycle(v).0, 3))
}

/// Whether the first `n` ticks from `v` on call no sink, as far as they
/// are run.
pub open spec fn ticks_are_quiet(v: ConsoleView, n: nat) -> bool
    decreases n,
{
    n == 0 || (ticks_are_quiet(v, (n - 1) as nat) && (spec_ticks(v, (n - 1) as nat).1 is Err
        || tick_is_quiet(spec_ticks(v, (n - 1) as nat).0)))
}

/// Whether a step calls no sink: neither its first cycle nor any of its
/// ticks does. A step whose opcode cannot be read runs neither.
pub open spec fn step_is_quiet(v: ConsoleView) -> bool {
    let (peeked, res) = buscpu::spec_read(v, v.cpu.pc);
    res is Err || (cycle_is_quiet(peeked) && (spec_cycle(peeked).1 is Err || ticks_are_quiet(
        spec_cycle(peeked).0,
        spec_cycle(peeked).0.cpu.cycles as nat,
    )))
}

/// Among ticks that call no sink, each one that is run calls none.
pub proof fn lemma_quiet_tick(v: ConsoleView, n: nat, k: nat)
    requires
        ticks_are_quiet(v, n),
        k < n,
        spec_ticks(v, k).1 is Ok,
    ensures
        tick_is_quiet(spec_ticks(v, k).0),
    decreases n,
{
    if k < n - 1 {
        lemma_quiet_tick(v, (n - 1) as nat, k);
    }
}

/// Once a tick has failed the ticks after it are not run.
pub proof fn lemma_ticks_stop(v: ConsoleView, k: nat, n: nat)
    requires
        k <= n,
        spec_ticks(v, k).1 is Err,
    ensures
        spec_ticks(v, n) == spec_ticks(v, k),
    decreases n,
{
    if k < n {
        lemma_ticks_stop(v, k, (n - 1) as nat);
    }
}

/// The console after a reset: the mapper is reset, then the processor.
pub open spec fn spec_reset(v: ConsoleView) -> (ConsoleView, Result<(), NesError>) {
    cpu::spec_reset(ConsoleView { cartridge: v.cartridge.spec_reset(), ..v })
}

/// The console after the cartridge that `image` describes was put in and
/// the console reset, where that can be done: the image has to be a
/// supported one, and the cartridge has to answer at the reset vector.
pub open spec fn spec_load(v: ConsoleView, image: Seq<u8>) -> Result<ConsoleView, NesError> {
    match parse_ines(image) {
        Ok(cartridge) => {
            let (reset, res) = spec_reset(ConsoleView { cartridge, ..v });
            match res {
                Ok(_) => Ok(reset),
                Err(e) => Err(e),
            }
        },
        Err(e) => Err(e),
    }
}

/// Hands one sound event to the loudspeaker.
fn send_event<A: NesAudio>(audio: &mut A, event: AudioEvent) -> (res: Result<(), NesError>) {
    match event {
        AudioEvent::EnableChannel { channel, enabled } => audio.enable_channel(channel, enabled),
        AudioEvent::UpdatePulse { channel, duty_cycle, volume, freq } => {
            let eighths: Option<u8> = match duty_cycle {
                Some(duty) => Some(duty.eighths()),
                None => None,
            };
            audio.update_pulse(channel, eighths, volume, freq)
        },
        AudioEvent::UpdateTriangle { freq, mute } => audio.update_triangle(freq, mute),
    }
}

/// Hands the queued sound events to the loudspeaker, oldest first, and
/// empties the queue. Where the loudspeaker refuses an event, the events
/// after it are dropped.
fn send_events<A: NesAudio>(apu: &mut Apu, audio: &mut A) -> (res: Result<(), NesError>)
    ensures
        final(apu)@ == (ApuView { events: Seq::empty(), ..old(apu)@ }),
        old(apu)@.events.len() == 0 ==> res == Ok::<(), NesError>(()),
{
    let mut i: usize = 0;
    let mut res: Result<(), NesError> = Ok(());
    while i < apu.events.len() && res.is_ok()
        invariant
            *apu == *old(apu),
            i <= apu.events@.len(),
            i == 0 ==> res == Ok::<(), NesError>(()),
        decreases apu.events.len() - i,
    {
        res = send_event(audio, apu.events[i]);
        i = i + 1;
    }
    apu.events.clear();
    res
}

/// Draws the frame on the screen and tells the screen that it is complete.
fn show_frame<S: NesScreen>(console: &Console, screen: &mut S) -> (res: Result<(), NesError>)
    ensures
        frame_pixels(console@) matches Err(e) ==> res == Err::<(), NesError>(e),
{
    let list: Vec<Pixel> = render_frame(console)?;
    let mut i: usize = 0;
    while i < list.len()
        invariant
            frame_pixels(console@) is Ok,
        decreases list.len() - i,
    {
        let pixel: Pixel = list[i];
        screen.draw_pixel(pixel.x, pixel.y, pixel.rgb)?;
        i = i + 1;
    }
    screen.vblank()
}

impl<S: NesScreen, A: NesAudio> Nes<S, A> {
    /// A console that was just switched on, with nothing in its cartridge
    /// slot.
    pub fn new(screen: S, audio: A) -> (nes: Self)
        ensures
            nes.console@ == ConsoleView::initial(),
            nes.screen == screen,
            nes.audio == audio,
    {
        Nes { console: Console::new(), screen, audio }
    }

    /// Resets the mapper and the processor. The processor continues at the
    /// address stored at 0xFFFC.
    pub fn reset(&mut self) -> (res: Result<(), NesError>)
        ensures
            (final(self).console@, res) == spec_reset(old(self).console@),
            res is Ok ==> final(self).console.cpu.ac == 0 && final(self).console.cpu.x == 0
                && final(self).console.cpu.y == 0 && final(self).console.cpu.sp == 0xfd
                && final(self).console.cpu.status == 0x24 && final(self).console.cpu.cycles == 8,
    {
        let _ = cartridge::reset(&mut self.console.cartridge);
        cpu::reset(&mut self.console)
    }

    /// Advances the picture unit by one dot. Where the vertical blank
    /// starts on it, the frame is drawn first, and only then is the
    /// processor interrupted and the beam moved on. A dot on which no frame
    /// is due calls no sink. A dot whose frame the screen refuses leaves
    /// the console with the dot begun.
    fn dot(&mut self) -> (res: Result<(), NesError>)
        ensures
            !ppu::frame_starts(old(self).console@.ppu) ==> (final(self).console@, res) == spec_dot(
                old(self).console@,
            ),
            spec_dot(old(self).console@).1 is Err ==> res is Err,
            ppu::frame_starts(old(self).console@.ppu) ==> (frame_pixels(
                ppu::spec_begin_dot(old(self).console@),
            ) matches Err(e) ==> res == Err::<(), NesError>(e)),
            res is Ok ==> (final(self).console@, res) == spec_dot(old(self).console@),
            final(self).console@ == spec_dot(old(self).console@).0 || final(self).console@
                == ppu::spec_begin_dot(old(self).console@),
            cpu::alu::keeps_break_clear(old(self).console.cpu, final(self).console.cpu),
            final(self).console@.apu == old(self).console@.apu,
    {
        let frame = ppu::begin_dot(&mut self.console);
        if frame {
            show_frame(&self.console, &mut self.screen)?;
        }
        ppu::end_dot(&mut self.console, frame)
    }

    /// Advances the picture unit by three dots, or as far as they succeed.
    fn three_dots(&mut self) -> (res: Result<(), NesError>)
        ensures
            dots_are_quiet(old(self).console@, 3) ==> (final(self).console@, res) == spec_dots(
                old(self).console@,
                3,
            ),
            spec_dots(old(self).console@, 3).1 is Err ==> res is Err,
            res is Ok ==> (final(self).console@, res) == spec_dots(old(self).console@, 3),
            exists|dots: nat|
                dots <= 3 && #[trigger] left_after_dots(
                    old(self).console@,
                    dots,
                    final(self).console@,
                ),
            cpu::alu::keeps_break_clear(old(self).console.cpu, final(self).console.cpu),
            final(self).console@.apu == old(self).console@.apu,
    {
        let ghost start = self.console@;
        let ghost quiet = dots_are_quiet(start, 3);
        assert(spec_dots(start, 0) == (start, Ok::<(), NesError>(())));
        assert(spec_dots(start, 1) == spec_dot(start));
        assert(quiet ==> dots_are_quiet(start, 2) && dots_are_quiet(start, 1));
        let first = self.dot();
        if first.is_err() {
            proof {
                if spec_dots(start, 1).1 is Err {
                    lemma_dots_stop(start, 1, 3);
                }
                assert(left_after_dots(start, 0, self.console@) || left_after_dots(
                    start,
                    1,
                    self.console@,
                ));
            }
            return first;
        }
        let ghost one = self.console@;
        assert(spec_dots(start, 2) == spec_dot(one));
        let second = self.dot();
        if second.is_err() {
            proof {
                if spec_dots(start, 2).1 is Err {
                    lemma_dots_stop(start, 2, 3);
                }
                assert(left_after_dots(start, 1, self.console@) || left_after_dots(
                    start,
                    2,
                    self.console@,
                ));
            }
            return second;
        }
        let ghost two = self.console@;
        assert(spec_dots(start, 3) == spec_dot(two));
        let third = self.dot();
        assert(left_after_dots(start, 2, self.console@) || left_after_dots(
            start,
            3,
            self.console@,
        ));
        if third.is_err() {
            return third;
        }
        Ok(())
    }

    /// Advances the processor by one cycle and plays what it asked of the
    /// loudspeaker. A failure of the machine is returned as it is; the
    /// loudspeaker is asked all the same.
    fn cycle(&mut self) -> (res: Result<(), NesError>)
        ensures
            final(self).console@ == spec_cycle(old(self).console@).0,
            cycle_is_quiet(old(self).console@) ==> res == spec_cycle(old(self).console@).1,
            spec_cycle(old(self).console@).1 matches Err(e) ==> res == Err::<(), NesError>(e),
            res is Ok ==> res == spec_cycle(old(self).console@).1,
            cpu::alu::keeps_break_clear(old(self).console.cpu, final(self).console.cpu),
    {
        let ran = cpu::clock(&mut self.console);
        let sent = send_events(&mut self.console.apu, &mut self.audio);
        ran?;
        match sent {
            Ok(_) => Ok(()),
            Err(e) => Err(e),
        }
    }

    /// Advances the console by one tick: one cycle of the processor and
    /// three dots of the picture unit. What the processor asked of the
    /// loudspeaker is played, and a frame that falls due is drawn. The
    /// tick fails where the machine fails or a sink refuses a call; where
    /// it returns `Ok`, the console is what the tick makes of it. A tick
    /// that fails leaves the console after the processor's cycle and the
    /// dots that were run, with the next dot begun where the screen
    /// refused its frame. A tick that calls no sink, because no sound
    /// event is queued and no frame falls due, is what the machine makes of
    /// it, result and console.
    pub fn clock(&mut self) -> (res: Result<(), NesError>)
        ensures
            tick_is_quiet(old(self).console@) ==> (final(self).console@, res) == spec_tick(
                old(self).console@,
            ),
            spec_tick(old(self).console@).1 is Err ==> res is Err,
            cpu::spec_clock(old(self).console@).1 matches Err(e) ==> res == Err::<(), NesError>(e),
            res is Ok ==> (final(self).console@, res) == spec_tick(old(self).console@),
            exists|dots: nat|
                dots <= 3 && #[trigger] left_after_dots(
                    spec_cycle(old(self).console@).0,
                    dots,
                    final(self).console@,
                ),
            cpu::alu::keeps_break_clear(old(self).console.cpu, final(self).console.cpu),
            final(self).console@.apu.events.len() == 0,
    {
        let ran = cpu::clock(&mut self.console);
        let sent = send_events(&mut self.console.apu, &mut self.audio);
        let ghost start = self.console@;
        assert(start == spec_cycle(old(self).console@).0);
        assert(spec_dots(start, 0) == (start, Ok::<(), NesError>(())));
        assert(left_after_dots(start, 0, start));
        ran?;
        self.three_dots()?;
        match sent {
            Ok(_) => Ok(()),
            Err(e) => Err(e),
        }
    }

    /// Advances the console by one instruction and writes the
    /// instruction's trace line. The step is one cycle of the processor,
    /// on which the instruction runs, and then one tick for each cycle
    /// that the processor has left to wait after it, so that the picture
    /// unit advances by three dots for each cycle of the instruction. A
    /// step that finds cycles left to wait only waits. The step fails
    /// where the machine fails or a sink refuses a call; where it returns
    /// a line, the line and the console are what the step makes of them,
    /// and the beam is three dots further for each cycle that the step
    /// waited out. A step that calls no sink is what the machine makes of
    /// it: the line or the machine's failure, and the console.
    pub fn step(&mut self) -> (res: Result<String, NesError>)
        ensures
            step_is_quiet(old(self).console@) ==> match res {
                Ok(text) => spec_step(old(self).console@) == (
                    final(self).console@,
                    Ok::<Seq<char>, NesError>(text@),
                ),
                Err(e) => spec_step(old(self).console@) == (
                    final(self).console@,
                    Err::<Seq<char>, NesError>(e),
                ),
            },
            spec_step(old(self).console@).1 is Err ==> res is Err,
            res matches Ok(text) ==> spec_step(old(self).console@) == (
                final(self).console@,
                Ok::<Seq<char>, NesError>(text@),
            ),
            res is Ok && old(self).console@.ppu.beam_valid() ==> ppu::beam_moved_by(
                old(self).console@.ppu,
                final(self).console@.ppu,
                3 * step_cycles(old(self).console@),
            ),
            cpu::alu::keeps_break_clear(old(self).console.cpu, final(self).console.cpu),
    {
        let ghost quiet = step_is_quiet(old(self).console@);
        let shot = cpu::snapshot(&mut self.console)?;
        let ghost peeked = self.console@;
        self.cycle()?;
        let ghost first = self.console@;
        let wait: u8 = self.console.cpu.cycles;
        let mut i: u8 = 0;
        while i < wait
            invariant
                i <= wait,
                wait == first.cpu.cycles,
                quiet == step_is_quiet(old(self).console@),
                buscpu::spec_read(old(self).console@, old(self).console.cpu.pc) == (
                    peeked,
                    Ok::<u8, NesError>(shot.opcode),
                ),
                spec_cycle(peeked) == (first, Ok::<(), NesError>(())),
                quiet ==> ticks_are_quiet(first, wait as nat),
                spec_ticks(first, i as nat) == (self.console@, Ok::<(), NesError>(())),
                cpu::alu::keeps_break_clear(old(self).console.cpu, self.console.cpu),
            decreases wait - i,
        {
            let ghost before = self.console@;
            proof {
                if quiet {
                    lemma_quiet_tick(first, wait as nat, i as nat);
                }
            }
            match self.clock() {
                Ok(_) => {},
                Err(e) => {
                    proof {
                        if spec_tick(before).1 is Err {
                            lemma_ticks_stop(first, (i + 1) as nat, wait as nat);
                        }
                    }
                    return Err(e);
                },
            }
            i = i + 1;
        }
        proof {
            cpu::decode::lemma_decoded_bounds(shot.decoded.instruction, shot.decoded.addr_mode);
        }
        let line = cpu::trace(&mut self.console, &shot);
        proof {
            if line is Ok && old(self).console@.ppu.beam_valid() {
                lemma_step_dots(old(self).console@);
            }
        }
        line
    }

    /// Puts the cartridge that the iNES image `rom_bytes` describes into
    /// the console and resets the console. A failure leaves the console as
    /// it was.
    pub fn load(&mut self, rom_bytes: &[u8]) -> (res: Result<(), NesError>)
        ensures
            match res {
                Ok(_) => spec_load(old(self).console@, rom_bytes@) == Ok::<ConsoleView, NesError>(
                    final(self).console@,
                ),
                Err(e) => spec_load(old(self).console@, rom_bytes@) == Err::<
                    ConsoleView,
                    NesError,
                >(e) && final(self).console@ == old(self).console@,
            },
    {
        let mut loaded = Cartridge::from_ines(rom_bytes)?;
        let ghost parsed = loaded@;
        let _ = cartridge::reset(&mut loaded);
        let lo = cartridge::prg_read(&loaded, cpu::RESET_VECTOR);
        let hi = cartridge::prg_read(&loaded, cpu::RESET_VECTOR + 1);
        proof {
            reveal(buscpu::spec_read);
        }
        match (lo, hi) {
            (Ok(_), Ok(_)) => {
                self.console.cartridge = loaded;
                cpu::reset(&mut self.console)
            },
            (Err(e), _) => Err(e),
            (_, Err(e)) => Err(e),
        }
    }

    /// Holds a button down on the first controller, or on the second where
    /// `one` is false.
    pub fn press_btn(&mut self, key: Button, one: bool) -> (res: Result<(), NesError>)
        ensures
            res == Ok::<(), NesError>(()),
            final(self).console@ == (ConsoleView {
                joypad: if one {
                    (old(self).console.joypad.0.spec_press(key), old(self).console.joypad.1)
                } else {
                    (old(self).console.joypad.0, old(self).console.joypad.1.spec_press(key))
                },
                ..old(self).console@
            }),
    {
        if one {
            self.console.joypad.0.press(key);
        } else {
            self.console.joypad.1.press(key);
        }
        Ok(())
    }

    /// Lets a button go on the first controller, or on the second where
    /// `one` is false.
    pub fn release_btn(&mut self, key: Button, one: bool) -> (res: Result<(), NesError>)
        ensures
            res == Ok::<(), NesError>(()),
            final(self).console@ == (ConsoleView {
                joypad: if one {
                    (old(self).console.joypad.0.spec_release(key), old(self).console.joypad.1)
                } else {
                    (old(self).console.joypad.0, old(self).console.joypad.1.spec_release(key))
                },
                ..old(self).console@
            }),
    {
        if one {
            self.console.joypad.0.release(key);
        } else {
            self.console.joypad.1.release(key);
        }
        Ok(())
    }
}

} // verus!
