//! The two cadences that drive the machine: the instruction loop and the
//! 60 Hz timer loop, each as a step that the host calls when it is due.

use crate::cpu::{Cpu, CycleReport};
use crate::display::Display;
use crate::instruction::decode;
use crate::keypad::{
    is_lowest_pressed, lemma_lowest_pressed_none, lemma_lowest_pressed_unique, lowest_pressed,
    Keypad,
};
use crate::machine::{cycle_fault, fetch, is_outcome, repaint, Fault, Machine};
use vstd::prelude::*;

verus! {

/// Nanoseconds between two instruction steps: 500 steps a second.
pub const CPU_PERIOD_NANOS: u64 = 2_000_000;

/// Nanoseconds between two timer steps: 60 steps a second.
pub const TIMER_PERIOD_NANOS: u64 = 16_666_667;

/// A fixed-rate clock. Time is in nanoseconds since an origin that the
/// host chooses.
#[derive(Debug, Clone, Copy, PartialEq, Eq)]
pub struct Cadence {
    /// Time between two ticks.
    pub period: u64,
    /// The time for which the latest tick was scheduled.
    pub last_tick: u64,
}

impl Cadence {
    /// Whether a tick is due at `now`: a full period has passed since the
    /// latest one.
    pub open spec fn due(self, now: u64) -> bool {
        now - self.last_tick >= self.period
    }

    /// The cadence after it was asked at `now`: a tick that is due is
    /// scheduled one period after the latest one, whatever `now` is, so
    /// that a late call shifts no later tick.
    pub open spec fn polled(self, now: u64) -> Cadence {
        if self.due(now) {
            Cadence { last_tick: (self.last_tick + self.period) as u64, ..self }
        } else {
            self
        }
    }

    /// A cadence whose first tick is due one period after `start`.
    pub fn new(period: u64, start: u64) -> (cadence: Cadence)
        ensures
            cadence == (Cadence { period, last_tick: start }),
    {
        Cadence { period, last_tick: start }
    }

    /// Asks whether a tick is due at `now`, and takes it if so. At most one
    /// tick is taken per call.
    pub fn poll(&mut self, now: u64) -> (due: bool)
        ensures
            due == old(self).due(now),
            *final(self) == old(self).polled(now),
            due ==> final(self).last_tick == old(self).last_tick + old(self).period,
            due ==> final(self).last_tick <= now,
    {
        if now >= self.last_tick && now - self.last_tick >= self.period {
            self.last_tick += self.period;
            true
        } else {
            false
        }
    }
}

/// The cadence after it was asked at each of `times` in turn.
pub open spec fn polled_at_each(cadence: Cadence, times: Seq<u64>) -> Cadence
    decreases times.len(),
{
    if times.len() == 0 {
        cadence
    } else {
        polled_at_each(cadence, times.drop_last()).polled(times.last())
    }
}

/// How many ticks were taken while the cadence was asked at each of
/// `times` in turn.
pub open spec fn ticks_taken(cadence: Cadence, times: Seq<u64>) -> nat
    decreases times.len(),
{
    if times.len() == 0 {
        0
    } else {
        let earlier = ticks_taken(cadence, times.drop_last());
        if polled_at_each(cadence, times.drop_last()).due(times.last()) {
            earlier + 1
        } else {
            earlier
        }
    }
}

/// However late or irregular the calls, the ticks stay on the grid of the
/// period: after any calls the latest tick lies a whole number of periods
/// after the start, one period for each tick taken, and no call takes more
/// than one tick.
pub proof fn lemma_ticks_stay_on_grid(cadence: Cadence, times: Seq<u64>)
    ensures
        polled_at_each(cadence, times).period == cadence.period,
        polled_at_each(cadence, times).last_tick == cadence.last_tick + ticks_taken(
            cadence,
            times,
        ) * cadence.period,
        ticks_taken(cadence, times) <= times.len(),
    decreases times.len(),
{
    if times.len() == 0 {
        assert(0 * cadence.period == 0) by (nonlinear_arith);
    } else {
        lemma_ticks_stay_on_grid(cadence, times.drop_last());
        let earlier = ticks_taken(cadence, times.drop_last());
        assert((earlier + 1) * cadence.period == earlier * cadence.period + cadence.period)
            by (nonlinear_arith);
    }
}

/// Which of the two loops have a step due.
#[derive(Debug, Clone, Copy, PartialEq, Eq)]
pub struct Due {
    /// An instruction step is due.
    pub instruction: bool,
    /// A timer step is due.
    pub timer: bool,
}

/// The instruction cadence and the timer cadence, side by side.
#[derive(Debug, Clone, Copy, PartialEq, Eq)]
pub struct Scheduler {
    /// The cadence of the instruction loop.
    pub instruction: Cadence,
    /// The cadence of the timer loop.
    pub timer: Cadence,
}

impl Scheduler {
    /// A scheduler whose two cadences start at `start`.
    pub fn new(start: u64) -> (scheduler: Scheduler)
        ensures
            scheduler.instruction == (Cadence { period: CPU_PERIOD_NANOS, last_tick: start }),
            scheduler.timer == (Cadence { period: TIMER_PERIOD_NANOS, last_tick: start }),
    {
        Scheduler {
            instruction: Cadence::new(CPU_PERIOD_NANOS, start),
            timer: Cadence::new(TIMER_PERIOD_NANOS, start),
        }
    }

    /// Asks both cadences at `now`.
    pub fn poll(&mut self, now: u64) -> (due: Due)
        ensures
            due.instruction == old(self).instruction.due(now),
            due.timer == old(self).timer.due(now),
            final(self).instruction == old(self).instruction.polled(now),
            final(self).timer == old(self).timer.polled(now),
    {
        let instruction = self.instruction.poll(now);
        let timer = self.timer.poll(now);
        Due { instruction, timer }
    }
}

/// What one step of the instruction loop did.
#[derive(Debug, Clone, Copy, PartialEq, Eq)]
pub enum Step {
    /// The machine waits for a key and none is down.
    Waiting,
    /// The machine waited for a key; this key was down and ended the wait.
    Resumed(u8),
    /// The machine ran one cycle.
    Executed(CycleReport),
}

/// The fault that stops the next step of the instruction loop, or `None`
/// where it can run.
pub open spec fn step_fault(m: Machine, keys: Seq<bool>) -> Option<Fault> {
    if !m.halted {
        cycle_fault(m, keys)
    } else if m.wait_register is Some && lowest_pressed(keys) is Some && m.pc + 2 > 0xFFFF {
        Some(Fault::AddressOverflow)
    } else {
        None
    }
}

/// The machine after one step of the instruction loop during which it was
/// suspended: a key that is down ends the wait of the waiting register, and
/// otherwise nothing changes.
pub open spec fn polled_for_key(m: Machine, keys: Seq<bool>) -> Machine {
    match (m.wait_register, lowest_pressed(keys)) {
        (Some(register), Some(key)) => m.resolved(register, key as u8),
        _ => m,
    }
}

/// While no key is down, a machine that waits for a key stays exactly as
/// it is, and nothing stops the step.
pub proof fn lemma_wait_goes_on(m: Machine, keys: Seq<bool>)
    requires
        m.halted,
        forall|k: int| 0 <= k < keys.len() ==> !keys[k],
    ensures
        polled_for_key(m, keys) == m,
        step_fault(m, keys) is None,
{
    lemma_lowest_pressed_none(keys);
}

/// The lowest key that is down ends the wait: it is stored in the waiting
/// register, the suspension is lifted, nothing else changes, and the next
/// step runs the instruction after the one that waited.
pub proof fn lemma_wait_ends(m: Machine, keys: Seq<bool>, register: usize, key: u8)
    requires
        m.wf(),
        m.wait_register == Some(register),
        register < 16,
        is_lowest_pressed(keys, key as int),
        m.pc + 2 <= 0xFFFF,
    ensures
        ({
            let after = polled_for_key(m, keys);
            &&& after == m.resolved(register, key)
            &&& after.v[register as int] == key
            &&& forall|k: int| 0 <= k < 16 && k != register ==> after.v[k] == m.v[k]
            &&& !after.halted
            &&& after.wait_register is None
            &&& after.pc == m.pc + 2
            &&& after.mem == m.mem
            &&& after.stack == m.stack
            &&& after.i == m.i
            &&& after.delay_timer == m.delay_timer && after.sound_timer == m.sound_timer
            &&& m.halted ==> step_fault(m, keys) is None
            &&& m.halted ==> step_fault(after, keys) == cycle_fault(after, keys)
        }),
{
    lemma_lowest_pressed_unique(keys, key as int);
}

/// One step of the instruction loop. A suspended machine only looks at the
/// keypad; a running one runs one cycle. A fault stops the step before
/// anything changes.
pub fn instruction_step(cpu: &mut Cpu, keypad: &mut Keypad, display: &mut Display) -> (outcome:
    Result<Step, Fault>)
    ensures
        final(keypad)@ == old(keypad)@,
        match outcome {
            Err(stopped) => {
                &&& step_fault(old(cpu)@, old(keypad)@) == Some(stopped)
                &&& final(cpu)@ == old(cpu)@
                &&& final(display)@ == old(display)@
            },
            Ok(step) => {
                &&& step_fault(old(cpu)@, old(keypad)@) is None
                &&& old(cpu)@.halted ==> {
                    &&& final(cpu)@ == polled_for_key(old(cpu)@, old(keypad)@)
                    &&& final(display)@ == old(display)@
                    &&& step == if old(cpu)@.wait_register is Some {
                        match lowest_pressed(old(keypad)@) {
                            Some(key) => Step::Resumed(key as u8),
                            None => Step::Waiting,
                        }
                    } else {
                        Step::Waiting
                    }
                }
                &&& !old(cpu)@.halted ==> {
                    &&& step matches Step::Executed(report)
                    &&& report.executed == decode(fetch(old(cpu)@))
                    &&& is_outcome(
                        old(cpu)@,
                        old(display)@,
                        old(keypad)@,
                        report.executed,
                        final(cpu)@,
                    )
                    &&& final(display)@ == repaint(old(cpu)@, old(display)@, report.executed)
                    &&& report.tone == (final(cpu)@.sound_timer > 0)
                }
            },
        },
{
    if cpu.is_halted() {
        if let Some(v_x) = cpu.get_wait_register() {
            if let Some(key) = keypad.wait_for_press() {
                let pc = cpu.get_pc();
                if pc > 0xFFFD {
                    return Err(Fault::AddressOverflow);
                }
                cpu.set_register(v_x, key);
                cpu.set_wait_register(None);
                cpu.resume();
                cpu.set_pc(pc + 2);
                return Ok(Step::Resumed(key));
            }
        }
        Ok(Step::Waiting)
    } else {
        match cpu.try_cycle(keypad, display) {
            Ok(report) => Ok(Step::Executed(report)),
            Err(stopped) => Err(stopped),
        }
    }
}

/// One step of the timer loop: both timers count down, and the display
/// asks for a redraw while it is dirty.
pub fn timer_step(cpu: &mut Cpu, display: &Display) -> (redraw: bool)
    ensures
        final(cpu)@ == old(cpu)@.tick(),
        redraw == display@.dirty,
{
    if cpu.get_delay_timer() > 0 {
        cpu.decrement_delay_timer();
    }
    if cpu.get_sound_timer() > 0 {
        cpu.decrement_sound_timer();
    }
    display.needs_update()
}

} // verus!
