//! The pomodoro engine: a two-phase countdown timer.
//!
//! Time is modelled as whole milliseconds. The binary reads the wall clock
//! and hands every operation the current instant as a plain number, so the
//! whole transition system below is verified. Each transition is stated as a
//! spec function (`tick_step`, `start_step`, `reset_step`) and every exec
//! operation is proved to implement its transition exactly.

use vstd::prelude::*;

verus! {

/// Default work phase length: 25 minutes, in milliseconds.
pub const DEFAULT_WORK_MS: u64 = 25 * 60 * 1000;
/// Default break phase length: 5 minutes, in milliseconds.
pub const DEFAULT_BREAK_MS: u64 = 5 * 60 * 1000;

/// The two configured phase lengths, in milliseconds; immutable after
/// construction.
#[derive(Clone, Copy, Debug, PartialEq, Eq, Structural)]
pub struct PomodoroConfig {
    pub work: u64,
    pub break_: u64,
}

impl Default for PomodoroConfig {
    /// The standard configuration: 25 minutes of work, 5 minutes of break.
    fn default() -> (r: Self)
        ensures
            r.work == DEFAULT_WORK_MS,
            r.break_ == DEFAULT_BREAK_MS,
    {
        PomodoroConfig { work: DEFAULT_WORK_MS, break_: DEFAULT_BREAK_MS }
    }
}

/// The countdown mode the timer is in.
#[derive(Clone, Copy, Debug, PartialEq, Eq, Structural)]
pub enum Phase {
    Work,
    Break,
}

/// The phase entered when a countdown reaches its boundary.
pub open spec fn other_phase(p: Phase) -> Phase {
    match p {
        Phase::Work => Phase::Break,
        Phase::Break => Phase::Work,
    }
}

/// The configured length of a phase, in milliseconds.
pub open spec fn phase_duration(c: PomodoroConfig, p: Phase) -> u64 {
    match p {
        Phase::Work => c.work,
        Phase::Break => c.break_,
    }
}

/// Wall-clock delta between two instants; zero when the clock appears to
/// have moved backwards.
pub open spec fn elapsed_ms(now: u64, last: u64) -> u64 {
    if now >= last {
        (now - last) as u64
    } else {
        0
    }
}

/// The pomodoro timer state.
pub struct Pomodoro {
    pub config: PomodoroConfig,
    pub phase: Phase,
    pub remaining: u64,
    pub running: bool,
    pub last_tick: u64,
}

/// What `start` does: begin running and restart the elapsed-time baseline,
/// leaving phase and remaining time untouched.
pub open spec fn start_step(p: Pomodoro, now: u64) -> Pomodoro {
    Pomodoro {
        config: p.config,
        phase: p.phase,
        remaining: p.remaining,
        running: true,
        last_tick: now,
    }
}

/// What `reset` does: return to a paused work phase with the full configured
/// work duration, from any phase and running state.
pub open spec fn reset_step(p: Pomodoro) -> Pomodoro {
    Pomodoro {
        config: p.config,
        phase: Phase::Work,
        remaining: p.config.work,
        running: false,
        last_tick: p.last_tick,
    }
}

/// What `tick` does. A paused timer is unchanged. A running timer advances
/// by the wall-clock delta since its last tick: if the delta reaches the
/// remaining time, the phase switches once and the remaining time is
/// reloaded from the configuration (any excess beyond the boundary is
/// discarded); otherwise exactly the delta is subtracted.
pub open spec fn tick_step(p: Pomodoro, now: u64) -> Pomodoro {
    if !p.running {
        p
    } else if elapsed_ms(now, p.last_tick) >= p.remaining {
        Pomodoro {
            config: p.config,
            phase: other_phase(p.phase),
            remaining: phase_duration(p.config, other_phase(p.phase)),
            running: true,
            last_tick: now,
        }
    } else {
        Pomodoro {
            config: p.config,
            phase: p.phase,
            remaining: (p.remaining - elapsed_ms(now, p.last_tick)) as u64,
            running: true,
            last_tick: now,
        }
    }
}

/// Whether a tick crosses a phase boundary, which is the one moment the
/// timer emits an audible alert.
pub open spec fn tick_rings(p: Pomodoro, now: u64) -> bool {
    p.running && elapsed_ms(now, p.last_tick) >= p.remaining
}

impl Pomodoro {
    /// A fresh timer: paused at the start of a work phase, with the full
    /// configured work duration remaining.
    pub fn new(config: PomodoroConfig, now_ms: u64) -> (p: Pomodoro)
        ensures
            p.config == config,
            p.phase == Phase::Work,
            p.remaining == config.work,
            !p.running,
            p.last_tick == now_ms,
    {
        Pomodoro {
            remaining: config.work,
            phase: Phase::Work,
            running: false,
            last_tick: now_ms,
            config,
        }
    }

    /// Begin (or resume) running, restarting the elapsed-time baseline.
    pub fn start(&mut self, now_ms: u64)
        ensures
            *final(self) == start_step(*old(self), now_ms),
    {
        self.running = true;
        self.last_tick = now_ms;
    }

    /// Return to a paused work phase with the full configured work duration,
    /// regardless of the current phase and running state.
    pub fn reset(&mut self)
        ensures
            *final(self) == reset_step(*old(self)),
            final(self).phase == Phase::Work,
            final(self).remaining == old(self).config.work,
            !final(self).running,
    {
        self.phase = Phase::Work;
        self.remaining = self.config.work;
        self.running = false;
    }

    /// Advance the countdown to the given instant. Returns whether a phase
    /// boundary was crossed, so the caller can sound the alert.
    pub fn tick(&mut self, now_ms: u64) -> (rings: bool)
        ensures
            *final(self) == tick_step(*old(self), now_ms),
            rings == tick_rings(*old(self), now_ms),
    {
        if !self.running {
            return false;
        }
        let delta: u64 = if now_ms >= self.last_tick {
            now_ms - self.last_tick
        } else {
            0
        };
        self.last_tick = now_ms;
        if delta >= self.remaining {
            self.switch_phase();
            true
        } else {
            self.remaining = self.remaining - delta;
            false
        }
    }

    /// Switch to the other phase and reload its configured duration.
    fn switch_phase(&mut self)
        ensures
            final(self).phase == other_phase(old(self).phase),
            final(self).remaining == phase_duration(old(self).config, other_phase(old(self).phase)),
            final(self).config == old(self).config,
            final(self).running == old(self).running,
            final(self).last_tick == old(self).last_tick,
    {
        self.phase = match self.phase {
            Phase::Work => {
                self.remaining = self.config.break_;
                Phase::Break
            },
            Phase::Break => {
                self.remaining = self.config.work;
                Phase::Work
            },
        };
    }

    /// The remaining time as whole minutes and leftover seconds, the figures
    /// the timer view displays.
    pub fn remaining_mm_ss(&self) -> (r: (u64, u64))
        ensures
            r.0 == self.remaining / 60000,
            r.1 == (self.remaining / 1000) % 60,
    {
        (self.remaining / 60000, (self.remaining / 1000) % 60)
    }

    /// The display label of the current phase.
    pub fn phase_label(&self) -> (r: &'static str)
        ensures
            self.phase is Work ==> r@ == "WORK"@,
            self.phase is Break ==> r@ == "BREAK"@,
    {
        match self.phase {
            Phase::Work => "WORK",
            Phase::Break => "BREAK",
        }
    }
}

/// A tick can never drive the remaining time below zero, whatever elapsed
/// duration it observes: either the delta is strictly less than the
/// remaining time and is subtracted exactly, or the remaining time is
/// reloaded from the configuration.
pub proof fn lemma_tick_remaining_never_negative(p: Pomodoro, now: u64)
    ensures
        tick_step(p, now).remaining >= 0,
        p.running && elapsed_ms(now, p.last_tick) < p.remaining ==> tick_step(p, now).remaining
            == p.remaining - elapsed_ms(now, p.last_tick),
        tick_rings(p, now) ==> tick_step(p, now).remaining == phase_duration(
            p.config,
            other_phase(p.phase),
        ),
{
}

/// On every boundary crossing the phase strictly alternates: a work phase
/// becomes a break phase and a break phase becomes a work phase, never the
/// same phase twice.
pub proof fn lemma_phase_alternates(p: Pomodoro, now: u64)
    requires
        tick_rings(p, now),
    ensures
        tick_step(p, now).phase == other_phase(p.phase),
        tick_step(p, now).phase != p.phase,
{
}

} // verus!
