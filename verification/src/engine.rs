//! The countdown engine: the two phases, their configured durations, and the
//! tick operation that consumes elapsed time and detects phase transitions.

use vstd::prelude::*;

verus! {

/// Clock units per second: the timer counts milliseconds.
pub const MILLIS_PER_SEC: u64 = 1000;

/// Clock units per minute.
pub const MILLIS_PER_MIN: u64 = 60000;

/// One of the two alternating timer phases.
#[derive(Clone, Copy, Debug, PartialEq, Eq, Structural)]
pub enum Phase {
    Active,
    Rest,
}

impl Phase {
    /// The phase that follows this one: the two phases alternate forever.
    pub open spec fn spec_flip(self) -> Phase {
        match self {
            Phase::Active => Phase::Rest,
            Phase::Rest => Phase::Active,
        }
    }

    /// Flip to the other phase.
    pub fn flip(self) -> (p: Phase)
        ensures
            p == self.spec_flip(),
    {
        match self {
            Phase::Active => Phase::Rest,
            Phase::Rest => Phase::Active,
        }
    }
}

/// The fixed duration of each phase, in clock units chosen by the caller
/// (the application uses milliseconds). Both durations are positive.
#[derive(Clone, Copy, Debug, PartialEq, Eq, Structural)]
pub struct PhaseConfig {
    pub active: u64,
    pub rest: u64,
}

impl PhaseConfig {
    /// The configured duration of the given phase.
    pub open spec fn spec_duration(self, p: Phase) -> u64 {
        match p {
            Phase::Active => self.active,
            Phase::Rest => self.rest,
        }
    }

    /// Both durations are positive.
    pub open spec fn wf(self) -> bool {
        self.active > 0 && self.rest > 0
    }

    /// Build a configuration from two positive durations.
    pub fn new(active: u64, rest: u64) -> (c: PhaseConfig)
        requires
            active > 0,
            rest > 0,
        ensures
            c.active == active,
            c.rest == rest,
            c.wf(),
    {
        PhaseConfig { active, rest }
    }

    /// Build a configuration from the two phase lengths in whole minutes,
    /// as they arrive from the command line.
    pub fn from_minutes(active_min: u64, rest_min: u64) -> (c: PhaseConfig)
        requires
            active_min > 0,
            rest_min > 0,
            active_min * MILLIS_PER_MIN <= u64::MAX,
            rest_min * MILLIS_PER_MIN <= u64::MAX,
        ensures
            c.active == active_min * MILLIS_PER_MIN,
            c.rest == rest_min * MILLIS_PER_MIN,
            c.wf(),
    {
        proof {
            assert(active_min * MILLIS_PER_MIN >= MILLIS_PER_MIN) by (nonlinear_arith)
                requires
                    active_min >= 1,
            ;
            assert(rest_min * MILLIS_PER_MIN >= MILLIS_PER_MIN) by (nonlinear_arith)
                requires
                    rest_min >= 1,
            ;
        }
        PhaseConfig { active: active_min * MILLIS_PER_MIN, rest: rest_min * MILLIS_PER_MIN }
    }

    /// The configured duration of the given phase.
    pub fn duration(&self, p: Phase) -> (d: u64)
        ensures
            d == self.spec_duration(p),
    {
        match p {
            Phase::Active => self.active,
            Phase::Rest => self.rest,
        }
    }
}

/// What one tick did: either time merely passed, or the current phase ran
/// out and the timer switched to the named new phase.
#[derive(Clone, Copy, Debug, PartialEq, Eq, Structural)]
pub enum TickOutcome {
    NoTransition,
    PhaseTransitioned(Phase),
}

/// The countdown state: the current phase and how much of its duration is
/// left, in the same clock units as the configuration.
#[derive(Clone, Copy, Debug, PartialEq, Eq, Structural)]
pub struct TimerState {
    pub phase: Phase,
    pub remaining: u64,
}

impl TimerState {
    /// The remaining time never exceeds the current phase's full duration.
    pub open spec fn wf(self, config: PhaseConfig) -> bool {
        self.remaining <= config.spec_duration(self.phase)
    }

    /// Start the countdown in `start_phase` with that phase's full duration.
    pub fn initialize(config: &PhaseConfig, start_phase: Phase) -> (t: TimerState)
        ensures
            t.phase == start_phase,
            t.remaining == config.spec_duration(start_phase),
            t.wf(*config),
    {
        TimerState { phase: start_phase, remaining: config.duration(start_phase) }
    }

    /// Consume `elapsed` clock units. If the elapsed time is smaller than
    /// what remains, the countdown simply decreases by exactly that amount.
    /// Otherwise the remaining time is clamped to zero (never driven
    /// negative, however large `elapsed` is) and exactly one transition is
    /// applied: the phase flips and the countdown restarts at the new
    /// phase's full duration. Even an `elapsed` spanning several whole phase
    /// durations causes only a single flip per call: that is the defined
    /// policy for a process that was suspended.
    pub fn tick(&mut self, config: &PhaseConfig, elapsed: u64) -> (outcome: TickOutcome)
        ensures
            elapsed < old(self).remaining ==> {
                &&& final(self).phase == old(self).phase
                &&& final(self).remaining == old(self).remaining - elapsed
                &&& outcome == TickOutcome::NoTransition
            },
            elapsed >= old(self).remaining ==> {
                &&& final(self).phase == old(self).phase.spec_flip()
                &&& final(self).remaining == config.spec_duration(final(self).phase)
                &&& outcome == TickOutcome::PhaseTransitioned(old(self).phase.spec_flip())
            },
            old(self).wf(*config) || elapsed >= old(self).remaining ==> final(self).wf(*config),
    {
        let after = if elapsed >= self.remaining {
            0
        } else {
            self.remaining - elapsed
        };
        if after == 0 {
            let new_phase = self.phase.flip();
            self.phase = new_phase;
            self.remaining = config.duration(new_phase);
            TickOutcome::PhaseTransitioned(new_phase)
        } else {
            self.remaining = after;
            TickOutcome::NoTransition
        }
    }
}

/// The phase reached from `p` after `n` phase transitions.
pub open spec fn iterated_flip(p: Phase, n: nat) -> Phase
    decreases n,
{
    if n == 0 {
        p
    } else {
        iterated_flip(p, (n - 1) as nat).spec_flip()
    }
}

/// The phase sequence is strictly alternating and infinite. Every
/// full-duration tick flips the phase (see `TimerState::tick`), so after `n`
/// such ticks the phase is the starting phase when `n` is even and the other
/// phase when `n` is odd; consecutive phases always differ, and the sequence
/// repeats with period two, with no terminal state.
pub proof fn lemma_phase_alternates(p: Phase, n: nat)
    ensures
        iterated_flip(p, n) == if n % 2 == 0 {
            p
        } else {
            p.spec_flip()
        },
        iterated_flip(p, n + 1) != iterated_flip(p, n),
        iterated_flip(p, n + 2) == iterated_flip(p, n),
    decreases n,
{
    if n > 0 {
        lemma_phase_alternates(p, (n - 1) as nat);
    }
}

} // verus!
