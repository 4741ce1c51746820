//! The cadence of the animation loop.
//!
//! The loop itself sleeps, and so lives with the host. What it is to do
//! next is decided here: sleep for one wake interval, then take a fixed
//! number of simulation ticks, then sleep again, without end. The simulation
//! thus runs at a higher rate than the loop wakes, at one fixed ratio.

use vstd::prelude::*;

verus! {

/// How long the loop sleeps between two bursts of ticks, in milliseconds.
pub const WAKE_INTERVAL_MS: u32 = 16;

/// How many simulation ticks follow each sleep.
pub const TICKS_PER_WAKE: u32 = 16;

/// The length of one simulation tick, in microseconds: a sixtieth of a second.
pub const TICK_MICROS: u32 = 16_667;

/// What the loop is to do next.
#[derive(Clone, Copy, Debug, PartialEq, Eq, Structural)]
pub enum DriverAction {
    /// Sleep for this many milliseconds.
    Sleep { millis: u32 },
    /// Advance the simulation by one step of this many microseconds.
    Tick { dt_micros: u32 },
}

/// The action that is due in a phase of the cycle: phase 0 is the sleep, the
/// phases after it are the ticks.
pub open spec fn action_in_phase(phase: nat) -> DriverAction {
    if phase == 0 {
        DriverAction::Sleep { millis: WAKE_INTERVAL_MS }
    } else {
        DriverAction::Tick { dt_micros: TICK_MICROS }
    }
}

/// The phase that follows `phase`.
pub open spec fn next_phase(phase: nat) -> nat {
    if phase >= TICKS_PER_WAKE {
        0
    } else {
        phase + 1
    }
}

/// The phase of a new driver after `n` actions.
pub open spec fn phase_after(n: nat) -> nat
    decreases n,
{
    if n == 0 {
        0
    } else {
        next_phase(phase_after((n - 1) as nat))
    }
}

/// Where the animation loop is in its cycle of one sleep and
/// `TICKS_PER_WAKE` ticks.
pub struct AnimationDriver {
    phase: u32,
}

impl View for AnimationDriver {
    type V = nat;

    closed spec fn view(&self) -> nat {
        self.phase as nat
    }
}

impl AnimationDriver {
    /// A driver at the start of its cycle: the first action is a sleep.
    pub fn new() -> (driver: AnimationDriver)
        ensures
            driver@ == 0,
    {
        AnimationDriver { phase: 0 }
    }

    /// The next thing for the loop to do. There always is one: the cycle
    /// has no end.
    pub fn next_action(&mut self) -> (action: DriverAction)
        ensures
            action == action_in_phase(old(self)@),
            final(self)@ == next_phase(old(self)@),
    {
        let phase: u32 = self.phase;
        self.phase = if phase >= TICKS_PER_WAKE {
            0
        } else {
            phase + 1
        };
        if phase == 0 {
            DriverAction::Sleep { millis: WAKE_INTERVAL_MS }
        } else {
            DriverAction::Tick { dt_micros: TICK_MICROS }
        }
    }
}

/// The cycle has `TICKS_PER_WAKE + 1` phases and a new driver walks them in
/// order.
pub proof fn lemma_phase_is_periodic(n: nat)
    ensures
        phase_after(n) == n % (TICKS_PER_WAKE as nat + 1),
    decreases n,
{
    let period: nat = TICKS_PER_WAKE as nat + 1;
    assert(period == 17);
    if n > 0 {
        let m: nat = (n - 1) as nat;
        lemma_phase_is_periodic(m);
        assert(n % 17 == if m % 17 == 16 {
            0
        } else {
            m % 17 + 1
        });
    }
}

/// Counted from a new driver, every action whose number is a multiple of
/// `TICKS_PER_WAKE + 1` is a sleep and every other one a tick: each sleep is
/// followed by exactly `TICKS_PER_WAKE` ticks.
pub proof fn lemma_ticks_between_sleeps(n: nat)
    ensures
        n % (TICKS_PER_WAKE as nat + 1) == 0 ==> action_in_phase(phase_after(n))
            == (DriverAction::Sleep { millis: WAKE_INTERVAL_MS }),
        n % (TICKS_PER_WAKE as nat + 1) != 0 ==> action_in_phase(phase_after(n))
            == (DriverAction::Tick { dt_micros: TICK_MICROS }),
{
    lemma_phase_is_periodic(n);
}

} // verus!
