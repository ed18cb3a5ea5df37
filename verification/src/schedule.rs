//! The timing policy of the dispatch loop.
//!
//! The loop polls a clock as fast as it can. Each poll is a *tick* and
//! observes the whole milliseconds elapsed since the loop was entered. A tick
//! before the deadline fires a dispatch when the elapsed time is an exact
//! multiple of the interval, and every such tick fires: two ticks that observe
//! the same multiple both fire. The loop neither remembers the last boundary
//! it fired on nor catches up on one it never observed.

use vstd::prelude::*;

verus! {

/// What one polling tick calls for.
#[derive(Clone, Copy, PartialEq, Eq, Debug, Structural)]
pub enum Tick {
    /// Before the deadline, on a multiple of the interval: dispatch.
    Fire,
    /// Before the deadline, between two multiples: poll again.
    Idle,
    /// At or past the deadline: the loop is over.
    Expired,
}

/// The tick policy: what a tick that observes `elapsed` calls for under a
/// run duration and a dispatch interval, all in milliseconds.
pub open spec fn tick_at(duration: nat, interval: nat, elapsed: nat) -> Tick {
    if elapsed >= duration {
        Tick::Expired
    } else if elapsed % interval == 0 {
        Tick::Fire
    } else {
        Tick::Idle
    }
}

/// How many of the observed `ticks` fire: those up to the first one that
/// has expired, counted when they fall on a multiple of the interval.
pub open spec fn firings(duration: nat, interval: nat, ticks: Seq<nat>) -> nat
    decreases ticks.len(),
{
    if ticks.len() == 0 {
        0
    } else {
        match tick_at(duration, interval, ticks[0]) {
            Tick::Expired => 0,
            Tick::Fire => 1 + firings(duration, interval, ticks.skip(1)),
            Tick::Idle => firings(duration, interval, ticks.skip(1)),
        }
    }
}

/// Whether one of the observed `ticks` has expired.
pub open spec fn expires(duration: nat, ticks: Seq<nat>) -> bool {
    exists|k: int| 0 <= k < ticks.len() && #[trigger] ticks[k] >= duration
}

/// A run duration and a dispatch interval, in milliseconds.
#[derive(Clone, Copy, Debug)]
pub struct Schedule {
    duration_ms: u128,
    interval_ms: u128,
}

impl Schedule {
    #[verifier::type_invariant]
    spec fn positive_interval(self) -> bool {
        self.interval_ms > 0
    }

    /// The run duration.
    pub closed spec fn duration(self) -> nat {
        self.duration_ms as nat
    }

    /// The dispatch interval.
    pub closed spec fn interval(self) -> nat {
        self.interval_ms as nat
    }

    /// A schedule that runs for `duration_ms` and fires on the multiples of
    /// `interval_ms`.
    pub fn new(duration_ms: u128, interval_ms: u128) -> (schedule: Schedule)
        requires
            interval_ms > 0,
        ensures
            schedule.duration() == duration_ms,
            schedule.interval() == interval_ms,
    {
        Schedule { duration_ms, interval_ms }
    }

    /// Four seconds, one dispatch every hundred milliseconds.
    pub fn standard() -> (schedule: Schedule)
        ensures
            schedule.duration() == 4000,
            schedule.interval() == 100,
    {
        Schedule { duration_ms: 4000, interval_ms: 100 }
    }

    pub fn duration_ms(&self) -> (ms: u128)
        ensures
            ms == self.duration(),
    {
        self.duration_ms
    }

    pub fn interval_ms(&self) -> (ms: u128)
        ensures
            ms == self.interval(),
            ms > 0,
    {
        proof {
            use_type_invariant(self);
        }
        self.interval_ms
    }

    /// What a tick that observes `elapsed_ms` calls for.
    pub fn classify(&self, elapsed_ms: u128) -> (tick: Tick)
        ensures
            tick == tick_at(self.duration(), self.interval(), elapsed_ms as nat),
    {
        proof {
            use_type_invariant(self);
        }
        if elapsed_ms >= self.duration_ms {
            Tick::Expired
        } else if elapsed_ms % self.interval_ms == 0 {
            Tick::Fire
        } else {
            Tick::Idle
        }
    }
}

} // verus!
