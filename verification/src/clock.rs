//! The round clock: a counter of ticks for whoever watches the peer. It takes
//! no part in the election.

use crate::chance::u64_between;
use vstd::prelude::*;

verus! {

/// The part of the interval between two ticks that is the same for every
/// peer.
pub const TICK_BASE_MS: u64 = 1000;

/// The jitter of a peer lies below this.
pub const JITTER_SPAN_MS: u64 = 1000;

/// The reading of a clock that has not ticked yet.
pub const FIRST_TICK: u64 = 1;

/// A counter that goes up by one with every tick. Between two ticks the clock
/// lets a fixed time pass plus a jitter that the peer keeps for its lifetime.
pub struct RoundClock {
    ticks: u64,
    jitter_ms: u64,
}

impl RoundClock {
    #[verifier::type_invariant]
    spec fn jitter_in_span(self) -> bool {
        self.jitter_ms < JITTER_SPAN_MS
    }

    /// The reading of the clock.
    pub closed spec fn spec_ticks(&self) -> u64 {
        self.ticks
    }

    /// The jitter of the clock.
    pub closed spec fn spec_jitter_ms(&self) -> u64 {
        self.jitter_ms
    }

    /// A clock with the given jitter that has not ticked yet; `None` when the
    /// jitter is not below `JITTER_SPAN_MS`.
    pub fn with_jitter(jitter_ms: u64) -> (c: Option<RoundClock>)
        ensures
            jitter_ms >= JITTER_SPAN_MS <==> c is None,
            c matches Some(clock) ==> clock.spec_ticks() == FIRST_TICK && clock.spec_jitter_ms()
                == jitter_ms,
    {
        if jitter_ms < JITTER_SPAN_MS {
            Some(RoundClock { ticks: FIRST_TICK, jitter_ms })
        } else {
            None
        }
    }

    /// A clock with a jitter drawn at random that has not ticked yet.
    pub fn start() -> (clock: RoundClock)
        ensures
            clock.spec_ticks() == FIRST_TICK,
            clock.spec_jitter_ms() < JITTER_SPAN_MS,
    {
        let jitter_ms = u64_between(0, JITTER_SPAN_MS);
        RoundClock { ticks: FIRST_TICK, jitter_ms }
    }

    /// The reading of the clock.
    #[verifier::when_used_as_spec(spec_ticks)]
    pub fn ticks(&self) -> (t: u64)
        ensures
            t == self.spec_ticks(),
    {
        self.ticks
    }

    /// The jitter of the clock.
    #[verifier::when_used_as_spec(spec_jitter_ms)]
    pub fn jitter_ms(&self) -> (j: u64)
        ensures
            j == self.spec_jitter_ms(),
            j < JITTER_SPAN_MS,
    {
        proof {
            use_type_invariant(self);
        }
        self.jitter_ms
    }

    /// The time to let pass between two ticks.
    pub fn interval_ms(&self) -> (ms: u64)
        ensures
            ms == TICK_BASE_MS + self.spec_jitter_ms(),
            TICK_BASE_MS <= ms < TICK_BASE_MS + JITTER_SPAN_MS,
    {
        proof {
            use_type_invariant(self);
        }
        TICK_BASE_MS + self.jitter_ms
    }

    /// Ticks once and gives the reading from before the tick. The reading goes
    /// up by one; past the highest number it starts again at zero. The jitter
    /// stays.
    pub fn tick(&mut self) -> (before: u64)
        ensures
            before == old(self).spec_ticks(),
            final(self).spec_jitter_ms() == old(self).spec_jitter_ms(),
            final(self).spec_ticks() == if old(self).spec_ticks() == u64::MAX {
                0
            } else {
                (old(self).spec_ticks() + 1) as u64
            },
    {
        proof {
            use_type_invariant(&*self);
        }
        let before = self.ticks;
        self.ticks = if before == u64::MAX {
            0
        } else {
            before + 1
        };
        before
    }
}

} // verus!
