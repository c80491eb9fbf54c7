//! The monitor itself: a snapshot and the clock that times it.
//!
//! The monitor does not query the host. A paint asks it whether a sample is
//! due; if so, the caller queries the host and hands over what it answered.

use vstd::prelude::*;
use crate::clock::Clock;
use crate::display::{render, Frame};
use crate::snapshot::{Reading, StatsSnapshot, SAMPLE_INTERVAL_NANOS};

verus! {

/// The state of the monitor. It is made once and lives as long as the window.
pub struct OsStat {
    snapshot: StatsSnapshot,
    clock: Clock,
}

impl OsStat {
    /// The share of memory on show always belongs to the memory readings
    /// beside it.
    #[verifier::type_invariant]
    spec fn settled(self) -> bool {
        self.snapshot.consistent()
    }

    /// The readings on show.
    pub closed spec fn snapshot(&self) -> StatsSnapshot {
        self.snapshot
    }

    /// A monitor that has not sampled yet: every reading is zero, and a
    /// sample is due at whatever time its clock shows.
    pub fn new() -> (stat: OsStat)
        ensures
            stat.snapshot() == StatsSnapshot::zero(),
    {
        OsStat { snapshot: StatsSnapshot::zeroed(), clock: Clock::start() }
    }

    /// The readings on show. Their share of memory in use is never stale.
    pub fn current(&self) -> (s: StatsSnapshot)
        ensures
            s == self.snapshot(),
            s.consistent(),
    {
        proof {
            use_type_invariant(self);
        }
        self.snapshot
    }

    /// The time that the monitor's clock shows.
    pub fn now(&self) -> (t: u128)
        ensures
            t >= SAMPLE_INTERVAL_NANOS,
    {
        self.clock.now()
    }

    /// Whether a paint at time `now` has to sample the host first: it has if
    /// and only if a full interval has passed since the readings were taken.
    pub fn is_due(&self, now: u128) -> (due: bool)
        ensures
            due == self.snapshot().sample_due(now),
    {
        self.snapshot.is_due(now)
    }

    /// A paint for which nothing was sampled: the frame of the readings on
    /// show, which stay as they are.
    pub fn frame(&self) -> (frame: Frame)
        ensures
            frame.shows(self.snapshot()),
    {
        render(&self.snapshot)
    }

    /// A paint at time `now`, for which the host answered `reading`. If a
    /// full interval has passed since the readings were taken, they are all
    /// replaced by `reading`, the share of memory in use is worked out anew
    /// and the time of the last sample becomes `now`; otherwise the reading
    /// is set aside and the snapshot stays as it is. The frame returned is
    /// that of the snapshot after the paint.
    pub fn update_with(&mut self, now: u128, reading: Reading) -> (frame: Frame)
        ensures
            frame.shows(final(self).snapshot()),
            final(self).snapshot() == old(self).snapshot().painted(now, reading),
            old(self).snapshot().sample_due(now) ==> final(self).snapshot() == StatsSnapshot::of(
                reading,
                now,
            ),
            !old(self).snapshot().sample_due(now) ==> final(self).snapshot() == old(
                self,
            ).snapshot(),
            final(self).snapshot().consistent(),
    {
        proof {
            use_type_invariant(&*self);
        }
        let mut next: StatsSnapshot = self.snapshot;
        next.paint(now, reading);
        self.snapshot = next;
        render(&self.snapshot)
    }
}

impl Default for OsStat {
    fn default() -> (stat: OsStat)
        ensures
            stat.snapshot() == StatsSnapshot::zero(),
    {
        OsStat::new()
    }
}

} // verus!
