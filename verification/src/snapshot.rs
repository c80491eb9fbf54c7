//! The readings that the window shows, and when they are replaced.

use vstd::prelude::*;
use crate::memory::{lemma_used_percent_of_mebibytes, mebibytes, Share};
use crate::quantity::Quantity;
use crate::single::Single;

verus! {

/// The time that must pass after one sample before the next is taken, in
/// nanoseconds: one second.
pub const SAMPLE_INTERVAL_NANOS: u128 = 1_000_000_000;

/// What one query of the host returns.
#[derive(Clone, Copy, Debug, PartialEq, Eq, Structural)]
pub struct Reading {
    /// Physical memory, in bytes.
    pub total_memory: u64,
    /// Memory in use, in bytes.
    pub used_memory: u64,
    /// Processor load over all cores, in percent.
    pub cpu_usage: Single,
}

/// The last readings and the time they were taken at. Times are nanoseconds
/// on a clock that never reads less than one sampling interval, so that a
/// snapshot that was never filled counts as overdue.
#[derive(Clone, Copy, Debug, PartialEq, Eq, Structural)]
pub struct StatsSnapshot {
    /// Physical memory, in bytes.
    pub total_memory: u64,
    /// Memory in use, in bytes.
    pub used_memory: u64,
    /// The share of memory in use: zero until the first sample, then the
    /// share that the memory in use is of the physical memory.
    pub used_memory_share: Share,
    /// Processor load over all cores, in percent.
    pub cpu_usage: Single,
    /// When the readings were taken.
    pub last_sample_time: u128,
}

impl StatsSnapshot {
    /// Physical memory in mebibytes.
    pub open spec fn total_memory_mib(self) -> Quantity {
        mebibytes(self.total_memory)
    }

    /// Memory in use in mebibytes.
    pub open spec fn used_memory_mib(self) -> Quantity {
        mebibytes(self.used_memory)
    }

    /// The share of memory in use, in percent.
    pub open spec fn used_memory_percent(self) -> Quantity {
        self.used_memory_share.percent()
    }

    /// Whether the share in use is that of the two memory readings.
    pub open spec fn sampled(self) -> bool {
        self.used_memory_share == Share::of(self.used_memory, self.total_memory)
    }

    /// Whether the share in use belongs to the memory readings beside it:
    /// either nothing was sampled yet and everything is zero, or the share is
    /// that of the two readings.
    pub open spec fn consistent(self) -> bool {
        self == StatsSnapshot::zero() || self.sampled()
    }

    /// Processor load in percent.
    pub open spec fn cpu_percent(self) -> Quantity {
        self.cpu_usage.value()
    }

    /// The snapshot before anything was sampled: every reading is zero, the
    /// share in use too.
    pub open spec fn zero() -> StatsSnapshot {
        StatsSnapshot {
            total_memory: 0,
            used_memory: 0,
            used_memory_share: Share::nothing(),
            cpu_usage: Single::of(0),
            last_sample_time: 0,
        }
    }

    /// Whether at time `now` a full sampling interval has passed since the
    /// readings were taken. A clock that ran backwards makes nothing due.
    pub open spec fn sample_due(self, now: u128) -> bool {
        now - self.last_sample_time >= SAMPLE_INTERVAL_NANOS
    }

    /// The snapshot that holds `reading`, taken at time `at`, with the share
    /// in use worked out from it.
    pub open spec fn of(reading: Reading, at: u128) -> StatsSnapshot {
        StatsSnapshot {
            total_memory: reading.total_memory,
            used_memory: reading.used_memory,
            used_memory_share: Share::of(reading.used_memory, reading.total_memory),
            cpu_usage: reading.cpu_usage,
            last_sample_time: at,
        }
    }

    /// The snapshot after a paint at time `now`, for which the host would
    /// answer `reading`: if a sample was due, the readings are replaced by
    /// `reading` and stamped with `now`; otherwise nothing changes.
    pub open spec fn painted(self, now: u128, reading: Reading) -> StatsSnapshot {
        if self.sample_due(now) {
            StatsSnapshot::of(reading, now)
        } else {
            self
        }
    }

    /// The snapshot before anything was sampled.
    pub fn zeroed() -> (s: StatsSnapshot)
        ensures
            s == StatsSnapshot::zero(),
    {
        StatsSnapshot {
            total_memory: 0,
            used_memory: 0,
            used_memory_share: Share::none(),
            cpu_usage: Single::from_bits(0),
            last_sample_time: 0,
        }
    }

    /// The snapshot that holds `reading`, taken at time `at`.
    pub fn from_reading(reading: Reading, at: u128) -> (s: StatsSnapshot)
        ensures
            s == StatsSnapshot::of(reading, at),
    {
        StatsSnapshot {
            total_memory: reading.total_memory,
            used_memory: reading.used_memory,
            used_memory_share: Share::new(reading.used_memory, reading.total_memory),
            cpu_usage: reading.cpu_usage,
            last_sample_time: at,
        }
    }

    /// Whether a sample is due at time `now`.
    pub fn is_due(&self, now: u128) -> (due: bool)
        ensures
            due == self.sample_due(now),
    {
        now >= self.last_sample_time && now - self.last_sample_time >= SAMPLE_INTERVAL_NANOS
    }

    /// Replaces all readings by `reading`, taken at time `at`, and the share
    /// in use along with them.
    pub fn record(&mut self, reading: Reading, at: u128)
        ensures
            *final(self) == StatsSnapshot::of(reading, at),
    {
        self.total_memory = reading.total_memory;
        self.used_memory = reading.used_memory;
        self.used_memory_share = Share::new(reading.used_memory, reading.total_memory);
        self.cpu_usage = reading.cpu_usage;
        self.last_sample_time = at;
    }

    /// One paint at time `now`, for which the host answered `reading`: if a
    /// sample is due the readings are replaced and stamped with `now`,
    /// otherwise the reading is set aside and nothing changes. Tells whether
    /// the readings were replaced.
    pub fn paint(&mut self, now: u128, reading: Reading) -> (replaced: bool)
        ensures
            *final(self) == old(self).painted(now, reading),
            replaced == old(self).sample_due(now),
    {
        if self.is_due(now) {
            self.record(reading, now);
            true
        } else {
            false
        }
    }
}

/// The share in use never falls behind the memory readings: before the first
/// sample everything is zero, a sample sets the share along with the
/// readings, and a paint keeps the two together.
pub proof fn lemma_share_keeps_up(s: StatsSnapshot, now: u128, reading: Reading)
    ensures
        StatsSnapshot::zero().consistent(),
        StatsSnapshot::zero().used_memory_percent().equals(0),
        StatsSnapshot::of(reading, now).sampled(),
        s.consistent() ==> s.painted(now, reading).consistent(),
{
}

/// In a snapshot that was sampled, the percentage in use is the mebibytes in
/// use, divided by the mebibytes there are, times a hundred, whenever there
/// is any memory; with none it is not a finite number.
pub proof fn lemma_sampled_percent(s: StatsSnapshot)
    requires
        s.sampled(),
    ensures
        s.total_memory != 0 ==> s.used_memory_percent().is_percentage(
            s.used_memory_mib(),
            s.total_memory_mib(),
        ),
        s.total_memory == 0 ==> s.used_memory_percent() !is Finite,
        s.used_memory_percent().wf(),
{
    lemma_used_percent_of_mebibytes(s.used_memory, s.total_memory);
}

/// A paint replaces the readings if and only if a full interval has passed
/// since they were taken, and then stamps them with the time of the paint;
/// otherwise it leaves the snapshot as it was.
pub proof fn lemma_paint_samples_iff_due(s: StatsSnapshot, now: u128, reading: Reading)
    ensures
        s.sample_due(now) <==> now - s.last_sample_time >= 1_000_000_000,
        s.sample_due(now) ==> s.painted(now, reading) == StatsSnapshot::of(reading, now),
        s.sample_due(now) ==> s.painted(now, reading).last_sample_time == now,
        !s.sample_due(now) ==> s.painted(now, reading) == s,
{
}

/// Two paints less than an interval apart, the second no earlier than the
/// first: the second leaves the snapshot as the first left it. Left out is
/// the one course in which the readings come due between the two paints, so
/// that the first paint keeps them and the second replaces them.
pub proof fn lemma_second_paint_keeps_snapshot(
    s: StatsSnapshot,
    first: u128,
    reading_first: Reading,
    second: u128,
    reading_second: Reading,
)
    requires
        first <= second,
        second - first < SAMPLE_INTERVAL_NANOS,
        s.sample_due(first) || !s.sample_due(second),
    ensures
        s.painted(first, reading_first).painted(second, reading_second) == s.painted(
            first,
            reading_first,
        ),
{
}

/// Every sample is stamped later than the one before it.
pub proof fn lemma_sample_time_increases(s: StatsSnapshot, now: u128, reading: Reading)
    requires
        s.sample_due(now),
    ensures
        s.painted(now, reading).last_sample_time > s.last_sample_time,
{
}

/// A snapshot that was never filled is due at every reading of a clock that
/// starts one interval in.
pub proof fn lemma_zero_is_due(now: u128)
    requires
        now >= SAMPLE_INTERVAL_NANOS,
    ensures
        StatsSnapshot::zero().sample_due(now),
{
}

} // verus!
