//! Memory readings. The host reports them as counts of bytes; the window shows
//! them in mebibytes and as the share that is in use.

use vstd::prelude::*;
use vstd::string::*;
use crate::decimal::{push_hundredths, rounded_quotient, text};
use crate::level::{classify, Level, HIGH_BOUND, LOW_BOUND};
use crate::quantity::Quantity;

verus! {

/// The number of bytes in a mebibyte.
pub const BYTES_PER_MIB: u64 = 0x10_0000;

/// A count of bytes as a number of mebibytes.
pub open spec fn mebibytes(bytes: u64) -> Quantity {
    Quantity::Finite { negative: false, num: bytes as nat, den: BYTES_PER_MIB as nat }
}

/// The share of `total` that `used` makes up, in percent. With no memory at
/// all the share is undefined, or infinite if some is in use nevertheless.
pub open spec fn used_percent(used: u64, total: u64) -> Quantity {
    Quantity::ratio(used as nat * 100, total as nat)
}

/// A share of memory, held as the two counts of bytes whose ratio it is, so
/// that the percentage it stands for is exact.
#[derive(Clone, Copy, Debug, PartialEq, Eq, Structural)]
pub struct Share {
    /// The bytes that make up the share.
    pub part: u64,
    /// The bytes it is a share of.
    pub whole: u64,
}

impl Share {
    /// The share in percent.
    pub open spec fn percent(self) -> Quantity {
        used_percent(self.part, self.whole)
    }

    /// The share that `used` is of `total`.
    pub open spec fn of(used: u64, total: u64) -> Share {
        Share { part: used, whole: total }
    }

    /// A share of nothing at all: zero percent.
    pub open spec fn nothing() -> Share {
        Share { part: 0, whole: 1 }
    }

    /// The share that `used` is of `total`.
    pub fn new(used: u64, total: u64) -> (share: Share)
        ensures
            share == Share::of(used, total),
    {
        Share { part: used, whole: total }
    }

    /// A share of zero percent.
    pub fn none() -> (share: Share)
        ensures
            share == Share::nothing(),
            share.percent().equals(0),
    {
        Share { part: 0, whole: 1 }
    }

    /// Grades the share.
    pub fn level(&self) -> (level: Level)
        ensures
            level == classify(self.percent()),
    {
        used_percent_level(self.part, self.whole)
    }

    /// Appends the share, in percent with two decimals.
    pub fn push_text(&self, out: &mut String)
        ensures
            final(out)@ == old(out)@ + text(self.percent()),
    {
        push_used_percent(out, self.part, self.whole);
    }
}

/// The percentage in use is the mebibytes in use, divided by the mebibytes
/// there are, times a hundred, whenever there is any memory; with none it is
/// not a finite number.
pub proof fn lemma_used_percent_of_mebibytes(used: u64, total: u64)
    ensures
        total != 0 ==> used_percent(used, total).is_percentage(mebibytes(used), mebibytes(total)),
        total == 0 ==> used_percent(used, total) !is Finite,
        total == 0 && used == 0 ==> used_percent(used, total) is Undefined,
        used_percent(used, total).wf(),
{
    if total != 0 {
        let u = used as int;
        let t = total as int;
        let m = BYTES_PER_MIB as int;
        assert((u * 100) * (m * t) == 100 * (u * m) * t) by (nonlinear_arith);
    }
}

/// Grades the share of memory in use.
pub fn used_percent_level(used: u64, total: u64) -> (level: Level)
    ensures
        level == classify(used_percent(used, total)),
{
    if total == 0 {
        if used == 0 {
            Level::Medium
        } else {
            Level::High
        }
    } else {
        let share: u128 = used as u128 * 100;
        let whole: u128 = total as u128;
        let low: u128 = LOW_BOUND as u128;
        let high: u128 = HIGH_BOUND as u128;
        assert(low == 10 && high == 90);
        if share < low * whole {
            Level::Low
        } else if share > high * whole {
            Level::High
        } else {
            Level::Medium
        }
    }
}

/// Appends a count of bytes, written in mebibytes with two decimals.
pub fn push_mebibytes(out: &mut String, bytes: u64)
    ensures
        final(out)@ == old(out)@ + text(mebibytes(bytes)),
{
    let h: u128 = rounded_quotient(bytes as u128 * 100, BYTES_PER_MIB as u128);
    push_hundredths(out, h);
}

/// Appends the share of memory in use, in percent with two decimals.
pub fn push_used_percent(out: &mut String, used: u64, total: u64)
    ensures
        final(out)@ == old(out)@ + text(used_percent(used, total)),
{
    if total == 0 {
        proof {
            reveal_strlit("NaN");
            reveal_strlit("inf");
        }
        if used == 0 {
            out.append("NaN");
        } else {
            out.append("inf");
        }
    } else {
        let h: u128 = rounded_quotient(used as u128 * 10000, total as u128);
        assert(used as nat * 100 * 100 == used as nat * 10000);
        push_hundredths(out, h);
    }
}

} // verus!
