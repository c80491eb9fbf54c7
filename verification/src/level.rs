//! Grading a percentage against the two fixed thresholds.

use vstd::prelude::*;
use crate::quantity::{lemma_below_excludes_above, Quantity};

verus! {

/// Percentages below this bound are graded low.
pub const LOW_BOUND: u32 = 10;

/// Percentages above this bound are graded high.
pub const HIGH_BOUND: u32 = 90;

/// How loaded a resource is; the window tints a line by it.
#[derive(Clone, Copy, Debug, PartialEq, Eq, Structural)]
pub enum Level {
    Low,
    Medium,
    High,
}

/// The grade of a percentage: low strictly below ten, high strictly above
/// ninety, medium for everything else, the two bounds and an undefined
/// percentage included.
pub open spec fn classify(p: Quantity) -> Level {
    if p.below(LOW_BOUND as int) {
        Level::Low
    } else if p.above(HIGH_BOUND as int) {
        Level::High
    } else {
        Level::Medium
    }
}

/// The three grades split the percentages by the two bounds and do not
/// overlap: a percentage is low exactly when it is below ten, high exactly
/// when it is above ninety, and medium exactly when it is neither. A
/// percentage equal to either bound is medium.
pub proof fn lemma_classify_by_bounds(p: Quantity)
    requires
        p.wf(),
    ensures
        classify(p) == Level::Low <==> p.below(10),
        classify(p) == Level::High <==> p.above(90),
        classify(p) == Level::Medium <==> !p.below(10) && !p.above(90),
        p.equals(10) ==> classify(p) == Level::Medium,
        p.equals(90) ==> classify(p) == Level::Medium,
        p is Undefined ==> classify(p) == Level::Medium,
{
    lemma_below_excludes_above(p, 10, 90);
    if p is Finite {
        let d = p.denominator();
        assert(10 * d < 90 * d);
    }
}

} // verus!
