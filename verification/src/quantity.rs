//! The mathematical values that readings stand for.
//!
//! A reading is either an exact rational number, one of the two infinities, or
//! undefined (the outcome of dividing nothing by nothing). Contracts in this
//! crate speak of readings through this type, so that nothing depends on how a
//! value happens to be stored.

use vstd::prelude::*;

verus! {

/// An extended rational number.
pub enum Quantity {
    /// No number at all.
    Undefined,
    /// Larger than every number, or smaller when `negative`.
    Infinite { negative: bool },
    /// `num / den`, negated when `negative`. A negative zero is kept apart
    /// from zero because the two are written differently.
    Finite { negative: bool, num: nat, den: nat },
}

impl Quantity {
    /// A finite quantity has a denominator.
    pub open spec fn wf(self) -> bool {
        self matches Quantity::Finite { den, .. } ==> den > 0
    }

    /// `part / whole` for two counts, as division of reals extended by the
    /// usual conventions: nothing over nothing is undefined, something over
    /// nothing is infinite.
    pub open spec fn ratio(part: nat, whole: nat) -> Quantity {
        if whole > 0 {
            Quantity::Finite { negative: false, num: part, den: whole }
        } else if part > 0 {
            Quantity::Infinite { negative: false }
        } else {
            Quantity::Undefined
        }
    }

    /// The numerator with its sign, for a finite quantity.
    pub open spec fn signed_num(self) -> int {
        match self {
            Quantity::Finite { negative, num, .. } => if negative {
                -(num as int)
            } else {
                num as int
            },
            _ => 0,
        }
    }

    /// The denominator of a finite quantity.
    pub open spec fn denominator(self) -> int {
        match self {
            Quantity::Finite { den, .. } => den as int,
            _ => 1,
        }
    }

    /// `self < k`. Nothing undefined is below anything.
    pub open spec fn below(self, k: int) -> bool {
        match self {
            Quantity::Undefined => false,
            Quantity::Infinite { negative } => negative,
            Quantity::Finite { .. } => self.signed_num() < k * self.denominator(),
        }
    }

    /// `self > k`. Nothing undefined is above anything.
    pub open spec fn above(self, k: int) -> bool {
        match self {
            Quantity::Undefined => false,
            Quantity::Infinite { negative } => !negative,
            Quantity::Finite { .. } => self.signed_num() > k * self.denominator(),
        }
    }

    /// `self == k`.
    pub open spec fn equals(self, k: int) -> bool {
        self is Finite && self.signed_num() == k * self.denominator()
    }

    /// `self == part / whole * 100`, for finite quantities and a positive
    /// `whole`, stated without division.
    pub open spec fn is_percentage(self, part: Quantity, whole: Quantity) -> bool {
        &&& self is Finite
        &&& part is Finite
        &&& whole is Finite
        &&& whole.signed_num() > 0
        &&& self.signed_num() * (part.denominator() * whole.signed_num()) == 100 * (
        part.signed_num() * whole.denominator()) * self.denominator()
    }
}

/// A quantity cannot be both below a bound and above a bound that is no
/// smaller.
pub proof fn lemma_below_excludes_above(q: Quantity, low: int, high: int)
    requires
        q.wf(),
        low <= high,
    ensures
        !(q.below(low) && q.above(high)),
{
    if q is Finite {
        let d = q.denominator();
        assert(low * d <= high * d) by (nonlinear_arith)
            requires
                low <= high,
                d > 0,
        ;
    }
}

} // verus!
