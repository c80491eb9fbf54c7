//! Readings that arrive as IEEE 754 single-precision numbers.
//!
//! Such a number is held by its 32-bit pattern: one sign bit, eight exponent
//! bits and twenty-three fraction bits. Every contract on one is stated over
//! the exact value that the pattern encodes.

use vstd::prelude::*;
use vstd::string::*;
use vstd::arithmetic::power2::*;
use crate::decimal::{
    lemma_round_half_even_scales,
    lemma_round_half_even_whole,
    push_hundredths,
    push_whole,
    rounded_quotient,
    text,
};
use crate::level::{classify, Level};
use crate::quantity::Quantity;

verus! {

/// The pattern of positive zero with the sign bit set.
pub const SIGN_BIT: u32 = 0x8000_0000;

/// The number of fraction patterns per exponent; also the hidden leading bit
/// of a normal number's significand.
pub const FRACTION_SPAN: u32 = 0x80_0000;

/// The exponent field of infinities and of values that are no number.
pub const EXPONENT_SPECIAL: u32 = 0xff;

/// The pattern of positive infinity.
pub const POSITIVE_INFINITY: u32 = 0x7f80_0000;

/// The pattern of ten.
pub const TEN: u32 = 0x4120_0000;

/// The pattern of ninety.
pub const NINETY: u32 = 0x42b4_0000;

/// The least power of two, negated, that a single-precision number can
/// carry: every finite value is a whole multiple of two to the minus `149`.
pub const FINEST: u32 = 149;

/// A single-precision number, by its bit pattern.
#[derive(Clone, Copy, Debug, PartialEq, Eq, Structural)]
pub struct Single {
    pub bits: u32,
}

impl Single {
    /// Whether the sign bit is set.
    pub open spec fn negative(self) -> bool {
        self.bits >= SIGN_BIT
    }

    /// The exponent field.
    pub open spec fn exponent(self) -> nat {
        ((self.bits as nat) / (FRACTION_SPAN as nat)) % 0x100
    }

    /// The fraction field.
    pub open spec fn fraction(self) -> nat {
        (self.bits as nat) % (FRACTION_SPAN as nat)
    }

    /// The significand as a whole number: the fraction, led by a hidden one
    /// unless the exponent field is zero.
    pub open spec fn significand(self) -> nat {
        if self.exponent() == 0 {
            self.fraction()
        } else {
            FRACTION_SPAN as nat + self.fraction()
        }
    }

    /// The power of two by which the significand is multiplied, counted from
    /// the finest one.
    pub open spec fn shift(self) -> nat {
        if self.exponent() == 0 {
            0
        } else {
            (self.exponent() - 1) as nat
        }
    }

    /// The magnitude of a finite number in units of two to the minus `149`.
    pub open spec fn magnitude(self) -> nat {
        self.significand() * pow2(self.shift())
    }

    /// Whether the pattern encodes a number, zero included.
    pub open spec fn finite(self) -> bool {
        self.exponent() != EXPONENT_SPECIAL
    }

    /// The value that the pattern encodes.
    pub open spec fn value(self) -> Quantity {
        if self.finite() {
            Quantity::Finite {
                negative: self.negative(),
                num: self.magnitude(),
                den: pow2(FINEST as nat),
            }
        } else if self.fraction() == 0 {
            Quantity::Infinite { negative: self.negative() }
        } else {
            Quantity::Undefined
        }
    }

    /// The number with the given pattern.
    pub open spec fn of(bits: u32) -> Single {
        Single { bits }
    }

    /// The number with the given pattern.
    pub fn from_bits(bits: u32) -> (s: Single)
        ensures
            s == Single::of(bits),
    {
        Single { bits }
    }

    /// Grades the number as a percentage.
    pub fn level(&self) -> (level: Level)
        ensures
            level == classify(self.value()),
    {
        let rest: u32 = self.bits % SIGN_BIT;
        proof {
            lemma_pow2_pos(FINEST as nat);
            if self.finite() {
                lemma_magnitude_against_bounds(*self);
            }
        }
        if rest > POSITIVE_INFINITY {
            Level::Medium
        } else if self.bits >= SIGN_BIT {
            Level::Low
        } else if rest < TEN {
            Level::Low
        } else if rest > NINETY {
            Level::High
        } else {
            Level::Medium
        }
    }

    /// Appends the number, written with two decimals.
    pub fn push_text(&self, out: &mut String)
        ensures
            final(out)@ == old(out)@ + text(self.value()),
    {
        let negative: bool = self.bits >= SIGN_BIT;
        let rest: u32 = self.bits % SIGN_BIT;
        let exponent: u32 = rest / FRACTION_SPAN;
        let fraction: u32 = rest % FRACTION_SPAN;
        proof {
            reveal_strlit("NaN");
            reveal_strlit("inf");
            reveal_strlit("-inf");
            reveal_strlit("-");
        }
        if exponent == EXPONENT_SPECIAL {
            if fraction != 0 {
                out.append("NaN");
            } else if negative {
                out.append("-inf");
            } else {
                out.append("inf");
            }
            return;
        }
        if negative {
            out.append("-");
        }
        let significand: u128 = if exponent == 0 {
            fraction as u128
        } else {
            FRACTION_SPAN as u128 + fraction as u128
        };
        let shift: u32 = if exponent == 0 {
            0
        } else {
            exponent - 1
        };
        assert(significand == self.significand() && shift == self.shift());
        if shift >= FINEST {
            let up: u32 = shift - FINEST;
            let unit: u128 = power_of_two(up);
            proof {
                lemma_pow2_adds(up as nat, FINEST as nat);
                lemma_pow2_bound_104(up as nat);
                assert(significand * unit <= 0xff_ffff * 0x100_0000_0000_0000_0000_0000_0000)
                    by (nonlinear_arith)
                    requires
                        significand <= 0xff_ffff,
                        unit <= 0x100_0000_0000_0000_0000_0000_0000,
                ;
            }
            let whole: u128 = significand * unit;
            proof {
                let fine = pow2(FINEST as nat);
                assert(self.magnitude() * 100 == (whole as nat * 100) * fine) by (nonlinear_arith)
                    requires
                        self.magnitude() == significand as nat * (unit as nat * fine),
                        whole == significand * unit,
                ;
                lemma_pow2_pos(FINEST as nat);
                lemma_round_half_even_whole(whole as nat * 100, fine);
            }
            push_whole(out, whole);
        } else {
            let down: u32 = FINEST - shift;
            let h: u128 = if down >= 128 {
                0
            } else {
                rounded_quotient(significand * 100, power_of_two(down))
            };
            proof {
                let coarse = pow2(shift as nat);
                let den = pow2(down as nat);
                let num = significand as nat * 100;
                lemma_pow2_adds(shift as nat, down as nat);
                lemma_pow2_pos(shift as nat);
                lemma_pow2_pos(down as nat);
                assert(self.magnitude() * 100 == coarse * num) by (nonlinear_arith)
                    requires
                        self.magnitude() == significand as nat * coarse,
                        num == significand as nat * 100,
                ;
                lemma_round_half_even_scales(num, den, coarse);
                if down >= 128 {
                    lemma_pow2_at_least_32(down as nat);
                    vstd::arithmetic::div_mod::lemma_basic_div(num as int, den as int);
                    vstd::arithmetic::div_mod::lemma_small_mod(num, den);
                }
            }
            push_hundredths(out, h);
        }
    }
}

/// The value of every pattern is well formed.
pub proof fn lemma_value_wf(s: Single)
    ensures
        s.value().wf(),
{
    lemma_pow2_pos(FINEST as nat);
}

/// Powers of two grow with the exponent.
proof fn lemma_pow2_monotone(a: nat, b: nat)
    requires
        a <= b,
    ensures
        pow2(a) <= pow2(b),
{
    if a < b {
        lemma_pow2_strictly_increases(a, b);
    }
}

proof fn lemma_pow2_at_least_32(e: nat)
    requires
        e >= 32,
    ensures
        pow2(e) >= 0x1_0000_0000,
{
    lemma2_to64();
    lemma_pow2_monotone(32, e);
}

proof fn lemma_pow2_bound_104(e: nat)
    requires
        e <= 104,
    ensures
        pow2(e) <= 0x100_0000_0000_0000_0000_0000_0000,
{
    lemma2_to64();
    lemma_pow2_adds(64, 32);
    lemma_pow2_adds(96, 8);
    lemma_pow2_monotone(e, 104);
}

proof fn lemma_pow2_bound_127(e: nat)
    requires
        e <= 127,
    ensures
        pow2(e) <= 0x8000_0000_0000_0000_0000_0000_0000_0000,
{
    lemma2_to64();
    lemma2_to64_rest();
    lemma_pow2_adds(64, 63);
    lemma_pow2_monotone(e, 127);
}

/// Two to the power `e`.
fn power_of_two(e: u32) -> (p: u128)
    requires
        e < 128,
    ensures
        p == pow2(e as nat),
        p > 0,
{
    let mut p: u128 = 1;
    let mut i: u32 = 0;
    proof {
        lemma2_to64();
        lemma_pow2_pos(e as nat);
    }
    while i < e
        invariant
            i <= e,
            e < 128,
            p == pow2(i as nat),
        decreases e - i,
    {
        proof {
            lemma_pow2_unfold((i + 1) as nat);
            lemma_pow2_bound_127((i + 1) as nat);
        }
        p = p * 2;
        i = i + 1;
    }
    p
}

/// Among finite numbers of one sign, the one with the larger pattern has the
/// larger magnitude.
pub proof fn lemma_magnitude_order(a: Single, b: Single)
    requires
        a.finite(),
        b.finite(),
        a.bits % SIGN_BIT < b.bits % SIGN_BIT,
    ensures
        a.magnitude() < b.magnitude(),
{
    let span = FRACTION_SPAN as nat;
    let sa = a.significand();
    let sb = b.significand();
    let pa = pow2(a.shift());
    let pb = pow2(b.shift());
    lemma_pow2_pos(a.shift());
    lemma_pow2_pos(b.shift());
    if a.exponent() == b.exponent() {
        assert(sa < sb);
        assert(sa * pa < sb * pa) by (nonlinear_arith)
            requires
                sa < sb,
                pa > 0,
        ;
    } else {
        assert(a.exponent() < b.exponent());
        if a.exponent() == 0 {
            lemma2_to64();
            assert(sa * pa == sa) by (nonlinear_arith)
                requires
                    pa == 1,
            ;
            assert(sb * pb >= sb) by (nonlinear_arith)
                requires
                    pb >= 1,
            ;
        } else {
            // A significand stays below twice the hidden bit, so one more
            // power of two outweighs any fraction.
            lemma_pow2_unfold((a.shift() + 1) as nat);
            lemma_pow2_monotone((a.shift() + 1) as nat, b.shift());
            assert(sa * pa < sb * pb) by (nonlinear_arith)
                requires
                    sa < 2 * span,
                    sb >= span,
                    pa > 0,
                    2 * pa <= pb,
                    span > 0,
            ;
        }
    }
}

/// The patterns of ten and of ninety encode ten and ninety.
pub proof fn lemma_magnitude_of_bounds()
    ensures
        Single::of(TEN).finite(),
        Single::of(NINETY).finite(),
        Single::of(TEN).magnitude() == 10 * pow2(FINEST as nat),
        Single::of(NINETY).magnitude() == 90 * pow2(FINEST as nat),
{
    lemma2_to64();
    let ten = Single::of(TEN);
    let ninety = Single::of(NINETY);
    assert(ten.exponent() == 130 && ten.fraction() == 0x20_0000);
    assert(ninety.exponent() == 133 && ninety.fraction() == 0x34_0000);
    lemma_pow2_adds(20, 129);
    lemma_pow2_adds(17, 132);
    let p129 = pow2(129);
    let p132 = pow2(132);
    assert(0xa0_0000 * p129 == 10 * (0x10_0000 * p129)) by (nonlinear_arith);
    assert(0xb4_0000 * p132 == 90 * (0x2_0000 * p132)) by (nonlinear_arith);
}

/// How the magnitude of a finite number lies to ten and to ninety is read off
/// its pattern.
proof fn lemma_magnitude_against_bounds(s: Single)
    requires
        s.finite(),
    ensures
        s.bits % SIGN_BIT < TEN <==> s.magnitude() < 10 * pow2(FINEST as nat),
        s.bits % SIGN_BIT > NINETY <==> s.magnitude() > 90 * pow2(FINEST as nat),
{
    let ten = Single::of(TEN);
    let ninety = Single::of(NINETY);
    let rest = s.bits % SIGN_BIT;
    lemma_magnitude_of_bounds();
    if rest < TEN {
        lemma_magnitude_order(s, ten);
    } else if rest > TEN {
        lemma_magnitude_order(ten, s);
    } else {
        assert(s.exponent() == ten.exponent() && s.fraction() == ten.fraction());
    }
    if rest < NINETY {
        lemma_magnitude_order(s, ninety);
    } else if rest > NINETY {
        lemma_magnitude_order(ninety, s);
    } else {
        assert(s.exponent() == ninety.exponent() && s.fraction() == ninety.fraction());
    }
}

} // verus!
