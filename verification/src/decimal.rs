//! Writing quantities with two decimals.
//!
//! A finite quantity is rounded to the nearest hundredth, a tie going to the
//! even neighbour, and written as its whole part, a point and two digits. The
//! sign of a negative quantity is kept even when the digits are all zero.

use vstd::prelude::*;
use vstd::string::*;
use crate::quantity::Quantity;

verus! {

/// `num / den` rounded to the nearest whole number; a value half way between
/// two whole numbers goes to the even one.
pub open spec fn round_half_even(num: nat, den: nat) -> nat
    recommends
        den > 0,
{
    let q = num / den;
    let r = num % den;
    if 2 * r < den {
        q
    } else if 2 * r > den {
        q + 1
    } else if q % 2 == 0 {
        q
    } else {
        q + 1
    }
}

/// The number of hundredths nearest to the magnitude of a finite quantity.
pub open spec fn hundredths(q: Quantity) -> nat {
    match q {
        Quantity::Finite { num, den, .. } => round_half_even(num * 100, den),
        _ => 0,
    }
}

/// The character of a decimal digit.
pub open spec fn digit(d: nat) -> char
    recommends
        d < 10,
{
    seq!['0', '1', '2', '3', '4', '5', '6', '7', '8', '9'][d as int]
}

/// The decimal digits of `n`, most significant first, without leading zeros.
pub open spec fn digits(n: nat) -> Seq<char>
    decreases n,
{
    if n < 10 {
        seq![digit(n)]
    } else {
        digits(n / 10).push(digit(n % 10))
    }
}

/// A count of hundredths written with a point before its last two digits.
pub open spec fn two_decimals(h: nat) -> Seq<char> {
    digits(h / 100) + seq!['.', digit((h / 10) % 10), digit(h % 10)]
}

/// A quantity as the window writes it.
pub open spec fn text(q: Quantity) -> Seq<char> {
    match q {
        Quantity::Undefined => seq!['N', 'a', 'N'],
        Quantity::Infinite { negative } => if negative {
            seq!['-', 'i', 'n', 'f']
        } else {
            seq!['i', 'n', 'f']
        },
        Quantity::Finite { negative, .. } => if negative {
            seq!['-'] + two_decimals(hundredths(q))
        } else {
            two_decimals(hundredths(q))
        },
    }
}

/// Rounding does not depend on the terms in which a fraction is written.
pub proof fn lemma_round_half_even_scales(num: nat, den: nat, by: nat)
    requires
        den > 0,
        by > 0,
    ensures
        round_half_even(by * num, by * den) == round_half_even(num, den),
{
    let b = by as int;
    let n = num as int;
    let d = den as int;
    vstd::arithmetic::div_mod::lemma_div_multiples_vanish_quotient(b, n, d);
    vstd::arithmetic::div_mod::lemma_truncate_middle(n, b, d);
    let r = n % d;
    assert(0 <= r < d);
    assert((2 * (b * r) < b * d) == (2 * r < d)) by (nonlinear_arith)
        requires
            b > 0,
    ;
    assert((2 * (b * r) > b * d) == (2 * r > d)) by (nonlinear_arith)
        requires
            b > 0,
    ;
}

/// A whole number rounds to itself.
pub proof fn lemma_round_half_even_whole(n: nat, den: nat)
    requires
        den > 0,
    ensures
        round_half_even(n * den, den) == n,
{
    vstd::arithmetic::div_mod::lemma_div_by_multiple(n as int, den as int);
    vstd::arithmetic::div_mod::lemma_mod_multiples_basic(n as int, den as int);
}

/// `num / den` rounded to the nearest whole number, ties to even.
pub fn rounded_quotient(num: u128, den: u128) -> (r: u128)
    requires
        den > 0,
    ensures
        r == round_half_even(num as nat, den as nat),
{
    let q: u128 = num / den;
    let rest: u128 = num % den;
    if rest == 0 {
        return q;
    }
    proof {
        // A remainder means the divisor is at least two, so the quotient
        // leaves room for one more.
        vstd::arithmetic::div_mod::lemma_fundamental_div_mod(num as int, den as int);
        assert(den >= 2);
        assert(2 * q <= den * q) by (nonlinear_arith)
            requires
                den >= 2,
                q >= 0,
        ;
    }
    let gap: u128 = den - rest;
    if rest < gap {
        q
    } else if rest > gap {
        q + 1
    } else if q % 2 == 0 {
        q
    } else {
        q + 1
    }
}

/// The text of one decimal digit.
fn digit_str(d: u8) -> (s: &'static str)
    requires
        d < 10,
    ensures
        s@ == seq![digit(d as nat)],
{
    proof {
        reveal_strlit("0");
        reveal_strlit("1");
        reveal_strlit("2");
        reveal_strlit("3");
        reveal_strlit("4");
        reveal_strlit("5");
        reveal_strlit("6");
        reveal_strlit("7");
        reveal_strlit("8");
        reveal_strlit("9");
    }
    match d {
        0 => "0",
        1 => "1",
        2 => "2",
        3 => "3",
        4 => "4",
        5 => "5",
        6 => "6",
        7 => "7",
        8 => "8",
        _ => "9",
    }
}

/// Appends the decimal digits of `n`.
pub fn push_digits(out: &mut String, n: u128)
    ensures
        final(out)@ == old(out)@ + digits(n as nat),
    decreases n,
{
    if n >= 10 {
        push_digits(out, n / 10);
    }
    let last: u8 = (n % 10) as u8;
    out.append(digit_str(last));
}

/// Appends a count of hundredths as a number with two decimals.
pub fn push_hundredths(out: &mut String, h: u128)
    ensures
        final(out)@ == old(out)@ + two_decimals(h as nat),
{
    push_digits(out, h / 100);
    proof {
        reveal_strlit(".");
    }
    out.append(".");
    let tenths: u8 = ((h / 10) % 10) as u8;
    let last: u8 = (h % 10) as u8;
    out.append(digit_str(tenths));
    out.append(digit_str(last));
}

/// Appends a whole number as a number with two decimals, both zero. The
/// number may be too large for its count of hundredths to be held.
pub fn push_whole(out: &mut String, n: u128)
    ensures
        final(out)@ == old(out)@ + two_decimals(n as nat * 100),
{
    push_digits(out, n);
    proof {
        reveal_strlit(".00");
        assert((n as nat * 100) / 100 == n as nat);
        assert(((n as nat * 100) / 10) % 10 == 0);
        assert((n as nat * 100) % 10 == 0);
    }
    out.append(".00");
}

} // verus!
