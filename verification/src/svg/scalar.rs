//! Coordinates and lengths as exact decimal fixed-point numbers.

use vstd::prelude::*;
use super::text::{
    all_digits, append_nat, digit_char, digit_str, digit_value, digits_value,
    lemma_digits_value_prepend, lemma_nat_text_is_digits, lemma_nat_text_value, nat_text, pow10,
};

verus! {

/// How many stored units make one whole coordinate unit: a `Scalar` counts
/// millionths.
pub const SCALE: i64 = 1_000_000;

/// The weight of the first digit behind the decimal point.
pub const TENTH: u64 = 100_000;

/// A signed decimal number with six fractional digits, held as a count of
/// millionths. Every `i64` is a valid count, so the range is about ±9.2e12.
#[derive(Clone, Copy, Debug, PartialEq, Eq, Structural)]
pub struct Scalar {
    pub millionths: i64,
}

/// The absolute value of an integer.
pub open spec fn magnitude(v: int) -> nat {
    if v < 0 {
        (-v) as nat
    } else {
        v as nat
    }
}

/// Whether an integer can be stored as a count of millionths.
pub open spec fn fits(v: int) -> bool {
    i64::MIN <= v <= i64::MAX
}

/// The digits behind the decimal point of a fraction `f` given in millionths,
/// where `weight` is the weight of the next digit: digit after digit until
/// nothing is left, so that no zero trails.
pub open spec fn fraction_digits(f: nat, weight: nat) -> Seq<char>
    decreases weight,
{
    if f == 0 || weight == 0 {
        Seq::empty()
    } else {
        seq![digit_char((f / weight) as int)] + fraction_digits(f % weight, weight / 10)
    }
}

/// The fractional part of a decimal notation: nothing for a whole number,
/// else the point and the digits behind it.
pub open spec fn fraction_text(f: nat) -> Seq<char> {
    if f == 0 {
        Seq::empty()
    } else {
        seq!['.'] + fraction_digits(f, TENTH as nat)
    }
}

/// Decimal notation of a count of millionths: a minus sign for negative
/// numbers, the whole part, and the fractional part only where there is one.
pub open spec fn decimal_text(v: int) -> Seq<char> {
    let m = magnitude(v);
    let sign = if v < 0 {
        seq!['-']
    } else {
        Seq::empty()
    };
    sign + nat_text(m / (SCALE as nat)) + fraction_text(m % (SCALE as nat))
}

/// Decimal notation that always shows a fractional part: whole numbers end
/// in `.0`.
pub open spec fn decimal_debug_text(v: int) -> Seq<char> {
    if magnitude(v) % (SCALE as nat) == 0 {
        decimal_text(v) + seq!['.', '0']
    } else {
        decimal_text(v)
    }
}

/// Half of `v`, rounded toward zero.
pub open spec fn halved(v: int) -> int {
    if v < 0 {
        -((-v) / 2)
    } else {
        v / 2
    }
}

impl Scalar {
    /// The number as a count of millionths.
    pub open spec fn value(self) -> int {
        self.millionths as int
    }

    /// The number in the notation used in markup.
    pub open spec fn text(self) -> Seq<char> {
        decimal_text(self.value())
    }

    /// The number in the notation used in diagnostics.
    pub open spec fn debug_text(self) -> Seq<char> {
        decimal_debug_text(self.value())
    }

    /// Whether the number has no fractional part.
    pub open spec fn is_whole(self) -> bool {
        magnitude(self.value()) % (SCALE as nat) == 0
    }

    /// The number with the given count of millionths.
    pub fn from_millionths(millionths: i64) -> (s: Scalar)
        ensures
            s.value() == millionths,
    {
        Scalar { millionths }
    }

    /// The whole number `n`.
    pub fn from_whole(n: i32) -> (s: Scalar)
        ensures
            s.value() == n * SCALE,
            s.is_whole(),
    {
        let wide: i64 = n as i64;
        let s = Scalar { millionths: wide * SCALE };
        assert(magnitude(n * SCALE) % (SCALE as nat) == 0) by (nonlinear_arith);
        s
    }

    /// Zero.
    pub fn zero() -> (s: Scalar)
        ensures
            s.value() == 0,
    {
        Scalar { millionths: 0 }
    }

    /// The absolute value, which for the least `i64` does not fit in an `i64`.
    pub fn abs_millionths(&self) -> (m: u64)
        ensures
            m == magnitude(self.value()),
    {
        let v: i64 = self.millionths;
        if v >= 0 {
            v as u64
        } else if v == i64::MIN {
            9_223_372_036_854_775_808u64
        } else {
            (-v) as u64
        }
    }

    /// Half of the number, rounded toward zero to a whole count of millionths.
    pub fn half(&self) -> (h: Scalar)
        ensures
            h.value() == halved(self.value()),
    {
        let m: u64 = self.abs_millionths() / 2;
        if self.millionths < 0 {
            Scalar { millionths: -(m as i64) }
        } else {
            Scalar { millionths: m as i64 }
        }
    }

    /// Appends the markup notation of the number to `out`.
    pub fn append_to(&self, out: &mut String)
        ensures
            final(out)@ == old(out)@ + self.text(),
    {
        let m: u64 = self.abs_millionths();
        if self.millionths < 0 {
            proof {
                reveal_strlit("-");
            }
            out.append("-");
        }
        append_nat(out, m / 1_000_000);
        let f: u64 = m % 1_000_000;
        if f != 0 {
            proof {
                reveal_strlit(".");
            }
            out.append(".");
            append_fraction_digits(out, f, TENTH);
        }
        assert(out@ =~= old(out)@ + self.text());
    }

    /// The number in the notation used in markup: `5` for five, `-0.5` for
    /// minus one half.
    pub fn to_string(&self) -> (s: String)
        ensures
            s@ == self.text(),
    {
        let mut s = String::new();
        self.append_to(&mut s);
        assert(s@ =~= self.text());
        s
    }

    /// Appends the diagnostic notation of the number to `out`.
    pub fn append_debug_to(&self, out: &mut String)
        ensures
            final(out)@ == old(out)@ + self.debug_text(),
    {
        self.append_to(out);
        if self.abs_millionths() % 1_000_000 == 0 {
            proof {
                reveal_strlit(".0");
            }
            out.append(".0");
        }
        assert(out@ =~= old(out)@ + self.debug_text());
    }

    /// The number in the notation used in diagnostics: `5.0` for five.
    pub fn to_debug_string(&self) -> (s: String)
        ensures
            s@ == self.debug_text(),
    {
        let mut s = String::new();
        self.append_debug_to(&mut s);
        assert(s@ =~= self.debug_text());
        s
    }
}

/// The digits of `whole`, behind a minus sign if `v` is negative.
pub open spec fn int_text_signed(v: int, whole: nat) -> Seq<char> {
    if v < 0 {
        seq!['-'] + nat_text(whole)
    } else {
        nat_text(whole)
    }
}

/// Decimal notation of an integer: a minus sign for negative numbers, then
/// the digits.
pub open spec fn int_text(n: int) -> Seq<char> {
    int_text_signed(n, magnitude(n))
}

/// A whole number is written as the integer that it is, without a decimal
/// point: its notation for diagnostics is the same with `.0` behind it.
pub proof fn lemma_whole_number_text(n: int)
    ensures
        decimal_text(n * SCALE) == int_text(n),
        forall|i: int| 0 <= i < int_text(n).len() ==> #[trigger] int_text(n)[i] != '.',
        decimal_debug_text(n * SCALE) == int_text(n) + seq!['.', '0'],
{
    let m = magnitude(n * SCALE);
    assert(m == magnitude(n) * SCALE) by (nonlinear_arith)
        requires
            m == magnitude(n * SCALE),
    ;
    assert(m / (SCALE as nat) == magnitude(n) && m % (SCALE as nat) == 0) by (nonlinear_arith)
        requires
            m == magnitude(n) * SCALE,
    ;
    assert(n * SCALE < 0 <==> n < 0) by (nonlinear_arith);
    assert(decimal_text(n * SCALE) =~= int_text(n));
    lemma_nat_text_is_digits(magnitude(n));
}

/// The digits behind the decimal point never end in a zero, and there is at
/// least one of them where the fraction is not zero.
pub proof fn lemma_fraction_digits_end(f: nat, weight: nat)
    requires
        is_digit_weight(weight),
        0 < f < 10 * weight,
    ensures
        fraction_digits(f, weight).len() > 0,
        fraction_digits(f, weight).last() != '0',
        forall|i: int|
            0 <= i < fraction_digits(f, weight).len() ==> '0' <= #[trigger] fraction_digits(
                f,
                weight,
            )[i] <= '9',
    decreases weight,
{
    let rest = f % weight;
    let tail = fraction_digits(rest, weight / 10);
    assert(fraction_digits(f, weight) =~= seq![digit_char((f / weight) as int)] + tail);
    if rest == 0 {
        assert(tail =~= Seq::<char>::empty());
        assert(f / weight > 0) by (nonlinear_arith)
            requires
                f > 0,
                weight > 0,
                f % weight == 0,
        ;
    } else {
        assert(weight >= 10);
        lemma_fraction_digits_end(rest, weight / 10);
        assert(fraction_digits(f, weight).last() == tail.last());
    }
}

/// A number that is not whole is written with a decimal point and ends in
/// a digit that is not zero: no digit is written that the number does not
/// need.
pub proof fn lemma_fraction_ends_in_a_significant_digit(v: int)
    requires
        magnitude(v) % (SCALE as nat) != 0,
    ensures
        decimal_text(v) == int_text_signed(v, magnitude(v) / (SCALE as nat)) + seq!['.']
            + fraction_digits(magnitude(v) % (SCALE as nat), TENTH as nat),
        '1' <= decimal_text(v).last() <= '9',
        decimal_debug_text(v) == decimal_text(v),
{
    let f = magnitude(v) % (SCALE as nat);
    lemma_fraction_digits_end(f, TENTH as nat);
    assert(decimal_text(v) =~= int_text_signed(v, magnitude(v) / (SCALE as nat)) + seq!['.']
        + fraction_digits(f, TENTH as nat));
    assert(decimal_text(v).last() == fraction_digits(f, TENTH as nat).last());
}

/// The count of millionths that a decimal notation denotes, given the digits
/// in front of the decimal point and those behind it.
pub open spec fn denoted_millionths(whole: Seq<char>, fraction: Seq<char>) -> nat {
    digits_value(whole) * (SCALE as nat) + digits_value(fraction) * (SCALE as nat) / pow10(
        fraction.len(),
    )
}

/// The digits behind the decimal point, read as a number, are to ten to
/// the power of their count as the fraction is to ten times the weight of
/// the first of them.
pub proof fn lemma_fraction_digits_value(f: nat, weight: nat)
    requires
        is_digit_weight(weight),
        f < 10 * weight,
    ensures
        all_digits(fraction_digits(f, weight)),
        pow10(fraction_digits(f, weight).len()) <= 10 * weight,
        digits_value(fraction_digits(f, weight)) * (10 * weight) == f * pow10(
            fraction_digits(f, weight).len(),
        ),
    decreases weight,
{
    let digits = fraction_digits(f, weight);
    if f == 0 {
        assert(digits =~= Seq::<char>::empty());
        assert(digits_value(digits) == 0);
        assert(pow10(0) == 1);
    } else {
        let d = f / weight;
        let rest = f % weight;
        let tail = fraction_digits(rest, weight / 10);
        let c = digit_char(d as int);
        assert(digits =~= seq![c] + tail);
        assert(d < 10 && f == d * weight + rest) by (nonlinear_arith)
            requires
                d == f / weight,
                rest == f % weight,
                f < 10 * weight,
                weight > 0,
        ;
        assert(digit_value(c) == d);
        lemma_digits_value_prepend(c, tail);
        let tens = pow10(tail.len());
        assert(pow10(digits.len()) == 10 * tens);
        if weight >= 10 {
            lemma_fraction_digits_value(rest, weight / 10);
            assert(10 * (weight / 10) == weight);
        } else {
            assert(rest == 0);
            assert(tail =~= Seq::<char>::empty());
            assert(digits_value(tail) == 0);
            assert(tens == 1);
        }
        assert(digits_value(tail) * weight == rest * tens);
        assert((d * tens + digits_value(tail)) * (10 * weight) == (d * weight + rest) * (10
            * tens)) by (nonlinear_arith)
            requires
                digits_value(tail) * weight == rest * tens,
        ;
        assert forall|i: int| 0 <= i < digits.len() implies super::text::is_digit(
            #[trigger] digits[i],
        ) by {
            if i > 0 {
                assert(digits[i] == tail[i - 1]);
            }
        }
    }
}

/// The notation of a number denotes that number: it is the minus sign of a
/// negative number, then the digits of the whole part, then, where there is
/// a fractional part, the decimal point and at most six digits; and read as
/// a decimal fraction these digits give back the number's magnitude.
pub proof fn lemma_text_denotes_the_number(v: int)
    ensures
        ({
            let m = magnitude(v);
            let whole = nat_text(m / (SCALE as nat));
            let fraction = fraction_digits(m % (SCALE as nat), TENTH as nat);
            &&& decimal_text(v) == int_text_signed(v, m / (SCALE as nat)) + (if fraction.len()
                == 0 {
                Seq::<char>::empty()
            } else {
                seq!['.'] + fraction
            })
            &&& all_digits(whole)
            &&& all_digits(fraction)
            &&& fraction.len() <= 6
            &&& denoted_millionths(whole, fraction) == m
        }),
{
    let m = magnitude(v);
    let f = m % (SCALE as nat);
    let whole = nat_text(m / (SCALE as nat));
    let fraction = fraction_digits(f, TENTH as nat);
    lemma_nat_text_value(m / (SCALE as nat));
    lemma_fraction_digits_value(f, TENTH as nat);
    let tens = pow10(fraction.len());
    assert(fraction.len() <= 6) by {
        reveal_with_fuel(pow10, 8);
        if fraction.len() >= 7 {
            assert(pow10(fraction.len()) >= pow10(7)) by {
                lemma_pow10_grows(7, fraction.len());
            }
        }
    }
    assert(tens > 0) by {
        lemma_pow10_grows(0, fraction.len());
    }
    assert(digits_value(fraction) * (SCALE as nat) / tens == f) by (nonlinear_arith)
        requires
            digits_value(fraction) * (SCALE as nat) == f * tens,
            tens > 0,
    ;
    if f == 0 {
        assert(fraction =~= Seq::<char>::empty());
    } else {
        lemma_fraction_digits_end(f, TENTH as nat);
    }
    assert(decimal_text(v) =~= int_text_signed(v, m / (SCALE as nat)) + (if fraction.len() == 0 {
        Seq::<char>::empty()
    } else {
        seq!['.'] + fraction
    }));
    assert((m / 1_000_000) * 1_000_000 + m % 1_000_000 == m);
}

/// A higher power of ten is no smaller.
pub proof fn lemma_pow10_grows(j: nat, k: nat)
    requires
        j <= k,
    ensures
        1 <= pow10(j) <= pow10(k),
    decreases k,
{
    if k > 0 {
        if j < k {
            lemma_pow10_grows(j, (k - 1) as nat);
        } else {
            lemma_pow10_grows((j - 1) as nat, (k - 1) as nat);
        }
    }
}

/// Whether `weight` is one of the six digit weights behind the decimal point.
pub open spec fn is_digit_weight(weight: nat) -> bool {
    weight == 100_000 || weight == 10_000 || weight == 1_000 || weight == 100 || weight == 10
        || weight == 1
}

/// Appends the digits of the fraction `f`, the next of which weighs `weight`.
fn append_fraction_digits(out: &mut String, f: u64, weight: u64)
    requires
        is_digit_weight(weight as nat),
        f < 10 * weight,
    ensures
        final(out)@ == old(out)@ + fraction_digits(f as nat, weight as nat),
    decreases weight,
{
    if f != 0 {
        let d: u8 = (f / weight) as u8;
        out.append(digit_str(d));
        let rest: u64 = f % weight;
        if weight >= 10 {
            append_fraction_digits(out, rest, weight / 10);
        } else {
            assert(rest == 0);
        }
    }
    assert(out@ =~= old(out)@ + fraction_digits(f as nat, weight as nat));
}

} // verus!
