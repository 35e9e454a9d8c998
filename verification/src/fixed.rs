//! Saturating decimal fixed-point numbers.

use vstd::arithmetic::div_mod::{lemma_div_pos_is_pos, lemma_fundamental_div_mod, lemma_mod_bound};
use vstd::prelude::*;
use vstd::string::StringExecFns;

verus! {

/// Number of raw units in one whole unit.
pub const SCALE: i64 = 1_000_000;

/// A signed fixed-point number with six decimal places.
///
/// `raw` counts millionths, so the number one is `Fixed { raw: 1_000_000 }`.
/// Specifications speak of a `Fixed` through its view, the raw count as an `int`.
#[derive(Clone, Copy, Debug, PartialEq, Eq, Structural)]
pub struct Fixed {
    pub raw: i64,
}

impl View for Fixed {
    type V = int;

    open spec fn view(&self) -> int {
        self.raw as int
    }
}

/// Absolute value of an integer.
pub open spec fn magnitude(x: int) -> int {
    if x < 0 {
        -x
    } else {
        x
    }
}

/// Whether a raw count fits a `Fixed`.
pub open spec fn representable(x: int) -> bool {
    i64::MIN <= x <= i64::MAX
}

/// The nearest raw count that a `Fixed` can hold.
pub open spec fn saturate(x: int) -> int {
    if x > i64::MAX {
        i64::MAX as int
    } else if x < i64::MIN {
        i64::MIN as int
    } else {
        x
    }
}

/// Integer quotient rounded toward zero. Meaningful for `d != 0`.
pub open spec fn quotient(n: int, d: int) -> int
    recommends
        d != 0,
{
    if (n < 0) == (d < 0) {
        magnitude(n) / magnitude(d)
    } else {
        -(magnitude(n) / magnitude(d))
    }
}

/// Raw count of the saturated sum of two fixed-point numbers.
pub open spec fn sum(a: int, b: int) -> int {
    saturate(a + b)
}

/// Raw count of the saturated difference of two fixed-point numbers.
pub open spec fn difference(a: int, b: int) -> int {
    saturate(a - b)
}

/// Raw count of the fixed-point product: the exact product of the two numbers,
/// rounded toward zero to a millionth, then saturated.
pub open spec fn product(a: int, b: int) -> int {
    saturate(quotient(a * b, SCALE as int))
}

/// Raw count of the fixed-point ratio: the exact quotient of the two numbers,
/// rounded toward zero to a millionth, then saturated.
///
/// Division by zero saturates as well, as the limit of ever smaller divisors
/// would: a positive number over zero is the largest value, a negative number
/// over zero the smallest, and zero over zero is zero.
pub open spec fn ratio(a: int, b: int) -> int {
    if b != 0 {
        saturate(quotient(a * SCALE, b))
    } else if a > 0 {
        i64::MAX as int
    } else if a < 0 {
        i64::MIN as int
    } else {
        0
    }
}

/// Brings a wide intermediate result back into the range of a `Fixed`.
fn narrow(x: i128) -> (r: Fixed)
    ensures
        r@ == saturate(x as int),
{
    if x > i64::MAX as i128 {
        Fixed { raw: i64::MAX }
    } else if x < i64::MIN as i128 {
        Fixed { raw: i64::MIN }
    } else {
        Fixed { raw: x as i64 }
    }
}

/// Quotient rounded toward zero of a wide numerator by a nonzero divisor.
fn divide(n: i128, d: i64) -> (q: i128)
    requires
        d != 0,
        -0x4000_0000_0000_0000_0000_0000_0000_0000 <= n <= 0x4000_0000_0000_0000_0000_0000_0000_0000,
    ensures
        q == quotient(n as int, d as int),
{
    let un: u128 = if n < 0 { (-n) as u128 } else { n as u128 };
    let ud: u128 = if d < 0 { (-(d as i128)) as u128 } else { d as u128 };
    let uq: u128 = un / ud;
    if (n < 0) == (d < 0) {
        uq as i128
    } else {
        -(uq as i128)
    }
}

/// The character of a decimal digit.
pub open spec fn digit(d: int) -> char
    recommends
        0 <= d <= 9,
{
    if d == 0 {
        '0'
    } else if d == 1 {
        '1'
    } else if d == 2 {
        '2'
    } else if d == 3 {
        '3'
    } else if d == 4 {
        '4'
    } else if d == 5 {
        '5'
    } else if d == 6 {
        '6'
    } else if d == 7 {
        '7'
    } else if d == 8 {
        '8'
    } else {
        '9'
    }
}

/// The decimal digits of a natural number, most significant first, with no
/// leading zero except for zero itself.
pub open spec fn digits(n: nat) -> Seq<char>
    decreases n,
{
    if n < 10 {
        seq![digit(n as int)]
    } else {
        digits(n / 10).push(digit((n % 10) as int))
    }
}

/// The last `width` decimal digits of `f`, most significant first, with
/// leading zeros where `f` has fewer.
pub open spec fn padded(f: nat, width: nat) -> Seq<char>
    decreases width,
{
    if width == 0 {
        Seq::<char>::empty()
    } else {
        padded(f / 10, (width - 1) as nat).push(digit((f % 10) as int))
    }
}

/// The digits behind the point of a fraction of `f` parts in ten to the
/// `width`: the `width` digits of `f` without the zeros at their end. A zero
/// fraction has no digits.
pub open spec fn fraction(f: nat, width: nat) -> Seq<char>
    decreases width,
{
    if width == 0 {
        Seq::<char>::empty()
    } else if f % 10 == 0 {
        fraction(f / 10, (width - 1) as nat)
    } else {
        padded(f, width)
    }
}

/// The shortest decimal text of a raw count: a minus sign for a negative
/// number, the whole part and, only when the fraction is not zero, a point
/// and the fraction without zeros at its end. Zero is `0`, three tenths
/// `0.3`, minus one `-1`.
pub open spec fn decimal(x: int) -> Seq<char> {
    let whole = (magnitude(x) / SCALE as int) as nat;
    let part = (magnitude(x) % SCALE as int) as nat;
    let sign = if x < 0 {
        seq!['-']
    } else {
        Seq::<char>::empty()
    };
    let tail = if part == 0 {
        Seq::<char>::empty()
    } else {
        seq!['.'] + fraction(part, 6)
    };
    sign + digits(whole) + tail
}

/// Rounding toward zero: the quotient times the divisor is no farther from
/// zero than the numerator, and misses it by less than the divisor.
pub proof fn lemma_quotient_rounding(n: int, d: int)
    requires
        d != 0,
    ensures
        magnitude(quotient(n, d) * d) <= magnitude(n),
        magnitude(n - quotient(n, d) * d) < magnitude(d),
{
    let m = magnitude(n);
    let k = magnitude(d);
    let q = m / k;
    lemma_fundamental_div_mod(m, k);
    lemma_mod_bound(m, k);
    lemma_div_pos_is_pos(m, k);
    assert(q * k == k * q && (-q) * k == -(k * q) && q * (-k) == -(k * q) && (-q) * (-k) == k * q)
        by (nonlinear_arith);
    assert(0 <= k * q) by (nonlinear_arith)
        requires
            0 <= q,
            0 < k,
    ;
}

/// A product that stays in range is the exact product rounded toward zero:
/// in millionths of a raw unit it is no farther from zero than the exact
/// product and misses it by less than one raw unit.
pub proof fn lemma_product_rounding(a: int, b: int)
    requires
        i64::MIN <= quotient(a * b, SCALE as int) <= i64::MAX,
    ensures
        magnitude(product(a, b) * SCALE) <= magnitude(a * b),
        magnitude(a * b - product(a, b) * SCALE) < SCALE,
{
    lemma_quotient_rounding(a * b, SCALE as int);
}

/// A ratio that stays in range is the exact quotient rounded toward zero:
/// multiplied back by the divisor it is no farther from zero than the
/// numerator and misses it by less than the divisor.
pub proof fn lemma_ratio_rounding(a: int, b: int)
    requires
        b != 0,
        i64::MIN <= quotient(a * SCALE, b) <= i64::MAX,
    ensures
        magnitude(ratio(a, b) * b) <= magnitude(a * SCALE),
        magnitude(a * SCALE - ratio(a, b) * b) < magnitude(b),
{
    lemma_quotient_rounding(a * SCALE, b);
}

/// The text of one decimal digit.
fn digit_text(d: u64) -> (t: &'static str)
    requires
        d <= 9,
    ensures
        t@ == seq![digit(d as int)],
{
    proof {
        reveal_strlit("0");
        reveal_strlit("1");
        reveal_strlit("2");
        reveal_strlit("3");
        reveal_strlit("4");
        reveal_strlit("5");
        reveal_strlit("6");
        reveal_strlit("7");
        reveal_strlit("8");
        reveal_strlit("9");
    }
    let t = if d == 0 {
        "0"
    } else if d == 1 {
        "1"
    } else if d == 2 {
        "2"
    } else if d == 3 {
        "3"
    } else if d == 4 {
        "4"
    } else if d == 5 {
        "5"
    } else if d == 6 {
        "6"
    } else if d == 7 {
        "7"
    } else if d == 8 {
        "8"
    } else {
        "9"
    };
    assert(t@ =~= seq![digit(d as int)]);
    t
}

/// Appends the decimal digits of `n` to `out`.
fn push_digits(out: &mut String, n: u64)
    ensures
        final(out)@ == old(out)@ + digits(n as nat),
    decreases n,
{
    if n >= 10 {
        push_digits(out, n / 10);
    }
    out.append(digit_text(n % 10));
    assert(final(out)@ =~= old(out)@ + digits(n as nat));
}

/// Appends the last `width` decimal digits of `f` to `out`.
fn push_padded(out: &mut String, f: u64, width: u32)
    ensures
        final(out)@ == old(out)@ + padded(f as nat, width as nat),
    decreases width,
{
    if width > 0 {
        push_padded(out, f / 10, width - 1);
        out.append(digit_text(f % 10));
    }
    assert(final(out)@ =~= old(out)@ + padded(f as nat, width as nat));
}

/// Appends the `width` digits of `f` without the zeros at their end.
fn push_fraction(out: &mut String, f: u64, width: u32)
    ensures
        final(out)@ == old(out)@ + fraction(f as nat, width as nat),
    decreases width,
{
    if width == 0 {
        assert(final(out)@ =~= old(out)@ + fraction(f as nat, width as nat));
    } else if f % 10 == 0 {
        push_fraction(out, f / 10, width - 1);
    } else {
        push_padded(out, f, width);
    }
}

impl Fixed {
    /// The number zero.
    pub fn zero() -> (r: Fixed)
        ensures
            r@ == 0,
    {
        Fixed { raw: 0 }
    }

    /// The whole number `units`.
    pub fn from_int(units: i32) -> (r: Fixed)
        ensures
            r@ == units * SCALE,
    {
        Fixed { raw: (units as i64) * SCALE }
    }

    /// Saturating addition.
    pub fn sat_add(self, rhs: Fixed) -> (r: Fixed)
        ensures
            r@ == sum(self@, rhs@),
    {
        narrow(self.raw as i128 + rhs.raw as i128)
    }

    /// Saturating subtraction.
    pub fn sat_sub(self, rhs: Fixed) -> (r: Fixed)
        ensures
            r@ == difference(self@, rhs@),
    {
        narrow(self.raw as i128 - rhs.raw as i128)
    }

    /// Saturating multiplication, rounded toward zero.
    pub fn sat_mul(self, rhs: Fixed) -> (r: Fixed)
        ensures
            r@ == product(self@, rhs@),
    {
        let a: i128 = self.raw as i128;
        let b: i128 = rhs.raw as i128;
        assert(-0x4000_0000_0000_0000_0000_0000_0000_0000 <= a * b
            <= 0x4000_0000_0000_0000_0000_0000_0000_0000) by (nonlinear_arith)
            requires
                -0x8000_0000_0000_0000 <= a <= 0x8000_0000_0000_0000,
                -0x8000_0000_0000_0000 <= b <= 0x8000_0000_0000_0000,
        ;
        narrow(divide(a * b, SCALE))
    }

    /// Saturating division, rounded toward zero. A zero divisor gives the
    /// largest value, the smallest value or zero, by the sign of `self`.
    pub fn sat_div(self, rhs: Fixed) -> (r: Fixed)
        ensures
            r@ == ratio(self@, rhs@),
    {
        if rhs.raw == 0 {
            return if self.raw > 0 {
                Fixed { raw: i64::MAX }
            } else if self.raw < 0 {
                Fixed { raw: i64::MIN }
            } else {
                Fixed { raw: 0 }
            };
        }
        let a: i128 = self.raw as i128;
        let scale: i128 = SCALE as i128;
        assert(-0x4000_0000_0000_0000_0000_0000_0000_0000 <= a * scale
            <= 0x4000_0000_0000_0000_0000_0000_0000_0000) by (nonlinear_arith)
            requires
                -0x8000_0000_0000_0000 <= a <= 0x8000_0000_0000_0000,
                scale == 1_000_000,
        ;
        narrow(divide(a * scale, rhs.raw))
    }

    /// Appends the shortest decimal text of the number to `out`.
    pub fn write_decimal(self, out: &mut String)
        ensures
            final(out)@ == old(out)@ + decimal(self@),
    {
        let m: u64 = if self.raw < 0 {
            (-(self.raw as i128)) as u64
        } else {
            self.raw as u64
        };
        proof {
            reveal_strlit("-");
            reveal_strlit(".");
        }
        if self.raw < 0 {
            out.append("-");
        }
        let scale: u64 = SCALE as u64;
        push_digits(out, m / scale);
        if m % scale != 0 {
            out.append(".");
            push_fraction(out, m % scale, 6);
        }
        assert(final(out)@ =~= old(out)@ + decimal(self@));
    }

    /// The shortest decimal text of the number: no point for a whole
    /// number, no zeros at the end of a fraction.
    pub fn to_decimal_string(self) -> (text: String)
        ensures
            text@ == decimal(self@),
    {
        let mut text = String::new();
        self.write_decimal(&mut text);
        assert(text@ =~= decimal(self@));
        text
    }
}

} // verus!
