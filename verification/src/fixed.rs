//! Decimal numbers with nine fractional digits.
//!
//! A [`Fixed`] holds a quantity as a whole number of billionths. Sums,
//! differences, products and quotients are exact up to the ninth fractional
//! digit: products and quotients drop what lies beyond it (rounding toward
//! zero), and a result outside the representable range sticks to the nearest
//! end of the range.

use vstd::prelude::*;
use crate::text::{all_digits, digit_value, digits_value, find, find_text, is_digit, slice_chars};

verus! {

/// Number of raw units in one whole.
pub const SCALE: i64 = 1_000_000_000;

/// A decimal number held as a count of billionths.
#[derive(Clone, Copy, Debug, PartialEq, Eq, Structural)]
pub struct Fixed {
    pub raw: i64,
}

/// The nearest representable raw value to `x`.
pub open spec fn clamp(x: int) -> int {
    if x < i64::MIN {
        i64::MIN as int
    } else if x > i64::MAX {
        i64::MAX as int
    } else {
        x
    }
}

/// The absolute value of `x`.
pub open spec fn magnitude(x: int) -> int {
    if x < 0 {
        -x
    } else {
        x
    }
}

/// The quotient of `n` by `d`, rounded toward zero. Zero when `d` is zero.
pub open spec fn trunc_div(n: int, d: int) -> int {
    if d == 0 {
        0
    } else if (n < 0) == (d < 0) {
        magnitude(n) / magnitude(d)
    } else {
        -(magnitude(n) / magnitude(d))
    }
}

/// The raw value of the quotient of `a` by `b`: the truncated quotient where
/// `b` is not zero; otherwise the end of the range on the side of `a`, and
/// zero for zero.
pub open spec fn quotient_raw(a: int, b: int) -> int {
    if b != 0 {
        clamp(trunc_div(a * SCALE, b))
    } else if a > 0 {
        i64::MAX as int
    } else if a < 0 {
        i64::MIN as int
    } else {
        0
    }
}

/// `x` rounded to the nearest multiple of `step`, halves away from zero.
pub open spec fn round_to_step(x: int, step: int) -> int {
    if x >= 0 {
        ((x + step / 2) / step) * step
    } else {
        -(((-x + step / 2) / step) * step)
    }
}

fn magnitude_of(x: i64) -> (m: u128)
    ensures
        m == magnitude(x as int),
        m <= 0x8000_0000_0000_0000,
{
    if x < 0 {
        let wide: i128 = -(x as i128);
        wide as u128
    } else {
        x as u128
    }
}

fn from_sign_magnitude(negative: bool, m: u128) -> (r: Fixed)
    ensures
        r.raw == clamp(if negative { -(m as int) } else { m as int }),
{
    if negative {
        if m >= 0x8000_0000_0000_0000 {
            Fixed { raw: i64::MIN }
        } else {
            let small: i64 = m as i64;
            Fixed { raw: -small }
        }
    } else {
        if m > 0x7fff_ffff_ffff_ffff {
            Fixed { raw: i64::MAX }
        } else {
            Fixed { raw: m as i64 }
        }
    }
}

proof fn lemma_signed_product(a: int, b: int)
    ensures
        magnitude(a * b) == magnitude(a) * magnitude(b),
        (a < 0) != (b < 0) ==> a * b <= 0,
        (a < 0) == (b < 0) ==> a * b >= 0,
{
    assert(magnitude(a * b) == magnitude(a) * magnitude(b)) by (nonlinear_arith);
    assert((a < 0) != (b < 0) ==> a * b <= 0) by (nonlinear_arith);
    assert((a < 0) == (b < 0) ==> a * b >= 0) by (nonlinear_arith);
}

impl Fixed {
    /// The sum, kept within the range.
    #[verifier::opaque]
    pub open spec fn spec_plus(self, other: Fixed) -> Fixed {
        Fixed { raw: clamp(self.raw + other.raw) as i64 }
    }

    /// The difference, kept within the range.
    #[verifier::opaque]
    pub open spec fn spec_minus(self, other: Fixed) -> Fixed {
        Fixed { raw: clamp(self.raw - other.raw) as i64 }
    }

    /// The product, rounded toward zero and kept within the range.
    #[verifier::opaque]
    pub open spec fn spec_times(self, other: Fixed) -> Fixed {
        Fixed { raw: clamp(trunc_div(self.raw * other.raw, SCALE as int)) as i64 }
    }

    /// The quotient, rounded toward zero and kept within the range.
    #[verifier::opaque]
    pub open spec fn spec_over(self, other: Fixed) -> Fixed {
        Fixed { raw: quotient_raw(self.raw as int, other.raw as int) as i64 }
    }

    /// The absolute value, kept within the range.
    pub open spec fn spec_abs(self) -> Fixed {
        Fixed { raw: clamp(magnitude(self.raw as int)) as i64 }
    }

    /// The whole number `n`, kept within the range.
    pub open spec fn spec_from_int(n: int) -> Fixed {
        Fixed { raw: clamp(n * SCALE) as i64 }
    }

    /// The number rounded to one fractional digit, halves away from zero.
    pub open spec fn spec_round_tenth(self) -> Fixed {
        Fixed { raw: clamp(round_to_step(self.raw as int, SCALE as int / 10)) as i64 }
    }

    /// Whether the number rounds to zero as a whole number.
    pub open spec fn spec_rounds_to_zero(self) -> bool {
        -(SCALE / 2) < self.raw < SCALE / 2
    }

    /// The larger of the two numbers.
    pub open spec fn spec_larger(self, other: Fixed) -> Fixed {
        if self.raw >= other.raw {
            self
        } else {
            other
        }
    }

    /// The smaller of the two numbers.
    pub open spec fn spec_smaller(self, other: Fixed) -> Fixed {
        if self.raw <= other.raw {
            self
        } else {
            other
        }
    }

    /// The larger of the two numbers.
    pub fn larger(self, other: Fixed) -> (r: Fixed)
        ensures
            r == self.spec_larger(other),
    {
        if self.raw >= other.raw {
            self
        } else {
            other
        }
    }

    /// The smaller of the two numbers.
    pub fn smaller(self, other: Fixed) -> (r: Fixed)
        ensures
            r == self.spec_smaller(other),
    {
        if self.raw <= other.raw {
            self
        } else {
            other
        }
    }

    /// One.
    pub fn one() -> (r: Fixed)
        ensures
            r.raw == SCALE,
    {
        Fixed { raw: SCALE }
    }

    /// The count `n` as a number.
    pub fn from_count(n: usize) -> (r: Fixed)
        ensures
            r == Fixed::spec_from_int(n as int),
    {
        if n as u64 > 9_223_372_036u64 {
            assert(n * 1_000_000_000 > i64::MAX) by (nonlinear_arith)
                requires
                    n > 9_223_372_036,
            ;
            Fixed { raw: i64::MAX }
        } else {
            assert(n * 1_000_000_000 <= i64::MAX) by (nonlinear_arith)
                requires
                    n <= 9_223_372_036,
            ;
            Fixed { raw: (n as i64) * SCALE }
        }
    }

    /// Zero.
    pub fn zero() -> (r: Fixed)
        ensures
            r.raw == 0,
    {
        Fixed { raw: 0 }
    }

    /// The number with the given count of billionths.
    pub fn from_raw(raw: i64) -> (r: Fixed)
        ensures
            r.raw == raw,
    {
        Fixed { raw }
    }

    /// The whole number `n`.
    pub fn from_int(n: i64) -> (r: Fixed)
        ensures
            r == Fixed::spec_from_int(n as int),
    {
        assert(-0x8000_0000_0000_0000 * 1_000_000_000 <= n * 1_000_000_000
            <= 0x8000_0000_0000_0000 * 1_000_000_000) by (nonlinear_arith)
            requires
                -0x8000_0000_0000_0000 <= n <= 0x8000_0000_0000_0000,
        ;
        let wide: i128 = (n as i128) * (SCALE as i128);
        if wide > i64::MAX as i128 {
            Fixed { raw: i64::MAX }
        } else if wide < i64::MIN as i128 {
            Fixed { raw: i64::MIN }
        } else {
            Fixed { raw: wide as i64 }
        }
    }

    /// Adds `other`.
    pub fn plus(self, other: Fixed) -> (r: Fixed)
        ensures
            r == self.spec_plus(other),
    {
        reveal(Fixed::spec_plus);
        let wide: i128 = self.raw as i128 + other.raw as i128;
        if wide > i64::MAX as i128 {
            Fixed { raw: i64::MAX }
        } else if wide < i64::MIN as i128 {
            Fixed { raw: i64::MIN }
        } else {
            Fixed { raw: wide as i64 }
        }
    }

    /// Subtracts `other`.
    pub fn minus(self, other: Fixed) -> (r: Fixed)
        ensures
            r == self.spec_minus(other),
    {
        reveal(Fixed::spec_minus);
        let wide: i128 = self.raw as i128 - other.raw as i128;
        if wide > i64::MAX as i128 {
            Fixed { raw: i64::MAX }
        } else if wide < i64::MIN as i128 {
            Fixed { raw: i64::MIN }
        } else {
            Fixed { raw: wide as i64 }
        }
    }

    /// Multiplies by `other`.
    pub fn times(self, other: Fixed) -> (r: Fixed)
        ensures
            r == self.spec_times(other),
    {
        reveal(Fixed::spec_times);
        let negative = (self.raw < 0) != (other.raw < 0);
        let a = magnitude_of(self.raw);
        let b = magnitude_of(other.raw);
        proof {
            lemma_signed_product(self.raw as int, other.raw as int);
            assert(a * b <= 0x8000_0000_0000_0000 * 0x8000_0000_0000_0000) by (nonlinear_arith)
                requires
                    a <= 0x8000_0000_0000_0000,
                    b <= 0x8000_0000_0000_0000,
            ;
        }
        let q: u128 = (a * b) / (SCALE as u128);
        from_sign_magnitude(negative, q)
    }

    /// Divides by `other`.
    pub fn over(self, other: Fixed) -> (r: Fixed)
        ensures
            r == self.spec_over(other),
    {
        reveal(Fixed::spec_over);
        if other.raw == 0 {
            if self.raw > 0 {
                Fixed { raw: i64::MAX }
            } else if self.raw < 0 {
                Fixed { raw: i64::MIN }
            } else {
                Fixed { raw: 0 }
            }
        } else {
            let negative = (self.raw < 0) != (other.raw < 0);
            let a = magnitude_of(self.raw);
            let b = magnitude_of(other.raw);
            proof {
                lemma_signed_product(self.raw as int, SCALE as int);
            }
            let q: u128 = (a * (SCALE as u128)) / b;
            from_sign_magnitude(negative, q)
        }
    }

    /// The absolute value.
    pub fn abs(self) -> (r: Fixed)
        ensures
            r == self.spec_abs(),
    {
        let m = magnitude_of(self.raw);
        from_sign_magnitude(false, m)
    }

    /// Rounds to one fractional digit, halves away from zero.
    pub fn round_tenth(self) -> (r: Fixed)
        ensures
            r == self.spec_round_tenth(),
    {
        let step: u128 = (SCALE / 10) as u128;
        let m = magnitude_of(self.raw);
        let rounded: u128 = ((m + step / 2) / step) * step;
        from_sign_magnitude(self.raw < 0, rounded)
    }

    /// Whether the number rounds to zero as a whole number.
    pub fn rounds_to_zero(self) -> (b: bool)
        ensures
            b == self.spec_rounds_to_zero(),
    {
        -(SCALE / 2) < self.raw && self.raw < SCALE / 2
    }
}

/// The whole part of a decimal text from which every larger one reads as the
/// end of the range.
pub const WHOLE_CAP: u128 = 10_000_000_000;

/// The billionths that the first `places` fractional digits of `frac` write,
/// a missing digit counting as zero.
pub open spec fn fraction_value(frac: Seq<char>, places: nat) -> int
    decreases places,
{
    if places == 0 {
        0
    } else {
        let k = (places - 1) as nat;
        fraction_value(frac, k) * 10 + if k < frac.len() {
            digit_value(frac[k as int])
        } else {
            0
        }
    }
}

/// The number that the unsigned decimal text `body` writes: digits, then
/// optionally a point and more digits, with a digit on at least one side.
/// Fractional digits beyond the ninth are dropped.
pub open spec fn unsigned_decimal(body: Seq<char>) -> Option<int> {
    let (whole, frac) = match find_text(body, seq!['.']) {
        Some(i) => (body.take(i), body.skip(i + 1)),
        None => (body, Seq::<char>::empty()),
    };
    if all_digits(whole) && all_digits(frac) && whole.len() + frac.len() >= 1 {
        Some(digits_value(whole) * SCALE + fraction_value(frac, 9))
    } else {
        None
    }
}

/// The number that the decimal text `s` writes: an optional sign, then an
/// unsigned decimal. A number outside the range reads as the nearest end.
pub open spec fn decimal_of(s: Seq<char>) -> Option<Fixed> {
    let signed = s.len() > 0 && (s[0] == '-' || s[0] == '+');
    let body = if signed {
        s.skip(1)
    } else {
        s
    };
    match unsigned_decimal(body) {
        Some(m) => Some(
            Fixed {
                raw: clamp(
                    if signed && s[0] == '-' {
                        -m
                    } else {
                        m
                    },
                ) as i64,
            },
        ),
        None => None,
    }
}

/// The number that the digits `s` write, kept at `WHOLE_CAP` once it reaches it.
fn read_whole(s: &Vec<char>) -> (r: Option<u128>)
    ensures
        r is Some <==> all_digits(s@),
        r matches Some(v) ==> v == if digits_value(s@) < WHOLE_CAP {
            digits_value(s@)
        } else {
            WHOLE_CAP as int
        },
{
    let mut acc: u128 = 0;
    let mut i: usize = 0;
    while i < s.len()
        invariant
            i <= s.len(),
            all_digits(s@.take(i as int)),
            acc <= WHOLE_CAP,
            0 <= digits_value(s@.take(i as int)),
            acc == if digits_value(s@.take(i as int)) < WHOLE_CAP {
                digits_value(s@.take(i as int))
            } else {
                WHOLE_CAP as int
            },
        decreases s.len() - i,
    {
        let c = s[i];
        let ghost seen = s@.take(i as int);
        let ghost next = s@.take(i + 1);
        proof {
            assert(next.drop_last() =~= seen);
            assert(next.last() == c);
        }
        if !(c >= '0' && c <= '9') {
            assert(!is_digit(s@[i as int]));
            return None;
        }
        let d: u128 = (c as u32 - '0' as u32) as u128;
        proof {
            assert forall|j: int| 0 <= j < next.len() implies is_digit(#[trigger] next[j]) by {
                if j < seen.len() {
                    assert(seen[j] == next[j]);
                }
            }
        }
        let wider: u128 = acc * 10 + d;
        acc = if wider > WHOLE_CAP {
            WHOLE_CAP
        } else {
            wider
        };
        i += 1;
    }
    proof {
        assert(s@.take(s.len() as int) =~= s@);
    }
    Some(acc)
}

/// The billionths that the fractional digits `s` write.
fn read_fraction(s: &Vec<char>) -> (r: Option<u128>)
    ensures
        r is Some <==> all_digits(s@),
        r matches Some(v) ==> v == fraction_value(s@, 9) && v < SCALE,
{
    let mut i: usize = 0;
    while i < s.len()
        invariant
            i <= s.len(),
            all_digits(s@.take(i as int)),
        decreases s.len() - i,
    {
        let c = s[i];
        let ghost seen = s@.take(i as int);
        let ghost next = s@.take(i + 1);
        if !(c >= '0' && c <= '9') {
            assert(!is_digit(s@[i as int]));
            return None;
        }
        proof {
            assert forall|j: int| 0 <= j < next.len() implies is_digit(#[trigger] next[j]) by {
                if j < seen.len() {
                    assert(seen[j] == next[j]);
                }
            }
        }
        i += 1;
    }
    proof {
        assert(s@.take(s.len() as int) =~= s@);
    }
    let mut acc: u128 = 0;
    let mut bound: u128 = 1;
    let mut k: usize = 0;
    while k < 9
        invariant
            k <= 9,
            all_digits(s@),
            acc == fraction_value(s@, k as nat),
            acc < bound,
            bound == ten_to(k as nat),
        decreases 9 - k,
    {
        let d: u128 = if k < s.len() {
            let c = s[k];
            assert(is_digit(s@[k as int]));
            (c as u32 - '0' as u32) as u128
        } else {
            0
        };
        proof {
            lemma_ten_to(k as nat);
            lemma_ten_to((k + 1) as nat);
        }
        acc = acc * 10 + d;
        bound = bound * 10;
        k += 1;
    }
    proof {
        lemma_ten_to(9);
    }
    Some(acc)
}

/// Ten to the power `k`.
pub open spec fn ten_to(k: nat) -> int
    decreases k,
{
    if k == 0 {
        1
    } else {
        10 * ten_to((k - 1) as nat)
    }
}

/// The powers of ten up to the ninth.
proof fn lemma_ten_to(k: nat)
    requires
        k <= 9,
    ensures
        1 <= ten_to(k) <= 1_000_000_000,
        k < 9 ==> ten_to(k) <= 100_000_000,
        k == 9 ==> ten_to(k) == 1_000_000_000,
        k > 0 ==> ten_to(k) == 10 * ten_to((k - 1) as nat),
{
    reveal_with_fuel(ten_to, 11);
    assert(ten_to(9) == 1_000_000_000);
    assert(ten_to(8) == 100_000_000);
    assert(ten_to(7) == 10_000_000);
    assert(ten_to(6) == 1_000_000);
    assert(ten_to(5) == 100_000);
    assert(ten_to(4) == 10_000);
    assert(ten_to(3) == 1_000);
    assert(ten_to(2) == 100);
    assert(ten_to(1) == 10);
    assert(ten_to(0) == 1);
}

impl Fixed {
    /// Reads a decimal text: an optional sign, digits, and optionally a point
    /// and more digits.
    pub fn parse(s: &Vec<char>) -> (r: Option<Fixed>)
        ensures
            r == decimal_of(s@),
    {
        let signed = s.len() > 0 && (s[0] == '-' || s[0] == '+');
        let negative = signed && s[0] == '-';
        let start: usize = if signed {
            1
        } else {
            0
        };
        let body = slice_chars(s, start, s.len());
        proof {
            assert(s@.subrange(start as int, s.len() as int) =~= s@.skip(start as int));
            assert(s@.skip(0) =~= s@);
        }
        let mut dot: Vec<char> = Vec::new();
        dot.push('.');
        assert(dot@ =~= seq!['.']);
        let (whole, frac) = match find(&body, &dot) {
            Some(i) => {
                proof {
                    assert(body@.subrange(0, i as int) =~= body@.take(i as int));
                    assert(body@.subrange(i + 1, body.len() as int) =~= body@.skip(i + 1));
                }
                (slice_chars(&body, 0, i), slice_chars(&body, i + 1, body.len()))
            },
            None => {
                proof {
                    assert(body@.subrange(0, body.len() as int) =~= body@);
                }
                (slice_chars(&body, 0, body.len()), Vec::new())
            },
        };
        let w = read_whole(&whole);
        let f = read_fraction(&frac);
        match (w, f) {
            (Some(w), Some(f)) => {
                if whole.len() == 0 && frac.len() == 0 {
                    None
                } else {
                    proof {
                        crate::text::lemma_digits_value_nonnegative(whole@);
                        assert(w * 1_000_000_000 <= 10_000_000_000 * 1_000_000_000)
                            by (nonlinear_arith)
                            requires
                                w <= 10_000_000_000,
                        ;
                        if digits_value(whole@) >= WHOLE_CAP {
                            assert(digits_value(whole@) * 1_000_000_000 >= 10_000_000_000
                                * 1_000_000_000) by (nonlinear_arith)
                                requires
                                    digits_value(whole@) >= 10_000_000_000,
                            ;
                        }
                    }
                    let m: u128 = w * (SCALE as u128) + f;
                    Some(from_sign_magnitude(negative, m))
                }
            },
            _ => None,
        }
    }
}

/// Whether the number is far enough from the ends of the range that sums
/// and differences of two such numbers are exact.
pub open spec fn is_modest(x: Fixed) -> bool {
    -0x2000_0000_0000_0000 <= x.raw <= 0x2000_0000_0000_0000
}

/// A share of a rise is no more than the rise: for `0 <= s <= d * SCALE / dx`
/// and `0 <= t <= dx`, the product of `s` and `t`, scaled back, is at most `d`.
proof fn lemma_share_of_rise(d: int, dx: int, s: int, t: int)
    requires
        0 <= d,
        0 < dx,
        0 <= t <= dx,
        0 <= s <= (d * 1_000_000_000) / dx,
    ensures
        0 <= (s * t) / 1_000_000_000 <= d,
{
    let q = (d * 1_000_000_000) / dx;
    assert(d * 1_000_000_000 >= 0) by (nonlinear_arith)
        requires
            d >= 0,
    ;
    vstd::arithmetic::div_mod::lemma_fundamental_div_mod(d * 1_000_000_000, dx);
    assert(dx * q <= d * 1_000_000_000);
    assert(0 <= s * t <= dx * q) by (nonlinear_arith)
        requires
            0 <= s <= q,
            0 <= t <= dx,
    ;
    vstd::arithmetic::div_mod::lemma_div_is_ordered(s * t, d * 1_000_000_000, 1_000_000_000);
    vstd::arithmetic::div_mod::lemma_div_is_ordered(0, s * t, 1_000_000_000);
    vstd::arithmetic::div_mod::lemma_div_multiples_vanish(d, 1_000_000_000);
}

/// On the line from `(xl, yl)` to `(xr, yr)`, the value at a place from `xl`
/// up to `xr` lies between `yl` and `yr`.
pub proof fn lemma_line_stays_between(x: Fixed, xl: Fixed, yl: Fixed, xr: Fixed, yr: Fixed)
    requires
        is_modest(x),
        is_modest(xl),
        is_modest(yl),
        is_modest(xr),
        is_modest(yr),
        xl.raw <= x.raw < xr.raw,
    ensures
        ({
            let y = yl.spec_plus(
                yr.spec_minus(yl).spec_over(xr.spec_minus(xl)).spec_times(x.spec_minus(xl)),
            );
            (yl.raw <= y.raw <= yr.raw) || (yr.raw <= y.raw <= yl.raw)
        }),
{
    reveal(Fixed::spec_plus);
    reveal(Fixed::spec_minus);
    reveal(Fixed::spec_times);
    reveal(Fixed::spec_over);
    let dy = yr.raw - yl.raw;
    let dx = xr.raw - xl.raw;
    let t = x.raw - xl.raw;
    let slope = yr.spec_minus(yl).spec_over(xr.spec_minus(xl));
    let step = slope.spec_times(x.spec_minus(xl));
    assert(yr.spec_minus(yl).raw == dy);
    assert(xr.spec_minus(xl).raw == dx);
    assert(x.spec_minus(xl).raw == t);
    let d = magnitude(dy as int);
    let q = (d * 1_000_000_000) / dx;
    assert(d * 1_000_000_000 >= 0) by (nonlinear_arith)
        requires
            d >= 0,
    ;
    vstd::arithmetic::div_mod::lemma_div_is_ordered(0, d * 1_000_000_000, dx as int);
    assert(q >= 0);
    if dy >= 0 {
        assert((dy * 1_000_000_000 < 0) == (dx < 0));
        assert(trunc_div(dy * 1_000_000_000, dx as int) == q);
        let s = slope.raw as int;
        assert(0 <= s <= q);
        lemma_share_of_rise(d, dx as int, s, t as int);
        assert(s * t >= 0) by (nonlinear_arith)
            requires
                s >= 0,
                t >= 0,
        ;
        assert(trunc_div(s * t, 1_000_000_000) == (s * t) / 1_000_000_000);
        assert(0 <= step.raw <= dy);
    } else {
        assert(dy * 1_000_000_000 < 0) by (nonlinear_arith)
            requires
                dy < 0,
        ;
        assert(magnitude(dy * 1_000_000_000) == d * 1_000_000_000) by (nonlinear_arith)
            requires
                dy < 0,
                d == -dy,
        ;
        assert(trunc_div(dy * 1_000_000_000, dx as int) == -q);
        let s = slope.raw as int;
        assert(-q <= s <= 0);
        lemma_share_of_rise(d, dx as int, -s, t as int);
        assert(magnitude(s * t) == (-s) * t && s * t <= 0) by (nonlinear_arith)
            requires
                s <= 0,
                t >= 0,
        ;
        assert(trunc_div(s * t, 1_000_000_000) == -(((-s) * t) / 1_000_000_000) || trunc_div(
            s * t,
            1_000_000_000,
        ) == ((-s) * t) / 1_000_000_000 && s * t == 0);
        if s * t == 0 {
            assert(((-s) * t) / 1_000_000_000 == 0);
        }
        assert(dy <= step.raw <= 0);
    }
}

/// A number from zero up to `most`, scaled so that `most` becomes `peak`,
/// lies from zero up to `peak`.
pub proof fn lemma_scaled_to_peak(v: Fixed, most: Fixed, peak: Fixed)
    requires
        0 <= v.raw <= most.raw,
        0 < most.raw,
        0 <= peak.raw <= SCALE,
    ensures
        0 <= v.spec_times(peak.spec_over(most)).raw <= peak.raw,
{
    reveal(Fixed::spec_times);
    reveal(Fixed::spec_over);
    let p = peak.raw as int;
    let m = most.raw as int;
    let q = (p * 1_000_000_000) / m;
    assert(p * 1_000_000_000 >= 0) by (nonlinear_arith)
        requires
            p >= 0,
    ;
    vstd::arithmetic::div_mod::lemma_div_is_ordered(0, p * 1_000_000_000, m);
    assert(trunc_div(p * 1_000_000_000, m) == q);
    let k = peak.spec_over(most).raw as int;
    assert(0 <= k <= q);
    lemma_share_of_rise(p, m, k, v.raw as int);
    assert(v.raw * k == k * v.raw) by (nonlinear_arith);
    assert(k * v.raw >= 0) by (nonlinear_arith)
        requires
            k >= 0,
            v.raw >= 0,
    ;
    assert(trunc_div(v.raw * k, 1_000_000_000) == (k * v.raw) / 1_000_000_000);
}

/// The arithmetic of zero and one: zero times a number is zero, one times a
/// number is the number, and zero added to or taken from a number leaves it.
pub proof fn lemma_zero_and_one(a: Fixed)
    ensures
        (Fixed { raw: 0 }).spec_times(a).raw == 0,
        (Fixed { raw: SCALE }).spec_times(a) == a,
        (Fixed { raw: 0 }).spec_plus(a) == a,
        a.spec_minus(Fixed { raw: 0 }) == a,
{
    reveal(Fixed::spec_plus);
    reveal(Fixed::spec_minus);
    reveal(Fixed::spec_times);
    assert(0 * a.raw == 0) by (nonlinear_arith);
    let m = magnitude(a.raw as int);
    assert(magnitude(1_000_000_000 * a.raw) == m * 1_000_000_000) by (nonlinear_arith)
        requires
            m == magnitude(a.raw as int),
    ;
    vstd::arithmetic::div_mod::lemma_div_multiples_vanish(m, 1_000_000_000);
    assert((1_000_000_000 * a.raw < 0) == (a.raw < 0)) by (nonlinear_arith);
}

/// A number below zero over a number above zero is not above zero.
pub proof fn lemma_quotient_not_positive(a: Fixed, b: Fixed)
    requires
        a.raw < 0,
        b.raw > 0,
    ensures
        a.spec_over(b).raw <= 0,
{
    reveal(Fixed::spec_over);
    assert(a.raw * 1_000_000_000 < 0) by (nonlinear_arith)
        requires
            a.raw < 0,
    ;
    let n = magnitude(a.raw * 1_000_000_000);
    vstd::arithmetic::div_mod::lemma_div_is_ordered(0, n, b.raw as int);
}

} // verus!
