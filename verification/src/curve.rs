//! Curves held as lists of numbers: extremes, scaling and interpolation.

use vstd::prelude::*;
use vstd::std_specs::cmp::PartialEqSpecImpl;
use crate::fixed::{is_modest, lemma_line_stays_between, Fixed};

verus! {

/// A curve as a vehicle keeps it: numbers in a one-dimensional array of the
/// `ndarray` crate.
#[verifier::external_body]
#[derive(Debug)]
pub struct Curve {
    items: ndarray::Array1<Fixed>,
}

/// The numbers that the array of a curve holds, in their order.
pub uninterp spec fn array_items(c: Curve) -> Seq<Fixed>;

/// `ndarray::Array1::from_vec` makes a one-dimensional array that holds the
/// items of the vector in their order. It panics only for items of no size,
/// which these are not.
#[verifier::external_body]
fn array_from_vec(v: Vec<Fixed>) -> (c: Curve)
    ensures
        array_items(c) == v@,
{
    Curve { items: ndarray::Array1::from_vec(v) }
}

/// `ndarray::ArrayBase::to_vec` returns a vector with the items of a
/// one-dimensional array in their order.
#[verifier::external_body]
fn array_to_vec(c: &Curve) -> (v: Vec<Fixed>)
    ensures
        v@ == array_items(*c),
{
    c.items.to_vec()
}

impl View for Curve {
    type V = Seq<Fixed>;

    open spec fn view(&self) -> Seq<Fixed> {
        array_items(*self)
    }
}

impl Curve {
    /// The curve of the numbers `v`.
    pub fn new(v: Vec<Fixed>) -> (c: Curve)
        ensures
            c@ == v@,
    {
        array_from_vec(v)
    }

    /// The numbers of the curve.
    pub fn to_vec(&self) -> (v: Vec<Fixed>)
        ensures
            v@ == self@,
    {
        array_to_vec(self)
    }

    /// How many numbers the curve holds.
    pub fn len(&self) -> (n: usize)
        ensures
            n == self@.len(),
    {
        array_to_vec(self).len()
    }
}

impl Clone for Curve {
    fn clone(&self) -> (r: Curve)
        ensures
            r@ == self@,
    {
        array_from_vec(array_to_vec(self))
    }
}

impl PartialEq for Curve {
    fn eq(&self, other: &Curve) -> (r: bool) {
        same_curve(&array_to_vec(self), &array_to_vec(other))
    }
}

impl PartialEqSpecImpl for Curve {
    open spec fn obeys_eq_spec() -> bool {
        true
    }

    open spec fn eq_spec(&self, other: &Curve) -> bool {
        self@ == other@
    }
}

/// The largest number of `s`; the lowest number there is for none.
pub open spec fn max_of(s: Seq<Fixed>) -> Fixed
    decreases s.len(),
{
    if s.len() == 0 {
        Fixed { raw: i64::MIN }
    } else {
        let rest = max_of(s.drop_last());
        if s.last().raw > rest.raw {
            s.last()
        } else {
            rest
        }
    }
}

/// The smallest number of `s`; the highest number there is for none.
pub open spec fn min_of(s: Seq<Fixed>) -> Fixed
    decreases s.len(),
{
    if s.len() == 0 {
        Fixed { raw: i64::MAX }
    } else {
        let rest = min_of(s.drop_last());
        if s.last().raw < rest.raw {
            s.last()
        } else {
            rest
        }
    }
}

/// Whether `i` is the first position of `s` that holds `x`.
pub open spec fn is_first_equal(s: Seq<Fixed>, x: Fixed, i: int) -> bool {
    &&& 0 <= i < s.len()
    &&& s[i] == x
    &&& forall|j: int| 0 <= j < i ==> s[j] != x
}

/// Each number of `s` times `k`.
pub open spec fn scaled(s: Seq<Fixed>, k: Fixed) -> Seq<Fixed> {
    Seq::new(s.len(), |i: int| s[i].spec_times(k))
}

/// Each number of `s` plus `k`.
pub open spec fn shifted(s: Seq<Fixed>, k: Fixed) -> Seq<Fixed> {
    Seq::new(s.len(), |i: int| s[i].spec_plus(k))
}

/// The first position from `from` on whose point lies above `x`; the number
/// of points where none does.
pub open spec fn first_above(xs: Seq<Fixed>, x: Fixed, from: int) -> int
    decreases xs.len() - from,
{
    if from < 0 || from >= xs.len() {
        xs.len() as int
    } else if xs[from].raw > x.raw {
        from
    } else {
        first_above(xs, x, from + 1)
    }
}

/// The value at `x` of the line through `(xl, yl)` and `(xr, yr)`.
pub open spec fn on_line(x: Fixed, xl: Fixed, yl: Fixed, xr: Fixed, yr: Fixed) -> Fixed {
    yl.spec_plus(yr.spec_minus(yl).spec_over(xr.spec_minus(xl)).spec_times(x.spec_minus(xl)))
}

/// The value at `x` of the curve through the points `(xs[i], ys[i])`: that of
/// the first point up to it, that of the last point from the last point on,
/// and between two points that of the line through them. Zero where there is
/// no point.
pub open spec fn interpolated(x: Fixed, xs: Seq<Fixed>, ys: Seq<Fixed>) -> Fixed {
    let n = if xs.len() <= ys.len() {
        xs.len() as int
    } else {
        ys.len() as int
    };
    let points = xs.take(n);
    let i = first_above(points, x, 0);
    if n == 0 {
        Fixed { raw: 0 }
    } else if i == 0 {
        ys[0]
    } else if i == n {
        ys[n - 1]
    } else {
        on_line(x, xs[i - 1], ys[i - 1], xs[i], ys[i])
    }
}

/// The values of the curve through `(xs[i], ys[i])` at each of `at`.
pub open spec fn resampled(at: Seq<Fixed>, xs: Seq<Fixed>, ys: Seq<Fixed>) -> Seq<Fixed> {
    Seq::new(at.len(), |i: int| interpolated(at[i], xs, ys))
}

/// `max_of` is an upper bound that some number attains.
pub proof fn lemma_max_of(s: Seq<Fixed>)
    ensures
        forall|i: int| 0 <= i < s.len() ==> (#[trigger] s[i]).raw <= max_of(s).raw,
        s.len() > 0 ==> s.contains(max_of(s)),
    decreases s.len(),
{
    if s.len() > 0 {
        let rest = s.drop_last();
        lemma_max_of(rest);
        assert forall|i: int| 0 <= i < s.len() implies (#[trigger] s[i]).raw <= max_of(s).raw by {
            if i < rest.len() {
                assert(rest[i] == s[i]);
            }
        }
        if s.last().raw > max_of(rest).raw || rest.len() == 0 {
            assert(s[s.len() - 1] == s.last());
        } else {
            let j = choose|j: int| 0 <= j < rest.len() && rest[j] == max_of(rest);
            assert(s[j] == max_of(rest));
        }
    }
}

/// `min_of` is a lower bound that some number attains.
pub proof fn lemma_min_of(s: Seq<Fixed>)
    ensures
        forall|i: int| 0 <= i < s.len() ==> (#[trigger] s[i]).raw >= min_of(s).raw,
        s.len() > 0 ==> s.contains(min_of(s)),
    decreases s.len(),
{
    if s.len() > 0 {
        let rest = s.drop_last();
        lemma_min_of(rest);
        assert forall|i: int| 0 <= i < s.len() implies (#[trigger] s[i]).raw >= min_of(s).raw by {
            if i < rest.len() {
                assert(rest[i] == s[i]);
            }
        }
        if s.last().raw < min_of(rest).raw || rest.len() == 0 {
            assert(s[s.len() - 1] == s.last());
        } else {
            let j = choose|j: int| 0 <= j < rest.len() && rest[j] == min_of(rest);
            assert(s[j] == min_of(rest));
        }
    }
}

/// The largest number of `v`.
pub fn arrmax(v: &Vec<Fixed>) -> (m: Fixed)
    ensures
        m == max_of(v@),
{
    let mut m = Fixed::from_raw(i64::MIN);
    let mut i: usize = 0;
    while i < v.len()
        invariant
            i <= v.len(),
            m == max_of(v@.take(i as int)),
        decreases v.len() - i,
    {
        proof {
            assert(v@.take(i + 1).drop_last() =~= v@.take(i as int));
        }
        if v[i].raw > m.raw {
            m = v[i];
        }
        i += 1;
    }
    proof {
        assert(v@.take(v.len() as int) =~= v@);
    }
    m
}

/// The smallest number of `v`.
pub fn arrmin(v: &Vec<Fixed>) -> (m: Fixed)
    ensures
        m == min_of(v@),
{
    let mut m = Fixed::from_raw(i64::MAX);
    let mut i: usize = 0;
    while i < v.len()
        invariant
            i <= v.len(),
            m == min_of(v@.take(i as int)),
        decreases v.len() - i,
    {
        proof {
            assert(v@.take(i + 1).drop_last() =~= v@.take(i as int));
        }
        if v[i].raw < m.raw {
            m = v[i];
        }
        i += 1;
    }
    proof {
        assert(v@.take(v.len() as int) =~= v@);
    }
    m
}

/// The first position of `v` that holds `x`.
pub fn first_eq(v: &Vec<Fixed>, x: Fixed) -> (r: Option<usize>)
    ensures
        r matches Some(i) ==> is_first_equal(v@, x, i as int),
        r is None ==> !v@.contains(x),
{
    let mut i: usize = 0;
    while i < v.len()
        invariant
            i <= v.len(),
            forall|j: int| 0 <= j < i ==> v@[j] != x,
        decreases v.len() - i,
    {
        if v[i] == x {
            return Some(i);
        }
        i += 1;
    }
    None
}

/// Each number of `v` times `k`.
pub fn scale(v: &Vec<Fixed>, k: Fixed) -> (r: Vec<Fixed>)
    ensures
        r@ == scaled(v@, k),
{
    let mut r: Vec<Fixed> = Vec::new();
    let mut i: usize = 0;
    while i < v.len()
        invariant
            i <= v.len(),
            r.len() == i,
            forall|j: int| 0 <= j < i ==> r@[j] == v@[j].spec_times(k),
        decreases v.len() - i,
    {
        r.push(v[i].times(k));
        i += 1;
    }
    assert(r@ =~= scaled(v@, k));
    r
}

/// Each number of `v` plus `k`.
pub fn shift(v: &Vec<Fixed>, k: Fixed) -> (r: Vec<Fixed>)
    ensures
        r@ == shifted(v@, k),
{
    let mut r: Vec<Fixed> = Vec::new();
    let mut i: usize = 0;
    while i < v.len()
        invariant
            i <= v.len(),
            r.len() == i,
            forall|j: int| 0 <= j < i ==> r@[j] == v@[j].spec_plus(k),
        decreases v.len() - i,
    {
        r.push(v[i].plus(k));
        i += 1;
    }
    assert(r@ =~= shifted(v@, k));
    r
}

/// A copy of `v`.
pub fn copy_curve(v: &Vec<Fixed>) -> (r: Vec<Fixed>)
    ensures
        r@ == v@,
{
    let mut r: Vec<Fixed> = Vec::new();
    let mut i: usize = 0;
    while i < v.len()
        invariant
            i <= v.len(),
            r.len() == i,
            forall|j: int| 0 <= j < i ==> r@[j] == v@[j],
        decreases v.len() - i,
    {
        r.push(v[i]);
        i += 1;
    }
    assert(r@ =~= v@);
    r
}

/// Whether two curves hold the same numbers.
pub fn same_curve(a: &Vec<Fixed>, b: &Vec<Fixed>) -> (same: bool)
    ensures
        same == (a@ == b@),
{
    if a.len() != b.len() {
        return false;
    }
    let mut i: usize = 0;
    while i < a.len()
        invariant
            i <= a.len(),
            a.len() == b.len(),
            forall|j: int| 0 <= j < i ==> a@[j] == b@[j],
        decreases a.len() - i,
    {
        if a[i] != b[i] {
            return false;
        }
        i += 1;
    }
    assert(a@ =~= b@);
    true
}

/// The value at `x` of the curve through the points `(xs[i], ys[i])`.
pub fn interpolate(x: Fixed, xs: &Vec<Fixed>, ys: &Vec<Fixed>) -> (y: Fixed)
    ensures
        y == interpolated(x, xs@, ys@),
{
    let n: usize = if xs.len() <= ys.len() {
        xs.len()
    } else {
        ys.len()
    };
    if n == 0 {
        return Fixed::zero();
    }
    let ghost points = xs@.take(n as int);
    let mut i: usize = 0;
    while i < n && xs[i].raw <= x.raw
        invariant
            i <= n,
            n <= xs.len(),
            points == xs@.take(n as int),
            first_above(points, x, 0) == first_above(points, x, i as int),
        decreases n - i,
    {
        assert(points[i as int] == xs@[i as int]);
        i += 1;
    }
    proof {
        if i < n {
            assert(points[i as int] == xs@[i as int]);
        }
    }
    if i == 0 {
        ys[0]
    } else if i == n {
        ys[n - 1]
    } else {
        let xl = xs[i - 1];
        let yl = ys[i - 1];
        let xr = xs[i];
        let yr = ys[i];
        yl.plus(yr.minus(yl).over(xr.minus(xl)).times(x.minus(xl)))
    }
}

/// The values of the curve through `(xs[i], ys[i])` at each of `at`.
pub fn resample(at: &Vec<Fixed>, xs: &Vec<Fixed>, ys: &Vec<Fixed>) -> (r: Vec<Fixed>)
    ensures
        r@ == resampled(at@, xs@, ys@),
{
    let mut r: Vec<Fixed> = Vec::new();
    let mut i: usize = 0;
    while i < at.len()
        invariant
            i <= at.len(),
            r.len() == i,
            forall|j: int| 0 <= j < i ==> r@[j] == interpolated(at@[j], xs@, ys@),
        decreases at.len() - i,
    {
        r.push(interpolate(at[i], xs, ys));
        i += 1;
    }
    assert(r@ =~= resampled(at@, xs@, ys@));
    r
}

/// Whether every number of `s` lies from `low` up to `high`.
pub open spec fn all_within(s: Seq<Fixed>, low: int, high: int) -> bool {
    forall|i: int| 0 <= i < s.len() ==> low <= (#[trigger] s[i]).raw <= high
}

/// Whether every number of `s` is far from the ends of the range.
pub open spec fn all_modest(s: Seq<Fixed>) -> bool {
    forall|i: int| 0 <= i < s.len() ==> is_modest(#[trigger] s[i])
}

/// The first point above `x` lies above it, and the point before it does
/// not.
proof fn lemma_first_above(xs: Seq<Fixed>, x: Fixed, from: int)
    requires
        0 <= from <= xs.len(),
    ensures
        from <= first_above(xs, x, from) <= xs.len(),
        first_above(xs, x, from) < xs.len() ==> xs[first_above(xs, x, from)].raw > x.raw,
        forall|j: int| from <= j < first_above(xs, x, from) ==> (#[trigger] xs[j]).raw <= x.raw,
    decreases xs.len() - from,
{
    if from < xs.len() && xs[from].raw <= x.raw {
        lemma_first_above(xs, x, from + 1);
    }
}

/// The value of a curve lies within the bounds of its points.
pub proof fn lemma_interpolated_within(
    x: Fixed,
    xs: Seq<Fixed>,
    ys: Seq<Fixed>,
    low: int,
    high: int,
)
    requires
        xs.len() > 0,
        ys.len() > 0,
        is_modest(x),
        all_modest(xs),
        all_modest(ys),
        all_within(ys, low, high),
    ensures
        low <= interpolated(x, xs, ys).raw <= high,
{
    let n = if xs.len() <= ys.len() {
        xs.len() as int
    } else {
        ys.len() as int
    };
    let points = xs.take(n);
    lemma_first_above(points, x, 0);
    let i = first_above(points, x, 0);
    if 0 < i < n {
        assert(points[i] == xs[i]);
        assert(points[i - 1] == xs[i - 1]);
        assert(is_modest(xs[i]) && is_modest(xs[i - 1]));
        assert(is_modest(ys[i]) && is_modest(ys[i - 1]));
        lemma_line_stays_between(x, xs[i - 1], ys[i - 1], xs[i], ys[i]);
    } else if i == 0 {
        assert(low <= ys[0].raw <= high);
    } else {
        assert(low <= ys[n - 1].raw <= high);
    }
}

/// The values of a curve at some places all lie within the bounds of its
/// points.
pub proof fn lemma_resampled_within(
    at: Seq<Fixed>,
    xs: Seq<Fixed>,
    ys: Seq<Fixed>,
    low: int,
    high: int,
)
    requires
        xs.len() > 0,
        ys.len() > 0,
        all_modest(at),
        all_modest(xs),
        all_modest(ys),
        all_within(ys, low, high),
    ensures
        all_within(resampled(at, xs, ys), low, high),
{
    assert forall|i: int| 0 <= i < at.len() implies low <= (#[trigger] resampled(
        at,
        xs,
        ys,
    )[i]).raw <= high by {
        assert(is_modest(at[i]));
        lemma_interpolated_within(at[i], xs, ys, low, high);
    }
}

/// Numbers that all lie within bounds have their extremes within them.
pub proof fn lemma_extremes_within(s: Seq<Fixed>, low: int, high: int)
    requires
        s.len() > 0,
        all_within(s, low, high),
    ensures
        low <= min_of(s).raw <= high,
        low <= max_of(s).raw <= high,
{
    lemma_max_of(s);
    lemma_min_of(s);
    let i = choose|i: int| 0 <= i < s.len() && s[i] == max_of(s);
    let j = choose|j: int| 0 <= j < s.len() && s[j] == min_of(s);
    assert(low <= s[i].raw <= high);
    assert(low <= s[j].raw <= high);
}

} // verus!
