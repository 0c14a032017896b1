//! What holds of the slicing arguments across their operations.

use vstd::prelude::*;
use std::ops::{Range, RangeFrom, RangeFull, RangeInclusive, RangeTo, RangeToInclusive};
use vstd::std_specs::convert::FromSpec;
use crate::dimension::{larger_ndim, Dimension, Ix0};
use crate::error::ShapeError;
use crate::slice::{step_product_fits, Slice, SliceOrIndex};
use crate::text::{int_text, nat_text};
use crate::slice_info::{count_slices, ndim_consistent, SliceInfo};

verus! {

/// Exactly one of `is_slice` and `is_index` holds of every argument.
pub proof fn lemma_slice_xor_index(x: SliceOrIndex)
    ensures
        (x is Slice) != (x is Index),
{
}

/// Step sizes multiply: `s.step_by(a).step_by(b)` is `s.step_by(a * b)`,
/// wherever the product `a * b` is itself an `isize`.
pub proof fn lemma_slice_step_by_composes(s: Slice, a: isize, b: isize)
    requires
        a != 0,
        b != 0,
        step_product_fits(a, b),
        step_product_fits(s.step, a),
        step_product_fits(s.stepped(a).step, b),
    ensures
        s.stepped(a).stepped(b) == s.stepped((a * b) as isize),
{
    assert(s.step * a * b == s.step * (a * b)) by (nonlinear_arith);
}

/// A step size of 1 leaves a slice as it is.
pub proof fn lemma_slice_step_by_one(s: Slice)
    ensures
        s.stepped(1) == s,
{
}

/// Step sizes multiply on a `SliceOrIndex` too; an index stays as it is.
pub proof fn lemma_slice_or_index_step_by_composes(x: SliceOrIndex, a: isize, b: isize)
    requires
        a != 0,
        b != 0,
        step_product_fits(a, b),
        x matches SliceOrIndex::Slice { step, .. } ==> step_product_fits(step, a) && step_product_fits(
            (step * a) as isize,
            b,
        ),
    ensures
        x.stepped(a).stepped(b) == x.stepped((a * b) as isize),
        x is Index ==> x.stepped(a) == x,
{
    if let SliceOrIndex::Slice { start, end, step } = x {
        lemma_slice_step_by_composes(Slice { start, end, step }, a, b);
    }
}

/// Converting a `Slice` into a `SliceOrIndex` and stepping commute.
pub proof fn lemma_from_slice_commutes_with_step_by(s: Slice, factor: isize)
    ensures
        <SliceOrIndex as FromSpec<Slice>>::from_spec(s.stepped(factor))
            == <SliceOrIndex as FromSpec<Slice>>::from_spec(s).stepped(factor),
{
}

/// `Slice::from(..)` is `Slice::new(0, None, 1)`, the full range of an axis;
/// `Slice::from(a..b).step_by(2)` is `Slice::new(a, Some(b), 2)`;
/// `Slice::from(a..).step_by(-1)` is `Slice::new(a, None, -1)`.
pub proof fn lemma_slice_from_ranges(a: isize, b: isize)
    ensures
        <Slice as FromSpec<RangeFull>>::from_spec(RangeFull) == (Slice { start: 0, end: None, step: 1 }),
        <Slice as FromSpec<Range<isize>>>::from_spec(Range { start: a, end: b }).stepped(2)
            == (Slice { start: a, end: Some(b), step: 2 }),
        <Slice as FromSpec<RangeFrom<isize>>>::from_spec(RangeFrom { start: a }).stepped(-1isize)
            == (Slice { start: a, end: None, step: -1isize }),
{
}

/// `SliceOrIndex::from(a)` is the index `a`; `SliceOrIndex::from(..)` is the
/// full range; `SliceOrIndex::from(a..b).step_by(2)` is every second element
/// from `a` until `b`; `SliceOrIndex::from(a..).step_by(-1)` is every element
/// from `a` until the end, in reverse order.
pub proof fn lemma_slice_or_index_from_ranges(a: isize, b: isize)
    ensures
        <SliceOrIndex as FromSpec<isize>>::from_spec(a) == SliceOrIndex::Index(a),
        <SliceOrIndex as FromSpec<RangeFull>>::from_spec(RangeFull) == (SliceOrIndex::Slice {
            start: 0,
            end: None,
            step: 1,
        }),
        <SliceOrIndex as FromSpec<Range<isize>>>::from_spec(Range { start: a, end: b }).stepped(2)
            == (SliceOrIndex::Slice { start: a, end: Some(b), step: 2 }),
        <SliceOrIndex as FromSpec<RangeFrom<isize>>>::from_spec(RangeFrom { start: a }).stepped(-1isize)
            == (SliceOrIndex::Slice { start: a, end: None, step: -1isize }),
{
}

/// An inclusive range `a..=b` is the range `a..b + 1`, except that an
/// inclusive end of `-1` (the last element) leaves the end open.
pub proof fn lemma_inclusive_range_is_range(r: RangeInclusive<isize>)
    requires
        r@.end < isize::MAX,
    ensures
        r@.end != -1 ==> <Slice as FromSpec<RangeInclusive<isize>>>::from_spec(r)
            == <Slice as FromSpec<Range<isize>>>::from_spec(
            Range { start: r@.start, end: (r@.end + 1) as isize },
        ),
        r@.end == -1 ==> <Slice as FromSpec<RangeInclusive<isize>>>::from_spec(r)
            == <Slice as FromSpec<RangeFrom<isize>>>::from_spec(RangeFrom { start: r@.start }),
{
}

/// The number of axes that `SliceNextDim` reaches from `Ix0` through the
/// arguments `s`, one after the other, as `next_dim` states each step: an
/// index keeps the number, a slice (or a range) leads to `larger_ndim` of it.
pub open spec fn ndim_after(s: Seq<SliceOrIndex>) -> Option<usize>
    decreases s.len(),
{
    if s.len() == 0 {
        Ix0::fixed_ndim()
    } else if s.last() is Slice {
        larger_ndim(ndim_after(s.drop_last()))
    } else {
        ndim_after(s.drop_last())
    }
}

/// One more argument takes the number of axes one `next_dim` step further.
pub proof fn lemma_ndim_after_push(s: Seq<SliceOrIndex>, x: SliceOrIndex)
    ensures
        ndim_after(s.push(x)) == if x is Slice {
            larger_ndim(ndim_after(s))
        } else {
            ndim_after(s)
        },
{
    assert(s.push(x).drop_last() =~= s);
}

/// The dimension type that the arguments lead to is consistent with them:
/// where it fixes the number of axes, that is the number of slices. So
/// `SliceInfo::new` accepts every argument list with the dimension type it
/// leads to.
pub proof fn lemma_next_dim_is_consistent(s: Seq<SliceOrIndex>)
    ensures
        ndim_consistent(ndim_after(s), s),
    decreases s.len(),
{
    if s.len() > 0 {
        lemma_next_dim_is_consistent(s.drop_last());
    }
}

/// The arguments that a `SliceInfo` is made with come back unchanged (its
/// view, which `deref` and `as_ref` return): `new(indices)` succeeds on every
/// list consistent with `D` and keeps it, and `new_unchecked(indices, _)`,
/// which admits just those lists, keeps it too. The requirements are what the
/// two constructors ensure.
pub proof fn lemma_arguments_come_back<D: Dimension>(
    indices: Seq<SliceOrIndex>,
    checked: Result<SliceInfo<D>, ShapeError>,
    unchecked: SliceInfo<D>,
)
    requires
        checked is Ok <==> ndim_consistent(D::fixed_ndim(), indices),
        checked matches Ok(info) ==> info@ == indices,
        ndim_consistent(D::fixed_ndim(), indices) ==> unchecked@ == indices,
    ensures
        ndim_consistent(D::fixed_ndim(), indices) ==> (checked matches Ok(info) && info@ == indices),
        ndim_consistent(D::fixed_ndim(), indices) ==> unchecked@ == indices,
{
}

/// The value of a decimal digit character; `-1` for any other character.
pub open spec fn digit_value(c: char) -> int {
    if c == '0' {
        0
    } else if c == '1' {
        1
    } else if c == '2' {
        2
    } else if c == '3' {
        3
    } else if c == '4' {
        4
    } else if c == '5' {
        5
    } else if c == '6' {
        6
    } else if c == '7' {
        7
    } else if c == '8' {
        8
    } else if c == '9' {
        9
    } else {
        -1
    }
}

/// The number that a string of decimal digits reads as, most significant
/// digit first.
pub open spec fn decimal_value(s: Seq<char>) -> int
    decreases s.len(),
{
    if s.len() == 0 {
        0
    } else {
        decimal_value(s.drop_last()) * 10 + digit_value(s.last())
    }
}

/// The text of a natural number is a nonempty string of decimal digits,
/// without a leading zero (unless the number is zero), that reads back as
/// the number.
pub proof fn lemma_nat_text_reads_back(n: nat)
    ensures
        nat_text(n).len() > 0,
        forall|i: int| 0 <= i < nat_text(n).len() ==> 0 <= #[trigger] digit_value(nat_text(n)[i]) <= 9,
        n > 0 ==> nat_text(n)[0] != '0',
        decimal_value(nat_text(n)) == n,
    decreases n,
{
    if n >= 10 {
        lemma_nat_text_reads_back(n / 10);
        let t = nat_text(n);
        assert(t.drop_last() =~= nat_text(n / 10));
        assert forall|i: int| 0 <= i < t.len() implies 0 <= #[trigger] digit_value(t[i]) <= 9 by {
            if i < t.len() - 1 {
                assert(t[i] == nat_text(n / 10)[i]);
            }
        }
        assert(t[0] == nat_text(n / 10)[0]);
        assert(t.last() == crate::text::digit_char((n % 10) as nat));
        assert(n == (n / 10) * 10 + n % 10);
        assert(decimal_value(t) == decimal_value(t.drop_last()) * 10 + digit_value(t.last()));
    } else {
        let t = nat_text(n);
        assert(t.drop_last() =~= Seq::<char>::empty());
        assert(decimal_value(t) == decimal_value(t.drop_last()) * 10 + digit_value(t.last()));
    }
}

/// The text of an integer is a minus sign exactly when it is negative,
/// followed by the digits of its magnitude, which read back as it.
pub proof fn lemma_int_text_reads_back(i: int)
    ensures
        int_text(i).len() > 0,
        (int_text(i)[0] == '-') == (i < 0),
        i < 0 ==> decimal_value(int_text(i).drop_first()) == -i,
        i >= 0 ==> decimal_value(int_text(i)) == i,
{
    if i < 0 {
        lemma_nat_text_reads_back((-i) as nat);
        assert(int_text(i).drop_first() =~= nat_text((-i) as nat));
        assert(0 <= digit_value(nat_text((-i) as nat)[0]));
    } else {
        lemma_nat_text_reads_back(i as nat);
        assert(0 <= digit_value(nat_text(i as nat)[0]));
    }
}

/// The text of an index is the decimal text of the index.
pub proof fn lemma_text_of_index(i: isize)
    ensures
        SliceOrIndex::Index(i).text() == int_text(i as int),
{
}

/// The text of a slice begins with its start and `..` (only `..` for a start
/// of 0), and ends with `;` and its step whenever the step is not 1, for
/// every start and end. With a step of 1 it ends with `..` and the end, if
/// there is one.
pub proof fn lemma_text_of_slice(start: isize, end: Option<isize>, step: isize)
    ensures
        ({
            let t = (SliceOrIndex::Slice { start, end, step }).text();
            let head = if start != 0 { int_text(start as int) + seq!['.', '.'] } else { seq!['.', '.'] };
            let tail = seq![';'] + int_text(step as int);
            let end_text = match end {
                Some(e) => int_text(e as int),
                None => Seq::<char>::empty(),
            };
            &&& t.len() >= head.len()
            &&& t.subrange(0, head.len() as int) == head
            &&& step != 1 ==> t.len() >= tail.len() && t.subrange(t.len() - tail.len(), t.len() as int) == tail
            &&& step == 1 ==> t.len() >= end_text.len() + 2 && t.subrange(
                t.len() - end_text.len() - 2,
                t.len() as int,
            ) == seq!['.', '.'] + end_text
        }),
{
    let t = (SliceOrIndex::Slice { start, end, step }).text();
    let head = if start != 0 { int_text(start as int) + seq!['.', '.'] } else { seq!['.', '.'] };
    let tail = seq![';'] + int_text(step as int);
    let end_text = match end {
        Some(e) => int_text(e as int),
        None => Seq::<char>::empty(),
    };
    let step_text = if step != 1 { tail } else { Seq::<char>::empty() };
    assert(t =~= head + end_text + step_text);
    assert(t.subrange(0, head.len() as int) =~= head);
    if step != 1 {
        assert(t.subrange(t.len() - tail.len(), t.len() as int) =~= tail);
    } else {
        assert(t.subrange(t.len() - end_text.len() - 2, t.len() as int) =~= seq!['.', '.'] + end_text);
    }
}

/// The number of slices in a list is the length of the list filtered down to
/// its `Slice` values.
pub proof fn lemma_count_slices_is_filter_len(s: Seq<SliceOrIndex>)
    ensures
        count_slices(s) == s.filter(|x: SliceOrIndex| x is Slice).len(),
    decreases s.len(),
{
    reveal(Seq::filter);
    if s.len() > 0 {
        lemma_count_slices_is_filter_len(s.drop_last());
    }
}

/// A dimension type with a dynamic number of axes is consistent with every
/// argument list, so `SliceInfo::new` accepts every list for it; a fixed
/// number `n` is consistent exactly with the lists with `n` slices.
pub proof fn lemma_ndim_consistent(s: Seq<SliceOrIndex>, n: usize)
    ensures
        ndim_consistent(None, s),
        ndim_consistent(Some(n), s) <==> n == s.filter(|x: SliceOrIndex| x is Slice).len(),
{
    lemma_count_slices_is_filter_len(s);
}

/// An exclusive range `a..b` of `isize`, `usize` or `i32` becomes the slice
/// from `a` to `b` with step size 1: the exclusive end is always kept as
/// `Some(b)`, taken `as isize`.
pub proof fn lemma_range_keeps_end(a_isize: isize, b_isize: isize, a_usize: usize, b_usize: usize, a_i32: i32, b_i32: i32)
    ensures
        <Slice as FromSpec<Range<isize>>>::from_spec(Range { start: a_isize, end: b_isize }) == (Slice { start: a_isize, end: Some(b_isize), step: 1 }),
        <Slice as FromSpec<Range<usize>>>::from_spec(Range { start: a_usize, end: b_usize }) == (Slice { start: ((a_usize) as isize), end: Some(((b_usize) as isize)), step: 1 }),
        <Slice as FromSpec<Range<i32>>>::from_spec(Range { start: a_i32, end: b_i32 }) == (Slice { start: ((a_i32) as isize), end: Some(((b_i32) as isize)), step: 1 }),
{
}

/// `..b` is the range `0..b`, for each index type.
pub proof fn lemma_range_to_starts_at_zero(b_isize: isize, b_usize: usize, b_i32: i32)
    ensures
        <Slice as FromSpec<RangeTo<isize>>>::from_spec(RangeTo { end: b_isize }) == <Slice as FromSpec<Range<isize>>>::from_spec(Range { start: 0isize, end: b_isize }),
        <Slice as FromSpec<RangeTo<usize>>>::from_spec(RangeTo { end: b_usize }) == <Slice as FromSpec<Range<usize>>>::from_spec(Range { start: 0usize, end: b_usize }),
        <Slice as FromSpec<RangeTo<i32>>>::from_spec(RangeTo { end: b_i32 }) == <Slice as FromSpec<Range<i32>>>::from_spec(Range { start: 0i32, end: b_i32 }),
{
}

/// `a..` is the slice from `a` to the end of the axis with step size 1, for
/// each index type; `..` is `0..`.
pub proof fn lemma_range_from_is_open(a_isize: isize, a_usize: usize, a_i32: i32)
    ensures
        <Slice as FromSpec<RangeFrom<isize>>>::from_spec(RangeFrom { start: a_isize }) == (Slice { start: a_isize, end: None, step: 1 }),
        <Slice as FromSpec<RangeFrom<usize>>>::from_spec(RangeFrom { start: a_usize }) == (Slice { start: ((a_usize) as isize), end: None, step: 1 }),
        <Slice as FromSpec<RangeFrom<i32>>>::from_spec(RangeFrom { start: a_i32 }) == (Slice { start: ((a_i32) as isize), end: None, step: 1 }),
        <Slice as FromSpec<RangeFull>>::from_spec(RangeFull) == <Slice as FromSpec<RangeFrom<isize>>>::from_spec(RangeFrom { start: 0isize }),
{
}

/// An inclusive range `a..=b` of `isize` is the range `a..b + 1` (bounds
/// taken `as isize`), except that an inclusive end of `-1` (the last element)
/// makes it `a..`, open to the end.
pub proof fn lemma_inclusive_range_isize(r: RangeInclusive<isize>)
    ensures
        r@.end != -1 && r@.end < isize::MAX ==> <Slice as FromSpec<RangeInclusive<isize>>>::from_spec(r)
            == <Slice as FromSpec<Range<isize>>>::from_spec(Range { start: r@.start, end: (r@.end + 1) as isize }),
        r@.end == -1 ==> <Slice as FromSpec<RangeInclusive<isize>>>::from_spec(r) == <Slice as FromSpec<RangeFrom<isize>>>::from_spec(
            RangeFrom { start: r@.start },
        ),
{
}

/// An inclusive range `a..=b` of `usize` is the range `a..b + 1` (bounds
/// taken `as isize`), except that an inclusive end of `-1` (the last element)
/// makes it `a..`, open to the end.
pub proof fn lemma_inclusive_range_usize(r: RangeInclusive<usize>)
    ensures
        ((r@.end) as isize) != -1 && ((r@.end) as isize) < isize::MAX ==> <Slice as FromSpec<RangeInclusive<usize>>>::from_spec(r)
            == <Slice as FromSpec<Range<isize>>>::from_spec(Range { start: ((r@.start) as isize), end: (((r@.end) as isize) + 1) as isize }),
        ((r@.end) as isize) == -1 ==> <Slice as FromSpec<RangeInclusive<usize>>>::from_spec(r) == <Slice as FromSpec<RangeFrom<isize>>>::from_spec(
            RangeFrom { start: ((r@.start) as isize) },
        ),
{
}

/// An inclusive range `a..=b` of `i32` is the range `a..b + 1` (bounds
/// taken `as isize`), except that an inclusive end of `-1` (the last element)
/// makes it `a..`, open to the end.
pub proof fn lemma_inclusive_range_i32(r: RangeInclusive<i32>)
    ensures
        ((r@.end) as isize) != -1 && ((r@.end) as isize) < isize::MAX ==> <Slice as FromSpec<RangeInclusive<i32>>>::from_spec(r)
            == <Slice as FromSpec<Range<isize>>>::from_spec(Range { start: ((r@.start) as isize), end: (((r@.end) as isize) + 1) as isize }),
        ((r@.end) as isize) == -1 ==> <Slice as FromSpec<RangeInclusive<i32>>>::from_spec(r) == <Slice as FromSpec<RangeFrom<isize>>>::from_spec(
            RangeFrom { start: ((r@.start) as isize) },
        ),
{
}

/// `..=b` is `..b + 1`, except that `..=-1` is `..`, the whole axis, for
/// each index type (bounds taken `as isize`).
pub proof fn lemma_range_to_inclusive(b_isize: isize, b_usize: usize, b_i32: i32)
    ensures
        b_isize != -1 && b_isize < isize::MAX ==> <Slice as FromSpec<RangeToInclusive<isize>>>::from_spec(RangeToInclusive { end: b_isize }) == <Slice as FromSpec<RangeTo<isize>>>::from_spec(RangeTo { end: (b_isize + 1) as isize }),
        b_isize == -1 ==> <Slice as FromSpec<RangeToInclusive<isize>>>::from_spec(RangeToInclusive { end: b_isize }) == <Slice as FromSpec<RangeFull>>::from_spec(RangeFull),
        ((b_usize) as isize) != -1 && ((b_usize) as isize) < isize::MAX ==> <Slice as FromSpec<RangeToInclusive<usize>>>::from_spec(RangeToInclusive { end: b_usize }) == <Slice as FromSpec<RangeTo<isize>>>::from_spec(RangeTo { end: (((b_usize) as isize) + 1) as isize }),
        ((b_usize) as isize) == -1 ==> <Slice as FromSpec<RangeToInclusive<usize>>>::from_spec(RangeToInclusive { end: b_usize }) == <Slice as FromSpec<RangeFull>>::from_spec(RangeFull),
        ((b_i32) as isize) != -1 && ((b_i32) as isize) < isize::MAX ==> <Slice as FromSpec<RangeToInclusive<i32>>>::from_spec(RangeToInclusive { end: b_i32 }) == <Slice as FromSpec<RangeTo<isize>>>::from_spec(RangeTo { end: (((b_i32) as isize) + 1) as isize }),
        ((b_i32) as isize) == -1 ==> <Slice as FromSpec<RangeToInclusive<i32>>>::from_spec(RangeToInclusive { end: b_i32 }) == <Slice as FromSpec<RangeFull>>::from_spec(RangeFull),
{
}

/// Every range becomes the same `SliceOrIndex` as the `Slice` it becomes,
/// converted on: both conversions agree, for every range kind and index type.
pub proof fn lemma_slice_or_index_agrees_with_slice(a_isize: isize, b_isize: isize, r_isize: RangeInclusive<isize>, a_usize: usize, b_usize: usize, r_usize: RangeInclusive<usize>, a_i32: i32, b_i32: i32, r_i32: RangeInclusive<i32>)
    ensures
        <SliceOrIndex as FromSpec<Range<isize>>>::from_spec(Range { start: a_isize, end: b_isize }) == <SliceOrIndex as FromSpec<Slice>>::from_spec(<Slice as FromSpec<Range<isize>>>::from_spec(Range { start: a_isize, end: b_isize })),
        <SliceOrIndex as FromSpec<RangeFrom<isize>>>::from_spec(RangeFrom { start: a_isize }) == <SliceOrIndex as FromSpec<Slice>>::from_spec(<Slice as FromSpec<RangeFrom<isize>>>::from_spec(RangeFrom { start: a_isize })),
        <SliceOrIndex as FromSpec<RangeTo<isize>>>::from_spec(RangeTo { end: b_isize }) == <SliceOrIndex as FromSpec<Slice>>::from_spec(<Slice as FromSpec<RangeTo<isize>>>::from_spec(RangeTo { end: b_isize })),
        <SliceOrIndex as FromSpec<RangeToInclusive<isize>>>::from_spec(RangeToInclusive { end: b_isize }) == <SliceOrIndex as FromSpec<Slice>>::from_spec(<Slice as FromSpec<RangeToInclusive<isize>>>::from_spec(RangeToInclusive { end: b_isize })),
        <SliceOrIndex as FromSpec<RangeInclusive<isize>>>::from_spec(r_isize) == <SliceOrIndex as FromSpec<Slice>>::from_spec(<Slice as FromSpec<RangeInclusive<isize>>>::from_spec(r_isize)),
        <SliceOrIndex as FromSpec<Range<usize>>>::from_spec(Range { start: a_usize, end: b_usize }) == <SliceOrIndex as FromSpec<Slice>>::from_spec(<Slice as FromSpec<Range<usize>>>::from_spec(Range { start: a_usize, end: b_usize })),
        <SliceOrIndex as FromSpec<RangeFrom<usize>>>::from_spec(RangeFrom { start: a_usize }) == <SliceOrIndex as FromSpec<Slice>>::from_spec(<Slice as FromSpec<RangeFrom<usize>>>::from_spec(RangeFrom { start: a_usize })),
        <SliceOrIndex as FromSpec<RangeTo<usize>>>::from_spec(RangeTo { end: b_usize }) == <SliceOrIndex as FromSpec<Slice>>::from_spec(<Slice as FromSpec<RangeTo<usize>>>::from_spec(RangeTo { end: b_usize })),
        <SliceOrIndex as FromSpec<RangeToInclusive<usize>>>::from_spec(RangeToInclusive { end: b_usize }) == <SliceOrIndex as FromSpec<Slice>>::from_spec(<Slice as FromSpec<RangeToInclusive<usize>>>::from_spec(RangeToInclusive { end: b_usize })),
        <SliceOrIndex as FromSpec<RangeInclusive<usize>>>::from_spec(r_usize) == <SliceOrIndex as FromSpec<Slice>>::from_spec(<Slice as FromSpec<RangeInclusive<usize>>>::from_spec(r_usize)),
        <SliceOrIndex as FromSpec<Range<i32>>>::from_spec(Range { start: a_i32, end: b_i32 }) == <SliceOrIndex as FromSpec<Slice>>::from_spec(<Slice as FromSpec<Range<i32>>>::from_spec(Range { start: a_i32, end: b_i32 })),
        <SliceOrIndex as FromSpec<RangeFrom<i32>>>::from_spec(RangeFrom { start: a_i32 }) == <SliceOrIndex as FromSpec<Slice>>::from_spec(<Slice as FromSpec<RangeFrom<i32>>>::from_spec(RangeFrom { start: a_i32 })),
        <SliceOrIndex as FromSpec<RangeTo<i32>>>::from_spec(RangeTo { end: b_i32 }) == <SliceOrIndex as FromSpec<Slice>>::from_spec(<Slice as FromSpec<RangeTo<i32>>>::from_spec(RangeTo { end: b_i32 })),
        <SliceOrIndex as FromSpec<RangeToInclusive<i32>>>::from_spec(RangeToInclusive { end: b_i32 }) == <SliceOrIndex as FromSpec<Slice>>::from_spec(<Slice as FromSpec<RangeToInclusive<i32>>>::from_spec(RangeToInclusive { end: b_i32 })),
        <SliceOrIndex as FromSpec<RangeInclusive<i32>>>::from_spec(r_i32) == <SliceOrIndex as FromSpec<Slice>>::from_spec(<Slice as FromSpec<RangeInclusive<i32>>>::from_spec(r_i32)),
        <SliceOrIndex as FromSpec<RangeFull>>::from_spec(RangeFull) == <SliceOrIndex as FromSpec<Slice>>::from_spec(<Slice as FromSpec<RangeFull>>::from_spec(RangeFull)),
{
}

/// A `Slice` converts with its start, end and step kept; an index of each
/// index type becomes `Index` of it, taken `as isize`.
pub proof fn lemma_slice_and_index_conversions(s: Slice, i_isize: isize, i_usize: usize, i_i32: i32)
    ensures
        <SliceOrIndex as FromSpec<Slice>>::from_spec(s) == (SliceOrIndex::Slice { start: s.start, end: s.end, step: s.step }),
        <SliceOrIndex as FromSpec<isize>>::from_spec(i_isize) == SliceOrIndex::Index(i_isize),
        <SliceOrIndex as FromSpec<usize>>::from_spec(i_usize) == SliceOrIndex::Index(((i_usize) as isize)),
        <SliceOrIndex as FromSpec<i32>>::from_spec(i_i32) == SliceOrIndex::Index(((i_i32) as isize)),
{
}

} // verus!
