//! Conversions from ranges and indices into slicing arguments.
//!
//! A range of `isize`, `usize` or `i32` becomes a slice with step size 1; an
//! index becomes `SliceOrIndex::Index`. Values are taken with `as isize`. An
//! inclusive end `e` becomes the exclusive end `e + 1`, except that an
//! inclusive end of `-1` (the last element) becomes `None` (see
//! [`exclusive_end`]).

use vstd::prelude::*;
use std::ops::{Range, RangeFrom, RangeFull, RangeInclusive, RangeTo, RangeToInclusive};
use crate::slice::{Slice, SliceOrIndex};

verus! {

/// `std::ops::RangeFrom`, declared with its public field `start`, which
/// Verus reads as it is (nothing about the type is assumed beyond its
/// definition).
#[verifier::external_type_specification]
#[verifier::reject_recursive_types(Idx)]
pub struct ExRangeFrom<Idx>(RangeFrom<Idx>);

/// `std::ops::RangeTo`, declared with its public field `end`.
#[verifier::external_type_specification]
#[verifier::reject_recursive_types(Idx)]
pub struct ExRangeTo<Idx>(RangeTo<Idx>);

/// `std::ops::RangeToInclusive`, declared with its public field `end`.
#[verifier::external_type_specification]
#[verifier::reject_recursive_types(Idx)]
pub struct ExRangeToInclusive<Idx>(RangeToInclusive<Idx>);

/// `std::ops::RangeFull`, a unit struct.
#[verifier::external_type_specification]
pub struct ExRangeFull(RangeFull);

/// `RangeInclusive::start` returns a reference to the range's lower bound:
/// its `start` field, which `r@.start` stands for.
pub assume_specification<Idx>[ RangeInclusive::<Idx>::start ](r: &RangeInclusive<Idx>) -> (res: &Idx)
    ensures
        *res == r@.start,
;

/// `RangeInclusive::end` returns a reference to the range's upper bound:
/// its `end` field, which `r@.end` stands for.
pub assume_specification<Idx>[ RangeInclusive::<Idx>::end ](r: &RangeInclusive<Idx>) -> (res: &Idx)
    ensures
        *res == r@.end,
;

/// The exclusive end for the inclusive end `end`: `None` for `-1`, else
/// `end + 1`. A conversion has no precondition, so for `isize::MAX`, whose
/// successor is no `isize`, the end wraps to `isize::MIN`, as `isize`
/// addition does in builds without overflow checks.
pub open spec fn exclusive_end(end: isize) -> Option<isize> {
    if end == -1 {
        None
    } else if end == isize::MAX {
        Some(isize::MIN)
    } else {
        Some((end + 1) as isize)
    }
}

fn exclusive_end_of(end: isize) -> (r: Option<isize>)
    ensures
        r == exclusive_end(end),
{
    if end == -1 {
        None
    } else if end == isize::MAX {
        Some(isize::MIN)
    } else {
        Some(end + 1)
    }
}

impl From<Range<isize>> for Slice {
    fn from(r: Range<isize>) -> (s: Slice) {
        Slice { start: r.start, end: Some(r.end), step: 1 }
    }
}

impl vstd::std_specs::convert::FromSpecImpl<Range<isize>> for Slice {
    open spec fn obeys_from_spec() -> bool {
        true
    }

    open spec fn from_spec(r: Range<isize>) -> Slice {
        Slice { start: r.start, end: Some(r.end), step: 1 }
    }
}

impl From<Range<usize>> for Slice {
    fn from(r: Range<usize>) -> (s: Slice) {
        Slice { start: r.start as isize, end: Some(r.end as isize), step: 1 }
    }
}

impl vstd::std_specs::convert::FromSpecImpl<Range<usize>> for Slice {
    open spec fn obeys_from_spec() -> bool {
        true
    }

    open spec fn from_spec(r: Range<usize>) -> Slice {
        Slice { start: r.start as isize, end: Some(r.end as isize), step: 1 }
    }
}

impl From<Range<i32>> for Slice {
    fn from(r: Range<i32>) -> (s: Slice) {
        Slice { start: r.start as isize, end: Some(r.end as isize), step: 1 }
    }
}

impl vstd::std_specs::convert::FromSpecImpl<Range<i32>> for Slice {
    open spec fn obeys_from_spec() -> bool {
        true
    }

    open spec fn from_spec(r: Range<i32>) -> Slice {
        Slice { start: r.start as isize, end: Some(r.end as isize), step: 1 }
    }
}

impl From<RangeInclusive<isize>> for Slice {
    fn from(r: RangeInclusive<isize>) -> (s: Slice) {
        Slice { start: *r.start(), end: exclusive_end_of(*r.end()), step: 1 }
    }
}

impl vstd::std_specs::convert::FromSpecImpl<RangeInclusive<isize>> for Slice {
    open spec fn obeys_from_spec() -> bool {
        true
    }

    open spec fn from_spec(r: RangeInclusive<isize>) -> Slice {
        Slice { start: r@.start, end: exclusive_end(r@.end), step: 1 }
    }
}

impl From<RangeInclusive<usize>> for Slice {
    fn from(r: RangeInclusive<usize>) -> (s: Slice) {
        Slice { start: (*r.start()) as isize, end: exclusive_end_of((*r.end()) as isize), step: 1 }
    }
}

impl vstd::std_specs::convert::FromSpecImpl<RangeInclusive<usize>> for Slice {
    open spec fn obeys_from_spec() -> bool {
        true
    }

    open spec fn from_spec(r: RangeInclusive<usize>) -> Slice {
        Slice { start: (r@.start) as isize, end: exclusive_end((r@.end) as isize), step: 1 }
    }
}

impl From<RangeInclusive<i32>> for Slice {
    fn from(r: RangeInclusive<i32>) -> (s: Slice) {
        Slice { start: (*r.start()) as isize, end: exclusive_end_of((*r.end()) as isize), step: 1 }
    }
}

impl vstd::std_specs::convert::FromSpecImpl<RangeInclusive<i32>> for Slice {
    open spec fn obeys_from_spec() -> bool {
        true
    }

    open spec fn from_spec(r: RangeInclusive<i32>) -> Slice {
        Slice { start: (r@.start) as isize, end: exclusive_end((r@.end) as isize), step: 1 }
    }
}

impl From<RangeFrom<isize>> for Slice {
    fn from(r: RangeFrom<isize>) -> (s: Slice) {
        Slice { start: r.start, end: None, step: 1 }
    }
}

impl vstd::std_specs::convert::FromSpecImpl<RangeFrom<isize>> for Slice {
    open spec fn obeys_from_spec() -> bool {
        true
    }

    open spec fn from_spec(r: RangeFrom<isize>) -> Slice {
        Slice { start: r.start, end: None, step: 1 }
    }
}

impl From<RangeFrom<usize>> for Slice {
    fn from(r: RangeFrom<usize>) -> (s: Slice) {
        Slice { start: r.start as isize, end: None, step: 1 }
    }
}

impl vstd::std_specs::convert::FromSpecImpl<RangeFrom<usize>> for Slice {
    open spec fn obeys_from_spec() -> bool {
        true
    }

    open spec fn from_spec(r: RangeFrom<usize>) -> Slice {
        Slice { start: r.start as isize, end: None, step: 1 }
    }
}

impl From<RangeFrom<i32>> for Slice {
    fn from(r: RangeFrom<i32>) -> (s: Slice) {
        Slice { start: r.start as isize, end: None, step: 1 }
    }
}

impl vstd::std_specs::convert::FromSpecImpl<RangeFrom<i32>> for Slice {
    open spec fn obeys_from_spec() -> bool {
        true
    }

    open spec fn from_spec(r: RangeFrom<i32>) -> Slice {
        Slice { start: r.start as isize, end: None, step: 1 }
    }
}

impl From<RangeTo<isize>> for Slice {
    fn from(r: RangeTo<isize>) -> (s: Slice) {
        Slice { start: 0, end: Some(r.end), step: 1 }
    }
}

impl vstd::std_specs::convert::FromSpecImpl<RangeTo<isize>> for Slice {
    open spec fn obeys_from_spec() -> bool {
        true
    }

    open spec fn from_spec(r: RangeTo<isize>) -> Slice {
        Slice { start: 0, end: Some(r.end), step: 1 }
    }
}

impl From<RangeTo<usize>> for Slice {
    fn from(r: RangeTo<usize>) -> (s: Slice) {
        Slice { start: 0, end: Some(r.end as isize), step: 1 }
    }
}

impl vstd::std_specs::convert::FromSpecImpl<RangeTo<usize>> for Slice {
    open spec fn obeys_from_spec() -> bool {
        true
    }

    open spec fn from_spec(r: RangeTo<usize>) -> Slice {
        Slice { start: 0, end: Some(r.end as isize), step: 1 }
    }
}

impl From<RangeTo<i32>> for Slice {
    fn from(r: RangeTo<i32>) -> (s: Slice) {
        Slice { start: 0, end: Some(r.end as isize), step: 1 }
    }
}

impl vstd::std_specs::convert::FromSpecImpl<RangeTo<i32>> for Slice {
    open spec fn obeys_from_spec() -> bool {
        true
    }

    open spec fn from_spec(r: RangeTo<i32>) -> Slice {
        Slice { start: 0, end: Some(r.end as isize), step: 1 }
    }
}

impl From<RangeToInclusive<isize>> for Slice {
    fn from(r: RangeToInclusive<isize>) -> (s: Slice) {
        Slice { start: 0, end: exclusive_end_of(r.end), step: 1 }
    }
}

impl vstd::std_specs::convert::FromSpecImpl<RangeToInclusive<isize>> for Slice {
    open spec fn obeys_from_spec() -> bool {
        true
    }

    open spec fn from_spec(r: RangeToInclusive<isize>) -> Slice {
        Slice { start: 0, end: exclusive_end(r.end), step: 1 }
    }
}

impl From<RangeToInclusive<usize>> for Slice {
    fn from(r: RangeToInclusive<usize>) -> (s: Slice) {
        Slice { start: 0, end: exclusive_end_of(r.end as isize), step: 1 }
    }
}

impl vstd::std_specs::convert::FromSpecImpl<RangeToInclusive<usize>> for Slice {
    open spec fn obeys_from_spec() -> bool {
        true
    }

    open spec fn from_spec(r: RangeToInclusive<usize>) -> Slice {
        Slice { start: 0, end: exclusive_end(r.end as isize), step: 1 }
    }
}

impl From<RangeToInclusive<i32>> for Slice {
    fn from(r: RangeToInclusive<i32>) -> (s: Slice) {
        Slice { start: 0, end: exclusive_end_of(r.end as isize), step: 1 }
    }
}

impl vstd::std_specs::convert::FromSpecImpl<RangeToInclusive<i32>> for Slice {
    open spec fn obeys_from_spec() -> bool {
        true
    }

    open spec fn from_spec(r: RangeToInclusive<i32>) -> Slice {
        Slice { start: 0, end: exclusive_end(r.end as isize), step: 1 }
    }
}

impl From<RangeFull> for Slice {
    fn from(_r: RangeFull) -> (s: Slice) {
        Slice { start: 0, end: None, step: 1 }
    }
}

impl vstd::std_specs::convert::FromSpecImpl<RangeFull> for Slice {
    open spec fn obeys_from_spec() -> bool {
        true
    }

    open spec fn from_spec(_r: RangeFull) -> Slice {
        Slice { start: 0, end: None, step: 1 }
    }
}

impl From<Range<isize>> for SliceOrIndex {
    fn from(r: Range<isize>) -> (s: SliceOrIndex) {
        SliceOrIndex::Slice { start: r.start, end: Some(r.end), step: 1 }
    }
}

impl vstd::std_specs::convert::FromSpecImpl<Range<isize>> for SliceOrIndex {
    open spec fn obeys_from_spec() -> bool {
        true
    }

    open spec fn from_spec(r: Range<isize>) -> SliceOrIndex {
        SliceOrIndex::Slice { start: r.start, end: Some(r.end), step: 1 }
    }
}

impl From<Range<usize>> for SliceOrIndex {
    fn from(r: Range<usize>) -> (s: SliceOrIndex) {
        SliceOrIndex::Slice { start: r.start as isize, end: Some(r.end as isize), step: 1 }
    }
}

impl vstd::std_specs::convert::FromSpecImpl<Range<usize>> for SliceOrIndex {
    open spec fn obeys_from_spec() -> bool {
        true
    }

    open spec fn from_spec(r: Range<usize>) -> SliceOrIndex {
        SliceOrIndex::Slice { start: r.start as isize, end: Some(r.end as isize), step: 1 }
    }
}

impl From<Range<i32>> for SliceOrIndex {
    fn from(r: Range<i32>) -> (s: SliceOrIndex) {
        SliceOrIndex::Slice { start: r.start as isize, end: Some(r.end as isize), step: 1 }
    }
}

impl vstd::std_specs::convert::FromSpecImpl<Range<i32>> for SliceOrIndex {
    open spec fn obeys_from_spec() -> bool {
        true
    }

    open spec fn from_spec(r: Range<i32>) -> SliceOrIndex {
        SliceOrIndex::Slice { start: r.start as isize, end: Some(r.end as isize), step: 1 }
    }
}

impl From<RangeInclusive<isize>> for SliceOrIndex {
    fn from(r: RangeInclusive<isize>) -> (s: SliceOrIndex) {
        SliceOrIndex::Slice { start: *r.start(), end: exclusive_end_of(*r.end()), step: 1 }
    }
}

impl vstd::std_specs::convert::FromSpecImpl<RangeInclusive<isize>> for SliceOrIndex {
    open spec fn obeys_from_spec() -> bool {
        true
    }

    open spec fn from_spec(r: RangeInclusive<isize>) -> SliceOrIndex {
        SliceOrIndex::Slice { start: r@.start, end: exclusive_end(r@.end), step: 1 }
    }
}

impl From<RangeInclusive<usize>> for SliceOrIndex {
    fn from(r: RangeInclusive<usize>) -> (s: SliceOrIndex) {
        SliceOrIndex::Slice { start: (*r.start()) as isize, end: exclusive_end_of((*r.end()) as isize), step: 1 }
    }
}

impl vstd::std_specs::convert::FromSpecImpl<RangeInclusive<usize>> for SliceOrIndex {
    open spec fn obeys_from_spec() -> bool {
        true
    }

    open spec fn from_spec(r: RangeInclusive<usize>) -> SliceOrIndex {
        SliceOrIndex::Slice { start: (r@.start) as isize, end: exclusive_end((r@.end) as isize), step: 1 }
    }
}

impl From<RangeInclusive<i32>> for SliceOrIndex {
    fn from(r: RangeInclusive<i32>) -> (s: SliceOrIndex) {
        SliceOrIndex::Slice { start: (*r.start()) as isize, end: exclusive_end_of((*r.end()) as isize), step: 1 }
    }
}

impl vstd::std_specs::convert::FromSpecImpl<RangeInclusive<i32>> for SliceOrIndex {
    open spec fn obeys_from_spec() -> bool {
        true
    }

    open spec fn from_spec(r: RangeInclusive<i32>) -> SliceOrIndex {
        SliceOrIndex::Slice { start: (r@.start) as isize, end: exclusive_end((r@.end) as isize), step: 1 }
    }
}

impl From<RangeFrom<isize>> for SliceOrIndex {
    fn from(r: RangeFrom<isize>) -> (s: SliceOrIndex) {
        SliceOrIndex::Slice { start: r.start, end: None, step: 1 }
    }
}

impl vstd::std_specs::convert::FromSpecImpl<RangeFrom<isize>> for SliceOrIndex {
    open spec fn obeys_from_spec() -> bool {
        true
    }

    open spec fn from_spec(r: RangeFrom<isize>) -> SliceOrIndex {
        SliceOrIndex::Slice { start: r.start, end: None, step: 1 }
    }
}

impl From<RangeFrom<usize>> for SliceOrIndex {
    fn from(r: RangeFrom<usize>) -> (s: SliceOrIndex) {
        SliceOrIndex::Slice { start: r.start as isize, end: None, step: 1 }
    }
}

impl vstd::std_specs::convert::FromSpecImpl<RangeFrom<usize>> for SliceOrIndex {
    open spec fn obeys_from_spec() -> bool {
        true
    }

    open spec fn from_spec(r: RangeFrom<usize>) -> SliceOrIndex {
        SliceOrIndex::Slice { start: r.start as isize, end: None, step: 1 }
    }
}

impl From<RangeFrom<i32>> for SliceOrIndex {
    fn from(r: RangeFrom<i32>) -> (s: SliceOrIndex) {
        SliceOrIndex::Slice { start: r.start as isize, end: None, step: 1 }
    }
}

impl vstd::std_specs::convert::FromSpecImpl<RangeFrom<i32>> for SliceOrIndex {
    open spec fn obeys_from_spec() -> bool {
        true
    }

    open spec fn from_spec(r: RangeFrom<i32>) -> SliceOrIndex {
        SliceOrIndex::Slice { start: r.start as isize, end: None, step: 1 }
    }
}

impl From<RangeTo<isize>> for SliceOrIndex {
    fn from(r: RangeTo<isize>) -> (s: SliceOrIndex) {
        SliceOrIndex::Slice { start: 0, end: Some(r.end), step: 1 }
    }
}

impl vstd::std_specs::convert::FromSpecImpl<RangeTo<isize>> for SliceOrIndex {
    open spec fn obeys_from_spec() -> bool {
        true
    }

    open spec fn from_spec(r: RangeTo<isize>) -> SliceOrIndex {
        SliceOrIndex::Slice { start: 0, end: Some(r.end), step: 1 }
    }
}

impl From<RangeTo<usize>> for SliceOrIndex {
    fn from(r: RangeTo<usize>) -> (s: SliceOrIndex) {
        SliceOrIndex::Slice { start: 0, end: Some(r.end as isize), step: 1 }
    }
}

impl vstd::std_specs::convert::FromSpecImpl<RangeTo<usize>> for SliceOrIndex {
    open spec fn obeys_from_spec() -> bool {
        true
    }

    open spec fn from_spec(r: RangeTo<usize>) -> SliceOrIndex {
        SliceOrIndex::Slice { start: 0, end: Some(r.end as isize), step: 1 }
    }
}

impl From<RangeTo<i32>> for SliceOrIndex {
    fn from(r: RangeTo<i32>) -> (s: SliceOrIndex) {
        SliceOrIndex::Slice { start: 0, end: Some(r.end as isize), step: 1 }
    }
}

impl vstd::std_specs::convert::FromSpecImpl<RangeTo<i32>> for SliceOrIndex {
    open spec fn obeys_from_spec() -> bool {
        true
    }

    open spec fn from_spec(r: RangeTo<i32>) -> SliceOrIndex {
        SliceOrIndex::Slice { start: 0, end: Some(r.end as isize), step: 1 }
    }
}

impl From<RangeToInclusive<isize>> for SliceOrIndex {
    fn from(r: RangeToInclusive<isize>) -> (s: SliceOrIndex) {
        SliceOrIndex::Slice { start: 0, end: exclusive_end_of(r.end), step: 1 }
    }
}

impl vstd::std_specs::convert::FromSpecImpl<RangeToInclusive<isize>> for SliceOrIndex {
    open spec fn obeys_from_spec() -> bool {
        true
    }

    open spec fn from_spec(r: RangeToInclusive<isize>) -> SliceOrIndex {
        SliceOrIndex::Slice { start: 0, end: exclusive_end(r.end), step: 1 }
    }
}

impl From<RangeToInclusive<usize>> for SliceOrIndex {
    fn from(r: RangeToInclusive<usize>) -> (s: SliceOrIndex) {
        SliceOrIndex::Slice { start: 0, end: exclusive_end_of(r.end as isize), step: 1 }
    }
}

impl vstd::std_specs::convert::FromSpecImpl<RangeToInclusive<usize>> for SliceOrIndex {
    open spec fn obeys_from_spec() -> bool {
        true
    }

    open spec fn from_spec(r: RangeToInclusive<usize>) -> SliceOrIndex {
        SliceOrIndex::Slice { start: 0, end: exclusive_end(r.end as isize), step: 1 }
    }
}

impl From<RangeToInclusive<i32>> for SliceOrIndex {
    fn from(r: RangeToInclusive<i32>) -> (s: SliceOrIndex) {
        SliceOrIndex::Slice { start: 0, end: exclusive_end_of(r.end as isize), step: 1 }
    }
}

impl vstd::std_specs::convert::FromSpecImpl<RangeToInclusive<i32>> for SliceOrIndex {
    open spec fn obeys_from_spec() -> bool {
        true
    }

    open spec fn from_spec(r: RangeToInclusive<i32>) -> SliceOrIndex {
        SliceOrIndex::Slice { start: 0, end: exclusive_end(r.end as isize), step: 1 }
    }
}

impl From<RangeFull> for SliceOrIndex {
    fn from(_r: RangeFull) -> (s: SliceOrIndex) {
        SliceOrIndex::Slice { start: 0, end: None, step: 1 }
    }
}

impl vstd::std_specs::convert::FromSpecImpl<RangeFull> for SliceOrIndex {
    open spec fn obeys_from_spec() -> bool {
        true
    }

    open spec fn from_spec(_r: RangeFull) -> SliceOrIndex {
        SliceOrIndex::Slice { start: 0, end: None, step: 1 }
    }
}

impl From<Slice> for SliceOrIndex {
    fn from(s: Slice) -> (r: SliceOrIndex) {
        SliceOrIndex::Slice { start: s.start, end: s.end, step: s.step }
    }
}

impl vstd::std_specs::convert::FromSpecImpl<Slice> for SliceOrIndex {
    open spec fn obeys_from_spec() -> bool {
        true
    }

    open spec fn from_spec(s: Slice) -> SliceOrIndex {
        SliceOrIndex::Slice { start: s.start, end: s.end, step: s.step }
    }
}

impl From<isize> for SliceOrIndex {
    fn from(r: isize) -> (s: SliceOrIndex) {
        SliceOrIndex::Index(r)
    }
}

impl vstd::std_specs::convert::FromSpecImpl<isize> for SliceOrIndex {
    open spec fn obeys_from_spec() -> bool {
        true
    }

    open spec fn from_spec(r: isize) -> SliceOrIndex {
        SliceOrIndex::Index(r)
    }
}

impl From<usize> for SliceOrIndex {
    fn from(r: usize) -> (s: SliceOrIndex) {
        SliceOrIndex::Index(r as isize)
    }
}

impl vstd::std_specs::convert::FromSpecImpl<usize> for SliceOrIndex {
    open spec fn obeys_from_spec() -> bool {
        true
    }

    open spec fn from_spec(r: usize) -> SliceOrIndex {
        SliceOrIndex::Index(r as isize)
    }
}

impl From<i32> for SliceOrIndex {
    fn from(r: i32) -> (s: SliceOrIndex) {
        SliceOrIndex::Index(r as isize)
    }
}

impl vstd::std_specs::convert::FromSpecImpl<i32> for SliceOrIndex {
    open spec fn obeys_from_spec() -> bool {
        true
    }

    open spec fn from_spec(r: i32) -> SliceOrIndex {
        SliceOrIndex::Index(r as isize)
    }
}

} // verus!
