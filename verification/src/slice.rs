//! The per-axis slicing arguments: [`Slice`] and [`SliceOrIndex`].

use vstd::prelude::*;
use vstd::string::StringExecFns;
use crate::text::{int_text, push_int};

verus! {

/// A slice (range with step size).
///
/// `end` is an exclusive index. Negative `start` or `end` indexes are counted
/// from the back of the axis. If `end` is `None`, the slice extends to the end
/// of the axis.
///
/// `Slice::new(0, None, 1)` is the full range of an axis, as is
/// `Slice::from(..)`; `Slice::new(a, Some(b), 2)` is every second element from
/// `a` until `b`, as is `Slice::from(a..b).step_by(2)`; `Slice::new(a, None, -1)`
/// is every element from `a` until the end, in reverse order, as is
/// `Slice::from(a..).step_by(-1)`.
#[derive(Copy, Clone, Debug, PartialEq, Eq, Hash, Structural)]
pub struct Slice {
    pub start: isize,
    pub end: Option<isize>,
    pub step: isize,
}

/// Whether multiplying a step size `step` by `factor` stays within `isize`.
pub open spec fn step_product_fits(step: isize, factor: isize) -> bool {
    isize::MIN <= step * factor <= isize::MAX
}

impl Slice {
    /// This slice with its step size multiplied by `factor`.
    pub open spec fn stepped(self, factor: isize) -> Slice {
        Slice { step: (self.step * factor) as isize, ..self }
    }

    /// Create a new `Slice` with the given extents. `step` must be nonzero.
    pub fn new(start: isize, end: Option<isize>, step: isize) -> (s: Slice)
        requires
            step != 0,
        ensures
            s == (Slice { start, end, step }),
    {
        Slice { start, end, step }
    }

    /// Create a new `Slice` with the given step size (multiplied with the
    /// previous step size). `step` must be nonzero.
    pub fn step_by(self, step: isize) -> (s: Slice)
        requires
            step != 0,
            step_product_fits(self.step, step),
        ensures
            s == self.stepped(step),
            s.start == self.start,
            s.end == self.end,
            s.step == self.step * step,
    {
        Slice { step: self.step * step, ..self }
    }
}

/// A slice (range with step) or an index.
///
/// `SliceOrIndex::Index(a)` is the index `a`, as is `SliceOrIndex::from(a)`.
/// `SliceOrIndex::Slice { start: 0, end: None, step: 1 }` is the full range of
/// an axis, as is `SliceOrIndex::from(..)`.
/// `SliceOrIndex::Slice { start: a, end: Some(b), step: 2 }` is every second
/// element from `a` until `b`, as is `SliceOrIndex::from(a..b).step_by(2)`.
/// `SliceOrIndex::Slice { start: a, end: None, step: -1 }` is every element,
/// from `a` until the end, in reverse order, as is
/// `SliceOrIndex::from(a..).step_by(-1)`.
#[derive(Copy, Clone, Debug, PartialEq, Eq, Hash, Structural)]
pub enum SliceOrIndex {
    /// A range with step size. `end` is an exclusive index. Negative `start`
    /// or `end` indexes are counted from the back of the axis. If `end` is
    /// `None`, the slice extends to the end of the axis.
    Slice { start: isize, end: Option<isize>, step: isize },
    /// A single index.
    Index(isize),
}

/// Whether `step_by(factor)` on `s` keeps the step size within `isize`.
pub open spec fn can_step_by(s: SliceOrIndex, factor: isize) -> bool {
    factor != 0 && match s {
        SliceOrIndex::Slice { step, .. } => step_product_fits(step, factor),
        SliceOrIndex::Index(_) => true,
    }
}

impl SliceOrIndex {
    /// A slice's step size multiplied by `factor`; an index is left as it is.
    pub open spec fn stepped(self, factor: isize) -> SliceOrIndex {
        match self {
            SliceOrIndex::Slice { start, end, step } => SliceOrIndex::Slice {
                start,
                end,
                step: (step * factor) as isize,
            },
            SliceOrIndex::Index(i) => SliceOrIndex::Index(i),
        }
    }

    /// The text that `s![]` takes for this argument: an index as a number;
    /// a slice as `start..end;step`, where a start of `0`, an end of `None`
    /// and a step of `1` are left out.
    pub open spec fn text(self) -> Seq<char> {
        match self {
            SliceOrIndex::Index(i) => int_text(i as int),
            SliceOrIndex::Slice { start, end, step } => {
                (if start != 0 { int_text(start as int) } else { Seq::<char>::empty() })
                    + seq!['.', '.']
                    + (match end {
                        Some(e) => int_text(e as int),
                        None => Seq::<char>::empty(),
                    })
                    + (if step != 1 { seq![';'] + int_text(step as int) } else { Seq::<char>::empty() })
            },
        }
    }

    /// Returns `true` if `self` is a `Slice` value.
    pub fn is_slice(&self) -> (r: bool)
        ensures
            r == (*self is Slice),
    {
        match self {
            SliceOrIndex::Slice { .. } => true,
            _ => false,
        }
    }

    /// Returns `true` if `self` is an `Index` value.
    pub fn is_index(&self) -> (r: bool)
        ensures
            r == (*self is Index),
    {
        match self {
            SliceOrIndex::Index(_) => true,
            _ => false,
        }
    }

    /// Returns a new `SliceOrIndex` with the given step size (multiplied with
    /// the previous step size). `step` must be nonzero.
    pub fn step_by(self, step: isize) -> (s: SliceOrIndex)
        requires
            can_step_by(self, step),
        ensures
            s == self.stepped(step),
    {
        match self {
            SliceOrIndex::Slice { start, end, step: orig_step } => SliceOrIndex::Slice {
                start,
                end,
                step: orig_step * step,
            },
            SliceOrIndex::Index(s) => SliceOrIndex::Index(s),
        }
    }

    /// The text of this argument, as `s![]` takes it: see [`Self::text`].
    pub fn to_string(&self) -> (s: String)
        ensures
            s@ == self.text(),
    {
        let mut out = String::new();
        match *self {
            SliceOrIndex::Index(index) => {
                push_int(&mut out, index);
            },
            SliceOrIndex::Slice { start, end, step } => {
                if start != 0 {
                    push_int(&mut out, start);
                }
                proof {
                    reveal_strlit("..");
                    reveal_strlit(";");
                }
                out.append("..");
                if let Some(i) = end {
                    push_int(&mut out, i);
                }
                if step != 1 {
                    out.append(";");
                    push_int(&mut out, step);
                }
            },
        }
        out
    }
}

} // verus!
