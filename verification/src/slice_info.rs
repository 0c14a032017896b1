//! A list of per-axis slicing arguments together with the dimension type of
//! the result.

use vstd::prelude::*;
use std::marker::PhantomData;
use std::ops::{Range, RangeFrom, RangeFull, RangeInclusive, RangeTo, RangeToInclusive};
use crate::dimension::{larger_ndim, AddAxis, Dimension};
use crate::error::{ErrorKind, ShapeError};
use crate::slice::{Slice, SliceOrIndex};

verus! {

/// The number of `Slice` values in `s`: the number of axes that slicing
/// with `s` leaves (each `Index` removes its axis).
pub open spec fn count_slices(s: Seq<SliceOrIndex>) -> nat
    decreases s.len(),
{
    if s.len() == 0 {
        0
    } else {
        count_slices(s.drop_last()) + if s.last() is Slice {
            1nat
        } else {
            0nat
        }
    }
}

/// Whether a dimension type with `ndim` axes (`None`: a dynamic number) is
/// consistent with the arguments `s`.
pub open spec fn ndim_consistent(ndim: Option<usize>, s: Seq<SliceOrIndex>) -> bool {
    match ndim {
        Some(n) => n == count_slices(s),
        None => true,
    }
}

/// Returns the number of `Slice` values in `indices`.
pub fn num_slices(indices: &[SliceOrIndex]) -> (n: usize)
    ensures
        n == count_slices(indices@),
{
    let mut n: usize = 0;
    let mut i: usize = 0;
    while i < indices.len()
        invariant
            i <= indices@.len(),
            n <= i,
            n == count_slices(indices@.take(i as int)),
        decreases indices@.len() - i,
    {
        assert(indices@.take((i + 1) as int).drop_last() =~= indices@.take(i as int));
        if indices[i].is_slice() {
            n = n + 1;
        }
        i = i + 1;
    }
    assert(indices@.take(i as int) =~= indices@);
    n
}

/// Represents all of the necessary information to perform a slice: the
/// per-axis arguments, and the dimension type `D` of the output.
///
/// Its invariant: where `D` fixes the number of axes, that number is the
/// number of `Slice` values among the arguments.
#[derive(Debug)]
pub struct SliceInfo<D: Dimension> {
    out_dim: PhantomData<D>,
    indices: Vec<SliceOrIndex>,
}

impl<D: Dimension> View for SliceInfo<D> {
    type V = Seq<SliceOrIndex>;

    closed spec fn view(&self) -> Seq<SliceOrIndex> {
        self.indices@
    }
}

impl<D: Dimension> SliceInfo<D> {
    #[verifier::type_invariant]
    closed spec fn well_formed(self) -> bool {
        ndim_consistent(D::fixed_ndim(), self.indices@)
    }

    /// Returns a new `SliceInfo` instance. The caller guarantees that
    /// `out_dim` is consistent with `indices`.
    pub fn new_unchecked(indices: Vec<SliceOrIndex>, out_dim: PhantomData<D>) -> (info: Self)
        requires
            ndim_consistent(D::fixed_ndim(), indices@),
        ensures
            info@ == indices@,
    {
        SliceInfo { out_dim: out_dim, indices: indices }
    }

    /// Returns a new `SliceInfo` instance.
    ///
    /// Errors (`IncompatibleShape`) if `D` is not consistent with `indices`.
    pub fn new(indices: Vec<SliceOrIndex>) -> (r: Result<Self, ShapeError>)
        ensures
            r is Ok <==> ndim_consistent(D::fixed_ndim(), indices@),
            r matches Ok(info) ==> info@ == indices@,
            r matches Err(e) ==> e.spec_kind() == ErrorKind::IncompatibleShape,
    {
        if let Some(ndim) = D::ndim_const() {
            if ndim != num_slices(indices.as_slice()) {
                return Err(ShapeError::from_kind(ErrorKind::IncompatibleShape));
            }
        }
        Ok(SliceInfo { out_dim: PhantomData, indices: indices })
    }

    /// Returns the number of dimensions after slicing (including taking
    /// subviews): `D`'s number where it fixes one, else the number of
    /// `Slice` values; the two agree.
    pub fn out_ndim(&self) -> (n: usize)
        ensures
            n == count_slices(self@),
            D::fixed_ndim() matches Some(d) ==> n == d,
    {
        proof {
            use_type_invariant(self);
        }
        match D::ndim_const() {
            Some(ndim) => ndim,
            None => num_slices(self.indices.as_slice()),
        }
    }
}

impl<D: Dimension> AsRef<[SliceOrIndex]> for SliceInfo<D> {
    fn as_ref(&self) -> (s: &[SliceOrIndex])
        ensures
            s@ == self@,
    {
        self.indices.as_slice()
    }
}

impl<D: Dimension> std::ops::Deref for SliceInfo<D> {
    type Target = [SliceOrIndex];

    fn deref(&self) -> (s: &[SliceOrIndex])
        ensures
            s@ == self@,
    {
        self.indices.as_slice()
    }
}

impl<D: Dimension> Clone for SliceInfo<D> {
    fn clone(&self) -> (r: Self)
        ensures
            r@ == self@,
    {
        proof {
            use_type_invariant(self);
        }
        SliceInfo { out_dim: PhantomData, indices: self.indices.clone() }
    }
}

/// The dimension type `D2` that a slicing argument leads to from `D1`: an
/// index keeps the number of axes, a range or a slice adds one.
pub trait SliceNextDim<D1: Dimension, D2: Dimension> {
    /// Whether this argument adds an axis (a range or a slice) rather than
    /// keeping the number of axes (an index).
    spec fn adds_axis() -> bool;

    /// The dimension type after this argument: `D2`, whose number of axes is
    /// `D1`'s, one more where the argument adds an axis.
    fn next_dim(&self, d1: PhantomData<D1>) -> (d2: PhantomData<D2>)
        ensures
            D2::fixed_ndim() == if Self::adds_axis() {
                larger_ndim(D1::fixed_ndim())
            } else {
                D1::fixed_ndim()
            },
    ;
}

impl<D1: Dimension> SliceNextDim<D1, D1> for isize {
    open spec fn adds_axis() -> bool {
        false
    }

    fn next_dim(&self, d1: PhantomData<D1>) -> (d2: PhantomData<D1>) {
        PhantomData
    }
}

impl<D1: Dimension> SliceNextDim<D1, D1> for usize {
    open spec fn adds_axis() -> bool {
        false
    }

    fn next_dim(&self, d1: PhantomData<D1>) -> (d2: PhantomData<D1>) {
        PhantomData
    }
}

impl<D1: Dimension> SliceNextDim<D1, D1> for i32 {
    open spec fn adds_axis() -> bool {
        false
    }

    fn next_dim(&self, d1: PhantomData<D1>) -> (d2: PhantomData<D1>) {
        PhantomData
    }
}

impl<D1: AddAxis, T> SliceNextDim<D1, D1::Larger> for Range<T> where D1::Larger: Dimension {
    open spec fn adds_axis() -> bool {
        true
    }

    fn next_dim(&self, d1: PhantomData<D1>) -> (d2: PhantomData<D1::Larger>) {
        proof {
            D1::lemma_larger();
        }
        PhantomData
    }
}

impl<D1: AddAxis, T> SliceNextDim<D1, D1::Larger> for RangeInclusive<T> where D1::Larger: Dimension {
    open spec fn adds_axis() -> bool {
        true
    }

    fn next_dim(&self, d1: PhantomData<D1>) -> (d2: PhantomData<D1::Larger>) {
        proof {
            D1::lemma_larger();
        }
        PhantomData
    }
}

impl<D1: AddAxis, T> SliceNextDim<D1, D1::Larger> for RangeFrom<T> where D1::Larger: Dimension {
    open spec fn adds_axis() -> bool {
        true
    }

    fn next_dim(&self, d1: PhantomData<D1>) -> (d2: PhantomData<D1::Larger>) {
        proof {
            D1::lemma_larger();
        }
        PhantomData
    }
}

impl<D1: AddAxis, T> SliceNextDim<D1, D1::Larger> for RangeTo<T> where D1::Larger: Dimension {
    open spec fn adds_axis() -> bool {
        true
    }

    fn next_dim(&self, d1: PhantomData<D1>) -> (d2: PhantomData<D1::Larger>) {
        proof {
            D1::lemma_larger();
        }
        PhantomData
    }
}

impl<D1: AddAxis, T> SliceNextDim<D1, D1::Larger> for RangeToInclusive<T> where D1::Larger: Dimension {
    open spec fn adds_axis() -> bool {
        true
    }

    fn next_dim(&self, d1: PhantomData<D1>) -> (d2: PhantomData<D1::Larger>) {
        proof {
            D1::lemma_larger();
        }
        PhantomData
    }
}

impl<D1: AddAxis> SliceNextDim<D1, D1::Larger> for RangeFull where D1::Larger: Dimension {
    open spec fn adds_axis() -> bool {
        true
    }

    fn next_dim(&self, d1: PhantomData<D1>) -> (d2: PhantomData<D1::Larger>) {
        proof {
            D1::lemma_larger();
        }
        PhantomData
    }
}

impl<D1: AddAxis> SliceNextDim<D1, D1::Larger> for Slice where D1::Larger: Dimension {
    open spec fn adds_axis() -> bool {
        true
    }

    fn next_dim(&self, d1: PhantomData<D1>) -> (d2: PhantomData<D1::Larger>) {
        proof {
            D1::lemma_larger();
        }
        PhantomData
    }
}

} // verus!
