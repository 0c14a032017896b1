//! Dimension types: what a slicing argument list says about the number of
//! axes of its result.

use vstd::prelude::*;

verus! {

/// The number of axes of the next larger dimension type: one more, up to
/// six fixed axes; after six, and after a dynamic number, a dynamic number.
pub open spec fn larger_ndim(ndim: Option<usize>) -> Option<usize> {
    match ndim {
        Some(n) => if n < 6 {
            Some((n + 1) as usize)
        } else {
            None
        },
        None => None,
    }
}

/// A dimension type: a fixed number of axes, or a dynamic number.
pub trait Dimension: Sized {
    /// The dimension type with one axis more.
    type Larger;

    /// The number of axes when the type fixes it; `None` for a dynamic number.
    spec fn fixed_ndim() -> Option<usize>;

    /// Returns the number of axes when the type fixes it, `None` for a
    /// dynamic number.
    fn ndim_const() -> (r: Option<usize>)
        ensures
            r == Self::fixed_ndim(),
    ;
}

/// A dimension type whose `Larger` is a dimension type with one axis more
/// (see [`larger_ndim`]). Every dimension type here is one; the fact stands
/// in a trait of its own because Verus refuses a `Dimension` bound on
/// `Larger` where a type is its own `Larger` (`IxDyn`).
pub trait AddAxis: Dimension where <Self as Dimension>::Larger: Dimension {
    /// `Larger` has one axis more, up to six fixed axes.
    proof fn lemma_larger()
        ensures
            <<Self as Dimension>::Larger as Dimension>::fixed_ndim() == larger_ndim(Self::fixed_ndim()),
    ;
}

/// Zero axes.
#[derive(Copy, Clone, Debug, PartialEq, Eq, Hash, Default)]
pub struct Ix0;

/// One axis.
#[derive(Copy, Clone, Debug, PartialEq, Eq, Hash, Default)]
pub struct Ix1;

/// Two axes.
#[derive(Copy, Clone, Debug, PartialEq, Eq, Hash, Default)]
pub struct Ix2;

/// Three axes.
#[derive(Copy, Clone, Debug, PartialEq, Eq, Hash, Default)]
pub struct Ix3;

/// Four axes.
#[derive(Copy, Clone, Debug, PartialEq, Eq, Hash, Default)]
pub struct Ix4;

/// Five axes.
#[derive(Copy, Clone, Debug, PartialEq, Eq, Hash, Default)]
pub struct Ix5;

/// Six axes.
#[derive(Copy, Clone, Debug, PartialEq, Eq, Hash, Default)]
pub struct Ix6;

/// A dynamic number of axes.
#[derive(Copy, Clone, Debug, PartialEq, Eq, Hash, Default)]
pub struct IxDyn;

impl Dimension for Ix0 {
    type Larger = Ix1;

    open spec fn fixed_ndim() -> Option<usize> {
        Some(0)
    }

    fn ndim_const() -> (r: Option<usize>) {
        Some(0)
    }
}

impl Dimension for Ix1 {
    type Larger = Ix2;

    open spec fn fixed_ndim() -> Option<usize> {
        Some(1)
    }

    fn ndim_const() -> (r: Option<usize>) {
        Some(1)
    }
}

impl Dimension for Ix2 {
    type Larger = Ix3;

    open spec fn fixed_ndim() -> Option<usize> {
        Some(2)
    }

    fn ndim_const() -> (r: Option<usize>) {
        Some(2)
    }
}

impl Dimension for Ix3 {
    type Larger = Ix4;

    open spec fn fixed_ndim() -> Option<usize> {
        Some(3)
    }

    fn ndim_const() -> (r: Option<usize>) {
        Some(3)
    }
}

impl Dimension for Ix4 {
    type Larger = Ix5;

    open spec fn fixed_ndim() -> Option<usize> {
        Some(4)
    }

    fn ndim_const() -> (r: Option<usize>) {
        Some(4)
    }
}

impl Dimension for Ix5 {
    type Larger = Ix6;

    open spec fn fixed_ndim() -> Option<usize> {
        Some(5)
    }

    fn ndim_const() -> (r: Option<usize>) {
        Some(5)
    }
}

impl Dimension for Ix6 {
    type Larger = IxDyn;

    open spec fn fixed_ndim() -> Option<usize> {
        Some(6)
    }

    fn ndim_const() -> (r: Option<usize>) {
        Some(6)
    }
}

impl Dimension for IxDyn {
    type Larger = IxDyn;

    open spec fn fixed_ndim() -> Option<usize> {
        None
    }

    fn ndim_const() -> (r: Option<usize>) {
        None
    }
}

impl AddAxis for Ix0 {
    proof fn lemma_larger() {
    }
}

impl AddAxis for Ix1 {
    proof fn lemma_larger() {
    }
}

impl AddAxis for Ix2 {
    proof fn lemma_larger() {
    }
}

impl AddAxis for Ix3 {
    proof fn lemma_larger() {
    }
}

impl AddAxis for Ix4 {
    proof fn lemma_larger() {
    }
}

impl AddAxis for Ix5 {
    proof fn lemma_larger() {
    }
}

impl AddAxis for Ix6 {
    proof fn lemma_larger() {
    }
}

impl AddAxis for IxDyn {
    proof fn lemma_larger() {
    }
}

} // verus!
