//! The error that a refused slicing argument list is answered with.

use vstd::prelude::*;

verus! {

/// The kind of a [`ShapeError`].
#[derive(Copy, Clone, Debug, PartialEq, Eq, Hash, Structural)]
pub enum ErrorKind {
    /// The shape (here: the number of output axes) does not match.
    IncompatibleShape,
}

/// An error related to array shape.
#[derive(Copy, Clone, Debug, PartialEq, Eq, Hash, Structural)]
pub struct ShapeError {
    repr: ErrorKind,
}

impl ShapeError {
    /// The kind of this error.
    pub closed spec fn spec_kind(self) -> ErrorKind {
        self.repr
    }

    /// Returns the kind of this error.
    pub fn kind(&self) -> (k: ErrorKind)
        ensures
            k == self.spec_kind(),
    {
        self.repr
    }

    /// Creates an error of the given kind.
    pub fn from_kind(error: ErrorKind) -> (e: ShapeError)
        ensures
            e.spec_kind() == error,
    {
        ShapeError { repr: error }
    }
}

} // verus!
