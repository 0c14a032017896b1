//! Slicing arguments for n-dimensional arrays: ranges with a step size,
//! single indices, and the per-axis lists of them that a slicing operation
//! takes.

pub mod text;
pub mod slice;
pub mod conversions;
pub mod error;
pub mod dimension;
pub mod slice_info;
pub mod laws;
