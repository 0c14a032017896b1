use std::marker::PhantomData;
use ndarray_slice::dimension::{Dimension, Ix0, Ix1, Ix2, Ix3, Ix5, Ix6, IxDyn};
use ndarray_slice::error::ErrorKind;
use ndarray_slice::slice::{Slice, SliceOrIndex};
use ndarray_slice::slice_info::{num_slices, SliceInfo, SliceNextDim};

fn args() -> Vec<SliceOrIndex> {
    vec![
        SliceOrIndex::from(1isize..4),
        SliceOrIndex::from(2isize),
        SliceOrIndex::from(..).step_by(-1),
    ]
}

#[test]
fn counts_slices() {
    assert_eq!(num_slices(&args()), 2);
    assert_eq!(num_slices(&[]), 0);
    assert_eq!(num_slices(&[SliceOrIndex::Index(0), SliceOrIndex::Index(1)]), 0);
}

#[test]
fn new_accepts_matching_dimension() {
    let info = SliceInfo::<Ix2>::new(args()).unwrap();
    assert_eq!(info.out_ndim(), 2);
    assert_eq!(&*info, &args()[..]);
    assert_eq!(info.as_ref(), &args()[..]);
}

#[test]
fn new_refuses_other_dimension() {
    let e = SliceInfo::<Ix1>::new(args()).err().unwrap();
    assert_eq!(e.kind(), ErrorKind::IncompatibleShape);
    assert!(SliceInfo::<Ix3>::new(args()).is_err());
}

#[test]
fn new_with_dynamic_dimension_counts() {
    let info = SliceInfo::<IxDyn>::new(args()).unwrap();
    assert_eq!(info.out_ndim(), 2);
    let info = SliceInfo::<IxDyn>::new(vec![SliceOrIndex::Index(3)]).unwrap();
    assert_eq!(info.out_ndim(), 0);
}

#[test]
fn empty_list_has_no_axes() {
    let info = SliceInfo::<Ix0>::new(vec![]).unwrap();
    assert_eq!(info.out_ndim(), 0);
}

#[test]
fn new_unchecked_keeps_indices() {
    let info = SliceInfo::<Ix2>::new_unchecked(args(), PhantomData);
    assert_eq!(info.out_ndim(), 2);
    assert_eq!(info.as_ref(), &args()[..]);
}

#[test]
fn clone_keeps_indices() {
    let info = SliceInfo::<Ix2>::new(args()).unwrap();
    let copy = info.clone();
    assert_eq!(&*copy, &*info);
}

#[test]
fn fixed_dimensions() {
    assert_eq!(Ix0::ndim_const(), Some(0));
    assert_eq!(Ix2::ndim_const(), Some(2));
    assert_eq!(IxDyn::ndim_const(), None);
}

#[test]
fn next_dim_of_index_keeps_dimension() {
    let d: PhantomData<Ix1> = SliceNextDim::<Ix1, Ix1>::next_dim(&3isize, PhantomData);
    assert_eq!(d, PhantomData);
}

#[test]
fn next_dim_of_range_adds_an_axis() {
    let d: PhantomData<Ix2> = SliceNextDim::<Ix1, Ix2>::next_dim(&(0isize..4), PhantomData);
    assert_eq!(d, PhantomData);
    let d: PhantomData<Ix1> = SliceNextDim::<Ix0, Ix1>::next_dim(&Slice::from(..), PhantomData);
    assert_eq!(d, PhantomData);
    let d: PhantomData<Ix3> = SliceNextDim::<Ix2, Ix3>::next_dim(&(..), PhantomData);
    assert_eq!(d, PhantomData);
}

#[test]
fn shape_error_keeps_its_kind() {
    let e = ndarray_slice::error::ShapeError::from_kind(ErrorKind::IncompatibleShape);
    assert_eq!(e.kind(), ErrorKind::IncompatibleShape);
}

#[test]
fn dimension_types_reached_by_ranges_are_accepted() {
    let six: Vec<SliceOrIndex> = (0..6).map(|_| SliceOrIndex::from(..)).collect();
    let mut seven = six.clone();
    seven.push(SliceOrIndex::from(0isize..1));
    seven.push(SliceOrIndex::from(4isize));
    let d6: PhantomData<Ix6> = SliceNextDim::<Ix5, Ix6>::next_dim(&(..), PhantomData);
    let d7: PhantomData<IxDyn> = SliceNextDim::<Ix6, IxDyn>::next_dim(&(..), PhantomData);
    assert_eq!(d6, PhantomData);
    assert_eq!(d7, PhantomData);
    assert_eq!(SliceInfo::<Ix6>::new(six).unwrap().out_ndim(), 6);
    assert_eq!(SliceInfo::<IxDyn>::new(seven).unwrap().out_ndim(), 7);
}

#[test]
fn slice_info_debug() {
    let info = SliceInfo::<Ix1>::new(vec![SliceOrIndex::Index(1), SliceOrIndex::from(..)]).unwrap();
    assert!(format!("{:?}", info).contains("Index(1)"));
}
