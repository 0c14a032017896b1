use ndarray_slice::slice::{Slice, SliceOrIndex};

#[test]
fn slice_from_full_range() {
    assert_eq!(Slice::from(..), Slice::new(0, None, 1));
    assert_eq!(SliceOrIndex::from(..), SliceOrIndex::Slice { start: 0, end: None, step: 1 });
}

#[test]
fn slice_from_range_then_step() {
    assert_eq!(Slice::from(2isize..7).step_by(2), Slice::new(2, Some(7), 2));
    assert_eq!(Slice::from(3isize..).step_by(-1), Slice::new(3, None, -1));
    assert_eq!(
        SliceOrIndex::from(2isize..7).step_by(2),
        SliceOrIndex::Slice { start: 2, end: Some(7), step: 2 }
    );
    assert_eq!(
        SliceOrIndex::from(3isize..).step_by(-1),
        SliceOrIndex::Slice { start: 3, end: None, step: -1 }
    );
}

#[test]
fn slice_from_each_range_kind_isize() {
    assert_eq!(Slice::from(-4isize..-1), Slice { start: -4, end: Some(-1), step: 1 });
    assert_eq!(Slice::from(-4isize..=-2), Slice { start: -4, end: Some(-1), step: 1 });
    assert_eq!(Slice::from(-4isize..=-1), Slice { start: -4, end: None, step: 1 });
    assert_eq!(Slice::from(5isize..), Slice { start: 5, end: None, step: 1 });
    assert_eq!(Slice::from(..6isize), Slice { start: 0, end: Some(6), step: 1 });
    assert_eq!(Slice::from(..=6isize), Slice { start: 0, end: Some(7), step: 1 });
    assert_eq!(Slice::from(..=-1isize), Slice { start: 0, end: None, step: 1 });
}

#[test]
fn slice_from_each_range_kind_usize() {
    assert_eq!(Slice::from(1usize..4), Slice { start: 1, end: Some(4), step: 1 });
    assert_eq!(Slice::from(1usize..=4), Slice { start: 1, end: Some(5), step: 1 });
    assert_eq!(Slice::from(8usize..), Slice { start: 8, end: None, step: 1 });
    assert_eq!(Slice::from(..3usize), Slice { start: 0, end: Some(3), step: 1 });
    assert_eq!(Slice::from(..=3usize), Slice { start: 0, end: Some(4), step: 1 });
}

#[test]
fn slice_from_each_range_kind_i32() {
    assert_eq!(Slice::from(-2i32..4), Slice { start: -2, end: Some(4), step: 1 });
    assert_eq!(Slice::from(-2i32..=-1), Slice { start: -2, end: None, step: 1 });
    assert_eq!(Slice::from(0i32..=9), Slice { start: 0, end: Some(10), step: 1 });
    assert_eq!(Slice::from(-7i32..), Slice { start: -7, end: None, step: 1 });
    assert_eq!(Slice::from(..-3i32), Slice { start: 0, end: Some(-3), step: 1 });
    assert_eq!(Slice::from(..=-3i32), Slice { start: 0, end: Some(-2), step: 1 });
}

#[test]
fn slice_or_index_from_each_range_kind() {
    let s = |start, end| SliceOrIndex::Slice { start, end, step: 1 };
    assert_eq!(SliceOrIndex::from(1isize..3), s(1, Some(3)));
    assert_eq!(SliceOrIndex::from(1usize..=3), s(1, Some(4)));
    assert_eq!(SliceOrIndex::from(1i32..), s(1, None));
    assert_eq!(SliceOrIndex::from(..2usize), s(0, Some(2)));
    assert_eq!(SliceOrIndex::from(..=-1i32), s(0, None));
    assert_eq!(SliceOrIndex::from(..=1isize), s(0, Some(2)));
    assert_eq!(SliceOrIndex::from(2usize..3), s(2, Some(3)));
    assert_eq!(SliceOrIndex::from(-5i32..=0), s(-5, Some(1)));
}

#[test]
fn usize_bounds_are_taken_as_isize() {
    // usize::MAX as isize is -1: an inclusive end there is open.
    assert_eq!(Slice::from(0usize..=usize::MAX), Slice { start: 0, end: None, step: 1 });
    assert_eq!(Slice::from(usize::MAX..), Slice { start: -1, end: None, step: 1 });
}

#[test]
fn inclusive_end_at_isize_max_wraps() {
    assert_eq!(
        Slice::from(0isize..=isize::MAX),
        Slice { start: 0, end: Some(isize::MIN), step: 1 }
    );
}

#[test]
fn inclusive_range_is_exclusive_range_one_further() {
    assert_eq!(Slice::from(3isize..=8), Slice::from(3isize..9));
    assert_eq!(Slice::from(-6isize..=-1), Slice::from(-6isize..));
}

#[test]
fn slice_or_index_from_index() {
    assert_eq!(SliceOrIndex::from(4isize), SliceOrIndex::Index(4));
    assert_eq!(SliceOrIndex::from(-3i32), SliceOrIndex::Index(-3));
    assert_eq!(SliceOrIndex::from(6usize), SliceOrIndex::Index(6));
}

#[test]
fn slice_or_index_from_slice() {
    let s = Slice::new(1, Some(-1), 3);
    assert_eq!(SliceOrIndex::from(s), SliceOrIndex::Slice { start: 1, end: Some(-1), step: 3 });
    assert_eq!(SliceOrIndex::from(s.step_by(-2)), SliceOrIndex::from(s).step_by(-2));
}

#[test]
fn text_of_converted_ranges() {
    assert_eq!(SliceOrIndex::from(..).to_string(), "..");
    assert_eq!(SliceOrIndex::from(1isize..-1).step_by(2).to_string(), "1..-1;2");
    assert_eq!(SliceOrIndex::from(6isize).to_string(), "6");
}
