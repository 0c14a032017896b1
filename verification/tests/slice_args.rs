use ndarray_slice::slice::{Slice, SliceOrIndex};

#[test]
fn slice_new_keeps_extents() {
    let s = Slice::new(3, Some(-2), -4);
    assert_eq!(s.start, 3);
    assert_eq!(s.end, Some(-2));
    assert_eq!(s.step, -4);
}

#[test]
fn slice_step_by_multiplies() {
    let s = Slice::new(1, Some(9), 3).step_by(-2);
    assert_eq!(s, Slice { start: 1, end: Some(9), step: -6 });
}

#[test]
fn slice_step_by_composes() {
    let s = Slice::new(-3, None, 2);
    assert_eq!(s.step_by(3).step_by(-5), s.step_by(-15));
}

#[test]
fn slice_step_by_one_is_identity() {
    let s = Slice::new(4, Some(7), -3);
    assert_eq!(s.step_by(1), s);
}

#[test]
fn is_slice_and_is_index() {
    let a = SliceOrIndex::Slice { start: 0, end: None, step: 1 };
    let b = SliceOrIndex::Index(-1);
    assert!(a.is_slice());
    assert!(!a.is_index());
    assert!(b.is_index());
    assert!(!b.is_slice());
}

#[test]
fn slice_or_index_step_by() {
    let a = SliceOrIndex::Slice { start: 2, end: Some(8), step: 2 };
    assert_eq!(a.step_by(-3), SliceOrIndex::Slice { start: 2, end: Some(8), step: -6 });
    assert_eq!(a.step_by(2).step_by(3), a.step_by(6));
}

#[test]
fn index_is_unchanged_by_step_by() {
    let b = SliceOrIndex::Index(7);
    assert_eq!(b.step_by(-5), SliceOrIndex::Index(7));
}

#[test]
fn text_of_index() {
    assert_eq!(SliceOrIndex::Index(5).to_string(), "5");
    assert_eq!(SliceOrIndex::Index(0).to_string(), "0");
    assert_eq!(SliceOrIndex::Index(-120).to_string(), "-120");
    assert_eq!(SliceOrIndex::Index(isize::MIN).to_string(), format!("{}", isize::MIN));
    assert_eq!(SliceOrIndex::Index(isize::MAX).to_string(), format!("{}", isize::MAX));
}

#[test]
fn text_of_full_slice() {
    assert_eq!(SliceOrIndex::Slice { start: 0, end: None, step: 1 }.to_string(), "..");
}

#[test]
fn text_of_slice_with_all_parts() {
    assert_eq!(SliceOrIndex::Slice { start: 1, end: Some(10), step: 2 }.to_string(), "1..10;2");
    assert_eq!(SliceOrIndex::Slice { start: -3, end: Some(-1), step: -1 }.to_string(), "-3..-1;-1");
}

#[test]
fn text_leaves_out_defaults() {
    assert_eq!(SliceOrIndex::Slice { start: 0, end: Some(4), step: 1 }.to_string(), "..4");
    assert_eq!(SliceOrIndex::Slice { start: 2, end: None, step: 1 }.to_string(), "2..");
    assert_eq!(SliceOrIndex::Slice { start: 0, end: None, step: -2 }.to_string(), "..;-2");
}
