use backtracking_iterator::{BacktrackingIterator, BacktrackingSlice, SliceableIterator};

#[test]
fn slice_traversal_goes_back_and_forth() {
    let vec = vec![true, false];
    let slice = &vec[..];
    let mut backtracking_slice = BacktrackingSlice::from(slice);

    assert!(backtracking_slice.next().unwrap() == &true);
    assert!(backtracking_slice.next().unwrap() == &false);
    assert!(backtracking_slice.next().is_none());
    backtracking_slice.start_again();
    assert!(backtracking_slice.next().unwrap() == &true);
}

#[test]
fn slice_position_keeps_moving_past_the_end() {
    let data = [7_u16, 8];
    let mut s = BacktrackingSlice::from(&data[..]);
    s.next();
    s.next();
    assert_eq!(s.get_ref_point(), 2);
    assert!(s.next().is_none());
    assert_eq!(s.get_ref_point(), 3);
    s.backtrack(1);
    assert_eq!(s.next(), Some(&8));
    assert_eq!(s.get_oldest_point(), 0);
}

#[test]
fn slice_by_range() {
    let data = [1_u8, 2, 3, 4, 5];
    let s = BacktrackingSlice::from(&data[..]);
    assert_eq!(s.slice(1..3), Some(&[2_u8, 3][..]));
    assert_eq!(s.slice(0..5), Some(&data[..]));
    assert_eq!(s.slice(5..5), Some(&[][..]));
    assert_eq!(s.slice(2..6), None);
    assert_eq!(s.slice(4..2), None);
}
