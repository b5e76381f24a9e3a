use std::sync::Arc;

use backtracking_iterator::{
    BacktrackingIterator, BacktrackingRecorder, Record, Walkback, Walkbackable,
};

fn items<T: Clone>(slots: Vec<Arc<T>>) -> Vec<T> {
    slots.iter().map(|slot| (**slot).clone()).collect()
}

#[test]
fn basic_test() {
    let num_vec = vec![1_u8, 2, 3, 4, 5, 6];
    let vec_iter = num_vec.into_iter();
    let mut bt_rec = BacktrackingRecorder::new(vec_iter);
    let mut bt_iter = bt_rec.copying();
    assert!(bt_iter.next().unwrap() == 1_u8);
    assert!(bt_iter.next().unwrap() == 2_u8);

    bt_iter.start_again();
    assert!(bt_iter.next().unwrap() == 1_u8);
    assert!(bt_iter.next().unwrap() == 2_u8);

    bt_iter.forget();
    bt_iter.start_again();
    assert!(bt_iter.next().unwrap() == 3_u8);
    assert!(bt_iter.next().unwrap() == 4_u8);
    assert!(bt_iter.next().unwrap() == 5_u8);
    assert!(bt_iter.next().unwrap() == 6_u8);
    assert!(!bt_iter.next().is_some());

    bt_iter.start_again();
    assert!(bt_iter.next().unwrap() == 3_u8);
}

#[test]
fn backwalk_test() {
    let num_vec = vec![1_u8, 2, 3, 4, 5, 6];
    let vec_iter = num_vec.into_iter();
    let mut bt_rec = BacktrackingRecorder::new(vec_iter);
    let mut bt_iter = bt_rec.copying();

    for _ in 1..=6 {
        bt_iter.next();
    }

    let mut wb = bt_iter.walk_back();
    for i in 1_u8..=6 {
        assert!(wb.next().unwrap() == (7 - i));
    }
}

#[test]
fn replay_from_oldest_after_full_iteration() {
    let mut rec = BacktrackingRecorder::new(vec![10_u32, 20, 30].into_iter());
    let mut it = rec.copying();
    assert_eq!(it.next(), Some(10));
    assert_eq!(it.next(), Some(20));
    assert_eq!(it.next(), Some(30));
    assert_eq!(it.next(), None);
    let oldest = it.get_oldest_point();
    assert_eq!(oldest, 0);
    it.backtrack(oldest);
    assert_eq!(it.next(), Some(10));
    assert_eq!(it.next(), Some(20));
    assert_eq!(it.next(), Some(30));
    assert_eq!(it.next(), None);
}

#[test]
fn replay_then_continue_into_source() {
    let mut rec = BacktrackingRecorder::new(vec![10_u32, 20, 30, 40].into_iter());
    {
        let mut it = rec.copying();
        assert_eq!(it.next(), Some(10));
        assert_eq!(it.next(), Some(20));
        it.start_again();
        assert_eq!(it.next(), Some(10));
        assert_eq!(it.next(), Some(20));
        assert_eq!(it.next(), Some(30));
        assert_eq!(it.next(), Some(40));
        assert_eq!(it.next(), None);
    }
    // every source item was pulled and recorded once
    assert_eq!(items(rec.drain_history()), vec![10, 20, 30, 40]);
}

#[test]
fn forget_then_start_again_replays_only_later_items() {
    let mut rec = BacktrackingRecorder::new(vec!['a', 'b', 'c', 'd', 'e'].into_iter());
    let mut it = rec.copying();
    assert_eq!(it.next(), Some('a'));
    assert_eq!(it.next(), Some('b'));
    it.forget();
    assert_eq!(it.next(), Some('c'));
    it.start_again();
    assert_eq!(it.next(), Some('c'));
    assert_eq!(it.next(), Some('d'));
    it.start_again();
    assert_eq!(it.next(), Some('c'));
}

#[test]
fn forget_while_replaying_keeps_the_tail() {
    let mut rec = BacktrackingRecorder::new(vec![1_u8, 2, 3, 4].into_iter());
    let mut it = rec.copying();
    for _ in 0..4 {
        it.next();
    }
    it.backtrack(1);
    assert_eq!(it.get_ref_point(), 1);
    it.forget();
    it.start_again();
    assert_eq!(it.next(), Some(2));
    assert_eq!(it.next(), Some(3));
    assert_eq!(it.next(), Some(4));
    assert_eq!(it.next(), None);
}

#[test]
fn walk_back_yields_every_item_in_reverse_then_none() {
    let mut rec = BacktrackingRecorder::new(vec![5_i64, 6, 7, 8].into_iter());
    let mut it = rec.copying();
    for _ in 0..4 {
        it.next();
    }
    let mut wb = it.walk_back();
    assert_eq!(wb.get_ref_point(), 4);
    assert_eq!(wb.next(), Some(8));
    assert_eq!(wb.next(), Some(7));
    assert_eq!(wb.next(), Some(6));
    assert_eq!(wb.next(), Some(5));
    assert_eq!(wb.get_ref_point(), 0);
    assert_eq!(wb.next(), None);
    assert_eq!(wb.next(), None);
}

#[test]
fn walk_back_point_resumes_forward_replay() {
    let mut rec = BacktrackingRecorder::new(vec![1_u8, 2, 3].into_iter());
    let mut bt = rec.copying();
    bt.next();
    bt.next();
    let wb_pos = {
        let mut wb = bt.walk_back();
        assert!(wb.next().unwrap() == 2_u8);
        wb.get_ref_point()
    };
    bt.backtrack(wb_pos);
    assert!(bt.next().unwrap() == 2_u8);
    assert!(bt.next().unwrap() == 3_u8);
}

#[test]
fn walk_back_does_not_move_the_cursor() {
    let mut rec = BacktrackingRecorder::new(vec![1_u8, 2, 3].into_iter());
    let mut bt = rec.copying();
    bt.next();
    bt.next();
    {
        let mut wb = bt.walk_back();
        wb.next();
        wb.next();
    }
    assert_eq!(bt.get_ref_point(), 2);
    assert_eq!(bt.next(), Some(3));
}

#[test]
fn backtrack_then_ref_point_gives_the_point() {
    let mut rec = BacktrackingRecorder::new(vec![1_u8, 2, 3].into_iter());
    let mut it = rec.copying();
    it.next();
    it.next();
    it.backtrack(1);
    assert_eq!(it.get_ref_point(), 1);
    it.backtrack(17);
    assert_eq!(it.get_ref_point(), 17);
}

#[test]
fn backtrack_past_the_end_falls_back_to_progressing() {
    let mut rec = BacktrackingRecorder::new(vec![1_u8, 2, 3].into_iter());
    let mut it = rec.copying();
    it.next();
    it.backtrack(9);
    assert_eq!(it.next(), Some(2));
    assert_eq!(it.get_ref_point(), 2);
    it.start_again();
    assert_eq!(it.next(), Some(1));
    assert_eq!(it.next(), Some(2));
}

#[test]
fn concrete_scenario_with_forget() {
    let mut rec = BacktrackingRecorder::new(vec![1_u8, 2, 3, 4, 5, 6].into_iter());
    let mut it = rec.copying();
    assert_eq!(it.next(), Some(1));
    assert_eq!(it.next(), Some(2));
    it.backtrack(0);
    assert_eq!(it.next(), Some(1));
    assert_eq!(it.next(), Some(2));
    it.forget();
    it.backtrack(0);
    assert_eq!(it.next(), Some(3));
    assert_eq!(it.next(), Some(4));
    assert_eq!(it.next(), Some(5));
    assert_eq!(it.next(), Some(6));
    assert_eq!(it.next(), None);
    it.backtrack(0);
    assert_eq!(it.next(), Some(3));
}

#[test]
fn empty_source() {
    let mut rec = BacktrackingRecorder::new(Vec::<u8>::new().into_iter());
    {
        let mut it = rec.copying();
        assert_eq!(it.next(), None);
        assert_eq!(it.get_ref_point(), 0);
        it.start_again();
        assert_eq!(it.next(), None);
        let mut wb = it.walk_back();
        assert_eq!(wb.next(), None);
    }
    assert!(rec.drain_history().is_empty());
}

#[test]
fn recorder_forget_drops_what_was_consumed() {
    let mut rec = BacktrackingRecorder::new(vec![1_u8, 2_u8].into_iter());
    {
        let mut bt = rec.copying();
        bt.next();
    }
    assert_eq!(rec.get_ref_point(), 1);
    rec.forget();
    assert_eq!(rec.get_ref_point(), 0);
    {
        let mut bt = rec.copying();
        assert!(bt.next().unwrap() == 2_u8);
    }
}

#[test]
fn recorder_forget_before_renumbers_and_clamps_points_past_the_end() {
    let mut rec = BacktrackingRecorder::new(vec![1_u8, 2, 3, 4, 5].into_iter());
    {
        let mut it = rec.copying();
        for _ in 0..4 {
            it.next();
        }
    }
    rec.forget_before(1);
    assert_eq!(rec.get_ref_point(), 3);
    rec.forget_before(9);
    assert_eq!(rec.get_ref_point(), 0);
    assert!(rec.drain_history().is_empty());
    let mut it = rec.copying();
    assert_eq!(it.next(), Some(5));
}

#[test]
fn forget_with_replay_position_past_the_end_drops_everything() {
    let mut rec = BacktrackingRecorder::new(vec![1_u8, 2, 3].into_iter());
    let mut it = rec.copying();
    it.next();
    it.next();
    it.backtrack(7);
    it.forget();
    it.start_again();
    assert_eq!(it.next(), Some(3));
    it.start_again();
    assert_eq!(it.next(), Some(3));
    assert_eq!(it.next(), None);
}

#[test]
fn drain_history_takes_only_the_history() {
    let mut rec = BacktrackingRecorder::new(vec![1_u8, 2, 3].into_iter());
    {
        let mut bt_ref = rec.referencing();
        bt_ref.next();
    }
    let mut history = items(rec.drain_history()).into_iter();
    assert!(history.next().unwrap() == 1_u8);
    assert!(history.next().is_none());
    let mut it = rec.copying();
    assert_eq!(it.next(), Some(2));
}

#[test]
fn referencing_cursor_hands_out_slots() {
    let mut rec = BacktrackingRecorder::new(vec![String::from("x"), String::from("y")].into_iter());
    let mut it = rec.referencing();
    let x = it.next().unwrap();
    assert_eq!(x.as_str(), "x");
    let y = it.next().unwrap();
    assert_eq!(y.as_str(), "y");
    assert!(it.next().is_none());
    it.start_again();
    let x_again = it.next().unwrap();
    assert!(Arc::ptr_eq(&x, &x_again));
    assert_eq!(x.as_str(), "x");
    assert_eq!(y.as_str(), "y");
    let mut wb = it.walk_back();
    assert_eq!(wb.next().map(|s| s.as_str()), Some("y"));
    assert_eq!(wb.next().map(|s| s.as_str()), Some("x"));
    assert!(wb.next().is_none());
}

#[test]
fn referencing_cursor_needs_no_clone() {
    struct Uncloneable(u8);
    let mut rec = BacktrackingRecorder::new(vec![Uncloneable(4), Uncloneable(5)].into_iter());
    let mut it = rec.referencing();
    assert_eq!(it.next().map(|u| u.0), Some(4));
    it.backtrack(0);
    assert_eq!(it.next().map(|u| u.0), Some(4));
    assert_eq!(it.next().map(|u| u.0), Some(5));
    it.forget();
    it.start_again();
    assert!(it.next().is_none());
}

#[test]
fn state_survives_between_cursors() {
    let mut rec = BacktrackingRecorder::new(vec![1_u8, 2, 3].into_iter());
    {
        let mut it = rec.copying();
        it.next();
        it.next();
        it.backtrack(0);
    }
    let mut it = rec.referencing();
    assert_eq!(it.next().map(|slot| *slot), Some(1));
}

#[test]
fn into_parts_replays_history_then_the_rest_of_the_source() {
    let vec_iter = vec![1_u8, 2, 3].into_iter();
    let mut rec = BacktrackingRecorder::new(vec_iter);
    {
        let mut bt_ref = rec.referencing();
        bt_ref.next();
    }
    let (history, rest) = rec.into_parts();
    let mut rec_iter = items(history).into_iter().chain(rest);
    assert!(rec_iter.next().unwrap() == 1_u8);
    assert!(rec_iter.next().unwrap() == 2_u8);
    assert!(rec_iter.next().unwrap() == 3_u8);
    assert!(rec_iter.next().is_none());
}

#[test]
fn referencing_handles_outlive_later_steps_and_forgetting() {
    let mut rec = BacktrackingRecorder::new((1_u32..=100).into_iter());
    let mut it = rec.referencing();
    let first = it.next().unwrap();
    let mut later = Vec::new();
    for _ in 0..99 {
        later.push(it.next().unwrap());
    }
    assert!(it.next().is_none());
    assert_eq!(*first, 1);
    assert_eq!(*later[98], 100);
    it.start_again();
    let replayed = it.next().unwrap();
    assert!(Arc::ptr_eq(&first, &replayed));
    it.forget();
    assert_eq!(*first, 1);
}
