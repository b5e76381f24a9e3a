use vstd::prelude::*;
use vstd::std_specs::iter::IteratorSpec;

use crate::model::{walk_step, BacktrackingState};
use crate::record::BacktrackingRecorder;
use crate::traits::{BacktrackingIterator, Record, Walkback, Walkbackable};

verus! {

/// `copy` is a copy of `orig`: both absent, or both present with the second
/// a clone of the first.
pub open spec fn copy_of<T: Clone>(orig: Option<T>, copy: Option<T>) -> bool {
    match (orig, copy) {
        (Some(a), Some(b)) => cloned(a, b),
        (None, None) => true,
        _ => false,
    }
}

/// A cursor over a recorder that yields copies of the items.
pub struct CopyingBacktrackingIterator<'record, I: Iterator> where I::Item: Clone {
    pub recorder: &'record mut BacktrackingRecorder<I>,
}

impl<'record, I: Iterator> CopyingBacktrackingIterator<'record, I> where I::Item: Clone {
    /// The recorder, as it now stands.
    pub open spec fn rec(&self) -> BacktrackingRecorder<I> {
        *self.recorder
    }

    /// The borrow of the recorder that this cursor holds.
    pub open spec fn borrowed(&self) -> &'record mut BacktrackingRecorder<I> {
        self.recorder
    }

    pub(crate) fn new(recorder: &'record mut BacktrackingRecorder<I>) -> (r: Self)
        ensures
            r.rec() == *old(recorder),
            *final(recorder) == *final(r.borrowed()),
    {
        CopyingBacktrackingIterator { recorder }
    }

    /// Yields a copy of the next item: the slot at the replay position if
    /// there is one, else an item pulled from the source and recorded.
    /// `None` when the source is exhausted.
    pub fn next(&mut self) -> (r: Option<I::Item>)
        ensures
            *final(final(self).borrowed()) == *final(old(self).borrowed()),
            old(self).rec().advanced(final(self).rec(), r is Some),
            copy_of(old(self).rec().produced(final(self).rec(), r is Some), r),
            old(self).rec().source().obeys_prophetic_iter_laws() ==> old(self).rec().tape(
                old(self).rec().source().remaining(),
            ).step() == (
                final(self).rec().tape(final(self).rec().source().remaining()),
                old(self).rec().produced(final(self).rec(), r is Some),
            ),
    {
        match self.recorder.advance() {
            Some(slot) => Some(self.recorder.item_at(slot).clone()),
            None => None,
        }
    }
}

impl<'record, I: Iterator> CopyingBacktrackingIterator<'record, I> where I::Item: Clone {
    /// Drops every item before `point` from the history; see
    /// [`Record::forget_before`].
    pub fn forget_before(&mut self, point: usize)
        ensures
            *final(final(self).borrowed()) == *final(old(self).borrowed()),
            old(self).rec().forgets_before(point, final(self).rec()),
    {
        self.recorder.forget_before(point);
    }

    /// Drops every item before the current point from the history.
    pub fn forget(&mut self)
        ensures
            *final(final(self).borrowed()) == *final(old(self).borrowed()),
            old(self).rec().forgets_before(old(self).rec().spec_ref_point(), final(self).rec()),
    {
        let now = self.recorder.get_ref_point();
        self.recorder.forget_before(now);
    }
}

impl<'record, I: Iterator> BacktrackingIterator for CopyingBacktrackingIterator<'record, I> where I::Item: Clone {
    type RefPoint = usize;

    open spec fn spec_ref_point(&self) -> usize {
        self.rec().spec_ref_point()
    }

    open spec fn spec_oldest_point(&self) -> usize {
        0
    }

    open spec fn moved_to(&self, point: usize, after: Self) -> bool {
        &&& after.rec().history() == self.rec().history()
        &&& after.rec().source() == self.rec().source()
        &&& after.rec().state() == BacktrackingState::Backtracking { position: point }
    }

    /// The history length while progressing, else the replay position.
    fn get_ref_point(&self) -> (r: usize) {
        self.recorder.get_ref_point()
    }

    /// Always 0: forgetting renumbers the remaining slots from 0.
    fn get_oldest_point(&self) -> (r: usize) {
        0
    }

    fn backtrack(&mut self, point: usize)
        ensures
            *final(final(self).borrowed()) == *final(old(self).borrowed()),
    {
        self.recorder.set_state(BacktrackingState::Backtracking { position: point });
    }

    fn start_again(&mut self)
        ensures
            *final(final(self).borrowed()) == *final(old(self).borrowed()),
    {
        let oldest = self.get_oldest_point();
        self.backtrack(oldest);
    }
}

impl<'history, 'record, I: Iterator + 'history> Walkbackable<'history> for CopyingBacktrackingIterator<'record, I> where I::Item: Clone {
    type RefPoint = usize;

    type Item = I::Item;

    type Walkback = CopyingWalkback<'history, I>;

    fn walk_back(&'history self) -> (r: CopyingWalkback<'history, I>)
        ensures
            r.history() == self.rec().history(),
            r.position() == self.rec().history().len(),
    {
        CopyingWalkback::new(&*self.recorder)
    }
}

/// A reverse traversal over a recorder's history, from the newest item to
/// the oldest. It never changes the recorder.
pub struct CopyingWalkback<'history, I: Iterator> where I::Item: Clone {
    backtracker: &'history BacktrackingRecorder<I>,
    reverse_position: usize,
}

impl<'history, I: Iterator> CopyingWalkback<'history, I> where I::Item: Clone {
    #[verifier::type_invariant]
    spec fn within_history(&self) -> bool {
        self.reverse_position <= self.backtracker.history().len()
    }

    /// The history walked over.
    pub closed spec fn history(&self) -> Seq<I::Item> {
        self.backtracker.history()
    }

    /// The reverse position: the item yielded next is the one just below it.
    pub closed spec fn position(&self) -> usize {
        self.reverse_position
    }

    /// Starts just after the newest item of `backtracker`.
    pub(crate) fn new(backtracker: &'history BacktrackingRecorder<I>) -> (r: Self)
        ensures
            r.history() == backtracker.history(),
            r.position() == backtracker.history().len(),
    {
        let history_len = backtracker.history_len();
        CopyingWalkback { backtracker, reverse_position: history_len }
    }

    /// Steps back over one item and yields it; `None` once the oldest item
    /// has been yielded.
    pub fn next(&mut self) -> (r: Option<I::Item>)
        ensures
            final(self).history() == old(self).history(),
            final(self).position() == walk_step(old(self).history(), old(self).position()).0,
            copy_of(walk_step(old(self).history(), old(self).position()).1, r),
    {
        proof {
            use_type_invariant(&*self);
        }
        if self.reverse_position == 0 {
            None
        } else {
            let new_position = self.reverse_position - 1;
            let val = self.backtracker.item_at(new_position);
            self.reverse_position = new_position;
            Some(val.clone())
        }
    }
}

impl<'history, I: Iterator> Walkback<'history> for CopyingWalkback<'history, I> where I::Item: Clone {
    type RefPoint = usize;

    open spec fn spec_ref_point(&self) -> usize {
        self.position()
    }

    fn get_ref_point(&self) -> (r: usize) {
        self.reverse_position
    }
}

} // verus!
