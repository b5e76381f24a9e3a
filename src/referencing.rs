use std::sync::Arc;
use vstd::prelude::*;
use vstd::std_specs::iter::IteratorSpec;

use crate::model::{walk_step, BacktrackingState};
use crate::record::BacktrackingRecorder;
use crate::traits::{BacktrackingIterator, Record, Walkback, Walkbackable};

verus! {

/// A cursor over a recorder that yields handles to the history slots, so
/// that the items need not be cloneable. A handle stays valid however the
/// history grows, and even after its slot is forgotten.
pub struct ReferencingBacktrackingIterator<'record, I: Iterator> {
    pub recorder: &'record mut BacktrackingRecorder<I>,
}

impl<'record, I: Iterator> ReferencingBacktrackingIterator<'record, I> {
    /// The recorder, as it now stands.
    pub open spec fn rec(&self) -> BacktrackingRecorder<I> {
        *self.recorder
    }

    /// The borrow of the recorder that this cursor holds.
    pub open spec fn borrowed(&self) -> &'record mut BacktrackingRecorder<I> {
        self.recorder
    }

    pub(crate) fn new(recorder: &'record mut BacktrackingRecorder<I>) -> (r: Self)
        ensures
            r.rec() == *old(recorder),
            *final(recorder) == *final(r.borrowed()),
    {
        ReferencingBacktrackingIterator { recorder }
    }

    /// Yields a handle to the slot of the next item: the slot at the replay
    /// position if there is one, else the slot of an item pulled from the
    /// source and recorded. `None` when the source is exhausted.
    pub fn next(&mut self) -> (r: Option<Arc<I::Item>>)
        ensures
            *final(final(self).borrowed()) == *final(old(self).borrowed()),
            old(self).rec().advanced(final(self).rec(), r is Some),
            r is Some ==> r->0 == final(self).rec().slots()[old(self).rec().next_slot()],
            r is Some ==> *r->0 == old(self).rec().produced(final(self).rec(), true)->0,
            old(self).rec().source().obeys_prophetic_iter_laws() ==> old(self).rec().tape(
                old(self).rec().source().remaining(),
            ).step() == (
                final(self).rec().tape(final(self).rec().source().remaining()),
                old(self).rec().produced(final(self).rec(), r is Some),
            ),
    {
        match self.recorder.advance() {
            Some(slot) => Some(Arc::clone(self.recorder.slot_at(slot))),
            None => None,
        }
    }
}

impl<'record, I: Iterator> ReferencingBacktrackingIterator<'record, I> {
    /// Drops every item before `point` from the history; see
    /// [`Record::forget_before`].
    pub fn forget_before(&mut self, point: usize)
        ensures
            *final(final(self).borrowed()) == *final(old(self).borrowed()),
            old(self).rec().forgets_before(point, final(self).rec()),
    {
        self.recorder.forget_before(point);
    }

    /// Drops every item before the current point from the history.
    pub fn forget(&mut self)
        ensures
            *final(final(self).borrowed()) == *final(old(self).borrowed()),
            old(self).rec().forgets_before(old(self).rec().spec_ref_point(), final(self).rec()),
    {
        let now = self.recorder.get_ref_point();
        self.recorder.forget_before(now);
    }
}

impl<'record, I: Iterator> BacktrackingIterator for ReferencingBacktrackingIterator<'record, I> {
    type RefPoint = usize;

    open spec fn spec_ref_point(&self) -> usize {
        self.rec().spec_ref_point()
    }

    open spec fn spec_oldest_point(&self) -> usize {
        0
    }

    open spec fn moved_to(&self, point: usize, after: Self) -> bool {
        &&& after.rec().history() == self.rec().history()
        &&& after.rec().source() == self.rec().source()
        &&& after.rec().state() == BacktrackingState::Backtracking { position: point }
    }

    /// The history length while progressing, else the replay position.
    fn get_ref_point(&self) -> (r: usize) {
        self.recorder.get_ref_point()
    }

    /// Always 0: forgetting renumbers the remaining slots from 0.
    fn get_oldest_point(&self) -> (r: usize) {
        0
    }

    fn backtrack(&mut self, point: usize)
        ensures
            *final(final(self).borrowed()) == *final(old(self).borrowed()),
    {
        self.recorder.set_state(BacktrackingState::Backtracking { position: point });
    }

    fn start_again(&mut self)
        ensures
            *final(final(self).borrowed()) == *final(old(self).borrowed()),
    {
        let oldest = self.get_oldest_point();
        self.backtrack(oldest);
    }
}

impl<'history, 'record, I: Iterator + 'history> Walkbackable<'history> for ReferencingBacktrackingIterator<'record, I> {
    type RefPoint = usize;

    type Item = &'history I::Item;

    type Walkback = ReferencingWalkback<'history, I>;

    fn walk_back(&'history self) -> (r: ReferencingWalkback<'history, I>)
        ensures
            r.history() == self.rec().history(),
            r.position() == self.rec().history().len(),
    {
        ReferencingWalkback::new(&*self.recorder)
    }
}

/// A reverse traversal over a recorder's history, from the newest item to
/// the oldest. It never changes the recorder.
pub struct ReferencingWalkback<'history, I: Iterator> {
    backtracker: &'history BacktrackingRecorder<I>,
    reverse_position: usize,
}

impl<'history, I: Iterator> ReferencingWalkback<'history, I> {
    #[verifier::type_invariant]
    spec fn within_history(&self) -> bool {
        self.reverse_position <= self.backtracker.history().len()
    }

    /// The history walked over.
    pub closed spec fn history(&self) -> Seq<I::Item> {
        self.backtracker.history()
    }

    /// The reverse position: the item yielded next is the one just below it.
    pub closed spec fn position(&self) -> usize {
        self.reverse_position
    }

    /// Starts just after the newest item of `backtracker`.
    pub(crate) fn new(backtracker: &'history BacktrackingRecorder<I>) -> (r: Self)
        ensures
            r.history() == backtracker.history(),
            r.position() == backtracker.history().len(),
    {
        let history_len = backtracker.history_len();
        ReferencingWalkback { backtracker, reverse_position: history_len }
    }

    /// Steps back over one item and yields it; `None` once the oldest item
    /// has been yielded.
    pub fn next(&mut self) -> (r: Option<&'history I::Item>)
        ensures
            final(self).history() == old(self).history(),
            final(self).position() == walk_step(old(self).history(), old(self).position()).0,
            (r is Some) == (walk_step(old(self).history(), old(self).position()).1 is Some),
            r is Some ==> *r->0 == walk_step(old(self).history(), old(self).position()).1->0,
    {
        proof {
            use_type_invariant(&*self);
        }
        if self.reverse_position == 0 {
            None
        } else {
            let new_position = self.reverse_position - 1;
            let val = self.backtracker.item_at(new_position);
            self.reverse_position = new_position;
            Some(val)
        }
    }
}

impl<'history, I: Iterator> Walkback<'history> for ReferencingWalkback<'history, I> {
    type RefPoint = usize;

    open spec fn spec_ref_point(&self) -> usize {
        self.position()
    }

    fn get_ref_point(&self) -> (r: usize) {
        self.reverse_position
    }
}

} // verus!
