use std::sync::Arc;
use vstd::prelude::*;
use vstd::std_specs::iter::IteratorSpec;

use crate::copying::CopyingBacktrackingIterator;
use crate::model::{items_of, BacktrackingState, Tape};
use crate::referencing::ReferencingBacktrackingIterator;
use crate::traits::Record;

verus! {

/// A recorder over a single-pass source: it owns the source and the history
/// of every item pulled from it, and hands out cursors that replay that
/// history or extend it. Each slot of the history is reference-counted, so a
/// handle to it stays valid however the history grows or is cut.
pub struct BacktrackingRecorder<I: Iterator> {
    iterator: I,
    backtracking_vec: Vec<Arc<I::Item>>,
    state: BacktrackingState,
}

impl<I: Iterator> BacktrackingRecorder<I> {
    /// The source, as it now stands.
    pub closed spec fn source(&self) -> I {
        self.iterator
    }

    /// The handles to the recorded slots, oldest first.
    pub closed spec fn slots(&self) -> Seq<Arc<I::Item>> {
        self.backtracking_vec@
    }

    /// The recorded items, oldest first.
    pub open spec fn history(&self) -> Seq<I::Item> {
        items_of(self.slots())
    }

    /// The cursor state.
    pub closed spec fn state(&self) -> BacktrackingState {
        self.state
    }

    /// This recorder as a tape, given what its source has still to yield.
    pub open spec fn tape(&self, source: Seq<I::Item>) -> Tape<I::Item> {
        Tape { history: self.history(), state: self.state(), source }
    }

    /// The reference point: the history length while progressing, else the
    /// replay position.
    pub open spec fn ref_point(&self) -> int {
        self.tape(Seq::empty()).ref_point()
    }

    /// Whether the next step replays a recorded slot.
    pub open spec fn replaying(&self) -> bool {
        match self.state() {
            BacktrackingState::Progressing => false,
            BacktrackingState::Backtracking { position } => position < self.history().len(),
        }
    }

    /// The slot that the next step yields, if it yields anything.
    pub open spec fn next_slot(&self) -> int {
        if self.replaying() {
            self.ref_point()
        } else {
            self.history().len() as int
        }
    }

    /// What a step from `self` to `after` yielded, given whether it yielded
    /// anything.
    pub open spec fn produced(&self, after: Self, some: bool) -> Option<I::Item> {
        if some {
            Some(after.history()[self.next_slot()])
        } else {
            None
        }
    }

    /// What a step from `self` to `after` does whatever the source yields:
    /// a replay moves the position on by one and leaves the rest alone; a
    /// pull leaves the recorder progressing and appends exactly the item it
    /// yields, if any.
    pub open spec fn advanced(&self, after: Self, some: bool) -> bool {
        if self.replaying() {
            &&& some
            &&& after.source() == self.source()
            &&& after.history() == self.history()
            &&& after.state() == BacktrackingState::Backtracking {
                position: (self.ref_point() + 1) as usize,
            }
        } else {
            &&& after.history().len() <= usize::MAX
            &&& after.state() == BacktrackingState::Progressing
            &&& some ==> after.history() == self.history().push(after.history()[self.next_slot()])
            &&& !some ==> after.history() == self.history()
        }
    }

    /// Wraps `iterator` with an empty history.
    pub fn new(iterator: I) -> (r: Self)
        ensures
            r.source() == iterator,
            r.history() == Seq::<I::Item>::empty(),
            r.state() == BacktrackingState::Progressing,
            r.history().len() <= usize::MAX,
    {
        let r = BacktrackingRecorder {
            iterator,
            backtracking_vec: Vec::new(),
            state: BacktrackingState::Progressing,
        };
        proof {
            assert(r.history() =~= Seq::<I::Item>::empty());
        }
        r
    }

    /// A cursor that hands out references into the history.
    pub fn referencing<'record>(&'record mut self) -> (r: ReferencingBacktrackingIterator<
        'record,
        I,
    >)
        ensures
            r.rec() == *old(self),
            *final(self) == *final(r.borrowed()),
    {
        ReferencingBacktrackingIterator::new(self)
    }

    /// A cursor that hands out copies of the items.
    pub fn copying<'record>(&'record mut self) -> (r: CopyingBacktrackingIterator<'record, I>)
        where I::Item: Clone,
        ensures
            r.rec() == *old(self),
            *final(self) == *final(r.borrowed()),
    {
        CopyingBacktrackingIterator::new(self)
    }

    /// Takes every slot out of the history, oldest first, and leaves the
    /// history empty; the source and the cursor state are left alone.
    pub fn drain_history(&mut self) -> (r: Vec<Arc<I::Item>>)
        ensures
            r@ == old(self).slots(),
            items_of(r@) == old(self).history(),
            final(self).slots() == Seq::<Arc<I::Item>>::empty(),
            final(self).history() == Seq::<I::Item>::empty(),
            final(self).state() == old(self).state(),
            final(self).source() == old(self).source(),
    {
        let mut drained = Vec::new();
        std::mem::swap(&mut drained, &mut self.backtracking_vec);
        proof {
            assert(items_of(self.backtracking_vec@) =~= Seq::<I::Item>::empty());
        }
        drained
    }

    /// Takes the recorder apart into its history, oldest first, and the
    /// source, so that the history can be followed by what the source has
    /// not yielded yet.
    pub fn into_parts(self) -> (r: (Vec<Arc<I::Item>>, I))
        ensures
            r.0@ == self.slots(),
            items_of(r.0@) == self.history(),
            r.1 == self.source(),
    {
        (self.backtracking_vec, self.iterator)
    }

    /// The recorded item at slot `i`.
    pub(crate) fn item_at(&self, i: usize) -> (r: &I::Item)
        requires
            i < self.history().len(),
        ensures
            *r == self.history()[i as int],
    {
        &*self.backtracking_vec[i]
    }

    /// The handle to slot `i`.
    pub(crate) fn slot_at(&self, i: usize) -> (r: &Arc<I::Item>)
        requires
            i < self.history().len(),
        ensures
            *r == self.slots()[i as int],
            **r == self.history()[i as int],
    {
        &self.backtracking_vec[i]
    }

    /// The number of recorded items.
    pub(crate) fn history_len(&self) -> (r: usize)
        ensures
            r == self.history().len(),
    {
        self.backtracking_vec.len()
    }

    /// Puts the cursor state to `state`, leaving the history and the source
    /// alone.
    pub(crate) fn set_state(&mut self, state: BacktrackingState)
        ensures
            final(self).history() == old(self).history(),
            final(self).source() == old(self).source(),
            final(self).state() == state,
    {
        self.state = state;
    }

    /// One `next` step: replays the slot at the position if there is one,
    /// else pulls one item from the source and appends it. Returns the index
    /// of the slot that holds the yielded item.
    pub(crate) fn advance(&mut self) -> (r: Option<usize>)
        ensures
            old(self).advanced(*final(self), r is Some),
            r is Some ==> r->0 == old(self).next_slot() && r->0 < final(self).history().len(),
            old(self).source().obeys_prophetic_iter_laws() ==> old(self).tape(
                old(self).source().remaining(),
            ).step() == (
                final(self).tape(final(self).source().remaining()),
                old(self).produced(*final(self), r is Some),
            ),
    {
        let len = self.backtracking_vec.len();
        match self.state {
            BacktrackingState::Backtracking { position } => {
                if position < len {
                    self.state = BacktrackingState::Backtracking { position: position + 1 };
                    return Some(position);
                }
            },
            BacktrackingState::Progressing => {},
        }
        self.state = BacktrackingState::Progressing;
        match self.iterator.next() {
            Some(val) => {
                let ghost before = self.backtracking_vec@;
                self.backtracking_vec.push(Arc::new(val));
                proof {
                    assert(items_of(self.backtracking_vec@) =~= items_of(before).push(val));
                }
                let new_len = self.backtracking_vec.len();
                Some(new_len - 1)
            },
            None => None,
        }
    }
}

impl<I: Iterator> Record for BacktrackingRecorder<I> {
    type RefPoint = usize;

    open spec fn spec_ref_point(&self) -> usize {
        self.ref_point() as usize
    }

    open spec fn forgets_before(&self, point: usize, after: Self) -> bool {
        &&& after.history() == self.tape(Seq::empty()).forget_before(point as int).history
        &&& after.history().len() <= usize::MAX
        &&& after.state() == self.state()
        &&& after.source() == self.source()
    }

    /// The history length while progressing, else the replay position.
    fn get_ref_point(&self) -> (r: usize) {
        match self.state {
            BacktrackingState::Progressing => self.backtracking_vec.len(),
            BacktrackingState::Backtracking { position } => position,
        }
    }

    /// Drops the slots before `point` and renumbers the rest from 0; a point
    /// past the end of the history is clamped to it, dropping every slot. The
    /// cursor state is not renumbered.
    fn forget_before(&mut self, point: usize) {
        let len = self.backtracking_vec.len();
        let cut = if point <= len {
            point
        } else {
            len
        };
        let ghost before = self.backtracking_vec@;
        let kept = self.backtracking_vec.split_off(cut);
        self.backtracking_vec = kept;
        proof {
            assert(items_of(self.backtracking_vec@) =~= items_of(before).skip(cut as int));
        }
    }}

} // verus!
