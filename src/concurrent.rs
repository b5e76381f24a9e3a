use std::sync::Arc;
use vstd::prelude::*;
use vstd::rwlock::{RwLock, RwLockPredicate};
use vstd::std_specs::iter::IteratorSpec;

use crate::model::{items_of, Observation, SharedTape};
use crate::traits::BacktrackingIterator;

verus! {

/// The lock predicate of a shared source or history: any value may be
/// stored.
pub struct Unrestricted;

impl<V> RwLockPredicate<V> for Unrestricted {
    open spec fn inv(self, v: V) -> bool {
        true
    }
}

/// A source shared by cursors; pulls from it are serialized by its lock.
pub type SharedSource<I> = Arc<RwLock<I, Unrestricted>>;

/// A history shared by cursors: many readers, or one writer that appends.
/// Each slot is reference-counted, so a handle to it stays valid however the
/// history grows.
pub type SharedHistory<T> = Arc<RwLock<Vec<Arc<T>>, Unrestricted>>;

/// What a shared step observed at `slot`, read in the history `after` it.
pub open spec fn observed<T>(after: Seq<Arc<T>>, slot: Option<usize>) -> Observation<T> {
    match slot {
        Some(i) => Some((i, *after[i as int])),
        None => None,
    }
}

/// One `next` call of a shared cursor at `position`, made with the source and
/// the history both locked (the shared cursors' `next` runs it under their
/// locks): replays the slot at `position` if there is one, else
/// pulls one item from the source and appends it. Returns the cursor's new
/// position and the index of the slot that holds the yielded item.
pub fn shared_step<I: Iterator>(source: &mut I, history: &mut Vec<Arc<I::Item>>, position: usize) -> (r: (
    usize,
    Option<usize>,
))
    ensures
        position < old(history)@.len() ==> {
            &&& *final(source) == *old(source)
            &&& final(history)@ == old(history)@
            &&& r.0 == position + 1 && r.1 == Some(position)
        },
        position >= old(history)@.len() ==> {
            &&& r.1 is Some ==> r.0 == old(history)@.len() + 1 && r.1 == Some(old(history)@.len() as usize)
                && final(history)@ == old(history)@.push(final(history)@[old(history)@.len() as int])
            &&& r.1 is None ==> r.0 == position && final(history)@ == old(history)@
        },
        (*old(source)).obeys_prophetic_iter_laws() ==> (SharedTape {
            history: items_of(old(history)@),
            source: (*old(source)).remaining(),
        }).step(position) == (
            SharedTape {
                history: items_of(final(history)@),
                source: (*final(source)).remaining(),
            },
            r.0,
            observed(final(history)@, r.1),
        ),
{
    let ghost before = history@;
    if position < history.len() {
        proof {
            assert(items_of(before)[position as int] == *before[position as int]);
        }
        return (position + 1, Some(position));
    }
    match source.next() {
        Some(val) => {
            history.push(Arc::new(val));
            let slot = history.len() - 1;
            proof {
                assert(items_of(history@) =~= items_of(before).push(val));
            }
            (history.len(), Some(slot))
        },
        None => (position, None),
    }
}

/// One `next` call of a shared cursor: a replay under the history's read
/// lock when the slot exists, else a step under the source's lock and the
/// history's write lock. Returns the new position and the yielded slot.
/// A panic in the source or in `read` leaves the lock it ran under held.
fn locked_next<I: Iterator, R>(
    source: &SharedSource<I>,
    history: &SharedHistory<I::Item>,
    position: usize,
    read: impl Fn(&Arc<I::Item>) -> R,
) -> (r: (usize, Option<R>))
    requires
        forall|a: &Arc<I::Item>| read.requires((a,)),
    ensures
        r.1 is None ==> r.0 == position,
        r.1 is Some ==> 0 < r.0 <= position + 1,
{
    let read_handle = history.acquire_read();
    let recorded = read_handle.borrow();
    if position < recorded.len() {
        let item = read(&recorded[position]);
        read_handle.release_read();
        return (position + 1, Some(item));
    }
    read_handle.release_read();
    let (mut pulled_from, source_handle) = source.acquire_write();
    let (mut appended_to, history_handle) = history.acquire_write();
    let (new_position, slot) = shared_step(&mut pulled_from, &mut appended_to, position);
    let item = match slot {
        Some(i) => Some(read(&appended_to[i])),
        None => None,
    };
    history_handle.release_write(appended_to);
    source_handle.release_write(pulled_from);
    (new_position, item)
}

/// A clone of the item behind a history slot.
fn copy_item<T: Clone>(slot: &Arc<T>) -> (r: T)
    ensures
        cloned(**slot, r),
{
    let item: &T = &**slot;
    item.clone()
}

/// A second handle to a history slot.
fn share_item<T>(slot: &Arc<T>) -> (r: Arc<T>)
    ensures
        r == *slot,
{
    Arc::clone(slot)
}

/// A cursor over a source and a history shared with its clones, yielding
/// copies of the items. Each clone has a position of its own.
///
/// The locks do not poison: if the source's `next` or an item's `clone`
/// panics while a lock is held, that lock is never released, and every later
/// call on any clone blocks instead of going on over a half-updated history.
pub struct ConcurrentCopyingBacktrackingIterator<I: Iterator> where I::Item: Clone {
    iterator: SharedSource<I>,
    backtracking_vec: SharedHistory<I::Item>,
    position: usize,
}

impl<I: Iterator> ConcurrentCopyingBacktrackingIterator<I> where I::Item: Clone {
    /// The position of this cursor.
    pub closed spec fn position(&self) -> usize {
        self.position
    }

    /// The shared source and history.
    pub closed spec fn coordinator(&self) -> (SharedSource<I>, SharedHistory<I::Item>) {
        (self.iterator, self.backtracking_vec)
    }

    /// Yields a copy of the next item: the shared slot at the position if it
    /// exists, else an item pulled from the shared source and appended to the
    /// shared history. `None` when the source is exhausted.
    pub fn next(&mut self) -> (r: Option<I::Item>)
        ensures
            final(self).coordinator() == old(self).coordinator(),
            r is None ==> final(self).position() == old(self).position(),
            r is Some ==> 0 < final(self).position() <= old(self).position() + 1,
    {
        let (position, item) = locked_next(
            &self.iterator,
            &self.backtracking_vec,
            self.position,
            |slot: &Arc<I::Item>| copy_item(slot),
        );
        self.position = position;
        item
    }
}

impl<I: Iterator> From<I> for ConcurrentCopyingBacktrackingIterator<I> where I::Item: Clone {
    /// A cursor at position 0 over `iterator`, with an empty history.
    fn from(iterator: I) -> (r: Self)
        ensures
            r.position() == 0,
    {
        ConcurrentCopyingBacktrackingIterator {
            iterator: Arc::new(RwLock::new(iterator, Ghost(Unrestricted))),
            backtracking_vec: Arc::new(RwLock::new(Vec::new(), Ghost(Unrestricted))),
            position: 0,
        }
    }
}

impl<I: Iterator> vstd::std_specs::convert::FromSpecImpl<I> for ConcurrentCopyingBacktrackingIterator<I> where I::Item: Clone {
    open spec fn obeys_from_spec() -> bool {
        false
    }

    open spec fn from_spec(v: I) -> Self {
        arbitrary()
    }
}

impl<I: Iterator> Clone for ConcurrentCopyingBacktrackingIterator<I> where I::Item: Clone {
    /// A cursor at the same position over the same source and history.
    fn clone(&self) -> (r: Self)
        ensures
            r.position() == self.position(),
            r.coordinator() == self.coordinator(),
    {
        ConcurrentCopyingBacktrackingIterator {
            iterator: Arc::clone(&self.iterator),
            backtracking_vec: Arc::clone(&self.backtracking_vec),
            position: self.position,
        }
    }
}

impl<I: Iterator> BacktrackingIterator for ConcurrentCopyingBacktrackingIterator<I> where I::Item: Clone {
    type RefPoint = usize;

    open spec fn spec_ref_point(&self) -> usize {
        self.position()
    }

    open spec fn spec_oldest_point(&self) -> usize {
        0
    }

    open spec fn moved_to(&self, point: usize, after: Self) -> bool {
        after.coordinator() == self.coordinator() && after.position() == point
    }

    fn get_ref_point(&self) -> (r: usize) {
        self.position
    }

    fn get_oldest_point(&self) -> (r: usize) {
        0
    }

    fn backtrack(&mut self, point: usize) {
        self.position = point;
    }
}

/// A cursor over a source and a history shared with its clones, yielding
/// handles to the history slots, so that the items need not be cloneable.
/// Each clone has a position of its own.
///
/// The locks do not poison: if the source's `next` or an item's `clone`
/// panics while a lock is held, that lock is never released, and every later
/// call on any clone blocks instead of going on over a half-updated history.
pub struct ConcurrentReferencingBacktrackingIterator<I: Iterator> {
    iterator: SharedSource<I>,
    backtracking_vec: SharedHistory<I::Item>,
    position: usize,
}

impl<I: Iterator> ConcurrentReferencingBacktrackingIterator<I> {
    /// The position of this cursor.
    pub closed spec fn position(&self) -> usize {
        self.position
    }

    /// The shared source and history.
    pub closed spec fn coordinator(&self) -> (SharedSource<I>, SharedHistory<I::Item>) {
        (self.iterator, self.backtracking_vec)
    }

    /// Yields a handle to the slot of the next item: the shared slot at the
    /// position if it exists, else the slot of an item pulled from the shared
    /// source and appended to the shared history. `None` when the source is
    /// exhausted.
    pub fn next(&mut self) -> (r: Option<Arc<I::Item>>)
        ensures
            final(self).coordinator() == old(self).coordinator(),
            r is None ==> final(self).position() == old(self).position(),
            r is Some ==> 0 < final(self).position() <= old(self).position() + 1,
    {
        let (position, item) = locked_next(
            &self.iterator,
            &self.backtracking_vec,
            self.position,
            |slot: &Arc<I::Item>| share_item(slot),
        );
        self.position = position;
        item
    }
}

impl<I: Iterator> From<I> for ConcurrentReferencingBacktrackingIterator<I> {
    /// A cursor at position 0 over `iterator`, with an empty history.
    fn from(iterator: I) -> (r: Self)
        ensures
            r.position() == 0,
    {
        ConcurrentReferencingBacktrackingIterator {
            iterator: Arc::new(RwLock::new(iterator, Ghost(Unrestricted))),
            backtracking_vec: Arc::new(RwLock::new(Vec::new(), Ghost(Unrestricted))),
            position: 0,
        }
    }
}

impl<I: Iterator> vstd::std_specs::convert::FromSpecImpl<I> for ConcurrentReferencingBacktrackingIterator<I> {
    open spec fn obeys_from_spec() -> bool {
        false
    }

    open spec fn from_spec(v: I) -> Self {
        arbitrary()
    }
}

impl<I: Iterator> Clone for ConcurrentReferencingBacktrackingIterator<I> {
    /// A cursor at the same position over the same source and history.
    fn clone(&self) -> (r: Self)
        ensures
            r.position() == self.position(),
            r.coordinator() == self.coordinator(),
    {
        ConcurrentReferencingBacktrackingIterator {
            iterator: Arc::clone(&self.iterator),
            backtracking_vec: Arc::clone(&self.backtracking_vec),
            position: self.position,
        }
    }
}

impl<I: Iterator> BacktrackingIterator for ConcurrentReferencingBacktrackingIterator<I> {
    type RefPoint = usize;

    open spec fn spec_ref_point(&self) -> usize {
        self.position()
    }

    open spec fn spec_oldest_point(&self) -> usize {
        0
    }

    open spec fn moved_to(&self, point: usize, after: Self) -> bool {
        after.coordinator() == self.coordinator() && after.position() == point
    }

    fn get_ref_point(&self) -> (r: usize) {
        self.position
    }

    fn get_oldest_point(&self) -> (r: usize) {
        0
    }

    fn backtrack(&mut self, point: usize) {
        self.position = point;
    }
}

} // verus!
