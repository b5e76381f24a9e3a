use vstd::prelude::*;

use crate::traits::BacktrackingIterator;

verus! {

/// A back-and-forth traversal over a slice that is already indexable. The
/// position starts at 0 and moves up by one per `next`; past the end of the
/// slice `next` yields `None` and the position keeps moving up.
pub struct BacktrackingSlice<'slice, T> {
    slice: &'slice [T],
    current_position: usize,
}

/// A backtracking cursor whose history can be cut into slices by ranges of
/// reference points.
pub trait SliceableIterator: BacktrackingIterator {
    /// The type of a slice of the history.
    type Slice: ?Sized;

    /// The slots from `range.start` up to (but not including) `range.end`,
    /// or `None` when the range is out of order or goes past the end.
    fn slice(&self, range: std::ops::Range<usize>) -> Option<&Self::Slice>;
}

impl<'slice, T> BacktrackingSlice<'slice, T> {
    /// The items traversed.
    pub closed spec fn items(&self) -> Seq<T> {
        self.slice@
    }

    /// The current position.
    pub closed spec fn position(&self) -> usize {
        self.current_position
    }

    /// Yields the item at the position, if there is one, and moves the
    /// position up by one (it stays put only at `usize::MAX`).
    pub fn next(&mut self) -> (r: Option<&'slice T>)
        ensures
            final(self).items() == old(self).items(),
            final(self).position() == if old(self).position() < usize::MAX {
                old(self).position() + 1
            } else {
                old(self).position() as int
            },
            old(self).position() < old(self).items().len() ==> r is Some && *r->0 == old(
                self,
            ).items()[old(self).position() as int],
            old(self).position() >= old(self).items().len() ==> r is None,
    {
        let value = if self.current_position < self.slice.len() {
            Some(&self.slice[self.current_position])
        } else {
            None
        };
        if self.current_position < usize::MAX {
            self.current_position = self.current_position + 1;
        }
        value
    }
}

impl<'slice, T> From<&'slice [T]> for BacktrackingSlice<'slice, T> {
    /// Starts at the first item of `slice`.
    fn from(slice: &'slice [T]) -> (r: Self)
        ensures
            r.items() == slice@,
            r.position() == 0,
    {
        BacktrackingSlice { slice, current_position: 0 }
    }
}

impl<'slice, T> vstd::std_specs::convert::FromSpecImpl<&'slice [T]> for BacktrackingSlice<'slice, T> {
    open spec fn obeys_from_spec() -> bool {
        false
    }

    open spec fn from_spec(v: &'slice [T]) -> Self {
        arbitrary()
    }
}

impl<'slice, T> BacktrackingIterator for BacktrackingSlice<'slice, T> {
    type RefPoint = usize;

    open spec fn spec_ref_point(&self) -> usize {
        self.position()
    }

    open spec fn spec_oldest_point(&self) -> usize {
        0
    }

    open spec fn moved_to(&self, point: usize, after: Self) -> bool {
        after.items() == self.items() && after.position() == point
    }

    fn get_ref_point(&self) -> (r: usize) {
        self.current_position
    }

    fn get_oldest_point(&self) -> (r: usize) {
        0
    }

    fn backtrack(&mut self, point: usize) {
        self.current_position = point;
    }
}

impl<'slice, T> SliceableIterator for BacktrackingSlice<'slice, T> {
    type Slice = [T];

    fn slice(&self, range: std::ops::Range<usize>) -> (r: Option<&[T]>)
        ensures
            range.start <= range.end <= self.items().len() ==> r is Some && r->0@ == self.items().subrange(
                range.start as int,
                range.end as int,
            ),
            !(range.start <= range.end <= self.items().len()) ==> r is None,
    {
        if range.start <= range.end && range.end <= self.slice.len() {
            Some(&self.slice[range])
        } else {
            None
        }
    }
}

} // verus!
