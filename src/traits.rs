use vstd::prelude::*;

verus! {

/// Something that keeps a history which can be cut from the front.
pub trait Record: Sized {
    /// The type used to refer to positions in the history.
    type RefPoint;

    /// The current point in the history.
    spec fn spec_ref_point(&self) -> Self::RefPoint;

    /// `after` is `self` with the history before `point` forgotten.
    spec fn forgets_before(&self, point: Self::RefPoint, after: Self) -> bool;

    /// The current point in the history. It stays meaningful for as long as
    /// that point remains in the history.
    fn get_ref_point(&self) -> (r: Self::RefPoint)
        ensures
            r == self.spec_ref_point(),
    ;

    /// Drops every item before `point` from the history.
    fn forget_before(&mut self, point: Self::RefPoint)
        ensures
            old(self).forgets_before(point, *final(self)),
    ;

    /// Drops every item before the current point from the history.
    fn forget(&mut self)
        ensures
            old(self).forgets_before(old(self).spec_ref_point(), *final(self)),
    {
        let now = self.get_ref_point();
        self.forget_before(now);
    }
}

/// A cursor that can go back to earlier points of its history.
pub trait BacktrackingIterator: Sized {
    /// The type used to refer to positions in the history.
    type RefPoint;

    /// The current point in the history.
    spec fn spec_ref_point(&self) -> Self::RefPoint;

    /// The oldest point still in the history.
    spec fn spec_oldest_point(&self) -> Self::RefPoint;

    /// `after` is `self` moved to `point`, with nothing else changed.
    spec fn moved_to(&self, point: Self::RefPoint, after: Self) -> bool;

    /// The current point in the history. It stays meaningful for as long as
    /// that point remains in the history.
    fn get_ref_point(&self) -> (r: Self::RefPoint)
        ensures
            r == self.spec_ref_point(),
    ;

    /// The oldest point still in the history.
    fn get_oldest_point(&self) -> (r: Self::RefPoint)
        ensures
            r == self.spec_oldest_point(),
    ;

    /// Goes back (or forward) to `point`. A point past the end of the history
    /// is not refused: the next step then takes a fresh item.
    fn backtrack(&mut self, point: Self::RefPoint)
        ensures
            final(self).spec_ref_point() == point,
            old(self).moved_to(point, *final(self)),
    ;

    /// Goes back to the oldest point, so that every item still in the
    /// history is replayed.
    fn start_again(&mut self)
        ensures
            final(self).spec_ref_point() == old(self).spec_oldest_point(),
            old(self).moved_to(old(self).spec_oldest_point(), *final(self)),
    {
        let oldest = self.get_oldest_point();
        self.backtrack(oldest);
    }
}

/// A reverse traversal over a history.
pub trait Walkback<'history> {
    /// The type used to refer to positions in the history.
    type RefPoint;

    /// The current point: just before the item yielded last.
    spec fn spec_ref_point(&self) -> Self::RefPoint;

    /// The current point, which a cursor's `backtrack` takes to replay
    /// forward from the item yielded last.
    fn get_ref_point(&self) -> (r: Self::RefPoint)
        ensures
            r == self.spec_ref_point(),
    ;
}

/// A cursor that can hand out a reverse traversal over its history.
pub trait Walkbackable<'history> {
    /// The type used to refer to positions in the history.
    type RefPoint;

    /// The type of the items that the traversal yields.
    type Item;

    /// The type of the reverse traversal.
    type Walkback: Walkback<'history, RefPoint = Self::RefPoint>;

    /// A traversal that starts after the newest item and walks back to the
    /// oldest one.
    fn walk_back(&'history self) -> Self::Walkback;
}

} // verus!
