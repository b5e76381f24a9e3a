use vstd::prelude::*;

verus! {

/// Where a cursor takes its next item from.
#[derive(Clone, Copy, PartialEq, Eq, Structural, Debug)]
pub enum BacktrackingState {
    /// Items are pulled from the source and appended to the history.
    Progressing,
    /// Items are replayed from the history, starting at `position`.
    ///
    /// `position` may lie past the end of the history: the next step then
    /// falls back to `Progressing` and pulls from the source.
    Backtracking { position: usize },
}

/// The abstract state of a sequential recorder: the recorded history, the
/// cursor state, and the items that the source has still to yield.
pub ghost struct Tape<T> {
    pub history: Seq<T>,
    pub state: BacktrackingState,
    pub source: Seq<T>,
}

/// The items behind a sequence of shared slots.
pub open spec fn items_of<T>(slots: Seq<std::sync::Arc<T>>) -> Seq<T> {
    slots.map_values(|a: std::sync::Arc<T>| *a)
}

/// Lifts a sequence of items to the outputs of successful `next` calls.
pub open spec fn yielded<T>(items: Seq<T>) -> Seq<Option<T>> {
    items.map_values(|x: T| Some(x))
}

impl<T> Tape<T> {
    /// The tape of a recorder that was just built over a source.
    pub open spec fn fresh(source: Seq<T>) -> Tape<T> {
        Tape { history: Seq::empty(), state: BacktrackingState::Progressing, source }
    }

    /// The reference point: the history length while progressing, else the
    /// replay position.
    pub open spec fn ref_point(self) -> int {
        match self.state {
            BacktrackingState::Progressing => self.history.len() as int,
            BacktrackingState::Backtracking { position } => position as int,
        }
    }

    /// Every item that the recorder has seen or will see, oldest first.
    pub open spec fn stream(self) -> Seq<T> {
        self.history + self.source
    }

    /// The item sequence fits in memory as a history.
    pub open spec fn fits(self) -> bool {
        self.stream().len() <= usize::MAX
    }

    /// One `next` call: replay the slot at the position if there is one,
    /// else pull from the source and record what it yields.
    pub open spec fn step(self) -> (Tape<T>, Option<T>) {
        let replaying = match self.state {
            BacktrackingState::Progressing => false,
            BacktrackingState::Backtracking { position } => position < self.history.len(),
        };
        if replaying {
            let p = self.ref_point();
            (
                Tape {
                    history: self.history,
                    state: BacktrackingState::Backtracking { position: (p + 1) as usize },
                    source: self.source,
                },
                Some(self.history[p]),
            )
        } else if self.source.len() > 0 {
            (
                Tape {
                    history: self.history.push(self.source[0]),
                    state: BacktrackingState::Progressing,
                    source: self.source.drop_first(),
                },
                Some(self.source[0]),
            )
        } else {
            (
                Tape {
                    history: self.history,
                    state: BacktrackingState::Progressing,
                    source: self.source,
                },
                None,
            )
        }
    }

    /// `n` successive `next` calls, with their outputs.
    pub open spec fn run(self, n: nat) -> (Tape<T>, Seq<Option<T>>)
        decreases n,
    {
        if n == 0 {
            (self, Seq::empty())
        } else {
            let (next, out) = self.step();
            let (last, outs) = next.run((n - 1) as nat);
            (last, seq![out] + outs)
        }
    }

    /// The tape after `backtrack(point)`.
    pub open spec fn backtrack(self, point: usize) -> Tape<T> {
        Tape {
            history: self.history,
            state: BacktrackingState::Backtracking { position: point },
            source: self.source,
        }
    }

    /// The point that `forget_before(point)` cuts at: `point`, clamped to
    /// the end of the history.
    pub open spec fn cut_point(self, point: int) -> int {
        if point <= self.history.len() {
            point
        } else {
            self.history.len() as int
        }
    }

    /// The tape after `forget_before(point)`: the slots before `point` are
    /// dropped; a point past the end drops the whole history.
    pub open spec fn forget_before(self, point: int) -> Tape<T> {
        if 0 <= point {
            Tape {
                history: self.history.skip(self.cut_point(point)),
                state: self.state,
                source: self.source,
            }
        } else {
            self
        }
    }

    /// The tape after `forget()`.
    pub open spec fn forget(self) -> Tape<T> {
        self.forget_before(self.ref_point())
    }
}

/// One `next` call of a walk back that stands at `position` over `history`.
pub open spec fn walk_step<T>(history: Seq<T>, position: usize) -> (usize, Option<T>) {
    if position == 0 {
        (0, None)
    } else {
        ((position - 1) as usize, Some(history[position - 1]))
    }
}

/// `n` successive `next` calls of a walk back, with their outputs.
pub open spec fn walk_run<T>(history: Seq<T>, position: usize, n: nat) -> (usize, Seq<Option<T>>)
    decreases n,
{
    if n == 0 {
        (position, Seq::empty())
    } else {
        let (next, out) = walk_step(history, position);
        let (last, outs) = walk_run(history, next, (n - 1) as nat);
        (last, seq![out] + outs)
    }
}

/// The state that cursors sharing one history hold in common: the history
/// and the items that the shared source has still to yield.
pub ghost struct SharedTape<T> {
    pub history: Seq<T>,
    pub source: Seq<T>,
}

/// What one `next` call of a shared cursor observed: the slot index and the
/// item found there.
pub type Observation<T> = Option<(usize, T)>;

impl<T> SharedTape<T> {
    pub open spec fn stream(self) -> Seq<T> {
        self.history + self.source
    }

    /// One `next` call of a shared cursor at `position`: replay the slot if it
    /// exists, else pull from the source. Returns the shared state after the
    /// call, the cursor's new position and what it observed.
    pub open spec fn step(self, position: usize) -> (SharedTape<T>, usize, Observation<T>) {
        if position < self.history.len() {
            (self, (position + 1) as usize, Some((position, self.history[position as int])))
        } else if self.source.len() > 0 {
            let idx = self.history.len() as usize;
            (
                SharedTape { history: self.history.push(self.source[0]), source: self.source.drop_first() },
                (idx + 1) as usize,
                Some((idx, self.source[0])),
            )
        } else {
            (self, position, None)
        }
    }

    /// Runs a schedule of `next` calls: entry `k` of `schedule` names the
    /// cursor that makes the `k`-th call. Returns the shared state and the
    /// cursor positions at the end, and every observation in order.
    pub open spec fn run(self, positions: Seq<usize>, schedule: Seq<int>) -> (
        SharedTape<T>,
        Seq<usize>,
        Seq<Observation<T>>,
    )
        decreases schedule.len(),
    {
        if schedule.len() == 0 {
            (self, positions, Seq::empty())
        } else {
            let c = schedule[0];
            let (next, pos, obs) = self.step(positions[c]);
            let (last, last_positions, rest) = next.run(
                positions.update(c, pos),
                schedule.drop_first(),
            );
            (last, last_positions, seq![obs] + rest)
        }
    }
}

} // verus!
