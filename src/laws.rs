use vstd::prelude::*;

use crate::model::{walk_run, walk_step, yielded, BacktrackingState, SharedTape, Tape};

verus! {

/// From a position inside the history (or at its end), `n` calls yield the
/// next `n` items of the stream, keep the stream whole, and advance the
/// reference point by `n`.
proof fn lemma_run_follows_stream<T>(t: Tape<T>, n: nat)
    requires
        t.fits(),
        0 <= t.ref_point() <= t.history.len(),
        t.ref_point() + n <= t.stream().len(),
    ensures
        t.run(n).1 == yielded(t.stream().subrange(t.ref_point(), t.ref_point() + n)),
        t.run(n).0.stream() == t.stream(),
        t.run(n).0.ref_point() == t.ref_point() + n,
        t.run(n).0.ref_point() <= t.run(n).0.history.len(),
    decreases n,
{
    let p = t.ref_point();
    if n == 0 {
        assert(yielded(t.stream().subrange(p, p)) =~= Seq::<Option<T>>::empty());
    } else {
        let (next, out) = t.step();
        if p < t.history.len() {
            assert(t.state != BacktrackingState::Progressing);
            assert(out == Some(t.stream()[p]));
        } else {
            assert(next.history =~= t.history.push(t.source[0]));
            assert(next.stream() =~= t.stream());
            assert(out == Some(t.stream()[p]));
        }
        assert(next.stream() =~= t.stream());
        lemma_run_follows_stream(next, (n - 1) as nat);
        assert(yielded(t.stream().subrange(p, p + n)) =~= seq![out] + yielded(
            t.stream().subrange(p + 1, p + n),
        ));
    }
}

/// Iterating over a fresh recorder, then going back to the oldest point and
/// iterating again, first yields the source's items in order, then replays
/// them from the start and carries on into the rest of the source. Every
/// source item is pulled exactly once: what was recorded followed by what the
/// source still holds is always the whole source.
pub proof fn law_replay_from_oldest<T>(source: Seq<T>, k: nat, n: nat)
    requires
        source.len() <= usize::MAX,
        k <= source.len(),
        n <= source.len(),
    ensures
        Tape::fresh(source).run(k).1 == yielded(source.take(k as int)),
        Tape::fresh(source).run(k).0.backtrack(0).run(n).1 == yielded(source.take(n as int)),
        Tape::fresh(source).run(k).0.backtrack(0).run(n).0.stream() == source,
{
    let t = Tape::fresh(source);
    assert(t.stream() =~= source);
    lemma_run_follows_stream(t, k);
    assert(source.subrange(0, k as int) =~= source.take(k as int));
    let back = t.run(k).0.backtrack(0);
    assert(back.stream() == source);
    lemma_run_follows_stream(back, n);
    assert(source.subrange(0, n as int) =~= source.take(n as int));
}

/// After `forget()` and `start_again()`, the calls replay only the items
/// recorded from the forget point on (none, when the point lies past the end
/// of the history), then carry on into the source: the items before the
/// forget point are gone from the history.
pub proof fn law_forget_then_start_again<T>(t: Tape<T>, n: nat)
    requires
        t.fits(),
        n <= t.forget().stream().len(),
    ensures
        t.forget().history == t.history.skip(t.cut_point(t.ref_point())),
        t.ref_point() >= t.history.len() ==> t.forget().history.len() == 0,
        t.forget().backtrack(0).run(n).1 == yielded(t.forget().stream().take(n as int)),
{
    let f = t.forget();
    let back = f.backtrack(0);
    assert(f.history.len() <= t.history.len());
    assert(back.stream() == f.stream());
    lemma_run_follows_stream(back, n);
    assert(f.stream().subrange(0, n as int) =~= f.stream().take(n as int));
}

/// A walk back from `position` yields the slots below it from the newest to
/// the oldest, then signals exhaustion.
proof fn lemma_walk_back_from<T>(history: Seq<T>, position: usize)
    requires
        position <= history.len(),
    ensures
        walk_run(history, position, (position + 1) as nat).1 == yielded(
            history.take(position as int).reverse(),
        ).push(None),
    decreases position,
{
    if position == 0 {
        assert(yielded(history.take(0).reverse()) =~= Seq::<Option<T>>::empty());
        assert(walk_run(history, 0, 0).1 =~= Seq::<Option<T>>::empty());
        assert(walk_run(history, 0, 1).1 =~= seq![None]);
    } else {
        let (next, out) = walk_step(history, position);
        assert(next == position - 1);
        lemma_walk_back_from(history, next);
        assert(yielded(history.take(position as int).reverse()) =~= seq![out] + yielded(
            history.take(next as int).reverse(),
        ));
    }
}

/// A walk back started over a history of `N` items yields exactly those `N`
/// items, newest first, then signals exhaustion.
pub proof fn law_walk_back_reverses<T>(history: Seq<T>)
    requires
        history.len() <= usize::MAX,
    ensures
        walk_run(history, history.len() as usize, history.len() + 1).1 == yielded(
            history.reverse(),
        ).push(None),
{
    lemma_walk_back_from(history, history.len() as usize);
    assert(history.take(history.len() as int) =~= history);
}

/// `backtrack(p)` followed at once by `get_ref_point()` gives back `p`.
pub proof fn law_backtrack_then_ref_point<T>(t: Tape<T>, p: usize)
    ensures
        t.backtrack(p).ref_point() == p,
{
}

/// Cursors sharing one history and one source, driven in any order, pull
/// every source item exactly once (what was recorded followed by what the
/// source still holds stays the whole stream, and recorded slots never
/// change), and every item a cursor observes is the item recorded at that
/// index: two cursors never see different items at one index.
pub proof fn law_shared_cursors_agree<T>(
    shared: SharedTape<T>,
    positions: Seq<usize>,
    schedule: Seq<int>,
)
    requires
        shared.stream().len() <= usize::MAX,
        forall|k: int| 0 <= k < schedule.len() ==> 0 <= #[trigger] schedule[k] < positions.len(),
    ensures
        ({
            let (last, last_positions, seen) = shared.run(positions, schedule);
            &&& last.stream() == shared.stream()
            &&& shared.history.is_prefix_of(last.history)
            &&& last_positions.len() == positions.len()
            &&& seen.len() == schedule.len()
            &&& forall|j: int|
                0 <= j < seen.len() && (#[trigger] seen[j]) is Some ==> {
                    let (idx, item) = seen[j]->0;
                    idx < last.history.len() && last.history[idx as int] == item
                }
        }),
    decreases schedule.len(),
{
    if schedule.len() > 0 {
        let c = schedule[0];
        let (next, pos, obs) = shared.step(positions[c]);
        if !(positions[c] < shared.history.len()) && shared.source.len() > 0 {
            assert(next.stream() =~= shared.stream());
        }
        let rest_schedule = schedule.drop_first();
        assert forall|k: int| 0 <= k < rest_schedule.len() implies 0 <= #[trigger] rest_schedule[k]
            < positions.update(c, pos).len() by {
            assert(rest_schedule[k] == schedule[k + 1]);
        }
        law_shared_cursors_agree(next, positions.update(c, pos), rest_schedule);
        let (last, last_positions, seen) = shared.run(positions, schedule);
        let rest = next.run(positions.update(c, pos), rest_schedule).2;
        assert(seen == seq![obs] + rest);
        assert forall|j: int| 0 <= j < seen.len() && (#[trigger] seen[j]) is Some implies {
            let (idx, item) = seen[j]->0;
            idx < last.history.len() && last.history[idx as int] == item
        } by {
            if j > 0 {
                assert(seen[j] == rest[j - 1]);
            } else {
                assert(seen[0] == obs);
                let (idx, item) = obs->0;
                assert(idx < next.history.len() && next.history[idx as int] == item);
                assert(next.history.is_prefix_of(last.history));
                assert(last.history.subrange(0, next.history.len() as int)[idx as int]
                    == last.history[idx as int]);
            }
        }
    }
}

} // verus!
