//! Properties of the session state machine, over its mathematical model.
use vstd::prelude::*;

use crate::session::{PlaybackState, SessionModel};
use crate::track::TrackModel;

verus! {

/// The first track queued on an idle session starts playing at once and is
/// reported at index 0; the queue stays empty.
pub proof fn lemma_first_enqueue_plays(m: SessionModel, t: TrackModel)
    requires
        m.wf(),
        m.state == PlaybackState::Idle,
    ensures
        m.queue.len() == 0,
        m.enqueued(t).current == Some(t),
        m.enqueued(t).state == PlaybackState::Playing,
        m.enqueued(t).queue.len() == 0,
{
    assert(m.queue.push(t)[0] == t);
}

/// Removing the track at a valid index closes the gap: titles before the
/// index stay where they were, titles after it move down by one, and a
/// title that was queued only there no longer appears.
pub proof fn lemma_remove_compacts(m: SessionModel, i: int)
    requires
        m.valid_index(i),
    ensures
        ({
            let before = m.snapshot().titles;
            let after = m.after_remove(i).snapshot().titles;
            &&& after.len() == before.len() - 1
            &&& forall|j: int| 0 <= j < i ==> after[j] == before[j]
            &&& forall|j: int| i <= j < after.len() ==> after[j] == before[j + 1]
            &&& (forall|j: int| 0 <= j < before.len() && j != i ==> before[j] != before[i])
                ==> !after.contains(before[i])
        }),
{
    let before = m.snapshot().titles;
    let after = m.after_remove(i).snapshot().titles;
    assert forall|j: int| 0 <= j < after.len() implies after[j] == (if j < i {
        before[j]
    } else {
        before[j + 1]
    }) by {}
    if forall|j: int| 0 <= j < before.len() && j != i ==> before[j] != before[i] {
        if after.contains(before[i]) {
            let k = choose|k: int| 0 <= k < after.len() && after[k] == before[i];
            if k < i {
                assert(before[k] == before[i]);
            } else {
                assert(before[k + 1] == before[i]);
            }
        }
    }
}

/// Removing at an index outside the queue changes nothing a listing shows.
pub proof fn lemma_remove_outside_keeps(m: SessionModel, i: int)
    requires
        !m.valid_index(i),
    ensures
        m.after_remove(i) == m,
        m.after_remove(i).snapshot() == m.snapshot(),
{
}

/// Skipping with `a` current and `[b, c]` queued plays `b` and leaves `[c]`.
pub proof fn lemma_skip_promotes_next(m: SessionModel, a: TrackModel, b: TrackModel, c: TrackModel)
    requires
        m.wf(),
        m.current == Some(a),
        m.queue == seq![b, c],
    ensures
        m.skipped().current == Some(b),
        m.skipped().queue == seq![c],
        m.skipped().state == PlaybackState::Playing,
{
    assert(m.queue.drop_first() =~= seq![c]);
}

/// Pausing and then resuming leaves the listing as it was, from any state
/// but paused: there the pause fails and the resume then starts playback.
pub proof fn lemma_pause_resume_keeps_snapshot(m: SessionModel)
    requires
        m.wf(),
        m.state != PlaybackState::Paused,
    ensures
        m.paused().resumed().snapshot() == m.snapshot(),
        m.paused().resumed() == m,
{
}

/// Queuing two tracks, in either order, holds both exactly once more than
/// before, after what was already held: nothing is lost or duplicated.
pub proof fn lemma_enqueues_keep_both(m: SessionModel, x: TrackModel, y: TrackModel)
    ensures
        m.enqueued(x).enqueued(y).held() == m.held() + seq![x, y],
        m.enqueued(y).enqueued(x).held() == m.held() + seq![y, x],
{
    lemma_enqueue_holds(m, x);
    lemma_enqueue_holds(m.enqueued(x), y);
    lemma_enqueue_holds(m, y);
    lemma_enqueue_holds(m.enqueued(y), x);
    assert(m.held().push(x).push(y) =~= m.held() + seq![x, y]);
    assert(m.held().push(y).push(x) =~= m.held() + seq![y, x]);
}

/// Queuing a track adds it after everything the session held.
pub proof fn lemma_enqueue_holds(m: SessionModel, t: TrackModel)
    ensures
        m.enqueued(t).held() == m.held().push(t),
{
    let q = m.queue.push(t);
    if m.state == PlaybackState::Idle && m.current is None {
        assert(seq![q[0]] + q.drop_first() =~= q);
    } else {
        match m.current {
            Some(c) => assert(seq![c] + q =~= (seq![c] + m.queue).push(t)),
            None => {},
        }
    }
}

} // verus!
