//! What holds of a worker over a whole queue: requests are served one by
//! one in the order they were queued, so each observes all that was queued
//! before it and nothing of what comes after.

use vstd::prelude::*;
use crate::command::CommandView;
use crate::config::{MAX_ELEMENTS, MAX_NB_CONNECTION};
use crate::snapshot::staged_base;
use crate::worker::{react, ActionView, Phase, WorkerModel};

verus! {

/// The worker after it took the first `n` entries of `received`, one after
/// the other.
pub open spec fn after(m: WorkerModel, received: Seq<Option<CommandView>>, n: nat) -> WorkerModel
    decreases n,
{
    if n == 0 || n > received.len() {
        m
    } else {
        react(after(m, received, (n - 1) as nat), received[n - 1]).0
    }
}

/// What the task does for entry `i` of `received`.
pub open spec fn action_at(m: WorkerModel, received: Seq<Option<CommandView>>, i: nat) -> ActionView {
    react(after(m, received, i), received[i as int]).1
}

/// The place of a phase in the life of a worker.
pub open spec fn phase_rank(phase: Phase) -> nat {
    match phase {
        Phase::Starting => 0,
        Phase::Running => 1,
        Phase::Draining => 2,
        Phase::Stopped => 3,
    }
}

/// `a` is the beginning of `b`.
pub open spec fn is_prefix_of<T>(a: Seq<T>, b: Seq<T>) -> bool {
    a.len() <= b.len() && a =~= b.subrange(0, a.len() as int)
}

/// One request leaves the record in agreement with itself, moves the worker
/// forward in its life or not at all, and takes nothing from what was
/// inserted.
pub proof fn lemma_react_keeps(m: WorkerModel, received: Option<CommandView>)
    requires
        m.wf(),
    ensures
        react(m, received).0.wf(),
        react(m, received).0.collection == m.collection,
        react(m, received).0.base == m.base,
        phase_rank(react(m, received).0.phase) >= phase_rank(m.phase),
        react(m, received).0.phase == Phase::Running ==> m.phase == Phase::Running,
        is_prefix_of(m.inserted, react(m, received).0.inserted),
        m.size() <= MAX_ELEMENTS ==> react(m, received).0.size() <= MAX_ELEMENTS,
{
    let next = react(m, received).0;
    if m.phase == Phase::Running {
        if let Some(CommandView::Add(vector, id)) = received {
            if m.size() < MAX_ELEMENTS && m.fits(vector) {
                assert(next.inserted == m.inserted.push((vector, id)));
                assert forall|i: int| 0 <= i < next.inserted.len() implies next.fits(#[trigger] next.inserted[i].0) by {
                    if i < m.inserted.len() {
                        assert(m.fits(m.inserted[i].0));
                    }
                }
            }
        }
    }
}

/// The phase of a worker never goes back, whatever is queued: starting,
/// running, draining, stopped, in this order. Its record stays in agreement
/// with itself, and a full index is never exceeded.
pub proof fn lemma_life_goes_forward(m: WorkerModel, received: Seq<Option<CommandView>>, earlier: nat, later: nat)
    requires
        m.wf(),
        earlier <= later <= received.len(),
    ensures
        after(m, received, later).wf(),
        after(m, received, later).collection == m.collection,
        after(m, received, later).base == m.base,
        phase_rank(after(m, received, earlier).phase) <= phase_rank(after(m, received, later).phase),
        after(m, received, later).phase == Phase::Running ==> after(m, received, earlier).phase == Phase::Running,
        is_prefix_of(after(m, received, earlier).inserted, after(m, received, later).inserted),
        m.size() <= MAX_ELEMENTS ==> after(m, received, later).size() <= MAX_ELEMENTS,
    decreases later,
{
    if later == 0 {
    } else {
        let before = after(m, received, (later - 1) as nat);
        if earlier == later {
            lemma_life_goes_forward(m, received, (later - 1) as nat, (later - 1) as nat);
            lemma_react_keeps(before, received[later - 1]);
        } else {
            lemma_life_goes_forward(m, received, earlier, (later - 1) as nat);
            lemma_react_keeps(before, received[later - 1]);
        }
    }
}

/// The index never holds more than its capacity: a worker that starts
/// within it stays within it, whatever is queued.
pub proof fn lemma_capacity_is_kept(m: WorkerModel, received: Seq<Option<CommandView>>, n: nat)
    requires
        m.wf(),
        m.size() <= MAX_ELEMENTS,
        n <= received.len(),
    ensures
        after(m, received, n).size() <= MAX_ELEMENTS,
{
    lemma_life_goes_forward(m, received, n, n);
}

/// An insertion that was queued before another request has been applied in
/// full when that request is served: if the worker is still running once it
/// has taken entry `j`, then the `Add` at an earlier place `i` was answered
/// by an insertion of its vector under its id, and the record that entry
/// `j` meets holds that vector under that id.
pub proof fn lemma_earlier_add_is_observed(
    m: WorkerModel,
    received: Seq<Option<CommandView>>,
    i: nat,
    j: nat,
    vector: Seq<u32>,
    id: usize,
)
    requires
        m.wf(),
        i < j < received.len(),
        received[i as int] == Some(CommandView::Add(vector, id)),
        after(m, received, j + 1).phase == Phase::Running,
    ensures
        action_at(m, received, i) == ActionView::Insert(vector, id),
        after(m, received, j).inserted.contains((vector, id)),
        after(m, received, j).size() > 0,
{
    lemma_life_goes_forward(m, received, i, j + 1);
    lemma_life_goes_forward(m, received, i + 1, j + 1);
    lemma_life_goes_forward(m, received, i + 1, j);
    lemma_life_goes_forward(m, received, j, j + 1);
    let at_i = after(m, received, i);
    let past_i = after(m, received, i + 1);
    let at_j = after(m, received, j);
    assert(past_i == react(at_i, received[i as int]).0);
    assert(at_i.phase == Phase::Running);
    assert(past_i.phase == Phase::Running);
    assert(past_i.inserted == at_i.inserted.push((vector, id)));
    let place: int = at_i.inserted.len() as int;
    assert(past_i.inserted[place] == (vector, id));
    assert(at_j.inserted.subrange(0, past_i.inserted.len() as int)[place] == at_j.inserted[place]);
    assert(at_j.inserted[place] == (vector, id));
}

/// The insertions asked for in a list of entries, in the order of the list.
pub open spec fn additions(received: Seq<Option<CommandView>>) -> Seq<(Seq<u32>, usize)>
    decreases received.len(),
{
    if received.len() == 0 {
        Seq::empty()
    } else {
        match received.last() {
            Some(CommandView::Add(vector, id)) => additions(received.drop_last()).push((vector, id)),
            _ => additions(received.drop_last()),
        }
    }
}

/// A worker that is still running has applied every insertion it took, each
/// once and in the order of the queue, and nothing else: its record is the
/// one it started from, followed by the insertions among the entries taken.
pub proof fn lemma_running_worker_holds_all_additions(
    m: WorkerModel,
    received: Seq<Option<CommandView>>,
    n: nat,
)
    requires
        m.wf(),
        n <= received.len(),
        after(m, received, n).phase == Phase::Running,
    ensures
        after(m, received, n).inserted == m.inserted + additions(received.take(n as int)),
    decreases n,
{
    if n == 0 {
        assert(received.take(0) =~= Seq::<Option<CommandView>>::empty());
        assert(m.inserted + additions(received.take(0)) =~= m.inserted);
    } else {
        let before = after(m, received, (n - 1) as nat);
        lemma_life_goes_forward(m, received, (n - 1) as nat, n);
        lemma_running_worker_holds_all_additions(m, received, (n - 1) as nat);
        let taken = received.take(n as int);
        assert(taken.drop_last() =~= received.take(n - 1));
        assert(taken.last() == received[n - 1]);
        assert(after(m, received, n).inserted =~= m.inserted + additions(taken));
    }
}

/// A `Save` captures the index as of all that was queued before it, and
/// nothing of what comes after: if the worker is still running once it has
/// taken the `Save` at place `j`, it answered it by a snapshot under the
/// staged name of its collection, the record at that time was the one it
/// started from followed by the insertions queued before place `j`, and the
/// `Save` left the worker as it was.
pub proof fn lemma_save_captures_what_was_queued_before(
    m: WorkerModel,
    received: Seq<Option<CommandView>>,
    j: nat,
)
    requires
        m.wf(),
        j < received.len(),
        received[j as int] == Some(CommandView::Save),
        after(m, received, j + 1).phase == Phase::Running,
    ensures
        action_at(m, received, j) == ActionView::Persist(staged_base(m.collection)),
        after(m, received, j).inserted == m.inserted + additions(received.take(j as int)),
        after(m, received, j + 1) == after(m, received, j),
{
    lemma_life_goes_forward(m, received, j, j + 1);
    lemma_running_worker_holds_all_additions(m, received, j);
}

/// What the worker does for a request depends on nothing that was queued
/// after it: two queues that agree on their first `n` entries leave the
/// worker in the same state once these are taken.
pub proof fn lemma_later_requests_are_not_observed(
    m: WorkerModel,
    first: Seq<Option<CommandView>>,
    second: Seq<Option<CommandView>>,
    n: nat,
)
    requires
        n <= first.len(),
        n <= second.len(),
        first.take(n as int) == second.take(n as int),
    ensures
        after(m, first, n) == after(m, second, n),
    decreases n,
{
    if n > 0 {
        assert(first.take(n as int).take(n - 1) =~= first.take(n - 1));
        assert(second.take(n as int).take(n - 1) =~= second.take(n - 1));
        lemma_later_requests_are_not_observed(m, first, second, (n - 1) as nat);
        assert(first.take(n as int)[n - 1] == first[n - 1]);
        assert(second.take(n as int)[n - 1] == second[n - 1]);
    }
}

/// A running worker answers a `Lookup` whose vector fits the index by a
/// search for that vector, for as many neighbours as were asked, with the
/// search width fixed to the largest number of links of a node; the index
/// is left as it was.
pub proof fn lemma_lookup_searches(m: WorkerModel, vector: Seq<u32>, k: usize)
    requires
        m.phase == Phase::Running,
        m.fits(vector),
    ensures
        react(m, Some(CommandView::Lookup(vector, k))) == (m, ActionView::Search(vector, k, MAX_NB_CONNECTION)),
{
}

/// A running worker answers a `Save` by a snapshot under the staged name of
/// its collection; the index is left as it was, so the snapshot holds what
/// was queued before the `Save` and nothing else.
pub proof fn lemma_save_persists(m: WorkerModel)
    requires
        m.phase == Phase::Running,
    ensures
        react(m, Some(CommandView::Save)) == (m, ActionView::Persist(staged_base(m.collection))),
{
}

/// Two insertions under one document id are both applied: the index then
/// holds two elements that share the id.
pub proof fn lemma_same_id_twice(m: WorkerModel, first: Seq<u32>, second: Seq<u32>, id: usize)
    requires
        m.wf(),
        m.phase == Phase::Running,
        m.size() + 2 <= MAX_ELEMENTS,
        m.fits(first),
        first.len() == second.len(),
    ensures
        ({
            let once = react(m, Some(CommandView::Add(first, id)));
            let twice = react(once.0, Some(CommandView::Add(second, id)));
            &&& once.1 == ActionView::Insert(first, id)
            &&& twice.1 == ActionView::Insert(second, id)
            &&& twice.0.phase == Phase::Running
            &&& twice.0.size() == m.size() + 2
            &&& twice.0.inserted == m.inserted.push((first, id)).push((second, id))
        }),
{
}

/// A worker that has stopped stays stopped and serves nothing.
pub proof fn lemma_stopped_is_final(m: WorkerModel, received: Option<CommandView>)
    requires
        m.phase == Phase::Stopped,
    ensures
        react(m, received) == (m, ActionView::Idle),
{
}

/// After `Shutdown` nothing more is served: what is left in the queue is
/// discarded, and the end of the queue stops the worker.
pub proof fn lemma_shutdown_drains(m: WorkerModel, left: Option<CommandView>)
    requires
        m.phase == Phase::Running,
    ensures
        ({
            let draining = react(m, Some(CommandView::Shutdown));
            &&& draining == (m.in_phase(Phase::Draining), ActionView::Drain)
            &&& left is Some ==> react(draining.0, left) == (draining.0, ActionView::Discard)
            &&& left is None ==> react(draining.0, left) == (m.in_phase(Phase::Stopped), ActionView::Finish)
        }),
{
}

/// A queue that closes while the worker runs stops it cleanly.
pub proof fn lemma_closed_queue_stops(m: WorkerModel)
    requires
        m.phase == Phase::Running,
    ensures
        react(m, None) == (m.in_phase(Phase::Stopped), ActionView::Finish),
{
}

} // verus!
