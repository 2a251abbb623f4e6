use crate::buffer::{
    lemma_first_holder_exists, BufferModel, Receipt, WorkerAction, WorkerPhase,
};
use crate::composite::RaceModel;
use vstd::prelude::*;
use vstd::set_lib::{lemma_int_range, lemma_len_subset, set_int_range};

verus! {

/// Every transition of a buffer keeps it well formed: the queue never holds
/// more than its capacity, the polls started plus the demand still
/// outstanding always equal the polls requested, and no worker exits before
/// shutdown is requested.
pub proof fn lemma_transitions_keep_wf<T>(m: BufferModel<T>, w: int, r: T)
    requires
        m.wf(),
        0 <= w < m.workers.len(),
    ensures
        m.after_request().wf(),
        m.after_step(w).wf(),
        m.after_completion(w, r).wf(),
        m.after_abandon(w).wf(),
        m.after_receive().wf(),
        m.after_shutdown().wf(),
{
    if m.queue.len() == 0 && m.has_holder() {
        let k = choose|k: int| 0 <= k < m.workers.len() && #[trigger] m.workers[k] is Holding;
        lemma_first_holder_exists(m, k);
    }
}

/// Demand gating: no more outside polls are ever started than consumers asked
/// for, no more are in flight at once than there are workers (so at most one
/// with a single worker), and a worker starts a poll only by consuming one
/// unit of demand.
pub proof fn lemma_demand_gating<T>(m: BufferModel<T>, w: int)
    requires
        m.wf(),
        0 <= w < m.workers.len(),
    ensures
        m.started <= m.requested,
        m.in_flight().finite(),
        m.in_flight().len() <= m.workers.len(),
        m.step_action(w) == WorkerAction::StartPoll <==> (m.workers[w] is Idle && !m.shutdown
            && m.demand > 0),
        m.step_action(w) == WorkerAction::StartPoll ==> m.after_step(w).started == m.started + 1
            && m.after_step(w).demand == m.demand - 1,
        m.step_action(w) != WorkerAction::StartPoll ==> m.after_step(w).started == m.started
            && m.after_step(w).demand == m.demand,
        m.after_step(w).requested == m.requested,
{
    let range = set_int_range(0, m.workers.len() as int);
    lemma_int_range(0, m.workers.len() as int);
    assert(m.in_flight().subset_of(range));
    lemma_len_subset(m.in_flight(), range);
}

/// No spurious polling: while no consumer has asked for a result, no outside
/// poll has been started, no worker step starts one, and no transition but a
/// consumer's request creates demand.
pub proof fn lemma_no_spurious_polling<T>(m: BufferModel<T>, w: int, r: T)
    requires
        m.wf(),
        m.requested == 0,
        0 <= w < m.workers.len(),
    ensures
        m.started == 0,
        m.demand == 0,
        m.step_action(w) != WorkerAction::StartPoll,
        m.after_step(w).requested == 0,
        m.after_completion(w, r).requested == 0,
        m.after_abandon(w).requested == 0,
        m.after_receive().requested == 0,
        m.after_shutdown().requested == 0,
{
}

/// Bounded buffering: the queue never holds more than its capacity (nothing
/// at all where the capacity is 0), and a worker holding an outcome while the
/// queue is full stays blocked, with nothing changed, until a consumer takes
/// one out; once shutdown is requested it drops the outcome and exits instead.
pub proof fn lemma_bounded_buffering<T>(m: BufferModel<T>, w: int)
    requires
        m.wf(),
        0 <= w < m.workers.len(),
    ensures
        m.queue.len() <= m.capacity,
        m.capacity == 0 ==> m.queue.len() == 0,
        m.after_step(w).queue.len() <= m.capacity,
        (m.workers[w] is Holding && m.queue.len() == m.capacity && !m.shutdown) ==> m.step_action(
            w,
        ) == WorkerAction::Wait && m.after_step(w) == m,
        (m.workers[w] is Holding && m.queue.len() == m.capacity && m.shutdown) ==> m.step_action(
            w,
        ) == WorkerAction::Exit && m.after_step(w).workers[w] is Exited,
        (m.workers[w] is Holding && m.queue.len() == m.capacity && m.queue.len() > 0)
            ==> m.after_receive().step_action(w) == WorkerAction::Pushed,
{
}

/// Shutdown drains cleanly: once shutdown is requested no new outside poll is
/// started, an idle worker exits, so does one blocked on a full queue, an
/// outcome that settles is dropped, and once
/// every worker has exited a receive never waits: it yields a buffered
/// outcome or `Closed`, and the buffer stays closed.
pub proof fn lemma_shutdown_drains<T>(m: BufferModel<T>, w: int, r: T)
    requires
        m.wf(),
        m.shutdown,
        0 <= w < m.workers.len(),
    ensures
        m.step_action(w) != WorkerAction::StartPoll,
        m.after_step(w).started == m.started,
        m.workers[w] is Idle ==> m.step_action(w) == WorkerAction::Exit && m.after_step(
            w,
        ).workers[w] is Exited,
        (m.workers[w] is Holding && m.queue.len() >= m.capacity) ==> m.after_step(
            w,
        ).workers[w] is Exited,
        !(m.after_completion(w, r).workers[w] is Holding) || m.workers[w] is Holding,
        m.after_step(w).shutdown,
        m.closed() ==> !(m.next_receipt() is Wait),
        m.closed() ==> m.after_step(w).closed() && m.after_receive().closed(),
        (m.closed() && m.queue.len() == 0) ==> m.next_receipt() is Closed,
{
    if m.closed() {
        assert(m.workers[w] is Exited);
    }
}

/// A unit of demand is served: with shutdown not requested, an idle worker
/// consumes the demand, its poll's outcome is kept, and the next receive
/// yields it: from the queue, or handed over where the capacity is 0.
pub proof fn lemma_demand_is_served<T>(m: BufferModel<T>, w: int, r: T)
    requires
        m.wf(),
        !m.shutdown,
        m.demand > 0,
        m.queue.len() == 0,
        0 <= w < m.workers.len(),
        m.workers[w] is Idle,
        forall|j: int| 0 <= j < m.workers.len() ==> !(#[trigger] m.workers[j] is Holding),
    ensures
        m.after_step(w).after_completion(w, r).after_step(w).next_receipt() == Receipt::Item(r),
{
    let m1 = m.after_step(w);
    let m2 = m1.after_completion(w, r);
    assert(m2.workers[w] == WorkerPhase::Holding(r));
    let m3 = m2.after_step(w);
    if m.capacity > 0 {
        assert(m3.queue =~= seq![r]);
    } else {
        assert(m2.is_first_holder(w));
        crate::buffer::lemma_first_holder_unique(m2, w);
    }
}

/// One round of steps under shutdown, with no poll call in flight, leaves
/// each stepped worker idle or exited, and exited where it was idle or
/// exited before; the workers not yet stepped are untouched.
pub proof fn lemma_shutdown_round<T>(m: BufferModel<T>, n: nat)
    requires
        m.wf(),
        m.shutdown,
        n <= m.workers.len(),
        forall|i: int| 0 <= i < m.workers.len() ==> !(#[trigger] m.workers[i] is Polling),
    ensures
        m.after_round(n).wf(),
        m.after_round(n).shutdown,
        m.after_round(n).workers.len() == m.workers.len(),
        forall|i: int| n <= i < m.workers.len() ==> #[trigger] m.after_round(n).workers[i] == m.workers[i],
        forall|i: int|
            0 <= i < n ==> (#[trigger] m.after_round(n).workers[i] is Idle || m.after_round(
                n,
            ).workers[i] is Exited),
        forall|i: int|
            0 <= i < n && (m.workers[i] is Idle || m.workers[i] is Exited) ==> #[trigger] m.after_round(
                n,
            ).workers[i] is Exited,
    decreases n,
{
    if n > 0 {
        let k = (n - 1) as nat;
        lemma_shutdown_round(m, k);
        let p = m.after_round(k);
        lemma_transitions_keep_wf(p, n - 1, vstd::pervasive::arbitrary());
        assert(p.workers[n - 1] == m.workers[n - 1]);
    }
}

/// Shutdown terminates: once shutdown is requested and no outside poll call
/// is in flight, two rounds of steps over the workers leave every worker
/// exited, so that a receive no longer waits.
pub proof fn lemma_shutdown_terminates<T>(m: BufferModel<T>)
    requires
        m.wf(),
        m.shutdown,
        forall|i: int| 0 <= i < m.workers.len() ==> !(#[trigger] m.workers[i] is Polling),
    ensures
        m.after_round(m.workers.len()).after_round(m.workers.len()).closed(),
        !(m.after_round(m.workers.len()).after_round(m.workers.len()).next_receipt() is Wait),
{
    let n = m.workers.len();
    lemma_shutdown_round(m, n);
    let m1 = m.after_round(n);
    assert forall|i: int| 0 <= i < m1.workers.len() implies !(#[trigger] m1.workers[i] is Polling) by {
        assert(m1.workers[i] is Idle || m1.workers[i] is Exited);
    }
    lemma_shutdown_round(m1, n);
    let m2 = m1.after_round(n);
    assert forall|i: int| 0 <= i < m2.workers.len() implies #[trigger] m2.workers[i] is Exited by {
        assert(m1.workers[i] is Idle || m1.workers[i] is Exited);
    }
    if m2.queue.len() == 0 && m2.has_holder() {
        let k = choose|k: int| 0 <= k < m2.workers.len() && #[trigger] m2.workers[k] is Holding;
        assert(m2.workers[k] is Exited);
    }
}

/// Racing: where the sticky child can complete and the normal one cannot, the
/// race hands out the sticky child's receipt whichever way it leans, and the
/// normal child is left exactly as it was, so the demand that the poll gave
/// it and anything it buffers go to a later poll of the normal child.
pub proof fn lemma_sticky_first_wins<T>(m: RaceModel<T>, prefer_sticky: bool)
    requires
        m.wf(),
        m.sticky is Some,
        !(m.sticky.unwrap().next_receipt() is Wait),
        m.normal.next_receipt() is Wait,
    ensures
        m.next_receipt(prefer_sticky) == m.sticky.unwrap().next_receipt(),
        m.after_receive(prefer_sticky).normal == m.normal,
        m.after_receive(prefer_sticky).sticky == Some(m.sticky.unwrap().after_receive()),
{
}

/// A poll of the race asks each present child for one result, so the normal
/// child's demand grows by one whichever child then wins.
pub proof fn lemma_race_requests_both<T>(m: RaceModel<T>, prefer_sticky: bool)
    requires
        m.wf(),
    ensures
        m.after_request().normal == m.normal.after_request(),
        m.after_request().wf(),
        m.after_request().after_receive(prefer_sticky).normal.demand == m.normal.demand + 1,
        m.after_request().after_receive(prefer_sticky).normal.requested == m.normal.requested
            + 1,
{
}

} // verus!
