use vstd::prelude::*;

use crate::admission::{accepts, action_of, initial, next, pool_of, Action, DispatchState, Event, Phase, Pool};
use crate::request::TaskKind;

verus! {

/// The state reached from `s` after the events `es`, in order.
pub open spec fn run(s: DispatchState, es: Seq<Event>) -> DispatchState
    decreases es.len(),
{
    if es.len() == 0 {
        s
    } else {
        next(run(s, es.drop_last()), es.last())
    }
}

/// The kinds of the items taken off the inbound queue, in order.
pub open spec fn received(s: DispatchState, es: Seq<Event>) -> Seq<TaskKind>
    decreases es.len(),
{
    if es.len() == 0 {
        seq![]
    } else {
        let before = run(s, es.drop_last());
        let rest = received(s, es.drop_last());
        match es.last() {
            Event::Received { kind } => if accepts(before, es.last()) { rest.push(kind) } else { rest },
            _ => rest,
        }
    }
}

/// The kinds of the items started on a pool, in order.
pub open spec fn started(s: DispatchState, es: Seq<Event>) -> Seq<TaskKind>
    decreases es.len(),
{
    if es.len() == 0 {
        seq![]
    } else {
        let before = run(s, es.drop_last());
        let rest = started(s, es.drop_last());
        match (es.last(), before.phase) {
            (Event::Started, Phase::Admitting { kind }) => rest.push(kind),
            _ => rest,
        }
    }
}

/// How many in-flight tasks were seen to run to completion.
pub open spec fn completed(s: DispatchState, es: Seq<Event>) -> nat
    decreases es.len(),
{
    if es.len() == 0 {
        0
    } else {
        let before = run(s, es.drop_last());
        let rest = completed(s, es.drop_last());
        if es.last() is Completed && accepts(before, es.last()) { rest + 1 } else { rest }
    }
}

/// The item received but not yet started, if any.
pub open spec fn held(s: DispatchState) -> Seq<TaskKind> {
    match s.phase {
        Phase::WaitingForSlot { kind } => seq![kind],
        Phase::Admitting { kind } => seq![kind],
        _ => seq![],
    }
}

/// One step keeps the loop's invariant and its limit.
pub proof fn lemma_step_keeps_invariant(s: DispatchState, e: Event)
    requires
        s.inv(),
    ensures
        next(s, e).inv(),
        next(s, e).limit == s.limit,
{
}

/// Whatever events arrive, the tasks in flight never outnumber the
/// concurrency limit.
pub proof fn lemma_limit_never_exceeded(limit: nat, es: Seq<Event>)
    requires
        limit > 0,
    ensures
        run(initial(limit), es).inv(),
        run(initial(limit), es).limit == limit,
        run(initial(limit), es).in_flight <= limit,
    decreases es.len(),
{
    if es.len() > 0 {
        lemma_limit_never_exceeded(limit, es.drop_last());
        lemma_step_keeps_invariant(run(initial(limit), es.drop_last()), es.last());
    }
}

/// Items start in the order they were received, each exactly once: what was
/// received is what was started followed by the one item still held, unless
/// a task's host failed.
pub proof fn lemma_start_order_is_admission_order(limit: nat, es: Seq<Event>)
    requires
        limit > 0,
    ensures
        !(run(initial(limit), es).phase is Failed) ==> received(initial(limit), es) == started(
            initial(limit),
            es,
        ) + held(run(initial(limit), es)),
    decreases es.len(),
{
    let s = initial(limit);
    if es.len() == 0 {
        assert(received(s, es) =~= started(s, es) + held(run(s, es)));
    } else {
        let prev = es.drop_last();
        lemma_start_order_is_admission_order(limit, prev);
        lemma_limit_never_exceeded(limit, prev);
        let before = run(s, prev);
        if !(run(s, es).phase is Failed) {
            assert(!(before.phase is Failed));
            assert(received(s, es) =~= started(s, es) + held(run(s, es)));
        }
    }
}

/// Every started task is either still in flight or was seen to complete.
pub proof fn lemma_started_are_completed_or_in_flight(limit: nat, es: Seq<Event>)
    requires
        limit > 0,
    ensures
        started(initial(limit), es).len() == completed(initial(limit), es) + run(
            initial(limit),
            es,
        ).in_flight,
    decreases es.len(),
{
    if es.len() > 0 {
        lemma_started_are_completed_or_in_flight(limit, es.drop_last());
        lemma_limit_never_exceeded(limit, es.drop_last());
    }
}

/// The loop stops only once every received item has been started exactly
/// once, in order, and every started task has completed.
pub proof fn lemma_stop_only_when_drained(limit: nat, es: Seq<Event>)
    requires
        limit > 0,
        run(initial(limit), es).phase is Stopped,
    ensures
        received(initial(limit), es) == started(initial(limit), es),
        started(initial(limit), es).len() == completed(initial(limit), es),
{
    lemma_start_order_is_admission_order(limit, es);
    lemma_started_are_completed_or_in_flight(limit, es);
    lemma_limit_never_exceeded(limit, es);
    assert(started(initial(limit), es) + held(run(initial(limit), es)) =~= started(initial(limit), es));
}

/// While a slot is free a received item is started at once; when every slot
/// is taken it waits, and is started as soon as any one task completes.
pub proof fn lemma_saturated_start_follows_completion(s: DispatchState, kind: TaskKind)
    requires
        s.inv(),
        s.phase is WaitingForRequest,
    ensures
        s.in_flight < s.limit ==> action_of(next(s, Event::Received { kind })) == (Action::Start {
            pool: pool_of(kind),
        }),
        s.in_flight == s.limit ==> action_of(next(s, Event::Received { kind }))
            == Action::AwaitCompletion,
        s.in_flight == s.limit ==> action_of(next(next(s, Event::Received { kind }), Event::Completed))
            == (Action::Start { pool: pool_of(kind) }),
{
}

/// Local items are only ever started on the context-bound pool.
pub proof fn lemma_local_items_stay_on_context(s: DispatchState)
    requires
        s.phase == (Phase::Admitting { kind: TaskKind::Local }),
    ensures
        action_of(s) == (Action::Start { pool: Pool::ContextBound }),
{
}

} // verus!
