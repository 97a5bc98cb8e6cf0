//! A whole drain cycle seen at once: the events of a backlog in queue
//! order, what each of them leads to, and how the step machine traces
//! exactly that.
//!
//! The model holds for a cycle during which nothing but the cycle itself
//! changes the registries. A handler that registers or cancels while it
//! runs starts a new stretch from the registries it leaves.

use vstd::prelude::*;

use crate::event::{EventClass, EventModel};
use crate::registry::Registries;
use crate::steam_api::{
    route_notification, route_result, step, ActionModel, DrainState, DropReason, FetchFailed,
    InputModel,
};

verus! {

/// One event of the backlog together with the answer the service gives if
/// the event is the completion of a call and its result is fetched.
pub ghost struct Arrival {
    pub event: EventModel,
    pub fetched: Result<Seq<u8>, FetchFailed>,
}

/// What one event leads to: the registries it leaves and the delivery, or
/// the discard, it ends in.
pub open spec fn settled<P, O>(regs: Registries<P, O>, arrival: Arrival) -> (
    Registries<P, O>,
    ActionModel<O>,
) {
    match arrival.event.class() {
        EventClass::Completion(call) => route_result(regs, call, arrival.fetched),
        EventClass::Notification(id) => (regs, route_notification(regs, id, arrival.event.payload)),
        EventClass::Undecodable => (regs, ActionModel::Discard(DropReason::Undecodable)),
    }
}

/// What a backlog leads to: the registries it leaves and, event by event in
/// queue order, the delivery or discard each one ends in.
pub open spec fn drained<P, O>(regs: Registries<P, O>, arrivals: Seq<Arrival>) -> (
    Registries<P, O>,
    Seq<ActionModel<O>>,
)
    decreases arrivals.len(),
{
    if arrivals.len() == 0 {
        (regs, Seq::empty())
    } else {
        let before = drained(regs, arrivals.drop_last());
        let last = settled(before.0, arrivals.last());
        (last.0, before.1.push(last.1))
    }
}

/// Where a run of steps ends and what it asked for on the way.
pub ghost struct Run<P, O> {
    pub regs: Registries<P, O>,
    pub state: DrainState,
    pub actions: Seq<ActionModel<O>>,
}

/// The run of the step machine over `inputs`, first to last.
pub open spec fn run<P, O>(regs: Registries<P, O>, state: DrainState, inputs: Seq<InputModel>) -> Run<
    P,
    O,
>
    decreases inputs.len(),
{
    if inputs.len() == 0 {
        Run { regs, state, actions: Seq::empty() }
    } else {
        let before = run(regs, state, inputs.drop_last());
        let last = step(before.regs, before.state, inputs.last());
        Run { regs: last.regs, state: last.state, actions: before.actions.push(last.action) }
    }
}

/// What a caller that follows the protocol reports for one event: the
/// event, the fetched result if the event is a completion, the end of the
/// delivery and the end of the release.
pub open spec fn answers(arrival: Arrival) -> Seq<InputModel> {
    if arrival.event.class() is Completion {
        seq![
            InputModel::Polled(Some(arrival.event)),
            InputModel::Fetched(arrival.fetched),
            InputModel::Done,
            InputModel::Done,
        ]
    } else {
        seq![InputModel::Polled(Some(arrival.event)), InputModel::Done, InputModel::Done]
    }
}

/// What the cycle asks for while one event passes: the fetch if the event
/// is a completion, then the delivery or discard, the release and the next
/// poll.
pub open spec fn requests<P, O>(regs: Registries<P, O>, arrival: Arrival) -> Seq<ActionModel<O>> {
    match arrival.event.class() {
        EventClass::Completion(call) => seq![
            ActionModel::Fetch(call),
            settled(regs, arrival).1,
            ActionModel::Release,
            ActionModel::Poll,
        ],
        _ => seq![settled(regs, arrival).1, ActionModel::Release, ActionModel::Poll],
    }
}

/// The reports of a protocol-abiding caller for a whole backlog.
pub open spec fn all_answers(arrivals: Seq<Arrival>) -> Seq<InputModel>
    decreases arrivals.len(),
{
    if arrivals.len() == 0 {
        Seq::empty()
    } else {
        all_answers(arrivals.drop_last()) + answers(arrivals.last())
    }
}

/// Everything the cycle asks for while a whole backlog passes.
pub open spec fn all_requests<P, O>(regs: Registries<P, O>, arrivals: Seq<Arrival>) -> Seq<
    ActionModel<O>,
>
    decreases arrivals.len(),
{
    if arrivals.len() == 0 {
        Seq::empty()
    } else {
        all_requests(regs, arrivals.drop_last()) + requests(
            drained(regs, arrivals.drop_last()).0,
            arrivals.last(),
        )
    }
}

/// A run over two stretches of input is the run over the first followed by
/// the run over the second from where the first ended.
pub proof fn lemma_run_concat<P, O>(
    regs: Registries<P, O>,
    state: DrainState,
    first: Seq<InputModel>,
    second: Seq<InputModel>,
)
    ensures
        run(regs, state, first + second) == ({
            let a = run(regs, state, first);
            let b = run(a.regs, a.state, second);
            Run { regs: b.regs, state: b.state, actions: a.actions + b.actions }
        }),
    decreases second.len(),
{
    let a = run(regs, state, first);
    if second.len() == 0 {
        assert(first + second =~= first);
        assert(a.actions + Seq::<ActionModel<O>>::empty() =~= a.actions);
    } else {
        assert((first + second).drop_last() =~= first + second.drop_last());
        assert((first + second).last() == second.last());
        lemma_run_concat(regs, state, first, second.drop_last());
        let b = run(a.regs, a.state, second.drop_last());
        let t = step(b.regs, b.state, second.last());
        assert((a.actions + b.actions).push(t.action) =~= a.actions + b.actions.push(t.action));
    }
}

/// Every event passes through the cycle in the same way: it is routed
/// against the registries as they stand, it is released exactly once,
/// whether a handler fired or not and whether its bytes made sense or not,
/// and only then the next event is asked for.
pub proof fn lemma_event_passes<P, O>(regs: Registries<P, O>, arrival: Arrival)
    ensures
        run(regs, DrainState::Polling, answers(arrival)) == (Run {
            regs: settled(regs, arrival).0,
            state: DrainState::Polling,
            actions: requests(regs, arrival),
        }),
{
    let inputs = answers(arrival);
    reveal_with_fuel(run, 5);
    if arrival.event.class() is Completion {
        let three = inputs.drop_last();
        let two = three.drop_last();
        let one = two.drop_last();
        assert(one.drop_last().len() == 0);
        assert(run::<P, O>(regs, DrainState::Polling, inputs).actions =~= requests(regs, arrival));
    } else {
        let two = inputs.drop_last();
        let one = two.drop_last();
        assert(one.drop_last().len() == 0);
        assert(run::<P, O>(regs, DrainState::Polling, inputs).actions =~= requests(regs, arrival));
    }
}

/// The cycle follows the queue: fed with a backlog by a caller that
/// answers each request, the step machine asks for exactly what the
/// backlog calls for, event by event in queue order, and ends with the
/// registries the backlog leaves.
pub proof fn lemma_cycle_follows_the_queue<P, O>(regs: Registries<P, O>, arrivals: Seq<Arrival>)
    ensures
        run(regs, DrainState::Polling, all_answers(arrivals)) == (Run {
            regs: drained(regs, arrivals).0,
            state: DrainState::Polling,
            actions: all_requests(regs, arrivals),
        }),
    decreases arrivals.len(),
{
    if arrivals.len() > 0 {
        let front = arrivals.drop_last();
        lemma_cycle_follows_the_queue(regs, front);
        lemma_run_concat(regs, DrainState::Polling, all_answers(front), answers(arrivals.last()));
        lemma_event_passes(drained(regs, front).0, arrivals.last());
    }
}

/// A full cycle starts from rest, passes the backlog and comes to rest
/// again when the queue reports that it is empty.
pub proof fn lemma_full_cycle<P, O>(regs: Registries<P, O>, arrivals: Seq<Arrival>)
    ensures
        run(
            regs,
            DrainState::Idle,
            seq![InputModel::Begin] + all_answers(arrivals) + seq![InputModel::Polled(None)],
        ) == (Run {
            regs: drained(regs, arrivals).0,
            state: DrainState::Idle,
            actions: seq![ActionModel::Poll] + all_requests(regs, arrivals) + seq![
                ActionModel::Finish,
            ],
        }),
{
    let begin = seq![InputModel::Begin];
    let end = seq![InputModel::Polled(None)];
    reveal_with_fuel(run, 2);
    assert(begin.drop_last().len() == 0);
    assert(end.drop_last().len() == 0);
    let first = run::<P, O>(regs, DrainState::Idle, begin);
    assert(first.actions =~= seq![ActionModel::Poll]);
    lemma_run_concat(regs, DrainState::Idle, begin, all_answers(arrivals));
    lemma_cycle_follows_the_queue(regs, arrivals);
    lemma_run_concat(regs, DrainState::Idle, begin + all_answers(arrivals), end);
    let last = run::<P, O>(drained(regs, arrivals).0, DrainState::Polling, end);
    assert(last.actions =~= seq![ActionModel::Finish]);
}

/// A backlog in two stretches leads to what the first stretch leads to,
/// followed by what the second leads to from the registries the first
/// leaves.
pub proof fn lemma_drained_concat<P, O>(
    regs: Registries<P, O>,
    first: Seq<Arrival>,
    second: Seq<Arrival>,
)
    ensures
        drained(regs, first + second).0 == drained(drained(regs, first).0, second).0,
        drained(regs, first + second).1 == drained(regs, first).1 + drained(
            drained(regs, first).0,
            second,
        ).1,
    decreases second.len(),
{
    let a = drained(regs, first);
    if second.len() == 0 {
        assert(first + second =~= first);
        assert(a.1 + Seq::<ActionModel<O>>::empty() =~= a.1);
    } else {
        assert((first + second).drop_last() =~= first + second.drop_last());
        assert((first + second).last() == second.last());
        lemma_drained_concat(regs, first, second.drop_last());
        let b = drained(a.0, second.drop_last());
        let last = settled(b.0, second.last());
        assert((a.1 + b.1).push(last.1) =~= a.1 + b.1.push(last.1));
    }
}

/// Deliveries keep the order of the queue: a backlog of `n` events ends in
/// `n` outcomes, and the outcome at each place is that of the event at the
/// same place, routed against the registries that the events before it
/// leave.
pub proof fn lemma_drain_in_order<P, O>(regs: Registries<P, O>, arrivals: Seq<Arrival>)
    ensures
        drained(regs, arrivals).1.len() == arrivals.len(),
        forall|i: int|
            0 <= i < arrivals.len() ==> #[trigger] drained(regs, arrivals).1[i] == settled(
                drained(regs, arrivals.take(i)).0,
                arrivals[i],
            ).1,
    decreases arrivals.len(),
{
    if arrivals.len() > 0 {
        let front = arrivals.drop_last();
        lemma_drain_in_order(regs, front);
        assert forall|i: int| 0 <= i < arrivals.len() implies #[trigger] drained(
            regs,
            arrivals,
        ).1[i] == settled(drained(regs, arrivals.take(i)).0, arrivals[i]).1 by {
            if i < front.len() {
                assert(front.take(i) =~= arrivals.take(i));
                assert(drained(regs, arrivals).1[i] == drained(regs, front).1[i]);
            } else {
                assert(arrivals.take(i) =~= front);
            }
        }
    }
}

/// An event whose bytes do not match what it declares is discarded and
/// touches nothing else: the events before it and after it end exactly as
/// they would had it never been queued.
pub proof fn lemma_undecodable_event_is_isolated<P, O>(
    regs: Registries<P, O>,
    before: Seq<Arrival>,
    broken: Arrival,
    after: Seq<Arrival>,
)
    requires
        broken.event.class() is Undecodable,
    ensures
        drained(regs, before.push(broken) + after).0 == drained(regs, before + after).0,
        drained(regs, before.push(broken) + after).1 == drained(regs, before).1.push(
            ActionModel::Discard(DropReason::Undecodable),
        ) + drained(drained(regs, before).0, after).1,
        drained(regs, before + after).1 == drained(regs, before).1 + drained(
            drained(regs, before).0,
            after,
        ).1,
{
    lemma_drained_concat(regs, before.push(broken), after);
    lemma_drained_concat(regs, before, after);
    assert(before.push(broken).drop_last() =~= before);
}

} // verus!
