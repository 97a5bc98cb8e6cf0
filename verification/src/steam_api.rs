//! The drain cycle: one pass over the events the service has queued.
//!
//! The cycle is a state machine that never touches the service itself. The
//! caller performs each requested action (poll the queue, fetch a call
//! result, invoke a handler, release the event) and reports back; the
//! machine decides what comes next. The caller holds the context's lock only
//! for the duration of one step, so a handler is free to register or cancel
//! handlers while it runs.

use vstd::prelude::*;

use crate::event::{CallCompleted, EventClass, EventModel, RawEvent};
use crate::registry::{DispatchContext, Registries};
use crate::CallbackId;

verus! {

/// Reported in place of the bytes when the result of a call cannot be had.
#[derive(Clone, Copy, Debug, PartialEq, Eq, Structural)]
pub struct FetchFailed;

/// Why an event reached no handler.
#[derive(Clone, Copy, Debug, PartialEq, Eq, Structural)]
pub enum DropReason {
    /// Its bytes do not match what it declares; worth a log line.
    Undecodable,
    /// Nobody registered interest; dropped in silence.
    Unclaimed,
}

/// Where a drain cycle stands between two steps.
#[derive(Clone, Copy, Debug, PartialEq, Eq, Structural)]
pub enum DrainState {
    /// No cycle is running.
    Idle,
    /// The next event has been asked for.
    Polling,
    /// The result of the given call has been asked for.
    Fetching(CallCompleted),
    /// The current event has been routed; its handler, if any, is running.
    Settling,
    /// The release of the current event has been asked for.
    Releasing,
}

/// What the caller reports to the cycle.
#[derive(Debug)]
pub enum DrainInput {
    /// Start a cycle.
    Begin,
    /// The answer to `Poll`: the next event, or `None` when the queue is
    /// empty.
    Polled(Option<RawEvent>),
    /// The answer to `Fetch`: the result bytes, or the failure of the call.
    Fetched(Result<Vec<u8>, FetchFailed>),
    /// The last requested action has been carried out.
    Done,
}

/// What the cycle asks of the caller.
#[derive(Debug)]
pub enum DrainAction<O> {
    /// Ask the queue for its next event and answer with `Polled`.
    Poll,
    /// Fetch the result of this call and answer with `Fetched`.
    Fetch(CallCompleted),
    /// Invoke the reusable handler of kind `id` on `payload`, then answer
    /// `Done`.
    InvokePersistent { id: CallbackId, payload: Vec<u8> },
    /// Invoke `handler`, which has left the registry, then answer `Done`.
    InvokeOneShot { handler: O, payload: Vec<u8>, failed: bool },
    /// The event reaches no handler; answer `Done`.
    Discard(DropReason),
    /// Release the current event, then answer `Done`.
    Release,
    /// The queue is empty and the cycle is over.
    Finish,
    /// The input does not answer what was asked; nothing has changed.
    OutOfTurn,
}

/// A `DrainInput` as a mathematical value.
pub ghost enum InputModel {
    Begin,
    Polled(Option<EventModel>),
    Fetched(Result<Seq<u8>, FetchFailed>),
    Done,
}

/// A `DrainAction` as a mathematical value.
pub ghost enum ActionModel<O> {
    Poll,
    Fetch(CallCompleted),
    InvokePersistent { id: CallbackId, payload: Seq<u8> },
    InvokeOneShot { handler: O, payload: Seq<u8>, failed: bool },
    Discard(DropReason),
    Release,
    Finish,
    OutOfTurn,
}

/// The outcome of a fetch with its bytes taken as a sequence.
pub open spec fn fetched_model(fetched: Result<Vec<u8>, FetchFailed>) -> Result<Seq<u8>, FetchFailed> {
    match fetched {
        Ok(bytes) => Ok(bytes@),
        Err(failure) => Err(failure),
    }
}

impl View for DrainInput {
    type V = InputModel;

    open spec fn view(&self) -> InputModel {
        match self {
            DrainInput::Begin => InputModel::Begin,
            DrainInput::Polled(Some(event)) => InputModel::Polled(Some(event@)),
            DrainInput::Polled(None) => InputModel::Polled(None),
            DrainInput::Fetched(fetched) => InputModel::Fetched(fetched_model(*fetched)),
            DrainInput::Done => InputModel::Done,
        }
    }
}

impl<O> View for DrainAction<O> {
    type V = ActionModel<O>;

    open spec fn view(&self) -> ActionModel<O> {
        match self {
            DrainAction::Poll => ActionModel::Poll,
            DrainAction::Fetch(call) => ActionModel::Fetch(*call),
            DrainAction::InvokePersistent { id, payload } => ActionModel::InvokePersistent {
                id: *id,
                payload: payload@,
            },
            DrainAction::InvokeOneShot { handler, payload, failed } => ActionModel::InvokeOneShot {
                handler: *handler,
                payload: payload@,
                failed: *failed,
            },
            DrainAction::Discard(reason) => ActionModel::Discard(*reason),
            DrainAction::Release => ActionModel::Release,
            DrainAction::Finish => ActionModel::Finish,
            DrainAction::OutOfTurn => ActionModel::OutOfTurn,
        }
    }
}

/// The outcome of one step: the registries and the state it leaves, and the
/// action it asks for.
pub ghost struct Transition<P, O> {
    pub regs: Registries<P, O>,
    pub state: DrainState,
    pub action: ActionModel<O>,
}

/// Where an ordinary event of kind `id` goes: to the handler registered for
/// the kind, which stays registered, or nowhere.
pub open spec fn route_notification<P, O>(
    regs: Registries<P, O>,
    id: CallbackId,
    payload: Seq<u8>,
) -> ActionModel<O> {
    if regs.persistent.contains_key(id) {
        ActionModel::InvokePersistent { id, payload }
    } else {
        ActionModel::Discard(DropReason::Unclaimed)
    }
}

/// The payload a single-use handler receives: the fetched bytes, or no bytes
/// when the call failed.
pub open spec fn result_payload(fetched: Result<Seq<u8>, FetchFailed>) -> Seq<u8> {
    match fetched {
        Ok(bytes) => bytes,
        Err(_) => Seq::empty(),
    }
}

/// Where the result of a call goes: to the handler attached to the call,
/// which leaves the registry whether the call succeeded or failed, or
/// nowhere.
pub open spec fn route_result<P, O>(
    regs: Registries<P, O>,
    call: CallCompleted,
    fetched: Result<Seq<u8>, FetchFailed>,
) -> (Registries<P, O>, ActionModel<O>) {
    match regs.pending_for(call.call_handle) {
        Some(handler) => (
            regs.without_pending(call.call_handle),
            ActionModel::InvokeOneShot {
                handler,
                payload: result_payload(fetched),
                failed: fetched is Err,
            },
        ),
        None => (regs, ActionModel::Discard(DropReason::Unclaimed)),
    }
}

/// The step the cycle takes from `state` on `input`.
pub open spec fn step<P, O>(
    regs: Registries<P, O>,
    state: DrainState,
    input: InputModel,
) -> Transition<P, O> {
    match (state, input) {
        (DrainState::Idle, InputModel::Begin) => Transition {
            regs,
            state: DrainState::Polling,
            action: ActionModel::Poll,
        },
        (DrainState::Polling, InputModel::Polled(None)) => Transition {
            regs,
            state: DrainState::Idle,
            action: ActionModel::Finish,
        },
        (DrainState::Polling, InputModel::Polled(Some(event))) => match event.class() {
            EventClass::Completion(call) => Transition {
                regs,
                state: DrainState::Fetching(call),
                action: ActionModel::Fetch(call),
            },
            EventClass::Notification(id) => Transition {
                regs,
                state: DrainState::Settling,
                action: route_notification(regs, id, event.payload),
            },
            EventClass::Undecodable => Transition {
                regs,
                state: DrainState::Settling,
                action: ActionModel::Discard(DropReason::Undecodable),
            },
        },
        (DrainState::Fetching(call), InputModel::Fetched(fetched)) => Transition {
            regs: route_result(regs, call, fetched).0,
            state: DrainState::Settling,
            action: route_result(regs, call, fetched).1,
        },
        (DrainState::Settling, InputModel::Done) => Transition {
            regs,
            state: DrainState::Releasing,
            action: ActionModel::Release,
        },
        (DrainState::Releasing, InputModel::Done) => Transition {
            regs,
            state: DrainState::Polling,
            action: ActionModel::Poll,
        },
        _ => Transition { regs, state, action: ActionModel::OutOfTurn },
    }
}

/// Routes an ordinary event.
fn settle_notification<P, O>(ctx: &DispatchContext<P, O>, id: CallbackId, payload: Vec<u8>) -> (action:
    DrainAction<O>)
    ensures
        action@ == route_notification(ctx@, id, payload@),
{
    match ctx.take_persistent(id) {
        Some(_) => DrainAction::InvokePersistent { id, payload },
        None => DrainAction::Discard(DropReason::Unclaimed),
    }
}

/// Routes the result of a call.
fn settle_result<P, O>(
    ctx: &mut DispatchContext<P, O>,
    call: CallCompleted,
    fetched: Result<Vec<u8>, FetchFailed>,
) -> (action: DrainAction<O>)
    ensures
        final(ctx)@ == route_result(old(ctx)@, call, fetched_model(fetched)).0,
        action@ == route_result(old(ctx)@, call, fetched_model(fetched)).1,
{
    let taken = ctx.take_one_shot(call.call_handle);
    assert(taken is None ==> ctx@ =~= old(ctx)@);
    match taken {
        Some(handler) => match fetched {
            Ok(payload) => DrainAction::InvokeOneShot { handler, payload, failed: false },
            Err(_) => DrainAction::InvokeOneShot { handler, payload: Vec::new(), failed: true },
        },
        None => DrainAction::Discard(DropReason::Unclaimed),
    }
}

/// Takes one step of the drain cycle: reads what the caller reports,
/// updates `state` and the registries in `ctx`, and returns the action the
/// caller is to perform next.
pub fn run_callbacks<P, O>(
    ctx: &mut DispatchContext<P, O>,
    state: &mut DrainState,
    input: DrainInput,
) -> (action: DrainAction<O>)
    ensures
        final(ctx)@ == step(old(ctx)@, *old(state), input@).regs,
        *final(state) == step(old(ctx)@, *old(state), input@).state,
        action@ == step(old(ctx)@, *old(state), input@).action,
{
    let current = *state;
    match current {
        DrainState::Idle => match input {
            DrainInput::Begin => {
                *state = DrainState::Polling;
                DrainAction::Poll
            },
            _ => DrainAction::OutOfTurn,
        },
        DrainState::Polling => match input {
            DrainInput::Polled(None) => {
                *state = DrainState::Idle;
                DrainAction::Finish
            },
            DrainInput::Polled(Some(event)) => match event.classify() {
                EventClass::Completion(call) => {
                    *state = DrainState::Fetching(call);
                    DrainAction::Fetch(call)
                },
                EventClass::Notification(id) => {
                    *state = DrainState::Settling;
                    settle_notification(ctx, id, event.payload)
                },
                EventClass::Undecodable => {
                    *state = DrainState::Settling;
                    DrainAction::Discard(DropReason::Undecodable)
                },
            },
            _ => DrainAction::OutOfTurn,
        },
        DrainState::Fetching(call) => match input {
            DrainInput::Fetched(fetched) => {
                *state = DrainState::Settling;
                settle_result(ctx, call, fetched)
            },
            _ => DrainAction::OutOfTurn,
        },
        DrainState::Settling => match input {
            DrainInput::Done => {
                *state = DrainState::Releasing;
                DrainAction::Release
            },
            _ => DrainAction::OutOfTurn,
        },
        DrainState::Releasing => match input {
            DrainInput::Done => {
                *state = DrainState::Polling;
                DrainAction::Poll
            },
            _ => DrainAction::OutOfTurn,
        },
    }
}

/// A step asks for the reusable handler of a kind only while one is
/// registered for that kind, and leaves it registered.
pub proof fn lemma_invokes_only_registered<P, O>(
    regs: Registries<P, O>,
    state: DrainState,
    input: InputModel,
)
    ensures
        step(regs, state, input).action matches ActionModel::InvokePersistent { id, .. }
            ==> regs.persistent.contains_key(id) && step(regs, state, input).regs == regs,
{
}

/// Once the handler of a kind has been removed, no step asks for it again,
/// whatever the state of the cycle and whatever event arrives, one queued
/// before the removal included.
pub proof fn lemma_cancelled_kind_is_never_invoked<P, O>(
    regs: Registries<P, O>,
    id: CallbackId,
    state: DrainState,
    input: InputModel,
)
    ensures
        !(step(regs.without_persistent(id), state, input).action matches ActionModel::InvokePersistent {
            id: invoked,
            ..
        } && invoked == id),
{
}

/// A single-use handler is handed out only for the call it was attached
/// to, and it has left the registry by the time the step returns. No other
/// step changes the registries.
pub proof fn lemma_one_shot_leaves_on_firing<P, O>(
    regs: Registries<P, O>,
    state: DrainState,
    input: InputModel,
)
    ensures
        match step(regs, state, input).action {
            ActionModel::InvokeOneShot { handler, .. } => {
                &&& state matches DrainState::Fetching(call)
                &&& regs.pending_for(call.call_handle) == Some(handler)
                &&& step(regs, state, input).regs == regs.without_pending(call.call_handle)
                &&& step(regs, state, input).regs.pending_for(call.call_handle) is None
            },
            _ => step(regs, state, input).regs == regs,
        },
{
}

/// A single-use handler fires at most once: a second completion of the same
/// call finds nothing to invoke.
pub proof fn lemma_one_shot_fires_once<P, O>(
    regs: Registries<P, O>,
    call: CallCompleted,
    first: Result<Seq<u8>, FetchFailed>,
    again: CallCompleted,
    second: Result<Seq<u8>, FetchFailed>,
)
    requires
        again.call_handle == call.call_handle,
    ensures
        step(
            step(regs, DrainState::Fetching(call), InputModel::Fetched(first)).regs,
            DrainState::Fetching(again),
            InputModel::Fetched(second),
        ).action == ActionModel::<O>::Discard(DropReason::Unclaimed),
{
}

/// A call whose result cannot be fetched still reaches its handler, once,
/// with the failure flag set and no bytes, and the handler leaves the
/// registry.
pub proof fn lemma_failed_call_still_notifies<P, O>(
    regs: Registries<P, O>,
    call: CallCompleted,
    handler: O,
)
    requires
        regs.pending_for(call.call_handle) == Some(handler),
    ensures
        step(regs, DrainState::Fetching(call), InputModel::Fetched(Err(FetchFailed)))
            == (Transition {
            regs: regs.without_pending(call.call_handle),
            state: DrainState::Settling,
            action: ActionModel::InvokeOneShot { handler, payload: Seq::empty(), failed: true },
        }),
{
}

/// A call whose result was fetched reaches its handler with exactly the
/// fetched bytes and the failure flag clear.
pub proof fn lemma_fetched_result_is_delivered<P, O>(
    regs: Registries<P, O>,
    call: CallCompleted,
    handler: O,
    bytes: Seq<u8>,
)
    requires
        regs.pending_for(call.call_handle) == Some(handler),
    ensures
        step(regs, DrainState::Fetching(call), InputModel::Fetched(Ok(bytes))) == (Transition {
            regs: regs.without_pending(call.call_handle),
            state: DrainState::Settling,
            action: ActionModel::InvokeOneShot { handler, payload: bytes, failed: false },
        }),
{
}

} // verus!
