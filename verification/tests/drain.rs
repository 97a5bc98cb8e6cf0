use std::cell::RefCell;
use std::collections::{HashMap, VecDeque};
use std::rc::Rc;

use steamstacks::event::{CallCompleted, RawEvent};
use steamstacks::registry::DispatchContext;
use steamstacks::steam_api::{
    run_callbacks, DrainAction, DrainInput, DrainState, DropReason, FetchFailed,
};

type Persistent = Rc<dyn Fn(&[u8])>;
type OneShot = Box<dyn FnOnce(&[u8], bool)>;
type Context = DispatchContext<Persistent, OneShot>;
type Shared = Rc<RefCell<Context>>;
type Log = Rc<RefCell<Vec<String>>>;

/// An event queue held in memory, with the call results it can hand out.
struct FakeQueue {
    events: VecDeque<RawEvent>,
    results: HashMap<u64, Vec<u8>>,
    polls: usize,
    releases: usize,
    fetches: Vec<CallCompleted>,
    discards: Vec<DropReason>,
}

impl FakeQueue {
    fn new() -> Self {
        FakeQueue {
            events: VecDeque::new(),
            results: HashMap::new(),
            polls: 0,
            releases: 0,
            fetches: Vec::new(),
            discards: Vec::new(),
        }
    }

    fn push(&mut self, kind: i32, payload: &[u8]) {
        self.events.push_back(RawEvent {
            kind,
            payload: payload.to_vec(),
            byte_length: payload.len() as i32,
        });
    }

    fn push_completion(&mut self, call_handle: u64, kind: i32, byte_length: u32) {
        let mut payload = Vec::new();
        payload.extend_from_slice(&call_handle.to_le_bytes());
        payload.extend_from_slice(&kind.to_le_bytes());
        payload.extend_from_slice(&byte_length.to_le_bytes());
        self.push(703, &payload);
    }
}

/// Runs one drain cycle: performs what each step asks for and reports back.
/// The context is borrowed for one step at a time, never while a handler
/// runs.
fn drain_once(shared: &Shared, queue: &mut FakeQueue) {
    let mut state = DrainState::Idle;
    let mut input = DrainInput::Begin;
    loop {
        let action = run_callbacks(&mut shared.borrow_mut(), &mut state, input);
        input = match action {
            DrainAction::Poll => {
                queue.polls += 1;
                DrainInput::Polled(queue.events.pop_front())
            }
            DrainAction::Fetch(call) => {
                queue.fetches.push(call);
                DrainInput::Fetched(match queue.results.get(&call.call_handle) {
                    Some(bytes) => Ok(bytes.clone()),
                    None => Err(FetchFailed),
                })
            }
            DrainAction::InvokePersistent { id, payload } => {
                let handler = shared.borrow().take_persistent(id).cloned();
                handler.expect("a handler is registered for the kind")(&payload);
                DrainInput::Done
            }
            DrainAction::InvokeOneShot { handler, payload, failed } => {
                handler(&payload, failed);
                DrainInput::Done
            }
            DrainAction::Discard(reason) => {
                queue.discards.push(reason);
                DrainInput::Done
            }
            DrainAction::Release => {
                queue.releases += 1;
                DrainInput::Done
            }
            DrainAction::Finish => {
                assert_eq!(state, DrainState::Idle);
                return;
            }
            DrainAction::OutOfTurn => panic!("the driver answered out of turn"),
        };
    }
}

fn shared() -> Shared {
    Rc::new(RefCell::new(Context::new()))
}

fn logging(log: &Log, name: &'static str) -> Persistent {
    let log = Rc::clone(log);
    Rc::new(move |payload: &[u8]| log.borrow_mut().push(format!("{} {:?}", name, payload)))
}

fn logging_once(log: &Log, name: &'static str) -> OneShot {
    let log = Rc::clone(log);
    Box::new(move |payload: &[u8], failed: bool| {
        log.borrow_mut().push(format!("{} {:?} failed={}", name, payload, failed))
    })
}

fn entries(log: &Log) -> Vec<String> {
    log.borrow().clone()
}

#[test]
fn three_events_of_one_kind_fire_the_handler_three_times() {
    let ctx = shared();
    let counter = Rc::new(RefCell::new(0u32));
    let seen = Rc::clone(&counter);
    let handler: Persistent = Rc::new(move |_payload: &[u8]| *seen.borrow_mut() += 1);
    let _token = ctx.borrow_mut().register_persistent(201, handler);
    let mut queue = FakeQueue::new();
    queue.push(201, &[1]);
    queue.push(201, &[2]);
    queue.push(201, &[3]);
    drain_once(&ctx, &mut queue);
    assert_eq!(*counter.borrow(), 3);
    assert_eq!(queue.releases, 3);
    assert_eq!(queue.polls, 4);
    assert!(ctx.borrow().is_registered(201));
}

#[test]
fn a_call_result_reaches_its_handler_exactly_once() {
    let ctx = shared();
    let log: Log = Rc::new(RefCell::new(Vec::new()));
    ctx.borrow_mut().register_one_shot(55, logging_once(&log, "ticket"));
    let mut queue = FakeQueue::new();
    queue.results.insert(55, vec![9, 8, 7, 6]);
    queue.push_completion(55, 154, 4);
    drain_once(&ctx, &mut queue);
    assert_eq!(entries(&log), vec!["ticket [9, 8, 7, 6] failed=false".to_string()]);
    assert_eq!(queue.fetches, vec![CallCompleted { call_handle: 55, kind: 154, byte_length: 4 }]);
    assert!(!ctx.borrow().is_pending(55));
    drain_once(&ctx, &mut queue);
    assert_eq!(entries(&log), vec!["ticket [9, 8, 7, 6] failed=false".to_string()]);
    assert_eq!(queue.releases, 1);
}

#[test]
fn a_repeated_completion_finds_no_handler() {
    let ctx = shared();
    let log: Log = Rc::new(RefCell::new(Vec::new()));
    ctx.borrow_mut().register_one_shot(55, logging_once(&log, "ticket"));
    let mut queue = FakeQueue::new();
    queue.results.insert(55, vec![1]);
    queue.push_completion(55, 154, 1);
    queue.push_completion(55, 154, 1);
    drain_once(&ctx, &mut queue);
    assert_eq!(entries(&log).len(), 1);
    assert_eq!(queue.discards, vec![DropReason::Unclaimed]);
    assert_eq!(queue.fetches.len(), 2);
    assert_eq!(queue.releases, 2);
}

#[test]
fn handlers_fire_in_queue_order() {
    let ctx = shared();
    let log: Log = Rc::new(RefCell::new(Vec::new()));
    let _a = ctx.borrow_mut().register_persistent(301, logging(&log, "A"));
    let _b = ctx.borrow_mut().register_persistent(302, logging(&log, "B"));
    let _c = ctx.borrow_mut().register_persistent(303, logging(&log, "C"));
    let mut queue = FakeQueue::new();
    queue.push(301, &[1]);
    queue.push(302, &[2]);
    queue.push(303, &[3]);
    drain_once(&ctx, &mut queue);
    assert_eq!(entries(&log), vec!["A [1]", "B [2]", "C [3]"]);
    queue.push(303, &[4]);
    queue.push(301, &[5]);
    drain_once(&ctx, &mut queue);
    assert_eq!(entries(&log), vec!["A [1]", "B [2]", "C [3]", "C [4]", "A [5]"]);
}

#[test]
fn notifications_and_results_keep_their_order() {
    let ctx = shared();
    let log: Log = Rc::new(RefCell::new(Vec::new()));
    let _a = ctx.borrow_mut().register_persistent(301, logging(&log, "A"));
    ctx.borrow_mut().register_one_shot(7, logging_once(&log, "R"));
    let mut queue = FakeQueue::new();
    queue.results.insert(7, vec![42]);
    queue.push(301, &[1]);
    queue.push_completion(7, 900, 1);
    queue.push(301, &[2]);
    drain_once(&ctx, &mut queue);
    assert_eq!(entries(&log), vec!["A [1]", "R [42] failed=false", "A [2]"]);
}

#[test]
fn a_broken_event_does_not_stop_the_others() {
    let ctx = shared();
    let log: Log = Rc::new(RefCell::new(Vec::new()));
    let _a = ctx.borrow_mut().register_persistent(301, logging(&log, "A"));
    let _b = ctx.borrow_mut().register_persistent(302, logging(&log, "B"));
    let _c = ctx.borrow_mut().register_persistent(303, logging(&log, "C"));
    let mut queue = FakeQueue::new();
    queue.push(301, &[1]);
    queue.events.push_back(RawEvent { kind: 302, payload: vec![2, 2], byte_length: 5 });
    queue.push(303, &[3]);
    drain_once(&ctx, &mut queue);
    assert_eq!(entries(&log), vec!["A [1]", "C [3]"]);
    assert_eq!(queue.discards, vec![DropReason::Undecodable]);
    assert_eq!(queue.releases, 3);
}

#[test]
fn a_broken_completion_record_is_discarded() {
    let ctx = shared();
    let log: Log = Rc::new(RefCell::new(Vec::new()));
    ctx.borrow_mut().register_one_shot(55, logging_once(&log, "R"));
    let mut queue = FakeQueue::new();
    queue.push(703, &[55, 0, 0, 0]);
    drain_once(&ctx, &mut queue);
    assert!(entries(&log).is_empty());
    assert!(queue.fetches.is_empty());
    assert_eq!(queue.discards, vec![DropReason::Undecodable]);
    assert_eq!(queue.releases, 1);
    assert!(ctx.borrow().is_pending(55));
}

#[test]
fn a_failed_fetch_still_notifies_with_the_flag_set() {
    let ctx = shared();
    let log: Log = Rc::new(RefCell::new(Vec::new()));
    ctx.borrow_mut().register_one_shot(55, logging_once(&log, "ticket"));
    let mut queue = FakeQueue::new();
    queue.push_completion(55, 154, 4);
    drain_once(&ctx, &mut queue);
    assert_eq!(entries(&log), vec!["ticket [] failed=true".to_string()]);
    assert!(!ctx.borrow().is_pending(55));
    assert_eq!(queue.releases, 1);
    queue.push_completion(55, 154, 4);
    drain_once(&ctx, &mut queue);
    assert_eq!(entries(&log).len(), 1);
}

#[test]
fn unclaimed_events_are_dropped_and_released() {
    let ctx = shared();
    let mut queue = FakeQueue::new();
    queue.results.insert(9, vec![1, 2]);
    queue.push(404, &[1, 2, 3]);
    queue.push_completion(9, 154, 2);
    drain_once(&ctx, &mut queue);
    assert_eq!(queue.discards, vec![DropReason::Unclaimed, DropReason::Unclaimed]);
    assert_eq!(queue.fetches.len(), 1);
    assert_eq!(queue.releases, 2);
    assert_eq!(queue.polls, 3);
}

#[test]
fn an_empty_queue_ends_the_cycle_at_once() {
    let ctx = shared();
    let mut queue = FakeQueue::new();
    drain_once(&ctx, &mut queue);
    assert_eq!(queue.polls, 1);
    assert_eq!(queue.releases, 0);
}

#[test]
fn only_the_replacing_handler_is_invoked() {
    let ctx = shared();
    let log: Log = Rc::new(RefCell::new(Vec::new()));
    let _old = ctx.borrow_mut().register_persistent(201, logging(&log, "old"));
    let _new = ctx.borrow_mut().register_persistent(201, logging(&log, "new"));
    let mut queue = FakeQueue::new();
    queue.push(201, &[1]);
    queue.push(201, &[2]);
    drain_once(&ctx, &mut queue);
    assert_eq!(entries(&log), vec!["new [1]", "new [2]"]);
}

#[test]
fn a_released_handler_is_not_invoked_for_a_queued_event() {
    let ctx = shared();
    let log: Log = Rc::new(RefCell::new(Vec::new()));
    let mut token = ctx.borrow_mut().register_persistent(201, logging(&log, "gone"));
    let _kept = ctx.borrow_mut().register_persistent(202, logging(&log, "kept"));
    let mut queue = FakeQueue::new();
    queue.push(201, &[1]);
    queue.push(202, &[2]);
    token.release(Some(&mut ctx.borrow_mut()));
    drain_once(&ctx, &mut queue);
    assert_eq!(entries(&log), vec!["kept [2]"]);
    assert_eq!(queue.discards, vec![DropReason::Unclaimed]);
    queue.push(201, &[3]);
    drain_once(&ctx, &mut queue);
    assert_eq!(entries(&log), vec!["kept [2]"]);
}

#[test]
fn a_handler_may_cancel_another_while_it_runs() {
    let ctx = shared();
    let log: Log = Rc::new(RefCell::new(Vec::new()));
    let canceller: Persistent = {
        let ctx = Rc::clone(&ctx);
        let log = Rc::clone(&log);
        Rc::new(move |_payload: &[u8]| {
            log.borrow_mut().push("canceller".to_string());
            ctx.borrow_mut().remove_persistent(302);
        })
    };
    let _a = ctx.borrow_mut().register_persistent(301, canceller);
    let _b = ctx.borrow_mut().register_persistent(302, logging(&log, "victim"));
    let mut queue = FakeQueue::new();
    queue.push(302, &[1]);
    queue.push(301, &[2]);
    queue.push(302, &[3]);
    drain_once(&ctx, &mut queue);
    assert_eq!(entries(&log), vec!["victim [1]", "canceller"]);
    assert_eq!(queue.releases, 3);
}

#[test]
fn a_handler_may_register_a_one_shot_while_it_runs() {
    let ctx = shared();
    let log: Log = Rc::new(RefCell::new(Vec::new()));
    let starter: Persistent = {
        let ctx = Rc::clone(&ctx);
        let log = Rc::clone(&log);
        Rc::new(move |_payload: &[u8]| {
            ctx.borrow_mut().register_one_shot(77, logging_once(&log, "late"));
        })
    };
    let _a = ctx.borrow_mut().register_persistent(301, starter);
    let mut queue = FakeQueue::new();
    queue.results.insert(77, vec![5]);
    queue.push(301, &[]);
    queue.push_completion(77, 154, 1);
    drain_once(&ctx, &mut queue);
    assert_eq!(entries(&log), vec!["late [5] failed=false"]);
}

#[test]
fn an_answer_out_of_turn_changes_nothing() {
    let mut ctx: DispatchContext<u8, u8> = DispatchContext::new();
    let _token = ctx.register_persistent(201, 1);
    ctx.register_one_shot(55, 2);
    let mut state = DrainState::Idle;
    assert!(matches!(run_callbacks(&mut ctx, &mut state, DrainInput::Done), DrainAction::OutOfTurn));
    assert!(matches!(
        run_callbacks(&mut ctx, &mut state, DrainInput::Polled(None)),
        DrainAction::OutOfTurn
    ));
    assert_eq!(state, DrainState::Idle);
    assert!(matches!(run_callbacks(&mut ctx, &mut state, DrainInput::Begin), DrainAction::Poll));
    assert_eq!(state, DrainState::Polling);
    assert!(matches!(run_callbacks(&mut ctx, &mut state, DrainInput::Begin), DrainAction::OutOfTurn));
    assert!(matches!(
        run_callbacks(&mut ctx, &mut state, DrainInput::Fetched(Ok(vec![1]))),
        DrainAction::OutOfTurn
    ));
    assert_eq!(state, DrainState::Polling);
    assert!(ctx.is_pending(55));
    assert!(ctx.is_registered(201));
}

#[test]
fn each_step_asks_for_the_next_thing() {
    let mut ctx: DispatchContext<u8, u8> = DispatchContext::new();
    ctx.register_one_shot(55, 2);
    let mut state = DrainState::Polling;
    let call = CallCompleted { call_handle: 55, kind: 154, byte_length: 3 };
    let mut payload = Vec::new();
    payload.extend_from_slice(&55u64.to_le_bytes());
    payload.extend_from_slice(&154i32.to_le_bytes());
    payload.extend_from_slice(&3u32.to_le_bytes());
    let event = RawEvent { kind: 703, payload, byte_length: 16 };
    match run_callbacks(&mut ctx, &mut state, DrainInput::Polled(Some(event))) {
        DrainAction::Fetch(asked) => assert_eq!(asked, call),
        other => panic!("unexpected {:?}", other),
    }
    assert_eq!(state, DrainState::Fetching(call));
    assert!(ctx.is_pending(55));
    match run_callbacks(&mut ctx, &mut state, DrainInput::Fetched(Ok(vec![1, 2, 3]))) {
        DrainAction::InvokeOneShot { handler, payload, failed } => {
            assert_eq!(handler, 2);
            assert_eq!(payload, vec![1, 2, 3]);
            assert!(!failed);
        }
        other => panic!("unexpected {:?}", other),
    }
    assert_eq!(state, DrainState::Settling);
    assert!(!ctx.is_pending(55));
    assert!(matches!(run_callbacks(&mut ctx, &mut state, DrainInput::Done), DrainAction::Release));
    assert_eq!(state, DrainState::Releasing);
    assert!(matches!(run_callbacks(&mut ctx, &mut state, DrainInput::Done), DrainAction::Poll));
    assert_eq!(state, DrainState::Polling);
    assert!(matches!(
        run_callbacks(&mut ctx, &mut state, DrainInput::Polled(None)),
        DrainAction::Finish
    ));
    assert_eq!(state, DrainState::Idle);
}
