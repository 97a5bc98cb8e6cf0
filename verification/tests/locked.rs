use std::sync::{Arc, Mutex};

use steamstacks::event::RawEvent;
use steamstacks::registry::DispatchContext;
use steamstacks::steam_api::{run_callbacks, DrainAction, DrainInput, DrainState};

type Shared = Arc<Mutex<DispatchContext<i32, i32>>>;

fn drain_one_unclaimed_event(shared: &Shared) {
    let mut state = DrainState::Idle;
    let action = run_callbacks(&mut shared.lock().unwrap(), &mut state, DrainInput::Begin);
    assert!(matches!(action, DrainAction::Poll));
    let event = RawEvent { kind: 5000, payload: Vec::new(), byte_length: 0 };
    let action =
        run_callbacks(&mut shared.lock().unwrap(), &mut state, DrainInput::Polled(Some(event)));
    assert!(matches!(action, DrainAction::Discard(_)));
    let action = run_callbacks(&mut shared.lock().unwrap(), &mut state, DrainInput::Done);
    assert!(matches!(action, DrainAction::Release));
    let action = run_callbacks(&mut shared.lock().unwrap(), &mut state, DrainInput::Done);
    assert!(matches!(action, DrainAction::Poll));
    let action = run_callbacks(&mut shared.lock().unwrap(), &mut state, DrainInput::Polled(None));
    assert!(matches!(action, DrainAction::Finish));
}

#[test]
fn interleaved_registrations_and_drains_keep_every_entry() {
    let shared: Shared = Arc::new(Mutex::new(DispatchContext::new()));
    let registrars: Vec<Shared> = (0..4).map(|_| Arc::clone(&shared)).collect();
    for slot in 0..25 {
        for (worker, registrar) in registrars.iter().enumerate() {
            let id = worker as i32 * 25 + slot;
            let _token = registrar.lock().unwrap().register_persistent(id, id * 2);
            drain_one_unclaimed_event(&shared);
        }
    }
    let ctx = shared.lock().unwrap();
    assert_eq!(ctx.persistent_len(), 100);
    for id in 0..100 {
        assert_eq!(ctx.take_persistent(id), Some(&(id * 2)));
    }
}
