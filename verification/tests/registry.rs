use steamstacks::registry::{CallbackHandle, DispatchContext};

type Context = DispatchContext<&'static str, &'static str>;

#[test]
fn a_new_context_is_empty() {
    let ctx = Context::new();
    assert_eq!(ctx.persistent_len(), 0);
    assert_eq!(ctx.pending_len(), 0);
    assert!(!ctx.is_registered(201));
    assert!(!ctx.is_pending(55));
    assert_eq!(ctx.take_persistent(201), None);
}

#[test]
fn a_registered_handler_is_found_and_stays() {
    let mut ctx = Context::new();
    let _token = ctx.register_persistent(201, "first");
    assert_eq!(ctx.take_persistent(201), Some(&"first"));
    assert_eq!(ctx.take_persistent(201), Some(&"first"));
    assert!(ctx.is_registered(201));
    assert_eq!(ctx.persistent_len(), 1);
    assert_eq!(ctx.take_persistent(202), None);
}

#[test]
fn a_second_registration_replaces_the_first() {
    let mut ctx = Context::new();
    let _first = ctx.register_persistent(201, "first");
    let _second = ctx.register_persistent(201, "second");
    assert_eq!(ctx.take_persistent(201), Some(&"second"));
    assert_eq!(ctx.persistent_len(), 1);
}

#[test]
fn a_one_shot_handler_is_taken_once() {
    let mut ctx = Context::new();
    ctx.register_one_shot(55, "result");
    assert!(ctx.is_pending(55));
    assert_eq!(ctx.pending_len(), 1);
    assert_eq!(ctx.take_one_shot(55), Some("result"));
    assert!(!ctx.is_pending(55));
    assert_eq!(ctx.pending_len(), 0);
    assert_eq!(ctx.take_one_shot(55), None);
}

#[test]
fn a_second_attachment_replaces_the_first() {
    let mut ctx = Context::new();
    ctx.register_one_shot(55, "first");
    ctx.register_one_shot(55, "second");
    assert_eq!(ctx.pending_len(), 1);
    assert_eq!(ctx.take_one_shot(55), Some("second"));
    assert_eq!(ctx.take_one_shot(55), None);
}

#[test]
fn taking_a_one_shot_leaves_the_others() {
    let mut ctx = Context::new();
    ctx.register_one_shot(55, "a");
    ctx.register_one_shot(56, "b");
    let _token = ctx.register_persistent(201, "p");
    assert_eq!(ctx.take_one_shot(56), Some("b"));
    assert!(ctx.is_pending(55));
    assert!(ctx.is_registered(201));
    assert_eq!(ctx.take_one_shot(u64::MAX), None);
    assert_eq!(ctx.pending_len(), 1);
}

#[test]
fn removal_takes_only_the_named_kind() {
    let mut ctx = Context::new();
    let _a = ctx.register_persistent(201, "a");
    let _b = ctx.register_persistent(202, "b");
    ctx.remove_persistent(201);
    assert!(!ctx.is_registered(201));
    assert_eq!(ctx.take_persistent(202), Some(&"b"));
    ctx.remove_persistent(201);
    ctx.remove_persistent(999);
    assert_eq!(ctx.persistent_len(), 1);
}

#[test]
fn releasing_a_token_cancels_its_kind() {
    let mut ctx = Context::new();
    let mut token: CallbackHandle = ctx.register_persistent(201, "a");
    let _other = ctx.register_persistent(202, "b");
    token.release(Some(&mut ctx));
    assert!(!ctx.is_registered(201));
    assert!(ctx.is_registered(202));
}

#[test]
fn releasing_without_a_context_changes_nothing() {
    let mut ctx = Context::new();
    let mut token = ctx.register_persistent(201, "a");
    token.release(None::<&mut Context>);
    assert!(ctx.is_registered(201));
    token.release(Some(&mut ctx));
    assert!(ctx.is_registered(201));
}

#[test]
fn a_token_releases_only_once() {
    let mut ctx = Context::new();
    let mut token = ctx.register_persistent(201, "old");
    token.release(Some(&mut ctx));
    let _fresh = ctx.register_persistent(201, "new");
    token.release(Some(&mut ctx));
    assert_eq!(ctx.take_persistent(201), Some(&"new"));
}

#[test]
fn a_hundred_kinds_make_a_hundred_entries() {
    let mut ctx: DispatchContext<i32, i32> = DispatchContext::new();
    for id in 0..100 {
        let _token = ctx.register_persistent(1000 + id, id * 3);
    }
    assert_eq!(ctx.persistent_len(), 100);
    for id in 0..100 {
        assert_eq!(ctx.take_persistent(1000 + id), Some(&(id * 3)));
    }
    assert_eq!(ctx.pending_len(), 0);
}

#[test]
fn the_order_of_registrations_does_not_matter() {
    let mut forward: DispatchContext<i32, i32> = DispatchContext::new();
    let mut backward: DispatchContext<i32, i32> = DispatchContext::new();
    for id in 0..100 {
        let _a = forward.register_persistent(id, id + 7);
        let _b = backward.register_persistent(99 - id, 99 - id + 7);
    }
    assert_eq!(forward.persistent_len(), backward.persistent_len());
    for id in 0..100 {
        assert_eq!(forward.take_persistent(id), backward.take_persistent(id));
    }
}
