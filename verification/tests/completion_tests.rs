use screencapturekit::completion::{
    CallbackRegistry, CompletionBridge, CompletionSlot, ContextToken, Lookup, Readiness,
    Resolution,
};
use screencapturekit::error::SCError;

fn ready<T>(found: Readiness<T>) -> Result<T, SCError> {
    match found {
        Readiness::Ready(result) => result,
        Readiness::Pending(_) => panic!("still pending"),
    }
}

#[test]
fn a_slot_is_assigned_once() {
    let mut slot: CompletionSlot<u32> = CompletionSlot::new();
    assert!(!slot.is_resolved());
    assert!(slot.is_awaited());
    slot.resolve(Ok(41));
    assert!(slot.is_resolved());
    assert_eq!(slot.into_outcome(), Some(Ok(41)));
}

#[test]
fn an_unresolved_slot_has_no_outcome() {
    let mut slot: CompletionSlot<u32> = CompletionSlot::new();
    slot.abandon();
    assert!(!slot.is_awaited());
    assert_eq!(slot.into_outcome(), None);
}

#[test]
fn a_slot_keeps_its_first_result() {
    let mut slot: CompletionSlot<u32> = CompletionSlot::new();
    assert_eq!(slot.resolve_once(Ok(1)), None);
    assert_eq!(slot.resolve_once(Ok(2)), Some(Ok(2)));
    assert_eq!(slot.into_outcome(), Some(Ok(1)));
}

#[test]
fn registry_resolves_a_token_once() {
    let mut registry: CallbackRegistry<u32> = CallbackRegistry::new();
    let token = ContextToken { id: 7 };
    assert_eq!(registry.len(), 0);
    assert!(registry.register(token, CompletionSlot::new()).is_ok());
    assert!(registry.contains(token));
    assert_eq!(registry.len(), 1);
    assert!(registry.register(token, CompletionSlot::new()).is_err());
    assert_eq!(registry.len(), 1);
    match registry.resolve(token, Ok(5)) {
        Lookup::Resolved(slot) => {
            assert!(slot.is_awaited());
            assert_eq!(slot.into_outcome(), Some(Ok(5)));
        }
        Lookup::Unknown(_) => panic!("the token was registered"),
    }
    assert!(!registry.contains(token));
    assert_eq!(registry.len(), 0);
    match registry.resolve(token, Ok(6)) {
        Lookup::Unknown(back) => assert_eq!(back, Ok(6)),
        Lookup::Resolved(_) => panic!("the token was resolved twice"),
    }
    assert_eq!(registry.len(), 0);
}

#[test]
fn registry_refuses_a_resolved_slot() {
    let mut registry: CallbackRegistry<u32> = CallbackRegistry::new();
    let mut slot: CompletionSlot<u32> = CompletionSlot::new();
    slot.resolve(Ok(1));
    let back = registry.register(ContextToken { id: 1 }, slot).unwrap_err();
    assert_eq!(back.into_outcome(), Some(Ok(1)));
    assert_eq!(registry.len(), 0);
}

#[test]
fn registry_marks_an_abandoned_entry() {
    let mut registry: CallbackRegistry<u32> = CallbackRegistry::new();
    let token = ContextToken { id: 2 };
    assert!(!registry.abandon(token));
    registry.register(token, CompletionSlot::new()).unwrap();
    assert!(registry.abandon(token));
    assert_eq!(registry.len(), 1);
    match registry.resolve(token, Ok(5)) {
        Lookup::Resolved(slot) => assert!(!slot.is_awaited()),
        Lookup::Unknown(_) => panic!("the entry was gone"),
    }
}

#[test]
fn tokens_are_never_reused() {
    let mut bridge: CompletionBridge<u32> = CompletionBridge::new();
    let (a, ta) = bridge.open().unwrap();
    let (b, tb) = bridge.open().unwrap();
    assert_eq!(ta.id, 0);
    assert_eq!(tb.id, 1);
    assert_eq!(a.token(), ta);
    assert_eq!(b.token(), tb);
    assert_eq!(bridge.issued(), 2);
    assert_eq!(bridge.pending_count(), 2);
    assert_eq!(bridge.resolve(ta, Ok(1)), (Resolution::Delivered, None));
    let (_c, tc) = bridge.open().unwrap();
    assert_eq!(tc.id, 2);
    assert_eq!(bridge.pending_count(), 2);
}

#[test]
fn a_reader_waits_until_the_callback_fires() {
    let mut bridge: CompletionBridge<u32> = CompletionBridge::new();
    let (awaitable, token) = bridge.open().unwrap();
    assert!(bridge.is_pending(token));
    let awaitable = match bridge.wait_step(awaitable) {
        Readiness::Pending(a) => a,
        Readiness::Ready(_) => panic!("nothing was resolved"),
    };
    let awaitable = match bridge.poll(awaitable) {
        Readiness::Pending(a) => a,
        Readiness::Ready(_) => panic!("nothing was resolved"),
    };
    assert_eq!(bridge.resolve(token, Ok(5)), (Resolution::Delivered, None));
    assert!(!bridge.is_pending(token));
    assert_eq!(ready(bridge.wait_step(awaitable)), Ok(5));
}

#[test]
fn second_callback_is_a_no_op() {
    let mut bridge: CompletionBridge<u32> = CompletionBridge::new();
    let (awaitable, token) = bridge.open().unwrap();
    assert_eq!(bridge.resolve(token, Ok(7)), (Resolution::Delivered, None));
    assert_eq!(bridge.resolve(token, Ok(9)), (Resolution::Unknown, Some(Ok(9))));
    assert_eq!(
        bridge.resolve(token, Err(SCError::InternalError("late".to_string()))),
        (Resolution::Unknown, Some(Err(SCError::InternalError("late".to_string()))))
    );
    assert_eq!(bridge.pending_count(), 0);
    assert_eq!(ready(bridge.wait_step(awaitable)), Ok(7));
}

#[test]
fn blocking_wait_and_suspension_observe_the_same() {
    let mut blocking: CompletionBridge<u32> = CompletionBridge::new();
    let mut suspended: CompletionBridge<u32> = CompletionBridge::new();
    let (wa, wt) = blocking.open().unwrap();
    let (pa, pt) = suspended.open().unwrap();
    assert_eq!(wt, pt);
    blocking.resolve(wt, Err(SCError::PermissionDenied));
    blocking.resolve(wt, Ok(1));
    suspended.resolve(pt, Err(SCError::PermissionDenied));
    suspended.resolve(pt, Ok(1));
    let by_wait = ready(blocking.wait_step(wa));
    let by_poll = ready(suspended.poll(pa));
    assert_eq!(by_wait, Err(SCError::PermissionDenied));
    assert_eq!(by_wait, by_poll);
}

#[test]
fn an_unknown_token_is_ignored() {
    let mut bridge: CompletionBridge<u32> = CompletionBridge::new();
    assert_eq!(bridge.resolve(ContextToken { id: 99 }, Ok(1)), (Resolution::Unknown, Some(Ok(1))));
    assert_eq!(bridge.pending_count(), 0);
    assert_eq!(bridge.issued(), 0);
}

#[test]
fn an_abandoned_completion_stays_registered_until_its_callback() {
    let mut bridge: CompletionBridge<u32> = CompletionBridge::new();
    let (awaitable, token) = bridge.open().unwrap();
    assert_eq!(bridge.abandon(awaitable), None);
    assert!(bridge.is_pending(token));
    assert_eq!(bridge.pending_count(), 1);
    assert_eq!(bridge.resolve(token, Ok(3)), (Resolution::Discarded, Some(Ok(3))));
    assert!(!bridge.is_pending(token));
    assert_eq!(bridge.pending_count(), 0);
    assert_eq!(bridge.resolve(token, Ok(3)), (Resolution::Unknown, Some(Ok(3))));
}

#[test]
fn abandoning_after_resolution_drops_the_result() {
    let mut bridge: CompletionBridge<u32> = CompletionBridge::new();
    let (awaitable, token) = bridge.open().unwrap();
    assert_eq!(bridge.resolve(token, Ok(3)), (Resolution::Delivered, None));
    assert_eq!(bridge.abandon(awaitable), Some(Ok(3)));
    assert_eq!(bridge.pending_count(), 0);
    assert_eq!(bridge.resolve(token, Ok(4)), (Resolution::Unknown, Some(Ok(4))));
}

#[test]
fn a_result_is_read_once() {
    let mut bridge: CompletionBridge<u32> = CompletionBridge::new();
    let (a, ta) = bridge.open().unwrap();
    let (b, tb) = bridge.open().unwrap();
    bridge.resolve(tb, Ok(20));
    bridge.resolve(ta, Ok(10));
    assert_eq!(ready(bridge.poll(b)), Ok(20));
    assert_eq!(ready(bridge.poll(a)), Ok(10));
}

#[test]
fn only_an_unknown_token_is_a_protocol_violation() {
    assert_eq!(Resolution::Unknown.violation(), Some(SCError::InternalProtocolViolation));
    assert_eq!(Resolution::Delivered.violation(), None);
    assert_eq!(Resolution::Discarded.violation(), None);
}
