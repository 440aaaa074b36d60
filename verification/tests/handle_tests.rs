use screencapturekit::error::{ErrorKind, SCError};
use screencapturekit::handle::{NativeHandle, OwnedHandle, RefLedger, ResourceKind};

#[test]
fn wrap_refuses_the_null_handle() {
    let r = OwnedHandle::wrap(NativeHandle::null(), ResourceKind::Display);
    assert_eq!(r, Err(SCError::ResourceUnavailable));
    let r = OwnedHandle::wrap(NativeHandle::new(0), ResourceKind::Stream);
    assert_eq!(r.unwrap_err().kind(), ErrorKind::ResourceUnavailable);
}

#[test]
fn wrap_keeps_handle_and_kind() {
    let h = OwnedHandle::wrap(NativeHandle::new(0x1000), ResourceKind::Filter).unwrap();
    assert_eq!(h.as_raw(), NativeHandle::new(0x1000));
    assert_eq!(h.as_raw().addr, 0x1000);
    assert_eq!(h.kind(), ResourceKind::Filter);
    assert!(!h.as_raw().is_null());
    assert!(NativeHandle::null().is_null());
}

#[test]
fn wrapping_takes_no_reference() {
    let raw = NativeHandle::new(0x2000);
    let ledger = RefLedger::adopted(raw);
    let _owner = OwnedHandle::wrap(raw, ResourceKind::Window).unwrap();
    assert_eq!(ledger.handle(), raw);
    assert_eq!(ledger.acquire_count(), 1);
    assert_eq!(ledger.release_count(), 0);
    assert_eq!(ledger.live_owners(), 1);
    assert!(!ledger.is_freed());
}

#[test]
fn clone_and_drop_balance() {
    let raw = NativeHandle::new(0x3000);
    let mut ledger = RefLedger::adopted(raw);
    let first = OwnedHandle::wrap(raw, ResourceKind::Sample).unwrap();
    let second = first.clone_with(&mut ledger);
    let third = second.clone_with(&mut ledger);
    assert_eq!(second.as_raw(), raw);
    assert_eq!(third.kind(), ResourceKind::Sample);
    assert_eq!(ledger.acquire_count(), 3);
    assert_eq!(ledger.release_count(), 0);
    assert_eq!(ledger.live_owners(), 3);

    assert_eq!(first.release(&mut ledger), raw);
    assert_eq!(ledger.live_owners(), 2);
    assert!(!ledger.is_freed());
    assert_eq!(third.release(&mut ledger), raw);
    assert_eq!(ledger.live_owners(), 1);
    assert!(!ledger.is_freed());
    assert_eq!(second.release(&mut ledger), raw);

    assert_eq!(ledger.acquire_count(), 3);
    assert_eq!(ledger.release_count(), 3);
    assert_eq!(ledger.live_owners(), 0);
    assert!(ledger.is_freed());
}

#[test]
fn interleaved_clones_and_drops_stay_balanced() {
    let raw = NativeHandle::new(0x4000);
    let mut ledger = RefLedger::adopted(raw);
    let mut owners = vec![OwnedHandle::wrap(raw, ResourceKind::Stream).unwrap()];
    for round in 0..20u64 {
        if round % 3 == 2 {
            let gone = owners.pop().unwrap();
            gone.release(&mut ledger);
        } else {
            let twin = owners[0].clone_with(&mut ledger);
            owners.push(twin);
        }
        assert_eq!(ledger.live_owners(), owners.len() as u64);
        assert_eq!(ledger.acquire_count(), ledger.release_count() + owners.len() as u64);
        assert!(ledger.release_count() < ledger.acquire_count());
    }
    while let Some(owner) = owners.pop() {
        assert!(!ledger.is_freed());
        owner.release(&mut ledger);
    }
    assert!(ledger.is_freed());
    assert_eq!(ledger.acquire_count(), ledger.release_count());
    assert_eq!(ledger.acquire_count(), 15);
}

#[test]
fn error_kinds_are_told_apart() {
    assert_eq!(SCError::PermissionDenied.kind(), ErrorKind::PermissionDenied);
    assert_eq!(SCError::InvalidConfiguration.kind(), ErrorKind::InvalidConfiguration);
    assert_eq!(SCError::CaptureStartFailed(None).kind(), ErrorKind::CaptureStartFailed);
    assert_eq!(
        SCError::ReconfigurationFailed(Some("busy".to_string())).kind(),
        ErrorKind::ReconfigurationFailed
    );
    assert_eq!(SCError::CaptureStopFailed(None).kind(), ErrorKind::CaptureStopFailed);
    assert_eq!(SCError::LockFailed.kind(), ErrorKind::LockFailed);
    assert_eq!(SCError::InternalError(String::new()).kind(), ErrorKind::InternalError);
    assert_eq!(SCError::ScreenshotError(String::new()).kind(), ErrorKind::ScreenshotError);
    assert!(SCError::InternalProtocolViolation.is_defensive_only());
    assert!(!SCError::LockFailed.is_defensive_only());
}
