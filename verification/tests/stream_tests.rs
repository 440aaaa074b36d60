use screencapturekit::error::SCError;
use screencapturekit::handle::{NativeHandle, OwnedHandle, RefLedger, ResourceKind};
use screencapturekit::stream::{Delivery, SCStreamOutputType, StreamSession, StreamState};

const STREAM: usize = 0x100;
const FILTER: usize = 0x200;
const CONFIG: usize = 0x300;

fn owned(addr: usize, kind: ResourceKind) -> OwnedHandle {
    OwnedHandle::wrap(NativeHandle::new(addr), kind).unwrap()
}

fn session() -> StreamSession {
    StreamSession::new(
        owned(STREAM, ResourceKind::Stream),
        owned(FILTER, ResourceKind::Filter),
        owned(CONFIG, ResourceKind::Configuration),
    )
}

fn running() -> StreamSession {
    let mut s = session();
    assert_eq!(s.start(), Ok(NativeHandle::new(STREAM)));
    assert_eq!(s.start_completed(true, None), Ok(()));
    s
}

fn forwarded(d: Delivery) -> Option<(u64, usize)> {
    match d {
        Delivery::Forwarded { consumer, sample } => Some((consumer, sample.as_raw().addr)),
        Delivery::Dropped { .. } => None,
    }
}

#[test]
fn a_new_session_is_idle() {
    let s = session();
    assert_eq!(s.state(), StreamState::Idle);
    assert!(s.is_accepting_deliveries());
    assert_eq!(s.stream(), NativeHandle::new(STREAM));
    assert_eq!(s.filter(), NativeHandle::new(FILTER));
    assert_eq!(s.configuration(), NativeHandle::new(CONFIG));
    assert_eq!(s.output_handler(SCStreamOutputType::Screen), None);
    assert_eq!(s.output_handler(SCStreamOutputType::Audio), None);
}

#[test]
fn start_goes_through_starting_to_running() {
    let mut s = session();
    assert_eq!(s.start(), Ok(NativeHandle::new(STREAM)));
    assert_eq!(s.state(), StreamState::Starting);
    assert_eq!(s.start_completed(true, None), Ok(()));
    assert_eq!(s.state(), StreamState::Running);
}

#[test]
fn a_failed_start_returns_to_idle() {
    let mut s = session();
    s.start().unwrap();
    let r = s.start_completed(false, Some("no permission".to_string()));
    assert_eq!(r, Err(SCError::CaptureStartFailed(Some("no permission".to_string()))));
    assert_eq!(s.state(), StreamState::Idle);
    assert_eq!(s.start(), Ok(NativeHandle::new(STREAM)));
}

#[test]
fn start_is_refused_outside_idle() {
    let mut s = running();
    assert_eq!(s.start(), Err(SCError::CaptureStartFailed(None)));
    assert_eq!(s.state(), StreamState::Running);
}

#[test]
fn a_completion_nobody_awaits_is_ignored() {
    let mut s = session();
    assert_eq!(s.start_completed(true, None), Err(SCError::InternalProtocolViolation));
    assert_eq!(s.stop_completed(true, None), Err(SCError::InternalProtocolViolation));
    let (r, spare) = s.reconfigure_completed(true, None);
    assert_eq!(r, Err(SCError::InternalProtocolViolation));
    assert!(spare.is_none());
    assert_eq!(s.state(), StreamState::Idle);
}

#[test]
fn start_reconfigure_failed_reconfigure_stop() {
    let mut s = running();

    let first = owned(0x301, ResourceKind::Configuration);
    assert_eq!(s.update_configuration(first).unwrap(), NativeHandle::new(0x301));
    assert_eq!(s.state(), StreamState::Reconfiguring);
    let (r, replaced) = s.reconfigure_completed(true, None);
    assert_eq!(r, Ok(()));
    assert_eq!(replaced.unwrap().as_raw(), NativeHandle::new(CONFIG));
    assert_eq!(s.state(), StreamState::Running);
    assert_eq!(s.configuration(), NativeHandle::new(0x301));

    let second = owned(0x302, ResourceKind::Configuration);
    assert_eq!(s.update_configuration(second).unwrap(), NativeHandle::new(0x302));
    let (r, rejected) = s.reconfigure_completed(false, Some("bad size".to_string()));
    assert_eq!(r, Err(SCError::ReconfigurationFailed(Some("bad size".to_string()))));
    assert_eq!(rejected.unwrap().as_raw(), NativeHandle::new(0x302));
    assert_eq!(s.state(), StreamState::Running);
    assert_eq!(s.configuration(), NativeHandle::new(0x301));
    assert_eq!(s.filter(), NativeHandle::new(FILTER));

    assert_eq!(s.stop(), Ok(NativeHandle::new(STREAM)));
    assert_eq!(s.state(), StreamState::Stopping);
    assert_eq!(s.stop_completed(true, None), Ok(()));
    assert_eq!(s.state(), StreamState::Stopped);
}

#[test]
fn a_filter_update_replaces_the_filter_only() {
    let mut s = running();
    let filter = owned(0x201, ResourceKind::Filter);
    assert_eq!(s.update_filter(filter).unwrap(), NativeHandle::new(0x201));
    let (r, replaced) = s.reconfigure_completed(true, None);
    assert_eq!(r, Ok(()));
    assert_eq!(replaced.unwrap().as_raw(), NativeHandle::new(FILTER));
    assert_eq!(s.filter(), NativeHandle::new(0x201));
    assert_eq!(s.configuration(), NativeHandle::new(CONFIG));
}

#[test]
fn an_update_is_refused_unless_running() {
    let mut s = session();
    let proposal = owned(0x301, ResourceKind::Configuration);
    match s.update_configuration(proposal) {
        Err((e, back)) => {
            assert_eq!(e, SCError::ReconfigurationFailed(None));
            assert_eq!(back.as_raw(), NativeHandle::new(0x301));
        }
        Ok(_) => panic!("an idle session took an update"),
    }
    assert_eq!(s.state(), StreamState::Idle);
    assert_eq!(s.configuration(), NativeHandle::new(CONFIG));
}

#[test]
fn frames_after_the_stop_begins_are_not_forwarded() {
    let mut s = running();
    s.add_output_handler(SCStreamOutputType::Screen, 1);
    let mut count: u32 = 0;
    for i in 0..3usize {
        if forwarded(s.deliver(SCStreamOutputType::Screen, owned(0x1000 + i, ResourceKind::Sample)))
            .is_some()
        {
            count += 1;
        }
    }
    assert_eq!(count, 3);
    assert!(s.is_accepting_deliveries());
    s.stop().unwrap();
    assert!(!s.is_accepting_deliveries());
    for i in 3..6usize {
        if forwarded(s.deliver(SCStreamOutputType::Screen, owned(0x1000 + i, ResourceKind::Sample)))
            .is_some()
        {
            count += 1;
        }
    }
    assert_eq!(count, 3);
    s.stop_completed(true, None).unwrap();
    let late = s.deliver(SCStreamOutputType::Screen, owned(0x1006, ResourceKind::Sample));
    match late {
        Delivery::Dropped { sample } => assert_eq!(sample.as_raw().addr, 0x1006),
        Delivery::Forwarded { .. } => panic!("forwarded after the stop"),
    }
    assert_eq!(count, 3);
}

#[test]
fn five_frames_reach_the_consumer_in_order() {
    let stream_raw = NativeHandle::new(STREAM);
    let mut stream_ledger = RefLedger::adopted(stream_raw);
    let mut s = session();
    assert_eq!(s.add_output_handler(SCStreamOutputType::Screen, 42), None);
    s.start().unwrap();
    s.start_completed(true, None).unwrap();

    let mut seen: Vec<usize> = Vec::new();
    for i in 0..5usize {
        let sample = owned(0x5000 + i, ResourceKind::Sample);
        match s.deliver(SCStreamOutputType::Screen, sample) {
            Delivery::Forwarded { consumer, sample } => {
                assert_eq!(consumer, 42);
                seen.push(sample.as_raw().addr);
            }
            Delivery::Dropped { .. } => panic!("a frame was dropped while running"),
        }
    }
    assert_eq!(seen, vec![0x5000, 0x5001, 0x5002, 0x5003, 0x5004]);

    s.stop().unwrap();
    s.stop_completed(true, None).unwrap();
    assert_eq!(s.state(), StreamState::Stopped);
    assert_eq!(stream_ledger.release_count(), 0);

    let teardown = s.into_handles().unwrap();
    assert_eq!(teardown.configuration.as_raw(), NativeHandle::new(CONFIG));
    assert_eq!(teardown.filter.as_raw(), NativeHandle::new(FILTER));
    assert!(teardown.candidate.is_none());
    assert_eq!(teardown.stream.release(&mut stream_ledger), stream_raw);
    assert_eq!(stream_ledger.release_count(), 1);
    assert!(stream_ledger.is_freed());
}

#[test]
fn frames_need_a_consumer_of_their_kind() {
    let mut s = running();
    s.add_output_handler(SCStreamOutputType::Audio, 9);
    assert_eq!(
        forwarded(s.deliver(SCStreamOutputType::Screen, owned(0x10, ResourceKind::Sample))),
        None
    );
    assert_eq!(
        forwarded(s.deliver(SCStreamOutputType::Audio, owned(0x11, ResourceKind::Sample))),
        Some((9, 0x11))
    );
}

#[test]
fn frames_before_running_are_dropped() {
    let mut s = session();
    s.add_output_handler(SCStreamOutputType::Screen, 1);
    assert_eq!(
        forwarded(s.deliver(SCStreamOutputType::Screen, owned(0x10, ResourceKind::Sample))),
        None
    );
    s.start().unwrap();
    assert_eq!(
        forwarded(s.deliver(SCStreamOutputType::Screen, owned(0x11, ResourceKind::Sample))),
        None
    );
    s.start_completed(true, None).unwrap();
    assert_eq!(
        forwarded(s.deliver(SCStreamOutputType::Screen, owned(0x12, ResourceKind::Sample))),
        Some((1, 0x12))
    );
}

#[test]
fn frames_are_forwarded_while_reconfiguring() {
    let mut s = running();
    s.add_output_handler(SCStreamOutputType::Screen, 1);
    s.update_configuration(owned(0x301, ResourceKind::Configuration)).unwrap();
    assert_eq!(s.state(), StreamState::Reconfiguring);
    assert_eq!(
        forwarded(s.deliver(SCStreamOutputType::Screen, owned(0x12, ResourceKind::Sample))),
        Some((1, 0x12))
    );
}

#[test]
fn a_consumer_registered_while_running_gets_later_frames_only() {
    let mut s = running();
    let early = s.deliver(SCStreamOutputType::Screen, owned(0x20, ResourceKind::Sample));
    assert_eq!(forwarded(early), None);
    assert_eq!(s.add_output_handler(SCStreamOutputType::Screen, 3), None);
    let later = s.deliver(SCStreamOutputType::Screen, owned(0x21, ResourceKind::Sample));
    assert_eq!(forwarded(later), Some((3, 0x21)));
}

#[test]
fn replacing_a_consumer_deregisters_the_previous_one() {
    let mut s = running();
    assert_eq!(s.add_output_handler(SCStreamOutputType::Screen, 3), None);
    assert_eq!(s.add_output_handler(SCStreamOutputType::Screen, 4), Some(3));
    assert_eq!(s.output_handler(SCStreamOutputType::Screen), Some(4));
    let d = s.deliver(SCStreamOutputType::Screen, owned(0x21, ResourceKind::Sample));
    assert_eq!(forwarded(d), Some((4, 0x21)));
    assert_eq!(s.remove_output_handler(SCStreamOutputType::Screen), Some(4));
    assert_eq!(s.remove_output_handler(SCStreamOutputType::Screen), None);
    let d = s.deliver(SCStreamOutputType::Screen, owned(0x22, ResourceKind::Sample));
    assert_eq!(forwarded(d), None);
}

#[test]
fn a_stop_is_taken_even_if_the_start_never_completed() {
    let mut s = session();
    s.start().unwrap();
    assert_eq!(s.stop(), Ok(NativeHandle::new(STREAM)));
    assert_eq!(s.state(), StreamState::Stopping);
    assert_eq!(s.start_completed(true, None), Err(SCError::InternalProtocolViolation));
    assert_eq!(s.stop_completed(true, None), Ok(()));
    assert_eq!(s.state(), StreamState::Stopped);

    let mut idle = session();
    assert_eq!(idle.stop(), Ok(NativeHandle::new(STREAM)));
    assert_eq!(idle.state(), StreamState::Stopping);
}

#[test]
fn a_failed_stop_does_not_stop_the_session() {
    let mut s = running();
    s.stop().unwrap();
    let r = s.stop_completed(false, Some("busy".to_string()));
    assert_eq!(r, Err(SCError::CaptureStopFailed(Some("busy".to_string()))));
    assert_eq!(s.state(), StreamState::Stopping);
    assert!(!s.is_accepting_deliveries());
    assert_eq!(s.stop(), Ok(NativeHandle::new(STREAM)));
    assert_eq!(s.stop_completed(true, None), Ok(()));
    assert_eq!(s.state(), StreamState::Stopped);
}

#[test]
fn stopped_is_terminal() {
    let mut s = running();
    s.stop().unwrap();
    s.stop_completed(true, None).unwrap();
    assert_eq!(s.stop(), Err(SCError::CaptureStopFailed(None)));
    assert_eq!(s.start(), Err(SCError::CaptureStartFailed(None)));
    assert!(s.update_filter(owned(0x201, ResourceKind::Filter)).is_err());
    assert_eq!(s.state(), StreamState::Stopped);
}

#[test]
fn only_a_stopped_session_gives_up_its_handles() {
    let s = running();
    let mut s = match s.into_handles() {
        Err(back) => back,
        Ok(_) => panic!("a running session was torn down"),
    };
    assert_eq!(s.state(), StreamState::Running);
    s.update_configuration(owned(0x301, ResourceKind::Configuration)).unwrap();
    s.stop().unwrap();
    s.stop_completed(true, None).unwrap();
    let teardown = s.into_handles().unwrap();
    assert_eq!(teardown.stream.as_raw().addr, STREAM);
    assert_eq!(teardown.configuration.as_raw().addr, CONFIG);
    assert_eq!(teardown.candidate.unwrap().as_raw().addr, 0x301);
}

#[test]
fn output_kinds_have_the_native_numbers() {
    assert_eq!(SCStreamOutputType::Screen.as_i32(), 0);
    assert_eq!(SCStreamOutputType::Audio.as_i32(), 1);
    assert_eq!(SCStreamOutputType::from_i32(0), Some(SCStreamOutputType::Screen));
    assert_eq!(SCStreamOutputType::from_i32(1), Some(SCStreamOutputType::Audio));
    assert_eq!(SCStreamOutputType::from_i32(2), None);
    assert_eq!(SCStreamOutputType::from_i32(-1), None);
}
