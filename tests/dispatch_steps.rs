use native_messaging::dispatch::{loop_step, reader_step, reply_outcome, LoopEvent, LoopState, QUEUE_CAPACITY};
use native_messaging::error::{IoErrorKind, NmError};

#[test]
fn reader_forwards_messages_and_keeps_reading() {
    let step = reader_step(Ok(Some("m".to_string())));
    assert_eq!(step.deliver, Ok("m".to_string()));
    assert!(step.keep_reading);
}

#[test]
fn reader_turns_clean_end_into_disconnected_and_stops() {
    let step = reader_step(Ok(None));
    assert_eq!(step.deliver, Err(NmError::Disconnected));
    assert!(!step.keep_reading);
}

#[test]
fn reader_forwards_failure_and_stops() {
    let step = reader_step(Err(NmError::IncomingNotUtf8));
    assert_eq!(step.deliver, Err(NmError::IncomingNotUtf8));
    assert!(!step.keep_reading);
}

#[test]
fn loop_dispatches_messages_in_order() {
    let (s, m) = loop_step(LoopState::Running, LoopEvent::Inbound(Ok("a".to_string())));
    assert_eq!(s, LoopState::Running);
    assert_eq!(m, Some("a".to_string()));
    let (s, m) = loop_step(s, LoopEvent::HandlerDone(Ok(())));
    assert_eq!(s, LoopState::Running);
    assert_eq!(m, None);
}

#[test]
fn loop_ends_cleanly_on_disconnect() {
    let (s, m) = loop_step(LoopState::Running, LoopEvent::Inbound(Err(NmError::Disconnected)));
    assert_eq!(s, LoopState::Finished(Ok(())));
    assert_eq!(m, None);
    let (s, _) = loop_step(LoopState::Running, LoopEvent::InboundClosed);
    assert_eq!(s, LoopState::Finished(Ok(())));
}

#[test]
fn loop_ends_with_transport_failure() {
    let e = NmError::Io(IoErrorKind::UnexpectedEof);
    let (s, _) = loop_step(LoopState::Running, LoopEvent::Inbound(Err(e.clone())));
    assert_eq!(s, LoopState::Finished(Err(e)));
}

#[test]
fn loop_ends_with_handler_failure() {
    let (s, _) = loop_step(LoopState::Running, LoopEvent::HandlerDone(Err(NmError::SerializeJson)));
    assert_eq!(s, LoopState::Finished(Err(NmError::SerializeJson)));
}

#[test]
fn finished_loop_ignores_later_events() {
    let done = LoopState::Finished(Err(NmError::TaskJoin));
    let (s, m) = loop_step(done, LoopEvent::Inbound(Ok("late".to_string())));
    assert_eq!(s, LoopState::Finished(Err(NmError::TaskJoin)));
    assert_eq!(m, None);
}

#[test]
fn undeliverable_reply_is_a_disconnect() {
    assert_eq!(reply_outcome(true), Ok(()));
    assert_eq!(reply_outcome(false), Err(NmError::Disconnected));
}

#[test]
fn bounded_queue_pushes_back_when_full() {
    let (tx, mut rx) = tokio::sync::mpsc::channel::<Vec<u8>>(QUEUE_CAPACITY);
    for i in 0..QUEUE_CAPACITY {
        assert!(tx.try_send(vec![i as u8]).is_ok());
    }
    assert!(matches!(
        tx.try_send(vec![0]),
        Err(tokio::sync::mpsc::error::TrySendError::Full(_))
    ));
    assert_eq!(rx.try_recv().unwrap(), vec![0u8]);
    assert!(tx.try_send(vec![1]).is_ok());
}
