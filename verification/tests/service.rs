use pushkind_sms::{
    receive_outcome, ReceiveError, ServiceAction, ServiceError, ServiceEvent, ServiceLoop,
    ServicePhase, ZMQSendSmsMessage,
};

fn request(sender: &str, phone: &str, text: &str) -> ZMQSendSmsMessage {
    ZMQSendSmsMessage { sender_id: sender.into(), phone_number: phone.into(), message: text.into() }
}

#[test]
fn loop_starts_by_checking_for_shutdown() {
    let (lp, action) = ServiceLoop::new();
    assert!(matches!(action, ServiceAction::CheckShutdown));
    assert_eq!(lp.phase(), ServicePhase::CheckingShutdown);
}

#[test]
fn loop_stops_when_shutdown_is_triggered() {
    let (mut lp, _) = ServiceLoop::new();
    let a = lp.step(ServiceEvent::ShutdownChecked(true));
    assert!(matches!(a, ServiceAction::Finish(Ok(()))));
    assert!(lp.is_stopped());
    // nothing more happens afterwards
    assert!(matches!(lp.step(ServiceEvent::ShutdownChecked(false)), ServiceAction::Ignore));
    assert!(matches!(lp.step(ServiceEvent::Resumed), ServiceAction::Ignore));
    assert!(lp.is_stopped());
}

#[test]
fn loop_sleeps_when_source_is_empty() {
    let (mut lp, _) = ServiceLoop::new();
    assert!(matches!(lp.step(ServiceEvent::ShutdownChecked(false)), ServiceAction::PollSource));
    assert!(matches!(lp.step(ServiceEvent::Polled(Ok(None))), ServiceAction::Sleep(10)));
    assert!(matches!(lp.step(ServiceEvent::Resumed), ServiceAction::CheckShutdown));
}

#[test]
fn loop_processes_messages_in_order() {
    let (mut lp, _) = ServiceLoop::new();
    let sent = vec![
        request("TEST1", "+12345678901", "Hello"),
        request("TEST2", "+12345678902", "World"),
        request("TEST3", "+12345678903", "Again"),
    ];
    let mut dispatched = Vec::new();
    for m in &sent {
        assert!(matches!(lp.step(ServiceEvent::ShutdownChecked(false)), ServiceAction::PollSource));
        match lp.step(ServiceEvent::Polled(Ok(Some(vec![1, 2, 3])))) {
            ServiceAction::Decode(bytes) => assert_eq!(bytes, vec![1, 2, 3]),
            _ => panic!("expected a decode"),
        }
        match lp.step(ServiceEvent::Decoded(Ok(m.clone()))) {
            ServiceAction::Dispatch(d) => dispatched.push(d),
            _ => panic!("expected a dispatch"),
        }
        assert!(matches!(lp.step(ServiceEvent::Resumed), ServiceAction::CheckShutdown));
    }
    assert_eq!(dispatched, sent);
    assert!(matches!(lp.step(ServiceEvent::ShutdownChecked(true)), ServiceAction::Finish(Ok(()))));
}

#[test]
fn loop_reports_undecodable_payloads_and_goes_on() {
    let (mut lp, _) = ServiceLoop::new();
    lp.step(ServiceEvent::ShutdownChecked(false));
    lp.step(ServiceEvent::Polled(Ok(Some(b"{\"sender_id\":\"TEST\"}".to_vec()))));
    match lp.step(ServiceEvent::Decoded(Err("missing field `phone_number`".into()))) {
        ServiceAction::ReportDecodeError(reason) => assert_eq!(reason, "missing field `phone_number`"),
        _ => panic!("expected a report"),
    }
    assert!(matches!(lp.step(ServiceEvent::Resumed), ServiceAction::CheckShutdown));
    assert!(!lp.is_stopped());
}

#[test]
fn loop_ends_with_the_source_error() {
    let (mut lp, _) = ServiceLoop::new();
    lp.step(ServiceEvent::ShutdownChecked(false));
    let a = lp.step(ServiceEvent::Polled(Err(ServiceError::Zmq(5))));
    assert!(matches!(a, ServiceAction::Finish(Err(ServiceError::Zmq(5)))));
    assert_eq!(lp.phase(), ServicePhase::Stopped);
}

#[test]
fn unexpected_events_change_nothing() {
    let (mut lp, _) = ServiceLoop::new();
    assert!(matches!(lp.step(ServiceEvent::Resumed), ServiceAction::Ignore));
    assert!(matches!(lp.step(ServiceEvent::Polled(Ok(None))), ServiceAction::Ignore));
    assert_eq!(lp.phase(), ServicePhase::CheckingShutdown);
}

#[test]
fn receive_outcomes() {
    assert_eq!(receive_outcome(Ok(vec![7u8])), Ok(Some(vec![7u8])));
    assert_eq!(receive_outcome(Err(ReceiveError::WouldBlock)), Ok(None));
    assert_eq!(receive_outcome(Err(ReceiveError::Failed(4))), Err(ServiceError::Zmq(4)));
}
