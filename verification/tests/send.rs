use net_transport::error::ErrorKind;
use net_transport::packet::NetworkRawPacket;
use net_transport::send::{Outbound, SendAction, SendEvent, SendLoop, SendPhase};
use net_transport::tcp::TcpClientNode;

fn ok(bytes: &[u8]) -> Outbound {
    Outbound { packet: NetworkRawPacket::new(None, bytes), failure: None }
}

fn failed(bytes: &[u8], message: &str) -> Outbound {
    Outbound { packet: NetworkRawPacket::new(None, bytes), failure: Some(message.to_string()) }
}

#[test]
fn poll_drains_unless_cancelled() {
    let mut state = SendLoop::new();
    assert_eq!(state.phase, SendPhase::Idle);
    assert_eq!(state.poll(false), SendAction::Drain);
    assert_eq!(state.phase, SendPhase::Draining);
    state.on_drained(true);
    assert_eq!(state.phase, SendPhase::Idle);
    assert_eq!(state.poll(true), SendAction::Exit);
    assert_eq!(state.phase, SendPhase::Done);
    assert_eq!(state.poll(false), SendAction::Exit);
}

#[test]
fn closed_channel_ends_the_loop() {
    let mut state = SendLoop::new();
    assert_eq!(state.poll(false), SendAction::Drain);
    state.on_drained(false);
    assert_eq!(state.phase, SendPhase::Done);
    assert_eq!(state.poll(false), SendAction::Exit);
}

#[test]
fn failed_write_is_reported_and_the_loop_goes_on() {
    let mut state = SendLoop::new();
    state.poll(false);
    assert!(state.on_written(Ok(())).is_none());
    let error = state.on_written(Err("broken pipe".to_string())).unwrap();
    assert_eq!(error.kind(), ErrorKind::WriteFailed);
    assert_eq!(error.detail, "broken pipe");
    assert_eq!(state.phase, SendPhase::Draining);
    assert!(state.on_written(Ok(())).is_none());
}

#[test]
fn batch_is_written_in_enqueue_order() {
    let events = vec![SendEvent::Batch(vec![ok(&[1]), ok(&[2, 3]), ok(&[4, 5, 6])])];
    let report = TcpClientNode::send_loop(&events);
    assert_eq!(report.writes, vec![vec![1u8], vec![2, 3], vec![4, 5, 6]]);
    assert_eq!(report.writes.concat(), vec![1u8, 2, 3, 4, 5, 6]);
    assert!(report.errors.is_empty());
    assert!(!report.finished);
    assert_eq!(report.consumed, 1);
}

#[test]
fn write_failure_does_not_stop_the_drain() {
    let events = vec![
        SendEvent::Batch(vec![ok(&[1]), failed(&[2], "first"), ok(&[3]), failed(&[4], "second")]),
        SendEvent::Batch(vec![ok(&[5])]),
    ];
    let report = TcpClientNode::send_loop(&events);
    assert_eq!(report.writes, vec![vec![1u8], vec![2], vec![3], vec![4], vec![5]]);
    assert_eq!(report.errors.len(), 2);
    assert_eq!(report.errors[0].kind(), ErrorKind::WriteFailed);
    assert_eq!(report.errors[0].detail, "first");
    assert_eq!(report.errors[1].kind(), ErrorKind::WriteFailed);
    assert_eq!(report.errors[1].detail, "second");
    assert!(!report.finished);
    assert_eq!(report.consumed, 2);
}

#[test]
fn nothing_is_written_after_cancellation() {
    let events = vec![
        SendEvent::Batch(vec![ok(&[1])]),
        SendEvent::Batch(vec![]),
        SendEvent::Cancelled,
        SendEvent::Batch(vec![ok(&[2])]),
    ];
    let report = TcpClientNode::send_loop(&events);
    assert_eq!(report.writes, vec![vec![1u8]]);
    assert!(report.errors.is_empty());
    assert!(report.finished);
    assert_eq!(report.consumed, 3);
}

#[test]
fn nothing_is_written_after_the_channel_closed() {
    let events = vec![SendEvent::Closed, SendEvent::Batch(vec![ok(&[2])])];
    let report = TcpClientNode::send_loop(&events);
    assert!(report.writes.is_empty());
    assert!(report.errors.is_empty());
    assert!(report.finished);
    assert_eq!(report.consumed, 1);
}

#[test]
fn send_loop_on_nothing_does_nothing() {
    let report = TcpClientNode::send_loop(&Vec::new());
    assert!(report.writes.is_empty());
    assert!(report.errors.is_empty());
    assert!(!report.finished);
    assert_eq!(report.consumed, 0);
}
