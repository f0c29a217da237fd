use udp_transport::error::{Failure, FailureKind, TransportError};
use udp_transport::timing::{Mode, Timeout};

fn failure(kind: FailureKind, code: i32) -> Failure {
    Failure { kind, code: Some(code) }
}

fn blocking() -> Mode {
    Mode::BlockingWithTimeout(Timeout::from_millis(100))
}

#[test]
fn setup_failures_keep_their_heading_and_code() {
    let f = failure(FailureKind::Other, 98);
    assert_eq!(TransportError::on_bind(f), TransportError::Bind(Some(98)));
    assert_eq!(TransportError::on_query(f), TransportError::Query(Some(98)));
    assert_eq!(TransportError::on_mode_change(f), TransportError::Mode(Some(98)));
    let g = Failure { kind: FailureKind::WouldBlock, code: None };
    assert_eq!(TransportError::on_bind(g), TransportError::Bind(None));
    assert_eq!(TransportError::on_query(g), TransportError::Query(None));
    assert_eq!(TransportError::on_mode_change(g), TransportError::Mode(None));
}

#[test]
fn a_non_blocking_receive_would_block() {
    let f = failure(FailureKind::WouldBlock, 11);
    assert_eq!(TransportError::on_receive(Mode::NonBlocking, f), TransportError::WouldBlock);
}

#[test]
fn a_blocking_receive_times_out_under_either_name() {
    let unix = failure(FailureKind::WouldBlock, 11);
    let windows = failure(FailureKind::TimedOut, 10060);
    assert_eq!(TransportError::on_receive(blocking(), unix), TransportError::Timeout);
    assert_eq!(TransportError::on_receive(blocking(), windows), TransportError::Timeout);
}

#[test]
fn other_receive_failures_are_fatal() {
    let f = failure(FailureKind::Other, 9);
    assert_eq!(TransportError::on_receive(Mode::NonBlocking, f), TransportError::Receive(Some(9)));
    assert_eq!(TransportError::on_receive(blocking(), f), TransportError::Receive(Some(9)));
    let t = failure(FailureKind::TimedOut, 110);
    assert_eq!(TransportError::on_receive(Mode::NonBlocking, t), TransportError::Receive(Some(110)));
}

#[test]
fn a_send_would_block_or_fails() {
    let full = failure(FailureKind::WouldBlock, 11);
    assert_eq!(TransportError::on_send(full), TransportError::WouldBlock);
    let late = failure(FailureKind::TimedOut, 110);
    assert_eq!(TransportError::on_send(late), TransportError::Send(Some(110)));
    let unreachable = failure(FailureKind::Other, 101);
    assert_eq!(TransportError::on_send(unreachable), TransportError::Send(Some(101)));
}

#[test]
fn only_would_block_and_timeout_are_transient() {
    assert!(TransportError::WouldBlock.is_transient());
    assert!(TransportError::Timeout.is_transient());
    assert!(!TransportError::Bind(None).is_transient());
    assert!(!TransportError::Query(Some(9)).is_transient());
    assert!(!TransportError::Mode(None).is_transient());
    assert!(!TransportError::Receive(Some(104)).is_transient());
    assert!(!TransportError::Send(None).is_transient());
}
