use udp_transport::address::Address;
use udp_transport::answer::{local_addr_result, recv_from_result, send_to_result};
use udp_transport::error::{Failure, FailureKind, TransportError};
use udp_transport::timing::{Mode, Timeout};

fn peer() -> Address {
    Address::from_octets(10, 0, 0, 7, 9999)
}

fn failed(kind: FailureKind, code: i32) -> Failure {
    Failure { kind, code: Some(code) }
}

fn waiting() -> Mode {
    Mode::BlockingWithTimeout(Timeout::from_millis(200))
}

#[test]
fn the_local_address_is_passed_on() {
    assert_eq!(local_addr_result(Ok(Some(peer()))), Ok(peer()));
}

#[test]
fn a_local_address_that_is_not_ipv4_is_a_query_error() {
    assert_eq!(local_addr_result(Ok(None)), Err(TransportError::Query(None)));
}

#[test]
fn a_failed_query_is_a_query_error() {
    let f = failed(FailureKind::Other, 9);
    assert_eq!(local_addr_result(Err(f)), Err(TransportError::Query(Some(9))));
    let g = failed(FailureKind::WouldBlock, 11);
    assert_eq!(local_addr_result(Err(g)), Err(TransportError::Query(Some(11))));
}

#[test]
fn a_received_datagram_is_passed_on() {
    assert_eq!(recv_from_result(Mode::NonBlocking, 16, Ok((5, Some(peer())))), Ok((5, peer())));
    assert_eq!(recv_from_result(waiting(), 16, Ok((16, Some(peer())))), Ok((16, peer())));
    assert_eq!(recv_from_result(waiting(), 0, Ok((0, Some(peer())))), Ok((0, peer())));
}

#[test]
fn a_length_beyond_the_buffer_is_a_receive_error() {
    assert_eq!(
        recv_from_result(Mode::NonBlocking, 16, Ok((17, Some(peer())))),
        Err(TransportError::Receive(None))
    );
}

#[test]
fn a_source_that_is_not_ipv4_is_a_receive_error() {
    assert_eq!(
        recv_from_result(Mode::NonBlocking, 16, Ok((5, None))),
        Err(TransportError::Receive(None))
    );
}

#[test]
fn a_failed_receive_goes_by_the_mode() {
    let nothing = failed(FailureKind::WouldBlock, 11);
    assert_eq!(
        recv_from_result(Mode::NonBlocking, 16, Err(nothing)),
        Err(TransportError::WouldBlock)
    );
    assert_eq!(recv_from_result(waiting(), 16, Err(nothing)), Err(TransportError::Timeout));
    let late = failed(FailureKind::TimedOut, 10060);
    assert_eq!(recv_from_result(waiting(), 16, Err(late)), Err(TransportError::Timeout));
    assert_eq!(
        recv_from_result(Mode::NonBlocking, 16, Err(late)),
        Err(TransportError::Receive(Some(10060)))
    );
    let gone = failed(FailureKind::Other, 9);
    assert_eq!(recv_from_result(waiting(), 16, Err(gone)), Err(TransportError::Receive(Some(9))));
}

#[test]
fn a_datagram_sent_whole_is_passed_on() {
    assert_eq!(send_to_result(5, Ok(5)), Ok(5));
    assert_eq!(send_to_result(0, Ok(0)), Ok(0));
}

#[test]
fn a_datagram_sent_in_part_is_a_send_error() {
    assert_eq!(send_to_result(5, Ok(4)), Err(TransportError::Send(None)));
    assert_eq!(send_to_result(5, Ok(6)), Err(TransportError::Send(None)));
}

#[test]
fn a_failed_send_would_block_or_is_fatal() {
    let full = failed(FailureKind::WouldBlock, 11);
    assert_eq!(send_to_result(5, Err(full)), Err(TransportError::WouldBlock));
    let unreachable = failed(FailureKind::Other, 101);
    assert_eq!(send_to_result(5, Err(unreachable)), Err(TransportError::Send(Some(101))));
    let late = failed(FailureKind::TimedOut, 110);
    assert_eq!(send_to_result(5, Err(late)), Err(TransportError::Send(Some(110))));
}
