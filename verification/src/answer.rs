//! From what the underlying socket answered to what the operation on the
//! endpoint returns.
//!
//! The socket's answer comes in plain values: on success what the socket
//! returned, with an address that is not IPv4 written as `None`; on failure
//! the failure. Each function here decides what the caller of the transport
//! gets for it, so that what is returned keeps the contract of the transport
//! whatever the socket answered.

use vstd::prelude::*;
use crate::address::Address;
use crate::error::{Failure, TransportError};
use crate::provider::{receive_may_report, send_may_report};
use crate::timing::Mode;

verus! {

/// What asking for the local address returns for the socket's answer: the
/// address, a query error where the address is not IPv4, and the report of
/// the failure where the socket failed.
pub open spec fn local_addr_returns(
    answer: Result<Option<Address>, Failure>,
) -> Result<Address, TransportError> {
    match answer {
        Ok(Some(addr)) => Ok(addr),
        Ok(None) => Err(TransportError::Query(None)),
        Err(failure) => Err(TransportError::of_query(failure)),
    }
}

/// What a receive into a buffer of `capacity` bytes returns for the socket's
/// answer, on an endpoint in the mode `mode`: the length and the source as
/// the socket gave them; a receive error where the source is not IPv4 or the
/// length is more than the buffer holds; and the report of the failure where
/// the socket failed.
pub open spec fn recv_from_returns(
    mode: Mode,
    capacity: nat,
    answer: Result<(usize, Option<Address>), Failure>,
) -> Result<(usize, Address), TransportError> {
    match answer {
        Ok((n, Some(source))) => if n <= capacity {
            Ok((n, source))
        } else {
            Err(TransportError::Receive(None))
        },
        Ok((_, None)) => Err(TransportError::Receive(None)),
        Err(failure) => Err(TransportError::of_receive(mode, failure)),
    }
}

/// What sending `len` bytes returns for the socket's answer: the length where
/// the socket took all of them; a send error where it took another number,
/// since a datagram goes whole or not at all; and the report of the failure
/// where the socket failed.
pub open spec fn send_to_returns(
    len: nat,
    answer: Result<usize, Failure>,
) -> Result<usize, TransportError> {
    match answer {
        Ok(n) => if n == len {
            Ok(n)
        } else {
            Err(TransportError::Send(None))
        },
        Err(failure) => Err(TransportError::of_send(failure)),
    }
}

/// Decides what asking for the local address returns.
pub fn local_addr_result(
    answer: Result<Option<Address>, Failure>,
) -> (r: Result<Address, TransportError>)
    ensures
        r == local_addr_returns(answer),
{
    match answer {
        Ok(Some(addr)) => Ok(addr),
        Ok(None) => Err(TransportError::Query(None)),
        Err(failure) => Err(TransportError::on_query(failure)),
    }
}

/// Decides what a receive into a buffer of `capacity` bytes returns on an
/// endpoint in the mode `mode`.
pub fn recv_from_result(
    mode: Mode,
    capacity: usize,
    answer: Result<(usize, Option<Address>), Failure>,
) -> (r: Result<(usize, Address), TransportError>)
    ensures
        r == recv_from_returns(mode, capacity as nat, answer),
{
    match answer {
        Ok((n, source)) => match source {
            Some(source) => if n <= capacity {
                Ok((n, source))
            } else {
                Err(TransportError::Receive(None))
            },
            None => Err(TransportError::Receive(None)),
        },
        Err(failure) => Err(TransportError::on_receive(mode, failure)),
    }
}

/// Decides what sending `len` bytes returns.
pub fn send_to_result(
    len: usize,
    answer: Result<usize, Failure>,
) -> (r: Result<usize, TransportError>)
    ensures
        r == send_to_returns(len as nat, answer),
{
    match answer {
        Ok(n) => if n == len {
            Ok(n)
        } else {
            Err(TransportError::Send(None))
        },
        Err(failure) => Err(TransportError::on_send(failure)),
    }
}

/// What these functions decide keeps the contract of the transport, whatever
/// the socket answered: a length received is no more than the buffer holds, a
/// length sent is the length of the datagram, and an error is one that the
/// operation may report in the mode of the endpoint.
pub proof fn law_answers_keep_the_contract(
    mode: Mode,
    capacity: nat,
    len: nat,
    queried: Result<Option<Address>, Failure>,
    received: Result<(usize, Option<Address>), Failure>,
    sent: Result<usize, Failure>,
)
    ensures
        local_addr_returns(queried) matches Err(e) ==> e is Query,
        recv_from_returns(mode, capacity, received) matches Ok((n, _)) ==> n <= capacity,
        recv_from_returns(mode, capacity, received) matches Err(e) ==> receive_may_report(mode, e),
        send_to_returns(len, sent) matches Ok(n) ==> n == len,
        send_to_returns(len, sent) matches Err(e) ==> send_may_report(mode, e),
{
}

/// Where the socket answers as a socket should, its answer is passed on as
/// it is: an IPv4 address, a datagram that fits the buffer with an IPv4
/// source, and a datagram that was taken whole are returned unchanged.
pub proof fn law_sound_answers_pass(
    mode: Mode,
    capacity: nat,
    addr: Address,
    n: usize,
)
    ensures
        local_addr_returns(Ok(Some(addr))) == Ok::<Address, TransportError>(addr),
        n <= capacity ==> recv_from_returns(mode, capacity, Ok((n, Some(addr))))
            == Ok::<(usize, Address), TransportError>((n, addr)),
        send_to_returns(n as nat, Ok(n)) == Ok::<usize, TransportError>(n),
{
}

} // verus!
