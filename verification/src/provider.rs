//! The contract of a datagram transport.

use vstd::prelude::*;
use crate::address::Address;
use crate::error::TransportError;
use crate::timing::{Mode, Timeout};

verus! {

/// What a receive may report in place of a datagram on an endpoint in the mode
/// `mode`: that it would block, in non-blocking mode only; that it timed out,
/// in blocking mode only; or that receiving failed.
pub open spec fn receive_may_report(mode: Mode, error: TransportError) -> bool {
    match error {
        TransportError::WouldBlock => mode is NonBlocking,
        TransportError::Timeout => mode is BlockingWithTimeout,
        TransportError::Receive(_) => true,
        _ => false,
    }
}

/// What a send may report in place of a length on an endpoint in the mode
/// `mode`: that it would block; that it timed out, in blocking mode only and
/// only where the transport limits the time of a send at all; or that sending
/// failed.
pub open spec fn send_may_report(mode: Mode, error: TransportError) -> bool {
    match error {
        TransportError::WouldBlock => true,
        TransportError::Timeout => mode is BlockingWithTimeout,
        TransportError::Send(_) => true,
        _ => false,
    }
}

/// What every endpoint has: the local address that it is bound to and the
/// timing mode that it is in. The contract of the transport is stated over
/// these two.
///
/// A verified implementation says what they are. Of an implementation that is
/// not verified nothing is known of them, and it has nothing to write here.
pub trait Endpoint {
    /// The address that the endpoint is bound to.
    open spec fn local(&self) -> Address {
        arbitrary()
    }

    /// The timing mode that the endpoint is in.
    open spec fn mode(&self) -> Mode {
        arbitrary()
    }
}

/// A datagram transport: endpoints of the type `I` that are bound to a local
/// address and then receive and send datagrams, in one of two timing modes.
///
/// An implementation stands for one kind of socket: that of the operating
/// system, or a substitute with the same contract.
///
/// Nothing is tried twice: every condition is handed to the caller, who
/// decides whether to try again. Receiving, sending and changing the mode
/// take the endpoint exclusively, so the mode of an endpoint cannot change
/// while a receive on it is under way.
pub trait SocketProvider<I: Endpoint>: Endpoint {
    /// Creates an endpoint bound to `addr`; port `0` asks for an assigned
    /// port. The endpoint allows the reuse of its local address and starts
    /// out non-blocking. It is bound to the host address that was asked for,
    /// and to the port that was asked for unless that is `0`; its port is a
    /// real port in either case.
    fn bind(addr: &Address) -> (r: Result<I, TransportError>)
        ensures
            (r matches Ok(endpoint) ==> {
                &&& endpoint.local().ip == addr.ip
                &&& addr.port != 0 ==> endpoint.local().port == addr.port
                &&& endpoint.local().port != 0
                &&& endpoint.mode() == Mode::NonBlocking
            }),
            r matches Err(e) ==> e is Bind,
    ;

    /// The address that the endpoint is bound to, with the port that was
    /// assigned where port `0` was asked for.
    fn local_addr(&self) -> (r: Result<Address, TransportError>)
        ensures
            r matches Ok(addr) ==> addr == self.local(),
            r matches Err(e) ==> e is Query,
    ;

    /// Puts the endpoint into the mode that `duration` selects: blocking with
    /// that time limit for a receive, or non-blocking where none is given.
    /// On success the new mode is in force, and it is a valid one: an empty
    /// time limit is never accepted. The endpoint stays where it is bound.
    fn set_recv_timeout(&mut self, duration: Option<Timeout>) -> (r: Result<(), TransportError>)
        ensures
            final(self).local() == old(self).local(),
            r is Ok ==> final(self).mode() == Mode::selected_by(duration),
            r is Ok ==> Mode::selected_by(duration).valid(),
            r matches Err(e) ==> e is Mode,
    ;

    /// Reads the next datagram into `buf` and returns the number of bytes
    /// that were copied and the address it came from. At most one datagram is
    /// read, and no more of it than `buf` holds: what does not fit is dropped,
    /// and the length returned is that of the part that was copied. The
    /// endpoint keeps its address and its mode.
    ///
    /// Where no datagram is there, a non-blocking endpoint reports at once
    /// that it would block, and a blocking endpoint waits for one for the
    /// time of its limit and then reports that it timed out. Neither is a
    /// failure of the endpoint.
    fn recv_from(&mut self, buf: &mut [u8]) -> (r: Result<(usize, Address), TransportError>)
        ensures
            final(self).local() == old(self).local(),
            final(self).mode() == old(self).mode(),
            final(buf)@.len() == old(buf)@.len(),
            r matches Ok((n, _)) ==> n <= old(buf)@.len(),
            r matches Err(e) ==> receive_may_report(old(self).mode(), e),
    ;

    /// Sends the bytes of `buf` as one datagram to `addr` and returns their
    /// number: a datagram is sent whole or not at all. The endpoint keeps its
    /// address and its mode.
    ///
    /// A non-blocking endpoint that cannot take the datagram now reports that
    /// it would block.
    fn send_to(&mut self, buf: &[u8], addr: &Address) -> (r: Result<usize, TransportError>)
        ensures
            final(self).local() == old(self).local(),
            final(self).mode() == old(self).mode(),
            r matches Ok(n) ==> n == buf@.len(),
            r matches Err(e) ==> send_may_report(old(self).mode(), e),
    ;
}

} // verus!
