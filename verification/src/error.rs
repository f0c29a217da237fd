//! What an operation on an endpoint reports when it does not succeed, and how
//! a failure of the underlying socket is told apart into those reports.

use vstd::prelude::*;
use crate::timing::Mode;

verus! {

/// The kinds of failure of the underlying socket that the transport tells
/// apart.
#[derive(Clone, Copy, Debug, PartialEq, Eq, Structural)]
pub enum FailureKind {
    /// The operation could not complete at once.
    WouldBlock,
    /// The time allowed for the operation ran out.
    TimedOut,
    /// Anything else.
    Other,
}

/// A failure of one call on the underlying socket: its kind, and the error
/// number of the operating system where there is one.
#[derive(Clone, Copy, Debug, PartialEq, Eq, Structural)]
pub struct Failure {
    pub kind: FailureKind,
    pub code: Option<i32>,
}

/// What an operation on an endpoint reports in place of a result.
///
/// `WouldBlock` and `Timeout` are signals to try again later; every other
/// report is fatal for the endpoint and carries the error number of the
/// operating system where there is one.
#[derive(Clone, Copy, Debug, PartialEq, Eq, Structural)]
pub enum TransportError {
    /// The endpoint could not be created or bound.
    Bind(Option<i32>),
    /// The endpoint could not say where it is bound.
    Query(Option<i32>),
    /// The endpoint refused a change of its timing mode.
    Mode(Option<i32>),
    /// Non-blocking mode: the operation cannot complete now.
    WouldBlock,
    /// Blocking mode: no datagram arrived in the time allowed.
    Timeout,
    /// Receiving failed.
    Receive(Option<i32>),
    /// Sending failed.
    Send(Option<i32>),
}

impl TransportError {
    /// A signal to try again later, as opposed to a fatal error.
    pub open spec fn transient(self) -> bool {
        self is WouldBlock || self is Timeout
    }

    /// The report of a failure while an endpoint is created and bound.
    pub open spec fn of_bind(failure: Failure) -> TransportError {
        TransportError::Bind(failure.code)
    }

    /// The report of a failure to read the bound address.
    pub open spec fn of_query(failure: Failure) -> TransportError {
        TransportError::Query(failure.code)
    }

    /// The report of a failure to change the timing mode.
    pub open spec fn of_mode_change(failure: Failure) -> TransportError {
        TransportError::Mode(failure.code)
    }

    /// The report of a failed receive on an endpoint in the mode `mode`.
    ///
    /// A non-blocking endpoint with nothing to read would block. A blocking
    /// endpoint whose wait ran out timed out, whether the socket calls that
    /// "would block" or "timed out". Anything else is fatal.
    pub open spec fn of_receive(mode: Mode, failure: Failure) -> TransportError {
        match (mode, failure.kind) {
            (Mode::NonBlocking, FailureKind::WouldBlock) => TransportError::WouldBlock,
            (Mode::BlockingWithTimeout(_), FailureKind::WouldBlock) => TransportError::Timeout,
            (Mode::BlockingWithTimeout(_), FailureKind::TimedOut) => TransportError::Timeout,
            _ => TransportError::Receive(failure.code),
        }
    }

    /// The report of a failed send.
    ///
    /// No time limit is ever set for sending, so a send never times out: a
    /// socket that cannot take the datagram now would block, and anything
    /// else is fatal.
    pub open spec fn of_send(failure: Failure) -> TransportError {
        match failure.kind {
            FailureKind::WouldBlock => TransportError::WouldBlock,
            _ => TransportError::Send(failure.code),
        }
    }

    /// Whether this is a signal to try again later.
    pub fn is_transient(&self) -> (r: bool)
        ensures
            r == self.transient(),
    {
        match self {
            TransportError::WouldBlock => true,
            TransportError::Timeout => true,
            _ => false,
        }
    }

    /// Reports a failure while an endpoint is created and bound.
    pub fn on_bind(failure: Failure) -> (r: TransportError)
        ensures
            r == TransportError::of_bind(failure),
    {
        TransportError::Bind(failure.code)
    }

    /// Reports a failure to read the bound address.
    pub fn on_query(failure: Failure) -> (r: TransportError)
        ensures
            r == TransportError::of_query(failure),
    {
        TransportError::Query(failure.code)
    }

    /// Reports a failure to change the timing mode.
    pub fn on_mode_change(failure: Failure) -> (r: TransportError)
        ensures
            r == TransportError::of_mode_change(failure),
    {
        TransportError::Mode(failure.code)
    }

    /// Reports a failed receive on an endpoint in the mode `mode`.
    pub fn on_receive(mode: Mode, failure: Failure) -> (r: TransportError)
        ensures
            r == TransportError::of_receive(mode, failure),
    {
        match failure.kind {
            FailureKind::WouldBlock => match mode {
                Mode::NonBlocking => TransportError::WouldBlock,
                Mode::BlockingWithTimeout(_) => TransportError::Timeout,
            },
            FailureKind::TimedOut => match mode {
                Mode::NonBlocking => TransportError::Receive(failure.code),
                Mode::BlockingWithTimeout(_) => TransportError::Timeout,
            },
            FailureKind::Other => TransportError::Receive(failure.code),
        }
    }

    /// Reports a failed send.
    pub fn on_send(failure: Failure) -> (r: TransportError)
        ensures
            r == TransportError::of_send(failure),
    {
        match failure.kind {
            FailureKind::WouldBlock => TransportError::WouldBlock,
            _ => TransportError::Send(failure.code),
        }
    }
}

/// A failed receive is reported as one of three things, and the two signals
/// to try again later name the mode of the endpoint: it would block only in
/// non-blocking mode and times out only in blocking mode. A fatal report keeps
/// the error number of the failure.
pub proof fn law_receive_reports(mode: Mode, failure: Failure)
    ensures
        ({
            let e = TransportError::of_receive(mode, failure);
            &&& e is WouldBlock || e is Timeout || e is Receive
            &&& e is WouldBlock <==> mode is NonBlocking && failure.kind is WouldBlock
            &&& e is Timeout <==> mode is BlockingWithTimeout && !(failure.kind is Other)
            &&& e is Receive ==> e == TransportError::Receive(failure.code)
        }),
{
}

/// A failed send is reported as fatal or as a signal that it would block,
/// never as a timeout, whatever the mode of the endpoint.
pub proof fn law_send_reports(failure: Failure)
    ensures
        ({
            let e = TransportError::of_send(failure);
            &&& e is WouldBlock || e is Send
            &&& e is WouldBlock <==> failure.kind is WouldBlock
            &&& e is Send ==> e == TransportError::Send(failure.code)
        }),
{
}

/// Creating an endpoint, asking for its address and changing its mode never
/// report a signal to try again later: their failures are fatal, whatever the
/// kind of the failure underneath.
pub proof fn law_setup_failures_are_fatal(failure: Failure)
    ensures
        !TransportError::of_bind(failure).transient(),
        !TransportError::of_query(failure).transient(),
        !TransportError::of_mode_change(failure).transient(),
{
}

} // verus!
