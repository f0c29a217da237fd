//! How long an endpoint waits: the timeout of a blocking receive and the two
//! timing modes of an endpoint.

use vstd::prelude::*;

verus! {

/// The number of nanoseconds in a second.
pub const NANOS_PER_SEC: u32 = 1_000_000_000;

/// A span of time in whole seconds and a rest of less than a second, in
/// nanoseconds. Its view is the whole span in nanoseconds.
#[derive(Clone, Copy, Debug, PartialEq, Eq, Structural)]
pub struct Timeout {
    secs: u64,
    nanos: u32,
}

impl View for Timeout {
    type V = nat;

    closed spec fn view(&self) -> nat {
        (self.secs * NANOS_PER_SEC + self.nanos) as nat
    }
}

impl Timeout {
    #[verifier::type_invariant]
    spec fn well_formed(self) -> bool {
        self.nanos < NANOS_PER_SEC
    }

    /// The span of `secs` seconds and `nanos` nanoseconds, where `nanos` is
    /// less than a second; no span otherwise.
    pub fn new(secs: u64, nanos: u32) -> (r: Option<Timeout>)
        ensures
            nanos < NANOS_PER_SEC <==> r is Some,
            r matches Some(t) ==> t@ == secs * NANOS_PER_SEC + nanos,
    {
        if nanos < NANOS_PER_SEC {
            Some(Timeout { secs, nanos })
        } else {
            None
        }
    }

    /// The span of `millis` milliseconds.
    pub fn from_millis(millis: u64) -> (r: Timeout)
        ensures
            r@ == millis * 1_000_000,
    {
        let secs: u64 = millis / 1000;
        let rest: u32 = (millis % 1000) as u32;
        Timeout { secs, nanos: rest * 1_000_000 }
    }

    /// The whole seconds of the span.
    pub fn secs(&self) -> (r: u64)
        ensures
            r == self@ / (NANOS_PER_SEC as nat),
    {
        proof {
            use_type_invariant(self);
        }
        self.secs
    }

    /// What is left of the span beyond its whole seconds, in nanoseconds.
    pub fn subsec_nanos(&self) -> (r: u32)
        ensures
            r == self@ % (NANOS_PER_SEC as nat),
            r < NANOS_PER_SEC,
    {
        proof {
            use_type_invariant(self);
        }
        self.nanos
    }

    /// Whether the span is empty.
    pub fn is_zero(&self) -> (r: bool)
        ensures
            r == (self@ == 0),
    {
        self.secs == 0 && self.nanos == 0
    }
}

/// The timing mode of an endpoint.
#[derive(Clone, Copy, Debug, PartialEq, Eq, Structural)]
pub enum Mode {
    /// Every operation is attempted at once and reports that it would block
    /// where it cannot complete.
    NonBlocking,
    /// A receive waits for a datagram for at most the given time and then
    /// reports that it timed out.
    BlockingWithTimeout(Timeout),
}

impl Mode {
    /// The mode that a request for a receive timeout selects: blocking for
    /// the time given, non-blocking where none is given.
    pub open spec fn selected_by(duration: Option<Timeout>) -> Mode {
        match duration {
            Some(t) => Mode::BlockingWithTimeout(t),
            None => Mode::NonBlocking,
        }
    }

    /// A mode that an endpoint can be in: a blocking receive waits for a time
    /// that is not empty.
    pub open spec fn valid(self) -> bool {
        self matches Mode::BlockingWithTimeout(t) ==> t@ > 0
    }

    /// The mode of an endpoint that was in this mode, after its request for
    /// the mode that `duration` selects was answered: the new mode where the
    /// request was accepted, the old one where it was refused.
    pub open spec fn after(self, duration: Option<Timeout>, accepted: bool) -> Mode {
        if accepted {
            Mode::selected_by(duration)
        } else {
            self
        }
    }

    /// The mode that `duration` selects.
    pub fn from_request(duration: Option<Timeout>) -> (r: Mode)
        ensures
            r == Mode::selected_by(duration),
    {
        match duration {
            Some(t) => Mode::BlockingWithTimeout(t),
            None => Mode::NonBlocking,
        }
    }

    /// The mode of an endpoint that was in this mode, after its request for
    /// the mode that `duration` selects was accepted or refused.
    pub fn after_request(self, duration: Option<Timeout>, accepted: bool) -> (r: Mode)
        ensures
            r == self.after(duration, accepted),
    {
        if accepted {
            Mode::from_request(duration)
        } else {
            self
        }
    }
}

/// Asking twice for the same mode is asking once, whether the request is
/// accepted or refused; and once a request is accepted, the mode is the one
/// asked for last, whatever was asked for before.
pub proof fn law_requests_settle(
    mode: Mode,
    earlier: Option<Timeout>,
    duration: Option<Timeout>,
    accepted: bool,
)
    ensures
        mode.after(duration, accepted).after(duration, accepted) == mode.after(duration, accepted),
        mode.after(earlier, accepted).after(duration, true) == mode.after(duration, true),
        mode.after(duration, true) == Mode::selected_by(duration),
        mode.after(duration, false) == mode,
{
}

} // verus!
