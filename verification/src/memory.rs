//! An endpoint that lives in memory: a deterministic substitute for a socket
//! of the operating system, with the same contract.
//!
//! Nothing travels by itself. What the endpoint sends waits in its outbox until
//! the harness takes it, and the endpoint receives what the harness has
//! delivered to its inbox, oldest first.
//!
//! Time is not spent but counted. No call suspends its caller: a receive on an
//! empty inbox reports what a socket would report in the endpoint's mode, and
//! the endpoint notes how long a socket would have made the caller wait for
//! it.

use std::collections::VecDeque;
use vstd::prelude::*;
use vstd::slice::slice_to_vec;
use crate::address::Address;
use crate::error::TransportError;
use crate::provider::{Endpoint, SocketProvider};
use crate::timing::{Mode, Timeout};

verus! {

/// The largest payload of a datagram, in bytes.
pub const MAX_DATAGRAM: usize = 65507;

/// The port that an endpoint is given where it asks for port `0`.
pub const ASSIGNED_PORT: u16 = 49152;

/// The model of a datagram: its bytes, and the address at its other end (where
/// it came from for one that arrived, where it goes for one that was sent).
pub struct Packet {
    pub payload: Seq<u8>,
    pub peer: Address,
}

/// A datagram: its bytes, and the address at its other end.
#[derive(Debug, PartialEq, Eq)]
pub struct Datagram {
    pub payload: Vec<u8>,
    pub peer: Address,
}

impl View for Datagram {
    type V = Packet;

    open spec fn view(&self) -> Packet {
        Packet { payload: self.payload@, peer: self.peer }
    }
}

/// The models of a queue of datagrams, in its order.
pub open spec fn packets(queue: Seq<Datagram>) -> Seq<Packet> {
    queue.map_values(|d: Datagram| d@)
}

/// The address that an endpoint is bound to when it asked for `requested`:
/// the same host address, and the same port unless that is `0`.
pub open spec fn assigned(requested: Address) -> Address {
    if requested.port == 0 {
        Address { ip: requested.ip, port: ASSIGNED_PORT }
    } else {
        requested
    }
}

/// What a buffer holds after `payload` was received into it: as much of the
/// payload as fits stands at its front, the rest of the payload is dropped,
/// and the rest of the buffer is as it was.
pub open spec fn received_into(buf: Seq<u8>, payload: Seq<u8>) -> Seq<u8> {
    let n = if payload.len() <= buf.len() { payload.len() } else { buf.len() };
    payload.take(n as int) + buf.skip(n as int)
}

/// The model of an endpoint: where it is bound, its timing mode, whether it
/// is still open, the datagrams that wait to be received and those that were
/// sent and not taken yet, oldest first, and the time that its last receive
/// waited (none where it returned at once).
pub struct EndpointState {
    pub local: Address,
    pub mode: Mode,
    pub open: bool,
    pub inbox: Seq<Packet>,
    pub outbox: Seq<Packet>,
    pub last_wait: Option<Timeout>,
}

impl EndpointState {
    /// An endpoint as it is created for the address `requested`: open,
    /// non-blocking, with nothing received or sent.
    pub open spec fn bound(requested: Address) -> EndpointState {
        EndpointState {
            local: assigned(requested),
            mode: Mode::NonBlocking,
            open: true,
            inbox: Seq::empty(),
            outbox: Seq::empty(),
            last_wait: None,
        }
    }

    /// What asking for the local address returns.
    pub open spec fn local_addr(self) -> Result<Address, TransportError> {
        if self.open {
            Ok(self.local)
        } else {
            Err(TransportError::Query(None))
        }
    }

    /// What a request for the mode that `duration` selects returns: a closed
    /// endpoint and an empty time limit are refused.
    pub open spec fn set_recv_timeout(self, duration: Option<Timeout>) -> Result<(), TransportError> {
        if self.open && Mode::selected_by(duration).valid() {
            Ok(())
        } else {
            Err(TransportError::Mode(None))
        }
    }

    /// The endpoint after that request: in the new mode where the request
    /// was accepted, as it was where it was refused.
    pub open spec fn after_set_recv_timeout(self, duration: Option<Timeout>) -> EndpointState {
        EndpointState { mode: self.mode.after(duration, self.set_recv_timeout(duration) is Ok), ..self }
    }

    /// What a receive into a buffer of `capacity` bytes returns: the oldest
    /// datagram of the inbox, cut to the capacity, with its source. Where the
    /// inbox is empty, a non-blocking endpoint would block and a blocking one
    /// times out.
    pub open spec fn recv_from(self, capacity: nat) -> Result<(nat, Address), TransportError> {
        if !self.open {
            Err(TransportError::Receive(None))
        } else if self.inbox.len() == 0 {
            match self.mode {
                Mode::NonBlocking => Err(TransportError::WouldBlock),
                Mode::BlockingWithTimeout(_) => Err(TransportError::Timeout),
            }
        } else {
            let arrived = self.inbox[0];
            let n = if arrived.payload.len() <= capacity { arrived.payload.len() } else { capacity };
            Ok((n, arrived.peer))
        }
    }

    /// The time that a receive waits: the whole time limit where a blocking
    /// endpoint has nothing to read, and none in every other case, in which
    /// the receive returns at once.
    pub open spec fn recv_wait(self) -> Option<Timeout> {
        if self.open && self.inbox.len() == 0 {
            match self.mode {
                Mode::NonBlocking => None,
                Mode::BlockingWithTimeout(limit) => Some(limit),
            }
        } else {
            None
        }
    }

    /// The endpoint after a receive: without the oldest datagram of its
    /// inbox where there was one to read, and with the time that the receive
    /// waited.
    pub open spec fn after_recv_from(self) -> EndpointState {
        if self.open && self.inbox.len() > 0 {
            EndpointState { inbox: self.inbox.skip(1), last_wait: None, ..self }
        } else {
            EndpointState { last_wait: self.recv_wait(), ..self }
        }
    }

    /// What the buffer `buf` holds after a receive into it.
    pub open spec fn recv_buffer(self, buf: Seq<u8>) -> Seq<u8> {
        if self.open && self.inbox.len() > 0 {
            received_into(buf, self.inbox[0].payload)
        } else {
            buf
        }
    }

    /// What sending `payload` returns: its length, unless the endpoint is
    /// closed or the payload is larger than a datagram can be.
    pub open spec fn send_to(self, payload: Seq<u8>) -> Result<nat, TransportError> {
        if self.open && payload.len() <= MAX_DATAGRAM {
            Ok(payload.len())
        } else {
            Err(TransportError::Send(None))
        }
    }

    /// The endpoint after sending `payload` to `dest`: with the datagram at
    /// the end of its outbox where it was sent, as it was otherwise.
    pub open spec fn after_send_to(self, payload: Seq<u8>, dest: Address) -> EndpointState {
        if self.send_to(payload) is Ok {
            EndpointState { outbox: self.outbox.push(Packet { payload, peer: dest }), ..self }
        } else {
            self
        }
    }

    /// The endpoint after the harness has delivered `payload` from `source`:
    /// with the datagram at the end of its inbox, unless it is closed.
    pub open spec fn after_deliver(self, payload: Seq<u8>, source: Address) -> EndpointState {
        if self.open {
            EndpointState { inbox: self.inbox.push(Packet { payload, peer: source }), ..self }
        } else {
            self
        }
    }

    /// The oldest datagram of the outbox, which the harness takes next.
    pub open spec fn take_sent(self) -> Option<Packet> {
        if self.outbox.len() > 0 {
            Some(self.outbox[0])
        } else {
            None
        }
    }

    /// The endpoint after the harness has taken that datagram.
    pub open spec fn after_take_sent(self) -> EndpointState {
        if self.outbox.len() > 0 {
            EndpointState { outbox: self.outbox.skip(1), ..self }
        } else {
            self
        }
    }

    /// The endpoint after it was closed: what waited in its inbox is gone;
    /// what it sent is still on its way.
    pub open spec fn after_close(self) -> EndpointState {
        EndpointState { open: false, inbox: Seq::empty(), ..self }
    }

    /// What holds of every endpoint: its mode is a valid one, and its port is
    /// a real port.
    pub open spec fn valid(self) -> bool {
        self.mode.valid() && self.local.port != 0
    }
}

/// Copies as much of `payload` as fits to the front of `buf` and returns the
/// number of bytes copied.
fn copy_into(buf: &mut [u8], payload: &Vec<u8>) -> (n: usize)
    ensures
        n == (if payload@.len() <= old(buf)@.len() { payload@.len() } else { old(buf)@.len() }),
        final(buf)@ == received_into(old(buf)@, payload@),
{
    let n: usize = if payload.len() <= buf.len() { payload.len() } else { buf.len() };
    let mut i: usize = 0;
    while i < n
        invariant
            i <= n,
            n <= payload@.len(),
            n <= buf@.len(),
            buf@.len() == old(buf)@.len(),
            forall|k: int| 0 <= k < i ==> buf@[k] == payload@[k],
            forall|k: int| i <= k < buf@.len() ==> buf@[k] == old(buf)@[k],
        decreases n - i,
    {
        buf[i] = payload[i];
        i = i + 1;
    }
    assert(buf@ =~= received_into(old(buf)@, payload@));
    n
}

/// Where an endpoint is bound and how it waits: a real port and a valid mode.
#[derive(Debug)]
struct Station {
    local: Address,
    mode: Mode,
}

impl Station {
    #[verifier::type_invariant]
    spec fn well_formed(self) -> bool {
        self.mode.valid() && self.local.port != 0
    }
}

/// An endpoint in memory.
#[derive(Debug)]
pub struct MemorySocket {
    station: Station,
    open: bool,
    inbox: VecDeque<Datagram>,
    outbox: VecDeque<Datagram>,
    last_wait: Option<Timeout>,
}

impl View for MemorySocket {
    type V = EndpointState;

    closed spec fn view(&self) -> EndpointState {
        EndpointState {
            local: self.station.local,
            mode: self.station.mode,
            open: self.open,
            inbox: packets(self.inbox@),
            outbox: packets(self.outbox@),
            last_wait: self.last_wait,
        }
    }
}

impl MemorySocket {
    /// The timing mode that the endpoint is in.
    pub fn timing(&self) -> (r: Mode)
        ensures
            r == self@.mode,
            self@.valid(),
    {
        proof {
            use_type_invariant(&self.station);
        }
        self.station.mode
    }

    /// Whether the endpoint is still open.
    pub fn is_open(&self) -> (r: bool)
        ensures
            r == self@.open,
    {
        self.open
    }

    /// The number of datagrams that wait to be received.
    pub fn pending(&self) -> (r: usize)
        ensures
            r == self@.inbox.len(),
    {
        self.inbox.len()
    }

    /// The time that the last receive waited; none where it returned at once
    /// or nothing was received yet.
    pub fn last_wait(&self) -> (r: Option<Timeout>)
        ensures
            r == self@.last_wait,
    {
        self.last_wait
    }

    /// Delivers a datagram with the bytes `payload` from `source` to the
    /// endpoint, to be received after those that wait already. A closed
    /// endpoint takes nothing; the result says whether the datagram was
    /// taken.
    pub fn deliver(&mut self, payload: &[u8], source: Address) -> (r: bool)
        ensures
            r == old(self)@.open,
            final(self)@ == old(self)@.after_deliver(payload@, source),
    {
        if !self.open {
            return false;
        }
        let ghost before = self.inbox@;
        let datagram = Datagram { payload: slice_to_vec(payload), peer: source };
        self.inbox.push_back(datagram);
        assert(packets(self.inbox@) =~= packets(before).push(datagram@));
        true
    }

    /// Takes the oldest datagram that the endpoint has sent and that was not
    /// taken yet; its peer is the address it was sent to.
    pub fn take_sent(&mut self) -> (r: Option<Datagram>)
        ensures
            r is Some <==> old(self)@.take_sent() is Some,
            r matches Some(d) ==> Some(d@) == old(self)@.take_sent(),
            final(self)@ == old(self)@.after_take_sent(),
    {
        let ghost before = self.outbox@;
        let oldest = self.outbox.pop_front();
        assert(oldest is Some ==> packets(self.outbox@) =~= packets(before).skip(1));
        oldest
    }

    /// Closes the endpoint. Every later operation on it fails, and what
    /// waited to be received is gone.
    pub fn close(&mut self)
        ensures
            final(self)@ == old(self)@.after_close(),
    {
        self.open = false;
        self.inbox.clear();
        assert(packets(self.inbox@) =~= Seq::<Packet>::empty());
    }
}

impl Endpoint for MemorySocket {
    open spec fn local(&self) -> Address {
        self@.local
    }

    open spec fn mode(&self) -> Mode {
        self@.mode
    }
}

impl SocketProvider<MemorySocket> for MemorySocket {
    /// Always succeeds: in memory every address is free.
    fn bind(addr: &Address) -> (r: Result<MemorySocket, TransportError>)
        ensures
            r matches Ok(socket) && socket@ == EndpointState::bound(*addr),
    {
        let local = if addr.port == 0 {
            Address { ip: addr.ip, port: ASSIGNED_PORT }
        } else {
            *addr
        };
        let socket = MemorySocket {
            station: Station { local, mode: Mode::NonBlocking },
            open: true,
            inbox: VecDeque::new(),
            outbox: VecDeque::new(),
            last_wait: None,
        };
        assert(socket@.inbox =~= Seq::<Packet>::empty());
        assert(socket@.outbox =~= Seq::<Packet>::empty());
        Ok(socket)
    }

    fn local_addr(&self) -> (r: Result<Address, TransportError>)
        ensures
            r == self@.local_addr(),
    {
        if self.open {
            Ok(self.station.local)
        } else {
            Err(TransportError::Query(None))
        }
    }

    fn set_recv_timeout(&mut self, duration: Option<Timeout>) -> (r: Result<(), TransportError>)
        ensures
            r == old(self)@.set_recv_timeout(duration),
            final(self)@ == old(self)@.after_set_recv_timeout(duration),
    {
        proof {
            use_type_invariant(&self.station);
        }
        let accepted = self.open && match duration {
            Some(limit) => !limit.is_zero(),
            None => true,
        };
        let mode = self.station.mode.after_request(duration, accepted);
        self.station = Station { local: self.station.local, mode };
        if accepted {
            Ok(())
        } else {
            Err(TransportError::Mode(None))
        }
    }

    fn recv_from(&mut self, buf: &mut [u8]) -> (r: Result<(usize, Address), TransportError>)
        ensures
            (match old(self)@.recv_from(old(buf)@.len()) {
                Ok((n, source)) => r == Ok::<(usize, Address), TransportError>((n as usize, source)),
                Err(e) => r == Err::<(usize, Address), TransportError>(e),
            }),
            final(self)@ == old(self)@.after_recv_from(),
            final(buf)@ == old(self)@.recv_buffer(old(buf)@),
    {
        if !self.open {
            self.last_wait = None;
            return Err(TransportError::Receive(None));
        }
        let ghost before = self.inbox@;
        match self.inbox.pop_front() {
            Some(datagram) => {
                assert(packets(self.inbox@) =~= packets(before).skip(1));
                self.last_wait = None;
                let n = copy_into(buf, &datagram.payload);
                Ok((n, datagram.peer))
            },
            None => match self.station.mode {
                Mode::NonBlocking => {
                    self.last_wait = None;
                    Err(TransportError::WouldBlock)
                },
                Mode::BlockingWithTimeout(limit) => {
                    self.last_wait = Some(limit);
                    Err(TransportError::Timeout)
                },
            },
        }
    }

    fn send_to(&mut self, buf: &[u8], addr: &Address) -> (r: Result<usize, TransportError>)
        ensures
            (match old(self)@.send_to(buf@) {
                Ok(n) => r == Ok::<usize, TransportError>(n as usize),
                Err(e) => r == Err::<usize, TransportError>(e),
            }),
            final(self)@ == old(self)@.after_send_to(buf@, *addr),
    {
        if !self.open || buf.len() > MAX_DATAGRAM {
            return Err(TransportError::Send(None));
        }
        let ghost before = self.outbox@;
        let datagram = Datagram { payload: slice_to_vec(buf), peer: *addr };
        self.outbox.push_back(datagram);
        assert(packets(self.outbox@) =~= packets(before).push(datagram@));
        Ok(buf.len())
    }
}

/// An endpoint reports the address it asked for: the same host address, the
/// same port where it asked for one, and a real port where it asked for port
/// `0`.
pub proof fn law_bind_keeps_address(requested: Address)
    ensures
        (EndpointState::bound(requested).local_addr() matches Ok(addr) && {
            &&& addr.ip == requested.ip
            &&& requested.port != 0 ==> addr.port == requested.port
            &&& addr.port != 0
        }),
{
}

/// An endpoint never changes its local address: whatever is done with it, it
/// stays where it was bound.
pub proof fn law_address_is_fixed(
    e: EndpointState,
    duration: Option<Timeout>,
    payload: Seq<u8>,
    peer: Address,
)
    ensures
        e.after_set_recv_timeout(duration).local == e.local,
        e.after_recv_from().local == e.local,
        e.after_send_to(payload, peer).local == e.local,
        e.after_deliver(payload, peer).local == e.local,
        e.after_take_sent().local == e.local,
        e.after_close().local == e.local,
{
}

/// Every endpoint is valid: it is created valid and stays so, whatever is
/// done with it.
pub proof fn law_endpoint_stays_valid(
    e: EndpointState,
    requested: Address,
    duration: Option<Timeout>,
    payload: Seq<u8>,
    peer: Address,
)
    requires
        e.valid(),
    ensures
        EndpointState::bound(requested).valid(),
        e.after_set_recv_timeout(duration).valid(),
        e.after_recv_from().valid(),
        e.after_send_to(payload, peer).valid(),
        e.after_deliver(payload, peer).valid(),
        e.after_take_sent().valid(),
        e.after_close().valid(),
{
}

/// A change of mode is whole. Where it is accepted, the next receive goes by
/// the new mode: on an empty inbox it would block once non-blocking mode was
/// asked for and times out once a time limit was. Where it is refused, the
/// endpoint is as it was. Either way no datagram that waits or was sent is
/// lost or altered.
pub proof fn law_mode_change_is_whole(e: EndpointState, duration: Option<Timeout>)
    ensures
        ({
            let after = e.after_set_recv_timeout(duration);
            &&& e.set_recv_timeout(duration) is Ok ==> after.mode == Mode::selected_by(duration)
            &&& e.set_recv_timeout(duration) is Err ==> after == e
            &&& after.inbox == e.inbox && after.outbox == e.outbox
            &&& e.set_recv_timeout(duration) is Ok && e.inbox.len() == 0 ==> forall|capacity: nat|
                #[trigger] after.recv_from(capacity) == if duration is None {
                    Err::<(nat, Address), TransportError>(TransportError::WouldBlock)
                } else {
                    Err::<(nat, Address), TransportError>(TransportError::Timeout)
                }
        }),
{
}

/// Asking for the same mode twice is the same as asking once: the second
/// request is answered as the first was and leaves the endpoint as the first
/// left it. This holds of non-blocking mode in particular.
pub proof fn law_mode_change_is_idempotent(e: EndpointState, duration: Option<Timeout>)
    ensures
        ({
            let once = e.after_set_recv_timeout(duration);
            &&& once.set_recv_timeout(duration) == e.set_recv_timeout(duration)
            &&& once.after_set_recv_timeout(duration) == once
        }),
{
}

/// The last mode asked for is the mode: once a later request is accepted,
/// the endpoint is as if the earlier request had never been made. Going to
/// another mode and back leaves no trace.
pub proof fn law_last_mode_wins(e: EndpointState, earlier: Option<Timeout>, later: Option<Timeout>)
    requires
        e.set_recv_timeout(later) is Ok,
    ensures
        e.after_set_recv_timeout(earlier).after_set_recv_timeout(later) == e.after_set_recv_timeout(
            later,
        ),
{
}

/// In non-blocking mode a receive on an open endpoint with nothing in its
/// inbox would block, and says so at once: it does not wait at all. The
/// buffer is as it was, and so is the endpoint but for the note of the wait.
pub proof fn law_nonblocking_receive_returns_at_once(e: EndpointState, buf: Seq<u8>)
    requires
        e.open,
        e.inbox.len() == 0,
        e.mode is NonBlocking,
    ensures
        e.recv_from(buf.len()) == Err::<(nat, Address), TransportError>(TransportError::WouldBlock),
        e.recv_wait() is None,
        e.after_recv_from() == (EndpointState { last_wait: None, ..e }),
        e.recv_buffer(buf) == buf,
{
}

/// In blocking mode with the time limit `limit` a receive on an open endpoint
/// with nothing in its inbox times out, after a wait of `limit`: no shorter
/// and no longer. The buffer is as it was, and so is the endpoint but for the
/// note of the wait.
pub proof fn law_blocking_receive_waits_its_limit(e: EndpointState, limit: Timeout, buf: Seq<u8>)
    requires
        e.open,
        e.inbox.len() == 0,
        e.mode == Mode::BlockingWithTimeout(limit),
    ensures
        e.recv_from(buf.len()) == Err::<(nat, Address), TransportError>(TransportError::Timeout),
        e.recv_wait() == Some(limit),
        e.after_recv_from() == (EndpointState { last_wait: Some(limit), ..e }),
        e.recv_buffer(buf) == buf,
{
}

/// A receive that finds a datagram, or finds the endpoint closed, returns at
/// once in either mode.
pub proof fn law_receive_waits_only_for_a_datagram(e: EndpointState)
    requires
        !e.open || e.inbox.len() > 0,
    ensures
        e.recv_wait() is None,
        e.after_recv_from().last_wait is None,
{
}

/// A receive takes at most one datagram, the oldest, and copies no more of
/// it than the buffer holds: the length it returns is the smaller of the two
/// lengths, the bytes copied are the front of the datagram, and the buffer
/// behind them is untouched.
pub proof fn law_receive_takes_one_datagram(e: EndpointState, buf: Seq<u8>)
    requires
        e.open,
        e.inbox.len() > 0,
    ensures
        e.after_recv_from().inbox == e.inbox.skip(1),
        (e.recv_from(buf.len()) matches Ok((n, source)) && {
            &&& source == e.inbox[0].peer
            &&& n <= buf.len()
            &&& n <= e.inbox[0].payload.len()
            &&& n == buf.len() || n == e.inbox[0].payload.len()
            &&& e.recv_buffer(buf).len() == buf.len()
            &&& e.recv_buffer(buf).take(n as int) == e.inbox[0].payload.take(n as int)
            &&& e.recv_buffer(buf).skip(n as int) == buf.skip(n as int)
        }),
{
    let payload = e.inbox[0].payload;
    let n = if payload.len() <= buf.len() { payload.len() } else { buf.len() };
    let filled = received_into(buf, payload);
    assert(filled.take(n as int) =~= payload.take(n as int));
    assert(filled.skip(n as int) =~= buf.skip(n as int));
}

/// A datagram makes the round trip unchanged. Let `x` send `payload` to the
/// address of `y`, and let the harness carry what `x` sent to `y`, where
/// nothing else waits. Then the datagram stands last in the outbox of `x`,
/// addressed to `y`, and the next receive on `y` returns the address of `x`
/// and the bytes of the payload: all of them where the buffer holds them, and
/// as many as the buffer holds otherwise.
pub proof fn law_round_trip(x: EndpointState, y: EndpointState, payload: Seq<u8>, buf: Seq<u8>)
    requires
        x.open,
        y.open,
        y.inbox.len() == 0,
        payload.len() <= MAX_DATAGRAM,
    ensures
        x.send_to(payload) == Ok::<nat, TransportError>(payload.len()),
        x.after_send_to(payload, y.local).outbox.last() == (Packet { payload, peer: y.local }),
        x.outbox.len() == 0 ==> x.after_send_to(payload, y.local).take_sent() == Some(
            Packet { payload, peer: y.local },
        ),
        ({
            let arrived = y.after_deliver(payload, x.local);
            let n = if payload.len() <= buf.len() { payload.len() } else { buf.len() };
            &&& arrived.recv_from(buf.len()) == Ok::<(nat, Address), TransportError>((n, x.local))
            &&& arrived.recv_buffer(buf).take(n as int) == payload.take(n as int)
            &&& payload.len() <= buf.len() ==> arrived.recv_buffer(buf).take(n as int) == payload
            &&& arrived.after_recv_from() == (EndpointState { last_wait: None, ..y })
        }),
{
    let arrived = y.after_deliver(payload, x.local);
    let n = if payload.len() <= buf.len() { payload.len() } else { buf.len() };
    assert(arrived.inbox.skip(1) =~= y.inbox);
    assert(arrived.recv_buffer(buf).take(n as int) =~= payload.take(n as int));
    if payload.len() <= buf.len() {
        assert(payload.take(n as int) =~= payload);
    }
}

/// Datagrams keep their order. One that is delivered to an endpoint waits
/// behind all that wait already, and one that the endpoint sends is taken
/// after all that it sent before; the oldest is received, and taken, first.
pub proof fn law_queues_keep_order(e: EndpointState, payload: Seq<u8>, peer: Address)
    requires
        e.open,
        payload.len() <= MAX_DATAGRAM,
    ensures
        e.after_deliver(payload, peer).inbox == e.inbox.push(Packet { payload, peer }),
        e.after_send_to(payload, peer).outbox == e.outbox.push(Packet { payload, peer }),
        e.inbox.len() > 0 ==> e.after_deliver(payload, peer).after_recv_from().inbox
            == e.after_recv_from().inbox.push(Packet { payload, peer }),
        e.outbox.len() > 0 ==> e.after_send_to(payload, peer).take_sent() == e.take_sent(),
        e.outbox.len() > 0 ==> e.after_send_to(payload, peer).after_take_sent().outbox
            == e.after_take_sent().outbox.push(Packet { payload, peer }),
{
    let packet = Packet { payload, peer };
    if e.inbox.len() > 0 {
        assert(e.inbox.push(packet).skip(1) =~= e.inbox.skip(1).push(packet));
    }
    if e.outbox.len() > 0 {
        assert(e.outbox.push(packet).skip(1) =~= e.outbox.skip(1).push(packet));
    }
}

/// A closed endpoint does nothing: every operation on it fails with the error
/// of its own kind, none of them a signal to try again, and leaves it as it
/// is.
pub proof fn law_closed_endpoint_fails(
    e: EndpointState,
    duration: Option<Timeout>,
    payload: Seq<u8>,
    peer: Address,
    buf: Seq<u8>,
)
    requires
        !e.open,
    ensures
        e.local_addr() == Err::<Address, TransportError>(TransportError::Query(None)),
        e.set_recv_timeout(duration) == Err::<(), TransportError>(TransportError::Mode(None)),
        e.recv_from(buf.len()) == Err::<(nat, Address), TransportError>(TransportError::Receive(None)),
        e.send_to(payload) == Err::<nat, TransportError>(TransportError::Send(None)),
        e.after_set_recv_timeout(duration) == e,
        e.after_recv_from() == (EndpointState { last_wait: None, ..e }),
        e.recv_buffer(buf) == buf,
        e.after_send_to(payload, peer) == e,
        e.after_deliver(payload, peer) == e,
{
}

} // verus!
