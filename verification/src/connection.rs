//! The runtime of one connection, as a state machine without I/O.
//!
//! The connection decides; its driver performs. A driver hands packets to
//! `send_packet`, runs a write loop that asks `next_outgoing` what to write
//! and reports back with `write_completed` and `flush_completed`, and runs a
//! read loop that hands each frame to `on_frame`. Whatever the driver has to
//! do with a socket, a timer or a waiting caller is returned to it as a
//! value.
//!
//! `R` is the slot through which the reply to a request reaches its caller,
//! `C` the callback to run when the connection closes.

use crate::binary::bits_i32;
use crate::config::TransferConfig;
use crate::error::{SocketError, SocketResult};
use crate::protocol::{
    decode_frame, decode_frame_length, encode_frame, frame_bytes, parse_body, Frame, PacketType,
    HEADER_SIZE, MAX_PAYLOAD_SIZE,
};
use crate::binary::le_value;
use std::collections::HashMap;
use std::collections::VecDeque;
use vstd::prelude::*;
use vstd::std_specs::hash::*;

verus! {

broadcast use vstd::std_specs::hash::group_hash_axioms;

/// Where a connection is in its life. `Closing` is the last state: a
/// connection never leaves it.
#[derive(Debug, Clone, Copy, PartialEq, Eq, Structural)]
pub enum ConnectionState {
    Disconnected,
    Connecting,
    Connected,
    Authenticated,
    Closing,
}

/// Who is at the other end, once they have authenticated.
#[derive(Debug)]
pub struct UserInfo {
    pub id: String,
    pub name: String,
}

impl Default for UserInfo {
    fn default() -> (u: Self)
        ensures
            u.id@ == Seq::<char>::empty(),
            u.name@ == Seq::<char>::empty(),
    {
        UserInfo { id: String::new(), name: String::new() }
    }
}

impl Clone for UserInfo {
    fn clone(&self) -> (u: Self)
        ensures
            u == *self,
    {
        UserInfo { id: self.id.clone(), name: self.name.clone() }
    }
}

/// A packet in the outgoing queue as contracts see it.
pub struct PacketView {
    pub data: Seq<u8>,
    pub holds_permit: bool,
}

/// A framed packet on its way to the socket. A chunk of file data holds one
/// of the connection's chunk permits for as long as it is on its way. A
/// packet without bytes is the sentinel that ends the write loop.
#[derive(Debug)]
pub struct OutgoingPacket {
    pub data: Vec<u8>,
    pub holds_permit: bool,
}

impl View for OutgoingPacket {
    type V = PacketView;

    open spec fn view(&self) -> PacketView {
        PacketView { data: self.data@, holds_permit: self.holds_permit }
    }
}

impl OutgoingPacket {
    pub fn new(data: Vec<u8>, holds_permit: bool) -> (p: Self)
        ensures
            p.data == data,
            p.holds_permit == holds_permit,
    {
        OutgoingPacket { data, holds_permit }
    }

    pub fn sentinel() -> (p: Self)
        ensures
            p@ == sentinel_view(),
    {
        let p = OutgoingPacket { data: Vec::new(), holds_permit: false };
        assert(p@.data =~= Seq::<u8>::empty());
        p
    }
}

/// The sentinel as contracts see it: no bytes, no permit.
pub open spec fn sentinel_view() -> PacketView {
    PacketView { data: Seq::<u8>::empty(), holds_permit: false }
}

/// How many of the packets hold a chunk permit.
pub open spec fn permits_held(q: Seq<PacketView>) -> nat
    decreases q.len(),
{
    if q.len() == 0 {
        0
    } else {
        permits_held(q.drop_last()) + if q.last().holds_permit {
            1nat
        } else {
            0nat
        }
    }
}

/// The bytes of the packets, in the order of the packets.
pub open spec fn wire_of(q: Seq<PacketView>) -> Seq<u8>
    decreases q.len(),
{
    if q.len() == 0 {
        Seq::<u8>::empty()
    } else {
        wire_of(q.drop_last()) + q.last().data
    }
}

/// What a packet adds to a queue when it is put behind the others.
pub proof fn lemma_queue_push(q: Seq<PacketView>, p: PacketView)
    ensures
        permits_held(q.push(p)) == permits_held(q) + if p.holds_permit {
            1nat
        } else {
            0nat
        },
        wire_of(q.push(p)) == wire_of(q) + p.data,
{
    assert(q.push(p).drop_last() =~= q);
}

/// What the first packet of a queue takes with it when it leaves.
pub proof fn lemma_queue_pop(q: Seq<PacketView>)
    requires
        q.len() > 0,
    ensures
        permits_held(q) == permits_held(q.drop_first()) + if q[0].holds_permit {
            1nat
        } else {
            0nat
        },
        wire_of(q) == q[0].data + wire_of(q.drop_first()),
    decreases q.len(),
{
    if q.len() == 1 {
        assert(q.drop_last() =~= Seq::<PacketView>::empty());
        assert(q.drop_first() =~= Seq::<PacketView>::empty());
        assert(wire_of(q) =~= q[0].data + wire_of(q.drop_first()));
    } else {
        lemma_queue_pop(q.drop_last());
        assert(q.drop_last().drop_first() =~= q.drop_first().drop_last());
        assert(q.drop_first().last() == q.last());
        assert(q.drop_last()[0] == q[0]);
        assert(wire_of(q) =~= q[0].data + wire_of(q.drop_first()));
    }
}

/// The state of a connection as contracts see it.
pub struct ConnectionView<R, C> {
    pub id: Seq<char>,
    pub state: ConnectionState,
    pub user: Option<UserInfo>,
    /// The counter from which the next request id is taken.
    pub next_request: u32,
    /// Set by either way of closing; no packet is accepted once it is set.
    pub closing: bool,
    /// Set by `close` alone, once and for all.
    pub closed: bool,
    pub active_send_batches: usize,
    /// The packets accepted and not yet handed to the write loop, oldest
    /// first.
    pub outgoing: Seq<PacketView>,
    /// The packet that the write loop is writing: its length and whether it
    /// holds a permit.
    pub writing: Option<(usize, bool)>,
    pub bytes_since_flush: usize,
    /// The requests that await a reply, each with the slot for it.
    pub pending: Map<i32, R>,
    pub on_close: Option<C>,
    /// How many packets the queue takes.
    pub capacity: usize,
    /// How many chunk permits there are.
    pub max_in_flight: usize,
    pub flush_threshold: usize,
    /// All the bytes ever accepted for sending, in the order of acceptance.
    pub sent: Seq<u8>,
    /// All the bytes ever handed to the write loop, in the order of handing.
    pub written: Seq<u8>,
    /// The bytes that were still queued when the connection was closed
    /// without a flush.
    pub discarded: Seq<u8>,
}

impl<R, C> ConnectionView<R, C> {
    /// The chunk permits in use: those of queued packets and that of the
    /// packet being written.
    pub open spec fn in_flight(self) -> nat {
        permits_held(self.outgoing) + if self.writing matches Some((_, true)) {
            1nat
        } else {
            0nat
        }
    }

    /// What holds of every connection at every time.
    pub open spec fn valid(self) -> bool {
        &&& self.closed ==> self.closing
        &&& self.closing <==> self.state == ConnectionState::Closing
        &&& self.closed ==> self.on_close is None
        &&& 1 <= self.max_in_flight
        &&& self.in_flight() <= self.max_in_flight
        &&& self.outgoing.len() <= self.capacity + 1
        &&& !self.closing ==> self.outgoing.len() <= self.capacity
        &&& !self.closed ==> self.discarded.len() == 0
        &&& forall|i: int|
            0 <= i < self.outgoing.len() - 1 ==> (#[trigger] self.outgoing[i]).data.len() > 0
        &&& self.outgoing.len() > 0 && self.outgoing.last().data.len() == 0 ==> self.closing
            && !self.outgoing.last().holds_permit
        &&& self.sent == self.written + wire_of(self.outgoing) + self.discarded
    }

    /// The answer to an attempt to send a packet of the given type with a
    /// payload of the given length.
    pub open spec fn send_verdict(self, packet_type: PacketType, payload_len: nat) -> SendVerdict {
        if self.closing {
            SendVerdict::Closed
        } else if payload_len > MAX_PAYLOAD_SIZE {
            SendVerdict::TooLarge
        } else if packet_type == PacketType::FileChunk && self.in_flight() >= self.max_in_flight {
            SendVerdict::AwaitPermit
        } else if self.outgoing.len() >= self.capacity {
            SendVerdict::AwaitCapacity
        } else {
            SendVerdict::Accept
        }
    }

    /// The connection with one more packet accepted.
    pub open spec fn with_packet(self, packet_type: PacketType, request_id: i32, payload: Seq<u8>)
        -> Self {
        let data = frame_bytes(packet_type, request_id, payload);
        ConnectionView {
            outgoing: self.outgoing.push(
                PacketView { data, holds_permit: packet_type == PacketType::FileChunk },
            ),
            sent: self.sent + data,
            ..self
        }
    }

    /// The connection after `close`.
    pub open spec fn after_close(self) -> Self {
        ConnectionView {
            closing: true,
            closed: true,
            state: ConnectionState::Closing,
            on_close: None,
            ..self
        }
    }

    /// The connection after `close_after_flush`.
    pub open spec fn after_close_after_flush(self) -> Self {
        if self.closing {
            self
        } else {
            ConnectionView {
                closing: true,
                state: ConnectionState::Closing,
                outgoing: self.outgoing.push(sentinel_view()),
                ..self
            }
        }
    }
}

/// The counter after one more request id was taken from it.
pub open spec fn next_counter(counter: u32) -> u32 {
    if counter == u32::MAX {
        0
    } else {
        (counter + 1) as u32
    }
}

/// The answers to an attempt to send.
pub enum SendVerdict {
    Closed,
    TooLarge,
    AwaitPermit,
    AwaitCapacity,
    Accept,
}

/// What became of a packet that was to be sent.
#[derive(Debug, Clone, Copy, PartialEq, Eq, Structural)]
pub enum SendOutcome {
    /// The packet is queued.
    Queued,
    /// The packet is a chunk and every chunk permit is in use: try again
    /// when a chunk has been written.
    AwaitPermit,
    /// The queue is full: try again when a packet has been written.
    AwaitCapacity,
}

/// What became of a request.
#[derive(Debug)]
pub enum RequestOutcome<R> {
    /// The request is queued and its reply slot is registered.
    Sent { request_id: i32 },
    /// The reply slot is registered, and the packet is to be sent again under
    /// the same id with `send_packet_with_id`.
    Blocked { request_id: i32, outcome: SendOutcome },
    /// Nothing was sent and the reply slot is handed back.
    Failed { error: SocketError, slot: R },
}

/// What a close asks of the driver.
pub struct CloseOutcome<C> {
    /// Whether this call was the one that closed the connection.
    pub first: bool,
    /// The callback to run with the connection's id.
    pub on_close: Option<C>,
    /// Whether the socket's write half is to be shut down.
    pub shutdown_writer: bool,
}

/// What the read loop is to do with a frame.
pub enum Incoming<R> {
    /// The body is shorter than a header: the frame is passed over.
    TooShort { length: usize },
    /// The frame answers a pending request: the payload goes through the
    /// slot and is not routed.
    Reply { request_id: i32, slot: R, payload: Vec<u8> },
    /// The frame is a packet for the router.
    Packet(Frame),
}

/// What the write loop is to do next.
pub enum WriteStep {
    /// A write is still unreported.
    Busy,
    /// Nothing is queued. With bytes pending, they are to be flushed when the
    /// flush interval has passed since the last flush.
    Idle { flush_pending: bool },
    /// These bytes are to be written, and the result reported with
    /// `write_completed`.
    Write { data: Vec<u8> },
    /// The loop is over: flush what can be flushed, and end with
    /// `write_loop_ended`.
    Finish,
}

/// What the write loop is to do after a write.
#[derive(Debug, Clone, Copy, PartialEq, Eq, Structural)]
pub enum AfterWrite {
    /// Go on with the next packet.
    Continue,
    /// Flush, report with `flush_completed`, then go on.
    Flush,
    /// The write failed: the loop is over.
    Stop,
}

/// The state of one connection and the decisions on it. It performs no I/O:
/// see the head of this file for how it is driven.
pub struct Connection<R, C> {
    id: String,
    state: ConnectionState,
    user: Option<UserInfo>,
    request_id_counter: u32,
    closing: bool,
    closed: bool,
    active_send_batches: usize,
    outgoing: VecDeque<OutgoingPacket>,
    writing: Option<(usize, bool)>,
    chunks_in_flight: usize,
    bytes_since_flush: usize,
    pending_requests: HashMap<i32, R>,
    on_close: Option<C>,
    capacity: usize,
    max_in_flight: usize,
    flush_threshold: usize,
    sent: Ghost<Seq<u8>>,
    written: Ghost<Seq<u8>>,
    discarded: Ghost<Seq<u8>>,
}

impl<R, C> View for Connection<R, C> {
    type V = ConnectionView<R, C>;

    closed spec fn view(&self) -> ConnectionView<R, C> {
        ConnectionView {
            id: self.id@,
            state: self.state,
            user: self.user,
            next_request: self.request_id_counter,
            closing: self.closing,
            closed: self.closed,
            active_send_batches: self.active_send_batches,
            outgoing: self.outgoing@.map_values(|p: OutgoingPacket| p@),
            writing: self.writing,
            bytes_since_flush: self.bytes_since_flush,
            pending: self.pending_requests@,
            on_close: self.on_close,
            capacity: self.capacity,
            max_in_flight: self.max_in_flight,
            flush_threshold: self.flush_threshold,
            sent: self.sent@,
            written: self.written@,
            discarded: self.discarded@,
        }
    }
}

/// The length of the body that a frame's prefix announces. A body that no
/// frame can have is refused.
pub fn frame_body_length(prefix: &[u8; 4]) -> (res: SocketResult<usize>)
    ensures
        match res {
            Ok(n) => n == le_value(prefix@) && n <= HEADER_SIZE + MAX_PAYLOAD_SIZE,
            Err(e) => le_value(prefix@) > HEADER_SIZE + MAX_PAYLOAD_SIZE && e
                == SocketError::PacketTooLarge(le_value(prefix@) as usize),
        },
{
    let n = decode_frame_length(prefix);
    if n as usize > HEADER_SIZE + MAX_PAYLOAD_SIZE {
        Err(SocketError::PacketTooLarge(n as usize))
    } else {
        Ok(n as usize)
    }
}

impl<R, C> Connection<R, C> {
    /// The state is one that the operations below keep.
    pub closed spec fn wf(&self) -> bool {
        &&& self@.valid()
        &&& self.chunks_in_flight == self@.in_flight()
    }

    /// A connection in a state that the operations keep is one of which
    /// everything said by `ConnectionView::valid` holds.
    pub proof fn lemma_wf_is_valid(&self)
        requires
            self.wf(),
        ensures
            self@.valid(),
    {
    }

    /// A connection that has just been established: connected, nothing
    /// queued, nothing pending, the first request id 1. There is always at
    /// least one chunk permit.
    pub fn new(id: String, config: TransferConfig) -> (c: Self)
        ensures
            c.wf(),
            c@.id == id@,
            c@.state == ConnectionState::Connected,
            c@.user is None,
            c@.next_request == 1,
            !c@.closing,
            !c@.closed,
            c@.active_send_batches == 0,
            c@.outgoing == Seq::<PacketView>::empty(),
            c@.writing is None,
            c@.bytes_since_flush == 0,
            c@.pending == Map::<i32, R>::empty(),
            c@.on_close is None,
            c@.capacity == config.outgoing_channel_size,
            c@.max_in_flight == if config.max_in_flight_chunks >= 1 {
                config.max_in_flight_chunks
            } else {
                1usize
            },
            c@.flush_threshold == config.flush_threshold,
            c@.sent == Seq::<u8>::empty(),
            c@.written == Seq::<u8>::empty(),
            c@.discarded == Seq::<u8>::empty(),
    {
        let max_in_flight = if config.max_in_flight_chunks >= 1 {
            config.max_in_flight_chunks
        } else {
            1
        };
        let c = Connection {
            id,
            state: ConnectionState::Connected,
            user: None,
            request_id_counter: 1,
            closing: false,
            closed: false,
            active_send_batches: 0,
            outgoing: VecDeque::new(),
            writing: None,
            chunks_in_flight: 0,
            bytes_since_flush: 0,
            pending_requests: HashMap::new(),
            on_close: None,
            capacity: config.outgoing_channel_size,
            max_in_flight,
            flush_threshold: config.flush_threshold,
            sent: Ghost(Seq::empty()),
            written: Ghost(Seq::empty()),
            discarded: Ghost(Seq::empty()),
        };
        proof {
            assert(c@.outgoing =~= Seq::<PacketView>::empty());
            assert(c@.sent =~= c@.written + wire_of(c@.outgoing) + c@.discarded);
        }
        c
    }

    /// Sets the callback that `close` hands out.
    pub fn set_on_close(&mut self, callback: C)
        requires
            old(self).wf(),
        ensures
            final(self).wf(),
            final(self)@ == (ConnectionView {
                on_close: if old(self)@.closed {
                    None
                } else {
                    Some(callback)
                },
                ..old(self)@
            }),
    {
        // A closed connection has run its callback, or had none: a later one
        // would never run.
        if !self.closed {
            self.on_close = Some(callback);
        }
    }

    pub fn id(&self) -> (id: &str)
        ensures
            id@ == self@.id,
    {
        self.id.as_str()
    }

    pub fn state(&self) -> (s: ConnectionState)
        ensures
            s == self@.state,
    {
        self.state
    }

    pub fn is_authenticated(&self) -> (b: bool)
        ensures
            b == (self@.state == ConnectionState::Authenticated),
    {
        self.state == ConnectionState::Authenticated
    }

    pub fn user(&self) -> (u: Option<UserInfo>)
        ensures
            u == self@.user,
    {
        match &self.user {
            Some(u) => Some(u.clone()),
            None => None,
        }
    }

    /// Records who the peer is. The connection becomes authenticated, unless
    /// it is closing: closing is final.
    pub fn set_authenticated(&mut self, user: UserInfo)
        requires
            old(self).wf(),
        ensures
            final(self).wf(),
            final(self)@ == (ConnectionView {
                user: Some(user),
                state: if old(self)@.closing {
                    ConnectionState::Closing
                } else {
                    ConnectionState::Authenticated
                },
                ..old(self)@
            }),
    {
        self.user = Some(user);
        if !self.closing {
            self.state = ConnectionState::Authenticated;
        }
    }

    /// Takes the next request id: the counter's value as a signed number.
    /// The counter starts again at 0 after `u32::MAX`.
    pub fn next_request_id(&mut self) -> (id: i32)
        requires
            old(self).wf(),
        ensures
            final(self).wf(),
            id == bits_i32(old(self)@.next_request),
            final(self)@ == (ConnectionView {
                next_request: next_counter(old(self)@.next_request),
                ..old(self)@
            }),
    {
        let counter = self.request_id_counter;
        self.request_id_counter = if counter == u32::MAX {
            0
        } else {
            counter + 1
        };
        if counter < 0x8000_0000 {
            counter as i32
        } else {
            (counter as i64 - 0x1_0000_0000) as i32
        }
    }

    /// Sends a packet under a new request id, which is taken whether or not
    /// the packet is accepted.
    pub fn send_packet(&mut self, packet_type: PacketType, payload: &[u8]) -> (res: SocketResult<
        (i32, SendOutcome),
    >)
        requires
            old(self).wf(),
        ensures
            final(self).wf(),
            ({
                let id = bits_i32(old(self)@.next_request);
                let before = ConnectionView {
                    next_request: next_counter(old(self)@.next_request),
                    ..old(self)@
                };
                match before.send_verdict(packet_type, payload@.len()) {
                    SendVerdict::Closed => res matches Err(SocketError::ConnectionClosed)
                        && final(self)@ == before,
                    SendVerdict::TooLarge => res matches Err(SocketError::PacketTooLarge(n)) && n
                        == payload@.len() && final(self)@ == before,
                    SendVerdict::AwaitPermit => res == Ok::<(i32, SendOutcome), SocketError>(
                        (id, SendOutcome::AwaitPermit),
                    ) && final(self)@ == before,
                    SendVerdict::AwaitCapacity => res == Ok::<(i32, SendOutcome), SocketError>(
                        (id, SendOutcome::AwaitCapacity),
                    ) && final(self)@ == before,
                    SendVerdict::Accept => res == Ok::<(i32, SendOutcome), SocketError>(
                        (id, SendOutcome::Queued),
                    ) && final(self)@ == before.with_packet(packet_type, id, payload@),
                }
            }),
    {
        let request_id = self.next_request_id();
        match self.send_packet_with_id(packet_type, request_id, payload) {
            Ok(outcome) => Ok((request_id, outcome)),
            Err(e) => Err(e),
        }
    }

    /// Sends a packet under the given request id. A closing connection
    /// accepts nothing. A chunk of file data needs a chunk permit, every
    /// packet needs room in the queue; where either is missing, nothing
    /// changes and the caller is told what to wait for.
    pub fn send_packet_with_id(
        &mut self,
        packet_type: PacketType,
        request_id: i32,
        payload: &[u8],
    ) -> (res: SocketResult<SendOutcome>)
        requires
            old(self).wf(),
        ensures
            final(self).wf(),
            match old(self)@.send_verdict(packet_type, payload@.len()) {
                SendVerdict::Closed => res matches Err(SocketError::ConnectionClosed) && final(self)@ == old(self)@,
                SendVerdict::TooLarge => res matches Err(SocketError::PacketTooLarge(n)) && n
                    == payload@.len() && final(self)@ == old(self)@,
                SendVerdict::AwaitPermit => res == Ok::<SendOutcome, SocketError>(
                    SendOutcome::AwaitPermit,
                ) && final(self)@ == old(self)@,
                SendVerdict::AwaitCapacity => res == Ok::<SendOutcome, SocketError>(
                    SendOutcome::AwaitCapacity,
                ) && final(self)@ == old(self)@,
                SendVerdict::Accept => res == Ok::<SendOutcome, SocketError>(SendOutcome::Queued)
                    && final(self)@ == old(self)@.with_packet(packet_type, request_id, payload@),
            },
    {
        if self.closing {
            return Err(SocketError::ConnectionClosed);
        }
        if payload.len() > MAX_PAYLOAD_SIZE {
            return Err(SocketError::PacketTooLarge(payload.len()));
        }
        let is_chunk = packet_type == PacketType::FileChunk;
        if is_chunk && self.chunks_in_flight >= self.max_in_flight {
            return Ok(SendOutcome::AwaitPermit);
        }
        if self.outgoing.len() >= self.capacity {
            return Ok(SendOutcome::AwaitCapacity);
        }
        let data = match encode_frame(packet_type, request_id, payload) {
            Ok(data) => data,
            Err(e) => {
                return Err(e);
            },
        };
        let ghost before = self@;
        let ghost packet = PacketView { data: data@, holds_permit: is_chunk };
        proof {
            lemma_queue_push(before.outgoing, packet);
            crate::protocol::law_frame_prefix(packet_type, request_id, payload@);
        }
        self.sent = Ghost(self.sent@ + data@);
        self.outgoing.push_back(OutgoingPacket::new(data, is_chunk));
        if is_chunk {
            self.chunks_in_flight = self.chunks_in_flight + 1;
        }
        proof {
            assert(self@.outgoing =~= before.outgoing.push(packet));
            assert(self@.sent =~= self@.written + wire_of(self@.outgoing) + self@.discarded);
            assert(self@ == before.with_packet(packet_type, request_id, payload@));
            assert forall|i: int| 0 <= i < self@.outgoing.len() - 1 implies (
            #[trigger] self@.outgoing[i]).data.len() > 0 by {
                if i < before.outgoing.len() - 1 {
                    assert(before.outgoing[i].data.len() > 0);
                } else {
                    // The last packet of the queue before was no sentinel:
                    // a sentinel is only ever queued by a closing connection.
                    assert(before.outgoing.last().data.len() > 0);
                }
            }
        }
        Ok(SendOutcome::Queued)
    }

    /// Sends a payload as it is under the given request id; see
    /// `send_packet_with_id`.
    pub fn send_raw(&mut self, packet_type: PacketType, request_id: i32, payload: &[u8]) -> (res:
        SocketResult<SendOutcome>)
        requires
            old(self).wf(),
        ensures
            final(self).wf(),
            match old(self)@.send_verdict(packet_type, payload@.len()) {
                SendVerdict::Closed => res matches Err(SocketError::ConnectionClosed) && final(self)@ == old(self)@,
                SendVerdict::TooLarge => res matches Err(SocketError::PacketTooLarge(n)) && n
                    == payload@.len() && final(self)@ == old(self)@,
                SendVerdict::AwaitPermit => res == Ok::<SendOutcome, SocketError>(
                    SendOutcome::AwaitPermit,
                ) && final(self)@ == old(self)@,
                SendVerdict::AwaitCapacity => res == Ok::<SendOutcome, SocketError>(
                    SendOutcome::AwaitCapacity,
                ) && final(self)@ == old(self)@,
                SendVerdict::Accept => res == Ok::<SendOutcome, SocketError>(SendOutcome::Queued)
                    && final(self)@ == old(self)@.with_packet(packet_type, request_id, payload@),
            },
    {
        self.send_packet_with_id(packet_type, request_id, payload)
    }

    /// Closes the connection at once. The first call hands out the callback
    /// and asks for the socket to be shut down; every later call changes
    /// nothing and asks for nothing.
    pub fn close(&mut self) -> (outcome: CloseOutcome<C>)
        requires
            old(self).wf(),
        ensures
            final(self).wf(),
            final(self)@ == old(self)@.after_close(),
            outcome.first == !old(self)@.closed,
            outcome.shutdown_writer == !old(self)@.closed,
            outcome.on_close == old(self)@.on_close,
    {
        self.closing = true;
        if self.closed {
            return CloseOutcome { first: false, on_close: None, shutdown_writer: false };
        }
        self.closed = true;
        self.state = ConnectionState::Closing;
        let callback = self.on_close.take();
        CloseOutcome { first: true, on_close: callback, shutdown_writer: true }
    }

    /// Closes the connection once everything queued has been written: no
    /// further packet is accepted, and the sentinel is queued behind those
    /// that were. A connection that is closing already is left as it is.
    pub fn close_after_flush(&mut self)
        requires
            old(self).wf(),
        ensures
            final(self).wf(),
            final(self)@ == old(self)@.after_close_after_flush(),
    {
        if self.closing {
            return ;
        }
        let ghost before = self@;
        self.closing = true;
        self.state = ConnectionState::Closing;
        self.outgoing.push_back(OutgoingPacket::sentinel());
        proof {
            lemma_queue_push(before.outgoing, sentinel_view());
            assert(self@.outgoing =~= before.outgoing.push(sentinel_view()));
            assert(wire_of(self@.outgoing) =~= wire_of(before.outgoing));
            assert forall|i: int| 0 <= i < self@.outgoing.len() - 1 implies (
            #[trigger] self@.outgoing[i]).data.len() > 0 by {
                if i < before.outgoing.len() - 1 {
                    assert(before.outgoing[i].data.len() > 0);
                } else {
                    assert(before.outgoing.last().data.len() > 0);
                }
            }
        }
    }

    /// Sends a request: takes the next request id, registers the slot for the
    /// reply under it, and sends the packet. Where the packet is refused the
    /// slot is taken back and returned.
    pub fn request(&mut self, packet_type: PacketType, payload: &[u8], slot: R) -> (res:
        RequestOutcome<R>)
        requires
            old(self).wf(),
        ensures
            final(self).wf(),
            ({
                let id = bits_i32(old(self)@.next_request);
                let counted = ConnectionView {
                    next_request: next_counter(old(self)@.next_request),
                    ..old(self)@
                };
                let registered = ConnectionView {
                    pending: old(self)@.pending.insert(id, slot),
                    ..counted
                };
                let withdrawn = ConnectionView {
                    pending: old(self)@.pending.remove(id),
                    ..counted
                };
                match old(self)@.send_verdict(packet_type, payload@.len()) {
                    SendVerdict::Closed => res matches RequestOutcome::Failed {
                        error: SocketError::ConnectionClosed,
                        slot: s,
                    } && s == slot && final(self)@ == withdrawn,
                    SendVerdict::TooLarge => res matches RequestOutcome::Failed {
                        error: SocketError::PacketTooLarge(n),
                        slot: s,
                    } && n == payload@.len() && s == slot && final(self)@ == withdrawn,
                    SendVerdict::AwaitPermit => res matches RequestOutcome::Blocked {
                        request_id,
                        outcome,
                    } && request_id == id && outcome == SendOutcome::AwaitPermit && final(self)@
                        == registered,
                    SendVerdict::AwaitCapacity => res matches RequestOutcome::Blocked {
                        request_id,
                        outcome,
                    } && request_id == id && outcome == SendOutcome::AwaitCapacity && final(self)@
                        == registered,
                    SendVerdict::Accept => res matches RequestOutcome::Sent { request_id }
                        && request_id == id && final(self)@ == registered.with_packet(
                        packet_type,
                        id,
                        payload@,
                    ),
                }
            }),
    {
        let request_id = self.next_request_id();
        let ghost counted = self@;
        self.pending_requests.insert(request_id, slot);
        assert(self@ == (ConnectionView {
            pending: counted.pending.insert(request_id, slot),
            ..counted
        }));
        match self.send_packet_with_id(packet_type, request_id, payload) {
            Ok(SendOutcome::Queued) => RequestOutcome::Sent { request_id },
            Ok(outcome) => RequestOutcome::Blocked { request_id, outcome },
            Err(error) => {
                let ghost registered = self@;
                match self.pending_requests.remove(&request_id) {
                    Some(slot) => {
                        proof {
                            assert(self@.pending =~= counted.pending.remove(request_id));
                            assert(self@ == (ConnectionView {
                                pending: counted.pending.remove(request_id),
                                ..counted
                            }));
                        }
                        RequestOutcome::Failed { error, slot }
                    },
                    None => {
                        proof {
                            assert(false);
                        }
                        vstd::pervasive::unreached()
                    },
                }
            },
        }
    }

    pub fn is_closing(&self) -> (b: bool)
        ensures
            b == self@.closing,
    {
        self.closing
    }

    /// Opens a batch of sends: the connection is not to close before the
    /// batch ends.
    pub fn begin_send_batch(&mut self)
        requires
            old(self).wf(),
        ensures
            final(self).wf(),
            final(self)@ == (ConnectionView {
                active_send_batches: if old(self)@.active_send_batches == usize::MAX {
                    0usize
                } else {
                    (old(self)@.active_send_batches + 1) as usize
                },
                ..old(self)@
            }),
    {
        self.active_send_batches = if self.active_send_batches == usize::MAX {
            0
        } else {
            self.active_send_batches + 1
        };
    }

    /// Ends a batch of sends. When no batch is left open, the connection
    /// closes once everything queued has been written. Ending a batch that
    /// was never opened closes in the same way.
    pub fn end_send_batch_and_maybe_close(&mut self)
        requires
            old(self).wf(),
        ensures
            final(self).wf(),
            ({
                let counted = ConnectionView {
                    active_send_batches: if old(self)@.active_send_batches == 0 {
                        usize::MAX
                    } else {
                        (old(self)@.active_send_batches - 1) as usize
                    },
                    ..old(self)@
                };
                final(self)@ == if old(self)@.active_send_batches <= 1 {
                    counted.after_close_after_flush()
                } else {
                    counted
                }
            }),
    {
        let prev = self.active_send_batches;
        self.active_send_batches = if prev == 0 {
            usize::MAX
        } else {
            prev - 1
        };
        if prev <= 1 {
            self.close_after_flush();
        }
    }

    /// Whether the read loop is to read another frame.
    pub fn should_read(&self) -> (b: bool)
        ensures
            b == !self@.closing,
    {
        !self.closing
    }

    /// Decides what to do with the body of a frame. A frame whose request id
    /// awaits a reply takes the slot out of the table and goes through it;
    /// any other frame is a packet for the router.
    pub fn on_frame(&mut self, body: &[u8]) -> (res: Incoming<R>)
        requires
            old(self).wf(),
        ensures
            final(self).wf(),
            match parse_body(body@) {
                None => res matches Incoming::TooShort { length } && length == body@.len()
                    && final(self)@ == old(self)@,
                Some((packet_type, request_id, payload)) => if old(self)@.pending.contains_key(
                    request_id,
                ) {
                    &&& res matches Incoming::Reply { request_id: id, slot, payload: p }
                    &&& res->Reply_request_id == request_id
                    &&& res->Reply_slot == old(self)@.pending[request_id]
                    &&& res->Reply_payload@ == payload
                    &&& final(self)@ == (ConnectionView {
                        pending: old(self)@.pending.remove(request_id),
                        ..old(self)@
                    })
                } else {
                    &&& res matches Incoming::Packet(frame)
                    &&& res->Packet_0.packet_type == packet_type
                    &&& res->Packet_0.request_id == request_id
                    &&& res->Packet_0.payload@ == payload
                    &&& final(self)@ == old(self)@
                },
            },
    {
        let frame = match decode_frame(body) {
            None => {
                return Incoming::TooShort { length: body.len() };
            },
            Some(frame) => frame,
        };
        let ghost before = self@;
        match self.pending_requests.remove(&frame.request_id) {
            Some(slot) => {
                proof {
                    assert(self@.pending =~= before.pending.remove(frame.request_id));
                    assert(self@ == (ConnectionView {
                        pending: before.pending.remove(frame.request_id),
                        ..before
                    }));
                }
                Incoming::Reply { request_id: frame.request_id, slot, payload: frame.payload }
            },
            None => {
                proof {
                    assert(self@.pending =~= before.pending);
                }
                Incoming::Packet(frame)
            },
        }
    }

    /// Ends the read loop: every pending request is given up, so that its
    /// caller learns that the connection is closed, and the connection
    /// closes.
    pub fn read_loop_ended(&mut self) -> (outcome: CloseOutcome<C>)
        requires
            old(self).wf(),
        ensures
            final(self).wf(),
            final(self)@ == (ConnectionView {
                pending: Map::<i32, R>::empty(),
                ..old(self)@.after_close()
            }),
            outcome.first == !old(self)@.closed,
            outcome.shutdown_writer == !old(self)@.closed,
            outcome.on_close == old(self)@.on_close,
    {
        self.pending_requests.clear();
        self.close()
    }

    /// Decides the write loop's next step. Packets leave the queue in the
    /// order in which they were accepted. The sentinel ends the loop, and so
    /// does a closed connection, whose queue is given up.
    pub fn next_outgoing(&mut self) -> (step: WriteStep)
        requires
            old(self).wf(),
        ensures
            final(self).wf(),
            ({
                let v = old(self)@;
                if v.writing is Some {
                    step is Busy && final(self)@ == v
                } else if v.closed {
                    step is Finish && final(self)@ == (ConnectionView {
                        outgoing: Seq::<PacketView>::empty(),
                        discarded: wire_of(v.outgoing) + v.discarded,
                        ..v
                    })
                } else if v.outgoing.len() == 0 {
                    step matches WriteStep::Idle { flush_pending } && flush_pending == (
                    v.bytes_since_flush > 0) && final(self)@ == v
                } else if v.outgoing[0].data.len() == 0 {
                    step is Finish && final(self)@ == (ConnectionView {
                        outgoing: v.outgoing.drop_first(),
                        ..v
                    })
                } else {
                    &&& step matches WriteStep::Write { data }
                    &&& step->Write_data@ == v.outgoing[0].data
                    &&& final(self)@ == (ConnectionView {
                        outgoing: v.outgoing.drop_first(),
                        writing: Some((v.outgoing[0].data.len() as usize, v.outgoing[0].holds_permit)),
                        written: v.written + v.outgoing[0].data,
                        ..v
                    })
                }
            }),
    {
        let ghost v = self@;
        if self.writing.is_some() {
            return WriteStep::Busy;
        }
        if self.closed {
            proof {
                assert(v.in_flight() == permits_held(v.outgoing));
            }
            self.discarded = Ghost(wire_of(v.outgoing) + self.discarded@);
            self.outgoing.clear();
            self.chunks_in_flight = 0;
            proof {
                assert(self@.outgoing =~= Seq::<PacketView>::empty());
                assert(self@.sent =~= self@.written + wire_of(self@.outgoing) + self@.discarded);
            }
            return WriteStep::Finish;
        }
        match self.outgoing.pop_front() {
            None => WriteStep::Idle { flush_pending: self.bytes_since_flush > 0 },
            Some(packet) => {
                proof {
                    lemma_queue_pop(v.outgoing);
                    assert(self@.outgoing =~= v.outgoing.drop_first());
                    assert(packet@ == v.outgoing[0]);
                    assert forall|i: int| 0 <= i < self@.outgoing.len() - 1 implies (
                    #[trigger] self@.outgoing[i]).data.len() > 0 by {
                        assert(v.outgoing[i + 1].data.len() > 0);
                    }
                    if self@.outgoing.len() > 0 {
                        assert(self@.outgoing.last() == v.outgoing.last());
                    }
                }
                if packet.data.len() == 0 {
                    proof {
                        // The sentinel is the last packet and holds no
                        // permit.
                        if v.outgoing.len() > 1 {
                            assert(v.outgoing[0].data.len() > 0);
                        }
                        assert(self@.outgoing =~= Seq::<PacketView>::empty());
                    }
                    proof {
                        assert(wire_of(v.outgoing) =~= wire_of(self@.outgoing));
                    }
                    WriteStep::Finish
                } else {
                    self.writing = Some((packet.data.len(), packet.holds_permit));
                    self.written = Ghost(self.written@ + packet.data@);
                    proof {
                        assert(self@.sent =~= self@.written + wire_of(self@.outgoing)
                            + self@.discarded);
                    }
                    WriteStep::Write { data: packet.data }
                }
            },
        }
    }

    /// Takes note of how a write ended. The packet's chunk permit is free
    /// again. After a write that succeeded, the bytes written count towards
    /// the next flush, which is due once they reach the threshold.
    pub fn write_completed(&mut self, ok: bool) -> (next: AfterWrite)
        requires
            old(self).wf(),
        ensures
            final(self).wf(),
            ({
                let v = old(self)@;
                match v.writing {
                    None => next == AfterWrite::Continue && final(self)@ == v,
                    Some((length, _)) => if !ok {
                        next == AfterWrite::Stop && final(self)@ == (ConnectionView {
                            writing: None,
                            ..v
                        })
                    } else {
                        let total = if v.bytes_since_flush + length > usize::MAX {
                            usize::MAX
                        } else {
                            (v.bytes_since_flush + length) as usize
                        };
                        &&& next == if total >= v.flush_threshold {
                            AfterWrite::Flush
                        } else {
                            AfterWrite::Continue
                        }
                        &&& final(self)@ == (ConnectionView {
                            writing: None,
                            bytes_since_flush: total,
                            ..v
                        })
                    },
                }
            }),
    {
        match self.writing.take() {
            None => AfterWrite::Continue,
            Some((length, holds_permit)) => {
                if holds_permit {
                    self.chunks_in_flight = self.chunks_in_flight - 1;
                }
                if !ok {
                    return AfterWrite::Stop;
                }
                self.bytes_since_flush = if length > usize::MAX - self.bytes_since_flush {
                    usize::MAX
                } else {
                    self.bytes_since_flush + length
                };
                if self.bytes_since_flush >= self.flush_threshold {
                    AfterWrite::Flush
                } else {
                    AfterWrite::Continue
                }
            },
        }
    }

    /// Whether the bytes written since the last flush are to be flushed now
    /// that the flush interval has passed: they are, if there are any.
    pub fn flush_due(&self) -> (b: bool)
        ensures
            b == (self@.bytes_since_flush > 0),
    {
        self.bytes_since_flush > 0
    }

    /// Takes note of how a flush ended. After one that succeeded, no bytes
    /// are pending and the loop goes on; after one that failed, the loop is
    /// over.
    pub fn flush_completed(&mut self, ok: bool) -> (go_on: bool)
        requires
            old(self).wf(),
        ensures
            final(self).wf(),
            go_on == ok,
            final(self)@ == (ConnectionView {
                bytes_since_flush: if ok {
                    0usize
                } else {
                    old(self)@.bytes_since_flush
                },
                ..old(self)@
            }),
    {
        if ok {
            self.bytes_since_flush = 0;
        }
        ok
    }

    /// Ends the write loop: the connection closes.
    pub fn write_loop_ended(&mut self) -> (outcome: CloseOutcome<C>)
        requires
            old(self).wf(),
        ensures
            final(self).wf(),
            final(self)@ == old(self)@.after_close(),
            outcome.first == !old(self)@.closed,
            outcome.shutdown_writer == !old(self)@.closed,
            outcome.on_close == old(self)@.on_close,
    {
        self.close()
    }
}

/// Two different values of the counter give two different request ids: an
/// id comes back only after the counter has gone all the way round.
pub proof fn law_request_ids_distinct(a: u32, b: u32)
    requires
        a != b,
    ensures
        bits_i32(a) != bits_i32(b),
{
}

/// A closing connection accepts no packet, whatever its type and size.
pub proof fn law_closing_refuses<R, C>(
    v: ConnectionView<R, C>,
    packet_type: PacketType,
    payload_len: nat,
)
    requires
        v.closing,
    ensures
        v.send_verdict(packet_type, payload_len) is Closed,
{
}

/// Closing is final: neither way of closing, and no number of them, opens a
/// connection again.
pub proof fn law_closing_is_final<R, C>(v: ConnectionView<R, C>)
    requires
        v.closing,
    ensures
        v.after_close().closing,
        v.after_close_after_flush() == v,
        v.after_close().state == ConnectionState::Closing,
{
}

/// Of two calls of `close`, the first hands out the callback and the second
/// has none to hand out: the callback runs at most once, and the second call
/// changes nothing.
pub proof fn law_close_once<R, C>(v: ConnectionView<R, C>)
    ensures
        v.after_close().closed,
        v.after_close().on_close is None,
        v.after_close().after_close() == v.after_close(),
{
}

/// The chunk permits in use never exceed the permits there are.
pub proof fn law_in_flight_bounded<R, C>(v: ConnectionView<R, C>)
    requires
        v.valid(),
    ensures
        v.in_flight() <= v.max_in_flight,
        permits_held(v.outgoing) <= v.max_in_flight,
{
}

/// Bytes reach the write loop in the order in which they were accepted: what
/// was written so far is the beginning of what was sent, and the queue holds
/// what comes next. With an empty queue on a connection that was not closed
/// at once, everything sent has been written.
pub proof fn law_wire_order<R, C>(v: ConnectionView<R, C>)
    requires
        v.valid(),
    ensures
        v.written.is_prefix_of(v.sent),
        (v.written + wire_of(v.outgoing)).is_prefix_of(v.sent),
        !v.closed ==> v.sent == v.written + wire_of(v.outgoing),
        !v.closed && v.outgoing.len() == 0 ==> v.sent == v.written,
{
    let queued = wire_of(v.outgoing);
    assert(v.sent =~= v.written + (queued + v.discarded));
    assert(v.sent =~= (v.written + queued) + v.discarded);
    if !v.closed {
        assert(v.sent =~= v.written + queued);
    }
    if v.outgoing.len() == 0 {
        assert(v.written + queued =~= v.written);
    }
}

/// The sentinel ends the write loop only when every packet accepted before
/// it has been handed to the write loop: it is the last in the queue, so
/// when it is the first, nothing is left behind.
pub proof fn law_drained_before_finish<R, C>(v: ConnectionView<R, C>)
    requires
        v.valid(),
        !v.closed,
        v.outgoing.len() > 0,
        v.outgoing[0].data.len() == 0,
    ensures
        v.outgoing.len() == 1,
        v.sent == v.written,
{
    if v.outgoing.len() > 1 {
        assert(v.outgoing[0].data.len() > 0);
    }
    assert(v.outgoing.drop_last() =~= Seq::<PacketView>::empty());
    assert(v.outgoing.last() == v.outgoing[0]);
    assert(wire_of(v.outgoing.drop_last()) =~= Seq::<u8>::empty());
    assert(wire_of(v.outgoing) =~= wire_of(v.outgoing.drop_last()) + v.outgoing.last().data);
    assert(wire_of(v.outgoing) =~= Seq::<u8>::empty());
    assert(v.sent =~= v.written);
}

} // verus!
