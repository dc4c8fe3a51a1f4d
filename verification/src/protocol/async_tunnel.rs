//! The decisions of the asynchronous tunneling client.
//!
//! The application owns the transport and performs every send, receive and
//! timeout; a [`TunnelSession`] holds everything else the client keeps
//! (gateway endpoint, tunnel state, pending indications) and decides, for
//! each step, what to send and what the received bytes mean:
//!
//! - connect: [`TunnelSession::begin_connect`] gives the `CONNECT_REQUEST`
//!   to send, [`TunnelSession::complete_connect`] takes the response;
//! - send: [`TunnelSession::check_send`], then for each packet pending on
//!   the transport [`TunnelSession::absorb_pending`] (at most
//!   [`MAX_FLUSH_PACKETS`] of them, see [`flush_should_continue`]), then
//!   [`TunnelSession::build_request`] gives the `TUNNELING_REQUEST`;
//! - receive: [`TunnelSession::take_queued`], else
//!   [`TunnelSession::handle_received`] on the next packet;
//! - heartbeat: [`TunnelSession::heartbeat_request`] and
//!   [`TunnelSession::handle_heartbeat`];
//! - disconnect: [`TunnelSession::begin_disconnect`].

use crate::error::{ConnectionErrorKind, KnxError, KnxResult, ProtocolErrorKind, TransportErrorKind};
use crate::net::{lemma_ipv4_from_octets, IpEndpoint, Ipv4Addr};
use crate::protocol::constants::{ServiceType, MAX_CEMI_SIZE, MAX_FRAME_SIZE};
use crate::protocol::frame::{header_error, header_of, header_well_formed, Hpai, KnxnetIpFrame};
use crate::protocol::services::{
    channel_request_bytes, connect_request_bytes, connection_header_of, tunneling_ack_bytes,
    tunneling_request_bytes, ConnectionHeader, TunnelingAck,
};
use crate::protocol::tunnel::{
    nat_endpoint, tunnel_connect_request, Connected, Connecting, Disconnecting, TunnelClient,
};
use heapless::{Deque, Vec as HVec};
use vstd::prelude::*;
use vstd::std_specs::convert::IntoSpec;

verus! {

/// Maximum size of a received packet.
pub const MAX_PACKET_SIZE: usize = 512;

/// Maximum number of pending packets taken before a new command is sent.
pub const MAX_FLUSH_PACKETS: usize = 20;

/// Maximum number of pending indications kept; when full, the oldest is
/// dropped.
pub const MAX_PENDING_INDICATIONS: usize = 10;

/// Indications received while flushing, kept for later retrieval: a
/// heapless `Deque` of up to 10 heapless `Vec`s of up to 64 bytes.
#[verifier::external_body]
pub struct IndicationQueue {
    queue: Deque<HVec<u8, 64>, 10>,
}

/// The cEMI data of the queued indications, oldest first.
pub uninterp spec fn queued_indications(queue: IndicationQueue) -> Seq<Seq<u8>>;

/// What became of a push onto the indication queue.
#[derive(Debug, Clone, Copy, PartialEq, Eq, Structural)]
pub enum PushOutcome {
    /// Queued at the back
    Queued,
    /// Longer than 64 bytes: not queued
    TooLong,
    /// The queue holds 10 indications: not queued
    Full,
}

impl IndicationQueue {
    /// `Deque::new`: an empty queue.
    #[verifier::external_body]
    fn empty() -> (r: Self)
        ensures
            queued_indications(r) == Seq::<Seq<u8>>::empty(),
    {
        IndicationQueue { queue: Deque::new() }
    }

    /// `Deque::push_back` of a copy of `data` made by `heapless::Vec::from_slice`
    /// (capacity 64): data longer than 64 bytes is refused by the copy, and
    /// a queue of 10 refuses the push; either way the queue is unchanged.
    /// The deque holds at most 10 items.
    #[verifier::external_body]
    fn push_back_copy(&mut self, data: &[u8]) -> (r: PushOutcome)
        ensures
            queued_indications(*old(self)).len() <= 10,
            queued_indications(*final(self)).len() <= 10,
            data@.len() > 64 ==> (r == PushOutcome::TooLong && queued_indications(*final(self))
                == queued_indications(*old(self))),
            (data@.len() <= 64 && queued_indications(*old(self)).len() >= 10) ==> (r
                == PushOutcome::Full && queued_indications(*final(self)) == queued_indications(
                *old(self),
            )),
            (data@.len() <= 64 && queued_indications(*old(self)).len() < 10) ==> (r
                == PushOutcome::Queued && queued_indications(*final(self)) == queued_indications(
                *old(self),
            ).push(data@)),
    {
        match HVec::<u8, 64>::from_slice(data) {
            Ok(v) => match self.queue.push_back(v) {
                Ok(()) => PushOutcome::Queued,
                Err(_) => PushOutcome::Full,
            },
            Err(_) => PushOutcome::TooLong,
        }
    }

    /// `Deque::pop_front`, the bytes copied out to a `Vec`.  The deque holds
    /// at most 10 items, each of at most 64 bytes.
    #[verifier::external_body]
    fn pop_front_bytes(&mut self) -> (r: Option<Vec<u8>>)
        ensures
            queued_indications(*old(self)).len() <= 10,
            queued_indications(*final(self)).len() <= 10,
            queued_indications(*old(self)).len() == 0 ==> (r is None && queued_indications(
                *final(self),
            ) == queued_indications(*old(self))),
            queued_indications(*old(self)).len() > 0 ==> (r matches Some(v) && v@
                == queued_indications(*old(self))[0] && v@.len() <= 64 && queued_indications(
                *final(self),
            ) == queued_indications(*old(self)).skip(1)),
    {
        match self.queue.pop_front() {
            Some(v) => Some(v.to_vec()),
            None => None,
        }
    }
}

/// The queue after an indication is queued: data longer than 64 bytes is
/// dropped; a full queue drops its oldest indication first.
pub open spec fn queue_after(queue: Seq<Seq<u8>>, cemi: Seq<u8>) -> Seq<Seq<u8>> {
    if cemi.len() > 64 {
        queue
    } else if queue.len() < 10 {
        queue.push(cemi)
    } else {
        queue.skip(1).push(cemi)
    }
}

/// The queue never holds more than 10 indications: queuing keeps that
/// bound, puts data of at most 64 bytes last, and leaves the queue as it
/// is for longer data.
pub proof fn lemma_queue_after_bounded(queue: Seq<Seq<u8>>, cemi: Seq<u8>)
    requires
        queue.len() <= MAX_PENDING_INDICATIONS,
    ensures
        queue_after(queue, cemi).len() <= MAX_PENDING_INDICATIONS,
        cemi.len() <= 64 ==> queue_after(queue, cemi).len() > 0 && queue_after(queue, cemi).last()
            == cemi,
        cemi.len() > 64 ==> queue_after(queue, cemi) == queue,
{
}

/// The bytes parse as a KNXnet/IP frame.
pub open spec fn frame_ok(data: Seq<u8>) -> bool {
    header_well_formed(data) && 6 <= header_of(data).total_length <= data.len()
}

/// The body of a frame that parses.
pub open spec fn frame_body(data: Seq<u8>) -> Seq<u8> {
    data.subrange(6, header_of(data).total_length as int)
}

/// The error of bytes that do not parse as a frame.
pub open spec fn frame_error(data: Seq<u8>, e: KnxError) -> bool {
    if header_well_formed(data) {
        e.is_protocol(ProtocolErrorKind::InvalidFrame)
    } else {
        header_error(data, e)
    }
}

/// The cEMI data of a tunneling request with sequence number `expected`,
/// if the bytes are one.
pub open spec fn indication_of(data: Seq<u8>, expected: u8) -> Option<Seq<u8>> {
    if frame_ok(data) && header_of(data).service_type == ServiceType::TunnellingRequest
        && frame_body(data).len() >= 4 && connection_header_of(frame_body(data)).sequence_counter
        == expected {
        Some(frame_body(data).skip(4))
    } else {
        None
    }
}

/// The `TUNNELING_ACK` (status OK) of sequence number `sequence` on
/// `channel`.
pub open spec fn ack_bytes(channel: u8, sequence: u8) -> Seq<u8> {
    tunneling_ack_bytes(
        TunnelingAck {
            connection_header: ConnectionHeader { channel_id: channel, sequence_counter: sequence },
            status: 0,
        },
    )
}

/// Whether the flush before a send goes on after `flushed` packets.
pub fn flush_should_continue(flushed: usize) -> (r: bool)
    ensures
        r == (flushed < MAX_FLUSH_PACKETS),
{
    flushed < MAX_FLUSH_PACKETS
}

/// The state of an asynchronous tunneling client, without its transport.
pub struct TunnelSession {
    gateway_endpoint: IpEndpoint,
    client: Option<TunnelClient<Connected>>,
    queue: IndicationQueue,
    cemi_buffer: [u8; 512],
}

impl TunnelSession {
    /// The gateway endpoint.
    pub closed spec fn spec_gateway(&self) -> IpEndpoint {
        self.gateway_endpoint
    }

    /// The tunnel, while connected.
    pub closed spec fn spec_client(&self) -> Option<TunnelClient<Connected>> {
        self.client
    }

    /// The pending indications, oldest first.
    pub closed spec fn spec_queue(&self) -> Seq<Seq<u8>> {
        queued_indications(self.queue)
    }

    /// A session for the gateway at `gateway_addr:gateway_port`, not
    /// connected, no indication pending.
    pub fn new<A: Into<Ipv4Addr>>(gateway_addr: A, gateway_port: u16) -> (r: Self)
        ensures
            A::obeys_into_spec() ==> r.spec_gateway().addr == gateway_addr.into_spec(),
            r.spec_gateway().port == gateway_port,
            r.spec_client() is None,
            r.spec_queue() == Seq::<Seq<u8>>::empty(),
    {
        Self {
            gateway_endpoint: IpEndpoint::new(gateway_addr.into(), gateway_port),
            client: None,
            queue: IndicationQueue::empty(),
            cemi_buffer: [0u8; 512],
        }
    }

    /// Check if connected to the gateway
    pub fn is_connected(&self) -> (r: bool)
        ensures
            r == self.spec_client() is Some,
    {
        self.client.is_some()
    }

    /// Get the gateway endpoint
    pub fn gateway_endpoint(&self) -> (r: IpEndpoint)
        ensures
            r == self.spec_gateway(),
    {
        self.gateway_endpoint
    }

    /// The tunnel in the connecting state, its `CONNECT_REQUEST` (NAT mode,
    /// endpoints 0.0.0.0:0) built and ready to send to the gateway.
    pub fn begin_connect(&self) -> (r: KnxResult<TunnelClient<Connecting>>)
        ensures
            r matches Ok(c) && {
                &&& c.spec_gateway_ip() == self.spec_gateway().addr@
                &&& c.spec_gateway_port() == self.spec_gateway().port
                &&& c.spec_control_endpoint() == nat_endpoint()
                &&& c.spec_data_endpoint() == nat_endpoint()
                &&& c.spec_state().frame_len == 26
                &&& c.spec_tx().take(26) == connect_request_bytes(
                    tunnel_connect_request(nat_endpoint(), nat_endpoint()),
                )
            },
    {
        let gateway_addr = self.gateway_endpoint.addr.octets();
        let gateway_port = self.gateway_endpoint.port;
        let local_ip: [u8; 4] = [0, 0, 0, 0];
        proof {
            lemma_ipv4_from_octets(gateway_addr);
            lemma_ipv4_from_octets(local_ip);
        }
        let tunnel = TunnelClient::new_with_local_endpoint(gateway_addr, gateway_port, local_ip, 0);
        assert(tunnel.spec_control_endpoint().ip_address =~= [0u8, 0u8, 0u8, 0u8]);
        tunnel.connect()
    }

    /// Take the gateway's answer to the `CONNECT_REQUEST` of `pending`:
    /// connected when it is a `CONNECT_RESPONSE` with status OK.
    ///
    /// # Errors
    ///
    /// The errors of a frame that does not parse; a protocol error
    /// `InvalidFrame` for another service; the errors of
    /// [`TunnelClient::handle_connect_response`].  The session is then
    /// unchanged.
    pub fn complete_connect(&mut self, pending: TunnelClient<Connecting>, response: &[u8]) -> (r:
        KnxResult<()>)
        ensures
            ({
                let body = frame_body(response@);
                &&& (frame_ok(response@) && header_of(response@).service_type
                    == ServiceType::ConnectResponse && body.len() >= 14 && body[2] == 8 && body[1]
                    == 0) <==> r is Ok
                &&& final(self).spec_gateway() == old(self).spec_gateway()
                &&& final(self).spec_queue() == old(self).spec_queue()
                &&& r is Ok ==> (final(self).spec_client() matches Some(c) && c.same_link(&pending)
                    && c.spec_state().channel_id == body[0] && c.spec_state().send_sequence == 0
                    && c.spec_state().recv_sequence == 0)
                &&& r matches Err(e) ==> final(self).spec_client() == old(self).spec_client() && if !frame_ok(response@) {
                    frame_error(response@, e)
                } else if header_of(response@).service_type != ServiceType::ConnectResponse {
                    e.is_protocol(ProtocolErrorKind::InvalidFrame)
                } else if body.len() < 14 {
                    e.is_transport(TransportErrorKind::BufferTooSmall)
                } else if body[2] != 8 {
                    e.is_protocol(ProtocolErrorKind::InvalidFrame)
                } else {
                    e.is_connection(ConnectionErrorKind::Failed)
                }
            }),
    {
        let frame = KnxnetIpFrame::parse(response)?;
        if frame.service_type() != ServiceType::ConnectResponse {
            return Err(KnxError::invalid_frame());
        }
        let connected = pending.handle_connect_response(frame.body())?;
        self.client = Some(connected);
        Ok(())
    }

    /// Check a send of `cemi_len` bytes of cEMI data.
    ///
    /// # Errors
    ///
    /// A protocol error `InvalidFrame` for more than 512 bytes; a connection
    /// error `NotConnected` when not connected.
    pub fn check_send(&self, cemi_len: usize) -> (r: KnxResult<()>)
        ensures
            (cemi_len <= MAX_PACKET_SIZE && self.spec_client() is Some) <==> r is Ok,
            r matches Err(e) ==> if cemi_len > MAX_PACKET_SIZE {
                e.is_protocol(ProtocolErrorKind::InvalidFrame)
            } else {
                e.is_connection(ConnectionErrorKind::NotConnected)
            },
    {
        if cemi_len > MAX_PACKET_SIZE {
            return Err(KnxError::invalid_frame());
        }
        if self.client.is_none() {
            return Err(KnxError::not_connected());
        }
        Ok(())
    }

    /// Queue an indication's cEMI data, dropping the oldest pending one
    /// when 10 are pending.
    fn queue_indication(&mut self, cemi: &[u8])
        ensures
            final(self).spec_queue() == queue_after(old(self).spec_queue(), cemi@),
            final(self).spec_gateway() == old(self).spec_gateway(),
            final(self).spec_client() == old(self).spec_client(),
    {
        match self.queue.push_back_copy(cemi) {
            PushOutcome::Full => {
                let _ = self.queue.pop_front_bytes();
                let _ = self.queue.push_back_copy(cemi);
            },
            _ => {},
        }
    }

    /// Take a packet that was pending on the transport before a send: a
    /// tunneling request with the expected sequence number is acknowledged
    /// (the ACK to send is returned) and its cEMI data queued; anything
    /// else is ignored.
    pub fn absorb_pending(&mut self, packet: &[u8]) -> (r: Option<[u8; 11]>)
        requires
            old(self).spec_client() is Some,
        ensures
            ({
                let c0 = old(self).spec_client()->0;
                let expected = c0.spec_state().recv_sequence;
                &&& final(self).spec_gateway() == old(self).spec_gateway()
                &&& final(self).spec_client() matches Some(c1) && c1.same_link(&c0)
                    && c1.spec_state().channel_id == c0.spec_state().channel_id
                    && c1.spec_state().send_sequence == c0.spec_state().send_sequence
                &&& match indication_of(packet@, expected) {
                    Some(cemi) => {
                        &&& r matches Some(ack) && ack@ == ack_bytes(
                            c0.spec_state().channel_id,
                            expected,
                        )
                        &&& final(self).spec_client()->0.spec_state().recv_sequence == (expected
                            + 1) % 256
                        &&& final(self).spec_queue() == queue_after(old(self).spec_queue(), cemi)
                    },
                    None => {
                        &&& r is None
                        &&& final(self).spec_client() == old(self).spec_client()
                        &&& final(self).spec_queue() == old(self).spec_queue()
                    },
                }
            }),
    {
        let ghost c0 = self.client->0;
        let frame = match KnxnetIpFrame::parse(packet) {
            Ok(f) => f,
            Err(_) => return None,
        };
        if frame.service_type() != ServiceType::TunnellingRequest {
            return None;
        }
        let body = frame.body();
        let mut client = match self.client.take() {
            Some(c) => c,
            None => return None,
        };
        let indication = client.handle_tunneling_indication(body);
        match indication {
            Ok(cemi) => {
                let ack_seq = client.recv_sequence().wrapping_sub(1);
                let ack = match client.build_tunneling_ack(ack_seq, 0) {
                    Ok(frame) => copy_ack(frame),
                    Err(_) => [0u8; 11],
                };
                self.client = Some(client);
                self.queue_indication(cemi);
                Some(ack)
            },
            Err(_) => {
                self.client = Some(client);
                None
            },
        }
    }

    /// Build the `TUNNELING_REQUEST` carrying `cemi_data`; the send
    /// sequence advances.
    ///
    /// # Errors
    ///
    /// A connection error `NotConnected` when not connected; the errors of
    /// [`TunnelClient::send_tunneling_request`].
    pub fn build_request(&mut self, cemi_data: &[u8]) -> (r: KnxResult<&[u8]>)
        ensures
            final(self).spec_gateway() == old(self).spec_gateway(),
            final(self).spec_queue() == old(self).spec_queue(),
            old(self).spec_client() is None ==> (r matches Err(e) && e.is_connection(
                ConnectionErrorKind::NotConnected,
            ) && final(self).spec_client() is None),
            old(self).spec_client() matches Some(c0) ==> {
                &&& (cemi_data@.len() + 10 <= MAX_FRAME_SIZE <==> r is Ok)
                &&& final(self).spec_client() matches Some(c1) && c1.same_link(&c0)
                    && c1.spec_state().channel_id == c0.spec_state().channel_id
                    && c1.spec_state().recv_sequence == c0.spec_state().recv_sequence
                &&& r matches Ok(f) ==> f@ == tunneling_request_bytes(
                    ConnectionHeader {
                        channel_id: c0.spec_state().channel_id,
                        sequence_counter: c0.spec_state().send_sequence,
                    },
                    cemi_data@,
                ) && final(self).spec_client()->0.spec_state().send_sequence == (
                c0.spec_state().send_sequence + 1) % 256
                &&& r matches Err(e) ==> e.is_transport(TransportErrorKind::BufferTooSmall)
                    && final(self).spec_client()->0.spec_state() == c0.spec_state()
            },
    {
        match self.client.as_mut() {
            Some(client) => client.send_tunneling_request(cemi_data),
            None => Err(KnxError::not_connected()),
        }
    }

    /// The oldest pending indication, removed from the queue.
    pub fn take_queued(&mut self) -> (r: Option<&[u8]>)
        ensures
            final(self).spec_gateway() == old(self).spec_gateway(),
            final(self).spec_client() == old(self).spec_client(),
            old(self).spec_queue().len() == 0 ==> (r is None && final(self).spec_queue() == old(
                self,
            ).spec_queue()),
            old(self).spec_queue().len() > 0 ==> (r matches Some(c) && c@ == old(
                self,
            ).spec_queue()[0] && final(self).spec_queue() == old(self).spec_queue().skip(1)),
    {
        match self.queue.pop_front_bytes() {
            Some(cemi) => {
                let len = cemi.len();
                let ghost g = self.gateway_endpoint;
                let ghost c = self.client;
                let ghost q = self.queue;
                let mut i: usize = 0;
                while i < len
                    invariant
                        0 <= i <= len,
                        len == cemi@.len(),
                        len <= 64,
                        self.gateway_endpoint == g,
                        self.client == c,
                        self.queue == q,
                        self.cemi_buffer@.len() == 512,
                        forall|k: int| 0 <= k < i ==> self.cemi_buffer@[k] == cemi@[k],
                    decreases len - i,
                {
                    self.cemi_buffer[i] = cemi[i];
                    i = i + 1;
                }
                let data = &self.cemi_buffer[0..len];
                assert(data@ =~= cemi@);
                Some(data)
            },
            None => None,
        }
    }

    /// Take a packet received while waiting for an event: a tunneling
    /// request with the expected sequence number is acknowledged; returns
    /// the ACK to send and its cEMI data.  Anything else gives `None`.
    pub fn handle_received(&mut self, packet: &[u8]) -> (r: Option<([u8; 11], &[u8])>)
        requires
            old(self).spec_client() is Some,
            packet@.len() <= MAX_PACKET_SIZE,
        ensures
            ({
                let c0 = old(self).spec_client()->0;
                let expected = c0.spec_state().recv_sequence;
                &&& final(self).spec_gateway() == old(self).spec_gateway()
                &&& final(self).spec_queue() == old(self).spec_queue()
                &&& final(self).spec_client() matches Some(c1) && c1.same_link(&c0)
                    && c1.spec_state().channel_id == c0.spec_state().channel_id
                    && c1.spec_state().send_sequence == c0.spec_state().send_sequence
                &&& match indication_of(packet@, expected) {
                    Some(cemi) => {
                        &&& r matches Some(got) && got.0@ == ack_bytes(
                            c0.spec_state().channel_id,
                            expected,
                        ) && got.1@ == cemi
                        &&& final(self).spec_client()->0.spec_state().recv_sequence == (expected
                            + 1) % 256
                    },
                    None => r is None && final(self).spec_client() == old(self).spec_client(),
                }
            }),
    {
        let frame = match KnxnetIpFrame::parse(packet) {
            Ok(f) => f,
            Err(_) => return None,
        };
        if frame.service_type() != ServiceType::TunnellingRequest {
            return None;
        }
        let body = frame.body();
        let mut client = match self.client.take() {
            Some(c) => c,
            None => return None,
        };
        match client.handle_tunneling_indication(body) {
            Ok(cemi) => {
                let ack_seq = client.recv_sequence().wrapping_sub(1);
                let ack = match client.build_tunneling_ack(ack_seq, 0) {
                    Ok(frame) => copy_ack(frame),
                    Err(_) => [0u8; 11],
                };
                self.client = Some(client);
                let len = cemi.len();
                let ghost g = self.gateway_endpoint;
                let ghost c = self.client;
                let ghost q = self.queue;
                let mut i: usize = 0;
                while i < len
                    invariant
                        0 <= i <= len,
                        len == cemi@.len(),
                        len <= 512,
                        self.gateway_endpoint == g,
                        self.client == c,
                        self.queue == q,
                        self.cemi_buffer@.len() == 512,
                        forall|k: int| 0 <= k < i ==> self.cemi_buffer@[k] == cemi@[k],
                    decreases len - i,
                {
                    self.cemi_buffer[i] = cemi[i];
                    i = i + 1;
                }
                let data = &self.cemi_buffer[0..len];
                assert(data@ =~= cemi@);
                Some((ack, data))
            },
            Err(_) => {
                self.client = Some(client);
                None
            },
        }
    }

    /// Build the `CONNECTIONSTATE_REQUEST` (heartbeat) to send.
    ///
    /// # Errors
    ///
    /// A connection error `NotConnected` when not connected.
    pub fn heartbeat_request(&mut self) -> (r: KnxResult<&[u8]>)
        ensures
            final(self).spec_gateway() == old(self).spec_gateway(),
            final(self).spec_queue() == old(self).spec_queue(),
            old(self).spec_client() is None ==> (r matches Err(e) && e.is_connection(
                ConnectionErrorKind::NotConnected,
            ) && final(self).spec_client() is None),
            old(self).spec_client() matches Some(c0) ==> {
                &&& r matches Ok(f) && f@ == channel_request_bytes(
                    0x0207,
                    c0.spec_state().channel_id,
                    c0.spec_control_endpoint(),
                )
                &&& final(self).spec_client() matches Some(c1) && c1.same_link(&c0)
                    && c1.spec_state() == c0.spec_state()
            },
    {
        match self.client.as_mut() {
            Some(client) => client.send_heartbeat(),
            None => Err(KnxError::not_connected()),
        }
    }

    /// Take the answer to a heartbeat: a `CONNECTIONSTATE_RESPONSE` with a
    /// status other than OK ends the connection; any other frame is
    /// ignored.
    ///
    /// # Errors
    ///
    /// The errors of a frame that does not parse (the connection is kept);
    /// for a `CONNECTIONSTATE_RESPONSE`, a connection error `NotConnected`
    /// when not connected, and the errors of
    /// [`TunnelClient::handle_heartbeat_response`], after which the
    /// session is no longer connected.
    pub fn handle_heartbeat(&mut self, response: &[u8]) -> (r: KnxResult<()>)
        ensures
            ({
                let body = frame_body(response@);
                let is_state = frame_ok(response@) && header_of(response@).service_type
                    == ServiceType::ConnectionstateResponse;
                &&& final(self).spec_gateway() == old(self).spec_gateway()
                &&& final(self).spec_queue() == old(self).spec_queue()
                &&& (frame_ok(response@) && (!is_state || (old(self).spec_client() is Some
                    && body.len() >= 2 && body[1] == 0))) <==> r is Ok
                &&& r is Ok ==> final(self).spec_client() == old(self).spec_client()
                &&& r matches Err(e) ==> if !frame_ok(response@) {
                    frame_error(response@, e) && final(self).spec_client() == old(
                        self,
                    ).spec_client()
                } else {
                    final(self).spec_client() is None && if old(self).spec_client() is None {
                        e.is_connection(ConnectionErrorKind::NotConnected)
                    } else if body.len() < 2 {
                        e.is_transport(TransportErrorKind::BufferTooSmall)
                    } else {
                        e.is_connection(ConnectionErrorKind::Lost)
                    }
                }
            }),
    {
        let frame = KnxnetIpFrame::parse(response)?;
        if frame.service_type() == ServiceType::ConnectionstateResponse {
            let client = match self.client.take() {
                Some(c) => c,
                None => return Err(KnxError::not_connected()),
            };
            let client = client.handle_heartbeat_response(frame.body())?;
            self.client = Some(client);
        }
        Ok(())
    }

    /// Leave the connected state: the tunnel in the disconnecting state,
    /// its `DISCONNECT_REQUEST` built and ready to send, or `None` when not
    /// connected.
    pub fn begin_disconnect(&mut self) -> (r: KnxResult<Option<TunnelClient<Disconnecting>>>)
        ensures
            final(self).spec_client() is None,
            final(self).spec_gateway() == old(self).spec_gateway(),
            final(self).spec_queue() == old(self).spec_queue(),
            old(self).spec_client() is None ==> (r matches Ok(d) && d is None),
            old(self).spec_client() matches Some(c0) ==> (r matches Ok(d) && d matches Some(dc)
                && dc.same_link(&c0) && dc.spec_state().frame_len == 16 && dc.spec_tx().take(16)
                == channel_request_bytes(
                0x0209,
                c0.spec_state().channel_id,
                c0.spec_control_endpoint(),
            )),
    {
        match self.client.take() {
            Some(client) => {
                let disconnecting = client.disconnect()?;
                Ok(Some(disconnecting))
            },
            None => Ok(None),
        }
    }
}

/// The eleven bytes of an ACK frame.
fn copy_ack(frame: &[u8]) -> (r: [u8; 11])
    requires
        frame@.len() == 11,
    ensures
        r@ == frame@,
{
    let r = [
        frame[0],
        frame[1],
        frame[2],
        frame[3],
        frame[4],
        frame[5],
        frame[6],
        frame[7],
        frame[8],
        frame[9],
        frame[10],
    ];
    assert(r@ =~= frame@);
    r
}

} // verus!
