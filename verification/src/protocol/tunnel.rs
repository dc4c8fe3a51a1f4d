//! KNXnet/IP tunneling client with typestate.
//!
//! The state parameter decides which operations exist:
//!
//! ```text
//! Idle → Connecting → Connected → Disconnecting → Idle
//!         ↓ (error)     ↓ (error)
//!         Idle          Idle
//! ```
//!
//! The client never touches the network: every operation builds the frame
//! to send in the client's own buffer or takes the body of a frame that was
//! received, and returns the next state.

use crate::error::{
    ConnectionErrorKind, KnxError, KnxResult, ProtocolErrorKind, TransportErrorKind,
    TunnelingErrorKind,
};
use crate::net::Ipv4Addr;
use crate::protocol::constants::MAX_FRAME_SIZE;
use crate::protocol::frame::Hpai;
use crate::protocol::services::{
    channel_request_bytes, connect_request_bytes, connection_header_of, tunneling_ack_bytes,
    tunneling_request_bytes, ConnectRequest, ConnectResponse, ConnectionHeader,
    ConnectionRequestInfo, ConnectionStateRequest, ConnectionStateResponse, DisconnectRequest,
    TunnelingAck, TunnelingRequest,
};
use vstd::prelude::*;
use vstd::std_specs::convert::IntoSpec;

verus! {

/// Client is idle (not connected)
#[derive(Debug, Clone, Copy)]
pub struct Idle;

/// Connection request built, waiting for the response
#[derive(Debug, Clone, Copy)]
pub struct Connecting {
    /// Length of the frame data in the transmit buffer
    pub frame_len: usize,
}

/// Connected and ready to send/receive
#[derive(Debug, Clone, Copy)]
pub struct Connected {
    /// Communication channel ID assigned by gateway
    pub channel_id: u8,
    /// Send sequence counter (wraps at 256)
    pub send_sequence: u8,
    /// Receive sequence counter (expected)
    pub recv_sequence: u8,
}

/// Disconnect request built
#[derive(Debug, Clone, Copy)]
pub struct Disconnecting {
    /// Length of the frame data in the transmit buffer
    pub frame_len: usize,
}

/// Tunneling client for KNX gateway communication.
///
/// `TunnelClient<Idle>` can only connect, `TunnelClient<Connecting>` can
/// only take the connect response or cancel, `TunnelClient<Connected>` can
/// send and receive or disconnect, `TunnelClient<Disconnecting>` can only
/// finish.
#[derive(Debug)]
pub struct TunnelClient<State> {
    gateway_addr: [u8; 4],
    gateway_port: u16,
    control_endpoint: Hpai,
    data_endpoint: Hpai,
    tx_buffer: [u8; 256],
    rx_buffer: [u8; 256],
    /// Current state
    pub state: State,
}

/// The NAT endpoint 0.0.0.0:0: the gateway answers to the source address.
pub open spec fn nat_endpoint() -> Hpai {
    Hpai { structure_length: 8, host_protocol: 1, ip_address: [0u8, 0u8, 0u8, 0u8], port: 0 }
}

/// The `CONNECT_REQUEST` that a client with these endpoints sends.
pub open spec fn tunnel_connect_request(control: Hpai, data: Hpai) -> ConnectRequest {
    ConnectRequest {
        control_endpoint: control,
        data_endpoint: data,
        cri: ConnectionRequestInfo { connection_type: 4, knx_layer: 2 },
    }
}

impl<S> TunnelClient<S> {
    /// The gateway's IPv4 address.
    pub closed spec fn spec_gateway_ip(&self) -> Seq<u8> {
        self.gateway_addr@
    }

    /// The gateway's UDP port.
    pub closed spec fn spec_gateway_port(&self) -> u16 {
        self.gateway_port
    }

    /// The local control endpoint announced to the gateway.
    pub closed spec fn spec_control_endpoint(&self) -> Hpai {
        self.control_endpoint
    }

    /// The local data endpoint announced to the gateway.
    pub closed spec fn spec_data_endpoint(&self) -> Hpai {
        self.data_endpoint
    }

    /// The current state.
    pub closed spec fn spec_state(&self) -> S {
        self.state
    }

    /// The transmit buffer.
    pub closed spec fn spec_tx(&self) -> Seq<u8> {
        self.tx_buffer@
    }

    /// Both clients talk to the same gateway from the same endpoints.
    pub open spec fn same_link<T>(&self, other: &TunnelClient<T>) -> bool {
        &&& self.spec_gateway_ip() == other.spec_gateway_ip()
        &&& self.spec_gateway_port() == other.spec_gateway_port()
        &&& self.spec_control_endpoint() == other.spec_control_endpoint()
        &&& self.spec_data_endpoint() == other.spec_data_endpoint()
    }

    /// Get gateway address (available in all states)
    pub fn gateway_addr(&self) -> (r: ([u8; 4], u16))
        ensures
            r.0@ == self.spec_gateway_ip(),
            r.1 == self.spec_gateway_port(),
    {
        (self.gateway_addr, self.gateway_port)
    }

    /// The same client in another state.
    fn into_state<T>(self, state: T) -> (r: TunnelClient<T>)
        ensures
            r.same_link(&self),
            r.spec_tx() == self.spec_tx(),
            r.spec_state() == state,
    {
        TunnelClient {
            gateway_addr: self.gateway_addr,
            gateway_port: self.gateway_port,
            control_endpoint: self.control_endpoint,
            data_endpoint: self.data_endpoint,
            tx_buffer: self.tx_buffer,
            rx_buffer: self.rx_buffer,
            state,
        }
    }
}

impl TunnelClient<Idle> {
    /// Create a new tunnel client (starts in Idle state) that announces the
    /// NAT endpoint 0.0.0.0:0.
    ///
    /// `gateway_addr` accepts an array, a tuple or an `Ipv4Addr`.
    pub fn new<A: Into<Ipv4Addr>>(gateway_addr: A, gateway_port: u16) -> (r: Self)
        ensures
            A::obeys_into_spec() ==> r.spec_gateway_ip() == gateway_addr.into_spec()@,
            r.spec_gateway_port() == gateway_port,
            r.spec_control_endpoint() == nat_endpoint(),
            r.spec_data_endpoint() == nat_endpoint(),
    {
        let gateway_addr = gateway_addr.into().octets();
        let nat_hpai = Hpai::new([0, 0, 0, 0], 0);
        TunnelClient {
            gateway_addr,
            gateway_port,
            control_endpoint: nat_hpai,
            data_endpoint: nat_hpai,
            tx_buffer: [0u8; 256],
            rx_buffer: [0u8; 256],
            state: Idle,
        }
    }

    /// Create a tunnel client with an explicit local endpoint, for gateways
    /// that do not support NAT mode.
    pub fn new_with_local_endpoint<A: Into<Ipv4Addr>, L: Into<Ipv4Addr>>(
        gateway_addr: A,
        gateway_port: u16,
        local_addr: L,
        local_port: u16,
    ) -> (r: Self)
        ensures
            A::obeys_into_spec() ==> r.spec_gateway_ip() == gateway_addr.into_spec()@,
            r.spec_gateway_port() == gateway_port,
            r.spec_control_endpoint() == r.spec_data_endpoint(),
            r.spec_control_endpoint().structure_length == 8,
            r.spec_control_endpoint().host_protocol == 1,
            L::obeys_into_spec() ==> r.spec_control_endpoint().ip_address@
                == local_addr.into_spec()@,
            r.spec_control_endpoint().port == local_port,
    {
        let gateway_addr = gateway_addr.into().octets();
        let local_addr = local_addr.into().octets();
        let local_endpoint = Hpai::new(local_addr, local_port);
        TunnelClient {
            gateway_addr,
            gateway_port,
            control_endpoint: local_endpoint,
            data_endpoint: local_endpoint,
            tx_buffer: [0u8; 256],
            rx_buffer: [0u8; 256],
            state: Idle,
        }
    }

    /// Start connection (Idle → Connecting): the `CONNECT_REQUEST` frame
    /// is then in the client's buffer (see `frame_data`).
    pub fn connect(self) -> (r: KnxResult<TunnelClient<Connecting>>)
        ensures
            r matches Ok(c) && {
                &&& c.same_link(&self)
                &&& c.spec_state().frame_len == 26
                &&& c.spec_tx().take(26) == connect_request_bytes(
                    tunnel_connect_request(self.spec_control_endpoint(), self.spec_data_endpoint()),
                )
            },
    {
        let mut this = self;
        let request = ConnectRequest::new(this.control_endpoint, this.data_endpoint);
        let len = request.build(&mut this.tx_buffer)?;
        assert(this.tx_buffer@.take(26) =~= connect_request_bytes(request));
        Ok(this.into_state(Connecting { frame_len: len }))
    }
}

impl TunnelClient<Connecting> {
    /// Get the `CONNECT_REQUEST` frame data to send.
    pub fn frame_data(&self) -> (r: &[u8])
        requires
            self.spec_state().frame_len <= MAX_FRAME_SIZE,
        ensures
            r@ == self.spec_tx().take(self.spec_state().frame_len as int),
    {
        &self.tx_buffer[0..self.state.frame_len]
    }

    /// Handle `CONNECT_RESPONSE` (Connecting → Connected) from its frame
    /// body.
    ///
    /// # Errors
    ///
    /// The errors of `ConnectResponse::parse`, and a connection error
    /// `Failed` if the gateway's status is not 0.
    pub fn handle_connect_response(self, response: &[u8]) -> (r: KnxResult<TunnelClient<Connected>>)
        ensures
            (response@.len() >= 14 && response@[2] == 8 && response@[1] == 0) <==> r is Ok,
            r matches Ok(c) ==> {
                &&& c.same_link(&self)
                &&& c.spec_state().channel_id == response@[0]
                &&& c.spec_state().send_sequence == 0
                &&& c.spec_state().recv_sequence == 0
            },
            r matches Err(e) ==> if response@.len() < 14 {
                e.is_transport(TransportErrorKind::BufferTooSmall)
            } else if response@[2] != 8 {
                e.is_protocol(ProtocolErrorKind::InvalidFrame)
            } else {
                e.is_connection(ConnectionErrorKind::Failed)
            },
    {
        let resp = ConnectResponse::parse(response)?;
        if !resp.is_ok() {
            return Err(KnxError::connection_failed());
        }
        Ok(
            self.into_state(
                Connected { channel_id: resp.channel_id, send_sequence: 0, recv_sequence: 0 },
            ),
        )
    }

    /// Cancel connection attempt (Connecting → Idle)
    pub fn cancel(self) -> (r: TunnelClient<Idle>)
        ensures
            r.same_link(&self),
    {
        self.into_state(Idle)
    }
}

impl TunnelClient<Connected> {
    /// Get assigned channel ID
    pub fn channel_id(&self) -> (r: u8)
        ensures
            r == self.spec_state().channel_id,
    {
        self.state.channel_id
    }

    /// Get current send sequence counter
    pub fn send_sequence(&self) -> (r: u8)
        ensures
            r == self.spec_state().send_sequence,
    {
        self.state.send_sequence
    }

    /// Get current receive sequence counter
    pub fn recv_sequence(&self) -> (r: u8)
        ensures
            r == self.spec_state().recv_sequence,
    {
        self.state.recv_sequence
    }

    /// Build a `TUNNELING_REQUEST` carrying `cemi_data` with the current
    /// send sequence number, then advance the send sequence (wrapping at
    /// 256).  Returns the frame to send.
    ///
    /// # Errors
    ///
    /// A transport error `BufferTooSmall` if the frame would exceed 256
    /// bytes; the client is then unchanged.
    pub fn send_tunneling_request(&mut self, cemi_data: &[u8]) -> (r: KnxResult<&[u8]>)
        ensures
            cemi_data@.len() + 10 <= MAX_FRAME_SIZE <==> r is Ok,
            final(self).same_link(old(self)),
            final(self).spec_state().channel_id == old(self).spec_state().channel_id,
            final(self).spec_state().recv_sequence == old(self).spec_state().recv_sequence,
            r matches Ok(f) ==> {
                &&& f@ == tunneling_request_bytes(
                    ConnectionHeader {
                        channel_id: old(self).spec_state().channel_id,
                        sequence_counter: old(self).spec_state().send_sequence,
                    },
                    cemi_data@,
                )
                &&& final(self).spec_state().send_sequence == (old(self).spec_state().send_sequence + 1) % 256
            },
            r matches Err(e) ==> {
                &&& e.is_transport(TransportErrorKind::BufferTooSmall)
                &&& final(self).spec_state() == old(self).spec_state()
                &&& final(self).spec_tx() == old(self).spec_tx()
            },
    {
        if cemi_data.len() > MAX_FRAME_SIZE - 10 {
            return Err(KnxError::buffer_too_small());
        }
        let header = ConnectionHeader::new(self.state.channel_id, self.state.send_sequence);
        let request = TunnelingRequest::new(header, cemi_data);
        let len = request.build(&mut self.tx_buffer)?;
        self.state.send_sequence = self.state.send_sequence.wrapping_add(1);
        let frame = &self.tx_buffer[0..len];
        assert(frame@ =~= tunneling_request_bytes(header, cemi_data@));
        Ok(frame)
    }

    /// Build a `TUNNELING_ACK` for `sequence` with `status` (0 = OK).
    pub fn build_tunneling_ack(&mut self, sequence: u8, status: u8) -> (r: KnxResult<&[u8]>)
        ensures
            final(self).same_link(old(self)),
            final(self).spec_state() == old(self).spec_state(),
            r matches Ok(f) && f@ == tunneling_ack_bytes(
                TunnelingAck {
                    connection_header: ConnectionHeader {
                        channel_id: old(self).spec_state().channel_id,
                        sequence_counter: sequence,
                    },
                    status,
                },
            ),
    {
        let header = ConnectionHeader::new(self.state.channel_id, sequence);
        let ack = TunnelingAck::new(header, status);
        let len = ack.build(&mut self.tx_buffer)?;
        let frame = &self.tx_buffer[0..len];
        assert(frame@ =~= tunneling_ack_bytes(ack));
        Ok(frame)
    }

    /// Handle a `TUNNELING_REQUEST` from the gateway (an indication) from
    /// its frame body: returns the cEMI data it carries and advances the
    /// receive sequence (wrapping at 256).
    ///
    /// # Errors
    ///
    /// A transport error `BufferTooSmall` for fewer than 4 bytes; a
    /// tunneling error `SequenceMismatch` if the sequence counter is not the
    /// expected one.  The client is then unchanged.
    pub fn handle_tunneling_indication<'a>(&mut self, body: &'a [u8]) -> (r: KnxResult<&'a [u8]>)
        ensures
            (body@.len() >= 4 && connection_header_of(body@).sequence_counter
                == old(self).spec_state().recv_sequence) <==> r is Ok,
            final(self).same_link(old(self)),
            final(self).spec_tx() == old(self).spec_tx(),
            final(self).spec_state().channel_id == old(self).spec_state().channel_id,
            final(self).spec_state().send_sequence == old(self).spec_state().send_sequence,
            r matches Ok(c) ==> c@ == body@.skip(4) && final(self).spec_state().recv_sequence == (old(
                self,
            ).spec_state().recv_sequence + 1) % 256,
            r matches Err(e) ==> *final(self) == *old(self) && if body@.len() < 4 {
                e.is_transport(TransportErrorKind::BufferTooSmall)
            } else {
                e.is_tunneling(TunnelingErrorKind::SequenceMismatch)
            },
    {
        let request = TunnelingRequest::parse(body)?;
        if request.connection_header.sequence_counter != self.state.recv_sequence {
            return Err(KnxError::sequence_mismatch());
        }
        self.state.recv_sequence = self.state.recv_sequence.wrapping_add(1);
        Ok(request.cemi_data)
    }

    /// Handle a `TUNNELING_ACK` from its frame body.
    ///
    /// # Errors
    ///
    /// A transport error `BufferTooSmall` for fewer than 5 bytes; a
    /// tunneling error `AckFailed` if the status is not 0.
    pub fn handle_tunneling_ack(&self, body: &[u8]) -> (r: KnxResult<()>)
        ensures
            (body@.len() >= 5 && body@[4] == 0) <==> r is Ok,
            r matches Err(e) ==> if body@.len() < 5 {
                e.is_transport(TransportErrorKind::BufferTooSmall)
            } else {
                e.is_tunneling(TunnelingErrorKind::AckFailed)
            },
    {
        let ack = TunnelingAck::parse(body)?;
        if !ack.is_ok() {
            return Err(KnxError::tunneling_ack_failed());
        }
        Ok(())
    }

    /// Build a `CONNECTIONSTATE_REQUEST` (heartbeat).
    pub fn send_heartbeat(&mut self) -> (r: KnxResult<&[u8]>)
        ensures
            final(self).same_link(old(self)),
            final(self).spec_state() == old(self).spec_state(),
            r matches Ok(f) && f@ == channel_request_bytes(
                0x0207,
                old(self).spec_state().channel_id,
                old(self).spec_control_endpoint(),
            ),
    {
        let request = ConnectionStateRequest::new(self.state.channel_id, self.control_endpoint);
        let len = request.build(&mut self.tx_buffer)?;
        let frame = &self.tx_buffer[0..len];
        assert(frame@ =~= channel_request_bytes(
            0x0207,
            self.state.channel_id,
            self.control_endpoint,
        ));
        Ok(frame)
    }

    /// Handle `CONNECTIONSTATE_RESPONSE` from its frame body.
    ///
    /// # Errors
    ///
    /// A transport error `BufferTooSmall` for fewer than 2 bytes; a
    /// connection error `Lost` if the status is not 0.
    pub fn handle_heartbeat_response(self, body: &[u8]) -> (r: KnxResult<TunnelClient<Connected>>)
        ensures
            (body@.len() >= 2 && body@[1] == 0) <==> r is Ok,
            r matches Ok(c) ==> c == self,
            r matches Err(e) ==> if body@.len() < 2 {
                e.is_transport(TransportErrorKind::BufferTooSmall)
            } else {
                e.is_connection(ConnectionErrorKind::Lost)
            },
    {
        let response = ConnectionStateResponse::parse(body)?;
        if !response.is_ok() {
            return Err(KnxError::connection_lost());
        }
        Ok(self)
    }

    /// Start disconnect (Connected → Disconnecting): the
    /// `DISCONNECT_REQUEST` frame is then in the client's buffer.
    pub fn disconnect(self) -> (r: KnxResult<TunnelClient<Disconnecting>>)
        ensures
            r matches Ok(c) && {
                &&& c.same_link(&self)
                &&& c.spec_state().frame_len == 16
                &&& c.spec_tx().take(16) == channel_request_bytes(
                    0x0209,
                    self.spec_state().channel_id,
                    self.spec_control_endpoint(),
                )
            },
    {
        let mut this = self;
        let request = DisconnectRequest::new(this.state.channel_id, this.control_endpoint);
        let len = request.build(&mut this.tx_buffer)?;
        assert(this.tx_buffer@.take(16) =~= channel_request_bytes(
            0x0209,
            this.state.channel_id,
            this.control_endpoint,
        ));
        Ok(this.into_state(Disconnecting { frame_len: len }))
    }
}

impl TunnelClient<Disconnecting> {
    /// Get the `DISCONNECT_REQUEST` frame data to send.
    pub fn frame_data(&self) -> (r: &[u8])
        requires
            self.spec_state().frame_len <= MAX_FRAME_SIZE,
        ensures
            r@ == self.spec_tx().take(self.spec_state().frame_len as int),
    {
        &self.tx_buffer[0..self.state.frame_len]
    }

    /// Handle `DISCONNECT_RESPONSE` and finish (Disconnecting → Idle).
    /// Always returns to Idle, whatever the response holds.
    pub fn finish(self, _response: &[u8]) -> (r: KnxResult<TunnelClient<Idle>>)
        ensures
            r matches Ok(c) && c.same_link(&self),
    {
        Ok(self.into_state(Idle))
    }

    /// Finish without waiting for response (emergency disconnect)
    pub fn finish_now(self) -> (r: TunnelClient<Idle>)
        ensures
            r.same_link(&self),
    {
        self.into_state(Idle)
    }
}

} // verus!
