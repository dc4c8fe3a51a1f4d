//! KNXnet/IP service request and response builders.
//!
//! All builders write into a caller's buffer and return the number of bytes
//! written; all parsers read a frame body.
//!
//! ```text
//! Client                          Gateway
//!   |------- CONNECT_REQUEST ------->|
//!   |<------ CONNECT_RESPONSE -------|
//!   |------ TUNNELING_REQUEST ------>|
//!   |<------ TUNNELING_ACK ----------|
//!   |--- CONNECTIONSTATE_REQUEST --->|  (every 60s)
//!   |<-- CONNECTIONSTATE_RESPONSE ---|
//!   |------ DISCONNECT_REQUEST ----->|
//!   |<----- DISCONNECT_RESPONSE -----|
//! ```

use crate::codec::{be_bytes_u16, overwrite_prefix, u16_hi, u16_lo};
use crate::error::{KnxError, KnxResult, ProtocolErrorKind, TransportErrorKind};
use crate::protocol::frame::{hpai_bytes, hpai_of, Hpai};
use vstd::prelude::*;

verus! {

/// `seq` with the bytes from `off` on replaced by `data`.
pub open spec fn overwrite_at(seq: Seq<u8>, off: int, data: Seq<u8>) -> Seq<u8> {
    seq.take(off) + data + seq.skip(off + data.len())
}

/// The six header bytes of a version 1.0 frame of service code `service`
/// and total length `total`.
pub open spec fn service_header_bytes(service: u16, total: u16) -> Seq<u8> {
    seq![6u8, 0x10u8] + be_bytes_u16(service) + be_bytes_u16(total)
}

/// Write a version 1.0 frame header at the start of `buf`.
fn put_header(buf: &mut [u8], service: u16, total: u16)
    requires
        old(buf)@.len() >= 6,
    ensures
        final(buf)@ == overwrite_prefix(old(buf)@, service_header_bytes(service, total)),
{
    buf[0] = 0x06;
    buf[1] = 0x10;
    buf[2] = u16_hi(service);
    buf[3] = u16_lo(service);
    buf[4] = u16_hi(total);
    buf[5] = u16_lo(total);
    assert(buf@ =~= overwrite_prefix(old(buf)@, service_header_bytes(service, total)));
}

/// Write the eight bytes of an HPAI at `off`.
fn put_hpai(buf: &mut [u8], off: usize, h: &Hpai)
    requires
        off + 8 <= old(buf)@.len(),
    ensures
        final(buf)@ == overwrite_at(old(buf)@, off as int, hpai_bytes(*h)),
{
    buf[off] = h.structure_length;
    buf[off + 1] = h.host_protocol;
    buf[off + 2] = h.ip_address[0];
    buf[off + 3] = h.ip_address[1];
    buf[off + 4] = h.ip_address[2];
    buf[off + 5] = h.ip_address[3];
    buf[off + 6] = u16_hi(h.port);
    buf[off + 7] = u16_lo(h.port);
    assert(buf@ =~= overwrite_at(old(buf)@, off as int, hpai_bytes(*h)));
}

/// Write four bytes at `off`.
fn put4(buf: &mut [u8], off: usize, b0: u8, b1: u8, b2: u8, b3: u8)
    requires
        off + 4 <= old(buf)@.len(),
    ensures
        final(buf)@ == overwrite_at(old(buf)@, off as int, seq![b0, b1, b2, b3]),
{
    buf[off] = b0;
    buf[off + 1] = b1;
    buf[off + 2] = b2;
    buf[off + 3] = b3;
    assert(buf@ =~= overwrite_at(old(buf)@, off as int, seq![b0, b1, b2, b3]));
}

/// Connection Request Information (CRI) for tunneling
#[derive(Debug, Clone, Copy, PartialEq, Eq, Structural)]
pub struct ConnectionRequestInfo {
    /// Connection type (`TUNNEL_CONNECTION` = 0x04)
    pub connection_type: u8,
    /// KNX layer (`TUNNEL_LINKLAYER` = 0x02)
    pub knx_layer: u8,
}

/// The four bytes of a CRI on the wire.
pub open spec fn cri_bytes(c: ConnectionRequestInfo) -> Seq<u8> {
    seq![4u8, c.connection_type, c.knx_layer, 0u8]
}

impl ConnectionRequestInfo {
    /// Create a new CRI for tunnel link layer connection
    pub fn tunnel_link_layer() -> (r: Self)
        ensures
            r.connection_type == 0x04,
            r.knx_layer == 0x02,
    {
        Self { connection_type: 0x04, knx_layer: 0x02 }
    }

    /// Encode CRI to bytes.
    ///
    /// # Errors
    ///
    /// A transport error `BufferTooSmall` if the buffer holds fewer than 4
    /// bytes; the buffer is then left unchanged.
    pub fn encode(&self, buf: &mut [u8]) -> (r: KnxResult<usize>)
        ensures
            old(buf)@.len() >= 4 <==> r is Ok,
            r is Ok ==> r == Ok::<usize, KnxError>(4) && final(buf)@ == overwrite_prefix(
                old(buf)@,
                cri_bytes(*self),
            ),
            r matches Err(e) ==> e.is_transport(TransportErrorKind::BufferTooSmall) && final(buf)@
                == old(buf)@,
    {
        if buf.len() < 4 {
            return Err(KnxError::buffer_too_small());
        }
        put4(buf, 0, 4, self.connection_type, self.knx_layer, 0);
        assert(buf@ =~= overwrite_prefix(old(buf)@, cri_bytes(*self)));
        Ok(4)
    }

    /// Decode CRI from bytes.
    ///
    /// # Errors
    ///
    /// A transport error `BufferTooSmall` for fewer than 4 bytes; a protocol
    /// error `InvalidFrame` if the structure length is not 4.
    pub fn decode(data: &[u8]) -> (r: KnxResult<Self>)
        ensures
            (data@.len() >= 4 && data@[0] == 4) <==> r is Ok,
            r matches Ok(c) ==> c.connection_type == data@[1] && c.knx_layer == data@[2],
            r matches Err(e) ==> if data@.len() < 4 {
                e.is_transport(TransportErrorKind::BufferTooSmall)
            } else {
                e.is_protocol(ProtocolErrorKind::InvalidFrame)
            },
    {
        if data.len() < 4 {
            return Err(KnxError::buffer_too_small());
        }
        let length = data[0];
        if length != 4 {
            return Err(KnxError::invalid_frame());
        }
        Ok(Self { connection_type: data[1], knx_layer: data[2] })
    }
}

/// Decoding the bytes of a CRI gives it back.
pub proof fn lemma_cri_roundtrip(c: ConnectionRequestInfo)
    ensures
        cri_bytes(c).len() == 4,
        cri_bytes(c)[0] == 4,
        cri_bytes(c)[1] == c.connection_type,
        cri_bytes(c)[2] == c.knx_layer,
{
}

/// `CONNECT_REQUEST` service (0x0205)
#[derive(Debug, Clone, Copy)]
pub struct ConnectRequest {
    /// Control endpoint (for connection management)
    pub control_endpoint: Hpai,
    /// Data endpoint (for tunneling data)
    pub data_endpoint: Hpai,
    /// Connection request information
    pub cri: ConnectionRequestInfo,
}

/// The 26 bytes of a `CONNECT_REQUEST` frame.
pub open spec fn connect_request_bytes(r: ConnectRequest) -> Seq<u8> {
    service_header_bytes(0x0205, 26) + hpai_bytes(r.control_endpoint) + hpai_bytes(
        r.data_endpoint,
    ) + cri_bytes(r.cri)
}

impl ConnectRequest {
    /// Create a new `CONNECT_REQUEST`
    pub fn new(control_endpoint: Hpai, data_endpoint: Hpai) -> (r: Self)
        ensures
            r.control_endpoint == control_endpoint,
            r.data_endpoint == data_endpoint,
            r.cri.connection_type == 0x04,
            r.cri.knx_layer == 0x02,
    {
        Self { control_endpoint, data_endpoint, cri: ConnectionRequestInfo::tunnel_link_layer() }
    }

    /// Build the complete frame; returns the number of bytes written (26).
    ///
    /// # Errors
    ///
    /// A transport error `BufferTooSmall` if the buffer holds fewer than 26
    /// bytes; the buffer is then left unchanged.
    pub fn build(&self, buf: &mut [u8]) -> (r: KnxResult<usize>)
        ensures
            old(buf)@.len() >= 26 <==> r is Ok,
            r is Ok ==> r == Ok::<usize, KnxError>(26) && final(buf)@ == overwrite_prefix(
                old(buf)@,
                connect_request_bytes(*self),
            ),
            r matches Err(e) ==> e.is_transport(TransportErrorKind::BufferTooSmall) && final(buf)@
                == old(buf)@,
    {
        if buf.len() < 26 {
            return Err(KnxError::buffer_too_small());
        }
        put_header(buf, 0x0205, 26);
        put_hpai(buf, 6, &self.control_endpoint);
        put_hpai(buf, 14, &self.data_endpoint);
        put4(buf, 22, 4, self.cri.connection_type, self.cri.knx_layer, 0);
        assert(buf@ =~= overwrite_prefix(old(buf)@, connect_request_bytes(*self)));
        Ok(26)
    }
}

/// `CONNECT_RESPONSE` service (0x0206)
#[derive(Debug, Clone, Copy)]
pub struct ConnectResponse {
    /// Communication channel ID
    pub channel_id: u8,
    /// Status code (0 = OK)
    pub status: u8,
    /// Data endpoint assigned by server
    pub data_endpoint: Hpai,
    /// Connection response data
    pub crd: [u8; 4],
}

impl ConnectResponse {
    /// Parse from frame body.
    ///
    /// # Errors
    ///
    /// A transport error `BufferTooSmall` for fewer than 14 bytes; a protocol
    /// error `InvalidFrame` if the data endpoint's structure length is not 8.
    pub fn parse(data: &[u8]) -> (r: KnxResult<Self>)
        ensures
            (data@.len() >= 14 && data@[2] == 8) <==> r is Ok,
            r matches Ok(c) ==> {
                &&& c.channel_id == data@[0]
                &&& c.status == data@[1]
                &&& c.data_endpoint == hpai_of(data@.subrange(2, 10))
                &&& c.crd@ == data@.subrange(10, 14)
            },
            r matches Err(e) ==> if data@.len() < 14 {
                e.is_transport(TransportErrorKind::BufferTooSmall)
            } else {
                e.is_protocol(ProtocolErrorKind::InvalidFrame)
            },
    {
        if data.len() < 14 {
            return Err(KnxError::buffer_too_small());
        }
        let channel_id = data[0];
        let status = data[1];
        let data_endpoint = Hpai::parse(&data[2..10])?;
        let crd = [data[10], data[11], data[12], data[13]];
        assert(crd@ =~= data@.subrange(10, 14));
        Ok(Self { channel_id, status, data_endpoint, crd })
    }

    /// Check if connection was successful
    pub fn is_ok(&self) -> (b: bool)
        ensures
            b == (self.status == 0),
    {
        self.status == 0
    }
}

/// `CONNECTIONSTATE_REQUEST` service (0x0207)
#[derive(Debug, Clone, Copy)]
pub struct ConnectionStateRequest {
    /// Communication channel ID
    pub channel_id: u8,
    /// Control endpoint
    pub control_endpoint: Hpai,
}

/// The 16 bytes of a channel request (`CONNECTIONSTATE_REQUEST` or
/// `DISCONNECT_REQUEST`) of service code `service`.
pub open spec fn channel_request_bytes(service: u16, channel_id: u8, endpoint: Hpai) -> Seq<
    u8,
> {
    service_header_bytes(service, 16) + seq![channel_id, 0u8] + hpai_bytes(endpoint)
}

/// Write a channel request frame of 16 bytes.
fn build_channel_request(buf: &mut [u8], service: u16, channel_id: u8, endpoint: &Hpai) -> (r:
    KnxResult<usize>)
    ensures
        old(buf)@.len() >= 16 <==> r is Ok,
        r is Ok ==> r == Ok::<usize, KnxError>(16) && final(buf)@ == overwrite_prefix(
            old(buf)@,
            channel_request_bytes(service, channel_id, *endpoint),
        ),
        r matches Err(e) ==> e.is_transport(TransportErrorKind::BufferTooSmall) && final(buf)@
            == old(buf)@,
{
    if buf.len() < 16 {
        return Err(KnxError::buffer_too_small());
    }
    put_header(buf, service, 16);
    buf[6] = channel_id;
    buf[7] = 0x00;
    put_hpai(buf, 8, endpoint);
    assert(buf@ =~= overwrite_prefix(
        old(buf)@,
        channel_request_bytes(service, channel_id, *endpoint),
    ));
    Ok(16)
}

impl ConnectionStateRequest {
    /// Create a new `CONNECTIONSTATE_REQUEST`
    pub fn new(channel_id: u8, control_endpoint: Hpai) -> (r: Self)
        ensures
            r.channel_id == channel_id,
            r.control_endpoint == control_endpoint,
    {
        Self { channel_id, control_endpoint }
    }

    /// Build the complete frame; returns the number of bytes written (16).
    ///
    /// # Errors
    ///
    /// A transport error `BufferTooSmall` if the buffer holds fewer than 16
    /// bytes; the buffer is then left unchanged.
    pub fn build(&self, buf: &mut [u8]) -> (r: KnxResult<usize>)
        ensures
            old(buf)@.len() >= 16 <==> r is Ok,
            r is Ok ==> r == Ok::<usize, KnxError>(16) && final(buf)@ == overwrite_prefix(
                old(buf)@,
                channel_request_bytes(0x0207, self.channel_id, self.control_endpoint),
            ),
            r matches Err(e) ==> e.is_transport(TransportErrorKind::BufferTooSmall) && final(buf)@
                == old(buf)@,
    {
        build_channel_request(buf, 0x0207, self.channel_id, &self.control_endpoint)
    }
}

/// `CONNECTIONSTATE_RESPONSE` service (0x0208)
#[derive(Debug, Clone, Copy)]
pub struct ConnectionStateResponse {
    /// Communication channel ID
    pub channel_id: u8,
    /// Status code (0 = OK)
    pub status: u8,
}

impl ConnectionStateResponse {
    /// Parse from frame body.
    ///
    /// # Errors
    ///
    /// A transport error `BufferTooSmall` for fewer than 2 bytes.
    pub fn parse(data: &[u8]) -> (r: KnxResult<Self>)
        ensures
            data@.len() >= 2 <==> r is Ok,
            r matches Ok(c) ==> c.channel_id == data@[0] && c.status == data@[1],
            r matches Err(e) ==> e.is_transport(TransportErrorKind::BufferTooSmall),
    {
        if data.len() < 2 {
            return Err(KnxError::buffer_too_small());
        }
        Ok(Self { channel_id: data[0], status: data[1] })
    }

    /// Check if connection is still alive
    pub fn is_ok(&self) -> (b: bool)
        ensures
            b == (self.status == 0),
    {
        self.status == 0
    }
}

/// `DISCONNECT_REQUEST` service (0x0209)
#[derive(Debug, Clone, Copy)]
pub struct DisconnectRequest {
    /// Communication channel ID
    pub channel_id: u8,
    /// Control endpoint
    pub control_endpoint: Hpai,
}

impl DisconnectRequest {
    /// Create a new `DISCONNECT_REQUEST`
    pub fn new(channel_id: u8, control_endpoint: Hpai) -> (r: Self)
        ensures
            r.channel_id == channel_id,
            r.control_endpoint == control_endpoint,
    {
        Self { channel_id, control_endpoint }
    }

    /// Build the complete frame; returns the number of bytes written (16).
    ///
    /// # Errors
    ///
    /// A transport error `BufferTooSmall` if the buffer holds fewer than 16
    /// bytes; the buffer is then left unchanged.
    pub fn build(&self, buf: &mut [u8]) -> (r: KnxResult<usize>)
        ensures
            old(buf)@.len() >= 16 <==> r is Ok,
            r is Ok ==> r == Ok::<usize, KnxError>(16) && final(buf)@ == overwrite_prefix(
                old(buf)@,
                channel_request_bytes(0x0209, self.channel_id, self.control_endpoint),
            ),
            r matches Err(e) ==> e.is_transport(TransportErrorKind::BufferTooSmall) && final(buf)@
                == old(buf)@,
    {
        build_channel_request(buf, 0x0209, self.channel_id, &self.control_endpoint)
    }
}

/// `DISCONNECT_RESPONSE` service (0x020A)
#[derive(Debug, Clone, Copy)]
pub struct DisconnectResponse {
    /// Communication channel ID
    pub channel_id: u8,
    /// Status code (0 = OK)
    pub status: u8,
}

impl DisconnectResponse {
    /// Parse from frame body.
    ///
    /// # Errors
    ///
    /// A transport error `BufferTooSmall` for fewer than 2 bytes.
    pub fn parse(data: &[u8]) -> (r: KnxResult<Self>)
        ensures
            data@.len() >= 2 <==> r is Ok,
            r matches Ok(c) ==> c.channel_id == data@[0] && c.status == data@[1],
            r matches Err(e) ==> e.is_transport(TransportErrorKind::BufferTooSmall),
    {
        if data.len() < 2 {
            return Err(KnxError::buffer_too_small());
        }
        Ok(Self { channel_id: data[0], status: data[1] })
    }

    /// Check if disconnect was acknowledged
    pub fn is_ok(&self) -> (b: bool)
        ensures
            b == (self.status == 0),
    {
        self.status == 0
    }
}

/// Connection header for tunneling requests
#[derive(Debug, Clone, Copy, PartialEq, Eq, Structural)]
pub struct ConnectionHeader {
    /// Communication channel ID
    pub channel_id: u8,
    /// Sequence counter
    pub sequence_counter: u8,
}

/// The four bytes of a connection header on the wire.
pub open spec fn connection_header_bytes(h: ConnectionHeader) -> Seq<u8> {
    seq![4u8, h.channel_id, h.sequence_counter, 0u8]
}

/// The connection header that four bytes hold.
pub open spec fn connection_header_of(data: Seq<u8>) -> ConnectionHeader {
    ConnectionHeader { channel_id: data[1], sequence_counter: data[2] }
}

impl ConnectionHeader {
    /// Create a new connection header
    pub fn new(channel_id: u8, sequence_counter: u8) -> (r: Self)
        ensures
            r.channel_id == channel_id,
            r.sequence_counter == sequence_counter,
    {
        Self { channel_id, sequence_counter }
    }

    /// Encode to bytes.
    ///
    /// # Errors
    ///
    /// A transport error `BufferTooSmall` if the buffer holds fewer than 4
    /// bytes; the buffer is then left unchanged.
    pub fn encode(&self, buf: &mut [u8]) -> (r: KnxResult<usize>)
        ensures
            old(buf)@.len() >= 4 <==> r is Ok,
            r is Ok ==> r == Ok::<usize, KnxError>(4) && final(buf)@ == overwrite_prefix(
                old(buf)@,
                connection_header_bytes(*self),
            ),
            r matches Err(e) ==> e.is_transport(TransportErrorKind::BufferTooSmall) && final(buf)@
                == old(buf)@,
    {
        if buf.len() < 4 {
            return Err(KnxError::buffer_too_small());
        }
        put4(buf, 0, 4, self.channel_id, self.sequence_counter, 0);
        assert(buf@ =~= overwrite_prefix(old(buf)@, connection_header_bytes(*self)));
        Ok(4)
    }

    /// Decode from bytes (the structure length byte is not checked).
    ///
    /// # Errors
    ///
    /// A transport error `BufferTooSmall` for fewer than 4 bytes.
    pub fn decode(data: &[u8]) -> (r: KnxResult<Self>)
        ensures
            data@.len() >= 4 <==> r is Ok,
            r matches Ok(h) ==> h == connection_header_of(data@),
            r matches Err(e) ==> e.is_transport(TransportErrorKind::BufferTooSmall),
    {
        if data.len() < 4 {
            return Err(KnxError::buffer_too_small());
        }
        Ok(Self { channel_id: data[1], sequence_counter: data[2] })
    }
}

/// Decoding the bytes of a connection header gives it back.
pub proof fn lemma_connection_header_roundtrip(h: ConnectionHeader)
    ensures
        connection_header_bytes(h).len() == 4,
        connection_header_of(connection_header_bytes(h)) == h,
{
}

/// `TUNNELING_REQUEST` service (0x0420)
#[derive(Debug)]
pub struct TunnelingRequest<'a> {
    /// Connection header
    pub connection_header: ConnectionHeader,
    /// cEMI frame data
    pub cemi_data: &'a [u8],
}

/// The bytes of a `TUNNELING_REQUEST` frame carrying `cemi`; the length
/// field holds the total length modulo 2^16.
pub open spec fn tunneling_request_bytes(h: ConnectionHeader, cemi: Seq<u8>) -> Seq<u8> {
    service_header_bytes(0x0420, ((cemi.len() + 10) % 65536) as u16) + connection_header_bytes(
        h,
    ) + cemi
}

impl<'a> TunnelingRequest<'a> {
    /// Create a new `TUNNELING_REQUEST`
    pub fn new(connection_header: ConnectionHeader, cemi_data: &'a [u8]) -> (r: Self)
        ensures
            r.connection_header == connection_header,
            r.cemi_data@ == cemi_data@,
    {
        Self { connection_header, cemi_data }
    }

    /// Build the complete frame; returns the number of bytes written.
    ///
    /// # Errors
    ///
    /// A transport error `BufferTooSmall` if the buffer cannot hold the
    /// frame; the buffer is then left unchanged.
    pub fn build(&self, buf: &mut [u8]) -> (r: KnxResult<usize>)
        requires
            self.cemi_data@.len() <= usize::MAX - 10,
        ensures
            ({
                let total = self.cemi_data@.len() + 10;
                &&& old(buf)@.len() >= total <==> r is Ok
                &&& r is Ok ==> r == Ok::<usize, KnxError>(total as usize) && final(buf)@
                    == overwrite_prefix(
                    old(buf)@,
                    tunneling_request_bytes(self.connection_header, self.cemi_data@),
                )
                &&& r matches Err(e) ==> e.is_transport(TransportErrorKind::BufferTooSmall)
                    && final(buf)@ == old(buf)@
            }),
    {
        let total_len = 6 + 4 + self.cemi_data.len();
        if buf.len() < total_len {
            return Err(KnxError::buffer_too_small());
        }
        let total16 = (total_len % 65536) as u16;
        put_header(buf, 0x0420, total16);
        put4(
            buf,
            6,
            4,
            self.connection_header.channel_id,
            self.connection_header.sequence_counter,
            0,
        );
        let ghost before = buf@;
        let ghost head = service_header_bytes(0x0420, total16) + connection_header_bytes(
            self.connection_header,
        );
        assert(before =~= overwrite_prefix(old(buf)@, head));
        let mut i: usize = 0;
        while i < self.cemi_data.len()
            invariant
                0 <= i <= self.cemi_data@.len(),
                total_len == self.cemi_data@.len() + 10,
                total_len <= buf@.len(),
                buf@.len() == before.len(),
                forall|k: int| 0 <= k < 10 ==> buf@[k] == before[k],
                forall|k: int| 0 <= k < i ==> buf@[10 + k] == self.cemi_data@[k],
                forall|k: int| total_len <= k < buf@.len() ==> buf@[k] == before[k],
            decreases self.cemi_data@.len() - i,
        {
            buf[10 + i] = self.cemi_data[i];
            i = i + 1;
        }
        let ghost expected = tunneling_request_bytes(self.connection_header, self.cemi_data@);
        assert(expected =~= head + self.cemi_data@);
        assert forall|k: int| 0 <= k < buf@.len() implies buf@[k] == overwrite_prefix(
            old(buf)@,
            expected,
        )[k] by {
            if k < 10 {
                assert(buf@[k] == before[k]);
            } else if k < total_len {
                assert(buf@[k] == self.cemi_data@[k - 10]);
            } else {
                assert(buf@[k] == before[k]);
            }
        }
        assert(buf@ =~= overwrite_prefix(old(buf)@, expected));
        Ok(total_len)
    }

    /// Parse from frame body.
    ///
    /// # Errors
    ///
    /// A transport error `BufferTooSmall` for fewer than 4 bytes.
    pub fn parse(data: &'a [u8]) -> (r: KnxResult<Self>)
        ensures
            data@.len() >= 4 <==> r is Ok,
            r matches Ok(t) ==> t.connection_header == connection_header_of(data@)
                && t.cemi_data@ == data@.skip(4),
            r matches Err(e) ==> e.is_transport(TransportErrorKind::BufferTooSmall),
    {
        if data.len() < 4 {
            return Err(KnxError::buffer_too_small());
        }
        let connection_header = ConnectionHeader::decode(&data[0..4])?;
        let end = data.len();
        let cemi_data = &data[4..end];
        Ok(Self { connection_header, cemi_data })
    }
}

/// A tunneling request body (the frame without its header) parses back to
/// the connection header and cEMI data it was built from.
pub proof fn lemma_tunneling_request_roundtrip(h: ConnectionHeader, cemi: Seq<u8>)
    ensures
        ({
            let body = tunneling_request_bytes(h, cemi).skip(6);
            &&& body.len() >= 4
            &&& connection_header_of(body) == h
            &&& body.skip(4) == cemi
        }),
{
    let f = tunneling_request_bytes(h, cemi);
    let body = f.skip(6);
    assert(body =~= connection_header_bytes(h) + cemi);
    assert(body.skip(4) =~= cemi);
}

/// `TUNNELING_ACK` service (0x0421)
#[derive(Debug, Clone, Copy)]
pub struct TunnelingAck {
    /// Connection header
    pub connection_header: ConnectionHeader,
    /// Status code (0 = OK)
    pub status: u8,
}

/// The 11 bytes of a `TUNNELING_ACK` frame.
pub open spec fn tunneling_ack_bytes(a: TunnelingAck) -> Seq<u8> {
    service_header_bytes(0x0421, 11) + connection_header_bytes(a.connection_header) + seq![
        a.status,
    ]
}

impl TunnelingAck {
    /// Create a new `TUNNELING_ACK`
    pub fn new(connection_header: ConnectionHeader, status: u8) -> (r: Self)
        ensures
            r.connection_header == connection_header,
            r.status == status,
    {
        Self { connection_header, status }
    }

    /// Build the complete frame; returns the number of bytes written (11).
    ///
    /// # Errors
    ///
    /// A transport error `BufferTooSmall` if the buffer holds fewer than 11
    /// bytes; the buffer is then left unchanged.
    pub fn build(&self, buf: &mut [u8]) -> (r: KnxResult<usize>)
        ensures
            old(buf)@.len() >= 11 <==> r is Ok,
            r is Ok ==> r == Ok::<usize, KnxError>(11) && final(buf)@ == overwrite_prefix(
                old(buf)@,
                tunneling_ack_bytes(*self),
            ),
            r matches Err(e) ==> e.is_transport(TransportErrorKind::BufferTooSmall) && final(buf)@
                == old(buf)@,
    {
        if buf.len() < 11 {
            return Err(KnxError::buffer_too_small());
        }
        put_header(buf, 0x0421, 11);
        put4(
            buf,
            6,
            4,
            self.connection_header.channel_id,
            self.connection_header.sequence_counter,
            0,
        );
        buf[10] = self.status;
        assert(buf@ =~= overwrite_prefix(old(buf)@, tunneling_ack_bytes(*self)));
        Ok(11)
    }

    /// Parse from frame body.
    ///
    /// # Errors
    ///
    /// A transport error `BufferTooSmall` for fewer than 5 bytes.
    pub fn parse(data: &[u8]) -> (r: KnxResult<Self>)
        ensures
            data@.len() >= 5 <==> r is Ok,
            r matches Ok(a) ==> a.connection_header == connection_header_of(data@) && a.status
                == data@[4],
            r matches Err(e) ==> e.is_transport(TransportErrorKind::BufferTooSmall),
    {
        if data.len() < 5 {
            return Err(KnxError::buffer_too_small());
        }
        let connection_header = ConnectionHeader::decode(&data[0..4])?;
        let status = data[4];
        Ok(Self { connection_header, status })
    }

    /// Check if request was acknowledged successfully
    pub fn is_ok(&self) -> (b: bool)
        ensures
            b == (self.status == 0),
    {
        self.status == 0
    }
}

/// A tunneling ACK body (the frame without its header) parses back to the
/// ACK it was built from.
pub proof fn lemma_tunneling_ack_roundtrip(a: TunnelingAck)
    ensures
        ({
            let body = tunneling_ack_bytes(a).skip(6);
            &&& body.len() == 5
            &&& connection_header_of(body) == a.connection_header
            &&& body[4] == a.status
        }),
{
    let body = tunneling_ack_bytes(a).skip(6);
    assert(body =~= connection_header_bytes(a.connection_header) + seq![a.status]);
}

} // verus!
