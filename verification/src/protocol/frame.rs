//! KNXnet/IP frame parsing and encoding.
//!
//! All KNXnet/IP frames follow this structure:
//!
//! ```text
//! ┌─────────────────────────────┐
//! │  Header (6 bytes)           │
//! │  - Header Length: 0x06      │
//! │  - Protocol Version: 0x10   │
//! │  - Service Type: 2 bytes    │
//! │  - Total Length: 2 bytes    │
//! ├─────────────────────────────┤
//! │  Body (variable)            │
//! │  - Service-specific data    │
//! └─────────────────────────────┘
//! ```
//!
//! Parsing is zero-copy: a parsed frame refers to the caller's buffer.

use crate::codec::{be_bytes_u16, be_u16, overwrite_prefix, u16_from_be, u16_hi, u16_lo};
use crate::error::{KnxError, KnxResult, ProtocolErrorKind, TransportErrorKind};
use crate::protocol::constants::{
    service_type_code, service_type_of, ServiceType, HEADER_SIZE_10, IPV4_UDP, KNXNETIP_VERSION_10,
    MAX_FRAME_SIZE,
};
use vstd::prelude::*;

verus! {

/// KNXnet/IP frame header (6 bytes)
///
/// ```text
/// ┌──────────────┬──────────────┬─────────────────────┐
/// │ Header Len   │ Protocol Ver │  Service Type ID    │
/// │   (1 byte)   │   (1 byte)   │     (2 bytes)       │
/// ├──────────────┴──────────────┴─────────────────────┤
/// │           Total Length (2 bytes)                   │
/// └────────────────────────────────────────────────────┘
/// ```
#[derive(Debug, Clone, Copy)]
pub struct KnxnetIpHeader {
    /// Header length (should be 0x06)
    pub header_length: u8,
    /// Protocol version (should be 0x10 for v1.0)
    pub protocol_version: u8,
    /// Service type identifier
    pub service_type: ServiceType,
    /// Total length of frame (header + body)
    pub total_length: u16,
}

/// The six bytes of a header on the wire.
pub open spec fn header_bytes(h: KnxnetIpHeader) -> Seq<u8> {
    seq![h.header_length, h.protocol_version] + be_bytes_u16(service_type_code(h.service_type))
        + be_bytes_u16(h.total_length)
}

/// The bytes `data` start with a well-formed header: long enough, of header
/// length 6, version 1.0 and a known service type.
pub open spec fn header_well_formed(data: Seq<u8>) -> bool {
    &&& data.len() >= 6
    &&& data[0] == 6
    &&& data[1] == 0x10
    &&& service_type_of(be_u16(data[2], data[3]) as u16) is Some
}

/// The header that well-formed bytes hold.
pub open spec fn header_of(data: Seq<u8>) -> KnxnetIpHeader {
    KnxnetIpHeader {
        header_length: data[0],
        protocol_version: data[1],
        service_type: service_type_of(be_u16(data[2], data[3]) as u16)->0,
        total_length: be_u16(data[4], data[5]) as u16,
    }
}

/// The error reported for bytes that do not start with a well-formed header.
pub open spec fn header_error(data: Seq<u8>, e: KnxError) -> bool {
    if data.len() < 6 {
        e.is_transport(TransportErrorKind::BufferTooSmall)
    } else if data[0] != 6 {
        e.is_protocol(ProtocolErrorKind::InvalidFrame)
    } else if data[1] != 0x10 {
        e.is_protocol(ProtocolErrorKind::UnsupportedVersion)
    } else {
        e.is_protocol(ProtocolErrorKind::UnsupportedServiceType)
    }
}

impl KnxnetIpHeader {
    /// Size of the header in bytes
    pub const SIZE: usize = 6;

    /// Create a new header for a body of `body_length` bytes.
    pub fn new(service_type: ServiceType, body_length: u16) -> (r: Self)
        requires
            body_length <= 0xFFFF - 6,
        ensures
            r.header_length == 6,
            r.protocol_version == 0x10,
            r.service_type == service_type,
            r.total_length == body_length + 6,
    {
        Self {
            header_length: HEADER_SIZE_10,
            protocol_version: KNXNETIP_VERSION_10,
            service_type,
            total_length: 6 + body_length,
        }
    }

    /// Parse a header from a byte slice.
    ///
    /// # Errors
    ///
    /// A transport error `BufferTooSmall` if fewer than 6 bytes are given;
    /// protocol errors `InvalidFrame` for a header length other than 6,
    /// `UnsupportedVersion` for a version other than 1.0 and
    /// `UnsupportedServiceType` for an unknown service type, checked in
    /// this order.
    pub fn parse(data: &[u8]) -> (r: KnxResult<Self>)
        ensures
            header_well_formed(data@) <==> r is Ok,
            r matches Ok(h) ==> h == header_of(data@),
            r matches Err(e) ==> header_error(data@, e),
    {
        if data.len() < Self::SIZE {
            return Err(KnxError::buffer_too_small());
        }
        let header_length = data[0];
        let protocol_version = data[1];
        let service_type_raw = u16_from_be(data[2], data[3]);
        let total_length = u16_from_be(data[4], data[5]);
        if header_length != HEADER_SIZE_10 {
            return Err(KnxError::invalid_frame());
        }
        if protocol_version != KNXNETIP_VERSION_10 {
            return Err(KnxError::unsupported_version());
        }
        let service_type = match ServiceType::from_u16(service_type_raw) {
            Some(s) => s,
            None => return Err(KnxError::unsupported_service_type()),
        };
        Ok(Self { header_length, protocol_version, service_type, total_length })
    }

    /// Encode the header into a byte buffer.
    ///
    /// # Errors
    ///
    /// A transport error `BufferTooSmall` if the buffer holds fewer than 6
    /// bytes; the buffer is then left unchanged.
    pub fn encode(&self, buf: &mut [u8]) -> (r: KnxResult<usize>)
        ensures
            old(buf)@.len() >= 6 <==> r is Ok,
            r is Ok ==> r == Ok::<usize, KnxError>(6) && final(buf)@ == overwrite_prefix(
                old(buf)@,
                header_bytes(*self),
            ),
            r matches Err(e) ==> e.is_transport(TransportErrorKind::BufferTooSmall) && final(buf)@
                == old(buf)@,
    {
        if buf.len() < Self::SIZE {
            return Err(KnxError::buffer_too_small());
        }
        let code = self.service_type.to_u16();
        buf[0] = self.header_length;
        buf[1] = self.protocol_version;
        buf[2] = u16_hi(code);
        buf[3] = u16_lo(code);
        buf[4] = u16_hi(self.total_length);
        buf[5] = u16_lo(self.total_length);
        assert(buf@ =~= overwrite_prefix(old(buf)@, header_bytes(*self)));
        Ok(Self::SIZE)
    }

    /// Get the expected body length from the header (0 if the total length
    /// is shorter than a header).
    pub fn body_length(&self) -> (r: u16)
        ensures
            r == (if self.total_length >= 6 {
                self.total_length - 6
            } else {
                0
            }),
    {
        if self.total_length >= 6 {
            self.total_length - 6
        } else {
            0
        }
    }
}

/// Parsing the bytes of a header gives that header back, for a header of
/// length 6, version 1.0.
pub proof fn lemma_header_roundtrip(h: KnxnetIpHeader)
    requires
        h.header_length == 6,
        h.protocol_version == 0x10,
    ensures
        header_well_formed(header_bytes(h)),
        header_of(header_bytes(h)) == h,
{
    let b = header_bytes(h);
    crate::protocol::constants::lemma_service_type_roundtrip(h.service_type);
    assert(be_u16(b[2], b[3]) == service_type_code(h.service_type));
    assert(be_u16(b[4], b[5]) == h.total_length);
}

/// Zero-copy view of a KNXnet/IP frame.
///
/// The frame refers to the caller's buffer, which holds at least the
/// header's total length, itself at least the 6 bytes of the header.
#[derive(Debug)]
pub struct KnxnetIpFrame<'a> {
    data: &'a [u8],
    header: KnxnetIpHeader,
}

impl<'a> View for KnxnetIpFrame<'a> {
    type V = Seq<u8>;

    /// The bytes the frame was parsed from.
    closed spec fn view(&self) -> Seq<u8> {
        self.data@
    }
}

impl<'a> KnxnetIpFrame<'a> {
    /// The parsed header.
    pub closed spec fn spec_header(&self) -> KnxnetIpHeader {
        self.header
    }

    #[verifier::type_invariant]
    spec fn frame_inv(&self) -> bool {
        self.data@.len() >= self.header.total_length >= 6
    }

    /// Parse a KNXnet/IP frame from a byte slice.
    ///
    /// # Errors
    ///
    /// The header's errors (see [`KnxnetIpHeader::parse`]), and a protocol
    /// error `InvalidFrame` if the header's total length is shorter than the
    /// header itself or longer than the buffer.
    pub fn parse(data: &'a [u8]) -> (r: KnxResult<Self>)
        ensures
            (header_well_formed(data@) && 6 <= header_of(data@).total_length <= data@.len()) <==> r is Ok,
            r matches Ok(f) ==> f@ == data@ && f.spec_header() == header_of(data@),
            r matches Err(e) ==> if header_well_formed(data@) {
                e.is_protocol(ProtocolErrorKind::InvalidFrame)
            } else {
                header_error(data@, e)
            },
    {
        let header = KnxnetIpHeader::parse(data)?;
        if header.total_length < 6 || data.len() < header.total_length as usize {
            return Err(KnxError::invalid_frame());
        }
        Ok(Self { data, header })
    }

    /// Get the frame header
    pub fn header(&self) -> (r: &KnxnetIpHeader)
        ensures
            *r == self.spec_header(),
    {
        &self.header
    }

    /// Get the service type
    pub fn service_type(&self) -> (r: ServiceType)
        ensures
            r == self.spec_header().service_type,
    {
        self.header.service_type
    }

    /// Get the frame body (the bytes after the header, up to the total
    /// length).
    pub fn body(&self) -> (r: &[u8])
        ensures
            r@ == self@.subrange(6, self.spec_header().total_length as int),
    {
        proof {
            use_type_invariant(self);
        }
        let end = self.header.total_length as usize;
        &self.data[6..end]
    }

    /// Get the complete frame data, header included, up to the total length.
    pub fn data(&self) -> (r: &[u8])
        ensures
            r@ == self@.subrange(0, self.spec_header().total_length as int),
    {
        proof {
            use_type_invariant(self);
        }
        let end = self.header.total_length as usize;
        &self.data[0..end]
    }
}

/// Builder for creating KNXnet/IP frames
#[derive(Debug)]
pub struct FrameBuilder<'a> {
    service_type: ServiceType,
    body: &'a [u8],
}

/// The bytes of a complete frame of service `s` with body `body`.
pub open spec fn frame_bytes(s: ServiceType, body: Seq<u8>) -> Seq<u8> {
    header_bytes(
        KnxnetIpHeader {
            header_length: 6,
            protocol_version: 0x10,
            service_type: s,
            total_length: (body.len() + 6) as u16,
        },
    ) + body
}

impl<'a> FrameBuilder<'a> {
    /// The service type of the frame to build.
    pub closed spec fn spec_service_type(&self) -> ServiceType {
        self.service_type
    }

    /// The body of the frame to build.
    pub closed spec fn spec_body(&self) -> Seq<u8> {
        self.body@
    }

    /// Create a new frame builder
    pub fn new(service_type: ServiceType, body: &'a [u8]) -> (r: Self)
        ensures
            r.spec_service_type() == service_type,
            r.spec_body() == body@,
    {
        Self { service_type, body }
    }

    /// Build the frame into a buffer.
    ///
    /// # Errors
    ///
    /// A protocol error `PayloadTooLarge` if the frame would exceed 256
    /// bytes; otherwise a transport error `BufferTooSmall` if the buffer
    /// cannot hold it.  On error the buffer is left unchanged.
    pub fn build(&self, buf: &mut [u8]) -> (r: KnxResult<usize>)
        ensures
            ({
                let total = self.spec_body().len() + 6;
                &&& (total <= 256 && old(buf)@.len() >= total) <==> r is Ok
                &&& r is Ok ==> r == Ok::<usize, KnxError>(total as usize) && final(buf)@
                    == overwrite_prefix(
                    old(buf)@,
                    frame_bytes(self.spec_service_type(), self.spec_body()),
                )
                &&& r matches Err(e) ==> final(buf)@ == old(buf)@ && if total > 256 {
                    e.is_protocol(ProtocolErrorKind::PayloadTooLarge)
                } else {
                    e.is_transport(TransportErrorKind::BufferTooSmall)
                }
            }),
    {
        if self.body.len() > MAX_FRAME_SIZE - 6 {
            return Err(KnxError::payload_too_large());
        }
        let total_size = KnxnetIpHeader::SIZE + self.body.len();
        if buf.len() < total_size {
            return Err(KnxError::buffer_too_small());
        }
        let header = KnxnetIpHeader::new(self.service_type, self.body.len() as u16);
        let _ = header.encode(buf);
        let ghost after_header = buf@;
        let mut i: usize = 0;
        while i < self.body.len()
            invariant
                0 <= i <= self.body@.len(),
                total_size == self.body@.len() + 6,
                total_size <= buf@.len(),
                buf@.len() == old(buf)@.len(),
                buf@.subrange(0, 6) == header_bytes(header),
                forall|k: int| 0 <= k < i ==> buf@[6 + k] == self.body@[k],
                forall|k: int| total_size <= k < buf@.len() ==> buf@[k] == old(buf)@[k],
            decreases self.body@.len() - i,
        {
            buf[6 + i] = self.body[i];
            i = i + 1;
        }
        assert(buf@ =~= overwrite_prefix(
            old(buf)@,
            frame_bytes(self.service_type, self.body@),
        ));
        Ok(total_size)
    }

    /// Calculate the total frame size
    pub fn size(&self) -> (r: usize)
        requires
            self.spec_body().len() <= usize::MAX - 6,
        ensures
            r == self.spec_body().len() + 6,
    {
        KnxnetIpHeader::SIZE + self.body.len()
    }
}

/// A frame built by [`FrameBuilder::build`] parses back to its service type
/// and body.
pub proof fn lemma_frame_build_parse(s: ServiceType, body: Seq<u8>)
    requires
        body.len() + 6 <= 256,
    ensures
        header_well_formed(frame_bytes(s, body)),
        header_of(frame_bytes(s, body)).service_type == s,
        header_of(frame_bytes(s, body)).total_length == body.len() + 6,
        frame_bytes(s, body).len() == body.len() + 6,
        frame_bytes(s, body).subrange(6, body.len() + 6int) == body,
{
    let h = KnxnetIpHeader {
        header_length: 6,
        protocol_version: 0x10,
        service_type: s,
        total_length: (body.len() + 6) as u16,
    };
    lemma_header_roundtrip(h);
    let f = frame_bytes(s, body);
    assert(f.subrange(0, 6) == header_bytes(h));
    assert(f.subrange(6, body.len() + 6int) =~= body);
}

/// Host Protocol Address Information (HPAI)
///
/// Structure containing endpoint information (IP address and port).
#[derive(Debug, Clone, Copy, PartialEq, Eq)]
pub struct Hpai {
    /// Structure length (should be 8 for IPv4)
    pub structure_length: u8,
    /// Host protocol code
    pub host_protocol: u8,
    /// IPv4 address (4 bytes)
    pub ip_address: [u8; 4],
    /// UDP port
    pub port: u16,
}

/// The eight bytes of an HPAI on the wire.
pub open spec fn hpai_bytes(h: Hpai) -> Seq<u8> {
    seq![h.structure_length, h.host_protocol] + h.ip_address@ + be_bytes_u16(h.port)
}

/// The HPAI that eight bytes hold.
pub open spec fn hpai_of(data: Seq<u8>) -> Hpai {
    Hpai {
        structure_length: data[0],
        host_protocol: data[1],
        ip_address: [data[2], data[3], data[4], data[5]],
        port: be_u16(data[6], data[7]) as u16,
    }
}

impl Hpai {
    /// Size of HPAI structure for IPv4
    pub const SIZE: usize = 8;

    /// Create a new HPAI for IPv4 UDP
    pub fn new(ip_address: [u8; 4], port: u16) -> (r: Self)
        ensures
            r.structure_length == 8,
            r.host_protocol == 1,
            r.ip_address == ip_address,
            r.port == port,
    {
        Self { structure_length: 8, host_protocol: IPV4_UDP, ip_address, port }
    }

    /// Parse HPAI from bytes.
    ///
    /// # Errors
    ///
    /// A transport error `BufferTooSmall` if fewer than 8 bytes are given;
    /// a protocol error `InvalidFrame` if the structure length is not 8.
    pub fn parse(data: &[u8]) -> (r: KnxResult<Self>)
        ensures
            (data@.len() >= 8 && data@[0] == 8) <==> r is Ok,
            r matches Ok(h) ==> h == hpai_of(data@),
            r matches Err(e) ==> if data@.len() < 8 {
                e.is_transport(TransportErrorKind::BufferTooSmall)
            } else {
                e.is_protocol(ProtocolErrorKind::InvalidFrame)
            },
    {
        if data.len() < Self::SIZE {
            return Err(KnxError::buffer_too_small());
        }
        let structure_length = data[0];
        let host_protocol = data[1];
        if structure_length != 8 {
            return Err(KnxError::invalid_frame());
        }
        let ip_address = [data[2], data[3], data[4], data[5]];
        let port = u16_from_be(data[6], data[7]);
        Ok(Self { structure_length, host_protocol, ip_address, port })
    }

    /// Encode HPAI into bytes.
    ///
    /// # Errors
    ///
    /// A transport error `BufferTooSmall` if the buffer holds fewer than 8
    /// bytes; the buffer is then left unchanged.
    pub fn encode(&self, buf: &mut [u8]) -> (r: KnxResult<usize>)
        ensures
            old(buf)@.len() >= 8 <==> r is Ok,
            r is Ok ==> r == Ok::<usize, KnxError>(8) && final(buf)@ == overwrite_prefix(
                old(buf)@,
                hpai_bytes(*self),
            ),
            r matches Err(e) ==> e.is_transport(TransportErrorKind::BufferTooSmall) && final(buf)@
                == old(buf)@,
    {
        if buf.len() < Self::SIZE {
            return Err(KnxError::buffer_too_small());
        }
        buf[0] = self.structure_length;
        buf[1] = self.host_protocol;
        buf[2] = self.ip_address[0];
        buf[3] = self.ip_address[1];
        buf[4] = self.ip_address[2];
        buf[5] = self.ip_address[3];
        buf[6] = u16_hi(self.port);
        buf[7] = u16_lo(self.port);
        assert(buf@ =~= overwrite_prefix(old(buf)@, hpai_bytes(*self)));
        Ok(Self::SIZE)
    }
}

/// Parsing the bytes of an HPAI of structure length 8 gives it back.
pub proof fn lemma_hpai_roundtrip(h: Hpai)
    requires
        h.structure_length == 8,
    ensures
        hpai_bytes(h).len() == 8,
        hpai_of(hpai_bytes(h)) == h,
{
    let b = hpai_bytes(h);
    assert(be_u16(b[6], b[7]) == h.port);
    assert(hpai_of(b).ip_address@ =~= h.ip_address@);
    assert(hpai_of(b).ip_address =~= h.ip_address);
}

} // verus!
