//! KNX gateway discovery via `SEARCH_REQUEST`.
//!
//! ```text
//! Client                          Gateway
//!   |------- SEARCH_REQUEST -------->| (multicast 224.0.23.12:3671)
//!   |<------ SEARCH_RESPONSE --------|
//! ```
//!
//! This module builds the request, reads the response and computes the
//! subnet broadcast address; sending and waiting belong to the application.

use crate::codec::{
    be_bytes_u16, be_bytes_u32, be_u16, be_u32, overwrite_prefix, u16_from_be, u16_hi, u16_lo,
    u32_from_be, u32_to_be,
};
use vstd::prelude::*;

verus! {

/// KNX multicast address for discovery (224.0.23.12)
pub const KNX_MULTICAST_ADDR: [u8; 4] = [224, 0, 23, 12];

/// Standard KNX port
pub const KNX_PORT: u16 = 3671;

/// Discovered KNX gateway information
#[derive(Debug, Clone, Copy)]
pub struct GatewayInfo {
    /// Gateway IP address
    pub ip: [u8; 4],
    /// Gateway port (typically 3671)
    pub port: u16,
}

/// The 14 bytes of a `SEARCH_REQUEST` announcing the local endpoint: the
/// header (length 6, version 1.0, service 0x0201, total length 14) and the
/// HPAI (length 8, IPv4 UDP, address, port).
pub open spec fn search_request_bytes(local_ip: Seq<u8>, local_port: u16) -> Seq<u8> {
    seq![0x06u8, 0x10u8, 0x02u8, 0x01u8, 0x00u8, 0x0eu8, 0x08u8, 0x01u8] + local_ip + be_bytes_u16(
        local_port,
    )
}

/// Bytes that are a `SEARCH_RESPONSE` with an IPv4 UDP control endpoint.
pub open spec fn is_search_response(data: Seq<u8>) -> bool {
    &&& data.len() >= 14
    &&& data[0] == 0x06 && data[1] == 0x10
    &&& data[2] == 0x02 && data[3] == 0x02
    &&& data[6] == 0x08 && data[7] == 0x01
}

/// Build a `SEARCH_REQUEST` into `buffer` (at least 14 bytes); returns 14.
pub fn build_search_request(local_ip: [u8; 4], local_port: u16, buffer: &mut [u8]) -> (r: usize)
    requires
        old(buffer)@.len() >= 14,
    ensures
        r == 14,
        final(buffer)@ == overwrite_prefix(
            old(buffer)@,
            search_request_bytes(local_ip@, local_port),
        ),
{
    buffer[0] = 0x06;
    buffer[1] = 0x10;
    buffer[2] = 0x02;
    buffer[3] = 0x01;
    buffer[4] = 0x00;
    buffer[5] = 0x0e;
    buffer[6] = 0x08;
    buffer[7] = 0x01;
    buffer[8] = local_ip[0];
    buffer[9] = local_ip[1];
    buffer[10] = local_ip[2];
    buffer[11] = local_ip[3];
    buffer[12] = u16_hi(local_port);
    buffer[13] = u16_lo(local_port);
    assert(buffer@ =~= overwrite_prefix(old(buffer)@, search_request_bytes(local_ip@, local_port)));
    14
}

/// Parse a `SEARCH_RESPONSE`: the gateway's control endpoint, or `None`
/// for anything else.  The device information blocks after the endpoint
/// are ignored.
pub fn parse_search_response(data: &[u8]) -> (r: Option<GatewayInfo>)
    ensures
        is_search_response(data@) <==> r is Some,
        r matches Some(g) ==> g.ip@ == data@.subrange(8, 12) && g.port == be_u16(
            data@[12],
            data@[13],
        ),
{
    if data.len() < 14 {
        return None;
    }
    if data[0] != 0x06 || data[1] != 0x10 {
        return None;
    }
    if data[2] != 0x02 || data[3] != 0x02 {
        return None;
    }
    let hpai_len = data[6];
    let protocol = data[7];
    if hpai_len != 0x08 || protocol != 0x01 {
        return None;
    }
    let ip = [data[8], data[9], data[10], data[11]];
    let port = u16_from_be(data[12], data[13]);
    assert(ip@ =~= data@.subrange(8, 12));
    Some(GatewayInfo { ip, port })
}

/// The broadcast address of `ip` in a network of prefix length
/// `prefix_len`: its host bits all set (the address itself for a prefix of
/// 32 or more).
pub open spec fn broadcast_of(ip: Seq<u8>, prefix_len: u8) -> Seq<u8> {
    if prefix_len >= 32 {
        ip
    } else {
        let ip_u32 = be_u32(ip[0], ip[1], ip[2], ip[3]) as u32;
        be_bytes_u32(ip_u32 | (((1u32 << (32 - prefix_len) as u32) - 1) as u32))
    }
}

/// Calculate the broadcast address for an IP address and prefix length
/// (1 or more).
pub fn calculate_broadcast(ip: [u8; 4], prefix_len: u8) -> (r: [u8; 4])
    requires
        prefix_len >= 1,
    ensures
        r@ == broadcast_of(ip@, prefix_len),
{
    if prefix_len >= 32 {
        return ip;
    }
    let host_bits: u32 = 32 - prefix_len as u32;
    assert(1u32 << host_bits >= 1) by (bit_vector)
        requires
            host_bits <= 31,
    ;
    let low: u32 = (1u32 << host_bits) - 1;
    let mask = !low;
    let ip_u32 = u32_from_be(ip[0], ip[1], ip[2], ip[3]);
    assert(ip_u32 | !mask == ip_u32 | low) by (bit_vector)
        requires
            mask == !low,
    ;
    let broadcast_u32 = ip_u32 | !mask;
    u32_to_be(broadcast_u32)
}

} // verus!
