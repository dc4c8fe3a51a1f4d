//! Network types for KNX communication.
//!
//! IPv4 addresses and UDP endpoints, with conversions from arrays, tuples,
//! integers and dotted text.

pub mod mock_transport;

use crate::codec::{be_bytes_u32, be_u32, u32_from_be, u32_to_be};
use crate::error::{AddressingErrorKind, KnxError};
use crate::text::{
    ascii_bytes, decimal, format_joined4, lemma_decimal_digits, lemma_decimal_parses,
    lemma_joined4_bytes, lemma_parts_from_unfold, lemma_split_joined4, next_sep, parse_uint,
    parse_unsigned, split_by,
};
use vstd::prelude::*;
use vstd::string::StringSliceAdditionalSpecFns;
use vstd::utf8::encode_utf8;

verus! {

/// IPv4 address representation: four octets.
#[derive(Debug, Clone, Copy, PartialEq, Eq, Hash)]
pub struct Ipv4Addr {
    octets: [u8; 4],
}

impl View for Ipv4Addr {
    type V = Seq<u8>;

    closed spec fn view(&self) -> Seq<u8> {
        self.octets@
    }
}

/// The octets of a text `a.b.c.d`, if it is one: exactly four parts, each a
/// number no greater than 255.
pub open spec fn ipv4_from_text(s: Seq<u8>) -> Option<Seq<u8>> {
    let parts = split_by(s, 46);
    if parts.len() == 4 && parse_unsigned(parts[0], 255) is Some && parse_unsigned(parts[1], 255)
        is Some && parse_unsigned(parts[2], 255) is Some && parse_unsigned(parts[3], 255) is Some {
        Some(
            seq![
                parse_unsigned(parts[0], 255)->0 as u8,
                parse_unsigned(parts[1], 255)->0 as u8,
                parse_unsigned(parts[2], 255)->0 as u8,
                parse_unsigned(parts[3], 255)->0 as u8,
            ],
        )
    } else {
        None
    }
}

/// The dotted text `a.b.c.d` of four octets.
pub open spec fn ipv4_text(o: Seq<u8>) -> Seq<char> {
    decimal(o[0] as nat) + seq!['.'] + decimal(o[1] as nat) + seq!['.'] + decimal(o[2] as nat)
        + seq!['.'] + decimal(o[3] as nat)
}

impl Ipv4Addr {
    /// The dotted text `a.b.c.d`.
    pub fn to_string(&self) -> (r: String)
        ensures
            r@ == ipv4_text(self@),
    {
        format_joined4(self.octets[0], self.octets[1], self.octets[2], self.octets[3], '.')
    }

    /// The unspecified address 0.0.0.0 (used for NAT mode in KNXnet/IP).
    pub fn unspecified() -> (r: Self)
        ensures
            r@ == seq![0u8, 0u8, 0u8, 0u8],
    {
        Self::new(0, 0, 0, 0)
    }

    /// The localhost address 127.0.0.1.
    pub fn localhost() -> (r: Self)
        ensures
            r@ == seq![127u8, 0u8, 0u8, 1u8],
    {
        Self::new(127, 0, 0, 1)
    }

    /// Create a new IPv4 address from individual octets.
    pub fn new(a: u8, b: u8, c: u8, d: u8) -> (r: Self)
        ensures
            r@ == seq![a, b, c, d],
    {
        let r = Self { octets: [a, b, c, d] };
        assert(r@ =~= seq![a, b, c, d]);
        r
    }

    /// Returns the four octets that make up this address.
    pub fn octets(&self) -> (r: [u8; 4])
        ensures
            r@ == self@,
    {
        self.octets
    }

    fn parse_bytes(b: &[u8]) -> (r: Result<Self, KnxError>)
        ensures
            match ipv4_from_text(b@) {
                Some(o) => r matches Ok(a) && a@ == o,
                None => r matches Err(e) && e.is_addressing(AddressingErrorKind::InvalidGroupAddress),
            },
    {
        let ghost s = b@;
        let len = b.len();
        proof {
            lemma_parts_from_unfold(s, 46, 0);
        }
        let e0 = next_sep(b, 46u8, 0);
        let o0 = parse_uint(b, 0, e0, 255);
        if e0 >= len {
            return Err(KnxError::invalid_address());
        }
        proof {
            lemma_parts_from_unfold(s, 46, e0 + 1);
        }
        let e1 = next_sep(b, 46u8, e0 + 1);
        let o1 = parse_uint(b, e0 + 1, e1, 255);
        if e1 >= len {
            return Err(KnxError::invalid_address());
        }
        proof {
            lemma_parts_from_unfold(s, 46, e1 + 1);
        }
        let e2 = next_sep(b, 46u8, e1 + 1);
        let o2 = parse_uint(b, e1 + 1, e2, 255);
        if e2 >= len {
            return Err(KnxError::invalid_address());
        }
        proof {
            lemma_parts_from_unfold(s, 46, e2 + 1);
        }
        let e3 = next_sep(b, 46u8, e2 + 1);
        let o3 = parse_uint(b, e2 + 1, e3, 255);
        if e3 < len {
            proof {
                lemma_parts_from_unfold(s, 46, e3 + 1);
            }
            return Err(KnxError::invalid_address());
        }
        assert(split_by(s, 46).len() == 4);
        assert(split_by(s, 46)[0] == s.subrange(0, e0 as int));
        assert(split_by(s, 46)[1] == s.subrange(e0 + 1, e1 as int));
        assert(split_by(s, 46)[2] == s.subrange(e1 + 1, e2 as int));
        assert(split_by(s, 46)[3] == s.subrange(e2 + 1, e3 as int));
        match (o0, o1, o2, o3) {
            (Some(a), Some(b1), Some(c), Some(d)) => {
                let r = Self { octets: [a as u8, b1 as u8, c as u8, d as u8] };
                assert(r@ =~= ipv4_from_text(s)->0);
                Ok(r)
            },
            _ => Err(KnxError::invalid_address()),
        }
    }
}

impl core::str::FromStr for Ipv4Addr {
    type Err = KnxError;

    /// Parse the dotted text `a.b.c.d`.
    fn from_str(s: &str) -> (r: Result<Self, KnxError>)
        ensures
            match ipv4_from_text(s.spec_bytes()) {
                Some(o) => r matches Ok(a) && a@ == o,
                None => r matches Err(e) && e.is_addressing(AddressingErrorKind::InvalidGroupAddress),
            },
    {
        Self::parse_bytes(s.as_bytes())
    }
}

impl From<[u8; 4]> for Ipv4Addr {
    fn from(octets: [u8; 4]) -> (r: Self)
        ensures
            r@ == octets@,
    {
        Self { octets }
    }
}

impl vstd::std_specs::convert::FromSpecImpl<[u8; 4]> for Ipv4Addr {
    open spec fn obeys_from_spec() -> bool {
        true
    }

    closed spec fn from_spec(v: [u8; 4]) -> Self {
        Ipv4Addr { octets: v }
    }
}

impl From<(u8, u8, u8, u8)> for Ipv4Addr {
    fn from(t: (u8, u8, u8, u8)) -> (r: Self)
        ensures
            r@ == seq![t.0, t.1, t.2, t.3],
    {
        let r = Self { octets: [t.0, t.1, t.2, t.3] };
        assert(r@ =~= seq![t.0, t.1, t.2, t.3]);
        r
    }
}

impl vstd::std_specs::convert::FromSpecImpl<(u8, u8, u8, u8)> for Ipv4Addr {
    open spec fn obeys_from_spec() -> bool {
        true
    }

    closed spec fn from_spec(t: (u8, u8, u8, u8)) -> Self {
        Ipv4Addr { octets: [t.0, t.1, t.2, t.3] }
    }
}

impl From<Ipv4Addr> for [u8; 4] {
    fn from(addr: Ipv4Addr) -> (r: [u8; 4])
        ensures
            r@ == addr@,
    {
        addr.octets
    }
}

impl vstd::std_specs::convert::FromSpecImpl<Ipv4Addr> for [u8; 4] {
    open spec fn obeys_from_spec() -> bool {
        true
    }

    closed spec fn from_spec(a: Ipv4Addr) -> [u8; 4] {
        a.octets
    }
}

impl From<u32> for Ipv4Addr {
    /// The octets of `ip`, most significant first.
    fn from(ip: u32) -> (r: Self)
        ensures
            r@ == be_bytes_u32(ip),
    {
        Self { octets: u32_to_be(ip) }
    }
}

impl vstd::std_specs::convert::FromSpecImpl<u32> for Ipv4Addr {
    open spec fn obeys_from_spec() -> bool {
        false
    }

    closed spec fn from_spec(ip: u32) -> Self {
        Ipv4Addr { octets: [0, 0, 0, 0] }
    }
}

impl From<Ipv4Addr> for u32 {
    /// The octets read as a big-endian integer.
    fn from(addr: Ipv4Addr) -> (r: u32)
        ensures
            r == be_u32(addr@[0], addr@[1], addr@[2], addr@[3]),
    {
        u32_from_be(addr.octets[0], addr.octets[1], addr.octets[2], addr.octets[3])
    }
}

impl vstd::std_specs::convert::FromSpecImpl<Ipv4Addr> for u32 {
    open spec fn obeys_from_spec() -> bool {
        false
    }

    closed spec fn from_spec(a: Ipv4Addr) -> u32 {
        0
    }
}

/// A network endpoint: an IPv4 address and a UDP port.
#[derive(Debug, Clone, Copy, PartialEq, Eq, Hash)]
pub struct IpEndpoint {
    /// IPv4 address
    pub addr: Ipv4Addr,
    /// UDP port
    pub port: u16,
}

impl IpEndpoint {
    /// The unspecified endpoint 0.0.0.0:0.
    pub fn unspecified() -> (r: Self)
        ensures
            r.addr@ == seq![0u8, 0u8, 0u8, 0u8],
            r.port == 0,
    {
        Self { addr: Ipv4Addr::unspecified(), port: 0 }
    }

    /// Create an endpoint from an address and a port.
    pub fn new(addr: Ipv4Addr, port: u16) -> (r: Self)
        ensures
            r.addr == addr,
            r.port == port,
    {
        Self { addr, port }
    }
}

/// Converting an address to an integer and back gives the same octets.
pub proof fn lemma_ipv4_u32_roundtrip(x: u32)
    ensures
        be_u32(be_bytes_u32(x)[0], be_bytes_u32(x)[1], be_bytes_u32(x)[2], be_bytes_u32(x)[3]) == x,
{
    crate::codec::lemma_be_u32_roundtrip(x);
}

/// Reading the dotted text of an address as `from_str` does (its UTF-8
/// bytes) gives its octets back.
pub proof fn lemma_ipv4_text_roundtrip(a: Ipv4Addr)
    ensures
        ipv4_from_text(encode_utf8(ipv4_text(a@))) == Some(a@),
{
    let o = a@;
    assert(o.len() == 4);
    lemma_decimal_digits(o[0] as nat);
    lemma_decimal_digits(o[1] as nat);
    lemma_decimal_digits(o[2] as nat);
    lemma_decimal_digits(o[3] as nat);
    lemma_decimal_parses(o[0] as nat, 255);
    lemma_decimal_parses(o[1] as nat, 255);
    lemma_decimal_parses(o[2] as nat, 255);
    lemma_decimal_parses(o[3] as nat, 255);
    lemma_joined4_bytes(o[0] as nat, o[1] as nat, o[2] as nat, o[3] as nat, '.');
    lemma_split_joined4(
        ascii_bytes(decimal(o[0] as nat)),
        ascii_bytes(decimal(o[1] as nat)),
        ascii_bytes(decimal(o[2] as nat)),
        ascii_bytes(decimal(o[3] as nat)),
        46,
    );
    assert(seq![o[0], o[1], o[2], o[3]] =~= o);
}

/// An address converted from four octets has those octets.
pub proof fn lemma_ipv4_from_octets(octets: [u8; 4])
    ensures
        <Ipv4Addr as vstd::std_specs::convert::FromSpec<[u8; 4]>>::from_spec(octets)@ == octets@,
{
}

} // verus!
