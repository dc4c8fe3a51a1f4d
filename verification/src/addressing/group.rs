//! KNX Group Address implementation.
//!
//! Group addresses represent logical groupings of devices for functional control.
//! Two formats are supported:
//! - 2-level: Main/Sub (e.g., 1/234)
//! - 3-level: Main/Middle/Sub (e.g., 1/2/3) - most common
//!
//! Internally stored as 16 bits:
//! - Main: 5 bits (0-31)
//! - Middle: 3 bits (0-7)
//! - Sub: 8 bits (0-255)

use crate::codec::{be_bytes_u16, be_u16, overwrite_prefix, u16_from_be, u16_hi, u16_lo};
use crate::error::{AddressingErrorKind, KnxError, KnxResult, TransportErrorKind};
use crate::text::{
    ascii_bytes, decimal, format_joined2, format_joined3, lemma_decimal_digits,
    lemma_decimal_parses, lemma_joined2_bytes, lemma_joined3_bytes, lemma_parts_from_unfold,
    lemma_split_joined2, lemma_split_joined3, next_sep, parse_uint, parse_unsigned, split_by,
};
use vstd::prelude::*;
use vstd::string::StringSliceAdditionalSpecFns;
use vstd::utf8::encode_utf8;

verus! {

/// KNX Group Address
///
/// Used for logical grouping of devices and functions.  Its view is the raw
/// 16-bit value.
#[derive(Debug, Clone, Copy, PartialEq, Eq, Hash, Structural)]
pub struct GroupAddress {
    raw: u16,
}

impl View for GroupAddress {
    type V = u16;

    closed spec fn view(&self) -> u16 {
        self.raw
    }
}

/// The raw value of the 3-level address `main/middle/sub`.
pub open spec fn group_raw_3level(main: int, middle: int, sub: int) -> int {
    main * 2048 + middle * 256 + sub
}

/// The raw value of the 2-level address `main/sub`.
pub open spec fn group_raw_2level(main: int, sub: int) -> int {
    main * 2048 + sub
}

/// What the text `s` denotes as a group address: the raw value, or the kind
/// of addressing error reported for it.
pub open spec fn group_address_from_text(s: Seq<u8>) -> Result<u16, AddressingErrorKind> {
    let parts = split_by(s, 47);
    let main = parse_unsigned(parts[0], 255);
    if main is None || parts.len() < 2 {
        Err(AddressingErrorKind::InvalidGroupAddress)
    } else {
        let middle = parse_unsigned(parts[1], 65535);
        if middle is None {
            Err(AddressingErrorKind::InvalidGroupAddress)
        } else if parts.len() >= 3 {
            let sub = parse_unsigned(parts[2], 255);
            if sub is None || parts.len() > 3 || middle->0 > 255 {
                Err(AddressingErrorKind::InvalidGroupAddress)
            } else if main->0 > 31 || middle->0 > 7 {
                Err(AddressingErrorKind::OutOfRange)
            } else {
                Ok(group_raw_3level(main->0 as int, middle->0 as int, sub->0 as int) as u16)
            }
        } else if main->0 > 31 || middle->0 > 2047 {
            Err(AddressingErrorKind::OutOfRange)
        } else {
            Ok(group_raw_2level(main->0 as int, middle->0 as int) as u16)
        }
    }
}

/// The 3-level text `main/middle/sub` of a raw address.
pub open spec fn group_text(raw: u16) -> Seq<char> {
    decimal(raw as nat / 2048) + seq!['/'] + decimal((raw as nat / 256) % 8) + seq!['/'] + decimal(
        raw as nat % 256,
    )
}

/// The 2-level text `main/sub` of a raw address.
pub open spec fn group_text_2level(raw: u16) -> Seq<char> {
    decimal(raw as nat / 2048) + seq!['/'] + decimal(raw as nat % 2048)
}

impl GroupAddress {
    /// The 3-level text `main/middle/sub`.
    pub fn to_string(&self) -> (r: String)
        ensures
            r@ == group_text(self@),
    {
        format_joined3(self.main(), self.middle(), self.sub(), '/')
    }

    /// Format as 3-level string (`main/middle/sub`).
    pub fn to_string_3level(&self) -> (r: String)
        ensures
            r@ == group_text(self@),
    {
        self.to_string()
    }

    /// Format as 2-level string (`main/sub`).
    pub fn to_string_2level(&self) -> (r: String)
        ensures
            r@ == group_text_2level(self@),
    {
        format_joined2(self.main() as u16, self.sub_2level(), '/')
    }

    /// Maximum main group value (5 bits)
    pub const MAX_MAIN: u8 = 31;

    /// Maximum middle group value (3 bits)
    pub const MAX_MIDDLE: u8 = 7;

    /// Maximum sub group value (8 bits)
    pub const MAX_SUB: u8 = 255;

    /// Maximum sub value for 2-level format (11 bits)
    pub const MAX_SUB_2LEVEL: u16 = 2047;

    /// Create a new 3-level Group Address (Main/Middle/Sub).
    ///
    /// # Errors
    ///
    /// Returns an addressing error of kind `OutOfRange` if `main > 31` or
    /// `middle > 7`.
    pub fn new(main: u8, middle: u8, sub: u8) -> (r: KnxResult<Self>)
        ensures
            (main <= 31 && middle <= 7) <==> r is Ok,
            r matches Ok(a) ==> a@ == group_raw_3level(main as int, middle as int, sub as int),
            r matches Err(e) ==> e.is_addressing(AddressingErrorKind::OutOfRange),
    {
        if main > Self::MAX_MAIN {
            return Err(KnxError::address_out_of_range());
        }
        if middle > Self::MAX_MIDDLE {
            return Err(KnxError::address_out_of_range());
        }
        let raw = ((main as u16) << 11) | ((middle as u16) << 8) | (sub as u16);
        assert(main <= 31 && middle <= 7 ==> ((main as u16) << 11) | ((middle as u16) << 8) | (
        sub as u16) == main * 2048 + middle * 256 + sub) by (bit_vector);
        Ok(Self { raw })
    }

    /// Create a new 2-level Group Address (Main/Sub).
    ///
    /// # Errors
    ///
    /// Returns an addressing error of kind `OutOfRange` if `main > 31` or
    /// `sub > 2047`.
    pub fn new_2level(main: u8, sub: u16) -> (r: KnxResult<Self>)
        ensures
            (main <= 31 && sub <= 2047) <==> r is Ok,
            r matches Ok(a) ==> a@ == group_raw_2level(main as int, sub as int),
            r matches Err(e) ==> e.is_addressing(AddressingErrorKind::OutOfRange),
    {
        if main > Self::MAX_MAIN {
            return Err(KnxError::address_out_of_range());
        }
        if sub > Self::MAX_SUB_2LEVEL {
            return Err(KnxError::address_out_of_range());
        }
        let raw = ((main as u16) << 11) | sub;
        assert(main <= 31 && sub <= 2047 ==> ((main as u16) << 11) | sub == main * 2048 + sub)
            by (bit_vector);
        Ok(Self { raw })
    }

    /// Create from a 3-element array `[main, middle, sub]`.
    pub fn from_array(parts: [u8; 3]) -> (r: KnxResult<Self>)
        ensures
            (parts[0] <= 31 && parts[1] <= 7) <==> r is Ok,
            r matches Ok(a) ==> a@ == group_raw_3level(
                parts[0] as int,
                parts[1] as int,
                parts[2] as int,
            ),
            r matches Err(e) ==> e.is_addressing(AddressingErrorKind::OutOfRange),
    {
        Self::new(parts[0], parts[1], parts[2])
    }

    /// Get the raw u16 representation of the address.
    pub fn raw(self) -> (r: u16)
        ensures
            r == self@,
    {
        self.raw
    }

    /// Get the main group component (0-31).
    pub fn main(self) -> (r: u8)
        ensures
            r == self@ / 2048,
    {
        let raw = self.raw;
        assert(((raw >> 11) & 0x1F) as u8 == raw / 2048) by (bit_vector);
        ((raw >> 11) & 0x1F) as u8
    }

    /// Get the middle group component for 3-level format (0-7).
    pub fn middle(self) -> (r: u8)
        ensures
            r == (self@ / 256) % 8,
    {
        let raw = self.raw;
        assert(((raw >> 8) & 0x07) as u8 == (raw / 256) % 8) by (bit_vector);
        ((raw >> 8) & 0x07) as u8
    }

    /// Get the sub group component for 3-level format (0-255).
    pub fn sub(self) -> (r: u8)
        ensures
            r == self@ % 256,
    {
        let raw = self.raw;
        assert((raw & 0xFF) as u8 == raw % 256) by (bit_vector);
        (raw & 0xFF) as u8
    }

    /// Get the sub group component for 2-level format (0-2047).
    pub fn sub_2level(self) -> (r: u16)
        ensures
            r == self@ % 2048,
    {
        let raw = self.raw;
        assert(raw & 0x07FF == raw % 2048) by (bit_vector);
        raw & 0x07FF
    }

    /// Encode the address into a byte buffer (big-endian).
    ///
    /// # Errors
    ///
    /// Returns a transport error of kind `BufferTooSmall` if the buffer holds
    /// fewer than 2 bytes; the buffer is then left unchanged.
    pub fn encode(&self, buf: &mut [u8]) -> (r: KnxResult<usize>)
        ensures
            old(buf)@.len() >= 2 <==> r is Ok,
            r is Ok ==> r == Ok::<usize, KnxError>(2) && final(buf)@ == overwrite_prefix(
                old(buf)@,
                be_bytes_u16(self@),
            ),
            r matches Err(e) ==> e.is_transport(TransportErrorKind::BufferTooSmall) && final(buf)@
                == old(buf)@,
    {
        if buf.len() < 2 {
            return Err(KnxError::buffer_too_small());
        }
        buf[0] = u16_hi(self.raw);
        buf[1] = u16_lo(self.raw);
        assert(buf@ =~= overwrite_prefix(old(buf)@, be_bytes_u16(self@)));
        Ok(2)
    }

    /// Decode an address from a byte buffer (big-endian).
    ///
    /// # Errors
    ///
    /// Returns a transport error of kind `BufferTooSmall` if the buffer holds
    /// fewer than 2 bytes.
    pub fn decode(buf: &[u8]) -> (r: KnxResult<Self>)
        ensures
            buf@.len() >= 2 <==> r is Ok,
            r matches Ok(a) ==> a@ == be_u16(buf@[0], buf@[1]),
            r matches Err(e) ==> e.is_transport(TransportErrorKind::BufferTooSmall),
    {
        if buf.len() < 2 {
            return Err(KnxError::buffer_too_small());
        }
        let raw = u16_from_be(buf[0], buf[1]);
        Ok(Self { raw })
    }

    fn parse_bytes(b: &[u8]) -> (r: KnxResult<Self>)
        ensures
            match group_address_from_text(b@) {
                Ok(raw) => r matches Ok(a) && a@ == raw,
                Err(k) => r matches Err(e) && e.is_addressing(k),
            },
    {
        let ghost s = b@;
        let len = b.len();
        proof {
            lemma_parts_from_unfold(s, 47, 0);
        }
        let e0 = next_sep(b, 47u8, 0);
        let main = match parse_uint(b, 0, e0, 255) {
            Some(v) => v,
            None => return Err(KnxError::invalid_group_address()),
        };
        if e0 >= len {
            return Err(KnxError::invalid_group_address());
        }
        proof {
            lemma_parts_from_unfold(s, 47, e0 + 1);
        }
        let e1 = next_sep(b, 47u8, e0 + 1);
        let middle = match parse_uint(b, e0 + 1, e1, 65535) {
            Some(v) => v,
            None => return Err(KnxError::invalid_group_address()),
        };
        assert(split_by(s, 47)[1] == s.subrange(e0 + 1, e1 as int));
        if e1 < len {
            proof {
                lemma_parts_from_unfold(s, 47, e1 + 1);
            }
            let e2 = next_sep(b, 47u8, e1 + 1);
            let sub = match parse_uint(b, e1 + 1, e2, 255) {
                Some(v) => v,
                None => return Err(KnxError::invalid_group_address()),
            };
            assert(split_by(s, 47)[2] == s.subrange(e1 + 1, e2 as int));
            if e2 < len {
                return Err(KnxError::invalid_group_address());
            }
            if middle > 255 {
                return Err(KnxError::invalid_group_address());
            }
            Self::new(main as u8, middle as u8, sub as u8)
        } else {
            Self::new_2level(main as u8, middle as u16)
        }
    }
}

impl core::str::FromStr for GroupAddress {
    type Err = KnxError;

    /// Parse the textual form `main/middle/sub` or `main/sub`.
    ///
    /// Errors are addressing errors of kind `InvalidGroupAddress` for a
    /// malformed text and of kind `OutOfRange` for a component too large.
    fn from_str(s: &str) -> (r: KnxResult<Self>)
        ensures
            match group_address_from_text(s.spec_bytes()) {
                Ok(raw) => r matches Ok(a) && a@ == raw,
                Err(k) => r matches Err(e) && e.is_addressing(k),
            },
    {
        Self::parse_bytes(s.as_bytes())
    }
}

impl From<u16> for GroupAddress {
    fn from(raw: u16) -> (r: Self)
        ensures
            r@ == raw,
    {
        Self { raw }
    }
}

impl vstd::std_specs::convert::FromSpecImpl<u16> for GroupAddress {
    open spec fn obeys_from_spec() -> bool {
        true
    }

    closed spec fn from_spec(v: u16) -> Self {
        GroupAddress { raw: v }
    }
}

impl From<GroupAddress> for u16 {
    fn from(addr: GroupAddress) -> (r: u16)
        ensures
            r == addr@,
    {
        addr.raw
    }
}

impl vstd::std_specs::convert::FromSpecImpl<GroupAddress> for u16 {
    open spec fn obeys_from_spec() -> bool {
        true
    }

    closed spec fn from_spec(v: GroupAddress) -> u16 {
        v.raw
    }
}

/// A 3-level address built from its components gives those components back.
pub proof fn lemma_group_components_roundtrip(main: u8, middle: u8, sub: u8)
    requires
        main <= 31,
        middle <= 7,
    ensures
        ({
            let raw = group_raw_3level(main as int, middle as int, sub as int);
            &&& 0 <= raw <= 0xFFFF
            &&& raw / 2048 == main
            &&& (raw / 256) % 8 == middle
            &&& raw % 256 == sub
        }),
{
}

/// A 2-level address built from its components gives those components back.
pub proof fn lemma_group_2level_roundtrip(main: u8, sub: u16)
    requires
        main <= 31,
        sub <= 2047,
    ensures
        ({
            let raw = group_raw_2level(main as int, sub as int);
            &&& 0 <= raw <= 0xFFFF
            &&& raw / 2048 == main
            &&& raw % 2048 == sub
        }),
{
}

/// Decoding what `encode` wrote gives back the same address.
pub proof fn lemma_group_encode_decode(a: GroupAddress)
    ensures
        be_u16(be_bytes_u16(a@)[0], be_bytes_u16(a@)[1]) == a@,
{
}

/// Reading the text of an address, 3-level or 2-level, as `from_str` does
/// (its UTF-8 bytes) gives the address back.
pub proof fn lemma_group_text_roundtrip(a: GroupAddress)
    ensures
        group_address_from_text(encode_utf8(group_text(a@))) == Ok::<u16, AddressingErrorKind>(
            a@,
        ),
        group_address_from_text(encode_utf8(group_text_2level(a@))) == Ok::<
            u16,
            AddressingErrorKind,
        >(a@),
{
    let raw = a@ as nat;
    let main = raw / 2048;
    let middle = (raw / 256) % 8;
    let sub = raw % 256;
    let sub2 = raw % 2048;
    lemma_decimal_digits(main);
    lemma_decimal_digits(middle);
    lemma_decimal_digits(sub);
    lemma_decimal_digits(sub2);
    lemma_decimal_parses(main, 255);
    lemma_decimal_parses(middle, 65535);
    lemma_decimal_parses(sub, 255);
    lemma_decimal_parses(sub2, 65535);
    lemma_joined3_bytes(main, middle, sub, '/');
    lemma_joined2_bytes(main, sub2, '/');
    lemma_split_joined3(
        ascii_bytes(decimal(main)),
        ascii_bytes(decimal(middle)),
        ascii_bytes(decimal(sub)),
        47,
    );
    lemma_split_joined2(ascii_bytes(decimal(main)), ascii_bytes(decimal(sub2)), 47);
    assert(main * 2048 + middle * 256 + sub == raw);
    assert(main * 2048 + sub2 == raw);
}

/// The group address of raw value `raw`.
pub closed spec fn group_address_of(raw: u16) -> GroupAddress {
    GroupAddress { raw }
}

/// A group address is the address of its raw value, and the address of a
/// raw value has that raw value.
pub proof fn lemma_group_address_of(a: GroupAddress, raw: u16)
    ensures
        group_address_of(a@) == a,
        group_address_of(raw)@ == raw,
{
}

/// The group address `main/middle/sub` of components known to be in range
/// (main 0-31, middle 0-7).
pub fn ga(main: u8, middle: u8, sub: u8) -> (r: GroupAddress)
    requires
        main <= 31,
        middle <= 7,
    ensures
        r@ == group_raw_3level(main as int, middle as int, sub as int),
{
    let m = main as u16;
    let d = middle as u16;
    let s = sub as u16;
    assert(((m & 0x1F) << 11u16) | ((d & 0x07) << 8u16) | (s & 0xFF) == m * 2048 + d * 256 + s)
        by (bit_vector)
        requires
            m <= 31,
            d <= 7,
            s <= 255,
    ;
    let raw: u16 = ((m & 0x1F) << 11) | ((d & 0x07) << 8) | (s & 0xFF);
    GroupAddress::from(raw)
}

} // verus!
