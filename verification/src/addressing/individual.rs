//! KNX Individual Address implementation.
//!
//! Individual addresses identify physical devices on the KNX bus.
//! Format: Area.Line.Device (e.g., 1.1.5)
//! - Area: 0-15 (4 bits)
//! - Line: 0-15 (4 bits)
//! - Device: 0-255 (8 bits)

use crate::codec::{be_bytes_u16, be_u16, overwrite_prefix, u16_from_be, u16_hi, u16_lo};
use crate::error::{AddressingErrorKind, KnxError, KnxResult, TransportErrorKind};
use crate::text::{
    ascii_bytes, decimal, format_joined3, lemma_decimal_digits, lemma_decimal_parses,
    lemma_joined3_bytes, lemma_parts_from_unfold, lemma_split_joined3, next_sep, parse_uint,
    parse_unsigned, split_by,
};
use vstd::prelude::*;
use vstd::string::StringSliceAdditionalSpecFns;
use vstd::utf8::encode_utf8;

verus! {

/// KNX Individual Address (Area.Line.Device)
///
/// Used to identify physical devices on the KNX bus.  Its view is the raw
/// 16-bit value.
#[derive(Debug, Clone, Copy, PartialEq, Eq, Hash, Structural)]
pub struct IndividualAddress {
    raw: u16,
}

impl View for IndividualAddress {
    type V = u16;

    closed spec fn view(&self) -> u16 {
        self.raw
    }
}

/// The raw value of the address `area.line.device`.
pub open spec fn individual_raw(area: int, line: int, device: int) -> int {
    area * 4096 + line * 256 + device
}

/// What the text `s` denotes as an individual address: the raw value, or the
/// kind of addressing error reported for it.
pub open spec fn individual_address_from_text(s: Seq<u8>) -> Result<u16, AddressingErrorKind> {
    let parts = split_by(s, 46);
    if parts.len() != 3 {
        Err(AddressingErrorKind::InvalidIndividualAddress)
    } else {
        let area = parse_unsigned(parts[0], 255);
        let line = parse_unsigned(parts[1], 255);
        let device = parse_unsigned(parts[2], 255);
        if area is None || line is None || device is None {
            Err(AddressingErrorKind::InvalidIndividualAddress)
        } else if area->0 > 15 || line->0 > 15 {
            Err(AddressingErrorKind::OutOfRange)
        } else {
            Ok(individual_raw(area->0 as int, line->0 as int, device->0 as int) as u16)
        }
    }
}

/// The text `area.line.device` of a raw address.
pub open spec fn individual_text(raw: u16) -> Seq<char> {
    decimal(raw as nat / 4096) + seq!['.'] + decimal((raw as nat / 256) % 16) + seq!['.']
        + decimal(raw as nat % 256)
}

impl IndividualAddress {
    /// The text `area.line.device`.
    pub fn to_string(&self) -> (r: String)
        ensures
            r@ == individual_text(self@),
    {
        format_joined3(self.area(), self.line(), self.device(), '.')
    }

    /// Maximum area value (4 bits)
    pub const MAX_AREA: u8 = 15;

    /// Maximum line value (4 bits)
    pub const MAX_LINE: u8 = 15;

    /// Maximum device value (8 bits)
    pub const MAX_DEVICE: u8 = 255;

    /// Create a new Individual Address from components.
    ///
    /// # Errors
    ///
    /// Returns an addressing error of kind `OutOfRange` if `area > 15` or
    /// `line > 15`.
    pub fn new(area: u8, line: u8, device: u8) -> (r: KnxResult<Self>)
        ensures
            (area <= 15 && line <= 15) <==> r is Ok,
            r matches Ok(a) ==> a@ == individual_raw(area as int, line as int, device as int),
            r matches Err(e) ==> e.is_addressing(AddressingErrorKind::OutOfRange),
    {
        if area > Self::MAX_AREA {
            return Err(KnxError::address_out_of_range());
        }
        if line > Self::MAX_LINE {
            return Err(KnxError::address_out_of_range());
        }
        let raw = ((area as u16) << 12) | ((line as u16) << 8) | (device as u16);
        assert(area <= 15 && line <= 15 ==> ((area as u16) << 12) | ((line as u16) << 8) | (
        device as u16) == area * 4096 + line * 256 + device) by (bit_vector);
        Ok(Self { raw })
    }

    /// Create an Individual Address from raw u16 value.
    pub fn from_raw(raw: u16) -> (r: Self)
        ensures
            r@ == raw,
    {
        Self { raw }
    }

    /// Get the raw u16 representation of the address.
    pub fn to_raw(self) -> (r: u16)
        ensures
            r == self@,
    {
        self.raw
    }

    /// Get the area component (0-15).
    pub fn area(self) -> (r: u8)
        ensures
            r == self@ / 4096,
    {
        let raw = self.raw;
        assert(((raw >> 12) & 0x0F) as u8 == raw / 4096) by (bit_vector);
        ((raw >> 12) & 0x0F) as u8
    }

    /// Get the line component (0-15).
    pub fn line(self) -> (r: u8)
        ensures
            r == (self@ / 256) % 16,
    {
        let raw = self.raw;
        assert(((raw >> 8) & 0x0F) as u8 == (raw / 256) % 16) by (bit_vector);
        ((raw >> 8) & 0x0F) as u8
    }

    /// Get the device component (0-255).
    pub fn device(self) -> (r: u8)
        ensures
            r == self@ % 256,
    {
        let raw = self.raw;
        assert((raw & 0xFF) as u8 == raw % 256) by (bit_vector);
        (raw & 0xFF) as u8
    }

    /// Encode the address into a byte buffer (big-endian).
    ///
    /// # Errors
    ///
    /// Returns a transport error of kind `BufferTooSmall` if the buffer holds
    /// fewer than 2 bytes; the buffer is then left unchanged.
    pub fn encode(&self, buf: &mut [u8]) -> (r: KnxResult<usize>)
        ensures
            old(buf)@.len() >= 2 <==> r is Ok,
            r is Ok ==> r == Ok::<usize, KnxError>(2) && final(buf)@ == overwrite_prefix(
                old(buf)@,
                be_bytes_u16(self@),
            ),
            r matches Err(e) ==> e.is_transport(TransportErrorKind::BufferTooSmall) && final(buf)@
                == old(buf)@,
    {
        if buf.len() < 2 {
            return Err(KnxError::buffer_too_small());
        }
        buf[0] = u16_hi(self.raw);
        buf[1] = u16_lo(self.raw);
        assert(buf@ =~= overwrite_prefix(old(buf)@, be_bytes_u16(self@)));
        Ok(2)
    }

    /// Decode an address from a byte buffer (big-endian).
    ///
    /// # Errors
    ///
    /// Returns a transport error of kind `BufferTooSmall` if the buffer holds
    /// fewer than 2 bytes.
    pub fn decode(buf: &[u8]) -> (r: KnxResult<Self>)
        ensures
            buf@.len() >= 2 <==> r is Ok,
            r matches Ok(a) ==> a@ == be_u16(buf@[0], buf@[1]),
            r matches Err(e) ==> e.is_transport(TransportErrorKind::BufferTooSmall),
    {
        if buf.len() < 2 {
            return Err(KnxError::buffer_too_small());
        }
        let raw = u16_from_be(buf[0], buf[1]);
        Ok(Self { raw })
    }

    fn parse_bytes(b: &[u8]) -> (r: KnxResult<Self>)
        ensures
            match individual_address_from_text(b@) {
                Ok(raw) => r matches Ok(a) && a@ == raw,
                Err(k) => r matches Err(e) && e.is_addressing(k),
            },
    {
        let ghost s = b@;
        let len = b.len();
        proof {
            lemma_parts_from_unfold(s, 46, 0);
        }
        let e0 = next_sep(b, 46u8, 0);
        if e0 >= len {
            return Err(KnxError::invalid_individual_address());
        }
        proof {
            lemma_parts_from_unfold(s, 46, e0 + 1);
        }
        let e1 = next_sep(b, 46u8, e0 + 1);
        if e1 >= len {
            return Err(KnxError::invalid_individual_address());
        }
        proof {
            lemma_parts_from_unfold(s, 46, e1 + 1);
        }
        let e2 = next_sep(b, 46u8, e1 + 1);
        if e2 < len {
            proof {
                lemma_parts_from_unfold(s, 46, e2 + 1);
            }
            return Err(KnxError::invalid_individual_address());
        }
        assert(split_by(s, 46).len() == 3);
        assert(split_by(s, 46)[0] == s.subrange(0, e0 as int));
        assert(split_by(s, 46)[1] == s.subrange(e0 + 1, e1 as int));
        assert(split_by(s, 46)[2] == s.subrange(e1 + 1, e2 as int));
        let area = match parse_uint(b, 0, e0, 255) {
            Some(v) => v,
            None => return Err(KnxError::invalid_individual_address()),
        };
        let line = match parse_uint(b, e0 + 1, e1, 255) {
            Some(v) => v,
            None => return Err(KnxError::invalid_individual_address()),
        };
        let device = match parse_uint(b, e1 + 1, e2, 255) {
            Some(v) => v,
            None => return Err(KnxError::invalid_individual_address()),
        };
        Self::new(area as u8, line as u8, device as u8)
    }
}

impl core::str::FromStr for IndividualAddress {
    type Err = KnxError;

    /// Parse the textual form `area.line.device`.
    ///
    /// A text of more than three parts is reported as an addressing error of
    /// kind `InvalidIndividualAddress`.
    fn from_str(s: &str) -> (r: KnxResult<Self>)
        ensures
            match individual_address_from_text(s.spec_bytes()) {
                Ok(raw) => r matches Ok(a) && a@ == raw,
                Err(k) => r matches Err(e) && e.is_addressing(k),
            },
    {
        Self::parse_bytes(s.as_bytes())
    }
}

/// An address built from its components gives those components back.
pub proof fn lemma_individual_components_roundtrip(area: u8, line: u8, device: u8)
    requires
        area <= 15,
        line <= 15,
    ensures
        ({
            let raw = individual_raw(area as int, line as int, device as int);
            &&& 0 <= raw <= 0xFFFF
            &&& raw / 4096 == area
            &&& (raw / 256) % 16 == line
            &&& raw % 256 == device
        }),
{
}

/// Reading the text of an address as `from_str` does (its UTF-8 bytes)
/// gives the address back.
pub proof fn lemma_individual_text_roundtrip(a: IndividualAddress)
    ensures
        individual_address_from_text(encode_utf8(individual_text(a@))) == Ok::<
            u16,
            AddressingErrorKind,
        >(a@),
{
    let raw = a@ as nat;
    let area = raw / 4096;
    let line = (raw / 256) % 16;
    let device = raw % 256;
    lemma_decimal_digits(area);
    lemma_decimal_digits(line);
    lemma_decimal_digits(device);
    lemma_decimal_parses(area, 255);
    lemma_decimal_parses(line, 255);
    lemma_decimal_parses(device, 255);
    lemma_joined3_bytes(area, line, device, '.');
    lemma_split_joined3(
        ascii_bytes(decimal(area)),
        ascii_bytes(decimal(line)),
        ascii_bytes(decimal(device)),
        46,
    );
    assert(area * 4096 + line * 256 + device == raw);
}

/// Decoding what `encode` wrote gives back the same address.
pub proof fn lemma_individual_encode_decode(a: IndividualAddress)
    ensures
        be_u16(be_bytes_u16(a@)[0], be_bytes_u16(a@)[1]) == a@,
{
}

} // verus!
