//! DPT 5.xxx - 8-bit unsigned
//!
//! One byte.  Percentages (0-100 %) and angles (0-360°) are scaled to the
//! byte's range 0-255; the other subtypes carry the value as it is.

use crate::dpt::{DptDecode, DptEncode};
use crate::error::{DptErrorKind, KnxError, KnxResult, TransportErrorKind};
use vstd::prelude::*;

verus! {

/// DPT 5.xxx 8-bit unsigned types
#[derive(Debug, Clone, Copy, PartialEq, Eq, Structural)]
pub enum Dpt5 {
    /// DPT 5.001 - Percentage (0-100%)
    Percentage,
    /// DPT 5.003 - Angle (0-360°)
    Angle,
    /// DPT 5.004 - Percentage 0-255 (0-255)
    PercentU8,
    /// DPT 5.005 - Ratio (0-255)
    Ratio,
    /// DPT 5.006 - Tariff (0-254)
    Tariff,
    /// DPT 5.010 - Counter pulses (0-255)
    Counter,
}

/// The identifier of a DPT 5 subtype.
pub open spec fn dpt5_identifier(d: Dpt5) -> Seq<char> {
    match d {
        Dpt5::Percentage => "5.001"@,
        Dpt5::Angle => "5.003"@,
        Dpt5::PercentU8 => "5.004"@,
        Dpt5::Ratio => "5.005"@,
        Dpt5::Tariff => "5.006"@,
        Dpt5::Counter => "5.010"@,
    }
}

/// The unit of a DPT 5 subtype.
pub open spec fn dpt5_unit(d: Dpt5) -> Seq<char> {
    match d {
        Dpt5::Percentage => "%"@,
        Dpt5::Angle => "°"@,
        Dpt5::PercentU8 => ""@,
        Dpt5::Ratio => ""@,
        Dpt5::Tariff => ""@,
        Dpt5::Counter => "pulses"@,
    }
}

/// The largest value of a DPT 5 subtype (the smallest is 0).
pub open spec fn dpt5_max(d: Dpt5) -> u16 {
    match d {
        Dpt5::Percentage => 100,
        Dpt5::Angle => 360,
        Dpt5::Tariff => 254,
        _ => 255,
    }
}

/// The byte a value in range encodes to: `value * 255 / 100` for a
/// percentage and `value * 255 / 360` for an angle, each rounded to the
/// nearest byte (halves up); the value itself otherwise.
pub open spec fn dpt5_scaled(d: Dpt5, value: u16) -> u8 {
    match d {
        Dpt5::Percentage => ((value * 255 + 50) / 100) as u8,
        Dpt5::Angle => ((value * 255 + 180) / 360) as u8,
        _ => value as u8,
    }
}

/// The value a byte decodes to: `raw * 100 / 255` rounded to the nearest
/// percent for a percentage, `raw * 360 / 255` rounded down to a whole
/// degree for an angle (so that 0x80 reads as 180°), the byte itself
/// otherwise.
pub open spec fn dpt5_unscaled(d: Dpt5, raw: u8) -> u16 {
    match d {
        Dpt5::Percentage => ((raw * 100 + 127) / 255) as u16,
        Dpt5::Angle => (raw * 360 / 255) as u16,
        _ => raw as u16,
    }
}

impl Dpt5 {
    /// Get the DPT identifier string (e.g., "5.001")
    pub fn identifier(&self) -> (r: &'static str)
        ensures
            r@ == dpt5_identifier(*self),
    {
        match self {
            Dpt5::Percentage => "5.001",
            Dpt5::Angle => "5.003",
            Dpt5::PercentU8 => "5.004",
            Dpt5::Ratio => "5.005",
            Dpt5::Tariff => "5.006",
            Dpt5::Counter => "5.010",
        }
    }

    /// Get the unit string for this DPT
    pub fn unit(&self) -> (r: &'static str)
        ensures
            r@ == dpt5_unit(*self),
    {
        match self {
            Dpt5::Percentage => "%",
            Dpt5::Angle => "°",
            Dpt5::PercentU8 => "",
            Dpt5::Ratio => "",
            Dpt5::Tariff => "",
            Dpt5::Counter => "pulses",
        }
    }

    /// Get the valid range for this DPT (min, max)
    pub fn range(&self) -> (r: (u16, u16))
        ensures
            r == (0u16, dpt5_max(*self)),
    {
        match self {
            Dpt5::Percentage => (0, 100),
            Dpt5::Angle => (0, 360),
            Dpt5::PercentU8 => (0, 255),
            Dpt5::Ratio => (0, 255),
            Dpt5::Tariff => (0, 254),
            Dpt5::Counter => (0, 255),
        }
    }

    /// Encode a value to its raw byte, scaling percentages and angles.
    ///
    /// # Errors
    ///
    /// `ValueOutOfRange` for a value above the subtype's maximum.
    fn encode_scaled(&self, value: u16) -> (r: KnxResult<u8>)
        ensures
            value <= dpt5_max(*self) <==> r is Ok,
            r matches Ok(b) ==> b == dpt5_scaled(*self, value),
            r matches Err(e) ==> e.is_dpt(DptErrorKind::ValueOutOfRange),
    {
        let (min, max) = self.range();
        if value > max {
            return Err(KnxError::dpt_value_out_of_range());
        }
        let scaled = match self {
            Dpt5::Percentage => {
                assert((value * 255 + 50) / 100 <= 255) by (nonlinear_arith)
                    requires
                        value <= 100,
                ;
                ((value as u32 * 255 + 50) / 100) as u8
            },
            Dpt5::Angle => {
                assert((value * 255 + 180) / 360 <= 255) by (nonlinear_arith)
                    requires
                        value <= 360,
                ;
                ((value as u32 * 255 + 180) / 360) as u8
            },
            Dpt5::PercentU8 | Dpt5::Ratio | Dpt5::Counter | Dpt5::Tariff => {
                if value < min || value > max {
                    return Err(KnxError::dpt_value_out_of_range());
                }
                value as u8
            },
        };
        Ok(scaled)
    }

    /// Decode a raw byte to its value, scaling percentages and angles back.
    ///
    /// # Errors
    ///
    /// `ValueOutOfRange` for a tariff of 255.
    fn decode_scaled(&self, raw: u8) -> (r: KnxResult<u16>)
        ensures
            !(*self == Dpt5::Tariff && raw > 254) <==> r is Ok,
            r matches Ok(v) ==> v == dpt5_unscaled(*self, raw),
            r matches Err(e) ==> e.is_dpt(DptErrorKind::ValueOutOfRange),
    {
        let value = match self {
            Dpt5::Percentage => {
                assert((raw * 100 + 127) / 255 <= 100) by (nonlinear_arith);
                ((raw as u32 * 100 + 127) / 255) as u16
            },
            Dpt5::Angle => {
                assert(raw * 360 / 255 <= 360) by (nonlinear_arith);
                ((raw as u32 * 360) / 255) as u16
            },
            Dpt5::Tariff => {
                if raw > 254 {
                    return Err(KnxError::dpt_value_out_of_range());
                }
                raw as u16
            },
            Dpt5::PercentU8 | Dpt5::Ratio | Dpt5::Counter => raw as u16,
        };
        Ok(value)
    }
}

impl DptEncode<u16> for Dpt5 {
    /// Writes the one byte of the value.
    ///
    /// # Errors
    ///
    /// `BufferTooSmall` for an empty buffer; `ValueOutOfRange` for a value
    /// above the subtype's maximum.  The buffer is then unchanged.
    fn encode(&self, value: u16, buf: &mut [u8]) -> (r: KnxResult<usize>)
        ensures
            (old(buf)@.len() >= 1 && value <= dpt5_max(*self)) <==> r is Ok,
            r is Ok ==> r == Ok::<usize, KnxError>(1) && final(buf)@ == old(buf)@.update(
                0,
                dpt5_scaled(*self, value),
            ),
            r matches Err(e) ==> final(buf)@ == old(buf)@ && if old(buf)@.len() < 1 {
                e.is_transport(TransportErrorKind::BufferTooSmall)
            } else {
                e.is_dpt(DptErrorKind::ValueOutOfRange)
            },
    {
        if buf.len() == 0 {
            return Err(KnxError::buffer_too_small());
        }
        buf[0] = self.encode_scaled(value)?;
        Ok(1)
    }
}

impl DptDecode<u16> for Dpt5 {
    /// Decodes the first byte.
    ///
    /// # Errors
    ///
    /// `InvalidData` for empty data; `ValueOutOfRange` for a tariff of 255.
    fn decode(&self, data: &[u8]) -> (r: KnxResult<u16>)
        ensures
            (data@.len() >= 1 && !(*self == Dpt5::Tariff && data@[0] > 254)) <==> r is Ok,
            r matches Ok(v) ==> v == dpt5_unscaled(*self, data@[0]),
            r matches Err(e) ==> if data@.len() < 1 {
                e.is_dpt(DptErrorKind::InvalidData)
            } else {
                e.is_dpt(DptErrorKind::ValueOutOfRange)
            },
    {
        if data.len() == 0 {
            return Err(KnxError::invalid_dpt_data());
        }
        self.decode_scaled(data[0])
    }
}

/// A value in range decodes back from its byte: exactly for a percentage
/// and for the unscaled subtypes, at most 1 below for an angle (whose
/// decoding rounds down).
pub proof fn lemma_dpt5_roundtrip(d: Dpt5, value: u16)
    requires
        value <= dpt5_max(d),
    ensures
        dpt5_unscaled(d, dpt5_scaled(d, value)) <= value,
        d == Dpt5::Angle ==> value <= dpt5_unscaled(d, dpt5_scaled(d, value)) + 1,
        d != Dpt5::Angle ==> dpt5_unscaled(d, dpt5_scaled(d, value)) == value,
{
    match d {
        Dpt5::Percentage => {
            let v = value as int;
            let s = (v * 255 + 50) / 100;
            assert(0 <= s <= 255 && 100 * s <= v * 255 + 50 && v * 255 + 50 < 100 * s + 100)
                by (nonlinear_arith)
                requires
                    0 <= v <= 100,
                    s == (v * 255 + 50) / 100,
            ;
            let back = (s * 100 + 127) / 255;
            assert(255 * back <= s * 100 + 127 && s * 100 + 127 < 255 * back + 255)
                by (nonlinear_arith)
                requires
                    0 <= s <= 255,
                    back == (s * 100 + 127) / 255,
            ;
            assert(back == v);
        },
        Dpt5::Angle => {
            let v = value as int;
            let s = (v * 255 + 180) / 360;
            assert(0 <= s <= 255 && 360 * s <= v * 255 + 180 && v * 255 + 180 < 360 * s + 360)
                by (nonlinear_arith)
                requires
                    0 <= v <= 360,
                    s == (v * 255 + 180) / 360,
            ;
            let back = s * 360 / 255;
            assert(255 * back <= s * 360 && s * 360 < 255 * back + 255) by (nonlinear_arith)
                requires
                    0 <= s <= 255,
                    back == s * 360 / 255,
            ;
            assert(back <= v && v <= back + 1);
        },
        _ => {},
    }
}

} // verus!
