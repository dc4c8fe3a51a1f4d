//! DPT 9.xxx - 2-byte float
//!
//! Two bytes, big-endian: a 4-bit exponent in bits 14-11 and an 11-bit two's
//! complement mantissa in bits 10-0, for the value
//! `0.01 * mantissa * 2^exponent`.  The float arithmetic stays with the
//! application; this module holds the subtypes and the packing of the
//! exponent and mantissa into the two bytes.

use crate::codec::{be_bytes_u16, be_u16, overwrite_prefix, u16_from_be, u16_hi, u16_lo};
use crate::error::{DptErrorKind, KnxError, KnxResult, TransportErrorKind};
use vstd::prelude::*;

verus! {

/// DPT 9.xxx 2-byte float types
#[derive(Debug, Clone, Copy, PartialEq, Eq, Structural)]
pub enum Dpt9 {
    /// DPT 9.001 - Temperature (°C)
    Temperature,
    /// DPT 9.002 - Temperature difference (K)
    TemperatureDifference,
    /// DPT 9.003 - Kelvin per hour (K/h)
    KelvinPerHour,
    /// DPT 9.004 - Illuminance (lux)
    Illuminance,
    /// DPT 9.005 - Wind speed (m/s)
    WindSpeed,
    /// DPT 9.006 - Pressure (Pa)
    Pressure,
    /// DPT 9.007 - Humidity (%)
    Humidity,
    /// DPT 9.008 - Air quality (ppm)
    AirQuality,
    /// DPT 9.010 - Time difference (s)
    TimeDifference,
    /// DPT 9.011 - Time difference (ms)
    TimeDifferenceMs,
    /// DPT 9.020 - Voltage (mV)
    Voltage,
    /// DPT 9.021 - Current (mA)
    Current,
    /// DPT 9.022 - Power density (W/m²)
    PowerDensity,
    /// DPT 9.023 - Kelvin per percent (K/%)
    KelvinPerPercent,
    /// DPT 9.024 - Power (kW)
    Power,
}

/// The identifier of a DPT 9 subtype.
pub open spec fn dpt9_identifier(d: Dpt9) -> Seq<char> {
    match d {
        Dpt9::Temperature => "9.001"@,
        Dpt9::TemperatureDifference => "9.002"@,
        Dpt9::KelvinPerHour => "9.003"@,
        Dpt9::Illuminance => "9.004"@,
        Dpt9::WindSpeed => "9.005"@,
        Dpt9::Pressure => "9.006"@,
        Dpt9::Humidity => "9.007"@,
        Dpt9::AirQuality => "9.008"@,
        Dpt9::TimeDifference => "9.010"@,
        Dpt9::TimeDifferenceMs => "9.011"@,
        Dpt9::Voltage => "9.020"@,
        Dpt9::Current => "9.021"@,
        Dpt9::PowerDensity => "9.022"@,
        Dpt9::KelvinPerPercent => "9.023"@,
        Dpt9::Power => "9.024"@,
    }
}

/// The unit of a DPT 9 subtype.
pub open spec fn dpt9_unit(d: Dpt9) -> Seq<char> {
    match d {
        Dpt9::Temperature => "°C"@,
        Dpt9::TemperatureDifference => "K"@,
        Dpt9::KelvinPerHour => "K/h"@,
        Dpt9::Illuminance => "lux"@,
        Dpt9::WindSpeed => "m/s"@,
        Dpt9::Pressure => "Pa"@,
        Dpt9::Humidity => "%"@,
        Dpt9::AirQuality => "ppm"@,
        Dpt9::TimeDifference => "s"@,
        Dpt9::TimeDifferenceMs => "ms"@,
        Dpt9::Voltage => "mV"@,
        Dpt9::Current => "mA"@,
        Dpt9::PowerDensity => "W/m²"@,
        Dpt9::KelvinPerPercent => "K/%"@,
        Dpt9::Power => "kW"@,
    }
}

/// The 16-bit word of an exponent (0-15) and mantissa (-1024..=1023).
pub open spec fn dpt9_word(exponent: u8, mantissa: i16) -> u16 {
    (exponent * 2048 + (if mantissa < 0 {
        mantissa + 2048
    } else {
        mantissa as int
    })) as u16
}

/// The exponent of a word: bits 14-11.
pub open spec fn dpt9_exponent(word: u16) -> u8 {
    ((word / 2048) % 16) as u8
}

/// The mantissa of a word: bits 10-0 as 11-bit two's complement.
pub open spec fn dpt9_mantissa(word: u16) -> i16 {
    let m = word % 2048;
    if m >= 1024 {
        (m - 2048) as i16
    } else {
        m as i16
    }
}

impl Dpt9 {
    /// Get the DPT identifier string
    pub fn identifier(&self) -> (r: &'static str)
        ensures
            r@ == dpt9_identifier(*self),
    {
        match self {
            Dpt9::Temperature => "9.001",
            Dpt9::TemperatureDifference => "9.002",
            Dpt9::KelvinPerHour => "9.003",
            Dpt9::Illuminance => "9.004",
            Dpt9::WindSpeed => "9.005",
            Dpt9::Pressure => "9.006",
            Dpt9::Humidity => "9.007",
            Dpt9::AirQuality => "9.008",
            Dpt9::TimeDifference => "9.010",
            Dpt9::TimeDifferenceMs => "9.011",
            Dpt9::Voltage => "9.020",
            Dpt9::Current => "9.021",
            Dpt9::PowerDensity => "9.022",
            Dpt9::KelvinPerPercent => "9.023",
            Dpt9::Power => "9.024",
        }
    }

    /// Get the unit string
    pub fn unit(&self) -> (r: &'static str)
        ensures
            r@ == dpt9_unit(*self),
    {
        match self {
            Dpt9::Temperature => "°C",
            Dpt9::TemperatureDifference => "K",
            Dpt9::KelvinPerHour => "K/h",
            Dpt9::Illuminance => "lux",
            Dpt9::WindSpeed => "m/s",
            Dpt9::Pressure => "Pa",
            Dpt9::Humidity => "%",
            Dpt9::AirQuality => "ppm",
            Dpt9::TimeDifference => "s",
            Dpt9::TimeDifferenceMs => "ms",
            Dpt9::Voltage => "mV",
            Dpt9::Current => "mA",
            Dpt9::PowerDensity => "W/m²",
            Dpt9::KelvinPerPercent => "K/%",
            Dpt9::Power => "kW",
        }
    }

    /// The exponent and mantissa of the first two bytes, whose value is
    /// `0.01 * mantissa * 2^exponent`.
    ///
    /// # Errors
    ///
    /// `InvalidData` for fewer than 2 bytes.
    pub fn decode_fields(&self, bytes: &[u8]) -> (r: KnxResult<(u8, i16)>)
        ensures
            bytes@.len() >= 2 <==> r is Ok,
            r matches Ok(f) ==> f.0 == dpt9_exponent(be_u16(bytes@[0], bytes@[1]) as u16) && f.1
                == dpt9_mantissa(be_u16(bytes@[0], bytes@[1]) as u16),
            r matches Err(e) ==> e.is_dpt(DptErrorKind::InvalidData),
    {
        if bytes.len() < 2 {
            return Err(KnxError::invalid_dpt_data());
        }
        let value_u16 = u16_from_be(bytes[0], bytes[1]);
        assert(((value_u16 >> 11u16) & 0x0F) == (value_u16 / 2048) % 16) by (bit_vector);
        assert(value_u16 & 0x07FF == value_u16 % 2048) by (bit_vector);
        let exponent = ((value_u16 >> 11) & 0x0F) as u8;
        let mantissa_raw = value_u16 & 0x07FF;
        let mantissa: i16 = if mantissa_raw >= 0x0400 {
            (mantissa_raw as i16) - 2048
        } else {
            mantissa_raw as i16
        };
        Ok((exponent, mantissa))
    }

    /// Write the two bytes of an exponent (0-15) and a mantissa
    /// (-1024..=1023); returns 2.
    ///
    /// # Errors
    ///
    /// `BufferTooSmall` for a buffer of fewer than 2 bytes, left unchanged.
    pub fn encode_fields(&self, exponent: u8, mantissa: i16, buf: &mut [u8]) -> (r: KnxResult<
        usize,
    >)
        requires
            exponent <= 15,
            -1024 <= mantissa <= 1023,
        ensures
            old(buf)@.len() >= 2 <==> r is Ok,
            r is Ok ==> r == Ok::<usize, KnxError>(2) && final(buf)@ == overwrite_prefix(
                old(buf)@,
                be_bytes_u16(dpt9_word(exponent, mantissa)),
            ),
            r matches Err(e) ==> e.is_transport(TransportErrorKind::BufferTooSmall) && final(buf)@
                == old(buf)@,
    {
        if buf.len() < 2 {
            return Err(KnxError::buffer_too_small());
        }
        let low: u16 = if mantissa < 0 {
            (mantissa + 2048) as u16
        } else {
            mantissa as u16
        };
        let word: u16 = (exponent as u16) * 2048 + low;
        buf[0] = u16_hi(word);
        buf[1] = u16_lo(word);
        assert(buf@ =~= overwrite_prefix(old(buf)@, be_bytes_u16(dpt9_word(exponent, mantissa))));
        Ok(2)
    }
}

/// Unpacking the word of an exponent and mantissa gives them back.
pub proof fn lemma_dpt9_fields_roundtrip(exponent: u8, mantissa: i16)
    requires
        exponent <= 15,
        -1024 <= mantissa <= 1023,
    ensures
        dpt9_exponent(dpt9_word(exponent, mantissa)) == exponent,
        dpt9_mantissa(dpt9_word(exponent, mantissa)) == mantissa,
{
}

} // verus!
