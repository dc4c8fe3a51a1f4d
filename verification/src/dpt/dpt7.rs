//! DPT 7.xxx - 16-bit unsigned
//!
//! Two bytes, big-endian, the full range 0-65535 for every subtype.

use crate::codec::{be_bytes_u16, be_u16, u16_from_be, u16_hi, u16_lo};
use crate::dpt::DptDecode;
use crate::error::{DptErrorKind, KnxError, KnxResult};
use vstd::prelude::*;

verus! {

/// DPT 7.xxx 16-bit unsigned types
#[derive(Debug, Clone, Copy, PartialEq, Eq, Structural)]
pub enum Dpt7 {
    /// DPT 7.001 - Pulses (0-65535)
    Pulses,
    /// DPT 7.002 - Time Period (ms)
    TimePeriodMs,
    /// DPT 7.003 - Time Period (10ms)
    TimePeriod10Ms,
    /// DPT 7.004 - Time Period (100ms)
    TimePeriod100Ms,
    /// DPT 7.005 - Time Period (s)
    TimePeriodSec,
    /// DPT 7.006 - Time Period (min)
    TimePeriodMin,
    /// DPT 7.007 - Time Period (h)
    TimePeriodHr,
    /// DPT 7.010 - Property Data Type
    PropDataType,
    /// DPT 7.011 - Length (mm)
    LengthMm,
    /// DPT 7.012 - Current (mA)
    CurrentMa,
    /// DPT 7.013 - Brightness (lux)
    Brightness,
    /// DPT 7.600 - Color Temperature (K)
    ColorTemperature,
}

/// The identifier of a DPT 7 subtype.
pub open spec fn dpt7_identifier(d: Dpt7) -> Seq<char> {
    match d {
        Dpt7::Pulses => "7.001"@,
        Dpt7::TimePeriodMs => "7.002"@,
        Dpt7::TimePeriod10Ms => "7.003"@,
        Dpt7::TimePeriod100Ms => "7.004"@,
        Dpt7::TimePeriodSec => "7.005"@,
        Dpt7::TimePeriodMin => "7.006"@,
        Dpt7::TimePeriodHr => "7.007"@,
        Dpt7::PropDataType => "7.010"@,
        Dpt7::LengthMm => "7.011"@,
        Dpt7::CurrentMa => "7.012"@,
        Dpt7::Brightness => "7.013"@,
        Dpt7::ColorTemperature => "7.600"@,
    }
}

/// The unit of a DPT 7 subtype.
pub open spec fn dpt7_unit(d: Dpt7) -> Seq<char> {
    match d {
        Dpt7::Pulses => "pulses"@,
        Dpt7::TimePeriodMs => "ms"@,
        Dpt7::TimePeriod10Ms => "ms"@,
        Dpt7::TimePeriod100Ms => "ms"@,
        Dpt7::TimePeriodSec => "s"@,
        Dpt7::TimePeriodMin => "min"@,
        Dpt7::TimePeriodHr => "h"@,
        Dpt7::PropDataType => ""@,
        Dpt7::LengthMm => "mm"@,
        Dpt7::CurrentMa => "mA"@,
        Dpt7::Brightness => "lux"@,
        Dpt7::ColorTemperature => "K"@,
    }
}

impl Dpt7 {
    /// Get the DPT identifier string (e.g., "7.001")
    pub fn identifier(&self) -> (r: &'static str)
        ensures
            r@ == dpt7_identifier(*self),
    {
        match self {
            Dpt7::Pulses => "7.001",
            Dpt7::TimePeriodMs => "7.002",
            Dpt7::TimePeriod10Ms => "7.003",
            Dpt7::TimePeriod100Ms => "7.004",
            Dpt7::TimePeriodSec => "7.005",
            Dpt7::TimePeriodMin => "7.006",
            Dpt7::TimePeriodHr => "7.007",
            Dpt7::PropDataType => "7.010",
            Dpt7::LengthMm => "7.011",
            Dpt7::CurrentMa => "7.012",
            Dpt7::Brightness => "7.013",
            Dpt7::ColorTemperature => "7.600",
        }
    }

    /// Get the unit string for this DPT
    pub fn unit(&self) -> (r: &'static str)
        ensures
            r@ == dpt7_unit(*self),
    {
        match self {
            Dpt7::Pulses => "pulses",
            Dpt7::TimePeriodMs => "ms",
            Dpt7::TimePeriod10Ms => "ms",
            Dpt7::TimePeriod100Ms => "ms",
            Dpt7::TimePeriodSec => "s",
            Dpt7::TimePeriodMin => "min",
            Dpt7::TimePeriodHr => "h",
            Dpt7::PropDataType => "",
            Dpt7::LengthMm => "mm",
            Dpt7::CurrentMa => "mA",
            Dpt7::Brightness => "lux",
            Dpt7::ColorTemperature => "K",
        }
    }

    /// Get the valid range for this DPT (min, max): the full u16 range.
    pub fn range(&self) -> (r: (u16, u16))
        ensures
            r == (0u16, 65535u16),
    {
        (0, 65535)
    }

    /// Encode a value to 2 bytes, big-endian (always `Ok`).
    pub fn encode_to_bytes(&self, value: u16) -> (r: KnxResult<[u8; 2]>)
        ensures
            r matches Ok(b) && b@ == be_bytes_u16(value),
    {
        let b = [u16_hi(value), u16_lo(value)];
        assert(b@ =~= be_bytes_u16(value));
        Ok(b)
    }

    /// Decode the first 2 bytes (big-endian).
    ///
    /// # Errors
    ///
    /// `InvalidData` for fewer than 2 bytes.
    fn decode_raw(&self, data: &[u8]) -> (r: KnxResult<u16>)
        ensures
            data@.len() >= 2 <==> r is Ok,
            r matches Ok(v) ==> v == be_u16(data@[0], data@[1]),
            r matches Err(e) ==> e.is_dpt(DptErrorKind::InvalidData),
    {
        if data.len() < 2 {
            return Err(KnxError::invalid_dpt_data());
        }
        Ok(u16_from_be(data[0], data[1]))
    }
}

impl DptDecode<u16> for Dpt7 {
    /// Decode the first 2 bytes (big-endian); further bytes are ignored.
    ///
    /// # Errors
    ///
    /// `InvalidData` for fewer than 2 bytes.
    fn decode(&self, data: &[u8]) -> (r: KnxResult<u16>)
        ensures
            data@.len() >= 2 <==> r is Ok,
            r matches Ok(v) ==> v == be_u16(data@[0], data@[1]),
            r matches Err(e) ==> e.is_dpt(DptErrorKind::InvalidData),
    {
        self.decode_raw(data)
    }
}

/// Decoding the bytes a value encodes to gives the value back.
pub proof fn lemma_dpt7_roundtrip(value: u16)
    ensures
        be_u16(be_bytes_u16(value)[0], be_bytes_u16(value)[1]) == value,
{
}

} // verus!
