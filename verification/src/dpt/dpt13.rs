//! DPT 13.xxx - 32-bit signed
//!
//! Four bytes, big-endian two's complement, the full i32 range for every
//! subtype.

use crate::codec::{
    be_bytes_u32, be_u32, i32_bits, i32_of_bits, lemma_be_u32_roundtrip, lemma_signed_roundtrip,
    overwrite_prefix, signed_of_u32, twos_complement_u32, u32_from_be, u32_to_be,
};
use crate::dpt::{DptDecode, DptEncode};
use crate::error::{DptErrorKind, KnxError, KnxResult, TransportErrorKind};
use vstd::prelude::*;

verus! {

/// DPT 13.xxx 32-bit signed types
#[derive(Debug, Clone, Copy, PartialEq, Eq, Structural)]
pub enum Dpt13 {
    /// DPT 13.001 - Counter Pulses (signed)
    Counter,
    /// DPT 13.002 - Flow Rate (l/h)
    FlowRate,
    /// DPT 13.010 - Active Energy (Wh)
    ActiveEnergy,
    /// DPT 13.011 - Apparent Energy (`VAh`)
    ApparentEnergy,
    /// DPT 13.012 - Reactive Energy (`VArh`)
    ReactiveEnergy,
    /// DPT 13.013 - Active Energy (kWh)
    ActiveEnergyKwh,
    /// DPT 13.014 - Apparent Energy (kVAh)
    ApparentEnergyKvah,
    /// DPT 13.015 - Reactive Energy (kVArh)
    ReactiveEnergyKvarh,
    /// DPT 13.100 - Long Delta Time Period (s)
    LongDeltaTimeSec,
}

/// The identifier of a DPT 13 subtype.
pub open spec fn dpt13_identifier(d: Dpt13) -> Seq<char> {
    match d {
        Dpt13::Counter => "13.001"@,
        Dpt13::FlowRate => "13.002"@,
        Dpt13::ActiveEnergy => "13.010"@,
        Dpt13::ApparentEnergy => "13.011"@,
        Dpt13::ReactiveEnergy => "13.012"@,
        Dpt13::ActiveEnergyKwh => "13.013"@,
        Dpt13::ApparentEnergyKvah => "13.014"@,
        Dpt13::ReactiveEnergyKvarh => "13.015"@,
        Dpt13::LongDeltaTimeSec => "13.100"@,
    }
}

/// The unit of a DPT 13 subtype.
pub open spec fn dpt13_unit(d: Dpt13) -> Seq<char> {
    match d {
        Dpt13::Counter => "pulses"@,
        Dpt13::FlowRate => "l/h"@,
        Dpt13::ActiveEnergy => "Wh"@,
        Dpt13::ApparentEnergy => "VAh"@,
        Dpt13::ReactiveEnergy => "VArh"@,
        Dpt13::ActiveEnergyKwh => "kWh"@,
        Dpt13::ApparentEnergyKvah => "kVAh"@,
        Dpt13::ReactiveEnergyKvarh => "kVArh"@,
        Dpt13::LongDeltaTimeSec => "s"@,
    }
}

/// The four bytes of a signed value.
pub open spec fn dpt13_bytes(value: i32) -> Seq<u8> {
    be_bytes_u32(twos_complement_u32(value))
}

/// The signed value of the first four bytes.
pub open spec fn dpt13_value(data: Seq<u8>) -> i32 {
    signed_of_u32(be_u32(data[0], data[1], data[2], data[3]) as u32)
}

impl Dpt13 {
    /// Get the DPT identifier string (e.g., "13.001")
    pub fn identifier(&self) -> (r: &'static str)
        ensures
            r@ == dpt13_identifier(*self),
    {
        match self {
            Dpt13::Counter => "13.001",
            Dpt13::FlowRate => "13.002",
            Dpt13::ActiveEnergy => "13.010",
            Dpt13::ApparentEnergy => "13.011",
            Dpt13::ReactiveEnergy => "13.012",
            Dpt13::ActiveEnergyKwh => "13.013",
            Dpt13::ApparentEnergyKvah => "13.014",
            Dpt13::ReactiveEnergyKvarh => "13.015",
            Dpt13::LongDeltaTimeSec => "13.100",
        }
    }

    /// Get the unit string for this DPT
    pub fn unit(&self) -> (r: &'static str)
        ensures
            r@ == dpt13_unit(*self),
    {
        match self {
            Dpt13::Counter => "pulses",
            Dpt13::FlowRate => "l/h",
            Dpt13::ActiveEnergy => "Wh",
            Dpt13::ApparentEnergy => "VAh",
            Dpt13::ReactiveEnergy => "VArh",
            Dpt13::ActiveEnergyKwh => "kWh",
            Dpt13::ApparentEnergyKvah => "kVAh",
            Dpt13::ReactiveEnergyKvarh => "kVArh",
            Dpt13::LongDeltaTimeSec => "s",
        }
    }

    /// Get the valid range for this DPT (min, max): the full i32 range.
    pub fn range(&self) -> (r: (i32, i32))
        ensures
            r == (i32::MIN, i32::MAX),
    {
        (i32::MIN, i32::MAX)
    }

    /// Decode the first 4 bytes (big-endian two's complement).
    ///
    /// # Errors
    ///
    /// `InvalidData` for fewer than 4 bytes.
    fn decode_raw(&self, data: &[u8]) -> (r: KnxResult<i32>)
        ensures
            data@.len() >= 4 <==> r is Ok,
            r matches Ok(v) ==> v == dpt13_value(data@),
            r matches Err(e) ==> e.is_dpt(DptErrorKind::InvalidData),
    {
        if data.len() < 4 {
            return Err(KnxError::invalid_dpt_data());
        }
        Ok(i32_of_bits(u32_from_be(data[0], data[1], data[2], data[3])))
    }
}

impl DptEncode<i32> for Dpt13 {
    /// Writes the 4 bytes of the value, big-endian two's complement.
    ///
    /// # Errors
    ///
    /// `BufferTooSmall` for a buffer of fewer than 4 bytes, left unchanged.
    fn encode(&self, value: i32, buf: &mut [u8]) -> (r: KnxResult<usize>)
        ensures
            old(buf)@.len() >= 4 <==> r is Ok,
            r is Ok ==> r == Ok::<usize, KnxError>(4) && final(buf)@ == overwrite_prefix(
                old(buf)@,
                dpt13_bytes(value),
            ),
            r matches Err(e) ==> e.is_transport(TransportErrorKind::BufferTooSmall) && final(buf)@
                == old(buf)@,
    {
        if buf.len() < 4 {
            return Err(KnxError::buffer_too_small());
        }
        let bytes = u32_to_be(i32_bits(value));
        buf[0] = bytes[0];
        buf[1] = bytes[1];
        buf[2] = bytes[2];
        buf[3] = bytes[3];
        assert(buf@ =~= overwrite_prefix(old(buf)@, dpt13_bytes(value)));
        Ok(4)
    }
}

impl DptDecode<i32> for Dpt13 {
    /// Decode the first 4 bytes; further bytes are ignored.
    ///
    /// # Errors
    ///
    /// `InvalidData` for fewer than 4 bytes.
    fn decode(&self, data: &[u8]) -> (r: KnxResult<i32>)
        ensures
            data@.len() >= 4 <==> r is Ok,
            r matches Ok(v) ==> v == dpt13_value(data@),
            r matches Err(e) ==> e.is_dpt(DptErrorKind::InvalidData),
    {
        self.decode_raw(data)
    }
}

/// Decoding the bytes a value encodes to gives the value back, for every
/// i32 including the extremes.
pub proof fn lemma_dpt13_roundtrip(value: i32)
    ensures
        dpt13_value(dpt13_bytes(value)) == value,
{
    lemma_be_u32_roundtrip(twos_complement_u32(value));
    lemma_signed_roundtrip(value);
}

} // verus!
