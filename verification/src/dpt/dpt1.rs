//! DPT 1.xxx - Boolean (1-bit)
//!
//! A binary state (on/off, true/false, ...) in the least significant bit of
//! the data byte; the other bits are ignored.

use crate::dpt::{DptDecode, DptEncode};
use crate::error::{DptErrorKind, KnxError, KnxResult, TransportErrorKind};
use vstd::prelude::*;

verus! {

/// DPT 1.xxx Boolean types
#[derive(Debug, Clone, Copy, PartialEq, Eq, Structural)]
pub enum Dpt1 {
    /// DPT 1.001 - Switch (off/on)
    Switch,
    /// DPT 1.002 - Bool (false/true)
    Bool,
    /// DPT 1.003 - Enable (disable/enable)
    Enable,
    /// DPT 1.004 - Ramp (no ramp/ramp)
    Ramp,
    /// DPT 1.005 - Alarm (no alarm/alarm)
    Alarm,
    /// DPT 1.006 - BinaryValue (low/high)
    BinaryValue,
    /// DPT 1.007 - Step (decrease/increase)
    Step,
    /// DPT 1.008 - UpDown (up/down)
    UpDown,
    /// DPT 1.009 - OpenClose (open/close)
    OpenClose,
    /// DPT 1.010 - Start (stop/start)
    Start,
    /// DPT 1.011 - State (inactive/active)
    State,
    /// DPT 1.012 - Invert (not inverted/inverted)
    Invert,
}

/// The identifier of a DPT 1 subtype.
pub open spec fn dpt1_identifier(d: Dpt1) -> Seq<char> {
    match d {
        Dpt1::Switch => "1.001"@,
        Dpt1::Bool => "1.002"@,
        Dpt1::Enable => "1.003"@,
        Dpt1::Ramp => "1.004"@,
        Dpt1::Alarm => "1.005"@,
        Dpt1::BinaryValue => "1.006"@,
        Dpt1::Step => "1.007"@,
        Dpt1::UpDown => "1.008"@,
        Dpt1::OpenClose => "1.009"@,
        Dpt1::Start => "1.010"@,
        Dpt1::State => "1.011"@,
        Dpt1::Invert => "1.012"@,
    }
}

/// The (false, true) labels of a DPT 1 subtype.
pub open spec fn dpt1_labels(d: Dpt1) -> (Seq<char>, Seq<char>) {
    match d {
        Dpt1::Switch => ("off"@, "on"@),
        Dpt1::Bool => ("false"@, "true"@),
        Dpt1::Enable => ("disable"@, "enable"@),
        Dpt1::Ramp => ("no ramp"@, "ramp"@),
        Dpt1::Alarm => ("no alarm"@, "alarm"@),
        Dpt1::BinaryValue => ("low"@, "high"@),
        Dpt1::Step => ("decrease"@, "increase"@),
        Dpt1::UpDown => ("up"@, "down"@),
        Dpt1::OpenClose => ("open"@, "close"@),
        Dpt1::Start => ("stop"@, "start"@),
        Dpt1::State => ("inactive"@, "active"@),
        Dpt1::Invert => ("not inverted"@, "inverted"@),
    }
}

/// The data byte of a boolean.
pub open spec fn dpt1_byte(value: bool) -> u8 {
    if value {
        1
    } else {
        0
    }
}

impl DptEncode<bool> for Dpt1 {
    /// Writes one byte, 0x01 for true and 0x00 for false, whatever the
    /// subtype.
    fn encode(&self, value: bool, buf: &mut [u8]) -> (r: KnxResult<usize>)
        ensures
            old(buf)@.len() >= 1 <==> r is Ok,
            r is Ok ==> r == Ok::<usize, KnxError>(1) && final(buf)@ == old(buf)@.update(
                0,
                dpt1_byte(value),
            ),
            r matches Err(e) ==> e.is_transport(TransportErrorKind::BufferTooSmall) && final(buf)@
                == old(buf)@,
    {
        if buf.len() < 1 {
            return Err(KnxError::buffer_too_small());
        }
        buf[0] = if value {
            0x01
        } else {
            0x00
        };
        Ok(1)
    }
}

impl DptDecode<bool> for Dpt1 {
    /// The least significant bit of the first byte.
    ///
    /// # Errors
    ///
    /// `InvalidData` for empty data.
    fn decode(&self, data: &[u8]) -> (r: KnxResult<bool>)
        ensures
            data@.len() >= 1 <==> r is Ok,
            r matches Ok(b) ==> b == (data@[0] % 2 == 1),
            r matches Err(e) ==> e.is_dpt(DptErrorKind::InvalidData),
    {
        if data.len() == 0 {
            return Err(KnxError::invalid_dpt_data());
        }
        let byte = data[0];
        assert(byte & 0x01 != 0 <==> byte % 2 == 1) by (bit_vector);
        Ok((byte & 0x01) != 0)
    }
}

impl Dpt1 {
    /// Get the DPT identifier string (e.g., "1.001")
    pub fn identifier(&self) -> (r: &'static str)
        ensures
            r@ == dpt1_identifier(*self),
    {
        match self {
            Dpt1::Switch => "1.001",
            Dpt1::Bool => "1.002",
            Dpt1::Enable => "1.003",
            Dpt1::Ramp => "1.004",
            Dpt1::Alarm => "1.005",
            Dpt1::BinaryValue => "1.006",
            Dpt1::Step => "1.007",
            Dpt1::UpDown => "1.008",
            Dpt1::OpenClose => "1.009",
            Dpt1::Start => "1.010",
            Dpt1::State => "1.011",
            Dpt1::Invert => "1.012",
        }
    }

    /// Get semantic labels for false/true values: `(false_label, true_label)`
    pub fn labels(&self) -> (r: (&'static str, &'static str))
        ensures
            (r.0@, r.1@) == dpt1_labels(*self),
    {
        match self {
            Dpt1::Switch => ("off", "on"),
            Dpt1::Bool => ("false", "true"),
            Dpt1::Enable => ("disable", "enable"),
            Dpt1::Ramp => ("no ramp", "ramp"),
            Dpt1::Alarm => ("no alarm", "alarm"),
            Dpt1::BinaryValue => ("low", "high"),
            Dpt1::Step => ("decrease", "increase"),
            Dpt1::UpDown => ("up", "down"),
            Dpt1::OpenClose => ("open", "close"),
            Dpt1::Start => ("stop", "start"),
            Dpt1::State => ("inactive", "active"),
            Dpt1::Invert => ("not inverted", "inverted"),
        }
    }
}

/// Decoding the byte that a boolean encodes to gives the boolean back.
pub proof fn lemma_dpt1_roundtrip(value: bool)
    ensures
        (dpt1_byte(value) % 2 == 1) == value,
{
}

} // verus!
