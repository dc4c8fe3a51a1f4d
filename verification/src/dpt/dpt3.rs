//! DPT 3.xxx - 3-bit controlled (dimming and blinds)
//!
//! Bit 3 of the data byte is the control bit (direction), bits 0-2 the step
//! code: 0 is break/stop, 1-7 stand for 1, 2, 4, 8, 16, 32 and 64
//! intervals.

use crate::error::{DptErrorKind, KnxError, KnxResult};
use vstd::prelude::*;

verus! {

/// DPT 3.xxx 3-bit controlled types
#[derive(Debug, Clone, Copy, PartialEq, Eq, Structural)]
pub enum Dpt3 {
    /// DPT 3.007 - Dimming control (decrease/increase)
    Dimming,
    /// DPT 3.008 - Blind control (up/down)
    Blind,
}

/// Stepcode values for 3-bit controlled types: the number of intervals of
/// the control operation.
#[derive(Debug, Clone, Copy, PartialEq, Eq, Structural)]
pub enum StepCode {
    /// Break/Stop - halts the current operation (code 0)
    Break,
    /// 1 interval (code 1)
    Intervals1,
    /// 2 intervals (code 2)
    Intervals2,
    /// 4 intervals (code 3)
    Intervals4,
    /// 8 intervals (code 4)
    Intervals8,
    /// 16 intervals (code 5)
    Intervals16,
    /// 32 intervals (code 6)
    Intervals32,
    /// 64 intervals (code 7)
    Intervals64,
}

/// A decoded 3-bit control command
#[derive(Debug, Clone, Copy, PartialEq, Eq, Structural)]
pub struct ControlCommand {
    /// Control bit: false = decrease/up, true = increase/down
    pub control: bool,
    /// Stepcode (0-7)
    pub stepcode: StepCode,
}

/// The 3-bit code of a step code.
pub open spec fn step_code_value(s: StepCode) -> u8 {
    match s {
        StepCode::Break => 0,
        StepCode::Intervals1 => 1,
        StepCode::Intervals2 => 2,
        StepCode::Intervals4 => 3,
        StepCode::Intervals8 => 4,
        StepCode::Intervals16 => 5,
        StepCode::Intervals32 => 6,
        StepCode::Intervals64 => 7,
    }
}

/// The step code of a 3-bit code, if it is one.
pub open spec fn step_code_of(v: u8) -> Option<StepCode> {
    if v == 0 {
        Some(StepCode::Break)
    } else if v == 1 {
        Some(StepCode::Intervals1)
    } else if v == 2 {
        Some(StepCode::Intervals2)
    } else if v == 3 {
        Some(StepCode::Intervals4)
    } else if v == 4 {
        Some(StepCode::Intervals8)
    } else if v == 5 {
        Some(StepCode::Intervals16)
    } else if v == 6 {
        Some(StepCode::Intervals32)
    } else if v == 7 {
        Some(StepCode::Intervals64)
    } else {
        None
    }
}

/// The number of intervals of a step code: 0 for break, else 2^(code-1).
pub open spec fn step_intervals(s: StepCode) -> u8 {
    match s {
        StepCode::Break => 0,
        StepCode::Intervals1 => 1,
        StepCode::Intervals2 => 2,
        StepCode::Intervals4 => 4,
        StepCode::Intervals8 => 8,
        StepCode::Intervals16 => 16,
        StepCode::Intervals32 => 32,
        StepCode::Intervals64 => 64,
    }
}

/// The byte of a command: control in bit 3, step code in bits 0-2.
pub open spec fn dpt3_byte(control: bool, stepcode: StepCode) -> u8 {
    (if control {
        8u8
    } else {
        0u8
    }) | step_code_value(stepcode)
}

impl StepCode {
    /// The 3-bit code of this step code.
    fn code(&self) -> (r: u8)
        ensures
            r == step_code_value(*self),
    {
        match self {
            StepCode::Break => 0,
            StepCode::Intervals1 => 1,
            StepCode::Intervals2 => 2,
            StepCode::Intervals4 => 3,
            StepCode::Intervals8 => 4,
            StepCode::Intervals16 => 5,
            StepCode::Intervals32 => 6,
            StepCode::Intervals64 => 7,
        }
    }

    /// Convert a u8 value to a StepCode
    ///
    /// # Errors
    ///
    /// `InvalidData` if the value is not in range 0-7
    pub fn from_u8(value: u8) -> (r: KnxResult<Self>)
        ensures
            value <= 7 <==> r is Ok,
            r matches Ok(s) ==> Some(s) == step_code_of(value),
            r matches Err(e) ==> e.is_dpt(DptErrorKind::InvalidData),
    {
        match value {
            0 => Ok(StepCode::Break),
            1 => Ok(StepCode::Intervals1),
            2 => Ok(StepCode::Intervals2),
            3 => Ok(StepCode::Intervals4),
            4 => Ok(StepCode::Intervals8),
            5 => Ok(StepCode::Intervals16),
            6 => Ok(StepCode::Intervals32),
            7 => Ok(StepCode::Intervals64),
            _ => Err(KnxError::invalid_dpt_data()),
        }
    }

    /// Get the number of intervals this stepcode represents: 0 for Break,
    /// otherwise 1, 2, 4, 8, 16, 32, or 64
    pub fn intervals(&self) -> (r: u8)
        ensures
            r == step_intervals(*self),
    {
        match self {
            StepCode::Break => 0,
            StepCode::Intervals1 => 1,
            StepCode::Intervals2 => 2,
            StepCode::Intervals4 => 4,
            StepCode::Intervals8 => 8,
            StepCode::Intervals16 => 16,
            StepCode::Intervals32 => 32,
            StepCode::Intervals64 => 64,
        }
    }
}

impl Dpt3 {
    /// Encode a 3-bit controlled command to a byte (always `Ok`).
    pub fn encode_to_byte(&self, control: bool, stepcode: StepCode) -> (r: KnxResult<u8>)
        ensures
            r == Ok::<u8, KnxError>(dpt3_byte(control, stepcode)),
    {
        let control_bit: u8 = if control {
            0x08
        } else {
            0x00
        };
        let code = stepcode.code();
        assert(code & 0x07 == code) by (bit_vector)
            requires
                code <= 7,
        ;
        let step_bits = code & 0x07;
        Ok(control_bit | step_bits)
    }

    /// Decode the first byte of `data` to a control command: bit 3 the
    /// control, bits 0-2 the step code; the upper bits are ignored.
    ///
    /// # Errors
    ///
    /// `InvalidData` for empty data.
    pub fn decode(&self, data: &[u8]) -> (r: KnxResult<ControlCommand>)
        ensures
            data@.len() >= 1 <==> r is Ok,
            r matches Ok(c) ==> c.control == (data@[0] & 0x08 != 0) && Some(c.stepcode)
                == step_code_of(data@[0] & 0x07),
            r matches Err(e) ==> e.is_dpt(DptErrorKind::InvalidData),
    {
        if data.len() == 0 {
            return Err(KnxError::invalid_dpt_data());
        }
        let byte = data[0];
        let control = (byte & 0x08) != 0;
        let stepcode_value = byte & 0x07;
        assert(byte & 0x07 <= 7) by (bit_vector);
        let stepcode = StepCode::from_u8(stepcode_value)?;
        Ok(ControlCommand { control, stepcode })
    }

    /// Get the DPT identifier string (e.g., "3.007")
    pub fn identifier(&self) -> (r: &'static str)
        ensures
            r@ == (match *self {
                Dpt3::Dimming => "3.007"@,
                Dpt3::Blind => "3.008"@,
            }),
    {
        match self {
            Dpt3::Dimming => "3.007",
            Dpt3::Blind => "3.008",
        }
    }

    /// Get semantic labels for control directions:
    /// `(control_false_label, control_true_label)`
    pub fn control_labels(&self) -> (r: (&'static str, &'static str))
        ensures
            (r.0@, r.1@) == (match *self {
                Dpt3::Dimming => ("decrease"@, "increase"@),
                Dpt3::Blind => ("up"@, "down"@),
            }),
    {
        match self {
            Dpt3::Dimming => ("decrease", "increase"),
            Dpt3::Blind => ("up", "down"),
        }
    }
}

/// Decoding the byte that a command encodes to gives the command back.
pub proof fn lemma_dpt3_roundtrip(control: bool, stepcode: StepCode)
    ensures
        (dpt3_byte(control, stepcode) & 0x08 != 0) == control,
        step_code_of(dpt3_byte(control, stepcode) & 0x07) == Some(stepcode),
{
    let c = step_code_value(stepcode);
    assert((8u8 | c) & 0x08 != 0 && (8u8 | c) & 0x07 == c) by (bit_vector)
        requires
            c <= 7,
    ;
    assert((0u8 | c) & 0x08 == 0 && (0u8 | c) & 0x07 == c) by (bit_vector)
        requires
            c <= 7,
    ;
}

} // verus!
