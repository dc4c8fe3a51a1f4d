//! KNX Datapoint Types (DPT)
//!
//! Encoding and decoding of the KNX datapoint types: how the data payload of
//! a telegram is interpreted.
//!
//! - **DPT 1.xxx** - Boolean (1 bit): switches, buttons, binary sensors
//! - **DPT 3.xxx** - 3-bit controlled: dimming, blind control
//! - **DPT 5.xxx** - 8-bit unsigned: percentages, angles, counters
//! - **DPT 7.xxx** - 16-bit unsigned: pulses, brightness, color temperature
//! - **DPT 9.xxx** - 2-byte float: temperature, illuminance, pressure
//! - **DPT 13.xxx** - 32-bit signed: energy, flow rate, long counters
//!
//! Encoders write into a caller's buffer and return the number of bytes
//! written; decoders read a slice.

use crate::error::KnxResult;
use vstd::prelude::*;

pub mod dpt1;
pub mod dpt13;
pub mod dpt3;
pub mod dpt5;
pub mod dpt7;
pub mod dpt9;

pub use dpt1::Dpt1;
pub use dpt13::Dpt13;
pub use dpt3::{ControlCommand, Dpt3, StepCode};
pub use dpt5::Dpt5;
pub use dpt7::Dpt7;
pub use dpt9::Dpt9;

verus! {

/// Encoding of values to the KNX byte representation.
pub trait DptEncode<T> {
    /// Encode `value` into `buf`; returns the number of bytes written.
    ///
    /// # Errors
    ///
    /// `BufferTooSmall` if the buffer cannot hold the encoded data, and
    /// `ValueOutOfRange` for a value outside the type's range.
    fn encode(&self, value: T, buf: &mut [u8]) -> KnxResult<usize>;
}

/// Decoding of the KNX byte representation to values.
pub trait DptDecode<T> {
    /// Decode the value that `data` holds.
    fn decode(&self, data: &[u8]) -> KnxResult<T>;
}

} // verus!
