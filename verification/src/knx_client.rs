//! The value codec, the cEMI group telegrams and the event decoding of the
//! high-level KNX client.
//!
//! The network side of the client (connecting, sending, waiting) lives with
//! the application; this module holds everything it computes: the bytes of
//! the `GroupValue_Write`, `GroupValue_Response` and `GroupValue_Read`
//! telegrams, the decoding of received application data into typed values,
//! and the datapoint type registry that decides how a value is typed.
//!
//! The 2-byte float values of DPT 9 are carried as their 16-bit KNX word
//! (`MEEE EMMM MMMM MMMM`): the conversion from and to a float belongs to
//! the application.

use crate::addressing::group::{group_address_of, lemma_group_address_of};
use crate::addressing::{GroupAddress, IndividualAddress};
use crate::protocol::cemi::{
    cemi_service_info, is_ldata_code, ldata_data_start, ldata_npdu_end, ldata_ok,
    CEMIFrame,
};
use crate::protocol::constants::message_code_of;
use heapless::index_map::FnvIndexMap;
use crate::codec::{
    be_bytes_u16, be_u16, lemma_be_u16_roundtrip, overwrite_prefix, u16_from_be, u16_hi, u16_lo,
};
use crate::error::{ConnectionErrorKind, KnxError, TransportErrorKind};
use vstd::prelude::*;

verus! {

/// Default device individual address (1.1.1).
pub const DEVICE_ADDRESS_RAW: u16 = 0x1101;

/// Default KNXnet/IP port.
pub const DEFAULT_KNXNET_PORT: u16 = 3671;

/// Maximum number of group addresses in the DPT registry.
pub const MAX_DPT_REGISTRY_SIZE: usize = 32;

/// Errors that can occur during KNX client operations.
#[derive(Debug, Clone, Copy, PartialEq, Eq)]
pub enum KnxClientError {
    /// Client is not connected to the gateway.
    NotConnected,
    /// Connection to the gateway failed.
    ConnectionFailed(KnxError),
    /// Failed to send data to the gateway.
    SendFailed(KnxError),
    /// Failed to receive data from the gateway.
    ReceiveFailed(KnxError),
    /// Operation timed out.
    Timeout,
    /// Invalid or malformed address.
    InvalidAddress,
    /// Protocol error occurred.
    ProtocolError(KnxError),
    /// Internal buffer error (buffer too small, registry full).
    BufferError,
    /// Unsupported operation.
    UnsupportedOperation,
}

/// The client error that a protocol-level error is reported as.
pub open spec fn client_error_of(err: KnxError) -> KnxClientError {
    if err.is_connection(ConnectionErrorKind::Failed) || err.is_connection(
        ConnectionErrorKind::Refused,
    ) || err.is_connection(ConnectionErrorKind::Timeout) || err.is_connection(
        ConnectionErrorKind::Lost,
    ) {
        KnxClientError::ConnectionFailed(err)
    } else if err.is_transport(TransportErrorKind::SendFailed) {
        KnxClientError::SendFailed(err)
    } else if err.is_transport(TransportErrorKind::ReceiveFailed) {
        KnxClientError::ReceiveFailed(err)
    } else if err is Timeout {
        KnxClientError::Timeout
    } else if err.is_transport(TransportErrorKind::BufferTooSmall) {
        KnxClientError::BufferError
    } else {
        KnxClientError::ProtocolError(err)
    }
}

impl From<KnxError> for KnxClientError {
    fn from(err: KnxError) -> (r: Self)
        ensures
            r == client_error_of(err),
    {
        match err {
            KnxError::Connection(c) => match c.error_kind() {
                ConnectionErrorKind::Failed
                | ConnectionErrorKind::Refused
                | ConnectionErrorKind::Timeout
                | ConnectionErrorKind::Lost => KnxClientError::ConnectionFailed(err),
                _ => KnxClientError::ProtocolError(err),
            },
            KnxError::Transport(t) => match t.error_kind() {
                TransportErrorKind::SendFailed => KnxClientError::SendFailed(err),
                TransportErrorKind::ReceiveFailed => KnxClientError::ReceiveFailed(err),
                TransportErrorKind::BufferTooSmall => KnxClientError::BufferError,
                _ => KnxClientError::ProtocolError(err),
            },
            KnxError::Timeout => KnxClientError::Timeout,
            _ => KnxClientError::ProtocolError(err),
        }
    }
}

impl vstd::std_specs::convert::FromSpecImpl<KnxError> for KnxClientError {
    open spec fn obeys_from_spec() -> bool {
        true
    }

    open spec fn from_spec(v: KnxError) -> Self {
        client_error_of(v)
    }
}

/// Datapoint Type specification for group addresses.
///
/// Used in the DPT registry to define how values should be decoded for
/// specific group addresses.
#[derive(Debug, Clone, Copy, PartialEq, Eq, Structural)]
pub enum DptType {
    /// DPT 1.xxx - Boolean (switch, button, etc.)
    Bool,
    /// DPT 3.007 - Dimming control (increase/decrease, step size)
    Dimming,
    /// DPT 3.008 - Blinds control (up/down, step size)
    Blinds,
    /// DPT 5.001 - Percentage (0-100%)
    Percent,
    /// DPT 5.010 - Unsigned 8-bit (0-255)
    U8,
    /// DPT 7.001 - Unsigned 16-bit (0-65535)
    U16,
    /// DPT 10.001 - Time of day
    Time,
    /// DPT 11.001 - Date
    Date,
    /// DPT 16.000 / 16.001 - String ASCII (ISO 8859-1)
    StringAscii,
    /// DPT 19.001 - Date and Time
    DateTime,
    /// DPT 9.001 - Temperature in Celsius
    Temperature,
    /// DPT 9.004 - Illuminance in lux
    Lux,
    /// DPT 9.007 - Humidity percentage
    Humidity,
    /// DPT 9.008 - Air quality in ppm
    Ppm,
    /// DPT 9.xxx - Generic 2-byte float
    Float2,
}

/// KNX value types representing different Datapoint Types (DPT).
///
/// The DPT 9 variants (`Temperature`, `Lux`, `Humidity`, `Ppm`, `Float2`)
/// hold the 16-bit KNX float word `MEEE EMMM MMMM MMMM`.
#[derive(Debug, Clone, Copy, PartialEq, Eq)]
pub enum KnxValue {
    /// Boolean value (DPT 1.xxx) - switch, enable/disable
    Bool(bool),
    /// 3-bit controlled value (DPT 3.xxx) - dimming, blinds
    Control3Bit {
        /// Control direction: false = decrease/up, true = increase/down
        control: bool,
        /// Step code: 0 = break, 1-7 = step size
        step: u8,
    },
    /// Percentage value (DPT 5.001) - 0-100%
    Percent(u8),
    /// Unsigned 8-bit value (DPT 5.010) - 0-255
    U8(u8),
    /// Unsigned 16-bit value (DPT 7.001) - 0-65535, counters, pulses
    U16(u16),
    /// Time of day (DPT 10.001)
    Time {
        /// Day of week (0 = no day, 1 = Monday, ..., 7 = Sunday)
        day: u8,
        /// Hour (0-23)
        hour: u8,
        /// Minute (0-59)
        minute: u8,
        /// Second (0-59)
        second: u8,
    },
    /// Date (DPT 11.001)
    Date {
        /// Day of month (1-31)
        day: u8,
        /// Month (1-12)
        month: u8,
        /// Year (0-99)
        year: u8,
    },
    /// String ASCII (DPT 16.000/16.001), up to 14 characters
    StringAscii {
        /// String data (up to 14 bytes, null padded)
        data: [u8; 14],
        /// Actual string length
        len: u8,
    },
    /// Date and Time (DPT 19.001)
    DateTime {
        /// Year (1900-2155)
        year: u16,
        /// Month (1-12)
        month: u8,
        /// Day of month (1-31)
        day: u8,
        /// Day of week (0 = no day, 1 = Monday, ..., 7 = Sunday)
        day_of_week: u8,
        /// Hour (0-23)
        hour: u8,
        /// Minute (0-59)
        minute: u8,
        /// Second (0-59)
        second: u8,
        /// Fault flag
        fault: bool,
        /// Working day flag
        working_day: bool,
        /// No working day valid flag
        no_wd: bool,
        /// No year valid flag
        no_year: bool,
        /// No date valid flag
        no_date: bool,
        /// No day of week valid flag
        no_dow: bool,
        /// No time valid flag
        no_time: bool,
        /// Standard/summertime flag (false = standard, true = summertime)
        standard_summertime: bool,
        /// Clock quality flag
        quality: bool,
    },
    /// Temperature in Celsius (DPT 9.001), as its KNX float word
    Temperature(u16),
    /// Illuminance in lux (DPT 9.004), as its KNX float word
    Lux(u16),
    /// Humidity percentage (DPT 9.007), as its KNX float word
    Humidity(u16),
    /// Air quality in parts per million (DPT 9.008), as its KNX float word
    Ppm(u16),
    /// Generic 2-byte float (DPT 9.xxx), as its KNX float word
    Float2(u16),
}

/// `v`, at most `hi`.
pub open spec fn at_most(v: u8, hi: u8) -> u8 {
    if v < hi {
        v
    } else {
        hi
    }
}

/// `v` clamped into `lo..=hi`.
pub open spec fn clamped(v: u8, lo: u8, hi: u8) -> u8 {
    at_most(if v > lo { v } else { lo }, hi)
}

/// A bit of `mask` if `b` holds.
pub open spec fn flag(b: bool, mask: u8) -> u8 {
    if b {
        mask
    } else {
        0
    }
}

/// The DPT 3 byte: control in bit 3, the step code (at most 7) below.
pub open spec fn control3_byte(control: bool, step: u8) -> u8 {
    flag(control, 0x08) | at_most(step, 7)
}

/// The DPT 5.001 byte of a percentage: 0-100 % scaled to 0-255.
pub open spec fn percent_byte(p: u8) -> u8 {
    ((at_most(p, 100) * 255) / 100) as u8
}

/// Day of week in bits 7-5, hour in bits 4-0 (both clamped).
pub open spec fn day_hour_byte(day: u8, hour: u8) -> u8 {
    ((at_most(day, 7) * 32) + at_most(hour, 23)) as u8
}

/// The DPT 19 year byte: the year clamped to 1900-2155, less 1900.
pub open spec fn year_byte(year: u16) -> u8 {
    if year < 1900 {
        0
    } else if year > 2155 {
        255
    } else {
        (year - 1900) as u8
    }
}

/// The 14 DPT 16 bytes: the first `len` (at most 14) characters, then
/// null padding.
pub open spec fn string_bytes(data: Seq<u8>, len: u8) -> Seq<u8> {
    Seq::new(14, |i: int| if i < at_most(len, 14) { data[i] } else { 0u8 })
}

/// The first flags byte of DPT 19.
pub open spec fn datetime_flags(
    fault: bool,
    working_day: bool,
    no_wd: bool,
    no_year: bool,
    no_date: bool,
    no_dow: bool,
    no_time: bool,
    standard_summertime: bool,
) -> u8 {
    flag(fault, 0x80) | flag(working_day, 0x40) | flag(no_wd, 0x20) | flag(no_year, 0x10) | flag(
        no_date,
        0x08,
    ) | flag(no_dow, 0x04) | flag(no_time, 0x02) | flag(standard_summertime, 0x01)
}

/// The NPDU of a value: NPDU length, TPCI, APCI and the value's bytes.
pub open spec fn value_payload(value: KnxValue, apci: u8) -> Seq<u8> {
    match value {
        KnxValue::Bool(b) => seq![1u8, 0u8, apci | flag(b, 1)],
        KnxValue::Control3Bit { control, step } => seq![
            2u8,
            0u8,
            apci,
            control3_byte(control, step),
        ],
        KnxValue::Percent(p) => seq![2u8, 0u8, apci, percent_byte(p)],
        KnxValue::U8(v) => seq![2u8, 0u8, apci, v],
        KnxValue::U16(v) => seq![3u8, 0u8, apci] + be_bytes_u16(v),
        KnxValue::Time { day, hour, minute, second } => seq![
            4u8,
            0u8,
            apci,
            day_hour_byte(day, hour),
            at_most(minute, 59),
            at_most(second, 59),
        ],
        KnxValue::Date { day, month, year } => seq![
            4u8,
            0u8,
            apci,
            clamped(day, 1, 31),
            clamped(month, 1, 12),
            at_most(year, 99),
        ],
        KnxValue::StringAscii { data, len } => seq![15u8, 0u8, apci] + string_bytes(data@, len),
        KnxValue::DateTime {
            year,
            month,
            day,
            day_of_week,
            hour,
            minute,
            second,
            fault,
            working_day,
            no_wd,
            no_year,
            no_date,
            no_dow,
            no_time,
            standard_summertime,
            quality,
        } => seq![
            9u8,
            0u8,
            apci,
            year_byte(year),
            clamped(month, 1, 12),
            clamped(day, 1, 31),
            day_hour_byte(day_of_week, hour),
            at_most(minute, 59),
            at_most(second, 59),
            datetime_flags(
                fault,
                working_day,
                no_wd,
                no_year,
                no_date,
                no_dow,
                no_time,
                standard_summertime,
            ),
            flag(quality, 0x80),
        ],
        KnxValue::Temperature(w) => seq![3u8, 0u8, apci] + be_bytes_u16(w),
        KnxValue::Lux(w) => seq![3u8, 0u8, apci] + be_bytes_u16(w),
        KnxValue::Humidity(w) => seq![3u8, 0u8, apci] + be_bytes_u16(w),
        KnxValue::Ppm(w) => seq![3u8, 0u8, apci] + be_bytes_u16(w),
        KnxValue::Float2(w) => seq![3u8, 0u8, apci] + be_bytes_u16(w),
    }
}

/// The total length of the cEMI frame that carries a value.
pub open spec fn value_frame_len(value: KnxValue) -> usize {
    match value {
        KnxValue::Bool(_) => 12,
        KnxValue::Control3Bit { .. } => 12,
        KnxValue::Percent(_) => 12,
        KnxValue::U8(_) => 12,
        KnxValue::U16(_) => 13,
        KnxValue::Time { .. } => 14,
        KnxValue::Date { .. } => 14,
        KnxValue::StringAscii { .. } => 25,
        KnxValue::DateTime { .. } => 19,
        _ => 13,
    }
}

/// `v.min(hi)`.
fn min_u8(v: u8, hi: u8) -> (r: u8)
    ensures
        r == at_most(v, hi),
{
    if v < hi {
        v
    } else {
        hi
    }
}

/// `v.max(lo).min(hi)`.
fn clamp_u8(v: u8, lo: u8, hi: u8) -> (r: u8)
    ensures
        r == clamped(v, lo, hi),
{
    let v = if v > lo {
        v
    } else {
        lo
    };
    min_u8(v, hi)
}

/// The mask if `b` holds, else 0.
fn flag_bits(b: bool, mask: u8) -> (r: u8)
    ensures
        r == flag(b, mask),
{
    if b {
        mask
    } else {
        0
    }
}

/// Copy `src` into `buffer` at `off`.
fn write_at(buffer: &mut [u8], off: usize, src: &[u8])
    requires
        off + src@.len() <= old(buffer)@.len(),
    ensures
        final(buffer)@ == old(buffer)@.take(off as int) + src@ + old(buffer)@.skip(
            off + src@.len(),
        ),
{
    let mut i: usize = 0;
    while i < src.len()
        invariant
            0 <= i <= src@.len(),
            off + src@.len() <= buffer@.len(),
            buffer@.len() == buffer.len(),
            buffer@.len() == old(buffer)@.len(),
            forall|k: int| 0 <= k < off ==> buffer@[k] == old(buffer)@[k],
            forall|k: int| 0 <= k < i ==> buffer@[off + k] == src@[k],
            forall|k: int| off + src@.len() <= k < buffer@.len() ==> buffer@[k] == old(buffer)@[k],
        decreases src@.len() - i,
    {
        buffer[off + i] = src[i];
        i = i + 1;
    }
    assert forall|k: int| 0 <= k < buffer@.len() implies buffer@[k] == (old(buffer)@.take(
        off as int,
    ) + src@ + old(buffer)@.skip(off + src@.len()))[k] by {
        if k < off {
        } else if k < off + src@.len() {
            assert(buffer@[off + (k - off)] == src@[k - off]);
        } else {
        }
    }
    assert(buffer@ =~= old(buffer)@.take(off as int) + src@ + old(buffer)@.skip(
        off + src@.len(),
    ));
}

fn bool_payload(b: bool, apci: u8) -> (r: [u8; 3])
    ensures
        r@ == value_payload(KnxValue::Bool(b), apci),
{
    let r = [0x01, 0x00, apci | flag_bits(b, 0x01)];
    assert(r@ =~= value_payload(KnxValue::Bool(b), apci));
    r
}

fn byte_payload(byte: u8, apci: u8) -> (r: [u8; 4])
    ensures
        r@ == seq![2u8, 0u8, apci, byte],
{
    let r = [0x02, 0x00, apci, byte];
    assert(r@ =~= seq![2u8, 0u8, apci, byte]);
    r
}

fn word_payload(w: u16, apci: u8) -> (r: [u8; 5])
    ensures
        r@ == seq![3u8, 0u8, apci] + be_bytes_u16(w),
{
    let r = [0x03, 0x00, apci, u16_hi(w), u16_lo(w)];
    assert(r@ =~= seq![3u8, 0u8, apci] + be_bytes_u16(w));
    r
}

fn three_byte_payload(b0: u8, b1: u8, b2: u8, apci: u8) -> (r: [u8; 6])
    ensures
        r@ == seq![4u8, 0u8, apci, b0, b1, b2],
{
    let r = [0x04, 0x00, apci, b0, b1, b2];
    assert(r@ =~= seq![4u8, 0u8, apci, b0, b1, b2]);
    r
}

fn string_payload(data: [u8; 14], len: u8, apci: u8) -> (r: [u8; 17])
    ensures
        r@ == seq![15u8, 0u8, apci] + string_bytes(data@, len),
{
    let n = min_u8(len, 14);
    let mut r = [0u8; 17];
    r[0] = 0x0F;
    r[1] = 0x00;
    r[2] = apci;
    let mut i: usize = 0;
    while i < 14
        invariant
            0 <= i <= 14,
            r@.len() == 17,
            r@[0] == 15,
            r@[1] == 0,
            r@[2] == apci,
            n == at_most(len, 14),
            forall|j: int|
                3 <= j < 3 + i ==> #[trigger] r@[j] == (if j - 3 < n {
                    data@[j - 3]
                } else {
                    0u8
                }),
        decreases 14 - i,
    {
        let ghost prev = r@;
        let byte = if i < n as usize {
            data[i]
        } else {
            0
        };
        r[3 + i] = byte;
        assert(r@ == prev.update(3 + i as int, byte));
        i = i + 1;
    }
    let ghost expected = seq![15u8, 0u8, apci] + string_bytes(data@, len);
    assert forall|j: int| 0 <= j < 17 implies r@[j] == expected[j] by {
    }
    assert(r@ =~= expected);
    r
}

fn datetime_payload(value: KnxValue, apci: u8) -> (r: [u8; 11])
    requires
        value is DateTime,
    ensures
        r@ == value_payload(value, apci),
{
    match value {
        KnxValue::DateTime {
            year,
            month,
            day,
            day_of_week,
            hour,
            minute,
            second,
            fault,
            working_day,
            no_wd,
            no_year,
            no_date,
            no_dow,
            no_time,
            standard_summertime,
            quality,
        } => {
            let year: u16 = if year < 1900 {
                1900
            } else if year > 2155 {
                2155
            } else {
                year
            };
            let year = year - 1900;
            let flags1 = flag_bits(fault, 0x80) | flag_bits(working_day, 0x40) | flag_bits(
                no_wd,
                0x20,
            ) | flag_bits(no_year, 0x10) | flag_bits(no_date, 0x08) | flag_bits(no_dow, 0x04)
                | flag_bits(no_time, 0x02) | flag_bits(standard_summertime, 0x01);
            let r = [
                0x09,
                0x00,
                apci,
                year as u8,
                clamp_u8(month, 1, 12),
                clamp_u8(day, 1, 31),
                day_hour(min_u8(day_of_week, 7), min_u8(hour, 23)),
                min_u8(minute, 59),
                min_u8(second, 59),
                flags1,
                flag_bits(quality, 0x80),
            ];
            assert(r@ =~= value_payload(value, apci));
            r
        },
        _ => {
            proof {
                assert(false);
            }
            [0u8; 11]
        },
    }
}

/// Write `value`'s NPDU at `off`; returns the length of the cEMI frame.
fn put_value(value: KnxValue, buffer: &mut [u8], off: usize, apci: u8) -> (r: usize)
    requires
        off + value_payload(value, apci).len() <= old(buffer)@.len(),
    ensures
        final(buffer)@ == old(buffer)@.take(off as int) + value_payload(value, apci) + old(
            buffer,
        )@.skip(off + value_payload(value, apci).len()),
        r == value_frame_len(value),
{
    match value {
        KnxValue::Bool(b) => {
            let p = bool_payload(b, apci);
            write_at(buffer, off, &p);
            12
        },
        KnxValue::Control3Bit { control, step } => {
            let p = byte_payload(flag_bits(control, 0x08) | min_u8(step, 7), apci);
            write_at(buffer, off, &p);
            12
        },
        KnxValue::Percent(p) => {
            let scaled = ((min_u8(p, 100) as u16 * 255) / 100) as u8;
            let p = byte_payload(scaled, apci);
            write_at(buffer, off, &p);
            12
        },
        KnxValue::U8(v) => {
            let p = byte_payload(v, apci);
            write_at(buffer, off, &p);
            12
        },
        KnxValue::U16(v) => {
            let p = word_payload(v, apci);
            write_at(buffer, off, &p);
            13
        },
        KnxValue::Time { day, hour, minute, second } => {
            let b0 = day_hour(min_u8(day, 7), min_u8(hour, 23));
            let p = three_byte_payload(b0, min_u8(minute, 59), min_u8(second, 59), apci);
            write_at(buffer, off, &p);
            14
        },
        KnxValue::Date { day, month, year } => {
            let p = three_byte_payload(
                clamp_u8(day, 1, 31),
                clamp_u8(month, 1, 12),
                min_u8(year, 99),
                apci,
            );
            write_at(buffer, off, &p);
            14
        },
        KnxValue::StringAscii { data, len } => {
            let p = string_payload(data, len, apci);
            write_at(buffer, off, &p);
            25
        },
        KnxValue::DateTime { .. } => {
            let p = datetime_payload(value, apci);
            write_at(buffer, off, &p);
            19
        },
        KnxValue::Temperature(w) | KnxValue::Lux(w) | KnxValue::Humidity(w) | KnxValue::Ppm(w)
        | KnxValue::Float2(w) => {
            let p = word_payload(w, apci);
            write_at(buffer, off, &p);
            13
        },
    }
}

/// `(day << 5) | hour` for a day of at most 7 and an hour of at most 23.
fn day_hour(day: u8, hour: u8) -> (r: u8)
    requires
        day <= 7,
        hour <= 23,
    ensures
        r == day * 32 + hour,
{
    assert((day << 5u8) | hour == day * 32 + hour) by (bit_vector)
        requires
            day <= 7,
            hour <= 23,
    ;
    (day << 5) | hour
}

/// Encodes a value with the given APCI code (0x80 for Write, 0x40 for
/// Response) into a buffer that starts at the NPDU length position.
///
/// Returns the total length of the cEMI frame that carries the value.
pub fn encode_value_with_apci(value: KnxValue, buffer: &mut [u8], apci: u8) -> (r: usize)
    requires
        value_payload(value, apci).len() <= old(buffer)@.len(),
    ensures
        final(buffer)@ == overwrite_prefix(old(buffer)@, value_payload(value, apci)),
        r == value_frame_len(value),
{
    let r = put_value(value, buffer, 0, apci);
    assert(old(buffer)@.take(0) + value_payload(value, apci) =~= value_payload(value, apci));
    r
}

/// Encodes a value for a `GroupValue_Write`.
pub fn encode_value(value: KnxValue, buffer: &mut [u8]) -> (r: usize)
    requires
        value_payload(value, 0x80).len() <= old(buffer)@.len(),
    ensures
        final(buffer)@ == overwrite_prefix(old(buffer)@, value_payload(value, 0x80)),
        r == value_frame_len(value),
{
    encode_value_with_apci(value, buffer, 0x80)
}

/// Encodes a value for a `GroupValue_Response`.
pub fn encode_value_response(value: KnxValue, buffer: &mut [u8]) -> (r: usize)
    requires
        value_payload(value, 0x40).len() <= old(buffer)@.len(),
    ensures
        final(buffer)@ == overwrite_prefix(old(buffer)@, value_payload(value, 0x40)),
        r == value_frame_len(value),
{
    encode_value_with_apci(value, buffer, 0x40)
}

/// The bytes of a cEMI `L_Data.req` group telegram from `source` to the
/// group `dest` (message code 0x11, no additional info, default control
/// fields 0x94 and 0xE0), followed by its NPDU.
pub open spec fn group_telegram(source: u16, dest: u16, npdu: Seq<u8>) -> Seq<u8> {
    seq![0x11u8, 0u8, 0x94u8, 0xE0u8] + be_bytes_u16(source) + be_bytes_u16(dest) + npdu
}

/// Write the eight telegram header bytes and the TPCI byte.
fn put_telegram_header(buffer: &mut [u8], source: u16, dest: u16)
    requires
        old(buffer)@.len() >= 10,
    ensures
        final(buffer)@.len() == old(buffer)@.len(),
        final(buffer)@.take(8) == group_telegram(source, dest, seq![]),
        final(buffer)@[9] == 0,
        final(buffer)@.skip(10) == old(buffer)@.skip(10),
{
    let device_addr = IndividualAddress::from_raw(source);
    buffer[0] = crate::protocol::constants::CEMIMessageCode::LDataReq.to_u8();
    buffer[1] = 0x00;
    buffer[2] = crate::protocol::cemi::ControlField1::default().raw();
    buffer[3] = crate::protocol::cemi::ControlField2::default().raw();
    let source_raw = device_addr.to_raw();
    buffer[4] = u16_hi(source_raw);
    buffer[5] = u16_lo(source_raw);
    let dest_raw: u16 = dest;
    buffer[6] = u16_hi(dest_raw);
    buffer[7] = u16_lo(dest_raw);
    buffer[9] = 0x00;
    assert(buffer@.take(8) =~= group_telegram(source, dest, seq![]));
    assert(buffer@.skip(10) =~= old(buffer)@.skip(10));
}

/// Write a group telegram carrying `value` with the given APCI; returns the
/// frame length.
fn build_group_value(
    group_addr: GroupAddress,
    value: KnxValue,
    device_address: u16,
    buffer: &mut [u8],
    apci: u8,
) -> (r: usize)
    requires
        8 + value_payload(value, apci).len() <= old(buffer)@.len(),
    ensures
        final(buffer)@ == overwrite_prefix(
            old(buffer)@,
            group_telegram(device_address, group_addr@, value_payload(value, apci)),
        ),
        r == value_frame_len(value),
{
    put_telegram_header(buffer, device_address, group_addr.into());
    let ghost mid = buffer@;
    let r = put_value(value, buffer, 8, apci);
    let ghost payload = value_payload(value, apci);
    let ghost plen: int = payload.len() as int;
    let ghost t = group_telegram(device_address, group_addr@, payload);
    assert(mid.take(8) == group_telegram(device_address, group_addr@, seq![]));
    assert(mid.skip(8 + plen) =~= old(buffer)@.skip(8 + plen)) by {
        assert forall|k: int| 0 <= k < mid.len() - (8 + plen) implies #[trigger] mid.skip(8 + plen)[k]
            == old(buffer)@.skip(8 + plen)[k] by {
            assert(mid.skip(10)[k + plen - 2] == old(buffer)@.skip(10)[k + plen - 2]);
        }
    }
    assert(mid.take(8) + payload =~= t);
    assert(buffer@ =~= overwrite_prefix(old(buffer)@, t));
    r
}

/// Builds a cEMI `L_Data.req` frame for `GroupValue_Write` into `buffer`
/// (at least 16 bytes for every value but a string, 25 for a string).
///
/// Returns the total frame length in bytes.
pub fn build_group_write(
    group_addr: GroupAddress,
    value: KnxValue,
    device_address: u16,
    buffer: &mut [u8],
) -> (r: usize)
    requires
        8 + value_payload(value, 0x80).len() <= old(buffer)@.len(),
    ensures
        final(buffer)@ == overwrite_prefix(
            old(buffer)@,
            group_telegram(device_address, group_addr@, value_payload(value, 0x80)),
        ),
        r == value_frame_len(value),
{
    build_group_value(group_addr, value, device_address, buffer, 0x80)
}

/// Builds a cEMI `L_Data.req` frame for `GroupValue_Response` into `buffer`.
///
/// Returns the total frame length in bytes.
pub fn build_group_response(
    group_addr: GroupAddress,
    value: KnxValue,
    device_address: u16,
    buffer: &mut [u8],
) -> (r: usize)
    requires
        8 + value_payload(value, 0x40).len() <= old(buffer)@.len(),
    ensures
        final(buffer)@ == overwrite_prefix(
            old(buffer)@,
            group_telegram(device_address, group_addr@, value_payload(value, 0x40)),
        ),
        r == value_frame_len(value),
{
    build_group_value(group_addr, value, device_address, buffer, 0x40)
}

/// Builds the 11-byte cEMI `L_Data.req` frame for `GroupValue_Read`.
pub fn build_group_read(group_addr: GroupAddress, device_address: u16) -> (r: [u8; 11])
    ensures
        r@ == group_telegram(device_address, group_addr@, seq![1u8, 0u8, 0u8]),
{
    let mut frame = [0u8; 11];
    put_telegram_header(&mut frame, device_address, group_addr.into());
    frame[8] = 0x01;
    frame[10] = 0x00;
    assert(frame@ =~= group_telegram(device_address, group_addr@, seq![1u8, 0u8, 0u8]));
    frame
}

/// The number of non-null bytes before the first null byte.
pub open spec fn leading_nonzero(s: Seq<u8>) -> nat
    decreases s.len(),
{
    if s.len() == 0 || s[0] == 0 {
        0
    } else {
        1 + leading_nonzero(s.skip(1))
    }
}

/// `leading_nonzero` is the one count of leading non-null bytes.
pub proof fn lemma_leading_nonzero(s: Seq<u8>, n: nat)
    requires
        n <= s.len(),
        forall|j: int| 0 <= j < n ==> s[j] != 0,
        n < s.len() ==> s[n as int] == 0,
    ensures
        leading_nonzero(s) == n,
    decreases s.len(),
{
    if s.len() > 0 && s[0] != 0 {
        assert(n > 0);
        lemma_leading_nonzero(s.skip(1), (n - 1) as nat);
    }
}

/// The day/month/year bytes of a 3-byte value look like a date.
pub open spec fn is_date_like(b1: u8, b2: u8, b3: u8) -> bool {
    1 <= b1 <= 31 && 1 <= b2 <= 12 && b3 <= 99
}

/// The value that APCI + data bytes decode to, where the length decides the
/// type: 1 byte a boolean, 2 an unsigned byte, 3 a 16-bit value (a KNX
/// float word when its sign or exponent is set), 4 a date when it looks like
/// one and a time of day otherwise, 9 a date and time, 15 a string.
pub open spec fn decoded_value(data: Seq<u8>) -> Option<KnxValue> {
    if data.len() == 1 {
        Some(KnxValue::Bool(data[0] % 2 == 1))
    } else if data.len() == 2 {
        Some(KnxValue::U8(data[1]))
    } else if data.len() == 3 {
        let raw = be_u16(data[1], data[2]) as u16;
        if raw >= 0x800 {
            Some(KnxValue::Float2(raw))
        } else {
            Some(KnxValue::U16(raw))
        }
    } else if data.len() == 4 {
        if is_date_like(data[1], data[2], data[3]) {
            Some(KnxValue::Date { day: data[1], month: data[2], year: data[3] })
        } else {
            Some(
                KnxValue::Time {
                    day: data[1] / 32,
                    hour: data[1] % 32,
                    minute: data[2],
                    second: data[3],
                },
            )
        }
    } else if data.len() == 15 {
        Some(
            KnxValue::StringAscii {
                data: [
                    data[1],
                    data[2],
                    data[3],
                    data[4],
                    data[5],
                    data[6],
                    data[7],
                    data[8],
                    data[9],
                    data[10],
                    data[11],
                    data[12],
                    data[13],
                    data[14],
                ],
                len: leading_nonzero(data.subrange(1, 15)) as u8,
            },
        )
    } else if data.len() == 9 {
        Some(
            KnxValue::DateTime {
                year: (1900 + data[1]) as u16,
                month: data[2],
                day: data[3],
                day_of_week: data[4] / 32,
                hour: data[4] % 32,
                minute: data[5],
                second: data[6],
                fault: data[7] & 0x80 != 0,
                working_day: data[7] & 0x40 != 0,
                no_wd: data[7] & 0x20 != 0,
                no_year: data[7] & 0x10 != 0,
                no_date: data[7] & 0x08 != 0,
                no_dow: data[7] & 0x04 != 0,
                no_time: data[7] & 0x02 != 0,
                standard_summertime: data[7] & 0x01 != 0,
                quality: data[8] & 0x80 != 0,
            },
        )
    } else {
        None
    }
}

/// `(b >> 5) & 0x07` and `b & 0x1F`.
fn split_day_hour(b: u8) -> (r: (u8, u8))
    ensures
        r.0 == b / 32,
        r.1 == b % 32,
{
    assert((b >> 5u8) & 0x07 == b / 32 && b & 0x1F == b % 32) by (bit_vector);
    ((b >> 5) & 0x07, b & 0x1F)
}

fn decode_string(data: &[u8]) -> (r: KnxValue)
    requires
        data@.len() == 15,
    ensures
        Some(r) == decoded_value(data@),
{
    let ghost s = data@.subrange(1, 15);
    let mut string_data = [0u8; 14];
    let mut len: u8 = 0;
    let mut i: usize = 0;
    while i < 14
        invariant
            0 <= i <= 14,
            data@.len() == 15,
            s == data@.subrange(1, 15),
            string_data@.len() == 14,
            forall|j: int| 0 <= j < i ==> #[trigger] string_data@[j] == s[j],
            len <= i,
            forall|j: int| 0 <= j < len ==> #[trigger] s[j] != 0,
            len < i ==> s[len as int] == 0,
        decreases 14 - i,
    {
        let byte = data[1 + i];
        string_data[i] = byte;
        if byte != 0 && len as usize == i {
            len = (i + 1) as u8;
        }
        i = i + 1;
    }
    proof {
        lemma_leading_nonzero(s, len as nat);
    }
    let r = KnxValue::StringAscii { data: string_data, len };
    assert(string_data@ =~= s);
    assert(r == decoded_value(data@)->0) by {
        let e = decoded_value(data@)->0;
        assert(e->data@ =~= s);
        assert(string_data =~= e->data);
    }
    r
}

fn decode_datetime(data: &[u8]) -> (r: KnxValue)
    requires
        data@.len() == 9,
    ensures
        Some(r) == decoded_value(data@),
{
    let (day_of_week, hour) = split_day_hour(data[4]);
    let flags1 = data[7];
    let flags2 = data[8];
    KnxValue::DateTime {
        year: 1900 + data[1] as u16,
        month: data[2],
        day: data[3],
        day_of_week,
        hour,
        minute: data[5],
        second: data[6],
        fault: (flags1 & 0x80) != 0,
        working_day: (flags1 & 0x40) != 0,
        no_wd: (flags1 & 0x20) != 0,
        no_year: (flags1 & 0x10) != 0,
        no_date: (flags1 & 0x08) != 0,
        no_dow: (flags1 & 0x04) != 0,
        no_time: (flags1 & 0x02) != 0,
        standard_summertime: (flags1 & 0x01) != 0,
        quality: (flags2 & 0x80) != 0,
    }
}

/// Decodes APCI + data bytes to a [`KnxValue`], or `None` for a length that
/// carries none of the known types.
///
/// Variants with the same encoding cannot be told apart: one data byte
/// gives `U8`, two give `U16` or `Float2`; the DPT registry types them.
pub fn decode_value(data: &[u8]) -> (r: Option<KnxValue>)
    ensures
        r == decoded_value(data@),
{
    let n = data.len();
    if n == 1 {
        let b = data[0];
        assert(b & 0x01 != 0 <==> b % 2 == 1) by (bit_vector);
        Some(KnxValue::Bool((b & 0x01) != 0))
    } else if n == 2 {
        Some(KnxValue::U8(data[1]))
    } else if n == 3 {
        let raw_u16 = u16_from_be(data[1], data[2]);
        assert(((raw_u16 & 0x8000) != 0 || (raw_u16 & 0x7800) != 0) <==> raw_u16 >= 0x800)
            by (bit_vector);
        if (raw_u16 & 0x8000) != 0 || (raw_u16 & 0x7800) != 0 {
            Some(KnxValue::Float2(raw_u16))
        } else {
            Some(KnxValue::U16(raw_u16))
        }
    } else if n == 4 {
        let byte1 = data[1];
        let byte2 = data[2];
        let byte3 = data[3];
        if byte1 >= 1 && byte1 <= 31 && byte2 >= 1 && byte2 <= 12 && byte3 <= 99 {
            Some(KnxValue::Date { day: byte1, month: byte2, year: byte3 })
        } else {
            let (day, hour) = split_day_hour(byte1);
            Some(KnxValue::Time { day, hour, minute: byte2, second: byte3 })
        }
    } else if n == 15 {
        Some(decode_string(data))
    } else if n == 9 {
        Some(decode_datetime(data))
    } else {
        None
    }
}

/// How a datapoint type types a decoded value: a byte becomes a 3-bit
/// control for dimming and blinds and a percentage (at most 100) for
/// percent; a float word becomes the typed DPT 9 value; every other value
/// is kept.
pub open spec fn applied(dpt: DptType, value: KnxValue) -> KnxValue {
    match dpt {
        DptType::Dimming | DptType::Blinds => match value {
            KnxValue::U8(v) => KnxValue::Control3Bit { control: v & 0x08 != 0, step: v & 0x07 },
            _ => value,
        },
        DptType::Percent => match value {
            KnxValue::U8(v) => KnxValue::Percent(at_most(v, 100)),
            _ => value,
        },
        DptType::Temperature => match value {
            KnxValue::Float2(w) => KnxValue::Temperature(w),
            _ => value,
        },
        DptType::Lux => match value {
            KnxValue::Float2(w) => KnxValue::Lux(w),
            _ => value,
        },
        DptType::Humidity => match value {
            KnxValue::Float2(w) => KnxValue::Humidity(w),
            _ => value,
        },
        DptType::Ppm => match value {
            KnxValue::Float2(w) => KnxValue::Ppm(w),
            _ => value,
        },
        _ => value,
    }
}

/// The human-readable name of a datapoint type.
pub open spec fn dpt_type_name(dpt: DptType) -> Seq<char> {
    match dpt {
        DptType::Bool => "Boolean (DPT 1.xxx)"@,
        DptType::Dimming => "Dimming Control (DPT 3.007)"@,
        DptType::Blinds => "Blinds Control (DPT 3.008)"@,
        DptType::Percent => "Percentage (DPT 5.001)"@,
        DptType::U8 => "Unsigned 8-bit (DPT 5.010)"@,
        DptType::U16 => "Unsigned 16-bit (DPT 7.001)"@,
        DptType::Time => "Time of Day (DPT 10.001)"@,
        DptType::Date => "Date (DPT 11.001)"@,
        DptType::StringAscii => "String ASCII (DPT 16.000/16.001)"@,
        DptType::DateTime => "Date and Time (DPT 19.001)"@,
        DptType::Temperature => "Temperature (DPT 9.001)"@,
        DptType::Lux => "Illuminance (DPT 9.004)"@,
        DptType::Humidity => "Humidity (DPT 9.007)"@,
        DptType::Ppm => "Air Quality (DPT 9.008)"@,
        DptType::Float2 => "Generic Float (DPT 9.xxx)"@,
    }
}

impl DptType {
    /// Returns a human-readable name for this DPT type.
    pub fn name(&self) -> (r: &'static str)
        ensures
            r@ == dpt_type_name(*self),
    {
        match self {
            DptType::Bool => "Boolean (DPT 1.xxx)",
            DptType::Dimming => "Dimming Control (DPT 3.007)",
            DptType::Blinds => "Blinds Control (DPT 3.008)",
            DptType::Percent => "Percentage (DPT 5.001)",
            DptType::U8 => "Unsigned 8-bit (DPT 5.010)",
            DptType::U16 => "Unsigned 16-bit (DPT 7.001)",
            DptType::Time => "Time of Day (DPT 10.001)",
            DptType::Date => "Date (DPT 11.001)",
            DptType::StringAscii => "String ASCII (DPT 16.000/16.001)",
            DptType::DateTime => "Date and Time (DPT 19.001)",
            DptType::Temperature => "Temperature (DPT 9.001)",
            DptType::Lux => "Illuminance (DPT 9.004)",
            DptType::Humidity => "Humidity (DPT 9.007)",
            DptType::Ppm => "Air Quality (DPT 9.008)",
            DptType::Float2 => "Generic Float (DPT 9.xxx)",
        }
    }

    /// Converts a decoded raw value into a typed [`KnxValue`] based on this
    /// DPT; a value that does not fit the type is returned unchanged.
    pub fn apply_to_value(&self, raw_value: KnxValue) -> (r: KnxValue)
        ensures
            r == applied(*self, raw_value),
    {
        match self {
            DptType::Dimming | DptType::Blinds => match raw_value {
                KnxValue::U8(v) => KnxValue::Control3Bit {
                    control: (v & 0x08) != 0,
                    step: v & 0x07,
                },
                _ => raw_value,
            },
            DptType::Percent => match raw_value {
                KnxValue::U8(v) => KnxValue::Percent(min_u8(v, 100)),
                _ => raw_value,
            },
            DptType::Temperature => match raw_value {
                KnxValue::Float2(w) => KnxValue::Temperature(w),
                _ => raw_value,
            },
            DptType::Lux => match raw_value {
                KnxValue::Float2(w) => KnxValue::Lux(w),
                _ => raw_value,
            },
            DptType::Humidity => match raw_value {
                KnxValue::Float2(w) => KnxValue::Humidity(w),
                _ => raw_value,
            },
            DptType::Ppm => match raw_value {
                KnxValue::Float2(w) => KnxValue::Ppm(w),
                _ => raw_value,
            },
            _ => raw_value,
        }
    }
}

/// Formats a group address into its 3-level `(main, middle, sub)`
/// components.
pub fn format_group_address(addr: GroupAddress) -> (r: (u8, u8, u8))
    ensures
        r == ((addr@ / 2048) as u8, ((addr@ / 256) % 8) as u8, (addr@ % 256) as u8),
{
    let raw: u16 = addr.into();
    assert(((raw >> 11u16) & 0x1F) == raw / 2048 && ((raw >> 8u16) & 0x07) == (raw / 256) % 8 && (
    raw & 0xFF) == raw % 256) by (bit_vector);
    let main = ((raw >> 11) & 0x1F) as u8;
    let middle = ((raw >> 8) & 0x07) as u8;
    let sub = (raw & 0xFF) as u8;
    (main, middle, sub)
}

/// The datapoint types registered for group addresses (at most 32).
///
/// A heapless `FnvIndexMap` from the raw group address to its type.
#[verifier::external_body]
pub struct DptRegistry {
    map: FnvIndexMap<u16, DptType, 32>,
}

/// What a registry holds: raw group address to datapoint type.
pub uninterp spec fn registry_entries(registry: DptRegistry) -> Map<u16, DptType>;

/// The entries of an empty registry.
pub open spec fn no_entries() -> Map<u16, DptType> {
    Map::empty()
}

/// The type registered for the raw address `raw`, if any.
pub open spec fn registered_type(entries: Map<u16, DptType>, raw: u16) -> Option<DptType> {
    if entries.dom().contains(raw) {
        Some(entries[raw])
    } else {
        None
    }
}

impl DptRegistry {
    /// `FnvIndexMap::new`: an empty map.
    #[verifier::external_body]
    fn map_new() -> (r: DptRegistry)
        ensures
            no_entries() == registry_entries(r),
    {
        DptRegistry { map: FnvIndexMap::new() }
    }

    /// `IndexMap::insert`: a key already present gets the new value and the
    /// old one is returned; a new key is added if fewer than 32 entries are
    /// held, and handed back in `Err` otherwise, the map unchanged.
    #[verifier::external_body]
    fn map_insert(&mut self, key: u16, value: DptType) -> (r: Result<Option<DptType>, (u16, DptType)>)
        ensures
            registry_entries(*old(self)).dom().contains(key) ==> (r matches Ok(prev) && prev == Some(
                registry_entries(*old(self))[key],
            ) && registry_entries(*final(self)) == registry_entries(*old(self)).insert(key, value)),
            (!registry_entries(*old(self)).dom().contains(key) && registry_entries(
                *old(self),
            ).len() < 32) ==> (r matches Ok(prev) && prev is None && registry_entries(*final(self))
                == registry_entries(*old(self)).insert(key, value)),
            (!registry_entries(*old(self)).dom().contains(key) && registry_entries(
                *old(self),
            ).len() >= 32) ==> (r matches Err(back) && back == (key, value) && registry_entries(
                *final(self),
            ) == registry_entries(*old(self))),
    {
        self.map.insert(key, value)
    }

    /// `IndexMap::get`, the value copied out.
    #[verifier::external_body]
    fn map_get(&self, key: u16) -> (r: Option<DptType>)
        ensures
            r == registered_type(registry_entries(*self), key),
    {
        self.map.get(&key).copied()
    }

    /// `IndexMap::clear`: every entry removed.
    #[verifier::external_body]
    fn map_clear(&mut self)
        ensures
            registry_entries(*final(self)) =~= no_entries(),
    {
        self.map.clear()
    }

    /// `IndexMap::len`: the number of entries.
    #[verifier::external_body]
    fn map_len(&self) -> (r: usize)
        ensures
            r == registry_entries(*self).len(),
    {
        self.map.len()
    }

    /// Creates an empty registry.
    pub fn new() -> (r: Self)
        ensures
            registry_entries(r) == no_entries(),
    {
        Self::map_new()
    }

    /// Registers a datapoint type for a group address, replacing the type
    /// registered before for it.
    ///
    /// # Errors
    ///
    /// `BufferError` if the address is new and 32 addresses are registered
    /// already; the registry is then unchanged.
    pub fn register(&mut self, address: GroupAddress, dpt_type: DptType) -> (r: Result<
        (),
        KnxClientError,
    >)
        ensures
            ({
                let before = registry_entries(*old(self));
                let after = registry_entries(*final(self));
                &&& (before.dom().contains(address@) || before.len() < 32) <==> r is Ok
                &&& r is Ok ==> after == before.insert(address@, dpt_type)
                &&& r is Err ==> r == Err::<(), KnxClientError>(KnxClientError::BufferError)
                    && after == before
            }),
    {
        let addr_raw: u16 = address.into();
        match self.map_insert(addr_raw, dpt_type) {
            Ok(_) => Ok(()),
            Err(_) => Err(KnxClientError::BufferError),
        }
    }

    /// Looks up the registered DPT type for a group address.
    pub fn lookup(&self, address: GroupAddress) -> (r: Option<DptType>)
        ensures
            r == registered_type(registry_entries(*self), address@),
    {
        let addr_raw: u16 = address.into();
        self.map_get(addr_raw)
    }

    /// Clears all registered DPT mappings.
    pub fn clear(&mut self)
        ensures
            registry_entries(*final(self)) == no_entries(),
    {
        self.map_clear()
    }

    /// Returns the number of registered DPT mappings.
    pub fn len(&self) -> (r: usize)
        ensures
            r == registry_entries(*self).len(),
    {
        self.map_len()
    }

    /// Returns whether the DPT registry is empty.
    pub fn is_empty(&self) -> (r: bool)
        ensures
            r == (registry_entries(*self).len() == 0),
    {
        self.map_len() == 0
    }
}

/// What a registration followed by lookups gives: the registered type for
/// the registered address, what was there before for every other address.
pub proof fn lemma_register_then_lookup(
    entries: Map<u16, DptType>,
    registered: u16,
    dpt_type: DptType,
    other: u16,
)
    requires
        other != registered,
    ensures
        registered_type(entries.insert(registered, dpt_type), registered) == Some(dpt_type),
        registered_type(entries.insert(registered, dpt_type), other) == registered_type(
            entries,
            other,
        ),
{
}

/// Events received from the KNX bus.
#[derive(Debug, Clone, Copy, PartialEq, Eq)]
pub enum KnxEvent {
    /// Group value write event - a device wrote a value to the bus
    GroupWrite {
        /// Destination group address
        address: GroupAddress,
        /// Value that was written
        value: KnxValue,
    },
    /// Group value read request - a device requested a value
    GroupRead {
        /// Group address being queried
        address: GroupAddress,
    },
    /// Group value response - answer to a read request
    GroupResponse {
        /// Group address responding
        address: GroupAddress,
        /// Response value
        value: KnxValue,
    },
    /// Unknown or unparsed event
    Unknown {
        /// Group address
        address: GroupAddress,
        /// Data length in bytes
        data_len: usize,
    },
}

/// cEMI bytes that parse as an `L_Data` frame.
pub open spec fn cemi_is_ldata(cemi: Seq<u8>) -> bool {
    let si = cemi_service_info(cemi);
    &&& cemi.len() >= 2
    &&& message_code_of(cemi[0]) is Some
    &&& is_ldata_code(message_code_of(cemi[0])->0)
    &&& cemi.len() >= 2 + cemi[1]
    &&& ldata_ok(si)
}

/// A decoded value typed by the registry entry of its address, if any.
pub open spec fn typed_value(entries: Map<u16, DptType>, raw: u16, value: KnxValue) -> KnxValue {
    match registered_type(entries, raw) {
        Some(dpt) => applied(dpt, value),
        None => value,
    }
}

/// The event that received cEMI bytes report, given the registry.
///
/// Only `L_Data` frames to a group address with application data report
/// one.  The first application data byte is taken as APCI: `0x80` in its
/// top bits a write, `0x40` a response, `0x00` a read; a write or response
/// whose data decodes to no value is reported as unknown.
pub open spec fn event_of(cemi: Seq<u8>, entries: Map<u16, DptType>) -> Option<KnxEvent> {
    let si = cemi_service_info(cemi);
    let data = si.subrange(ldata_data_start(si), ldata_npdu_end(si));
    let dest = be_u16(si[4], si[5]) as u16;
    let address = group_address_of(dest);
    if !cemi_is_ldata(cemi) || si[1] & 0x80 == 0 || data.len() == 0 {
        None
    } else if data[0] & 0xC0 == 0x80 {
        Some(
            match decoded_value(data) {
                Some(v) => KnxEvent::GroupWrite { address, value: typed_value(entries, dest, v) },
                None => KnxEvent::Unknown { address, data_len: data.len() as usize },
            },
        )
    } else if data[0] & 0xC0 == 0x40 {
        Some(
            match decoded_value(data) {
                Some(v) => KnxEvent::GroupResponse {
                    address,
                    value: typed_value(entries, dest, v),
                },
                None => KnxEvent::Unknown { address, data_len: data.len() as usize },
            },
        )
    } else if data[0] & 0xC0 == 0 {
        Some(KnxEvent::GroupRead { address })
    } else {
        None
    }
}

/// Decodes the cEMI data of a received tunneling request into a bus event,
/// typing the value by the registry; `None` for frames that report none.
pub fn event_from_cemi(cemi_data: &[u8], registry: &DptRegistry) -> (r: Option<KnxEvent>)
    ensures
        r == event_of(cemi_data@, registry_entries(*registry)),
{
    if let Ok(cemi) = CEMIFrame::parse(cemi_data) {
        if let Ok(ldata) = cemi.as_ldata() {
            if let Some(dest) = ldata.destination_group() {
                proof {
                    lemma_group_address_of(dest, dest@);
                }
                if ldata.data.len() > 0 {
                    let apci = ldata.data[0] & 0xC0;
                    if apci == 0x80 {
                        return match decode_value(ldata.data) {
                            Some(value) => {
                                let typed = match registry.lookup(dest) {
                                    Some(dpt_type) => dpt_type.apply_to_value(value),
                                    None => value,
                                };
                                Some(KnxEvent::GroupWrite { address: dest, value: typed })
                            },
                            None => Some(
                                KnxEvent::Unknown { address: dest, data_len: ldata.data.len() },
                            ),
                        };
                    } else if apci == 0x40 {
                        return match decode_value(ldata.data) {
                            Some(value) => {
                                let typed = match registry.lookup(dest) {
                                    Some(dpt_type) => dpt_type.apply_to_value(value),
                                    None => value,
                                };
                                Some(KnxEvent::GroupResponse { address: dest, value: typed })
                            },
                            None => Some(
                                KnxEvent::Unknown { address: dest, data_len: ldata.data.len() },
                            ),
                        };
                    } else if apci == 0x00 {
                        return Some(KnxEvent::GroupRead { address: dest });
                    }
                }
            }
        }
    }
    None
}

/// The raw individual address `area.line.device` as the builder packs it:
/// area in bits 15-12, line in bits 11-8, device in bits 7-0, each shifted
/// into 16 bits and or-ed.
pub open spec fn packed_device_address(area: u8, line: u8, device: u8) -> u16 {
    ((area as u16) << 12u16) | ((line as u16) << 8u16) | (device as u16)
}

/// Builder for the configuration of a KNX client: gateway endpoint and the
/// device's individual address.
pub struct KnxClientBuilder {
    gateway_ip: [u8; 4],
    gateway_port: u16,
    device_address: u16,
}

impl KnxClientBuilder {
    /// The configured gateway IPv4 address.
    pub closed spec fn spec_gateway_ip(&self) -> Seq<u8> {
        self.gateway_ip@
    }

    /// The configured gateway port.
    pub closed spec fn spec_gateway_port(&self) -> u16 {
        self.gateway_port
    }

    /// The configured raw device address.
    pub closed spec fn spec_device_address(&self) -> u16 {
        self.device_address
    }

    /// A builder with the defaults: gateway 192.168.1.10:3671, device
    /// address 1.1.1.
    pub fn new() -> (r: Self)
        ensures
            r.spec_gateway_ip() == seq![192u8, 168u8, 1u8, 10u8],
            r.spec_gateway_port() == DEFAULT_KNXNET_PORT,
            r.spec_device_address() == DEVICE_ADDRESS_RAW,
    {
        let r = Self {
            gateway_ip: [192, 168, 1, 10],
            gateway_port: DEFAULT_KNXNET_PORT,
            device_address: DEVICE_ADDRESS_RAW,
        };
        assert(r.gateway_ip@ =~= seq![192u8, 168u8, 1u8, 10u8]);
        r
    }

    /// Sets the KNX gateway IP address and port.
    pub fn gateway(self, ip: [u8; 4], port: u16) -> (r: Self)
        ensures
            r.spec_gateway_ip() == ip@,
            r.spec_gateway_port() == port,
            r.spec_device_address() == self.spec_device_address(),
    {
        let mut this = self;
        this.gateway_ip = ip;
        this.gateway_port = port;
        this
    }

    /// Sets the device individual address from `[area, line, device]`.
    pub fn device_address(self, address: [u8; 3]) -> (r: Self)
        ensures
            r.spec_gateway_ip() == self.spec_gateway_ip(),
            r.spec_gateway_port() == self.spec_gateway_port(),
            r.spec_device_address() == packed_device_address(address[0], address[1], address[2]),
    {
        let area = address[0];
        let line = address[1];
        let device = address[2];
        let mut this = self;
        this.device_address = ((area as u16) << 12) | ((line as u16) << 8) | (device as u16);
        this
    }

    /// The configured gateway endpoint.
    pub fn gateway_endpoint(&self) -> (r: ([u8; 4], u16))
        ensures
            r.0@ == self.spec_gateway_ip(),
            r.1 == self.spec_gateway_port(),
    {
        (self.gateway_ip, self.gateway_port)
    }

    /// The configured raw device address.
    pub fn device_address_raw(&self) -> (r: u16)
        ensures
            r == self.spec_device_address(),
    {
        self.device_address
    }
}

/// The datapoint type a value is written as.
pub open spec fn dpt_of_value(value: KnxValue) -> DptType {
    match value {
        KnxValue::Bool(_) => DptType::Bool,
        KnxValue::Control3Bit { .. } => DptType::Dimming,
        KnxValue::Percent(_) => DptType::Percent,
        KnxValue::U8(_) => DptType::U8,
        KnxValue::U16(_) => DptType::U16,
        KnxValue::Time { .. } => DptType::Time,
        KnxValue::Date { .. } => DptType::Date,
        KnxValue::StringAscii { .. } => DptType::StringAscii,
        KnxValue::DateTime { .. } => DptType::DateTime,
        KnxValue::Temperature(_) => DptType::Temperature,
        KnxValue::Lux(_) => DptType::Lux,
        KnxValue::Humidity(_) => DptType::Humidity,
        KnxValue::Ppm(_) => DptType::Ppm,
        KnxValue::Float2(_) => DptType::Float2,
    }
}

/// A string value in canonical form: its characters non-null, the rest of
/// its 14 bytes null.
pub open spec fn canonical_string(data: Seq<u8>, len: u8) -> bool {
    &&& len <= 14
    &&& forall|j: int| 0 <= j < len ==> data[j] != 0
    &&& forall|j: int| len <= j < 14 ==> data[j] == 0
}

/// The values that the wire carries exactly: every field in its range, no
/// float word that reads as a plain 16-bit value, no time of day whose
/// bytes read as a date, and of the percentages only 0 and 100 (a
/// percentage is scaled to 0-255 on the way out and only clamped on the
/// way in).
pub open spec fn transmits_exactly(value: KnxValue) -> bool {
    match value {
        KnxValue::Bool(_) => true,
        KnxValue::Control3Bit { step, .. } => step <= 7,
        KnxValue::Percent(p) => p == 0 || p == 100,
        KnxValue::U8(_) => true,
        KnxValue::U16(v) => v < 0x800,
        KnxValue::Time { day, hour, minute, second } => day <= 7 && hour <= 23 && minute <= 59
            && second <= 59 && !is_date_like((day * 32 + hour) as u8, minute, second),
        KnxValue::Date { day, month, year } => 1 <= day <= 31 && 1 <= month <= 12 && year <= 99,
        KnxValue::StringAscii { data, len } => canonical_string(data@, len),
        KnxValue::DateTime { year, month, day, day_of_week, hour, minute, second, .. } => 1900
            <= year <= 2155 && 1 <= month <= 12 && 1 <= day <= 31 && day_of_week <= 7 && hour
            <= 23 && minute <= 59 && second <= 59,
        KnxValue::Temperature(w) => w >= 0x800,
        KnxValue::Lux(w) => w >= 0x800,
        KnxValue::Humidity(w) => w >= 0x800,
        KnxValue::Ppm(w) => w >= 0x800,
        KnxValue::Float2(w) => w >= 0x800,
    }
}

proof fn lemma_control3_roundtrip(control: bool, step: u8)
    requires
        step <= 7,
    ensures
        control3_byte(control, step) & 0x08 != 0 <==> control,
        control3_byte(control, step) & 0x07 == step,
{
    let s = at_most(step, 7);
    assert(s == step);
    assert((0x08u8 | s) & 0x08 != 0 && (0x08u8 | s) & 0x07 == s) by (bit_vector)
        requires
            s <= 7,
    ;
    assert((0u8 | s) & 0x08 == 0 && (0u8 | s) & 0x07 == s) by (bit_vector)
        requires
            s <= 7,
    ;
}

proof fn lemma_datetime_flags_roundtrip(
    fault: bool,
    working_day: bool,
    no_wd: bool,
    no_year: bool,
    no_date: bool,
    no_dow: bool,
    no_time: bool,
    standard_summertime: bool,
    quality: bool,
)
    ensures
        ({
            let f = datetime_flags(
                fault,
                working_day,
                no_wd,
                no_year,
                no_date,
                no_dow,
                no_time,
                standard_summertime,
            );
            &&& (f & 0x80 != 0) == fault
            &&& (f & 0x40 != 0) == working_day
            &&& (f & 0x20 != 0) == no_wd
            &&& (f & 0x10 != 0) == no_year
            &&& (f & 0x08 != 0) == no_date
            &&& (f & 0x04 != 0) == no_dow
            &&& (f & 0x02 != 0) == no_time
            &&& (f & 0x01 != 0) == standard_summertime
            &&& (flag(quality, 0x80) & 0x80 != 0) == quality
        }),
{
    let a = flag(fault, 0x80);
    let b = flag(working_day, 0x40);
    let c = flag(no_wd, 0x20);
    let d = flag(no_year, 0x10);
    let e = flag(no_date, 0x08);
    let g = flag(no_dow, 0x04);
    let h = flag(no_time, 0x02);
    let i = flag(standard_summertime, 0x01);
    let q = flag(quality, 0x80);
    assert({
        let f = a | b | c | d | e | g | h | i;
        &&& (f & 0x80 != 0) == (a != 0)
        &&& (f & 0x40 != 0) == (b != 0)
        &&& (f & 0x20 != 0) == (c != 0)
        &&& (f & 0x10 != 0) == (d != 0)
        &&& (f & 0x08 != 0) == (e != 0)
        &&& (f & 0x04 != 0) == (g != 0)
        &&& (f & 0x02 != 0) == (h != 0)
        &&& (f & 0x01 != 0) == (i != 0)
        &&& (q & 0x80 != 0) == (q != 0)
    }) by (bit_vector)
        requires
            a == 0 || a == 0x80,
            b == 0 || b == 0x40,
            c == 0 || c == 0x20,
            d == 0 || d == 0x10,
            e == 0 || e == 0x08,
            g == 0 || g == 0x04,
            h == 0 || h == 0x02,
            i == 0 || i == 0x01,
            q == 0 || q == 0x80,
    ;
}

proof fn lemma_string_roundtrip(data: [u8; 14], len: u8, apci: u8)
    requires
        canonical_string(data@, len),
    ensures
        decoded_value(value_payload(KnxValue::StringAscii { data, len }, apci).skip(2)) == Some(
            KnxValue::StringAscii { data, len },
        ),
{
    let p = value_payload(KnxValue::StringAscii { data, len }, apci).skip(2);
    let sb = string_bytes(data@, len);
    assert(sb =~= data@);
    assert(p =~= seq![apci] + data@);
    assert(p.subrange(1, 15) =~= data@);
    lemma_leading_nonzero(data@, len as nat);
    let d = decoded_value(p)->0;
    assert(d->data@ =~= data@);
    assert(d->data =~= data);
}

/// Written with the datapoint type it is read back as, a value that the
/// wire carries exactly comes back unchanged: the APCI byte and the data
/// bytes of its telegram decode, and the registry types, to that value.
pub proof fn lemma_value_roundtrip(value: KnxValue, apci: u8)
    requires
        transmits_exactly(value),
        apci & 1 == 0,
    ensures
        ({
            let d = decoded_value(value_payload(value, apci).skip(2));
            &&& d is Some
            &&& applied(dpt_of_value(value), d->0) == value
        }),
{
    let p = value_payload(value, apci).skip(2);
    match value {
        KnxValue::Bool(b) => {
            assert((apci | 1) % 2 == 1 && (apci | 0) % 2 == 0) by (bit_vector)
                requires
                    apci & 1 == 0,
            ;
        },
        KnxValue::Control3Bit { control, step } => {
            lemma_control3_roundtrip(control, step);
        },
        KnxValue::Percent(_) => {},
        KnxValue::U8(_) => {},
        KnxValue::U16(v) => {
            lemma_be_u16_roundtrip(v);
        },
        KnxValue::Time { day, hour, minute, second } => {
            let b = day_hour_byte(day, hour);
            assert(b / 32 == day && b % 32 == hour);
        },
        KnxValue::Date { .. } => {},
        KnxValue::StringAscii { data, len } => {
            lemma_string_roundtrip(data, len, apci);
        },
        KnxValue::DateTime {
            year,
            month,
            day,
            day_of_week,
            hour,
            minute,
            second,
            fault,
            working_day,
            no_wd,
            no_year,
            no_date,
            no_dow,
            no_time,
            standard_summertime,
            quality,
        } => {
            lemma_datetime_flags_roundtrip(
                fault,
                working_day,
                no_wd,
                no_year,
                no_date,
                no_dow,
                no_time,
                standard_summertime,
                quality,
            );
            let b = day_hour_byte(day_of_week, hour);
            assert(b / 32 == day_of_week && b % 32 == hour);
        },
        KnxValue::Temperature(w) => {
            lemma_be_u16_roundtrip(w);
        },
        KnxValue::Lux(w) => {
            lemma_be_u16_roundtrip(w);
        },
        KnxValue::Humidity(w) => {
            lemma_be_u16_roundtrip(w);
        },
        KnxValue::Ppm(w) => {
            lemma_be_u16_roundtrip(w);
        },
        KnxValue::Float2(w) => {
            lemma_be_u16_roundtrip(w);
        },
    }
}

/// Typing by a datapoint type is idempotent: a value that was typed stays
/// as it is when typed again by the same type.
pub proof fn lemma_apply_idempotent(dpt: DptType, value: KnxValue)
    ensures
        applied(dpt, applied(dpt, value)) == applied(dpt, value),
{
}

} // verus!
