//! Common External Message Interface (cEMI) implementation.
//!
//! cEMI encapsulates KNX telegrams within KNXnet/IP frames.
//!
//! ```text
//! ┌──────────────────────────────────────────┐
//! │ Message Code (1 byte)                    │
//! ├──────────────────────────────────────────┤
//! │ Additional Info Length (1 byte)          │
//! ├──────────────────────────────────────────┤
//! │ Additional Info (variable)               │
//! ├──────────────────────────────────────────┤
//! │ Service Information (L_Data)             │
//! │  ├─ Control Field 1 (1 byte)             │
//! │  ├─ Control Field 2 (1 byte)             │
//! │  ├─ Source Address (2 bytes)             │
//! │  ├─ Destination Address (2 bytes)        │
//! │  ├─ NPDU Length (1 byte)                 │
//! │  ├─ TPCI/APCI (1-2 bytes)                │
//! │  └─ Data (variable)                      │
//! └──────────────────────────────────────────┘
//! ```

use crate::addressing::{GroupAddress, IndividualAddress};
use crate::codec::{be_u16, u16_from_be};
use crate::error::{KnxError, KnxResult, ProtocolErrorKind, TransportErrorKind};
use crate::protocol::constants::{
    message_code_of, priority_code, priority_of, CEMIMessageCode, Priority,
};
use vstd::prelude::*;

verus! {

/// cEMI Additional Information Type codes
#[derive(Debug, Clone, Copy, PartialEq, Eq, Structural)]
pub enum AdditionalInfoType {
    /// PL medium information (0x01)
    PlMediumInfo,
    /// RF medium information (0x02)
    RfMediumInfo,
    /// Busmonitor error flags (0x03)
    BusmonitorErrorFlags,
    /// Relative timestamp (0x04)
    RelativeTimestamp,
    /// Time delay (0x05)
    TimeDelay,
    /// Extended relative timestamp (0x06)
    ExtendedRelativeTimestamp,
    /// `BiBat` information (0x07)
    BiBatInfo,
}

/// Control Field 1 of `L_Data` frame
///
/// ```text
/// Bit 7: Frame Type (0=extended, 1=standard)
/// Bit 6: Reserved
/// Bit 5: Repeat (0=repeat, 1=do not repeat)
/// Bit 4: System Broadcast (0=system, 1=broadcast)
/// Bit 3-2: Priority (00=system, 01=normal, 10=urgent, 11=low)
/// Bit 1: Acknowledge Request (0=no ack, 1=ack requested)
/// Bit 0: Confirm (0=no error, 1=error)
/// ```
#[derive(Debug, Clone, Copy, PartialEq, Eq, Structural)]
pub struct ControlField1 {
    raw: u8,
}

impl View for ControlField1 {
    type V = u8;

    closed spec fn view(&self) -> u8 {
        self.raw
    }
}

/// The raw control field 1 with the given flags (bit 6 clear).
pub open spec fn control1_raw(
    standard_frame: bool,
    do_not_repeat: bool,
    broadcast: bool,
    priority: Priority,
    ack_requested: bool,
    has_error: bool,
) -> u8 {
    ((if standard_frame {
        0x80u8
    } else {
        0u8
    }) | (if do_not_repeat {
        0x20u8
    } else {
        0u8
    }) | (if broadcast {
        0x10u8
    } else {
        0u8
    }) | ((priority_code(priority) & 0x03) << 2u8) | (if ack_requested {
        0x02u8
    } else {
        0u8
    }) | (if has_error {
        0x01u8
    } else {
        0u8
    }))
}

impl From<u8> for ControlField1 {
    fn from(raw: u8) -> (r: Self)
        ensures
            r@ == raw,
    {
        Self { raw }
    }
}

impl vstd::std_specs::convert::FromSpecImpl<u8> for ControlField1 {
    open spec fn obeys_from_spec() -> bool {
        true
    }

    closed spec fn from_spec(v: u8) -> Self {
        ControlField1 { raw: v }
    }
}

impl From<ControlField1> for u8 {
    fn from(ctrl: ControlField1) -> (r: u8)
        ensures
            r == ctrl@,
    {
        ctrl.raw
    }
}

impl vstd::std_specs::convert::FromSpecImpl<ControlField1> for u8 {
    open spec fn obeys_from_spec() -> bool {
        true
    }

    closed spec fn from_spec(v: ControlField1) -> u8 {
        v.raw
    }
}

impl ControlField1 {
    /// Get raw byte value
    pub fn raw(self) -> (r: u8)
        ensures
            r == self@,
    {
        self.raw
    }

    /// Check if frame is standard (true) or extended (false)
    pub fn is_standard_frame(self) -> (b: bool)
        ensures
            b == (self@ & 0x80 != 0),
    {
        (self.raw & 0x80) != 0
    }

    /// Check if repeat flag is set (do not repeat if true)
    pub fn do_not_repeat(self) -> (b: bool)
        ensures
            b == (self@ & 0x20 != 0),
    {
        (self.raw & 0x20) != 0
    }

    /// Check if this is a system broadcast
    pub fn is_broadcast(self) -> (b: bool)
        ensures
            b == (self@ & 0x10 != 0),
    {
        (self.raw & 0x10) != 0
    }

    /// Get priority
    pub fn priority(self) -> (p: Priority)
        ensures
            p == priority_of((self@ >> 2u8) & 0x03),
    {
        Priority::from_u8((self.raw >> 2) & 0x03)
    }

    /// Check if acknowledge is requested
    pub fn ack_requested(self) -> (b: bool)
        ensures
            b == (self@ & 0x02 != 0),
    {
        (self.raw & 0x02) != 0
    }

    /// Check if confirm error flag is set
    pub fn has_error(self) -> (b: bool)
        ensures
            b == (self@ & 0x01 != 0),
    {
        (self.raw & 0x01) != 0
    }

    /// Create a new Control Field 1
    pub fn new(
        standard_frame: bool,
        do_not_repeat: bool,
        broadcast: bool,
        priority: Priority,
        ack_requested: bool,
        has_error: bool,
    ) -> (r: Self)
        ensures
            r@ == control1_raw(
                standard_frame,
                do_not_repeat,
                broadcast,
                priority,
                ack_requested,
                has_error,
            ),
    {
        let a: u8 = if standard_frame {
            0x80
        } else {
            0
        };
        let b: u8 = if do_not_repeat {
            0x20
        } else {
            0
        };
        let c: u8 = if broadcast {
            0x10
        } else {
            0
        };
        let d: u8 = if ack_requested {
            0x02
        } else {
            0
        };
        let e: u8 = if has_error {
            0x01
        } else {
            0
        };
        let raw = a | b | c | ((priority.to_u8() & 0x03) << 2) | d | e;
        Self { raw }
    }
}

impl Default for ControlField1 {
    /// Standard frame, repeat allowed, broadcast, normal priority, no ack,
    /// no error (0x94).
    fn default() -> (r: Self)
        ensures
            r@ == 0x94,
    {
        Self { raw: 0x94 }
    }
}

/// A control field 1 built from flags reads them back, with bit 6 clear.
pub proof fn lemma_control1_flags(
    standard_frame: bool,
    do_not_repeat: bool,
    broadcast: bool,
    priority: Priority,
    ack_requested: bool,
    has_error: bool,
)
    ensures
        ({
            let v = control1_raw(
                standard_frame,
                do_not_repeat,
                broadcast,
                priority,
                ack_requested,
                has_error,
            );
            &&& (v & 0x80 != 0) == standard_frame
            &&& (v & 0x40) == 0
            &&& (v & 0x20 != 0) == do_not_repeat
            &&& (v & 0x10 != 0) == broadcast
            &&& priority_of((v >> 2u8) & 0x03) == priority
            &&& (v & 0x02 != 0) == ack_requested
            &&& (v & 0x01 != 0) == has_error
        }),
{
    let p = priority_code(priority);
    let a: u8 = if standard_frame {
        0x80u8
    } else {
        0u8
    };
    let b: u8 = if do_not_repeat {
        0x20u8
    } else {
        0u8
    };
    let c: u8 = if broadcast {
        0x10u8
    } else {
        0u8
    };
    let d: u8 = if ack_requested {
        0x02u8
    } else {
        0u8
    };
    let e: u8 = if has_error {
        0x01u8
    } else {
        0u8
    };
    let v = a | b | c | ((p & 0x03) << 2u8) | d | e;
    assert(v == control1_raw(standard_frame, do_not_repeat, broadcast, priority, ack_requested, has_error));
    assert(p < 4);
    assert({
        &&& (v & 0x80 != 0) == (a != 0)
        &&& (v & 0x40) == 0
        &&& (v & 0x20 != 0) == (b != 0)
        &&& (v & 0x10 != 0) == (c != 0)
        &&& ((v >> 2u8) & 0x03) == p
        &&& (v & 0x02 != 0) == (d != 0)
        &&& (v & 0x01 != 0) == (e != 0)
    }) by (bit_vector)
        requires
            v == a | b | c | ((p & 0x03) << 2u8) | d | e,
            a == 0x80u8 || a == 0u8,
            b == 0x20u8 || b == 0u8,
            c == 0x10u8 || c == 0u8,
            d == 0x02u8 || d == 0u8,
            e == 0x01u8 || e == 0u8,
            p < 4,
    ;
    crate::protocol::constants::lemma_priority_roundtrip(priority);
}

/// Control Field 2 of `L_Data` frame
///
/// ```text
/// Bit 7: Destination Address Type (0=individual, 1=group)
/// Bit 6-4: Hop Count (0-7)
/// Bit 3-0: Extended Frame Format (0000=standard)
/// ```
#[derive(Debug, Clone, Copy, PartialEq, Eq, Structural)]
pub struct ControlField2 {
    raw: u8,
}

impl View for ControlField2 {
    type V = u8;

    closed spec fn view(&self) -> u8 {
        self.raw
    }
}

impl From<u8> for ControlField2 {
    fn from(raw: u8) -> (r: Self)
        ensures
            r@ == raw,
    {
        Self { raw }
    }
}

impl vstd::std_specs::convert::FromSpecImpl<u8> for ControlField2 {
    open spec fn obeys_from_spec() -> bool {
        true
    }

    closed spec fn from_spec(v: u8) -> Self {
        ControlField2 { raw: v }
    }
}

impl From<ControlField2> for u8 {
    fn from(ctrl: ControlField2) -> (r: u8)
        ensures
            r == ctrl@,
    {
        ctrl.raw
    }
}

impl vstd::std_specs::convert::FromSpecImpl<ControlField2> for u8 {
    open spec fn obeys_from_spec() -> bool {
        true
    }

    closed spec fn from_spec(v: ControlField2) -> u8 {
        v.raw
    }
}

/// The raw control field 2 with the given fields (the hop count and format
/// are cut to their 3 and 4 bits).
pub open spec fn control2_raw(is_group: bool, hop_count: u8, extended_format: u8) -> u8 {
    (if is_group {
        0x80u8
    } else {
        0u8
    }) | ((hop_count & 0x07) << 4u8) | (extended_format & 0x0F)
}

impl ControlField2 {
    /// Get raw byte value
    pub fn raw(self) -> (r: u8)
        ensures
            r == self@,
    {
        self.raw
    }

    /// Check if destination is group address (true) or individual (false)
    pub fn is_group_address(self) -> (b: bool)
        ensures
            b == (self@ & 0x80 != 0),
    {
        (self.raw & 0x80) != 0
    }

    /// Get hop count (0-7)
    pub fn hop_count(self) -> (r: u8)
        ensures
            r == (self@ >> 4u8) & 0x07,
    {
        (self.raw >> 4) & 0x07
    }

    /// Get extended frame format
    pub fn extended_format(self) -> (r: u8)
        ensures
            r == self@ & 0x0F,
    {
        self.raw & 0x0F
    }

    /// Create a new Control Field 2
    pub fn new(is_group: bool, hop_count: u8, extended_format: u8) -> (r: Self)
        ensures
            r@ == control2_raw(is_group, hop_count, extended_format),
    {
        let g: u8 = if is_group {
            0x80
        } else {
            0
        };
        let raw = g | ((hop_count & 0x07) << 4) | (extended_format & 0x0F);
        Self { raw }
    }
}

impl Default for ControlField2 {
    /// Group address, hop count 6, standard format (0xE0).
    fn default() -> (r: Self)
        ensures
            r@ == 0xE0,
    {
        Self { raw: 0xE0 }
    }
}

/// A control field 2 built from its fields reads them back.
pub proof fn lemma_control2_fields(is_group: bool, hop_count: u8, extended_format: u8)
    requires
        hop_count <= 7,
        extended_format <= 15,
    ensures
        ({
            let v = control2_raw(is_group, hop_count, extended_format);
            &&& (v & 0x80 != 0) == is_group
            &&& (v >> 4u8) & 0x07 == hop_count
            &&& v & 0x0F == extended_format
        }),
{
    let g: u8 = if is_group {
        0x80u8
    } else {
        0u8
    };
    let v = g | ((hop_count & 0x07) << 4u8) | (extended_format & 0x0F);
    assert({
        &&& (v & 0x80 != 0) == (g != 0)
        &&& (v >> 4u8) & 0x07 == hop_count
        &&& v & 0x0F == extended_format
    }) by (bit_vector)
        requires
            v == g | ((hop_count & 0x07) << 4u8) | (extended_format & 0x0F),
            g == 0x80u8 || g == 0u8,
            hop_count <= 7,
            extended_format <= 15,
    ;
}

/// TPCI (Transport Layer Protocol Control Information)
#[derive(Debug, Clone, Copy, PartialEq, Eq, Structural)]
pub enum Tpci {
    /// Unnumbered Data Packet (UDP)
    UnnumberedData,
    /// Numbered Data Packet (NDP) with sequence number
    NumberedData {
        /// Sequence number (0-15)
        sequence: u8,
    },
    /// Unnumbered Control Packet (UCP)
    UnnumberedControl,
    /// Numbered Control Packet (NCP) with sequence number
    NumberedControl {
        /// Sequence number (0-15)
        sequence: u8,
    },
}

/// The TPCI that the top two bits of `byte` select, with the sequence number
/// in bits 5-2.
pub open spec fn tpci_of(byte: u8) -> Tpci {
    let kind = byte / 64;
    let sequence = ((byte / 4) % 16) as u8;
    if kind == 0 {
        Tpci::UnnumberedData
    } else if kind == 1 {
        Tpci::NumberedData { sequence }
    } else if kind == 2 {
        Tpci::UnnumberedControl
    } else {
        Tpci::NumberedControl { sequence }
    }
}

/// The TPCI denotes a data packet.
pub open spec fn tpci_is_data(t: Tpci) -> bool {
    t is UnnumberedData || t is NumberedData
}

impl Tpci {
    /// Parse TPCI from the first byte of TPCI/APCI field
    pub fn from_byte(byte: u8) -> (r: Self)
        ensures
            r == tpci_of(byte),
    {
        let tpci = (byte >> 6) & 0x03;
        let sequence = (byte >> 2) & 0x0F;
        assert((byte >> 6) & 0x03 == byte / 64 && (byte >> 2) & 0x0F == (byte / 4) % 16)
            by (bit_vector);
        match tpci {
            0 => Self::UnnumberedData,
            1 => Self::NumberedData { sequence },
            2 => Self::UnnumberedControl,
            _ => Self::NumberedControl { sequence },
        }
    }

    /// Check if this is a data packet
    pub fn is_data(self) -> (b: bool)
        ensures
            b == tpci_is_data(self),
    {
        matches!(self, Self::UnnumberedData | Self::NumberedData { .. })
    }
}

/// APCI (Application Layer Protocol Control Information)
#[derive(Debug, Clone, Copy, PartialEq, Eq, Structural)]
pub enum Apci {
    /// Group Value Read (`A_GroupValue_Read`)
    GroupValueRead,
    /// Group Value Response (`A_GroupValue_Response`)
    GroupValueResponse,
    /// Group Value Write (`A_GroupValue_Write`)
    GroupValueWrite,
    /// Individual Address Write
    IndividualAddressWrite,
    /// Individual Address Read
    IndividualAddressRead,
    /// Individual Address Response
    IndividualAddressResponse,
    /// ADC Read
    AdcRead,
    /// ADC Response
    AdcResponse,
    /// Memory Read
    MemoryRead,
    /// Memory Response
    MemoryResponse,
    /// Memory Write
    MemoryWrite,
    /// Device Descriptor Read
    DeviceDescriptorRead,
    /// Device Descriptor Response
    DeviceDescriptorResponse,
    /// Unknown/Unsupported APCI
    Unknown(u16),
}

/// The 10-bit APCI code carried by a TPCI byte and an APCI byte: bits 1-0 of
/// the first, then bits 7-6 of the second (the data bits 5-0 are left out).
pub open spec fn apci_code(byte1: u8, byte2: u8) -> u16 {
    ((byte1 % 4) * 256 + (byte2 / 64) * 64) as u16
}

/// The APCI with code `code`.
pub open spec fn apci_of(code: u16) -> Apci {
    if code == 0x000 {
        Apci::GroupValueRead
    } else if code == 0x040 {
        Apci::GroupValueResponse
    } else if code == 0x080 {
        Apci::GroupValueWrite
    } else if code == 0x0C0 {
        Apci::IndividualAddressWrite
    } else if code == 0x100 {
        Apci::IndividualAddressRead
    } else if code == 0x140 {
        Apci::IndividualAddressResponse
    } else if code == 0x180 {
        Apci::AdcRead
    } else if code == 0x1C0 {
        Apci::AdcResponse
    } else if code == 0x200 {
        Apci::MemoryRead
    } else if code == 0x240 {
        Apci::MemoryResponse
    } else if code == 0x280 {
        Apci::MemoryWrite
    } else if code == 0x300 {
        Apci::DeviceDescriptorRead
    } else if code == 0x340 {
        Apci::DeviceDescriptorResponse
    } else {
        Apci::Unknown(code)
    }
}

/// The code of an APCI.
pub open spec fn apci_value(a: Apci) -> u16 {
    match a {
        Apci::GroupValueRead => 0x000,
        Apci::GroupValueResponse => 0x040,
        Apci::GroupValueWrite => 0x080,
        Apci::IndividualAddressWrite => 0x0C0,
        Apci::IndividualAddressRead => 0x100,
        Apci::IndividualAddressResponse => 0x140,
        Apci::AdcRead => 0x180,
        Apci::AdcResponse => 0x1C0,
        Apci::MemoryRead => 0x200,
        Apci::MemoryResponse => 0x240,
        Apci::MemoryWrite => 0x280,
        Apci::DeviceDescriptorRead => 0x300,
        Apci::DeviceDescriptorResponse => 0x340,
        Apci::Unknown(v) => v,
    }
}

impl Apci {
    /// Parse APCI from TPCI/APCI bytes
    ///
    /// The APCI is encoded in the lower 10 bits across two bytes:
    /// - byte1 (TPCI byte): bits 1-0 contain APCI bits 9-8
    /// - byte2 (APCI byte): bits 7-6 contain APCI bits 7-6
    pub fn from_bytes(byte1: u8, byte2: u8) -> (r: Self)
        ensures
            r == apci_of(apci_code(byte1, byte2)),
    {
        let apci = ((byte1 as u16 & 0x03) << 8) | (byte2 as u16 & 0xC0);
        assert(((byte1 as u16 & 0x03) << 8) | (byte2 as u16 & 0xC0) == (byte1 % 4) * 256 + (byte2
            / 64) * 64) by (bit_vector);
        match apci {
            0x000 => Self::GroupValueRead,
            0x040 => Self::GroupValueResponse,
            0x080 => Self::GroupValueWrite,
            0x0C0 => Self::IndividualAddressWrite,
            0x100 => Self::IndividualAddressRead,
            0x140 => Self::IndividualAddressResponse,
            0x180 => Self::AdcRead,
            0x1C0 => Self::AdcResponse,
            0x200 => Self::MemoryRead,
            0x240 => Self::MemoryResponse,
            0x280 => Self::MemoryWrite,
            0x300 => Self::DeviceDescriptorRead,
            0x340 => Self::DeviceDescriptorResponse,
            _ => Self::Unknown(apci),
        }
    }

    /// Convert APCI to u16 value
    pub fn to_u16(self) -> (r: u16)
        ensures
            r == apci_value(self),
    {
        match self {
            Self::GroupValueRead => 0x000,
            Self::GroupValueResponse => 0x040,
            Self::GroupValueWrite => 0x080,
            Self::IndividualAddressWrite => 0x0C0,
            Self::IndividualAddressRead => 0x100,
            Self::IndividualAddressResponse => 0x140,
            Self::AdcRead => 0x180,
            Self::AdcResponse => 0x1C0,
            Self::MemoryRead => 0x200,
            Self::MemoryResponse => 0x240,
            Self::MemoryWrite => 0x280,
            Self::DeviceDescriptorRead => 0x300,
            Self::DeviceDescriptorResponse => 0x340,
            Self::Unknown(val) => val,
        }
    }
}

/// The code of the APCI read from a code is that code.
pub proof fn lemma_apci_code_roundtrip(code: u16)
    ensures
        apci_value(apci_of(code)) == code,
{
}

/// The application service of a TPCI byte and an APCI byte, for every pair
/// of bytes: bits 1-0 of the first and bits 7-6 of the second select it
/// (group value read/response/write at 0x000/0x040/0x080, individual
/// address write/read/response at 0x0C0/0x100/0x140, ADC read/response at
/// 0x180/0x1C0, memory read/response/write at 0x200/0x240/0x280, device
/// descriptor read/response at 0x300/0x340).
pub proof fn lemma_apci_of_bytes(byte1: u8, byte2: u8)
    ensures
        ({
            let hi = byte1 % 4;
            let lo = byte2 / 64;
            let a = apci_of(apci_code(byte1, byte2));
            &&& a == Apci::GroupValueRead <==> hi == 0 && lo == 0
            &&& a == Apci::GroupValueResponse <==> hi == 0 && lo == 1
            &&& a == Apci::GroupValueWrite <==> hi == 0 && lo == 2
            &&& a == Apci::IndividualAddressWrite <==> hi == 0 && lo == 3
            &&& a == Apci::IndividualAddressRead <==> hi == 1 && lo == 0
            &&& a == Apci::IndividualAddressResponse <==> hi == 1 && lo == 1
            &&& a == Apci::AdcRead <==> hi == 1 && lo == 2
            &&& a == Apci::AdcResponse <==> hi == 1 && lo == 3
            &&& a == Apci::MemoryRead <==> hi == 2 && lo == 0
            &&& a == Apci::MemoryResponse <==> hi == 2 && lo == 1
            &&& a == Apci::MemoryWrite <==> hi == 2 && lo == 2
            &&& a == Apci::DeviceDescriptorRead <==> hi == 3 && lo == 0
            &&& a == Apci::DeviceDescriptorResponse <==> hi == 3 && lo == 1
            &&& a is Unknown <==> (hi == 2 && lo == 3) || (hi == 3 && lo >= 2)
        }),
{
    assert(0 <= byte2 / 64 < 4);
}

/// Every response code follows its request's by 0x40: group value,
/// individual address, ADC, memory and device descriptor.
pub proof fn lemma_apci_response_follows_request()
    ensures
        apci_value(Apci::GroupValueResponse) == apci_value(Apci::GroupValueRead) + 0x40,
        apci_value(Apci::IndividualAddressResponse) == apci_value(Apci::IndividualAddressRead)
            + 0x40,
        apci_value(Apci::AdcResponse) == apci_value(Apci::AdcRead) + 0x40,
        apci_value(Apci::MemoryResponse) == apci_value(Apci::MemoryRead) + 0x40,
        apci_value(Apci::DeviceDescriptorResponse) == apci_value(Apci::DeviceDescriptorRead)
            + 0x40,
        apci_value(Apci::GroupValueRead) == 0x000,
        apci_value(Apci::IndividualAddressRead) == 0x100,
        apci_value(Apci::AdcRead) == 0x180,
        apci_value(Apci::MemoryRead) == 0x200,
        apci_value(Apci::DeviceDescriptorRead) == 0x300,
        apci_value(Apci::GroupValueWrite) == 0x080,
        apci_value(Apci::IndividualAddressWrite) == 0x0C0,
        apci_value(Apci::MemoryWrite) == 0x280,
{
}

/// The priority a control field 1 byte carries, for every byte: bits 3-2
/// of 00 are system, 01 normal, 10 urgent, 11 low.
pub proof fn lemma_control1_priority_bits(v: u8)
    ensures
        priority_of((v >> 2u8) & 0x03) == Priority::System <==> v & 0x0C == 0x00,
        priority_of((v >> 2u8) & 0x03) == Priority::Normal <==> v & 0x0C == 0x04,
        priority_of((v >> 2u8) & 0x03) == Priority::Urgent <==> v & 0x0C == 0x08,
        priority_of((v >> 2u8) & 0x03) == Priority::Low <==> v & 0x0C == 0x0C,
{
    let c = (v >> 2u8) & 0x03;
    assert(c < 4 && (v & 0x0C == 0x00 <==> c == 0) && (v & 0x0C == 0x04 <==> c == 1) && (v & 0x0C
        == 0x08 <==> c == 2) && (v & 0x0C == 0x0C <==> c == 3)) by (bit_vector)
        requires
            c == (v >> 2u8) & 0x03,
    ;
    crate::protocol::constants::lemma_priority_codes(c);
}

/// The `L_Data` messages are exactly those of codes 0x11 (request), 0x29
/// (indication) and 0x2E (confirmation).
pub proof fn lemma_ldata_codes(v: u8)
    ensures
        (message_code_of(v) matches Some(c) && is_ldata_code(c)) <==> (v == 0x11 || v == 0x29 || v
            == 0x2E),
{
    crate::protocol::constants::lemma_message_codes(v);
}

/// cEMI `L_Data` frame
#[derive(Debug, Clone, Copy)]
pub struct LDataFrame<'a> {
    /// Control field 1
    pub ctrl1: ControlField1,
    /// Control field 2
    pub ctrl2: ControlField2,
    /// Source address (individual)
    pub source: IndividualAddress,
    /// Destination address (individual or group)
    pub destination_raw: u16,
    /// NPDU length (data length + 1 for TPCI/APCI)
    pub npdu_length: u8,
    /// TPCI
    pub tpci: Tpci,
    /// APCI
    pub apci: Apci,
    /// Application data
    pub data: &'a [u8],
}

/// Where the application data of an `L_Data` frame starts: after the APCI
/// byte for a data packet, after the TPCI byte otherwise.
pub open spec fn ldata_data_start(s: Seq<u8>) -> int {
    if tpci_is_data(tpci_of(s[7])) {
        9
    } else {
        8
    }
}

/// Where the NPDU of an `L_Data` frame ends.
pub open spec fn ldata_npdu_end(s: Seq<u8>) -> int {
    7 + s[6]
}

/// Bytes that parse as an `L_Data` frame: at least its 9 fixed bytes, and
/// an NPDU that ends within the buffer and no earlier than its application
/// data starts.
pub open spec fn ldata_ok(s: Seq<u8>) -> bool {
    &&& s.len() >= 9
    &&& ldata_data_start(s) <= ldata_npdu_end(s) <= s.len()
}

impl<'a> LDataFrame<'a> {
    /// Minimum size of `L_Data` frame (without additional data bytes)
    pub const MIN_SIZE: usize = 9;

    /// Parse `L_Data` frame from bytes.
    ///
    /// # Errors
    ///
    /// A transport error `BufferTooSmall` for fewer than 9 bytes; a protocol
    /// error `InvalidFrame` if the buffer ends before the NPDU does, or the
    /// NPDU ends before its application data starts.
    pub fn parse(data: &'a [u8]) -> (r: KnxResult<Self>)
        ensures
            ldata_ok(data@) <==> r is Ok,
            r matches Ok(f) ==> {
                &&& f.ctrl1@ == data@[0]
                &&& f.ctrl2@ == data@[1]
                &&& f.source@ == be_u16(data@[2], data@[3])
                &&& f.destination_raw == be_u16(data@[4], data@[5])
                &&& f.npdu_length == data@[6]
                &&& f.tpci == tpci_of(data@[7])
                &&& f.apci == (if tpci_is_data(tpci_of(data@[7])) {
                    apci_of(apci_code(data@[7], data@[8]))
                } else {
                    Apci::Unknown(0)
                })
                &&& f.data@ == data@.subrange(ldata_data_start(data@), ldata_npdu_end(data@))
            },
            r matches Err(e) ==> if data@.len() < 9 {
                e.is_transport(TransportErrorKind::BufferTooSmall)
            } else {
                e.is_protocol(ProtocolErrorKind::InvalidFrame)
            },
    {
        if data.len() < Self::MIN_SIZE {
            return Err(KnxError::buffer_too_small());
        }
        let ctrl1 = ControlField1::from(data[0]);
        let ctrl2 = ControlField2::from(data[1]);
        let source = IndividualAddress::from_raw(u16_from_be(data[2], data[3]));
        let destination_raw = u16_from_be(data[4], data[5]);
        let npdu_length = data[6];
        let tpci_byte = data[7];
        let tpci = Tpci::from_byte(tpci_byte);
        let is_data = tpci.is_data();
        let apci = if is_data {
            Apci::from_bytes(tpci_byte, data[8])
        } else {
            Apci::Unknown(0)
        };
        let data_start: usize = if is_data {
            9
        } else {
            8
        };
        let npdu_end = 7 + npdu_length as usize;
        if data.len() < npdu_end || npdu_end < data_start {
            return Err(KnxError::invalid_frame());
        }
        let app_data = &data[data_start..npdu_end];
        Ok(Self { ctrl1, ctrl2, source, destination_raw, npdu_length, tpci, apci, data: app_data })
    }

    /// Get destination as group address (if applicable)
    pub fn destination_group(&self) -> (r: Option<GroupAddress>)
        ensures
            (self.ctrl2@ & 0x80 != 0) <==> r is Some,
            r matches Some(a) ==> a@ == self.destination_raw,
    {
        if self.ctrl2.is_group_address() {
            Some(GroupAddress::from(self.destination_raw))
        } else {
            None
        }
    }

    /// Get destination as individual address (if applicable)
    pub fn destination_individual(&self) -> (r: Option<IndividualAddress>)
        ensures
            (self.ctrl2@ & 0x80 == 0) <==> r is Some,
            r matches Some(a) ==> a@ == self.destination_raw,
    {
        if !self.ctrl2.is_group_address() {
            Some(IndividualAddress::from_raw(self.destination_raw))
        } else {
            None
        }
    }

    /// Check if this is a group value write
    pub fn is_group_write(&self) -> (b: bool)
        ensures
            b == (self.apci == Apci::GroupValueWrite),
    {
        matches!(self.apci, Apci::GroupValueWrite)
    }

    /// Check if this is a group value read
    pub fn is_group_read(&self) -> (b: bool)
        ensures
            b == (self.apci == Apci::GroupValueRead),
    {
        matches!(self.apci, Apci::GroupValueRead)
    }

    /// Check if this is a group value response
    pub fn is_group_response(&self) -> (b: bool)
        ensures
            b == (self.apci == Apci::GroupValueResponse),
    {
        matches!(self.apci, Apci::GroupValueResponse)
    }
}

/// cEMI Frame wrapper
///
/// Represents a complete cEMI frame with message code and payload.  The
/// frame refers to at least two bytes of the caller's buffer.
#[derive(Debug)]
pub struct CEMIFrame<'a> {
    /// Message code
    pub message_code: CEMIMessageCode,
    data: &'a [u8],
}

/// The message code is one of the `L_Data` codes.
pub open spec fn is_ldata_code(c: CEMIMessageCode) -> bool {
    c == CEMIMessageCode::LDataReq || c == CEMIMessageCode::LDataInd || c
        == CEMIMessageCode::LDataCon
}

/// The service information of cEMI bytes: what follows the message code,
/// the additional info length and the additional info.
pub open spec fn cemi_service_info(s: Seq<u8>) -> Seq<u8> {
    s.skip(2 + s[1])
}

impl<'a> View for CEMIFrame<'a> {
    type V = Seq<u8>;

    /// The bytes the frame was parsed from.
    closed spec fn view(&self) -> Seq<u8> {
        self.data@
    }
}

impl<'a> CEMIFrame<'a> {
    /// Minimum cEMI frame size (message code + add info length)
    pub const MIN_SIZE: usize = 2;

    /// The message code.
    pub closed spec fn spec_message_code(&self) -> CEMIMessageCode {
        self.message_code
    }

    #[verifier::type_invariant]
    spec fn cemi_inv(&self) -> bool {
        self.data@.len() >= 2
    }

    /// Parse a cEMI frame from bytes.
    ///
    /// # Errors
    ///
    /// A transport error `BufferTooSmall` for fewer than 2 bytes; a protocol
    /// error `InvalidMessageCode` for an unknown message code.
    pub fn parse(data: &'a [u8]) -> (r: KnxResult<Self>)
        ensures
            (data@.len() >= 2 && message_code_of(data@[0]) is Some) <==> r is Ok,
            r matches Ok(f) ==> f@ == data@ && f.spec_message_code() == message_code_of(data@[0])->0,
            r matches Err(e) ==> if data@.len() < 2 {
                e.is_transport(TransportErrorKind::BufferTooSmall)
            } else {
                e.is_protocol(ProtocolErrorKind::InvalidMessageCode)
            },
    {
        if data.len() < Self::MIN_SIZE {
            return Err(KnxError::buffer_too_small());
        }
        let message_code = match CEMIMessageCode::from_u8(data[0]) {
            Some(c) => c,
            None => return Err(KnxError::invalid_message_code()),
        };
        Ok(Self { message_code, data })
    }

    /// Get the message code
    pub fn message_code(&self) -> (r: CEMIMessageCode)
        ensures
            r == self.spec_message_code(),
    {
        self.message_code
    }

    /// Get additional info length
    pub fn additional_info_length(&self) -> (r: u8)
        ensures
            self@.len() >= 2,
            r == self@[1],
    {
        proof {
            use_type_invariant(self);
        }
        self.data[1]
    }

    /// Get the service information (skipping message code and additional info).
    ///
    /// # Errors
    ///
    /// A protocol error `InvalidFrame` if the frame ends before the
    /// additional info does.
    pub fn service_info(&self) -> (r: KnxResult<&[u8]>)
        ensures
            self@.len() >= 2,
            self@.len() >= 2 + self@[1] <==> r is Ok,
            r matches Ok(s) ==> s@ == cemi_service_info(self@),
            r matches Err(e) ==> e.is_protocol(ProtocolErrorKind::InvalidFrame),
    {
        let add_info_len = self.additional_info_length();
        let service_start = 2 + add_info_len as usize;
        if self.data.len() < service_start {
            return Err(KnxError::invalid_frame());
        }
        let end = self.data.len();
        Ok(&self.data[service_start..end])
    }

    /// Parse as `L_Data` frame (for `L_Data.req`, `L_Data.ind`, `L_Data.con`).
    ///
    /// # Errors
    ///
    /// A protocol error `InvalidMessageCode` if this is not an `L_Data`
    /// frame, `InvalidFrame` if the frame ends before the additional info
    /// does, and otherwise the errors of [`LDataFrame::parse`].
    pub fn as_ldata(&self) -> (r: KnxResult<LDataFrame<'a>>)
        ensures
            self@.len() >= 2,
            ({
                let si = cemi_service_info(self@);
                &&& (is_ldata_code(self.spec_message_code()) && self@.len() >= 2 + self@[1]
                    && ldata_ok(si)) <==> r is Ok
                &&& r matches Ok(f) ==> {
                    &&& f.ctrl1@ == si[0]
                    &&& f.ctrl2@ == si[1]
                    &&& f.source@ == be_u16(si[2], si[3])
                    &&& f.destination_raw == be_u16(si[4], si[5])
                    &&& f.npdu_length == si[6]
                    &&& f.tpci == tpci_of(si[7])
                    &&& f.apci == (if tpci_is_data(tpci_of(si[7])) {
                        apci_of(apci_code(si[7], si[8]))
                    } else {
                        Apci::Unknown(0)
                    })
                    &&& f.data@ == si.subrange(ldata_data_start(si), ldata_npdu_end(si))
                }
                &&& r matches Err(e) ==> if !is_ldata_code(self.spec_message_code()) {
                    e.is_protocol(ProtocolErrorKind::InvalidMessageCode)
                } else if self@.len() < 2 + self@[1] {
                    e.is_protocol(ProtocolErrorKind::InvalidFrame)
                } else if si.len() < 9 {
                    e.is_transport(TransportErrorKind::BufferTooSmall)
                } else {
                    e.is_protocol(ProtocolErrorKind::InvalidFrame)
                }
            }),
    {
        proof {
            use_type_invariant(self);
        }
        match self.message_code {
            CEMIMessageCode::LDataReq | CEMIMessageCode::LDataInd | CEMIMessageCode::LDataCon => {
                let add_info_len = self.data[1];
                let service_start = 2 + add_info_len as usize;
                if self.data.len() < service_start {
                    return Err(KnxError::invalid_frame());
                }
                let end = self.data.len();
                let service = &self.data[service_start..end];
                assert(service@ == cemi_service_info(self@));
                LDataFrame::parse(service)
            },
            _ => Err(KnxError::invalid_message_code()),
        }
    }

    /// Check if this is an `L_Data` frame
    pub fn is_ldata(&self) -> (b: bool)
        ensures
            b == is_ldata_code(self.spec_message_code()),
    {
        matches!(
            self.message_code,
            CEMIMessageCode::LDataReq | CEMIMessageCode::LDataInd | CEMIMessageCode::LDataCon
        )
    }
}

/// Extract the data value of a 6-bit value carried in the APCI byte.
pub fn extract_6bit_value(apci_byte: u8) -> (r: u8)
    ensures
        r == apci_byte % 64,
{
    assert(apci_byte & 0x3F == apci_byte % 64) by (bit_vector);
    apci_byte & 0x3F
}

} // verus!
