//! Error types for KNX operations.
//!
//! Every error belongs to a category (protocol, connection, tunneling,
//! transport, addressing, datapoint) and, inside its category, to a kind.
//! The categories are the variants of [`KnxError`]; the kind is kept in the
//! category's structure and can be queried through its `is_*` methods.

use vstd::prelude::*;

verus! {

/// Result type for KNX operations.
pub type KnxResult<T> = core::result::Result<T, KnxError>;

/// Protocol error variants.
#[derive(Debug, Clone, Copy, PartialEq, Eq, Structural)]
pub enum ProtocolErrorKind {
    InvalidFrame,
    InvalidChecksum,
    UnsupportedVersion,
    UnsupportedServiceType,
    PayloadTooLarge,
    InvalidMessageCode,
    InvalidControlField,
}

/// Connection error variants.
#[derive(Debug, Clone, Copy, PartialEq, Eq, Structural)]
pub enum ConnectionErrorKind {
    Refused,
    Timeout,
    Failed,
    Lost,
    ChannelNotFound,
    NoFreeChannels,
    NotConnected,
    AlreadyConnected,
}

/// Tunneling error variants.
#[derive(Debug, Clone, Copy, PartialEq, Eq, Structural)]
pub enum TunnelingErrorKind {
    SequenceMismatch,
    AckFailed,
}

/// Transport error variants.
#[derive(Debug, Clone, Copy, PartialEq, Eq, Structural)]
pub enum TransportErrorKind {
    SendFailed,
    ReceiveFailed,
    BufferTooSmall,
    NotBound,
    SocketError,
}

/// Addressing error variants.
#[derive(Debug, Clone, Copy, PartialEq, Eq, Structural)]
pub enum AddressingErrorKind {
    InvalidIndividualAddress,
    InvalidGroupAddress,
    OutOfRange,
}

/// Datapoint type error variants.
#[derive(Debug, Clone, Copy, PartialEq, Eq, Structural)]
pub enum DptErrorKind {
    InvalidData,
    ValueOutOfRange,
    UnsupportedType,
}

/// KNX protocol error, grouped by category.
#[derive(Debug, Clone, Copy, PartialEq, Eq, Structural)]
pub enum KnxError {
    /// Protocol-related errors (frame parsing, version, etc.)
    Protocol(ProtocolError),
    /// Connection-related errors (connect, disconnect, etc.)
    Connection(ConnectionError),
    /// Tunneling-related errors (sequence, ACK, etc.)
    Tunneling(TunnelingError),
    /// Transport-related errors (socket, send, receive, etc.)
    Transport(TransportError),
    /// Addressing errors (invalid address format, etc.)
    Addressing(AddressingError),
    /// Datapoint Type errors (encoding, decoding, etc.)
    Dpt(DptError),
    /// The operation is not valid in the current state
    InvalidState,
    /// The operation is not supported
    UnsupportedOperation,
    /// The operation timed out
    Timeout,
}

/// Protocol error.
#[derive(Debug, Clone, Copy, PartialEq, Eq, Structural)]
pub struct ProtocolError {
    kind: ProtocolErrorKind,
}

/// Connection error.
#[derive(Debug, Clone, Copy, PartialEq, Eq, Structural)]
pub struct ConnectionError {
    kind: ConnectionErrorKind,
}

/// Tunneling error.
#[derive(Debug, Clone, Copy, PartialEq, Eq, Structural)]
pub struct TunnelingError {
    kind: TunnelingErrorKind,
}

/// Transport error.
#[derive(Debug, Clone, Copy, PartialEq, Eq, Structural)]
pub struct TransportError {
    kind: TransportErrorKind,
}

/// Addressing error.
#[derive(Debug, Clone, Copy, PartialEq, Eq, Structural)]
pub struct AddressingError {
    kind: AddressingErrorKind,
}

/// Datapoint type error.
#[derive(Debug, Clone, Copy, PartialEq, Eq, Structural)]
pub struct DptError {
    kind: DptErrorKind,
}

impl ProtocolError {
    /// The kind of this protocol error.
    pub closed spec fn kind(self) -> ProtocolErrorKind {
        self.kind
    }

    pub(crate) fn new(kind: ProtocolErrorKind) -> (e: Self)
        ensures
            e.kind() == kind,
    {
        Self { kind }
    }

    /// Check if this is an invalid frame error
    pub fn is_invalid_frame(&self) -> (b: bool)
        ensures
            b == (self.kind() == ProtocolErrorKind::InvalidFrame),
    {
        matches!(self.kind, ProtocolErrorKind::InvalidFrame)
    }

    /// Check if this is an unsupported version error
    pub fn is_unsupported_version(&self) -> (b: bool)
        ensures
            b == (self.kind() == ProtocolErrorKind::UnsupportedVersion),
    {
        matches!(self.kind, ProtocolErrorKind::UnsupportedVersion)
    }
}

impl ConnectionError {
    /// The kind of this connection error.
    pub closed spec fn kind(self) -> ConnectionErrorKind {
        self.kind
    }

    pub(crate) fn new(kind: ConnectionErrorKind) -> (e: Self)
        ensures
            e.kind() == kind,
    {
        Self { kind }
    }

    pub(crate) fn error_kind(&self) -> (k: ConnectionErrorKind)
        ensures
            k == self.kind(),
    {
        self.kind
    }

    /// Check if this is a timeout error
    pub fn is_timeout(&self) -> (b: bool)
        ensures
            b == (self.kind() == ConnectionErrorKind::Timeout),
    {
        matches!(self.kind, ConnectionErrorKind::Timeout)
    }

    /// Check if connection was refused
    pub fn is_refused(&self) -> (b: bool)
        ensures
            b == (self.kind() == ConnectionErrorKind::Refused),
    {
        matches!(self.kind, ConnectionErrorKind::Refused)
    }

    /// Check if connection was lost
    pub fn is_lost(&self) -> (b: bool)
        ensures
            b == (self.kind() == ConnectionErrorKind::Lost),
    {
        matches!(self.kind, ConnectionErrorKind::Lost)
    }
}

impl TunnelingError {
    /// The kind of this tunneling error.
    pub closed spec fn kind(self) -> TunnelingErrorKind {
        self.kind
    }

    pub(crate) fn new(kind: TunnelingErrorKind) -> (e: Self)
        ensures
            e.kind() == kind,
    {
        Self { kind }
    }

    /// Check if this is a sequence mismatch error
    pub fn is_sequence_mismatch(&self) -> (b: bool)
        ensures
            b == (self.kind() == TunnelingErrorKind::SequenceMismatch),
    {
        matches!(self.kind, TunnelingErrorKind::SequenceMismatch)
    }
}

impl TransportError {
    /// The kind of this transport error.
    pub closed spec fn kind(self) -> TransportErrorKind {
        self.kind
    }

    pub(crate) fn new(kind: TransportErrorKind) -> (e: Self)
        ensures
            e.kind() == kind,
    {
        Self { kind }
    }

    pub(crate) fn error_kind(&self) -> (k: TransportErrorKind)
        ensures
            k == self.kind(),
    {
        self.kind
    }

    /// Check if buffer is too small
    pub fn is_buffer_too_small(&self) -> (b: bool)
        ensures
            b == (self.kind() == TransportErrorKind::BufferTooSmall),
    {
        matches!(self.kind, TransportErrorKind::BufferTooSmall)
    }

    /// Check if this is a socket error
    pub fn is_socket_error(&self) -> (b: bool)
        ensures
            b == (self.kind() == TransportErrorKind::SocketError),
    {
        matches!(self.kind, TransportErrorKind::SocketError)
    }
}

impl AddressingError {
    /// The kind of this addressing error.
    pub closed spec fn kind(self) -> AddressingErrorKind {
        self.kind
    }

    pub(crate) fn new(kind: AddressingErrorKind) -> (e: Self)
        ensures
            e.kind() == kind,
    {
        Self { kind }
    }

    /// Check if address is out of range
    pub fn is_out_of_range(&self) -> (b: bool)
        ensures
            b == (self.kind() == AddressingErrorKind::OutOfRange),
    {
        matches!(self.kind, AddressingErrorKind::OutOfRange)
    }
}

impl DptError {
    /// The kind of this datapoint error.
    pub closed spec fn kind(self) -> DptErrorKind {
        self.kind
    }

    pub(crate) fn new(kind: DptErrorKind) -> (e: Self)
        ensures
            e.kind() == kind,
    {
        Self { kind }
    }

    /// Check if value is out of range
    pub fn is_out_of_range(&self) -> (b: bool)
        ensures
            b == (self.kind() == DptErrorKind::ValueOutOfRange),
    {
        matches!(self.kind, DptErrorKind::ValueOutOfRange)
    }
}

impl KnxError {
    /// The error is a protocol error of kind `k`.
    pub open spec fn is_protocol(self, k: ProtocolErrorKind) -> bool {
        self matches KnxError::Protocol(e) && e.kind() == k
    }

    /// The error is a connection error of kind `k`.
    pub open spec fn is_connection(self, k: ConnectionErrorKind) -> bool {
        self matches KnxError::Connection(e) && e.kind() == k
    }

    /// The error is a tunneling error of kind `k`.
    pub open spec fn is_tunneling(self, k: TunnelingErrorKind) -> bool {
        self matches KnxError::Tunneling(e) && e.kind() == k
    }

    /// The error is a transport error of kind `k`.
    pub open spec fn is_transport(self, k: TransportErrorKind) -> bool {
        self matches KnxError::Transport(e) && e.kind() == k
    }

    /// The error is an addressing error of kind `k`.
    pub open spec fn is_addressing(self, k: AddressingErrorKind) -> bool {
        self matches KnxError::Addressing(e) && e.kind() == k
    }

    /// The error is a datapoint error of kind `k`.
    pub open spec fn is_dpt(self, k: DptErrorKind) -> bool {
        self matches KnxError::Dpt(e) && e.kind() == k
    }

    // Protocol errors
    pub(crate) fn invalid_frame() -> (e: Self)
        ensures
            e.is_protocol(ProtocolErrorKind::InvalidFrame),
    {
        Self::Protocol(ProtocolError::new(ProtocolErrorKind::InvalidFrame))
    }

    pub(crate) fn invalid_checksum() -> (e: Self)
        ensures
            e.is_protocol(ProtocolErrorKind::InvalidChecksum),
    {
        Self::Protocol(ProtocolError::new(ProtocolErrorKind::InvalidChecksum))
    }

    pub(crate) fn unsupported_version() -> (e: Self)
        ensures
            e.is_protocol(ProtocolErrorKind::UnsupportedVersion),
    {
        Self::Protocol(ProtocolError::new(ProtocolErrorKind::UnsupportedVersion))
    }

    pub(crate) fn unsupported_service_type() -> (e: Self)
        ensures
            e.is_protocol(ProtocolErrorKind::UnsupportedServiceType),
    {
        Self::Protocol(ProtocolError::new(ProtocolErrorKind::UnsupportedServiceType))
    }

    pub(crate) fn payload_too_large() -> (e: Self)
        ensures
            e.is_protocol(ProtocolErrorKind::PayloadTooLarge),
    {
        Self::Protocol(ProtocolError::new(ProtocolErrorKind::PayloadTooLarge))
    }

    // Connection errors
    pub(crate) fn connection_refused() -> (e: Self)
        ensures
            e.is_connection(ConnectionErrorKind::Refused),
    {
        Self::Connection(ConnectionError::new(ConnectionErrorKind::Refused))
    }

    pub(crate) fn connection_timeout() -> (e: Self)
        ensures
            e.is_connection(ConnectionErrorKind::Timeout),
    {
        Self::Connection(ConnectionError::new(ConnectionErrorKind::Timeout))
    }

    pub(crate) fn connection_failed() -> (e: Self)
        ensures
            e.is_connection(ConnectionErrorKind::Failed),
    {
        Self::Connection(ConnectionError::new(ConnectionErrorKind::Failed))
    }

    pub(crate) fn connection_lost() -> (e: Self)
        ensures
            e.is_connection(ConnectionErrorKind::Lost),
    {
        Self::Connection(ConnectionError::new(ConnectionErrorKind::Lost))
    }

    /// A connection error `NotConnected`.
    pub fn not_connected() -> (e: Self)
        ensures
            e.is_connection(ConnectionErrorKind::NotConnected),
    {
        Self::Connection(ConnectionError::new(ConnectionErrorKind::NotConnected))
    }

    pub(crate) fn channel_not_found() -> (e: Self)
        ensures
            e.is_connection(ConnectionErrorKind::ChannelNotFound),
    {
        Self::Connection(ConnectionError::new(ConnectionErrorKind::ChannelNotFound))
    }

    pub(crate) fn no_free_channels() -> (e: Self)
        ensures
            e.is_connection(ConnectionErrorKind::NoFreeChannels),
    {
        Self::Connection(ConnectionError::new(ConnectionErrorKind::NoFreeChannels))
    }

    pub(crate) fn already_connected() -> (e: Self)
        ensures
            e.is_connection(ConnectionErrorKind::AlreadyConnected),
    {
        Self::Connection(ConnectionError::new(ConnectionErrorKind::AlreadyConnected))
    }

    // Tunneling errors
    pub(crate) fn sequence_mismatch() -> (e: Self)
        ensures
            e.is_tunneling(TunnelingErrorKind::SequenceMismatch),
    {
        Self::Tunneling(TunnelingError::new(TunnelingErrorKind::SequenceMismatch))
    }

    pub(crate) fn tunneling_ack_failed() -> (e: Self)
        ensures
            e.is_tunneling(TunnelingErrorKind::AckFailed),
    {
        Self::Tunneling(TunnelingError::new(TunnelingErrorKind::AckFailed))
    }

    // Transport errors
    /// A transport error `BufferTooSmall`.
    pub fn buffer_too_small() -> (e: Self)
        ensures
            e.is_transport(TransportErrorKind::BufferTooSmall),
    {
        Self::Transport(TransportError::new(TransportErrorKind::BufferTooSmall))
    }

    /// A transport error `SocketError`.
    pub fn socket_error() -> (e: Self)
        ensures
            e.is_transport(TransportErrorKind::SocketError),
    {
        Self::Transport(TransportError::new(TransportErrorKind::SocketError))
    }

    /// A transport error `SendFailed`.
    pub fn send_failed() -> (e: Self)
        ensures
            e.is_transport(TransportErrorKind::SendFailed),
    {
        Self::Transport(TransportError::new(TransportErrorKind::SendFailed))
    }

    /// A transport error `ReceiveFailed`.
    pub fn receive_failed() -> (e: Self)
        ensures
            e.is_transport(TransportErrorKind::ReceiveFailed),
    {
        Self::Transport(TransportError::new(TransportErrorKind::ReceiveFailed))
    }

    pub(crate) fn not_bound() -> (e: Self)
        ensures
            e.is_transport(TransportErrorKind::NotBound),
    {
        Self::Transport(TransportError::new(TransportErrorKind::NotBound))
    }

    // Addressing errors
    pub(crate) fn invalid_group_address() -> (e: Self)
        ensures
            e.is_addressing(AddressingErrorKind::InvalidGroupAddress),
    {
        Self::Addressing(AddressingError::new(AddressingErrorKind::InvalidGroupAddress))
    }

    pub(crate) fn invalid_address() -> (e: Self)
        ensures
            e.is_addressing(AddressingErrorKind::InvalidGroupAddress),
    {
        Self::Addressing(AddressingError::new(AddressingErrorKind::InvalidGroupAddress))
    }

    pub(crate) fn invalid_individual_address() -> (e: Self)
        ensures
            e.is_addressing(AddressingErrorKind::InvalidIndividualAddress),
    {
        Self::Addressing(AddressingError::new(AddressingErrorKind::InvalidIndividualAddress))
    }

    pub(crate) fn address_out_of_range() -> (e: Self)
        ensures
            e.is_addressing(AddressingErrorKind::OutOfRange),
    {
        Self::Addressing(AddressingError::new(AddressingErrorKind::OutOfRange))
    }

    // DPT errors
    /// A DPT error `InvalidData`.
    pub fn invalid_dpt_data() -> (e: Self)
        ensures
            e.is_dpt(DptErrorKind::InvalidData),
    {
        Self::Dpt(DptError::new(DptErrorKind::InvalidData))
    }

    /// A DPT error `ValueOutOfRange`.
    pub fn dpt_value_out_of_range() -> (e: Self)
        ensures
            e.is_dpt(DptErrorKind::ValueOutOfRange),
    {
        Self::Dpt(DptError::new(DptErrorKind::ValueOutOfRange))
    }

    pub(crate) fn unsupported_dpt() -> (e: Self)
        ensures
            e.is_dpt(DptErrorKind::UnsupportedType),
    {
        Self::Dpt(DptError::new(DptErrorKind::UnsupportedType))
    }

    // cEMI errors (protocol category)
    pub(crate) fn invalid_message_code() -> (e: Self)
        ensures
            e.is_protocol(ProtocolErrorKind::InvalidMessageCode),
    {
        Self::Protocol(ProtocolError::new(ProtocolErrorKind::InvalidMessageCode))
    }

    pub(crate) fn invalid_control_field() -> (e: Self)
        ensures
            e.is_protocol(ProtocolErrorKind::InvalidControlField),
    {
        Self::Protocol(ProtocolError::new(ProtocolErrorKind::InvalidControlField))
    }
}

} // verus!
