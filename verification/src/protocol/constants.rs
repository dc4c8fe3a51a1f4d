//! KNXnet/IP protocol constants and service type identifiers.

use vstd::prelude::*;

verus! {

/// KNXnet/IP protocol version 1.0
pub const KNXNETIP_VERSION_10: u8 = 0x10;

/// Standard KNXnet/IP header length (6 bytes)
pub const HEADER_SIZE_10: u8 = 0x06;

/// Standard UDP port for KNXnet/IP communication
pub const KNXNETIP_DEFAULT_PORT: u16 = 3671;

/// Maximum size of a KNXnet/IP frame
pub const MAX_FRAME_SIZE: usize = 256;

/// Maximum size of cEMI frame payload
pub const MAX_CEMI_SIZE: usize = 64;

/// KNXnet/IP multicast address for routing
pub const KNXNETIP_MULTICAST_ADDR: &'static str = "224.0.23.12";

/// System Setup Multicast Address
pub const SYSTEM_SETUP_MULTICAST: &'static str = "224.0.23.11";

/// Service type constant for CONNECT_REQUEST (0x0205)
pub const SERVICE_CONNECT_REQUEST: u16 = 0x0205;

/// Service type constant for CONNECT_RESPONSE (0x0206)
pub const SERVICE_CONNECT_RESPONSE: u16 = 0x0206;

/// Service type constant for CONNECTIONSTATE_REQUEST (0x0207)
pub const SERVICE_CONNECTIONSTATE_REQUEST: u16 = 0x0207;

/// Service type constant for CONNECTIONSTATE_RESPONSE (0x0208)
pub const SERVICE_CONNECTIONSTATE_RESPONSE: u16 = 0x0208;

/// Service type constant for DISCONNECT_REQUEST (0x0209)
pub const SERVICE_DISCONNECT_REQUEST: u16 = 0x0209;

/// Service type constant for DISCONNECT_RESPONSE (0x020A)
pub const SERVICE_DISCONNECT_RESPONSE: u16 = 0x020A;

/// Service type constant for TUNNELING_REQUEST (0x0420)
pub const SERVICE_TUNNELING_REQUEST: u16 = 0x0420;

/// Service type constant for TUNNELING_ACK (0x0421)
pub const SERVICE_TUNNELING_ACK: u16 = 0x0421;

/// KNXnet/IP Core Service Type Identifiers
#[derive(Debug, Clone, Copy, PartialEq, Eq, Structural)]
pub enum ServiceType {
    /// `SEARCH_REQUEST` (0x0201) - Device discovery request
    SearchRequest,
    /// `SEARCH_RESPONSE` (0x0202) - Device discovery response
    SearchResponse,
    /// `DESCRIPTION_REQUEST` (0x0203) - Device description request
    DescriptionRequest,
    /// `DESCRIPTION_RESPONSE` (0x0204) - Device description response
    DescriptionResponse,
    /// `CONNECT_REQUEST` (0x0205) - Connection request
    ConnectRequest,
    /// `CONNECT_RESPONSE` (0x0206) - Connection response
    ConnectResponse,
    /// `CONNECTIONSTATE_REQUEST` (0x0207) - Connection state request (heartbeat)
    ConnectionstateRequest,
    /// `CONNECTIONSTATE_RESPONSE` (0x0208) - Connection state response
    ConnectionstateResponse,
    /// `DISCONNECT_REQUEST` (0x0209) - Disconnect request
    DisconnectRequest,
    /// `DISCONNECT_RESPONSE` (0x020A) - Disconnect response
    DisconnectResponse,
    /// `DEVICE_CONFIGURATION_REQUEST` (0x0310)
    DeviceConfigurationRequest,
    /// `DEVICE_CONFIGURATION_ACK` (0x0311)
    DeviceConfigurationAck,
    /// `TUNNELLING_REQUEST` (0x0420) - Tunnelling data request
    TunnellingRequest,
    /// `TUNNELLING_ACK` (0x0421) - Tunnelling acknowledgement
    TunnellingAck,
    /// `ROUTING_INDICATION` (0x0530) - Routing indication (multicast)
    RoutingIndication,
    /// `ROUTING_LOST_MESSAGE` (0x0531) - Routing lost message indication
    RoutingLostMessage,
    /// `ROUTING_BUSY` (0x0532) - Routing busy indication
    RoutingBusy,
    /// `REMOTE_DIAGNOSTIC_REQUEST` (0x0740)
    RemoteDiagnosticRequest,
    /// `REMOTE_DIAGNOSTIC_RESPONSE` (0x0741)
    RemoteDiagnosticResponse,
    /// `SECURE_WRAPPER` (0x0950) - Secure session wrapper
    SecureWrapper,
    /// `SESSION_REQUEST` (0x0951) - Secure session request
    SessionRequest,
    /// `SESSION_RESPONSE` (0x0952) - Secure session response
    SessionResponse,
    /// `SESSION_AUTHENTICATE` (0x0953) - Secure session authentication
    SessionAuthenticate,
    /// `SESSION_STATUS` (0x0954) - Secure session status
    SessionStatus,
}

/// The identifier code of a service type on the wire.
pub open spec fn service_type_code(s: ServiceType) -> u16 {
    match s {
        ServiceType::SearchRequest => 0x0201,
        ServiceType::SearchResponse => 0x0202,
        ServiceType::DescriptionRequest => 0x0203,
        ServiceType::DescriptionResponse => 0x0204,
        ServiceType::ConnectRequest => 0x0205,
        ServiceType::ConnectResponse => 0x0206,
        ServiceType::ConnectionstateRequest => 0x0207,
        ServiceType::ConnectionstateResponse => 0x0208,
        ServiceType::DisconnectRequest => 0x0209,
        ServiceType::DisconnectResponse => 0x020A,
        ServiceType::DeviceConfigurationRequest => 0x0310,
        ServiceType::DeviceConfigurationAck => 0x0311,
        ServiceType::TunnellingRequest => 0x0420,
        ServiceType::TunnellingAck => 0x0421,
        ServiceType::RoutingIndication => 0x0530,
        ServiceType::RoutingLostMessage => 0x0531,
        ServiceType::RoutingBusy => 0x0532,
        ServiceType::RemoteDiagnosticRequest => 0x0740,
        ServiceType::RemoteDiagnosticResponse => 0x0741,
        ServiceType::SecureWrapper => 0x0950,
        ServiceType::SessionRequest => 0x0951,
        ServiceType::SessionResponse => 0x0952,
        ServiceType::SessionAuthenticate => 0x0953,
        ServiceType::SessionStatus => 0x0954,
    }
}

/// The service type whose code is `v`, if any.
pub open spec fn service_type_of(v: u16) -> Option<ServiceType> {
    if exists|s: ServiceType| service_type_code(s) == v {
        Some(choose|s: ServiceType| service_type_code(s) == v)
    } else {
        None
    }
}

impl ServiceType {
    /// Convert a u16 to `ServiceType`
    pub fn from_u16(value: u16) -> (r: Option<Self>)
        ensures
            r == service_type_of(value),
    {
        let r = match value {
            0x0201 => Some(Self::SearchRequest),
            0x0202 => Some(Self::SearchResponse),
            0x0203 => Some(Self::DescriptionRequest),
            0x0204 => Some(Self::DescriptionResponse),
            0x0205 => Some(Self::ConnectRequest),
            0x0206 => Some(Self::ConnectResponse),
            0x0207 => Some(Self::ConnectionstateRequest),
            0x0208 => Some(Self::ConnectionstateResponse),
            0x0209 => Some(Self::DisconnectRequest),
            0x020A => Some(Self::DisconnectResponse),
            0x0310 => Some(Self::DeviceConfigurationRequest),
            0x0311 => Some(Self::DeviceConfigurationAck),
            0x0420 => Some(Self::TunnellingRequest),
            0x0421 => Some(Self::TunnellingAck),
            0x0530 => Some(Self::RoutingIndication),
            0x0531 => Some(Self::RoutingLostMessage),
            0x0532 => Some(Self::RoutingBusy),
            0x0740 => Some(Self::RemoteDiagnosticRequest),
            0x0741 => Some(Self::RemoteDiagnosticResponse),
            0x0950 => Some(Self::SecureWrapper),
            0x0951 => Some(Self::SessionRequest),
            0x0952 => Some(Self::SessionResponse),
            0x0953 => Some(Self::SessionAuthenticate),
            0x0954 => Some(Self::SessionStatus),
            _ => None,
        };
        proof {
            lemma_service_type_code_injective();
            if let Some(s) = r {
                assert(service_type_code(s) == value);
            }
        }
        r
    }

    /// Convert `ServiceType` to u16
    pub fn to_u16(self) -> (r: u16)
        ensures
            r == service_type_code(self),
    {
        match self {
            Self::SearchRequest => 0x0201,
            Self::SearchResponse => 0x0202,
            Self::DescriptionRequest => 0x0203,
            Self::DescriptionResponse => 0x0204,
            Self::ConnectRequest => 0x0205,
            Self::ConnectResponse => 0x0206,
            Self::ConnectionstateRequest => 0x0207,
            Self::ConnectionstateResponse => 0x0208,
            Self::DisconnectRequest => 0x0209,
            Self::DisconnectResponse => 0x020A,
            Self::DeviceConfigurationRequest => 0x0310,
            Self::DeviceConfigurationAck => 0x0311,
            Self::TunnellingRequest => 0x0420,
            Self::TunnellingAck => 0x0421,
            Self::RoutingIndication => 0x0530,
            Self::RoutingLostMessage => 0x0531,
            Self::RoutingBusy => 0x0532,
            Self::RemoteDiagnosticRequest => 0x0740,
            Self::RemoteDiagnosticResponse => 0x0741,
            Self::SecureWrapper => 0x0950,
            Self::SessionRequest => 0x0951,
            Self::SessionResponse => 0x0952,
            Self::SessionAuthenticate => 0x0953,
            Self::SessionStatus => 0x0954,
        }
    }
}

/// Distinct service types have distinct codes.
pub proof fn lemma_service_type_code_injective()
    ensures
        forall|a: ServiceType, b: ServiceType|
            service_type_code(a) == service_type_code(b) ==> a == b,
{
}

/// Reading back the code of a service type gives that service type.
pub proof fn lemma_service_type_roundtrip(s: ServiceType)
    ensures
        service_type_of(service_type_code(s)) == Some(s),
{
    lemma_service_type_code_injective();
}

/// The KNXnet/IP service type identifiers: each code read from the wire is
/// the service type the KNXnet/IP specification assigns to it (0x0201
/// `SEARCH_REQUEST` up to 0x0954 `SESSION_STATUS`), and no other code is
/// one.
pub proof fn lemma_service_type_codes(v: u16)
    ensures
        service_type_of(v) == Some(ServiceType::SearchRequest) <==> v == 0x0201,
        service_type_of(v) == Some(ServiceType::SearchResponse) <==> v == 0x0202,
        service_type_of(v) == Some(ServiceType::DescriptionRequest) <==> v == 0x0203,
        service_type_of(v) == Some(ServiceType::DescriptionResponse) <==> v == 0x0204,
        service_type_of(v) == Some(ServiceType::ConnectRequest) <==> v == 0x0205,
        service_type_of(v) == Some(ServiceType::ConnectResponse) <==> v == 0x0206,
        service_type_of(v) == Some(ServiceType::ConnectionstateRequest) <==> v == 0x0207,
        service_type_of(v) == Some(ServiceType::ConnectionstateResponse) <==> v == 0x0208,
        service_type_of(v) == Some(ServiceType::DisconnectRequest) <==> v == 0x0209,
        service_type_of(v) == Some(ServiceType::DisconnectResponse) <==> v == 0x020A,
        service_type_of(v) == Some(ServiceType::DeviceConfigurationRequest) <==> v == 0x0310,
        service_type_of(v) == Some(ServiceType::DeviceConfigurationAck) <==> v == 0x0311,
        service_type_of(v) == Some(ServiceType::TunnellingRequest) <==> v == 0x0420,
        service_type_of(v) == Some(ServiceType::TunnellingAck) <==> v == 0x0421,
        service_type_of(v) == Some(ServiceType::RoutingIndication) <==> v == 0x0530,
        service_type_of(v) == Some(ServiceType::RoutingLostMessage) <==> v == 0x0531,
        service_type_of(v) == Some(ServiceType::RoutingBusy) <==> v == 0x0532,
        service_type_of(v) == Some(ServiceType::RemoteDiagnosticRequest) <==> v == 0x0740,
        service_type_of(v) == Some(ServiceType::RemoteDiagnosticResponse) <==> v == 0x0741,
        service_type_of(v) == Some(ServiceType::SecureWrapper) <==> v == 0x0950,
        service_type_of(v) == Some(ServiceType::SessionRequest) <==> v == 0x0951,
        service_type_of(v) == Some(ServiceType::SessionResponse) <==> v == 0x0952,
        service_type_of(v) == Some(ServiceType::SessionAuthenticate) <==> v == 0x0953,
        service_type_of(v) == Some(ServiceType::SessionStatus) <==> v == 0x0954,
        service_type_of(v) is None <==> !(v == 0x0201 || v == 0x0202 || v == 0x0203 || v == 0x0204 || v == 0x0205 || v == 0x0206 || v == 0x0207 || v == 0x0208 || v == 0x0209 || v == 0x020A || v == 0x0310 || v == 0x0311 || v == 0x0420 || v == 0x0421 || v == 0x0530 || v == 0x0531 || v == 0x0532 || v == 0x0740 || v == 0x0741 || v == 0x0950 || v == 0x0951 || v == 0x0952 || v == 0x0953 || v == 0x0954),
{
    lemma_service_type_code_injective();
    assert(service_type_code(ServiceType::SearchRequest) == 0x0201);
    assert(service_type_code(ServiceType::SearchResponse) == 0x0202);
    assert(service_type_code(ServiceType::DescriptionRequest) == 0x0203);
    assert(service_type_code(ServiceType::DescriptionResponse) == 0x0204);
    assert(service_type_code(ServiceType::ConnectRequest) == 0x0205);
    assert(service_type_code(ServiceType::ConnectResponse) == 0x0206);
    assert(service_type_code(ServiceType::ConnectionstateRequest) == 0x0207);
    assert(service_type_code(ServiceType::ConnectionstateResponse) == 0x0208);
    assert(service_type_code(ServiceType::DisconnectRequest) == 0x0209);
    assert(service_type_code(ServiceType::DisconnectResponse) == 0x020A);
    assert(service_type_code(ServiceType::DeviceConfigurationRequest) == 0x0310);
    assert(service_type_code(ServiceType::DeviceConfigurationAck) == 0x0311);
    assert(service_type_code(ServiceType::TunnellingRequest) == 0x0420);
    assert(service_type_code(ServiceType::TunnellingAck) == 0x0421);
    assert(service_type_code(ServiceType::RoutingIndication) == 0x0530);
    assert(service_type_code(ServiceType::RoutingLostMessage) == 0x0531);
    assert(service_type_code(ServiceType::RoutingBusy) == 0x0532);
    assert(service_type_code(ServiceType::RemoteDiagnosticRequest) == 0x0740);
    assert(service_type_code(ServiceType::RemoteDiagnosticResponse) == 0x0741);
    assert(service_type_code(ServiceType::SecureWrapper) == 0x0950);
    assert(service_type_code(ServiceType::SessionRequest) == 0x0951);
    assert(service_type_code(ServiceType::SessionResponse) == 0x0952);
    assert(service_type_code(ServiceType::SessionAuthenticate) == 0x0953);
    assert(service_type_code(ServiceType::SessionStatus) == 0x0954);
}

/// A response's identifier follows its request's by one, and the high byte
/// of an identifier names its service family: 0x02 core, 0x03 device
/// management, 0x04 tunnelling, 0x05 routing, 0x07 remote diagnosis, 0x09
/// secure.
pub proof fn lemma_service_type_pairs()
    ensures
        service_type_code(ServiceType::SearchResponse) == service_type_code(ServiceType::SearchRequest) + 1,
        service_type_code(ServiceType::DescriptionResponse) == service_type_code(ServiceType::DescriptionRequest) + 1,
        service_type_code(ServiceType::ConnectResponse) == service_type_code(ServiceType::ConnectRequest) + 1,
        service_type_code(ServiceType::ConnectionstateResponse) == service_type_code(ServiceType::ConnectionstateRequest) + 1,
        service_type_code(ServiceType::DisconnectResponse) == service_type_code(ServiceType::DisconnectRequest) + 1,
        service_type_code(ServiceType::DeviceConfigurationAck) == service_type_code(ServiceType::DeviceConfigurationRequest) + 1,
        service_type_code(ServiceType::TunnellingAck) == service_type_code(ServiceType::TunnellingRequest) + 1,
        service_type_code(ServiceType::RemoteDiagnosticResponse) == service_type_code(ServiceType::RemoteDiagnosticRequest) + 1,
        service_type_code(ServiceType::SessionResponse) == service_type_code(ServiceType::SessionRequest) + 1,
        service_type_code(ServiceType::SearchRequest) == 0x0201,
        service_type_code(ServiceType::DescriptionRequest) == 0x0203,
        service_type_code(ServiceType::ConnectRequest) == 0x0205,
        service_type_code(ServiceType::ConnectionstateRequest) == 0x0207,
        service_type_code(ServiceType::DisconnectRequest) == 0x0209,
        forall|s: ServiceType| #![auto] (service_type_code(s) / 256 == 2) <==> (s == ServiceType::SearchRequest
            || s == ServiceType::SearchResponse || s == ServiceType::DescriptionRequest
            || s == ServiceType::DescriptionResponse || s == ServiceType::ConnectRequest
            || s == ServiceType::ConnectResponse || s == ServiceType::ConnectionstateRequest
            || s == ServiceType::ConnectionstateResponse || s == ServiceType::DisconnectRequest
            || s == ServiceType::DisconnectResponse),
        forall|s: ServiceType| #![auto] (service_type_code(s) / 256 == 4) <==> (s == ServiceType::TunnellingRequest
            || s == ServiceType::TunnellingAck),
        forall|s: ServiceType| #![auto] (service_type_code(s) / 256 == 5) <==> (s == ServiceType::RoutingIndication
            || s == ServiceType::RoutingLostMessage || s == ServiceType::RoutingBusy),
{
}

/// Connection type for `DEVICE_MGMT_CONNECTION`
pub const DEVICE_MGMT_CONNECTION: u8 = 0x03;

/// Connection type for `TUNNEL_CONNECTION`
pub const TUNNEL_CONNECTION: u8 = 0x04;

/// Connection type for `REMLOG_CONNECTION`
pub const REMLOG_CONNECTION: u8 = 0x06;

/// Connection type for `REMCONF_CONNECTION`
pub const REMCONF_CONNECTION: u8 = 0x07;

/// Connection type for `OBJSVR_CONNECTION`
pub const OBJSVR_CONNECTION: u8 = 0x08;

/// IPv4 UDP protocol
pub const IPV4_UDP: u8 = 0x01;

/// IPv4 TCP protocol
pub const IPV4_TCP: u8 = 0x02;

/// Error code for successful operation
pub const E_NO_ERROR: u8 = 0x00;

/// Error code for connection type not supported
pub const E_CONNECTION_TYPE: u8 = 0x22;

/// Error code for connection option not supported
pub const E_CONNECTION_OPTION: u8 = 0x23;

/// Error code for no more connections available
pub const E_NO_MORE_CONNECTIONS: u8 = 0x24;

/// Error code for data connection error
pub const E_DATA_CONNECTION: u8 = 0x26;

/// Error code for KNX connection error
pub const E_KNX_CONNECTION: u8 = 0x27;

/// Error code for tunnelling layer not supported
pub const E_TUNNELLING_LAYER: u8 = 0x29;

/// cEMI Message Codes
#[derive(Debug, Clone, Copy, PartialEq, Eq, Structural)]
pub enum CEMIMessageCode {
    /// `L_Raw.req` (0x10) - Raw frame request
    LRawReq,
    /// `L_Data.req` (0x11) - Data request
    LDataReq,
    /// `L_Poll_Data.req` (0x13) - Poll data request
    LPollDataReq,
    /// `L_Raw.ind` (0x2D) - Raw frame indication
    LRawInd,
    /// `L_Data.ind` (0x29) - Data indication
    LDataInd,
    /// `L_Busmon.ind` (0x2B) - Bus monitor indication
    LBusmonInd,
    /// `L_Raw.con` (0x2F) - Raw frame confirmation
    LRawCon,
    /// `L_Data.con` (0x2E) - Data confirmation
    LDataCon,
    /// `L_Poll_Data.con` (0x25) - Poll data confirmation
    LPollDataCon,
}

/// The code of a cEMI message on the wire.
pub open spec fn message_code_value(c: CEMIMessageCode) -> u8 {
    match c {
        CEMIMessageCode::LRawReq => 0x10,
        CEMIMessageCode::LDataReq => 0x11,
        CEMIMessageCode::LPollDataReq => 0x13,
        CEMIMessageCode::LRawInd => 0x2D,
        CEMIMessageCode::LDataInd => 0x29,
        CEMIMessageCode::LBusmonInd => 0x2B,
        CEMIMessageCode::LRawCon => 0x2F,
        CEMIMessageCode::LDataCon => 0x2E,
        CEMIMessageCode::LPollDataCon => 0x25,
    }
}

/// The cEMI message whose code is `v`, if any.
pub open spec fn message_code_of(v: u8) -> Option<CEMIMessageCode> {
    if exists|c: CEMIMessageCode| message_code_value(c) == v {
        Some(choose|c: CEMIMessageCode| message_code_value(c) == v)
    } else {
        None
    }
}

impl CEMIMessageCode {
    /// Convert u8 to `CEMIMessageCode`
    pub fn from_u8(value: u8) -> (r: Option<Self>)
        ensures
            r == message_code_of(value),
    {
        let r = match value {
            0x10 => Some(Self::LRawReq),
            0x11 => Some(Self::LDataReq),
            0x13 => Some(Self::LPollDataReq),
            0x2D => Some(Self::LRawInd),
            0x29 => Some(Self::LDataInd),
            0x2B => Some(Self::LBusmonInd),
            0x2F => Some(Self::LRawCon),
            0x2E => Some(Self::LDataCon),
            0x25 => Some(Self::LPollDataCon),
            _ => None,
        };
        proof {
            lemma_message_code_injective();
            if let Some(c) = r {
                assert(message_code_value(c) == value);
            }
        }
        r
    }

    /// Convert `CEMIMessageCode` to u8
    pub fn to_u8(self) -> (r: u8)
        ensures
            r == message_code_value(self),
    {
        match self {
            Self::LRawReq => 0x10,
            Self::LDataReq => 0x11,
            Self::LPollDataReq => 0x13,
            Self::LRawInd => 0x2D,
            Self::LDataInd => 0x29,
            Self::LBusmonInd => 0x2B,
            Self::LRawCon => 0x2F,
            Self::LDataCon => 0x2E,
            Self::LPollDataCon => 0x25,
        }
    }
}

/// Distinct cEMI messages have distinct codes.
pub proof fn lemma_message_code_injective()
    ensures
        forall|a: CEMIMessageCode, b: CEMIMessageCode|
            message_code_value(a) == message_code_value(b) ==> a == b,
{
}

/// Reading back the code of a cEMI message gives that message.
pub proof fn lemma_message_code_roundtrip(c: CEMIMessageCode)
    ensures
        message_code_of(message_code_value(c)) == Some(c),
{
    lemma_message_code_injective();
}

/// The cEMI message codes: each code read from a frame is the message the
/// cEMI specification assigns to it (0x11 `L_Data.req`, 0x29 `L_Data.ind`,
/// 0x2E `L_Data.con`, ...), and no other code is one.  Requests are below
/// 0x20, indications and confirmations above.
pub proof fn lemma_message_codes(v: u8)
    ensures
        message_code_of(v) == Some(CEMIMessageCode::LRawReq) <==> v == 0x10,
        message_code_of(v) == Some(CEMIMessageCode::LDataReq) <==> v == 0x11,
        message_code_of(v) == Some(CEMIMessageCode::LPollDataReq) <==> v == 0x13,
        message_code_of(v) == Some(CEMIMessageCode::LRawInd) <==> v == 0x2D,
        message_code_of(v) == Some(CEMIMessageCode::LDataInd) <==> v == 0x29,
        message_code_of(v) == Some(CEMIMessageCode::LBusmonInd) <==> v == 0x2B,
        message_code_of(v) == Some(CEMIMessageCode::LRawCon) <==> v == 0x2F,
        message_code_of(v) == Some(CEMIMessageCode::LDataCon) <==> v == 0x2E,
        message_code_of(v) == Some(CEMIMessageCode::LPollDataCon) <==> v == 0x25,
        message_code_of(v) is None <==> !(v == 0x10 || v == 0x11 || v == 0x13 || v == 0x2D || v == 0x29 || v == 0x2B || v == 0x2F || v == 0x2E || v == 0x25),
        message_code_of(v) matches Some(c) ==> ((v < 0x20) <==> (c == CEMIMessageCode::LRawReq
            || c == CEMIMessageCode::LDataReq || c == CEMIMessageCode::LPollDataReq)),
{
    lemma_message_code_injective();
    assert(message_code_value(CEMIMessageCode::LRawReq) == 0x10);
    assert(message_code_value(CEMIMessageCode::LDataReq) == 0x11);
    assert(message_code_value(CEMIMessageCode::LPollDataReq) == 0x13);
    assert(message_code_value(CEMIMessageCode::LRawInd) == 0x2D);
    assert(message_code_value(CEMIMessageCode::LDataInd) == 0x29);
    assert(message_code_value(CEMIMessageCode::LBusmonInd) == 0x2B);
    assert(message_code_value(CEMIMessageCode::LRawCon) == 0x2F);
    assert(message_code_value(CEMIMessageCode::LDataCon) == 0x2E);
    assert(message_code_value(CEMIMessageCode::LPollDataCon) == 0x25);
}

/// KNX message priority levels
#[derive(Debug, Clone, Copy, PartialEq, Eq, Structural)]
pub enum Priority {
    /// System priority (0b00)
    System,
    /// Normal priority (0b01, default)
    Normal,
    /// Urgent priority (0b10)
    Urgent,
    /// Low priority (0b11)
    Low,
}

/// The two-bit code of a priority.
pub open spec fn priority_code(p: Priority) -> u8 {
    match p {
        Priority::System => 0,
        Priority::Normal => 1,
        Priority::Urgent => 2,
        Priority::Low => 3,
    }
}

/// The priority whose code is the low two bits of `v`.
pub open spec fn priority_of(v: u8) -> Priority {
    let c = v % 4;
    if c == 0 {
        Priority::System
    } else if c == 1 {
        Priority::Normal
    } else if c == 2 {
        Priority::Urgent
    } else {
        Priority::Low
    }
}

impl Priority {
    /// Convert u8 to Priority (only the low two bits are read)
    pub fn from_u8(value: u8) -> (r: Self)
        ensures
            r == priority_of(value),
    {
        let c = value & 0b11;
        assert(value & 0b11 == value % 4) by (bit_vector);
        match c {
            0b00 => Self::System,
            0b01 => Self::Normal,
            0b10 => Self::Urgent,
            _ => Self::Low,
        }
    }

    /// Convert Priority to u8
    pub fn to_u8(self) -> (r: u8)
        ensures
            r == priority_code(self),
    {
        match self {
            Self::System => 0b00,
            Self::Normal => 0b01,
            Self::Urgent => 0b10,
            Self::Low => 0b11,
        }
    }
}

impl Default for Priority {
    fn default() -> (r: Self)
        ensures
            r == Priority::Normal,
    {
        Self::Normal
    }
}

/// The priority field of a control byte: 0b00 is system, 0b01 normal,
/// 0b10 urgent, 0b11 low, for every byte whose low two bits are read, and a
/// priority written as its code reads back as itself.
pub proof fn lemma_priority_codes(v: u8)
    ensures
        priority_of(v) == Priority::System <==> v % 4 == 0,
        priority_of(v) == Priority::Normal <==> v % 4 == 1,
        priority_of(v) == Priority::Urgent <==> v % 4 == 2,
        priority_of(v) == Priority::Low <==> v % 4 == 3,
        priority_code(Priority::System) == 0,
        priority_code(Priority::Normal) == 1,
        priority_code(Priority::Urgent) == 2,
        priority_code(Priority::Low) == 3,
{
}

/// Reading back the code of a priority gives that priority.
pub proof fn lemma_priority_roundtrip(p: Priority)
    ensures
        priority_of(priority_code(p)) == p,
        priority_code(p) < 4,
{
}

} // verus!
