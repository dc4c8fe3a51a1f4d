use knx_pico::addressing::GroupAddress;
use knx_pico::error::KnxError;
use knx_pico::knx_client::{
    build_group_read, build_group_response, build_group_write, decode_value, encode_value,
    encode_value_response, event_from_cemi, format_group_address,
    DptRegistry, KnxClientBuilder, KnxClientError, KnxEvent, DEFAULT_KNXNET_PORT,
    DEVICE_ADDRESS_RAW, MAX_DPT_REGISTRY_SIZE,
};
use knx_pico::protocol::async_tunnel::TunnelSession;
use knx_pico::{ga, DptType, KnxValue};

/// cEMI `L_Data.ind` from 1.1.1 to 1/2/3 with the given NPDU length and
/// the bytes from the TPCI on.
fn ldata_ind(npdu_len: u8, tail: &[u8]) -> Vec<u8> {
    let mut v = vec![0x29, 0x00, 0xBC, 0xE0, 0x11, 0x01, 0x0A, 0x03, npdu_len];
    v.extend_from_slice(tail);
    v
}

#[test]
fn client_builder_defaults() {
    let b = KnxClientBuilder::new();
    assert_eq!(b.gateway_endpoint(), ([192, 168, 1, 10], DEFAULT_KNXNET_PORT));
    assert_eq!(b.device_address_raw(), DEVICE_ADDRESS_RAW);
    assert_eq!(DEVICE_ADDRESS_RAW, 0x1101);
    assert_eq!(DEFAULT_KNXNET_PORT, 3671);
}

#[test]
fn client_builder_setters() {
    let b = KnxClientBuilder::new()
        .gateway([10, 0, 0, 2], 3672)
        .device_address([1, 2, 250]);
    assert_eq!(b.gateway_endpoint(), ([10, 0, 0, 2], 3672));
    assert_eq!(b.device_address_raw(), 0x12FA);
    // a second setter call keeps the other field
    let b = b.gateway([10, 0, 0, 3], 3671);
    assert_eq!(b.device_address_raw(), 0x12FA);
}

#[test]
fn client_builder_packs_wide_fields_by_or() {
    // area 17 spills into bit 16, which is dropped; line 0x1F or-s into area bits
    let b = KnxClientBuilder::new().device_address([0x11, 0x1F, 0x05]);
    assert_eq!(b.device_address_raw(), 0x1F05);
}

#[test]
fn client_registry_register_lookup_replace() {
    let mut reg = DptRegistry::new();
    assert!(reg.is_empty());
    let a = ga(1, 2, 3);
    let b = ga(1, 2, 4);
    reg.register(a, DptType::Temperature).unwrap();
    assert_eq!(reg.lookup(a), Some(DptType::Temperature));
    assert_eq!(reg.lookup(b), None);
    reg.register(a, DptType::Percent).unwrap();
    assert_eq!(reg.lookup(a), Some(DptType::Percent));
    assert_eq!(reg.len(), 1);
    reg.clear();
    assert!(reg.is_empty());
    assert_eq!(reg.lookup(a), None);
}

#[test]
fn client_registry_full() {
    let mut reg = DptRegistry::new();
    for i in 0..MAX_DPT_REGISTRY_SIZE as u8 {
        reg.register(ga(0, 0, i), DptType::Bool).unwrap();
    }
    assert_eq!(reg.len(), 32);
    assert_eq!(reg.register(ga(0, 1, 0), DptType::Bool), Err(KnxClientError::BufferError));
    assert_eq!(reg.len(), 32);
    assert_eq!(reg.lookup(ga(0, 1, 0)), None);
    // re-registering a known address still works when full
    assert!(reg.register(ga(0, 0, 5), DptType::U8).is_ok());
    assert_eq!(reg.lookup(ga(0, 0, 5)), Some(DptType::U8));
}

#[test]
fn client_build_group_write_bool() {
    let mut buf = [0xAAu8; 16];
    let len = build_group_write(ga(1, 2, 3), KnxValue::Bool(true), 0x1101, &mut buf);
    assert_eq!(len, 12);
    assert_eq!(
        &buf[..11],
        &[0x11, 0x00, 0x94, 0xE0, 0x11, 0x01, 0x0A, 0x03, 0x01, 0x00, 0x81]
    );
    // bytes past the telegram are left alone
    assert_eq!(&buf[11..], &[0xAA; 5]);
}

#[test]
fn client_build_group_write_u16() {
    let mut buf = [0u8; 16];
    let len = build_group_write(ga(2, 0, 1), KnxValue::U16(0x1234), 0x1101, &mut buf);
    assert_eq!(len, 13);
    assert_eq!(&buf[6..13], &[0x10, 0x01, 0x03, 0x00, 0x80, 0x12, 0x34]);
}

#[test]
fn client_build_group_response_percent() {
    let mut buf = [0u8; 16];
    let len = build_group_response(ga(1, 0, 0), KnxValue::Percent(50), 0x1101, &mut buf);
    assert_eq!(len, 12);
    // 50 % scales to 50 * 255 / 100 = 127
    assert_eq!(&buf[8..12], &[0x02, 0x00, 0x40, 127]);
}

#[test]
fn client_build_group_read() {
    let frame = build_group_read(ga(1, 2, 3), 0x1101);
    assert_eq!(frame, [0x11, 0x00, 0x94, 0xE0, 0x11, 0x01, 0x0A, 0x03, 0x01, 0x00, 0x00]);
}

#[test]
fn client_encode_value_writes_npdu() {
    let mut buf = [0u8; 8];
    assert_eq!(encode_value(KnxValue::U8(200), &mut buf), 12);
    assert_eq!(&buf[..4], &[0x02, 0x00, 0x80, 200]);
    assert_eq!(encode_value_response(KnxValue::Bool(false), &mut buf), 12);
    assert_eq!(&buf[..3], &[0x01, 0x00, 0x40]);
}

#[test]
fn client_decode_value_by_length() {
    assert_eq!(decode_value(&[0x81]), Some(KnxValue::Bool(true)));
    assert_eq!(decode_value(&[0x80]), Some(KnxValue::Bool(false)));
    assert_eq!(decode_value(&[0x80, 0x2A]), Some(KnxValue::U8(0x2A)));
    assert_eq!(decode_value(&[0x80, 0x07, 0xFF]), Some(KnxValue::U16(0x07FF)));
    assert_eq!(decode_value(&[0x80, 0x0C, 0x1A]), Some(KnxValue::Float2(0x0C1A)));
    assert_eq!(decode_value(&[]), None);
    assert_eq!(decode_value(&[0x80, 1, 2, 3, 4]), None);
}

#[test]
fn client_format_group_address() {
    assert_eq!(format_group_address(ga(31, 7, 255)), (31, 7, 255));
    assert_eq!(format_group_address(ga(1, 2, 3)), (1, 2, 3));
}

#[test]
fn client_event_write_untyped() {
    let reg = DptRegistry::new();
    let cemi = ldata_ind(3, &[0x00, 0x80, 0x81]);
    assert_eq!(
        event_from_cemi(&cemi, &reg),
        Some(KnxEvent::GroupWrite { address: ga(1, 2, 3), value: KnxValue::Bool(true) })
    );
}

#[test]
fn client_event_write_typed_by_registry() {
    let mut reg = DptRegistry::new();
    reg.register(ga(1, 2, 3), DptType::Percent).unwrap();
    let cemi = ldata_ind(4, &[0x00, 0x80, 0x80, 0xC8]);
    // two data bytes decode as U8(200), typed as a percentage clamped to 100
    assert_eq!(
        event_from_cemi(&cemi, &reg),
        Some(KnxEvent::GroupWrite { address: ga(1, 2, 3), value: KnxValue::Percent(100) })
    );
}

#[test]
fn client_event_response_and_read() {
    let mut reg = DptRegistry::new();
    reg.register(ga(1, 2, 3), DptType::Temperature).unwrap();
    let cemi = ldata_ind(5, &[0x00, 0x40, 0x40, 0x0C, 0x1A]);
    assert_eq!(
        event_from_cemi(&cemi, &reg),
        Some(KnxEvent::GroupResponse {
            address: ga(1, 2, 3),
            value: KnxValue::Temperature(0x0C1A)
        })
    );
    let read = ldata_ind(3, &[0x00, 0x00, 0x00]);
    assert_eq!(event_from_cemi(&read, &reg), Some(KnxEvent::GroupRead { address: ga(1, 2, 3) }));
}

#[test]
fn client_event_unknown_and_none() {
    let reg = DptRegistry::new();
    // five data bytes decode to no value
    let cemi = ldata_ind(7, &[0x00, 0x80, 0x80, 1, 2, 3, 4]);
    assert_eq!(
        event_from_cemi(&cemi, &reg),
        Some(KnxEvent::Unknown { address: ga(1, 2, 3), data_len: 5 })
    );
    // no application data
    let empty = ldata_ind(2, &[0x00, 0x80]);
    assert_eq!(event_from_cemi(&empty, &reg), None);
    // an individual destination reports nothing
    let mut individual = ldata_ind(3, &[0x00, 0x80, 0x81]);
    individual[3] = 0x60;
    assert_eq!(event_from_cemi(&individual, &reg), None);
    // not a cEMI frame
    assert_eq!(event_from_cemi(&[0x29], &reg), None);
}

#[test]
fn client_truncated_ldata_reports_nothing() {
    // an NPDU of one byte ends before the application data starts
    let reg = DptRegistry::new();
    let truncated = ldata_ind(1, &[0x00, 0x80]);
    assert_eq!(event_from_cemi(&truncated, &reg), None);
}

#[test]
fn client_error_from_knx_error() {
    let mut session = TunnelSession::new([192, 168, 1, 10], 3671);
    // a refused connection maps to ConnectionFailed
    let pending = session.begin_connect().unwrap();
    let response = [
        0x06, 0x10, 0x02, 0x06, 0x00, 0x14, 0x00, 0x24, 0x08, 0x01, 192, 168, 1, 10, 0x0E,
        0x57, 0x04, 0x04, 0x02, 0x00,
    ];
    let err = session.complete_connect(pending, &response).unwrap_err();
    assert_eq!(KnxClientError::from(err), KnxClientError::ConnectionFailed(err));
    // not connected maps to a protocol error carrying it
    let err = session.check_send(1).unwrap_err();
    assert_eq!(KnxClientError::from(err), KnxClientError::ProtocolError(err));
    // a CONNECT_RESPONSE body that is too short maps to BufferError
    let pending = session.begin_connect().unwrap();
    let short = [0x06, 0x10, 0x02, 0x06, 0x00, 0x0A, 0x07, 0x00, 0x08, 0x01];
    let err = session.complete_connect(pending, &short).unwrap_err();
    assert_eq!(KnxClientError::from(err), KnxClientError::BufferError);
    // an addressing error maps to a protocol error carrying it
    let err = GroupAddress::new(32, 0, 0).unwrap_err();
    assert!(matches!(err, KnxError::Addressing(_)));
    assert_eq!(KnxClientError::from(err), KnxClientError::ProtocolError(err));
}

#[test]
fn client_dpt_type_apply() {
    assert_eq!(
        DptType::Dimming.apply_to_value(KnxValue::U8(0x0B)),
        KnxValue::Control3Bit { control: true, step: 3 }
    );
    assert_eq!(DptType::Percent.apply_to_value(KnxValue::U8(42)), KnxValue::Percent(42));
    assert_eq!(DptType::Lux.apply_to_value(KnxValue::Float2(0x1234)), KnxValue::Lux(0x1234));
    assert_eq!(DptType::Bool.apply_to_value(KnxValue::U8(1)), KnxValue::U8(1));
    assert_eq!(DptType::Humidity.name(), "Humidity (DPT 9.007)");
}
