use knx_pico::dpt::{Dpt1, DptDecode, DptEncode};
use knx_pico::error::KnxError;

/// The bytes that `encode` writes for `value`.
fn encoded(dpt: Dpt1, value: bool) -> Vec<u8> {
    let mut buf = [0u8; 4];
    let len = dpt.encode(value, &mut buf).unwrap();
    buf[..len].to_vec()
}

#[test]
fn test_encode_false() {
    let result = encoded(Dpt1::Switch, false);
    assert_eq!(result, &[0x00]);
}

#[test]
fn test_encode_true() {
    let result = encoded(Dpt1::Switch, true);
    assert_eq!(result, &[0x01]);
}

#[test]
fn test_decode_false() {
    let result = Dpt1::Switch.decode(&[0x00]).unwrap();
    assert_eq!(result, false);
}

#[test]
fn test_decode_true() {
    let result = Dpt1::Switch.decode(&[0x01]).unwrap();
    assert_eq!(result, true);
}

#[test]
fn test_decode_with_upper_bits_set() {
    // Upper bits should be ignored
    let result = Dpt1::Switch.decode(&[0xFF]).unwrap();
    assert_eq!(result, true);

    let result = Dpt1::Switch.decode(&[0xFE]).unwrap();
    assert_eq!(result, false);
}

#[test]
fn dpt1_test_decode_empty_data() {
    let result = Dpt1::Switch.decode(&[]);
    assert!(result.is_err());
    assert!(matches!(result.unwrap_err(), KnxError::Dpt(_)));
}

#[test]
fn dpt1_test_round_trip() {
    // false
    let encoded_false = encoded(Dpt1::Bool, false);
    let decoded = Dpt1::Bool.decode(&encoded_false).unwrap();
    assert_eq!(decoded, false);

    // true
    let encoded_true = encoded(Dpt1::Bool, true);
    let decoded = Dpt1::Bool.decode(&encoded_true).unwrap();
    assert_eq!(decoded, true);
}

#[test]
fn test_all_subtypes_encode() {
    let subtypes = [
        Dpt1::Switch,
        Dpt1::Bool,
        Dpt1::Enable,
        Dpt1::Ramp,
        Dpt1::Alarm,
        Dpt1::BinaryValue,
        Dpt1::Step,
        Dpt1::UpDown,
        Dpt1::OpenClose,
        Dpt1::Start,
        Dpt1::State,
        Dpt1::Invert,
    ];

    for subtype in &subtypes {
        // All subtypes should encode the same way
        assert_eq!(encoded(*subtype, false), &[0x00]);
        assert_eq!(encoded(*subtype, true), &[0x01]);
    }
}

#[test]
fn dpt1_test_identifier() {
    assert_eq!(Dpt1::Switch.identifier(), "1.001");
    assert_eq!(Dpt1::Bool.identifier(), "1.002");
    assert_eq!(Dpt1::OpenClose.identifier(), "1.009");
}

#[test]
fn test_labels() {
    assert_eq!(Dpt1::Switch.labels(), ("off", "on"));
    assert_eq!(Dpt1::Bool.labels(), ("false", "true"));
    assert_eq!(Dpt1::Enable.labels(), ("disable", "enable"));
    assert_eq!(Dpt1::UpDown.labels(), ("up", "down"));
    assert_eq!(Dpt1::OpenClose.labels(), ("open", "close"));
}

#[test]
fn test_semantic_interpretation() {
    // Different subtypes have different meanings but the same encoding
    let switch_on = encoded(Dpt1::Switch, true);
    let door_close = encoded(Dpt1::OpenClose, true);

    // Same binary representation
    assert_eq!(switch_on, door_close);

    // But different semantic meaning
    assert_eq!(Dpt1::Switch.labels().1, "on");
    assert_eq!(Dpt1::OpenClose.labels().1, "close");
}

#[test]
fn dpt1_encode_empty_buffer_is_error() {
    let mut buf: [u8; 0] = [];
    let result = Dpt1::Switch.encode(true, &mut buf);
    assert!(matches!(result, Err(KnxError::Transport(e)) if e.is_buffer_too_small()));
}

#[test]
fn dpt1_encode_writes_only_first_byte() {
    let mut buf = [0xAAu8; 3];
    let len = Dpt1::Invert.encode(true, &mut buf).unwrap();
    assert_eq!(len, 1);
    assert_eq!(buf, [0x01, 0xAA, 0xAA]);
    assert_eq!(Dpt1::State.labels(), ("inactive", "active"));
    assert_eq!(Dpt1::Invert.identifier(), "1.012");
}
