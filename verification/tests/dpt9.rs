use knx_pico::dpt::Dpt9;
use knx_pico::error::KnxError;

#[test]
fn dpt9_test_identifier() {
    assert_eq!(Dpt9::Temperature.identifier(), "9.001");
    assert_eq!(Dpt9::Illuminance.identifier(), "9.004");
    assert_eq!(Dpt9::Pressure.identifier(), "9.006");
}

#[test]
fn dpt9_test_unit() {
    assert_eq!(Dpt9::Temperature.unit(), "°C");
    assert_eq!(Dpt9::Illuminance.unit(), "lux");
    assert_eq!(Dpt9::Humidity.unit(), "%");
    assert_eq!(Dpt9::WindSpeed.unit(), "m/s");
}

#[test]
fn dpt9_fields_of_known_words() {
    // 0x0BE8: exponent 1, mantissa 1000
    let (e, m) = Dpt9::Temperature.decode_fields(&[0x0B, 0xE8]).unwrap();
    assert_eq!((e, m), (1, 1000));
    // 0x0C33: exponent 1, mantissa bits 0x433 with bit 10 set, i.e. -973
    let (e, m) = Dpt9::Temperature.decode_fields(&[0x0C, 0x33]).unwrap();
    assert_eq!((e, m), (1, -973));
    // Bit 10 set: negative mantissa in 11-bit two's complement
    let (e, m) = Dpt9::Temperature.decode_fields(&[0x07, 0xFF]).unwrap();
    assert_eq!((e, m), (0, -1));
    let (e, m) = Dpt9::Temperature.decode_fields(&[0x7C, 0x00]).unwrap();
    assert_eq!((e, m), (15, -1024));
}

#[test]
fn dpt9_fields_short_input_is_error() {
    let result = Dpt9::Temperature.decode_fields(&[0x00]);
    assert!(matches!(result, Err(KnxError::Dpt(_))));
    assert!(Dpt9::Temperature.decode_fields(&[]).is_err());
}

#[test]
fn dpt9_encode_fields_roundtrip() {
    let mut buf = [0u8; 2];
    for (e, m) in [(0u8, 0i16), (1, 1000), (15, -1024), (7, 1023), (3, -1)] {
        let len = Dpt9::Power.encode_fields(e, m, &mut buf).unwrap();
        assert_eq!(len, 2);
        assert_eq!(Dpt9::Power.decode_fields(&buf).unwrap(), (e, m));
    }
    Dpt9::Power.encode_fields(1, 1000, &mut buf).unwrap();
    assert_eq!(buf, [0x0B, 0xE8]);
    let mut small = [0u8; 1];
    assert!(Dpt9::Power.encode_fields(0, 0, &mut small).is_err());
}
