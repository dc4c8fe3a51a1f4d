use knx_pico::dpt::{Dpt5, DptDecode, DptEncode};
use knx_pico::error::KnxError;

#[test]
fn test_percentage_encode() {
    let mut buf = [0u8; 1];

    // 0% -> 0
    let len = Dpt5::Percentage.encode(0, &mut buf).unwrap();
    assert_eq!(len, 1);
    assert_eq!(buf[0], 0x00);

    // 50% -> 127 (128 would be closer but integer division)
    let len = Dpt5::Percentage.encode(50, &mut buf).unwrap();
    assert_eq!(len, 1);
    assert!(buf[0] >= 127 && buf[0] <= 128);

    // 100% -> 255
    let len = Dpt5::Percentage.encode(100, &mut buf).unwrap();
    assert_eq!(len, 1);
    assert_eq!(buf[0], 0xFF);

    // 75% -> 191
    let len = Dpt5::Percentage.encode(75, &mut buf).unwrap();
    assert_eq!(len, 1);
    assert_eq!(buf[0], 0xBF);
}

#[test]
fn test_percentage_decode() {
    // 0 -> 0%
    assert_eq!(Dpt5::Percentage.decode(&[0x00]).unwrap(), 0);

    // 255 -> 100%
    assert_eq!(Dpt5::Percentage.decode(&[0xFF]).unwrap(), 100);

    // 127 -> ~49%
    let val = Dpt5::Percentage.decode(&[127]).unwrap();
    assert!(val >= 49 && val <= 50);

    // 191 -> ~75%
    let val = Dpt5::Percentage.decode(&[0xBF]).unwrap();
    assert!(val >= 74 && val <= 75);
}

#[test]
fn test_percentage_out_of_range() {
    let mut buf = [0u8; 1];
    let result = Dpt5::Percentage.encode(101, &mut buf);
    assert!(result.is_err());
    assert!(matches!(result.unwrap_err(), KnxError::Dpt(_)));
}

#[test]
fn test_angle_encode() {
    let mut buf = [0u8; 1];

    // 0° -> 0
    let len = Dpt5::Angle.encode(0, &mut buf).unwrap();
    assert_eq!(len, 1);
    assert_eq!(buf[0], 0x00);

    // 180° -> 127
    let len = Dpt5::Angle.encode(180, &mut buf).unwrap();
    assert_eq!(len, 1);
    assert!(buf[0] >= 127 && buf[0] <= 128);

    // 360° -> 255
    let len = Dpt5::Angle.encode(360, &mut buf).unwrap();
    assert_eq!(len, 1);
    assert_eq!(buf[0], 0xFF);
}

#[test]
fn test_angle_decode() {
    // 0 -> 0°
    assert_eq!(Dpt5::Angle.decode(&[0x00]).unwrap(), 0);

    // 255 -> 360°
    assert_eq!(Dpt5::Angle.decode(&[0xFF]).unwrap(), 360);

    // 127 -> ~179°
    let val = Dpt5::Angle.decode(&[127]).unwrap();
    assert!(val >= 178 && val <= 180);
}

#[test]
fn test_angle_out_of_range() {
    let mut buf = [0u8; 1];
    let result = Dpt5::Angle.encode(361, &mut buf);
    assert!(result.is_err());
}

#[test]
fn test_percent_u8_encode() {
    let mut buf = [0u8; 1];

    let len = Dpt5::PercentU8.encode(0, &mut buf).unwrap();
    assert_eq!(len, 1);
    assert_eq!(buf[0], 0);

    let len = Dpt5::PercentU8.encode(128, &mut buf).unwrap();
    assert_eq!(len, 1);
    assert_eq!(buf[0], 128);

    let len = Dpt5::PercentU8.encode(255, &mut buf).unwrap();
    assert_eq!(len, 1);
    assert_eq!(buf[0], 255);
}

#[test]
fn test_percent_u8_decode() {
    assert_eq!(Dpt5::PercentU8.decode(&[0]).unwrap(), 0);
    assert_eq!(Dpt5::PercentU8.decode(&[128]).unwrap(), 128);
    assert_eq!(Dpt5::PercentU8.decode(&[255]).unwrap(), 255);
}

#[test]
fn test_tariff_encode() {
    let mut buf = [0u8; 1];

    let len = Dpt5::Tariff.encode(0, &mut buf).unwrap();
    assert_eq!(len, 1);
    assert_eq!(buf[0], 0);

    let len = Dpt5::Tariff.encode(100, &mut buf).unwrap();
    assert_eq!(len, 1);
    assert_eq!(buf[0], 100);

    let len = Dpt5::Tariff.encode(254, &mut buf).unwrap();
    assert_eq!(len, 1);
    assert_eq!(buf[0], 254);
}

#[test]
fn test_tariff_out_of_range() {
    let mut buf = [0u8; 1];
    // Tariff max is 254
    let result = Dpt5::Tariff.encode(255, &mut buf);
    assert!(result.is_err());
}

#[test]
fn test_tariff_decode_invalid() {
    // Tariff max is 254
    let result = Dpt5::Tariff.decode(&[255]);
    assert!(result.is_err());
}

#[test]
fn test_counter_encode() {
    let mut buf = [0u8; 1];

    let len = Dpt5::Counter.encode(0, &mut buf).unwrap();
    assert_eq!(len, 1);
    assert_eq!(buf[0], 0);

    let len = Dpt5::Counter.encode(42, &mut buf).unwrap();
    assert_eq!(len, 1);
    assert_eq!(buf[0], 42);

    let len = Dpt5::Counter.encode(255, &mut buf).unwrap();
    assert_eq!(len, 1);
    assert_eq!(buf[0], 255);
}

#[test]
fn test_counter_decode() {
    assert_eq!(Dpt5::Counter.decode(&[0]).unwrap(), 0);
    assert_eq!(Dpt5::Counter.decode(&[42]).unwrap(), 42);
    assert_eq!(Dpt5::Counter.decode(&[255]).unwrap(), 255);
}

#[test]
fn dpt5_test_decode_empty_data() {
    let result = Dpt5::Percentage.decode(&[]);
    assert!(result.is_err());
    assert!(matches!(result.unwrap_err(), KnxError::Dpt(_)));
}

#[test]
fn test_round_trip_percentage() {
    let mut buf = [0u8; 1];
    for value in [0, 25, 50, 75, 100] {
        let len = Dpt5::Percentage.encode(value, &mut buf).unwrap();
        assert_eq!(len, 1);
        let decoded = Dpt5::Percentage.decode(&buf[..len]).unwrap();
        // Allow ±1 error due to rounding
        assert!((decoded as i16 - value as i16).abs() <= 1);
    }
}

#[test]
fn test_round_trip_angle() {
    let mut buf = [0u8; 1];
    for value in [0, 90, 180, 270, 360] {
        let len = Dpt5::Angle.encode(value, &mut buf).unwrap();
        assert_eq!(len, 1);
        let decoded = Dpt5::Angle.decode(&buf[..len]).unwrap();
        // Allow ±2 error due to rounding
        assert!((decoded as i16 - value as i16).abs() <= 2);
    }
}

#[test]
fn dpt5_test_identifier() {
    assert_eq!(Dpt5::Percentage.identifier(), "5.001");
    assert_eq!(Dpt5::Angle.identifier(), "5.003");
    assert_eq!(Dpt5::Counter.identifier(), "5.010");
}

#[test]
fn dpt5_test_unit() {
    assert_eq!(Dpt5::Percentage.unit(), "%");
    assert_eq!(Dpt5::Angle.unit(), "°");
    assert_eq!(Dpt5::Counter.unit(), "pulses");
}

#[test]
fn dpt5_test_range() {
    assert_eq!(Dpt5::Percentage.range(), (0, 100));
    assert_eq!(Dpt5::Angle.range(), (0, 360));
    assert_eq!(Dpt5::Tariff.range(), (0, 254));
    assert_eq!(Dpt5::Counter.range(), (0, 255));
}

#[test]
fn dpt5_scaling_rounds_to_nearest() {
    let mut buf = [0u8; 1];
    Dpt5::Percentage.encode(75, &mut buf).unwrap();
    assert_eq!(buf, [0xBF]);
    assert_eq!(Dpt5::Percentage.decode(&buf).unwrap(), 75);
    Dpt5::Percentage.encode(50, &mut buf).unwrap();
    assert_eq!(buf, [128]);
    assert_eq!(Dpt5::Percentage.decode(&[127]).unwrap(), 50);
    Dpt5::Angle.encode(180, &mut buf).unwrap();
    assert_eq!(buf, [0x80]);
    assert_eq!(Dpt5::Angle.decode(&buf).unwrap(), 180);
    // every percentage comes back exactly
    for value in 0..=100u16 {
        Dpt5::Percentage.encode(value, &mut buf).unwrap();
        assert_eq!(Dpt5::Percentage.decode(&buf).unwrap(), value);
    }
    // every angle comes back at most one degree below
    for value in 0..=360u16 {
        Dpt5::Angle.encode(value, &mut buf).unwrap();
        let back = Dpt5::Angle.decode(&buf).unwrap();
        assert!(back <= value && value <= back + 1);
    }
}
