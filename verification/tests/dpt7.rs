use knx_pico::dpt::{Dpt7, DptDecode};
use knx_pico::error::KnxError;

#[test]
fn test_pulses_encode() {
    // Zero
    assert_eq!(Dpt7::Pulses.encode_to_bytes(0).unwrap(), [0x00, 0x00]);

    // Small value
    assert_eq!(Dpt7::Pulses.encode_to_bytes(1).unwrap(), [0x00, 0x01]);

    // Medium value
    assert_eq!(Dpt7::Pulses.encode_to_bytes(1234).unwrap(), [0x04, 0xD2]);

    // Large value
    assert_eq!(Dpt7::Pulses.encode_to_bytes(5000).unwrap(), [0x13, 0x88]);

    // Maximum value
    assert_eq!(Dpt7::Pulses.encode_to_bytes(65535).unwrap(), [0xFF, 0xFF]);
}

#[test]
fn test_pulses_decode() {
    // Zero
    assert_eq!(Dpt7::Pulses.decode(&[0x00, 0x00]).unwrap(), 0);

    // Small value
    assert_eq!(Dpt7::Pulses.decode(&[0x00, 0x01]).unwrap(), 1);

    // Medium value
    assert_eq!(Dpt7::Pulses.decode(&[0x04, 0xD2]).unwrap(), 1234);

    // Large value
    assert_eq!(Dpt7::Pulses.decode(&[0x13, 0x88]).unwrap(), 5000);

    // Maximum value
    assert_eq!(Dpt7::Pulses.decode(&[0xFF, 0xFF]).unwrap(), 65535);
}

#[test]
fn test_brightness_encode() {
    // 0 lux (dark)
    assert_eq!(Dpt7::Brightness.encode_to_bytes(0).unwrap(), [0x00, 0x00]);

    // 1000 lux (overcast day)
    assert_eq!(Dpt7::Brightness.encode_to_bytes(1000).unwrap(), [0x03, 0xE8]);

    // 5000 lux (office lighting)
    assert_eq!(Dpt7::Brightness.encode_to_bytes(5000).unwrap(), [0x13, 0x88]);

    // 10000 lux (bright day)
    assert_eq!(Dpt7::Brightness.encode_to_bytes(10000).unwrap(), [0x27, 0x10]);

    // 65535 lux (max)
    assert_eq!(Dpt7::Brightness.encode_to_bytes(65535).unwrap(), [0xFF, 0xFF]);
}

#[test]
fn test_brightness_decode() {
    assert_eq!(Dpt7::Brightness.decode(&[0x00, 0x00]).unwrap(), 0);
    assert_eq!(Dpt7::Brightness.decode(&[0x03, 0xE8]).unwrap(), 1000);
    assert_eq!(Dpt7::Brightness.decode(&[0x13, 0x88]).unwrap(), 5000);
    assert_eq!(Dpt7::Brightness.decode(&[0x27, 0x10]).unwrap(), 10000);
    assert_eq!(Dpt7::Brightness.decode(&[0xFF, 0xFF]).unwrap(), 65535);
}

#[test]
fn test_color_temperature_encode() {
    // 2700K (warm white)
    assert_eq!(Dpt7::ColorTemperature.encode_to_bytes(2700).unwrap(), [0x0A, 0x8C]);

    // 4000K (neutral white)
    assert_eq!(Dpt7::ColorTemperature.encode_to_bytes(4000).unwrap(), [0x0F, 0xA0]);

    // 6500K (cool white / daylight)
    assert_eq!(Dpt7::ColorTemperature.encode_to_bytes(6500).unwrap(), [0x19, 0x64]);
}

#[test]
fn test_color_temperature_decode() {
    assert_eq!(Dpt7::ColorTemperature.decode(&[0x0A, 0x8C]).unwrap(), 2700);
    assert_eq!(Dpt7::ColorTemperature.decode(&[0x0F, 0xA0]).unwrap(), 4000);
    assert_eq!(Dpt7::ColorTemperature.decode(&[0x19, 0x64]).unwrap(), 6500);
}

#[test]
fn test_time_period_sec_encode() {
    // 0 seconds
    assert_eq!(Dpt7::TimePeriodSec.encode_to_bytes(0).unwrap(), [0x00, 0x00]);

    // 1 minute = 60 seconds
    assert_eq!(Dpt7::TimePeriodSec.encode_to_bytes(60).unwrap(), [0x00, 0x3C]);

    // 1 hour = 3600 seconds
    assert_eq!(Dpt7::TimePeriodSec.encode_to_bytes(3600).unwrap(), [0x0E, 0x10]);

    // ~18 hours (max)
    assert_eq!(Dpt7::TimePeriodSec.encode_to_bytes(65535).unwrap(), [0xFF, 0xFF]);
}

#[test]
fn test_time_period_sec_decode() {
    assert_eq!(Dpt7::TimePeriodSec.decode(&[0x00, 0x00]).unwrap(), 0);
    assert_eq!(Dpt7::TimePeriodSec.decode(&[0x00, 0x3C]).unwrap(), 60);
    assert_eq!(Dpt7::TimePeriodSec.decode(&[0x0E, 0x10]).unwrap(), 3600);
    assert_eq!(Dpt7::TimePeriodSec.decode(&[0xFF, 0xFF]).unwrap(), 65535);
}

#[test]
fn test_current_ma_encode() {
    // 0 mA
    assert_eq!(Dpt7::CurrentMa.encode_to_bytes(0).unwrap(), [0x00, 0x00]);

    // 100 mA
    assert_eq!(Dpt7::CurrentMa.encode_to_bytes(100).unwrap(), [0x00, 0x64]);

    // 1000 mA = 1A
    assert_eq!(Dpt7::CurrentMa.encode_to_bytes(1000).unwrap(), [0x03, 0xE8]);

    // 65535 mA = 65.535A
    assert_eq!(Dpt7::CurrentMa.encode_to_bytes(65535).unwrap(), [0xFF, 0xFF]);
}

#[test]
fn test_current_ma_decode() {
    assert_eq!(Dpt7::CurrentMa.decode(&[0x00, 0x00]).unwrap(), 0);
    assert_eq!(Dpt7::CurrentMa.decode(&[0x00, 0x64]).unwrap(), 100);
    assert_eq!(Dpt7::CurrentMa.decode(&[0x03, 0xE8]).unwrap(), 1000);
    assert_eq!(Dpt7::CurrentMa.decode(&[0xFF, 0xFF]).unwrap(), 65535);
}

#[test]
fn test_length_mm_encode() {
    // 0 mm
    assert_eq!(Dpt7::LengthMm.encode_to_bytes(0).unwrap(), [0x00, 0x00]);

    // 1 meter = 1000 mm
    assert_eq!(Dpt7::LengthMm.encode_to_bytes(1000).unwrap(), [0x03, 0xE8]);

    // 10 meters = 10000 mm
    assert_eq!(Dpt7::LengthMm.encode_to_bytes(10000).unwrap(), [0x27, 0x10]);

    // ~65 meters (max)
    assert_eq!(Dpt7::LengthMm.encode_to_bytes(65535).unwrap(), [0xFF, 0xFF]);
}

#[test]
fn dpt7_test_decode_invalid_length() {
    // Empty data
    let result = Dpt7::Pulses.decode(&[]);
    assert!(result.is_err());
    assert!(matches!(result.unwrap_err(), KnxError::Dpt(_)));

    // Too short (1 byte)
    let result = Dpt7::Pulses.decode(&[0x42]);
    assert!(result.is_err());
    assert!(matches!(result.unwrap_err(), KnxError::Dpt(_)));
}

#[test]
fn dpt7_test_decode_extra_bytes() {
    // Extra bytes are ignored (only first 2 used)
    assert_eq!(Dpt7::Pulses.decode(&[0x04, 0xD2, 0xFF]).unwrap(), 1234);
    assert_eq!(Dpt7::Pulses.decode(&[0x13, 0x88, 0x00, 0x00]).unwrap(), 5000);
}

#[test]
fn dpt7_test_round_trip() {
    let test_values = [0, 1, 100, 1234, 5000, 10000, 32767, 65535];

    for value in test_values {
        let encoded = Dpt7::Pulses.encode_to_bytes(value).unwrap();
        let decoded = Dpt7::Pulses.decode(&encoded).unwrap();
        assert_eq!(decoded, value, "Round-trip failed for {}", value);
    }
}

#[test]
fn dpt7_test_big_endian_byte_order() {
    // Verify big-endian encoding
    // 0x1234 should be [0x12, 0x34], not [0x34, 0x12]
    let encoded = Dpt7::Pulses.encode_to_bytes(0x1234).unwrap();
    assert_eq!(encoded[0], 0x12);
    assert_eq!(encoded[1], 0x34);

    // Verify decoding
    assert_eq!(Dpt7::Pulses.decode(&[0x12, 0x34]).unwrap(), 0x1234);
}

#[test]
fn dpt7_test_identifier() {
    assert_eq!(Dpt7::Pulses.identifier(), "7.001");
    assert_eq!(Dpt7::Brightness.identifier(), "7.013");
    assert_eq!(Dpt7::ColorTemperature.identifier(), "7.600");
}

#[test]
fn dpt7_test_unit() {
    assert_eq!(Dpt7::Pulses.unit(), "pulses");
    assert_eq!(Dpt7::Brightness.unit(), "lux");
    assert_eq!(Dpt7::ColorTemperature.unit(), "K");
    assert_eq!(Dpt7::TimePeriodSec.unit(), "s");
    assert_eq!(Dpt7::CurrentMa.unit(), "mA");
}

#[test]
fn dpt7_test_range() {
    assert_eq!(Dpt7::Pulses.range(), (0, 65535));
    assert_eq!(Dpt7::Brightness.range(), (0, 65535));
    assert_eq!(Dpt7::ColorTemperature.range(), (0, 65535));
}
