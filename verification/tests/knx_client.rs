use knx_pico::knx_client::{decode_value, encode_value_with_apci, DptType, KnxValue};

/// Helper function to create StringAscii value from &str
fn string_ascii_from_str(s: &str) -> KnxValue {
    let mut data = [0u8; 14];
    let bytes = s.as_bytes();
    let len = bytes.len().min(14);
    data[..len].copy_from_slice(&bytes[..len]);
    KnxValue::StringAscii {
        data,
        len: len as u8,
    }
}

#[test]
fn test_dpt1_encode_true() {
    // DPT 1.xxx: Boolean true
    let value = KnxValue::Bool(true);
    let mut buffer = [0u8; 16];
    let len = encode_value_with_apci(value, &mut buffer, 0x80);

    assert_eq!(len, 12);
    assert_eq!(buffer[0], 0x01); // NPDU length (1 byte)
    assert_eq!(buffer[1], 0x00); // TPCI
    assert_eq!(buffer[2], 0x81); // APCI (0x80) | 0x01 (true)
}

#[test]
fn test_dpt1_encode_false() {
    // DPT 1.xxx: Boolean false
    let value = KnxValue::Bool(false);
    let mut buffer = [0u8; 16];
    let len = encode_value_with_apci(value, &mut buffer, 0x80);

    assert_eq!(len, 12);
    assert_eq!(buffer[0], 0x01); // NPDU length (1 byte)
    assert_eq!(buffer[1], 0x00); // TPCI
    assert_eq!(buffer[2], 0x80); // APCI (0x80) | 0x00 (false)
}

#[test]
fn test_dpt1_decode_true() {
    // Decode true value from 1-byte data
    let data = [0x81]; // APCI with bit 0 set
    let value = decode_value(&data);

    assert_eq!(value, Some(KnxValue::Bool(true)));
}

#[test]
fn test_dpt1_decode_false() {
    // Decode false value from 1-byte data
    let data = [0x80]; // APCI with bit 0 clear
    let value = decode_value(&data);

    assert_eq!(value, Some(KnxValue::Bool(false)));
}

#[test]
fn test_dpt1_roundtrip_true() {
    // Test encode/decode roundtrip for true
    let original = KnxValue::Bool(true);
    let mut buffer = [0u8; 16];
    encode_value_with_apci(original, &mut buffer, 0x80);

    // Extract data portion (APCI byte)
    let decoded = decode_value(&buffer[2..3]);

    assert_eq!(decoded, Some(original));
}

#[test]
fn test_dpt1_roundtrip_false() {
    // Test encode/decode roundtrip for false
    let original = KnxValue::Bool(false);
    let mut buffer = [0u8; 16];
    encode_value_with_apci(original, &mut buffer, 0x80);

    // Extract data portion (APCI byte)
    let decoded = decode_value(&buffer[2..3]);

    assert_eq!(decoded, Some(original));
}

#[test]
fn test_dpt1_type_name() {
    assert_eq!(DptType::Bool.name(), "Boolean (DPT 1.xxx)");
}

#[test]
fn test_dpt1_apply_to_value() {
    // Test that apply_to_value preserves Bool values
    let value = KnxValue::Bool(true);
    let result = DptType::Bool.apply_to_value(value);
    assert_eq!(result, KnxValue::Bool(true));

    let value = KnxValue::Bool(false);
    let result = DptType::Bool.apply_to_value(value);
    assert_eq!(result, KnxValue::Bool(false));
}

#[test]
fn test_dpt3_encode_decrease_break() {
    // DPT 3.xxx: decrease/up, break (step = 0)
    let value = KnxValue::Control3Bit { control: false, step: 0 };
    let mut buffer = [0u8; 16];
    let len = encode_value_with_apci(value, &mut buffer, 0x80);

    assert_eq!(len, 12);
    assert_eq!(buffer[0], 0x02); // NPDU length
    assert_eq!(buffer[1], 0x00); // TPCI
    assert_eq!(buffer[2], 0x80); // APCI (write)
    assert_eq!(buffer[3], 0x00); // control=0, step=0
}

#[test]
fn test_dpt3_encode_increase_step_5() {
    // DPT 3.xxx: increase/down, step = 5
    let value = KnxValue::Control3Bit { control: true, step: 5 };
    let mut buffer = [0u8; 16];
    let len = encode_value_with_apci(value, &mut buffer, 0x80);

    assert_eq!(len, 12);
    assert_eq!(buffer[0], 0x02);
    assert_eq!(buffer[1], 0x00);
    assert_eq!(buffer[2], 0x80);
    assert_eq!(buffer[3], 0x0D); // 0x08 (control=1) | 0x05 (step=5) = 0x0D
}

#[test]
fn test_dpt3_encode_step_clamping() {
    // Test that step > 7 gets clamped to 7
    let value = KnxValue::Control3Bit { control: false, step: 15 };
    let mut buffer = [0u8; 16];
    let len = encode_value_with_apci(value, &mut buffer, 0x80);

    assert_eq!(len, 12);
    assert_eq!(buffer[3], 0x07); // Should be clamped to 7
}

#[test]
fn test_dpt3_decode_from_u8() {
    // Test decoding via DPT registry
    let raw_u8 = KnxValue::U8(0x0D); // control=1, step=5

    // Apply Dimming DPT type
    let dimming_value = DptType::Dimming.apply_to_value(raw_u8);
    assert_eq!(dimming_value, KnxValue::Control3Bit { control: true, step: 5 });

    // Apply Blinds DPT type
    let blinds_value = DptType::Blinds.apply_to_value(raw_u8);
    assert_eq!(blinds_value, KnxValue::Control3Bit { control: true, step: 5 });
}

#[test]
fn test_dpt3_decode_decrease_break() {
    let raw_u8 = KnxValue::U8(0x00); // control=0, step=0
    let value = DptType::Dimming.apply_to_value(raw_u8);
    assert_eq!(value, KnxValue::Control3Bit { control: false, step: 0 });
}

#[test]
fn test_dpt3_all_step_values() {
    // Test all valid step values (0-7)
    for step in 0..=7 {
        for control in [false, true] {
            let expected_byte = if control {
                0x08 | step
            } else {
                step
            };

            let raw_u8 = KnxValue::U8(expected_byte);
            let decoded = DptType::Dimming.apply_to_value(raw_u8);
            assert_eq!(decoded, KnxValue::Control3Bit { control, step });
        }
    }
}

#[test]
fn test_dpt3_roundtrip() {
    // Test encode -> decode roundtrip
    let original = KnxValue::Control3Bit { control: true, step: 3 };

    // Encode
    let mut buffer = [0u8; 16];
    encode_value_with_apci(original, &mut buffer, 0x80);

    // Decode (simulated by extracting the encoded byte)
    let encoded_byte = buffer[3];
    let raw_u8 = KnxValue::U8(encoded_byte);
    let decoded = DptType::Dimming.apply_to_value(raw_u8);

    assert_eq!(decoded, original);
}

#[test]
fn test_dpt3_type_names() {
    assert_eq!(DptType::Dimming.name(), "Dimming Control (DPT 3.007)");
    assert_eq!(DptType::Blinds.name(), "Blinds Control (DPT 3.008)");
}

#[test]
fn test_dpt3_already_decoded_passthrough() {
    // Test that already-decoded Control3Bit values pass through unchanged
    let value = KnxValue::Control3Bit { control: false, step: 7 };

    let dimming_value = DptType::Dimming.apply_to_value(value);
    assert_eq!(dimming_value, value);

    let blinds_value = DptType::Blinds.apply_to_value(value);
    assert_eq!(blinds_value, value);
}

#[test]
fn test_dpt10_encode_time() {
    // DPT 10.001: Monday, 14:30:45
    let value = KnxValue::Time { day: 1, hour: 14, minute: 30, second: 45 };
    let mut buffer = [0u8; 16];
    let len = encode_value_with_apci(value, &mut buffer, 0x80);

    assert_eq!(len, 14);
    assert_eq!(buffer[0], 0x04); // NPDU length
    assert_eq!(buffer[1], 0x00); // TPCI
    assert_eq!(buffer[2], 0x80); // APCI (write)
    assert_eq!(buffer[3], (1 << 5) | 14); // day=1, hour=14
    assert_eq!(buffer[4], 30); // minute
    assert_eq!(buffer[5], 45); // second
}

#[test]
fn test_dpt10_encode_no_day() {
    // DPT 10.001: No day, 00:00:00
    let value = KnxValue::Time { day: 0, hour: 0, minute: 0, second: 0 };
    let mut buffer = [0u8; 16];
    let len = encode_value_with_apci(value, &mut buffer, 0x80);

    assert_eq!(len, 14);
    assert_eq!(buffer[3], 0x00); // day=0, hour=0
    assert_eq!(buffer[4], 0); // minute
    assert_eq!(buffer[5], 0); // second
}

#[test]
fn test_dpt10_encode_sunday_midnight() {
    // DPT 10.001: Sunday (7), 23:59:59
    let value = KnxValue::Time { day: 7, hour: 23, minute: 59, second: 59 };
    let mut buffer = [0u8; 16];
    let len = encode_value_with_apci(value, &mut buffer, 0x80);

    assert_eq!(len, 14);
    assert_eq!(buffer[3], (7 << 5) | 23); // day=7, hour=23
    assert_eq!(buffer[4], 59); // minute
    assert_eq!(buffer[5], 59); // second
}

#[test]
fn test_dpt10_encode_clamping() {
    // Test that values > max get clamped
    let value = KnxValue::Time { day: 10, hour: 25, minute: 70, second: 80 };
    let mut buffer = [0u8; 16];
    let len = encode_value_with_apci(value, &mut buffer, 0x80);

    assert_eq!(len, 14);
    // Should be clamped to day=7, hour=23, minute=59, second=59
    assert_eq!(buffer[3], (7 << 5) | 23);
    assert_eq!(buffer[4], 59);
    assert_eq!(buffer[5], 59);
}

#[test]
fn test_dpt10_decode_time() {
    // Simulate received data: APCI + 3 bytes
    let data = [0x80, (3 << 5) | 15, 45, 30]; // Wednesday, 15:45:30

    let decoded = decode_value(&data);
    assert_eq!(
        decoded,
        Some(KnxValue::Time { day: 3, hour: 15, minute: 45, second: 30 })
    );
}

#[test]
fn test_dpt10_roundtrip() {
    // Test encode -> decode roundtrip
    let original = KnxValue::Time { day: 5, hour: 12, minute: 30, second: 15 };

    // Encode
    let mut buffer = [0u8; 16];
    encode_value_with_apci(original, &mut buffer, 0x80);

    // Decode (simulated by extracting the encoded bytes)
    let data = [buffer[2], buffer[3], buffer[4], buffer[5]];
    let decoded = decode_value(&data);

    assert_eq!(decoded, Some(original));
}

#[test]
fn test_dpt10_type_name() {
    assert_eq!(DptType::Time.name(), "Time of Day (DPT 10.001)");
}

#[test]
fn test_dpt10_apply_to_value() {
    // Test that Time values pass through unchanged
    let value = KnxValue::Time { day: 2, hour: 10, minute: 30, second: 0 };
    let applied = DptType::Time.apply_to_value(value);
    assert_eq!(applied, value);
}

#[test]
fn test_dpt10_all_days() {
    // Test all valid day values (0-7)
    for day in 0..=7 {
        let value = KnxValue::Time { day, hour: 12, minute: 0, second: 0 };
        let mut buffer = [0u8; 16];
        encode_value_with_apci(value, &mut buffer, 0x80);

        // Decode
        let data = [buffer[2], buffer[3], buffer[4], buffer[5]];
        let decoded = decode_value(&data);

        assert_eq!(decoded, Some(value));
    }
}

#[test]
fn test_dpt16_encode_short_string() {
    // DPT 16: "Hello"
    let value = string_ascii_from_str("Hello");
    let mut buffer = [0u8; 32];
    let len = encode_value_with_apci(value, &mut buffer, 0x80);

    assert_eq!(len, 25);
    assert_eq!(buffer[0], 0x0F); // NPDU length
    assert_eq!(buffer[1], 0x00); // TPCI
    assert_eq!(buffer[2], 0x80); // APCI (write)
    assert_eq!(&buffer[3..8], b"Hello");
    assert_eq!(buffer[8], 0); // Null padding
}

#[test]
fn test_dpt16_encode_full_string() {
    // DPT 16: 14 characters "Hello World!!!"
    let value = string_ascii_from_str("Hello World!!!");
    let mut buffer = [0u8; 32];
    let len = encode_value_with_apci(value, &mut buffer, 0x80);

    assert_eq!(len, 25);
    assert_eq!(&buffer[3..17], b"Hello World!!!");
}

#[test]
fn test_dpt16_encode_empty_string() {
    // DPT 16: empty string
    let value = string_ascii_from_str("");
    let mut buffer = [0u8; 32];
    let len = encode_value_with_apci(value, &mut buffer, 0x80);

    assert_eq!(len, 25);
    // All data bytes should be null
    for i in 3..17 {
        assert_eq!(buffer[i], 0);
    }
}

#[test]
fn test_dpt16_encode_with_padding() {
    // DPT 16: "Test" (should be padded with nulls)
    let value = string_ascii_from_str("Test");
    let mut buffer = [0u8; 32];
    let len = encode_value_with_apci(value, &mut buffer, 0x80);

    assert_eq!(len, 25);
    assert_eq!(&buffer[3..7], b"Test");
    // Check null padding
    for i in 7..17 {
        assert_eq!(buffer[i], 0);
    }
}

#[test]
fn test_dpt16_decode_string() {
    // Simulate received data: APCI + 14 bytes for "KNX"
    let mut data = [0u8; 15];
    data[0] = 0x80; // APCI
    data[1] = b'K';
    data[2] = b'N';
    data[3] = b'X';
    // Rest are zeros (null padding)

    let decoded = decode_value(&data);
    match decoded {
        Some(KnxValue::StringAscii { data, len }) => {
            assert_eq!(len, 3);
            assert_eq!(&data[0..3], b"KNX");
        }
        _ => panic!("Expected StringAscii, got {:?}", decoded),
    }
}

#[test]
fn test_dpt16_roundtrip() {
    // Test encode -> decode roundtrip
    let original = string_ascii_from_str("Test123");

    // Encode
    let mut buffer = [0u8; 32];
    encode_value_with_apci(original, &mut buffer, 0x80);

    // Decode (extract the relevant bytes)
    let data = &buffer[2..17]; // APCI + 14 data bytes
    let decoded = decode_value(data);

    match (&original, decoded) {
        (
            KnxValue::StringAscii {
                data: d1,
                len: l1,
            },
            Some(KnxValue::StringAscii {
                data: d2,
                len: l2,
            }),
        ) => {
            assert_eq!(l1, &l2);
            assert_eq!(&d1[..], &d2[..]);
        }
        _ => panic!("Roundtrip failed"),
    }
}

#[test]
fn test_dpt16_type_name() {
    assert_eq!(
        DptType::StringAscii.name(),
        "String ASCII (DPT 16.000/16.001)"
    );
}

#[test]
fn test_dpt16_apply_to_value() {
    // Test that StringAscii values pass through unchanged
    let value = string_ascii_from_str("Hello");
    let applied = DptType::StringAscii.apply_to_value(value);

    match (&value, applied) {
        (
            KnxValue::StringAscii {
                data: d1,
                len: l1,
            },
            KnxValue::StringAscii {
                data: d2,
                len: l2,
            },
        ) => {
            assert_eq!(l1, &l2);
            assert_eq!(&d1[..], &d2[..]);
        }
        _ => panic!("apply_to_value failed"),
    }
}

#[test]
fn test_dpt16_special_characters() {
    // Test with special ASCII characters
    let value = string_ascii_from_str("Test!@#$%");
    let mut buffer = [0u8; 32];
    encode_value_with_apci(value, &mut buffer, 0x80);

    assert_eq!(&buffer[3..12], b"Test!@#$%");
}

#[test]
fn test_dpt16_length_clamping() {
    // Test that strings > 14 characters get clamped
    let mut data = [b'A'; 14];
    let value = KnxValue::StringAscii { data, len: 20 }; // len > 14

    let mut buffer = [0u8; 32];
    let len = encode_value_with_apci(value, &mut buffer, 0x80);

    assert_eq!(len, 25);
    // Should encode exactly 14 'A's
    for i in 3..17 {
        assert_eq!(buffer[i], b'A');
    }
}

#[test]
fn test_dpt11_encode_date() {
    // DPT 11.001: 2023-12-25 (25/12/23)
    let value = KnxValue::Date { day: 25, month: 12, year: 23 };
    let mut buffer = [0u8; 16];
    let len = encode_value_with_apci(value, &mut buffer, 0x80);

    assert_eq!(len, 14);
    assert_eq!(buffer[0], 0x04); // NPDU length
    assert_eq!(buffer[1], 0x00); // TPCI
    assert_eq!(buffer[2], 0x80); // APCI (write)
    assert_eq!(buffer[3], 25); // day
    assert_eq!(buffer[4], 12); // month
    assert_eq!(buffer[5], 23); // year
}

#[test]
fn test_dpt11_encode_first_day() {
    // DPT 11.001: 2000-01-01 (01/01/00)
    let value = KnxValue::Date { day: 1, month: 1, year: 0 };
    let mut buffer = [0u8; 16];
    let len = encode_value_with_apci(value, &mut buffer, 0x80);

    assert_eq!(len, 14);
    assert_eq!(buffer[3], 1); // day
    assert_eq!(buffer[4], 1); // month
    assert_eq!(buffer[5], 0); // year
}

#[test]
fn test_dpt11_encode_last_day() {
    // DPT 11.001: 2099-12-31 (31/12/99)
    let value = KnxValue::Date { day: 31, month: 12, year: 99 };
    let mut buffer = [0u8; 16];
    let len = encode_value_with_apci(value, &mut buffer, 0x80);

    assert_eq!(len, 14);
    assert_eq!(buffer[3], 31); // day
    assert_eq!(buffer[4], 12); // month
    assert_eq!(buffer[5], 99); // year
}

#[test]
fn test_dpt11_encode_clamping() {
    // Test that values out of range get clamped
    let value = KnxValue::Date { day: 0, month: 0, year: 150 };
    let mut buffer = [0u8; 16];
    let len = encode_value_with_apci(value, &mut buffer, 0x80);

    assert_eq!(len, 14);
    // Should be clamped to day=1, month=1, year=99
    assert_eq!(buffer[3], 1);
    assert_eq!(buffer[4], 1);
    assert_eq!(buffer[5], 99);
}

#[test]
fn test_dpt11_decode_date() {
    // Simulate received data: APCI + 3 bytes for 2023-06-15
    let data = [0x80, 15, 6, 23];

    let decoded = decode_value(&data);
    assert_eq!(
        decoded,
        Some(KnxValue::Date { day: 15, month: 6, year: 23 })
    );
}

#[test]
fn test_dpt11_roundtrip() {
    // Test encode -> decode roundtrip
    let original = KnxValue::Date { day: 10, month: 3, year: 24 };

    // Encode
    let mut buffer = [0u8; 16];
    encode_value_with_apci(original, &mut buffer, 0x80);

    // Decode (simulated by extracting the encoded bytes)
    let data = [buffer[2], buffer[3], buffer[4], buffer[5]];
    let decoded = decode_value(&data);

    assert_eq!(decoded, Some(original));
}

#[test]
fn test_dpt11_type_name() {
    assert_eq!(DptType::Date.name(), "Date (DPT 11.001)");
}

#[test]
fn test_dpt11_apply_to_value() {
    // Test that Date values pass through unchanged
    let value = KnxValue::Date { day: 15, month: 8, year: 23 };
    let applied = DptType::Date.apply_to_value(value);
    assert_eq!(applied, value);
}

#[test]
fn test_dpt11_all_months() {
    // Test all valid month values (1-12)
    for month in 1..=12 {
        let value = KnxValue::Date { day: 15, month, year: 23 };
        let mut buffer = [0u8; 16];
        encode_value_with_apci(value, &mut buffer, 0x80);

        // Decode
        let data = [buffer[2], buffer[3], buffer[4], buffer[5]];
        let decoded = decode_value(&data);

        assert_eq!(decoded, Some(value));
    }
}

#[test]
fn test_dpt11_heuristic_distinguishes_date() {
    // Test that the heuristic correctly identifies Date
    // 2023-03-15: day=15, month=3, year=23
    let data = [0x80, 15, 3, 23];
    let decoded = decode_value(&data);

    match decoded {
        Some(KnxValue::Date { day: 15, month: 3, year: 23 }) => {}, // Expected
        _ => panic!("Expected Date, got {:?}", decoded),
    }
}

#[test]
fn test_dpt11_heuristic_distinguishes_time() {
    // Test that the heuristic correctly identifies Time when data doesn't match Date pattern
    // Time with day=5, hour=18 encodes as (5<<5)|18 = 160 + 18 = 178
    let data = [0x80, 178, 30, 45];
    let decoded = decode_value(&data);

    match decoded {
        Some(KnxValue::Time { day: 5, hour: 18, minute: 30, second: 45 }) => {}, // Expected
        _ => panic!("Expected Time, got {:?}", decoded),
    }
}

#[test]
fn test_dpt19_encode_datetime() {
    // DPT 19.001: 2023-12-25 Monday 14:30:45, no flags
    let value = KnxValue::DateTime {
        year: 2023,
        month: 12,
        day: 25,
        day_of_week: 1, // Monday
        hour: 14,
        minute: 30,
        second: 45,
        fault: false,
        working_day: true,
        no_wd: false,
        no_year: false,
        no_date: false,
        no_dow: false,
        no_time: false,
        standard_summertime: false,
        quality: true,
    };
    let mut buffer = [0u8; 32];
    let len = encode_value_with_apci(value, &mut buffer, 0x80);

    assert_eq!(len, 19);
    assert_eq!(buffer[0], 0x09); // NPDU length
    assert_eq!(buffer[1], 0x00); // TPCI
    assert_eq!(buffer[2], 0x80); // APCI (write)
    assert_eq!(buffer[3], 123); // Year: 2023 - 1900 = 123
    assert_eq!(buffer[4], 12); // Month
    assert_eq!(buffer[5], 25); // Day
    assert_eq!(buffer[6], (1 << 5) | 14); // day_of_week=1, hour=14
    assert_eq!(buffer[7], 30); // Minute
    assert_eq!(buffer[8], 45); // Second
    assert_eq!(buffer[9], 0x40); // Flags1: working_day=1
    assert_eq!(buffer[10], 0x80); // Flags2: quality=1
}

#[test]
fn test_dpt19_encode_year_bounds() {
    // Test year clamping: 1900
    let value1 = KnxValue::DateTime {
        year: 1900,
        month: 1,
        day: 1,
        day_of_week: 0,
        hour: 0,
        minute: 0,
        second: 0,
        fault: false,
        working_day: false,
        no_wd: false,
        no_year: false,
        no_date: false,
        no_dow: false,
        no_time: false,
        standard_summertime: false,
        quality: false,
    };
    let mut buffer = [0u8; 32];
    encode_value_with_apci(value1, &mut buffer, 0x80);
    assert_eq!(buffer[3], 0); // 1900 - 1900 = 0

    // Test year clamping: 2155
    let value2 = KnxValue::DateTime {
        year: 2155,
        month: 12,
        day: 31,
        day_of_week: 0,
        hour: 23,
        minute: 59,
        second: 59,
        fault: false,
        working_day: false,
        no_wd: false,
        no_year: false,
        no_date: false,
        no_dow: false,
        no_time: false,
        standard_summertime: false,
        quality: false,
    };
    encode_value_with_apci(value2, &mut buffer, 0x80);
    assert_eq!(buffer[3], 255); // 2155 - 1900 = 255
}

#[test]
fn test_dpt19_encode_all_flags() {
    // Test with all flags set
    let value = KnxValue::DateTime {
        year: 2000,
        month: 6,
        day: 15,
        day_of_week: 3,
        hour: 12,
        minute: 30,
        second: 0,
        fault: true,
        working_day: true,
        no_wd: true,
        no_year: true,
        no_date: true,
        no_dow: true,
        no_time: true,
        standard_summertime: true,
        quality: true,
    };
    let mut buffer = [0u8; 32];
    encode_value_with_apci(value, &mut buffer, 0x80);

    // All flags in byte 9 should be set
    assert_eq!(buffer[9], 0xFF);
    // Quality flag in byte 10 should be set
    assert_eq!(buffer[10], 0x80);
}

#[test]
fn test_dpt19_decode_datetime() {
    // Simulate received data: APCI + 8 bytes for 2023-06-15 Wednesday 10:30:45
    let mut data = [0u8; 9];
    data[0] = 0x80; // APCI
    data[1] = 123; // 2023 - 1900
    data[2] = 6; // June
    data[3] = 15; // 15th
    data[4] = (3 << 5) | 10; // Wednesday, 10:00
    data[5] = 30; // 30 minutes
    data[6] = 45; // 45 seconds
    data[7] = 0x40; // working_day flag
    data[8] = 0x80; // quality flag

    let decoded = decode_value(&data);
    match decoded {
        Some(KnxValue::DateTime {
            year,
            month,
            day,
            day_of_week,
            hour,
            minute,
            second,
            fault,
            working_day,
            no_wd,
            no_year,
            no_date,
            no_dow,
            no_time,
            standard_summertime,
            quality,
        }) => {
            assert_eq!(year, 2023);
            assert_eq!(month, 6);
            assert_eq!(day, 15);
            assert_eq!(day_of_week, 3);
            assert_eq!(hour, 10);
            assert_eq!(minute, 30);
            assert_eq!(second, 45);
            assert_eq!(fault, false);
            assert_eq!(working_day, true);
            assert_eq!(no_wd, false);
            assert_eq!(no_year, false);
            assert_eq!(no_date, false);
            assert_eq!(no_dow, false);
            assert_eq!(no_time, false);
            assert_eq!(standard_summertime, false);
            assert_eq!(quality, true);
        }
        _ => panic!("Expected DateTime, got {:?}", decoded),
    }
}

#[test]
fn test_dpt19_roundtrip() {
    // Test encode -> decode roundtrip
    let original = KnxValue::DateTime {
        year: 2024,
        month: 3,
        day: 10,
        day_of_week: 7, // Sunday
        hour: 18,
        minute: 45,
        second: 30,
        fault: false,
        working_day: false,
        no_wd: false,
        no_year: false,
        no_date: false,
        no_dow: false,
        no_time: false,
        standard_summertime: true,
        quality: false,
    };

    // Encode
    let mut buffer = [0u8; 32];
    encode_value_with_apci(original, &mut buffer, 0x80);

    // Decode (extract the relevant bytes)
    let data = &buffer[2..11]; // APCI + 8 data bytes
    let decoded = decode_value(data);

    // Compare
    match (&original, decoded) {
        (KnxValue::DateTime { .. }, Some(KnxValue::DateTime { .. })) => {
            // Both are DateTime, values should match
            assert_eq!(Some(original), decoded);
        }
        _ => panic!("Roundtrip failed"),
    }
}

#[test]
fn test_dpt19_type_name() {
    assert_eq!(DptType::DateTime.name(), "Date and Time (DPT 19.001)");
}

#[test]
fn test_control3bit_equality() {
    let a = KnxValue::Control3Bit { control: true, step: 5 };
    let b = KnxValue::Control3Bit { control: true, step: 5 };
    let c = KnxValue::Control3Bit { control: false, step: 5 };

    assert_eq!(a, b);
    assert_ne!(a, c);
}

#[test]
fn test_control3bit_debug_format() {
    let value = KnxValue::Control3Bit { control: true, step: 3 };
    let debug_str = format!("{:?}", value);
    assert!(debug_str.contains("Control3Bit"));
    assert!(debug_str.contains("control"));
    assert!(debug_str.contains("step"));
}

#[test]
fn test_time_equality() {
    let a = KnxValue::Time { day: 1, hour: 12, minute: 30, second: 45 };
    let b = KnxValue::Time { day: 1, hour: 12, minute: 30, second: 45 };
    let c = KnxValue::Time { day: 2, hour: 12, minute: 30, second: 45 };

    assert_eq!(a, b);
    assert_ne!(a, c);
}

#[test]
fn test_time_debug_format() {
    let value = KnxValue::Time { day: 3, hour: 15, minute: 45, second: 30 };
    let debug_str = format!("{:?}", value);
    assert!(debug_str.contains("Time"));
    assert!(debug_str.contains("day"));
    assert!(debug_str.contains("hour"));
    assert!(debug_str.contains("minute"));
    assert!(debug_str.contains("second"));
}

#[test]
fn test_date_equality() {
    let a = KnxValue::Date { day: 15, month: 6, year: 23 };
    let b = KnxValue::Date { day: 15, month: 6, year: 23 };
    let c = KnxValue::Date { day: 16, month: 6, year: 23 };

    assert_eq!(a, b);
    assert_ne!(a, c);
}

#[test]
fn test_date_debug_format() {
    let value = KnxValue::Date { day: 25, month: 12, year: 23 };
    let debug_str = format!("{:?}", value);
    assert!(debug_str.contains("Date"));
    assert!(debug_str.contains("day"));
    assert!(debug_str.contains("month"));
    assert!(debug_str.contains("year"));
}
