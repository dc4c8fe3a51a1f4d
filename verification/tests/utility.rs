use knx_pico::codec::{i32_bits, i32_of_bits, u16_from_be, u16_hi, u16_lo, u32_from_be, u32_to_be};
use knx_pico::text::{next_sep, parse_uint};
use knx_pico::utility::{config_value, get_knx_gateway_ip, get_ssid, get_wifi_password, parse_ip};

#[test]
fn utility_config_values() {
    assert_eq!(get_ssid(), "Your_WiFi_SSID");
    assert_eq!(get_wifi_password(), "Your_WiFi_Password");
    assert_eq!(get_knx_gateway_ip(), "192.168.1.10");
}

#[test]
fn utility_config_value_lookup() {
    let cfg = "A=1\r\nB=two\nC=\n";
    assert_eq!(config_value(cfg, "A=", "x"), "1");
    assert_eq!(config_value(cfg, "B=", "x"), "two");
    assert_eq!(config_value(cfg, "C=", "x"), "");
    assert_eq!(config_value(cfg, "D=", "x"), "x");
    // the first matching line wins
    assert_eq!(config_value("K=1\nK=2", "K=", "x"), "1");
    // a key must start its line
    assert_eq!(config_value("XK=1\n", "K=", "x"), "x");
}

#[test]
fn utility_parse_ip_valid() {
    assert_eq!(parse_ip("192.168.1.10"), [192, 168, 1, 10]);
    assert_eq!(parse_ip("10.0.0.255"), [10, 0, 0, 255]);
}

#[test]
fn utility_parse_ip_fallbacks() {
    // a part that is no octet makes the whole text a parse error
    assert_eq!(parse_ip("10.x.0.300"), [192, 168, 1, 10]);
    assert_eq!(parse_ip("1.x.3.4"), [192, 168, 1, 10]);
    assert_eq!(parse_ip("1.2.3.256"), [192, 168, 1, 10]);
    // fewer than four parts gives 192.168.1.10
    assert_eq!(parse_ip("10.0.0"), [192, 168, 1, 10]);
    assert_eq!(parse_ip(""), [192, 168, 1, 10]);
    // more than four parts gives 192.168.1.10 too
    assert_eq!(parse_ip("1.2.3.4.5"), [192, 168, 1, 10]);
    assert_eq!(parse_ip("1.2.3.4."), [192, 168, 1, 10]);
}

#[test]
fn utility_text_helpers() {
    let s = b"12.34";
    assert_eq!(next_sep(s, b'.', 0), 2);
    assert_eq!(next_sep(s, b'.', 3), 5);
    assert_eq!(parse_uint(s, 0, 2, 255), Some(12));
    assert_eq!(parse_uint(s, 3, 5, 20), None);
    assert_eq!(parse_uint(s, 0, 0, 255), None);
}

#[test]
fn codec_big_endian() {
    assert_eq!(u16_from_be(0x12, 0x34), 0x1234);
    assert_eq!(u16_hi(0xABCD), 0xAB);
    assert_eq!(u16_lo(0xABCD), 0xCD);
    assert_eq!(u32_from_be(0xDE, 0xAD, 0xBE, 0xEF), 0xDEADBEEF);
    assert_eq!(u32_to_be(0x01020304), [1, 2, 3, 4]);
    // round trips
    assert_eq!(u32_from_be(0xCA, 0xFE, 0x00, 0x01), u32::from_be_bytes(u32_to_be(0xCAFE0001)));
}

#[test]
fn codec_signed_bits() {
    assert_eq!(i32_bits(-1), 0xFFFF_FFFF);
    assert_eq!(i32_of_bits(0x8000_0000), i32::MIN);
    assert_eq!(i32_of_bits(i32_bits(-123456)), -123456);
}
