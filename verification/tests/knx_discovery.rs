use knx_pico::knx_discovery::{build_search_request, calculate_broadcast, parse_search_response};

#[test]
fn test_build_search_request() {
    let mut buf = [0u8; 14];
    let len = build_search_request([192, 168, 1, 29], 12345, &mut buf);

    assert_eq!(len, 14);
    assert_eq!(buf[0], 0x06);  // header_len
    assert_eq!(buf[1], 0x10);  // protocol_version
    assert_eq!(buf[2], 0x02);  // service_type high
    assert_eq!(buf[3], 0x01);  // service_type low (SEARCH_REQUEST)
    assert_eq!(buf[4], 0x00);  // total_length high
    assert_eq!(buf[5], 0x0e);  // total_length low (14)
    assert_eq!(buf[6], 0x08);  // HPAI length
    assert_eq!(buf[7], 0x01);  // protocol (UDP)
    assert_eq!(&buf[8..12], &[192, 168, 1, 29]);  // IP
    assert_eq!(u16::from_be_bytes([buf[12], buf[13]]), 12345);  // port
}

#[test]
fn test_parse_search_response() {
    let response = [
        0x06, 0x10,         // header_len, protocol_version
        0x02, 0x02,         // service_type (SEARCH_RESPONSE)
        0x00, 0x0e,         // total_length
        0x08, 0x01,         // HPAI: length, protocol
        192, 168, 1, 250,   // IP address
        0x0e, 0x57,         // port (3671 in big-endian)
    ];

    let gateway = parse_search_response(&response).unwrap();
    assert_eq!(gateway.ip, [192, 168, 1, 250]);
    assert_eq!(gateway.port, 3671);
}

#[test]
fn test_calculate_broadcast() {
    // /24 network
    assert_eq!(
        calculate_broadcast([192, 168, 1, 29], 24),
        [192, 168, 1, 255]
    );

    // /16 network
    assert_eq!(
        calculate_broadcast([10, 0, 5, 10], 16),
        [10, 0, 255, 255]
    );
}

#[test]
fn search_response_rejections() {
    let good = [
        0x06, 0x10, 0x02, 0x02, 0x00, 0x0e, 0x08, 0x01, 10, 0, 0, 1, 0x0e, 0x57,
    ];
    assert!(parse_search_response(&good[..13]).is_none());
    let mut bad = good;
    bad[1] = 0x11;
    assert!(parse_search_response(&bad).is_none());
    let mut bad = good;
    bad[3] = 0x01;
    assert!(parse_search_response(&bad).is_none());
    let mut bad = good;
    bad[6] = 0x07;
    assert!(parse_search_response(&bad).is_none());
    let mut bad = good;
    bad[7] = 0x02;
    assert!(parse_search_response(&bad).is_none());
    let mut longer = good.to_vec();
    longer.extend_from_slice(&[0x36, 0x01]);
    assert_eq!(parse_search_response(&longer).unwrap().ip, [10, 0, 0, 1]);
}

#[test]
fn broadcast_edges() {
    assert_eq!(calculate_broadcast([192, 168, 1, 29], 32), [192, 168, 1, 29]);
    assert_eq!(calculate_broadcast([192, 168, 1, 29], 40), [192, 168, 1, 29]);
    assert_eq!(calculate_broadcast([192, 168, 1, 29], 1), [255, 255, 255, 255]);
    assert_eq!(calculate_broadcast([172, 16, 5, 4], 12), [172, 31, 255, 255]);
    assert_eq!(calculate_broadcast([192, 168, 1, 29], 31), [192, 168, 1, 29]);
    assert_eq!(calculate_broadcast([192, 168, 1, 28], 31), [192, 168, 1, 29]);
}

#[test]
fn search_request_writes_only_fourteen_bytes() {
    let mut buf = [0xEEu8; 16];
    let len = build_search_request([0, 0, 0, 0], 3671, &mut buf);
    assert_eq!(len, 14);
    assert_eq!(&buf[12..16], &[0x0e, 0x57, 0xEE, 0xEE]);
}
