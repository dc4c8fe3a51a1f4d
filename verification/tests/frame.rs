use knx_pico::protocol::constants::ServiceType;
use knx_pico::protocol::frame::{FrameBuilder, Hpai, KnxnetIpFrame, KnxnetIpHeader};

#[test]
fn test_header_parse() {
    let data = [
        0x06, // header length
        0x10, // protocol version
        0x02, 0x01, // service type (SEARCH_REQUEST)
        0x00, 0x0E, // total length (14 bytes)
    ];

    let header = KnxnetIpHeader::parse(&data).unwrap();
    assert_eq!(header.header_length, 0x06);
    assert_eq!(header.protocol_version, 0x10);
    assert_eq!(header.service_type, ServiceType::SearchRequest);
    assert_eq!(header.total_length, 14);
    assert_eq!(header.body_length(), 8);
}

#[test]
fn test_header_encode() {
    let header = KnxnetIpHeader::new(ServiceType::SearchRequest, 8);
    let mut buf = [0u8; 6];
    let size = header.encode(&mut buf).unwrap();

    assert_eq!(size, 6);
    assert_eq!(buf[0], 0x06);
    assert_eq!(buf[1], 0x10);
    assert_eq!(buf[2..4], [0x02, 0x01]);
    assert_eq!(buf[4..6], [0x00, 0x0E]);
}

#[test]
fn test_frame_builder() {
    let body = [0x01, 0x02, 0x03, 0x04];
    let builder = FrameBuilder::new(ServiceType::SearchRequest, &body);

    let mut buf = [0u8; 32];
    let size = builder.build(&mut buf).unwrap();

    assert_eq!(size, 10); // 6 (header) + 4 (body)
    assert_eq!(buf[0], 0x06); // header length
    assert_eq!(buf[1], 0x10); // protocol version
    assert_eq!(buf[4..6], [0x00, 0x0A]); // total length = 10
    assert_eq!(&buf[6..10], &body);
}

#[test]
fn test_hpai_parse() {
    let data = [
        0x08, // structure length
        0x01, // IPv4 UDP
        192, 168, 1, 100, // IP address
        0x0E, 0x57, // port 3671
    ];

    let hpai = Hpai::parse(&data).unwrap();
    assert_eq!(hpai.ip_address, [192, 168, 1, 100]);
    assert_eq!(hpai.port, 3671);
}

#[test]
fn test_hpai_encode() {
    let hpai = Hpai::new([192, 168, 1, 100], 3671);
    let mut buf = [0u8; 8];
    let size = hpai.encode(&mut buf).unwrap();

    assert_eq!(size, 8);
    assert_eq!(buf[0], 0x08);
    assert_eq!(buf[1], 0x01);
    assert_eq!(&buf[2..6], &[192, 168, 1, 100]);
    assert_eq!(&buf[6..8], &[0x0E, 0x57]);
}

#[test]
fn test_frame_parse() {
    let data = [
        0x06, 0x10, // header
        0x02, 0x01, // SEARCH_REQUEST
        0x00, 0x0A, // total length = 10
        0x01, 0x02, 0x03, 0x04, // body
    ];

    let frame = KnxnetIpFrame::parse(&data).unwrap();
    assert_eq!(frame.service_type(), ServiceType::SearchRequest);
    assert_eq!(frame.body(), &[0x01, 0x02, 0x03, 0x04]);
}

#[test]
fn frame_total_length_below_header_is_invalid() {
    let data = [0x06, 0x10, 0x02, 0x01, 0x00, 0x02];
    match KnxnetIpFrame::parse(&data) {
        Err(knx_pico::error::KnxError::Protocol(p)) => assert!(p.is_invalid_frame()),
        other => panic!("unexpected {:?}", other.map(|f| f.data().len())),
    }
    // exactly a header: an empty body
    let header_only = [0x06, 0x10, 0x02, 0x01, 0x00, 0x06];
    let frame = KnxnetIpFrame::parse(&header_only).unwrap();
    assert!(frame.body().is_empty());
}
