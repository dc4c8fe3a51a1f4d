use knx_pico::protocol::constants::SERVICE_CONNECT_REQUEST;
use knx_pico::protocol::frame::Hpai;
use knx_pico::protocol::services::{ConnectRequest, ConnectionHeader, TunnelingAck};

#[test]
fn test_hpai_encode_decode() {
    let hpai = Hpai::new([192, 168, 1, 10], 3671);
    let mut buf = [0u8; 8];
    let len = hpai.encode(&mut buf).unwrap();
    assert_eq!(len, 8);

    let decoded = Hpai::parse(&buf).unwrap();
    assert_eq!(decoded, hpai);
}

#[test]
fn test_connect_request_build() {
    let control = Hpai::new([192, 168, 1, 100], 3671);
    let data = Hpai::new([192, 168, 1, 100], 3671);
    let request = ConnectRequest::new(control, data);

    let mut buf = [0u8; 32];
    let len = request.build(&mut buf).unwrap();

    assert_eq!(len, 26);
    assert_eq!(&buf[0..2], &[0x06, 0x10]); // Header
    assert_eq!(u16::from_be_bytes([buf[2], buf[3]]), SERVICE_CONNECT_REQUEST);
}

#[test]
fn test_connection_header() {
    let header = ConnectionHeader::new(5, 10);
    let mut buf = [0u8; 4];
    let len = header.encode(&mut buf).unwrap();

    assert_eq!(len, 4);

    let decoded = ConnectionHeader::decode(&buf).unwrap();
    assert_eq!(decoded.channel_id, 5);
    assert_eq!(decoded.sequence_counter, 10);
}

#[test]
fn services_test_tunneling_ack() {
    let header = ConnectionHeader::new(3, 15);
    let ack = TunnelingAck::new(header, 0);

    let mut buf = [0u8; 16];
    let len = ack.build(&mut buf).unwrap();

    assert_eq!(len, 11);
    assert!(ack.is_ok());
}
