use knx_pico::error::KnxError;
use knx_pico::net::mock_transport::MockTransport;
use knx_pico::net::{IpEndpoint, Ipv4Addr};

#[test]
fn test_mock_ready_state() {
    let mut mock = MockTransport::new();
    assert!(mock.is_ready());

    mock.set_ready(false);
    assert!(!mock.is_ready());

    mock.close();
    assert!(!mock.is_ready());
}

#[test]
fn mock_send_and_receive() {
    let mut mock = MockTransport::new();
    mock.add_response(vec![0x01, 0x02, 0x03]);
    let dest = IpEndpoint::new(Ipv4Addr::new(192, 168, 1, 10), 3671);
    mock.send_to(&[0xAA, 0xBB], dest).unwrap();
    assert_eq!(mock.sent_packets().len(), 1);
    assert_eq!(mock.sent_packets()[0].0, vec![0xAA, 0xBB]);
    assert_eq!(mock.sent_packets()[0].1, dest);
    assert_eq!(mock.last_sent().unwrap().0, vec![0xAA, 0xBB]);

    let mut buf = [0u8; 10];
    let (n, from) = mock.recv_from(&mut buf).unwrap();
    assert_eq!(n, 3);
    assert_eq!(&buf[..3], &[0x01, 0x02, 0x03]);
    assert_eq!(from, dest);
    assert!(!mock.has_responses());
}

#[test]
fn mock_no_response_is_timeout() {
    let mut mock = MockTransport::new();
    let mut buf = [0u8; 10];
    assert!(matches!(mock.recv_from(&mut buf), Err(KnxError::Timeout)));
}

#[test]
fn mock_fifo_order_and_truncation() {
    let mut mock = MockTransport::new();
    mock.add_response(vec![0x01, 0x11, 0x21]);
    mock.add_response(vec![0x02]);
    let other = IpEndpoint::new(Ipv4Addr::new(10, 0, 0, 1), 1234);
    mock.add_response_from(vec![0x03], other);
    assert_eq!(mock.pending_responses(), 3);

    let mut small = [0u8; 2];
    let (n, _) = mock.recv_from(&mut small).unwrap();
    assert_eq!(n, 2);
    assert_eq!(small, [0x01, 0x11]);

    let mut buf = [0u8; 10];
    let (_, _) = mock.recv_from(&mut buf).unwrap();
    assert_eq!(buf[0], 0x02);
    let (_, from) = mock.recv_from(&mut buf).unwrap();
    assert_eq!(buf[0], 0x03);
    assert_eq!(from, other);
    assert_eq!(mock.pending_responses(), 0);
}

#[test]
fn mock_clearing() {
    let mut mock = MockTransport::new();
    assert!(mock.last_sent().is_none());
    let dest = IpEndpoint::unspecified();
    mock.send_to(&[1], dest).unwrap();
    mock.send_to(&[2], dest).unwrap();
    assert_eq!(mock.last_sent().unwrap().0, vec![2]);
    mock.clear_sent();
    assert_eq!(mock.sent_packets().len(), 0);
    mock.add_response(vec![9]);
    mock.clear_responses();
    assert!(!mock.has_responses());
    mock.add_response(vec![9]);
    mock.close();
    assert!(!mock.has_responses());
    assert!(!MockTransport::default().is_ready());
}

#[test]
fn test_mock_send_receive() {
    let mut mock = MockTransport::new();

    mock.add_response(vec![0x01, 0x02, 0x03]);

    let dest = IpEndpoint::new([192, 168, 1, 10].into(), 3671);
    mock.send_to(&[0xAA, 0xBB], dest).unwrap();

    assert_eq!(mock.sent_packets().len(), 1);
    assert_eq!(mock.sent_packets()[0].0, vec![0xAA, 0xBB]);
    assert_eq!(mock.sent_packets()[0].1, dest);

    let mut buf = [0u8; 10];
    let (n, _) = mock.recv_from(&mut buf).unwrap();
    assert_eq!(n, 3);
    assert_eq!(&buf[..3], &[0x01, 0x02, 0x03]);
}

#[test]
fn test_mock_no_response_returns_error() {
    let mut mock = MockTransport::new();

    let mut buf = [0u8; 10];
    let result = mock.recv_from(&mut buf);

    assert!(result.is_err());
}

#[test]
fn test_mock_fifo_order() {
    let mut mock = MockTransport::new();

    mock.add_response(vec![0x01]);
    mock.add_response(vec![0x02]);
    mock.add_response(vec![0x03]);

    let mut buf = [0u8; 10];

    let (_n, _) = mock.recv_from(&mut buf).unwrap();
    assert_eq!(buf[0], 0x01);

    let (_n, _) = mock.recv_from(&mut buf).unwrap();
    assert_eq!(buf[0], 0x02);

    let (_n, _) = mock.recv_from(&mut buf).unwrap();
    assert_eq!(buf[0], 0x03);
}
