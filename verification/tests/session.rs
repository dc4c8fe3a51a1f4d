use knx_pico::error::KnxError;
use knx_pico::protocol::async_tunnel::{flush_should_continue, TunnelSession, MAX_FLUSH_PACKETS};

const CONNECT_RESPONSE: [u8; 20] = [
    0x06, 0x10, 0x02, 0x06, 0x00, 0x14, // header, total length 20
    0x07, 0x00, // channel 7, status OK
    0x08, 0x01, 192, 168, 1, 10, 0x0E, 0x57, // HPAI
    0x04, 0x04, 0x02, 0x00, // CRD
];

fn indication(channel: u8, seq: u8, cemi: &[u8]) -> Vec<u8> {
    let total = 10 + cemi.len();
    let mut v = vec![0x06, 0x10, 0x04, 0x20, (total >> 8) as u8, total as u8];
    v.extend_from_slice(&[0x04, channel, seq, 0x00]);
    v.extend_from_slice(cemi);
    v
}

fn connected_session() -> TunnelSession {
    let mut session = TunnelSession::new([192, 168, 1, 10], 3671);
    let pending = session.begin_connect().unwrap();
    session.complete_connect(pending, &CONNECT_RESPONSE).unwrap();
    session
}

#[test]
fn session_starts_disconnected() {
    let session = TunnelSession::new([192, 168, 1, 10], 3671);
    assert!(!session.is_connected());
    let ep = session.gateway_endpoint();
    assert_eq!(ep.addr.octets(), [192, 168, 1, 10]);
    assert_eq!(ep.port, 3671);
}

#[test]
fn session_connect_request_is_nat_mode() {
    let session = TunnelSession::new([10, 0, 0, 1], 3671);
    let pending = session.begin_connect().unwrap();
    let frame = pending.frame_data();
    assert_eq!(frame.len(), 26);
    assert_eq!(&frame[0..6], &[0x06, 0x10, 0x02, 0x05, 0x00, 0x1A]);
    // both HPAIs are 0.0.0.0:0
    assert_eq!(&frame[6..14], &[0x08, 0x01, 0, 0, 0, 0, 0, 0]);
    assert_eq!(&frame[14..22], &[0x08, 0x01, 0, 0, 0, 0, 0, 0]);
    assert_eq!(&frame[22..26], &[0x04, 0x04, 0x02, 0x00]);
}

#[test]
fn session_connects_on_ok_response() {
    let session = connected_session();
    assert!(session.is_connected());
}

#[test]
fn session_connect_refused_keeps_disconnected() {
    let mut session = TunnelSession::new([192, 168, 1, 10], 3671);
    let pending = session.begin_connect().unwrap();
    let mut response = CONNECT_RESPONSE;
    response[7] = 0x24; // status: no more connections
    let err = session.complete_connect(pending, &response).unwrap_err();
    assert!(matches!(err, KnxError::Connection(_)));
    assert!(!session.is_connected());
}

#[test]
fn session_connect_wrong_service_is_invalid_frame() {
    let mut session = TunnelSession::new([192, 168, 1, 10], 3671);
    let pending = session.begin_connect().unwrap();
    let mut response = CONNECT_RESPONSE;
    response[3] = 0x08; // CONNECTIONSTATE_RESPONSE
    let err = session.complete_connect(pending, &response).unwrap_err();
    match err {
        KnxError::Protocol(p) => assert!(p.is_invalid_frame()),
        other => panic!("unexpected error {:?}", other),
    }
    assert!(!session.is_connected());
}

#[test]
fn session_check_send_limits() {
    let disconnected = TunnelSession::new([192, 168, 1, 10], 3671);
    assert!(matches!(disconnected.check_send(10), Err(KnxError::Connection(_))));
    match disconnected.check_send(513) {
        Err(KnxError::Protocol(p)) => assert!(p.is_invalid_frame()),
        other => panic!("unexpected {:?}", other),
    }
    let session = connected_session();
    assert!(session.check_send(512).is_ok());
    assert!(session.check_send(513).is_err());
}

#[test]
fn session_build_request_advances_sequence() {
    let mut session = connected_session();
    let cemi = [0x11, 0x00, 0xBC, 0xE0, 0x11, 0x01, 0x0A, 0x03, 0x01, 0x00, 0x81];
    let frame = session.build_request(&cemi).unwrap().to_vec();
    assert_eq!(frame.len(), 21);
    assert_eq!(&frame[0..6], &[0x06, 0x10, 0x04, 0x20, 0x00, 0x15]);
    assert_eq!(&frame[6..10], &[0x04, 0x07, 0x00, 0x00]);
    assert_eq!(&frame[10..], &cemi);
    let frame2 = session.build_request(&cemi).unwrap().to_vec();
    assert_eq!(frame2[8], 1);
}

#[test]
fn session_build_request_when_disconnected() {
    let mut session = TunnelSession::new([192, 168, 1, 10], 3671);
    assert!(matches!(session.build_request(&[0x11]), Err(KnxError::Connection(_))));
}

#[test]
fn session_absorb_pending_acks_and_queues() {
    let mut session = connected_session();
    let cemi = [0x29, 0x00, 0xBC, 0xE0, 0x11, 0x01, 0x0A, 0x03, 0x01, 0x00, 0x81];
    let ack = session.absorb_pending(&indication(7, 0, &cemi)).unwrap();
    assert_eq!(ack, [0x06, 0x10, 0x04, 0x21, 0x00, 0x0B, 0x04, 0x07, 0x00, 0x00, 0x00]);
    assert_eq!(session.take_queued().unwrap(), &cemi);
    assert!(session.take_queued().is_none());
}

#[test]
fn session_absorb_pending_ignores_wrong_sequence() {
    let mut session = connected_session();
    assert!(session.absorb_pending(&indication(7, 3, &[0x29, 0x00])).is_none());
    assert!(session.take_queued().is_none());
    // a packet that is no frame at all is ignored too
    assert!(session.absorb_pending(&[0x01, 0x02]).is_none());
}

#[test]
fn session_queue_drops_oldest_when_full() {
    let mut session = connected_session();
    for i in 0..11u8 {
        let ack = session.absorb_pending(&indication(7, i, &[0x29, i])).unwrap();
        assert_eq!(ack[8], i);
    }
    // the first indication was dropped; the other ten are kept in order
    for i in 1..11u8 {
        assert_eq!(session.take_queued().unwrap(), &[0x29, i]);
    }
    assert!(session.take_queued().is_none());
}

#[test]
fn session_queue_skips_oversized_indication() {
    let mut session = connected_session();
    let long = [0x29u8; 65];
    assert!(session.absorb_pending(&indication(7, 0, &long)).is_some());
    assert!(session.take_queued().is_none());
}

#[test]
fn session_handle_received_returns_cemi() {
    let mut session = connected_session();
    let cemi = [0x29, 0x00, 0xBC, 0xE0, 0x11, 0x01, 0x0A, 0x03, 0x01, 0x00, 0x80];
    let (ack, data) = session.handle_received(&indication(7, 0, &cemi)).unwrap();
    assert_eq!(ack[8], 0);
    assert_eq!(data, &cemi);
    // the next expected sequence is 1: a repeat of 0 is ignored
    assert!(session.handle_received(&indication(7, 0, &cemi)).is_none());
    assert!(session.handle_received(&indication(7, 1, &cemi)).is_some());
}

#[test]
fn session_heartbeat_roundtrip() {
    let mut session = connected_session();
    let request = session.heartbeat_request().unwrap().to_vec();
    assert_eq!(request.len(), 16);
    assert_eq!(&request[0..4], &[0x06, 0x10, 0x02, 0x07]);
    assert_eq!(request[6], 7);
    let ok = [0x06, 0x10, 0x02, 0x08, 0x00, 0x08, 0x07, 0x00];
    assert!(session.handle_heartbeat(&ok).is_ok());
    assert!(session.is_connected());
}

#[test]
fn session_heartbeat_failure_disconnects() {
    let mut session = connected_session();
    let bad = [0x06, 0x10, 0x02, 0x08, 0x00, 0x08, 0x07, 0x21];
    match session.handle_heartbeat(&bad) {
        Err(KnxError::Connection(c)) => assert!(c.is_lost()),
        other => panic!("unexpected {:?}", other),
    }
    assert!(!session.is_connected());
}

#[test]
fn session_heartbeat_ignores_other_frames() {
    let mut session = connected_session();
    let other = indication(7, 5, &[0x29]);
    assert!(session.handle_heartbeat(&other).is_ok());
    assert!(session.is_connected());
}

#[test]
fn session_heartbeat_when_disconnected() {
    let mut session = TunnelSession::new([192, 168, 1, 10], 3671);
    assert!(matches!(session.heartbeat_request(), Err(KnxError::Connection(_))));
}

#[test]
fn session_disconnect() {
    let mut session = connected_session();
    let disconnecting = session.begin_disconnect().unwrap().unwrap();
    let frame = disconnecting.frame_data();
    assert_eq!(frame.len(), 16);
    assert_eq!(&frame[0..4], &[0x06, 0x10, 0x02, 0x09]);
    assert_eq!(frame[6], 7);
    assert!(!session.is_connected());
    assert!(session.begin_disconnect().unwrap().is_none());
}

#[test]
fn session_flush_limit() {
    assert!(flush_should_continue(0));
    assert!(flush_should_continue(MAX_FLUSH_PACKETS - 1));
    assert!(!flush_should_continue(MAX_FLUSH_PACKETS));
}

#[test]
fn session_truncated_frames_are_refused() {
    // total length 4 < 6: no body can be taken from such a frame
    let truncated = [0x06, 0x10, 0x04, 0x20, 0x00, 0x04];
    let mut session = connected_session();
    assert!(session.absorb_pending(&truncated).is_none());
    assert!(session.handle_received(&truncated).is_none());
    assert!(session.take_queued().is_none());
    let state = [0x06, 0x10, 0x02, 0x08, 0x00, 0x04];
    match session.handle_heartbeat(&state) {
        Err(KnxError::Protocol(p)) => assert!(p.is_invalid_frame()),
        other => panic!("unexpected {:?}", other),
    }
    assert!(session.is_connected());

    let mut fresh = TunnelSession::new([192, 168, 1, 10], 3671);
    let pending = fresh.begin_connect().unwrap();
    let short = [0x06, 0x10, 0x02, 0x06, 0x00, 0x02];
    match fresh.complete_connect(pending, &short) {
        Err(KnxError::Protocol(p)) => assert!(p.is_invalid_frame()),
        other => panic!("unexpected {:?}", other),
    }
    assert!(!fresh.is_connected());
}
