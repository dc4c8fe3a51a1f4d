use knx_pico::error::KnxError;
use knx_pico::protocol::constants::SERVICE_CONNECTIONSTATE_REQUEST;
use knx_pico::protocol::tunnel::TunnelClient;

#[test]
fn test_client_creation() {
    let client = TunnelClient::new([192, 168, 1, 10], 3671);
    assert_eq!(client.gateway_addr(), ([192, 168, 1, 10], 3671));
}

#[test]
fn test_state_transitions() {
    // Create client (Idle)
    let client = TunnelClient::new([192, 168, 1, 10], 3671);

    // Connect (Idle → Connecting)
    let client = client.connect().unwrap();
    let connect_frame = client.frame_data();
    assert!(connect_frame.len() >= 26);
    assert_eq!(connect_frame[0], 0x06);

    // Simulate CONNECT_RESPONSE
    let response_data = [
        0x05, 0x00, // Channel=5, Status=OK
        0x08, 0x01, 192, 168, 1, 10, 0x0E, 0x57, // HPAI
        0x04, 0x04, 0x02, 0x00, // CRD
    ];

    // Handle response (Connecting → Connected)
    let mut client = client.handle_connect_response(&response_data).unwrap();
    assert_eq!(client.channel_id(), 5);
    assert_eq!(client.send_sequence(), 0);
    assert_eq!(client.recv_sequence(), 0);

    // Send data (only possible in Connected state!)
    let cemi_data = &[0x29, 0x00, 0xBC, 0xE0];
    let tunnel_frame = client.send_tunneling_request(cemi_data).unwrap();
    assert!(tunnel_frame.len() > 0);
    assert_eq!(client.send_sequence(), 1); // Incremented

    // Disconnect (Connected → Disconnecting)
    let client = client.disconnect().unwrap();
    let disc_frame = client.frame_data();
    assert!(disc_frame.len() >= 16);

    // Finish (Disconnecting → Idle)
    let client = client.finish(&[0x05, 0x00]).unwrap();

    // Can reconnect!
    let _client = client.connect().unwrap();
}

#[test]
fn test_sequence_wrapping() {
    let client = TunnelClient::new([192, 168, 1, 10], 3671);
    let client = client.connect().unwrap();

    let response = [
        0x03, 0x00, 0x08, 0x01, 192, 168, 1, 10, 0x0E, 0x57, 0x04, 0x04, 0x02, 0x00,
    ];
    let mut client = client.handle_connect_response(&response).unwrap();

    // Manually set sequence to 255
    client.state.send_sequence = 255;

    // Send should wrap to 0
    let _ = client.send_tunneling_request(&[0x29, 0x00]).unwrap();
    assert_eq!(client.send_sequence(), 0);
}

#[test]
fn test_connect_error() {
    let client = TunnelClient::new([192, 168, 1, 10], 3671);
    let client = client.connect().unwrap();

    // Error response
    let error_response = [
        0x00, 0x24, // No channel, error status
        0x08, 0x01, 192, 168, 1, 10, 0x0E, 0x57, 0x04, 0x04, 0x02, 0x00,
    ];

    let result = client.handle_connect_response(&error_response);
    assert!(result.is_err());
    assert!(matches!(result.unwrap_err(), KnxError::Connection(_)));
}

#[test]
fn test_cancel_connection() {
    let client = TunnelClient::new([192, 168, 1, 10], 3671);
    let client = client.connect().unwrap();

    // Cancel and go back to Idle
    let client = client.cancel();

    // Can connect again
    let _client = client.connect().unwrap();
}

#[test]
fn test_tunneling_indication() {
    let client = TunnelClient::new([192, 168, 1, 10], 3671);
    let client = client.connect().unwrap();

    let response = [
        0x03, 0x00, 0x08, 0x01, 192, 168, 1, 10, 0x0E, 0x57, 0x04, 0x04, 0x02, 0x00,
    ];
    let mut client = client.handle_connect_response(&response).unwrap();

    // Receive indication
    let indication_data = [
        0x04, 0x03, 0x00, 0x00, // Header: len=4, channel=3, seq=0, reserved
        0x29, 0x00, 0xBC, 0xE0, // cEMI data
    ];

    let cemi = client
        .handle_tunneling_indication(&indication_data)
        .unwrap();
    assert_eq!(cemi, &[0x29, 0x00, 0xBC, 0xE0]);
    assert_eq!(client.recv_sequence(), 1);
}

#[test]
fn test_sequence_mismatch() {
    let client = TunnelClient::new([192, 168, 1, 10], 3671);
    let client = client.connect().unwrap();

    let response = [
        0x03, 0x00, 0x08, 0x01, 192, 168, 1, 10, 0x0E, 0x57, 0x04, 0x04, 0x02, 0x00,
    ];
    let mut client = client.handle_connect_response(&response).unwrap();

    // Set recv_sequence to 5
    client.state.recv_sequence = 5;

    // Receive indication with wrong sequence
    let indication_data = [
        0x04, 0x03, 0x03, 0x00, // Sequence = 3 (expected 5)
        0x29, 0x00,
    ];

    let result = client.handle_tunneling_indication(&indication_data);
    assert!(result.is_err());
    assert!(matches!(result.unwrap_err(), KnxError::Tunneling(_)));
}

#[test]
fn test_heartbeat() {
    let client = TunnelClient::new([192, 168, 1, 10], 3671);
    let client = client.connect().unwrap();

    let response = [
        0x03, 0x00, 0x08, 0x01, 192, 168, 1, 10, 0x0E, 0x57, 0x04, 0x04, 0x02, 0x00,
    ];
    let mut client = client.handle_connect_response(&response).unwrap();

    // Send heartbeat
    let heartbeat_frame = client.send_heartbeat().unwrap();
    assert!(heartbeat_frame.len() >= 16);
    assert_eq!(
        u16::from_be_bytes([heartbeat_frame[2], heartbeat_frame[3]]),
        SERVICE_CONNECTIONSTATE_REQUEST
    );

    // Handle response
    let hb_response = [0x03, 0x00]; // Channel, Status OK
    let client = client.handle_heartbeat_response(&hb_response).unwrap();

    // Still connected
    assert_eq!(client.channel_id(), 3);
}

#[test]
fn test_heartbeat_failure() {
    let client = TunnelClient::new([192, 168, 1, 10], 3671);
    let client = client.connect().unwrap();

    let response = [
        0x03, 0x00, 0x08, 0x01, 192, 168, 1, 10, 0x0E, 0x57, 0x04, 0x04, 0x02, 0x00,
    ];
    let client = client.handle_connect_response(&response).unwrap();

    // Failed heartbeat
    let hb_response = [0x03, 0x26]; // Error status
    let result = client.handle_heartbeat_response(&hb_response);

    assert!(result.is_err());
    assert!(matches!(result.unwrap_err(), KnxError::Connection(_)));
}

#[test]
fn tunnel_test_tunneling_ack() {
    let client = TunnelClient::new([192, 168, 1, 10], 3671);
    let client = client.connect().unwrap();

    let response = [
        0x05, 0x00, 0x08, 0x01, 192, 168, 1, 10, 0x0E, 0x57, 0x04, 0x04, 0x02, 0x00,
    ];
    let mut client = client.handle_connect_response(&response).unwrap();

    // Build ACK
    let ack_frame = client.build_tunneling_ack(10, 0).unwrap();
    assert!(ack_frame.len() >= 11);

    // Handle ACK
    let ack_data = [
        0x04, 0x05, 0x00, 0x00, // Header
        0x00, // Status OK
    ];
    let result = client.handle_tunneling_ack(&ack_data);
    assert!(result.is_ok());
}

#[test]
fn test_finish_now() {
    let client = TunnelClient::new([192, 168, 1, 10], 3671);
    let client = client.connect().unwrap();

    let response = [
        0x03, 0x00, 0x08, 0x01, 192, 168, 1, 10, 0x0E, 0x57, 0x04, 0x04, 0x02, 0x00,
    ];
    let client = client.handle_connect_response(&response).unwrap();

    // Emergency disconnect
    let client = client.disconnect().unwrap();
    let client = client.finish_now();

    // Back to Idle
    let _client = client.connect().unwrap();
}
