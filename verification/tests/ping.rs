use mumble_client::errors::MumbleError;
use mumble_client::ping::{low_64_bits, unix_millis_now, PingRequest, PingResponse};

#[test]
fn request_bytes_are_type_then_identity() {
    let request = PingRequest { request_type: 0, identity: 0x0102_0304_0506_0708 };
    assert_eq!(request.to_vec(), vec![0, 0, 0, 0, 1, 2, 3, 4, 5, 6, 7, 8]);
    let request = PingRequest { request_type: 0xA1B2_C3D4, identity: 1 };
    assert_eq!(request.to_vec(), vec![0xA1, 0xB2, 0xC3, 0xD4, 0, 0, 0, 0, 0, 0, 0, 1]);
}

#[test]
fn identity_is_big_endian_at_the_limits() {
    for identity in [0u64, 1, 0xFFFF_FFFF, 0x1_0000_0000, 0x8000_0000_0000_0000, u64::MAX] {
        let sent = PingRequest::with_identity(identity).to_vec();
        assert_eq!(&sent[..4], &[0, 0, 0, 0]);
        assert_eq!(&sent[4..], &identity.to_be_bytes());
        let mut reply = vec![0u8; 24];
        reply[4..12].copy_from_slice(&sent[4..]);
        assert_eq!(PingResponse::from_u8_buffer(&reply).unwrap().identity, identity);
    }
}

#[test]
fn request_with_identity_has_type_zero() {
    assert_eq!(PingRequest::with_identity(77), PingRequest { request_type: 0, identity: 77 });
}

#[test]
fn long_counts_are_cut_to_their_low_bits() {
    assert_eq!(low_64_bits(0), 0);
    assert_eq!(low_64_bits(1_700_000_000_123), 1_700_000_000_123);
    assert_eq!(low_64_bits(u64::MAX as u128), u64::MAX);
    assert_eq!(low_64_bits(1u128 << 64), 0);
    assert_eq!(low_64_bits((1u128 << 64) + 5), 5);
    assert_eq!(low_64_bits(u128::MAX), u64::MAX);
}

#[test]
fn request_is_made_from_a_reading_of_the_clock() {
    assert_eq!(
        PingRequest::from_reading(Some(1_700_000_000_123)),
        Ok(PingRequest { request_type: 0, identity: 1_700_000_000_123 })
    );
    assert_eq!(PingRequest::from_reading(Some(0)), Ok(PingRequest::with_identity(0)));
    assert_eq!(
        PingRequest::from_reading(None),
        Err(MumbleError::new("System clock is set before the Unix epoch"))
    );
}

#[test]
fn new_request_is_stamped_with_the_clock() {
    let before = unix_millis_now().unwrap();
    let request = PingRequest::new().unwrap();
    let after = unix_millis_now().unwrap();
    assert_eq!(request.request_type, 0);
    assert!(before <= request.identity);
    assert!(request.identity <= after);
    // Later than the first of January 2020.
    assert!(request.identity > 1_577_836_800_000);
}

#[test]
fn response_is_read_from_24_bytes() {
    let buffer: Vec<u8> = vec![
        0, 1, 2, 3, // version
        0, 0, 0, 0, 0, 0, 0x30, 0x39, // identity
        0, 0, 0, 5, // connected users
        0, 0, 0, 100, // maximum users
        0, 1, 0x19, 0x40, // allowed bandwidth
    ];
    let response = PingResponse::from_u8_buffer(&buffer).unwrap();
    assert_eq!(
        response,
        PingResponse {
            version: 0x0001_0203,
            identity: 12345,
            connected_users: 5,
            maximum_users: 100,
            allowed_bandwidth: 72000,
        }
    );
}

#[test]
fn response_ignores_what_follows() {
    let mut buffer: Vec<u8> = vec![0xFF; 256];
    buffer[..4].copy_from_slice(&[0, 0, 0, 1]);
    buffer[4..12].copy_from_slice(&u64::MAX.to_be_bytes());
    buffer[12..16].copy_from_slice(&[0, 0, 0, 0]);
    let response = PingResponse::from_u8_buffer(&buffer).unwrap();
    assert_eq!(response.version, 1);
    assert_eq!(response.identity, u64::MAX);
    assert_eq!(response.connected_users, 0);
    assert_eq!(response.maximum_users, u32::MAX);
    assert_eq!(response.allowed_bandwidth, u32::MAX);
}

#[test]
fn short_response_is_refused() {
    assert_eq!(
        PingResponse::from_u8_buffer(&[0u8; 23]),
        Err(MumbleError::new("Ping response was too short"))
    );
    assert_eq!(
        PingResponse::from_u8_buffer(&[]),
        Err(MumbleError::new("Ping response was too short"))
    );
    assert!(PingResponse::from_u8_buffer(&[0u8; 24]).is_ok());
}

#[test]
fn response_echoes_the_identity_of_the_request() {
    let request = PingRequest::with_identity(0xDEAD_BEEF_0102_0304);
    let sent = request.to_vec();
    let mut reply: Vec<u8> = vec![0, 1, 4, 0];
    reply.extend_from_slice(&sent[4..12]);
    reply.extend_from_slice(&[0, 0, 0, 2, 0, 0, 0, 10, 0, 0, 0xFA, 0]);
    let response = PingResponse::from_u8_buffer(&reply).unwrap();
    assert_eq!(response.identity, request.identity);
    assert_eq!(response.connected_users, 2);
    assert_eq!(response.maximum_users, 10);
    assert_eq!(response.allowed_bandwidth, 64000);
}
