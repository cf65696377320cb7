use signal_stores::{Address, SignalError};

#[test]
fn encode_is_byte_exact() {
    let address = Address::new(b"alice".to_vec(), 1);
    let encoded = address.encode();
    let mut expected = vec![5u8, 0, 0, 0];
    expected.extend_from_slice(b"alice");
    expected.extend_from_slice(&[1u8, 0, 0, 0]);
    assert_eq!(encoded, expected);
}

#[test]
fn encode_decode_round_trip() {
    let address = Address::new(b"bob".to_vec(), -7);
    let encoded = address.encode();
    let decoded = Address::decode(&encoded).unwrap();
    assert!(decoded.matches(&address));
    assert_eq!(decoded.name(), b"bob");
    assert_eq!(decoded.device_id(), -7);
}

#[test]
fn decode_round_trips_empty_name() {
    let address = Address::new(Vec::new(), 0);
    let decoded = Address::decode(&address.encode()).unwrap();
    assert!(decoded.matches(&address));
}

#[test]
fn decode_rejects_malformed_input() {
    // Too short for the prefix and id.
    assert!(matches!(
        Address::decode(&[0u8; 7]),
        Err(SignalError::InvalidKey)
    ));
    // Length prefix does not account for every byte.
    let mut bytes = vec![9u8, 0, 0, 0];
    bytes.extend_from_slice(b"bob");
    bytes.extend_from_slice(&[0u8; 4]);
    assert!(matches!(
        Address::decode(&bytes),
        Err(SignalError::InvalidKey)
    ));
}

#[test]
fn matches_distinguishes_name_and_device() {
    let a = Address::new(b"alice".to_vec(), 1);
    assert!(a.matches(&Address::new(b"alice".to_vec(), 1)));
    assert!(!a.matches(&Address::new(b"alice".to_vec(), 2)));
    assert!(!a.matches(&Address::new(b"alicf".to_vec(), 1)));
}
