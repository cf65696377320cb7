use ed25519_dalek::Signer;
use signal_stores::{PrivateKey, PublicKey, SignalError};

fn hex(s: &str) -> Vec<u8> {
    let digits: Vec<u8> = s
        .bytes()
        .map(|b| match b {
            b'0'..=b'9' => b - b'0',
            b'a'..=b'f' => b - b'a' + 10,
            b'A'..=b'F' => b - b'A' + 10,
            _ => panic!("not a hex digit"),
        })
        .collect();
    digits.chunks(2).map(|p| (p[0] << 4) | p[1]).collect()
}

fn public_from_point(point: &[u8]) -> PublicKey {
    let mut encoded = vec![0x05u8];
    encoded.extend_from_slice(point);
    PublicKey::decode_point(&encoded).unwrap()
}

#[test]
fn decode_from_binary() {
    let public = &[
        0x05, 0x1b, 0xb7, 0x59, 0x66, 0xf2, 0xe9, 0x3a, 0x36, 0x91, 0xdf, 0xff, 0x94, 0x2b, 0xb2,
        0xa4, 0x66, 0xa1, 0xc0, 0x8b, 0x8d, 0x78, 0xca, 0x3f, 0x4d, 0x6d, 0xf8, 0xb8, 0xbf, 0xa2,
        0xe4, 0xee, 0x28,
    ];

    let _got = PublicKey::decode_point(public).unwrap();
}

#[test]
fn public_key_serialize_round_trip() {
    let encoded = &[
        0x05, 0x1b, 0xb7, 0x59, 0x66, 0xf2, 0xe9, 0x3a, 0x36, 0x91, 0xdf, 0xff, 0x94, 0x2b, 0xb2,
        0xa4, 0x66, 0xa1, 0xc0, 0x8b, 0x8d, 0x78, 0xca, 0x3f, 0x4d, 0x6d, 0xf8, 0xb8, 0xbf, 0xa2,
        0xe4, 0xee, 0x28,
    ];
    let key = PublicKey::decode_point(encoded).unwrap();
    assert_eq!(key.serialize(), encoded.to_vec());
}

#[test]
fn public_key_decode_rejects_bad_input() {
    // Wrong marker.
    let mut encoded = vec![0x04u8];
    encoded.extend_from_slice(&[0u8; 32]);
    assert!(matches!(
        PublicKey::decode_point(&encoded),
        Err(SignalError::InvalidKey)
    ));
    // Too short, too long, empty.
    assert!(matches!(
        PublicKey::decode_point(&[0x05u8; 32]),
        Err(SignalError::InvalidKey)
    ));
    assert!(matches!(
        PublicKey::decode_point(&[0x05u8; 34]),
        Err(SignalError::InvalidKey)
    ));
    assert!(matches!(
        PublicKey::decode_point(&[]),
        Err(SignalError::InvalidKey)
    ));
}

#[test]
fn private_key_decode_and_serialize() {
    let scalar = [0x42u8; 32];
    let key = PrivateKey::decode_point(&scalar).unwrap();
    assert_eq!(key.serialize(), scalar.to_vec());
    assert!(matches!(
        PrivateKey::decode_point(&[0u8; 31]),
        Err(SignalError::InvalidKey)
    ));
    assert!(matches!(
        PrivateKey::decode_point(&[0u8; 33]),
        Err(SignalError::InvalidKey)
    ));
}

#[test]
fn generate_public_key_known_vector() {
    // Diffie-Hellman test vectors for the curve: scalar, then the public
    // point it derives.
    let alice_private = hex("77076d0a7318a57d3c16c17251b26645df4c2f87ebc0992ab177fba51db92c2a");
    let alice_public = hex("8520f0098930a754748b7ddcb43ef75a0dbf3a0d26381af4eba4a98eaa9b4e6a");
    let private = PrivateKey::decode_point(&alice_private).unwrap();
    let public = private.generate_public_key().unwrap();
    let mut expected = vec![0x05u8];
    expected.extend_from_slice(&alice_public);
    assert_eq!(public.serialize(), expected);
}

#[test]
fn generate_public_key_deterministic() {
    let private = PrivateKey::decode_point(&[0x11u8; 32]).unwrap();
    let first = private.generate_public_key().unwrap();
    let second = private.generate_public_key().unwrap();
    assert_eq!(
        first.partial_cmp(&second),
        Some(std::cmp::Ordering::Equal)
    );
    assert!(first == second);
}

#[test]
fn calculate_agreement_known_vector() {
    let alice_private = hex("77076d0a7318a57d3c16c17251b26645df4c2f87ebc0992ab177fba51db92c2a");
    let bob_public = hex("de9edb7d7b7dc1b4d35b61c2ece435373f8343c85b78674dadfc7e146f882b4f");
    let shared = hex("4a5d9d5ba4ce2de1728e3bf480350f25e07e21c947d19e3376f09b3c1e161742");
    let private = PrivateKey::decode_point(&alice_private).unwrap();
    let public = public_from_point(&bob_public);
    assert_eq!(public.calculate_agreement(&private), Ok(shared));
}

#[test]
fn calculate_agreement_rejects_degenerate_input() {
    // The all-zero point is low order: the computation yields the zero
    // output and the operation must fail rather than return it.
    let private = PrivateKey::decode_point(&[0x42u8; 32]).unwrap();
    let degenerate = public_from_point(&[0u8; 32]);
    assert_eq!(
        degenerate.calculate_agreement(&private),
        Err(SignalError::AgreementFailure)
    );
}

#[test]
fn key_ordering_is_total() {
    let a = public_from_point(&[1u8; 32]);
    let b = public_from_point(&[2u8; 32]);
    let c = public_from_point(&[3u8; 32]);
    assert_eq!(a.partial_cmp(&b), Some(std::cmp::Ordering::Less));
    assert_eq!(b.partial_cmp(&c), Some(std::cmp::Ordering::Less));
    assert_eq!(a.partial_cmp(&c), Some(std::cmp::Ordering::Less));
    assert_eq!(c.partial_cmp(&a), Some(std::cmp::Ordering::Greater));
    assert_eq!(a.partial_cmp(&a), Some(std::cmp::Ordering::Equal));
    assert!(a < b);
    assert!(a != b);
    let a_again = public_from_point(&[1u8; 32]);
    assert!(a == a_again);
}

#[test]
fn private_key_ordering() {
    let a = PrivateKey::decode_point(&[1u8; 32]).unwrap();
    let b = PrivateKey::decode_point(&[2u8; 32]).unwrap();
    assert_eq!(a.partial_cmp(&b), Some(std::cmp::Ordering::Less));
    assert_eq!(a.cmp_keys(&b), std::cmp::Ordering::Less);
    assert!(a == PrivateKey::decode_point(&[1u8; 32]).unwrap());
}

#[test]
fn private_key_as_base64() {
    let key = PrivateKey::decode_point(&[0u8; 32]).unwrap();
    let mut expected = "A".repeat(43);
    expected.push('=');
    assert_eq!(key.as_base64(), Ok(expected));
}

#[test]
fn public_key_as_base64() {
    let key = public_from_point(&[0u8; 32]);
    // 33 bytes: 0x05 then zeros. 0x05 0x00 0x00 -> "BQAA", then 30 zero
    // bytes -> 40 'A's.
    let mut expected = String::from("BQAA");
    expected.push_str(&"A".repeat(40));
    assert_eq!(key.as_base64(), Ok(expected));
}

#[test]
fn verify_signature_three_way_outcome() {
    let signing = ed25519_dalek::SigningKey::from_bytes(&[7u8; 32]);
    let point = signing.verifying_key().to_bytes();
    let key = public_from_point(&point);
    let message = b"store and trust";
    let signature = signing.sign(message).to_bytes();

    assert_eq!(key.verify_signature(message, &signature), Ok(()));

    let mut tampered = signature;
    tampered[0] ^= 0x01;
    assert_eq!(
        key.verify_signature(message, &tampered),
        Err(SignalError::InvalidSignature)
    );

    assert_eq!(
        key.verify_signature(message, &signature[..63]),
        Err(SignalError::UnknownEngineError)
    );
}
