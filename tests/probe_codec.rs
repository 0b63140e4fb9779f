use ed25519_dalek::Signer;
use pineapple::probe::{ProbeError, ProbePacket, PROBE_LEN};

const SECRET: [u8; 32] = [7u8; 32];
const OTHER_SECRET: [u8; 32] = [9u8; 32];

fn public_of(secret: &[u8; 32]) -> [u8; 32] {
    ed25519_dalek::SigningKey::from_bytes(secret).verifying_key().to_bytes()
}

#[test]
fn probe_round_trip() {
    let p = ProbePacket::signed(0x0102030405060708, 4242, &SECRET);
    let bytes = p.to_bytes();
    assert_eq!(bytes.len(), PROBE_LEN);
    let q = ProbePacket::from_bytes(&bytes).unwrap();
    assert_eq!(q.nonce, p.nonce);
    assert_eq!(q.tcp_port, p.tcp_port);
    assert_eq!(q.signature, p.signature);
}

#[test]
fn probe_wire_layout() {
    let p = ProbePacket::signed(0x0102030405060708, 0xABCD, &SECRET);
    let bytes = p.to_bytes();
    assert_eq!(&bytes[0..4], b"PNPL");
    assert_eq!(&bytes[4..12], &[1, 2, 3, 4, 5, 6, 7, 8]);
    assert_eq!(&bytes[12..14], &[0xAB, 0xCD]);
    assert_eq!(&bytes[14..78], p.signature.as_slice());
}

#[test]
fn probe_signature_is_ed25519_over_domain_message() {
    let p = ProbePacket::signed(5, 80, &SECRET);
    let mut message = b"PINEAPPLE_PROBE".to_vec();
    message.extend_from_slice(&5u64.to_be_bytes());
    message.extend_from_slice(&80u16.to_be_bytes());
    let expected = ed25519_dalek::SigningKey::from_bytes(&SECRET).sign(&message).to_bytes();
    assert_eq!(p.signature, expected.to_vec());
}

#[test]
fn probe_verifies_with_matching_key_only() {
    let p = ProbePacket::new(1234, &SECRET);
    assert_eq!(p.tcp_port, 1234);
    assert_eq!(p.verify(&public_of(&SECRET)), Ok(()));
    assert_eq!(p.verify(&public_of(&OTHER_SECRET)), Err(ProbeError::InvalidSignature));
}

#[test]
fn probe_tampered_port_fails_verification() {
    let p = ProbePacket::signed(11, 1000, &SECRET);
    let mut bytes = p.to_bytes();
    bytes[13] ^= 1;
    let q = ProbePacket::from_bytes(&bytes).unwrap();
    assert_eq!(q.tcp_port, 1001);
    assert_eq!(q.verify(&public_of(&SECRET)), Err(ProbeError::InvalidSignature));
}

#[test]
fn probe_of_77_or_79_bytes_is_refused() {
    let p = ProbePacket::signed(1, 2, &SECRET);
    let bytes = p.to_bytes();
    assert_eq!(ProbePacket::from_bytes(&bytes[..77]).unwrap_err(), ProbeError::InvalidLength(77));
    let mut longer = bytes.clone();
    longer.push(0);
    assert_eq!(ProbePacket::from_bytes(&longer).unwrap_err(), ProbeError::InvalidLength(79));
    assert_eq!(ProbePacket::from_bytes(&[]).unwrap_err(), ProbeError::InvalidLength(0));
}

#[test]
fn probe_with_wrong_magic_is_refused() {
    let p = ProbePacket::signed(1, 2, &SECRET);
    let mut bytes = p.to_bytes();
    bytes[3] = b'X';
    assert_eq!(ProbePacket::from_bytes(&bytes).unwrap_err(), ProbeError::InvalidMagic);
}
