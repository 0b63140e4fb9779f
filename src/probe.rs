//! The authenticated UDP probe: `"PNPL"` ‖ nonce (8, big-endian) ‖ TCP port
//! (2, big-endian) ‖ Ed25519 signature (64), 78 bytes in all. The signature
//! covers `"PINEAPPLE_PROBE"` ‖ nonce ‖ TCP port, not the wire bytes.
use vstd::prelude::*;
use crate::bytes::{be16, be16_bytes, be64_at, be64_bytes, push_all, push_be16, push_be64,
    read_be16, read_be64, lemma_be16_round_trip, lemma_be64_round_trip};
use ed25519_dalek::{Signer, Verifier};

verus! {

/// Length of a probe on the wire.
pub const PROBE_LEN: usize = 78;

/// Length of an Ed25519 signature.
pub const SIGNATURE_LEN: usize = 64;

/// The four marker bytes that open every probe: `"PNPL"`.
pub open spec fn probe_magic() -> Seq<u8> {
    seq![0x50u8, 0x4eu8, 0x50u8, 0x4cu8]
}

/// The domain-separation prefix of the signed message: `"PINEAPPLE_PROBE"`.
pub open spec fn probe_domain() -> Seq<u8> {
    seq![
        0x50u8, 0x49u8, 0x4eu8, 0x45u8, 0x41u8, 0x50u8, 0x50u8, 0x4cu8,
        0x45u8, 0x5fu8, 0x50u8, 0x52u8, 0x4fu8, 0x42u8, 0x45u8,
    ]
}

/// The bytes that a probe's signature covers.
pub open spec fn signed_message(nonce: u64, tcp_port: u16) -> Seq<u8> {
    probe_domain() + be64_bytes(nonce) + be16_bytes(tcp_port)
}

/// The wire form of a probe.
pub open spec fn probe_wire(nonce: u64, tcp_port: u16, signature: Seq<u8>) -> Seq<u8> {
    probe_magic() + be64_bytes(nonce) + be16_bytes(tcp_port) + signature
}

/// Why a datagram is not a probe.
pub open spec fn probe_defect(data: Seq<u8>) -> Option<ProbeError> {
    if data.len() != PROBE_LEN {
        Some(ProbeError::InvalidLength(data.len() as usize))
    } else if data.subrange(0, 4) != probe_magic() {
        Some(ProbeError::InvalidMagic)
    } else {
        None
    }
}

/// The nonce, TCP port and signature that a datagram carries, if it is a
/// probe.
pub open spec fn parse_probe(data: Seq<u8>) -> Option<(u64, u16, Seq<u8>)> {
    if probe_defect(data) is Some {
        None
    } else {
        Some((be64_at(data, 4), be16(data[12], data[13]), data.subrange(14, 78)))
    }
}

/// The ed25519 verifying key that belongs to a 32-byte secret key.
pub uninterp spec fn ed25519_public_key(secret: Seq<u8>) -> Seq<u8>;

/// The ed25519 signature of `message` under a 32-byte secret key.
pub uninterp spec fn ed25519_signature(secret: Seq<u8>, message: Seq<u8>) -> Seq<u8>;

/// Whether ed25519 verification of `signature` over `message` succeeds with
/// the 32-byte verifying key `public`.
pub uninterp spec fn ed25519_accepts(public: Seq<u8>, message: Seq<u8>, signature: Seq<u8>) -> bool;

/// Relies on `ed25519_dalek::SigningKey::verifying_key`: the verifying key of a
/// secret key, a function of the secret alone.
#[verifier::external_body]
pub(crate) fn verifying_key_bytes(secret: &[u8; 32]) -> (r: [u8; 32])
    ensures
        r@ == ed25519_public_key(secret@),
{
    ed25519_dalek::SigningKey::from_bytes(secret).verifying_key().to_bytes()
}

/// Relies on `ed25519_dalek::SigningKey::sign` (RFC 8032 signing, deterministic):
/// a 64-byte signature that the matching verifying key accepts.
#[verifier::external_body]
fn sign_bytes(secret: &[u8; 32], message: &[u8]) -> (r: Vec<u8>)
    ensures
        r@ == ed25519_signature(secret@, message@),
        r@.len() == SIGNATURE_LEN,
        ed25519_accepts(ed25519_public_key(secret@), message@, r@),
{
    ed25519_dalek::SigningKey::from_bytes(secret).sign(message).to_bytes().to_vec()
}

/// Relies on `ed25519_dalek::VerifyingKey::verify`: whether the signature over
/// the message is valid under the key (a key that is not a curve point is
/// refused by `VerifyingKey::from_bytes`).
#[verifier::external_body]
fn verify_bytes(public: &[u8; 32], message: &[u8], signature: &[u8]) -> (r: bool)
    requires
        signature@.len() == SIGNATURE_LEN,
    ensures
        r == ed25519_accepts(public@, message@, signature@),
{
    let sig_bytes: [u8; 64] = signature.try_into().unwrap();
    let sig = ed25519_dalek::Signature::from_bytes(&sig_bytes);
    match ed25519_dalek::VerifyingKey::from_bytes(public) {
        Ok(key) => key.verify(message, &sig).is_ok(),
        Err(_) => false,
    }
}

/// Why a datagram was refused as a probe, or a probe as authentic.
#[derive(Debug, Clone, Copy, PartialEq, Eq, Structural)]
pub enum ProbeError {
    /// The datagram is not 78 bytes long; carries the length seen.
    InvalidLength(usize),
    /// The datagram does not start with `"PNPL"`.
    InvalidMagic,
    /// The signature does not verify under the given key.
    InvalidSignature,
}

/// A hole-punching probe: a nonce, the TCP port the sender will use for the
/// simultaneous open, and a signature over both.
#[derive(Debug, Clone)]
pub struct ProbePacket {
    pub nonce: u64,
    pub tcp_port: u16,
    pub signature: Vec<u8>,
}

impl ProbePacket {
    /// The signature has the Ed25519 length.
    pub open spec fn wf(&self) -> bool {
        self.signature@.len() == SIGNATURE_LEN
    }

    /// Signs `tcp_port` under a fresh random nonce.
    pub fn new(tcp_port: u16, signing_key: &[u8; 32]) -> (r: ProbePacket)
        ensures
            r.wf(),
            r.tcp_port == tcp_port,
            r.signature@ == ed25519_signature(signing_key@, signed_message(r.nonce, tcp_port)),
            ed25519_accepts(
                ed25519_public_key(signing_key@),
                signed_message(r.nonce, tcp_port),
                r.signature@,
            ),
    {
        let nonce = rand::random::<u64>();
        ProbePacket::signed(nonce, tcp_port, signing_key)
    }

    /// Signs `tcp_port` under the given nonce.
    pub fn signed(nonce: u64, tcp_port: u16, signing_key: &[u8; 32]) -> (r: ProbePacket)
        ensures
            r.wf(),
            r.nonce == nonce,
            r.tcp_port == tcp_port,
            r.signature@ == ed25519_signature(signing_key@, signed_message(nonce, tcp_port)),
            ed25519_accepts(
                ed25519_public_key(signing_key@),
                signed_message(nonce, tcp_port),
                r.signature@,
            ),
    {
        let message = ProbePacket::message_to_sign(nonce, tcp_port);
        let signature = sign_bytes(signing_key, message.as_slice());
        ProbePacket { nonce, tcp_port, signature }
    }

    /// Checks the signature against `verifying_key`; a signature of the
    /// wrong length never verifies.
    pub fn verify(&self, verifying_key: &[u8; 32]) -> (r: Result<(), ProbeError>)
        ensures
            r is Ok <==> self.wf() && ed25519_accepts(
                verifying_key@,
                signed_message(self.nonce, self.tcp_port),
                self.signature@,
            ),
            r is Err ==> r == Err::<(), ProbeError>(ProbeError::InvalidSignature),
    {
        if self.signature.len() != SIGNATURE_LEN {
            return Err(ProbeError::InvalidSignature);
        }
        let message = ProbePacket::message_to_sign(self.nonce, self.tcp_port);
        if verify_bytes(verifying_key, message.as_slice(), self.signature.as_slice()) {
            Ok(())
        } else {
            Err(ProbeError::InvalidSignature)
        }
    }

    /// The 78-byte wire form.
    pub fn to_bytes(&self) -> (r: Vec<u8>)
        ensures
            r@ == probe_wire(self.nonce, self.tcp_port, self.signature@),
    {
        let mut bytes: Vec<u8> = vec![0x50u8, 0x4eu8, 0x50u8, 0x4cu8];
        assert(bytes@ =~= probe_magic());
        push_be64(&mut bytes, self.nonce);
        push_be16(&mut bytes, self.tcp_port);
        push_all(&mut bytes, self.signature.as_slice());
        bytes
    }

    /// Reads a probe from a datagram: exactly 78 bytes opening with `"PNPL"`.
    pub fn from_bytes(data: &[u8]) -> (r: Result<ProbePacket, ProbeError>)
        ensures
            match probe_defect(data@) {
                Some(e) => r == Err::<ProbePacket, ProbeError>(e),
                None => r is Ok && parse_probe(data@) == Some(
                    (r->Ok_0.nonce, r->Ok_0.tcp_port, r->Ok_0.signature@),
                ) && data@ == probe_wire(r->Ok_0.nonce, r->Ok_0.tcp_port, r->Ok_0.signature@)
                    && r->Ok_0.wf(),
            },
    {
        if data.len() != PROBE_LEN {
            return Err(ProbeError::InvalidLength(data.len()));
        }
        if !(data[0] == 0x50u8 && data[1] == 0x4eu8 && data[2] == 0x50u8 && data[3] == 0x4cu8) {
            assert(data@.subrange(0, 4) != probe_magic()) by {
                if data@.subrange(0, 4) == probe_magic() {
                    assert(data@.subrange(0, 4)[0] == data@[0]);
                    assert(data@.subrange(0, 4)[1] == data@[1]);
                    assert(data@.subrange(0, 4)[2] == data@[2]);
                    assert(data@.subrange(0, 4)[3] == data@[3]);
                }
            }
            return Err(ProbeError::InvalidMagic);
        }
        assert(data@.subrange(0, 4) =~= probe_magic());
        let nonce = read_be64(data, 4);
        let tcp_port = read_be16(data, 12);
        let mut signature: Vec<u8> = Vec::new();
        push_all(&mut signature, vstd::slice::slice_subrange(data, 14, 78));
        let r = ProbePacket { nonce, tcp_port, signature };
        proof {
            lemma_wire_of_fields(data@, nonce, tcp_port);
        }
        Ok(r)
    }

    /// `"PINEAPPLE_PROBE"` ‖ nonce ‖ TCP port, the bytes that are signed.
    fn message_to_sign(nonce: u64, tcp_port: u16) -> (r: Vec<u8>)
        ensures
            r@ == signed_message(nonce, tcp_port),
    {
        let mut message: Vec<u8> = vec![
            0x50u8, 0x49u8, 0x4eu8, 0x45u8, 0x41u8, 0x50u8, 0x50u8, 0x4cu8,
            0x45u8, 0x5fu8, 0x50u8, 0x52u8, 0x4fu8, 0x42u8, 0x45u8,
        ];
        assert(message@ =~= probe_domain());
        push_be64(&mut message, nonce);
        push_be16(&mut message, tcp_port);
        message
    }
}

/// A 78-byte datagram that opens with the marker is the wire form of the
/// fields read from it.
proof fn lemma_wire_of_fields(data: Seq<u8>, nonce: u64, tcp_port: u16)
    requires
        data.len() == PROBE_LEN,
        data.subrange(0, 4) == probe_magic(),
        nonce == be64_at(data, 4),
        tcp_port == be16(data[12], data[13]),
    ensures
        data == probe_wire(nonce, tcp_port, data.subrange(14, 78)),
{
    let w = probe_wire(nonce, tcp_port, data.subrange(14, 78));
    let d = data;
    let n0 = d[4]; let n1 = d[5]; let n2 = d[6]; let n3 = d[7];
    let n4 = d[8]; let n5 = d[9]; let n6 = d[10]; let n7 = d[11];
    assert((nonce >> 56u64) as u8 == n0 && (nonce >> 48u64) as u8 == n1 && (nonce >> 40u64) as u8
        == n2 && (nonce >> 32u64) as u8 == n3 && (nonce >> 24u64) as u8 == n4 && (nonce
        >> 16u64) as u8 == n5 && (nonce >> 8u64) as u8 == n6 && nonce as u8 == n7) by (bit_vector)
        requires
            nonce == ((n0 as u64) << 56u64) | ((n1 as u64) << 48u64) | ((n2 as u64) << 40u64)
                | ((n3 as u64) << 32u64) | ((n4 as u64) << 24u64) | ((n5 as u64) << 16u64) | ((
            n6 as u64) << 8u64) | (n7 as u64),
    ;
    let hi = d[12];
    let lo = d[13];
    assert(((tcp_port >> 8u16) as u8) == hi && (tcp_port as u8) == lo) by (bit_vector)
        requires
            tcp_port == ((hi as u16) << 8u16) | (lo as u16),
    ;
    assert forall|i: int| 0 <= i < 78 implies #[trigger] w[i] == d[i] by {
        if i < 4 {
            assert(d.subrange(0, 4)[i] == d[i]);
        }
    }
    assert(w =~= d);
}

/// Reading the wire form of a probe gives back the same nonce, port and
/// signature: `from_bytes(to_bytes(p))` is `p`.
pub proof fn lemma_probe_round_trip(nonce: u64, tcp_port: u16, signature: Seq<u8>)
    requires
        signature.len() == SIGNATURE_LEN,
    ensures
        parse_probe(probe_wire(nonce, tcp_port, signature)) == Some((nonce, tcp_port, signature)),
{
    let w = probe_wire(nonce, tcp_port, signature);
    assert(w.subrange(0, 4) =~= probe_magic());
    assert(w.subrange(4, 12) =~= be64_bytes(nonce));
    lemma_be64_round_trip(nonce, w, 4);
    lemma_be16_round_trip(tcp_port);
    assert(w[12] == be16_bytes(tcp_port)[0] && w[13] == be16_bytes(tcp_port)[1]);
    assert(w.subrange(14, 78) =~= signature);
}

} // verus!
