//! Tests of the wire header codec, the message validity checks, and the
//! sequence number arithmetic.

use bafomet::communication::NodeId;
use bafomet::crypto::{Digest, KeyPair, Signature};
use bafomet::error::ErrorKind;
use bafomet::message::{Header, WireMessage};
use bafomet::ordering::{Either, InvalidSeqNo, SeqNo};

#[test]
fn test_header_serialize() {
    let signature = Signature::from_bytes(&[0; Signature::LENGTH][..])
        .expect("Invalid signature length");
    let (old_header, _) = WireMessage::new(
        NodeId::from(0u32),
        NodeId::from(3u32),
        b"I am a cool payload!",
        0,
        None,
        None,
    )
    .into_inner();
    assert_eq!(&signature, old_header.signature());
    let mut buf = vec![0; Header::LENGTH];
    old_header
        .serialize_into(&mut buf)
        .expect("Serialize failed");
    let new_header = Header::deserialize_from(&buf[..]).expect("Deserialize failed");
    assert_eq!(old_header, new_header);
}

#[test]
fn test_header_serialized_size() {
    let (header, _) =
        WireMessage::new(NodeId::from(1u32), NodeId::from(2u32), b"abc", 7, None, None)
            .into_inner();
    let bytes = header.serialize();
    assert_eq!(bytes.len(), Header::LENGTH);
}

#[test]
fn test_header_deserialize_too_short() {
    let buf = vec![0u8; Header::LENGTH - 1];
    let err = Header::deserialize_from(&buf[..]).unwrap_err();
    assert_eq!(err.kind(), ErrorKind::CommunicationMessage);
}

#[test]
fn test_wire_message_signed_is_valid() {
    let kp = KeyPair::from_bytes(&[7u8; 32][..]).expect("Invalid seed length");
    let pk = kp.public_key();
    let payload = b"hello quorum";
    let digest = {
        let d = ring::digest::digest(&ring::digest::SHA256, payload);
        Digest::from_bytes(d.as_ref()).expect("Invalid digest length")
    };
    let wm = WireMessage::new(
        NodeId::from(0u32),
        NodeId::from(1u32),
        payload,
        42,
        Some(digest),
        Some(&kp),
    );
    assert!(wm.is_valid(None));
    assert!(wm.is_valid(Some(&pk)));

    // a tampered payload no longer matches the digest
    let (header, _) = wm.into_inner();
    let tampered = WireMessage::from_parts(header, b"hello quorum!");
    assert!(tampered.is_err());

    // a signature by another key does not verify
    let other = KeyPair::from_bytes(&[8u8; 32][..]).expect("Invalid seed length");
    let wm2 = WireMessage::new(
        NodeId::from(0u32),
        NodeId::from(1u32),
        payload,
        42,
        Some(digest),
        Some(&other),
    );
    assert!(!wm2.is_valid(Some(&pk)));
}

#[test]
fn test_wire_message_version_check() {
    let payload = b"p";
    let digest = {
        let d = ring::digest::digest(&ring::digest::SHA256, payload);
        Digest::from_bytes(d.as_ref()).expect("Invalid digest length")
    };
    let wm = WireMessage::new(NodeId::from(0u32), NodeId::from(1u32), payload, 0, Some(digest), None);
    let (mut header, _) = wm.into_inner();
    header.version = 1;
    assert!(WireMessage::from_parts(header, payload).is_err());
}

#[test]
fn test_digest_entropy_is_hashing() {
    let zero = Digest::from_bytes(&[0u8; 32][..]).expect("Invalid digest length");
    let mixed = zero.entropy(&7u64.to_le_bytes());
    // the same computation done directly against the hash backend
    let mut input = Vec::new();
    input.extend_from_slice(&[0u8; 32]);
    input.extend_from_slice(&7u64.to_le_bytes());
    let expected = ring::digest::digest(&ring::digest::SHA256, &input);
    assert_eq!(mixed.as_ref(), expected.as_ref());
    assert_ne!(mixed.as_ref(), zero.as_ref());
}

#[test]
fn test_unique_digest_mixes_nonce() {
    let payload = b"same payload";
    let digest = {
        let d = ring::digest::digest(&ring::digest::SHA256, payload);
        Digest::from_bytes(d.as_ref()).expect("Invalid digest length")
    };
    let (h1, _) =
        WireMessage::new(NodeId::from(0u32), NodeId::from(1u32), payload, 1, Some(digest), None)
            .into_inner();
    let (h2, _) =
        WireMessage::new(NodeId::from(0u32), NodeId::from(1u32), payload, 2, Some(digest), None)
            .into_inner();
    assert_ne!(h1.unique_digest(), h2.unique_digest());
}

#[test]
fn test_digest_from_bytes_too_short() {
    let err = Digest::from_bytes(&[0u8; 31][..]).unwrap_err();
    assert_eq!(err.kind(), ErrorKind::CryptoHashRingSha2);
}

#[test]
fn test_signature_from_bytes_too_short() {
    let err = Signature::from_bytes(&[0u8; 63][..]).unwrap_err();
    assert_eq!(err.kind(), ErrorKind::CryptoSignatureRingEd25519);
}

#[test]
fn test_keypair_seed_length() {
    let err = match KeyPair::from_bytes(&[0u8; 16][..]) {
        Ok(_) => panic!("a short seed must be rejected"),
        Err(e) => e,
    };
    assert_eq!(err.kind(), ErrorKind::CryptoSignatureRingEd25519);
}

#[test]
fn test_seqno_next_and_index() {
    let a = SeqNo::from(5u32);
    assert_eq!(a.next(), SeqNo(6));
    // a sequence number is at distance zero from itself
    assert_eq!(a.index(a), Either::Right(0));
    // the successor is at distance one
    assert_eq!(a.next().index(a), Either::Right(1));
    // older messages are dropped as Small
    assert_eq!(a.index(SeqNo(6)), Either::Left(InvalidSeqNo::Small));
    // messages too far ahead are dropped as Big
    assert_eq!(SeqNo(1501).index(SeqNo(0)), Either::Left(InvalidSeqNo::Big));
    assert_eq!(SeqNo(1500).index(SeqNo(0)), Either::Right(1500));
}

#[test]
fn test_seqno_wraps() {
    // next wraps at i32::MAX back to zero
    assert_eq!(SeqNo(i32::MAX).next(), SeqNo(0));
    // and the wrap correction sees the wrapped number as just ahead
    assert_eq!(SeqNo(0).index(SeqNo(i32::MAX)), Either::Right(1));
    assert_eq!(SeqNo(5).index(SeqNo(i32::MAX - 2)), Either::Right(8));
}

#[test]
fn test_error_kinds() {
    let e = bafomet::error::Error::simple(ErrorKind::Log);
    assert_eq!(e.kind(), ErrorKind::Log);
    let e = e.swap_kind(ErrorKind::Communication);
    assert_eq!(e.kind(), ErrorKind::Communication);
    let e = bafomet::error::Error::wrapped(ErrorKind::Cst, "cause");
    assert_eq!(e.kind(), ErrorKind::Cst);
    assert_eq!(e.message(), "cause");
}
