//! Tests of the canonical serialization: exact bytes for the primitive
//! encodings, the placeholder tokens, and the reset sign-buffer, checked
//! against independently computed digests.

use sha2::Digest;

use offst::canonical_serialize::CanonicalSerialize;
use offst::crypto::{rand_nonce_from_public_key, token_from_public_key, PublicKey};
use offst::token_channel::calc_channel_reset_token_buffer;
use offst::types::{FriendTcOp, RequestSendFunds};

#[test]
fn test_canonical_serialize_u32() {
    assert_eq!(5u32.canonical_serialize(), vec![0, 0, 0, 5]);
    assert_eq!(0x01020304u32.canonical_serialize(), vec![1, 2, 3, 4]);
}

#[test]
fn test_canonical_serialize_vec_and_option() {
    let v: Vec<u32> = vec![1, 2];
    let mut expected = vec![0, 0, 0, 0, 0, 0, 0, 2];
    expected.extend(vec![0, 0, 0, 1, 0, 0, 0, 2]);
    assert_eq!(v.canonical_serialize(), expected);

    let none: Option<u32> = None;
    assert_eq!(none.canonical_serialize(), vec![0]);
    let some: Option<u32> = Some(7);
    assert_eq!(some.canonical_serialize(), vec![1, 0, 0, 0, 7]);
}

#[test]
fn test_canonical_serialize_op() {
    let pk = PublicKey::from_bytes(vec![3u8; 32]).unwrap();
    let op = FriendTcOp::RequestSendFunds(RequestSendFunds {
        request_id: 1,
        route: vec![pk],
        dest_payment: 2,
    });
    let bytes = op.canonical_serialize();
    // Tag, request id, route length prefix, one key, payment.
    assert_eq!(bytes.len(), 1 + 16 + 8 + 32 + 16);
    assert_eq!(bytes[0], 4);
    assert_eq!(bytes[16], 1); // the id, big-endian
    assert_eq!(bytes[24], 1); // the route length prefix, big-endian
    assert_eq!(bytes[25], 3); // the first key byte
    assert_eq!(bytes[72], 2); // the payment, big-endian
}

#[test]
fn test_genesis_token_and_nonce_follow_the_digest() {
    let pk = PublicKey::from_bytes(vec![9u8; 32]).unwrap();
    // The placeholder token is the key padded with zeros.
    let token = token_from_public_key(&pk);
    assert_eq!(&token.bytes[..32], &pk.bytes[..]);
    assert_eq!(&token.bytes[32..], &[0u8; 32]);
    // The placeholder nonce is the first sixteen bytes of the SHA-512/256
    // digest of the key, computed here independently.
    let nonce = rand_nonce_from_public_key(&pk);
    let digest = sha2::Sha512_256::digest(&pk.bytes);
    assert_eq!(&nonce.bytes[..], &digest[..16]);
}

#[test]
fn test_reset_token_buffer() {
    let token = offst::crypto::Signature::from_bytes(vec![5u8; 64]).unwrap();
    let buffer = calc_channel_reset_token_buffer(&token, -2);
    let digest = sha2::Sha512_256::digest(b"RESET");
    assert_eq!(&buffer[..32], &digest[..]);
    assert_eq!(&buffer[32..96], &[5u8; 64][..]);
    // The balance, big-endian two's complement.
    let mut expected = vec![0xffu8; 16];
    expected[15] = 0xfe;
    assert_eq!(&buffer[96..], &expected[..]);
}
