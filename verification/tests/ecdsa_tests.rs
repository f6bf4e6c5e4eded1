//! ECDSA verification, recovery, prefixed message hashing, and the digest
//! selection, against signatures built with the curve library itself.

use chain_bridge::ecdsa::{ecdsa_recover, ecdsa_verify};
use chain_bridge::error::VerifyError;
use chain_bridge::eth::eth_ecdsa_verify;
use chain_bridge::hashing::{keccak_256, sha2_256, sha3_256, Hash256};
use chain_bridge::tron::tron_ecdsa_verify;
use chain_bridge::utils::{to_eth_signed_message_hash, to_tron_signed_message_hash};
use libsecp256k1::{sign, Message, PublicKey, SecretKey};
use sha2::Digest;
use sha3::Digest as _;

fn keypair(seed: u8) -> (SecretKey, PublicKey) {
    let sk = SecretKey::parse(&[seed; 32]).expect("seed below the group order");
    let pk = PublicKey::from_secret_key(&sk);
    (sk, pk)
}

fn sha256(m: &[u8]) -> [u8; 32] {
    let mut out = [0u8; 32];
    out.copy_from_slice(&sha2::Sha256::digest(m));
    out
}

fn sign_digest(digest: &[u8; 32], sk: &SecretKey) -> (Vec<u8>, u8) {
    let (sig, rid) = sign(&Message::parse(digest), sk);
    (sig.serialize().to_vec(), rid.serialize())
}

#[test]
fn ecdsa_round_trip_and_bit_flips() {
    let (sk, pk) = keypair(0x11);
    let msg = b"an ordinary message";
    let digest = sha256(msg);
    let (sig, _) = sign_digest(&digest, &sk);
    let pk_full = pk.serialize().to_vec();
    assert_eq!(ecdsa_verify(&pk_full, msg, &sig, None), Ok(()));
    assert_eq!(
        ecdsa_verify(&pk.serialize_compressed(), msg, &sig, None),
        Ok(())
    );

    // Flipping any single byte of the message, signature or key must fail.
    let mut bad_msg = msg.to_vec();
    for i in 0..bad_msg.len() {
        bad_msg[i] ^= 0x01;
        assert!(ecdsa_verify(&pk_full, &bad_msg, &sig, None).is_err(), "message byte {i}");
        bad_msg[i] ^= 0x01;
    }
    let mut bad_sig = sig.clone();
    for i in 0..bad_sig.len() {
        bad_sig[i] ^= 0x01;
        assert!(ecdsa_verify(&pk_full, msg, &bad_sig, None).is_err(), "signature byte {i}");
        bad_sig[i] ^= 0x01;
    }
    let mut bad_pk = pk_full.clone();
    for i in 0..bad_pk.len() {
        bad_pk[i] ^= 0x01;
        assert!(ecdsa_verify(&bad_pk, msg, &sig, None).is_err(), "key byte {i}");
        bad_pk[i] ^= 0x01;
    }
}

#[test]
fn ecdsa_rejects_malformed_lengths() {
    let (_, pk) = keypair(0x11);
    assert_eq!(
        ecdsa_verify(&pk.serialize(), b"m", &[0u8; 63], None),
        Err(VerifyError::ParseError)
    );
    assert_eq!(
        ecdsa_verify(&[0u8; 17], b"m", &[1u8; 64], None),
        Err(VerifyError::ParseError)
    );
}

#[test]
fn ecdsa_hash_selection() {
    let (sk, pk) = keypair(0x21);
    let msg = b"pick a digest";
    let pk_full = pk.serialize().to_vec();
    let cases: Vec<(Hash256, [u8; 32])> = vec![
        (Hash256::Sha2_256, sha256(msg)),
        (Hash256::Sha3_256, {
            let mut d = [0u8; 32];
            d.copy_from_slice(&sha3::Sha3_256::digest(msg));
            d
        }),
        (Hash256::Keccak256, {
            let mut d = [0u8; 32];
            d.copy_from_slice(&sha3::Keccak256::digest(msg));
            d
        }),
        (Hash256::Blake2256, sp_io::hashing::blake2_256(msg)),
        (Hash256::Twox256, sp_io::hashing::twox_256(msg)),
    ];
    for (h, digest) in cases {
        let (sig, _) = sign_digest(&digest, &sk);
        assert_eq!(ecdsa_verify(&pk_full, msg, &sig, Some(h)), Ok(()), "{h:?}");
        // The same signature must not pass under the default digest.
        if digest != sha256(msg) {
            assert!(ecdsa_verify(&pk_full, msg, &sig, None).is_err(), "{h:?}");
        }
    }
}

#[test]
fn eth_signed_message_hash_of_hello() {
    let got = to_eth_signed_message_hash(b"hello");
    let expected = sha3::Keccak256::digest(b"\x19Ethereum Signed Message:\n5hello");
    assert_eq!(got, expected.to_vec());
}

#[test]
fn tron_signed_message_hash_uses_tron_prefix() {
    let got = to_tron_signed_message_hash(b"hello");
    let expected = sha3::Keccak256::digest(b"\x19TRON Signed Message:\n5hello");
    assert_eq!(got, expected.to_vec());
    assert_ne!(got, to_eth_signed_message_hash(b"hello"));
}

#[test]
fn decimal_length_is_ascii() {
    // A 123-byte message embeds the decimal text "123" after the prefix.
    let msg = vec![7u8; 123];
    let mut preimage = b"\x19Ethereum Signed Message:\n123".to_vec();
    preimage.extend_from_slice(&msg);
    let expected = sha3::Keccak256::digest(&preimage);
    assert_eq!(to_eth_signed_message_hash(&msg), expected.to_vec());
}

#[test]
fn eth_ecdsa_verify_round_trip() {
    let (sk, pk) = keypair(0x31);
    let msg = b"an ethereum message";
    let base = sha256(msg);
    let prefixed = to_eth_signed_message_hash(&base);
    let mut digest = [0u8; 32];
    digest.copy_from_slice(&prefixed);
    let (sig, _) = sign_digest(&digest, &sk);
    assert_eq!(eth_ecdsa_verify(&pk.serialize(), msg, &sig, None), Ok(()));
    // Without the prefix construction the same signature fails.
    assert!(ecdsa_verify(&pk.serialize(), msg, &sig, None).is_err());
}

#[test]
fn tron_ecdsa_verify_round_trip() {
    let (sk, pk) = keypair(0x32);
    let msg = b"a tron message";
    let base = sha256(msg);
    let prefixed = to_tron_signed_message_hash(&base);
    let mut digest = [0u8; 32];
    digest.copy_from_slice(&prefixed);
    let (sig, _) = sign_digest(&digest, &sk);
    assert_eq!(tron_ecdsa_verify(&pk.serialize(), msg, &sig, None), Ok(()));
    assert!(eth_ecdsa_verify(&pk.serialize(), msg, &sig, None).is_err());
}

#[test]
fn recover_returns_compressed_key() {
    let (sk, pk) = keypair(0x41);
    let msg = b"recover me";
    let digest = sha256(msg);
    let (mut sig, rid) = sign_digest(&digest, &sk);
    sig.push(rid);
    assert_eq!(ecdsa_recover(msg, &sig, None), pk.serialize_compressed().to_vec());
}

#[test]
fn recovered_key_verifies_the_signature() {
    // The law stated on ecdsa_recover: a non-empty recovered key verifies
    // the signature's first 64 bytes over the same digest.
    let (sk, _) = keypair(0x43);
    let msg = b"recover then verify";
    let digest = sha256(msg);
    let (mut sig, rid) = sign_digest(&digest, &sk);
    sig.push(rid);
    let recovered = ecdsa_recover(msg, &sig, None);
    assert_eq!(recovered.len(), 33);
    assert_eq!(ecdsa_verify(&recovered, msg, &sig[..64], None), Ok(()));
}

#[test]
fn recover_is_empty_on_failure() {
    let (sk, _) = keypair(0x42);
    let msg = b"recover me";
    let digest = sha256(msg);
    let (mut sig, _) = sign_digest(&digest, &sk);
    sig.push(9);  // no valid recovery id
    assert_eq!(ecdsa_recover(msg, &sig, None), Vec::<u8>::new());
    assert_eq!(ecdsa_recover(msg, &sig[..64], None), Vec::<u8>::new());
    assert_eq!(ecdsa_recover(msg, &[], None), Vec::<u8>::new());
}

#[test]
fn digest_functions_match_reference_values() {
    // Known digests of the empty input.
    assert_eq!(
        sha2_256(b""),
        hex::decode("e3b0c44298fc1c149afbf4c8996fb92427ae41e4649b934ca495991b7852b855").unwrap()
    );
    assert_eq!(
        sha3_256(b""),
        hex::decode("a7ffc6f8bf1ed76651c14756a061d662f580ff4de43b49fa82d80a4b80f8434a").unwrap()
    );
    assert_eq!(
        keccak_256(b""),
        hex::decode("c5d2460186f7233c927e7db2dcc703c0e500b653ca82273b7bfad8045d85a470").unwrap()
    );
    // And agreement with the digest crates on an arbitrary input.
    let m = b"cross-check";
    assert_eq!(sha2_256(m), sha2::Sha256::digest(m).to_vec());
    assert_eq!(sha3_256(m), sha3::Sha3_256::digest(m).to_vec());
    assert_eq!(keccak_256(m), sha3::Keccak256::digest(m).to_vec());
}
