//! BLS, ed25519, sr25519, the Filecoin path, and batch ECDSA.

use bls_signatures::Serialize as _;
use chain_bridge::bls::bls_verify;
use chain_bridge::btc::verify_btc_ecdsa;
use chain_bridge::eddsa::ed25519_verify;
use chain_bridge::error::{BatchError, VerifyError};
use chain_bridge::filecoin::verify_filecoin;
use chain_bridge::schnorr::sr25519_verify;
use chain_bridge::utils::{AssetType, BtcSingleTx, BtcTxMessage};
use libsecp256k1::{sign, Message, PublicKey, SecretKey};
use sha2::Digest;
use sp_core::Pair as _;

#[test]
fn bls_round_trip_and_corruption() {
    let sk = bls_signatures::PrivateKey::new([1u8; 32]);
    let pk = sk.public_key();
    let msg = [9u8; 38];
    let sig = sk.sign(msg);
    let pk_bytes = pk.as_bytes();
    let sig_bytes = sig.as_bytes();
    assert_eq!(bls_verify(&pk_bytes, &msg, &sig_bytes), Ok(()));
    let mut bad_msg = msg;
    bad_msg[0] ^= 0x01;
    assert_eq!(
        bls_verify(&pk_bytes, &bad_msg, &sig_bytes),
        Err(VerifyError::SignatureInvalid)
    );
    assert_eq!(
        bls_verify(&pk_bytes[..47], &msg, &sig_bytes),
        Err(VerifyError::ParseError)
    );
    assert_eq!(
        bls_verify(&pk_bytes, &msg, &sig_bytes[..95]),
        Err(VerifyError::ParseError)
    );
}

#[test]
fn ed25519_round_trip_and_corruption() {
    let pair = sp_core::ed25519::Pair::from_seed_slice(&[2u8; 32]).unwrap();
    let msg = b"an ed25519 message";
    let sig = pair.sign(msg);
    let pk = pair.public();
    assert_eq!(ed25519_verify(pk.as_ref(), msg, sig.as_ref()), Ok(()));
    let mut bad: Vec<u8> = AsRef::<[u8]>::as_ref(&sig).to_vec();
    bad[5] ^= 0x01;
    assert_eq!(
        ed25519_verify(pk.as_ref(), msg, &bad),
        Err(VerifyError::SignatureInvalid)
    );
    assert_eq!(
        ed25519_verify(&AsRef::<[u8]>::as_ref(&pk)[..31], msg, sig.as_ref()),
        Err(VerifyError::ParseError)
    );
    assert_eq!(
        ed25519_verify(pk.as_ref(), msg, &AsRef::<[u8]>::as_ref(&sig)[..63]),
        Err(VerifyError::ParseError)
    );
}

#[test]
fn sr25519_round_trip_and_corruption() {
    let pair = sp_core::sr25519::Pair::from_seed_slice(&[3u8; 32]).unwrap();
    let msg = b"an sr25519 message";
    let sig = pair.sign(msg);
    let pk = pair.public();
    assert_eq!(sr25519_verify(pk.as_ref(), msg, sig.as_ref()), Ok(()));
    let mut bad: Vec<u8> = AsRef::<[u8]>::as_ref(&sig).to_vec();
    bad[5] ^= 0x01;
    assert_eq!(
        sr25519_verify(pk.as_ref(), msg, &bad),
        Err(VerifyError::SignatureInvalid)
    );
    assert_eq!(
        sr25519_verify(&AsRef::<[u8]>::as_ref(&pk)[..31], msg, sig.as_ref()),
        Err(VerifyError::ParseError)
    );
}

#[test]
fn filecoin_ecdsa_round_trip() {
    let sk = SecretKey::parse(&[0x44; 32]).unwrap();
    let pk = PublicKey::from_secret_key(&sk);
    let digest = [0x42u8; 32];
    let (sig, _) = sign(&Message::parse(&digest), &sk);
    let mut raw = b"transaction bytes".to_vec();
    raw.extend_from_slice(&digest);
    assert_eq!(
        verify_filecoin(&pk.serialize(), &raw, &sig.serialize(), "ECDSA"),
        Ok(())
    );
    let mut bad = raw.clone();
    let last = bad.len() - 1;
    bad[last] ^= 0x01;
    assert_eq!(
        verify_filecoin(&pk.serialize(), &bad, &sig.serialize(), "ECDSA"),
        Err(VerifyError::SignatureInvalid)
    );
}

#[test]
fn filecoin_bls_round_trip() {
    let sk = bls_signatures::PrivateKey::new([4u8; 32]);
    let pk = sk.public_key();
    let digest = [0x37u8; 38];
    let sig = sk.sign(digest);
    let mut raw = b"transaction bytes".to_vec();
    raw.extend_from_slice(&digest);
    assert_eq!(
        verify_filecoin(&pk.as_bytes(), &raw, &sig.as_bytes(), "BLS"),
        Ok(())
    );
    let mut bad = raw.clone();
    let last = bad.len() - 1;
    bad[last] ^= 0x01;
    assert_eq!(
        verify_filecoin(&pk.as_bytes(), &bad, &sig.as_bytes(), "BLS"),
        Err(VerifyError::SignatureInvalid)
    );
}

#[test]
fn filecoin_engine_and_length_errors() {
    assert_eq!(
        verify_filecoin(&[0u8; 65], &[1u8; 64], &[0u8; 64], "RSA"),
        Err(VerifyError::UnsupportedEngine)
    );
    assert_eq!(
        verify_filecoin(&[0u8; 65], &[1u8; 32], &[0u8; 64], "ECDSA"),
        Err(VerifyError::DecodeError)
    );
    assert_eq!(
        verify_filecoin(&[0u8; 65], &[1u8; 38], &[0u8; 96], "BLS"),
        Err(VerifyError::DecodeError)
    );
    let sk = SecretKey::parse(&[0x44; 32]).unwrap();
    let pk = PublicKey::from_secret_key(&sk);
    assert_eq!(
        verify_filecoin(&pk.serialize(), &[1u8; 40], &[0u8; 10], "ECDSA"),
        Err(VerifyError::ParseError)
    );
}

fn hex_string(bytes: &[u8]) -> String {
    String::from_utf8(chain_bridge::hex::hex_encode(bytes)).unwrap()
}

#[test]
fn batch_ecdsa_round_trip_and_first_failure() {
    let sk = SecretKey::parse(&[0x55; 32]).unwrap();
    let pk = PublicKey::from_secret_key(&sk);
    let d0: Vec<u8> = sha2::Sha256::digest(b"first").to_vec();
    let d1: Vec<u8> = sha2::Sha256::digest(b"second").to_vec();
    let mut blob = Vec::new();
    for d in [&d0, &d1] {
        let mut m = [0u8; 32];
        m.copy_from_slice(d);
        let (sig, rid) = sign(&Message::parse(&m), &sk);
        blob.extend_from_slice(&sig.serialize());
        blob.push(rid.serialize());
    }
    let batch = BtcTxMessage {
        txs: vec![BtcSingleTx {
            raw_hex: "02".to_string(),
            hash_to_sign: vec![hex_string(&d0), hex_string(&d1)],
            input_values: vec![10, 20],
        }],
        asset: AssetType::Native,
        taproot_data: None,
    };
    let msg = batch.encode();
    assert_eq!(verify_btc_ecdsa(&pk.serialize(), &msg, &blob), Ok(()));

    // Corrupting the second signature reports index 1.
    let mut bad = blob.clone();
    bad[65 + 3] ^= 0x01;
    assert!(matches!(
        verify_btc_ecdsa(&pk.serialize(), &msg, &bad),
        Err(BatchError::Pair { index: 1, .. })
    ));

    // A signature blob at the wrong width fails during disintegration.
    assert_eq!(
        verify_btc_ecdsa(&pk.serialize(), &msg, &blob[..128]),
        Err(BatchError::Disintegrate)
    );

    // A digest that is no 32-byte value is a parse failure at its index.
    let odd_batch = BtcTxMessage {
        txs: vec![BtcSingleTx {
            raw_hex: "02".to_string(),
            hash_to_sign: vec![hex_string(&d0), "aabb".to_string()],
            input_values: vec![10, 20],
        }],
        asset: AssetType::Native,
        taproot_data: None,
    };
    assert_eq!(
        verify_btc_ecdsa(&pk.serialize(), &odd_batch.encode(), &blob),
        Err(BatchError::Pair { index: 1, cause: VerifyError::ParseError })
    );
}
