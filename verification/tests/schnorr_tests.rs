//! The BIP-340 style Schnorr verifier, the bespoke secp256k1 scheme, and
//! the end-to-end batch path, against signatures constructed from the curve
//! primitives.

use chain_bridge::error::{BatchError, VerifyError};
use chain_bridge::schnorr::{
    bitcoin_sha256_tagged, btc_schnorr_verify, load_xonly_pubkey, sr_secp256k1_verify,
    verify_btc_schnorr,
};
use chain_bridge::utils::{AssetType, BtcSingleTx, BtcTxMessage};
use libsecp256k1::curve::Scalar;
use libsecp256k1::{PublicKey, SecretKey};
use sha2::{Digest, Sha256};

fn scalar_from(bytes: &[u8; 32]) -> Scalar {
    let mut s = Scalar::default();
    let _ = s.set_b32(bytes);
    s
}

/// A secret scalar whose public point has even y, with that point.
fn even_keypair(seed: u8) -> (Scalar, PublicKey) {
    let sk = SecretKey::parse(&[seed; 32]).expect("seed below the group order");
    let pk = PublicKey::from_secret_key(&sk);
    if pk.serialize_compressed()[0] == 2 {
        (sk.into(), pk)
    } else {
        let neg: Scalar = -Into::<Scalar>::into(sk);
        let sk2 = SecretKey::try_from(neg).expect("negation is non-zero");
        (neg, PublicKey::from_secret_key(&sk2))
    }
}

/// A secret scalar whose public point has odd y, with that point.
fn odd_keypair(seed: u8) -> (Scalar, PublicKey) {
    let sk = SecretKey::parse(&[seed; 32]).expect("seed below the group order");
    let pk = PublicKey::from_secret_key(&sk);
    if pk.serialize_compressed()[0] == 3 {
        (sk.into(), pk)
    } else {
        let neg: Scalar = -Into::<Scalar>::into(sk);
        let sk2 = SecretKey::try_from(neg).expect("negation is non-zero");
        (neg, PublicKey::from_secret_key(&sk2))
    }
}

fn x_of(pk: &PublicKey) -> [u8; 32] {
    let mut x = [0u8; 32];
    x.copy_from_slice(&pk.serialize_compressed()[1..33]);
    x
}

fn challenge(rx: &[u8], px: &[u8], m: &[u8]) -> Scalar {
    let tag = Sha256::digest(b"BIP0340/challenge");
    let mut h = Sha256::new();
    h.update(tag);
    h.update(tag);
    h.update(rx);
    h.update(px);
    h.update(m);
    let mut e = [0u8; 32];
    e.copy_from_slice(&h.finalize());
    scalar_from(&e)
}

/// Build a valid BIP-340 style signature over `m`: both the key point and
/// the nonce point are taken with even y.
fn schnorr_sign(d_seed: u8, k_seed: u8, m: &[u8]) -> ([u8; 32], Vec<u8>) {
    let (d, p) = even_keypair(d_seed);
    let (k, r) = even_keypair(k_seed);
    let px = x_of(&p);
    let rx = x_of(&r);
    let e = challenge(&rx, &px, m);
    let s = k + e * d;
    let mut sig = rx.to_vec();
    sig.extend_from_slice(&s.b32());
    (px, sig)
}

#[test]
fn schnorr_accepts_constructed_signature() {
    let m = Sha256::digest(b"schnorr message").to_vec();
    let (px, sig) = schnorr_sign(0x51, 0x52, &m);
    assert_eq!(btc_schnorr_verify(&px, &m, &sig), Ok(()));
}

#[test]
fn schnorr_rejects_bit_flips() {
    let m = Sha256::digest(b"schnorr message").to_vec();
    let (px, sig) = schnorr_sign(0x53, 0x54, &m);
    let mut bad = sig.clone();
    for i in 0..bad.len() {
        bad[i] ^= 0x01;
        assert!(btc_schnorr_verify(&px, &m, &bad).is_err(), "signature byte {i}");
        bad[i] ^= 0x01;
    }
    let mut bad_m = m.clone();
    bad_m[0] ^= 0x01;
    assert!(btc_schnorr_verify(&px, &bad_m, &sig).is_err());
}

#[test]
fn schnorr_rejects_odd_y_nonce_point() {
    // A signature whose recomputed point R' is the nonce point with odd y:
    // the scalar equation holds, but the even-y convention must reject it.
    let m = Sha256::digest(b"odd nonce").to_vec();
    let (d, p) = even_keypair(0x55);
    let (k, r) = odd_keypair(0x56);
    let px = x_of(&p);
    let rx = x_of(&r);
    let e = challenge(&rx, &px, &m);
    let s = k + e * d;
    let mut sig = rx.to_vec();
    sig.extend_from_slice(&s.b32());
    assert_eq!(btc_schnorr_verify(&px, &m, &sig), Err(VerifyError::SignatureInvalid));
}

#[test]
fn schnorr_reproduces_published_test_vector() {
    // The all-zero message signed under the secret key 3 with all-zero
    // auxiliary randomness, from the BIP-340 reference vectors.
    let px = hex::decode("F9308A019258C31049344F85F89D5229B531C845836F99B08601F113BCE036F9")
        .unwrap();
    let msg = [0u8; 32];
    let sig = hex::decode(
        "E907831F80848D1069A5371B402410364BDF1C5F8307B0084C55F1CE2DCA8215\
         25F66A4A85EA8B71E482A74F382D2CE5EBEEE8FDB2172F477DF4900D310536C0",
    )
    .unwrap();
    assert_eq!(btc_schnorr_verify(&px, &msg, &sig), Ok(()));
    let mut bad = sig.clone();
    bad[63] ^= 0x01;
    assert!(btc_schnorr_verify(&px, &msg, &bad).is_err());
}

#[test]
fn schnorr_rejects_malformed_parts() {
    let m = [0u8; 32];
    let (px, sig) = schnorr_sign(0x57, 0x58, &m);
    assert_eq!(btc_schnorr_verify(&px, &m, &sig[..63]), Err(VerifyError::ParseError));
    assert_eq!(btc_schnorr_verify(&px[..31], &m, &sig), Err(VerifyError::ParseError));
    // An s value at the group order does not parse as a scalar.
    let order = hex::decode("FFFFFFFFFFFFFFFFFFFFFFFFFFFFFFFEBAAEDCE6AF48A03BBFD25E8CD0364141")
        .unwrap();
    let mut bad = sig[..32].to_vec();
    bad.extend_from_slice(&order);
    assert_eq!(btc_schnorr_verify(&px, &m, &bad), Err(VerifyError::ParseError));
}

#[test]
fn xonly_key_loading() {
    let (_, p) = even_keypair(0x59);
    assert!(load_xonly_pubkey(&x_of(&p)).is_ok());
    assert!(load_xonly_pubkey(&[0u8; 31]).is_err());
    // An x coordinate with no point on the curve is rejected; the field
    // prime minus one is such a value.
    let bad = hex::decode("FFFFFFFFFFFFFFFFFFFFFFFFFFFFFFFFFFFFFFFFFFFFFFFFFFFFFFFEFFFFFC2E")
        .unwrap();
    assert!(load_xonly_pubkey(&bad).is_err());
}

#[test]
fn tagged_challenge_matches_reference() {
    // The public challenge helper equals the tagged hash reduced into the
    // scalar field, computed here with the curve library directly.
    let rx = [0x11u8; 32];
    let px = [0x22u8; 32];
    let m = b"tagged challenge input";
    let got = bitcoin_sha256_tagged(&rx, &px, m);
    let expected = challenge(&rx, &px, m).b32().to_vec();
    assert_eq!(got, expected);
}

// ---------------------------------------------------------------------------
// The bespoke scheme.
// ---------------------------------------------------------------------------

/// Build a valid bespoke-scheme signature: r = e·d + k over the challenge
/// e = SHA-256(V ‖ P ‖ m).
fn sr_sign(d_seed: u8, k_seed: u8, m: &[u8]) -> (Vec<u8>, Vec<u8>) {
    let d_sk = SecretKey::parse(&[d_seed; 32]).unwrap();
    let k_sk = SecretKey::parse(&[k_seed; 32]).unwrap();
    let p = PublicKey::from_secret_key(&d_sk);
    let v = PublicKey::from_secret_key(&k_sk);
    let mut h = Sha256::new();
    h.update(v.serialize_compressed());
    h.update(p.serialize_compressed());
    h.update(m);
    let mut e_bytes = [0u8; 32];
    e_bytes.copy_from_slice(&h.finalize());
    let e = scalar_from(&e_bytes);
    let r = e * Into::<Scalar>::into(d_sk) + Into::<Scalar>::into(k_sk);
    let mut sig = r.b32().to_vec();
    sig.extend_from_slice(&v.serialize_compressed());
    (p.serialize().to_vec(), sig)
}

#[test]
fn sr_scheme_accepts_constructed_signature() {
    let m = b"bespoke scheme message";
    let (pk, sig) = sr_sign(0x61, 0x62, m);
    assert_eq!(sr_secp256k1_verify(&pk, m, &sig), Ok(()));
}

#[test]
fn sr_scheme_rejects_corruption_and_lengths() {
    let m = b"bespoke scheme message";
    let (pk, sig) = sr_sign(0x63, 0x64, m);
    let mut bad = sig.clone();
    bad[0] ^= 0x01;
    assert!(sr_secp256k1_verify(&pk, m, &bad).is_err());
    assert_eq!(sr_secp256k1_verify(&pk, m, &sig[..64]), Err(VerifyError::ParseError));
    assert_eq!(sr_secp256k1_verify(&pk[..64], m, &sig), Err(VerifyError::ParseError));
    assert!(sr_secp256k1_verify(&pk, b"another message", &sig).is_err());
}

#[test]
fn sr_scheme_differs_from_schnorr() {
    // A signature of one scheme does not pass the other: the two paths are
    // independent.
    let m = Sha256::digest(b"cross scheme").to_vec();
    let (px, schnorr_sig) = schnorr_sign(0x65, 0x66, &m);
    assert!(sr_secp256k1_verify(&px, &m, &schnorr_sig).is_err());
}

// ---------------------------------------------------------------------------
// End-to-end batch verification.
// ---------------------------------------------------------------------------

fn hex_string(bytes: &[u8]) -> String {
    String::from_utf8(chain_bridge::hex::hex_encode(bytes)).unwrap()
}

#[test]
fn end_to_end_native_batch_verifies() {
    let h = Sha256::digest(b"single input digest").to_vec();
    let (px, sig) = schnorr_sign(0x71, 0x72, &h);
    let batch = BtcTxMessage {
        txs: vec![BtcSingleTx {
            raw_hex: "0200".to_string(),
            hash_to_sign: vec![hex_string(&h)],
            input_values: vec![1000],
        }],
        asset: AssetType::Native,
        taproot_data: None,
    };
    let msg = batch.encode();
    assert_eq!(verify_btc_schnorr(&px, &msg, &sig), Ok(()));

    // A 33-byte key is normalized to its x coordinate.
    let mut compressed = vec![2u8];
    compressed.extend_from_slice(&px);
    assert_eq!(verify_btc_schnorr(&compressed, &msg, &sig), Ok(()));
}

#[test]
fn end_to_end_corruption_fails() {
    let h = Sha256::digest(b"single input digest").to_vec();
    let (px, sig) = schnorr_sign(0x73, 0x74, &h);
    let mut bad_h = h.clone();
    bad_h[7] ^= 0x01;
    let make = |digest: &[u8]| BtcTxMessage {
        txs: vec![BtcSingleTx {
            raw_hex: "0200".to_string(),
            hash_to_sign: vec![hex_string(digest)],
            input_values: vec![1000],
        }],
        asset: AssetType::Native,
        taproot_data: None,
    };
    assert_eq!(verify_btc_schnorr(&px, &make(&h).encode(), &sig), Ok(()));
    assert_eq!(
        verify_btc_schnorr(&px, &make(&bad_h).encode(), &sig),
        Err(BatchError::Pair { index: 0, cause: VerifyError::SignatureInvalid })
    );
    let mut bad_sig = sig.clone();
    bad_sig[40] ^= 0x01;
    assert!(matches!(
        verify_btc_schnorr(&px, &make(&h).encode(), &bad_sig),
        Err(BatchError::Pair { index: 0, .. })
    ));
}

#[test]
fn end_to_end_batch_reports_first_failing_index() {
    let h0 = Sha256::digest(b"first digest").to_vec();
    let h1 = Sha256::digest(b"second digest").to_vec();
    let (px, sig0) = schnorr_sign(0x75, 0x76, &h0);
    // Sign the second digest under the same key but a different nonce.
    let (_, sig1) = {
        let (d, p) = even_keypair(0x75);
        let (k, r) = even_keypair(0x77);
        let e = challenge(&x_of(&r), &x_of(&p), &h1);
        let s = k + e * d;
        let mut sig = x_of(&r).to_vec();
        sig.extend_from_slice(&s.b32());
        (x_of(&p), sig)
    };
    let batch = BtcTxMessage {
        txs: vec![BtcSingleTx {
            raw_hex: "0200".to_string(),
            hash_to_sign: vec![hex_string(&h0), hex_string(&h1)],
            input_values: vec![1, 2],
        }],
        asset: AssetType::Native,
        taproot_data: None,
    };
    let msg = batch.encode();
    let mut blob = sig0.clone();
    blob.extend_from_slice(&sig1);
    assert_eq!(verify_btc_schnorr(&px, &msg, &blob), Ok(()));

    // Corrupt only the second signature: index 1 is reported.
    let mut bad = blob.clone();
    bad[64 + 10] ^= 0x01;
    assert!(matches!(
        verify_btc_schnorr(&px, &msg, &bad),
        Err(BatchError::Pair { index: 1, .. })
    ));
}

#[test]
fn end_to_end_disintegration_failure() {
    let (px, sig) = schnorr_sign(0x78, 0x79, &[0u8; 32]);
    assert_eq!(
        verify_btc_schnorr(&px, b"not a batch", &sig),
        Err(BatchError::Disintegrate)
    );
}
