//! Disintegration: hex decoding, asset-type schema rules, signature
//! splitting, pairing, and the Filecoin tail split.

use chain_bridge::error::VerifyError;
use chain_bridge::hex::{hex_decode, hex_encode};
use chain_bridge::utils::{
    disintegrate_btc_msg, disintegrate_btc_msgs_and_sigs, disintegrate_btc_signatures,
    disintegrate_fil_msg, zip, AssetType, BtcSingleTx, BtcTxMessage,
};

fn batch(asset: AssetType, txs: Vec<BtcSingleTx>) -> BtcTxMessage {
    BtcTxMessage { txs, asset, taproot_data: None }
}

fn tx(hashes: &[&str], values: &[u64]) -> BtcSingleTx {
    BtcSingleTx {
        raw_hex: "00".to_string(),
        hash_to_sign: hashes.iter().map(|h| h.to_string()).collect(),
        input_values: values.to_vec(),
    }
}

fn to_hex_string(bytes: &[u8]) -> String {
    String::from_utf8(hex_encode(bytes)).expect("hex text is ASCII")
}

#[test]
fn hex_decode_round_trip_and_cases() {
    assert_eq!(hex_decode(b"aabbcc"), Some(vec![0xaa, 0xbb, 0xcc]));
    assert_eq!(hex_decode(b"AABBCC"), Some(vec![0xaa, 0xbb, 0xcc]));
    assert_eq!(hex_decode(b""), Some(vec![]));
    assert_eq!(hex_decode(b"abc"), None, "odd length");
    assert_eq!(hex_decode(b"zz"), None, "non-digit");
    assert_eq!(hex_encode(&[0x01, 0xff]), b"01ff".to_vec());
    let data: Vec<u8> = (0..=255).collect();
    assert_eq!(hex_decode(&hex_encode(&data)), Some(data));
    // The external hex crate agrees.
    assert_eq!(hex_encode(&[0xde, 0xad]), hex::encode([0xde, 0xad]).into_bytes());
}

#[test]
fn native_single_tx_accepted() {
    let m = batch(AssetType::Native, vec![tx(&["aabb"], &[10])]);
    let hex_msg = to_hex_string(&m.encode());
    assert!(disintegrate_btc_msg(&hex_msg).is_ok());
}

#[test]
fn runes_single_tx_accepted() {
    let m = batch(AssetType::Runes, vec![tx(&["aabb", "ccdd"], &[10, 20])]);
    assert!(disintegrate_btc_msg(&to_hex_string(&m.encode())).is_ok());
}

#[test]
fn native_rejects_wrong_tx_count() {
    let m = batch(
        AssetType::Native,
        vec![tx(&["aabb"], &[10]), tx(&["ccdd"], &[20])],
    );
    assert_eq!(
        disintegrate_btc_msg(&to_hex_string(&m.encode())),
        Err(VerifyError::SchemaViolation)
    );
}

#[test]
fn native_rejects_empty_hashes() {
    let m = batch(AssetType::Native, vec![tx(&[], &[])]);
    assert_eq!(
        disintegrate_btc_msg(&to_hex_string(&m.encode())),
        Err(VerifyError::SchemaViolation)
    );
}

#[test]
fn native_rejects_length_mismatch() {
    let m = batch(AssetType::Native, vec![tx(&["aabb", "ccdd"], &[10])]);
    assert_eq!(
        disintegrate_btc_msg(&to_hex_string(&m.encode())),
        Err(VerifyError::SchemaViolation)
    );
}

#[test]
fn brc20_requires_exactly_three_txs() {
    let three = batch(
        AssetType::Brc20,
        vec![tx(&["aa"], &[1]), tx(&["bb"], &[2]), tx(&["cc"], &[3])],
    );
    assert!(disintegrate_btc_msg(&to_hex_string(&three.encode())).is_ok());
    let two = batch(AssetType::Brc20, vec![tx(&["aa"], &[1]), tx(&["bb"], &[2])]);
    assert_eq!(
        disintegrate_btc_msg(&to_hex_string(&two.encode())),
        Err(VerifyError::SchemaViolation)
    );
}

#[test]
fn brc20_does_not_check_value_parity() {
    // A Brc20 transaction may pair two digests with one input value: the
    // parity rule holds only for Native and Runes batches.
    let m = batch(
        AssetType::Brc20,
        vec![
            tx(&["aa", "bb"], &[1]),
            tx(&["cc"], &[]),
            tx(&["dd"], &[5, 6, 7]),
        ],
    );
    assert!(disintegrate_btc_msg(&to_hex_string(&m.encode())).is_ok());
}

#[test]
fn brc20_rejects_empty_hash_list() {
    let m = batch(
        AssetType::Brc20,
        vec![tx(&["aa"], &[1]), tx(&[], &[2]), tx(&["cc"], &[3])],
    );
    assert_eq!(
        disintegrate_btc_msg(&to_hex_string(&m.encode())),
        Err(VerifyError::SchemaViolation)
    );
}

#[test]
fn disintegrate_rejects_bad_hex() {
    assert_eq!(
        disintegrate_btc_msg("zz"),
        Err(VerifyError::DecodeError)
    );
    assert_eq!(
        disintegrate_btc_msg("abc"),
        Err(VerifyError::DecodeError)
    );
}

#[test]
fn split_yields_exact_slices() {
    let blob: Vec<u8> = (0..130).map(|i| i as u8).collect();
    let sigs = disintegrate_btc_signatures(blob.clone(), true).expect("2 * 65 bytes");
    assert_eq!(sigs.len(), 2);
    assert_eq!(sigs[0], blob[..65].to_vec());
    assert_eq!(sigs[1], blob[65..].to_vec());
    let rejoined: Vec<u8> = sigs.concat();
    assert_eq!(rejoined, blob);
}

#[test]
fn split_width_is_64_without_recovery_id() {
    let blob = vec![7u8; 192];
    let sigs = disintegrate_btc_signatures(blob, false).expect("3 * 64 bytes");
    assert_eq!(sigs.len(), 3);
    assert!(sigs.iter().all(|s| s.len() == 64));
}

#[test]
fn split_rejects_empty_short_and_ragged() {
    assert_eq!(disintegrate_btc_signatures(vec![], true), None);
    assert_eq!(disintegrate_btc_signatures(vec![0; 64], true), None);
    assert_eq!(disintegrate_btc_signatures(vec![0; 66], true), None);
    assert_eq!(disintegrate_btc_signatures(vec![0; 130 + 1], true), None);
    assert_eq!(disintegrate_btc_signatures(vec![0; 63], false), None);
}

#[test]
fn zip_requires_equal_nonzero_counts() {
    let a = vec![vec![1u8], vec![2u8]];
    let b = vec![vec![3u8], vec![4u8]];
    let pairs = zip(a.clone(), b.clone()).expect("equal counts");
    assert_eq!(pairs.len(), 2);
    assert_eq!(pairs[0], (vec![1u8], vec![3u8]));
    assert_eq!(pairs[1], (vec![2u8], vec![4u8]));
    assert_eq!(zip(vec![], vec![]), None);
    assert_eq!(zip(a.clone(), vec![vec![3u8]]), None);
    assert_eq!(zip(vec![vec![1u8]], b), None);
}

#[test]
fn msgs_and_sigs_pair_up() {
    let m = batch(AssetType::Native, vec![tx(&["aabb", "ccdd"], &[1, 2])]);
    let blob = vec![5u8; 128];
    let (msgs, sigs) =
        disintegrate_btc_msgs_and_sigs(&m.encode(), &blob, false).expect("two pairs");
    assert_eq!(msgs, vec![vec![0xaa, 0xbb], vec![0xcc, 0xdd]]);
    assert_eq!(sigs.len(), 2);
}

#[test]
fn msgs_and_sigs_reject_count_mismatch() {
    let m = batch(AssetType::Native, vec![tx(&["aabb", "ccdd"], &[1, 2])]);
    let blob = vec![5u8; 64];
    assert_eq!(disintegrate_btc_msgs_and_sigs(&m.encode(), &blob, false), None);
}

#[test]
fn msgs_and_sigs_reject_non_hex_digest() {
    let m = batch(AssetType::Native, vec![tx(&["zzzz"], &[1])]);
    let blob = vec![5u8; 64];
    assert_eq!(disintegrate_btc_msgs_and_sigs(&m.encode(), &blob, false), None);
}

#[test]
fn fil_msg_splits_at_engine_length() {
    let raw: Vec<u8> = (0..50).collect();
    let hex_msg = to_hex_string(&raw);
    let (tx_part, digest) = disintegrate_fil_msg(&hex_msg, "ECDSA").expect("longer than 32");
    assert_eq!(digest.len(), 32);
    assert_eq!(tx_part.len(), 18);
    let mut rejoined = tx_part.clone();
    rejoined.extend_from_slice(&digest);
    assert_eq!(rejoined, raw, "splitting then rejoining reproduces the buffer");

    let (tx_bls, digest_bls) = disintegrate_fil_msg(&hex_msg, "BLS").expect("longer than 38");
    assert_eq!(digest_bls.len(), 38);
    assert_eq!(tx_bls.len(), 12);
}

#[test]
fn fil_msg_rejects_short_input() {
    let raw = vec![1u8; 32];
    assert_eq!(
        disintegrate_fil_msg(&to_hex_string(&raw), "ECDSA"),
        Err(VerifyError::DecodeError)
    );
    let raw38 = vec![1u8; 38];
    assert_eq!(
        disintegrate_fil_msg(&to_hex_string(&raw38), "BLS"),
        Err(VerifyError::DecodeError)
    );
}

#[test]
fn fil_msg_rejects_unknown_engine() {
    let raw = vec![1u8; 64];
    assert_eq!(
        disintegrate_fil_msg(&to_hex_string(&raw), "RSA"),
        Err(VerifyError::UnsupportedEngine)
    );
    assert_eq!(
        disintegrate_fil_msg(&to_hex_string(&raw), ""),
        Err(VerifyError::UnsupportedEngine)
    );
}

#[test]
fn fil_msg_reports_bad_hex_before_engine() {
    assert_eq!(
        disintegrate_fil_msg("xy", "RSA"),
        Err(VerifyError::DecodeError)
    );
}
