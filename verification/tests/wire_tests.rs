//! The wire codec against independently built reference bytes, and its
//! round-trip behaviour.

use chain_bridge::error::VerifyError;
use chain_bridge::utils::{AssetType, BtcSingleTx, BtcTxMessage};
use parity_scale_codec::{Compact, Encode};

fn sample_batch() -> BtcTxMessage {
    BtcTxMessage {
        txs: vec![
            BtcSingleTx {
                raw_hex: "0200ff".to_string(),
                hash_to_sign: vec!["aabb".to_string(), "ccdd".to_string()],
                input_values: vec![1000, 2000],
            },
            BtcSingleTx {
                raw_hex: String::new(),
                hash_to_sign: vec![String::new()],
                input_values: vec![u64::MAX],
            },
        ],
        asset: AssetType::Brc20,
        taproot_data: Some(vec![9, 8, 7]),
    }
}

/// The reference encoding, assembled with the codec library's own impls on
/// plain types.
fn reference_encoding(m: &BtcTxMessage) -> Vec<u8> {
    let mut out = Vec::new();
    out.extend_from_slice(&Compact(m.txs.len() as u32).encode());
    for tx in &m.txs {
        out.extend_from_slice(&tx.raw_hex.encode());
        out.extend_from_slice(&tx.hash_to_sign.encode());
        out.extend_from_slice(&tx.input_values.encode());
    }
    out.push(match m.asset {
        AssetType::Native => 0,
        AssetType::Brc20 => 1,
        AssetType::Runes => 2,
    });
    out.extend_from_slice(&m.taproot_data.encode());
    out
}

#[test]
fn encode_matches_reference_codec() {
    let m = sample_batch();
    assert_eq!(m.encode(), reference_encoding(&m));
}

#[test]
fn encode_matches_reference_codec_minimal() {
    let m = BtcTxMessage {
        txs: vec![],
        asset: AssetType::Native,
        taproot_data: None,
    };
    assert_eq!(m.encode(), reference_encoding(&m));
}

#[test]
fn decode_then_encode_reproduces_bytes() {
    let bytes = sample_batch().encode();
    let decoded = BtcTxMessage::decode(&bytes).expect("well-formed batch");
    assert_eq!(decoded.encode(), bytes);
}

#[test]
fn decode_recovers_fields() {
    let m = sample_batch();
    let decoded = BtcTxMessage::decode(&m.encode()).expect("well-formed batch");
    assert_eq!(decoded.txs.len(), 2);
    assert_eq!(decoded.txs[0].raw_hex, "0200ff");
    assert_eq!(
        decoded.txs[0].hash_to_sign,
        vec!["aabb".to_string(), "ccdd".to_string()]
    );
    assert_eq!(decoded.txs[0].input_values, vec![1000, 2000]);
    assert_eq!(decoded.txs[1].raw_hex, "");
    assert_eq!(decoded.txs[1].input_values, vec![u64::MAX]);
    assert_eq!(decoded.asset, AssetType::Brc20);
    assert_eq!(decoded.taproot_data, Some(vec![9, 8, 7]));
}

#[test]
fn decode_rejects_trailing_bytes() {
    let mut bytes = sample_batch().encode();
    bytes.push(0);
    assert_eq!(
        BtcTxMessage::decode(&bytes),
        Err(VerifyError::DecodeError)
    );
}

#[test]
fn decode_rejects_truncation() {
    let bytes = sample_batch().encode();
    for cut in 0..bytes.len() {
        assert_eq!(
            BtcTxMessage::decode(&bytes[..cut]),
            Err(VerifyError::DecodeError),
            "truncation at {cut} must fail"
        );
    }
}

#[test]
fn decode_rejects_bad_asset_discriminant() {
    let m = BtcTxMessage {
        txs: vec![],
        asset: AssetType::Runes,
        taproot_data: None,
    };
    let mut bytes = m.encode();
    // The asset byte sits just before the final option byte.
    let pos = bytes.len() - 2;
    bytes[pos] = 3;
    assert_eq!(
        BtcTxMessage::decode(&bytes),
        Err(VerifyError::DecodeError)
    );
}

#[test]
fn decode_rejects_bad_option_flag() {
    let m = BtcTxMessage {
        txs: vec![],
        asset: AssetType::Native,
        taproot_data: None,
    };
    let mut bytes = m.encode();
    let pos = bytes.len() - 1;
    bytes[pos] = 2;
    assert_eq!(
        BtcTxMessage::decode(&bytes),
        Err(VerifyError::DecodeError)
    );
}

#[test]
fn decode_rejects_invalid_utf8_string() {
    // One transaction whose raw_hex is a 1-byte string holding 0xFF.
    let mut bytes = Vec::new();
    bytes.extend_from_slice(&Compact(1u32).encode());
    bytes.extend_from_slice(&Compact(1u32).encode());
    bytes.push(0xFF);
    bytes.extend_from_slice(&Compact(0u32).encode());
    bytes.extend_from_slice(&Compact(0u32).encode());
    bytes.push(0); // Native
    bytes.push(0); // no taproot data
    assert_eq!(
        BtcTxMessage::decode(&bytes),
        Err(VerifyError::DecodeError)
    );
}

#[test]
fn decode_rejects_non_canonical_compact() {
    // The value 5 written in the two-byte compact mode instead of one.
    let v: u32 = 5 * 4 + 1;
    let bytes = vec![(v % 256) as u8, (v / 256) as u8, 0, 0];
    assert_eq!(
        BtcTxMessage::decode(&bytes),
        Err(VerifyError::DecodeError)
    );
}

#[test]
fn compact_length_boundaries_match_reference_codec() {
    for n in [0usize, 1, 63, 64, 100, 16383, 16384, 20000] {
        let m = BtcTxMessage {
            txs: vec![],
            asset: AssetType::Native,
            taproot_data: Some(vec![0xAB; n]),
        };
        let bytes = m.encode();
        assert_eq!(bytes, reference_encoding(&m));
        let back = BtcTxMessage::decode(&bytes).expect("round trip");
        assert_eq!(back.encode(), bytes);
    }
}
