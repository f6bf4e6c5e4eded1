//! The chain-id classification and the numeric error-code mapping.

use chain_bridge::chain::{chain_ids, ChainType};
use chain_bridge::error::CustomError;

#[test]
fn chain_ids_classify_into_families() {
    assert_eq!(ChainType::from_chain_id(1), ChainType::Eth);
    assert_eq!(ChainType::from_chain_id(56), ChainType::Eth);
    assert_eq!(ChainType::from_chain_id(42161), ChainType::Eth);
    assert_eq!(ChainType::from_chain_id(0xa0898816), ChainType::Btc);
    assert_eq!(ChainType::from_chain_id(0x10340fc0), ChainType::Btc);
    assert_eq!(ChainType::from_chain_id(0xfb99f4e7), ChainType::Solana);
    assert_eq!(ChainType::from_chain_id(0x4d25d7c9), ChainType::Fil);
    assert_eq!(ChainType::from_chain_id(0x1fcb566a), ChainType::Aptos);
    assert_eq!(ChainType::from_chain_id(0x1cdfd9d0), ChainType::Starknet);
    assert_eq!(ChainType::from_chain_id(0x098e30e0), ChainType::Sui);
    assert_eq!(ChainType::from_chain_id(0xaa9f7ce3), ChainType::Substrate);
    assert_eq!(ChainType::from_chain_id(0xfbaee342), ChainType::Ton);
    assert_eq!(ChainType::from_chain_id(0x175c9227), ChainType::Near);
    assert_eq!(ChainType::from_chain_id(0x2b6653dc), ChainType::Tron);
    assert_eq!(ChainType::from_chain_id(0xb8ff37c0), ChainType::Ckb);
    // An id outside the table falls back to Raw.
    assert_eq!(ChainType::from_chain_id(123456789), ChainType::Raw);
    assert_eq!(ChainType::from_chain_id(0), ChainType::Raw);
}

#[test]
fn chain_type_u16_round_trip() {
    let all = [
        ChainType::Raw,
        ChainType::Fil,
        ChainType::Bsc,
        ChainType::Btc,
        ChainType::Eth,
        ChainType::Solana,
        ChainType::Aptos,
        ChainType::Starknet,
        ChainType::Sui,
        ChainType::Substrate,
        ChainType::Ton,
        ChainType::Near,
        ChainType::Tron,
        ChainType::Ckb,
    ];
    for (i, c) in all.iter().enumerate() {
        let tag: u16 = (*c).into();
        assert_eq!(tag, i as u16);
        assert_eq!(ChainType::from(tag), *c);
    }
    assert_eq!(ChainType::from(14u16), ChainType::Raw);
    assert_eq!(ChainType::from(u16::MAX), ChainType::Raw);
    assert_eq!(ChainType::default(), ChainType::Raw);
}

#[test]
fn error_codes_map_to_kinds() {
    assert_eq!(CustomError::from_num(0), CustomError::InvalidSession);
    assert_eq!(CustomError::from_num(2), CustomError::HeartbeatExist);
    assert_eq!(CustomError::from_num(20), CustomError::TxTimeout);
    assert_eq!(CustomError::from_num(45), CustomError::InvalidSignature);
    assert_eq!(CustomError::from_num(56), CustomError::ConsensusNotStart);
    // Codes with no kind collapse to Unknown, including gaps.
    assert_eq!(CustomError::from_num(1), CustomError::Unknown);
    assert_eq!(CustomError::from_num(5), CustomError::Unknown);
    assert_eq!(CustomError::from_num(255), CustomError::Unknown);
}

#[test]
fn error_messages_are_stable() {
    assert_eq!(
        CustomError::InvalidSession.message(),
        "Invalid heartbeat session"
    );
    assert_eq!(CustomError::TxTimeout.message(), "Tx has been time-out");
    assert_eq!(CustomError::Unknown.message(), "unknown error");
}

#[test]
fn chain_id_table_is_complete() {
    let ids = chain_ids();
    assert_eq!(ids.len(), 115);
    assert!(ids.contains(&1));
    assert!(ids.contains(&0xa0898816));
    assert!(ids.contains(&0x2b6653dc));
    // Every id is listed once.
    let mut sorted = ids.clone();
    sorted.sort_unstable();
    sorted.dedup();
    assert_eq!(sorted.len(), ids.len());
}
