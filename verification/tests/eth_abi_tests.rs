//! The fixed ABI encoding for random-number requests and its decoder.

use chain_bridge::error::VerifyError;
use chain_bridge::eth::{decode_random_num_params_from_eth_bytes, eth_abi_encode_for_random_num};

#[test]
fn abi_encode_layout() {
    let port = [0x11u8; 20];
    let consumer = [0x22u8; 32];
    let nonce = [0x33u8; 32];
    let number = [0x44u8; 32];
    let out = eth_abi_encode_for_random_num(0x01020304, &port, &consumer, &nonce, &number)
        .expect("20-byte port");
    assert_eq!(out.len(), 160);
    assert_eq!(&out[..28], &[0u8; 28]);
    assert_eq!(&out[28..32], &[1, 2, 3, 4]);
    assert_eq!(&out[32..44], &[0u8; 12]);
    assert_eq!(&out[44..64], &port);
    assert_eq!(&out[64..96], &consumer);
    assert_eq!(&out[96..128], &nonce);
    assert_eq!(&out[128..160], &number);
}

#[test]
fn abi_encode_rejects_bad_port_length(){
    assert_eq!(
        eth_abi_encode_for_random_num(1, &[0u8; 19], &[0u8; 32], &[0u8; 32], &[0u8; 32]),
        Err(VerifyError::ParseError)
    );
}

#[test]
fn abi_decode_inverts_encode() {
    let port = [0x55u8; 20];
    let consumer = [0x66u8; 32];
    let nonce = [0x77u8; 32];
    let number = [0x88u8; 32];
    let out = eth_abi_encode_for_random_num(424242, &port, &consumer, &nonce, &number).unwrap();
    let (chain_id, got_port_word, got_consumer, got_nonce, got_number) =
        decode_random_num_params_from_eth_bytes(out).expect("exactly five words");
    assert_eq!(chain_id, 424242);
    let mut port_word = vec![0u8; 12];
    port_word.extend_from_slice(&port);
    assert_eq!(got_port_word, port_word);
    assert_eq!(got_consumer, consumer.to_vec());
    assert_eq!(got_nonce, nonce.to_vec());
    assert_eq!(got_number, number.to_vec());
}

#[test]
fn abi_decode_rejects_bad_length_and_overflow() {
    assert_eq!(
        decode_random_num_params_from_eth_bytes(vec![0u8; 159]),
        Err(VerifyError::DecodeError)
    );
    // A chain-id word with a non-zero high byte does not fit 32 bits.
    let mut bytes = vec![0u8; 160];
    bytes[0] = 1;
    assert_eq!(
        decode_random_num_params_from_eth_bytes(bytes),
        Err(VerifyError::DecodeError)
    );
}
