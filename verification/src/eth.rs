//! Ethereum-family helpers: personal-message ECDSA verification and the
//! fixed ABI encoding used for random-number requests.

use vstd::prelude::*;
use crate::ecdsa::{inner_ecdsa_verify, prefixed_digest, MessagePrefix};
use crate::error::VerifyError;
use crate::hashing::Hash256;
use crate::secp::{any_point_ok, ecdsa_valid, sig64_ok};
use crate::wire::extend_bytes;

verus! {

/// Verify an ECDSA signature over the Ethereum personal-message hash of
/// the selected digest of `msg`.
pub fn eth_ecdsa_verify(pubkey: &[u8], msg: &[u8], sig: &[u8], hash256: Option<Hash256>) -> (r:
    Result<(), VerifyError>)
    ensures
        ({
            let d = prefixed_digest(hash256, MessagePrefix::Ethereum, msg@);
            let parses = sig64_ok(sig@) && any_point_ok(pubkey@);
            match r {
                Ok(()) => parses && ecdsa_valid(d, sig@, pubkey@),
                Err(e) => if !parses {
                    e == VerifyError::ParseError
                } else {
                    e == VerifyError::SignatureInvalid && !ecdsa_valid(d, sig@, pubkey@)
                },
            }
        }),
{
    inner_ecdsa_verify(pubkey, msg, sig, hash256, MessagePrefix::Ethereum)
}

/// A sequence of `n` zero bytes.
pub open spec fn zero_bytes(n: nat) -> Seq<u8> {
    Seq::new(n, |i: int| 0u8)
}

/// The four big-endian bytes of a 32-bit value.
pub open spec fn be4(v: u32) -> Seq<u8> {
    seq![
        (v as int / 16777216) as u8,
        ((v as int / 65536) % 256) as u8,
        ((v as int / 256) % 256) as u8,
        (v as int % 256) as u8,
    ]
}

/// The fixed ABI encoding of a random-number request: five 32-byte head
/// words — the chain id, the port address left-padded to a word, then the
/// caller-supplied consumer address, nonce and number words as given.
pub open spec fn abi_random_num_bytes(
    chain_id: u32,
    vrn_port: Seq<u8>,
    consumer_addr: Seq<u8>,
    nonce: Seq<u8>,
    number: Seq<u8>,
) -> Seq<u8> {
    zero_bytes(28) + be4(chain_id) + zero_bytes(12) + vrn_port + consumer_addr + nonce + number
}

/// Append `n` zero bytes to `out`.
fn push_zero_bytes(out: &mut Vec<u8>, n: usize)
    ensures
        final(out)@ == old(out)@ + zero_bytes(n as nat),
{
    let mut k: usize = 0;
    while k < n
        invariant
            k <= n,
            out@ == old(out)@ + zero_bytes(k as nat),
        decreases n - k,
    {
        out.push(0u8);
        proof {
            assert(old(out)@ + zero_bytes(k as nat + 1) =~= (old(out)@ + zero_bytes(
                k as nat,
            )).push(0u8));
        }
        k = k + 1;
    }
    proof {
        assert(out@ =~= old(out)@ + zero_bytes(n as nat));
    }
}

/// ABI-encode a random-number request.  Fails exactly when the port
/// address is not 20 bytes; the other fields are taken as given.
pub fn eth_abi_encode_for_random_num(
    chain_id: u32,
    vrn_port: &[u8],
    consumer_addr: &[u8],
    nonce: &[u8],
    number: &[u8],
) -> (r: Result<Vec<u8>, VerifyError>)
    ensures
        ({
            match r {
                Ok(v) => vrn_port@.len() == 20 && v@ == abi_random_num_bytes(
                    chain_id,
                    vrn_port@,
                    consumer_addr@,
                    nonce@,
                    number@,
                ),
                Err(e) => vrn_port@.len() != 20 && e == VerifyError::ParseError,
            }
        }),
{
    if vrn_port.len() != 20 {
        return Err(VerifyError::ParseError);
    }
    let mut out: Vec<u8> = Vec::new();
    push_zero_bytes(&mut out, 28);
    out.push((chain_id / 16777216) as u8);
    out.push(((chain_id / 65536) % 256) as u8);
    out.push(((chain_id / 256) % 256) as u8);
    out.push((chain_id % 256) as u8);
    proof {
        assert(out@ =~= zero_bytes(28) + be4(chain_id));
    }
    push_zero_bytes(&mut out, 12);
    extend_bytes(&mut out, vrn_port);
    extend_bytes(&mut out, consumer_addr);
    extend_bytes(&mut out, nonce);
    extend_bytes(&mut out, number);
    proof {
        assert(out@ =~= abi_random_num_bytes(chain_id, vrn_port@, consumer_addr@, nonce@, number@));
    }
    Ok(out)
}

/// The five fields decoded from an ABI-encoded random-number request.
pub type RandomNumParams = (u32, Vec<u8>, Vec<u8>, Vec<u8>, Vec<u8>);

/// Decode an ABI-encoded random-number request: five 32-byte words, the
/// first a chain id whose upper 28 bytes must be zero.  Fails exactly on a
/// wrong total length or a chain id that overflows 32 bits.
pub fn decode_random_num_params_from_eth_bytes(bytes: Vec<u8>) -> (r: Result<
    RandomNumParams,
    VerifyError,
>)
    ensures
        ({
            match r {
                Ok(p) => bytes@.len() == 160 && bytes@.take(28) == zero_bytes(28) && be4(p.0)
                    == bytes@.subrange(28, 32) && p.1@ == bytes@.subrange(32, 64) && p.2@
                    == bytes@.subrange(64, 96) && p.3@ == bytes@.subrange(96, 128) && p.4@
                    == bytes@.subrange(128, 160),
                Err(e) => e == VerifyError::DecodeError && (bytes@.len() != 160 || bytes@.take(28)
                    != zero_bytes(28)),
            }
        }),
{
    if bytes.len() != 160 {
        return Err(VerifyError::DecodeError);
    }
    let mut k: usize = 0;
    while k < 28
        invariant
            k <= 28,
            bytes@.len() == 160,
            forall|j: int| 0 <= j < k ==> bytes@[j] == 0u8,
        decreases 28 - k,
    {
        if bytes[k] != 0 {
            proof {
                assert(bytes@.take(28)[k as int] != zero_bytes(28)[k as int]);
            }
            return Err(VerifyError::DecodeError);
        }
        k = k + 1;
    }
    proof {
        assert(bytes@.take(28) =~= zero_bytes(28));
    }
    let chain_id: u32 = (bytes[28] as u32) * 16777216 + (bytes[29] as u32) * 65536 + (
    bytes[30] as u32) * 256 + (bytes[31] as u32);
    proof {
        vstd::arithmetic::div_mod::lemma_fundamental_div_mod_converse(
            chain_id as int,
            16777216,
            bytes@[28] as int,
            bytes@[29] as int * 65536 + bytes@[30] as int * 256 + bytes@[31] as int,
        );
        vstd::arithmetic::div_mod::lemma_fundamental_div_mod_converse(
            chain_id as int,
            65536,
            bytes@[28] as int * 256 + bytes@[29] as int,
            bytes@[30] as int * 256 + bytes@[31] as int,
        );
        vstd::arithmetic::div_mod::lemma_fundamental_div_mod_converse(
            bytes@[28] as int * 256 + bytes@[29] as int,
            256,
            bytes@[28] as int,
            bytes@[29] as int,
        );
        vstd::arithmetic::div_mod::lemma_fundamental_div_mod_converse(
            chain_id as int,
            256,
            (bytes@[28] as int * 256 + bytes@[29] as int) * 256 + bytes@[30] as int,
            bytes@[31] as int,
        );
        vstd::arithmetic::div_mod::lemma_fundamental_div_mod_converse(
            (bytes@[28] as int * 256 + bytes@[29] as int) * 256 + bytes@[30] as int,
            256,
            bytes@[28] as int * 256 + bytes@[29] as int,
            bytes@[30] as int,
        );
        assert(be4(chain_id) =~= bytes@.subrange(28, 32));
    }
    let vrn_port = vstd::slice::slice_to_vec(vstd::slice::slice_subrange(bytes.as_slice(), 32, 64));
    let consumer = vstd::slice::slice_to_vec(vstd::slice::slice_subrange(bytes.as_slice(), 64, 96));
    let nonce = vstd::slice::slice_to_vec(vstd::slice::slice_subrange(bytes.as_slice(), 96, 128));
    let number = vstd::slice::slice_to_vec(
        vstd::slice::slice_subrange(bytes.as_slice(), 128, 160),
    );
    Ok((chain_id, vrn_port, consumer, nonce, number))
}

} // verus!
