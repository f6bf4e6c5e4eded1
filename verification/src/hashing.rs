//! The 256-bit digest functions used to pre-hash messages, behind trusted
//! wrappers.  Each digest is a pure function of its input bytes, so each
//! wrapper's result is named by an uninterpreted spec function.

use vstd::prelude::*;

verus! {

/// Selects the pre-image digest function for ECDSA-family verification.
#[derive(Clone, Copy, PartialEq, Eq, Structural, Debug)]
pub enum Hash256 {
    Sha2_256,
    Sha3_256,
    Keccak256,
    Blake2256,
    Twox256,
}

pub uninterp spec fn sha2_256_of(m: Seq<u8>) -> Seq<u8>;

pub uninterp spec fn sha3_256_of(m: Seq<u8>) -> Seq<u8>;

pub uninterp spec fn keccak_256_of(m: Seq<u8>) -> Seq<u8>;

pub uninterp spec fn blake2_256_of(m: Seq<u8>) -> Seq<u8>;

pub uninterp spec fn twox_256_of(m: Seq<u8>) -> Seq<u8>;

/// Relies on `sp_io::hashing::sha2_256`: the 32-byte SHA-256 digest, a
/// function of the input bytes alone.
#[verifier::external_body]
fn sha2_256_raw(m: &[u8]) -> (r: Vec<u8>)
    ensures
        r@ == sha2_256_of(m@),
        r@.len() == 32,
{
    sp_io::hashing::sha2_256(m).to_vec()
}

/// Relies on `sha3::Sha3_256`: the 32-byte SHA3-256 digest, a function of
/// the input bytes alone.
#[verifier::external_body]
fn sha3_256_raw(m: &[u8]) -> (r: Vec<u8>)
    ensures
        r@ == sha3_256_of(m@),
        r@.len() == 32,
{
    <sha3::Sha3_256 as sha3::Digest>::digest(m).to_vec()
}

/// Relies on `sp_io::hashing::keccak_256`: the 32-byte Keccak-256 digest, a
/// function of the input bytes alone.
#[verifier::external_body]
fn keccak_256_raw(m: &[u8]) -> (r: Vec<u8>)
    ensures
        r@ == keccak_256_of(m@),
        r@.len() == 32,
{
    sp_io::hashing::keccak_256(m).to_vec()
}

/// Relies on `sp_io::hashing::blake2_256`: the 32-byte Blake2b digest, a
/// function of the input bytes alone.
#[verifier::external_body]
fn blake2_256_raw(m: &[u8]) -> (r: Vec<u8>)
    ensures
        r@ == blake2_256_of(m@),
        r@.len() == 32,
{
    sp_io::hashing::blake2_256(m).to_vec()
}

/// Relies on `sp_io::hashing::twox_256`: the 32-byte XX-hash digest, a
/// function of the input bytes alone.
#[verifier::external_body]
fn twox_256_raw(m: &[u8]) -> (r: Vec<u8>)
    ensures
        r@ == twox_256_of(m@),
        r@.len() == 32,
{
    sp_io::hashing::twox_256(m).to_vec()
}

/// The 32-byte SHA-256 digest of `msgs`.
pub fn sha2_256(msgs: &[u8]) -> (r: Vec<u8>)
    ensures
        r@ == sha2_256_of(msgs@),
        r@.len() == 32,
{
    sha2_256_raw(msgs)
}

/// The 32-byte Keccak-256 digest of `msgs`.
pub fn keccak_256(msgs: &[u8]) -> (r: Vec<u8>)
    ensures
        r@ == keccak_256_of(msgs@),
        r@.len() == 32,
{
    keccak_256_raw(msgs)
}

/// The 32-byte SHA3-256 digest of `msgs`.
pub fn sha3_256(msgs: &[u8]) -> (r: Vec<u8>)
    ensures
        r@ == sha3_256_of(msgs@),
        r@.len() == 32,
{
    sha3_256_raw(msgs)
}

/// The digest selected by `h`.
pub open spec fn spec_hash256(h: Hash256, m: Seq<u8>) -> Seq<u8> {
    match h {
        Hash256::Sha2_256 => sha2_256_of(m),
        Hash256::Sha3_256 => sha3_256_of(m),
        Hash256::Keccak256 => keccak_256_of(m),
        Hash256::Blake2256 => blake2_256_of(m),
        Hash256::Twox256 => twox_256_of(m),
    }
}

/// Compute the digest selected by `h`.
pub fn hash256_digest(h: Hash256, msg: &[u8]) -> (r: Vec<u8>)
    ensures
        r@ == spec_hash256(h, msg@),
        r@.len() == 32,
{
    match h {
        Hash256::Sha2_256 => sha2_256_raw(msg),
        Hash256::Sha3_256 => sha3_256_raw(msg),
        Hash256::Keccak256 => keccak_256_raw(msg),
        Hash256::Blake2256 => blake2_256_raw(msg),
        Hash256::Twox256 => twox_256_raw(msg),
    }
}

} // verus!
