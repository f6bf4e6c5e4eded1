//! ECDSA verification and public-key recovery over secp256k1, with a
//! selectable pre-hash and an optional personal-message prefix applied to
//! the digest before the curve check.

use vstd::prelude::*;
use crate::error::VerifyError;
use crate::hashing::{hash256_digest, keccak_256_of, spec_hash256, Hash256};
use crate::secp::{
    any_point_ok, ecdsa_raw_recover, ecdsa_raw_verify, ecdsa_recover_of, ecdsa_valid, sig64_ok,
};
use crate::utils::{
    eth_signed_message, to_eth_signed_message_hash, to_tron_signed_message_hash,
    tron_signed_message,
};

verus! {

/// The personal-message construction applied to the digest before the final
/// curve check.
#[derive(Clone, Copy, PartialEq, Eq, Structural, Debug)]
pub enum MessagePrefix {
    Plain,
    Ethereum,
    Tron,
}

/// The pre-hash that an optional selector names; SHA-256 when unspecified.
pub open spec fn selected_hash(h: Option<Hash256>) -> Hash256 {
    match h {
        Some(x) => x,
        None => Hash256::Sha2_256,
    }
}

/// The digest that the curve check runs on: the selected hash of the
/// message, re-hashed under the prefix construction where one applies.
pub open spec fn prefixed_digest(h: Option<Hash256>, p: MessagePrefix, m: Seq<u8>) -> Seq<u8> {
    let d = spec_hash256(selected_hash(h), m);
    match p {
        MessagePrefix::Plain => d,
        MessagePrefix::Ethereum => keccak_256_of(eth_signed_message(d)),
        MessagePrefix::Tron => keccak_256_of(tron_signed_message(d)),
    }
}

/// Verify a 64-byte compact ECDSA signature over the selected, optionally
/// prefixed digest of `msg`.  Fails with `ParseError` exactly when the
/// signature or key bytes do not parse, with `SignatureInvalid` exactly
/// when they parse but the curve check rejects.
pub fn inner_ecdsa_verify(
    pubkey: &[u8],
    msg: &[u8],
    sig: &[u8],
    hash256: Option<Hash256>,
    prefix: MessagePrefix,
) -> (r: Result<(), VerifyError>)
    ensures
        ({
            let d = prefixed_digest(hash256, prefix, msg@);
            let parses = sig64_ok(sig@) && any_point_ok(pubkey@);
            match r {
                Ok(()) => parses && ecdsa_valid(d, sig@, pubkey@),
                Err(e) => if !parses {
                    e == VerifyError::ParseError
                } else {
                    e == VerifyError::SignatureInvalid && !ecdsa_valid(d, sig@, pubkey@)
                },
            }
        }),
{
    let hash = match hash256 {
        Some(h) => h,
        None => Hash256::Sha2_256,
    };
    let base = hash256_digest(hash, msg);
    let digest = match prefix {
        MessagePrefix::Plain => base,
        MessagePrefix::Ethereum => to_eth_signed_message_hash(base.as_slice()),
        MessagePrefix::Tron => to_tron_signed_message_hash(base.as_slice()),
    };
    match ecdsa_raw_verify(digest.as_slice(), sig, pubkey) {
        Some(true) => Ok(()),
        Some(false) => Err(VerifyError::SignatureInvalid),
        None => Err(VerifyError::ParseError),
    }
}

/// Verify an ECDSA signature over the selected digest of `msg`, with no
/// prefix construction.
pub fn ecdsa_verify(pubkey: &[u8], msg: &[u8], sig: &[u8], hash256: Option<Hash256>) -> (r:
    Result<(), VerifyError>)
    ensures
        ({
            let d = prefixed_digest(hash256, MessagePrefix::Plain, msg@);
            let parses = sig64_ok(sig@) && any_point_ok(pubkey@);
            match r {
                Ok(()) => parses && ecdsa_valid(d, sig@, pubkey@),
                Err(e) => if !parses {
                    e == VerifyError::ParseError
                } else {
                    e == VerifyError::SignatureInvalid && !ecdsa_valid(d, sig@, pubkey@)
                },
            }
        }),
{
    inner_ecdsa_verify(pubkey, msg, sig, hash256, MessagePrefix::Plain)
}

/// Recover the compressed public key from a 65-byte recoverable signature
/// over the selected, optionally prefixed digest of `msg`.  Failure is
/// signalled by absence: any parse or recovery failure, including a wrong
/// signature length, yields the empty vector.
fn inner_ecdsa_recover(msg: &[u8], sig: &[u8], hash256: Option<Hash256>, prefix: MessagePrefix) -> (r:
    Vec<u8>)
    ensures
        sig@.len() == 65 ==> r@ == ecdsa_recover_of(prefixed_digest(hash256, prefix, msg@), sig@),
        sig@.len() != 65 ==> r@ == Seq::<u8>::empty(),
        r@.len() == 33 || r@.len() == 0,
        r@.len() == 33 ==> (sig64_ok(sig@.take(64)) && any_point_ok(r@) && ecdsa_valid(
            prefixed_digest(hash256, prefix, msg@),
            sig@.take(64),
            r@,
        )),
{
    if sig.len() != 65 {
        let out: Vec<u8> = Vec::new();
        proof {
            assert(out@ =~= Seq::<u8>::empty());
        }
        return out;
    }
    let hash = match hash256 {
        Some(h) => h,
        None => Hash256::Sha2_256,
    };
    let base = hash256_digest(hash, msg);
    let digest = match prefix {
        MessagePrefix::Plain => base,
        MessagePrefix::Ethereum => to_eth_signed_message_hash(base.as_slice()),
        MessagePrefix::Tron => to_tron_signed_message_hash(base.as_slice()),
    };
    ecdsa_raw_recover(digest.as_slice(), sig)
}

/// Recover the compressed public key from a recoverable signature over the
/// selected digest of `msg`, with no prefix construction.  A non-empty
/// result is a key under which the signature's first 64 bytes verify over
/// the same digest.
pub fn ecdsa_recover(msg: &[u8], sig: &[u8], hash256: Option<Hash256>) -> (r: Vec<u8>)
    ensures
        sig@.len() == 65 ==> r@ == ecdsa_recover_of(
            prefixed_digest(hash256, MessagePrefix::Plain, msg@),
            sig@,
        ),
        sig@.len() != 65 ==> r@ == Seq::<u8>::empty(),
        r@.len() == 33 || r@.len() == 0,
        r@.len() == 33 ==> (sig64_ok(sig@.take(64)) && any_point_ok(r@) && ecdsa_valid(
            prefixed_digest(hash256, MessagePrefix::Plain, msg@),
            sig@.take(64),
            r@,
        )),
{
    inner_ecdsa_recover(msg, sig, hash256, MessagePrefix::Plain)
}

} // verus!
