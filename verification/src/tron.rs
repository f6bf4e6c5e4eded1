//! Tron helpers: the Tron personal-message hash and ECDSA verification
//! under it.

use vstd::prelude::*;
use crate::ecdsa::{inner_ecdsa_verify, prefixed_digest, MessagePrefix};
use crate::error::VerifyError;
use crate::hashing::{keccak_256_of, Hash256};
use crate::secp::{any_point_ok, ecdsa_valid, sig64_ok};
use crate::utils::tron_signed_message;

verus! {

/// Keccak-256 of the Tron-prefixed message, over an owned byte vector.
pub fn to_tron_signed_message_hash(msg: Vec<u8>) -> (r: Vec<u8>)
    ensures
        r@ == keccak_256_of(tron_signed_message(msg@)),
        r@.len() == 32,
{
    crate::utils::to_tron_signed_message_hash(msg.as_slice())
}

/// Verify an ECDSA signature over the Tron personal-message hash of the
/// selected digest of `msg`.
pub fn tron_ecdsa_verify(pubkey: &[u8], msg: &[u8], sig: &[u8], hash256: Option<Hash256>) -> (r:
    Result<(), VerifyError>)
    ensures
        ({
            let d = prefixed_digest(hash256, MessagePrefix::Tron, msg@);
            let parses = sig64_ok(sig@) && any_point_ok(pubkey@);
            match r {
                Ok(()) => parses && ecdsa_valid(d, sig@, pubkey@),
                Err(e) => if !parses {
                    e == VerifyError::ParseError
                } else {
                    e == VerifyError::SignatureInvalid && !ecdsa_valid(d, sig@, pubkey@)
                },
            }
        }),
{
    inner_ecdsa_verify(pubkey, msg, sig, hash256, MessagePrefix::Tron)
}

} // verus!
