//! Filecoin verification: the trailing digest of a message is checked under
//! the engine's scheme — plain ECDSA over a 32-byte digest, or BLS over a
//! 38-byte one.

use vstd::prelude::*;
use crate::bls::{bls_pubkey_ok, bls_sig_ok, bls_valid, bls_verify};
use crate::error::VerifyError;
use crate::secp::{any_point_ok, ecdsa_raw_verify, ecdsa_valid, sig64_ok};
use crate::utils::{bls_label, ecdsa_label, SignatureEngine};
use vstd::utf8::encode_utf8;

verus! {

/// What the ECDSA engine requires of the signature and key bytes.
pub open spec fn fil_ecdsa_parse_ok(pk: Seq<u8>, sig: Seq<u8>) -> bool {
    sig.len() >= 64 && sig64_ok(sig.take(64)) && any_point_ok(pk)
}

/// Verify a Filecoin message: split off the engine-selected trailing
/// digest and check the signature over it under the engine's scheme.  The
/// engine selector decides the scheme; the digest is signed directly, with
/// no further pre-hash.
pub fn verify_filecoin(pubkey: &[u8], raw: &[u8], sig: &[u8], engine: &str) -> (r: Result<
    (),
    VerifyError,
>)
    ensures
        ({
            let is_ecdsa = encode_utf8(engine@) == ecdsa_label();
            let is_bls = encode_utf8(engine@) == bls_label();
            let hl: int = if is_ecdsa {
                32
            } else {
                38
            };
            let digest = raw@.skip(raw@.len() - hl);
            match r {
                Ok(()) => (is_ecdsa || is_bls) && raw@.len() > hl && (is_ecdsa ==> (
                fil_ecdsa_parse_ok(pubkey@, sig@) && ecdsa_valid(digest, sig@.take(64), pubkey@)))
                    && (is_bls ==> (bls_pubkey_ok(pubkey@) && bls_sig_ok(sig@) && bls_valid(
                    pubkey@,
                    digest,
                    sig@,
                ))),
                Err(e) => if !(is_ecdsa || is_bls) {
                    e == VerifyError::UnsupportedEngine
                } else if raw@.len() <= hl {
                    e == VerifyError::DecodeError
                } else if is_ecdsa {
                    if !fil_ecdsa_parse_ok(pubkey@, sig@) {
                        e == VerifyError::ParseError
                    } else {
                        e == VerifyError::SignatureInvalid && !ecdsa_valid(
                            digest,
                            sig@.take(64),
                            pubkey@,
                        )
                    }
                } else {
                    if !(bls_pubkey_ok(pubkey@) && bls_sig_ok(sig@)) {
                        e == VerifyError::ParseError
                    } else {
                        e == VerifyError::SignatureInvalid && !bls_valid(pubkey@, digest, sig@)
                    }
                },
            }
        }),
{
    let eng = match SignatureEngine::from_label(engine) {
        Ok(e) => e,
        Err(e) => {
            return Err(e);
        },
    };
    let hl: usize = match eng {
        SignatureEngine::Ecdsa => 32,
        SignatureEngine::Bls => 38,
    };
    if raw.len() <= hl {
        return Err(VerifyError::DecodeError);
    }
    let cut = raw.len() - hl;
    let digest = vstd::slice::slice_subrange(raw, cut, raw.len());
    proof {
        assert(digest@ =~= raw@.skip(raw@.len() - hl as int));
    }
    match eng {
        SignatureEngine::Ecdsa => {
            if sig.len() < 64 {
                return Err(VerifyError::ParseError);
            }
            let s64 = vstd::slice::slice_subrange(sig, 0, 64);
            proof {
                assert(s64@ =~= sig@.take(64));
            }
            match ecdsa_raw_verify(digest, s64, pubkey) {
                Some(true) => Ok(()),
                Some(false) => Err(VerifyError::SignatureInvalid),
                None => Err(VerifyError::ParseError),
            }
        },
        SignatureEngine::Bls => bls_verify(pubkey, digest, sig),
    }
}

} // verus!
