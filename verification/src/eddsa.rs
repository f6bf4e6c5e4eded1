//! ed25519 verification, delegated to the curve library behind one trusted
//! wrapper.

use vstd::prelude::*;
use crate::error::VerifyError;

verus! {

/// Whether an ed25519 signature verifies, each argument given by its bytes.
pub uninterp spec fn ed25519_valid(pk: Seq<u8>, msg: Seq<u8>, sig: Seq<u8>) -> bool;

/// Relies on `sp_core::ed25519::Pair::verify` (what
/// `sp_io::crypto::ed25519_verify` runs outside an externalities context),
/// with `Public::try_from` and `Signature::try_from` converting the
/// arguments: they accept exactly 32 and 64 bytes, and the deterministic
/// verdict is a function of the three byte strings alone.
#[verifier::external_body]
fn ed25519_raw_verify(pk: &[u8], msg: &[u8], sig: &[u8]) -> (r: Option<bool>)
    ensures
        (r is Some) <==> (pk@.len() == 32 && sig@.len() == 64),
        r matches Some(b) ==> b == ed25519_valid(pk@, msg@, sig@),
{
    let p = match sp_core::ed25519::Public::try_from(pk) {
        Ok(p) => p,
        Err(_) => return None,
    };
    let s = match sp_core::ed25519::Signature::try_from(sig) {
        Ok(s) => s,
        Err(_) => return None,
    };
    Some(<sp_core::ed25519::Pair as sp_core::Pair>::verify(&s, msg, &p))
}

/// Verify an ed25519 signature.  Fails with `ParseError` exactly when the
/// key is not 32 or the signature not 64 bytes, with `SignatureInvalid`
/// exactly when the curve check rejects.
pub fn ed25519_verify(pubkey: &[u8], msg: &[u8], sig: &[u8]) -> (r: Result<(), VerifyError>)
    ensures
        ({
            let parses = pubkey@.len() == 32 && sig@.len() == 64;
            match r {
                Ok(()) => parses && ed25519_valid(pubkey@, msg@, sig@),
                Err(e) => if !parses {
                    e == VerifyError::ParseError
                } else {
                    e == VerifyError::SignatureInvalid && !ed25519_valid(pubkey@, msg@, sig@)
                },
            }
        }),
{
    match ed25519_raw_verify(pubkey, msg, sig) {
        Some(true) => Ok(()),
        Some(false) => Err(VerifyError::SignatureInvalid),
        None => Err(VerifyError::ParseError),
    }
}

} // verus!
