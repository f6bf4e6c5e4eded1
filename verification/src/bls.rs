//! BLS12-381 verification, delegated to the pairing library behind one
//! trusted wrapper.

use vstd::prelude::*;
use crate::error::VerifyError;

verus! {

/// Whether bytes deserialize as a BLS12-381 public key.
pub uninterp spec fn bls_pubkey_ok(b: Seq<u8>) -> bool;

/// Whether bytes deserialize as a BLS12-381 signature.
pub uninterp spec fn bls_sig_ok(b: Seq<u8>) -> bool;

/// Whether a BLS signature passes the pairing check against a key over the
/// hash-to-curve image of a message, each given by its bytes.
pub uninterp spec fn bls_valid(pk: Seq<u8>, msg: Seq<u8>, sig: Seq<u8>) -> bool;

/// Relies on `bls_signatures::verify` with `bls_signatures::hash`, and on
/// `PublicKey::from_bytes` and `Signature::from_bytes` converting the
/// arguments: the deterministic verdict of the pairing equation is a
/// function of the three byte strings alone.
#[verifier::external_body]
fn bls_raw_verify(pk: &[u8], msg: &[u8], sig: &[u8]) -> (r: Option<bool>)
    ensures
        (r is Some) <==> (bls_pubkey_ok(pk@) && bls_sig_ok(sig@)),
        r matches Some(b) ==> b == bls_valid(pk@, msg@, sig@),
{
    let key = match <bls_signatures::PublicKey as bls_signatures::Serialize>::from_bytes(pk) {
        Ok(k) => k,
        Err(_) => return None,
    };
    let signature = match <bls_signatures::Signature as bls_signatures::Serialize>::from_bytes(
        sig,
    ) {
        Ok(s) => s,
        Err(_) => return None,
    };
    let hashed = bls_signatures::hash(msg);
    Some(bls_signatures::verify(&signature, &[hashed], &[key]))
}

/// Verify a BLS12-381 signature over the hash-to-curve image of `msg`.
/// Fails with `ParseError` exactly when the key or signature bytes do not
/// deserialize, with `SignatureInvalid` exactly when the pairing check
/// rejects.
pub fn bls_verify(pubkey: &[u8], msg: &[u8], sig: &[u8]) -> (r: Result<(), VerifyError>)
    ensures
        ({
            let parses = bls_pubkey_ok(pubkey@) && bls_sig_ok(sig@);
            match r {
                Ok(()) => parses && bls_valid(pubkey@, msg@, sig@),
                Err(e) => if !parses {
                    e == VerifyError::ParseError
                } else {
                    e == VerifyError::SignatureInvalid && !bls_valid(pubkey@, msg@, sig@)
                },
            }
        }),
{
    match bls_raw_verify(pubkey, msg, sig) {
        Some(true) => Ok(()),
        Some(false) => Err(VerifyError::SignatureInvalid),
        None => Err(VerifyError::ParseError),
    }
}

} // verus!
