//! Batch ECDSA verification of a Bitcoin-family batch: disintegrate the
//! message and the signature blob at 65-byte width, pair them, and check
//! every pair on the secp256k1 curve.

use vstd::prelude::*;
use crate::error::{BatchError, VerifyError};
use crate::secp::{any_point_ok, ecdsa_raw_verify, ecdsa_valid, sig64_ok};
use crate::utils::{disintegrate_btc_msgs_and_sigs, spec_disintegrate, split_sigs, zip};

verus! {

/// Whether one digest/signature pair of an ECDSA batch parses: a 32-byte
/// digest, a signature whose first 64 bytes parse compactly, and a key that
/// names a curve point.
pub open spec fn btc_pair_parse_ok(pk: Seq<u8>, d: Seq<u8>, s: Seq<u8>) -> bool {
    d.len() == 32 && sig64_ok(s.take(64)) && any_point_ok(pk)
}

/// Disintegrate a batch message and signature blob at 65-byte width, pair
/// digests with signatures, and verify every pair against `pubkey`,
/// stopping at the first failing index.  Each signature's first 64 bytes
/// are checked; its trailing recovery byte plays no part here.
pub fn verify_btc_ecdsa(pubkey: &[u8], msg: &[u8], sig: &[u8]) -> (r: Result<(), BatchError>)
    ensures
        (r == Err::<(), BatchError>(BatchError::Disintegrate)) <==> (spec_disintegrate(
            msg@,
            sig@,
            true,
        ) is None),
        r is Ok ==> (spec_disintegrate(msg@, sig@, true) matches Some(p) && forall|j: int|
            0 <= j < p.1.len() ==> btc_pair_parse_ok(pubkey@, p.0[j], #[trigger] p.1[j])
                && ecdsa_valid(p.0[j], p.1[j].take(64), pubkey@)),
        ({
            match r {
                Err(BatchError::Pair { index, cause }) => spec_disintegrate(msg@, sig@, true)
                    matches Some(p) && index < p.0.len() && (forall|j: int|
                    0 <= j < index ==> btc_pair_parse_ok(pubkey@, p.0[j], #[trigger] p.1[j])
                        && ecdsa_valid(p.0[j], p.1[j].take(64), pubkey@)) && (cause
                    == VerifyError::ParseError || cause == VerifyError::SignatureInvalid) && ((
                cause == VerifyError::ParseError) <==> !btc_pair_parse_ok(
                    pubkey@,
                    p.0[index as int],
                    p.1[index as int],
                )) && ((cause == VerifyError::SignatureInvalid) ==> !ecdsa_valid(
                    p.0[index as int],
                    p.1[index as int].take(64),
                    pubkey@,
                )),
                _ => true,
            }
        }),
{
    let ghost view = |d: Vec<u8>| d@;
    let (msgs, sigs) = match disintegrate_btc_msgs_and_sigs(msg, sig, true) {
        Some(p) => p,
        None => {
            return Err(BatchError::Disintegrate);
        },
    };
    let ghost msgsv = msgs@.map_values(view);
    let ghost sigsv = sigs@.map_values(view);
    let pairs = match zip(msgs, sigs) {
        Some(p) => p,
        None => {
            // Disintegration guarantees equal, non-zero counts, so the
            // pairing cannot fail here.
            proof {
                assert(false);
            }
            return Err(BatchError::Disintegrate);
        },
    };
    let mut i: usize = 0;
    while i < pairs.len()
        invariant
            pairs@.len() == msgsv.len() == sigsv.len(),
            spec_disintegrate(msg@, sig@, true) == Some((msgsv, sigsv)),
            forall|j: int|
                0 <= j < pairs@.len() ==> (#[trigger] pairs@[j]).0@ == msgsv[j] && pairs@[j].1@
                    == sigsv[j],
            forall|j: int|
                0 <= j < i ==> btc_pair_parse_ok(pubkey@, msgsv[j], #[trigger] sigsv[j])
                    && ecdsa_valid(msgsv[j], sigsv[j].take(64), pubkey@),
        decreases pairs@.len() - i,
    {
        let pair = &pairs[i];
        proof {
            assert(split_sigs(sig@, 65) == Some(sigsv));
            assert(sigsv[i as int].len() == 65);
        }
        if pair.0.len() != 32 {
            return Err(BatchError::Pair { index: i, cause: VerifyError::ParseError });
        }
        let s64 = vstd::slice::slice_subrange(pair.1.as_slice(), 0, 64);
        proof {
            assert(s64@ =~= sigsv[i as int].take(64));
        }
        match ecdsa_raw_verify(pair.0.as_slice(), s64, pubkey) {
            Some(true) => {},
            Some(false) => {
                return Err(BatchError::Pair { index: i, cause: VerifyError::SignatureInvalid });
            },
            None => {
                return Err(BatchError::Pair { index: i, cause: VerifyError::ParseError });
            },
        }
        i = i + 1;
    }
    Ok(())
}

} // verus!
