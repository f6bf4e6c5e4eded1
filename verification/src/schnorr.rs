//! Schnorr-family verification: the BIP-340 style verifier used for
//! Bitcoin Taproot signing, a bespoke secp256k1 scheme with different
//! operand roles, and sr25519.  The two secp256k1 schemes are deliberately
//! independent: they share no verification path.  Curve points and scalars
//! travel as bytes, so every acceptance rule is stated exactly over the
//! named results of the curve primitives.

use vstd::prelude::*;
use crate::error::{BatchError, VerifyError};
use crate::hashing::{sha2_256, sha2_256_of};
use crate::secp::{
    base_mul_of, base_mul32, compress_full, compress_of, compressed_point_ok, full_point_ok,
    lincomb_of, point_add_of, point_add33, point_check_compressed, point_check_full,
    point_lincomb, point_mul_of, point_mul33, scalar32_ok, scalar_check32, scalar_from_digest,
    scalar_neg32, spec_neg, spec_reduce,
};
use crate::utils::{disintegrate_btc_msgs_and_sigs, spec_disintegrate, zip};
use crate::wire::{bytes_eq, extend_bytes};

verus! {

// ---------------------------------------------------------------------------
// sr25519.
// ---------------------------------------------------------------------------

/// Whether an sr25519 signature verifies, each argument given by its bytes.
pub uninterp spec fn sr25519_valid(pk: Seq<u8>, msg: Seq<u8>, sig: Seq<u8>) -> bool;

/// Relies on `sp_core::sr25519::Pair::verify` (what
/// `sp_io::crypto::sr25519_verify` runs), with `Public::try_from` and
/// `Signature::try_from` converting the arguments: they accept exactly 32
/// and 64 bytes, and the deterministic verdict is a function of the three
/// byte strings alone.
#[verifier::external_body]
fn sr25519_raw_verify(pk: &[u8], msg: &[u8], sig: &[u8]) -> (r: Option<bool>)
    ensures
        (r is Some) <==> (pk@.len() == 32 && sig@.len() == 64),
        r matches Some(b) ==> b == sr25519_valid(pk@, msg@, sig@),
{
    let p = match sp_core::sr25519::Public::try_from(pk) {
        Ok(p) => p,
        Err(_) => return None,
    };
    let s = match sp_core::sr25519::Signature::try_from(sig) {
        Ok(s) => s,
        Err(_) => return None,
    };
    Some(<sp_core::sr25519::Pair as sp_core::Pair>::verify(&s, msg, &p))
}

/// Verify an sr25519 signature.  Fails with `ParseError` exactly when the
/// key is not 32 or the signature not 64 bytes, with `SignatureInvalid`
/// exactly when the curve check rejects.
pub fn sr25519_verify(pubkey: &[u8], msg: &[u8], sig: &[u8]) -> (r: Result<(), VerifyError>)
    ensures
        ({
            let parses = pubkey@.len() == 32 && sig@.len() == 64;
            match r {
                Ok(()) => parses && sr25519_valid(pubkey@, msg@, sig@),
                Err(e) => if !parses {
                    e == VerifyError::ParseError
                } else {
                    e == VerifyError::SignatureInvalid && !sr25519_valid(pubkey@, msg@, sig@)
                },
            }
        }),
{
    match sr25519_raw_verify(pubkey, msg, sig) {
        Some(true) => Ok(()),
        Some(false) => Err(VerifyError::SignatureInvalid),
        None => Err(VerifyError::ParseError),
    }
}

// ---------------------------------------------------------------------------
// The bespoke secp256k1 scheme: signature = r (32-byte scalar) followed by
// V (33-byte compressed point); accept iff e·P + V == r·G with
// e = SHA-256(V ‖ P ‖ message).
// ---------------------------------------------------------------------------

/// Whether the parts of a bespoke-scheme signature parse: a 65-byte
/// signature holding a scalar then a compressed point, and a 65-byte full
/// public key.
pub open spec fn sr_parse_ok(pk: Seq<u8>, sig: Seq<u8>) -> bool {
    &&& sig.len() == 65
    &&& scalar32_ok(sig.take(32))
    &&& compressed_point_ok(sig.skip(32))
    &&& full_point_ok(pk)
}

/// The challenge scalar of the bespoke scheme: SHA-256 over the compressed
/// encodings of V and P and the message, untagged, reduced into the scalar
/// field.  The compressed encoding of V is the signature tail itself, since
/// compressed encodings are canonical.
pub open spec fn sr_challenge(pk: Seq<u8>, m: Seq<u8>, sig: Seq<u8>) -> Seq<u8> {
    spec_reduce(sha2_256_of(sig.skip(32) + compress_of(pk) + m))
}

/// The bespoke scheme's acceptance rule over the named curve results:
/// e·P + V must equal r·G, the sum collapsing to V when e·P is infinity.
pub open spec fn sr_accepts(pk: Seq<u8>, m: Seq<u8>, sig: Seq<u8>) -> bool {
    let ep = point_mul_of(compress_of(pk), sr_challenge(pk, m, sig));
    let check = if ep.len() == 0 {
        sig.skip(32)
    } else {
        point_add_of(ep, sig.skip(32))
    };
    check == base_mul_of(sig.take(32))
}

/// The challenge scalar of the bespoke scheme, as its 32-byte encoding.
fn sr_secp256k1_hash(r: &[u8], x: &[u8], m: &[u8]) -> (s: Vec<u8>)
    ensures
        s@ == spec_reduce(sha2_256_of(r@ + x@ + m@)),
        s@.len() == 32,
{
    let mut buf: Vec<u8> = Vec::new();
    extend_bytes(&mut buf, r);
    extend_bytes(&mut buf, x);
    extend_bytes(&mut buf, m);
    let digest = sha2_256(buf.as_slice());
    scalar_from_digest(digest.as_slice())
}

/// Verify a bespoke-scheme signature.  Fails with `ParseError` exactly when
/// a part does not parse; a well-formed signature passes exactly when the
/// group equation e·P + V == r·G holds.
pub fn sr_secp256k1_verify(pubkey: &[u8], message: &[u8], signature: &[u8]) -> (r: Result<
    (),
    VerifyError,
>)
    ensures
        (r == Err::<(), VerifyError>(VerifyError::ParseError)) <==> !sr_parse_ok(
            pubkey@,
            signature@,
        ),
        sr_parse_ok(pubkey@, signature@) ==> ((r is Ok) <==> sr_accepts(
            pubkey@,
            message@,
            signature@,
        )),
        r is Ok || r == Err::<(), VerifyError>(VerifyError::ParseError) || r == Err::<
            (),
            VerifyError,
        >(VerifyError::SignatureInvalid),
{
    if signature.len() != 65 {
        return Err(VerifyError::ParseError);
    }
    let r_bytes = vstd::slice::slice_subrange(signature, 0, 32);
    proof {
        assert(r_bytes@ =~= signature@.take(32));
    }
    if !scalar_check32(r_bytes) {
        return Err(VerifyError::ParseError);
    }
    let v_bytes = vstd::slice::slice_subrange(signature, 32, 65);
    proof {
        assert(v_bytes@ =~= signature@.skip(32));
    }
    if !point_check_compressed(v_bytes) {
        return Err(VerifyError::ParseError);
    }
    if !point_check_full(pubkey) {
        return Err(VerifyError::ParseError);
    }
    let p33 = compress_full(pubkey);
    let e = sr_secp256k1_hash(v_bytes, p33.as_slice(), message);
    let ep = point_mul33(p33.as_slice(), e.as_slice());
    let check: Vec<u8> = if ep.len() == 0 {
        vstd::slice::slice_to_vec(v_bytes)
    } else {
        point_add33(ep.as_slice(), v_bytes)
    };
    let commit = base_mul32(r_bytes);
    if !bytes_eq(check.as_slice(), commit.as_slice()) {
        return Err(VerifyError::SignatureInvalid);
    }
    Ok(())
}

// ---------------------------------------------------------------------------
// BIP-340 style Schnorr over secp256k1.
// ---------------------------------------------------------------------------

/// The tag of the BIP-340 challenge hash: the ASCII bytes of
/// `"BIP0340/challenge"`.
pub open spec fn bip340_tag() -> Seq<u8> {
    seq![
        66u8, 73u8, 80u8, 48u8, 51u8, 52u8, 48u8, 47u8, 99u8, 104u8, 97u8, 108u8, 108u8, 101u8,
        110u8, 103u8, 101u8,
    ]
}

/// The pre-image of the BIP-340 challenge: the tag digest twice, then R.x,
/// P.x and the message.
pub open spec fn bip340_challenge_bytes(rx: Seq<u8>, px: Seq<u8>, m: Seq<u8>) -> Seq<u8> {
    sha2_256_of(bip340_tag()) + sha2_256_of(bip340_tag()) + rx + px + m
}

/// The 32-byte BIP-340 challenge digest over R.x, P.x and the message.
fn bip340_challenge_digest(r_x: &[u8], p_x: &[u8], m: &[u8]) -> (r: Vec<u8>)
    ensures
        r@ == sha2_256_of(bip340_challenge_bytes(r_x@, p_x@, m@)),
        r@.len() == 32,
{
    let tag: Vec<u8> = vec![
        66u8, 73u8, 80u8, 48u8, 51u8, 52u8, 48u8, 47u8, 99u8, 104u8, 97u8, 108u8, 108u8, 101u8,
        110u8, 103u8, 101u8,
    ];
    proof {
        assert(tag@ =~= bip340_tag());
    }
    let prefix = sha2_256(tag.as_slice());
    let mut buf: Vec<u8> = Vec::new();
    extend_bytes(&mut buf, prefix.as_slice());
    extend_bytes(&mut buf, prefix.as_slice());
    extend_bytes(&mut buf, r_x);
    extend_bytes(&mut buf, p_x);
    extend_bytes(&mut buf, m);
    proof {
        assert(buf@ =~= bip340_challenge_bytes(r_x@, p_x@, m@));
    }
    sha2_256(buf.as_slice())
}

/// The BIP-340 challenge as a scalar: the tagged digest of R.x, P.x and the
/// message, reduced into the scalar field, as its 32-byte encoding.
pub fn bitcoin_sha256_tagged(r_x: &[u8], p_x: &[u8], m: &[u8]) -> (s: Vec<u8>)
    ensures
        s@ == spec_reduce(sha2_256_of(bip340_challenge_bytes(r_x@, p_x@, m@))),
        s@.len() == 32,
{
    let digest = bip340_challenge_digest(r_x, p_x, m);
    scalar_from_digest(digest.as_slice())
}

/// Load a 32-byte x-only public key as the compressed encoding of the curve
/// point with even y, by prefixing an even-parity tag.
pub fn load_xonly_pubkey(pubkey: &[u8]) -> (r: Result<Vec<u8>, VerifyError>)
    ensures
        (r is Ok) <==> (pubkey@.len() == 32 && compressed_point_ok(seq![2u8] + pubkey@)),
        r matches Ok(v) ==> v@ == seq![2u8] + pubkey@,
        r matches Err(e) ==> e == VerifyError::ParseError,
{
    if pubkey.len() != 32 {
        return Err(VerifyError::ParseError);
    }
    let mut buf: Vec<u8> = Vec::new();
    buf.push(2u8);
    extend_bytes(&mut buf, pubkey);
    proof {
        assert(buf@ =~= seq![2u8] + pubkey@);
    }
    if !point_check_compressed(buf.as_slice()) {
        return Err(VerifyError::ParseError);
    }
    Ok(buf)
}

/// Whether the parts of a BIP-340 pair parse: a 32-byte x-only key and a
/// 64-byte signature holding an x-only point then a scalar.
pub open spec fn schnorr_parse_ok(pk: Seq<u8>, sig: Seq<u8>) -> bool {
    &&& sig.len() == 64
    &&& pk.len() == 32
    &&& compressed_point_ok(seq![2u8] + pk)
    &&& compressed_point_ok(seq![2u8] + sig.take(32))
    &&& scalar32_ok(sig.skip(32))
}

/// The BIP-340 challenge scalar for a key, message and signature, as its
/// 32-byte encoding.
pub open spec fn schnorr_challenge(pk: Seq<u8>, m: Seq<u8>, sig: Seq<u8>) -> Seq<u8> {
    spec_reduce(sha2_256_of(bip340_challenge_bytes(sig.take(32), pk, m)))
}

/// The BIP-340 acceptance rule over the named curve result: the recomputed
/// point R' = s·G − e·P must be finite, have even y, and carry exactly the
/// x coordinate that the signature names.
pub open spec fn schnorr_accepts(pk: Seq<u8>, m: Seq<u8>, sig: Seq<u8>) -> bool {
    let rp = lincomb_of(seq![2u8] + pk, spec_neg(schnorr_challenge(pk, m, sig)), sig.skip(32));
    rp.len() == 33 && rp[0] == 2 && rp.skip(1) == sig.take(32)
}

/// Verify a BIP-340 style Schnorr signature: recompute R' = s·G − e·P and
/// accept only a finite R' with even y whose x coordinate equals the
/// signature's R.x.  Fails with `ParseError` exactly when a part does not
/// parse; a well-formed signature passes exactly when the acceptance rule
/// holds.
pub fn btc_schnorr_verify(pubkey: &[u8], message: &[u8], signature: &[u8]) -> (r: Result<
    (),
    VerifyError,
>)
    ensures
        (r == Err::<(), VerifyError>(VerifyError::ParseError)) <==> !schnorr_parse_ok(
            pubkey@,
            signature@,
        ),
        schnorr_parse_ok(pubkey@, signature@) ==> ((r is Ok) <==> schnorr_accepts(
            pubkey@,
            message@,
            signature@,
        )),
        r is Ok || r == Err::<(), VerifyError>(VerifyError::ParseError) || r == Err::<
            (),
            VerifyError,
        >(VerifyError::SignatureInvalid),
{
    if signature.len() != 64 {
        return Err(VerifyError::ParseError);
    }
    if pubkey.len() != 32 {
        return Err(VerifyError::ParseError);
    }
    let p33 = match load_xonly_pubkey(pubkey) {
        Ok(v) => v,
        Err(e) => {
            return Err(e);
        },
    };
    let rx_bytes = vstd::slice::slice_subrange(signature, 0, 32);
    proof {
        assert(rx_bytes@ =~= signature@.take(32));
    }
    match load_xonly_pubkey(rx_bytes) {
        Ok(_) => {},
        Err(e) => {
            return Err(e);
        },
    }
    let s_bytes = vstd::slice::slice_subrange(signature, 32, 64);
    proof {
        assert(s_bytes@ =~= signature@.skip(32));
    }
    if !scalar_check32(s_bytes) {
        return Err(VerifyError::ParseError);
    }
    let e = bitcoin_sha256_tagged(rx_bytes, pubkey, message);
    let e_neg = scalar_neg32(e.as_slice());
    let rp = point_lincomb(p33.as_slice(), e_neg.as_slice(), s_bytes);
    if rp.len() != 33 {
        // R' is the point at infinity.
        return Err(VerifyError::SignatureInvalid);
    }
    if rp[0] == 3 {
        // R' has odd y; only the even-y point is accepted.
        return Err(VerifyError::SignatureInvalid);
    }
    let rp_x = vstd::slice::slice_subrange(rp.as_slice(), 1, 33);
    proof {
        assert(rp_x@ =~= rp@.skip(1));
    }
    if !bytes_eq(rp_x, rx_bytes) {
        return Err(VerifyError::SignatureInvalid);
    }
    Ok(())
}

// ---------------------------------------------------------------------------
// Batch Schnorr verification over a disintegrated batch.
// ---------------------------------------------------------------------------

/// The x-only normalization applied to the batch key: a 33-byte compressed
/// or 65-byte full key drops to its 32-byte x coordinate.
pub open spec fn xonly_norm(pk: Seq<u8>) -> Seq<u8> {
    if pk.len() == 33 || pk.len() == 65 {
        pk.subrange(1, 33)
    } else {
        pk
    }
}

/// Disintegrate a batch message and signature blob at 64-byte width, pair
/// digests with signatures, and verify every pair under the x-only form of
/// `pubkey`, stopping at the first failing index.
pub fn verify_btc_schnorr(pubkey: &[u8], msg: &[u8], sig: &[u8]) -> (r: Result<(), BatchError>)
    ensures
        (r == Err::<(), BatchError>(BatchError::Disintegrate)) <==> (spec_disintegrate(
            msg@,
            sig@,
            false,
        ) is None),
        r is Ok ==> (spec_disintegrate(msg@, sig@, false) matches Some(p) && forall|j: int|
            0 <= j < p.1.len() ==> schnorr_parse_ok(xonly_norm(pubkey@), #[trigger] p.1[j])
                && schnorr_accepts(xonly_norm(pubkey@), p.0[j], p.1[j])),
        ({
            match r {
                Err(BatchError::Pair { index, cause }) => spec_disintegrate(msg@, sig@, false)
                    matches Some(p) && index < p.0.len() && (forall|j: int|
                    0 <= j < index ==> schnorr_parse_ok(xonly_norm(pubkey@), #[trigger] p.1[j])
                        && schnorr_accepts(xonly_norm(pubkey@), p.0[j], p.1[j])) && (cause
                    == VerifyError::ParseError || cause == VerifyError::SignatureInvalid) && ((
                cause == VerifyError::ParseError) <==> !schnorr_parse_ok(
                    xonly_norm(pubkey@),
                    p.1[index as int],
                )) && (cause == VerifyError::SignatureInvalid ==> !schnorr_accepts(
                    xonly_norm(pubkey@),
                    p.0[index as int],
                    p.1[index as int],
                )),
                _ => true,
            }
        }),
{
    let ghost view = |d: Vec<u8>| d@;
    let (msgs, sigs) = match disintegrate_btc_msgs_and_sigs(msg, sig, false) {
        Some(p) => p,
        None => {
            return Err(BatchError::Disintegrate);
        },
    };
    let ghost msgsv = msgs@.map_values(view);
    let ghost sigsv = sigs@.map_values(view);
    let pk_norm: &[u8] = if pubkey.len() == 33 || pubkey.len() == 65 {
        vstd::slice::slice_subrange(pubkey, 1, 33)
    } else {
        pubkey
    };
    proof {
        assert(pk_norm@ == xonly_norm(pubkey@));
    }
    let pairs = match zip(msgs, sigs) {
        Some(p) => p,
        None => {
            // Disintegration guarantees equal, non-zero counts, so the
            // pairing cannot fail here.
            proof {
                assert(false);
            }
            return Err(BatchError::Disintegrate);
        },
    };
    let mut i: usize = 0;
    while i < pairs.len()
        invariant
            pairs@.len() == msgsv.len() == sigsv.len(),
            spec_disintegrate(msg@, sig@, false) == Some((msgsv, sigsv)),
            forall|j: int|
                0 <= j < pairs@.len() ==> (#[trigger] pairs@[j]).0@ == msgsv[j] && pairs@[j].1@
                    == sigsv[j],
            pk_norm@ == xonly_norm(pubkey@),
            forall|j: int|
                0 <= j < i ==> schnorr_parse_ok(xonly_norm(pubkey@), #[trigger] sigsv[j])
                    && schnorr_accepts(xonly_norm(pubkey@), msgsv[j], sigsv[j]),
        decreases pairs@.len() - i,
    {
        let pair = &pairs[i];
        match btc_schnorr_verify(pk_norm, pair.0.as_slice(), pair.1.as_slice()) {
            Ok(()) => {},
            Err(cause) => {
                return Err(BatchError::Pair { index: i, cause });
            },
        }
        i = i + 1;
    }
    Ok(())
}

} // verus!
