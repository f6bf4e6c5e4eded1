//! Trusted surface over the secp256k1 library: parse predicates, scalar
//! arithmetic with exact contracts, and one wrapper per curve operation.
//! Every wrapper takes and returns plain bytes — scalars as 32-byte
//! big-endian values, points as 33-byte compressed encodings, the empty
//! sequence standing for the point at infinity — so each result is a
//! function of its argument bytes alone and can be named.  The group law
//! itself is the trusted primitive; everything around it — lengths,
//! encodings, hash pre-images and the acceptance rules — is verified code.

use vstd::prelude::*;

verus! {

/// The order of the secp256k1 group.
pub open spec fn secp_order() -> int {
    0xFFFFFFFFFFFFFFFFFFFFFFFFFFFFFFFEBAAEDCE6AF48A03BBFD25E8CD0364141int
}

/// The big-endian integer named by the bytes `s`.
pub open spec fn be_u256(s: Seq<u8>) -> int
    decreases s.len(),
{
    if s.len() == 0 {
        0
    } else {
        be_u256(s.drop_last()) * 256 + s.last()
    }
}

/// Whether 64 bytes parse as a compact signature: each half must name an
/// integer below the group order.
pub open spec fn sig64_ok(s: Seq<u8>) -> bool {
    s.len() == 64 && be_u256(s.take(32)) < secp_order() && be_u256(s.skip(32)) < secp_order()
}

/// Whether 32 bytes parse as a secret scalar: non-zero and below the group
/// order.
pub open spec fn scalar32_ok(s: Seq<u8>) -> bool {
    s.len() == 32 && 0 < be_u256(s) && be_u256(s) < secp_order()
}

/// Whether 33 bytes are the compressed encoding of a curve point.
pub uninterp spec fn compressed_point_ok(b: Seq<u8>) -> bool;

/// Whether 65 bytes are the full encoding of a curve point.
pub uninterp spec fn full_point_ok(b: Seq<u8>) -> bool;

/// Whether bytes encode a curve point in any accepted form: 33-byte
/// compressed, 65-byte full or 64-byte raw.
pub uninterp spec fn any_point_ok(b: Seq<u8>) -> bool;

/// Whether a compact signature over a 32-byte digest passes the secp256k1
/// group check against a public key, each given by its bytes.
pub uninterp spec fn ecdsa_valid(digest: Seq<u8>, sig: Seq<u8>, pk: Seq<u8>) -> bool;

/// The compressed public key that a 65-byte recoverable signature recovers
/// to over a digest, or the empty sequence when parsing or recovery fails.
pub uninterp spec fn ecdsa_recover_of(digest: Seq<u8>, sig: Seq<u8>) -> Seq<u8>;

/// Relies on `libsecp256k1::verify`, with `Message::parse`,
/// `Signature::parse_standard_slice` and `PublicKey::parse_slice` converting
/// the arguments: the signature must be 64 bytes with both halves below the
/// group order, the key 33, 64 or 65 bytes naming a curve point, and the
/// verdict is a function of the three byte strings alone.
#[verifier::external_body]
pub(crate) fn ecdsa_raw_verify(digest: &[u8], sig: &[u8], pk: &[u8]) -> (r: Option<bool>)
    requires
        digest@.len() == 32,
    ensures
        (r is Some) <==> (sig64_ok(sig@) && any_point_ok(pk@)),
        r matches Some(b) ==> b == ecdsa_valid(digest@, sig@, pk@),
{
    let mut m = [0u8; 32];
    m.copy_from_slice(digest);
    let message = libsecp256k1::Message::parse(&m);
    let signature = match libsecp256k1::Signature::parse_standard_slice(sig) {
        Ok(s) => s,
        Err(_) => return None,
    };
    let pubkey = match libsecp256k1::PublicKey::parse_slice(pk, None) {
        Ok(p) => p,
        Err(_) => return None,
    };
    Some(libsecp256k1::verify(&message, &signature, &pubkey))
}

/// Relies on `libsecp256k1::recover`, with `Signature::parse_standard_slice`
/// and `RecoveryId::parse` converting the first 64 bytes and the last byte
/// of the signature, and `PublicKey::serialize_compressed` converting the
/// result; any failure yields the empty vector.  A recovered key verifies
/// the signature it was recovered from: `recover_raw` rejects zero r and s
/// and the x-overflow case exactly as `verify_raw` re-checks them, and for
/// P = (s·R − e·G)/r the verifier's point (r·P + e·G)/s is R itself, whose
/// x coordinate matches r by construction; success also means the 64
/// signature bytes parsed compactly and the 33-byte canonical compressed
/// key re-parses under any accepted format.
#[verifier::external_body]
pub(crate) fn ecdsa_raw_recover(digest: &[u8], sig: &[u8]) -> (r: Vec<u8>)
    requires
        digest@.len() == 32,
        sig@.len() == 65,
    ensures
        r@ == ecdsa_recover_of(digest@, sig@),
        r@.len() == 33 || r@.len() == 0,
        r@.len() == 33 ==> sig64_ok(sig@.take(64)),
        r@.len() == 33 ==> any_point_ok(r@),
        r@.len() == 33 ==> ecdsa_valid(digest@, sig@.take(64), r@),
{
    let mut m = [0u8; 32];
    m.copy_from_slice(digest);
    let message = libsecp256k1::Message::parse(&m);
    let signature = match libsecp256k1::Signature::parse_standard_slice(&sig[..64]) {
        Ok(s) => s,
        Err(_) => return Vec::new(),
    };
    let recovery_id = match libsecp256k1::RecoveryId::parse(sig[64]) {
        Ok(id) => id,
        Err(_) => return Vec::new(),
    };
    match libsecp256k1::recover(&message, &signature, &recovery_id) {
        Ok(pk) => pk.serialize_compressed().to_vec(),
        Err(_) => Vec::new(),
    }
}

/// The `n`-byte big-endian encoding of `v`.
pub open spec fn be_bytes(v: int, n: nat) -> Seq<u8>
    decreases n,
{
    if n == 0 {
        Seq::<u8>::empty()
    } else {
        be_bytes(v / 256, (n - 1) as nat) + seq![(v % 256) as u8]
    }
}

/// The canonical 32-byte encoding of a 256-bit value reduced into the
/// scalar field.
pub open spec fn spec_reduce(d: Seq<u8>) -> Seq<u8> {
    be_bytes(be_u256(d) % secp_order(), 32)
}

/// The canonical 32-byte encoding of the additive inverse of a scalar.
pub open spec fn spec_neg(s: Seq<u8>) -> Seq<u8> {
    be_bytes((secp_order() - be_u256(s) % secp_order()) % secp_order(), 32)
}

/// The compressed encoding of na·P + ng·G, where P is the point named by a
/// 33-byte compressed encoding and na, ng are 32-byte scalars reduced into
/// the scalar field; the empty sequence when the encoding does not parse or
/// the resulting point is infinity.
pub uninterp spec fn lincomb_of(p33: Seq<u8>, na: Seq<u8>, ng: Seq<u8>) -> Seq<u8>;

/// The compressed encoding of e·P, with P and e as in [`lincomb_of`]; the
/// empty sequence when the encoding does not parse or the product is
/// infinity.
pub uninterp spec fn point_mul_of(p33: Seq<u8>, e: Seq<u8>) -> Seq<u8>;

/// The compressed encoding of A + B, both points named by 33-byte
/// compressed encodings; the empty sequence when an encoding does not parse
/// or the sum is infinity.
pub uninterp spec fn point_add_of(a33: Seq<u8>, b33: Seq<u8>) -> Seq<u8>;

/// The compressed encoding of s·G for a 32-byte scalar reduced into the
/// scalar field; the empty sequence when the multiple is infinity.
pub uninterp spec fn base_mul_of(s: Seq<u8>) -> Seq<u8>;

/// The compressed encoding of the point named by a 65-byte full encoding;
/// the empty sequence when the encoding does not parse.
pub uninterp spec fn compress_of(p65: Seq<u8>) -> Seq<u8>;

/// Relies on `PublicKey::parse_compressed`: it accepts exactly the 33-byte
/// compressed encodings of a curve point.
#[verifier::external_body]
pub(crate) fn point_check_compressed(b: &[u8]) -> (r: bool)
    requires
        b@.len() == 33,
    ensures
        r == compressed_point_ok(b@),
{
    let mut a = [0u8; 33];
    a.copy_from_slice(b);
    libsecp256k1::PublicKey::parse_compressed(&a).is_ok()
}

/// Relies on `PublicKey::parse_slice` with the full format: it accepts
/// exactly the 65-byte full encodings of a curve point.
#[verifier::external_body]
pub(crate) fn point_check_full(b: &[u8]) -> (r: bool)
    ensures
        r == full_point_ok(b@),
{
    libsecp256k1::PublicKey::parse_slice(b, Some(libsecp256k1::PublicKeyFormat::Full)).is_ok()
}

/// Relies on `SecretKey::parse_slice`: it accepts exactly 32 bytes naming a
/// non-zero integer below the group order.
#[verifier::external_body]
pub(crate) fn scalar_check32(b: &[u8]) -> (r: bool)
    ensures
        r == scalar32_ok(b@),
{
    libsecp256k1::SecretKey::parse_slice(b).is_ok()
}

/// Relies on `Scalar::set_b32` and `Scalar::b32`: loading 32 bytes reduces
/// their value modulo the group order once, and serializing emits its
/// canonical big-endian encoding.
#[verifier::external_body]
pub(crate) fn scalar_from_digest(b: &[u8]) -> (r: Vec<u8>)
    requires
        b@.len() == 32,
    ensures
        r@ == spec_reduce(b@),
        r@.len() == 32,
{
    scalar_of_bytes(b).b32().to_vec()
}

/// Relies on `Scalar::neg` (with `set_b32`/`b32` converting): the additive
/// inverse modulo the group order, canonically encoded.
#[verifier::external_body]
pub(crate) fn scalar_neg32(b: &[u8]) -> (r: Vec<u8>)
    requires
        b@.len() == 32,
    ensures
        r@ == spec_neg(b@),
        r@.len() == 32,
{
    core::ops::Neg::neg(scalar_of_bytes(b)).b32().to_vec()
}

/// Relies on `ECMULT_CONTEXT.ecmult`: the linear combination na·P + ng·G,
/// with the conversion wrappers below turning bytes into a point and
/// scalars and the result back into bytes; the empty vector stands for a
/// key that does not parse or a result at infinity.
#[verifier::external_body]
pub(crate) fn point_lincomb(p33: &[u8], na: &[u8], ng: &[u8]) -> (r: Vec<u8>)
    requires
        p33@.len() == 33,
        na@.len() == 32,
        ng@.len() == 32,
    ensures
        r@ == lincomb_of(p33@, na@, ng@),
        r@.len() == 33 || r@.len() == 0,
        r@.len() == 33 ==> r@[0] == 2 || r@[0] == 3,
{
    let p = match parse33(p33) {
        Some(p) => p,
        None => return Vec::new(),
    };
    let mut pj = libsecp256k1::curve::Jacobian::default();
    pj.set_ge(&p.into());
    let mut rj = libsecp256k1::curve::Jacobian::default();
    libsecp256k1::ECMULT_CONTEXT.ecmult(&mut rj, &pj, &scalar_of_bytes(na), &scalar_of_bytes(ng));
    serialize_point(&rj)
}

/// Relies on `ECMULT_CONTEXT.ecmult_const`: the scalar multiple e·P, with
/// the same conversions as [`point_lincomb`].
#[verifier::external_body]
pub(crate) fn point_mul33(p33: &[u8], e: &[u8]) -> (r: Vec<u8>)
    requires
        p33@.len() == 33,
        e@.len() == 32,
    ensures
        r@ == point_mul_of(p33@, e@),
        r@.len() == 33 || r@.len() == 0,
        r@.len() == 33 ==> r@[0] == 2 || r@[0] == 3,
{
    let p = match parse33(p33) {
        Some(p) => p,
        None => return Vec::new(),
    };
    let mut rj = libsecp256k1::curve::Jacobian::default();
    libsecp256k1::ECMULT_CONTEXT.ecmult_const(&mut rj, &p.into(), &scalar_of_bytes(e));
    serialize_point(&rj)
}

/// Relies on `Jacobian::add_ge`: the sum of two points, with the same
/// conversions as [`point_lincomb`].
#[verifier::external_body]
pub(crate) fn point_add33(a33: &[u8], b33: &[u8]) -> (r: Vec<u8>)
    requires
        a33@.len() == 33,
        b33@.len() == 33,
    ensures
        r@ == point_add_of(a33@, b33@),
        r@.len() == 33 || r@.len() == 0,
        r@.len() == 33 ==> r@[0] == 2 || r@[0] == 3,
{
    let (pa, pb) = match (parse33(a33), parse33(b33)) {
        (Some(a), Some(b)) => (a, b),
        _ => return Vec::new(),
    };
    let mut aj = libsecp256k1::curve::Jacobian::default();
    aj.set_ge(&pa.into());
    serialize_point(&aj.add_ge(&pb.into()))
}

/// Relies on `ECMULT_GEN_CONTEXT.ecmult_gen`: the base-point multiple s·G,
/// with the same conversions as [`point_lincomb`].
#[verifier::external_body]
pub(crate) fn base_mul32(s: &[u8]) -> (r: Vec<u8>)
    requires
        s@.len() == 32,
    ensures
        r@ == base_mul_of(s@),
        r@.len() == 33 || r@.len() == 0,
        r@.len() == 33 ==> r@[0] == 2 || r@[0] == 3,
{
    let mut rj = libsecp256k1::curve::Jacobian::default();
    libsecp256k1::ECMULT_GEN_CONTEXT.ecmult_gen(&mut rj, &scalar_of_bytes(s));
    serialize_point(&rj)
}

/// Relies on `PublicKey::parse_slice` (full format) and
/// `PublicKey::serialize_compressed`: the compressed encoding of the point
/// a 65-byte full encoding names, empty when it does not parse.
#[verifier::external_body]
pub(crate) fn compress_full(p65: &[u8]) -> (r: Vec<u8>)
    ensures
        r@ == compress_of(p65@),
        r@.len() == 33 || r@.len() == 0,
        full_point_ok(p65@) ==> r@.len() == 33,
{
    match libsecp256k1::PublicKey::parse_slice(p65, Some(libsecp256k1::PublicKeyFormat::Full)) {
        Ok(p) => p.serialize_compressed().to_vec(),
        Err(_) => Vec::new(),
    }
}

#[verifier::external_type_specification]
#[verifier::external_body]
pub struct ExPublicKey(libsecp256k1::PublicKey);

#[verifier::external_type_specification]
#[verifier::external_body]
pub struct ExScalar(libsecp256k1::curve::Scalar);

#[verifier::external_type_specification]
#[verifier::external_body]
pub struct ExJacobian(libsecp256k1::curve::Jacobian);

/// Argument conversion shared by the point wrappers; relies on
/// `PublicKey::parse_compressed`.  Called only from trusted bodies.
#[verifier::external_body]
fn parse33(b: &[u8]) -> (r: Option<libsecp256k1::PublicKey>)
    requires
        b@.len() == 33,
{
    let mut enc = [0u8; 33];
    enc.copy_from_slice(b);
    libsecp256k1::PublicKey::parse_compressed(&enc).ok()
}

/// Argument conversion shared by the point wrappers; relies on
/// `Scalar::set_b32`, which reduces modulo the group order.  Called only
/// from trusted bodies.
#[verifier::external_body]
fn scalar_of_bytes(b: &[u8]) -> (r: libsecp256k1::curve::Scalar)
    requires
        b@.len() == 32,
{
    let mut a = [0u8; 32];
    a.copy_from_slice(b);
    let mut s = libsecp256k1::curve::Scalar::default();
    let _ = s.set_b32(&a);
    s
}

/// Result conversion shared by the point wrappers; relies on
/// `Affine::from_gej` and `PublicKey::serialize_compressed`, with the empty
/// vector standing for infinity.  Called only from trusted bodies.
#[verifier::external_body]
fn serialize_point(j: &libsecp256k1::curve::Jacobian) -> (r: Vec<u8>) {
    let aff = libsecp256k1::curve::Affine::from_gej(j);
    match libsecp256k1::PublicKey::try_from(aff) {
        Ok(p) => p.serialize_compressed().to_vec(),
        Err(_) => Vec::new(),
    }
}

} // verus!
