//! Wire-format primitives for the batch message layout.
//!
//! A batch travels as a binary blob whose fields decode in declared order:
//! compact-prefixed sequences, UTF-8 strings carried as compact-prefixed
//! byte strings, 64-bit little-endian integers, single-byte discriminants
//! and presence-flagged options.  Every decoder is paired with a spec-level
//! decoder and an encoder, and decoding is proved to be the exact inverse of
//! encoding: re-encoding whatever was decoded reproduces the consumed bytes.

use vstd::prelude::*;
use vstd::arithmetic::div_mod::lemma_fundamental_div_mod_converse;
use vstd::bytes::{spec_u64_from_le_bytes, spec_u64_to_le_bytes, u64_from_le_bytes};
use vstd::bytes::lemma_auto_spec_u64_to_from_le_bytes;
use vstd::slice::{slice_subrange, slice_to_vec};
use vstd::utf8::{decode_utf8, decode_utf8_encode_utf8, encode_utf8, valid_utf8};

verus! {

// ---------------------------------------------------------------------------
// Compact-prefixed unsigned 32-bit integers.
//
// The two low bits of the first byte select the width: 0 for one byte, 1 for
// two, 2 for four, 3 (with zero upper bits) for a full four-byte value after
// the prefix.  The remaining bits hold the value, little endian; each width
// admits only the values that no smaller width can carry.
// ---------------------------------------------------------------------------

/// Value and consumed length of a compact-encoded integer at the front of
/// `s`, or `None` when the bytes are no canonical compact encoding.
pub open spec fn dec_compact(s: Seq<u8>) -> Option<(u32, int)> {
    if s.len() == 0 {
        None
    } else {
        let p = s[0] as int;
        if p % 4 == 0 {
            Some(((p / 4) as u32, 1))
        } else if p % 4 == 1 {
            if s.len() < 2 {
                None
            } else {
                let x = p / 4 + (s[1] as int) * 64;
                if 64 <= x && x <= 16383 {
                    Some((x as u32, 2))
                } else {
                    None
                }
            }
        } else if p % 4 == 2 {
            if s.len() < 4 {
                None
            } else {
                let x = p / 4 + (s[1] as int) * 64 + (s[2] as int) * 16384 + (s[3] as int)
                    * 4194304;
                if 16384 <= x && x <= 1073741823 {
                    Some((x as u32, 4))
                } else {
                    None
                }
            }
        } else {
            if p / 4 != 0 || s.len() < 5 {
                None
            } else {
                let x = (s[1] as int) + (s[2] as int) * 256 + (s[3] as int) * 65536 + (s[4] as int)
                    * 16777216;
                if x >= 1073741824 {
                    Some((x as u32, 5))
                } else {
                    None
                }
            }
        }
    }
}

/// The compact encoding of `n`.
pub open spec fn enc_compact(n: u32) -> Seq<u8> {
    let v = n as int;
    if v < 64 {
        seq![(v * 4) as u8]
    } else if v < 16384 {
        let w = v * 4 + 1;
        seq![(w % 256) as u8, (w / 256) as u8]
    } else if v < 1073741824 {
        let w = v * 4 + 2;
        seq![
            (w % 256) as u8,
            ((w / 256) % 256) as u8,
            ((w / 65536) % 256) as u8,
            (w / 16777216) as u8,
        ]
    } else {
        seq![
            3u8,
            (v % 256) as u8,
            ((v / 256) % 256) as u8,
            ((v / 65536) % 256) as u8,
            (v / 16777216) as u8,
        ]
    }
}

/// Little-endian digit reconstruction: the four bytes of a 32-bit value are
/// recovered by successive division.
proof fn lemma_le4_digits(b0: int, b1: int, b2: int, b3: int, w: int)
    requires
        0 <= b0 < 256,
        0 <= b1 < 256,
        0 <= b2 < 256,
        0 <= b3 < 256,
        w == b0 + 256 * b1 + 65536 * b2 + 16777216 * b3,
    ensures
        w % 256 == b0,
        (w / 256) % 256 == b1,
        (w / 65536) % 256 == b2,
        w / 16777216 == b3,
        0 <= w < 4294967296,
{
    lemma_fundamental_div_mod_converse(w, 256, b1 + 256 * b2 + 65536 * b3, b0);
    lemma_fundamental_div_mod_converse(b1 + 256 * b2 + 65536 * b3, 256, b2 + 256 * b3, b1);
    lemma_fundamental_div_mod_converse(w, 65536, b2 + 256 * b3, b0 + 256 * b1);
    lemma_fundamental_div_mod_converse(b2 + 256 * b3, 256, b3, b2);
    lemma_fundamental_div_mod_converse(w, 16777216, b3, b0 + 256 * b1 + 65536 * b2);
}

/// A decoded compact integer re-encodes to exactly the bytes consumed.
pub proof fn lemma_enc_of_dec_compact(s: Seq<u8>)
    requires
        dec_compact(s) is Some,
    ensures
        ({
            let (n, c) = dec_compact(s).unwrap();
            1 <= c <= s.len() && enc_compact(n) == s.take(c)
        }),
{
    let (n, c) = dec_compact(s).unwrap();
    let p = s[0] as int;
    let v = n as int;
    if p % 4 == 0 {
        lemma_fundamental_div_mod_converse(p, 4, p / 4, 0);
        assert(v < 64);
        assert(v * 4 == p);
        assert(enc_compact(n) =~= s.take(1));
    } else if p % 4 == 1 {
        let s1 = s[1] as int;
        lemma_fundamental_div_mod_converse(p, 4, p / 4, 1);
        let w = v * 4 + 1;
        assert(w == p + 256 * s1);
        lemma_fundamental_div_mod_converse(w, 256, s1, p);
        assert(enc_compact(n) =~= s.take(2));
    } else if p % 4 == 2 {
        let s1 = s[1] as int;
        let s2 = s[2] as int;
        let s3 = s[3] as int;
        lemma_fundamental_div_mod_converse(p, 4, p / 4, 2);
        let w = v * 4 + 2;
        assert(w == p + 256 * s1 + 65536 * s2 + 16777216 * s3);
        lemma_le4_digits(p, s1, s2, s3, w);
        assert(enc_compact(n) =~= s.take(4));
    } else {
        assert(p == 3);
        let s1 = s[1] as int;
        let s2 = s[2] as int;
        let s3 = s[3] as int;
        let s4 = s[4] as int;
        lemma_le4_digits(s1, s2, s3, s4, v);
        assert(enc_compact(n) =~= s.take(5));
    }
}

/// Decode a compact integer at offset `pos`; returns the value and the
/// position of the first byte after it.
pub fn compact_decode(s: &[u8], pos: usize) -> (r: Option<(u32, usize)>)
    requires
        pos <= s@.len(),
    ensures
        match r {
            Some(p) => dec_compact(s@.skip(pos as int)) == Some((p.0, p.1 - pos as int)) && pos
                < p.1 <= s@.len(),
            None => dec_compact(s@.skip(pos as int)) is None,
        },
{
    let ghost t = s@.skip(pos as int);
    if pos >= s.len() {
        return None;
    }
    let p = s[pos];
    proof {
        assert(t[0] == s@[pos as int]);
    }
    if p % 4 == 0 {
        Some(((p / 4) as u32, pos + 1))
    } else if p % 4 == 1 {
        if s.len() - pos < 2 {
            return None;
        }
        proof {
            assert(t[1] == s@[pos as int + 1]);
        }
        let x: u32 = (p / 4) as u32 + (s[pos + 1] as u32) * 64;
        if 64 <= x && x <= 16383 {
            Some((x, pos + 2))
        } else {
            None
        }
    } else if p % 4 == 2 {
        if s.len() - pos < 4 {
            return None;
        }
        proof {
            assert(t[1] == s@[pos as int + 1]);
            assert(t[2] == s@[pos as int + 2]);
            assert(t[3] == s@[pos as int + 3]);
        }
        let x: u32 = (p / 4) as u32 + (s[pos + 1] as u32) * 64 + (s[pos + 2] as u32) * 16384 + (s[pos
            + 3] as u32) * 4194304;
        if 16384 <= x && x <= 1073741823 {
            Some((x, pos + 4))
        } else {
            None
        }
    } else {
        if p / 4 != 0 || s.len() - pos < 5 {
            return None;
        }
        proof {
            assert(t[1] == s@[pos as int + 1]);
            assert(t[2] == s@[pos as int + 2]);
            assert(t[3] == s@[pos as int + 3]);
            assert(t[4] == s@[pos as int + 4]);
        }
        let x: u32 = (s[pos + 1] as u32) + (s[pos + 2] as u32) * 256 + (s[pos + 3] as u32) * 65536 + (
        s[pos + 4] as u32) * 16777216;
        if x >= 1073741824 {
            Some((x, pos + 5))
        } else {
            None
        }
    }
}

/// Append the compact encoding of `n` to `out`.
pub fn compact_encode(n: u32, out: &mut Vec<u8>)
    ensures
        final(out)@ == old(out)@ + enc_compact(n),
{
    if n < 64 {
        out.push((n as u8) * 4);
        proof {
            assert(old(out)@.push(((n as int) * 4) as u8) =~= old(out)@ + enc_compact(n));
        }
    } else if n < 16384 {
        let w: u32 = n * 4 + 1;
        out.push((w % 256) as u8);
        out.push((w / 256) as u8);
        proof {
            assert(final(out)@ =~= old(out)@ + enc_compact(n));
        }
    } else if n < 1073741824 {
        let w: u32 = n * 4 + 2;
        out.push((w % 256) as u8);
        out.push(((w / 256) % 256) as u8);
        out.push(((w / 65536) % 256) as u8);
        out.push((w / 16777216) as u8);
        proof {
            assert(final(out)@ =~= old(out)@ + enc_compact(n));
        }
    } else {
        out.push(3u8);
        out.push((n % 256) as u8);
        out.push(((n / 256) % 256) as u8);
        out.push(((n / 65536) % 256) as u8);
        out.push((n / 16777216) as u8);
        proof {
            assert(final(out)@ =~= old(out)@ + enc_compact(n));
        }
    }
}

// ---------------------------------------------------------------------------
// Compact-prefixed byte strings.
// ---------------------------------------------------------------------------

/// Contents and consumed length of a compact-length byte string at the front
/// of `s`.
pub open spec fn dec_bytes(s: Seq<u8>) -> Option<(Seq<u8>, int)> {
    match dec_compact(s) {
        Some((n, c)) => {
            if s.len() >= c + n {
                Some((s.subrange(c, c + n), c + n))
            } else {
                None
            }
        },
        None => None,
    }
}

/// The compact-length encoding of the byte string `b`.
pub open spec fn enc_bytes(b: Seq<u8>) -> Seq<u8> {
    enc_compact(b.len() as u32) + b
}

/// A decoded byte string re-encodes to exactly the bytes consumed.
pub proof fn lemma_enc_of_dec_bytes(s: Seq<u8>)
    requires
        dec_bytes(s) is Some,
    ensures
        ({
            let (b, c) = dec_bytes(s).unwrap();
            1 <= c <= s.len() && b.len() < 4294967296 && enc_bytes(b) == s.take(c)
        }),
{
    let (n, c0) = dec_compact(s).unwrap();
    let (b, c) = dec_bytes(s).unwrap();
    lemma_enc_of_dec_compact(s);
    assert(b.len() == n);
    assert((b.len() as u32) == n);
    assert(enc_bytes(b) =~= s.take(c));
}

/// Decode a compact-length byte string at offset `pos`.
pub fn bytes_decode(s: &[u8], pos: usize) -> (r: Option<(Vec<u8>, usize)>)
    requires
        pos <= s@.len(),
    ensures
        match r {
            Some(p) => dec_bytes(s@.skip(pos as int)) == Some((p.0@, p.1 - pos as int)) && pos
                <= p.1 <= s@.len(),
            None => dec_bytes(s@.skip(pos as int)) is None,
        },
{
    let ghost t = s@.skip(pos as int);
    match compact_decode(s, pos) {
        Some((n, np)) => {
            if (n as usize) <= s.len() - np {
                let chunk = slice_subrange(s, np, np + n as usize);
                let v = slice_to_vec(chunk);
                proof {
                    assert(t.subrange(np - pos as int, np - pos as int + n as int) =~= s@.subrange(
                        np as int,
                        np as int + n as int,
                    ));
                }
                Some((v, np + n as usize))
            } else {
                None
            }
        },
        None => None,
    }
}

/// Append the compact-length encoding of `b` to `out`.
pub fn bytes_encode(b: &[u8], out: &mut Vec<u8>)
    requires
        b@.len() < 4294967296,
    ensures
        final(out)@ == old(out)@ + enc_bytes(b@),
{
    compact_encode(b.len() as u32, out);
    extend_bytes(out, b);
    proof {
        assert(final(out)@ =~= old(out)@ + enc_bytes(b@));
    }
}

/// Whether two byte strings hold the same bytes.
pub fn bytes_eq(a: &[u8], b: &[u8]) -> (r: bool)
    ensures
        r == (a@ == b@),
{
    if a.len() != b.len() {
        return false;
    }
    let mut i: usize = 0;
    while i < a.len()
        invariant
            a@.len() == b@.len(),
            i <= a@.len(),
            forall|j: int| 0 <= j < i ==> a@[j] == b@[j],
        decreases a@.len() - i,
    {
        if a[i] != b[i] {
            return false;
        }
        i = i + 1;
    }
    proof {
        assert(a@ =~= b@);
    }
    true
}

/// Append all of `b` to `out`.
pub fn extend_bytes(out: &mut Vec<u8>, b: &[u8])
    ensures
        final(out)@ == old(out)@ + b@,
{
    let mut i: usize = 0;
    while i < b.len()
        invariant
            i <= b@.len(),
            out@ == old(out)@ + b@.take(i as int),
        decreases b@.len() - i,
    {
        out.push(b[i]);
        proof {
            assert(old(out)@ + b@.take(i as int + 1) =~= (old(out)@ + b@.take(i as int)).push(
                b@[i as int],
            ));
        }
        i = i + 1;
    }
    proof {
        assert(b@.take(i as int) =~= b@);
    }
}

// ---------------------------------------------------------------------------
// Strings: compact-prefixed UTF-8 bytes.
// ---------------------------------------------------------------------------

/// Characters and consumed length of a string at the front of `s`: a
/// compact-length byte string that must be valid UTF-8.
pub open spec fn dec_string(s: Seq<u8>) -> Option<(Seq<char>, int)> {
    match dec_bytes(s) {
        Some((b, c)) => {
            if valid_utf8(b) {
                Some((decode_utf8(b), c))
            } else {
                None
            }
        },
        None => None,
    }
}

/// The wire encoding of the character sequence `cs`.
pub open spec fn enc_string(cs: Seq<char>) -> Seq<u8> {
    enc_bytes(encode_utf8(cs))
}

/// A decoded string re-encodes to exactly the bytes consumed.
pub proof fn lemma_enc_of_dec_string(s: Seq<u8>)
    requires
        dec_string(s) is Some,
    ensures
        ({
            let (cs, c) = dec_string(s).unwrap();
            1 <= c <= s.len() && encode_utf8(cs).len() < 4294967296 && enc_string(cs) == s.take(c)
        }),
{
    let (b, c) = dec_bytes(s).unwrap();
    lemma_enc_of_dec_bytes(s);
    decode_utf8_encode_utf8(b);
}

/// Relies on `String::from_utf8`: it succeeds exactly on valid UTF-8 input
/// and returns the string made of those bytes.
#[verifier::external_body]
fn string_from_utf8(v: Vec<u8>) -> (r: Option<String>)
    ensures
        r is Some <==> valid_utf8(v@),
        r matches Some(s) ==> s@ == decode_utf8(v@),
{
    String::from_utf8(v).ok()
}

/// Decode a string at offset `pos`.
pub fn string_decode(s: &[u8], pos: usize) -> (r: Option<(String, usize)>)
    requires
        pos <= s@.len(),
    ensures
        match r {
            Some(p) => dec_string(s@.skip(pos as int)) == Some((p.0@, p.1 - pos as int)) && pos
                <= p.1 <= s@.len(),
            None => dec_string(s@.skip(pos as int)) is None,
        },
{
    match bytes_decode(s, pos) {
        Some((b, np)) => {
            match string_from_utf8(b) {
                Some(st) => Some((st, np)),
                None => None,
            }
        },
        None => None,
    }
}

/// Append the wire encoding of `st` to `out`.
pub fn string_encode(st: &str, out: &mut Vec<u8>)
    requires
        encode_utf8(st@).len() < 4294967296,
    ensures
        final(out)@ == old(out)@ + enc_string(st@),
{
    let b = st.as_bytes();
    bytes_encode(b, out);
}

// ---------------------------------------------------------------------------
// Sequences of 64-bit little-endian integers.
// ---------------------------------------------------------------------------

/// One 64-bit little-endian integer at the front of `s`.
pub open spec fn dec_u64(s: Seq<u8>) -> Option<(u64, int)> {
    if s.len() >= 8 {
        Some((spec_u64_from_le_bytes(s.take(8)), 8))
    } else {
        None
    }
}

/// Exactly `n` integers at the front of `s`.
pub open spec fn dec_u64_items(s: Seq<u8>, n: int) -> Option<(Seq<u64>, int)>
    decreases n,
{
    if n <= 0 {
        Some((Seq::<u64>::empty(), 0))
    } else {
        match dec_u64(s) {
            Some((v, c)) => {
                match dec_u64_items(s.skip(c), n - 1) {
                    Some((vs, c2)) => Some((seq![v] + vs, c + c2)),
                    None => None,
                }
            },
            None => None,
        }
    }
}

/// A compact-prefixed sequence of integers at the front of `s`.
pub open spec fn dec_u64_list(s: Seq<u8>) -> Option<(Seq<u64>, int)> {
    match dec_compact(s) {
        Some((n, c)) => {
            match dec_u64_items(s.skip(c), n as int) {
                Some((vs, c2)) => Some((vs, c + c2)),
                None => None,
            }
        },
        None => None,
    }
}

/// The encodings of the integers `vs`, concatenated.
pub open spec fn enc_u64_items(vs: Seq<u64>) -> Seq<u8>
    decreases vs.len(),
{
    if vs.len() == 0 {
        Seq::<u8>::empty()
    } else {
        spec_u64_to_le_bytes(vs[0]) + enc_u64_items(vs.skip(1))
    }
}

/// The wire encoding of the integer sequence `vs`.
pub open spec fn enc_u64_list(vs: Seq<u64>) -> Seq<u8> {
    enc_compact(vs.len() as u32) + enc_u64_items(vs)
}

/// Decoded integer items re-encode to exactly the bytes consumed.
proof fn lemma_enc_of_dec_u64_items(s: Seq<u8>, n: int)
    requires
        dec_u64_items(s, n) is Some,
    ensures
        ({
            let (vs, c) = dec_u64_items(s, n).unwrap();
            vs.len() == if n <= 0 {
                0
            } else {
                n
            } && 0 <= c <= s.len() && enc_u64_items(vs) == s.take(c)
        }),
    decreases n,
{
    lemma_auto_spec_u64_to_from_le_bytes();
    if n <= 0 {
        let (vs, c) = dec_u64_items(s, n).unwrap();
        assert(enc_u64_items(vs) =~= s.take(0));
    } else {
        let (v, c) = dec_u64(s).unwrap();
        let (vs, c2) = dec_u64_items(s.skip(8), n - 1).unwrap();
        lemma_enc_of_dec_u64_items(s.skip(8), n - 1);
        let all = seq![v] + vs;
        assert(all[0] == v);
        assert(all.skip(1) =~= vs);
        assert(spec_u64_to_le_bytes(v) =~= s.take(8));
        assert(s.skip(8).take(c2) =~= s.take(8 + c2).skip(8));
        assert(enc_u64_items(all) =~= s.take(8 + c2));
    }
}

/// A decoded integer list re-encodes to exactly the bytes consumed.
pub proof fn lemma_enc_of_dec_u64_list(s: Seq<u8>)
    requires
        dec_u64_list(s) is Some,
    ensures
        ({
            let (vs, c) = dec_u64_list(s).unwrap();
            0 <= c <= s.len() && vs.len() < 4294967296 && enc_u64_list(vs) == s.take(c)
        }),
{
    let (n, c) = dec_compact(s).unwrap();
    let (vs, c2) = dec_u64_items(s.skip(c), n as int).unwrap();
    lemma_enc_of_dec_compact(s);
    lemma_enc_of_dec_u64_items(s.skip(c), n as int);
    assert((vs.len() as u32) == n);
    assert(s.skip(c).take(c2) =~= s.take(c + c2).skip(c));
    assert(s.take(c + c2).take(c) =~= s.take(c));
    assert(enc_u64_list(vs) =~= s.take(c + c2));
}

/// Decode a compact-prefixed sequence of integers at offset `pos`.
pub fn u64_list_decode(s: &[u8], pos: usize) -> (r: Option<(Vec<u64>, usize)>)
    requires
        pos <= s@.len(),
    ensures
        match r {
            Some(p) => dec_u64_list(s@.skip(pos as int)) == Some((p.0@, p.1 - pos as int)) && pos
                <= p.1 <= s@.len(),
            None => dec_u64_list(s@.skip(pos as int)) is None,
        },
{
    let ghost t = s@.skip(pos as int);
    match compact_decode(s, pos) {
        Some((n, start)) => {
            let ghost c = start - pos as int;
            let mut out: Vec<u64> = Vec::new();
            let mut i: u32 = 0;
            let mut np: usize = start;
            proof {
                assert(t.skip(c) =~= s@.skip(start as int));
                if dec_u64_items(s@.skip(start as int), n as int) is Some {
                    let (vs, c2) = dec_u64_items(s@.skip(start as int), n as int).unwrap();
                    assert(Seq::<u64>::empty() + vs =~= vs);
                }
            }
            while i < n
                invariant
                    pos <= start <= np <= s@.len(),
                    i <= n,
                    out@.len() == i,
                    t == s@.skip(pos as int),
                    c == start - pos as int,
                    dec_compact(t) == Some((n, c)),
                    dec_u64_items(t.skip(c), n as int) == match dec_u64_items(
                        s@.skip(np as int),
                        n - i,
                    ) {
                        Some(p) => Some((out@ + p.0, (np - start) + p.1)),
                        None => None::<(Seq<u64>, int)>,
                    },
                decreases n - i,
            {
                if s.len() - np < 8 {
                    return None;
                }
                let chunk = slice_subrange(s, np, np + 8);
                let v = u64_from_le_bytes(chunk);
                proof {
                    assert(s@.subrange(np as int, np as int + 8) =~= s@.skip(np as int).take(8));
                    assert(s@.skip(np as int).skip(8) =~= s@.skip(np as int + 8));
                    if dec_u64_items(s@.skip(np as int + 8), n - i - 1) is Some {
                        let (vs2, c2) = dec_u64_items(s@.skip(np as int + 8), n - i - 1).unwrap();
                        assert(out@.push(v) + vs2 =~= out@ + (seq![v] + vs2));
                    }
                }
                out.push(v);
                np = np + 8;
                i = i + 1;
            }
            proof {
                assert(dec_u64_items(s@.skip(np as int), 0) == Some((Seq::<u64>::empty(), 0int)));
                assert(out@ + Seq::<u64>::empty() =~= out@);
            }
            Some((out, np))
        },
        None => None,
    }
}

/// Append the wire encoding of `vs` to `out`.
pub fn u64_list_encode(vs: &Vec<u64>, out: &mut Vec<u8>)
    requires
        vs@.len() < 4294967296,
    ensures
        final(out)@ == old(out)@ + enc_u64_list(vs@),
{
    compact_encode(vs.len() as u32, out);
    let mut i: usize = 0;
    while i < vs.len()
        invariant
            i <= vs@.len(),
            vs@.len() < 4294967296,
            out@ == old(out)@ + enc_compact(vs@.len() as u32) + enc_u64_items(vs@.take(i as int)),
        decreases vs@.len() - i,
    {
        let b = vstd::bytes::u64_to_le_bytes(vs[i]);
        extend_bytes(out, b.as_slice());
        proof {
            lemma_enc_u64_items_push(vs@.take(i as int), vs@[i as int]);
            assert(vs@.take(i as int).push(vs@[i as int]) =~= vs@.take(i as int + 1));
        }
        i = i + 1;
    }
    proof {
        assert(vs@.take(i as int) =~= vs@);
        assert(final(out)@ =~= old(out)@ + enc_u64_list(vs@));
    }
}

/// Encoding one more integer appends its eight bytes.
proof fn lemma_enc_u64_items_push(vs: Seq<u64>, x: u64)
    ensures
        enc_u64_items(vs.push(x)) == enc_u64_items(vs) + spec_u64_to_le_bytes(x),
    decreases vs.len(),
{
    if vs.len() == 0 {
        assert(vs.push(x)[0] == x);
        assert(vs.push(x).skip(1) =~= Seq::<u64>::empty());
        assert(enc_u64_items(Seq::<u64>::empty()) =~= Seq::<u8>::empty());
        assert(enc_u64_items(vs.push(x)) =~= enc_u64_items(vs) + spec_u64_to_le_bytes(x));
    } else {
        assert(vs.push(x)[0] == vs[0]);
        assert(vs.push(x).skip(1) =~= vs.skip(1).push(x));
        lemma_enc_u64_items_push(vs.skip(1), x);
        assert(enc_u64_items(vs.push(x)) =~= enc_u64_items(vs) + spec_u64_to_le_bytes(x));
    }
}

// ---------------------------------------------------------------------------
// Sequences of strings.
// ---------------------------------------------------------------------------

/// Exactly `n` strings at the front of `s`.
pub open spec fn dec_string_items(s: Seq<u8>, n: int) -> Option<(Seq<Seq<char>>, int)>
    decreases n,
{
    if n <= 0 {
        Some((Seq::<Seq<char>>::empty(), 0))
    } else {
        match dec_string(s) {
            Some((cs, c)) => {
                match dec_string_items(s.skip(c), n - 1) {
                    Some((css, c2)) => Some((seq![cs] + css, c + c2)),
                    None => None,
                }
            },
            None => None,
        }
    }
}

/// A compact-prefixed sequence of strings at the front of `s`.
pub open spec fn dec_string_list(s: Seq<u8>) -> Option<(Seq<Seq<char>>, int)> {
    match dec_compact(s) {
        Some((n, c)) => {
            match dec_string_items(s.skip(c), n as int) {
                Some((css, c2)) => Some((css, c + c2)),
                None => None,
            }
        },
        None => None,
    }
}

/// The encodings of the strings `css`, concatenated.
pub open spec fn enc_string_items(css: Seq<Seq<char>>) -> Seq<u8>
    decreases css.len(),
{
    if css.len() == 0 {
        Seq::<u8>::empty()
    } else {
        enc_string(css[0]) + enc_string_items(css.skip(1))
    }
}

/// The wire encoding of the string sequence `css`.
pub open spec fn enc_string_list(css: Seq<Seq<char>>) -> Seq<u8> {
    enc_compact(css.len() as u32) + enc_string_items(css)
}

/// Decoded string items re-encode to exactly the bytes consumed.
proof fn lemma_enc_of_dec_string_items(s: Seq<u8>, n: int)
    requires
        dec_string_items(s, n) is Some,
    ensures
        ({
            let (css, c) = dec_string_items(s, n).unwrap();
            css.len() == if n <= 0 {
                0
            } else {
                n
            } && 0 <= c <= s.len() && enc_string_items(css) == s.take(c)
        }),
    decreases n,
{
    if n <= 0 {
        let (css, c) = dec_string_items(s, n).unwrap();
        assert(enc_string_items(css) =~= s.take(0));
    } else {
        let (cs, c) = dec_string(s).unwrap();
        let (css, c2) = dec_string_items(s.skip(c), n - 1).unwrap();
        lemma_enc_of_dec_string(s);
        lemma_enc_of_dec_string_items(s.skip(c), n - 1);
        let all = seq![cs] + css;
        assert(all[0] == cs);
        assert(all.skip(1) =~= css);
        assert(s.skip(c).take(c2) =~= s.take(c + c2).skip(c));
        assert(s.take(c + c2).take(c) =~= s.take(c));
        assert(enc_string_items(all) =~= s.take(c + c2));
    }
}

/// A decoded string list re-encodes to exactly the bytes consumed.
pub proof fn lemma_enc_of_dec_string_list(s: Seq<u8>)
    requires
        dec_string_list(s) is Some,
    ensures
        ({
            let (css, c) = dec_string_list(s).unwrap();
            0 <= c <= s.len() && css.len() < 4294967296 && enc_string_list(css) == s.take(c)
        }),
{
    let (n, c) = dec_compact(s).unwrap();
    let (css, c2) = dec_string_items(s.skip(c), n as int).unwrap();
    lemma_enc_of_dec_compact(s);
    lemma_enc_of_dec_string_items(s.skip(c), n as int);
    assert((css.len() as u32) == n);
    assert(s.skip(c).take(c2) =~= s.take(c + c2).skip(c));
    assert(s.take(c + c2).take(c) =~= s.take(c));
    assert(enc_string_list(css) =~= s.take(c + c2));
}

/// Decode a compact-prefixed sequence of strings at offset `pos`.
pub fn string_list_decode(s: &[u8], pos: usize) -> (r: Option<(Vec<String>, usize)>)
    requires
        pos <= s@.len(),
    ensures
        match r {
            Some(p) => dec_string_list(s@.skip(pos as int)) == Some(
                (p.0@.map_values(|st: String| st@), p.1 - pos as int),
            ) && pos <= p.1 <= s@.len(),
            None => dec_string_list(s@.skip(pos as int)) is None,
        },
{
    let ghost t = s@.skip(pos as int);
    match compact_decode(s, pos) {
        Some((n, start)) => {
            let ghost c = start - pos as int;
            let mut out: Vec<String> = Vec::new();
            let mut i: u32 = 0;
            let mut np: usize = start;
            proof {
                assert(t.skip(c) =~= s@.skip(start as int));
                assert(out@.map_values(|st: String| st@) =~= Seq::<Seq<char>>::empty());
                if dec_string_items(s@.skip(start as int), n as int) is Some {
                    let (css, c2) = dec_string_items(s@.skip(start as int), n as int).unwrap();
                    assert(Seq::<Seq<char>>::empty() + css =~= css);
                }
            }
            while i < n
                invariant
                    pos <= start <= np <= s@.len(),
                    i <= n,
                    out@.len() == i,
                    t == s@.skip(pos as int),
                    c == start - pos as int,
                    dec_compact(t) == Some((n, c)),
                    dec_string_items(t.skip(c), n as int) == match dec_string_items(
                        s@.skip(np as int),
                        n - i,
                    ) {
                        Some(p) => Some(
                            (out@.map_values(|st: String| st@) + p.0, (np - start) + p.1),
                        ),
                        None => None::<(Seq<Seq<char>>, int)>,
                    },
                decreases n - i,
            {
                let ghost prev = out@.map_values(|st: String| st@);
                match string_decode(s, np) {
                    Some((st, np2)) => {
                        proof {
                            assert(s@.skip(np as int).skip(np2 - np as int) =~= s@.skip(
                                np2 as int,
                            ));
                            if dec_string_items(s@.skip(np2 as int), n - i - 1) is Some {
                                let (css2, c2) = dec_string_items(
                                    s@.skip(np2 as int),
                                    n - i - 1,
                                ).unwrap();
                                assert(prev.push(st@) + css2 =~= prev + (seq![st@] + css2));
                            }
                        }
                        let ghost stv = st@;
                        out.push(st);
                        np = np2;
                        i = i + 1;
                        proof {
                            assert(out@.map_values(|st: String| st@) =~= prev.push(stv));
                        }
                    },
                    None => {
                        return None;
                    },
                }
            }
            proof {
                assert(dec_string_items(s@.skip(np as int), 0) == Some(
                    (Seq::<Seq<char>>::empty(), 0int),
                ));
                assert(out@.map_values(|st: String| st@) + Seq::<Seq<char>>::empty()
                    =~= out@.map_values(|st: String| st@));
            }
            Some((out, np))
        },
        None => None,
    }
}

/// Append the wire encoding of `vs` to `out`.
pub fn string_list_encode(vs: &Vec<String>, out: &mut Vec<u8>)
    requires
        vs@.len() < 4294967296,
        forall|i: int|
            0 <= i < vs@.len() ==> #[trigger] encode_utf8(vs@[i]@).len() < 4294967296,
    ensures
        final(out)@ == old(out)@ + enc_string_list(vs@.map_values(|st: String| st@)),
{
    let ghost view = vs@.map_values(|st: String| st@);
    compact_encode(vs.len() as u32, out);
    let mut i: usize = 0;
    while i < vs.len()
        invariant
            i <= vs@.len(),
            vs@.len() < 4294967296,
            view == vs@.map_values(|st: String| st@),
            forall|j: int|
                0 <= j < vs@.len() ==> #[trigger] encode_utf8(vs@[j]@).len() < 4294967296,
            out@ == old(out)@ + enc_compact(vs@.len() as u32) + enc_string_items(
                view.take(i as int),
            ),
        decreases vs@.len() - i,
    {
        let st: &String = &vs[i];
        string_encode(st.as_str(), out);
        proof {
            lemma_enc_string_items_push(view.take(i as int), view[i as int]);
            assert(view.take(i as int).push(view[i as int]) =~= view.take(i as int + 1));
        }
        i = i + 1;
    }
    proof {
        assert(view.take(i as int) =~= view);
        assert(final(out)@ =~= old(out)@ + enc_string_list(view));
    }
}

/// Encoding one more string appends its encoding.
proof fn lemma_enc_string_items_push(css: Seq<Seq<char>>, cs: Seq<char>)
    ensures
        enc_string_items(css.push(cs)) == enc_string_items(css) + enc_string(cs),
    decreases css.len(),
{
    if css.len() == 0 {
        assert(css.push(cs)[0] == cs);
        assert(css.push(cs).skip(1) =~= Seq::<Seq<char>>::empty());
        assert(enc_string_items(Seq::<Seq<char>>::empty()) =~= Seq::<u8>::empty());
        assert(enc_string_items(css.push(cs)) =~= enc_string_items(css) + enc_string(cs));
    } else {
        assert(css.push(cs)[0] == css[0]);
        assert(css.push(cs).skip(1) =~= css.skip(1).push(cs));
        lemma_enc_string_items_push(css.skip(1), cs);
        assert(enc_string_items(css.push(cs)) =~= enc_string_items(css) + enc_string(cs));
    }
}

} // verus!
