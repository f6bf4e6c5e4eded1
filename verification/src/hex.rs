//! Hex encoding and decoding over raw bytes.
//!
//! Messages arrive hex-encoded; each per-input digest inside a batch is a hex
//! string as well.  Decoding accepts upper- and lower-case digits and fails on
//! an odd length or a non-digit byte; encoding produces lower-case digits.

use vstd::prelude::*;

verus! {

/// Whether `b` is the ASCII code of a hex digit.
pub open spec fn is_hex_digit(b: u8) -> bool {
    (48 <= b && b <= 57)  // '0' ..= '9'
    || (97 <= b && b <= 102)  // 'a' ..= 'f'
    || (65 <= b && b <= 70)  // 'A' ..= 'F'
}

/// Numeric value of the hex digit `b`.
pub open spec fn hex_val(b: u8) -> u8
    recommends
        is_hex_digit(b),
{
    if 48 <= b && b <= 57 {
        (b - 48) as u8
    } else if 97 <= b && b <= 102 {
        (b - 87) as u8
    } else {
        (b - 55) as u8
    }
}

/// The byte written by the two hex digits `hi` then `lo`.
pub open spec fn hex_byte(hi: u8, lo: u8) -> u8
    recommends
        is_hex_digit(hi),
        is_hex_digit(lo),
{
    (hex_val(hi) * 16 + hex_val(lo)) as u8
}

/// ASCII code of the lower-case hex digit for the nibble `n`.
pub open spec fn hex_digit_lower(n: u8) -> u8
    recommends
        n < 16,
{
    if n < 10 {
        (48 + n) as u8
    } else {
        (87 + n) as u8
    }
}

/// The bytes encoded by the ASCII hex text `s`, or `None` when `s` has odd
/// length or holds a byte that is no hex digit.
pub open spec fn spec_hex_decode(s: Seq<u8>) -> Option<Seq<u8>>
    decreases s.len(),
{
    if s.len() == 0 {
        Some(Seq::<u8>::empty())
    } else if s.len() == 1 {
        None
    } else if !is_hex_digit(s[0]) || !is_hex_digit(s[1]) {
        None
    } else {
        match spec_hex_decode(s.skip(2)) {
            Some(rest) => Some(seq![hex_byte(s[0], s[1])] + rest),
            None => None,
        }
    }
}

/// The lower-case ASCII hex text for the bytes `b`.
pub open spec fn spec_hex_encode(b: Seq<u8>) -> Seq<u8>
    decreases b.len(),
{
    if b.len() == 0 {
        Seq::<u8>::empty()
    } else {
        seq![
            hex_digit_lower((b[0] >> 4) as u8),
            hex_digit_lower((b[0] & 0x0f) as u8),
        ] + spec_hex_encode(b.skip(1))
    }
}

/// Decode ASCII hex text into bytes.
pub fn hex_decode(s: &[u8]) -> (r: Option<Vec<u8>>)
    ensures
        match r {
            Some(v) => spec_hex_decode(s@) == Some(v@),
            None => spec_hex_decode(s@) is None,
        },
{
    if s.len() % 2 != 0 {
        proof {
            lemma_hex_decode_odd_len(s@);
        }
        return None;
    }
    let mut out: Vec<u8> = Vec::new();
    let mut i: usize = 0;
    proof {
        assert(s@.skip(0) =~= s@);
    }
    while i < s.len()
        invariant
            i <= s@.len(),
            i % 2 == 0,
            s@.len() % 2 == 0,
            spec_hex_decode(s@) == match spec_hex_decode(s@.skip(i as int)) {
                Some(rest) => Some(out@ + rest),
                None => None::<Seq<u8>>,
            },
        decreases s@.len() - i,
    {
        let hi = s[i];
        let lo = s[i + 1];
        if !hex_digit_ok(hi) || !hex_digit_ok(lo) {
            return None;
        }
        out.push(hex_digit_value(hi) * 16 + hex_digit_value(lo));
        proof {
            assert(s@.skip(i as int).skip(2) =~= s@.skip(i as int + 2));
            assert(s@.skip(i as int)[0] == s@[i as int]);
            assert(s@.skip(i as int)[1] == s@[i as int + 1]);
        }
        i = i + 2;
    }
    proof {
        assert(s@.skip(i as int) =~= Seq::<u8>::empty());
        assert(out@ + Seq::<u8>::empty() =~= out@);
    }
    Some(out)
}

/// Encode bytes as lower-case ASCII hex text.
pub fn hex_encode(b: &[u8]) -> (r: Vec<u8>)
    ensures
        r@ == spec_hex_encode(b@),
{
    let mut out: Vec<u8> = Vec::new();
    let mut i: usize = 0;
    while i < b.len()
        invariant
            i <= b@.len(),
            out@ == spec_hex_encode(b@.take(i as int)),
        decreases b@.len() - i,
    {
        let x = b[i];
        proof {
            assert(x >> 4 < 16 && x & 0x0f < 16) by (bit_vector);
        }
        out.push(hex_nibble_lower(x >> 4));
        out.push(hex_nibble_lower(x & 0x0f));
        proof {
            lemma_hex_encode_push(b@.take(i as int), b@[i as int]);
            assert(b@.take(i as int).push(b@[i as int]) =~= b@.take(i as int + 1));
        }
        i = i + 1;
    }
    proof {
        assert(b@.take(i as int) =~= b@);
    }
    out
}

/// An odd-length text never decodes.
proof fn lemma_hex_decode_odd_len(s: Seq<u8>)
    requires
        s.len() % 2 == 1,
    ensures
        spec_hex_decode(s) is None,
    decreases s.len(),
{
    if s.len() > 1 && is_hex_digit(s[0]) && is_hex_digit(s[1]) {
        lemma_hex_decode_odd_len(s.skip(2));
    }
}

/// Encoding one more byte appends its two digits.
proof fn lemma_hex_encode_push(b: Seq<u8>, x: u8)
    ensures
        spec_hex_encode(b.push(x)) == spec_hex_encode(b) + seq![
            hex_digit_lower((x >> 4) as u8),
            hex_digit_lower((x & 0x0f) as u8),
        ],
    decreases b.len(),
{
    let digits = seq![hex_digit_lower((x >> 4) as u8), hex_digit_lower((x & 0x0f) as u8)];
    if b.len() == 0 {
        assert(b.push(x)[0] == x);
        assert(b.push(x).skip(1) =~= Seq::<u8>::empty());
        assert(spec_hex_encode(Seq::<u8>::empty()) =~= Seq::<u8>::empty());
        assert(spec_hex_encode(b.push(x)) =~= digits);
        assert(spec_hex_encode(b) + digits =~= digits);
    } else {
        assert(b.push(x)[0] == b[0]);
        assert(b.push(x).skip(1) =~= b.skip(1).push(x));
        lemma_hex_encode_push(b.skip(1), x);
        assert(spec_hex_encode(b.push(x)) =~= spec_hex_encode(b) + digits);
    }
}

/// Decoding what was encoded gives the bytes back: hex encoding loses
/// nothing.
pub proof fn lemma_hex_round_trip(b: Seq<u8>)
    ensures
        spec_hex_decode(spec_hex_encode(b)) == Some(b),
    decreases b.len(),
{
    if b.len() == 0 {
        assert(spec_hex_decode(spec_hex_encode(b)) =~= Some(Seq::<u8>::empty()));
        assert(b =~= Seq::<u8>::empty());
    } else {
        let x = b[0];
        let hi = hex_digit_lower((x >> 4) as u8);
        let lo = hex_digit_lower((x & 0x0f) as u8);
        assert(x >> 4 < 16 && x & 0x0f < 16) by (bit_vector);
        assert(is_hex_digit(hi) && is_hex_digit(lo));
        let hv = hex_val(hi);
        let lv = hex_val(lo);
        assert(hv == x >> 4 && lv == x & 0x0f);
        assert(hv * 16 + lv == x) by (bit_vector)
            requires
                hv == x >> 4 && lv == x & 0x0f,
        ;
        lemma_hex_round_trip(b.skip(1));
        let enc = spec_hex_encode(b);
        assert(enc[0] == hi && enc[1] == lo);
        assert(enc.skip(2) =~= spec_hex_encode(b.skip(1)));
        assert(seq![hex_byte(hi, lo)] + b.skip(1) =~= b);
    }
}

/// Exec mirror of [`is_hex_digit`].
fn hex_digit_ok(b: u8) -> (r: bool)
    ensures
        r == is_hex_digit(b),
{
    (48 <= b && b <= 57) || (97 <= b && b <= 102) || (65 <= b && b <= 70)
}

/// Exec mirror of [`hex_val`].
fn hex_digit_value(b: u8) -> (r: u8)
    requires
        is_hex_digit(b),
    ensures
        r == hex_val(b),
        r < 16,
{
    if 48 <= b && b <= 57 {
        b - 48
    } else if 97 <= b && b <= 102 {
        b - 87
    } else {
        b - 55
    }
}

/// Exec mirror of [`hex_digit_lower`].
fn hex_nibble_lower(n: u8) -> (r: u8)
    requires
        n < 16,
    ensures
        r == hex_digit_lower(n),
{
    if n < 10 {
        48 + n
    } else {
        87 + n
    }
}

} // verus!
