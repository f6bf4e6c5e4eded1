//! Bridge transaction batches: wire decoding, structural validation, and
//! disintegration into digest and signature lists.

use vstd::prelude::*;
use vstd::utf8::encode_utf8;
use crate::error::VerifyError;
use crate::hex::{hex_decode, spec_hex_decode};
use crate::wire::{
    bytes_decode, bytes_encode, compact_decode, compact_encode, dec_bytes, dec_compact, dec_string,
    dec_string_list, dec_u64_list, enc_bytes, enc_compact, enc_string, enc_string_list,
    enc_u64_list, lemma_enc_of_dec_bytes, lemma_enc_of_dec_compact, lemma_enc_of_dec_string,
    lemma_enc_of_dec_string_list, lemma_enc_of_dec_u64_list, string_decode, string_encode,
    string_list_decode, string_list_encode, u64_list_decode, u64_list_encode,
};

verus! {

/// Classification of a Bitcoin-family batch, fixing how many transactions it
/// must carry.
#[derive(Clone, Copy, PartialEq, Eq, Structural, Debug)]
pub enum AssetType {
    Native,
    Brc20,
    Runes,
}

/// One transaction of a batch: its raw encoding as a hex string, the hex
/// digests to sign (one per input), and the input amounts.
#[derive(Clone, Debug, PartialEq, Eq)]
pub struct BtcSingleTx {
    pub raw_hex: String,
    pub hash_to_sign: Vec<String>,
    pub input_values: Vec<u64>,
}

/// A batch of transactions with its asset discriminant and optional
/// auxiliary taproot payload.
#[derive(Clone, Debug, PartialEq, Eq)]
pub struct BtcTxMessage {
    pub txs: Vec<BtcSingleTx>,
    pub asset: AssetType,
    pub taproot_data: Option<Vec<u8>>,
}

/// Mathematical model of a single transaction.
pub struct SingleTxView {
    pub raw_hex: Seq<char>,
    pub hash_to_sign: Seq<Seq<char>>,
    pub input_values: Seq<u64>,
}

/// Mathematical model of a batch.
pub struct BatchView {
    pub txs: Seq<SingleTxView>,
    pub asset: AssetType,
    pub taproot_data: Option<Seq<u8>>,
}

impl View for BtcSingleTx {
    type V = SingleTxView;

    open spec fn view(&self) -> SingleTxView {
        SingleTxView {
            raw_hex: self.raw_hex@,
            hash_to_sign: self.hash_to_sign@.map_values(|st: String| st@),
            input_values: self.input_values@,
        }
    }
}

impl View for BtcTxMessage {
    type V = BatchView;

    open spec fn view(&self) -> BatchView {
        BatchView {
            txs: self.txs@.map_values(|t: BtcSingleTx| t@),
            asset: self.asset,
            taproot_data: match self.taproot_data {
                Some(b) => Some(b@),
                None => None,
            },
        }
    }
}

// ---------------------------------------------------------------------------
// Wire layout of a batch.
// ---------------------------------------------------------------------------

/// One transaction record at the front of `s`: raw hex string, digest
/// strings, input values, in declared order.
pub open spec fn dec_tx(s: Seq<u8>) -> Option<(SingleTxView, int)> {
    match dec_string(s) {
        Some((raw, c1)) => match dec_string_list(s.skip(c1)) {
            Some((hs, c2)) => match dec_u64_list(s.skip(c1 + c2)) {
                Some((ivs, c3)) => Some(
                    (
                        SingleTxView { raw_hex: raw, hash_to_sign: hs, input_values: ivs },
                        c1 + c2 + c3,
                    ),
                ),
                None => None,
            },
            None => None,
        },
        None => None,
    }
}

/// Exactly `n` transaction records at the front of `s`.
pub open spec fn dec_tx_items(s: Seq<u8>, n: int) -> Option<(Seq<SingleTxView>, int)>
    decreases n,
{
    if n <= 0 {
        Some((Seq::<SingleTxView>::empty(), 0))
    } else {
        match dec_tx(s) {
            Some((t, c)) => {
                match dec_tx_items(s.skip(c), n - 1) {
                    Some((ts, c2)) => Some((seq![t] + ts, c + c2)),
                    None => None,
                }
            },
            None => None,
        }
    }
}

/// The asset discriminant byte.
pub open spec fn dec_asset(s: Seq<u8>) -> Option<(AssetType, int)> {
    if s.len() == 0 {
        None
    } else if s[0] == 0 {
        Some((AssetType::Native, 1))
    } else if s[0] == 1 {
        Some((AssetType::Brc20, 1))
    } else if s[0] == 2 {
        Some((AssetType::Runes, 1))
    } else {
        None
    }
}

/// The presence-flagged auxiliary byte string.
pub open spec fn dec_opt_bytes(s: Seq<u8>) -> Option<(Option<Seq<u8>>, int)> {
    if s.len() == 0 {
        None
    } else if s[0] == 0 {
        Some((None, 1))
    } else if s[0] == 1 {
        match dec_bytes(s.skip(1)) {
            Some((b, c)) => Some((Some(b), 1 + c)),
            None => None,
        }
    } else {
        None
    }
}

/// A whole batch at the front of `s`: transaction list, asset byte, optional
/// auxiliary bytes.
pub open spec fn dec_batch(s: Seq<u8>) -> Option<(BatchView, int)> {
    match dec_compact(s) {
        Some((n, c1)) => match dec_tx_items(s.skip(c1), n as int) {
            Some((ts, c2)) => match dec_asset(s.skip(c1 + c2)) {
                Some((a, c3)) => match dec_opt_bytes(s.skip(c1 + c2 + c3)) {
                    Some((o, c4)) => Some(
                        (
                            BatchView { txs: ts, asset: a, taproot_data: o },
                            c1 + c2 + c3 + c4,
                        ),
                    ),
                    None => None,
                },
                None => None,
            },
            None => None,
        },
        None => None,
    }
}

/// The wire encoding of one transaction record.
pub open spec fn enc_tx(t: SingleTxView) -> Seq<u8> {
    enc_string(t.raw_hex) + enc_string_list(t.hash_to_sign) + enc_u64_list(t.input_values)
}

/// The wire encodings of the records `ts`, concatenated.
pub open spec fn enc_tx_items(ts: Seq<SingleTxView>) -> Seq<u8>
    decreases ts.len(),
{
    if ts.len() == 0 {
        Seq::<u8>::empty()
    } else {
        enc_tx(ts[0]) + enc_tx_items(ts.skip(1))
    }
}

/// The asset discriminant byte of `a`.
pub open spec fn enc_asset(a: AssetType) -> Seq<u8> {
    match a {
        AssetType::Native => seq![0u8],
        AssetType::Brc20 => seq![1u8],
        AssetType::Runes => seq![2u8],
    }
}

/// The presence-flagged encoding of `o`.
pub open spec fn enc_opt_bytes(o: Option<Seq<u8>>) -> Seq<u8> {
    match o {
        None => seq![0u8],
        Some(b) => seq![1u8] + enc_bytes(b),
    }
}

/// The wire encoding of a whole batch.
pub open spec fn enc_batch(b: BatchView) -> Seq<u8> {
    enc_compact(b.txs.len() as u32) + enc_tx_items(b.txs) + enc_asset(b.asset) + enc_opt_bytes(
        b.taproot_data,
    )
}

/// Whether every sequence in `t` is short enough for a compact length.
pub open spec fn tx_encodable(t: SingleTxView) -> bool {
    &&& encode_utf8(t.raw_hex).len() < 4294967296
    &&& t.hash_to_sign.len() < 4294967296
    &&& forall|i: int|
        0 <= i < t.hash_to_sign.len() ==> #[trigger] encode_utf8(t.hash_to_sign[i]).len()
            < 4294967296
    &&& t.input_values.len() < 4294967296
}

/// Whether every sequence in `b` is short enough for a compact length.
pub open spec fn batch_encodable(b: BatchView) -> bool {
    &&& b.txs.len() < 4294967296
    &&& forall|i: int| 0 <= i < b.txs.len() ==> tx_encodable(#[trigger] b.txs[i])
    &&& match b.taproot_data {
        Some(t) => t.len() < 4294967296,
        None => true,
    }
}

// ---------------------------------------------------------------------------
// Re-encoding a decoded batch reproduces the consumed bytes.
// ---------------------------------------------------------------------------

/// A decoded transaction record re-encodes to exactly the bytes consumed.
proof fn lemma_enc_of_dec_tx(s: Seq<u8>)
    requires
        dec_tx(s) is Some,
    ensures
        ({
            let (t, c) = dec_tx(s).unwrap();
            1 <= c <= s.len() && tx_encodable(t) && enc_tx(t) == s.take(c)
        }),
{
    let (raw, c1) = dec_string(s).unwrap();
    let (hs, c2) = dec_string_list(s.skip(c1)).unwrap();
    let (ivs, c3) = dec_u64_list(s.skip(c1 + c2)).unwrap();
    lemma_enc_of_dec_string(s);
    lemma_enc_of_dec_string_list(s.skip(c1));
    lemma_enc_of_dec_u64_list(s.skip(c1 + c2));
    assert(s.skip(c1).skip(c2) =~= s.skip(c1 + c2));
    let (t, c) = dec_tx(s).unwrap();
    assert forall|i: int| 0 <= i < t.hash_to_sign.len() implies #[trigger] encode_utf8(
        t.hash_to_sign[i],
    ).len() < 4294967296 by {
        lemma_string_list_item_encodable(s.skip(c1), i);
    }
    assert(s.skip(c1).take(c2) =~= s.subrange(c1, c1 + c2));
    assert(s.skip(c1 + c2).take(c3) =~= s.subrange(c1 + c2, c1 + c2 + c3));
    assert(s.take(c1 + c2 + c3) =~= s.take(c1) + s.subrange(c1, c1 + c2) + s.subrange(
        c1 + c2,
        c1 + c2 + c3,
    ));
}

/// Each string of a decoded string list is itself short enough to encode.
proof fn lemma_string_list_item_encodable(s: Seq<u8>, i: int)
    requires
        dec_string_list(s) is Some,
        0 <= i < dec_string_list(s).unwrap().0.len(),
    ensures
        encode_utf8(dec_string_list(s).unwrap().0[i]).len() < 4294967296,
{
    let (n, c) = dec_compact(s).unwrap();
    lemma_string_items_item_encodable(s.skip(c), n as int, i);
}

/// Each string of decoded string items is itself short enough to encode.
proof fn lemma_string_items_item_encodable(s: Seq<u8>, n: int, i: int)
    requires
        crate::wire::dec_string_items(s, n) is Some,
        0 <= i < crate::wire::dec_string_items(s, n).unwrap().0.len(),
    ensures
        encode_utf8(crate::wire::dec_string_items(s, n).unwrap().0[i]).len() < 4294967296,
    decreases n,
{
    let (cs, c) = dec_string(s).unwrap();
    if i == 0 {
        lemma_enc_of_dec_string(s);
    } else {
        lemma_string_items_item_encodable(s.skip(c), n - 1, i - 1);
    }
}

/// Decoded transaction records re-encode to exactly the bytes consumed.
proof fn lemma_enc_of_dec_tx_items(s: Seq<u8>, n: int)
    requires
        dec_tx_items(s, n) is Some,
    ensures
        ({
            let (ts, c) = dec_tx_items(s, n).unwrap();
            ts.len() == if n <= 0 {
                0
            } else {
                n
            } && 0 <= c <= s.len() && (forall|i: int|
                0 <= i < ts.len() ==> tx_encodable(#[trigger] ts[i])) && enc_tx_items(ts) == s.take(
                c,
            )
        }),
    decreases n,
{
    if n <= 0 {
        let (ts, c) = dec_tx_items(s, n).unwrap();
        assert(enc_tx_items(ts) =~= s.take(0));
    } else {
        let (t, c) = dec_tx(s).unwrap();
        let (ts, c2) = dec_tx_items(s.skip(c), n - 1).unwrap();
        lemma_enc_of_dec_tx(s);
        lemma_enc_of_dec_tx_items(s.skip(c), n - 1);
        let all = seq![t] + ts;
        assert(all[0] == t);
        assert(all.skip(1) =~= ts);
        assert(s.skip(c).take(c2) =~= s.take(c + c2).skip(c));
        assert(s.take(c + c2).take(c) =~= s.take(c));
        assert(enc_tx_items(all) =~= s.take(c + c2));
    }
}

/// A decoded batch re-encodes to exactly the bytes consumed: decoding is
/// the inverse of encoding, so accepting a batch pins its wire image.
#[verifier::rlimit(100)]
#[verifier::spinoff_prover]
pub proof fn lemma_enc_of_dec_batch(s: Seq<u8>)
    requires
        dec_batch(s) is Some,
    ensures
        ({
            let (b, c) = dec_batch(s).unwrap();
            0 <= c <= s.len() && batch_encodable(b) && enc_batch(b) == s.take(c)
        }),
{
    let (n, c1) = dec_compact(s).unwrap();
    let (ts, c2) = dec_tx_items(s.skip(c1), n as int).unwrap();
    let (a, c3) = dec_asset(s.skip(c1 + c2)).unwrap();
    let (o, c4) = dec_opt_bytes(s.skip(c1 + c2 + c3)).unwrap();
    lemma_enc_of_dec_compact(s);
    lemma_enc_of_dec_tx_items(s.skip(c1), n as int);
    assert((ts.len() as u32) == n);
    let rest = s.skip(c1 + c2 + c3);
    if rest[0] == 1 {
        lemma_enc_of_dec_bytes(rest.skip(1));
        let (tb, cb) = dec_bytes(rest.skip(1)).unwrap();
        assert(enc_opt_bytes(o) =~= rest.take(c4));
    } else {
        assert(enc_opt_bytes(o) =~= rest.take(c4));
    }
    assert(enc_asset(a) =~= s.skip(c1 + c2).take(c3));
    assert(s.skip(c1).take(c2) =~= s.subrange(c1, c1 + c2));
    assert(s.skip(c1 + c2).take(c3) =~= s.subrange(c1 + c2, c1 + c2 + c3));
    assert(s.skip(c1 + c2 + c3).take(c4) =~= s.subrange(c1 + c2 + c3, c1 + c2 + c3 + c4));
    assert(enc_compact(n) + enc_tx_items(ts) =~= s.take(c1 + c2));
    assert(s.take(c1 + c2) + enc_asset(a) =~= s.take(c1 + c2 + c3));
    assert(s.take(c1 + c2 + c3) + enc_opt_bytes(o) =~= s.take(c1 + c2 + c3 + c4));
}

// ---------------------------------------------------------------------------
// Executable decoding and encoding.
// ---------------------------------------------------------------------------

/// Decode one transaction record at offset `pos`.
#[verifier::rlimit(50)]
fn tx_decode(s: &[u8], pos: usize) -> (r: Option<(BtcSingleTx, usize)>)
    requires
        pos <= s@.len(),
    ensures
        match r {
            Some(p) => dec_tx(s@.skip(pos as int)) == Some((p.0@, p.1 - pos as int)) && pos <= p.1
                <= s@.len(),
            None => dec_tx(s@.skip(pos as int)) is None,
        },
{
    match string_decode(s, pos) {
        Some((raw, p1)) => {
            proof {
                assert(s@.skip(pos as int).skip(p1 - pos as int) =~= s@.skip(p1 as int));
            }
            match string_list_decode(s, p1) {
                Some((hs, p2)) => {
                    proof {
                        assert(s@.skip(pos as int).skip(p2 - pos as int) =~= s@.skip(p2 as int));
                    }
                    match u64_list_decode(s, p2) {
                        Some((ivs, p3)) => Some(
                            (BtcSingleTx { raw_hex: raw, hash_to_sign: hs, input_values: ivs }, p3),
                        ),
                        None => None,
                    }
                },
                None => None,
            }
        },
        None => None,
    }
}

/// Decode exactly `n` transaction records at offset `pos`.
#[verifier::rlimit(50)]
fn tx_items_decode(s: &[u8], pos: usize, n: u32) -> (r: Option<(Vec<BtcSingleTx>, usize)>)
    requires
        pos <= s@.len(),
    ensures
        match r {
            Some(p) => dec_tx_items(s@.skip(pos as int), n as int) == Some(
                (p.0@.map_values(|t: BtcSingleTx| t@), p.1 - pos as int),
            ) && pos <= p.1 <= s@.len(),
            None => dec_tx_items(s@.skip(pos as int), n as int) is None,
        },
{
    let mut out: Vec<BtcSingleTx> = Vec::new();
    let mut i: u32 = 0;
    let mut np: usize = pos;
    proof {
        assert(out@.map_values(|t: BtcSingleTx| t@) =~= Seq::<SingleTxView>::empty());
        if dec_tx_items(s@.skip(pos as int), n as int) is Some {
            let (ts, c2) = dec_tx_items(s@.skip(pos as int), n as int).unwrap();
            assert(Seq::<SingleTxView>::empty() + ts =~= ts);
        }
    }
    while i < n
        invariant
            pos <= np <= s@.len(),
            i <= n,
            out@.len() == i,
            dec_tx_items(s@.skip(pos as int), n as int) == match dec_tx_items(
                s@.skip(np as int),
                n - i,
            ) {
                Some(p) => Some(
                    (out@.map_values(|t: BtcSingleTx| t@) + p.0, (np - pos) + p.1),
                ),
                None => None::<(Seq<SingleTxView>, int)>,
            },
        decreases n - i,
    {
        let ghost prev = out@.map_values(|t: BtcSingleTx| t@);
        match tx_decode(s, np) {
            Some((t, np2)) => {
                proof {
                    assert(s@.skip(np as int).skip(np2 - np as int) =~= s@.skip(np2 as int));
                    if dec_tx_items(s@.skip(np2 as int), n - i - 1) is Some {
                        let (ts2, c2) = dec_tx_items(s@.skip(np2 as int), n - i - 1).unwrap();
                        assert(prev.push(t@) + ts2 =~= prev + (seq![t@] + ts2));
                    }
                }
                let ghost tv = t@;
                out.push(t);
                np = np2;
                i = i + 1;
                proof {
                    assert(out@.map_values(|t: BtcSingleTx| t@) =~= prev.push(tv));
                }
            },
            None => {
                return None;
            },
        }
    }
    proof {
        assert(dec_tx_items(s@.skip(np as int), 0) == Some((Seq::<SingleTxView>::empty(), 0int)));
        assert(out@.map_values(|t: BtcSingleTx| t@) + Seq::<SingleTxView>::empty()
            =~= out@.map_values(|t: BtcSingleTx| t@));
    }
    Some((out, np))
}

impl BtcTxMessage {
    /// Decode a batch from its wire bytes.  Succeeds exactly when the bytes
    /// are a well-formed batch and nothing trails it; the decoded value
    /// re-encodes to the input (see [`lemma_enc_of_dec_batch`]).
    #[verifier::rlimit(100)]
    pub fn decode(bytes: &[u8]) -> (r: Result<BtcTxMessage, VerifyError>)
        ensures
            r matches Ok(m) ==> dec_batch(bytes@) == Some((m@, bytes@.len() as int)),
            r matches Err(e) ==> e == VerifyError::DecodeError && !(dec_batch(bytes@) matches Some(
                p,
            ) && p.1 == bytes@.len()),
    {
        proof {
            assert(bytes@.skip(0) =~= bytes@);
        }
        let (n, p1) = match compact_decode(bytes, 0) {
            Some(p) => p,
            None => {
                return Err(VerifyError::DecodeError);
            },
        };
        let (txs, p2) = match tx_items_decode(bytes, p1, n) {
            Some(p) => p,
            None => {
                return Err(VerifyError::DecodeError);
            },
        };
        proof {
            assert(bytes@.skip(p1 as int) == bytes@.skip(0).skip(p1 as int));
        }
        if p2 >= bytes.len() {
            return Err(VerifyError::DecodeError);
        }
        let ghost mid = bytes@.skip(p2 as int);
        let ab = bytes[p2];
        proof {
            assert(mid[0] == bytes@[p2 as int]);
        }
        let asset = if ab == 0 {
            AssetType::Native
        } else if ab == 1 {
            AssetType::Brc20
        } else if ab == 2 {
            AssetType::Runes
        } else {
            return Err(VerifyError::DecodeError);
        };
        let p3 = p2 + 1;
        if p3 >= bytes.len() {
            proof {
                assert(bytes@.skip(p3 as int).len() == 0);
            }
            return Err(VerifyError::DecodeError);
        }
        let ghost rest = bytes@.skip(p3 as int);
        let ob = bytes[p3];
        proof {
            assert(rest[0] == bytes@[p3 as int]);
        }
        let (tap, p4): (Option<Vec<u8>>, usize) = if ob == 0 {
            (None, p3 + 1)
        } else if ob == 1 {
            proof {
                assert(rest.skip(1) =~= bytes@.skip(p3 as int + 1));
            }
            match bytes_decode(bytes, p3 + 1) {
                Some((b, np)) => (Some(b), np),
                None => {
                    return Err(VerifyError::DecodeError);
                },
            }
        } else {
            return Err(VerifyError::DecodeError);
        };
        if p4 != bytes.len() {
            return Err(VerifyError::DecodeError);
        }
        let m = BtcTxMessage { txs, asset, taproot_data: tap };
        Ok(m)
    }

    /// Encode a batch to its wire bytes.
    pub fn encode(&self) -> (r: Vec<u8>)
        requires
            batch_encodable(self@),
        ensures
            r@ == enc_batch(self@),
    {
        let ghost view = self@.txs;
        let mut out: Vec<u8> = Vec::new();
        compact_encode(self.txs.len() as u32, &mut out);
        let mut i: usize = 0;
        while i < self.txs.len()
            invariant
                i <= self.txs@.len(),
                batch_encodable(self@),
                view == self@.txs,
                out@ == enc_compact(self.txs@.len() as u32) + enc_tx_items(view.take(i as int)),
            decreases self.txs@.len() - i,
        {
            let t = &self.txs[i];
            proof {
                assert(view[i as int] == t@);
                assert(tx_encodable(view[i as int]));
            }
            string_encode(t.raw_hex.as_str(), &mut out);
            proof {
                assert forall|j: int| 0 <= j < t.hash_to_sign@.len() implies #[trigger] encode_utf8(
                    t.hash_to_sign@[j]@,
                ).len() < 4294967296 by {
                    assert(t@.hash_to_sign[j] == t.hash_to_sign@[j]@);
                }
            }
            string_list_encode(&t.hash_to_sign, &mut out);
            u64_list_encode(&t.input_values, &mut out);
            proof {
                lemma_enc_tx_items_push(view.take(i as int), view[i as int]);
                assert(view.take(i as int).push(view[i as int]) =~= view.take(i as int + 1));
                assert(out@ =~= enc_compact(self.txs@.len() as u32) + enc_tx_items(
                    view.take(i as int + 1),
                ));
            }
            i = i + 1;
        }
        proof {
            assert(view.take(i as int) =~= view);
        }
        match self.asset {
            AssetType::Native => out.push(0u8),
            AssetType::Brc20 => out.push(1u8),
            AssetType::Runes => out.push(2u8),
        }
        proof {
            assert(out@ =~= enc_compact(self.txs@.len() as u32) + enc_tx_items(view) + enc_asset(
                self.asset,
            ));
        }
        match &self.taproot_data {
            None => {
                out.push(0u8);
            },
            Some(b) => {
                out.push(1u8);
                bytes_encode(b.as_slice(), &mut out);
            },
        }
        proof {
            assert(out@ =~= enc_batch(self@));
        }
        out
    }
}

/// Encoding one more record appends its encoding.
proof fn lemma_enc_tx_items_push(ts: Seq<SingleTxView>, t: SingleTxView)
    ensures
        enc_tx_items(ts.push(t)) == enc_tx_items(ts) + enc_tx(t),
    decreases ts.len(),
{
    if ts.len() == 0 {
        assert(ts.push(t)[0] == t);
        assert(ts.push(t).skip(1) =~= Seq::<SingleTxView>::empty());
        assert(enc_tx_items(Seq::<SingleTxView>::empty()) =~= Seq::<u8>::empty());
        assert(enc_tx_items(ts.push(t)) =~= enc_tx_items(ts) + enc_tx(t));
    } else {
        assert(ts.push(t)[0] == ts[0]);
        assert(ts.push(t).skip(1) =~= ts.skip(1).push(t));
        lemma_enc_tx_items_push(ts.skip(1), t);
        assert(enc_tx_items(ts.push(t)) =~= enc_tx_items(ts) + enc_tx(t));
    }
}


// ---------------------------------------------------------------------------
// Structural validation.
// ---------------------------------------------------------------------------

/// The transaction-count and digest-list rules that a batch must satisfy for
/// its asset type.  Native and Runes batches carry exactly one transaction
/// whose digest list is non-empty and pairs one digest with each input
/// value; a Brc20 batch carries exactly three transactions, each with a
/// non-empty digest list and no parity requirement on its input values.
pub open spec fn schema_ok(b: BatchView) -> bool {
    match b.asset {
        AssetType::Native | AssetType::Runes => b.txs.len() == 1 && forall|i: int|
            0 <= i < b.txs.len() ==> (#[trigger] b.txs[i]).hash_to_sign.len() > 0 && b.txs[i].hash_to_sign.len() == b.txs[i].input_values.len(),
        AssetType::Brc20 => b.txs.len() == 3 && forall|i: int|
            0 <= i < b.txs.len() ==> (#[trigger] b.txs[i]).hash_to_sign.len() > 0,
    }
}

/// A Native or Runes batch satisfies the schema exactly when it holds one
/// transaction with a non-empty digest list of the same length as its input
/// values.
pub proof fn lemma_native_runes_schema(b: BatchView)
    requires
        b.asset == AssetType::Native || b.asset == AssetType::Runes,
    ensures
        schema_ok(b) <==> (b.txs.len() == 1 && b.txs[0].hash_to_sign.len() > 0
            && b.txs[0].hash_to_sign.len() == b.txs[0].input_values.len()),
{
}

/// A Brc20 batch satisfies the schema exactly when it holds three
/// transactions, each with a non-empty digest list; the lengths of the input
/// value lists are deliberately not constrained.
pub proof fn lemma_brc20_schema(b: BatchView)
    requires
        b.asset == AssetType::Brc20,
    ensures
        schema_ok(b) <==> (b.txs.len() == 3 && forall|i: int|
            0 <= i < b.txs.len() ==> (#[trigger] b.txs[i]).hash_to_sign.len() > 0),
{
}

/// Check the asset-type schema of a decoded batch.
fn check_schema(m: &BtcTxMessage) -> (r: bool)
    ensures
        r == schema_ok(m@),
{
    let expected: usize = match m.asset {
        AssetType::Native | AssetType::Runes => 1,
        AssetType::Brc20 => 3,
    };
    let pair_required: bool = match m.asset {
        AssetType::Native | AssetType::Runes => true,
        AssetType::Brc20 => false,
    };
    if m.txs.len() != expected {
        return false;
    }
    let mut i: usize = 0;
    while i < m.txs.len()
        invariant
            i <= m.txs@.len(),
            expected == (if pair_required { 1int } else { 3int }),
            pair_required == (m.asset == AssetType::Native || m.asset == AssetType::Runes),
            m.txs@.len() == expected,
            forall|j: int|
                0 <= j < i ==> (#[trigger] m@.txs[j]).hash_to_sign.len() > 0 && (pair_required
                    ==> m@.txs[j].hash_to_sign.len() == m@.txs[j].input_values.len()),
        decreases m.txs@.len() - i,
    {
        let tx = &m.txs[i];
        proof {
            assert(m@.txs[i as int] == tx@);
        }
        if tx.hash_to_sign.len() == 0 {
            return false;
        }
        if pair_required && tx.hash_to_sign.len() != tx.input_values.len() {
            return false;
        }
        i = i + 1;
    }
    true
}

/// Decode a hex-encoded batch message and hold it to the asset-type schema.
/// Returns the batch exactly when the hex text decodes, the bytes decode as
/// a batch with nothing trailing, and the schema holds; the error says which
/// stage refused.
pub fn disintegrate_btc_msg(raw_msg: &str) -> (r: Result<BtcTxMessage, VerifyError>)
    ensures
        ({
            let hx = spec_hex_decode(encode_utf8(raw_msg@));
            match r {
                Ok(m) => hx matches Some(raw) && dec_batch(raw) == Some((m@, raw.len() as int))
                    && schema_ok(m@),
                Err(e) => match hx {
                    None => e == VerifyError::DecodeError,
                    Some(raw) => match dec_batch(raw) {
                        Some(p) => if p.1 == raw.len() {
                            e == VerifyError::SchemaViolation && !schema_ok(p.0)
                        } else {
                            e == VerifyError::DecodeError
                        },
                        None => e == VerifyError::DecodeError,
                    },
                },
            }
        }),
{
    let bytes = raw_msg.as_bytes();
    let raw = match hex_decode(bytes) {
        Some(v) => v,
        None => {
            return Err(VerifyError::DecodeError);
        },
    };
    let m = match BtcTxMessage::decode(raw.as_slice()) {
        Ok(m) => m,
        Err(e) => {
            return Err(e);
        },
    };
    if !check_schema(&m) {
        return Err(VerifyError::SchemaViolation);
    }
    Ok(m)
}



// ---------------------------------------------------------------------------
// Signature splitting and pairing.
// ---------------------------------------------------------------------------

/// The width of one raw signature: 65 bytes when the scheme carries a
/// recovery id, else 64.
pub open spec fn sig_width(is_ecdsa: bool) -> int {
    if is_ecdsa {
        65
    } else {
        64
    }
}

/// The fixed-width slices of `sig`, or `None` when `sig` is empty, shorter
/// than one signature, or no exact multiple of the width.
pub open spec fn split_sigs(sig: Seq<u8>, w: int) -> Option<Seq<Seq<u8>>>
    recommends
        w > 0,
{
    if sig.len() as int >= w && sig.len() as int % w == 0 {
        Some(Seq::new((sig.len() as int / w) as nat, |i: int| sig.subrange(i * w, (i + 1) * w)))
    } else {
        None
    }
}

/// Split a raw signature blob into fixed-width signatures.
pub fn disintegrate_btc_signatures(raw_sig: Vec<u8>, is_ecdsa: bool) -> (r: Option<Vec<Vec<u8>>>)
    ensures
        match r {
            Some(sigs) => split_sigs(raw_sig@, sig_width(is_ecdsa)) == Some(
                sigs@.map_values(|d: Vec<u8>| d@),
            ) && sigs@.len() > 0,
            None => split_sigs(raw_sig@, sig_width(is_ecdsa)) is None,
        },
{
    let w: usize = if is_ecdsa {
        65
    } else {
        64
    };
    if raw_sig.len() < w || raw_sig.len() % w != 0 {
        return None;
    }
    let n: usize = raw_sig.len() / w;
    let mut out: Vec<Vec<u8>> = Vec::new();
    let mut i: usize = 0;
    let mut pos: usize = 0;
    proof {
        vstd::arithmetic::div_mod::lemma_fundamental_div_mod(raw_sig@.len() as int, w as int);
    }
    while i < n
        invariant
            w == sig_width(is_ecdsa),
            w > 0,
            i <= n,
            raw_sig@.len() <= usize::MAX,
            pos as int == i as int * (w as int),
            n as int * (w as int) == raw_sig@.len() as int,
            out@.len() == i,
            forall|j: int|
                0 <= j < i ==> (#[trigger] out@[j])@ == raw_sig@.subrange(j * (w as int), (j + 1) * (
                w as int)),
        decreases n - i,
    {
        proof {
            vstd::arithmetic::mul::lemma_mul_inequality(i as int + 1, n as int, w as int);
            assert((i as int + 1) * (w as int) == i as int * (w as int) + w as int)
                by (nonlinear_arith);
            assert(pos as int + w as int <= raw_sig@.len());
        }
        let chunk = vstd::slice::slice_subrange(raw_sig.as_slice(), pos, pos + w);
        let piece = vstd::slice::slice_to_vec(chunk);
        out.push(piece);
        pos = pos + w;
        i = i + 1;
    }
    proof {
        assert(out@.map_values(|d: Vec<u8>| d@) =~= Seq::new(
            (raw_sig@.len() as int / (w as int)) as nat,
            |j: int| raw_sig@.subrange(j * (w as int), (j + 1) * (w as int)),
        ));
    }
    Some(out)
}

/// Fixed-width slices of a blob, concatenated back together, reproduce the
/// blob: splitting loses nothing.
pub proof fn lemma_split_rejoin(s: Seq<u8>, w: int, parts: Seq<Seq<u8>>)
    requires
        w > 0,
        parts.len() * w == s.len(),
        forall|i: int|
            0 <= i < parts.len() ==> #[trigger] parts[i] == s.subrange(i * w, (i + 1) * w),
    ensures
        parts.flatten() == s,
    decreases parts.len(),
{
    if parts.len() == 0 {
        assert(parts.flatten() =~= s);
    } else {
        let rest = parts.drop_first();
        assert((parts.len() - 1) * w == s.len() - w) by (nonlinear_arith)
            requires
                parts.len() * w == s.len(),
        ;
        assert forall|i: int| 0 <= i < rest.len() implies #[trigger] rest[i] == s.skip(w).subrange(
            i * w,
            (i + 1) * w,
        ) by {
            assert(rest[i] == parts[i + 1]);
            assert((i + 1) * w == i * w + w) by (nonlinear_arith);
            assert((i + 2) * w == (i + 1) * w + w) by (nonlinear_arith);
            assert(parts[i + 1] == s.subrange(i * w + w, i * w + w + w));
            assert((i + 1) * w <= rest.len() * w) by (nonlinear_arith)
                requires
                    i + 1 <= rest.len(),
                    w > 0,
            ;
            assert(s.skip(w).subrange(i * w, i * w + w) =~= s.subrange(i * w + w, i * w + w + w));
        }
        lemma_split_rejoin(s.skip(w), w, rest);
        assert(parts[0] == s.subrange(0, w));
        assert(parts.flatten() == parts[0] + rest.flatten());
        assert(parts[0] + s.skip(w) =~= s);
    }
}

/// Splitting a blob and joining the slices back together reproduces the
/// blob exactly: the splitter loses nothing.
pub proof fn lemma_split_sigs_rejoin(s: Seq<u8>, w: int)
    requires
        w > 0,
        split_sigs(s, w) is Some,
    ensures
        split_sigs(s, w).unwrap().flatten() == s,
{
    let parts = split_sigs(s, w).unwrap();
    let n = s.len() as int / w;
    vstd::arithmetic::div_mod::lemma_fundamental_div_mod(s.len() as int, w);
    assert(s.len() as int == w * n);
    assert(parts.len() == n);
    assert(parts.len() * w == s.len()) by (nonlinear_arith)
        requires
            parts.len() == n && s.len() as int == w * n,
    ;
    lemma_split_rejoin(s, w, parts);
}

/// Pair digests with signatures positionally.  Succeeds exactly when both
/// lists are non-empty and of equal length; no partial pairing happens.
pub fn zip(msgs: Vec<Vec<u8>>, sigs: Vec<Vec<u8>>) -> (r: Option<Vec<(Vec<u8>, Vec<u8>)>>)
    ensures
        match r {
            Some(pairs) => msgs@.len() == sigs@.len() && msgs@.len() > 0 && pairs@.len()
                == msgs@.len() && forall|i: int|
                0 <= i < pairs@.len() ==> (#[trigger] pairs@[i]).0 == msgs@[i] && pairs@[i].1
                    == sigs@[i],
            None => msgs@.len() == 0 || sigs@.len() == 0 || msgs@.len() != sigs@.len(),
        },
{
    if msgs.len() == 0 || sigs.len() == 0 || msgs.len() != sigs.len() {
        return None;
    }
    let ghost m0 = msgs@;
    let ghost s0 = sigs@;
    let mut ms = msgs;
    let mut ss = sigs;
    let mut out: Vec<(Vec<u8>, Vec<u8>)> = Vec::new();
    let mut k: usize = 0;
    let n = ms.len();
    while k < n
        invariant
            k <= n,
            n == m0.len() == s0.len(),
            ms@ == m0.skip(k as int),
            ss@ == s0.skip(k as int),
            out@.len() == k,
            forall|i: int|
                0 <= i < k ==> (#[trigger] out@[i]).0 == m0[i] && out@[i].1 == s0[i],
        decreases n - k,
    {
        let m = ms.remove(0);
        let s = ss.remove(0);
        proof {
            assert(m0.skip(k as int).remove(0) =~= m0.skip(k as int + 1));
            assert(s0.skip(k as int).remove(0) =~= s0.skip(k as int + 1));
            assert(m0.skip(k as int)[0] == m0[k as int]);
            assert(s0.skip(k as int)[0] == s0[k as int]);
        }
        out.push((m, s));
        k = k + 1;
    }
    Some(out)
}

// ---------------------------------------------------------------------------
// Digest flattening.
// ---------------------------------------------------------------------------

/// The bytes named by one digest hex string.
pub open spec fn dec_digest(cs: Seq<char>) -> Option<Seq<u8>> {
    spec_hex_decode(encode_utf8(cs))
}

/// The digests of one transaction, in declaration order, or `None` when an
/// entry is no hex string.
pub open spec fn hash_digests(hs: Seq<Seq<char>>) -> Option<Seq<Seq<u8>>>
    decreases hs.len(),
{
    if hs.len() == 0 {
        Some(Seq::<Seq<u8>>::empty())
    } else {
        match dec_digest(hs[0]) {
            Some(d) => match hash_digests(hs.skip(1)) {
                Some(ds) => Some(seq![d] + ds),
                None => None,
            },
            None => None,
        }
    }
}

/// The digests of all transactions of a batch, in declaration order.
pub open spec fn batch_digests(ts: Seq<SingleTxView>) -> Option<Seq<Seq<u8>>>
    decreases ts.len(),
{
    if ts.len() == 0 {
        Some(Seq::<Seq<u8>>::empty())
    } else {
        match hash_digests(ts[0].hash_to_sign) {
            Some(ds) => match batch_digests(ts.skip(1)) {
                Some(rest) => Some(ds + rest),
                None => None,
            },
            None => None,
        }
    }
}

/// Hex-decode the digest strings of one transaction onto `out`.
fn push_tx_digests(tx: &BtcSingleTx, out: &mut Vec<Vec<u8>>) -> (ok: bool)
    ensures
        ({
            let view = |d: Vec<u8>| d@;
            if ok {
                hash_digests(tx@.hash_to_sign) matches Some(ds) && final(out)@.map_values(view)
                    == old(out)@.map_values(view) + ds
            } else {
                hash_digests(tx@.hash_to_sign) is None && final(out)@ == old(out)@
            }
        }),
{
    let ghost view = |d: Vec<u8>| d@;
    let ghost hs = tx@.hash_to_sign;
    let ghost base = old(out)@.map_values(view);
    let mut j: usize = 0;
    let start = out.len();
    proof {
        assert(hs.skip(0) =~= hs);
        if hash_digests(hs) is Some {
            let ds = hash_digests(hs).unwrap();
            assert(Seq::<Seq<u8>>::empty() + ds =~= ds);
        }
    }
    while j < tx.hash_to_sign.len()
        invariant
            j <= tx.hash_to_sign@.len(),
            hs == tx@.hash_to_sign,
            hs.len() == tx.hash_to_sign@.len(),
            view == (|d: Vec<u8>| d@),
            base == old(out)@.map_values(view),
            start == old(out)@.len(),
            out@.len() == old(out)@.len() + j,
            out@.map_values(view) == base + out@.map_values(view).skip(base.len() as int),
            old(out)@ == out@.take(old(out)@.len() as int),
            hash_digests(hs) == match hash_digests(hs.skip(j as int)) {
                Some(ds) => Some(
                    (out@.map_values(view).skip(base.len() as int)) + ds,
                ),
                None => None::<Seq<Seq<u8>>>,
            },
        decreases tx.hash_to_sign@.len() - j,
    {
        let ghost acc = out@.map_values(view).skip(base.len() as int);
        let h = &tx.hash_to_sign[j];
        proof {
            assert(hs[j as int] == tx.hash_to_sign@[j as int]@);
        }
        match hex_decode(h.as_str().as_bytes()) {
            Some(d) => {
                proof {
                    assert(hs.skip(j as int)[0] == hs[j as int]);
                    assert(hs.skip(j as int).skip(1) =~= hs.skip(j as int + 1));
                    if hash_digests(hs.skip(j as int + 1)) is Some {
                        let ds2 = hash_digests(hs.skip(j as int + 1)).unwrap();
                        assert(acc.push(d@) + ds2 =~= acc + (seq![d@] + ds2));
                    }
                }
                let ghost dv = d@;
                out.push(d);
                j = j + 1;
                proof {
                    assert(out@.map_values(view) =~= (base + acc).push(dv));
                    assert(out@.map_values(view).skip(base.len() as int) =~= acc.push(dv));
                    assert(out@.map_values(view) =~= base + acc.push(dv));
                    assert(old(out)@ =~= out@.take(old(out)@.len() as int));
                }
            },
            None => {
                proof {
                    assert(hs.skip(j as int)[0] == hs[j as int]);
                }
                out.truncate(start);
                proof {
                    assert(out@ =~= old(out)@);
                }
                return false;
            },
        }
    }
    proof {
        assert(hs.skip(j as int).len() == 0);
        assert(hash_digests(hs.skip(j as int)) == Some(Seq::<Seq<u8>>::empty()));
        if hash_digests(hs) is Some {
            let acc = out@.map_values(view).skip(base.len() as int);
            assert(acc + Seq::<Seq<u8>>::empty() =~= acc);
        }
    }
    true
}

/// Hex-decode every digest string of every transaction, in order.
fn flatten_digests(m: &BtcTxMessage) -> (r: Option<Vec<Vec<u8>>>)
    ensures
        ({
            let view = |d: Vec<u8>| d@;
            match r {
                Some(v) => batch_digests(m@.txs) == Some(v@.map_values(view)),
                None => batch_digests(m@.txs) is None,
            }
        }),
{
    let ghost view = |d: Vec<u8>| d@;
    let ghost ts = m@.txs;
    let mut out: Vec<Vec<u8>> = Vec::new();
    let mut i: usize = 0;
    proof {
        assert(ts.skip(0) =~= ts);
        assert(out@.map_values(view) =~= Seq::<Seq<u8>>::empty());
        if batch_digests(ts) is Some {
            let ds = batch_digests(ts).unwrap();
            assert(Seq::<Seq<u8>>::empty() + ds =~= ds);
        }
    }
    while i < m.txs.len()
        invariant
            i <= m.txs@.len(),
            ts == m@.txs,
            ts.len() == m.txs@.len(),
            view == (|d: Vec<u8>| d@),
            batch_digests(ts) == match batch_digests(ts.skip(i as int)) {
                Some(rest) => Some(out@.map_values(view) + rest),
                None => None::<Seq<Seq<u8>>>,
            },
        decreases m.txs@.len() - i,
    {
        let ghost acc = out@.map_values(view);
        let tx = &m.txs[i];
        proof {
            assert(ts[i as int] == tx@);
            assert(ts.skip(i as int)[0] == ts[i as int]);
            assert(ts.skip(i as int).skip(1) =~= ts.skip(i as int + 1));
        }
        let ok = push_tx_digests(tx, &mut out);
        if !ok {
            return None;
        }
        proof {
            if hash_digests(tx@.hash_to_sign) is Some && batch_digests(
                ts.skip(i as int + 1),
            ) is Some {
                let ds = hash_digests(tx@.hash_to_sign).unwrap();
                let rest = batch_digests(ts.skip(i as int + 1)).unwrap();
                assert((acc + ds) + rest =~= acc + (ds + rest));
            }
        }
        i = i + 1;
    }
    proof {
        assert(ts.skip(i as int).len() == 0);
        assert(batch_digests(ts.skip(i as int)) == Some(Seq::<Seq<u8>>::empty()));
        if batch_digests(ts) is Some {
            assert(out@.map_values(view) + Seq::<Seq<u8>>::empty() =~= out@.map_values(view));
        }
    }
    Some(out)
}

/// What disintegrating a batch message and its signature blob yields: the
/// ordered digests of an accepted batch and the fixed-width signature
/// slices, provided the counts agree.
pub open spec fn spec_disintegrate(msg: Seq<u8>, sig: Seq<u8>, is_ecdsa: bool) -> Option<
    (Seq<Seq<u8>>, Seq<Seq<u8>>),
> {
    match dec_batch(msg) {
        Some((b, c)) => if c == msg.len() && schema_ok(b) {
            match batch_digests(b.txs) {
                Some(ds) => match split_sigs(sig, sig_width(is_ecdsa)) {
                    Some(ss) => if ds.len() == ss.len() {
                        Some((ds, ss))
                    } else {
                        None
                    },
                    None => None,
                },
                None => None,
            }
        } else {
            None
        },
        None => None,
    }
}

/// The ordered digest list and the ordered signature list of one batch.
pub type Pairs = (Vec<Vec<u8>>, Vec<Vec<u8>>);

/// Decode a batch from raw bytes, flatten its digests, split the signature
/// blob, and pair them.  Succeeds exactly when every stage succeeds and the
/// digest and signature counts agree.
pub fn disintegrate_btc_msgs_and_sigs(msg: &[u8], sig: &[u8], is_ecdsa: bool) -> (r: Option<Pairs>)
    ensures
        ({
            match r {
                Some(p) => spec_disintegrate(msg@, sig@, is_ecdsa) == Some(
                    (p.0@.map_values(|d: Vec<u8>| d@), p.1@.map_values(|d: Vec<u8>| d@)),
                ) && p.0@.len() == p.1@.len() && p.0@.len() > 0,
                None => (spec_disintegrate(msg@, sig@, is_ecdsa) is None),
            }
        }),
{
    let m = match BtcTxMessage::decode(msg) {
        Ok(m) => m,
        Err(_) => {
            return None;
        },
    };
    if !check_schema(&m) {
        return None;
    }
    let msgs = match flatten_digests(&m) {
        Some(v) => v,
        None => {
            return None;
        },
    };
    let mut sig_vec: Vec<u8> = Vec::new();
    crate::wire::extend_bytes(&mut sig_vec, sig);
    proof {
        assert(sig_vec@ =~= sig@);
    }
    let sigs = match disintegrate_btc_signatures(sig_vec, is_ecdsa) {
        Some(v) => v,
        None => {
            return None;
        },
    };
    if msgs.len() != sigs.len() {
        return None;
    }
    if msgs.len() == 0 {
        return None;
    }
    Some((msgs, sigs))
}


// ---------------------------------------------------------------------------
// Filecoin message disintegration.
// ---------------------------------------------------------------------------

/// The Filecoin signature engine, fixing the digest length at the tail of a
/// message.
#[derive(Clone, Copy, PartialEq, Eq, Structural, Debug)]
pub enum SignatureEngine {
    Ecdsa,
    Bls,
}

/// The ASCII bytes of the engine selector for ECDSA.
pub open spec fn ecdsa_label() -> Seq<u8> {
    seq![69u8, 67u8, 68u8, 83u8, 65u8]
}

/// The ASCII bytes of the engine selector for BLS.
pub open spec fn bls_label() -> Seq<u8> {
    seq![66u8, 76u8, 83u8]
}

/// The digest length selected by an engine.
pub open spec fn fil_hash_length(e: SignatureEngine) -> int {
    match e {
        SignatureEngine::Ecdsa => 32,
        SignatureEngine::Bls => 38,
    }
}

impl SignatureEngine {
    /// Parse an engine selector.  Any label other than the two known ones is
    /// a fatal configuration error, never a silent default.
    pub fn from_label(s: &str) -> (r: Result<SignatureEngine, VerifyError>)
        ensures
            r matches Ok(e) ==> (e == SignatureEngine::Ecdsa && encode_utf8(s@) == ecdsa_label())
                || (e == SignatureEngine::Bls && encode_utf8(s@) == bls_label()),
            r matches Err(er) ==> er == VerifyError::UnsupportedEngine && encode_utf8(s@)
                != ecdsa_label() && encode_utf8(s@) != bls_label(),
    {
        let b = s.as_bytes();
        if b.len() == 5 && b[0] == 69 && b[1] == 67 && b[2] == 68 && b[3] == 83 && b[4] == 65 {
            proof {
                assert(b@ =~= ecdsa_label());
            }
            Ok(SignatureEngine::Ecdsa)
        } else if b.len() == 3 && b[0] == 66 && b[1] == 76 && b[2] == 83 {
            proof {
                assert(b@ =~= bls_label());
            }
            Ok(SignatureEngine::Bls)
        } else {
            proof {
                if b@ == ecdsa_label() {
                    assert(b@.len() == 5 && b@[0] == 69 && b@[1] == 67 && b@[2] == 68 && b@[3]
                        == 83 && b@[4] == 65);
                }
                if b@ == bls_label() {
                    assert(b@.len() == 3 && b@[0] == 66 && b@[1] == 76 && b@[2] == 83);
                }
            }
            Err(VerifyError::UnsupportedEngine)
        }
    }
}

/// Split a hex-encoded Filecoin message into its raw transaction and the
/// trailing digest whose length the engine selects: 32 bytes for ECDSA, 38
/// for BLS.  The input must be strictly longer than the digest; the two
/// parts joined back together are exactly the decoded message.
pub fn disintegrate_fil_msg(raw_msg: &str, engine: &str) -> (r: Result<(Vec<u8>, Vec<u8>), VerifyError>)
    ensures
        ({
            let hx = spec_hex_decode(encode_utf8(raw_msg@));
            let known = encode_utf8(engine@) == ecdsa_label() || encode_utf8(engine@)
                == bls_label();
            let hl: int = if encode_utf8(engine@) == ecdsa_label() {
                32
            } else {
                38
            };
            match r {
                Ok(p) => known && (hx matches Some(raw) && raw.len() > hl && p.0@ == raw.take(
                    raw.len() - hl,
                ) && p.1@ == raw.skip(raw.len() - hl) && p.0@ + p.1@ == raw),
                Err(e) => match hx {
                    None => e == VerifyError::DecodeError,
                    Some(raw) => if !known {
                        e == VerifyError::UnsupportedEngine
                    } else {
                        e == VerifyError::DecodeError && raw.len() <= hl
                    },
                },
            }
        }),
{
    let raw = match hex_decode(raw_msg.as_bytes()) {
        Some(v) => v,
        None => {
            return Err(VerifyError::DecodeError);
        },
    };
    let eng = match SignatureEngine::from_label(engine) {
        Ok(e) => e,
        Err(e) => {
            return Err(e);
        },
    };
    let hl: usize = match eng {
        SignatureEngine::Ecdsa => 32,
        SignatureEngine::Bls => 38,
    };
    if raw.len() <= hl {
        return Err(VerifyError::DecodeError);
    }
    let cut = raw.len() - hl;
    let tx = vstd::slice::slice_to_vec(vstd::slice::slice_subrange(raw.as_slice(), 0, cut));
    let dg = vstd::slice::slice_to_vec(
        vstd::slice::slice_subrange(raw.as_slice(), cut, raw.len()),
    );
    proof {
        assert(raw@.subrange(0, cut as int) =~= raw@.take(raw@.len() - fil_hash_length(eng)));
        assert(raw@.subrange(cut as int, raw@.len() as int) =~= raw@.skip(
            raw@.len() - fil_hash_length(eng),
        ));
        assert(raw@.take(cut as int) + raw@.skip(cut as int) =~= raw@);
    }
    Ok((tx, dg))
}

// ---------------------------------------------------------------------------
// Prefixed message hashing for Ethereum-style personal signatures.
// ---------------------------------------------------------------------------

/// The ASCII decimal digits of `n`.
pub open spec fn dec_digits(n: nat) -> Seq<u8>
    decreases n,
{
    if n < 10 {
        seq![(48 + n) as u8]
    } else {
        dec_digits(n / 10) + seq![(48 + n % 10) as u8]
    }
}

/// The Ethereum personal-message prefix, one length byte short of the
/// message: the ASCII bytes of `"\x19Ethereum Signed Message:\n"`.
pub open spec fn eth_prefix() -> Seq<u8> {
    seq![
        0x19u8, 69u8, 116u8, 104u8, 101u8, 114u8, 101u8, 117u8, 109u8, 32u8, 83u8, 105u8, 103u8,
        110u8, 101u8, 100u8, 32u8, 77u8, 101u8, 115u8, 115u8, 97u8, 103u8, 101u8, 58u8, 10u8,
    ]
}

/// The Tron personal-message prefix: the ASCII bytes of
/// `"\x19TRON Signed Message:\n"`.
pub open spec fn tron_prefix() -> Seq<u8> {
    seq![
        0x19u8, 84u8, 82u8, 79u8, 78u8, 32u8, 83u8, 105u8, 103u8, 110u8, 101u8, 100u8, 32u8, 77u8,
        101u8, 115u8, 115u8, 97u8, 103u8, 101u8, 58u8, 10u8,
    ]
}

/// The bytes hashed for an Ethereum personal signature over `m`: prefix,
/// decimal length, message.
pub open spec fn eth_signed_message(m: Seq<u8>) -> Seq<u8> {
    eth_prefix() + dec_digits(m.len()) + m
}

/// The bytes hashed for a Tron personal signature over `m`.
pub open spec fn tron_signed_message(m: Seq<u8>) -> Seq<u8> {
    tron_prefix() + dec_digits(m.len()) + m
}

/// Append the ASCII decimal digits of `n` to `out`.
fn push_decimal(n: u64, out: &mut Vec<u8>)
    ensures
        final(out)@ == old(out)@ + dec_digits(n as nat),
    decreases n,
{
    if n < 10 {
        out.push(48 + n as u8);
        proof {
            assert(old(out)@.push((48 + n) as u8) =~= old(out)@ + dec_digits(n as nat));
        }
    } else {
        push_decimal(n / 10, out);
        out.push(48 + (n % 10) as u8);
        proof {
            assert((old(out)@ + dec_digits((n / 10) as nat)).push((48 + n as nat % 10) as u8)
                =~= old(out)@ + dec_digits(n as nat));
        }
    }
}

/// Keccak-256 of the Ethereum-prefixed message: the digest that an Ethereum
/// personal signature signs.
pub fn to_eth_signed_message_hash(msg: &[u8]) -> (r: Vec<u8>)
    ensures
        r@ == crate::hashing::keccak_256_of(eth_signed_message(msg@)),
        r@.len() == 32,
{
    let mut buf: Vec<u8> = vec![
        0x19u8, 69u8, 116u8, 104u8, 101u8, 114u8, 101u8, 117u8, 109u8, 32u8, 83u8, 105u8, 103u8,
        110u8, 101u8, 100u8, 32u8, 77u8, 101u8, 115u8, 115u8, 97u8, 103u8, 101u8, 58u8, 10u8,
    ];
    proof {
        assert(buf@ =~= eth_prefix());
    }
    push_decimal(msg.len() as u64, &mut buf);
    crate::wire::extend_bytes(&mut buf, msg);
    proof {
        assert(buf@ =~= eth_signed_message(msg@));
    }
    crate::hashing::keccak_256(buf.as_slice())
}

/// Keccak-256 of the Tron-prefixed message: the digest that a Tron personal
/// signature signs.  Only the literal prefix differs from the Ethereum
/// construction.
pub fn to_tron_signed_message_hash(msg: &[u8]) -> (r: Vec<u8>)
    ensures
        r@ == crate::hashing::keccak_256_of(tron_signed_message(msg@)),
        r@.len() == 32,
{
    let mut buf: Vec<u8> = vec![
        0x19u8, 84u8, 82u8, 79u8, 78u8, 32u8, 83u8, 105u8, 103u8, 110u8, 101u8, 100u8, 32u8, 77u8,
        101u8, 115u8, 115u8, 97u8, 103u8, 101u8, 58u8, 10u8,
    ];
    proof {
        assert(buf@ =~= tron_prefix());
    }
    push_decimal(msg.len() as u64, &mut buf);
    crate::wire::extend_bytes(&mut buf, msg);
    proof {
        assert(buf@ =~= tron_signed_message(msg@));
    }
    crate::hashing::keccak_256(buf.as_slice())
}


} // verus!
