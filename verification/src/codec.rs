//! The length-prefix framing used throughout the ledger: every field of a
//! record is prepended with a compact-size header (one byte for lengths up to
//! 252, a `253` tag plus two big-endian bytes up to `0xffff`, and a `255` tag
//! plus eight big-endian bytes beyond that), and records are the plain
//! concatenation of their framed fields.
//!
//! [`spec_split`] is the total parser for this format; [`split_fields`] is the
//! verified splitter, which rejects malformed buffers instead of panicking.

use vstd::prelude::*;
use vstd::slice::{slice_subrange, slice_to_vec};

verus! {

/// 256 to the power `k`.
pub open spec fn pow256(k: nat) -> nat
    decreases k,
{
    if k == 0 {
        1
    } else {
        256 * pow256((k - 1) as nat)
    }
}

/// The value of a big-endian byte sequence.
pub open spec fn be_val(b: Seq<u8>) -> nat
    decreases b.len(),
{
    if b.len() == 0 {
        0
    } else {
        be_val(b.drop_last()) * 256 + (b.last() as nat)
    }
}

/// The `k`-byte big-endian encoding of `v`.
pub open spec fn be_bytes(v: nat, k: nat) -> Seq<u8>
    decreases k,
{
    if k == 0 {
        Seq::empty()
    } else {
        be_bytes(v / 256, (k - 1) as nat).push((v % 256) as u8)
    }
}

pub proof fn lemma_pow256_values()
    ensures
        pow256(1) == 0x100,
        pow256(2) == 0x10000,
        pow256(8) == 0x1_0000_0000_0000_0000,
{
    assert(pow256(0) == 1);
    assert(pow256(1) == 256 * pow256(0));
    assert(pow256(2) == 256 * pow256(1));
    assert(pow256(3) == 256 * pow256(2));
    assert(pow256(4) == 256 * pow256(3));
    assert(pow256(5) == 256 * pow256(4));
    assert(pow256(6) == 256 * pow256(5));
    assert(pow256(7) == 256 * pow256(6));
    assert(pow256(8) == 256 * pow256(7));
}

pub proof fn lemma_pow256_mono(a: nat, b: nat)
    requires
        a <= b,
    ensures
        pow256(a) <= pow256(b),
    decreases b,
{
    if a < b {
        lemma_pow256_mono(a, (b - 1) as nat);
        assert(pow256(b) == 256 * pow256((b - 1) as nat));
    }
}

pub proof fn lemma_be_roundtrip(v: nat, k: nat)
    requires
        v < pow256(k),
    ensures
        be_bytes(v, k).len() == k,
        be_val(be_bytes(v, k)) == v,
    decreases k,
{
    if k == 0 {
    } else {
        let p = pow256((k - 1) as nat);
        assert(v < 256 * p);
        assert(v / 256 < p) by (nonlinear_arith)
            requires
                v < 256 * p,
                p >= 1,
        ;
        lemma_be_roundtrip(v / 256, (k - 1) as nat);
        assert(be_bytes(v, k).drop_last() =~= be_bytes(v / 256, (k - 1) as nat));
        assert(be_bytes(v, k).last() == (v % 256) as u8);
    }
}

/// The compact-size header for a field of `n` bytes.
pub open spec fn size_header(n: nat) -> Seq<u8> {
    if n <= 252 {
        seq![n as u8]
    } else if n <= 0xffff {
        seq![253u8] + be_bytes(n, 2)
    } else {
        seq![255u8] + be_bytes(n, 8)
    }
}

/// A field framed with its compact-size header.
pub open spec fn frame(b: Seq<u8>) -> Seq<u8> {
    size_header(b.len()) + b
}

/// The concatenation of framed fields: the wire form of a whole record.
pub open spec fn concat_frames(fs: Seq<Seq<u8>>) -> Seq<u8>
    decreases fs.len(),
{
    if fs.len() == 0 {
        Seq::empty()
    } else {
        frame(fs[0]) + concat_frames(fs.drop_first())
    }
}

/// Reads the compact-size header at the start of a buffer, giving the field
/// length and the header length; `None` when the buffer is too short.
pub open spec fn parse_header(b: Seq<u8>) -> Option<(nat, nat)> {
    if b.len() == 0 {
        None
    } else if b[0] <= 252 {
        Some((b[0] as nat, 1 as nat))
    } else if b[0] == 253 {
        if b.len() >= 3 {
            Some((be_val(b.subrange(1, 3)), 3 as nat))
        } else {
            None
        }
    } else if b[0] == 254 {
        if b.len() >= 5 {
            Some((be_val(b.subrange(1, 5)), 5 as nat))
        } else {
            None
        }
    } else {
        if b.len() >= 9 {
            Some((be_val(b.subrange(1, 9)), 9 as nat))
        } else {
            None
        }
    }
}

/// Splits a buffer into its length-prefixed fields; `None` when the buffer is
/// not a well-formed concatenation of framed fields.
pub open spec fn spec_split(b: Seq<u8>) -> Option<Seq<Seq<u8>>>
    decreases b.len(),
{
    if b.len() == 0 {
        Some(Seq::empty())
    } else {
        match parse_header(b) {
            None => None,
            Some((flen, hlen)) => {
                if b.len() >= hlen + flen {
                    match spec_split(b.subrange((hlen + flen) as int, b.len() as int)) {
                        None => None,
                        Some(rest) => Some(
                            seq![b.subrange(hlen as int, (hlen + flen) as int)] + rest,
                        ),
                    }
                } else {
                    None
                }
            },
        }
    }
}

/// Reading back the header of a framed field gives the field's length, and the
/// framed field is followed by whatever was appended after it.
pub proof fn lemma_parse_frame(payload: Seq<u8>, rest: Seq<u8>)
    requires
        payload.len() < pow256(8),
    ensures
        ({
            let whole = frame(payload) + rest;
            let hlen = size_header(payload.len()).len();
            &&& parse_header(whole) == Some((payload.len(), hlen as nat))
            &&& whole.len() == hlen + payload.len() + rest.len()
            &&& whole.subrange(hlen as int, (hlen + payload.len()) as int) == payload
            &&& whole.subrange((hlen + payload.len()) as int, whole.len() as int) == rest
        }),
{
    lemma_pow256_values();
    let n = payload.len();
    let whole = frame(payload) + rest;
    if n <= 252 {
        assert(whole[0] == n as u8);
        assert(whole.subrange(1, 1 + n as int) =~= payload);
        assert(whole.subrange(1 + n as int, whole.len() as int) =~= rest);
    } else if n <= 0xffff {
        lemma_be_roundtrip(n, 2);
        assert(whole[0] == 253u8);
        assert(whole.subrange(1, 3) =~= be_bytes(n, 2));
        assert(whole.subrange(3, 3 + n as int) =~= payload);
        assert(whole.subrange(3 + n as int, whole.len() as int) =~= rest);
    } else {
        lemma_be_roundtrip(n, 8);
        assert(whole[0] == 255u8);
        assert(whole.subrange(1, 9) =~= be_bytes(n, 8));
        assert(whole.subrange(9, 9 + n as int) =~= payload);
        assert(whole.subrange(9 + n as int, whole.len() as int) =~= rest);
    }
}

/// Splitting a concatenation of framed fields recovers exactly those fields.
pub proof fn lemma_split_frames(fs: Seq<Seq<u8>>)
    requires
        forall|i: int| 0 <= i < fs.len() ==> (#[trigger] fs[i]).len() < pow256(8),
    ensures
        spec_split(concat_frames(fs)) == Some(fs),
    decreases fs.len(),
{
    if fs.len() == 0 {
    } else {
        let payload = fs[0];
        let rest = concat_frames(fs.drop_first());
        let whole = concat_frames(fs);
        let hlen = size_header(payload.len()).len();
        lemma_parse_frame(payload, rest);
        lemma_split_frames(fs.drop_first());
        assert(whole.subrange((hlen + payload.len()) as int, whole.len() as int) == rest);
        assert(seq![payload] + fs.drop_first() =~= fs);
    }
}

/// Reads `k` big-endian bytes starting at `start`.
fn read_be(bytes: &Vec<u8>, start: usize, k: usize) -> (v: u64)
    requires
        start + k <= bytes@.len(),
        k <= 8,
    ensures
        v as nat == be_val(bytes@.subrange(start as int, (start + k) as int)),
{
    proof {
        lemma_pow256_values();
    }
    let n = bytes.len();
    let mut v: u64 = 0;
    let mut j: usize = 0;
    while j < k
        invariant
            j <= k,
            k <= 8,
            start + k <= n,
            n == bytes@.len(),
            v as nat == be_val(bytes@.subrange(start as int, (start + j) as int)),
            (v as nat) < pow256(j as nat),
            pow256(8) == 0x1_0000_0000_0000_0000,
        decreases k - j,
    {
        proof {
            assert(bytes@.subrange(start as int, (start + j + 1) as int).drop_last()
                =~= bytes@.subrange(start as int, (start + j) as int));
            lemma_pow256_mono((j + 1) as nat, 8);
            assert(pow256((j + 1) as nat) == 256 * pow256(j as nat));
            assert((v as nat) * 256 + 255 < pow256((j + 1) as nat));
        }
        let b = bytes[start + j];
        v = v * 256 + (b as u64);
        j = j + 1;
    }
    proof {
        assert(bytes@.subrange(start as int, (start + j) as int) =~= bytes@.subrange(
            start as int,
            (start + k) as int,
        ));
    }
    v
}

/// A big-endian byte sequence's value is bounded by its width.
pub proof fn lemma_be_val_bound(b: Seq<u8>)
    ensures
        be_val(b) < pow256(b.len()),
    decreases b.len(),
{
    if b.len() == 0 {
    } else {
        lemma_be_val_bound(b.drop_last());
        assert(pow256(b.len()) == 256 * pow256((b.len() - 1) as nat));
    }
}

/// Every field that a well-formed buffer splits into fits the wire format's
/// length bound: no header can state a longer length.
pub proof fn lemma_split_fields_bounded(b: Seq<u8>)
    ensures
        spec_split(b) matches Some(fs) ==> forall|i: int|
            0 <= i < fs.len() ==> (#[trigger] fs[i]).len() < pow256(8),
    decreases b.len(),
{
    lemma_pow256_values();
    if b.len() == 0 {
    } else {
        match parse_header(b) {
            None => {},
            Some((flen, hlen)) => {
                if b.len() >= hlen + flen {
                    assert(flen < pow256(8)) by {
                        if b[0] <= 252 {
                            lemma_pow256_mono(1, 8);
                        } else if b[0] == 253 {
                            lemma_be_val_bound(b.subrange(1, 3));
                            lemma_pow256_mono(2, 8);
                        } else if b[0] == 254 {
                            lemma_be_val_bound(b.subrange(1, 5));
                            lemma_pow256_mono(4, 8);
                        } else {
                            lemma_be_val_bound(b.subrange(1, 9));
                        }
                    }
                    lemma_split_fields_bounded(b.subrange((hlen + flen) as int, b.len() as int));
                }
            },
        }
    }
}

/// Appending one more framed field extends the wire form on the right.
pub proof fn lemma_concat_frames_push(fs: Seq<Seq<u8>>, f: Seq<u8>)
    ensures
        concat_frames(fs.push(f)) == concat_frames(fs) + frame(f),
    decreases fs.len(),
{
    if fs.len() == 0 {
        assert(fs.push(f).drop_first() =~= Seq::<Seq<u8>>::empty());
        assert(fs.push(f)[0] == f);
        assert(concat_frames(Seq::<Seq<u8>>::empty()) =~= Seq::<u8>::empty());
        assert(concat_frames(fs.push(f)) =~= frame(f));
        assert(concat_frames(fs) + frame(f) =~= frame(f));
    } else {
        assert(fs.push(f).drop_first() =~= fs.drop_first().push(f));
        lemma_concat_frames_push(fs.drop_first(), f);
        assert(fs.push(f)[0] == fs[0]);
        assert(concat_frames(fs.push(f)) =~= concat_frames(fs) + frame(f));
    }
}

/// The wire form of a four-field record, spelled out.
pub proof fn lemma_concat_frames4(a: Seq<u8>, b: Seq<u8>, c: Seq<u8>, d: Seq<u8>)
    ensures
        concat_frames(seq![a, b, c, d]) == frame(a) + frame(b) + frame(c) + frame(d),
{
    let s4 = seq![a, b, c, d];
    let s3 = seq![b, c, d];
    let s2 = seq![c, d];
    let s1 = seq![d];
    assert(s4.drop_first() =~= s3);
    assert(s3.drop_first() =~= s2);
    assert(s2.drop_first() =~= s1);
    assert(s1.drop_first() =~= Seq::<Seq<u8>>::empty());
    assert(concat_frames(Seq::<Seq<u8>>::empty()) =~= Seq::<u8>::empty());
    assert(concat_frames(s1) =~= frame(d) + Seq::<u8>::empty());
    assert(concat_frames(s2) =~= frame(c) + concat_frames(s1));
    assert(concat_frames(s3) =~= frame(b) + concat_frames(s2));
    assert(concat_frames(s4) =~= frame(a) + concat_frames(s3));
    assert(concat_frames(s4) =~= frame(a) + frame(b) + frame(c) + frame(d));
}

/// The minimal big-endian two's-complement encoding of an integer: one byte
/// for values in `[-128, 127]`, otherwise the encoding of the value shifted
/// right by one byte followed by its low byte.
pub open spec fn sbe_bytes(v: int) -> Seq<u8>
    decreases (if v < 0 { -v } else { v }),
{
    if -128 <= v <= 127 {
        seq![(v % 256) as u8]
    } else {
        sbe_bytes(v / 256).push((v % 256) as u8)
    }
}

/// The signed value of a big-endian two's-complement byte sequence (an empty
/// sequence reads as zero).
pub open spec fn sbe_val(b: Seq<u8>) -> int {
    if b.len() == 0 {
        0
    } else {
        be_val(b) - (if b[0] >= 128 {
            pow256(b.len()) as int
        } else {
            0
        })
    }
}

/// The machine integer read back from a big-endian two's-complement byte
/// sequence, where it fits.
pub open spec fn sbe_parse(b: Seq<u8>) -> Option<i64> {
    if i64::MIN <= sbe_val(b) <= i64::MAX {
        Some(sbe_val(b) as i64)
    } else {
        None
    }
}

/// Reading back the two's-complement encoding of an integer gives the integer.
pub proof fn lemma_sbe_roundtrip(v: int)
    ensures
        sbe_bytes(v).len() >= 1,
        sbe_val(sbe_bytes(v)) == v,
    decreases (if v < 0 { -v } else { v }),
{
    if -128 <= v <= 127 {
        let b = sbe_bytes(v);
        assert(b.len() == 1);
        assert(b.drop_last() =~= Seq::<u8>::empty());
        assert(be_val(Seq::<u8>::empty()) == 0);
        assert(b.last() == b[0]);
        assert(be_val(b) == (b[0] as nat));
        assert(pow256(0) == 1);
        assert(pow256(1) == 256 * pow256(0));
    } else {
        let q = v / 256;
        let r = v % 256;
        lemma_sbe_roundtrip(q);
        let pre = sbe_bytes(q);
        let b = sbe_bytes(v);
        assert(b =~= pre.push(r as u8));
        assert(b.drop_last() =~= pre);
        assert(b[0] == pre[0]);
        assert(be_val(b) == be_val(pre) * 256 + r);
        assert(pow256(b.len()) == 256 * pow256(pre.len()));
    }
}

/// An integer in the range of `k` signed big-endian bytes encodes in at most
/// `k` bytes.
pub proof fn lemma_sbe_len(v: int, k: nat)
    requires
        k >= 1,
        -128 * pow256((k - 1) as nat) <= v < 128 * pow256((k - 1) as nat),
    ensures
        sbe_bytes(v).len() <= k,
    decreases k,
{
    if -128 <= v <= 127 {
    } else {
        let q = v / 256;
        let p = pow256((k - 2) as nat);
        assert(k >= 2) by {
            if k == 1 {
                assert(pow256(0) == 1);
            }
        }
        assert(pow256((k - 1) as nat) == 256 * p);
        assert(-128 * p <= q < 128 * p) by (nonlinear_arith)
            requires
                -128 * (256 * p) <= v < 128 * (256 * p),
                q == v / 256,
                p >= 1,
        ;
        lemma_sbe_len(q, (k - 1) as nat);
    }
}

/// Reads the compact-size header that starts at position `i`.
fn read_header(bytes: &Vec<u8>, i: usize) -> (r: Option<(u64, usize)>)
    requires
        i < bytes@.len(),
    ensures
        match r {
            Some((flen, hlen)) => parse_header(bytes@.subrange(i as int, bytes@.len() as int))
                == Some((flen as nat, hlen as nat)) && 1 <= hlen <= 9,
            None => parse_header(bytes@.subrange(i as int, bytes@.len() as int)) is None,
        },
{
    let n = bytes.len();
    let ghost sub = bytes@.subrange(i as int, n as int);
    let tag = bytes[i];
    if tag <= 252 {
        Some((tag as u64, 1))
    } else if tag == 253 {
        if n - i < 3 {
            return None;
        }
        let v = read_be(bytes, i + 1, 2);
        proof {
            assert(sub.subrange(1, 3) =~= bytes@.subrange(i as int + 1, i as int + 3));
        }
        Some((v, 3))
    } else if tag == 254 {
        if n - i < 5 {
            return None;
        }
        let v = read_be(bytes, i + 1, 4);
        proof {
            assert(sub.subrange(1, 5) =~= bytes@.subrange(i as int + 1, i as int + 5));
        }
        Some((v, 5))
    } else {
        if n - i < 9 {
            return None;
        }
        let v = read_be(bytes, i + 1, 8);
        proof {
            assert(sub.subrange(1, 9) =~= bytes@.subrange(i as int + 1, i as int + 9));
        }
        Some((v, 9))
    }
}

/// Splits a buffer into its length-prefixed fields, rejecting any buffer that
/// is not a well-formed concatenation of framed fields.
#[verifier::rlimit(30)]
pub fn split_fields(bytes: &Vec<u8>) -> (r: Option<Vec<Vec<u8>>>)
    ensures
        match r {
            Some(fields) => spec_split(bytes@) == Some(fields.deep_view()),
            None => spec_split(bytes@) is None,
        },
{
    let n = bytes.len();
    let mut fields: Vec<Vec<u8>> = Vec::new();
    let mut i: usize = 0;
    proof {
        assert(bytes@.subrange(0, n as int) =~= bytes@);
    }
    while i < n
        invariant
            i <= n,
            n == bytes@.len(),
            match spec_split(bytes@.subrange(i as int, n as int)) {
                Some(rest) => spec_split(bytes@) == Some(fields.deep_view() + rest),
                None => spec_split(bytes@) is None,
            },
        decreases n - i,
    {
        let ghost sub = bytes@.subrange(i as int, n as int);
        let header = match read_header(bytes, i) {
            Some(h) => h,
            None => {
                return None;
            },
        };
        let flen64 = header.0;
        let hlen = header.1;
        let rem = n - i - hlen;
        if flen64 > rem as u64 {
            return None;
        }
        let flen = flen64 as usize;
        let field = slice_to_vec(slice_subrange(bytes.as_slice(), i + hlen, i + hlen + flen));
        let ghost dv0 = fields.deep_view();
        fields.push(field);
        proof {
            lemma_step_split(bytes@, i as nat, flen as nat, hlen as nat, field@, dv0);
            assert(fields.deep_view() =~= dv0.push(field@)) by {
                assert(field.deep_view() =~= field@);
                assert(fields.deep_view().len() == dv0.len() + 1);
                assert(fields.deep_view()[dv0.len() as int] == field@);
                assert(forall|k: int| 0 <= k < dv0.len() ==> fields.deep_view()[k] == dv0[k]);
            }
        }
        i = i + hlen + flen;
    }
    proof {
        assert(bytes@.subrange(i as int, n as int) =~= Seq::<u8>::empty());
        assert(fields.deep_view() + Seq::<Seq<u8>>::empty() =~= fields.deep_view());
    }
    Some(fields)
}

/// One step of the splitting loop: consuming a well-formed framed field keeps
/// the relation between the whole buffer's fields and those gathered so far.
proof fn lemma_step_split(bytes: Seq<u8>, i: nat, flen: nat, hlen: nat, field: Seq<u8>, dv0: Seq<Seq<u8>>)
    requires
        i < bytes.len(),
        parse_header(bytes.subrange(i as int, bytes.len() as int)) == Some((flen, hlen)),
        i + hlen + flen <= bytes.len(),
        field == bytes.subrange((i + hlen) as int, (i + hlen + flen) as int),
    ensures
        ({
            let sub = bytes.subrange(i as int, bytes.len() as int);
            let sub2 = bytes.subrange((i + hlen + flen) as int, bytes.len() as int);
            match spec_split(sub2) {
                Some(rest2) => spec_split(sub) == Some(seq![field] + rest2) && dv0.push(field)
                    + rest2 == dv0 + (seq![field] + rest2),
                None => spec_split(sub) is None,
            }
        }),
{
    let n = bytes.len();
    let sub = bytes.subrange(i as int, n as int);
    let sub2 = bytes.subrange((i + hlen + flen) as int, n as int);
    assert(sub.len() > 0);
    assert(sub.subrange((hlen + flen) as int, sub.len() as int) =~= sub2);
    assert(sub.subrange(hlen as int, (hlen + flen) as int) =~= field);
    if spec_split(sub2) is Some {
        let rest2 = spec_split(sub2)->Some_0;
        assert(dv0.push(field) + rest2 =~= dv0 + (seq![field] + rest2));
    }
}

} // verus!
