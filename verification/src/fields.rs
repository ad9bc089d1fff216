//! Field conventions shared by the content codecs: optional fields carry an
//! explicit presence byte (an empty field is "absent"; a leading `1` marks a
//! present value), so an absent value and an empty present value never
//! collide. Also the conversions between tag / use-case vectors and their raw
//! string values.

use vstd::prelude::*;
use vstd::slice::{slice_subrange, slice_to_vec};
use vstd::utf8::{decode_utf8, encode_utf8, valid_utf8};

use crate::codec::{sbe_bytes, sbe_parse};
use crate::tag::{canon_tag, Tag, TagV};
use crate::trusted::{sbe_decode, sbe_encode, utf8_decode_bytes};
use crate::use_case::{canon_use_case, UseCase, UseCaseV};

verus! {

/// The wire form of an optional string: empty when absent, a presence byte
/// followed by the UTF-8 text when present.
pub open spec fn opt_str_field(d: Option<Seq<char>>) -> Seq<u8> {
    match d {
        None => Seq::empty(),
        Some(s) => seq![1u8] + encode_utf8(s),
    }
}

/// Reads an optional string field back; `None` when the field is malformed.
pub open spec fn opt_str_parse(b: Seq<u8>) -> Option<Option<Seq<char>>> {
    if b.len() == 0 {
        Some(None)
    } else if b[0] == 1 && valid_utf8(b.drop_first()) {
        Some(Some(decode_utf8(b.drop_first())))
    } else {
        None
    }
}

/// The wire form of an optional timestamp: empty when absent, a presence byte
/// followed by the signed big-endian seconds when present.
pub open spec fn opt_i64_field(d: Option<i64>) -> Seq<u8> {
    match d {
        None => Seq::empty(),
        Some(v) => seq![1u8] + sbe_bytes(v as int),
    }
}

/// Reads an optional timestamp field back; `None` when the field is malformed.
pub open spec fn opt_i64_parse(b: Seq<u8>) -> Option<Option<i64>> {
    if b.len() == 0 {
        Some(None)
    } else if b[0] == 1 && sbe_parse(b.drop_first()) is Some {
        Some(Some(sbe_parse(b.drop_first())->Some_0))
    } else {
        None
    }
}

/// Reading back an encoded optional string gives the string.
pub proof fn lemma_opt_str_round_trip(d: Option<Seq<char>>)
    ensures
        opt_str_parse(opt_str_field(d)) == Some(d),
{
    broadcast use vstd::utf8::encode_utf8_valid_utf8, vstd::utf8::encode_utf8_decode_utf8;

    match d {
        None => {},
        Some(s) => {
            assert(opt_str_field(d).drop_first() =~= encode_utf8(s));
        },
    }
}

/// Reading back an encoded optional timestamp gives the timestamp.
pub proof fn lemma_opt_i64_round_trip(d: Option<i64>)
    ensures
        opt_i64_parse(opt_i64_field(d)) == Some(d),
{
    match d {
        None => {},
        Some(v) => {
            crate::codec::lemma_sbe_roundtrip(v as int);
            assert(opt_i64_field(d).drop_first() =~= sbe_bytes(v as int));
        },
    }
}

/// Encodes an optional string field.
pub fn encode_opt_str(d: &Option<String>) -> (r: Vec<u8>)
    ensures
        r@ == opt_str_field(d.deep_view()),
{
    match d {
        None => Vec::new(),
        Some(s) => {
            let mut out: Vec<u8> = vec![1u8];
            let mut text = s.as_str().as_bytes_vec();
            out.append(&mut text);
            proof {
                assert(out@ =~= seq![1u8] + encode_utf8(s@));
            }
            out
        },
    }
}

/// Parses an optional string field.
pub fn parse_opt_str(b: &Vec<u8>) -> (r: Option<Option<String>>)
    ensures
        match r {
            Some(d) => opt_str_parse(b@) == Some(d.deep_view()),
            None => opt_str_parse(b@) is None,
        },
{
    if b.len() == 0 {
        Some(None)
    } else if b[0] == 1 {
        let rest = slice_to_vec(slice_subrange(b.as_slice(), 1, b.len()));
        proof {
            assert(rest@ =~= b@.drop_first());
        }
        match utf8_decode_bytes(&rest) {
            Some(s) => Some(Some(s)),
            None => None,
        }
    } else {
        None
    }
}

/// Encodes an optional timestamp field.
pub fn encode_opt_i64(d: &Option<i64>) -> (r: Vec<u8>)
    ensures
        r@ == opt_i64_field(*d),
{
    match d {
        None => Vec::new(),
        Some(v) => {
            let mut out: Vec<u8> = vec![1u8];
            let mut val = sbe_encode(*v);
            out.append(&mut val);
            proof {
                assert(out@ =~= seq![1u8] + sbe_bytes(*v as int));
            }
            out
        },
    }
}

/// Parses an optional timestamp field.
pub fn parse_opt_i64(b: &Vec<u8>) -> (r: Option<Option<i64>>)
    ensures
        match r {
            Some(d) => opt_i64_parse(b@) == Some(d),
            None => opt_i64_parse(b@) is None,
        },
{
    if b.len() == 0 {
        Some(None)
    } else if b[0] == 1 {
        let rest = slice_to_vec(slice_subrange(b.as_slice(), 1, b.len()));
        proof {
            assert(rest@ =~= b@.drop_first());
        }
        match sbe_decode(&rest) {
            Some(v) => Some(Some(v)),
            None => None,
        }
    } else {
        None
    }
}

/// The raw string values of a sequence of tags.
pub open spec fn tag_values(tags: Seq<TagV>) -> Seq<Seq<char>> {
    tags.map_values(|t: TagV| t.value)
}

/// The raw string values of a sequence of use cases.
pub open spec fn use_case_values(uses: Seq<UseCaseV>) -> Seq<Seq<char>> {
    uses.map_values(|u: UseCaseV| u.value)
}

/// The views of a vector of tags.
pub open spec fn tags_view(tags: Seq<Tag>) -> Seq<TagV> {
    tags.map_values(|t: Tag| t@)
}

/// The views of a vector of use cases.
pub open spec fn uses_view(uses: Seq<UseCase>) -> Seq<UseCaseV> {
    uses.map_values(|u: UseCase| u@)
}

/// Collects the raw values of a vector of tags.
pub fn values_of_tags(tags: &Vec<Tag>) -> (r: Vec<String>)
    ensures
        r.deep_view() == tag_values(tags_view(tags@)),
{
    let mut out: Vec<String> = Vec::new();
    let mut i: usize = 0;
    while i < tags.len()
        invariant
            i <= tags@.len(),
            out.deep_view().len() == i,
            forall|k: int| 0 <= k < i ==> out.deep_view()[k] == tags@[k]@.value,
        decreases tags@.len() - i,
    {
        let ghost dv0 = out.deep_view();
        out.push(tags[i].value().to_owned());
        proof {
            assert(out.deep_view().len() == dv0.len() + 1);
            assert forall|k: int| 0 <= k < i + 1 implies out.deep_view()[k] == tags@[k]@.value by {
                if k < i {
                    assert(out.deep_view()[k] == dv0[k]);
                    assert(dv0[k] == tags@[k]@.value);
                } else {
                    assert(out.deep_view()[k] == tags@[i as int]@.value);
                }
            }
        }
        i = i + 1;
    }
    proof {
        assert(out.deep_view() =~= tag_values(tags_view(tags@)));
    }
    out
}

/// Collects the raw values of a vector of use cases.
pub fn values_of_uses(uses: &Vec<UseCase>) -> (r: Vec<String>)
    ensures
        r.deep_view() == use_case_values(uses_view(uses@)),
{
    let mut out: Vec<String> = Vec::new();
    let mut i: usize = 0;
    while i < uses.len()
        invariant
            i <= uses@.len(),
            out.deep_view().len() == i,
            forall|k: int| 0 <= k < i ==> out.deep_view()[k] == uses@[k]@.value,
        decreases uses@.len() - i,
    {
        let ghost dv0 = out.deep_view();
        out.push(uses[i].value().to_owned());
        proof {
            assert(out.deep_view().len() == dv0.len() + 1);
            assert forall|k: int| 0 <= k < i + 1 implies out.deep_view()[k] == uses@[k]@.value by {
                if k < i {
                    assert(out.deep_view()[k] == dv0[k]);
                    assert(dv0[k] == uses@[k]@.value);
                } else {
                    assert(out.deep_view()[k] == uses@[i as int]@.value);
                }
            }
        }
        i = i + 1;
    }
    proof {
        assert(out.deep_view() =~= use_case_values(uses_view(uses@)));
    }
    out
}

/// Canonicalizes a vector of raw strings into tags.
pub fn tags_of_values(vals: &Vec<String>) -> (r: Vec<Tag>)
    ensures
        tags_view(r@) == vals.deep_view().map_values(|v: Seq<char>| canon_tag(v)),
{
    let mut out: Vec<Tag> = Vec::new();
    let mut i: usize = 0;
    while i < vals.len()
        invariant
            i <= vals@.len(),
            out@.len() == i,
            forall|k: int| 0 <= k < i ==> (#[trigger] out@[k])@ == canon_tag(vals@[k]@),
        decreases vals@.len() - i,
    {
        out.push(Tag::new(vals[i].as_str()));
        i = i + 1;
    }
    proof {
        assert(tags_view(out@) =~= vals.deep_view().map_values(|v: Seq<char>| canon_tag(v)));
    }
    out
}

/// Canonicalizes a vector of raw strings into use cases.
pub fn uses_of_values(vals: &Vec<String>) -> (r: Vec<UseCase>)
    ensures
        uses_view(r@) == vals.deep_view().map_values(|v: Seq<char>| canon_use_case(v)),
{
    let mut out: Vec<UseCase> = Vec::new();
    let mut i: usize = 0;
    while i < vals.len()
        invariant
            i <= vals@.len(),
            out@.len() == i,
            forall|k: int| 0 <= k < i ==> (#[trigger] out@[k])@ == canon_use_case(vals@[k]@),
        decreases vals@.len() - i,
    {
        out.push(UseCase::new(vals[i].as_str()));
        i = i + 1;
    }
    proof {
        assert(uses_view(out@) =~= vals.deep_view().map_values(|v: Seq<char>| canon_use_case(v)));
    }
    out
}

} // verus!
