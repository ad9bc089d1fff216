//! Title contents: a content locator, its origin, disclosure tags and an
//! optional description, with the canonical binary codec. The wire form is
//! four length-prefixed fields: locator, origin, optional description, and the
//! JSON array of the tags' raw values.

use vstd::prelude::*;
use vstd::utf8::{decode_utf8, encode_utf8, valid_utf8};

use crate::codec::{
    concat_frames, lemma_concat_frames4, lemma_split_frames, pow256, spec_split, split_fields,
};
use crate::error::TrailError;
use crate::fields::{
    encode_opt_str, lemma_opt_str_round_trip, opt_str_field, opt_str_parse, parse_opt_str,
    tag_values, tags_of_values, tags_view, values_of_tags,
};
use crate::tag::{canon_tag, Tag, TagV};
use crate::trusted::{
    frame_bytes, json_encode_strings, json_parse_strings, json_strings_parse, json_strings_text,
    utf8_decode_bytes,
};

verus! {

/// The mathematical value of title contents.
pub ghost struct ContentsV {
    pub ptr: Seq<char>,
    pub origin: Seq<char>,
    pub tags: Seq<TagV>,
    pub description: Option<Seq<char>>,
}

/// The four fields of the title wire form.
pub open spec fn spec_title_fields(c: ContentsV) -> Seq<Seq<u8>> {
    seq![
        encode_utf8(c.ptr),
        encode_utf8(c.origin),
        opt_str_field(c.description),
        encode_utf8(json_strings_text(tag_values(c.tags))),
    ]
}

/// The wire form of title contents.
pub open spec fn spec_title_bytes(c: ContentsV) -> Seq<u8> {
    concat_frames(spec_title_fields(c))
}

/// The reverse direction: what a buffer decodes to, or which error it earns.
/// Tags are re-canonicalized from their decoded raw values.
pub open spec fn spec_title_parse(b: Seq<u8>) -> Result<ContentsV, TrailError> {
    match spec_split(b) {
        None => Err(TrailError::DecodeError),
        Some(fs) => {
            if fs.len() != 4 {
                Err(TrailError::DecodeError)
            } else if !valid_utf8(fs[0]) || !valid_utf8(fs[1]) || opt_str_parse(fs[2]) is None
                || !valid_utf8(fs[3]) {
                Err(TrailError::DecodeError)
            } else {
                match json_strings_parse(decode_utf8(fs[3])) {
                    None => Err(TrailError::DecodeError),
                    Some(vals) => Ok(
                        ContentsV {
                            ptr: decode_utf8(fs[0]),
                            origin: decode_utf8(fs[1]),
                            tags: vals.map_values(|v: Seq<char>| canon_tag(v)),
                            description: opt_str_parse(fs[2])->Some_0,
                        },
                    ),
                }
            }
        },
    }
}

#[derive(Debug)]
pub struct Contents {
    ptr: String,
    origin: String,
    tags: Vec<Tag>,
    description: Option<String>,
}

impl View for Contents {
    type V = ContentsV;

    closed spec fn view(&self) -> ContentsV {
        ContentsV {
            ptr: self.ptr@,
            origin: self.origin@,
            tags: tags_view(self.tags@),
            description: self.description.deep_view(),
        }
    }
}

impl Contents {
    pub fn new(ptr: &str, origin: &str, tags: Vec<Tag>, description: Option<String>) -> (r: Self)
        ensures
            r@.ptr == ptr@,
            r@.origin == origin@,
            r@.tags == tags_view(tags@),
            r@.description == description.deep_view(),
    {
        Contents { ptr: ptr.to_owned(), origin: origin.to_owned(), tags, description }
    }

    pub fn ptr(&self) -> (r: &str)
        ensures
            r@ == self@.ptr,
    {
        self.ptr.as_str()
    }

    pub fn origin(&self) -> (r: &str)
        ensures
            r@ == self@.origin,
    {
        self.origin.as_str()
    }

    pub fn tags(&self) -> (r: &Vec<Tag>)
        ensures
            tags_view(r@) == self@.tags,
    {
        &self.tags
    }

    pub fn description(&self) -> (r: &Option<String>)
        ensures
            r.deep_view() == self@.description,
    {
        &self.description
    }

    /// Encodes the contents into the four-field wire form.
    pub fn to_bytes(&self) -> (r: Vec<u8>)
        ensures
            r@ == spec_title_bytes(self@),
    {
        let mut out = frame_bytes(&self.ptr.as_str().as_bytes_vec());
        let mut f1 = frame_bytes(&self.origin.as_str().as_bytes_vec());
        out.append(&mut f1);
        let mut f2 = frame_bytes(&encode_opt_str(&self.description));
        out.append(&mut f2);
        let values = values_of_tags(&self.tags);
        let json = json_encode_strings(&values);
        let mut f3 = frame_bytes(&json.as_str().as_bytes_vec());
        out.append(&mut f3);
        proof {
            let fs = spec_title_fields(self@);
            lemma_concat_frames4(fs[0], fs[1], fs[2], fs[3]);
            assert(spec_title_fields(self@) =~= seq![fs[0], fs[1], fs[2], fs[3]]);
        }
        out
    }

    /// Decodes the four-field wire form, rejecting bad framing, field count,
    /// UTF-8 or embedded JSON.
    pub fn from_bytes(bytes: &Vec<u8>) -> (r: Result<Self, TrailError>)
        ensures
            match r {
                Ok(c) => spec_title_parse(bytes@) == Ok::<ContentsV, TrailError>(c@),
                Err(e) => spec_title_parse(bytes@) == Err::<ContentsV, TrailError>(e),
            },
    {
        let fields = match split_fields(bytes) {
            Some(fields) => fields,
            None => {
                return Err(TrailError::DecodeError);
            },
        };
        proof {
            assert(fields.deep_view().len() == fields@.len());
        }
        if fields.len() != 4 {
            return Err(TrailError::DecodeError);
        }
        proof {
            assert(fields.deep_view()[0] == fields@[0]@);
            assert(fields.deep_view()[1] == fields@[1]@);
            assert(fields.deep_view()[2] == fields@[2]@);
            assert(fields.deep_view()[3] == fields@[3]@);
        }
        let ptr = match utf8_decode_bytes(&fields[0]) {
            Some(s) => s,
            None => {
                return Err(TrailError::DecodeError);
            },
        };
        let origin = match utf8_decode_bytes(&fields[1]) {
            Some(s) => s,
            None => {
                return Err(TrailError::DecodeError);
            },
        };
        let description = match parse_opt_str(&fields[2]) {
            Some(d) => d,
            None => {
                return Err(TrailError::DecodeError);
            },
        };
        let json = match utf8_decode_bytes(&fields[3]) {
            Some(s) => s,
            None => {
                return Err(TrailError::DecodeError);
            },
        };
        let vals = match json_parse_strings(json.as_str()) {
            Some(v) => v,
            None => {
                return Err(TrailError::DecodeError);
            },
        };
        let tags = tags_of_values(&vals);
        Ok(Contents { ptr, origin, tags, description })
    }
}

/// Decoding an encoded title reproduces it exactly. The premises are the wire
/// format's length bound on each field, the JSON collaborator's round trip on
/// the tag values (the fact its wrapper's contract states), and canonical tags
/// (which every constructed tag is).
pub proof fn lemma_title_round_trip(c: ContentsV)
    requires
        encode_utf8(c.ptr).len() < pow256(8),
        encode_utf8(c.origin).len() < pow256(8),
        opt_str_field(c.description).len() < pow256(8),
        encode_utf8(json_strings_text(tag_values(c.tags))).len() < pow256(8),
        json_strings_parse(json_strings_text(tag_values(c.tags))) == Some(tag_values(c.tags)),
        forall|i: int|
            0 <= i < c.tags.len() ==> #[trigger] canon_tag(c.tags[i].value) == c.tags[i],
    ensures
        spec_title_parse(spec_title_bytes(c)) == Ok::<ContentsV, TrailError>(c),
{
    broadcast use vstd::utf8::encode_utf8_valid_utf8, vstd::utf8::encode_utf8_decode_utf8;

    let fs = spec_title_fields(c);
    assert(forall|i: int| 0 <= i < fs.len() ==> (#[trigger] fs[i]).len() < pow256(8)) by {
        assert(fs[0] == encode_utf8(c.ptr));
        assert(fs[1] == encode_utf8(c.origin));
        assert(fs[2] == opt_str_field(c.description));
        assert(fs[3] == encode_utf8(json_strings_text(tag_values(c.tags))));
    }
    lemma_split_frames(fs);
    lemma_opt_str_round_trip(c.description);
    let vals = tag_values(c.tags);
    assert(vals.map_values(|v: Seq<char>| canon_tag(v)) =~= c.tags);
    assert(spec_title_parse(spec_title_bytes(c))->Ok_0 == c);
}

} // verus!
