//! License contents: the granted uses, terms, an optional description and an
//! optional expiry (whole seconds since the Unix epoch), with the canonical
//! binary codec. The wire form is four length-prefixed fields: the JSON array
//! of the uses' raw values, the terms, the optional description, and the
//! optional expiry.

use vstd::prelude::*;
use vstd::utf8::{decode_utf8, encode_utf8, valid_utf8};

use crate::codec::{
    concat_frames, lemma_concat_frames4, lemma_split_frames, pow256, spec_split, split_fields,
};
use crate::error::TrailError;
use crate::fields::{
    encode_opt_i64, encode_opt_str, lemma_opt_i64_round_trip, lemma_opt_str_round_trip,
    opt_i64_field, opt_i64_parse, opt_str_field, opt_str_parse, parse_opt_i64, parse_opt_str,
    use_case_values, uses_of_values, uses_view, values_of_uses,
};
use crate::trusted::{
    frame_bytes, json_encode_strings, json_parse_strings, json_strings_parse, json_strings_text,
    utf8_decode_bytes,
};
use crate::use_case::{canon_use_case, UseCase, UseCaseV};

verus! {

/// The mathematical value of license contents.
pub ghost struct ContentsV {
    pub uses: Seq<UseCaseV>,
    pub terms: Seq<char>,
    pub description: Option<Seq<char>>,
    pub expiry: Option<i64>,
}

/// The four fields of the license wire form.
pub open spec fn spec_license_fields(c: ContentsV) -> Seq<Seq<u8>> {
    seq![
        encode_utf8(json_strings_text(use_case_values(c.uses))),
        encode_utf8(c.terms),
        opt_str_field(c.description),
        opt_i64_field(c.expiry),
    ]
}

/// The wire form of license contents.
pub open spec fn spec_license_bytes(c: ContentsV) -> Seq<u8> {
    concat_frames(spec_license_fields(c))
}

/// The reverse direction: what a buffer decodes to, or which error it earns.
/// Uses are re-canonicalized from their decoded raw values.
pub open spec fn spec_license_parse(b: Seq<u8>) -> Result<ContentsV, TrailError> {
    match spec_split(b) {
        None => Err(TrailError::DecodeError),
        Some(fs) => {
            if fs.len() != 4 {
                Err(TrailError::DecodeError)
            } else if !valid_utf8(fs[0]) || !valid_utf8(fs[1]) || opt_str_parse(fs[2]) is None
                || opt_i64_parse(fs[3]) is None {
                Err(TrailError::DecodeError)
            } else {
                match json_strings_parse(decode_utf8(fs[0])) {
                    None => Err(TrailError::DecodeError),
                    Some(vals) => Ok(
                        ContentsV {
                            uses: vals.map_values(|v: Seq<char>| canon_use_case(v)),
                            terms: decode_utf8(fs[1]),
                            description: opt_str_parse(fs[2])->Some_0,
                            expiry: opt_i64_parse(fs[3])->Some_0,
                        },
                    ),
                }
            }
        },
    }
}

#[derive(Debug)]
pub struct Contents {
    uses: Vec<UseCase>,
    terms: String,
    description: Option<String>,
    expiry: Option<i64>,
}

impl View for Contents {
    type V = ContentsV;

    closed spec fn view(&self) -> ContentsV {
        ContentsV {
            uses: uses_view(self.uses@),
            terms: self.terms@,
            description: self.description.deep_view(),
            expiry: self.expiry,
        }
    }
}

impl Contents {
    pub fn new(
        uses: Vec<UseCase>,
        terms: &str,
        description: Option<String>,
        expiry: Option<i64>,
    ) -> (r: Self)
        ensures
            r@.uses == uses_view(uses@),
            r@.terms == terms@,
            r@.description == description.deep_view(),
            r@.expiry == expiry,
    {
        Contents { uses, terms: terms.to_owned(), description, expiry }
    }

    pub fn uses(&self) -> (r: &Vec<UseCase>)
        ensures
            uses_view(r@) == self@.uses,
    {
        &self.uses
    }

    pub fn terms(&self) -> (r: &str)
        ensures
            r@ == self@.terms,
    {
        self.terms.as_str()
    }

    pub fn description(&self) -> (r: &Option<String>)
        ensures
            r.deep_view() == self@.description,
    {
        &self.description
    }

    pub fn expiry(&self) -> (r: Option<i64>)
        ensures
            r == self@.expiry,
    {
        self.expiry
    }

    /// Encodes the contents into the four-field wire form.
    pub fn to_bytes(&self) -> (r: Vec<u8>)
        ensures
            r@ == spec_license_bytes(self@),
    {
        let values = values_of_uses(&self.uses);
        let json = json_encode_strings(&values);
        let mut out = frame_bytes(&json.as_str().as_bytes_vec());
        let mut f1 = frame_bytes(&self.terms.as_str().as_bytes_vec());
        out.append(&mut f1);
        let mut f2 = frame_bytes(&encode_opt_str(&self.description));
        out.append(&mut f2);
        let mut f3 = frame_bytes(&encode_opt_i64(&self.expiry));
        out.append(&mut f3);
        proof {
            let fs = spec_license_fields(self@);
            lemma_concat_frames4(fs[0], fs[1], fs[2], fs[3]);
            assert(spec_license_fields(self@) =~= seq![fs[0], fs[1], fs[2], fs[3]]);
        }
        out
    }

    /// Decodes the four-field wire form, rejecting bad framing, field count,
    /// UTF-8 or embedded JSON.
    pub fn from_bytes(bytes: &Vec<u8>) -> (r: Result<Self, TrailError>)
        ensures
            match r {
                Ok(c) => spec_license_parse(bytes@) == Ok::<ContentsV, TrailError>(c@),
                Err(e) => spec_license_parse(bytes@) == Err::<ContentsV, TrailError>(e),
            },
    {
        let fields = match split_fields(bytes) {
            Some(fields) => fields,
            None => {
                return Err(TrailError::DecodeError);
            },
        };
        proof {
            assert(fields.deep_view().len() == fields@.len());
        }
        if fields.len() != 4 {
            return Err(TrailError::DecodeError);
        }
        proof {
            assert(fields.deep_view()[0] == fields@[0]@);
            assert(fields.deep_view()[1] == fields@[1]@);
            assert(fields.deep_view()[2] == fields@[2]@);
            assert(fields.deep_view()[3] == fields@[3]@);
        }
        let json = match utf8_decode_bytes(&fields[0]) {
            Some(s) => s,
            None => {
                return Err(TrailError::DecodeError);
            },
        };
        let terms = match utf8_decode_bytes(&fields[1]) {
            Some(s) => s,
            None => {
                return Err(TrailError::DecodeError);
            },
        };
        let description = match parse_opt_str(&fields[2]) {
            Some(d) => d,
            None => {
                return Err(TrailError::DecodeError);
            },
        };
        let expiry = match parse_opt_i64(&fields[3]) {
            Some(d) => d,
            None => {
                return Err(TrailError::DecodeError);
            },
        };
        let vals = match json_parse_strings(json.as_str()) {
            Some(v) => v,
            None => {
                return Err(TrailError::DecodeError);
            },
        };
        let uses = uses_of_values(&vals);
        Ok(Contents { uses, terms, description, expiry })
    }
}

/// Decoding an encoded license reproduces it exactly — `uses`, `terms` and
/// `description` on the nose, and `expiry` to the second it stores. The
/// premises are the wire format's length bound on each field, the JSON
/// collaborator's round trip on the use values (the fact its wrapper's
/// contract states), and canonical uses (which every constructed use case is).
pub proof fn lemma_license_round_trip(c: ContentsV)
    requires
        encode_utf8(json_strings_text(use_case_values(c.uses))).len() < pow256(8),
        encode_utf8(c.terms).len() < pow256(8),
        opt_str_field(c.description).len() < pow256(8),
        opt_i64_field(c.expiry).len() < pow256(8),
        json_strings_parse(json_strings_text(use_case_values(c.uses))) == Some(
            use_case_values(c.uses),
        ),
        forall|i: int|
            0 <= i < c.uses.len() ==> #[trigger] canon_use_case(c.uses[i].value) == c.uses[i],
    ensures
        spec_license_parse(spec_license_bytes(c)) == Ok::<ContentsV, TrailError>(c),
{
    broadcast use vstd::utf8::encode_utf8_valid_utf8, vstd::utf8::encode_utf8_decode_utf8;

    let fs = spec_license_fields(c);
    assert(forall|i: int| 0 <= i < fs.len() ==> (#[trigger] fs[i]).len() < pow256(8)) by {
        assert(fs[0] == encode_utf8(json_strings_text(use_case_values(c.uses))));
        assert(fs[1] == encode_utf8(c.terms));
        assert(fs[2] == opt_str_field(c.description));
        assert(fs[3] == opt_i64_field(c.expiry));
    }
    lemma_split_frames(fs);
    lemma_opt_str_round_trip(c.description);
    lemma_opt_i64_round_trip(c.expiry);
    let vals = use_case_values(c.uses);
    assert(vals.map_values(|v: Seq<char>| canon_use_case(v)) =~= c.uses);
    assert(spec_license_parse(spec_license_bytes(c))->Ok_0 == c);
}

} // verus!
