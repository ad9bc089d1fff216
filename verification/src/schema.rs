//! The content schema framer: every ledger payload is wrapped as
//! `frame(schema identifier) ++ frame(payload)`, where the identifier is a
//! fixed bijection — Title 2, License 3, Payable 4, Receipt 5. Unknown
//! identifiers are rejected.

use vstd::prelude::*;

use crate::codec::{
    frame, lemma_sbe_len, lemma_sbe_roundtrip, lemma_split_frames, pow256, sbe_bytes, sbe_parse,
    spec_split, split_fields,
};
use crate::error::TrailError;
use crate::trusted::{frame_bytes, sbe_decode, sbe_encode};

verus! {

#[derive(Debug, Clone, Copy, PartialEq, Eq, Structural)]
pub enum ContentType {
    Title,
    License,
    Payable,
    Receipt,
}

/// The fixed schema identifier of each content type.
pub open spec fn schema_id_of(t: ContentType) -> u16 {
    match t {
        ContentType::Title => 2,
        ContentType::License => 3,
        ContentType::Payable => 4,
        ContentType::Receipt => 5,
    }
}

/// The content type of a schema identifier; `None` outside the fixed set.
pub open spec fn type_of_schema_id(id: int) -> Option<ContentType> {
    if id == 2 {
        Some(ContentType::Title)
    } else if id == 3 {
        Some(ContentType::License)
    } else if id == 4 {
        Some(ContentType::Payable)
    } else if id == 5 {
        Some(ContentType::Receipt)
    } else {
        None
    }
}

/// The framed wire form: the schema identifier's signed big-endian bytes and
/// the payload, each length-prefixed.
pub open spec fn spec_schema_frame(t: ContentType, payload: Seq<u8>) -> Seq<u8> {
    frame(sbe_bytes(schema_id_of(t) as int)) + frame(payload)
}

/// The reverse direction: a buffer deserializes to a schema and payload
/// exactly when it splits into two fields whose first reads back as a known
/// schema identifier.
pub open spec fn spec_schema_parse(b: Seq<u8>) -> Result<(ContentType, Seq<u8>), TrailError> {
    match spec_split(b) {
        None => Err(TrailError::DecodeError),
        Some(fields) => {
            if fields.len() != 2 {
                Err(TrailError::DecodeError)
            } else {
                match sbe_parse(fields[0]) {
                    None => Err(TrailError::UnknownSchema),
                    Some(id) => match type_of_schema_id(id as int) {
                        None => Err(TrailError::UnknownSchema),
                        Some(t) => Ok((t, fields[1])),
                    },
                }
            }
        },
    }
}

/// A content schema: a type from the fixed set together with its identifier.
#[derive(Debug, Clone, Copy, PartialEq, Eq, Structural)]
pub struct ContentSchema {
    typ: ContentType,
    schema: u16,
}

impl ContentSchema {
    /// The identifier always agrees with the type.
    #[verifier::type_invariant]
    pub closed spec fn wf(self) -> bool {
        self.schema == schema_id_of(self.typ)
    }

    pub closed spec fn spec_typ(self) -> ContentType {
        self.typ
    }

    /// Accepts exactly the known schema identifiers.
    pub fn new(schema: u16) -> (r: Result<Self, TrailError>)
        ensures
            match r {
                Ok(s) => type_of_schema_id(schema as int) == Some(s.spec_typ()),
                Err(e) => type_of_schema_id(schema as int) is None && e
                    == TrailError::UnknownSchema,
            },
    {
        match schema {
            2u16 => Ok(ContentSchema { typ: ContentType::Title, schema: 2 }),
            3u16 => Ok(ContentSchema { typ: ContentType::License, schema: 3 }),
            4u16 => Ok(ContentSchema { typ: ContentType::Payable, schema: 4 }),
            5u16 => Ok(ContentSchema { typ: ContentType::Receipt, schema: 5 }),
            _ => Err(TrailError::UnknownSchema),
        }
    }

    pub fn title() -> (r: Self)
        ensures
            r.spec_typ() == ContentType::Title,
    {
        ContentSchema { typ: ContentType::Title, schema: 2 }
    }

    pub fn license() -> (r: Self)
        ensures
            r.spec_typ() == ContentType::License,
    {
        ContentSchema { typ: ContentType::License, schema: 3 }
    }

    pub fn payable() -> (r: Self)
        ensures
            r.spec_typ() == ContentType::Payable,
    {
        ContentSchema { typ: ContentType::Payable, schema: 4 }
    }

    pub fn receipt() -> (r: Self)
        ensures
            r.spec_typ() == ContentType::Receipt,
    {
        ContentSchema { typ: ContentType::Receipt, schema: 5 }
    }

    pub fn typ(&self) -> (r: &ContentType)
        ensures
            *r == self.spec_typ(),
    {
        &self.typ
    }

    pub fn schema(&self) -> (r: u16)
        ensures
            r == schema_id_of(self.spec_typ()),
    {
        proof {
            use_type_invariant(self);
        }
        self.schema
    }

    /// Frames a payload under this schema.
    pub fn serialize(&self, contents: &Vec<u8>) -> (r: Vec<u8>)
        ensures
            r@ == spec_schema_frame(self.spec_typ(), contents@),
    {
        proof {
            use_type_invariant(self);
        }
        let id_bytes = sbe_encode(self.schema as i64);
        let mut out = frame_bytes(&id_bytes);
        let mut payload = frame_bytes(contents);
        out.append(&mut payload);
        out
    }

    /// Unframes a buffer into its schema and payload, rejecting a buffer that
    /// does not split into exactly two fields (`DecodeError`) or whose
    /// identifier is outside the fixed set (`UnknownSchema`).
    pub fn deserialize(contents: &Vec<u8>) -> (r: Result<(Self, Vec<u8>), TrailError>)
        ensures
            match r {
                Ok((s, payload)) => spec_schema_parse(contents@) == Ok::<_, TrailError>(
                    (s.spec_typ(), payload@),
                ),
                Err(e) => spec_schema_parse(contents@) == Err::<(ContentType, Seq<u8>), _>(e),
            },
    {
        let mut fields = match split_fields(contents) {
            Some(fields) => fields,
            None => {
                return Err(TrailError::DecodeError);
            },
        };
        if fields.len() != 2 {
            proof {
                assert(fields.deep_view().len() == fields@.len());
            }
            return Err(TrailError::DecodeError);
        }
        proof {
            assert(fields.deep_view().len() == fields@.len());
            assert(fields.deep_view()[0] == fields@[0]@);
            assert(fields.deep_view()[1] == fields@[1]@);
        }
        let id = match sbe_decode(&fields[0]) {
            Some(id) => id,
            None => {
                return Err(TrailError::UnknownSchema);
            },
        };
        if id < 2 || id > 5 {
            return Err(TrailError::UnknownSchema);
        }
        let schema = match Self::new(id as u16) {
            Ok(schema) => schema,
            Err(e) => {
                return Err(e);
            },
        };
        let payload = fields.pop().unwrap();
        Ok((schema, payload))
    }
}

/// Deserializing a framed payload gives back the schema type and the payload.
pub proof fn lemma_schema_round_trip(t: ContentType, payload: Seq<u8>)
    requires
        payload.len() < pow256(8),
    ensures
        spec_schema_parse(spec_schema_frame(t, payload)) == Ok::<_, TrailError>((t, payload)),
{
    let id = schema_id_of(t) as int;
    lemma_sbe_roundtrip(id);
    lemma_sbe_len(id, 8);
    let fields = seq![sbe_bytes(id), payload];
    assert(spec_schema_frame(t, payload) =~= crate::codec::concat_frames(fields)) by {
        assert(fields.drop_first() =~= seq![payload]);
        assert(seq![payload].drop_first() =~= Seq::<Seq<u8>>::empty());
        assert(crate::codec::concat_frames(Seq::<Seq<u8>>::empty()) =~= Seq::<u8>::empty());
        assert(crate::codec::concat_frames(seq![payload]) =~= frame(payload) + Seq::<u8>::empty());
        assert(crate::codec::concat_frames(fields) =~= frame(sbe_bytes(id)) + (frame(payload)
            + Seq::<u8>::empty()));
    }
    assert(sbe_bytes(id).len() < pow256(8)) by {
        crate::codec::lemma_pow256_values();
        crate::codec::lemma_pow256_mono(0, 8);
    }
    lemma_split_frames(fields);
}

} // verus!
