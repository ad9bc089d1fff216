use mytiki_core_trail_storage::utils::{byte_helpers, compact_size};
use num_bigint::BigInt;
use trail_license::error::TrailError;
use trail_license::license;
use trail_license::schema::{ContentSchema, ContentType};
use trail_license::tag::Tag;
use trail_license::title;
use trail_license::use_case::UseCase;

#[test]
fn test_bytes_basic() {
    let contents = license::Contents::new(vec![UseCase::attribution()], "dummy", None, None);
    let bytes = contents.to_bytes();
    let decoded = license::Contents::from_bytes(&bytes).unwrap();
    assert_eq!(contents.uses(), decoded.uses());
    assert_eq!(contents.terms(), decoded.terms());
    assert_eq!(contents.description(), decoded.description());
    assert_eq!(contents.expiry(), decoded.expiry());
}

#[test]
fn test_bytes_all() {
    let now: i64 = 1_712_000_000;
    let contents = license::Contents::new(
        vec![UseCase::attribution()],
        "dummy",
        Some("dummy".to_string()),
        Some(now),
    );
    let bytes = contents.to_bytes();
    let decoded = license::Contents::from_bytes(&bytes).unwrap();
    assert_eq!(contents.uses(), decoded.uses());
    assert_eq!(contents.terms(), decoded.terms());
    assert_eq!(contents.description(), decoded.description());
    assert_eq!(contents.expiry().unwrap(), decoded.expiry().unwrap());
}

#[test]
fn license_expiry_zero_distinct_from_absent() {
    let with_zero = license::Contents::new(vec![], "t", None, Some(0));
    let without = license::Contents::new(vec![], "t", None, None);
    let a = license::Contents::from_bytes(&with_zero.to_bytes()).unwrap();
    let b = license::Contents::from_bytes(&without.to_bytes()).unwrap();
    assert_eq!(a.expiry(), Some(0));
    assert_eq!(b.expiry(), None);
    assert_ne!(with_zero.to_bytes(), without.to_bytes());
}

#[test]
fn license_negative_expiry_round_trips() {
    let contents = license::Contents::new(vec![], "t", None, Some(-1_000_000));
    let decoded = license::Contents::from_bytes(&contents.to_bytes()).unwrap();
    assert_eq!(decoded.expiry(), Some(-1_000_000));
}

#[test]
fn title_bytes_round_trip() {
    let contents = title::Contents::new(
        "ptr-123",
        "origin.example",
        vec![Tag::email_address(), Tag::new("something else")],
        Some("a description".to_string()),
    );
    let bytes = contents.to_bytes();
    let decoded = title::Contents::from_bytes(&bytes).unwrap();
    assert_eq!(decoded.ptr(), "ptr-123");
    assert_eq!(decoded.origin(), "origin.example");
    assert_eq!(decoded.tags(), contents.tags());
    assert_eq!(decoded.description(), &Some("a description".to_string()));
}

#[test]
fn title_round_trip_with_escaped_tag_values() {
    let contents = title::Contents::new(
        "p",
        "o",
        vec![Tag::new("with \"quotes\" and \\slashes\\"), Tag::new("u\u{00e9}nicode")],
        None,
    );
    let decoded = title::Contents::from_bytes(&contents.to_bytes()).unwrap();
    assert_eq!(decoded.tags(), contents.tags());
}

#[test]
fn title_empty_description_distinct_from_absent() {
    let present = title::Contents::new("p", "o", vec![], Some(String::new()));
    let absent = title::Contents::new("p", "o", vec![], None);
    let a = title::Contents::from_bytes(&present.to_bytes()).unwrap();
    let b = title::Contents::from_bytes(&absent.to_bytes()).unwrap();
    assert_eq!(a.description(), &Some(String::new()));
    assert_eq!(b.description(), &None);
    assert_ne!(present.to_bytes(), absent.to_bytes());
}

#[test]
fn title_from_bytes_rejects_garbage() {
    assert_eq!(
        title::Contents::from_bytes(&vec![253u8]).unwrap_err(),
        TrailError::DecodeError
    );
    // A well-framed buffer with the wrong field count is rejected too.
    let two_fields = {
        let mut b = compact_size::encode(byte_helpers::utf8_encode("a"));
        b.append(&mut compact_size::encode(byte_helpers::utf8_encode("b")));
        b
    };
    assert_eq!(
        title::Contents::from_bytes(&two_fields).unwrap_err(),
        TrailError::DecodeError
    );
}

#[test]
fn license_from_bytes_rejects_bad_json() {
    // Four fields, but the uses field does not hold a JSON array of strings.
    let mut b = compact_size::encode(byte_helpers::utf8_encode("not json"));
    b.append(&mut compact_size::encode(byte_helpers::utf8_encode("terms")));
    b.append(&mut compact_size::encode(Vec::new()));
    b.append(&mut compact_size::encode(Vec::new()));
    assert_eq!(
        license::Contents::from_bytes(&b).unwrap_err(),
        TrailError::DecodeError
    );
}

#[test]
fn schema_round_trip_all_types() {
    let payload: Vec<u8> = vec![9, 8, 7, 6];
    for schema in [
        ContentSchema::title(),
        ContentSchema::license(),
        ContentSchema::payable(),
        ContentSchema::receipt(),
    ] {
        let bytes = schema.serialize(&payload);
        let (decoded, body) = ContentSchema::deserialize(&bytes).unwrap();
        assert_eq!(decoded, schema);
        assert_eq!(body, payload);
    }
}

#[test]
fn schema_identifiers_fixed() {
    assert_eq!(ContentSchema::title().schema(), 2);
    assert_eq!(ContentSchema::license().schema(), 3);
    assert_eq!(ContentSchema::payable().schema(), 4);
    assert_eq!(ContentSchema::receipt().schema(), 5);
    assert_eq!(ContentSchema::new(3).unwrap().typ(), &ContentType::License);
    assert_eq!(ContentSchema::new(9).unwrap_err(), TrailError::UnknownSchema);
}

#[test]
fn schema_deserialize_unknown_identifier() {
    // A two-field buffer whose leading identifier is outside {2, 3, 4, 5}.
    let mut bytes = compact_size::encode(byte_helpers::encode_bigint(&BigInt::from(9)));
    bytes.append(&mut compact_size::encode(vec![1, 2, 3]));
    assert_eq!(
        ContentSchema::deserialize(&bytes).unwrap_err(),
        TrailError::UnknownSchema
    );
}

#[test]
fn schema_deserialize_rejects_garbage() {
    assert_eq!(
        ContentSchema::deserialize(&vec![255u8, 0, 0]).unwrap_err(),
        TrailError::DecodeError
    );
}

#[test]
fn schema_frame_exact_bytes() {
    // One-byte header for short fields: identifier 2, then the payload field.
    let bytes = ContentSchema::title().serialize(&vec![0xAB]);
    assert_eq!(bytes, vec![1, 2, 1, 0xAB]);
    // A 300-byte field takes the 253 tag and a two-byte big-endian length.
    let long = vec![0u8; 300];
    let bytes = ContentSchema::receipt().serialize(&long);
    assert_eq!(bytes[0..2], [1, 5]);
    assert_eq!(bytes[2..5], [253, 1, 44]);
    assert_eq!(bytes.len(), 5 + 300);
}

#[test]
fn schema_frame_matches_outside_encoder() {
    // The verified framing agrees byte for byte with the storage crate's own.
    let payload: Vec<u8> = (0u8..200).collect();
    let ours = ContentSchema::license().serialize(&payload);
    let mut theirs = compact_size::encode(byte_helpers::encode_bigint(&BigInt::from(3u16)));
    theirs.append(&mut compact_size::encode(payload.clone()));
    assert_eq!(ours, theirs);
}
