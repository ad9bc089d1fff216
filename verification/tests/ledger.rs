use mytiki_core_trail_storage::utils::{byte_helpers, compact_size};
use num_bigint::BigInt;
use trail_license::error::ErrorResponse;
use trail_license::error::TrailError;
use trail_license::owner::Owner;
use trail_license::license;
use trail_license::msg_group::{MsgGroup, MsgGroupType};
use trail_license::schema::ContentSchema;
use trail_license::service::Service;
use trail_license::transaction::Transaction;
use trail_license::use_case::UseCase;
use trail_license::writer_group::{WriterGroup, WriterGroupType};

/// A raw seven-field transaction record around the given framed contents, as
/// the storage crate lays it out.
fn txn_record(framed_contents: &[u8]) -> Vec<u8> {
    let mut bytes = compact_size::encode(byte_helpers::encode_bigint(&BigInt::from(2)));
    bytes.append(&mut compact_size::encode(vec![7, 7, 7])); // address bytes
    bytes.append(&mut compact_size::encode(byte_helpers::encode_bigint(&BigInt::from(
        1_712_000_000i64,
    ))));
    bytes.append(&mut compact_size::encode(byte_helpers::utf8_encode("")));
    bytes.append(&mut compact_size::encode(framed_contents.to_vec()));
    bytes.append(&mut compact_size::encode(vec![1, 2, 3])); // user signature
    bytes.append(&mut compact_size::encode(vec![4, 5, 6])); // app signature
    bytes
}

fn license_txn(uses: Vec<UseCase>) -> Vec<u8> {
    let contents = license::Contents::new(uses, "terms", None, None);
    let framed = ContentSchema::license().serialize(&contents.to_bytes());
    txn_record(&framed)
}

fn payable_txn() -> Vec<u8> {
    let framed = ContentSchema::payable().serialize(&vec![1, 2, 3]);
    txn_record(&framed)
}

#[test]
fn verify_no_trail() {
    let rsp = Service::new().verify_no_trail();
    assert!(!rsp.verified);
    assert_eq!(rsp.reason, Some("No trail found.".to_string()));
}

#[test]
fn verify_permissive_license() {
    let blocks = vec![vec![license_txn(vec![UseCase::attribution()])]];
    let rsp = Service::new().verify(&blocks);
    assert!(rsp.verified);
    assert_eq!(rsp.reason, None);
}

#[test]
fn verify_license_without_uses() {
    let blocks = vec![vec![license_txn(vec![])]];
    let rsp = Service::new().verify(&blocks);
    assert!(!rsp.verified);
    assert_eq!(
        rsp.reason,
        Some("Most recent license permits no uses.".to_string())
    );
}

#[test]
fn verify_no_license_found() {
    let blocks = vec![vec![payable_txn()], vec![]];
    let rsp = Service::new().verify(&blocks);
    assert!(!rsp.verified);
    assert_eq!(
        rsp.reason,
        Some("No license with permissive uses found.".to_string())
    );
}

#[test]
fn verify_skips_unreadable_transactions() {
    let blocks = vec![vec![
        vec![253u8], // truncated record: skipped, not fatal
        payable_txn(),
        license_txn(vec![UseCase::ai_training()]),
    ]];
    let rsp = Service::new().verify(&blocks);
    assert!(rsp.verified);
}

#[test]
fn verify_newest_block_decides() {
    // Blocks arrive newest first; the older permissive license is shadowed.
    let newest = vec![license_txn(vec![])];
    let older = vec![license_txn(vec![UseCase::attribution()])];
    let rsp = Service::new().verify(&vec![newest, older]);
    assert!(!rsp.verified);
}

#[test]
fn verify_first_license_in_block_decides() {
    let block = vec![
        license_txn(vec![UseCase::attribution()]),
        license_txn(vec![]),
    ];
    let rsp = Service::new().verify(&vec![block]);
    assert!(rsp.verified);
}

#[test]
fn scan_single_transaction() {
    let txn = license_txn(vec![UseCase::attribution(), UseCase::new("extra")]);
    let contents = trail_license::service::scan_transaction(&txn).unwrap();
    assert_eq!(contents.uses().len(), 2);
    assert_eq!(contents.terms(), "terms");
    assert!(trail_license::service::scan_transaction(&payable_txn()).is_none());
}

#[test]
fn scan_transactions_empty_block() {
    let rsp = Service::new().scan_transactions(&vec![]);
    assert!(rsp.is_none());
}

#[test]
fn msg_group_keys() {
    let group = MsgGroup::new_txn("prov", "addr");
    assert_eq!(group.typ(), &MsgGroupType::Transaction);
    assert_eq!(group.id(), "prov:addr");
    assert_eq!(group.to_string(), "txn:prov:addr");
    let init = MsgGroup::new_init("prov");
    assert_eq!(init.typ(), &MsgGroupType::Initialize);
    assert_eq!(init.to_string(), "init:prov");
}

#[test]
fn writer_group_keys() {
    let group = WriterGroup::new_txn("p", "a");
    assert_eq!(group.typ(), &WriterGroupType::Transaction);
    assert_eq!(group.to_string(), "txn:p:a");
    assert_eq!(WriterGroup::new_init("p").to_string(), "init:p");
}

#[test]
fn owner_from_token() {
    let owner = Owner::from_token_id("prov:addr");
    assert_eq!(owner.provider(), &Some("prov".to_string()));
    assert_eq!(owner.address(), &Some("addr".to_string()));
    let owner = Owner::from_token_id("prov:addr:extra");
    assert_eq!(owner.address(), &Some("addr".to_string()));
    let owner = Owner::from_token_id("prov");
    assert_eq!(owner.provider(), &Some("prov".to_string()));
    assert_eq!(owner.address(), &None);
}

#[test]
fn transaction_defaults() {
    let txn = Transaction::new("Zm9v".to_string(), "c2ln".to_string(), 42, None);
    assert_eq!(txn.asset_ref(), "AA==");
    assert_eq!(txn.timestamp(), 42);
    assert_eq!(txn.contents(), "Zm9v");
    assert_eq!(txn.user_signature(), "c2ln");
    let txn = Transaction::new(String::new(), String::new(), 0, Some("ref".to_string()));
    assert_eq!(txn.asset_ref(), "ref");
}

#[test]
fn error_response_shape() {
    let err = ErrorResponse::new(400).with_detail("Invalid body").with_id("req-1");
    assert_eq!(err.status(), 400);
    assert_eq!(err.message(), "Bad Request");
    assert_eq!(err.detail(), &Some("Invalid body".to_string()));
    assert_eq!(err.id(), &Some("req-1".to_string()));
    assert_eq!(err.properties(), &None);
    assert_eq!(ErrorResponse::new(401).message(), "Unauthorized");
    assert_eq!(ErrorResponse::new(500).message(), "Internal Server Error");
    let mut props = std::collections::HashMap::new();
    props.insert("key".to_string(), "value".to_string());
    let err = ErrorResponse::new(500).with_properties(props.clone());
    assert_eq!(err.properties(), &Some(props));
}

#[test]
fn trail_error_statuses() {
    assert_eq!(TrailError::BadRequest.status(), 400);
    assert_eq!(TrailError::Unauthorized.status(), 401);
    assert_eq!(TrailError::UnknownSchema.status(), 500);
    assert_eq!(TrailError::DecodeError.status(), 500);
    assert_eq!(TrailError::Signing.status(), 500);
}
