use trail_license::tag::{Tag, TagType};
use trail_license::use_case::{UseCase, UseCaseType};

#[test]
fn tag_test_new_custom_prefix() {
    let tag: Tag = Tag::new("custom:one");
    assert_eq!(tag.typ(), &TagType::Custom);
    assert_eq!(tag.value(), "custom:one");
}

#[test]
fn tag_test_new_custom_no_prefix() {
    let tag: Tag = Tag::new("one");
    assert_eq!(tag.typ(), &TagType::Custom);
    assert_eq!(tag.value(), "custom:one");
}

#[test]
fn use_case_test_new_custom_prefix() {
    let use_case: UseCase = UseCase::new("custom:one");
    assert_eq!(use_case.typ(), &UseCaseType::Custom);
    assert_eq!(use_case.value(), "custom:one");
}

#[test]
fn use_case_test_new_custom_no_prefix() {
    let use_case: UseCase = UseCase::new("one");
    assert_eq!(use_case.typ(), &UseCaseType::Custom);
    assert_eq!(use_case.value(), "custom:one");
}

#[test]
fn tag_fixed_tokens_canonicalize() {
    let tag = Tag::new("email_address");
    assert_eq!(tag.typ(), &TagType::EmailAddress);
    assert_eq!(tag.value(), "email_address");
    let tag = Tag::new("diagnostic_data");
    assert_eq!(tag.typ(), &TagType::DiagnosticData);
    assert_eq!(tag.value(), "diagnostic_data");
}

#[test]
fn tag_trims_whitespace() {
    let tag = Tag::new("  health \t\n");
    assert_eq!(tag.typ(), &TagType::Health);
    assert_eq!(tag.value(), "health");
    let tag = Tag::new("\u{3000}fitness\u{a0}");
    assert_eq!(tag.typ(), &TagType::Fitness);
    assert_eq!(tag.value(), "fitness");
}

#[test]
fn tag_canonicalization_idempotent() {
    for raw in ["  email_address", "somewhere else", "custom:already", "", "  "] {
        let first = Tag::new(raw);
        let second = Tag::new(first.value());
        assert_eq!(second.typ(), first.typ());
        assert_eq!(second.value(), first.value());
    }
}

#[test]
fn tag_custom_prefix_applied_once() {
    let tag = Tag::new("  plain value ");
    assert_eq!(tag.value(), "custom:plain value");
    let again = Tag::new(tag.value());
    assert_eq!(again.value(), "custom:plain value");
}

#[test]
fn tag_constructor_matches_new() {
    let a = Tag::payment_info();
    let b = Tag::new("payment_info");
    assert_eq!(a, b);
    let c = Tag::custom("one");
    assert_eq!(c.typ(), &TagType::Custom);
    assert_eq!(c.value(), "custom:one");
}

#[test]
fn use_case_fixed_tokens_canonicalize() {
    let u = UseCase::new("attribution");
    assert_eq!(u.typ(), &UseCaseType::Attribution);
    assert_eq!(u.value(), "attribution");
    let u = UseCase::support();
    assert_eq!(u.typ(), &UseCaseType::Support);
    assert_eq!(u.value(), "support");
}

#[test]
fn use_case_canonicalization_idempotent() {
    for raw in [" attribution ", "one", "custom:two", "ai_training"] {
        let first = UseCase::new(raw);
        let second = UseCase::new(first.value());
        assert_eq!(second.typ(), first.typ());
        assert_eq!(second.value(), first.value());
    }
}

#[test]
fn use_case_custom_constructor_prefixes() {
    let u = UseCase::custom("one");
    assert_eq!(u.typ(), &UseCaseType::Custom);
    assert_eq!(u.value(), "custom:one");
    let u = UseCase::custom("attribution");
    assert_eq!(u.typ(), &UseCaseType::Custom);
    assert_eq!(u.value(), "custom:attribution");
}
