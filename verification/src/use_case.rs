//! Permitted-use categories for license records: a closed vocabulary plus a
//! `"custom:"`-prefixed fallback, canonicalized exactly like tags.

use vstd::prelude::*;

use crate::vocab::{
    has_prefix, lemma_trim_borders, lemma_trim_idempotent, lemma_trim_noop, starts_with, str_eq,
    trim, trim_spec,
};

verus! {

#[derive(Debug, Clone, PartialEq, Eq)]
pub enum UseCaseType {
    Attribution,
    Retargeting,
    Personalization,
    AITraining,
    Distribution,
    Analytics,
    Support,
    Custom,
}

/// The mathematical value of a [`UseCase`]: its category and canonical raw
/// value.
pub ghost struct UseCaseV {
    pub typ: UseCaseType,
    pub value: Seq<char>,
}

/// The category assigned to an exact (already trimmed) vocabulary token;
/// `None` for anything outside the closed vocabulary.
pub open spec fn use_case_token_type(t: Seq<char>) -> Option<UseCaseType> {
    if t == "attribution"@ {
        Some(UseCaseType::Attribution)
    } else if t == "retargeting"@ {
        Some(UseCaseType::Retargeting)
    } else if t == "personalization"@ {
        Some(UseCaseType::Personalization)
    } else if t == "ai_training"@ {
        Some(UseCaseType::AITraining)
    } else if t == "distribution"@ {
        Some(UseCaseType::Distribution)
    } else if t == "analytics"@ {
        Some(UseCaseType::Analytics)
    } else if t == "support"@ {
        Some(UseCaseType::Support)
    } else {
        None
    }
}

/// Canonicalization of a raw use-case string.
pub open spec fn canon_use_case(s: Seq<char>) -> UseCaseV {
    let t = trim_spec(s);
    match use_case_token_type(t) {
        Some(ty) => UseCaseV { typ: ty, value: t },
        None => UseCaseV {
            typ: UseCaseType::Custom,
            value: if has_prefix(t, "custom:"@) {
                t
            } else {
                "custom:"@ + t
            },
        },
    }
}

#[derive(Debug, PartialEq, Eq)]
pub struct UseCase {
    typ: UseCaseType,
    value: String,
}

impl View for UseCase {
    type V = UseCaseV;

    closed spec fn view(&self) -> UseCaseV {
        UseCaseV { typ: self.typ, value: self.value@ }
    }
}

impl UseCase {
    /// Every use case is a canonicalization fixed point.
    #[verifier::type_invariant]
    pub closed spec fn wf(self) -> bool {
        canon_use_case(self.value@) == self@
    }

    pub fn typ(&self) -> (r: &UseCaseType)
        ensures
            *r == self@.typ,
    {
        &self.typ
    }

    pub fn value(&self) -> (r: &str)
        ensures
            r@ == self@.value,
    {
        self.value.as_str()
    }

    /// An owned copy, rebuilt through canonicalization (which every use case
    /// is a fixed point of).
    pub fn duplicate(&self) -> (u: UseCase)
        ensures
            u@ == self@,
    {
        proof {
            use_type_invariant(self);
        }
        UseCase::new(self.value.as_str())
    }

    /// Canonicalizes an arbitrary string into a use case.
    pub fn new(string: &str) -> (u: UseCase)
        ensures
            u@ == canon_use_case(string@),
    {
        let trimmed = trim(string);
        let t = trimmed.as_str();
        proof {
            lemma_trim_idempotent(string@);
            lemma_trim_borders(string@);
        }
        if str_eq(t, "attribution") {
            UseCase { typ: UseCaseType::Attribution, value: trimmed }
        } else if str_eq(t, "retargeting") {
            UseCase { typ: UseCaseType::Retargeting, value: trimmed }
        } else if str_eq(t, "personalization") {
            UseCase { typ: UseCaseType::Personalization, value: trimmed }
        } else if str_eq(t, "ai_training") {
            UseCase { typ: UseCaseType::AITraining, value: trimmed }
        } else if str_eq(t, "distribution") {
            UseCase { typ: UseCaseType::Distribution, value: trimmed }
        } else if str_eq(t, "analytics") {
            UseCase { typ: UseCaseType::Analytics, value: trimmed }
        } else if str_eq(t, "support") {
            UseCase { typ: UseCaseType::Support, value: trimmed }
        } else if starts_with(t, "custom:") {
            proof {
                lemma_custom_value_not_use_token(trim_spec(string@));
            }
            UseCase { typ: UseCaseType::Custom, value: trimmed }
        } else {
            let mut value = String::from_str("custom:");
            value.append(t);
            proof {
                reveal_strlit("custom:");
                lemma_trim_noop(value@);
                assert(value@.subrange(0, 7) =~= "custom:"@);
                lemma_custom_value_not_use_token(value@);
            }
            UseCase { typ: UseCaseType::Custom, value }
        }
    }

    pub fn attribution() -> (u: UseCase)
        ensures
            u@ == canon_use_case("attribution"@),
    {
        Self::new("attribution")
    }

    pub fn retargeting() -> (u: UseCase)
        ensures
            u@ == canon_use_case("retargeting"@),
    {
        Self::new("retargeting")
    }

    pub fn personalization() -> (u: UseCase)
        ensures
            u@ == canon_use_case("personalization"@),
    {
        Self::new("personalization")
    }

    pub fn ai_training() -> (u: UseCase)
        ensures
            u@ == canon_use_case("ai_training"@),
    {
        Self::new("ai_training")
    }

    pub fn distribution() -> (u: UseCase)
        ensures
            u@ == canon_use_case("distribution"@),
    {
        Self::new("distribution")
    }

    pub fn analytics() -> (u: UseCase)
        ensures
            u@ == canon_use_case("analytics"@),
    {
        Self::new("analytics")
    }

    pub fn support() -> (u: UseCase)
        ensures
            u@ == canon_use_case("support"@),
    {
        Self::new("support")
    }

    /// Builds the custom use case for a raw string by prefixing it before
    /// canonicalization.
    pub fn custom(string: &str) -> (u: UseCase)
        ensures
            u@ == canon_use_case("custom:"@ + string@),
    {
        let mut prefixed = String::from_str("custom:");
        prefixed.append(string);
        Self::new(prefixed.as_str())
    }
}

/// A value with the `"custom:"` prefix never matches the closed vocabulary.
proof fn lemma_custom_value_not_use_token(t: Seq<char>)
    requires
        has_prefix(t, "custom:"@),
    ensures
        use_case_token_type(t) is None,
{
    reveal_strlit("custom:");
    assert(t[0] == 'c') by {
        assert(t.subrange(0, 7)[0] == t[0]);
    }
    reveal_strlit("attribution");
    assert(t != "attribution"@) by {
        assert(("attribution"@)[0] == 'a');
    }
    reveal_strlit("retargeting");
    assert(t != "retargeting"@) by {
        assert(("retargeting"@)[0] == 'r');
    }
    reveal_strlit("personalization");
    assert(t != "personalization"@) by {
        assert(("personalization"@)[0] == 'p');
    }
    reveal_strlit("ai_training");
    assert(t != "ai_training"@) by {
        assert(("ai_training"@)[0] == 'a');
    }
    reveal_strlit("distribution");
    assert(t != "distribution"@) by {
        assert(("distribution"@)[0] == 'd');
    }
    reveal_strlit("analytics");
    assert(t != "analytics"@) by {
        assert(("analytics"@)[0] == 'a');
    }
    reveal_strlit("support");
    assert(t != "support"@) by {
        assert(("support"@)[0] == 's');
    }
}

/// Use-case canonicalization is idempotent.
pub proof fn lemma_canon_use_case_idempotent(s: Seq<char>)
    ensures
        canon_use_case(canon_use_case(s).value) == canon_use_case(s),
{
    let t = trim_spec(s);
    lemma_trim_idempotent(s);
    lemma_trim_borders(s);
    if use_case_token_type(t) is None && !has_prefix(t, "custom:"@) {
        let v = "custom:"@ + t;
        reveal_strlit("custom:");
        lemma_trim_noop(v);
        assert(v.subrange(0, 7) =~= "custom:"@);
        lemma_custom_value_not_use_token(v);
    }
}

/// An input outside the closed vocabulary canonicalizes to `Custom` with the
/// `"custom:"` prefix exactly once, provided the input itself does not already
/// carry a doubled prefix.
pub proof fn lemma_canon_use_case_custom_prefix(s: Seq<char>)
    requires
        !has_prefix(trim_spec(s), "custom:custom:"@),
    ensures
        canon_use_case(s).typ == UseCaseType::Custom ==> has_prefix(
            canon_use_case(s).value,
            "custom:"@,
        ) && !has_prefix(canon_use_case(s).value, "custom:custom:"@),
{
    let t = trim_spec(s);
    reveal_strlit("custom:");
    reveal_strlit("custom:custom:");
    if canon_use_case(s).typ == UseCaseType::Custom && use_case_token_type(t) is None {
        if has_prefix(t, "custom:"@) {
        } else {
            let v = "custom:"@ + t;
            assert(v.subrange(0, 7) =~= "custom:"@);
            if has_prefix(v, "custom:custom:"@) {
                assert(t.subrange(0, 7) =~= "custom:"@) by {
                    assert(forall|k: int|
                        0 <= k < 7 ==> t.subrange(0, 7)[k] == v.subrange(0, 14)[k + 7]);
                }
            }
        }
    }
}

} // verus!
