//! Disclosure tags for title records: a closed vocabulary of categories plus a
//! `"custom:"`-prefixed fallback. Construction is total: every input string
//! canonicalizes to some tag.

use vstd::prelude::*;

use crate::vocab::{
    has_prefix, lemma_trim_borders, lemma_trim_idempotent, lemma_trim_noop, starts_with, str_eq,
    trim, trim_spec,
};

verus! {

#[derive(Debug, Clone, PartialEq, Eq)]
pub enum TagType {
    EmailAddress,
    PhoneNumber,
    PhysicalAddress,
    ContactInfo,
    Health,
    Fitness,
    PaymentInfo,
    CreditInfo,
    FinancialInfo,
    PreciseLocation,
    CoarseLocation,
    SensitiveInfo,
    Contacts,
    Messages,
    PhotoVideo,
    Audio,
    GameplayContent,
    CustomerSupport,
    UserContent,
    BrowsingHistory,
    SearchHistory,
    UserId,
    DeviceId,
    PurchaseHistory,
    ProductInteraction,
    AdvertisingData,
    UsageData,
    CrashData,
    PerformanceData,
    DiagnosticData,
    Custom,
}

/// The mathematical value of a [`Tag`]: its category and canonical raw value.
pub ghost struct TagV {
    pub typ: TagType,
    pub value: Seq<char>,
}

/// The category assigned to an exact (already trimmed) vocabulary token;
/// `None` for anything outside the closed vocabulary.
pub open spec fn tag_token_type(t: Seq<char>) -> Option<TagType> {
    if t == "email_address"@ {
        Some(TagType::EmailAddress)
    } else if t == "phone_number"@ {
        Some(TagType::PhoneNumber)
    } else if t == "physical_address"@ {
        Some(TagType::PhysicalAddress)
    } else if t == "contact_info"@ {
        Some(TagType::ContactInfo)
    } else if t == "health"@ {
        Some(TagType::Health)
    } else if t == "fitness"@ {
        Some(TagType::Fitness)
    } else if t == "payment_info"@ {
        Some(TagType::PaymentInfo)
    } else if t == "credit_info"@ {
        Some(TagType::CreditInfo)
    } else if t == "financial_info"@ {
        Some(TagType::FinancialInfo)
    } else if t == "precise_location"@ {
        Some(TagType::PreciseLocation)
    } else if t == "coarse_location"@ {
        Some(TagType::CoarseLocation)
    } else if t == "sensitive_info"@ {
        Some(TagType::SensitiveInfo)
    } else if t == "contacts"@ {
        Some(TagType::Contacts)
    } else if t == "messages"@ {
        Some(TagType::Messages)
    } else if t == "photo_video"@ {
        Some(TagType::PhotoVideo)
    } else if t == "audio"@ {
        Some(TagType::Audio)
    } else if t == "gameplay_content"@ {
        Some(TagType::GameplayContent)
    } else if t == "customer_support"@ {
        Some(TagType::CustomerSupport)
    } else if t == "user_content"@ {
        Some(TagType::UserContent)
    } else if t == "browsing_history"@ {
        Some(TagType::BrowsingHistory)
    } else if t == "search_history"@ {
        Some(TagType::SearchHistory)
    } else if t == "user_id"@ {
        Some(TagType::UserId)
    } else if t == "device_id"@ {
        Some(TagType::DeviceId)
    } else if t == "purchase_history"@ {
        Some(TagType::PurchaseHistory)
    } else if t == "product_interaction"@ {
        Some(TagType::ProductInteraction)
    } else if t == "advertising_data"@ {
        Some(TagType::AdvertisingData)
    } else if t == "usage_data"@ {
        Some(TagType::UsageData)
    } else if t == "crash_data"@ {
        Some(TagType::CrashData)
    } else if t == "performance_data"@ {
        Some(TagType::PerformanceData)
    } else if t == "diagnostic_data"@ {
        Some(TagType::DiagnosticData)
    } else {
        None
    }
}

/// Canonicalization of a raw tag string: trim white space, match the closed
/// vocabulary exactly, and otherwise fall back to `Custom` with a single
/// `"custom:"` prefix.
pub open spec fn canon_tag(s: Seq<char>) -> TagV {
    let t = trim_spec(s);
    match tag_token_type(t) {
        Some(ty) => TagV { typ: ty, value: t },
        None => TagV {
            typ: TagType::Custom,
            value: if has_prefix(t, "custom:"@) {
                t
            } else {
                "custom:"@ + t
            },
        },
    }
}

#[derive(Debug, PartialEq, Eq)]
pub struct Tag {
    typ: TagType,
    value: String,
}

impl View for Tag {
    type V = TagV;

    closed spec fn view(&self) -> TagV {
        TagV { typ: self.typ, value: self.value@ }
    }
}

impl Tag {
    /// Every tag is a canonicalization fixed point: it is what its own raw
    /// value canonicalizes to.
    #[verifier::type_invariant]
    pub closed spec fn wf(self) -> bool {
        canon_tag(self.value@) == self@
    }

    pub fn typ(&self) -> (r: &TagType)
        ensures
            *r == self@.typ,
    {
        &self.typ
    }

    pub fn value(&self) -> (r: &str)
        ensures
            r@ == self@.value,
    {
        self.value.as_str()
    }

    /// An owned copy, rebuilt through canonicalization (which every tag is a
    /// fixed point of).
    pub fn duplicate(&self) -> (t: Tag)
        ensures
            t@ == self@,
    {
        proof {
            use_type_invariant(self);
        }
        Tag::new(self.value.as_str())
    }

    /// Canonicalizes an arbitrary string into a tag.
    pub fn new(string: &str) -> (t: Tag)
        ensures
            t@ == canon_tag(string@),
    {
        let trimmed = trim(string);
        let t = trimmed.as_str();
        proof {
            lemma_trim_idempotent(string@);
            lemma_trim_borders(string@);
        }
        if str_eq(t, "email_address") {
            Tag { typ: TagType::EmailAddress, value: trimmed }
        } else if str_eq(t, "phone_number") {
            Tag { typ: TagType::PhoneNumber, value: trimmed }
        } else if str_eq(t, "physical_address") {
            Tag { typ: TagType::PhysicalAddress, value: trimmed }
        } else if str_eq(t, "contact_info") {
            Tag { typ: TagType::ContactInfo, value: trimmed }
        } else if str_eq(t, "health") {
            Tag { typ: TagType::Health, value: trimmed }
        } else if str_eq(t, "fitness") {
            Tag { typ: TagType::Fitness, value: trimmed }
        } else if str_eq(t, "payment_info") {
            Tag { typ: TagType::PaymentInfo, value: trimmed }
        } else if str_eq(t, "credit_info") {
            Tag { typ: TagType::CreditInfo, value: trimmed }
        } else if str_eq(t, "financial_info") {
            Tag { typ: TagType::FinancialInfo, value: trimmed }
        } else if str_eq(t, "precise_location") {
            Tag { typ: TagType::PreciseLocation, value: trimmed }
        } else if str_eq(t, "coarse_location") {
            Tag { typ: TagType::CoarseLocation, value: trimmed }
        } else if str_eq(t, "sensitive_info") {
            Tag { typ: TagType::SensitiveInfo, value: trimmed }
        } else if str_eq(t, "contacts") {
            Tag { typ: TagType::Contacts, value: trimmed }
        } else if str_eq(t, "messages") {
            Tag { typ: TagType::Messages, value: trimmed }
        } else if str_eq(t, "photo_video") {
            Tag { typ: TagType::PhotoVideo, value: trimmed }
        } else if str_eq(t, "audio") {
            Tag { typ: TagType::Audio, value: trimmed }
        } else if str_eq(t, "gameplay_content") {
            Tag { typ: TagType::GameplayContent, value: trimmed }
        } else if str_eq(t, "customer_support") {
            Tag { typ: TagType::CustomerSupport, value: trimmed }
        } else if str_eq(t, "user_content") {
            Tag { typ: TagType::UserContent, value: trimmed }
        } else if str_eq(t, "browsing_history") {
            Tag { typ: TagType::BrowsingHistory, value: trimmed }
        } else if str_eq(t, "search_history") {
            Tag { typ: TagType::SearchHistory, value: trimmed }
        } else if str_eq(t, "user_id") {
            Tag { typ: TagType::UserId, value: trimmed }
        } else if str_eq(t, "device_id") {
            Tag { typ: TagType::DeviceId, value: trimmed }
        } else if str_eq(t, "purchase_history") {
            Tag { typ: TagType::PurchaseHistory, value: trimmed }
        } else if str_eq(t, "product_interaction") {
            Tag { typ: TagType::ProductInteraction, value: trimmed }
        } else if str_eq(t, "advertising_data") {
            Tag { typ: TagType::AdvertisingData, value: trimmed }
        } else if str_eq(t, "usage_data") {
            Tag { typ: TagType::UsageData, value: trimmed }
        } else if str_eq(t, "crash_data") {
            Tag { typ: TagType::CrashData, value: trimmed }
        } else if str_eq(t, "performance_data") {
            Tag { typ: TagType::PerformanceData, value: trimmed }
        } else if str_eq(t, "diagnostic_data") {
            Tag { typ: TagType::DiagnosticData, value: trimmed }
        } else if starts_with(t, "custom:") {
            proof {
                lemma_custom_value_not_token(trim_spec(string@));
            }
            Tag { typ: TagType::Custom, value: trimmed }
        } else {
            let mut value = String::from_str("custom:");
            value.append(t);
            proof {
                reveal_strlit("custom:");
                lemma_trim_noop(value@);
                assert(value@.subrange(0, 7) =~= "custom:"@);
                lemma_custom_value_not_token(value@);
            }
            Tag { typ: TagType::Custom, value }
        }
    }

    pub fn email_address() -> (t: Tag)
        ensures
            t@ == canon_tag("email_address"@),
    {
        Tag::new("email_address")
    }

    pub fn phone_number() -> (t: Tag)
        ensures
            t@ == canon_tag("phone_number"@),
    {
        Tag::new("phone_number")
    }

    pub fn physical_address() -> (t: Tag)
        ensures
            t@ == canon_tag("physical_address"@),
    {
        Tag::new("physical_address")
    }

    pub fn contact_info() -> (t: Tag)
        ensures
            t@ == canon_tag("contact_info"@),
    {
        Tag::new("contact_info")
    }

    pub fn health() -> (t: Tag)
        ensures
            t@ == canon_tag("health"@),
    {
        Tag::new("health")
    }

    pub fn fitness() -> (t: Tag)
        ensures
            t@ == canon_tag("fitness"@),
    {
        Tag::new("fitness")
    }

    pub fn payment_info() -> (t: Tag)
        ensures
            t@ == canon_tag("payment_info"@),
    {
        Tag::new("payment_info")
    }

    pub fn credit_info() -> (t: Tag)
        ensures
            t@ == canon_tag("credit_info"@),
    {
        Tag::new("credit_info")
    }

    pub fn financial_info() -> (t: Tag)
        ensures
            t@ == canon_tag("financial_info"@),
    {
        Tag::new("financial_info")
    }

    pub fn precise_location() -> (t: Tag)
        ensures
            t@ == canon_tag("precise_location"@),
    {
        Tag::new("precise_location")
    }

    pub fn coarse_location() -> (t: Tag)
        ensures
            t@ == canon_tag("coarse_location"@),
    {
        Tag::new("coarse_location")
    }

    pub fn sensitive_info() -> (t: Tag)
        ensures
            t@ == canon_tag("sensitive_info"@),
    {
        Tag::new("sensitive_info")
    }

    pub fn contacts() -> (t: Tag)
        ensures
            t@ == canon_tag("contacts"@),
    {
        Tag::new("contacts")
    }

    pub fn messages() -> (t: Tag)
        ensures
            t@ == canon_tag("messages"@),
    {
        Tag::new("messages")
    }

    pub fn photo_video() -> (t: Tag)
        ensures
            t@ == canon_tag("photo_video"@),
    {
        Tag::new("photo_video")
    }

    pub fn audio() -> (t: Tag)
        ensures
            t@ == canon_tag("audio"@),
    {
        Tag::new("audio")
    }

    pub fn gameplay_content() -> (t: Tag)
        ensures
            t@ == canon_tag("gameplay_content"@),
    {
        Tag::new("gameplay_content")
    }

    pub fn customer_support() -> (t: Tag)
        ensures
            t@ == canon_tag("customer_support"@),
    {
        Tag::new("customer_support")
    }

    pub fn user_content() -> (t: Tag)
        ensures
            t@ == canon_tag("user_content"@),
    {
        Tag::new("user_content")
    }

    pub fn browsing_history() -> (t: Tag)
        ensures
            t@ == canon_tag("browsing_history"@),
    {
        Tag::new("browsing_history")
    }

    pub fn search_history() -> (t: Tag)
        ensures
            t@ == canon_tag("search_history"@),
    {
        Tag::new("search_history")
    }

    pub fn user_id() -> (t: Tag)
        ensures
            t@ == canon_tag("user_id"@),
    {
        Tag::new("user_id")
    }

    pub fn device_id() -> (t: Tag)
        ensures
            t@ == canon_tag("device_id"@),
    {
        Tag::new("device_id")
    }

    pub fn purchase_history() -> (t: Tag)
        ensures
            t@ == canon_tag("purchase_history"@),
    {
        Tag::new("purchase_history")
    }

    pub fn product_interaction() -> (t: Tag)
        ensures
            t@ == canon_tag("product_interaction"@),
    {
        Tag::new("product_interaction")
    }

    pub fn advertising_data() -> (t: Tag)
        ensures
            t@ == canon_tag("advertising_data"@),
    {
        Tag::new("advertising_data")
    }

    pub fn usage_data() -> (t: Tag)
        ensures
            t@ == canon_tag("usage_data"@),
    {
        Tag::new("usage_data")
    }

    pub fn crash_data() -> (t: Tag)
        ensures
            t@ == canon_tag("crash_data"@),
    {
        Tag::new("crash_data")
    }

    pub fn performance_data() -> (t: Tag)
        ensures
            t@ == canon_tag("performance_data"@),
    {
        Tag::new("performance_data")
    }

    pub fn diagnostic_data() -> (t: Tag)
        ensures
            t@ == canon_tag("diagnostic_data"@),
    {
        Tag::new("diagnostic_data")
    }

    /// Builds the custom tag for a raw string by prefixing it before
    /// canonicalization.
    pub fn custom(string: &str) -> (t: Tag)
        ensures
            t@ == canon_tag("custom:"@ + string@),
    {
        let mut prefixed = String::from_str("custom:");
        prefixed.append(string);
        Tag::new(prefixed.as_str())
    }
}

/// A value with the `"custom:"` prefix never matches the closed vocabulary.
proof fn lemma_custom_value_not_token(t: Seq<char>)
    requires
        has_prefix(t, "custom:"@),
    ensures
        tag_token_type(t) is None,
{
    reveal_strlit("custom:");
    assert(t[0] == 'c' && t[1] == 'u' && t[2] == 's' && t[3] == 't' && t[4] == 'o' && t[5] == 'm'
        && t[6] == ':') by {
        assert(forall|k: int| 0 <= k < 7 ==> t.subrange(0, 7)[k] == t[k]);
    }
    reveal_strlit("email_address");
    assert(t != "email_address"@) by {
        assert(("email_address"@)[0] == 'e');
    }
    reveal_strlit("phone_number");
    assert(t != "phone_number"@) by {
        assert(("phone_number"@)[0] == 'p');
    }
    reveal_strlit("physical_address");
    assert(t != "physical_address"@) by {
        assert(("physical_address"@)[0] == 'p');
    }
    reveal_strlit("contact_info");
    assert(t != "contact_info"@) by {
        assert(("contact_info"@)[2] == 'n');
    }
    reveal_strlit("health");
    assert(t != "health"@) by {
        assert(("health"@)[0] == 'h');
    }
    reveal_strlit("fitness");
    assert(t != "fitness"@) by {
        assert(("fitness"@)[0] == 'f');
    }
    reveal_strlit("payment_info");
    assert(t != "payment_info"@) by {
        assert(("payment_info"@)[0] == 'p');
    }
    reveal_strlit("credit_info");
    assert(t != "credit_info"@) by {
        assert(("credit_info"@)[1] == 'r');
    }
    reveal_strlit("financial_info");
    assert(t != "financial_info"@) by {
        assert(("financial_info"@)[0] == 'f');
    }
    reveal_strlit("precise_location");
    assert(t != "precise_location"@) by {
        assert(("precise_location"@)[0] == 'p');
    }
    reveal_strlit("coarse_location");
    assert(t != "coarse_location"@) by {
        assert(("coarse_location"@)[1] == 'o');
    }
    reveal_strlit("sensitive_info");
    assert(t != "sensitive_info"@) by {
        assert(("sensitive_info"@)[0] == 's');
    }
    reveal_strlit("contacts");
    assert(t != "contacts"@) by {
        assert(("contacts"@)[1] == 'o');
    }
    reveal_strlit("messages");
    assert(t != "messages"@) by {
        assert(("messages"@)[0] == 'm');
    }
    reveal_strlit("photo_video");
    assert(t != "photo_video"@) by {
        assert(("photo_video"@)[0] == 'p');
    }
    reveal_strlit("audio");
    assert(t != "audio"@) by {
        assert(("audio"@)[0] == 'a');
    }
    reveal_strlit("gameplay_content");
    assert(t != "gameplay_content"@) by {
        assert(("gameplay_content"@)[0] == 'g');
    }
    reveal_strlit("customer_support");
    assert(t != "customer_support"@) by {
        assert(("customer_support"@)[6] == 'e');
    }
    reveal_strlit("user_content");
    assert(t != "user_content"@) by {
        assert(("user_content"@)[0] == 'u');
    }
    reveal_strlit("browsing_history");
    assert(t != "browsing_history"@) by {
        assert(("browsing_history"@)[0] == 'b');
    }
    reveal_strlit("search_history");
    assert(t != "search_history"@) by {
        assert(("search_history"@)[0] == 's');
    }
    reveal_strlit("user_id");
    assert(t != "user_id"@) by {
        assert(("user_id"@)[0] == 'u');
    }
    reveal_strlit("device_id");
    assert(t != "device_id"@) by {
        assert(("device_id"@)[0] == 'd');
    }
    reveal_strlit("purchase_history");
    assert(t != "purchase_history"@) by {
        assert(("purchase_history"@)[0] == 'p');
    }
    reveal_strlit("product_interaction");
    assert(t != "product_interaction"@) by {
        assert(("product_interaction"@)[0] == 'p');
    }
    reveal_strlit("advertising_data");
    assert(t != "advertising_data"@) by {
        assert(("advertising_data"@)[0] == 'a');
    }
    reveal_strlit("usage_data");
    assert(t != "usage_data"@) by {
        assert(("usage_data"@)[0] == 'u');
    }
    reveal_strlit("crash_data");
    assert(t != "crash_data"@) by {
        assert(("crash_data"@)[1] == 'r');
    }
    reveal_strlit("performance_data");
    assert(t != "performance_data"@) by {
        assert(("performance_data"@)[0] == 'p');
    }
    reveal_strlit("diagnostic_data");
    assert(t != "diagnostic_data"@) by {
        assert(("diagnostic_data"@)[0] == 'd');
    }
}

/// Tag canonicalization is idempotent: canonicalizing a tag's raw value again
/// reproduces the tag exactly.
pub proof fn lemma_canon_tag_idempotent(s: Seq<char>)
    ensures
        canon_tag(canon_tag(s).value) == canon_tag(s),
{
    let t = trim_spec(s);
    lemma_trim_idempotent(s);
    lemma_trim_borders(s);
    if tag_token_type(t) is None && !has_prefix(t, "custom:"@) {
        let v = "custom:"@ + t;
        reveal_strlit("custom:");
        lemma_trim_noop(v);
        assert(v.subrange(0, 7) =~= "custom:"@);
        lemma_custom_value_not_token(v);
    }
}

/// An input outside the closed vocabulary canonicalizes to `Custom` with the
/// `"custom:"` prefix exactly once, provided the input itself does not already
/// carry a doubled prefix.
pub proof fn lemma_canon_tag_custom_prefix(s: Seq<char>)
    requires
        !has_prefix(trim_spec(s), "custom:custom:"@),
    ensures
        canon_tag(s).typ == TagType::Custom ==> has_prefix(canon_tag(s).value, "custom:"@)
            && !has_prefix(canon_tag(s).value, "custom:custom:"@),
{
    let t = trim_spec(s);
    reveal_strlit("custom:");
    reveal_strlit("custom:custom:");
    if canon_tag(s).typ == TagType::Custom && tag_token_type(t) is None {
        if has_prefix(t, "custom:"@) {
        } else {
            let v = "custom:"@ + t;
            assert(v.subrange(0, 7) =~= "custom:"@);
            if has_prefix(v, "custom:custom:"@) {
                assert(t.subrange(0, 7) =~= "custom:"@) by {
                    assert(forall|k: int|
                        0 <= k < 7 ==> t.subrange(0, 7)[k] == v.subrange(0, 14)[k + 7]);
                }
            }
        }
    }
}

} // verus!
