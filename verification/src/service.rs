//! The license/title service: the two-step creation flow (a Title transaction
//! followed by a License transaction that references it, both under one
//! ordering key) and the verification traversal over the owner's ledger.
//!
//! The service is pure: creation produces an ordered plan of submissions for
//! the caller to enqueue, and verification consumes the raw transaction
//! records the caller has read — newest block first — and decides from the
//! first License transaction found.

use vstd::prelude::*;

use vstd::utf8::encode_utf8;

use crate::codec::{frame, lemma_split_fields_bounded, pow256, spec_split, split_fields};
use crate::error::TrailError;
use crate::fields::{opt_i64_field, opt_str_field, tags_view, use_case_values, uses_view};
use crate::license;
use crate::license::spec_license_bytes;
use crate::msg_group::{txn_group_key, MsgGroup};
use crate::owner::Owner;
use crate::schema::{
    lemma_schema_round_trip, schema_id_of, spec_schema_frame, spec_schema_parse, ContentSchema,
    ContentType,
};
use crate::tag::{Tag, TagV};
use crate::title;
use crate::title::spec_title_bytes;
use crate::transaction::{
    build_signed, spec_txn_body_fields, SignedTransaction, SignedTransactionV,
};
use crate::trusted::{
    b64_parse, b64_text, b64url_parse, b64url_text, json_strings_parse, json_strings_text,
    sha3_digest,
};
use crate::use_case::{canon_use_case, UseCase, UseCaseV};
use mytiki_core_trail_storage::Signer;

verus! {

/// The mathematical value of a [`LicenseUse`].
pub ghost struct LicenseUseV {
    pub use_cases: Seq<UseCaseV>,
    pub destinations: Option<Seq<Seq<char>>>,
}

/// One granted use: its use cases and, optionally, where they may be applied.
pub struct LicenseUse {
    use_cases: Vec<UseCase>,
    destinations: Option<Vec<String>>,
}

impl View for LicenseUse {
    type V = LicenseUseV;

    closed spec fn view(&self) -> LicenseUseV {
        LicenseUseV {
            use_cases: uses_view(self.use_cases@),
            destinations: self.destinations.deep_view(),
        }
    }
}

impl LicenseUse {
    pub fn new(use_cases: Vec<UseCase>, destinations: Option<Vec<String>>) -> (r: Self)
        ensures
            r@.use_cases == uses_view(use_cases@),
            r@.destinations == destinations.deep_view(),
    {
        LicenseUse { use_cases, destinations }
    }

    pub fn use_cases(&self) -> (r: &Vec<UseCase>)
        ensures
            uses_view(r@) == self@.use_cases,
    {
        &self.use_cases
    }

    pub fn destinations(&self) -> (r: &Option<Vec<String>>)
        ensures
            r.deep_view() == self@.destinations,
    {
        &self.destinations
    }
}

/// The views of a vector of license uses.
pub open spec fn license_uses_view(uses: Seq<LicenseUse>) -> Seq<LicenseUseV> {
    uses.map_values(|u: LicenseUse| u@)
}

/// The mathematical value of a [`ComboRequest`].
pub ghost struct ComboRequestV {
    pub ptr: Seq<char>,
    pub origin: Seq<char>,
    pub tags: Seq<TagV>,
    pub uses: Seq<LicenseUseV>,
    pub terms: Seq<char>,
    pub description: Option<Seq<char>>,
    pub expiry: Option<i64>,
    pub signature: Seq<char>,
}

/// A creation request: everything needed for the title and its license.
pub struct ComboRequest {
    ptr: String,
    origin: String,
    tags: Vec<Tag>,
    uses: Vec<LicenseUse>,
    terms: String,
    description: Option<String>,
    expiry: Option<i64>,
    signature: String,
}

impl View for ComboRequest {
    type V = ComboRequestV;

    closed spec fn view(&self) -> ComboRequestV {
        ComboRequestV {
            ptr: self.ptr@,
            origin: self.origin@,
            tags: tags_view(self.tags@),
            uses: license_uses_view(self.uses@),
            terms: self.terms@,
            description: self.description.deep_view(),
            expiry: self.expiry,
            signature: self.signature@,
        }
    }
}

impl ComboRequest {
    pub fn new(
        ptr: &str,
        origin: &str,
        tags: Vec<Tag>,
        uses: Vec<LicenseUse>,
        terms: &str,
        description: Option<String>,
        expiry: Option<i64>,
        signature: &str,
    ) -> (r: Self)
        ensures
            r@.ptr == ptr@,
            r@.origin == origin@,
            r@.tags == tags_view(tags@),
            r@.uses == license_uses_view(uses@),
            r@.terms == terms@,
            r@.description == description.deep_view(),
            r@.expiry == expiry,
            r@.signature == signature@,
    {
        ComboRequest {
            ptr: ptr.to_owned(),
            origin: origin.to_owned(),
            tags,
            uses,
            terms: terms.to_owned(),
            description,
            expiry,
            signature: signature.to_owned(),
        }
    }

    pub fn ptr(&self) -> (r: &str)
        ensures
            r@ == self@.ptr,
    {
        self.ptr.as_str()
    }

    pub fn origin(&self) -> (r: &str)
        ensures
            r@ == self@.origin,
    {
        self.origin.as_str()
    }

    pub fn tags(&self) -> (r: &Vec<Tag>)
        ensures
            tags_view(r@) == self@.tags,
    {
        &self.tags
    }

    pub fn uses(&self) -> (r: &Vec<LicenseUse>)
        ensures
            license_uses_view(r@) == self@.uses,
    {
        &self.uses
    }

    pub fn terms(&self) -> (r: &str)
        ensures
            r@ == self@.terms,
    {
        self.terms.as_str()
    }

    pub fn description(&self) -> (r: &Option<String>)
        ensures
            r.deep_view() == self@.description,
    {
        &self.description
    }

    pub fn expiry(&self) -> (r: Option<i64>)
        ensures
            r == self@.expiry,
    {
        self.expiry
    }

    pub fn signature(&self) -> (r: &str)
        ensures
            r@ == self@.signature,
    {
        self.signature.as_str()
    }
}

/// The mathematical value of a [`CreateResponse`].
pub ghost struct CreateResponseV {
    pub id: Seq<char>,
    pub timestamp: i64,
    pub signature: Seq<char>,
}

/// What a successful creation returns: the License transaction's identifier,
/// timestamp and application signature.
pub struct CreateResponse {
    id: String,
    timestamp: i64,
    signature: String,
}

impl View for CreateResponse {
    type V = CreateResponseV;

    closed spec fn view(&self) -> CreateResponseV {
        CreateResponseV { id: self.id@, timestamp: self.timestamp, signature: self.signature@ }
    }
}

impl CreateResponse {
    pub fn new(id: &str, timestamp: i64, signature: &str) -> (r: Self)
        ensures
            r@.id == id@,
            r@.timestamp == timestamp,
            r@.signature == signature@,
    {
        CreateResponse { id: id.to_owned(), timestamp, signature: signature.to_owned() }
    }

    pub fn id(&self) -> (r: &str)
        ensures
            r@ == self@.id,
    {
        self.id.as_str()
    }

    pub fn timestamp(&self) -> (r: i64)
        ensures
            r == self@.timestamp,
    {
        self.timestamp
    }

    pub fn signature(&self) -> (r: &str)
        ensures
            r@ == self@.signature,
    {
        self.signature.as_str()
    }
}

/// The mathematical value of a [`VerifyRsp`].
pub ghost struct VerifyRspV {
    pub verified: bool,
    pub reason: Option<Seq<char>>,
}

/// The answer of the verification traversal.
#[derive(Debug)]
pub struct VerifyRsp {
    pub verified: bool,
    pub reason: Option<String>,
}

impl View for VerifyRsp {
    type V = VerifyRspV;

    open spec fn view(&self) -> VerifyRspV {
        VerifyRspV { verified: self.verified, reason: self.reason.deep_view() }
    }
}

/// The title contents a creation request describes.
pub open spec fn title_of_request(r: ComboRequestV) -> title::ContentsV {
    title::ContentsV { ptr: r.ptr, origin: r.origin, tags: r.tags, description: r.description }
}

/// All use cases granted by a request, in order, across its use entries.
pub open spec fn flat_uses(uses: Seq<LicenseUseV>) -> Seq<UseCaseV>
    decreases uses.len(),
{
    if uses.len() == 0 {
        Seq::empty()
    } else {
        flat_uses(uses.drop_last()) + uses.last().use_cases
    }
}

/// The license contents a creation request describes.
pub open spec fn license_of_request(r: ComboRequestV) -> license::ContentsV {
    license::ContentsV {
        uses: flat_uses(r.uses),
        terms: r.terms,
        description: r.description,
        expiry: r.expiry,
    }
}

/// Gathers every use case granted by a request into one owned vector.
fn flatten_uses(uses: &Vec<LicenseUse>) -> (r: Vec<UseCase>)
    ensures
        uses_view(r@) == flat_uses(license_uses_view(uses@)),
{
    let mut out: Vec<UseCase> = Vec::new();
    let mut i: usize = 0;
    while i < uses.len()
        invariant
            i <= uses@.len(),
            uses_view(out@) == flat_uses(license_uses_view(uses@.subrange(0, i as int))),
        decreases uses@.len() - i,
    {
        let ghost prefix = license_uses_view(uses@.subrange(0, i as int));
        let cases = &uses[i].use_cases;
        let mut j: usize = 0;
        while j < cases.len()
            invariant
                j <= cases@.len(),
                uses_view(out@) == flat_uses(prefix) + uses_view(cases@).subrange(0, j as int),
            decreases cases@.len() - j,
        {
            let ghost out0 = out@;
            out.push(cases[j].duplicate());
            proof {
                assert(uses_view(out@) =~= uses_view(out0).push(cases@[j as int]@));
                assert(uses_view(cases@).subrange(0, j as int + 1) =~= uses_view(
                    cases@,
                ).subrange(0, j as int).push(cases@[j as int]@));
                assert(uses_view(out@) =~= flat_uses(prefix) + uses_view(cases@).subrange(
                    0,
                    j as int + 1,
                ));
            }
            j = j + 1;
        }
        proof {
            let prefix1 = license_uses_view(uses@.subrange(0, i as int + 1));
            assert(prefix1.drop_last() =~= prefix);
            assert(prefix1.last() == uses@[i as int]@);
            assert(uses_view(cases@).subrange(0, j as int) =~= uses@[i as int]@.use_cases);
            assert(uses_view(out@) =~= flat_uses(prefix1));
        }
        i = i + 1;
    }
    proof {
        assert(uses@.subrange(0, uses@.len() as int) =~= uses@);
    }
    out
}

/// Duplicates a vector of tags.
fn clone_tags(tags: &Vec<Tag>) -> (r: Vec<Tag>)
    ensures
        tags_view(r@) == tags_view(tags@),
{
    let mut out: Vec<Tag> = Vec::new();
    let mut i: usize = 0;
    while i < tags.len()
        invariant
            i <= tags@.len(),
            out@.len() == i,
            forall|k: int| 0 <= k < i ==> (#[trigger] out@[k])@ == tags@[k]@,
        decreases tags@.len() - i,
    {
        out.push(tags[i].duplicate());
        i = i + 1;
    }
    proof {
        assert(tags_view(out@) =~= tags_view(tags@));
    }
    out
}

/// Duplicates an optional description.
fn clone_description(d: &Option<String>) -> (r: Option<String>)
    ensures
        r.deep_view() == d.deep_view(),
{
    match d {
        None => None,
        Some(s) => Some(s.clone()),
    }
}

/// The title half of creation: build, frame and sign the Title transaction.
pub struct TitleService {}

impl TitleService {
    pub fn new() -> (r: TitleService) {
        TitleService {}
    }

    /// Builds the signed Title transaction for a request. Success needs a
    /// base64 owner address and user signature, and a willing signer.
    pub fn create(
        &self,
        owner: &Owner,
        signer: &Signer,
        req: &ComboRequest,
        timestamp: i64,
    ) -> (r: Result<(SignedTransaction, CreateResponse), TrailError>)
        ensures
            match r {
                Ok((t, resp)) => {
                    &&& owner@.address matches Some(addr) && b64url_parse(addr) is Some
                    &&& b64_parse(req@.signature) is Some
                    &&& t@.timestamp == timestamp
                    &&& t@.asset_ref == ""@
                    &&& t@.user_signature == req@.signature
                    &&& b64_parse(t@.contents) == Some(
                        spec_schema_frame(
                            ContentType::Title,
                            spec_title_bytes(title_of_request(req@)),
                        ),
                    )
                    &&& t@.id == b64url_text(sha3_digest(t@.bytes))
                    &&& resp@.id == t@.id
                    &&& resp@.timestamp == timestamp
                    &&& resp@.signature == t@.app_signature
                },
                Err(e) => match e {
                    TrailError::Unauthorized => owner@.address is None,
                    TrailError::BadRequest => owner@.address matches Some(addr) && (b64url_parse(
                        addr,
                    ) is None || b64_parse(req@.signature) is None),
                    TrailError::Signing => owner@.address matches Some(addr) && b64url_parse(
                        addr,
                    ) is Some && b64_parse(req@.signature) is Some,
                    _ => false,
                },
            },
    {
        let address = match owner.address() {
            Some(a) => a,
            None => {
                return Err(TrailError::Unauthorized);
            },
        };
        let contents = title::Contents::new(
            req.ptr(),
            req.origin(),
            clone_tags(req.tags()),
            clone_description(req.description()),
        );
        let payload = contents.to_bytes();
        let framed = ContentSchema::title().serialize(&payload);
        let txn = match build_signed(
            address.as_str(),
            timestamp,
            "",
            &framed,
            req.signature(),
            signer,
        ) {
            Ok(t) => t,
            Err(e) => {
                return Err(e);
            },
        };
        let resp = CreateResponse::new(txn.id(), timestamp, txn.app_signature());
        Ok((txn, resp))
    }
}

/// The license half of creation: build, frame and sign the License
/// transaction, referencing the Title transaction by its identifier.
pub struct LicenseService {}

impl LicenseService {
    pub fn new() -> (r: LicenseService) {
        LicenseService {}
    }

    /// Builds the signed License transaction for a request.
    pub fn create(
        &self,
        owner: &Owner,
        signer: &Signer,
        title_id: &str,
        req: &ComboRequest,
        timestamp: i64,
    ) -> (r: Result<(SignedTransaction, CreateResponse), TrailError>)
        ensures
            match r {
                Ok((t, resp)) => {
                    &&& owner@.address matches Some(addr) && b64url_parse(addr) is Some
                    &&& b64_parse(req@.signature) is Some
                    &&& t@.timestamp == timestamp
                    &&& t@.asset_ref == title_id@
                    &&& t@.user_signature == req@.signature
                    &&& b64_parse(t@.contents) == Some(
                        spec_schema_frame(
                            ContentType::License,
                            spec_license_bytes(license_of_request(req@)),
                        ),
                    )
                    &&& t@.id == b64url_text(sha3_digest(t@.bytes))
                    &&& resp@.id == t@.id
                    &&& resp@.timestamp == timestamp
                    &&& resp@.signature == t@.app_signature
                },
                Err(e) => match e {
                    TrailError::Unauthorized => owner@.address is None,
                    TrailError::BadRequest => owner@.address matches Some(addr) && (b64url_parse(
                        addr,
                    ) is None || b64_parse(req@.signature) is None),
                    TrailError::Signing => owner@.address matches Some(addr) && b64url_parse(
                        addr,
                    ) is Some && b64_parse(req@.signature) is Some,
                    _ => false,
                },
            },
    {
        let address = match owner.address() {
            Some(a) => a,
            None => {
                return Err(TrailError::Unauthorized);
            },
        };
        let contents = license::Contents::new(
            flatten_uses(req.uses()),
            req.terms(),
            clone_description(req.description()),
            req.expiry(),
        );
        let payload = contents.to_bytes();
        let framed = ContentSchema::license().serialize(&payload);
        let txn = match build_signed(
            address.as_str(),
            timestamp,
            title_id,
            &framed,
            req.signature(),
            signer,
        ) {
            Ok(t) => t,
            Err(e) => {
                return Err(e);
            },
        };
        let resp = CreateResponse::new(txn.id(), timestamp, txn.app_signature());
        Ok((txn, resp))
    }
}

/// The mathematical value of a [`Submission`].
pub ghost struct SubmissionV {
    pub group: Seq<char>,
    pub transaction: SignedTransactionV,
}

/// One transaction queued under its ordering group key.
pub struct Submission {
    group: String,
    transaction: SignedTransaction,
}

impl View for Submission {
    type V = SubmissionV;

    closed spec fn view(&self) -> SubmissionV {
        SubmissionV { group: self.group@, transaction: self.transaction@ }
    }
}

impl Submission {
    pub fn group(&self) -> (r: &str)
        ensures
            r@ == self@.group,
    {
        self.group.as_str()
    }

    pub fn transaction(&self) -> (r: &SignedTransaction)
        ensures
            r@ == self@.transaction,
    {
        &self.transaction
    }
}

pub struct Service {}

impl Service {
    pub fn new() -> (r: Service) {
        Service {}
    }

    /// The whole creation flow: exactly two submissions — the Title
    /// transaction first, then the License transaction whose asset reference
    /// is the Title's identifier — both under the owner's one ordering key.
    /// The response carries the License transaction's identifier, timestamp
    /// and application signature.
    pub fn create(
        &self,
        owner: &Owner,
        signer: &Signer,
        req: &ComboRequest,
        timestamp: i64,
    ) -> (r: Result<(Vec<Submission>, CreateResponse), TrailError>)
        ensures
            match r {
                Ok((plan, resp)) => {
                    &&& owner@.provider is Some
                    &&& owner@.address is Some
                    &&& plan@.len() == 2
                    &&& plan@[0]@.group == txn_group_key(
                        owner@.provider->Some_0,
                        owner@.address->Some_0,
                    )
                    &&& plan@[1]@.group == plan@[0]@.group
                    &&& plan@[0]@.transaction.timestamp == timestamp
                    &&& plan@[1]@.transaction.timestamp == timestamp
                    &&& plan@[0]@.transaction.asset_ref == ""@
                    &&& b64_parse(plan@[0]@.transaction.contents) == Some(
                        spec_schema_frame(
                            ContentType::Title,
                            spec_title_bytes(title_of_request(req@)),
                        ),
                    )
                    &&& b64_parse(plan@[1]@.transaction.contents) == Some(
                        spec_schema_frame(
                            ContentType::License,
                            spec_license_bytes(license_of_request(req@)),
                        ),
                    )
                    &&& plan@[1]@.transaction.asset_ref == plan@[0]@.transaction.id
                    &&& plan@[0]@.transaction.user_signature == req@.signature
                    &&& plan@[1]@.transaction.user_signature == req@.signature
                    &&& resp@.id == plan@[1]@.transaction.id
                    &&& resp@.timestamp == timestamp
                    &&& resp@.signature == plan@[1]@.transaction.app_signature
                },
                Err(e) => match e {
                    TrailError::Unauthorized => owner@.provider is None || owner@.address is None,
                    TrailError::BadRequest => owner@.address matches Some(addr) && (b64url_parse(
                        addr,
                    ) is None || b64_parse(req@.signature) is None),
                    TrailError::Signing => owner@.address matches Some(addr) && b64url_parse(
                        addr,
                    ) is Some && b64_parse(req@.signature) is Some,
                    _ => false,
                },
            },
    {
        let provider = match owner.provider() {
            Some(p) => p,
            None => {
                return Err(TrailError::Unauthorized);
            },
        };
        let address = match owner.address() {
            Some(a) => a,
            None => {
                return Err(TrailError::Unauthorized);
            },
        };
        let group = MsgGroup::new_txn(provider.as_str(), address.as_str());
        let (title_txn, _title_resp) = match TitleService::new().create(
            owner,
            signer,
            req,
            timestamp,
        ) {
            Ok(x) => x,
            Err(e) => {
                return Err(e);
            },
        };
        let title_id = title_txn.id().to_owned();
        let (license_txn, resp) = match LicenseService::new().create(
            owner,
            signer,
            title_id.as_str(),
            req,
            timestamp,
        ) {
            Ok(x) => x,
            Err(e) => {
                return Err(e);
            },
        };
        let mut plan: Vec<Submission> = Vec::new();
        let group0 = group.to_string();
        let group1 = group0.clone();
        plan.push(Submission { group: group0, transaction: title_txn });
        plan.push(Submission { group: group1, transaction: license_txn });
        Ok((plan, resp))
    }

    /// The verify answer for an owner with no ledger at all.
    pub fn verify_no_trail(&self) -> (r: VerifyRsp)
        ensures
            r@.verified == false,
            r@.reason == Some(no_trail_reason()),
    {
        VerifyRsp { verified: false, reason: Some("No trail found.".to_owned()) }
    }

    /// Scans one block's transaction records in order; the first readable
    /// License transaction decides. `None` when the block holds none.
    pub fn scan_transactions(&self, txns: &Vec<Vec<u8>>) -> (r: Option<VerifyRsp>)
        ensures
            match spec_block_decision(txns.deep_view()) {
                Some(c) => r matches Some(v) && v@ == decision_of(c),
                None => r is None,
            },
    {
        let n = txns.len();
        proof {
            assert(txns.deep_view().subrange(0, n as int) =~= txns.deep_view());
        }
        let mut i: usize = 0;
        while i < n
            invariant
                i <= n,
                n == txns@.len(),
                txns.deep_view().len() == n,
                spec_block_decision(txns.deep_view()) == spec_block_decision(
                    txns.deep_view().subrange(i as int, n as int),
                ),
            decreases n - i,
        {
            proof {
                assert(txns.deep_view()[i as int] == txns@[i as int]@);
                assert(txns.deep_view().subrange(i as int, n as int)[0] == txns@[i as int]@);
                assert(txns.deep_view().subrange(i as int, n as int).drop_first()
                    =~= txns.deep_view().subrange(i as int + 1, n as int));
            }
            match scan_transaction(&txns[i]) {
                Some(contents) => {
                    let verified = contents.uses().len() > 0;
                    if verified {
                        return Some(VerifyRsp { verified: true, reason: None });
                    } else {
                        return Some(
                            VerifyRsp {
                                verified: false,
                                reason: Some("Most recent license permits no uses.".to_owned()),
                            },
                        );
                    }
                },
                None => {},
            }
            i = i + 1;
        }
        proof {
            assert(txns.deep_view().subrange(i as int, n as int)
                =~= Seq::<Seq<u8>>::empty());
        }
        None
    }

    /// The whole traversal: blocks are given newest first, each as its raw
    /// transaction records in stored order; the first License transaction
    /// encountered decides, and a ledger without one is not verified.
    pub fn verify(&self, blocks: &Vec<Vec<Vec<u8>>>) -> (r: VerifyRsp)
        ensures
            r@ == spec_verify_result(blocks.deep_view()),
    {
        let n = blocks.len();
        proof {
            assert(blocks.deep_view().subrange(0, n as int) =~= blocks.deep_view());
        }
        let mut i: usize = 0;
        while i < n
            invariant
                i <= n,
                n == blocks@.len(),
                blocks.deep_view().len() == n,
                spec_ledger_decision(blocks.deep_view()) == spec_ledger_decision(
                    blocks.deep_view().subrange(i as int, n as int),
                ),
            decreases n - i,
        {
            proof {
                assert(blocks.deep_view()[i as int] == blocks@[i as int].deep_view());
                assert(blocks.deep_view().subrange(i as int, n as int)[0] == blocks@[
                    i as int
                ].deep_view());
                assert(blocks.deep_view().subrange(i as int, n as int).drop_first()
                    =~= blocks.deep_view().subrange(i as int + 1, n as int));
            }
            match self.scan_transactions(&blocks[i]) {
                Some(rsp) => {
                    return rsp;
                },
                None => {},
            }
            i = i + 1;
        }
        proof {
            assert(blocks.deep_view().subrange(i as int, n as int)
                =~= Seq::<Seq<Seq<u8>>>::empty());
        }
        VerifyRsp {
            verified: false,
            reason: Some("No license with permissive uses found.".to_owned()),
        }
    }
}

/// The reason reported when the owner has no ledger.
pub open spec fn no_trail_reason() -> Seq<char> {
    "No trail found."@
}

/// The reason reported when the scan finds no License transaction.
pub open spec fn exhausted_reason() -> Seq<char> {
    "No license with permissive uses found."@
}

/// The reason reported when the most recent license grants nothing.
pub open spec fn no_uses_reason() -> Seq<char> {
    "Most recent license permits no uses."@
}

/// What a found license decides: verified exactly when it grants at least one
/// use.
pub open spec fn decision_of(c: license::ContentsV) -> VerifyRspV {
    if c.uses.len() > 0 {
        VerifyRspV { verified: true, reason: None }
    } else {
        VerifyRspV { verified: false, reason: Some(no_uses_reason()) }
    }
}

/// The license contents of a transaction record, where the record splits into
/// the seven transaction fields, its contents field frames a License schema,
/// and the payload decodes; `None` otherwise (such a record is skipped).
pub open spec fn spec_txn_license(txn: Seq<u8>) -> Option<license::ContentsV> {
    match spec_split(txn) {
        None => None,
        Some(fs) => {
            if fs.len() != 7 {
                None
            } else {
                match spec_schema_parse(fs[4]) {
                    Err(_) => None,
                    Ok((t, payload)) => {
                        if t != ContentType::License {
                            None
                        } else {
                            match license::spec_license_parse(payload) {
                                Err(_) => None,
                                Ok(c) => Some(c),
                            }
                        }
                    },
                }
            }
        },
    }
}

/// The first readable License transaction of a block, in stored order.
pub open spec fn spec_block_decision(txns: Seq<Seq<u8>>) -> Option<license::ContentsV>
    decreases txns.len(),
{
    if txns.len() == 0 {
        None
    } else {
        match spec_txn_license(txns[0]) {
            Some(c) => Some(c),
            None => spec_block_decision(txns.drop_first()),
        }
    }
}

/// The first block (newest first) holding a License transaction decides.
pub open spec fn spec_ledger_decision(blocks: Seq<Seq<Seq<u8>>>) -> Option<license::ContentsV>
    decreases blocks.len(),
{
    if blocks.len() == 0 {
        None
    } else {
        match spec_block_decision(blocks[0]) {
            Some(c) => Some(c),
            None => spec_ledger_decision(blocks.drop_first()),
        }
    }
}

/// The verify answer over a whole ledger.
pub open spec fn spec_verify_result(blocks: Seq<Seq<Seq<u8>>>) -> VerifyRspV {
    match spec_ledger_decision(blocks) {
        Some(c) => decision_of(c),
        None => VerifyRspV { verified: false, reason: Some(exhausted_reason()) },
    }
}

/// The write and read paths meet: a License transaction record assembled by
/// the creation flow (the split of its bytes is the six body fields around the
/// framed license contents, plus the appended signature — what
/// `build_signed` ensures) is found by the verification scan and yields
/// exactly the license contents that were written. The premises beyond that
/// shape are the codec round-trip premises: the JSON collaborator's round trip
/// on the use values, canonical uses, and fields that fit the wire format.
pub proof fn lemma_created_license_scans(
    bytes: Seq<u8>,
    address_bytes: Seq<u8>,
    timestamp: i64,
    asset_ref: Seq<char>,
    user_sig: Seq<u8>,
    sig: Seq<u8>,
    c: license::ContentsV,
)
    requires
        spec_split(bytes) == Some(
            spec_txn_body_fields(
                address_bytes,
                timestamp,
                asset_ref,
                spec_schema_frame(ContentType::License, spec_license_bytes(c)),
                user_sig,
            ).push(sig),
        ),
        json_strings_parse(json_strings_text(use_case_values(c.uses))) == Some(
            use_case_values(c.uses),
        ),
        forall|i: int|
            0 <= i < c.uses.len() ==> #[trigger] canon_use_case(c.uses[i].value) == c.uses[i],
        encode_utf8(json_strings_text(use_case_values(c.uses))).len() < pow256(8),
        encode_utf8(c.terms).len() < pow256(8),
        opt_str_field(c.description).len() < pow256(8),
        opt_i64_field(c.expiry).len() < pow256(8),
    ensures
        spec_txn_license(bytes) == Some(c),
{
    let framed = spec_schema_frame(ContentType::License, spec_license_bytes(c));
    let fields = spec_txn_body_fields(address_bytes, timestamp, asset_ref, framed, user_sig).push(
        sig,
    );
    assert(fields.len() == 7);
    assert(fields[4] == framed);
    lemma_split_fields_bounded(bytes);
    assert(framed.len() < pow256(8));
    assert(spec_license_bytes(c).len() <= framed.len()) by {
        assert(framed == frame(crate::codec::sbe_bytes(schema_id_of(ContentType::License) as int))
            + frame(spec_license_bytes(c)));
    }
    lemma_schema_round_trip(ContentType::License, spec_license_bytes(c));
    license::lemma_license_round_trip(c);
}

/// Reads one raw transaction record and extracts its license contents, if it
/// is a readable License transaction.
pub fn scan_transaction(txn: &Vec<u8>) -> (r: Option<license::Contents>)
    ensures
        match r {
            Some(c) => spec_txn_license(txn@) == Some(c@),
            None => spec_txn_license(txn@) is None,
        },
{
    let fields = match split_fields(txn) {
        Some(fields) => fields,
        None => {
            return None;
        },
    };
    proof {
        assert(fields.deep_view().len() == fields@.len());
    }
    if fields.len() != 7 {
        return None;
    }
    proof {
        assert(fields.deep_view()[4] == fields@[4]@);
    }
    let parsed = match ContentSchema::deserialize(&fields[4]) {
        Ok(x) => x,
        Err(_) => {
            return None;
        },
    };
    let schema = parsed.0;
    let payload = parsed.1;
    match *schema.typ() {
        ContentType::License => {},
        _ => {
            return None;
        },
    }
    match license::Contents::from_bytes(&payload) {
        Ok(c) => Some(c),
        Err(_) => None,
    }
}

} // verus!
