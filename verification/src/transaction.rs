//! Ledger transactions. [`Transaction`] is the plain message shape; a
//! [`SignedTransaction`] is the fully assembled wire record: the version,
//! owner address, timestamp, asset reference, framed contents and user
//! signature, each length-prefixed, signed by the owner's key and addressed by
//! the digest of its bytes.

use vstd::prelude::*;
use vstd::utf8::encode_utf8;

use crate::codec::{
    concat_frames, lemma_concat_frames_push, lemma_pow256_values, lemma_split_frames, pow256,
    sbe_bytes, spec_split,
};
use crate::error::TrailError;
use crate::trusted::{
    b64_decode, b64_encode, b64_parse, b64_text, b64url_decode, b64url_encode, b64url_parse,
    b64url_text, frame_bytes, sbe_encode, sha3_digest, sha3_hash, signer_sign,
};
use mytiki_core_trail_storage::Signer;

verus! {

/// The version tag written into every transaction record.
pub open spec fn txn_version() -> int {
    2
}

/// The mathematical value of a plain [`Transaction`].
pub ghost struct TransactionV {
    pub timestamp: i64,
    pub asset_ref: Seq<char>,
    pub contents: Seq<char>,
    pub user_signature: Seq<char>,
}

/// A transaction as a plain message: its timestamp in whole seconds, asset
/// reference, base64 contents and user signature.
pub struct Transaction {
    timestamp: i64,
    asset_ref: String,
    contents: String,
    user_signature: String,
}

impl View for Transaction {
    type V = TransactionV;

    closed spec fn view(&self) -> TransactionV {
        TransactionV {
            timestamp: self.timestamp,
            asset_ref: self.asset_ref@,
            contents: self.contents@,
            user_signature: self.user_signature@,
        }
    }
}

impl Transaction {
    /// An absent asset reference defaults to the reserved empty pointer.
    pub fn new(
        contents: String,
        user_signature: String,
        timestamp: i64,
        asset_ref: Option<String>,
    ) -> (r: Self)
        ensures
            r@.contents == contents@,
            r@.user_signature == user_signature@,
            r@.timestamp == timestamp,
            r@.asset_ref == match asset_ref {
                Some(a) => a@,
                None => "AA=="@,
            },
    {
        let asset_ref = match asset_ref {
            Some(a) => a,
            None => "AA==".to_owned(),
        };
        Transaction { timestamp, asset_ref, contents, user_signature }
    }

    pub fn timestamp(&self) -> (r: i64)
        ensures
            r == self@.timestamp,
    {
        self.timestamp
    }

    pub fn asset_ref(&self) -> (r: &str)
        ensures
            r@ == self@.asset_ref,
    {
        self.asset_ref.as_str()
    }

    pub fn contents(&self) -> (r: &str)
        ensures
            r@ == self@.contents,
    {
        self.contents.as_str()
    }

    pub fn user_signature(&self) -> (r: &str)
        ensures
            r@ == self@.user_signature,
    {
        self.user_signature.as_str()
    }
}

/// The six body fields of a transaction record; the signature over their
/// concatenation is appended as a seventh field.
pub open spec fn spec_txn_body_fields(
    address_bytes: Seq<u8>,
    timestamp: i64,
    asset_ref: Seq<char>,
    contents: Seq<u8>,
    user_sig: Seq<u8>,
) -> Seq<Seq<u8>> {
    seq![
        sbe_bytes(txn_version()),
        address_bytes,
        sbe_bytes(timestamp as int),
        encode_utf8(asset_ref),
        contents,
        user_sig,
    ]
}

/// The mathematical value of a [`SignedTransaction`].
pub ghost struct SignedTransactionV {
    pub id: Seq<char>,
    pub timestamp: i64,
    pub asset_ref: Seq<char>,
    pub contents: Seq<char>,
    pub user_signature: Seq<char>,
    pub app_signature: Seq<char>,
    pub bytes: Seq<u8>,
}

/// A signed, addressable ledger transaction, ready for submission.
pub struct SignedTransaction {
    id: String,
    timestamp: i64,
    asset_ref: String,
    contents: String,
    user_signature: String,
    app_signature: String,
    bytes: Vec<u8>,
}

impl View for SignedTransaction {
    type V = SignedTransactionV;

    closed spec fn view(&self) -> SignedTransactionV {
        SignedTransactionV {
            id: self.id@,
            timestamp: self.timestamp,
            asset_ref: self.asset_ref@,
            contents: self.contents@,
            user_signature: self.user_signature@,
            app_signature: self.app_signature@,
            bytes: self.bytes@,
        }
    }
}

impl SignedTransaction {
    pub fn id(&self) -> (r: &str)
        ensures
            r@ == self@.id,
    {
        self.id.as_str()
    }

    pub fn timestamp(&self) -> (r: i64)
        ensures
            r == self@.timestamp,
    {
        self.timestamp
    }

    pub fn asset_ref(&self) -> (r: &str)
        ensures
            r@ == self@.asset_ref,
    {
        self.asset_ref.as_str()
    }

    pub fn contents(&self) -> (r: &str)
        ensures
            r@ == self@.contents,
    {
        self.contents.as_str()
    }

    pub fn user_signature(&self) -> (r: &str)
        ensures
            r@ == self@.user_signature,
    {
        self.user_signature.as_str()
    }

    pub fn app_signature(&self) -> (r: &str)
        ensures
            r@ == self@.app_signature,
    {
        self.app_signature.as_str()
    }

    /// The full wire record, for submission to the write queue.
    pub fn bytes(&self) -> (r: &Vec<u8>)
        ensures
            r@ == self@.bytes,
    {
        &self.bytes
    }
}

/// Assembles and signs one ledger transaction. The owner's address and the
/// user signature must be valid base64 (`BadRequest` otherwise); the signer
/// decides whether a signature is produced (`Signing` when it refuses).
pub fn build_signed(
    address: &str,
    timestamp: i64,
    asset_ref: &str,
    contents: &Vec<u8>,
    user_signature: &str,
    signer: &Signer,
) -> (r: Result<SignedTransaction, TrailError>)
    ensures
        match r {
            Ok(t) => {
                &&& b64url_parse(address@) is Some
                &&& b64_parse(user_signature@) is Some
                &&& t@.timestamp == timestamp
                &&& t@.asset_ref == asset_ref@
                &&& t@.user_signature == user_signature@
                &&& t@.contents == b64_text(contents@)
                &&& b64_parse(t@.contents) == Some(contents@)
                &&& t@.id == b64url_text(sha3_digest(t@.bytes))
                &&& exists|sig: Seq<u8>|
                    {
                        let fields = spec_txn_body_fields(
                            b64url_parse(address@)->Some_0,
                            timestamp,
                            asset_ref@,
                            contents@,
                            b64_parse(user_signature@)->Some_0,
                        ).push(sig);
                        &&& t@.bytes == concat_frames(fields)
                        &&& spec_split(t@.bytes) == Some(fields)
                        &&& t@.app_signature == #[trigger] b64_text(sig)
                    }
            },
            Err(e) => match e {
                TrailError::BadRequest => b64url_parse(address@) is None || b64_parse(
                    user_signature@,
                ) is None,
                TrailError::Signing => b64url_parse(address@) is Some && b64_parse(
                    user_signature@,
                ) is Some,
                _ => false,
            },
        },
{
    let address_bytes = match b64url_decode(address) {
        Some(b) => b,
        None => {
            return Err(TrailError::BadRequest);
        },
    };
    let user_sig_bytes = match b64_decode(user_signature) {
        Some(b) => b,
        None => {
            return Err(TrailError::BadRequest);
        },
    };
    let version_bytes = sbe_encode(2);
    let timestamp_bytes = sbe_encode(timestamp);
    let asset_ref_bytes = asset_ref.as_bytes_vec();

    let mut bytes = frame_bytes(&version_bytes);
    let ghost f0 = seq![version_bytes@];
    proof {
        assert(concat_frames(f0.drop_first()) =~= Seq::<u8>::empty());
        assert(bytes@ =~= concat_frames(f0));
    }
    let mut part = frame_bytes(&address_bytes);
    bytes.append(&mut part);
    let ghost f1 = f0.push(address_bytes@);
    proof {
        lemma_concat_frames_push(f0, address_bytes@);
    }
    let mut part = frame_bytes(&timestamp_bytes);
    bytes.append(&mut part);
    let ghost f2 = f1.push(timestamp_bytes@);
    proof {
        lemma_concat_frames_push(f1, timestamp_bytes@);
    }
    let mut part = frame_bytes(&asset_ref_bytes);
    bytes.append(&mut part);
    let ghost f3 = f2.push(asset_ref_bytes@);
    proof {
        lemma_concat_frames_push(f2, asset_ref_bytes@);
    }
    let mut part = frame_bytes(contents);
    bytes.append(&mut part);
    let ghost f4 = f3.push(contents@);
    proof {
        lemma_concat_frames_push(f3, contents@);
    }
    let mut part = frame_bytes(&user_sig_bytes);
    bytes.append(&mut part);
    let ghost f5 = f4.push(user_sig_bytes@);
    proof {
        lemma_concat_frames_push(f4, user_sig_bytes@);
    }
    let sig = match signer_sign(signer, &bytes) {
        Some(s) => s,
        None => {
            return Err(TrailError::Signing);
        },
    };
    let len0 = version_bytes.len();
    let len1 = address_bytes.len();
    let len2 = timestamp_bytes.len();
    let len3 = asset_ref_bytes.len();
    let len4 = contents.len();
    let len5 = user_sig_bytes.len();
    let len6 = sig.len();
    let app_signature = b64_encode(&sig);
    let mut part = frame_bytes(&sig);
    bytes.append(&mut part);
    let ghost f6 = f5.push(sig@);
    proof {
        lemma_concat_frames_push(f5, sig@);
        assert(f5 =~= spec_txn_body_fields(
            address_bytes@,
            timestamp,
            asset_ref@,
            contents@,
            user_sig_bytes@,
        ));
        lemma_pow256_values();
        assert(usize::MAX < pow256(8));
        assert(forall|i: int| 0 <= i < f6.len() ==> (#[trigger] f6[i]).len() < pow256(8)) by {
            assert(f6[0] == version_bytes@);
            assert(f6[1] == address_bytes@);
            assert(f6[2] == timestamp_bytes@);
            assert(f6[3] == asset_ref_bytes@);
            assert(f6[4] == contents@);
            assert(f6[5] == user_sig_bytes@);
            assert(f6[6] == sig@);
        }
        lemma_split_frames(f6);
    }
    let digest = sha3_hash(&bytes);
    let id = b64url_encode(&digest);
    let contents_b64 = b64_encode(contents);
    Ok(
        SignedTransaction {
            id,
            timestamp,
            asset_ref: asset_ref.to_owned(),
            contents: contents_b64,
            user_signature: user_signature.to_owned(),
            app_signature,
            bytes,
        },
    )
}

} // verus!
