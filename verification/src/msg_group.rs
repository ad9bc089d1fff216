//! The ordering group key under which the write queue delivers messages:
//! transactions of one owner share the key `"txn:" + provider + ":" + address`,
//! so they are applied in submission order.

use vstd::prelude::*;

verus! {

#[derive(Debug, PartialEq, Eq, Structural)]
pub enum MsgGroupType {
    Initialize,
    Transaction,
}

/// The ordering key for one owner's transactions.
pub open spec fn txn_group_key(provider: Seq<char>, address: Seq<char>) -> Seq<char> {
    "txn:"@ + provider + ":"@ + address
}

/// The ordering key for a provider's initialization messages.
pub open spec fn init_group_key(provider: Seq<char>) -> Seq<char> {
    "init:"@ + provider
}

/// The mathematical value of a [`MsgGroup`].
pub ghost struct MsgGroupV {
    pub typ: MsgGroupType,
    pub id: Seq<char>,
}

pub struct MsgGroup {
    typ: MsgGroupType,
    id: String,
}

impl View for MsgGroup {
    type V = MsgGroupV;

    closed spec fn view(&self) -> MsgGroupV {
        MsgGroupV { typ: self.typ, id: self.id@ }
    }
}

impl MsgGroup {
    pub fn new_txn(provider: &str, address: &str) -> (r: Self)
        ensures
            r@.typ == MsgGroupType::Transaction,
            r@.id == provider@ + ":"@ + address@,
    {
        let mut id = String::from_str(provider);
        id.append(":");
        id.append(address);
        MsgGroup { typ: MsgGroupType::Transaction, id }
    }

    pub fn new_init(provider: &str) -> (r: Self)
        ensures
            r@.typ == MsgGroupType::Initialize,
            r@.id == provider@,
    {
        MsgGroup { typ: MsgGroupType::Initialize, id: provider.to_owned() }
    }

    pub fn typ(&self) -> (r: &MsgGroupType)
        ensures
            *r == self@.typ,
    {
        &self.typ
    }

    pub fn id(&self) -> (r: &str)
        ensures
            r@ == self@.id,
    {
        self.id.as_str()
    }

    /// The wire form of the key, tagged with the group type.
    pub fn to_string(&self) -> (r: String)
        ensures
            r@ == match self@.typ {
                MsgGroupType::Initialize => "init:"@ + self@.id,
                MsgGroupType::Transaction => "txn:"@ + self@.id,
            },
    {
        match self.typ {
            MsgGroupType::Initialize => {
                let mut out = String::from_str("init:");
                out.append(self.id.as_str());
                out
            },
            MsgGroupType::Transaction => {
                let mut out = String::from_str("txn:");
                out.append(self.id.as_str());
                out
            },
        }
    }
}

} // verus!
