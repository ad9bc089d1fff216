//! The ordering group key under which the repository writer enqueues transactions:
//! transactions of one owner share the key `"txn:" + provider + ":" + address`,
//! so they are applied in submission order.

use vstd::prelude::*;

verus! {

#[derive(Debug, PartialEq, Eq, Structural)]
pub enum WriterGroupType {
    Initialize,
    Transaction,
}

/// The mathematical value of a [`WriterGroup`].
pub ghost struct WriterGroupV {
    pub typ: WriterGroupType,
    pub id: Seq<char>,
}

pub struct WriterGroup {
    typ: WriterGroupType,
    id: String,
}

impl View for WriterGroup {
    type V = WriterGroupV;

    closed spec fn view(&self) -> WriterGroupV {
        WriterGroupV { typ: self.typ, id: self.id@ }
    }
}

impl WriterGroup {
    pub fn new_txn(provider: &str, address: &str) -> (r: Self)
        ensures
            r@.typ == WriterGroupType::Transaction,
            r@.id == provider@ + ":"@ + address@,
    {
        let mut id = String::from_str(provider);
        id.append(":");
        id.append(address);
        WriterGroup { typ: WriterGroupType::Transaction, id }
    }

    pub fn new_init(provider: &str) -> (r: Self)
        ensures
            r@.typ == WriterGroupType::Initialize,
            r@.id == provider@,
    {
        WriterGroup { typ: WriterGroupType::Initialize, id: provider.to_owned() }
    }

    pub fn typ(&self) -> (r: &WriterGroupType)
        ensures
            *r == self@.typ,
    {
        &self.typ
    }

    pub fn id(&self) -> (r: &str)
        ensures
            r@ == self@.id,
    {
        self.id.as_str()
    }

    /// The wire form of the key, tagged with the group type.
    pub fn to_string(&self) -> (r: String)
        ensures
            r@ == match self@.typ {
                WriterGroupType::Initialize => "init:"@ + self@.id,
                WriterGroupType::Transaction => "txn:"@ + self@.id,
            },
    {
        match self.typ {
            WriterGroupType::Initialize => {
                let mut out = String::from_str("init:");
                out.append(self.id.as_str());
                out
            },
            WriterGroupType::Transaction => {
                let mut out = String::from_str("txn:");
                out.append(self.id.as_str());
                out
            },
        }
    }
}

} // verus!
