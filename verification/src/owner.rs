//! The identity partition of the ledger: a provider and an address, resolved
//! once from the caller's authorization token and immutable afterwards.

use vstd::prelude::*;

verus! {

/// The mathematical value of an [`Owner`].
pub ghost struct OwnerV {
    pub provider: Option<Seq<char>>,
    pub address: Option<Seq<char>>,
}

/// The position of the first `':'` at or after `from`; the length when there
/// is none.
pub open spec fn first_colon_at(s: Seq<char>, from: int) -> int
    decreases s.len() - from,
    when 0 <= from <= s.len()
{
    if from >= s.len() {
        s.len() as int
    } else if s[from] == ':' {
        from
    } else {
        first_colon_at(s, from + 1)
    }
}

/// The owner an authorization token identifies: the segment before the first
/// `':'` is the provider, the segment between the first and second `':'` (or
/// the end) is the address; a token without a `':'` carries no address.
pub open spec fn spec_owner_of_token(s: Seq<char>) -> OwnerV {
    let i = first_colon_at(s, 0);
    OwnerV {
        provider: Some(s.subrange(0, i)),
        address: if i == s.len() {
            None
        } else {
            Some(s.subrange(i + 1, first_colon_at(s, i + 1)))
        },
    }
}

pub struct Owner {
    provider: Option<String>,
    address: Option<String>,
}

impl View for Owner {
    type V = OwnerV;

    closed spec fn view(&self) -> OwnerV {
        OwnerV { provider: self.provider.deep_view(), address: self.address.deep_view() }
    }
}

impl Owner {
    pub fn new(provider: Option<String>, address: Option<String>) -> (r: Self)
        ensures
            r@.provider == provider.deep_view(),
            r@.address == address.deep_view(),
    {
        Owner { provider, address }
    }

    /// Resolves an owner from the authorization token's identity field.
    pub fn from_token_id(id: &str) -> (r: Owner)
        ensures
            r@ == spec_owner_of_token(id@),
    {
        let n = id.unicode_len();
        let mut i: usize = 0;
        while i < n && id.get_char(i) != ':'
            invariant
                i <= n,
                n == id@.len(),
                first_colon_at(id@, 0) == first_colon_at(id@, i as int),
            decreases n - i,
        {
            i = i + 1;
        }
        let provider = id.substring_char(0, i).to_owned();
        if i == n {
            Owner { provider: Some(provider), address: None }
        } else {
            let start = i + 1;
            let mut j: usize = start;
            while j < n && id.get_char(j) != ':'
                invariant
                    start <= j <= n,
                    n == id@.len(),
                    first_colon_at(id@, start as int) == first_colon_at(id@, j as int),
                decreases n - j,
            {
                j = j + 1;
            }
            let address = id.substring_char(start, j).to_owned();
            Owner { provider: Some(provider), address: Some(address) }
        }
    }

    pub fn provider(&self) -> (r: &Option<String>)
        ensures
            r.deep_view() == self@.provider,
    {
        &self.provider
    }

    pub fn address(&self) -> (r: &Option<String>)
        ensures
            r.deep_view() == self@.address,
    {
        &self.address
    }
}

} // verus!
