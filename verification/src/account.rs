//! Account identities.

use vstd::prelude::*;

verus! {

/// The identity of a ledger account or contract: the bytes of its textual
/// (strkey) encoding. Two identities denote the same account exactly when
/// their bytes are equal.
#[derive(Debug, PartialEq, Eq)]
pub struct AccountId {
    strkey: Vec<u8>,
}

impl View for AccountId {
    type V = Seq<u8>;

    closed spec fn view(&self) -> Seq<u8> {
        self.strkey@
    }
}

impl AccountId {
    /// An identity from the bytes of its textual encoding.
    pub fn new(strkey: Vec<u8>) -> (r: AccountId)
        ensures
            r@ == strkey@,
    {
        AccountId { strkey }
    }

    /// The bytes of the textual encoding.
    pub fn as_bytes(&self) -> (r: &[u8])
        ensures
            r@ == self@,
    {
        self.strkey.as_slice()
    }

    /// Whether `self` and `other` denote the same account.
    pub fn same_as(&self, other: &AccountId) -> (r: bool)
        ensures
            r == (self@ == other@),
    {
        let n = self.strkey.len();
        if n != other.strkey.len() {
            return false;
        }
        let mut i: usize = 0;
        while i < n
            invariant
                n == self.strkey.len(),
                n == other.strkey.len(),
                i <= n,
                forall|j: int| 0 <= j < i ==> self.strkey@[j] == other.strkey@[j],
            decreases n - i,
        {
            if self.strkey[i] != other.strkey[i] {
                return false;
            }
            i = i + 1;
        }
        assert(self.strkey@ =~= other.strkey@);
        true
    }

    /// A second value denoting the same account.
    pub fn duplicate(&self) -> (r: AccountId)
        ensures
            r@ == self@,
    {
        let mut out: Vec<u8> = Vec::new();
        let n = self.strkey.len();
        let mut i: usize = 0;
        while i < n
            invariant
                n == self.strkey.len(),
                i <= n,
                out@ =~= self.strkey@.subrange(0, i as int),
            decreases n - i,
        {
            out.push(self.strkey[i]);
            i = i + 1;
        }
        assert(out@ =~= self.strkey@);
        AccountId { strkey: out }
    }
}

} // verus!

verus! {

/// The identity an optional account denotes, if any.
pub open spec fn opt_id(o: Option<AccountId>) -> Option<Seq<u8>> {
    match o {
        Some(a) => Some(a@),
        None => None,
    }
}

/// A second optional value denoting the same account, if any.
pub fn duplicate_opt(o: &Option<AccountId>) -> (r: Option<AccountId>)
    ensures
        opt_id(r) == opt_id(*o),
{
    match o {
        Some(a) => Some(a.duplicate()),
        None => None,
    }
}

} // verus!
