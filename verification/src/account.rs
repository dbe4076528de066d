use vstd::prelude::*;

verus! {

/// An on-ledger identity (a public key), held as raw bytes.
///
/// The core never interprets an identity; it only compares identities for
/// equality and routes transfers to them.
#[derive(Debug)]
pub struct AccountId {
    pub bytes: Vec<u8>,
}

impl View for AccountId {
    type V = Seq<u8>;

    open spec fn view(&self) -> Seq<u8> {
        self.bytes@
    }
}

/// The byte views of a sequence of identities.
pub open spec fn ids_view(s: Seq<AccountId>) -> Seq<Seq<u8>> {
    Seq::new(s.len(), |k: int| s[k]@)
}

impl AccountId {
    pub fn new(bytes: Vec<u8>) -> (r: AccountId)
        ensures
            r@ == bytes@,
    {
        AccountId { bytes }
    }

    /// Byte-for-byte identity comparison.
    pub fn matches(&self, other: &AccountId) -> (r: bool)
        ensures
            r <==> self@ == other@,
    {
        if self.bytes.len() != other.bytes.len() {
            return false;
        }
        let n = self.bytes.len();
        let mut i: usize = 0;
        while i < n
            invariant
                i <= n,
                n == self.bytes@.len(),
                n == other.bytes@.len(),
                forall|j: int| 0 <= j < i ==> self.bytes@[j] == other.bytes@[j],
            decreases n - i,
        {
            if self.bytes[i] != other.bytes[i] {
                return false;
            }
            i = i + 1;
        }
        proof {
            assert(self@ =~= other@);
        }
        true
    }
}

impl Clone for AccountId {
    fn clone(&self) -> (r: Self)
        ensures
            r@ == self@,
    {
        let mut bytes: Vec<u8> = Vec::new();
        let n = self.bytes.len();
        let mut i: usize = 0;
        while i < n
            invariant
                i <= n,
                n == self.bytes@.len(),
                bytes@.len() == i,
                forall|j: int| 0 <= j < i ==> bytes@[j] == self.bytes@[j],
            decreases n - i,
        {
            bytes.push(self.bytes[i]);
            i = i + 1;
        }
        proof {
            assert(bytes@ =~= self.bytes@);
        }
        AccountId { bytes }
    }
}

} // verus!
