use vstd::prelude::*;

verus! {

/// Number of bytes in the textual form (strkey) of an account or contract address.
pub const ACCOUNT_KEY_LEN: usize = 56;

/// An on-chain address, held as the bytes of its textual strkey form.
#[derive(Clone, Copy, Debug, PartialEq, Eq)]
pub struct AccountId {
    pub key: [u8; 56],
}

impl AccountId {
    /// Builds an address from its strkey bytes.
    pub fn new(key: [u8; 56]) -> (r: AccountId)
        ensures
            r.key == key,
    {
        AccountId { key }
    }

    /// Compares two addresses byte by byte.
    pub fn same_as(&self, other: &AccountId) -> (r: bool)
        ensures
            r == (*self == *other),
    {
        let mut i: usize = 0;
        while i < ACCOUNT_KEY_LEN
            invariant
                0 <= i <= ACCOUNT_KEY_LEN,
                forall|j: int| 0 <= j < i ==> self.key[j] == other.key[j],
            decreases ACCOUNT_KEY_LEN - i,
        {
            if self.key[i] != other.key[i] {
                return false;
            }
            i = i + 1;
        }
        proof {
            broadcast use vstd::array::axiom_array_ext_equal;

            assert(self.key =~= other.key);
        }
        true
    }
}

/// Keys of a [`crate::table::Table`]: values whose runtime comparison agrees
/// with equality.
pub trait TableKey: Sized {
    fn key_eq(&self, other: &Self) -> (r: bool)
        ensures
            r == (*self == *other),
    ;
}

impl TableKey for u32 {
    fn key_eq(&self, other: &u32) -> (r: bool) {
        *self == *other
    }
}

impl TableKey for AccountId {
    fn key_eq(&self, other: &AccountId) -> (r: bool) {
        self.same_as(other)
    }
}

impl<A: TableKey, B: TableKey> TableKey for (A, B) {
    fn key_eq(&self, other: &(A, B)) -> (r: bool) {
        self.0.key_eq(&other.0) && self.1.key_eq(&other.1)
    }
}

} // verus!
