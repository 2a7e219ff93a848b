//! Account identifiers.

use vstd::prelude::*;

verus! {

/// The address of an account: 32 opaque bytes. Two keys name the same
/// account exactly when their bytes agree.
#[derive(Clone, Copy, Debug, Eq)]
pub struct AccountKey {
    pub bytes: [u8; 32],
}

impl AccountKey {
    /// The key with the given bytes.
    pub fn new(bytes: [u8; 32]) -> (key: AccountKey)
        ensures
            key.bytes == bytes,
    {
        AccountKey { bytes }
    }

    /// Whether `self` and `other` name the same account.
    pub fn same(&self, other: &AccountKey) -> (same: bool)
        ensures
            same == (*self == *other),
    {
        let mut i: usize = 0;
        while i < 32
            invariant
                i <= 32,
                forall|j: int| 0 <= j < i ==> self.bytes[j] == other.bytes[j],
            decreases 32 - i,
        {
            if self.bytes[i] != other.bytes[i] {
                return false;
            }
            i = i + 1;
        }
        assert(self.bytes =~= other.bytes);
        true
    }
}

impl PartialEq for AccountKey {
    fn eq(&self, other: &AccountKey) -> (equal: bool) {
        self.same(other)
    }
}

impl vstd::std_specs::cmp::PartialEqSpecImpl for AccountKey {
    open spec fn obeys_eq_spec() -> bool {
        true
    }

    open spec fn eq_spec(&self, other: &AccountKey) -> bool {
        *self == *other
    }
}

} // verus!
