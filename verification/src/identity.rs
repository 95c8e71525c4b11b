//! Identities of the parties to a match.

use vstd::prelude::*;
use vstd::std_specs::cmp::PartialEqSpecImpl;

verus! {

/// Compares two 32-byte strings byte by byte.
pub fn bytes32_eq(a: &[u8; 32], b: &[u8; 32]) -> (same: bool)
    ensures
        same == (*a == *b),
{
    let mut i: usize = 0;
    while i < 32
        invariant
            i <= 32,
            forall|j: int| 0 <= j < i ==> a[j] == b[j],
        decreases 32 - i,
    {
        if a[i] != b[i] {
            return false;
        }
        i = i + 1;
    }
    assert(*a =~= *b);
    true
}

/// The public key under which a party acts: a player's persistent key, a
/// delegated session key, the administrator, or the address of a record.
#[derive(Clone, Copy, Debug)]
pub struct Identity {
    pub bytes: [u8; 32],
}

impl Identity {
    /// `true` of the all-zero identity, which stands for "nobody yet".
    pub open spec fn is_unset_spec(&self) -> bool {
        forall|i: int| 0 <= i < 32 ==> self.bytes[i] == 0u8
    }

    pub fn new(bytes: [u8; 32]) -> (id: Identity)
        ensures
            id.bytes == bytes,
    {
        Identity { bytes }
    }

    /// The identity that marks an empty seat or an absent delegate.
    pub fn unset() -> (id: Identity)
        ensures
            id.is_unset_spec(),
    {
        Identity { bytes: [0u8; 32] }
    }

    pub fn is_unset(&self) -> (unset: bool)
        ensures
            unset == self.is_unset_spec(),
    {
        let zero = Identity::unset();
        let unset = *self == zero;
        proof {
            if self.is_unset_spec() {
                assert(self.bytes =~= zero.bytes);
            }
        }
        unset
    }
}

impl PartialEq for Identity {
    fn eq(&self, other: &Self) -> (same: bool) {
        bytes32_eq(&self.bytes, &other.bytes)
    }
}

impl Eq for Identity {

}

impl PartialEqSpecImpl for Identity {
    open spec fn obeys_eq_spec() -> bool {
        true
    }

    open spec fn eq_spec(&self, other: &Self) -> bool {
        self.bytes == other.bytes
    }
}

} // verus!
