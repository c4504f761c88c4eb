//! Identity keys and the searches over them that the rest of the library uses.
use vstd::prelude::*;

verus! {

/// The 32-byte public key that identifies a member, a signer or a counterparty.
#[derive(Clone, Copy, Debug, Eq, Hash)]
pub struct IdentityKey {
    pub bytes: [u8; 32],
}

impl IdentityKey {
    pub fn new(bytes: [u8; 32]) -> (k: IdentityKey)
        ensures
            k.bytes == bytes,
    {
        IdentityKey { bytes }
    }

    pub fn to_bytes(&self) -> (r: [u8; 32])
        ensures
            r == self.bytes,
    {
        self.bytes
    }

    /// Compares two keys byte by byte.
    pub fn same_as(&self, other: &IdentityKey) -> (r: bool)
        ensures
            r == (*self == *other),
    {
        let mut i: usize = 0;
        while i < 32
            invariant
                0 <= i <= 32,
                forall|j: int| 0 <= j < i ==> self.bytes[j] == other.bytes[j],
            decreases 32 - i,
        {
            if self.bytes[i] != other.bytes[i] {
                return false;
            }
            i = i + 1;
        }
        assert(self.bytes =~= other.bytes);
        true
    }
}

impl PartialEq for IdentityKey {
    fn eq(&self, other: &IdentityKey) -> (r: bool) {
        self.same_as(other)
    }
}

impl vstd::std_specs::cmp::PartialEqSpecImpl for IdentityKey {
    open spec fn obeys_eq_spec() -> bool {
        true
    }

    open spec fn eq_spec(&self, other: &IdentityKey) -> bool {
        *self == *other
    }
}

/// Whether `key` occurs in `keys`.
pub fn contains_key(keys: &Vec<IdentityKey>, key: &IdentityKey) -> (r: bool)
    ensures
        r == keys@.contains(*key),
{
    let mut i: usize = 0;
    while i < keys.len()
        invariant
            0 <= i <= keys@.len(),
            forall|j: int| 0 <= j < i ==> keys@[j] != *key,
        decreases keys@.len() - i,
    {
        if keys[i].same_as(key) {
            assert(keys@[i as int] == *key);
            return true;
        }
        i = i + 1;
    }
    false
}

} // verus!
