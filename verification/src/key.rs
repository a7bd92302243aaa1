use vstd::prelude::*;

verus! {

/// A 32-byte account address, held as two halves.
#[derive(Clone, Copy, Debug, PartialEq, Eq, Structural)]
pub struct Key {
    pub hi: u128,
    pub lo: u128,
}

impl Key {
    pub fn new(hi: u128, lo: u128) -> (key: Key)
        ensures
            key == (Key { hi, lo }),
    {
        Key { hi, lo }
    }

    /// Whether two addresses are the same address.
    pub fn same(&self, other: &Key) -> (same: bool)
        ensures
            same == (*self == *other),
    {
        self.hi == other.hi && self.lo == other.lo
    }
}

} // verus!
