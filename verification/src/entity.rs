use vstd::prelude::*;

verus! {

/// An engine entity, identified by the 64-bit value that the engine packs its
/// index and generation into. Two entities are the same entity exactly when
/// these values are equal.
#[derive(Clone, Copy, Debug, PartialEq, Eq, Structural, Hash)]
pub struct EntityId {
    pub bits: u64,
}

impl EntityId {
    pub fn from_bits(bits: u64) -> (e: EntityId)
        ensures
            e.bits == bits,
    {
        EntityId { bits }
    }

    pub fn to_bits(&self) -> (b: u64)
        ensures
            b == self.bits,
    {
        self.bits
    }
}

} // verus!
