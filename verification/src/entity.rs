//! Identity of an object in the render world.

use vstd::prelude::*;

verus! {

/// A generational identifier. Two entities are the same exactly when both the
/// index and the generation agree.
#[derive(Clone, Copy, Debug, PartialEq, Eq, Hash, Structural)]
pub struct Entity {
    pub index: u32,
    pub generation: u32,
}

impl Entity {
    /// The entity with the given index in its first generation.
    pub fn from_raw(index: u32) -> (entity: Entity)
        ensures
            entity == (Entity { index, generation: 0 }),
    {
        Entity { index, generation: 0 }
    }

    /// The entity as one number: the generation in the upper 32 bits, the
    /// index in the lower.
    pub open spec fn spec_to_bits(self) -> u64 {
        (self.generation * 0x1_0000_0000 + self.index) as u64
    }

    /// The entity that a number stands for.
    pub open spec fn spec_from_bits(bits: u64) -> Entity {
        Entity { index: (bits % 0x1_0000_0000) as u32, generation: (bits / 0x1_0000_0000) as u32 }
    }

    /// The entity as one number: the generation in the upper 32 bits, the
    /// index in the lower.
    pub fn to_bits(self) -> (bits: u64)
        ensures
            bits == self.spec_to_bits(),
            bits == self.generation * 0x1_0000_0000 + self.index,
    {
        (self.generation as u64) * 0x1_0000_0000 + (self.index as u64)
    }

    /// The entity that a number stands for.
    pub fn from_bits(bits: u64) -> (entity: Entity)
        ensures
            entity == Self::spec_from_bits(bits),
    {
        Entity { index: (bits % 0x1_0000_0000) as u32, generation: (bits / 0x1_0000_0000) as u32 }
    }
}

/// An entity and its number stand for each other: turning either into the
/// other and back changes nothing.
pub proof fn lemma_bits_round_trip(entity: Entity, bits: u64)
    ensures
        Entity::spec_from_bits(entity.spec_to_bits()) == entity,
        Entity::spec_from_bits(bits).spec_to_bits() == bits,
{
}

} // verus!
