//! Placement of structures in a generated chunk.
//!
//! The structures of a biome are placed one after the other, each on what
//! the ones before it left, with random numbers from a generator that is
//! seeded for the chunk. The host holds the blueprints and the generator;
//! the seed and the order come from here.

use vstd::prelude::*;
use crate::world::biomes::BlueprintId;

verus! {

/// What the host needs to place the structures of a chunk.
#[derive(Clone, Debug, PartialEq, Eq)]
pub struct FeaturePlan {
    /// The seed of the generator of random numbers.
    pub seed: u64,
    /// The blueprints to construct, first to last.
    pub blueprints: Vec<BlueprintId>,
}

/// The 32 bits of a coordinate, read as a number without sign.
pub open spec fn unsigned(coordinate: i32) -> int {
    if coordinate < 0 {
        coordinate + 0x1_0000_0000
    } else {
        coordinate as int
    }
}

/// The seed of the chunks in the column at `(x, z)` of a world: `x` in the
/// high half and `z` in the low half of 64 bits, times the seed of the
/// world, of which the low 64 bits are kept.
pub open spec fn chunk_seed(seed: u64, x: i32, z: i32) -> u64 {
    (((unsigned(x) * 0x1_0000_0000 + unsigned(z)) * seed) % 0x1_0000_0000_0000_0000) as u64
}

/// The seed of the chunks in the column at `(x, z)` of the world with the
/// seed `seed`.
pub fn seed_of_chunk(seed: u64, x: i32, z: i32) -> (result: u64)
    ensures
        result == chunk_seed(seed, x, z),
{
    let high: u64 = (#[verifier::truncate] (x as u32)) as u64;
    let low: u64 = (#[verifier::truncate] (z as u32)) as u64;
    assert(high == unsigned(x)) by (bit_vector)
        requires
            high == x as u32 as u64,
    ;
    assert(low == unsigned(z)) by (bit_vector)
        requires
            low == z as u32 as u64,
    ;
    let position: u64 = high << 32 | low;
    assert(position == high * 0x1_0000_0000 + low) by (bit_vector)
        requires
            position == high << 32 | low,
            high < 0x1_0000_0000,
            low < 0x1_0000_0000,
    ;
    position.wrapping_mul(seed)
}

} // verus!
