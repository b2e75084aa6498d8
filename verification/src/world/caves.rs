//! Carving of caves into generated terrain.
//!
//! A block gives way to air where the cave density at its place is low. Near
//! the surface the density is raised, the more the higher the block lies, so
//! that caves stay below the ground. Liquid is never carved: a cave that
//! opened under it would leave the liquid hanging.

use vstd::prelude::*;
use crate::world::biomes::Biome;
use crate::world::chunk::BlockId;

verus! {

/// The world height up to which the cave density is not raised.
pub const DECAY_POINT: i32 = -32;

/// By how much the cave density is raised with each block above the decay
/// point: one in 64 blocks.
pub const DECAY_STEP: i64 = 15_625_000;

/// A block is carved where half the raised cave density is under this.
pub const CAVE_THRESHOLD: i64 = 2_000_000;

/// By how much the cave density is raised at world height `height`.
pub open spec fn cave_bias(height: int) -> int {
    if height > DECAY_POINT {
        (height - DECAY_POINT) * DECAY_STEP
    } else {
        0
    }
}

/// Whether a block at world height `height` gives way where the cave density
/// is `density`.
pub open spec fn is_carved(density: int, height: int) -> bool {
    density + cave_bias(height) < 2 * CAVE_THRESHOLD
}

/// The block that carving leaves of `block`.
pub open spec fn carved_block(block: BlockId, density: int, height: int, biome: Biome) -> BlockId {
    if is_carved(density, height) && !biome.is_liquid(block) {
        biome.air
    } else {
        block
    }
}

/// The blocks that carving leaves of the blocks of the chunk at world height
/// `chunk_y`. A block without a cave density stays.
pub open spec fn carved(
    blocks: Seq<BlockId>,
    densities: Seq<i64>,
    chunk_y: int,
    biome: Biome,
) -> Seq<BlockId> {
    Seq::new(
        blocks.len(),
        |i: int|
            if i < densities.len() {
                carved_block(blocks[i], densities[i] as int, chunk_y + i % 16, biome)
            } else {
                blocks[i]
            },
    )
}

/// Carving leaves liquid alone: whatever the cave density, a block of one
/// of the two liquids of the biome stays what it is.
pub proof fn lemma_liquid_is_not_carved(
    blocks: Seq<BlockId>,
    densities: Seq<i64>,
    chunk_y: int,
    biome: Biome,
    i: int,
)
    requires
        0 <= i < blocks.len(),
        biome.is_liquid(blocks[i]),
    ensures
        carved(blocks, densities, chunk_y, biome)[i] == blocks[i],
{
}

/// Carving only ever puts air: a block either stays or becomes air.
pub proof fn lemma_carving_puts_air(
    blocks: Seq<BlockId>,
    densities: Seq<i64>,
    chunk_y: int,
    biome: Biome,
    i: int,
)
    requires
        0 <= i < blocks.len(),
    ensures
        carved(blocks, densities, chunk_y, biome)[i] == blocks[i] || carved(
            blocks,
            densities,
            chunk_y,
            biome,
        )[i] == biome.air,
{
}

/// Whether a block at world height `height` gives way where the cave density
/// is `density`.
fn carves(density: i64, height: i64) -> (result: bool)
    requires
        -0x1_0000_0000 <= height <= 0x1_0000_0000,
    ensures
        result == is_carved(density as int, height as int),
{
    let bias: i128 = if height > DECAY_POINT as i64 {
        let above: i128 = height as i128 - DECAY_POINT as i128;
        assert(above * DECAY_STEP == above * 15_625_000);
        above * (DECAY_STEP as i128)
    } else {
        0
    };
    density as i128 + bias < 2 * (CAVE_THRESHOLD as i128)
}

/// Replaces by air every block that gives way, but for the liquids of the
/// biome.
pub fn carve(blocks: &mut Vec<BlockId>, densities: &Vec<i64>, chunk_y: i32, biome: &Biome)
    ensures
        final(blocks)@ == carved(old(blocks)@, densities@, chunk_y as int, *biome),
{
    let mut i: usize = 0;
    while i < blocks.len() && i < densities.len()
        invariant
            blocks.len() == old(blocks).len(),
            i <= blocks.len(),
            forall|j: int|
                0 <= j < i ==> #[trigger] blocks[j] == carved(
                    old(blocks)@,
                    densities@,
                    chunk_y as int,
                    *biome,
                )[j],
            forall|j: int| i <= j < blocks.len() ==> #[trigger] blocks[j] == old(blocks)[j],
        decreases blocks.len() - i,
    {
        let height: i64 = chunk_y as i64 + (i % 16) as i64;
        let block = blocks[i];
        if carves(densities[i], height) && block != biome.surface_liquid && block
            != biome.sub_surface_liquid {
            blocks[i] = biome.air;
        }
        i += 1;
    }
    assert(blocks@ =~= carved(old(blocks)@, densities@, chunk_y as int, *biome));
}

} // verus!
