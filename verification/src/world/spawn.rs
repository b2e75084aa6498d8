//! The search for a place where a player can stand.

use vstd::prelude::*;
use crate::world::chunk::{BlockId, Chunk, CHUNK_SIZE, CHUNK_VOLUME};

verus! {

/// Whether a player can stand in the block stored at `i`: whether it and the
/// block above it, in the same column, are air.
pub open spec fn is_spawn_point(blocks: Seq<BlockId>, air: BlockId, i: int) -> bool {
    &&& 0 <= i
    &&& i + 1 < blocks.len()
    &&& i % 16 < 15
    &&& blocks[i] == air
    &&& blocks[i + 1] == air
}

/// Where in a chunk a player can stand: the first block, in the order in
/// which the chunk stores its blocks, that is air and has air above it.
/// There is none in a chunk without two blocks of air on top of each other.
pub fn find_spawn_point(chunk: &Chunk, air: BlockId) -> (point: Option<usize>)
    requires
        chunk.wf(),
    ensures
        point matches Some(i) ==> is_spawn_point(chunk.blocks(), air, i as int),
        point matches Some(i) ==> forall|j: int|
            0 <= j < i ==> !is_spawn_point(chunk.blocks(), air, j),
        point is None ==> forall|j: int| !is_spawn_point(chunk.blocks(), air, j),
{
    match chunk {
        Chunk::Uniform(block) => {
            if *block == air {
                Some(0)
            } else {
                None
            }
        },
        Chunk::Dense(blocks) => {
            let mut i: usize = 0;
            while i < CHUNK_VOLUME - 1
                invariant
                    i < CHUNK_VOLUME,
                    blocks.len() == CHUNK_VOLUME,
                    chunk.blocks() == blocks@,
                    forall|j: int| 0 <= j < i ==> !is_spawn_point(blocks@, air, j),
                decreases CHUNK_VOLUME - i,
            {
                if i % CHUNK_SIZE < 15 && blocks[i] == air && blocks[i + 1] == air {
                    return Some(i);
                }
                i += 1;
            }
            None
        },
    }
}

} // verus!
