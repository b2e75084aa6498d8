use vstd::prelude::*;

verus! {

/// Identifies a kind of block in the block registry.
pub type BlockId = u16;

/// Edge length of a chunk, in blocks.
pub const CHUNK_SIZE: usize = 16;

/// Number of blocks in a chunk.
pub const CHUNK_VOLUME: usize = 4096;

/// World position of the corner of a chunk with the smallest coordinates.
#[derive(Clone, Copy, Debug, PartialEq, Eq, Structural)]
pub struct ChunkPosition {
    pub x: i32,
    pub y: i32,
    pub z: i32,
}

/// Where the block at the chunk-local position `(x, y, z)` is stored: blocks
/// of one column are adjacent, lowest first.
pub open spec fn block_index(x: int, y: int, z: int) -> int {
    x * 256 + z * 16 + y
}

/// A cube of blocks, either stored block by block or as the one block that
/// fills it.
#[derive(Clone, Debug, PartialEq, Eq)]
pub enum Chunk {
    Uniform(BlockId),
    Dense(Vec<BlockId>),
}

impl Chunk {
    /// A dense chunk holds exactly one id per block.
    pub open spec fn wf(&self) -> bool {
        match self {
            Chunk::Uniform(_) => true,
            Chunk::Dense(blocks) => blocks@.len() == CHUNK_VOLUME,
        }
    }

    /// The block of every cell, whatever the representation.
    pub open spec fn blocks(&self) -> Seq<BlockId> {
        match self {
            Chunk::Uniform(block) => Seq::new(CHUNK_VOLUME as nat, |i: int| *block),
            Chunk::Dense(blocks) => blocks@,
        }
    }

    /// Whether the chunk is stored as the one block that fills it.
    pub fn is_uniform(&self) -> (result: bool)
        ensures
            result == (self is Uniform),
    {
        match self {
            Chunk::Uniform(_) => true,
            Chunk::Dense(_) => false,
        }
    }

    /// Fills the chunk with one block.
    pub fn make_uniform(&mut self, block: BlockId)
        ensures
            *final(self) == Chunk::Uniform(block),
    {
        *self = Chunk::Uniform(block);
    }

    /// The block at the chunk-local position `(x, y, z)`.
    pub fn get(&self, x: usize, y: usize, z: usize) -> (block: BlockId)
        requires
            self.wf(),
            x < CHUNK_SIZE,
            y < CHUNK_SIZE,
            z < CHUNK_SIZE,
        ensures
            block == self.blocks()[block_index(x as int, y as int, z as int)],
    {
        match self {
            Chunk::Uniform(block) => *block,
            Chunk::Dense(blocks) => blocks[x * 256 + z * 16 + y],
        }
    }
}

} // verus!
