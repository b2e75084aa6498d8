use vstd::prelude::*;
use crate::world::chunk::BlockId;

verus! {

/// What a cell of generated terrain is, before a biome gives it a block.
#[derive(Clone, Copy, Debug, PartialEq, Eq, Structural)]
pub enum BlockRole {
    /// Open space above sea level.
    Air,
    /// The liquid surface, at world height zero.
    SurfaceLiquid,
    /// Liquid below the surface.
    SubSurfaceLiquid,
    /// The first solid block under open space.
    Top,
    /// The solid blocks right under the top block.
    Mid,
    /// Solid blocks deep under the surface.
    Bottom,
    /// Solid blocks at the level of the sea and under it.
    Sand,
}

/// An index into the host's table of structure blueprints.
pub type BlueprintId = u32;

/// The blocks a biome is made of, and the structures that grow in it.
#[derive(Clone, Debug, PartialEq, Eq)]
pub struct Biome {
    pub top_layer_block: BlockId,
    pub mid_layer_block: BlockId,
    pub bottom_layer_block: BlockId,
    pub sand: BlockId,
    pub surface_liquid: BlockId,
    pub sub_surface_liquid: BlockId,
    pub air: BlockId,
    /// Structures to place, in the order in which they are placed.
    pub blueprints: Vec<BlueprintId>,
}

impl Biome {
    /// The block that the biome uses for a role.
    pub open spec fn block_of(&self, role: BlockRole) -> BlockId {
        match role {
            BlockRole::Air => self.air,
            BlockRole::SurfaceLiquid => self.surface_liquid,
            BlockRole::SubSurfaceLiquid => self.sub_surface_liquid,
            BlockRole::Top => self.top_layer_block,
            BlockRole::Mid => self.mid_layer_block,
            BlockRole::Bottom => self.bottom_layer_block,
            BlockRole::Sand => self.sand,
        }
    }

    /// The block that the biome uses for a role.
    pub fn block(&self, role: BlockRole) -> (block: BlockId)
        ensures
            block == self.block_of(role),
    {
        match role {
            BlockRole::Air => self.air,
            BlockRole::SurfaceLiquid => self.surface_liquid,
            BlockRole::SubSurfaceLiquid => self.sub_surface_liquid,
            BlockRole::Top => self.top_layer_block,
            BlockRole::Mid => self.mid_layer_block,
            BlockRole::Bottom => self.bottom_layer_block,
            BlockRole::Sand => self.sand,
        }
    }

    /// Whether a block is one of the biome's two liquids.
    pub open spec fn is_liquid(&self, block: BlockId) -> bool {
        block == self.surface_liquid || block == self.sub_surface_liquid
    }
}

} // verus!
