//! Turns a volume of densities into blocks, one column at a time.
//!
//! A cell is solid where its density is positive. What a solid cell is made
//! of depends on how many solid cells lie directly above it, so every column
//! is scanned from the top, and the solid cells are counted on the way. The
//! scan begins in the halo above the chunk: the ground is layered at most
//! three blocks deep, the halo is higher than that, and so the blocks of a
//! chunk do not depend on how the world is cut into chunks.

use vstd::prelude::*;
use crate::world::biomes::{Biome, BlockRole};
use crate::world::chunk::{BlockId, CHUNK_SIZE, CHUNK_VOLUME};
use crate::world::density::{as_ints, volume_index, HALO_HEIGHT, VOLUME_HEIGHT, VOLUME_LEN};

verus! {

/// The densities of the column at `(x, z)`, lowest first.
pub open spec fn column(volume: Seq<int>, x: int, z: int) -> Seq<int> {
    volume.subrange(volume_index(x, 0, z), volume_index(x, 0, z) + 24)
}

/// The depth counter below a cell that is not solid: liquid counts as one
/// layer, open air as none.
pub open spec fn open_layer(height: int) -> nat {
    if height <= 0 {
        1
    } else {
        0
    }
}

/// The depth counter after the cells of a column from the top of the volume
/// down to `y` were scanned: the number of solid cells since the last cell
/// that was not solid, and one more if that cell holds liquid. The count
/// begins at the top of the volume.
pub open spec fn layer_below(column: Seq<int>, chunk_y: int, y: int) -> nat
    decreases VOLUME_HEIGHT - y,
{
    if y >= VOLUME_HEIGHT {
        0
    } else if column[y] > 0 {
        layer_below(column, chunk_y, y + 1) + 1
    } else {
        open_layer(chunk_y + y)
    }
}

/// The role of a solid cell at world height `height` where the depth counter
/// is `layer`: the top block where nothing solid lies on it, the two blocks
/// under it in the middle, bottom blocks from there on. Below world height
/// two, at the level of the sea and under it, sand takes the place of all of
/// them.
pub open spec fn solid_role(height: int, layer: nat) -> BlockRole {
    if height < 2 {
        BlockRole::Sand
    } else if layer == 0 {
        BlockRole::Top
    } else if layer < 3 {
        BlockRole::Mid
    } else {
        BlockRole::Bottom
    }
}

/// The role of a cell that is not solid.
pub open spec fn open_role(height: int) -> BlockRole {
    if height == 0 {
        BlockRole::SurfaceLiquid
    } else if height < 0 {
        BlockRole::SubSurfaceLiquid
    } else {
        BlockRole::Air
    }
}

/// The role of the cell `y` of a column whose lowest cell is at world height
/// `chunk_y`.
pub open spec fn role_at(column: Seq<int>, chunk_y: int, y: int) -> BlockRole {
    if column[y] > 0 {
        solid_role(chunk_y + y, layer_below(column, chunk_y, y + 1))
    } else {
        open_role(chunk_y + y)
    }
}

/// The blocks of the chunk at world height `chunk_y` whose densities are
/// `volume`, in the order in which a chunk stores them.
pub open spec fn terrain_blocks(volume: Seq<int>, chunk_y: int, biome: Biome) -> Seq<BlockId> {
    Seq::new(
        CHUNK_VOLUME as nat,
        |i: int| biome.block_of(role_at(column(volume, i / 256, (i / 16) % 16), chunk_y, i % 16)),
    )
}

/// How deep under the surface a solid block of a role lies: the top block
/// first, the bottom blocks last. Sand, which goes by the height alone, has
/// no place in this order, nor has a cell that is not solid.
pub open spec fn depth_rank(role: BlockRole) -> Option<nat> {
    match role {
        BlockRole::Top => Some(0nat),
        BlockRole::Mid => Some(1nat),
        BlockRole::Bottom => Some(2nat),
        _ => None,
    }
}

/// Whether the cells of a column from `lower` up to `upper` are all solid.
pub open spec fn solid_run(column: Seq<int>, lower: int, upper: int) -> bool {
    forall|y: int| lower <= y <= upper ==> column[y] > 0
}

/// Down a run of solid cells the depth counter grows by one with each cell.
pub proof fn lemma_layer_grows(column: Seq<int>, chunk_y: int, lower: int, upper: int)
    requires
        0 <= lower <= upper < VOLUME_HEIGHT,
        solid_run(column, lower, upper),
    ensures
        layer_below(column, chunk_y, lower) == layer_below(column, chunk_y, upper + 1) + (upper
            + 1 - lower),
    decreases upper - lower,
{
    if lower < upper {
        lemma_layer_grows(column, chunk_y, lower + 1, upper);
    }
}

/// Layers are ordered: under a bottom block, no top block follows in the
/// same run of solid cells.
pub proof fn lemma_no_top_under_bottom(column: Seq<int>, chunk_y: int, lower: int, upper: int)
    requires
        0 <= lower < upper < VOLUME_HEIGHT,
        solid_run(column, lower, upper),
        role_at(column, chunk_y, upper) == BlockRole::Bottom,
    ensures
        role_at(column, chunk_y, lower) != BlockRole::Top,
{
    lemma_layer_grows(column, chunk_y, lower + 1, upper);
}

/// Down a run of solid cells the roles only get deeper: where both an upper
/// and a lower cell have a place in the order of depth, the lower cell does
/// not come before the upper one.
pub proof fn lemma_roles_deepen(column: Seq<int>, chunk_y: int, lower: int, upper: int)
    requires
        0 <= lower < upper < VOLUME_HEIGHT,
        solid_run(column, lower, upper),
        depth_rank(role_at(column, chunk_y, lower)) is Some,
        depth_rank(role_at(column, chunk_y, upper)) is Some,
    ensures
        depth_rank(role_at(column, chunk_y, lower))->0 >= depth_rank(
            role_at(column, chunk_y, upper),
        )->0,
        depth_rank(role_at(column, chunk_y, lower))->0 >= 1,
{
    lemma_layer_grows(column, chunk_y, lower + 1, upper);
}

/// Whether two columns of densities, the lowest cells of which lie at the
/// world heights `first_y` and `second_y`, show the same part of the world
/// wherever they overlap.
pub open spec fn same_world(
    first: Seq<int>,
    first_y: int,
    second: Seq<int>,
    second_y: int,
) -> bool {
    &&& first.len() == VOLUME_HEIGHT
    &&& second.len() == VOLUME_HEIGHT
    &&& forall|y1: int, y2: int|
        0 <= y1 < VOLUME_HEIGHT && 0 <= y2 < VOLUME_HEIGHT && first_y + y1 == second_y + y2
            ==> #[trigger] first[y1] == #[trigger] second[y2]
}

/// The smaller of a depth counter and a bound.
pub open spec fn at_most(layer: nat, bound: nat) -> nat {
    if layer < bound {
        layer
    } else {
        bound
    }
}

/// Two scans of the same world agree on the depth counter at a world height
/// as far as both columns reach above it.
pub proof fn lemma_counts_agree(
    first: Seq<int>,
    first_y: int,
    second: Seq<int>,
    second_y: int,
    height: int,
    reach: nat,
)
    requires
        same_world(first, first_y, second, second_y),
        first_y <= height,
        second_y <= height,
        height + reach <= first_y + VOLUME_HEIGHT,
        height + reach <= second_y + VOLUME_HEIGHT,
    ensures
        at_most(layer_below(first, first_y, height - first_y), reach) == at_most(
            layer_below(second, second_y, height - second_y),
            reach,
        ),
    decreases reach,
{
    if reach > 0 {
        assert(first[height - first_y] == second[height - second_y]);
        lemma_counts_agree(first, first_y, second, second_y, height + 1, (reach - 1) as nat);
    }
}

/// The blocks of the world do not depend on how it is cut into chunks: a
/// cell that lies in the chunks of two volumes which show the same world has
/// the same role in both.
pub proof fn lemma_roles_do_not_depend_on_the_cut(
    first: Seq<int>,
    first_y: int,
    second: Seq<int>,
    second_y: int,
    height: int,
)
    requires
        same_world(first, first_y, second, second_y),
        first_y <= height < first_y + CHUNK_SIZE,
        second_y <= height < second_y + CHUNK_SIZE,
    ensures
        role_at(first, first_y, height - first_y) == role_at(second, second_y, height - second_y),
{
    assert(first[height - first_y] == second[height - second_y]);
    lemma_counts_agree(first, first_y, second, second_y, height + 1, 3);
}

/// Liquid keeps to its levels: the surface of the liquid lies at world height
/// zero and nowhere else, and all other liquid lies below it.
pub proof fn lemma_liquid_levels(column: Seq<int>, chunk_y: int, y: int)
    ensures
        role_at(column, chunk_y, y) == BlockRole::SurfaceLiquid ==> chunk_y + y == 0,
        role_at(column, chunk_y, y) == BlockRole::SubSurfaceLiquid ==> chunk_y + y < 0,
        column[y] <= 0 && chunk_y + y == 0 ==> role_at(column, chunk_y, y)
            == BlockRole::SurfaceLiquid,
        column[y] <= 0 && chunk_y + y < 0 ==> role_at(column, chunk_y, y)
            == BlockRole::SubSurfaceLiquid,
{
}

/// In the terrain of a biome that uses the block of its liquid surface for
/// nothing else, that block lies at world height zero and nowhere else.
pub proof fn lemma_surface_liquid_at_sea_level(
    volume: Seq<int>,
    chunk_y: int,
    biome: Biome,
    i: int,
)
    requires
        0 <= i < CHUNK_VOLUME,
        forall|role: BlockRole|
            role != BlockRole::SurfaceLiquid ==> #[trigger] biome.block_of(role)
                != biome.surface_liquid,
        terrain_blocks(volume, chunk_y, biome)[i] == biome.surface_liquid,
    ensures
        chunk_y + i % 16 == 0,
{
    let cells = column(volume, i / 256, (i / 16) % 16);
    lemma_liquid_levels(cells, chunk_y, i % 16);
}

/// In the terrain of a biome that uses the block of its deep liquid for
/// nothing else, that block lies below world height zero.
pub proof fn lemma_sub_surface_liquid_below_sea_level(
    volume: Seq<int>,
    chunk_y: int,
    biome: Biome,
    i: int,
)
    requires
        0 <= i < CHUNK_VOLUME,
        forall|role: BlockRole|
            role != BlockRole::SubSurfaceLiquid ==> #[trigger] biome.block_of(role)
                != biome.sub_surface_liquid,
        terrain_blocks(volume, chunk_y, biome)[i] == biome.sub_surface_liquid,
    ensures
        chunk_y + i % 16 < 0,
{
    let cells = column(volume, i / 256, (i / 16) % 16);
    lemma_liquid_levels(cells, chunk_y, i % 16);
}

/// Where no cell of a volume is solid, the terrain above sea level is
/// nothing but air.
pub proof fn lemma_open_volume_is_air(volume: Seq<int>, chunk_y: int, biome: Biome)
    requires
        volume.len() == VOLUME_LEN,
        forall|i: int| 0 <= i < volume.len() ==> volume[i] <= 0,
        chunk_y > 0,
    ensures
        forall|i: int|
            0 <= i < CHUNK_VOLUME ==> #[trigger] terrain_blocks(volume, chunk_y, biome)[i]
                == biome.air,
{
    assert forall|i: int| 0 <= i < CHUNK_VOLUME implies #[trigger] terrain_blocks(
        volume,
        chunk_y,
        biome,
    )[i] == biome.air by {
        let (x, z, y) = (i / 256, (i / 16) % 16, i % 16);
        let cells = column(volume, x, z);
        assert(cells[y] == volume[volume_index(x, 0, z) + y]);
    }
}

/// The depth counter with which the scan of the column at `(x, z)` enters
/// the chunk.
fn scan_halo(volume: &Vec<i128>, chunk_y: i32, x: usize, z: usize) -> (layer: u32)
    requires
        volume.len() == VOLUME_LEN,
        x < CHUNK_SIZE,
        z < CHUNK_SIZE,
    ensures
        layer == layer_below(
            column(as_ints(volume@), x as int, z as int),
            chunk_y as int,
            CHUNK_SIZE as int,
        ),
        layer <= HALO_HEIGHT,
{
    let base: usize = x * 384 + z * 24;
    let ghost cells = column(as_ints(volume@), x as int, z as int);
    let mut layer: u32 = 0;
    let mut y: usize = VOLUME_HEIGHT;
    while y > CHUNK_SIZE
        invariant
            CHUNK_SIZE <= y <= VOLUME_HEIGHT,
            volume.len() == VOLUME_LEN,
            base == volume_index(x as int, 0, z as int),
            base + VOLUME_HEIGHT <= VOLUME_LEN,
            cells == column(as_ints(volume@), x as int, z as int),
            layer == layer_below(cells, chunk_y as int, y as int),
            layer <= VOLUME_HEIGHT - y,
        decreases y,
    {
        y -= 1;
        assert(cells[y as int] == volume[base + y]);
        if volume[base + y] > 0 {
            layer += 1;
        } else if chunk_y as i64 + y as i64 <= 0 {
            layer = 1;
        } else {
            layer = 0;
        }
    }
    layer
}

/// Gives every block of the column at `(x, z)` its id, from the top down.
fn materialize_column(
    volume: &Vec<i128>,
    chunk_y: i32,
    biome: &Biome,
    x: usize,
    z: usize,
    blocks: &mut Vec<BlockId>,
)
    requires
        volume.len() == VOLUME_LEN,
        old(blocks).len() == CHUNK_VOLUME,
        x < CHUNK_SIZE,
        z < CHUNK_SIZE,
    ensures
        final(blocks).len() == CHUNK_VOLUME,
        forall|i: int|
            x * 256 + z * 16 <= i < x * 256 + z * 16 + 16 ==> #[trigger] final(blocks)[i]
                == terrain_blocks(as_ints(volume@), chunk_y as int, *biome)[i],
        forall|i: int|
            0 <= i < CHUNK_VOLUME && !(x * 256 + z * 16 <= i < x * 256 + z * 16 + 16)
                ==> #[trigger] final(blocks)[i] == old(blocks)[i],
{
    let base: usize = x * 384 + z * 24;
    let first: usize = x * 256 + z * 16;
    let ghost cells = column(as_ints(volume@), x as int, z as int);
    let mut layer: u32 = scan_halo(volume, chunk_y, x, z);
    let mut y: usize = CHUNK_SIZE;
    while y > 0
        invariant
            y <= CHUNK_SIZE,
            x < CHUNK_SIZE,
            z < CHUNK_SIZE,
            volume.len() == VOLUME_LEN,
            blocks.len() == CHUNK_VOLUME,
            base == volume_index(x as int, 0, z as int),
            first == x * 256 + z * 16,
            cells == column(as_ints(volume@), x as int, z as int),
            layer == layer_below(cells, chunk_y as int, y as int),
            layer <= VOLUME_HEIGHT - y,
            forall|i: int|
                first + y <= i < first + 16 ==> #[trigger] blocks[i] == terrain_blocks(
                    as_ints(volume@),
                    chunk_y as int,
                    *biome,
                )[i],
            forall|i: int|
                0 <= i < CHUNK_VOLUME && !(first <= i < first + 16) ==> #[trigger] blocks[i]
                    == old(blocks)[i],
        decreases y,
    {
        y -= 1;
        let height: i64 = chunk_y as i64 + y as i64;
        let ghost above = layer;
        assert(cells[y as int] == volume[base + y]);
        let role = if volume[base + y] > 0 {
            let role = if height < 2 {
                BlockRole::Sand
            } else if layer == 0 {
                BlockRole::Top
            } else if layer < 3 {
                BlockRole::Mid
            } else {
                BlockRole::Bottom
            };
            layer += 1;
            role
        } else if height == 0 {
            layer = 1;
            BlockRole::SurfaceLiquid
        } else if height < 0 {
            layer = 1;
            BlockRole::SubSurfaceLiquid
        } else {
            layer = 0;
            BlockRole::Air
        };
        assert(role == role_at(cells, chunk_y as int, y as int)) by {
            assert(above == layer_below(cells, chunk_y as int, y + 1));
        }
        let index: usize = first + y;
        let block = biome.block(role);
        assert(block == terrain_blocks(as_ints(volume@), chunk_y as int, *biome)[index as int]) by {
            assert(index / 256 == x && (index / 16) % 16 == z && index % 16 == y);
        }
        blocks[index] = block;
    }
}

/// Gives every block of a chunk its id.
///
/// `volume` holds the density of each cell of the chunk and of the halo above
/// it, and `chunk_y` is the world height of the lowest blocks of the chunk.
pub fn materialize(volume: &Vec<i128>, chunk_y: i32, biome: &Biome) -> (blocks: Vec<BlockId>)
    requires
        volume.len() == VOLUME_LEN,
    ensures
        blocks@ == terrain_blocks(as_ints(volume@), chunk_y as int, *biome),
{
    let mut blocks: Vec<BlockId> = vec![0; CHUNK_VOLUME];
    let mut x: usize = 0;
    while x < CHUNK_SIZE
        invariant
            x <= CHUNK_SIZE,
            volume.len() == VOLUME_LEN,
            blocks.len() == CHUNK_VOLUME,
            forall|i: int|
                0 <= i < x * 256 ==> #[trigger] blocks[i] == terrain_blocks(
                    as_ints(volume@),
                    chunk_y as int,
                    *biome,
                )[i],
        decreases CHUNK_SIZE - x,
    {
        let mut z: usize = 0;
        while z < CHUNK_SIZE
            invariant
                x < CHUNK_SIZE,
                z <= CHUNK_SIZE,
                volume.len() == VOLUME_LEN,
                blocks.len() == CHUNK_VOLUME,
                forall|i: int|
                    0 <= i < x * 256 + z * 16 ==> #[trigger] blocks[i] == terrain_blocks(
                        as_ints(volume@),
                        chunk_y as int,
                        *biome,
                    )[i],
            decreases CHUNK_SIZE - z,
        {
            materialize_column(volume, chunk_y, biome, x, z, &mut blocks);
            z += 1;
        }
        x += 1;
    }
    assert(blocks@ =~= terrain_blocks(as_ints(volume@), chunk_y as int, *biome));
    blocks
}

} // verus!
