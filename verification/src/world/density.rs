//! Samples of the noise fields of a world, and the densities they give.
//!
//! The terrain shape is sampled on a coarse lattice: one sample every four
//! blocks along the horizontal axes and every eight blocks along the vertical
//! axis. The lattice has one sample more than the chunk needs along each
//! horizontal axis and two more along the vertical axis, so that every block
//! of the chunk and of the halo above it lies between eight samples.

use vstd::prelude::*;
use vstd::arithmetic::div_mod::lemma_div_is_ordered;
use vstd::arithmetic::div_mod::lemma_div_nonincreasing;
use vstd::arithmetic::div_mod::lemma_div_pos_is_pos;
use crate::world::chunk::ChunkPosition;
use crate::world::noise::UNIT;

verus! {

/// Number of blocks between two samples along a horizontal axis.
pub const WIDTH_FACTOR: usize = 4;

/// Number of blocks between two samples along the vertical axis.
pub const HEIGHT_FACTOR: usize = 8;

/// Number of samples along each horizontal axis.
pub const LATTICE_WIDTH: usize = 5;

/// Number of samples along the vertical axis.
pub const LATTICE_HEIGHT: usize = 4;

/// Number of samples in a lattice.
pub const LATTICE_LEN: usize = 100;

/// Number of columns of samples in a lattice.
pub const LATTICE_COLUMNS: usize = 25;

/// How much the density decreases with each block above the base height,
/// where the terrain height is one.
pub const DECREMENT: i64 = 15_000_000;

/// The least terrain height that a density is divided by.
pub const MIN_TERRAIN_HEIGHT: i64 = 1_000_000;

/// The largest magnitude of a density on the lattice.
pub const DENSITY_LIMIT: i128 = 0x1_0000_0000_0000_0000_0000_0000_0;

/// Number of cells above a chunk whose density is known when it is generated.
pub const HALO_HEIGHT: usize = 8;

/// Height of a density volume: the chunk and the cells above it.
pub const VOLUME_HEIGHT: usize = 24;

/// Number of densities in a volume.
pub const VOLUME_LEN: usize = 6144;

/// Where the sample at the lattice position `(x, y, z)` is stored: the
/// samples of one column are adjacent, lowest first.
pub open spec fn lattice_index(x: int, y: int, z: int) -> int {
    x * 20 + z * 4 + y
}

/// Where the density of the cell at `(x, y, z)` is stored in a volume: the
/// cells of one column are adjacent, lowest first.
pub open spec fn volume_index(x: int, y: int, z: int) -> int {
    x * 384 + z * 24 + y
}

/// The numbers that a vector of densities holds.
pub open spec fn as_ints(values: Seq<i128>) -> Seq<int> {
    values.map_values(|value: i128| value as int)
}

/// The quotient of `x` by the positive number `d`, rounded towards zero.
pub open spec fn toward_zero(x: int, d: int) -> int {
    if x >= 0 {
        x / d
    } else {
        -((-x) / d)
    }
}

/// The part of noise space that the lattice of a chunk covers: `width`,
/// `height` and `depth` samples along x, y and z, one unit apart, the first
/// at `(x, y, z)`.
#[derive(Clone, Copy, Debug, PartialEq, Eq, Structural)]
pub struct SampleGrid {
    pub x: i32,
    pub y: i32,
    pub z: i32,
    pub width: usize,
    pub height: usize,
    pub depth: usize,
}

impl SampleGrid {
    /// The grid of the chunk at `position`.
    pub open spec fn of(position: ChunkPosition) -> SampleGrid {
        SampleGrid {
            x: toward_zero(position.x as int, WIDTH_FACTOR as int) as i32,
            y: toward_zero(position.y as int, HEIGHT_FACTOR as int) as i32,
            z: toward_zero(position.z as int, WIDTH_FACTOR as int) as i32,
            width: LATTICE_WIDTH,
            height: LATTICE_HEIGHT,
            depth: LATTICE_WIDTH,
        }
    }

    /// The grid on which the noise fields are sampled for the chunk at
    /// `position`.
    pub fn for_chunk(position: ChunkPosition) -> (grid: SampleGrid)
        ensures
            grid == SampleGrid::of(position),
    {
        SampleGrid {
            x: position.x / 4,
            y: position.y / 8,
            z: position.z / 4,
            width: LATTICE_WIDTH,
            height: LATTICE_HEIGHT,
            depth: LATTICE_WIDTH,
        }
    }
}

/// What the noise fields of a world are on the lattice of one chunk, as
/// fixed-point numbers with `UNIT` steps to one.
#[derive(Clone, Debug, PartialEq, Eq)]
pub struct TerrainSamples {
    /// The terrain shape at every sample of the lattice.
    pub terrain_shape: Vec<i64>,
    /// The continents at every column of the lattice.
    pub base_height: Vec<i64>,
    /// The terrain height at every column of the lattice.
    pub terrain_height: Vec<i64>,
}

impl TerrainSamples {
    /// Every field has one value for each of its samples.
    pub open spec fn wf(&self) -> bool {
        &&& self.terrain_shape@.len() == LATTICE_LEN
        &&& self.base_height@.len() == LATTICE_COLUMNS
        &&& self.terrain_height@.len() == LATTICE_COLUMNS
    }

    /// Puts the samples of the three fields together, if there is the right
    /// number of each.
    pub fn new(
        terrain_shape: Vec<i64>,
        base_height: Vec<i64>,
        terrain_height: Vec<i64>,
    ) -> (samples: Option<TerrainSamples>)
        ensures
            samples is Some <==> terrain_shape@.len() == LATTICE_LEN && base_height@.len()
                == LATTICE_COLUMNS && terrain_height@.len() == LATTICE_COLUMNS,
            samples is Some ==> {
                &&& samples->0.wf()
                &&& samples->0.terrain_shape == terrain_shape
                &&& samples->0.base_height == base_height
                &&& samples->0.terrain_height == terrain_height
            },
    {
        if terrain_shape.len() == LATTICE_LEN && base_height.len() == LATTICE_COLUMNS
            && terrain_height.len() == LATTICE_COLUMNS {
            Some(TerrainSamples { terrain_shape, base_height, terrain_height })
        } else {
            None
        }
    }
}

/// How much the density at world height `height` is lowered, where the
/// terrain has the base height `base_height` and the height `terrain_height`.
///
/// It grows with the height above the base, the slower the higher the
/// terrain is. Under the base it is negative, and four times as steep. A
/// terrain height under `MIN_TERRAIN_HEIGHT` counts as that.
pub open spec fn compression(height: int, base_height: int, terrain_height: int) -> int {
    let scale = if terrain_height < MIN_TERRAIN_HEIGHT {
        MIN_TERRAIN_HEIGHT as int
    } else {
        terrain_height
    };
    let above = toward_zero((height * UNIT - base_height) * DECREMENT, scale);
    if above < 0 {
        4 * above
    } else {
        above
    }
}

/// The density at the sample `i` of the lattice of the chunk at world height
/// `chunk_y`.
pub open spec fn density_at(samples: TerrainSamples, chunk_y: int, i: int) -> int {
    samples.terrain_shape[i] - compression(
        chunk_y + HEIGHT_FACTOR * (i % 4),
        samples.base_height[i / 4] as int,
        samples.terrain_height[i / 4] as int,
    )
}

/// The densities on the lattice of the chunk at world height `chunk_y`.
pub open spec fn lattice_densities(samples: TerrainSamples, chunk_y: int) -> Seq<int> {
    Seq::new(LATTICE_LEN as nat, |i: int| density_at(samples, chunk_y, i))
}

/// Rounding towards zero keeps the order: of two numbers, the greater has no
/// lesser quotient.
pub proof fn lemma_toward_zero_is_ordered(x: int, y: int, d: int)
    requires
        x <= y,
        0 < d,
    ensures
        toward_zero(x, d) <= toward_zero(y, d),
{
    if x >= 0 {
        lemma_div_is_ordered(x, y, d);
    } else if y < 0 {
        lemma_div_is_ordered(-y, -x, d);
    } else {
        lemma_div_pos_is_pos(-x, d);
        lemma_div_pos_is_pos(y, d);
    }
}

/// The compression grows with the height: over the same ground, the density
/// of a higher place is lowered no less than that of a lower place.
pub proof fn lemma_compression_grows(
    lower: int,
    higher: int,
    base_height: int,
    terrain_height: int,
)
    requires
        lower <= higher,
    ensures
        compression(lower, base_height, terrain_height) <= compression(
            higher,
            base_height,
            terrain_height,
        ),
{
    let scale = if terrain_height < MIN_TERRAIN_HEIGHT {
        MIN_TERRAIN_HEIGHT as int
    } else {
        terrain_height
    };
    assert((lower * UNIT - base_height) * DECREMENT <= (higher * UNIT - base_height) * DECREMENT)
        by (nonlinear_arith)
        requires
            lower <= higher,
            UNIT > 0,
            DECREMENT > 0,
    ;
    lemma_toward_zero_is_ordered(
        (lower * UNIT - base_height) * DECREMENT,
        (higher * UNIT - base_height) * DECREMENT,
        scale,
    );
}

/// At the base height, nothing is taken from the density.
pub proof fn lemma_no_compression_at_the_base(height: int, terrain_height: int)
    ensures
        compression(height, height * UNIT, terrain_height) == 0,
{
}

/// The compression at one sample.
fn compress(height: i64, base_height: i64, terrain_height: i64) -> (result: i128)
    requires
        -0x1_0000_0000 <= height <= 0x1_0000_0000,
    ensures
        result == compression(height as int, base_height as int, terrain_height as int),
        -0x1_0000_0000_0000_0000_0000_0000 <= result <= 0x1_0000_0000_0000_0000_0000_0000,
{
    let scale: i128 = if terrain_height < MIN_TERRAIN_HEIGHT {
        MIN_TERRAIN_HEIGHT as i128
    } else {
        terrain_height as i128
    };
    assert(height * UNIT == height * 1_000_000_000);
    let distance: i128 = height as i128 * (UNIT as i128) - base_height as i128;
    assert(distance * DECREMENT == distance * 15_000_000);
    let scaled: i128 = distance * (DECREMENT as i128);
    proof {
        if scaled >= 0 {
            lemma_div_nonincreasing(scaled as int, scale as int);
            lemma_div_pos_is_pos(scaled as int, scale as int);
        } else {
            lemma_div_nonincreasing(-scaled, scale as int);
            lemma_div_pos_is_pos(-scaled, scale as int);
        }
    }
    let above: i128 = scaled / scale;
    if above < 0 {
        4 * above
    } else {
        above
    }
}

/// Lowers the terrain shape at every sample of the lattice by the
/// compression at its height.
pub fn sample_densities(samples: &TerrainSamples, chunk_y: i32) -> (lattice: Vec<i128>)
    requires
        samples.wf(),
    ensures
        lattice.len() == LATTICE_LEN,
        as_ints(lattice@) == lattice_densities(*samples, chunk_y as int),
        forall|i: int|
            0 <= i < lattice.len() ==> -DENSITY_LIMIT <= #[trigger] lattice[i] <= DENSITY_LIMIT,
{
    let mut lattice: Vec<i128> = Vec::new();
    let mut i: usize = 0;
    while i < LATTICE_LEN
        invariant
            i <= LATTICE_LEN,
            samples.wf(),
            lattice.len() == i,
            forall|j: int|
                0 <= j < i ==> #[trigger] lattice[j] == density_at(*samples, chunk_y as int, j),
            forall|j: int| 0 <= j < i ==> -DENSITY_LIMIT <= #[trigger] lattice[j] <= DENSITY_LIMIT,
        decreases LATTICE_LEN - i,
    {
        let height: i64 = chunk_y as i64 + (HEIGHT_FACTOR * (i % 4)) as i64;
        let lowered = compress(height, samples.base_height[i / 4], samples.terrain_height[i / 4]);
        lattice.push(samples.terrain_shape[i] as i128 - lowered);
        i += 1;
    }
    assert(as_ints(lattice@) =~= lattice_densities(*samples, chunk_y as int));
    lattice
}

} // verus!
