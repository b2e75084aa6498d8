//! The shape of the world and the generator of its chunks.

use vstd::prelude::*;
use crate::world::biomes::Biome;
use crate::world::caves::{carve, carved};
use crate::world::chunk::{BlockId, Chunk, ChunkPosition, CHUNK_VOLUME};
use crate::world::columns::{lemma_open_volume_is_air, materialize, terrain_blocks};
use crate::world::density::{
    density_at, lattice_densities, sample_densities, TerrainSamples, LATTICE_LEN,
};
use crate::world::features::{chunk_seed, seed_of_chunk, FeaturePlan};
use crate::world::interpolation::{interpolate, interpolated, lemma_interpolated_at_most};
use crate::world::noise::{Frequency, Noise, NoiseKind};

verus! {

/// The noise fields that shape the world, and the biome that covers it.
///
/// It is made once for a world seed and only read afterwards.
#[derive(Debug, PartialEq, Eq)]
pub struct Earth {
    pub biome: Biome,
    /// Elevation of the land and the sea floor, constant along the vertical
    /// axis. Negative values lean towards ocean.
    pub continents: Noise,
    /// How strongly the terrain rises and falls around the elevation,
    /// constant along the vertical axis.
    pub terrain_height: Noise,
    /// The density of the terrain: solid where it is positive.
    pub terrain_shape: Noise,
    /// The density that caves are carved by.
    pub caves: Noise,
    pub seed: u64,
}

/// The world height above which there is nothing but air.
pub const MAX_HEIGHT: i32 = 120;

/// A chunk of terrain and, unless it is empty, the plan for the structures
/// that are to be placed in it.
#[derive(Debug, PartialEq, Eq)]
pub struct GeneratedChunk {
    pub chunk: Chunk,
    pub features: Option<FeaturePlan>,
}

/// Whether every one of `blocks` is `block`.
pub open spec fn filled_with(blocks: Seq<BlockId>, block: BlockId) -> bool {
    forall|i: int| 0 <= i < blocks.len() ==> blocks[i] == block
}

/// Whether every one of `blocks` is `block`.
fn is_filled_with(blocks: &Vec<BlockId>, block: BlockId) -> (result: bool)
    ensures
        result == filled_with(blocks@, block),
{
    let mut i: usize = 0;
    while i < blocks.len()
        invariant
            i <= blocks.len(),
            forall|j: int| 0 <= j < i ==> blocks[j] == block,
        decreases blocks.len() - i,
    {
        if blocks[i] != block {
            return false;
        }
        i += 1;
    }
    true
}

/// What is added to the continents to put the sea level at zero.
pub const SEA_LEVEL_SHIFT: i64 = -12_000_000_000;

/// The deepest sea floor.
pub const LOWEST_CONTINENT: i64 = -10_000_000_000;

/// The highest land.
pub const HIGHEST_CONTINENT: i64 = 10_000_000_000;

/// Where, on the way from the sea to the land, the terrain begins to rise
/// and fall.
pub const COAST_BEGIN: i64 = -2_000_000_000;

/// Where the terrain has its full relief.
pub const COAST_END: i64 = 2_000_000_000;

/// The seed of one noise source of a world: the low half of the world seed
/// plus the offset of the source, wrapping around.
pub open spec fn source_seed(seed: u64, offset: u32) -> u32 {
    ((seed % 0x1_0000_0000 + offset) % 0x1_0000_0000) as u32
}

/// Fractal summation in which every octave has twice the frequency and half
/// the amplitude of the one before.
pub open spec fn halving_fbm(source: Noise, octaves: u32) -> Noise {
    Noise::Fbm {
        source: Box::new(source),
        octaves,
        persistence: 500_000_000,
        lacunarity: 2_000_000_000,
    }
}

/// The field of continents of a world.
pub open spec fn continents_of(seed: u64) -> Noise {
    let source = Noise::Source {
        kind: NoiseKind::Perlin,
        frequency: Frequency { x: 5_859_375, y: 0, z: 5_859_375 },
        seed: source_seed(seed, 429340),
    };
    let height = Noise::Mul(
        Box::new(Noise::Abs(Box::new(halving_fbm(source, 4)))),
        Box::new(Noise::Constant(120_000_000_000)),
    );
    Noise::Clamp {
        source: Box::new(Noise::Add(Box::new(height), Box::new(Noise::Constant(SEA_LEVEL_SHIFT)))),
        min: LOWEST_CONTINENT,
        max: HIGHEST_CONTINENT,
    }
}

/// The field of terrain height of a world: flat where the continents meet
/// the sea, rugged inland.
pub open spec fn terrain_height_of(seed: u64) -> Noise {
    let source = Noise::Source {
        kind: NoiseKind::Perlin,
        frequency: Frequency { x: 2_189_000, y: 2_189_000, z: 2_189_000 },
        seed: source_seed(seed, 0),
    };
    let inland = Noise::Add(
        Box::new(
            Noise::Mul(Box::new(halving_fbm(source, 10)), Box::new(Noise::Constant(2_000_000_000))),
        ),
        Box::new(Noise::Constant(1_000_000_000)),
    );
    let relief = Noise::Range {
        selector: Box::new(continents_of(seed)),
        low: COAST_BEGIN,
        high: COAST_END,
        below: Box::new(Noise::Constant(0)),
        above: Box::new(inland),
    };
    Noise::Clamp {
        source: Box::new(Noise::Add(Box::new(relief), Box::new(Noise::Constant(500_000_000)))),
        min: 500_000_000,
        max: 1_500_000_000,
    }
}

/// The field of terrain shape of a world: two independent fields, and a
/// third that switches between them within a narrow band.
pub open spec fn terrain_shape_of(seed: u64) -> Noise {
    let frequency = Frequency { x: 31_300_000, y: 46_950_000, z: 31_300_000 };
    let high = halving_fbm(
        Noise::Source { kind: NoiseKind::Perlin, frequency, seed: source_seed(seed, 1239480234) },
        6,
    );
    let low = halving_fbm(
        Noise::Source { kind: NoiseKind::Perlin, frequency, seed: source_seed(seed, 2239482) },
        6,
    );
    let selector = halving_fbm(
        Noise::Source {
            kind: NoiseKind::Simplex,
            frequency: Frequency { x: 46_950_000, y: 35_212_500, z: 46_950_000 },
            seed: source_seed(seed, 3923480239),
        },
        8,
    );
    Noise::Range {
        selector: Box::new(selector),
        low: 0,
        high: 20_000_000,
        below: Box::new(low),
        above: Box::new(high),
    }
}

/// The field of caves of a world. It is one everywhere, which carves
/// nothing: the band of the range is empty and both sides are equal.
pub open spec fn caves_of(seed: u64) -> Noise {
    Noise::Range {
        selector: Box::new(continents_of(seed)),
        low: 49_000_000,
        high: 49_000_000,
        below: Box::new(Noise::Constant(1_000_000_000)),
        above: Box::new(Noise::Constant(1_000_000_000)),
    }
}

/// The seed of one noise source of a world.
fn seed_source(seed: u64, offset: u32) -> (result: u32)
    ensures
        result == source_seed(seed, offset),
{
    let low: u32 = (seed % 0x1_0000_0000) as u32;
    low.wrapping_add(offset)
}

/// The field of continents of a world.
fn continents(seed: u64) -> (noise: Noise)
    ensures
        noise == continents_of(seed),
{
    Noise::perlin(Frequency { x: 5_859_375, y: 0, z: 5_859_375 }, seed_source(seed, 429340))
        .fbm(4, 500_000_000, 2_000_000_000)
        .abs()
        .mul(Noise::constant(120_000_000_000))
        .add(Noise::constant(SEA_LEVEL_SHIFT))
        .clamp(LOWEST_CONTINENT, HIGHEST_CONTINENT)
}

impl Earth {
    /// Whether the noise fields are those of the world with the given seed.
    pub open spec fn shaped_by(&self, seed: u64) -> bool {
        &&& self.seed == seed
        &&& self.continents == continents_of(seed)
        &&& self.terrain_height == terrain_height_of(seed)
        &&& self.terrain_shape == terrain_shape_of(seed)
        &&& self.caves == caves_of(seed)
    }

    /// The shape of the world with the given seed, covered by `biome`.
    pub fn new(seed: u64, biome: Biome) -> (earth: Earth)
        ensures
            earth.shaped_by(seed),
            earth.biome == biome,
    {
        let terrain_height = continents(seed).range(
            COAST_BEGIN,
            COAST_END,
            Noise::constant(0),
            Noise::perlin(Frequency::uniform(2_189_000), seed_source(seed, 0))
                .fbm(10, 500_000_000, 2_000_000_000)
                .mul(Noise::constant(2_000_000_000))
                .add(Noise::constant(1_000_000_000)),
        ).add(Noise::constant(500_000_000)).clamp(500_000_000, 1_500_000_000);

        let frequency = Frequency { x: 31_300_000, y: 46_950_000, z: 31_300_000 };
        let high = Noise::perlin(frequency, seed_source(seed, 1239480234)).fbm(
            6,
            500_000_000,
            2_000_000_000,
        );
        let low = Noise::perlin(frequency, seed_source(seed, 2239482)).fbm(
            6,
            500_000_000,
            2_000_000_000,
        );
        let terrain_shape = Noise::simplex(
            Frequency { x: 46_950_000, y: 35_212_500, z: 46_950_000 },
            seed_source(seed, 3923480239),
        ).fbm(8, 500_000_000, 2_000_000_000).range(0, 20_000_000, low, high);

        let caves = continents(seed).range(
            49_000_000,
            49_000_000,
            Noise::constant(1_000_000_000),
            Noise::constant(1_000_000_000),
        );

        Earth { biome, continents: continents(seed), terrain_height, terrain_shape, caves, seed }
    }

    /// Whether the chunk at `position` lies above everything that is
    /// generated.
    pub open spec fn is_above_terrain(position: ChunkPosition) -> bool {
        MAX_HEIGHT < position.y
    }

    /// The blocks of the terrain of the chunk at `position`, where the noise
    /// fields have the values `samples`.
    pub open spec fn terrain(&self, position: ChunkPosition, samples: TerrainSamples) -> Seq<
        BlockId,
    > {
        terrain_blocks(
            interpolated(lattice_densities(samples, position.y as int)),
            position.y as int,
            self.biome,
        )
    }

    /// Whether `plan` is the plan for the structures of the chunk at
    /// `position`: the seed of the chunk, and the blueprints of the biome in
    /// their order.
    pub open spec fn plans(&self, position: ChunkPosition, plan: FeaturePlan) -> bool {
        &&& plan.seed == chunk_seed(self.seed, position.x, position.z)
        &&& plan.blueprints@ == self.biome.blueprints@
    }

    /// Whether `generated` is what the chunk at `position` is generated as,
    /// where the noise fields have the values `samples`.
    ///
    /// Above the highest terrain, and wherever else the terrain is nothing
    /// but air, it is the uniform chunk of air, without structures.
    /// Everywhere else it is the terrain, block by block, with the plan for
    /// its structures.
    pub open spec fn generates(
        &self,
        position: ChunkPosition,
        samples: TerrainSamples,
        generated: GeneratedChunk,
    ) -> bool {
        if Self::is_above_terrain(position) || filled_with(
            self.terrain(position, samples),
            self.biome.air,
        ) {
            &&& generated.chunk == Chunk::Uniform(self.biome.air)
            &&& generated.features is None
        } else {
            &&& generated.chunk matches Chunk::Dense(blocks) && blocks@ == self.terrain(
                position,
                samples,
            )
            &&& generated.features matches Some(plan) && self.plans(position, plan)
        }
    }

    /// Whether the chunk at `position` lies above everything that is
    /// generated, so that no samples are needed to generate it.
    pub fn above_terrain(position: ChunkPosition) -> (result: bool)
        ensures
            result == Self::is_above_terrain(position),
    {
        MAX_HEIGHT < position.y
    }

    /// Generates the chunk at `chunk_position` from the values `samples` of
    /// the noise fields on its lattice.
    pub fn generate_chunk(
        &self,
        chunk_position: ChunkPosition,
        samples: &TerrainSamples,
    ) -> (generated: GeneratedChunk)
        requires
            !Self::is_above_terrain(chunk_position) ==> samples.wf(),
        ensures
            self.generates(chunk_position, *samples, generated),
    {
        let air = self.biome.air;
        if MAX_HEIGHT < chunk_position.y {
            return GeneratedChunk { chunk: Chunk::Uniform(air), features: None };
        }
        let mut chunk = Chunk::Uniform(air);
        self.generate_terrain(chunk_position, samples, &mut chunk);
        let uniform = match &chunk {
            Chunk::Uniform(block) => *block == air,
            Chunk::Dense(blocks) => is_filled_with(blocks, air),
        };
        if uniform {
            return GeneratedChunk { chunk: Chunk::Uniform(air), features: None };
        }
        let features = self.generate_features(chunk_position);
        GeneratedChunk { chunk, features: Some(features) }
    }

    /// Fills `chunk` with the terrain of the chunk at `chunk_position`.
    pub fn generate_terrain(
        &self,
        chunk_position: ChunkPosition,
        samples: &TerrainSamples,
        chunk: &mut Chunk,
    )
        requires
            samples.wf(),
        ensures
            *final(chunk) matches Chunk::Dense(blocks) && blocks@ == self.terrain(
                chunk_position,
                *samples,
            ),
    {
        let lattice = sample_densities(samples, chunk_position.y);
        let terrain_shape = interpolate(&lattice);
        let blocks = materialize(&terrain_shape, chunk_position.y, &self.biome);
        *chunk = Chunk::Dense(blocks);
    }

    /// Carves caves into `chunk`, the chunk at `chunk_position`, where the
    /// field of caves has the values `cave_density` at its blocks.
    ///
    /// A uniform chunk stays as it is where carving changes nothing: where
    /// it is air or liquid.
    pub fn carve_caves(
        &self,
        chunk_position: ChunkPosition,
        chunk: &mut Chunk,
        cave_density: &Vec<i64>,
    )
        ensures
            final(chunk).blocks() == carved(
                old(chunk).blocks(),
                cave_density@,
                chunk_position.y as int,
                self.biome,
            ),
            *old(chunk) is Dense ==> *final(chunk) is Dense,
            *old(chunk) matches Chunk::Uniform(block) ==> {
                if block == self.biome.air || self.biome.is_liquid(block) {
                    *final(chunk) == *old(chunk)
                } else {
                    *final(chunk) is Dense
                }
            },
    {
        match chunk {
            Chunk::Dense(blocks) => {
                carve(blocks, cave_density, chunk_position.y, &self.biome);
            },
            Chunk::Uniform(block) => {
                let block = *block;
                if block != self.biome.air && block != self.biome.surface_liquid && block
                    != self.biome.sub_surface_liquid {
                    let mut blocks: Vec<BlockId> = vec![block; CHUNK_VOLUME];
                    assert(blocks@ =~= old(chunk).blocks());
                    carve(&mut blocks, cave_density, chunk_position.y, &self.biome);
                    *chunk = Chunk::Dense(blocks);
                } else {
                    assert(old(chunk).blocks() =~= carved(
                        old(chunk).blocks(),
                        cave_density@,
                        chunk_position.y as int,
                        self.biome,
                    ));
                }
            },
        }
    }

    /// The plan for the structures of the chunk at `chunk_position`.
    pub fn generate_features(&self, chunk_position: ChunkPosition) -> (plan: FeaturePlan)
        ensures
            self.plans(chunk_position, plan),
    {
        let blueprints = self.biome.blueprints.clone();
        assert(blueprints@ =~= self.biome.blueprints@);
        FeaturePlan {
            seed: seed_of_chunk(self.seed, chunk_position.x, chunk_position.z),
            blueprints,
        }
    }
}

/// Generation is deterministic: whatever is generated twice for one world,
/// one position and the same samples is the same chunk, block for block and
/// in the same representation, with the same plan for its structures.
pub proof fn lemma_generation_is_deterministic(
    earth: Earth,
    position: ChunkPosition,
    samples: TerrainSamples,
    first: GeneratedChunk,
    second: GeneratedChunk,
)
    requires
        earth.generates(position, samples, first),
        earth.generates(position, samples, second),
    ensures
        first.chunk.blocks() == second.chunk.blocks(),
        first.chunk is Uniform <==> second.chunk is Uniform,
        first.features is Some <==> second.features is Some,
        first.features is Some ==> {
            &&& first.features->0.seed == second.features->0.seed
            &&& first.features->0.blueprints@ == second.features->0.blueprints@
        },
{
}

/// Worlds with the same seed have the same shape.
pub proof fn lemma_shape_is_deterministic(seed: u64, first: Earth, second: Earth)
    requires
        first.shaped_by(seed),
        second.shaped_by(seed),
    ensures
        first.continents == second.continents,
        first.terrain_height == second.terrain_height,
        first.terrain_shape == second.terrain_shape,
        first.caves == second.caves,
        first.seed == second.seed,
{
}

/// Above the highest terrain every chunk is the uniform chunk of air,
/// whatever the noise fields are there.
pub proof fn lemma_air_above_terrain(
    earth: Earth,
    position: ChunkPosition,
    samples: TerrainSamples,
    generated: GeneratedChunk,
)
    requires
        earth.generates(position, samples, generated),
        MAX_HEIGHT < position.y,
    ensures
        generated.chunk == Chunk::Uniform(earth.biome.air),
        generated.features is None,
{
}

/// A chunk above sea level in whose lattice no density is positive is the
/// uniform chunk of air.
pub proof fn lemma_open_sky_is_air(
    earth: Earth,
    position: ChunkPosition,
    samples: TerrainSamples,
    generated: GeneratedChunk,
)
    requires
        earth.generates(position, samples, generated),
        0 < position.y,
        forall|i: int| 0 <= i < LATTICE_LEN ==> density_at(samples, position.y as int, i) <= 0,
    ensures
        generated.chunk == Chunk::Uniform(earth.biome.air),
        generated.features is None,
{
    let lattice = lattice_densities(samples, position.y as int);
    let volume = interpolated(lattice);
    assert forall|i: int| 0 <= i < volume.len() implies volume[i] <= 0 by {
        lemma_interpolated_at_most(lattice, 0, i);
    }
    lemma_open_volume_is_air(volume, position.y as int, earth.biome);
}

} // verus!
