use fmc_vanilla::world::biomes::Biome;
use fmc_vanilla::world::chunk::{Chunk, ChunkPosition};
use fmc_vanilla::world::density::{SampleGrid, TerrainSamples};
use fmc_vanilla::world::features::FeaturePlan;
use fmc_vanilla::world::noise::{Frequency, Noise, NoiseKind};
use fmc_vanilla::world::terrain_generation::{Earth, GeneratedChunk, MAX_HEIGHT};

const AIR: u16 = 0;
const GRASS: u16 = 1;
const DIRT: u16 = 2;
const STONE: u16 = 3;
const SAND: u16 = 4;
const SURFACE_WATER: u16 = 5;
const WATER: u16 = 6;
const UNIT: i64 = 1_000_000_000;

fn biome() -> Biome {
    Biome {
        top_layer_block: GRASS,
        mid_layer_block: DIRT,
        bottom_layer_block: STONE,
        sand: SAND,
        surface_liquid: SURFACE_WATER,
        sub_surface_liquid: WATER,
        air: AIR,
        blueprints: vec![4, 2, 9],
    }
}

fn at(x: i32, y: i32, z: i32) -> ChunkPosition {
    ChunkPosition { x, y, z }
}

fn flat(terrain_shape: i64, base_height: i64, terrain_height: i64) -> TerrainSamples {
    TerrainSamples {
        terrain_shape: vec![terrain_shape; 100],
        base_height: vec![base_height; 25],
        terrain_height: vec![terrain_height; 25],
    }
}

fn no_samples() -> TerrainSamples {
    TerrainSamples {
        terrain_shape: Vec::new(),
        base_height: Vec::new(),
        terrain_height: Vec::new(),
    }
}

/// Samples that stand for the noise fields of a world: arbitrary, but the
/// same for the same seed and grid.
fn stand_in_samples(seed: u64, grid: SampleGrid) -> TerrainSamples {
    let mut state = seed
        ^ (grid.x as u64).wrapping_mul(0x9e37_79b9_7f4a_7c15)
        ^ (grid.y as u64).wrapping_mul(0xc2b2_ae3d_27d4_eb4f)
        ^ (grid.z as u64).wrapping_mul(0x1656_67b1_9e37_79f9)
        | 1;
    let mut next = |low: i64, high: i64| {
        state ^= state << 13;
        state ^= state >> 7;
        state ^= state << 17;
        low + (state % (high - low + 1) as u64) as i64
    };
    let mut terrain_shape = Vec::new();
    for _ in 0..grid.width * grid.height * grid.depth {
        terrain_shape.push(next(-UNIT, UNIT));
    }
    let mut base_height = Vec::new();
    let mut terrain_height = Vec::new();
    for _ in 0..grid.width * grid.depth {
        base_height.push(next(-10 * UNIT, 10 * UNIT));
        terrain_height.push(next(UNIT / 2, 3 * UNIT / 2));
    }
    TerrainSamples { terrain_shape, base_height, terrain_height }
}

fn fbm(source: Noise, octaves: u32) -> Noise {
    Noise::Fbm { source: Box::new(source), octaves, persistence: 500_000_000, lacunarity: 2 * UNIT }
}

fn expected_continents(seed: u32) -> Noise {
    Noise::Clamp {
        source: Box::new(Noise::Add(
            Box::new(Noise::Mul(
                Box::new(Noise::Abs(Box::new(fbm(
                    Noise::Source {
                        kind: NoiseKind::Perlin,
                        frequency: Frequency { x: 5_859_375, y: 0, z: 5_859_375 },
                        seed,
                    },
                    4,
                )))),
                Box::new(Noise::Constant(120 * UNIT)),
            )),
            Box::new(Noise::Constant(-12 * UNIT)),
        )),
        min: -10 * UNIT,
        max: 10 * UNIT,
    }
}

#[test]
fn continents_of_the_world() {
    let earth = Earth::new(1, biome());
    assert_eq!(earth.continents, expected_continents(429341));
    assert_eq!(earth.seed, 1);
    assert_eq!(earth.biome, biome());
}

#[test]
fn terrain_height_of_the_world() {
    let earth = Earth::new(1, biome());
    let inland = Noise::Add(
        Box::new(Noise::Mul(
            Box::new(fbm(
                Noise::Source {
                    kind: NoiseKind::Perlin,
                    frequency: Frequency { x: 2_189_000, y: 2_189_000, z: 2_189_000 },
                    seed: 1,
                },
                10,
            )),
            Box::new(Noise::Constant(2 * UNIT)),
        )),
        Box::new(Noise::Constant(UNIT)),
    );
    let expected = Noise::Clamp {
        source: Box::new(Noise::Add(
            Box::new(Noise::Range {
                selector: Box::new(expected_continents(429341)),
                low: -2 * UNIT,
                high: 2 * UNIT,
                below: Box::new(Noise::Constant(0)),
                above: Box::new(inland),
            }),
            Box::new(Noise::Constant(500_000_000)),
        )),
        min: 500_000_000,
        max: 1_500_000_000,
    };
    assert_eq!(earth.terrain_height, expected);
}

#[test]
fn terrain_shape_of_the_world() {
    let earth = Earth::new(1, biome());
    let frequency = Frequency { x: 31_300_000, y: 46_950_000, z: 31_300_000 };
    let expected = Noise::Range {
        selector: Box::new(fbm(
            Noise::Source {
                kind: NoiseKind::Simplex,
                frequency: Frequency { x: 46_950_000, y: 35_212_500, z: 46_950_000 },
                seed: 3923480240,
            },
            8,
        )),
        low: 0,
        high: 20_000_000,
        below: Box::new(fbm(
            Noise::Source { kind: NoiseKind::Perlin, frequency, seed: 2239483 },
            6,
        )),
        above: Box::new(fbm(
            Noise::Source { kind: NoiseKind::Perlin, frequency, seed: 1239480235 },
            6,
        )),
    };
    assert_eq!(earth.terrain_shape, expected);
}

#[test]
fn caves_of_the_world() {
    let earth = Earth::new(1, biome());
    let expected = Noise::Range {
        selector: Box::new(expected_continents(429341)),
        low: 49_000_000,
        high: 49_000_000,
        below: Box::new(Noise::Constant(UNIT)),
        above: Box::new(Noise::Constant(UNIT)),
    };
    assert_eq!(earth.caves, expected);
}

#[test]
fn seeds_of_the_sources_wrap_around() {
    let earth = Earth::new(u64::MAX, biome());
    assert_eq!(earth.continents, expected_continents(429339));
    let earth = Earth::new(0x1234_5678_0000_0005, biome());
    assert_eq!(earth.continents, expected_continents(429345));
    let earth = Earth::new(4294967295 - 429340, biome());
    assert_eq!(earth.continents, expected_continents(4294967295));
    let earth = Earth::new(4294967296 - 429340, biome());
    assert_eq!(earth.continents, expected_continents(0));
}

#[test]
fn worlds_with_the_same_seed_have_the_same_shape() {
    assert_eq!(Earth::new(77, biome()), Earth::new(77, biome()));
    assert_ne!(Earth::new(77, biome()), Earth::new(78, biome()));
}

#[test]
fn noise_fields_are_built_step_by_step() {
    let frequency = Frequency::uniform(7);
    assert_eq!(frequency, Frequency { x: 7, y: 7, z: 7 });
    let source = Noise::simplex(frequency, 3);
    assert_eq!(source, Noise::Source { kind: NoiseKind::Simplex, frequency, seed: 3 });
    assert_eq!(
        Noise::perlin(frequency, 4),
        Noise::Source { kind: NoiseKind::Perlin, frequency, seed: 4 }
    );
    assert_eq!(Noise::constant(-5), Noise::Constant(-5));
    assert_eq!(
        Noise::constant(1).fbm(3, 4, 5),
        Noise::Fbm {
            source: Box::new(Noise::Constant(1)),
            octaves: 3,
            persistence: 4,
            lacunarity: 5,
        }
    );
    assert_eq!(Noise::constant(1).abs(), Noise::Abs(Box::new(Noise::Constant(1))));
    assert_eq!(Noise::constant(1).square(), Noise::Square(Box::new(Noise::Constant(1))));
    assert_eq!(
        Noise::constant(1).clamp(-2, 2),
        Noise::Clamp { source: Box::new(Noise::Constant(1)), min: -2, max: 2 }
    );
    assert_eq!(
        Noise::constant(1).add(Noise::constant(2)),
        Noise::Add(Box::new(Noise::Constant(1)), Box::new(Noise::Constant(2)))
    );
    assert_eq!(
        Noise::constant(1).mul(Noise::constant(2)),
        Noise::Mul(Box::new(Noise::Constant(1)), Box::new(Noise::Constant(2)))
    );
    assert_eq!(
        Noise::constant(1).range(2, 3, Noise::constant(4), Noise::constant(5)),
        Noise::Range {
            selector: Box::new(Noise::Constant(1)),
            low: 2,
            high: 3,
            below: Box::new(Noise::Constant(4)),
            above: Box::new(Noise::Constant(5)),
        }
    );
}

#[test]
fn chunks_above_the_terrain_are_uniform_air() {
    let earth = Earth::new(1, biome());
    let expected = GeneratedChunk { chunk: Chunk::Uniform(AIR), features: None };
    assert_eq!(MAX_HEIGHT, 120);
    assert!(Earth::above_terrain(at(0, 10_000, 0)));
    assert!(Earth::above_terrain(at(0, 121, 0)));
    assert!(!Earth::above_terrain(at(0, 120, 0)));
    assert!(!Earth::above_terrain(at(0, i32::MIN, 0)));
    assert_eq!(earth.generate_chunk(at(0, 10_000, 0), &no_samples()), expected);
    assert_eq!(earth.generate_chunk(at(0, 121, 0), &no_samples()), expected);
    assert_eq!(earth.generate_chunk(at(-64, i32::MAX, 48), &no_samples()), expected);
    // All solid, if the samples counted.
    assert_eq!(earth.generate_chunk(at(0, 10_000, 0), &flat(i64::MAX, 0, UNIT)), expected);
}

#[test]
fn chunks_far_above_the_ground_reduce_to_uniform_air() {
    let earth = Earth::new(1, biome());
    let expected = GeneratedChunk { chunk: Chunk::Uniform(AIR), features: None };
    assert_eq!(earth.generate_chunk(at(0, 120, 0), &flat(UNIT, 10 * UNIT, 3 * UNIT / 2)), expected);
    assert_eq!(earth.generate_chunk(at(16, 32, -16), &flat(0, 0, UNIT)), expected);
    let mut chunk = Chunk::Uniform(STONE);
    earth.generate_terrain(at(16, 32, -16), &flat(0, 0, UNIT), &mut chunk);
    assert_eq!(chunk, Chunk::Dense(vec![AIR; 4096]));
}

#[test]
fn flat_ground_at_height_eight() {
    let earth = Earth::new(1, biome());
    let generated = earth.generate_chunk(at(0, 0, 0), &flat(0, 8 * UNIT, UNIT));
    let column =
        [SAND, SAND, STONE, STONE, STONE, DIRT, DIRT, GRASS, 0, 0, 0, 0, 0, 0, 0, 0];
    let mut blocks = Vec::new();
    for _ in 0..256 {
        blocks.extend(column);
    }
    assert_eq!(
        generated,
        GeneratedChunk {
            chunk: Chunk::Dense(blocks),
            features: Some(FeaturePlan { seed: 0, blueprints: vec![4, 2, 9] }),
        }
    );
}

#[test]
fn flat_sea_over_deep_ground() {
    let earth = Earth::new(3, biome());
    // The ground ends eight blocks under the sea level.
    let generated = earth.generate_chunk(at(16, -16, -32), &flat(0, -8 * UNIT, UNIT));
    let column = [
        SAND, SAND, SAND, SAND, SAND, SAND, SAND, SAND, WATER, WATER, WATER, WATER, WATER, WATER,
        WATER, WATER,
    ];
    let mut blocks = Vec::new();
    for _ in 0..256 {
        blocks.extend(column);
    }
    assert_eq!(generated.chunk, Chunk::Dense(blocks));
    assert_eq!(
        generated.features,
        Some(FeaturePlan { seed: 3 * 0x0000_0010_ffff_ffe0, blueprints: vec![4, 2, 9] })
    );
}

#[test]
fn open_sea_is_not_uniform() {
    let earth = Earth::new(1, biome());
    let generated = earth.generate_chunk(at(0, 0, 0), &flat(0, -100 * UNIT, UNIT));
    let mut column = [AIR; 16];
    column[0] = SURFACE_WATER;
    let mut blocks = Vec::new();
    for _ in 0..256 {
        blocks.extend(column);
    }
    assert_eq!(generated.chunk, Chunk::Dense(blocks));
    assert!(generated.features.is_some());
    let generated = earth.generate_chunk(at(0, -16, 0), &flat(0, -100 * UNIT, UNIT));
    assert_eq!(generated.chunk, Chunk::Dense(vec![WATER; 4096]));
}

#[test]
fn terrain_follows_the_base_height() {
    let earth = Earth::new(1, biome());
    let mut samples = flat(0, 8 * UNIT, UNIT);
    // The columns of samples at x = 4 of the lattice, one step beyond the
    // far side of the chunk.
    for z in 0..5 {
        samples.base_height[4 * 5 + z] = 16 * UNIT;
    }
    let chunk = earth.generate_chunk(at(0, 0, 0), &samples).chunk;
    assert!(!chunk.is_uniform());
    let column = |x: usize, z: usize| -> Vec<u16> { (0..16).map(|y| chunk.get(x, y, z)).collect() };
    let level = vec![SAND, SAND, STONE, STONE, STONE, DIRT, DIRT, GRASS, 0, 0, 0, 0, 0, 0, 0, 0];
    for x in 0..13 {
        for z in 0..16 {
            assert_eq!(column(x, z), level);
        }
    }
    for z in 0..16 {
        assert_eq!(
            column(13, z),
            vec![
                SAND, SAND, STONE, STONE, STONE, STONE, STONE, STONE, STONE, STONE, DIRT, DIRT,
                GRASS, AIR, AIR, AIR
            ]
        );
        assert_eq!(
            column(14, z),
            vec![
                SAND, SAND, STONE, STONE, STONE, STONE, STONE, STONE, STONE, STONE, STONE, STONE,
                DIRT, DIRT, GRASS, AIR
            ]
        );
        assert_eq!(
            column(15, z),
            vec![
                SAND, SAND, STONE, STONE, STONE, STONE, STONE, STONE, STONE, STONE, STONE, STONE,
                STONE, DIRT, DIRT, GRASS
            ]
        );
    }
}

#[test]
fn plan_of_the_structures_of_a_chunk() {
    let earth = Earth::new(0x9e37_79b9_7f4a_7c15, biome());
    assert_eq!(
        earth.generate_features(at(48, 16, -112)),
        FeaturePlan {
            seed: 0x0000_0030_ffff_ff90u64.wrapping_mul(0x9e37_79b9_7f4a_7c15),
            blueprints: vec![4, 2, 9],
        }
    );
    assert_eq!(
        earth.generate_features(at(48, -160, -112)),
        earth.generate_features(at(48, 1600, -112))
    );
}

#[test]
fn generation_gives_the_same_chunk_twice() {
    let earth = Earth::new(5, biome());
    for position in [at(0, 0, 0), at(-16, -16, 32), at(160, 16, -1600), at(0, 112, 0)] {
        let samples = stand_in_samples(5, SampleGrid::for_chunk(position));
        let first = earth.generate_chunk(position, &samples);
        let second = Earth::new(5, biome()).generate_chunk(position, &samples.clone());
        assert_eq!(first, second);
    }
}

#[test]
fn scenario_seed_one_chunk_at_the_origin() {
    let earth = Earth::new(1, biome());
    let position = at(0, 0, 0);
    let grid = SampleGrid::for_chunk(position);
    let samples = TerrainSamples::new(
        stand_in_samples(1, grid).terrain_shape,
        stand_in_samples(1, grid).base_height,
        stand_in_samples(1, grid).terrain_height,
    )
    .unwrap();
    let generated = earth.generate_chunk(position, &samples);
    let registered = [AIR, GRASS, DIRT, STONE, SAND, SURFACE_WATER, WATER];
    match &generated.chunk {
        Chunk::Uniform(block) => assert_eq!(*block, AIR),
        Chunk::Dense(blocks) => {
            assert_eq!(blocks.len(), 4096);
            for block in blocks {
                assert!(registered.contains(block));
            }
        }
    }
    for x in 0..16 {
        for y in 0..16 {
            for z in 0..16 {
                assert!(registered.contains(&generated.chunk.get(x, y, z)));
            }
        }
    }
    assert_eq!(earth.generate_chunk(position, &samples), generated);
}
