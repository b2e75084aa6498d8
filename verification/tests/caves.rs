use fmc_vanilla::world::biomes::Biome;
use fmc_vanilla::world::caves::{carve, CAVE_THRESHOLD, DECAY_POINT, DECAY_STEP};
use fmc_vanilla::world::chunk::{Chunk, ChunkPosition};
use fmc_vanilla::world::terrain_generation::Earth;

const AIR: u16 = 0;
const STONE: u16 = 3;
const SURFACE_WATER: u16 = 5;
const WATER: u16 = 6;

fn biome() -> Biome {
    Biome {
        top_layer_block: 1,
        mid_layer_block: 2,
        bottom_layer_block: STONE,
        sand: 4,
        surface_liquid: SURFACE_WATER,
        sub_surface_liquid: WATER,
        air: AIR,
        blueprints: Vec::new(),
    }
}

/// What carving leaves of one block of stone at world height `height`.
fn carved_at(height: i32, density: i64) -> u16 {
    let mut blocks = vec![STONE];
    carve(&mut blocks, &vec![density], height, &biome());
    blocks[0]
}

fn at(y: i32) -> ChunkPosition {
    ChunkPosition { x: 0, y, z: 0 }
}

#[test]
fn constants_of_carving() {
    assert_eq!(DECAY_POINT, -32);
    assert_eq!(DECAY_STEP * 64, 1_000_000_000);
    assert_eq!(CAVE_THRESHOLD, 2_000_000);
}

#[test]
fn low_density_is_carved_deep_under_the_ground() {
    assert_eq!(carved_at(-100, 0), AIR);
    assert_eq!(carved_at(-100, 3_999_999), AIR);
    assert_eq!(carved_at(-100, 4_000_000), STONE);
    assert_eq!(carved_at(-100, i64::MIN), AIR);
    assert_eq!(carved_at(-100, i64::MAX), STONE);
    assert_eq!(carved_at(i32::MIN, 3_999_999), AIR);
}

#[test]
fn density_is_not_raised_up_to_the_decay_point() {
    assert_eq!(carved_at(-32, 3_999_999), AIR);
    assert_eq!(carved_at(-32, 4_000_000), STONE);
    assert_eq!(carved_at(-33, 3_999_999), AIR);
}

#[test]
fn density_is_raised_above_the_decay_point() {
    assert_eq!(carved_at(-31, 3_999_999), STONE);
    assert_eq!(carved_at(-31, -11_625_000), STONE);
    assert_eq!(carved_at(-31, -11_625_001), AIR);
    assert_eq!(carved_at(0, -496_000_000), STONE);
    assert_eq!(carved_at(0, -496_000_001), AIR);
    assert_eq!(carved_at(32, -996_000_001), AIR);
    assert_eq!(carved_at(32, -996_000_000), STONE);
    assert_eq!(carved_at(i32::MAX, i64::MIN), AIR);
    assert_eq!(carved_at(i32::MAX, 0), STONE);
}

#[test]
fn liquid_is_never_carved() {
    let mut blocks = vec![SURFACE_WATER, WATER, STONE, WATER, SURFACE_WATER, AIR, 4];
    carve(&mut blocks, &vec![i64::MIN; 7], -100, &biome());
    assert_eq!(blocks, vec![SURFACE_WATER, WATER, AIR, WATER, SURFACE_WATER, AIR, AIR]);
}

#[test]
fn blocks_of_high_density_stay() {
    let mut blocks = vec![1, 2, 3, 4, 5, 6, 0];
    carve(&mut blocks, &vec![i64::MAX; 7], -100, &biome());
    assert_eq!(blocks, vec![1, 2, 3, 4, 5, 6, 0]);
}

#[test]
fn height_of_a_block_goes_by_its_place_in_the_column() {
    // The heights -34 to -19: from -31 on a density of zero is raised over
    // the threshold.
    let mut blocks = vec![STONE; 32];
    carve(&mut blocks, &vec![0; 32], -34, &biome());
    let mut expected = vec![STONE; 32];
    for i in [0, 1, 2, 16, 17, 18] {
        expected[i] = AIR;
    }
    assert_eq!(blocks, expected);
}

#[test]
fn blocks_without_a_density_stay() {
    let mut blocks = vec![STONE; 5];
    carve(&mut blocks, &vec![0; 3], -100, &biome());
    assert_eq!(blocks, vec![AIR, AIR, AIR, STONE, STONE]);
    let mut blocks = vec![STONE; 2];
    carve(&mut blocks, &vec![0; 3], -100, &biome());
    assert_eq!(blocks, vec![AIR, AIR]);
    let mut blocks = Vec::new();
    carve(&mut blocks, &vec![0; 3], -100, &biome());
    assert_eq!(blocks, Vec::new());
}

#[test]
fn caves_are_carved_into_a_dense_chunk() {
    let earth = Earth::new(1, biome());
    let mut blocks = vec![STONE; 4096];
    blocks[7] = WATER;
    blocks[4095] = SURFACE_WATER;
    let mut densities = vec![1_000_000_000; 4096];
    for i in [3, 7, 100, 4095] {
        densities[i] = 0;
    }
    let mut chunk = Chunk::Dense(blocks.clone());
    earth.carve_caves(at(-64), &mut chunk, &densities);
    blocks[3] = AIR;
    blocks[100] = AIR;
    assert_eq!(chunk, Chunk::Dense(blocks));
}

#[test]
fn the_field_of_caves_of_the_world_carves_nothing() {
    let earth = Earth::new(1, biome());
    for y in [-1024, -64, -32, 0, 64] {
        let mut chunk = Chunk::Dense(vec![STONE; 4096]);
        earth.carve_caves(at(y), &mut chunk, &vec![1_000_000_000; 4096]);
        assert_eq!(chunk, Chunk::Dense(vec![STONE; 4096]));
    }
}

#[test]
fn uniform_chunks_of_air_and_liquid_stay_uniform() {
    let earth = Earth::new(1, biome());
    for block in [AIR, WATER, SURFACE_WATER] {
        let mut chunk = Chunk::Uniform(block);
        earth.carve_caves(at(-64), &mut chunk, &vec![0; 4096]);
        assert_eq!(chunk, Chunk::Uniform(block));
    }
}

#[test]
fn uniform_chunks_of_ground_are_carved_block_by_block() {
    let earth = Earth::new(1, biome());
    let mut densities = vec![1_000_000_000; 4096];
    densities[5] = 0;
    let mut chunk = Chunk::Uniform(STONE);
    earth.carve_caves(at(-64), &mut chunk, &densities);
    let mut expected = vec![STONE; 4096];
    expected[5] = AIR;
    assert_eq!(chunk, Chunk::Dense(expected));

    let mut chunk = Chunk::Uniform(STONE);
    earth.carve_caves(at(-64), &mut chunk, &Vec::new());
    assert_eq!(chunk, Chunk::Dense(vec![STONE; 4096]));
}
