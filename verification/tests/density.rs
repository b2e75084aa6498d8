use fmc_vanilla::world::chunk::ChunkPosition;
use fmc_vanilla::world::density::{
    sample_densities, SampleGrid, TerrainSamples, DECREMENT, DENSITY_LIMIT, HALO_HEIGHT,
    HEIGHT_FACTOR, LATTICE_COLUMNS, LATTICE_HEIGHT, LATTICE_LEN, LATTICE_WIDTH,
    MIN_TERRAIN_HEIGHT, VOLUME_HEIGHT, VOLUME_LEN, WIDTH_FACTOR,
};
use fmc_vanilla::world::noise::UNIT;

fn flat(terrain_shape: i64, base_height: i64, terrain_height: i64) -> TerrainSamples {
    TerrainSamples {
        terrain_shape: vec![terrain_shape; 100],
        base_height: vec![base_height; 25],
        terrain_height: vec![terrain_height; 25],
    }
}

/// The densities of the lowest column of a lattice.
fn first_column(samples: &TerrainSamples, chunk_y: i32) -> Vec<i128> {
    sample_densities(samples, chunk_y)[..4].to_vec()
}

#[test]
fn sizes_of_lattice_and_volume() {
    assert_eq!(WIDTH_FACTOR, 4);
    assert_eq!(HEIGHT_FACTOR, 8);
    assert_eq!(LATTICE_WIDTH, 16 / WIDTH_FACTOR + 1);
    assert_eq!(LATTICE_HEIGHT, 16 / HEIGHT_FACTOR + 2);
    assert_eq!(LATTICE_LEN, LATTICE_WIDTH * LATTICE_HEIGHT * LATTICE_WIDTH);
    assert_eq!(LATTICE_COLUMNS, LATTICE_WIDTH * LATTICE_WIDTH);
    assert_eq!(HALO_HEIGHT, 8);
    assert_eq!(VOLUME_HEIGHT, 16 + HALO_HEIGHT);
    assert_eq!(VOLUME_LEN, 16 * VOLUME_HEIGHT * 16);
    assert_eq!(UNIT, 1_000_000_000);
    assert_eq!(DECREMENT, 15_000_000);
    assert_eq!(MIN_TERRAIN_HEIGHT, 1_000_000);
    assert_eq!(DENSITY_LIMIT, 1i128 << 100);
}

#[test]
fn grid_of_a_chunk() {
    let grid = SampleGrid::for_chunk(ChunkPosition { x: 32, y: 16, z: 48 });
    assert_eq!(grid, SampleGrid { x: 8, y: 2, z: 12, width: 5, height: 4, depth: 5 });
    let grid = SampleGrid::for_chunk(ChunkPosition { x: 0, y: 0, z: 0 });
    assert_eq!(grid, SampleGrid { x: 0, y: 0, z: 0, width: 5, height: 4, depth: 5 });
}

#[test]
fn grid_of_a_chunk_at_negative_coordinates() {
    let grid = SampleGrid::for_chunk(ChunkPosition { x: -16, y: -32, z: -48 });
    assert_eq!(grid, SampleGrid { x: -4, y: -4, z: -12, width: 5, height: 4, depth: 5 });
}

#[test]
fn grid_rounds_towards_zero() {
    let grid = SampleGrid::for_chunk(ChunkPosition { x: 7, y: 15, z: -7 });
    assert_eq!((grid.x, grid.y, grid.z), (1, 1, -1));
    let grid = SampleGrid::for_chunk(ChunkPosition { x: -1, y: -9, z: 3 });
    assert_eq!((grid.x, grid.y, grid.z), (0, -1, 0));
    let grid = SampleGrid::for_chunk(ChunkPosition { x: i32::MIN, y: i32::MAX, z: i32::MIN });
    assert_eq!((grid.x, grid.y, grid.z), (-536870912, 268435455, -536870912));
}

#[test]
fn samples_need_the_right_number_of_values() {
    let samples = TerrainSamples::new(vec![1; 100], vec![2; 25], vec![3; 25]);
    assert_eq!(
        samples,
        Some(TerrainSamples {
            terrain_shape: vec![1; 100],
            base_height: vec![2; 25],
            terrain_height: vec![3; 25],
        })
    );
    assert_eq!(TerrainSamples::new(vec![1; 99], vec![2; 25], vec![3; 25]), None);
    assert_eq!(TerrainSamples::new(vec![1; 101], vec![2; 25], vec![3; 25]), None);
    assert_eq!(TerrainSamples::new(vec![1; 100], vec![2; 24], vec![3; 25]), None);
    assert_eq!(TerrainSamples::new(vec![1; 100], vec![2; 25], vec![3; 26]), None);
    assert_eq!(TerrainSamples::new(Vec::new(), Vec::new(), Vec::new()), None);
}

#[test]
fn density_falls_with_the_height_above_the_base() {
    // 0.015 for each block, at the heights 0, 8, 16 and 24.
    assert_eq!(
        first_column(&flat(0, 0, UNIT), 0),
        vec![0, -120_000_000, -240_000_000, -360_000_000]
    );
    assert_eq!(
        first_column(&flat(UNIT, 0, UNIT), 0),
        vec![1_000_000_000, 880_000_000, 760_000_000, 640_000_000]
    );
}

#[test]
fn density_rises_four_times_as_fast_below_the_base() {
    assert_eq!(
        first_column(&flat(0, 0, UNIT), -16),
        vec![960_000_000, 480_000_000, 0, -120_000_000]
    );
    assert_eq!(first_column(&flat(0, 5 * UNIT, UNIT), 0)[0], 300_000_000);
    assert_eq!(first_column(&flat(0, -10 * UNIT, UNIT), 0)[2], -390_000_000);
}

#[test]
fn higher_terrain_falls_off_more_slowly() {
    assert_eq!(first_column(&flat(0, 0, UNIT / 2), 0)[1], -240_000_000);
    assert_eq!(first_column(&flat(0, 0, 3 * UNIT / 2), 0)[3], -240_000_000);
    assert_eq!(first_column(&flat(0, 0, 2 * UNIT), 0)[1], -60_000_000);
}

#[test]
fn compression_is_rounded_towards_zero() {
    let samples = flat(0, 0, 1_000_000_007);
    assert_eq!(first_column(&samples, 0)[1], -119_999_999);
    assert_eq!(first_column(&samples, -8)[0], 479_999_996);
}

#[test]
fn terrain_height_is_held_away_from_zero() {
    for terrain_height in [0, -5, 1, 999_999, 1_000_000, i64::MIN] {
        assert_eq!(first_column(&flat(0, 0, terrain_height), 0)[1], -120_000_000_000);
    }
    assert_eq!(first_column(&flat(0, 0, 1_000_001), 0)[1], -119_999_880_000);
}

#[test]
fn every_column_has_its_own_base_and_height() {
    let mut samples = flat(0, 0, UNIT);
    samples.base_height[7] = 8 * UNIT;
    samples.terrain_height[8] = 2 * UNIT;
    samples.terrain_shape[4 * 9 + 2] = 77;
    let lattice = sample_densities(&samples, 0);
    assert_eq!(lattice.len(), 100);
    assert_eq!(lattice[4 * 6..4 * 7], [0, -120_000_000, -240_000_000, -360_000_000]);
    assert_eq!(lattice[4 * 7..4 * 8], [480_000_000, 0, -120_000_000, -240_000_000]);
    assert_eq!(lattice[4 * 8..4 * 9], [0, -60_000_000, -120_000_000, -180_000_000]);
    assert_eq!(lattice[4 * 9..4 * 10], [0, -120_000_000, -239_999_923, -360_000_000]);
}

#[test]
fn densities_at_the_ends_of_the_world() {
    let samples = flat(i64::MIN, i64::MIN, 1);
    let lattice = sample_densities(&samples, i32::MAX);
    assert_eq!(lattice[0], -179786207294676412928);
    let samples = flat(0, i64::MAX, 1);
    let lattice = sample_densities(&samples, i32::MIN);
    assert_eq!(lattice[0], 682251341091286548420);
    assert_eq!(lattice[3], 682251339651286548420);
    for density in lattice {
        assert!(-DENSITY_LIMIT <= density && density <= DENSITY_LIMIT);
    }
}

#[test]
fn far_above_the_ground_every_density_is_negative() {
    let samples = flat(UNIT, 10 * UNIT, 3 * UNIT / 2);
    for density in sample_densities(&samples, 10_000) {
        assert!(density < 0);
    }
    assert_eq!(sample_densities(&flat(0, 0, UNIT), 10_000)[0], -150_000_000_000);
}
