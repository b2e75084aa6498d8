use fmc_vanilla::world::features::seed_of_chunk;

#[test]
fn seed_of_the_origin_is_zero() {
    assert_eq!(seed_of_chunk(1, 0, 0), 0);
    assert_eq!(seed_of_chunk(u64::MAX, 0, 0), 0);
}

#[test]
fn seed_holds_x_in_the_high_half_and_z_in_the_low_half() {
    assert_eq!(seed_of_chunk(1, 1, 2), (1u64 << 32) | 2);
    assert_eq!(seed_of_chunk(1, 16, 32), 0x0000_0010_0000_0020);
    assert_eq!(seed_of_chunk(1, i32::MAX, i32::MAX), 0x7fff_ffff_7fff_ffff);
}

#[test]
fn negative_coordinates_are_read_without_sign() {
    assert_eq!(seed_of_chunk(1, 0, -1), 0x0000_0000_ffff_ffff);
    assert_eq!(seed_of_chunk(1, -1, 0), 0xffff_ffff_0000_0000);
    assert_eq!(seed_of_chunk(1, -16, -32), 0xffff_fff0_ffff_ffe0);
    assert_eq!(seed_of_chunk(1, i32::MIN, i32::MIN), 0x8000_0000_8000_0000);
}

#[test]
fn seed_is_multiplied_by_the_world_seed() {
    assert_eq!(seed_of_chunk(3, 1, 2), 3 * ((1u64 << 32) | 2));
    assert_eq!(seed_of_chunk(0, 5, 7), 0);
}

#[test]
fn multiplication_wraps_around() {
    assert_eq!(seed_of_chunk(1 << 32, 1, 2), 2u64 << 32);
    assert_eq!(seed_of_chunk(u64::MAX, 0, 1), u64::MAX);
    assert_eq!(seed_of_chunk(u64::MAX, -1, -1), 1);
    assert_eq!(
        seed_of_chunk(0x9e37_79b9_7f4a_7c15, 48, -112),
        0x0000_0030_ffff_ff90u64.wrapping_mul(0x9e37_79b9_7f4a_7c15)
    );
}

#[test]
fn seed_does_not_depend_on_anything_else() {
    assert_eq!(seed_of_chunk(77, -3, 9), seed_of_chunk(77, -3, 9));
    assert_ne!(seed_of_chunk(77, -3, 9), seed_of_chunk(77, 9, -3));
}
