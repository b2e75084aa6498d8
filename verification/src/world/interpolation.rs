//! Reconstruction of the density of every cell from the densities on the
//! lattice.
//!
//! The density of a cell is interpolated linearly along each axis between the
//! eight samples around it. Interpolating between two samples in `n` steps
//! divides by `n`; to stay exact, the densities of a volume are left
//! undivided and count in steps of 1/128 of the steps of the lattice.

use vstd::prelude::*;
use crate::world::density::{
    as_ints, lattice_index, volume_index, DENSITY_LIMIT, LATTICE_LEN, VOLUME_LEN,
};

verus! {

/// How many times finer than on the lattice the densities of a volume count.
pub const INTERPOLATION_SCALE: i128 = 128;

/// `steps` times the value that lies `step` of `steps` steps from `low`
/// towards `high`.
pub open spec fn blend(low: int, high: int, step: int, steps: int) -> int {
    low * (steps - step) + high * step
}

/// Eight times the density at height `y` of the chunk on the vertical line
/// through the samples at `(x, z)` of the lattice.
pub open spec fn on_edge(lattice: Seq<int>, x: int, y: int, z: int) -> int {
    blend(
        lattice[lattice_index(x, y / 8, z)],
        lattice[lattice_index(x, y / 8 + 1, z)],
        y % 8,
        8,
    )
}

/// 32 times the density at `(x, y)` of the chunk in the vertical plane
/// through the samples at `z` of the lattice.
pub open spec fn on_face(lattice: Seq<int>, x: int, y: int, z: int) -> int {
    blend(on_edge(lattice, x / 4, y, z), on_edge(lattice, x / 4 + 1, y, z), x % 4, 4)
}

/// 128 times the density of the cell at `(x, y, z)` of the chunk.
pub open spec fn trilinear(lattice: Seq<int>, x: int, y: int, z: int) -> int {
    blend(on_face(lattice, x, y, z / 4), on_face(lattice, x, y, z / 4 + 1), z % 4, 4)
}

/// The volume of densities between the samples of a lattice.
pub open spec fn interpolated(lattice: Seq<int>) -> Seq<int> {
    Seq::new(VOLUME_LEN as nat, |i: int| trilinear(lattice, i / 384, i % 24, (i / 24) % 16))
}

/// Whether the cell stored at `i` lies between the sample at `(x, y, z)` of
/// the lattice and its neighbours in the positive directions.
spec fn in_cell(i: int, x: int, y: int, z: int) -> bool {
    (i / 384) / 4 == x && (i % 24) / 8 == y && ((i / 24) % 16) / 4 == z
}

/// A blend begins at its low end and ends at its high end.
pub proof fn lemma_blend_ends(low: int, high: int, steps: int)
    ensures
        blend(low, high, 0, steps) == steps * low,
        blend(low, high, steps, steps) == steps * high,
{
    assert(low * (steps - 0) + high * 0 == steps * low) by (nonlinear_arith);
    assert(low * (steps - steps) + high * steps == steps * high) by (nonlinear_arith);
}

/// One step further, a blend grows by the difference of its ends.
pub proof fn lemma_blend_step(low: int, high: int, step: int, steps: int)
    ensures
        blend(low, high, step + 1, steps) == blend(low, high, step, steps) + (high - low),
{
    assert(low * (steps - (step + 1)) == low * (steps - step) - low) by (nonlinear_arith);
    assert(high * (step + 1) == high * step + high) by (nonlinear_arith);
}

/// A blend is no greater than its ends: where neither end is above
/// `ceiling`, the blend is not either, `steps` times over.
pub proof fn lemma_blend_at_most(low: int, high: int, step: int, steps: int, ceiling: int)
    requires
        low <= ceiling,
        high <= ceiling,
        0 <= step <= steps,
    ensures
        blend(low, high, step, steps) <= steps * ceiling,
{
    let rest = steps - step;
    assert(low * rest <= rest * ceiling) by (nonlinear_arith)
        requires
            low <= ceiling,
            0 <= rest,
    ;
    assert(high * step <= step * ceiling) by (nonlinear_arith)
        requires
            high <= ceiling,
            0 <= step,
    ;
    assert(rest * ceiling + step * ceiling == steps * ceiling) by (nonlinear_arith)
        requires
            rest + step == steps,
    ;
}

/// A blend is no less than its ends: where neither end is under `floor`, the
/// blend is not either, `steps` times over.
pub proof fn lemma_blend_at_least(low: int, high: int, step: int, steps: int, floor: int)
    requires
        floor <= low,
        floor <= high,
        0 <= step <= steps,
    ensures
        steps * floor <= blend(low, high, step, steps),
{
    let rest = steps - step;
    assert(rest * floor <= low * rest) by (nonlinear_arith)
        requires
            floor <= low,
            0 <= rest,
    ;
    assert(step * floor <= high * step) by (nonlinear_arith)
        requires
            floor <= high,
            0 <= step,
    ;
    assert(rest * floor + step * floor == steps * floor) by (nonlinear_arith)
        requires
            rest + step == steps,
    ;
}

/// A blend is no larger in magnitude than its ends, `steps` times over.
pub proof fn lemma_blend_bound(low: int, high: int, step: int, steps: int, limit: int)
    requires
        -limit <= low <= limit,
        -limit <= high <= limit,
        0 <= step <= steps,
    ensures
        -(steps * limit) <= blend(low, high, step, steps) <= steps * limit,
{
    lemma_blend_at_most(low, high, step, steps, limit);
    lemma_blend_at_least(low, high, step, steps, -limit);
    assert(steps * (-limit) == -(steps * limit)) by (nonlinear_arith);
}

/// Interpolation adds no height: where no sample of a lattice is above
/// `ceiling`, no density of its volume is, in the finer steps of the volume.
pub proof fn lemma_interpolated_at_most(lattice: Seq<int>, ceiling: int, i: int)
    requires
        lattice.len() == LATTICE_LEN,
        forall|j: int| 0 <= j < lattice.len() ==> #[trigger] lattice[j] <= ceiling,
        0 <= i < VOLUME_LEN,
    ensures
        interpolated(lattice)[i] <= INTERPOLATION_SCALE * ceiling,
{
    let (x, y, z) = (i / 384, i % 24, (i / 24) % 16);
    let (xn, yn, zn) = (x / 4, y / 8, z / 4);
    assert(0 <= xn < 4 && 0 <= yn < 3 && 0 <= zn < 4);
    assert forall|dx: int, dz: int| 0 <= dx <= 1 && 0 <= dz <= 1 implies #[trigger] on_edge(
        lattice,
        xn + dx,
        y,
        zn + dz,
    ) <= 8 * ceiling by {
        let below = lattice_index(xn + dx, yn, zn + dz);
        let above = lattice_index(xn + dx, yn + 1, zn + dz);
        assert(0 <= below < LATTICE_LEN && 0 <= above < LATTICE_LEN);
        lemma_blend_at_most(lattice[below], lattice[above], y % 8, 8, ceiling);
    }
    assert forall|dz: int| 0 <= dz <= 1 implies #[trigger] on_face(lattice, x, y, zn + dz) <= 32
        * ceiling by {
        let left = on_edge(lattice, xn, y, zn + dz);
        let right = on_edge(lattice, xn + 1, y, zn + dz);
        assert(left == on_edge(lattice, xn + 0, y, zn + dz));
        lemma_blend_at_most(left, right, x % 4, 4, 8 * ceiling);
    }
    let back = on_face(lattice, x, y, zn);
    let front = on_face(lattice, x, y, zn + 1);
    assert(back == on_face(lattice, x, y, zn + 0));
    lemma_blend_at_most(back, front, z % 4, 4, 32 * ceiling);
}

/// Interpolation adds no depth: where no sample of a lattice is under
/// `floor`, no density of its volume is, in the finer steps of the volume.
pub proof fn lemma_interpolated_at_least(lattice: Seq<int>, floor: int, i: int)
    requires
        lattice.len() == LATTICE_LEN,
        forall|j: int| 0 <= j < lattice.len() ==> floor <= #[trigger] lattice[j],
        0 <= i < VOLUME_LEN,
    ensures
        INTERPOLATION_SCALE * floor <= interpolated(lattice)[i],
{
    let (x, y, z) = (i / 384, i % 24, (i / 24) % 16);
    let (xn, yn, zn) = (x / 4, y / 8, z / 4);
    assert(0 <= xn < 4 && 0 <= yn < 3 && 0 <= zn < 4);
    assert forall|dx: int, dz: int| 0 <= dx <= 1 && 0 <= dz <= 1 implies 8 * floor
        <= #[trigger] on_edge(lattice, xn + dx, y, zn + dz) by {
        let below = lattice_index(xn + dx, yn, zn + dz);
        let above = lattice_index(xn + dx, yn + 1, zn + dz);
        assert(0 <= below < LATTICE_LEN && 0 <= above < LATTICE_LEN);
        lemma_blend_at_least(lattice[below], lattice[above], y % 8, 8, floor);
    }
    assert forall|dz: int| 0 <= dz <= 1 implies 32 * floor <= #[trigger] on_face(
        lattice,
        x,
        y,
        zn + dz,
    ) by {
        let left = on_edge(lattice, xn, y, zn + dz);
        let right = on_edge(lattice, xn + 1, y, zn + dz);
        assert(left == on_edge(lattice, xn + 0, y, zn + dz));
        lemma_blend_at_least(left, right, x % 4, 4, 8 * floor);
    }
    let back = on_face(lattice, x, y, zn);
    let front = on_face(lattice, x, y, zn + 1);
    assert(back == on_face(lattice, x, y, zn + 0));
    lemma_blend_at_least(back, front, z % 4, 4, 32 * floor);
}

/// Interpolation is exact at the samples: the density of a cell that lies on
/// a sample of the lattice is the density of the sample, in the finer steps
/// of the volume.
pub proof fn lemma_exact_at_samples(lattice: Seq<int>, x: int, y: int, z: int)
    requires
        0 <= x < 4,
        0 <= y < 3,
        0 <= z < 4,
    ensures
        trilinear(lattice, 4 * x, 8 * y, 4 * z) == INTERPOLATION_SCALE * lattice[lattice_index(
            x,
            y,
            z,
        )],
        interpolated(lattice)[volume_index(4 * x, 8 * y, 4 * z)] == INTERPOLATION_SCALE
            * lattice[lattice_index(x, y, z)],
{
    let i = volume_index(4 * x, 8 * y, 4 * z);
    assert(i / 384 == 4 * x && i % 24 == 8 * y && (i / 24) % 16 == 4 * z);
    let sample = lattice[lattice_index(x, y, z)];
    lemma_blend_ends(sample, lattice[lattice_index(x, y + 1, z)], 8);
    let edge = on_edge(lattice, x, 8 * y, z);
    assert(edge == 8 * sample);
    lemma_blend_ends(edge, on_edge(lattice, x + 1, 8 * y, z), 4);
    let face = on_face(lattice, 4 * x, 8 * y, z);
    assert(face == 32 * sample);
    lemma_blend_ends(face, on_face(lattice, 4 * x, 8 * y, z + 1), 4);
}

/// Whether the cell stored at `i` lies in the row of four cells at `(x, y)`
/// of the chunk that begins at the sample `z` of the lattice.
spec fn in_row(i: int, x: int, y: int, z: int) -> bool {
    i / 384 == x && i % 24 == y && ((i / 24) % 16) / 4 == z
}

/// Whether the cell stored at `i` lies at height `y` of the chunk between
/// the sample at `(x, z)` of the lattice and its neighbours in the positive
/// directions.
spec fn in_layer(i: int, x: int, y: int, z: int) -> bool {
    (i / 384) / 4 == x && i % 24 == y && ((i / 24) % 16) / 4 == z
}

/// The density in a layer whose corners have the given densities, at the
/// steps `(x_index, z_index)` from the back left corner.
spec fn in_square(
    back_left: int,
    front_left: int,
    back_right: int,
    front_right: int,
    x_index: int,
    z_index: int,
) -> int {
    blend(
        blend(back_left, back_right, x_index, 4),
        blend(front_left, front_right, x_index, 4),
        z_index,
        4,
    )
}

/// Fills in a row of four cells from `back` to `front`, adding the same
/// difference at every step.
fn interpolate_row(
    back: i128,
    front: i128,
    x: usize,
    y: usize,
    z_noise: usize,
    result: &mut Vec<i128>,
)
    requires
        -32 * DENSITY_LIMIT <= back <= 32 * DENSITY_LIMIT,
        -32 * DENSITY_LIMIT <= front <= 32 * DENSITY_LIMIT,
        x < 16,
        y < 24,
        z_noise < 4,
        old(result).len() == VOLUME_LEN,
    ensures
        final(result).len() == VOLUME_LEN,
        forall|i: int|
            0 <= i < VOLUME_LEN && in_row(i, x as int, y as int, z_noise as int)
                ==> #[trigger] final(result)[i] == blend(
                back as int,
                front as int,
                ((i / 24) % 16) % 4,
                4,
            ),
        forall|i: int|
            0 <= i < VOLUME_LEN && !in_row(i, x as int, y as int, z_noise as int)
                ==> #[trigger] final(result)[i] == old(result)[i],
{
    let bottom_increment: i128 = front - back;
    let mut density: i128 = 4 * back;
    let mut z_index: usize = 0;
    while z_index < 4
        invariant
            z_index <= 4,
            x < 16,
            y < 24,
            z_noise < 4,
            -32 * DENSITY_LIMIT <= back <= 32 * DENSITY_LIMIT,
            -32 * DENSITY_LIMIT <= front <= 32 * DENSITY_LIMIT,
            bottom_increment == front - back,
            result.len() == VOLUME_LEN,
            density == blend(back as int, front as int, z_index as int, 4),
            forall|i: int|
                0 <= i < VOLUME_LEN && in_row(i, x as int, y as int, z_noise as int) && ((i / 24)
                    % 16) % 4 < z_index ==> #[trigger] result[i] == blend(
                    back as int,
                    front as int,
                    ((i / 24) % 16) % 4,
                    4,
                ),
            forall|i: int|
                0 <= i < VOLUME_LEN && !in_row(i, x as int, y as int, z_noise as int)
                    ==> #[trigger] result[i] == old(result)[i],
        decreases 4 - z_index,
    {
        let z = z_noise * 4 + z_index;
        let index = x * 384 + z * 24 + y;
        proof {
            lemma_blend_bound(back as int, front as int, z_index as int, 4, 32 * DENSITY_LIMIT);
            lemma_blend_bound(back as int, front as int, z_index + 1, 4, 32 * DENSITY_LIMIT);
            lemma_blend_step(back as int, front as int, z_index as int, 4);
            assert(index / 384 == x && index % 24 == y && (index / 24) % 16 == z);
        }
        result[index] = density;
        density += bottom_increment;
        z_index += 1;
    }
}

/// Fills in the sixteen cells of a layer between four edges, on which the
/// densities are given, carrying the densities on two faces from the left to
/// the right.
fn interpolate_layer(
    back_left: i128,
    front_left: i128,
    back_right: i128,
    front_right: i128,
    x_noise: usize,
    y: usize,
    z_noise: usize,
    result: &mut Vec<i128>,
)
    requires
        -8 * DENSITY_LIMIT <= back_left <= 8 * DENSITY_LIMIT,
        -8 * DENSITY_LIMIT <= front_left <= 8 * DENSITY_LIMIT,
        -8 * DENSITY_LIMIT <= back_right <= 8 * DENSITY_LIMIT,
        -8 * DENSITY_LIMIT <= front_right <= 8 * DENSITY_LIMIT,
        x_noise < 4,
        y < 24,
        z_noise < 4,
        old(result).len() == VOLUME_LEN,
    ensures
        final(result).len() == VOLUME_LEN,
        forall|i: int|
            0 <= i < VOLUME_LEN && in_layer(i, x_noise as int, y as int, z_noise as int)
                ==> #[trigger] final(result)[i] == in_square(
                back_left as int,
                front_left as int,
                back_right as int,
                front_right as int,
                (i / 384) % 4,
                ((i / 24) % 16) % 4,
            ),
        forall|i: int|
            0 <= i < VOLUME_LEN && !in_layer(i, x_noise as int, y as int, z_noise as int)
                ==> #[trigger] final(result)[i] == old(result)[i],
{
    let back_increment: i128 = back_right - back_left;
    let front_increment: i128 = front_right - front_left;
    let mut back: i128 = 4 * back_left;
    let mut front: i128 = 4 * front_left;
    let mut x_index: usize = 0;
    while x_index < 4
        invariant
            x_index <= 4,
            x_noise < 4,
            y < 24,
            z_noise < 4,
            -8 * DENSITY_LIMIT <= back_left <= 8 * DENSITY_LIMIT,
            -8 * DENSITY_LIMIT <= front_left <= 8 * DENSITY_LIMIT,
            -8 * DENSITY_LIMIT <= back_right <= 8 * DENSITY_LIMIT,
            -8 * DENSITY_LIMIT <= front_right <= 8 * DENSITY_LIMIT,
            back_increment == back_right - back_left,
            front_increment == front_right - front_left,
            result.len() == VOLUME_LEN,
            back == blend(back_left as int, back_right as int, x_index as int, 4),
            front == blend(front_left as int, front_right as int, x_index as int, 4),
            forall|i: int|
                0 <= i < VOLUME_LEN && in_layer(i, x_noise as int, y as int, z_noise as int) && (i
                    / 384) % 4 < x_index ==> #[trigger] result[i] == in_square(
                    back_left as int,
                    front_left as int,
                    back_right as int,
                    front_right as int,
                    (i / 384) % 4,
                    ((i / 24) % 16) % 4,
                ),
            forall|i: int|
                0 <= i < VOLUME_LEN && !in_layer(i, x_noise as int, y as int, z_noise as int)
                    ==> #[trigger] result[i] == old(result)[i],
        decreases 4 - x_index,
    {
        let x = x_noise * 4 + x_index;
        proof {
            lemma_blend_bound(
                back_left as int,
                back_right as int,
                x_index as int,
                4,
                8 * DENSITY_LIMIT,
            );
            lemma_blend_bound(
                front_left as int,
                front_right as int,
                x_index as int,
                4,
                8 * DENSITY_LIMIT,
            );
            lemma_blend_bound(
                back_left as int,
                back_right as int,
                x_index + 1,
                4,
                8 * DENSITY_LIMIT,
            );
            lemma_blend_bound(
                front_left as int,
                front_right as int,
                x_index + 1,
                4,
                8 * DENSITY_LIMIT,
            );
            lemma_blend_step(back_left as int, back_right as int, x_index as int, 4);
            lemma_blend_step(front_left as int, front_right as int, x_index as int, 4);
        }
        interpolate_row(back, front, x, y, z_noise, result);
        back += back_increment;
        front += front_increment;
        x_index += 1;
    }
}

/// Fills in the cells between the sample at `(x_noise, y_noise, z_noise)` and
/// its neighbours in the positive directions, carrying the densities on the
/// four vertical edges from the bottom to the top.
fn interpolate_cell(
    noise: &Vec<i128>,
    x_noise: usize,
    y_noise: usize,
    z_noise: usize,
    result: &mut Vec<i128>,
)
    requires
        noise.len() == LATTICE_LEN,
        forall|i: int|
            0 <= i < noise.len() ==> -DENSITY_LIMIT <= #[trigger] noise[i] <= DENSITY_LIMIT,
        x_noise < 4,
        y_noise < 3,
        z_noise < 4,
        old(result).len() == VOLUME_LEN,
    ensures
        final(result).len() == VOLUME_LEN,
        forall|i: int|
            0 <= i < VOLUME_LEN && in_cell(i, x_noise as int, y_noise as int, z_noise as int)
                ==> #[trigger] final(result)[i] == interpolated(as_ints(noise@))[i],
        forall|i: int|
            0 <= i < VOLUME_LEN && !in_cell(i, x_noise as int, y_noise as int, z_noise as int)
                ==> #[trigger] final(result)[i] == old(result)[i],
{
    let ghost lattice = as_ints(noise@);
    let ghost limit = DENSITY_LIMIT as int;
    let ghost (xn, yn, zn) = (x_noise as int, y_noise as int, z_noise as int);

    let low_back_left = noise[x_noise * 20 + z_noise * 4 + y_noise];
    let low_front_left = noise[x_noise * 20 + (z_noise + 1) * 4 + y_noise];
    let low_back_right = noise[(x_noise + 1) * 20 + z_noise * 4 + y_noise];
    let low_front_right = noise[(x_noise + 1) * 20 + (z_noise + 1) * 4 + y_noise];
    let high_back_left = noise[x_noise * 20 + z_noise * 4 + y_noise + 1];
    let high_front_left = noise[x_noise * 20 + (z_noise + 1) * 4 + y_noise + 1];
    let high_back_right = noise[(x_noise + 1) * 20 + z_noise * 4 + y_noise + 1];
    let high_front_right = noise[(x_noise + 1) * 20 + (z_noise + 1) * 4 + y_noise + 1];

    let mut back_left: i128 = 8 * low_back_left;
    let mut front_left: i128 = 8 * low_front_left;
    let mut back_right: i128 = 8 * low_back_right;
    let mut front_right: i128 = 8 * low_front_right;
    let back_left_increment: i128 = high_back_left - low_back_left;
    let front_left_increment: i128 = high_front_left - low_front_left;
    let back_right_increment: i128 = high_back_right - low_back_right;
    let front_right_increment: i128 = high_front_right - low_front_right;

    proof {
        lemma_blend_ends(low_back_left as int, high_back_left as int, 8);
        lemma_blend_ends(low_front_left as int, high_front_left as int, 8);
        lemma_blend_ends(low_back_right as int, high_back_right as int, 8);
        lemma_blend_ends(low_front_right as int, high_front_right as int, 8);
    }
    let mut y_index: usize = 0;
    while y_index < 8
        invariant
            y_index <= 8,
            x_noise < 4,
            y_noise < 3,
            z_noise < 4,
            xn == x_noise,
            yn == y_noise,
            zn == z_noise,
            limit == DENSITY_LIMIT,
            lattice == as_ints(noise@),
            noise.len() == LATTICE_LEN,
            result.len() == VOLUME_LEN,
            low_back_left == lattice[lattice_index(xn, yn, zn)],
            low_front_left == lattice[lattice_index(xn, yn, zn + 1)],
            low_back_right == lattice[lattice_index(xn + 1, yn, zn)],
            low_front_right == lattice[lattice_index(xn + 1, yn, zn + 1)],
            high_back_left == lattice[lattice_index(xn, yn + 1, zn)],
            high_front_left == lattice[lattice_index(xn, yn + 1, zn + 1)],
            high_back_right == lattice[lattice_index(xn + 1, yn + 1, zn)],
            high_front_right == lattice[lattice_index(xn + 1, yn + 1, zn + 1)],
            -limit <= low_back_left <= limit,
            -limit <= low_front_left <= limit,
            -limit <= low_back_right <= limit,
            -limit <= low_front_right <= limit,
            -limit <= high_back_left <= limit,
            -limit <= high_front_left <= limit,
            -limit <= high_back_right <= limit,
            -limit <= high_front_right <= limit,
            back_left_increment == high_back_left - low_back_left,
            front_left_increment == high_front_left - low_front_left,
            back_right_increment == high_back_right - low_back_right,
            front_right_increment == high_front_right - low_front_right,
            back_left == blend(low_back_left as int, high_back_left as int, y_index as int, 8),
            front_left == blend(low_front_left as int, high_front_left as int, y_index as int, 8),
            back_right == blend(low_back_right as int, high_back_right as int, y_index as int, 8),
            front_right == blend(
                low_front_right as int,
                high_front_right as int,
                y_index as int,
                8,
            ),
            forall|i: int|
                0 <= i < VOLUME_LEN && in_cell(i, xn, yn, zn) && (i % 24) % 8 < y_index
                    ==> #[trigger] result[i] == interpolated(lattice)[i],
            forall|i: int|
                0 <= i < VOLUME_LEN && !in_cell(i, xn, yn, zn) ==> #[trigger] result[i] == old(
                    result,
                )[i],
        decreases 8 - y_index,
    {
        let y = y_noise * 8 + y_index;
        proof {
            lemma_blend_bound(
                low_back_left as int,
                high_back_left as int,
                y_index as int,
                8,
                limit,
            );
            lemma_blend_bound(
                low_front_left as int,
                high_front_left as int,
                y_index as int,
                8,
                limit,
            );
            lemma_blend_bound(
                low_back_right as int,
                high_back_right as int,
                y_index as int,
                8,
                limit,
            );
            lemma_blend_bound(
                low_front_right as int,
                high_front_right as int,
                y_index as int,
                8,
                limit,
            );
            lemma_blend_bound(low_back_left as int, high_back_left as int, y_index + 1, 8, limit);
            lemma_blend_bound(low_front_left as int, high_front_left as int, y_index + 1, 8, limit);
            lemma_blend_bound(low_back_right as int, high_back_right as int, y_index + 1, 8, limit);
            lemma_blend_bound(
                low_front_right as int,
                high_front_right as int,
                y_index + 1,
                8,
                limit,
            );
            lemma_blend_step(low_back_left as int, high_back_left as int, y_index as int, 8);
            lemma_blend_step(low_front_left as int, high_front_left as int, y_index as int, 8);
            lemma_blend_step(low_back_right as int, high_back_right as int, y_index as int, 8);
            lemma_blend_step(low_front_right as int, high_front_right as int, y_index as int, 8);
            assert(back_left == on_edge(lattice, xn, y as int, zn));
            assert(front_left == on_edge(lattice, xn, y as int, zn + 1));
            assert(back_right == on_edge(lattice, xn + 1, y as int, zn));
            assert(front_right == on_edge(lattice, xn + 1, y as int, zn + 1));
        }
        interpolate_layer(
            back_left,
            front_left,
            back_right,
            front_right,
            x_noise,
            y,
            z_noise,
            result,
        );
        back_left += back_left_increment;
        front_left += front_left_increment;
        back_right += back_right_increment;
        front_right += front_right_increment;
        y_index += 1;
    }
}

/// Whether the scan of the lattice that stands at the cell `(x, y, z)` has
/// passed the lattice cell in which the cell stored at `i` lies.
spec fn cell_passed(i: int, x: int, y: int, z: int) -> bool {
    let cell_x = (i / 384) / 4;
    let cell_y = (i % 24) / 8;
    let cell_z = ((i / 24) % 16) / 4;
    cell_x < x || (cell_x == x && (cell_z < z || (cell_z == z && cell_y < y)))
}

/// Reconstructs the density of every cell of a chunk and of the halo above
/// it from the densities on the lattice.
///
/// The result counts in steps of 1/128 of the steps of `noise`.
pub fn interpolate(noise: &Vec<i128>) -> (result: Vec<i128>)
    requires
        noise.len() == LATTICE_LEN,
        forall|i: int|
            0 <= i < noise.len() ==> -DENSITY_LIMIT <= #[trigger] noise[i] <= DENSITY_LIMIT,
    ensures
        result.len() == VOLUME_LEN,
        as_ints(result@) == interpolated(as_ints(noise@)),
{
    let mut result: Vec<i128> = vec![0; VOLUME_LEN];
    let ghost lattice = as_ints(noise@);

    let mut x_noise: usize = 0;
    while x_noise < 4
        invariant
            x_noise <= 4,
            noise.len() == LATTICE_LEN,
            forall|i: int|
                0 <= i < noise.len() ==> -DENSITY_LIMIT <= #[trigger] noise[i] <= DENSITY_LIMIT,
            lattice == as_ints(noise@),
            result.len() == VOLUME_LEN,
            forall|i: int|
                0 <= i < VOLUME_LEN && cell_passed(i, x_noise as int, 0, 0) ==> #[trigger] result[i]
                    == interpolated(lattice)[i],
        decreases 4 - x_noise,
    {
        let mut z_noise: usize = 0;
        while z_noise < 4
            invariant
                x_noise < 4,
                z_noise <= 4,
                noise.len() == LATTICE_LEN,
                forall|i: int|
                    0 <= i < noise.len() ==> -DENSITY_LIMIT <= #[trigger] noise[i]
                        <= DENSITY_LIMIT,
                lattice == as_ints(noise@),
                result.len() == VOLUME_LEN,
                forall|i: int|
                    0 <= i < VOLUME_LEN && cell_passed(i, x_noise as int, 0, z_noise as int)
                        ==> #[trigger] result[i] == interpolated(lattice)[i],
            decreases 4 - z_noise,
        {
            let mut y_noise: usize = 0;
            while y_noise < 3
                invariant
                    x_noise < 4,
                    z_noise < 4,
                    y_noise <= 3,
                    noise.len() == LATTICE_LEN,
                    forall|i: int|
                        0 <= i < noise.len() ==> -DENSITY_LIMIT <= #[trigger] noise[i]
                            <= DENSITY_LIMIT,
                    lattice == as_ints(noise@),
                    result.len() == VOLUME_LEN,
                    forall|i: int|
                        0 <= i < VOLUME_LEN && cell_passed(
                            i,
                            x_noise as int,
                            y_noise as int,
                            z_noise as int,
                        ) ==> #[trigger] result[i] == interpolated(lattice)[i],
                decreases 3 - y_noise,
            {
                interpolate_cell(noise, x_noise, y_noise, z_noise, &mut result);
                y_noise += 1;
            }
            z_noise += 1;
        }
        x_noise += 1;
    }
    assert(as_ints(result@) =~= interpolated(lattice));
    result
}

} // verus!
