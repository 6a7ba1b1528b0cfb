//! Mesh topology for a height-field grid.
//!
//! A `width x height` grid of samples becomes one vertex per sample, laid out
//! row-major (`index = z * width + x`), and two counter-clockwise triangles
//! per grid quad. The functions here produce the discrete structure of that
//! mesh — vertex ordering, triangle indices, and the clamped 3x3 neighbourhood
//! used by the Sobel normal filter — with exact contracts. The rendering
//! layer maps this structure to world-space float attributes.

use vstd::prelude::*;
use vstd::arithmetic::div_mod::lemma_fundamental_div_mod_converse;

verus! {

/// Selects the algorithm used to compute per-vertex normals.
#[derive(Debug, Clone, Copy, PartialEq, Eq, Structural)]
pub enum NormalMethod {
    /// Area-weighted average of adjacent triangle face normals (default).
    ///
    /// Accumulates the unnormalized cross-product of each triangle at its
    /// three vertices, then normalizes, so larger triangles weigh more.
    AreaWeighted,
    /// Sobel filter applied directly to the height grid.
    ///
    /// Estimates the height gradient at each vertex from its clamped 3x3
    /// neighbourhood and derives the normal analytically.
    Sobel,
}

impl Default for NormalMethod {
    fn default() -> (method: Self)
        ensures
            method == NormalMethod::AreaWeighted,
    {
        NormalMethod::AreaWeighted
    }
}

/// The row-major position of grid sample `(x, z)` inside the vertex buffers:
/// every vertex attribute array is indexed by `z * width + x`.
pub proof fn lemma_row_major_round_trip(width: int, x: int, z: int)
    requires
        width >= 1,
        0 <= x < width,
        0 <= z,
    ensures
        (z * width + x) % width == x,
        (z * width + x) / width == z,
{
    lemma_fundamental_div_mod_converse(z * width + x, width, z, x);
}

/// Emits the grid coordinates `(x, z)` of every vertex, in the row-major
/// order in which the mesh builder emits vertex attributes: vertex `i` sits
/// at column `i % width`, row `i / width`.
pub fn vertex_grid_coords(width: usize, height: usize) -> (coords: Vec<(usize, usize)>)
    requires
        width >= 1,
        height >= 1,
        width * height <= usize::MAX,
    ensures
        coords@.len() == width * height,
        forall|i: int|
            0 <= i < coords@.len() ==> (#[trigger] coords@[i]).0 == i % (width as int)
                && coords@[i].1 == i / (width as int),
{
    let mut coords: Vec<(usize, usize)> = Vec::new();
    let mut z: usize = 0;
    while z < height
        invariant
            width >= 1,
            height >= 1,
            width * height <= usize::MAX,
            z <= height,
            coords@.len() == z * width,
            forall|i: int|
                0 <= i < coords@.len() ==> (#[trigger] coords@[i]).0 == i % (width as int)
                    && coords@[i].1 == i / (width as int),
        decreases height - z,
    {
        let mut x: usize = 0;
        while x < width
            invariant
                width >= 1,
                height >= 1,
                width * height <= usize::MAX,
                z < height,
                x <= width,
                coords@.len() == z * width + x,
                forall|i: int|
                    0 <= i < coords@.len() ==> (#[trigger] coords@[i]).0 == i % (width as int)
                        && coords@[i].1 == i / (width as int),
            decreases width - x,
        {
            proof {
                lemma_row_major_round_trip(width as int, x as int, z as int);
            }
            coords.push((x, z));
            x = x + 1;
        }
        proof {
            assert((z + 1) * width == z * width + width) by (nonlinear_arith);
        }
        z = z + 1;
    }
    proof {
        assert(height * width == width * height) by (nonlinear_arith);
    }
    coords
}

/// Start of the six indices that quad `(qx, qz)` contributes to the triangle
/// list: quads are emitted row-major over the `(width - 1) x (height - 1)`
/// quad grid.
pub open spec fn quad_base(width: int, qx: int, qz: int) -> int {
    6 * (qz * (width - 1) + qx)
}

/// The two counter-clockwise triangles of quad `(qx, qz)`, as they stand in
/// the triangle list `s`: `(top-left, bottom-left, top-right)` followed by
/// `(top-right, bottom-left, bottom-right)`. This winding faces +Y on flat
/// terrain.
pub open spec fn quad_indices_ok(s: Seq<u32>, width: int, qx: int, qz: int) -> bool {
    let top_left = qz * width + qx;
    let bottom_left = (qz + 1) * width + qx;
    let base = quad_base(width, qx, qz);
    &&& s[base] == top_left
    &&& s[base + 1] == bottom_left
    &&& s[base + 2] == top_left + 1
    &&& s[base + 3] == top_left + 1
    &&& s[base + 4] == bottom_left
    &&& s[base + 5] == bottom_left + 1
}

/// A sample at row `r`, column `c` of a `width x height` grid sits strictly
/// inside the vertex range.
proof fn lemma_grid_index_bound(r: int, c: int, width: int, height: int)
    by (nonlinear_arith)
    requires
        0 <= r < height,
        0 <= c < width,
    ensures
        0 <= r * width + c < width * height,
{
}

/// Quads emitted earlier in row-major order start earlier in the index list.
proof fn lemma_quad_order(width: int, x1: int, z1: int, x2: int, z2: int)
    by (nonlinear_arith)
    requires
        width >= 2,
        0 <= x1 < width - 1,
        0 <= x2,
        0 <= z1,
        0 <= z2,
        z1 < z2 || (z1 == z2 && x1 < x2),
    ensures
        z1 * (width - 1) + x1 < z2 * (width - 1) + x2,
{
}

/// Generates the triangle list for a `width x height` vertex grid: each of
/// the `(width - 1) * (height - 1)` quads contributes two counter-clockwise
/// triangles, six `u32` indices in all, and every index addresses one of the
/// `width * height` vertices.
///
/// Grids smaller than 2x2 admit no triangle at all, so such dimensions are a
/// caller error, excluded by precondition rather than reported.
pub fn grid_indices(width: usize, height: usize) -> (indices: Vec<u32>)
    requires
        width >= 2,
        height >= 2,
        width * height <= u32::MAX,
    ensures
        indices@.len() == 6 * ((width - 1) * (height - 1)),
        forall|k: int| 0 <= k < indices@.len() ==> (#[trigger] indices@[k]) < width * height,
        forall|qx: int, qz: int|
            0 <= qx < width - 1 && 0 <= qz < height - 1 ==> quad_indices_ok(
                indices@,
                width as int,
                qx,
                qz,
            ),
{
    let mut indices: Vec<u32> = Vec::new();
    let mut qz: usize = 0;
    while qz < height - 1
        invariant
            width >= 2,
            height >= 2,
            width * height <= u32::MAX,
            qz <= height - 1,
            indices@.len() == 6 * (qz * (width - 1)),
            forall|k: int| 0 <= k < indices@.len() ==> (#[trigger] indices@[k]) < width * height,
            forall|x2: int, z2: int|
                0 <= x2 < width - 1 && 0 <= z2 < qz ==> quad_indices_ok(
                    indices@,
                    width as int,
                    x2,
                    z2,
                ),
        decreases height - 1 - qz,
    {
        let mut qx: usize = 0;
        while qx < width - 1
            invariant
                width >= 2,
                height >= 2,
                width * height <= u32::MAX,
                qz < height - 1,
                qx <= width - 1,
                indices@.len() == 6 * (qz * (width - 1) + qx),
                forall|k: int|
                    0 <= k < indices@.len() ==> (#[trigger] indices@[k]) < width * height,
                forall|x2: int, z2: int|
                    (0 <= x2 < width - 1 && 0 <= z2 < qz) || (z2 == qz && 0 <= x2 < qx)
                        ==> quad_indices_ok(indices@, width as int, x2, z2),
            decreases width - 1 - qx,
        {
            proof {
                lemma_grid_index_bound(qz as int, qx as int, width as int, height as int);
                lemma_grid_index_bound(qz as int, qx + 1, width as int, height as int);
                lemma_grid_index_bound(qz + 1, qx as int, width as int, height as int);
                lemma_grid_index_bound(qz + 1, qx + 1, width as int, height as int);
            }
            let ghost before = indices@;
            let top_left: usize = qz * width + qx;
            let bottom_left: usize = (qz + 1) * width + qx;
            indices.push(top_left as u32);
            indices.push(bottom_left as u32);
            indices.push((top_left + 1) as u32);
            indices.push((top_left + 1) as u32);
            indices.push(bottom_left as u32);
            indices.push((bottom_left + 1) as u32);
            proof {
                assert(forall|i: int| 0 <= i < before.len() ==> indices@[i] == before[i]);
                assert(quad_indices_ok(indices@, width as int, qx as int, qz as int));
                assert forall|x2: int, z2: int|
                    (0 <= x2 < width - 1 && 0 <= z2 < qz) || (z2 == qz && 0 <= x2 < qx)
                        implies quad_indices_ok(indices@, width as int, x2, z2) by {
                    lemma_quad_order(width as int, x2, z2, qx as int, qz as int);
                    assert(quad_indices_ok(before, width as int, x2, z2));
                }
            }
            qx = qx + 1;
        }
        proof {
            assert((qz + 1) * (width - 1) == qz * (width - 1) + (width - 1)) by (nonlinear_arith);
        }
        qz = qz + 1;
    }
    proof {
        assert((height - 1) * (width - 1) == (width - 1) * (height - 1)) by (nonlinear_arith);
    }
    indices
}

/// A grid coordinate offset by one step and clamped to `[0, hi]`: the Sobel
/// filter never wraps and never samples out of bounds.
pub open spec fn clamped_coord(v: int, hi: int) -> int {
    if v < 0 {
        0
    } else if v > hi {
        hi
    } else {
        v
    }
}

/// The row-major sample indices of the clamped 3x3 neighbourhood around grid
/// vertex `(x, z)`, ordered row by row: tap `3 * dz + dx` (for offsets
/// `dz - 1`, `dx - 1`) addresses height sample
/// `clamp(z + dz - 1) * width + clamp(x + dx - 1)`. Edge vertices re-read
/// their nearest in-bounds neighbour, so every tap is a valid sample index.
#[verifier::rlimit(50)]
pub fn sobel_neighborhood(x: usize, z: usize, width: usize, height: usize) -> (taps: Vec<usize>)
    requires
        x < width,
        z < height,
        width * height <= usize::MAX,
    ensures
        taps@.len() == 9,
        forall|j: int| 0 <= j < 9 ==> (#[trigger] taps@[j]) < width * height,
        taps@[0] == clamped_coord(z - 1, height - 1) * width + clamped_coord(x - 1, width - 1),
        taps@[1] == clamped_coord(z - 1, height - 1) * width + x,
        taps@[2] == clamped_coord(z - 1, height - 1) * width + clamped_coord(x + 1, width - 1),
        taps@[3] == z * width + clamped_coord(x - 1, width - 1),
        taps@[4] == z * width + x,
        taps@[5] == z * width + clamped_coord(x + 1, width - 1),
        taps@[6] == clamped_coord(z + 1, height - 1) * width + clamped_coord(x - 1, width - 1),
        taps@[7] == clamped_coord(z + 1, height - 1) * width + x,
        taps@[8] == clamped_coord(z + 1, height - 1) * width + clamped_coord(x + 1, width - 1),
{
    let x_minus: usize = if x > 0 {
        x - 1
    } else {
        0
    };
    let x_plus: usize = if x + 1 < width {
        x + 1
    } else {
        width - 1
    };
    let z_minus: usize = if z > 0 {
        z - 1
    } else {
        0
    };
    let z_plus: usize = if z + 1 < height {
        z + 1
    } else {
        height - 1
    };
    proof {
        lemma_grid_index_bound(z_minus as int, x_plus as int, width as int, height as int);
        lemma_grid_index_bound(z as int, x_plus as int, width as int, height as int);
        lemma_grid_index_bound(z_plus as int, x_plus as int, width as int, height as int);
    }
    let row_minus: usize = z_minus * width;
    let row_center: usize = z * width;
    let row_plus: usize = z_plus * width;
    let mut taps: Vec<usize> = Vec::new();
    taps.push(row_minus + x_minus);
    taps.push(row_minus + x);
    taps.push(row_minus + x_plus);
    taps.push(row_center + x_minus);
    taps.push(row_center + x);
    taps.push(row_center + x_plus);
    taps.push(row_plus + x_minus);
    taps.push(row_plus + x);
    taps.push(row_plus + x_plus);
    taps
}

} // verus!
