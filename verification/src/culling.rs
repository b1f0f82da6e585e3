//! Visibility culling of world blocks against the rotating plane.
//!
//! While the plane turns, every block is classified against the plane
//! through the cell center of a plane follower: a block stays visible
//! exactly when its bounding cube straddles the plane, that is, when it
//! has corners strictly on both sides. A corner exactly on the plane
//! counts for neither side; with exact integer arithmetic no further
//! epsilon guard is needed.

use vstd::prelude::*;

verus! {

use crate::fixed::SCALE;
use crate::vec3::Vec3;
use vstd::arithmetic::div_mod::{lemma_fundamental_div_mod, lemma_fundamental_div_mod_converse};

/// Half the edge of a world block: blocks are unit cubes.
pub const BLOCK_HALF_EXTENT: i64 = 500_000;

/// Largest coordinate magnitude the culler accepts: a billion world
/// units, which keeps every signed-distance product well inside `i128`.
pub const COORD_LIM: i64 = 1_000_000_000_000_000;

/// Largest plane-normal component magnitude the culler accepts; the
/// rotated unit axes the simulation produces stay within six units.
pub const NORMAL_LIM: i64 = 6_000_000;

/// A world block as the culler sees it: its center position and its
/// current visibility.
#[derive(Clone, Copy, PartialEq, Eq, Structural, Debug)]
pub struct Block {
    pub center: Vec3,
    pub visible: bool,
}

/// Offset of one corner coordinate from the block center.
pub open spec fn corner_offset(positive: bool) -> int {
    if positive {
        BLOCK_HALF_EXTENT as int
    } else {
        -BLOCK_HALF_EXTENT as int
    }
}

/// Signed distance — scaled by the normal's length and one fixed-point
/// unit, which preserves its sign — from the plane through `origin` with
/// normal `normal` to the block corner picked by the three signs.
pub open spec fn corner_distance3(
    center: Vec3,
    origin: Vec3,
    normal: Vec3,
    sx: bool,
    sy: bool,
    sz: bool,
) -> int {
    normal.x * (center.x + corner_offset(sx) - origin.x) + normal.y * (center.y + corner_offset(
        sy,
    ) - origin.y) + normal.z * (center.z + corner_offset(sz) - origin.z)
}

/// Some corner of the block lies strictly on the positive side of the
/// plane.
pub open spec fn has_corner_above(center: Vec3, origin: Vec3, normal: Vec3) -> bool {
    ||| corner_distance3(center, origin, normal, true, true, true) > 0
    ||| corner_distance3(center, origin, normal, true, true, false) > 0
    ||| corner_distance3(center, origin, normal, true, false, true) > 0
    ||| corner_distance3(center, origin, normal, true, false, false) > 0
    ||| corner_distance3(center, origin, normal, false, true, true) > 0
    ||| corner_distance3(center, origin, normal, false, true, false) > 0
    ||| corner_distance3(center, origin, normal, false, false, true) > 0
    ||| corner_distance3(center, origin, normal, false, false, false) > 0
}

/// Some corner of the block lies strictly on the negative side of the
/// plane.
pub open spec fn has_corner_below(center: Vec3, origin: Vec3, normal: Vec3) -> bool {
    ||| corner_distance3(center, origin, normal, true, true, true) < 0
    ||| corner_distance3(center, origin, normal, true, true, false) < 0
    ||| corner_distance3(center, origin, normal, true, false, true) < 0
    ||| corner_distance3(center, origin, normal, true, false, false) < 0
    ||| corner_distance3(center, origin, normal, false, true, true) < 0
    ||| corner_distance3(center, origin, normal, false, true, false) < 0
    ||| corner_distance3(center, origin, normal, false, false, true) < 0
    ||| corner_distance3(center, origin, normal, false, false, false) < 0
}

/// The block's bounding cube straddles the plane: corners strictly on
/// both sides.
pub open spec fn straddles_spec(center: Vec3, origin: Vec3, normal: Vec3) -> bool {
    has_corner_above(center, origin, normal) && has_corner_below(center, origin, normal)
}

/// Compute the scaled signed distance of one block corner from the plane.
fn corner_distance(center: Vec3, origin: Vec3, normal: Vec3, sx: bool, sy: bool, sz: bool) -> (d:
    i128)
    requires
        center.in_range(COORD_LIM as int),
        origin.in_range(COORD_LIM as int),
        normal.in_range(NORMAL_LIM as int),
    ensures
        d == corner_distance3(center, origin, normal, sx, sy, sz),
{
    let hx: i64 = if sx {
        BLOCK_HALF_EXTENT
    } else {
        -BLOCK_HALF_EXTENT
    };
    let hy: i64 = if sy {
        BLOCK_HALF_EXTENT
    } else {
        -BLOCK_HALF_EXTENT
    };
    let hz: i64 = if sz {
        BLOCK_HALF_EXTENT
    } else {
        -BLOCK_HALF_EXTENT
    };
    proof {
        lemma_distance_product_bound(normal.x as int, center.x + hx - origin.x);
        lemma_distance_product_bound(normal.y as int, center.y + hy - origin.y);
        lemma_distance_product_bound(normal.z as int, center.z + hz - origin.z);
    }
    (normal.x as i128) * (center.x as i128 + hx as i128 - origin.x as i128) + (normal.y as i128) * (
    center.y as i128 + hy as i128 - origin.y as i128) + (normal.z as i128) * (center.z as i128
        + hz as i128 - origin.z as i128)
}

/// Each term of a corner distance stays far inside `i128`.
proof fn lemma_distance_product_bound(n: int, a: int)
    requires
        -(NORMAL_LIM as int) <= n <= NORMAL_LIM as int,
        -2_100_000_000_000_000 <= a <= 2_100_000_000_000_000,
    ensures
        -13_000_000_000_000_000_000_000_000 <= n * a <= 13_000_000_000_000_000_000_000_000,
{
    assert(-13_000_000_000_000_000_000_000_000 <= n * a <= 13_000_000_000_000_000_000_000_000)
        by (nonlinear_arith)
        requires
            -6_000_000 <= n <= 6_000_000,
            -2_100_000_000_000_000 <= a <= 2_100_000_000_000_000,
    ;
}

/// Whether the block's bounding cube straddles the plane: at least one
/// corner strictly above it and at least one strictly below.
pub fn block_intersects_plane(block_center: Vec3, plane_origin: Vec3, plane_normal: Vec3) -> (r:
    bool)
    requires
        block_center.in_range(COORD_LIM as int),
        plane_origin.in_range(COORD_LIM as int),
        plane_normal.in_range(NORMAL_LIM as int),
    ensures
        r == straddles_spec(block_center, plane_origin, plane_normal),
{
    let d0 = corner_distance(block_center, plane_origin, plane_normal, true, true, true);
    let d1 = corner_distance(block_center, plane_origin, plane_normal, true, true, false);
    let d2 = corner_distance(block_center, plane_origin, plane_normal, true, false, true);
    let d3 = corner_distance(block_center, plane_origin, plane_normal, true, false, false);
    let d4 = corner_distance(block_center, plane_origin, plane_normal, false, true, true);
    let d5 = corner_distance(block_center, plane_origin, plane_normal, false, true, false);
    let d6 = corner_distance(block_center, plane_origin, plane_normal, false, false, true);
    let d7 = corner_distance(block_center, plane_origin, plane_normal, false, false, false);
    let above = d0 > 0 || d1 > 0 || d2 > 0 || d3 > 0 || d4 > 0 || d5 > 0 || d6 > 0 || d7 > 0;
    let below = d0 < 0 || d1 < 0 || d2 < 0 || d3 < 0 || d4 < 0 || d5 < 0 || d6 < 0 || d7 < 0;
    above && below
}

/// Reclassify every block against the plane: afterwards a block is
/// visible exactly when it straddles the plane; positions are untouched.
pub fn cull_blocks(blocks: &mut Vec<Block>, plane_origin: Vec3, plane_normal: Vec3)
    requires
        plane_origin.in_range(COORD_LIM as int),
        plane_normal.in_range(NORMAL_LIM as int),
        forall|i: int|
            0 <= i < old(blocks).len() ==> (#[trigger] old(blocks)[i]).center.in_range(
                COORD_LIM as int,
            ),
    ensures
        final(blocks).len() == old(blocks).len(),
        forall|i: int|
            0 <= i < old(blocks).len() ==> (#[trigger] final(blocks)[i]).center == old(
                blocks,
            )[i].center,
        forall|i: int|
            0 <= i < old(blocks).len() ==> (#[trigger] final(blocks)[i]).visible == straddles_spec(
                old(blocks)[i].center,
                plane_origin,
                plane_normal,
            ),
{
    let ghost orig = blocks@;
    let n = blocks.len();
    let mut idx: usize = 0;
    while idx < n
        invariant
            n == blocks.len(),
            idx <= n,
            orig.len() == n,
            plane_origin.in_range(COORD_LIM as int),
            plane_normal.in_range(NORMAL_LIM as int),
            forall|i: int| 0 <= i < n ==> (#[trigger] orig[i]).center.in_range(COORD_LIM as int),
            forall|i: int| idx <= i < n ==> #[trigger] blocks[i] == orig[i],
            forall|i: int| 0 <= i < idx ==> (#[trigger] blocks[i]).center == orig[i].center,
            forall|i: int|
                0 <= i < idx ==> (#[trigger] blocks[i]).visible == straddles_spec(
                    orig[i].center,
                    plane_origin,
                    plane_normal,
                ),
        decreases n - idx,
    {
        let center = blocks[idx].center;
        let visible = block_intersects_plane(center, plane_origin, plane_normal);
        blocks[idx] = Block { center, visible };
        idx = idx + 1;
    }
}

/// One coordinate of the cell center: the coordinate floored to the
/// whole-unit grid, then offset by half a unit.
pub open spec fn cell_center1(x: int) -> int {
    (x / (SCALE as int)) * (SCALE as int) + BLOCK_HALF_EXTENT
}

/// Center of the unit cell containing `p`: each coordinate is floored to
/// the whole-unit grid and offset by half a unit. The plane follower's
/// position snapped this way is the culling plane's origin.
pub fn plane_cell_center(p: Vec3) -> (r: Vec3)
    requires
        p.in_range(COORD_LIM - SCALE as int),
    ensures
        r.x == cell_center1(p.x as int),
        r.y == cell_center1(p.y as int),
        r.z == cell_center1(p.z as int),
        r.in_range(COORD_LIM as int),
{
    Vec3 { x: floor_to_cell(p.x), y: floor_to_cell(p.y), z: floor_to_cell(p.z) }
}

/// Floor one coordinate to the whole-unit grid and offset by half a unit.
fn floor_to_cell(x: i64) -> (r: i64)
    requires
        -(COORD_LIM as int) + SCALE <= x <= COORD_LIM - SCALE as int,
    ensures
        r == cell_center1(x as int),
        -(COORD_LIM as int) <= r <= COORD_LIM as int,
{
    if x >= 0 {
        let q = (x as u64) / (SCALE as u64);
        proof {
            lemma_fundamental_div_mod(x as int, SCALE as int);
        }
        (q as i64) * SCALE + BLOCK_HALF_EXTENT
    } else {
        let m = (-x) as u64;
        let q = (m + (SCALE - 1) as u64) / (SCALE as u64);
        proof {
            lemma_floor_of_negative(x as int, q as int);
        }
        -((q as i64) * SCALE) + BLOCK_HALF_EXTENT
    }
}

/// For a negative coordinate, the Euclidean floor quotient is the negated
/// ceiling quotient of its magnitude.
proof fn lemma_floor_of_negative(x: int, q: int)
    requires
        x < 0,
        q == (-x + SCALE - 1) / (SCALE as int),
    ensures
        x / (SCALE as int) == -q,
{
    let s = SCALE as int;
    let m = -x;
    lemma_fundamental_div_mod(m + s - 1, s);
    let rm = (m + s - 1) % s;
    assert(m + s - 1 == s * q + rm);
    if rm == s - 1 {
        assert(x == (-q) * s + 0) by (nonlinear_arith)
            requires
                x == -(s * q + rm - s + 1),
                rm == s - 1,
        ;
        lemma_fundamental_div_mod_converse(x, s, -q, 0);
    } else {
        assert(x == (-q) * s + (s - 1 - rm)) by (nonlinear_arith)
            requires
                x == -(s * q + rm - s + 1),
        ;
        lemma_fundamental_div_mod_converse(x, s, -q, s - 1 - rm);
    }
}

} // verus!
