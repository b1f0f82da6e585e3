//! Tests for the block/plane straddling test and the culling pass.

use gravity_plane::culling::{block_intersects_plane, cull_blocks, plane_cell_center, Block};
use gravity_plane::vec3::Vec3;

fn v(x: i64, y: i64, z: i64) -> Vec3 {
    Vec3 { x, y, z }
}

#[test]
fn block_centered_on_the_plane_is_visible() {
    // A block centered exactly on a plane through the origin with normal
    // (1, 0, 0) has corners on both sides.
    assert!(block_intersects_plane(v(0, 0, 0), v(0, 0, 0), v(1_000_000, 0, 0)));
}

#[test]
fn block_one_unit_off_the_plane_is_hidden() {
    // A block centered one unit along the normal lies wholly on one side.
    assert!(!block_intersects_plane(v(1_000_000, 0, 0), v(0, 0, 0), v(1_000_000, 0, 0)));
}

#[test]
fn face_exactly_on_the_plane_counts_for_neither_side() {
    // With its near face exactly on the plane, the block has corners on
    // the plane and corners above it, but none strictly below: hidden.
    assert!(!block_intersects_plane(v(500_000, 0, 0), v(0, 0, 0), v(1_000_000, 0, 0)));
}

#[test]
fn straddling_works_against_an_oblique_normal() {
    let normal = v(707_107, 707_107, 0);
    assert!(block_intersects_plane(v(0, 0, 0), v(0, 0, 0), normal));
    assert!(!block_intersects_plane(v(2_000_000, 2_000_000, 0), v(0, 0, 0), normal));
}

#[test]
fn culling_pass_reclassifies_every_block() {
    let mut blocks = vec![
        Block { center: v(0, 0, 0), visible: false },
        Block { center: v(1_000_000, 0, 0), visible: true },
        Block { center: v(0, 3_000_000, -2_000_000), visible: false },
    ];
    cull_blocks(&mut blocks, v(0, 0, 0), v(1_000_000, 0, 0));
    assert_eq!(blocks.len(), 3);
    assert!(blocks[0].visible);
    assert!(!blocks[1].visible);
    // The third block sits on the plane in x as well: visible.
    assert!(blocks[2].visible);
    assert_eq!(blocks[2].center, v(0, 3_000_000, -2_000_000));
}

#[test]
fn cell_center_floors_and_offsets() {
    // floor(1.75) + 0.5 = 1.5; floor(-0.25) + 0.5 = -0.5; whole numbers
    // keep their own cell.
    assert_eq!(
        plane_cell_center(v(1_750_000, -250_000, 2_000_000)),
        v(1_500_000, -500_000, 2_500_000)
    );
    assert_eq!(plane_cell_center(v(0, 0, 0)), v(500_000, 500_000, 500_000));
    assert_eq!(
        plane_cell_center(v(-1_000_000, -999_999, 999_999)),
        v(-500_000, -500_000, 500_000)
    );
}
