use rust_game_engine::util::aabb::layer::{CollisionLayers, DYNAMIC, OUTER_WALL, TILE};
use rust_game_engine::util::aabb::{Aabb, Axis};

#[test]
fn aabb_from_width_height_starts_at_origin() {
    let b = Aabb::from_width_height(8, 4);
    assert_eq!(b, Aabb { x1: 0, y1: 0, x2: 7, y2: 3 });
}

#[test]
fn aabb_of_one_pixel_has_equal_corners() {
    let b = Aabb::from_width_height(1, 1);
    assert_eq!(b, Aabb { x1: 0, y1: 0, x2: 0, y2: 0 });
}

#[test]
fn aabb_from_pos_width_height_is_inclusive() {
    let b = Aabb::from_pos_width_height(10, -5, 8, 8);
    assert_eq!(b, Aabb { x1: 10, y1: -5, x2: 17, y2: 2 });
}

#[test]
fn aabb_from_pos_reaches_the_edge_of_the_grid() {
    let b = Aabb::from_pos_width_height(i32::MAX, i32::MAX - 1, 1, 2);
    assert_eq!(b, Aabb { x1: i32::MAX, y1: i32::MAX - 1, x2: i32::MAX, y2: i32::MAX });
}

#[test]
fn aabb_offset4_moves_each_coordinate() {
    let b = Aabb { x1: 1, y1: 2, x2: 3, y2: 4 }.offset4(10, 20, 30, 40);
    assert_eq!(b, Aabb { x1: 11, y1: 22, x2: 33, y2: 44 });
}

#[test]
fn aabb_offset_keeps_the_size() {
    let b = Aabb { x1: 1, y1: 2, x2: 3, y2: 4 }.offset(-5, 7);
    assert_eq!(b, Aabb { x1: -4, y1: 9, x2: -2, y2: 11 });
}

#[test]
fn aabb_grow_moves_corners_outwards() {
    let b = Aabb { x1: 10, y1: 10, x2: 20, y2: 20 }.grow(1, 2, 3, 4);
    assert_eq!(b, Aabb { x1: 9, y1: 8, x2: 23, y2: 24 });
}

#[test]
fn aabb_union_is_the_hull() {
    let a = Aabb { x1: 0, y1: 5, x2: 7, y2: 12 };
    let b = Aabb { x1: 3, y1: 0, x2: 20, y2: 6 };
    assert_eq!(Aabb::union(a, b), Aabb { x1: 0, y1: 0, x2: 20, y2: 12 });
    assert_eq!(Aabb::union(b, a), Aabb { x1: 0, y1: 0, x2: 20, y2: 12 });
}

#[test]
fn aabb_intersects_when_sharing_one_pixel() {
    let a = Aabb { x1: 0, y1: 0, x2: 7, y2: 7 };
    let b = Aabb { x1: 7, y1: 7, x2: 10, y2: 10 };
    assert!(a.intersects(b));
    assert!(b.intersects(a));
}

#[test]
fn aabb_does_not_intersect_when_adjacent() {
    let a = Aabb { x1: 0, y1: 0, x2: 7, y2: 7 };
    let right = Aabb { x1: 8, y1: 0, x2: 15, y2: 7 };
    let below = Aabb { x1: 0, y1: 8, x2: 7, y2: 15 };
    assert!(!a.intersects(right));
    assert!(!right.intersects(a));
    assert!(!a.intersects(below));
    assert!(!below.intersects(a));
}

#[test]
fn aabb_intersects_when_one_contains_the_other() {
    let outer = Aabb { x1: -10, y1: -10, x2: 10, y2: 10 };
    let inner = Aabb { x1: 0, y1: 0, x2: 1, y2: 1 };
    assert!(outer.intersects(inner));
    assert!(inner.intersects(outer));
}

#[test]
fn collision_layers_are_distinct_bits() {
    let all: CollisionLayers = OUTER_WALL | TILE | DYNAMIC;
    assert_eq!(OUTER_WALL, 1);
    assert_eq!(TILE, 2);
    assert_eq!(DYNAMIC, 4);
    assert_eq!(all, 7);
    assert_eq!(OUTER_WALL & TILE, 0);
    assert_eq!(TILE & DYNAMIC, 0);
}

#[test]
fn aabb_offset_along_moves_one_axis_only() {
    let b = Aabb { x1: 1, y1: 2, x2: 3, y2: 4 };
    assert_eq!(b.offset_along(Axis::X, 10), Aabb { x1: 11, y1: 2, x2: 13, y2: 4 });
    assert_eq!(b.offset_along(Axis::Y, -10), Aabb { x1: 1, y1: -8, x2: 3, y2: -6 });
}
