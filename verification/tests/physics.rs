use rust_game_engine::game::physics::{
    collisions, tick_actor, tick_actors, tick_physics, tick_solids, DebugPhysicsActor,
    KinematicActor, PhysicsBody, PhysicsElem, StaticSolid,
};
use rust_game_engine::util::aabb::layer::{DYNAMIC, OUTER_WALL, TILE};
use rust_game_engine::util::aabb::Aabb;

fn wall(x1: i32, y1: i32, x2: i32, y2: i32) -> StaticSolid {
    StaticSolid { aabb: Aabb { x1, y1, x2, y2 }, layers: TILE }
}

fn runner(x: i32, y: i32, move_x: i32, move_y: i32) -> KinematicActor {
    KinematicActor { x, y, width: 8, height: 8, move_x, move_y, layers: TILE }
}

#[test]
fn debug_actor_is_an_eight_by_eight_box() {
    let a = DebugPhysicsActor { x: 3, y: 4 };
    assert_eq!(a.x(), 3);
    assert_eq!(a.y(), 4);
    assert_eq!(a.get_move_x(), 1);
    assert_eq!(a.get_move_y(), 1);
    assert_eq!(a.get_base_aabb(), Aabb { x1: 0, y1: 0, x2: 7, y2: 7 });
    assert_eq!(a.get_aabb(), Aabb { x1: 3, y1: 4, x2: 10, y2: 11 });
    assert_eq!(a.get_collision_layers(), u32::MAX);
}

#[test]
fn debug_actor_apply_move_adds_to_the_position() {
    let mut a = DebugPhysicsActor { x: 3, y: 4 };
    a.apply_move(-5, 6);
    assert_eq!(a, DebugPhysicsActor { x: -2, y: 10 });
}

#[test]
fn static_solid_reports_its_box() {
    let mut s = wall(10, 20, 30, 25);
    assert_eq!(s.x(), 10);
    assert_eq!(s.y(), 20);
    assert_eq!(s.get_move_x(), 0);
    assert_eq!(s.get_move_y(), 0);
    assert_eq!(s.get_base_aabb(), Aabb { x1: 0, y1: 0, x2: 20, y2: 5 });
    assert_eq!(s.get_aabb(), Aabb { x1: 10, y1: 20, x2: 30, y2: 25 });
    assert_eq!(s.get_collision_layers(), TILE);
    s.apply_move(1, -1);
    assert_eq!(s.get_aabb(), Aabb { x1: 11, y1: 19, x2: 31, y2: 24 });
}

#[test]
fn kinematic_actor_reports_its_box_and_wish() {
    let a = runner(5, 6, -3, 2);
    assert_eq!(a.get_move_x(), -3);
    assert_eq!(a.get_move_y(), 2);
    assert_eq!(a.get_base_aabb(), Aabb { x1: 0, y1: 0, x2: 7, y2: 7 });
    assert_eq!(a.get_aabb(), Aabb { x1: 5, y1: 6, x2: 12, y2: 13 });
    assert_eq!(a.get_collision_layers(), TILE);
}

#[test]
fn collisions_lists_the_solids_that_are_met_in_order() {
    let solids = vec![
        wall(100, 100, 110, 110),
        wall(5, 5, 6, 6),
        StaticSolid { aabb: Aabb { x1: 0, y1: 0, x2: 1, y2: 1 }, layers: DYNAMIC },
        wall(7, 0, 9, 0),
    ];
    let found = collisions(Aabb { x1: 0, y1: 0, x2: 7, y2: 7 }, TILE | OUTER_WALL, &solids);
    assert_eq!(found, vec![Aabb { x1: 5, y1: 5, x2: 6, y2: 6 }, Aabb { x1: 7, y1: 0, x2: 9, y2: 0 }]);
}

#[test]
fn collisions_with_no_layer_finds_nothing() {
    let solids = vec![wall(0, 0, 10, 10)];
    assert!(collisions(Aabb { x1: 0, y1: 0, x2: 7, y2: 7 }, 0, &solids).is_empty());
}

#[test]
fn actor_moves_fully_when_nothing_is_in_the_way() {
    let solids = vec![wall(100, 100, 110, 110)];
    let mut a = runner(0, 0, 10, 3);
    tick_actor(&solids, &mut a);
    assert_eq!((a.x, a.y), (10, 3));
}

#[test]
fn blocked_actor_moves_the_longest_safe_step() {
    // The actor spans x 0..=7; the wall starts at x 12. At offset 5 the
    // actor would reach x 12, so 4 is the longest safe step.
    let solids = vec![wall(12, 0, 20, 7)];
    let mut a = runner(0, 0, 10, 0);
    tick_actor(&solids, &mut a);
    assert_eq!(a.x, 4);
    assert_ne!(a.x, 0);
    assert_ne!(a.x, 10);
}

#[test]
fn blocked_actor_keeps_the_direction_of_a_move_to_the_left() {
    // The actor starts at x 30; the wall ends at x 20. At offset -10 the
    // actor would reach x 20, so -9 is the longest safe step.
    let solids = vec![wall(12, 0, 20, 7)];
    let mut a = runner(30, 0, -15, 0);
    tick_actor(&solids, &mut a);
    assert_eq!(a.x, 21);
}

#[test]
fn actor_right_in_front_of_a_wall_does_not_move() {
    let solids = vec![wall(8, 0, 20, 7)];
    let mut a = runner(0, 0, 10, 0);
    tick_actor(&solids, &mut a);
    assert_eq!(a.x, 0);
}

#[test]
fn actor_does_not_jump_over_a_thin_wall() {
    let solids = vec![wall(10, 0, 10, 7)];
    let mut a = runner(0, 0, 100, 0);
    tick_actor(&solids, &mut a);
    assert_eq!(a.x, 2);
}

#[test]
fn actor_stops_at_the_nearest_of_several_walls() {
    let solids = vec![wall(40, 0, 50, 7), wall(20, 0, 30, 7), wall(60, 0, 70, 7)];
    let mut a = runner(0, 0, 100, 0);
    tick_actor(&solids, &mut a);
    assert_eq!(a.x, 12);
}

#[test]
fn actor_ignores_solids_on_other_layers() {
    let solids = vec![StaticSolid { aabb: Aabb { x1: 12, y1: 0, x2: 20, y2: 7 }, layers: DYNAMIC }];
    let mut a = runner(0, 0, 10, 0);
    tick_actor(&solids, &mut a);
    assert_eq!(a.x, 10);
}

#[test]
fn actor_ignores_solids_beside_its_path() {
    let solids = vec![wall(12, 8, 20, 20)];
    let mut a = runner(0, 0, 10, 0);
    tick_actor(&solids, &mut a);
    assert_eq!(a.x, 10);
}

#[test]
fn vertical_move_is_stopped_by_solids() {
    // The actor spans y 0..=7; the wall starts at y 10. At offset 3 the
    // actor would reach y 10, so 2 is the longest safe step.
    let solids = vec![wall(0, 10, 7, 17)];
    let mut a = runner(0, 0, 0, 5);
    tick_actor(&solids, &mut a);
    assert_eq!((a.x, a.y), (0, 2));
}

#[test]
fn vertical_move_up_keeps_its_direction() {
    // The actor starts at y 30; the wall ends at y 20. At offset -10 the
    // actor would reach y 20, so -9 is the longest safe step.
    let solids = vec![wall(0, 12, 7, 20)];
    let mut a = runner(0, 30, 0, -15);
    tick_actor(&solids, &mut a);
    assert_eq!((a.x, a.y), (0, 21));
}

#[test]
fn vertical_move_is_free_beside_a_solid() {
    let solids = vec![wall(8, 10, 20, 17)];
    let mut a = runner(0, 0, 0, 5);
    tick_actor(&solids, &mut a);
    assert_eq!((a.x, a.y), (0, 5));
}

#[test]
fn vertical_move_does_not_jump_over_a_thin_floor() {
    let solids = vec![wall(-100, 10, 100, 10)];
    let mut a = runner(0, 0, 0, 100);
    tick_actor(&solids, &mut a);
    assert_eq!((a.x, a.y), (0, 2));
}

#[test]
fn vertical_move_starts_where_the_horizontal_move_ended() {
    // Along x the actor gets from 0 to 4, in front of the wall at x 12.
    // From there its column is x 4..=11, so the floor at x 10..=20 stops it
    // along y, though it would not have stopped it at x 0.
    let solids = vec![wall(12, 0, 20, 7), wall(10, 12, 20, 20)];
    let mut a = runner(0, 0, 10, 10);
    tick_actor(&solids, &mut a);
    assert_eq!((a.x, a.y), (4, 4));
}

#[test]
fn vertical_move_ignores_solids_on_other_layers() {
    let solids = vec![StaticSolid { aabb: Aabb { x1: 0, y1: 10, x2: 7, y2: 17 }, layers: DYNAMIC }];
    let mut a = runner(0, 0, 0, 5);
    tick_actor(&solids, &mut a);
    assert_eq!((a.x, a.y), (0, 5));
}

#[test]
fn debug_actor_is_stopped_along_y() {
    let solids = vec![wall(0, 8, 7, 20)];
    let mut a = DebugPhysicsActor { x: 0, y: 0 };
    tick_actor(&solids, &mut a);
    assert_eq!(a, DebugPhysicsActor { x: 1, y: 0 });
}

#[test]
fn actor_that_stands_still_stays() {
    let solids = vec![wall(0, 0, 7, 7)];
    let mut a = runner(0, 0, 0, 0);
    tick_actor(&solids, &mut a);
    assert_eq!((a.x, a.y), (0, 0));
}

#[test]
fn debug_actor_moves_one_pixel_each_way() {
    let solids: Vec<StaticSolid> = Vec::new();
    let mut a = DebugPhysicsActor { x: 0, y: 0 };
    tick_actor(&solids, &mut a);
    assert_eq!(a, DebugPhysicsActor { x: 1, y: 1 });
}

#[test]
fn debug_actor_is_stopped_along_x_only() {
    let solids = vec![wall(8, 0, 20, 7)];
    let mut a = DebugPhysicsActor { x: 0, y: 0 };
    tick_actor(&solids, &mut a);
    assert_eq!(a, DebugPhysicsActor { x: 0, y: 1 });
}

#[test]
fn tick_actors_ticks_every_actor() {
    let solids = vec![wall(12, 0, 20, 7)];
    let mut actors = vec![runner(0, 0, 10, 1), runner(0, 50, 10, 1), runner(30, 0, -3, -1)];
    tick_actors(&solids, &mut actors);
    assert_eq!((actors[0].x, actors[0].y), (4, 1));
    assert_eq!((actors[1].x, actors[1].y), (10, 51));
    assert_eq!((actors[2].x, actors[2].y), (27, -1));
}

#[test]
fn tick_solids_changes_nothing() {
    let mut solids = vec![wall(12, 0, 20, 7)];
    let mut actors = vec![runner(0, 0, 10, 1)];
    tick_solids(&mut solids, &mut actors);
    assert_eq!(solids, vec![wall(12, 0, 20, 7)]);
    assert_eq!(actors, vec![runner(0, 0, 10, 1)]);
}

#[test]
fn tick_physics_moves_actors_against_the_solids_of_the_level() {
    let mut level: Vec<PhysicsBody<KinematicActor, StaticSolid>> = vec![
        PhysicsBody { actor: Some(runner(0, 0, 10, 2)), solid: None },
        PhysicsBody { actor: None, solid: Some(wall(12, 0, 20, 7)) },
        PhysicsBody { actor: None, solid: None },
        PhysicsBody { actor: Some(runner(0, 100, 10, 2)), solid: None },
    ];
    tick_physics(&mut level);
    assert_eq!(level[0].actor, Some(runner(4, 2, 10, 2)));
    assert_eq!(level[1].solid, Some(wall(12, 0, 20, 7)));
    assert_eq!(level[1].actor, None);
    assert_eq!(level[2].actor, None);
    assert_eq!(level[2].solid, None);
    assert_eq!(level[3].actor, Some(runner(10, 102, 10, 2)));
}

#[test]
fn tick_physics_leaves_out_what_is_both_solid_and_actor() {
    let mut level: Vec<PhysicsBody<KinematicActor, StaticSolid>> = vec![
        PhysicsBody { actor: Some(runner(0, 0, 10, 2)), solid: None },
        // Neither ticked as an actor nor in the way as a solid.
        PhysicsBody { actor: Some(runner(50, 50, 1, 1)), solid: Some(wall(12, 0, 20, 7)) },
    ];
    tick_physics(&mut level);
    assert_eq!(level[0].actor, Some(runner(10, 2, 10, 2)));
    assert_eq!(level[1].actor, Some(runner(50, 50, 1, 1)));
    assert_eq!(level[1].solid, Some(wall(12, 0, 20, 7)));
}
