use crate::util::input::{InputMap, KeyCode};
use vstd::prelude::*;

verus! {

/// A position on the pixel grid.
#[derive(Clone, Copy, Debug, PartialEq, Eq, Structural)]
pub struct Pos {
    pub x: i32,
    pub y: i32,
}

/// A velocity in pixels per tick.
#[derive(Clone, Copy, Debug, PartialEq, Eq, Structural)]
pub struct Vel {
    pub vx: i32,
    pub vy: i32,
}

/// The rightmost position of an 8 by 8 sprite that is wholly on a screen
/// 320 pixels wide.
pub const FIELD_MAX_X: i32 = 312;

/// The lowest position of an 8 by 8 sprite that is wholly on a screen 180
/// pixels high.
pub const FIELD_MAX_Y: i32 = 172;

/// The number of sprites that bounce around a new level.
pub const BOUNCER_COUNT: usize = 10;

/// The speed along one axis after a bounce check at position `p`: a sprite
/// that has left the field and is still moving away is turned around.
pub open spec fn bounced(p: int, v: int, max: int) -> int {
    if (p < 0 && v < 0) || (p > max && v > 0) {
        -v
    } else {
        v
    }
}

/// Whether a sprite at `pos` with speed `vel` can be moved for one tick
/// without leaving the range of `i32`.
pub open spec fn can_bounce(pos: Pos, vel: Vel) -> bool {
    &&& i32::MIN <= pos.x + vel.vx <= i32::MAX
    &&& i32::MIN <= pos.y + vel.vy <= i32::MAX
    &&& vel.vx > i32::MIN
    &&& vel.vy > i32::MIN
}

/// Moves a bouncing sprite for one tick: it moves by its speed, and where it
/// has then left the field on some side and is still moving away, its speed
/// along that axis is reversed.
pub fn tick_bouncer(pos: &mut Pos, vel: &mut Vel)
    requires
        can_bounce(*old(pos), *old(vel)),
    ensures
        final(pos).x == old(pos).x + old(vel).vx,
        final(pos).y == old(pos).y + old(vel).vy,
        final(vel).vx == bounced(final(pos).x as int, old(vel).vx as int, FIELD_MAX_X as int),
        final(vel).vy == bounced(final(pos).y as int, old(vel).vy as int, FIELD_MAX_Y as int),
{
    pos.x += vel.vx;
    pos.y += vel.vy;
    if pos.x < 0 && vel.vx < 0 {
        vel.vx = -vel.vx;
    }
    if pos.y < 0 && vel.vy < 0 {
        vel.vy = -vel.vy;
    }
    if pos.x > FIELD_MAX_X && vel.vx > 0 {
        vel.vx = -vel.vx;
    }
    if pos.y > FIELD_MAX_Y && vel.vy > 0 {
        vel.vy = -vel.vy;
    }
}

/// Where the `i`-th bouncing sprite of a new level starts.
pub open spec fn bouncer_start(i: int) -> Pos {
    Pos { x: (i * 20) as i32, y: ((i * 70) % 170) as i32 }
}

/// The bouncing sprites of a new level: [`BOUNCER_COUNT`] of them, spread
/// over the field, each moving one pixel right and one pixel down per tick.
pub fn initial_bouncers() -> (bouncers: Vec<(Pos, Vel)>)
    ensures
        bouncers.len() == BOUNCER_COUNT,
        forall|i: int|
            0 <= i < BOUNCER_COUNT ==> (#[trigger] bouncers[i]) == (
                bouncer_start(i),
                Vel { vx: 1, vy: 1 },
            ),
{
    let mut bouncers: Vec<(Pos, Vel)> = Vec::new();
    let mut i: i32 = 0;
    while i < 10
        invariant
            0 <= i <= 10,
            bouncers.len() == i,
            forall|j: int|
                0 <= j < i ==> (#[trigger] bouncers[j]) == (bouncer_start(j), Vel { vx: 1, vy: 1 }),
        decreases 10 - i,
    {
        bouncers.push((Pos { x: i * 20, y: (i * 70) % 170 }, Vel { vx: 1, vy: 1 }));
        i += 1;
    }
    bouncers
}

/// The keys that move the camera.
#[derive(Clone, Copy, Debug, PartialEq, Eq, Structural)]
pub struct CameraKeys {
    pub slow: KeyCode,
    pub left: KeyCode,
    pub right: KeyCode,
    pub down: KeyCode,
    pub up: KeyCode,
}

/// How the camera is to move in one tick. `dx` and `dy` are -1, 0 or 1;
/// `speed_halves` is the distance of one step in half pixels.
#[derive(Clone, Copy, Debug, PartialEq, Eq, Structural)]
pub struct CameraMove {
    pub dx: i32,
    pub dy: i32,
    pub speed_halves: u32,
}

/// The distance of a camera step in half pixels: half a pixel while the
/// slow key is held, four pixels otherwise.
pub open spec fn camera_speed(slow: bool) -> u32 {
    if slow {
        1
    } else {
        8
    }
}

/// The direction along one axis that two opposite keys ask for.
pub open spec fn axis(back: bool, forth: bool) -> int {
    (if forth {
        1int
    } else {
        0int
    }) - (if back {
        1int
    } else {
        0int
    })
}

/// Reads off the held keys how the camera is to move in this tick.
pub fn camera_move(input: &InputMap, keys: &CameraKeys) -> (step: CameraMove)
    ensures
        step.speed_halves == camera_speed(input.states().held.contains(keys.slow)),
        step.dx == axis(
            input.states().held.contains(keys.left),
            input.states().held.contains(keys.right),
        ),
        step.dy == axis(
            input.states().held.contains(keys.down),
            input.states().held.contains(keys.up),
        ),
{
    let speed_halves: u32 = if input.get_key_pressed(keys.slow) {
        1
    } else {
        8
    };
    let mut dx: i32 = 0;
    if input.get_key_pressed(keys.left) {
        dx -= 1;
    }
    if input.get_key_pressed(keys.right) {
        dx += 1;
    }
    let mut dy: i32 = 0;
    if input.get_key_pressed(keys.down) {
        dy -= 1;
    }
    if input.get_key_pressed(keys.up) {
        dy += 1;
    }
    CameraMove { dx, dy, speed_halves }
}

} // verus!
