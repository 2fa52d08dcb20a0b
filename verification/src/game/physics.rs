use crate::util::aabb::layer::CollisionLayers;
use crate::util::aabb::{Aabb, Axis};
use vstd::prelude::*;

verus! {

/// Something with a position and a box that takes part in the physics step.
///
/// The spec functions are the mathematical view of an element; each method
/// returns what the spec function of the same name says.
pub trait PhysicsElem: Sized {
    /// Whether the element is in a state that the methods can work on.
    spec fn wf(&self) -> bool;

    spec fn spec_x(&self) -> int;

    spec fn spec_y(&self) -> int;

    /// How far the element wants to move along x in this tick.
    spec fn spec_move_x(&self) -> int;

    /// How far the element wants to move along y in this tick.
    spec fn spec_move_y(&self) -> int;

    /// The box of the element relative to its own position.
    spec fn spec_base_aabb(&self) -> Aabb;

    /// The box of the element in the world.
    spec fn spec_aabb(&self) -> Aabb;

    spec fn spec_collision_layers(&self) -> CollisionLayers;

    /// Whether the element can be moved by `(x, y)`.
    spec fn can_move(&self, x: int, y: int) -> bool;

    /// The element after it has been moved by `(x, y)`.
    spec fn moved(&self, x: int, y: int) -> Self;

    fn x(&self) -> (x: i32)
        ensures
            x == self.spec_x(),
    ;

    fn y(&self) -> (y: i32)
        ensures
            y == self.spec_y(),
    ;

    fn get_move_x(&self) -> (dx: i32)
        ensures
            dx == self.spec_move_x(),
    ;

    fn get_move_y(&self) -> (dy: i32)
        ensures
            dy == self.spec_move_y(),
    ;

    /// Moves the element by `(x, y)`.
    fn apply_move(&mut self, x: i32, y: i32)
        requires
            old(self).wf(),
            old(self).can_move(x as int, y as int),
        ensures
            *final(self) == old(self).moved(x as int, y as int),
            final(self).wf(),
            final(self).spec_x() == old(self).spec_x() + x,
            final(self).spec_y() == old(self).spec_y() + y,
    ;

    fn get_base_aabb(&self) -> (aabb: Aabb)
        requires
            self.wf(),
        ensures
            aabb == self.spec_base_aabb(),
    ;

    fn get_aabb(&self) -> (aabb: Aabb)
        requires
            self.wf(),
        ensures
            aabb == self.spec_aabb(),
    ;

    fn get_collision_layers(&self) -> (layers: CollisionLayers)
        ensures
            layers == self.spec_collision_layers(),
    ;
}

/// An element that moves by itself and is stopped by solids.
pub trait PhysicsActor: PhysicsElem {

}

/// An element that stops actors.
pub trait PhysicsSolid: PhysicsElem {

}

/// An 8 by 8 actor that wants to move one pixel right and one pixel down in
/// every tick, and collides with every layer.
#[derive(Clone, Copy, Debug, PartialEq, Eq, Structural)]
pub struct DebugPhysicsActor {
    pub x: i32,
    pub y: i32,
}

impl PhysicsElem for DebugPhysicsActor {
    /// The box of the actor lies inside the `i32` grid.
    open spec fn wf(&self) -> bool {
        self.x + 7 <= i32::MAX && self.y + 7 <= i32::MAX
    }

    open spec fn spec_x(&self) -> int {
        self.x as int
    }

    open spec fn spec_y(&self) -> int {
        self.y as int
    }

    open spec fn spec_move_x(&self) -> int {
        1
    }

    open spec fn spec_move_y(&self) -> int {
        1
    }

    open spec fn spec_base_aabb(&self) -> Aabb {
        Aabb { x1: 0, y1: 0, x2: 7, y2: 7 }
    }

    open spec fn spec_aabb(&self) -> Aabb {
        Aabb { x1: self.x, y1: self.y, x2: (self.x + 7) as i32, y2: (self.y + 7) as i32 }
    }

    open spec fn spec_collision_layers(&self) -> CollisionLayers {
        u32::MAX
    }

    open spec fn can_move(&self, x: int, y: int) -> bool {
        &&& i32::MIN <= self.x + x && self.x + x + 7 <= i32::MAX
        &&& i32::MIN <= self.y + y && self.y + y + 7 <= i32::MAX
    }

    open spec fn moved(&self, x: int, y: int) -> Self {
        DebugPhysicsActor { x: (self.x + x) as i32, y: (self.y + y) as i32 }
    }

    fn x(&self) -> (x: i32) {
        self.x
    }

    fn y(&self) -> (y: i32) {
        self.y
    }

    fn get_move_x(&self) -> (dx: i32) {
        1
    }

    fn get_move_y(&self) -> (dy: i32) {
        1
    }

    fn apply_move(&mut self, x: i32, y: i32) {
        self.x += x;
        self.y += y;
    }

    fn get_base_aabb(&self) -> (aabb: Aabb) {
        Aabb::from_width_height(8, 8)
    }

    fn get_aabb(&self) -> (aabb: Aabb) {
        Aabb::from_pos_width_height(self.x, self.y, 8, 8)
    }

    fn get_collision_layers(&self) -> (layers: CollisionLayers) {
        u32::MAX
    }
}

impl PhysicsActor for DebugPhysicsActor {

}

/// An actor that is a box of a fixed size with a fixed wish to move.
#[derive(Clone, Copy, Debug, PartialEq, Eq, Structural)]
pub struct KinematicActor {
    pub x: i32,
    pub y: i32,
    pub width: i32,
    pub height: i32,
    pub move_x: i32,
    pub move_y: i32,
    pub layers: CollisionLayers,
}

impl PhysicsElem for KinematicActor {
    /// The box covers at least one pixel and lies inside the `i32` grid.
    open spec fn wf(&self) -> bool {
        &&& self.width > 0
        &&& self.height > 0
        &&& self.x + self.width - 1 <= i32::MAX
        &&& self.y + self.height - 1 <= i32::MAX
    }

    open spec fn spec_x(&self) -> int {
        self.x as int
    }

    open spec fn spec_y(&self) -> int {
        self.y as int
    }

    open spec fn spec_move_x(&self) -> int {
        self.move_x as int
    }

    open spec fn spec_move_y(&self) -> int {
        self.move_y as int
    }

    open spec fn spec_base_aabb(&self) -> Aabb {
        Aabb { x1: 0, y1: 0, x2: (self.width - 1) as i32, y2: (self.height - 1) as i32 }
    }

    open spec fn spec_aabb(&self) -> Aabb {
        Aabb {
            x1: self.x,
            y1: self.y,
            x2: (self.x + self.width - 1) as i32,
            y2: (self.y + self.height - 1) as i32,
        }
    }

    open spec fn spec_collision_layers(&self) -> CollisionLayers {
        self.layers
    }

    open spec fn can_move(&self, x: int, y: int) -> bool {
        &&& i32::MIN <= self.x + x && self.x + x + self.width - 1 <= i32::MAX
        &&& i32::MIN <= self.y + y && self.y + y + self.height - 1 <= i32::MAX
    }

    open spec fn moved(&self, x: int, y: int) -> Self {
        KinematicActor { x: (self.x + x) as i32, y: (self.y + y) as i32, ..*self }
    }

    fn x(&self) -> (x: i32) {
        self.x
    }

    fn y(&self) -> (y: i32) {
        self.y
    }

    fn get_move_x(&self) -> (dx: i32) {
        self.move_x
    }

    fn get_move_y(&self) -> (dy: i32) {
        self.move_y
    }

    fn apply_move(&mut self, x: i32, y: i32) {
        self.x += x;
        self.y += y;
    }

    fn get_base_aabb(&self) -> (aabb: Aabb) {
        Aabb::from_width_height(self.width, self.height)
    }

    fn get_aabb(&self) -> (aabb: Aabb) {
        Aabb::from_pos_width_height(self.x, self.y, self.width, self.height)
    }

    fn get_collision_layers(&self) -> (layers: CollisionLayers) {
        self.layers
    }
}

impl PhysicsActor for KinematicActor {

}

/// A solid that is nothing but its box and its layers. It never moves by
/// itself.
#[derive(Clone, Copy, Debug, PartialEq, Eq, Structural)]
pub struct StaticSolid {
    pub aabb: Aabb,
    pub layers: CollisionLayers,
}

impl PhysicsElem for StaticSolid {
    /// The box covers at least one pixel and its size fits in `i32`.
    open spec fn wf(&self) -> bool {
        &&& self.aabb.wf()
        &&& self.aabb.x2 - self.aabb.x1 <= i32::MAX
        &&& self.aabb.y2 - self.aabb.y1 <= i32::MAX
    }

    open spec fn spec_x(&self) -> int {
        self.aabb.x1 as int
    }

    open spec fn spec_y(&self) -> int {
        self.aabb.y1 as int
    }

    open spec fn spec_move_x(&self) -> int {
        0
    }

    open spec fn spec_move_y(&self) -> int {
        0
    }

    open spec fn spec_base_aabb(&self) -> Aabb {
        Aabb {
            x1: 0,
            y1: 0,
            x2: (self.aabb.x2 - self.aabb.x1) as i32,
            y2: (self.aabb.y2 - self.aabb.y1) as i32,
        }
    }

    open spec fn spec_aabb(&self) -> Aabb {
        self.aabb
    }

    open spec fn spec_collision_layers(&self) -> CollisionLayers {
        self.layers
    }

    open spec fn can_move(&self, x: int, y: int) -> bool {
        self.aabb.shift4_fits(x, y, x, y)
    }

    open spec fn moved(&self, x: int, y: int) -> Self {
        StaticSolid { aabb: self.aabb.shifted(x, y), layers: self.layers }
    }

    fn x(&self) -> (x: i32) {
        self.aabb.x1
    }

    fn y(&self) -> (y: i32) {
        self.aabb.y1
    }

    fn get_move_x(&self) -> (dx: i32) {
        0
    }

    fn get_move_y(&self) -> (dy: i32) {
        0
    }

    fn apply_move(&mut self, x: i32, y: i32) {
        self.aabb = self.aabb.offset(x, y);
    }

    fn get_base_aabb(&self) -> (aabb: Aabb) {
        Aabb { x1: 0, y1: 0, x2: self.aabb.x2 - self.aabb.x1, y2: self.aabb.y2 - self.aabb.y1 }
    }

    fn get_aabb(&self) -> (aabb: Aabb) {
        self.aabb
    }

    fn get_collision_layers(&self) -> (layers: CollisionLayers) {
        self.layers
    }
}

impl PhysicsSolid for StaticSolid {

}

/// The boxes of the solids that share a layer with `layers` and meet
/// `aabb`, in the order of the solids. With no layer at all, nothing
/// collides.
pub open spec fn colliding<S: PhysicsSolid>(aabb: Aabb, layers: CollisionLayers, solids: Seq<S>) -> Seq<
    Aabb,
>
    decreases solids.len(),
{
    if solids.len() == 0 || layers == 0 {
        Seq::empty()
    } else {
        let rest = colliding(aabb, layers, solids.drop_last());
        let solid = solids.last();
        if (solid.spec_collision_layers() & layers) != 0 && aabb.meets(solid.spec_aabb()) {
            rest.push(solid.spec_aabb())
        } else {
            rest
        }
    }
}

/// Whether `k` lies between zero and `d`, both included, on the side of
/// `d`.
pub open spec fn within(k: int, d: int) -> bool {
    (0 <= k <= d) || (d <= k <= 0)
}

/// One pixel in the direction of `d`.
pub open spec fn toward(d: int) -> int {
    if d > 0 {
        1
    } else if d < 0 {
        -1
    } else {
        0
    }
}

/// Whether the box `start`, moved `k` pixels along `axis`, meets one of the
/// blockers.
pub open spec fn blocked_at(start: Aabb, axis: Axis, k: int, blockers: Seq<Aabb>) -> bool {
    exists|i: int|
        0 <= i < blockers.len() && start.shifted_along(axis, k).meets(#[trigger] blockers[i])
}

/// Whether `step` is the longest move towards `d` along `axis` that a box
/// at `start` can make pixel by pixel without meeting a blocker on the way:
/// every position up to `step` is free, and either `step` is the whole of
/// `d` or the next position is blocked.
pub open spec fn is_max_safe_step(
    start: Aabb,
    axis: Axis,
    d: int,
    blockers: Seq<Aabb>,
    step: int,
) -> bool {
    &&& within(step, d)
    &&& forall|k: int|
        within(k, step) && k != 0 ==> !#[trigger] blocked_at(start, axis, k, blockers)
    &&& step != d ==> blocked_at(start, axis, step + toward(d), blockers)
}

/// The longest safe move; see [`is_max_safe_step`].
pub open spec fn max_safe_step(start: Aabb, axis: Axis, d: int, blockers: Seq<Aabb>) -> int {
    choose|step: int| is_max_safe_step(start, axis, d, blockers, step)
}

/// Two steps that are both the longest safe move are the same step.
proof fn lemma_safe_steps_agree(
    start: Aabb,
    axis: Axis,
    d: int,
    blockers: Seq<Aabb>,
    a: int,
    b: int,
)
    requires
        is_max_safe_step(start, axis, d, blockers, a),
        is_max_safe_step(start, axis, d, blockers, b),
    ensures
        a == b,
{
    if a != b {
        if d >= 0 {
            if a < b {
                assert(within(a + 1, b) && blocked_at(start, axis, a + toward(d), blockers));
            } else {
                assert(within(b + 1, a) && blocked_at(start, axis, b + toward(d), blockers));
            }
        } else {
            if a > b {
                assert(within(a - 1, b) && blocked_at(start, axis, a + toward(d), blockers));
            } else {
                assert(within(b - 1, a) && blocked_at(start, axis, b + toward(d), blockers));
            }
        }
    }
}

/// There is only one longest safe move: a step that is one is the one.
pub proof fn lemma_max_safe_step_unique(
    start: Aabb,
    axis: Axis,
    d: int,
    blockers: Seq<Aabb>,
    step: int,
)
    requires
        is_max_safe_step(start, axis, d, blockers, step),
    ensures
        step == max_safe_step(start, axis, d, blockers),
{
    lemma_safe_steps_agree(start, axis, d, blockers, step, max_safe_step(start, axis, d, blockers));
}

/// Whether `found` is the box of a solid that shares a layer with `layers`
/// and meets `aabb`.
pub open spec fn is_box_of_colliding_solid<S: PhysicsSolid>(
    found: Aabb,
    aabb: Aabb,
    layers: CollisionLayers,
    solids: Seq<S>,
) -> bool {
    exists|i: int|
        0 <= i < solids.len() && ((#[trigger] solids[i]).spec_collision_layers() & layers) != 0
            && aabb.meets(solids[i].spec_aabb()) && solids[i].spec_aabb() == found
}

/// Every solid that shares a layer with `layers` and meets `aabb` has its
/// box among the colliding ones, and every colliding box is the box of such
/// a solid.
pub proof fn lemma_colliding_is_exact<S: PhysicsSolid>(
    aabb: Aabb,
    layers: CollisionLayers,
    solids: Seq<S>,
)
    ensures
        forall|i: int|
            0 <= i < solids.len() && ((#[trigger] solids[i]).spec_collision_layers() & layers) != 0
                && layers != 0 && aabb.meets(solids[i].spec_aabb()) ==> colliding(
                aabb,
                layers,
                solids,
            ).contains(solids[i].spec_aabb()),
        forall|j: int|
            0 <= j < colliding(aabb, layers, solids).len() ==> is_box_of_colliding_solid(
                #[trigger] colliding(aabb, layers, solids)[j],
                aabb,
                layers,
                solids,
            ),
    decreases solids.len(),
{
    if solids.len() > 0 && layers != 0 {
        let rest = solids.drop_last();
        lemma_colliding_is_exact(aabb, layers, rest);
        let found = colliding(aabb, layers, solids);
        let before = colliding(aabb, layers, rest);
        let last = solids.last();
        let taken = (last.spec_collision_layers() & layers) != 0 && aabb.meets(last.spec_aabb());
        assert forall|i: int|
            0 <= i < solids.len() && ((#[trigger] solids[i]).spec_collision_layers() & layers) != 0
                && aabb.meets(solids[i].spec_aabb()) implies found.contains(
            solids[i].spec_aabb(),
        ) by {
            if i < rest.len() {
                assert(rest[i] == solids[i]);
                let j = choose|j: int| 0 <= j < before.len() && before[j] == rest[i].spec_aabb();
                assert(found[j] == before[j]);
            } else {
                assert(found[found.len() - 1] == last.spec_aabb());
            }
        }
        assert forall|j: int| 0 <= j < found.len() implies is_box_of_colliding_solid(
            #[trigger] found[j],
            aabb,
            layers,
            solids,
        ) by {
            if j < before.len() {
                assert(found[j] == before[j]);
                assert(is_box_of_colliding_solid(before[j], aabb, layers, rest));
                let i = choose|i: int|
                    0 <= i < rest.len() && ((#[trigger] rest[i]).spec_collision_layers() & layers)
                        != 0 && aabb.meets(rest[i].spec_aabb()) && rest[i].spec_aabb()
                        == before[j];
                assert(solids[i] == rest[i]);
            } else {
                assert(taken);
                assert(solids[solids.len() - 1] == last);
            }
        }
    }
}

/// Looking only at the solids that meet the box swept by the whole move
/// loses nothing: wherever on its way the moving box meets a solid of its
/// layers, it meets one of the colliding boxes.
pub proof fn lemma_swept_box_finds_every_blocker<S: PhysicsSolid>(
    start: Aabb,
    axis: Axis,
    d: int,
    layers: CollisionLayers,
    solids: Seq<S>,
    k: int,
    i: int,
)
    requires
        start.wf(),
        start.shift_along_fits(axis, d),
        within(k, d),
        0 <= i < solids.len(),
        (solids[i].spec_collision_layers() & layers) != 0,
        start.shifted_along(axis, k).meets(solids[i].spec_aabb()),
    ensures
        blocked_at(
            start,
            axis,
            k,
            colliding(Aabb::hull(start, start.shifted_along(axis, d)), layers, solids),
        ),
{
    let swept = Aabb::hull(start, start.shifted_along(axis, d));
    assert(layers != 0) by {
        let l = solids[i].spec_collision_layers();
        assert(l & 0 == 0) by (bit_vector);
    }
    assert(swept.meets(solids[i].spec_aabb()));
    lemma_colliding_is_exact(swept, layers, solids);
    let found = colliding(swept, layers, solids);
    assert(found.contains(solids[i].spec_aabb()));
    let j = choose|j: int| 0 <= j < found.len() && found[j] == solids[i].spec_aabb();
    assert(start.shifted_along(axis, k).meets(found[j]));
}

/// A move that is blocked somewhere on its way, but not at its very first
/// pixel, is cut short and not cancelled: the step taken goes the same way
/// as the move, is shorter than it, and is not zero. This holds along
/// either axis.
pub proof fn lemma_blocked_move_is_reduced(
    start: Aabb,
    axis: Axis,
    d: int,
    blockers: Seq<Aabb>,
    blocked: int,
)
    requires
        within(blocked, d),
        blocked != 0,
        blocked_at(start, axis, blocked, blockers),
        !blocked_at(start, axis, toward(d), blockers),
    ensures
        ({
            let step = max_safe_step(start, axis, d, blockers);
            &&& is_max_safe_step(start, axis, d, blockers, step)
            &&& step != 0
            &&& step != d
            &&& (d > 0 ==> 0 < step < blocked)
            &&& (d < 0 ==> blocked < step < 0)
        }),
{
    lemma_max_safe_step_exists(start, axis, d, blockers);
    let step = max_safe_step(start, axis, d, blockers);
    assert(is_max_safe_step(start, axis, d, blockers, step));
    if d > 0 {
        if step >= blocked {
            assert(within(blocked, step));
        }
    } else {
        if step <= blocked {
            assert(within(blocked, step));
        }
    }
}

/// Some step towards `d` is the longest safe one.
pub proof fn lemma_max_safe_step_exists(start: Aabb, axis: Axis, d: int, blockers: Seq<Aabb>)
    ensures
        is_max_safe_step(start, axis, d, blockers, max_safe_step(start, axis, d, blockers)),
{
    lemma_safe_step_up_to(start, axis, d, blockers, d);
    let s = choose|step: int|
        within(step, d) && is_max_safe_step(start, axis, d, blockers, step) && (step != d
            ==> is_max_safe_step(start, axis, d, blockers, step));
    assert(is_max_safe_step(start, axis, d, blockers, s));
}

/// On the way towards `d`, the part up to `limit` has a longest safe step;
/// when that step stops short of `limit`, it is the longest safe step of the
/// whole way.
proof fn lemma_safe_step_up_to(start: Aabb, axis: Axis, d: int, blockers: Seq<Aabb>, limit: int)
    requires
        within(limit, d),
    ensures
        exists|step: int|
            within(step, limit) && is_max_safe_step(start, axis, limit, blockers, step) && (step
                != limit ==> is_max_safe_step(start, axis, d, blockers, step)),
    decreases
            (if limit >= 0 {
                limit
            } else {
                -limit
            }),
{
    if limit == 0 {
        assert(is_max_safe_step(start, axis, 0, blockers, 0));
    } else {
        let shorter = limit - toward(d);
        assert(toward(d) == toward(limit));
        lemma_safe_step_up_to(start, axis, d, blockers, shorter);
        let s = choose|step: int|
            within(step, shorter) && is_max_safe_step(start, axis, shorter, blockers, step) && (
            step != shorter ==> is_max_safe_step(start, axis, d, blockers, step));
        if s != shorter {
            assert(is_max_safe_step(start, axis, limit, blockers, s));
        } else if blocked_at(start, axis, limit, blockers) {
            assert(is_max_safe_step(start, axis, limit, blockers, s));
            assert(is_max_safe_step(start, axis, d, blockers, s));
        } else {
            assert forall|k: int| within(k, limit) && k != 0 implies !#[trigger] blocked_at(
                start,
                axis,
                k,
                blockers,
            ) by {
                if k != limit {
                    assert(within(k, shorter));
                }
            }
            assert(is_max_safe_step(start, axis, limit, blockers, limit));
        }
    }
}

/// How far an actor that wishes to move by `d` along `axis` gets among the
/// given solids: the longest safe step towards `d`, where the solids in its
/// way are those of its layers that meet the box swept by the whole move.
pub open spec fn safe_move<A: PhysicsActor, S: PhysicsSolid>(
    actor: A,
    axis: Axis,
    d: int,
    solids: Seq<S>,
) -> int {
    let start = actor.spec_aabb();
    let swept = Aabb::hull(start, start.shifted_along(axis, d));
    max_safe_step(start, axis, d, colliding(swept, actor.spec_collision_layers(), solids))
}

/// The actor after one tick among the given solids: it has moved along x by
/// the longest safe step towards what it wishes there, and then, from where
/// that took it, along y by the longest safe step towards what it wishes
/// there.
pub open spec fn after_tick<A: PhysicsActor, S: PhysicsSolid>(actor: A, solids: Seq<S>) -> A {
    let mid = actor.moved(safe_move(actor, Axis::X, actor.spec_move_x(), solids), 0);
    mid.moved(0, safe_move(mid, Axis::Y, mid.spec_move_y(), solids))
}

/// What an actor has to allow for its move along y: its box can reach the
/// end of the move, and the actor can be moved to every place on the way.
pub open spec fn can_tick_y<A: PhysicsActor>(actor: A) -> bool {
    &&& actor.spec_aabb().shift_along_fits(Axis::Y, actor.spec_move_y())
    &&& forall|j: int| within(j, actor.spec_move_y()) ==> #[trigger] actor.can_move(0, j)
}

/// What an actor has to allow for a tick to be run on it: its box can reach
/// the end of its move along x, the actor can be moved to every place on
/// the way, and from wherever it stops there it can make its move along y.
pub open spec fn can_tick<A: PhysicsActor>(actor: A) -> bool {
    &&& actor.wf()
    &&& actor.spec_aabb().shift_along_fits(Axis::X, actor.spec_move_x())
    &&& forall|k: int|
        within(k, actor.spec_move_x()) ==> {
            &&& #[trigger] actor.can_move(k, 0)
            &&& can_tick_y(actor.moved(k, 0))
        }
}

/// Whether every solid of the sequence is well-formed.
pub open spec fn all_wf<S: PhysicsSolid>(solids: Seq<S>) -> bool {
    forall|i: int| 0 <= i < solids.len() ==> (#[trigger] solids[i]).wf()
}

/// The boxes of the solids that an actor with these layers, whose move
/// sweeps `aabb`, can run into.
pub fn collisions<S: PhysicsSolid>(aabb: Aabb, layers: CollisionLayers, solids: &Vec<S>) -> (found:
    Vec<Aabb>)
    requires
        all_wf(solids@),
    ensures
        found@ == colliding(aabb, layers, solids@),
{
    let mut collisions: Vec<Aabb> = Vec::new();
    if layers == 0 {
        return collisions;
    }
    let mut i: usize = 0;
    assert(solids@.take(0) =~= Seq::<S>::empty());
    while i < solids.len()
        invariant
            i <= solids.len(),
            layers != 0,
            all_wf(solids@),
            collisions@ == colliding(aabb, layers, solids@.take(i as int)),
        decreases solids.len() - i,
    {
        proof {
            assert(solids@.take(i as int + 1).drop_last() =~= solids@.take(i as int));
            assert(solids@.take(i as int + 1).last() == solids@[i as int]);
        }
        let solid = &solids[i];
        if (solid.get_collision_layers() & layers) != 0 {
            let aabb2 = solid.get_aabb();
            if aabb.intersects(aabb2) {
                collisions.push(aabb2);
            }
        }
        i += 1;
    }
    proof {
        assert(solids@.take(i as int) =~= solids@);
    }
    collisions
}

/// Whether `aabb` meets one of the blockers.
fn meets_any(aabb: Aabb, blockers: &Vec<Aabb>) -> (hit: bool)
    ensures
        hit == (exists|i: int| 0 <= i < blockers.len() && aabb.meets(#[trigger] blockers[i])),
{
    let mut i: usize = 0;
    while i < blockers.len()
        invariant
            i <= blockers.len(),
            forall|j: int| 0 <= j < i ==> !aabb.meets(#[trigger] blockers[j]),
        decreases blockers.len() - i,
    {
        if aabb.intersects(blockers[i]) {
            return true;
        }
        i += 1;
    }
    false
}

/// Walks from `start` towards `d` along `axis`, one pixel at a time, and
/// stops in front of the first position that meets a blocker.
fn scan_safe_step(start: Aabb, axis: Axis, d: i32, blockers: &Vec<Aabb>) -> (offset: i32)
    requires
        start.shift_along_fits(axis, d as int),
    ensures
        is_max_safe_step(start, axis, d as int, blockers@, offset as int),
{
    let dir: i32 = if d >= 0 {
        1
    } else {
        -1
    };
    let mut offset: i32 = 0;
    while offset != d
        invariant_except_break
            within(offset as int, d as int),
            forall|k: int|
                within(k, offset as int) && k != 0 ==> !#[trigger] blocked_at(
                    start,
                    axis,
                    k,
                    blockers@,
                ),
        invariant
            dir == toward(d as int) || d == 0,
            dir == 1 || dir == -1,
            start.shift_along_fits(axis, d as int),
        ensures
            is_max_safe_step(start, axis, d as int, blockers@, offset as int),
        decreases
                (if d >= offset {
                    d - offset
                } else {
                    offset - d
                }),
    {
        let aabb = start.offset_along(axis, offset + dir);
        if meets_any(aabb, blockers) {
            assert(blocked_at(start, axis, offset + dir, blockers@));
            break ;
        }
        assert(!blocked_at(start, axis, offset + dir, blockers@));
        assert forall|k: int| within(k, offset + dir) && k != 0 implies !#[trigger] blocked_at(
            start,
            axis,
            k,
            blockers@,
        ) by {
            if k != offset + dir {
                assert(within(k, offset as int));
            }
        }
        offset += dir;
    }
    offset
}

/// Finds how far an actor gets that wishes to move by `d` along `axis`:
/// gathers the solids that meet the box swept by the whole move and, where
/// there are any, walks towards `d` until one of them is in the way.
fn find_safe_move<S: PhysicsSolid, A: PhysicsActor>(
    solids: &Vec<S>,
    actor: &A,
    axis: Axis,
    d: i32,
) -> (offset: i32)
    requires
        all_wf(solids@),
        actor.wf(),
        actor.spec_aabb().shift_along_fits(axis, d as int),
    ensures
        offset == safe_move(*actor, axis, d as int, solids@),
        within(offset as int, d as int),
{
    let collision_layers = actor.get_collision_layers();
    let start_pos = actor.get_aabb();
    let end_pos = start_pos.offset_along(axis, d);
    let aabb = Aabb::union(start_pos, end_pos);
    let intersects = collisions(aabb, collision_layers, solids);
    if intersects.len() != 0 {
        let offset = scan_safe_step(start_pos, axis, d, &intersects);
        proof {
            lemma_max_safe_step_unique(start_pos, axis, d as int, intersects@, offset as int);
        }
        offset
    } else {
        proof {
            assert(is_max_safe_step(start_pos, axis, d as int, intersects@, d as int));
            lemma_max_safe_step_unique(start_pos, axis, d as int, intersects@, d as int);
        }
        d
    }
}

/// Solids do not move in this version of the step: both lists are left as
/// they are.
pub fn tick_solids<S: PhysicsSolid, A: PhysicsActor>(solids: &mut Vec<S>, actors: &mut Vec<A>)
    ensures
        *final(solids) == *old(solids),
        *final(actors) == *old(actors),
{
}

/// Runs one tick on one actor: first along x, then along y, each time as
/// far as the solids allow.
pub fn tick_actor<S: PhysicsSolid, A: PhysicsActor>(solids: &Vec<S>, actor: &mut A)
    requires
        all_wf(solids@),
        can_tick(*old(actor)),
    ensures
        *final(actor) == after_tick(*old(actor), solids@),
        final(actor).wf(),
{
    let dx = actor.get_move_x();
    let offset_x = find_safe_move(solids, actor, Axis::X, dx);
    assert(old(actor).can_move(offset_x as int, 0));
    actor.apply_move(offset_x, 0);
    let dy = actor.get_move_y();
    let offset_y = find_safe_move(solids, actor, Axis::Y, dy);
    actor.apply_move(0, offset_y);
}

/// Runs one tick on every actor, in order. The solids stay where they are.
pub fn tick_actors<S: PhysicsSolid, A: PhysicsActor>(solids: &Vec<S>, actors: &mut Vec<A>)
    requires
        all_wf(solids@),
        forall|i: int| 0 <= i < old(actors).len() ==> can_tick(#[trigger] old(actors)[i]),
    ensures
        final(actors).len() == old(actors).len(),
        forall|i: int|
            0 <= i < old(actors).len() ==> (#[trigger] final(actors)[i]) == after_tick(
                old(actors)[i],
                solids@,
            ),
{
    let mut i: usize = 0;
    while i < actors.len()
        invariant
            i <= actors.len(),
            actors.len() == old(actors).len(),
            all_wf(solids@),
            forall|j: int| 0 <= j < i ==> (#[trigger] actors[j]) == after_tick(old(actors)[j], solids@),
            forall|j: int| i <= j < actors.len() ==> (#[trigger] actors[j]) == old(actors)[j],
            forall|j: int| 0 <= j < old(actors).len() ==> can_tick(#[trigger] old(actors)[j]),
        decreases actors.len() - i,
    {
        tick_actor(solids, &mut actors[i]);
        i += 1;
    }
}

/// The physics parts of one entity of a level: it may stop others, move by
/// itself, or neither. An entity that claims to do both is not supported and
/// takes no part in the step at all.
pub struct PhysicsBody<A, S> {
    pub actor: Option<A>,
    pub solid: Option<S>,
}

impl<A: PhysicsActor, S: PhysicsSolid> PhysicsBody<A, S> {
    /// The entity moves by itself and is not also a solid.
    pub open spec fn is_actor(&self) -> bool {
        self.actor is Some && self.solid is None
    }

    /// The entity stops others and is not also an actor.
    pub open spec fn is_solid(&self) -> bool {
        self.solid is Some && self.actor is None
    }
}

/// A solid reduced to its box and its layers.
pub open spec fn snapshot<S: PhysicsSolid>(solid: S) -> StaticSolid {
    StaticSolid { aabb: solid.spec_aabb(), layers: solid.spec_collision_layers() }
}

/// The solids of a level, each reduced to its box and its layers, in the
/// order of the level. Entities that are also actors are left out.
pub open spec fn level_solids<A: PhysicsActor, S: PhysicsSolid>(
    level: Seq<PhysicsBody<A, S>>,
) -> Seq<StaticSolid>
    decreases level.len(),
{
    if level.len() == 0 {
        Seq::empty()
    } else {
        let rest = level_solids(level.drop_last());
        if level.last().is_solid() {
            rest.push(snapshot(level.last().solid->0))
        } else {
            rest
        }
    }
}

/// What a level has to allow for a physics step: its solids are well-formed
/// and its actors can be ticked.
pub open spec fn can_tick_level<A: PhysicsActor, S: PhysicsSolid>(
    level: Seq<PhysicsBody<A, S>>,
) -> bool {
    forall|i: int|
        0 <= i < level.len() ==> {
            &&& (#[trigger] level[i]).is_solid() ==> level[i].solid->0.wf() && snapshot(
                level[i].solid->0,
            ).wf()
            &&& level[i].is_actor() ==> can_tick(level[i].actor->0)
        }
}

/// Gathers the solids of a level.
fn collect_solids<A: PhysicsActor, S: PhysicsSolid>(level: &Vec<PhysicsBody<A, S>>) -> (solids:
    Vec<StaticSolid>)
    requires
        can_tick_level(level@),
    ensures
        solids@ == level_solids(level@),
        all_wf(solids@),
{
    let mut solids: Vec<StaticSolid> = Vec::new();
    let mut i: usize = 0;
    assert(level@.take(0) =~= Seq::<PhysicsBody<A, S>>::empty());
    while i < level.len()
        invariant
            i <= level.len(),
            can_tick_level(level@),
            solids@ == level_solids(level@.take(i as int)),
            all_wf(solids@),
        decreases level.len() - i,
    {
        proof {
            assert(level@.take(i as int + 1).drop_last() =~= level@.take(i as int));
            assert(level@.take(i as int + 1).last() == level@[i as int]);
        }
        let body = &level[i];
        if body.actor.is_none() {
            match &body.solid {
                Some(solid) => {
                    solids.push(
                        StaticSolid {
                            aabb: solid.get_aabb(),
                            layers: solid.get_collision_layers(),
                        },
                    );
                },
                None => {},
            }
        }
        i += 1;
    }
    proof {
        assert(level@.take(i as int) =~= level@);
    }
    solids
}

/// One physics step over a level.
///
/// Every actor is ticked against the solids of the level as they stand
/// before the step. Solids stay where they are. An entity that is both a
/// solid and an actor is left untouched and stops nobody.
pub fn tick_physics<A: PhysicsActor, S: PhysicsSolid>(level: &mut Vec<PhysicsBody<A, S>>)
    requires
        can_tick_level(old(level)@),
    ensures
        final(level).len() == old(level).len(),
        forall|i: int|
            0 <= i < old(level).len() ==> (#[trigger] final(level)[i]).solid == old(level)[i].solid,
        forall|i: int|
            0 <= i < old(level).len() ==> (#[trigger] final(level)[i]).actor == (if old(
                level,
            )[i].is_actor() {
                Some(after_tick(old(level)[i].actor->0, level_solids(old(level)@)))
            } else {
                old(level)[i].actor
            }),
{
    let solids = collect_solids(level);
    let mut i: usize = 0;
    while i < level.len()
        invariant
            i <= level.len(),
            level.len() == old(level).len(),
            solids@ == level_solids(old(level)@),
            all_wf(solids@),
            can_tick_level(old(level)@),
            forall|j: int| i <= j < level.len() ==> (#[trigger] level[j]) == old(level)[j],
            forall|j: int| 0 <= j < i ==> (#[trigger] level[j]).solid == old(level)[j].solid,
            forall|j: int|
                0 <= j < i ==> (#[trigger] level[j]).actor == (if old(level)[j].is_actor() {
                    Some(after_tick(old(level)[j].actor->0, solids@))
                } else {
                    old(level)[j].actor
                }),
        decreases level.len() - i,
    {
        assert(level[i as int] == old(level)[i as int]);
        if level[i].solid.is_none() {
            match &mut level[i].actor {
                Some(actor) => {
                    tick_actor(&solids, actor);
                },
                None => {},
            }
        }
        i += 1;
    }
}

} // verus!
