use vstd::prelude::*;

verus! {

/// A set of collision layers, one bit per layer.
pub type CollisionLayers = u32;

/// Layer for walls on the edges of rooms, closed doors and the like.
/// It blocks everything, including things that pass through ordinary walls.
pub const OUTER_WALL: u32 = 0x1;

/// Layer for standard tiles.
pub const TILE: u32 = 0x2;

/// Layer for dynamic solids, such as moving platforms.
pub const DYNAMIC: u32 = 0x4;

} // verus!
