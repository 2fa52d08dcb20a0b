use crate::render::sprite::SpriteRef;
use vstd::prelude::*;

verus! {

/// One sprite of an atlas, drawn at a pixel offset.
#[derive(Copy, Clone, Debug)]
pub struct AnimationFrame {
    pub sprite: SpriteRef,
    pub offset: [i32; 2],
}

impl AnimationFrame {
    /// The same sprite with its offset moved by `(dx, dy)`.
    pub open spec fn moved(&self, dx: int, dy: int) -> AnimationFrame {
        AnimationFrame {
            sprite: self.sprite,
            offset: [(self.offset[0] + dx) as i32, (self.offset[1] + dy) as i32],
        }
    }

    /// Whether moving the offset by `(dx, dy)` stays inside `i32`.
    pub open spec fn move_fits(&self, dx: int, dy: int) -> bool {
        &&& i32::MIN <= self.offset[0] + dx <= i32::MAX
        &&& i32::MIN <= self.offset[1] + dy <= i32::MAX
    }

    /// The same sprite, drawn `offset` further along each axis.
    pub fn offset(&self, offset: [i32; 2]) -> (moved: Self)
        requires
            self.move_fits(offset[0] as int, offset[1] as int),
        ensures
            moved.sprite == self.sprite,
            moved.offset[0] == self.offset[0] + offset[0],
            moved.offset[1] == self.offset[1] + offset[1],
            moved == self.moved(offset[0] as int, offset[1] as int),
    {
        let moved = Self {
            sprite: self.sprite,
            offset: [self.offset[0] + offset[0], self.offset[1] + offset[1]],
        };
        assert(moved.offset =~= self.moved(offset[0] as int, offset[1] as int).offset);
        moved
    }
}

} // verus!
