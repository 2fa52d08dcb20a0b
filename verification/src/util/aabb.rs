use vstd::prelude::*;

pub mod layer;

verus! {

/// One of the two axes of the pixel grid.
#[derive(Clone, Copy, Debug, PartialEq, Eq, Structural)]
pub enum Axis {
    X,
    Y,
}

/// An axis-aligned bounding box on the integer pixel grid.
///
/// Both corners are inclusive, so a box of width `w` whose left edge is `x`
/// spans the columns `x ..= x + w - 1`. A box that covers no pixel has no
/// meaning; every constructor produces a well-formed box.
#[derive(Clone, Copy, Debug, PartialEq, Eq, Structural)]
pub struct Aabb {
    pub x1: i32,
    pub y1: i32,
    pub x2: i32,
    pub y2: i32,
}

impl Aabb {
    /// A box covers at least one pixel in each direction.
    pub open spec fn wf(&self) -> bool {
        self.x1 <= self.x2 && self.y1 <= self.y2
    }

    /// Whether the pixel `(x, y)` lies inside the box.
    pub open spec fn contains_point(&self, x: int, y: int) -> bool {
        self.x1 <= x <= self.x2 && self.y1 <= y <= self.y2
    }

    /// Whether two boxes share at least one pixel.
    pub open spec fn overlaps(&self, other: Aabb) -> bool {
        exists|x: int, y: int| #[trigger] self.contains_point(x, y) && other.contains_point(x, y)
    }

    /// Whether each box starts no later than the other ends, on both axes.
    /// For well-formed boxes this is the same as sharing a pixel.
    pub open spec fn meets(&self, other: Aabb) -> bool {
        self.x2 >= other.x1 && self.y2 >= other.y1 && self.x1 <= other.x2 && self.y1 <= other.y2
    }

    /// The box with each corner coordinate shifted by its own amount.
    pub open spec fn shifted4(&self, x1: int, y1: int, x2: int, y2: int) -> Aabb {
        Aabb {
            x1: (self.x1 + x1) as i32,
            y1: (self.y1 + y1) as i32,
            x2: (self.x2 + x2) as i32,
            y2: (self.y2 + y2) as i32,
        }
    }

    /// The box translated by `(x, y)`.
    pub open spec fn shifted(&self, x: int, y: int) -> Aabb {
        self.shifted4(x, y, x, y)
    }

    /// The box translated by `k` along one axis.
    pub open spec fn shifted_along(&self, axis: Axis, k: int) -> Aabb {
        match axis {
            Axis::X => self.shifted(k, 0),
            Axis::Y => self.shifted(0, k),
        }
    }

    /// Whether translating the box by `k` along one axis stays inside `i32`.
    pub open spec fn shift_along_fits(&self, axis: Axis, k: int) -> bool {
        match axis {
            Axis::X => self.shift4_fits(k, 0, k, 0),
            Axis::Y => self.shift4_fits(0, k, 0, k),
        }
    }

    /// Whether shifting the corners by these amounts stays inside `i32`.
    pub open spec fn shift4_fits(&self, x1: int, y1: int, x2: int, y2: int) -> bool {
        &&& i32::MIN <= self.x1 + x1 <= i32::MAX
        &&& i32::MIN <= self.y1 + y1 <= i32::MAX
        &&& i32::MIN <= self.x2 + x2 <= i32::MAX
        &&& i32::MIN <= self.y2 + y2 <= i32::MAX
    }

    /// The smallest box that contains both `a` and `b`.
    pub open spec fn hull(a: Aabb, b: Aabb) -> Aabb {
        Aabb {
            x1: if a.x1 <= b.x1 { a.x1 } else { b.x1 },
            y1: if a.y1 <= b.y1 { a.y1 } else { b.y1 },
            x2: if a.x2 >= b.x2 { a.x2 } else { b.x2 },
            y2: if a.y2 >= b.y2 { a.y2 } else { b.y2 },
        }
    }

    /// The box of the given size whose top-left pixel is the origin.
    pub fn from_width_height(width: i32, height: i32) -> (b: Self)
        requires
            width > 0,
            height > 0,
        ensures
            b == (Aabb { x1: 0, y1: 0, x2: (width - 1) as i32, y2: (height - 1) as i32 }),
            b.wf(),
    {
        Aabb { x1: 0, y1: 0, x2: width - 1, y2: height - 1 }
    }

    /// The box of the given size whose top-left pixel is `(x, y)`.
    pub fn from_pos_width_height(x: i32, y: i32, width: i32, height: i32) -> (b: Self)
        requires
            width > 0,
            height > 0,
            x + width - 1 <= i32::MAX,
            y + height - 1 <= i32::MAX,
        ensures
            b == (Aabb { x1: x, y1: y, x2: (x + width - 1) as i32, y2: (y + height - 1) as i32 }),
            b.wf(),
    {
        Aabb { x1: x, y1: y, x2: x + (width - 1), y2: y + (height - 1) }
    }

    /// Shifts each corner coordinate by its own amount.
    pub fn offset4(&self, x1: i32, y1: i32, x2: i32, y2: i32) -> (b: Self)
        requires
            self.shift4_fits(x1 as int, y1 as int, x2 as int, y2 as int),
        ensures
            b == self.shifted4(x1 as int, y1 as int, x2 as int, y2 as int),
    {
        Aabb { x1: self.x1 + x1, y1: self.y1 + y1, x2: self.x2 + x2, y2: self.y2 + y2 }
    }

    /// Translates the box by `(x, y)`; its size is unchanged.
    pub fn offset(&self, x: i32, y: i32) -> (b: Self)
        requires
            self.shift4_fits(x as int, y as int, x as int, y as int),
        ensures
            b == self.shifted(x as int, y as int),
            self.wf() ==> b.wf(),
    {
        self.offset4(x, y, x, y)
    }

    /// Translates the box by `k` along one axis; its size is unchanged.
    pub fn offset_along(&self, axis: Axis, k: i32) -> (b: Self)
        requires
            self.shift_along_fits(axis, k as int),
        ensures
            b == self.shifted_along(axis, k as int),
            self.wf() ==> b.wf(),
    {
        match axis {
            Axis::X => self.offset(k, 0),
            Axis::Y => self.offset(0, k),
        }
    }

    /// Moves the top-left corner out by `(x1, y1)` and the bottom-right
    /// corner out by `(x2, y2)`.
    pub fn grow(&self, x1: i32, y1: i32, x2: i32, y2: i32) -> (b: Self)
        requires
            self.shift4_fits(-(x1 as int), -(y1 as int), x2 as int, y2 as int),
        ensures
            b == self.shifted4(-(x1 as int), -(y1 as int), x2 as int, y2 as int),
    {
        Aabb { x1: self.x1 - x1, y1: self.y1 - y1, x2: self.x2 + x2, y2: self.y2 + y2 }
    }

    /// The smallest box that contains both arguments.
    pub fn union(a: Self, b: Self) -> (u: Self)
        ensures
            u == Self::hull(a, b),
            a.wf() || b.wf() ==> u.wf(),
    {
        Aabb {
            x1: if a.x1 <= b.x1 { a.x1 } else { b.x1 },
            y1: if a.y1 <= b.y1 { a.y1 } else { b.y1 },
            x2: if a.x2 >= b.x2 { a.x2 } else { b.x2 },
            y2: if a.y2 >= b.y2 { a.y2 } else { b.y2 },
        }
    }

    /// Whether the two boxes share at least one pixel.
    pub fn intersects(&self, other: Self) -> (hit: bool)
        ensures
            hit == self.meets(other),
            self.wf() && other.wf() ==> hit == self.overlaps(other),
    {
        proof {
            if self.wf() && other.wf() {
                Self::lemma_overlap_by_corners(*self, other);
            }
        }
        self.x2 >= other.x1 && self.y2 >= other.y1 && self.x1 <= other.x2 && self.y1 <= other.y2
    }

    /// Two well-formed boxes share a pixel exactly when each starts no later
    /// than the other ends, on both axes.
    pub proof fn lemma_overlap_by_corners(a: Aabb, b: Aabb)
        requires
            a.wf(),
            b.wf(),
        ensures
            a.overlaps(b) <==> a.meets(b),
    {
        if a.meets(b) {
            let x: int = if a.x1 >= b.x1 { a.x1 as int } else { b.x1 as int };
            let y: int = if a.y1 >= b.y1 { a.y1 as int } else { b.y1 as int };
            assert(a.contains_point(x, y) && b.contains_point(x, y));
        }
    }

    /// Sharing a pixel does not depend on the order of the two boxes.
    pub proof fn lemma_overlap_symmetric(a: Aabb, b: Aabb)
        ensures
            a.overlaps(b) == b.overlaps(a),
    {
        if a.overlaps(b) {
            let (x, y) = choose|x: int, y: int| #[trigger]
                a.contains_point(x, y) && b.contains_point(x, y);
            assert(b.contains_point(x, y) && a.contains_point(x, y));
        }
        if b.overlaps(a) {
            let (x, y) = choose|x: int, y: int| #[trigger]
                b.contains_point(x, y) && a.contains_point(x, y);
            assert(a.contains_point(x, y) && b.contains_point(x, y));
        }
    }

    /// The hull of two boxes contains every pixel of either.
    pub proof fn lemma_hull_contains(a: Aabb, b: Aabb, x: int, y: int)
        requires
            a.contains_point(x, y) || b.contains_point(x, y),
        ensures
            Self::hull(a, b).contains_point(x, y),
    {
    }
}

} // verus!
