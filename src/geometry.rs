use vstd::prelude::*;

verus! {

/// A point in arena space.
#[derive(Clone, Copy, Debug, PartialEq, Eq, Structural)]
pub struct Position {
    pub x: i32,
    pub y: i32,
}

impl Position {
    pub fn new(x: i32, y: i32) -> (r: Position)
        ensures
            r.x == x,
            r.y == y,
    {
        Position { x, y }
    }
}

/// An axis-aligned box given by its center and its half-extents.
#[derive(Clone, Copy, Debug, PartialEq, Eq, Structural)]
pub struct Aabb {
    pub center: Position,
    pub half_w: i32,
    pub half_h: i32,
}

impl Aabb {
    /// Half-extents are never negative.
    pub open spec fn wf(self) -> bool {
        self.half_w >= 0 && self.half_h >= 0
    }

    pub open spec fn min_x(self) -> int {
        self.center.x - self.half_w
    }

    pub open spec fn max_x(self) -> int {
        self.center.x + self.half_w
    }

    pub open spec fn min_y(self) -> int {
        self.center.y - self.half_h
    }

    pub open spec fn max_y(self) -> int {
        self.center.y + self.half_h
    }

    pub fn new(center: Position, half_w: i32, half_h: i32) -> (r: Aabb)
        requires
            half_w >= 0,
            half_h >= 0,
        ensures
            r.wf(),
            r.center == center,
            r.half_w == half_w,
            r.half_h == half_h,
    {
        Aabb { center, half_w, half_h }
    }
}

} // verus!
