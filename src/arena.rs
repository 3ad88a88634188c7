use rand::Rng;
use vstd::prelude::*;

use crate::collision::{collide, overlaps};
use crate::config::{BOTTOM_WALL, HEAD_HITBOX, LEFT_WALL, RIGHT_WALL, TOP_WALL, WALL_THICKNESS};
use crate::geometry::{Aabb, Position};

verus! {

/// The four walls that bound the arena.
#[derive(Clone, Copy, Debug, PartialEq, Eq, Structural)]
pub enum WallLocation {
    Left,
    Right,
    Bottom,
    Top,
}

pub open spec fn wall_center(w: WallLocation) -> Position {
    match w {
        WallLocation::Left => Position { x: LEFT_WALL, y: 0 },
        WallLocation::Right => Position { x: RIGHT_WALL, y: 0 },
        WallLocation::Bottom => Position { x: 0, y: BOTTOM_WALL },
        WallLocation::Top => Position { x: 0, y: TOP_WALL },
    }
}

/// Full width and height of a wall: it spans the arena plus one thickness,
/// so that the corners are closed.
pub open spec fn wall_size(w: WallLocation) -> (i32, i32) {
    match w {
        WallLocation::Left | WallLocation::Right => (
            WALL_THICKNESS,
            (TOP_WALL - BOTTOM_WALL + WALL_THICKNESS) as i32,
        ),
        WallLocation::Bottom | WallLocation::Top => (
            (RIGHT_WALL - LEFT_WALL + WALL_THICKNESS) as i32,
            WALL_THICKNESS,
        ),
    }
}

/// The box a wall collides with: its own extent.
pub open spec fn wall_box(w: WallLocation) -> Aabb {
    Aabb {
        center: wall_center(w),
        half_w: (wall_size(w).0 / 2) as i32,
        half_h: (wall_size(w).1 / 2) as i32,
    }
}

/// The fixed hitbox centered on `p` used for the head and for food.
pub open spec fn hitbox_at(p: Position) -> Aabb {
    Aabb { center: p, half_w: (HEAD_HITBOX / 2) as i32, half_h: (HEAD_HITBOX / 2) as i32 }
}

/// A head at `head` touches one of the four walls.
pub open spec fn hits_wall(head: Position) -> bool {
    ||| overlaps(hitbox_at(head), wall_box(WallLocation::Left))
    ||| overlaps(hitbox_at(head), wall_box(WallLocation::Right))
    ||| overlaps(hitbox_at(head), wall_box(WallLocation::Bottom))
    ||| overlaps(hitbox_at(head), wall_box(WallLocation::Top))
}

/// A head at `head` touches food at `food`.
pub open spec fn hits_food(head: Position, food: Position) -> bool {
    overlaps(hitbox_at(head), hitbox_at(food))
}

/// Where food may appear: inset from each wall's center line by the wall
/// thickness, the upper bounds excluded.
pub open spec fn in_food_area(p: Position) -> bool {
    &&& LEFT_WALL + WALL_THICKNESS <= p.x < RIGHT_WALL - WALL_THICKNESS
    &&& BOTTOM_WALL + WALL_THICKNESS <= p.y < TOP_WALL - WALL_THICKNESS
}

impl WallLocation {
    pub fn position(&self) -> (r: Position)
        ensures
            r == wall_center(*self),
    {
        match self {
            WallLocation::Left => Position { x: LEFT_WALL, y: 0 },
            WallLocation::Right => Position { x: RIGHT_WALL, y: 0 },
            WallLocation::Bottom => Position { x: 0, y: BOTTOM_WALL },
            WallLocation::Top => Position { x: 0, y: TOP_WALL },
        }
    }

    /// Width and height of the wall.
    pub fn size(&self) -> (r: (i32, i32))
        ensures
            r == wall_size(*self),
            r.0 > 0 && r.1 > 0,
    {
        let arena_height = TOP_WALL - BOTTOM_WALL;
        let arena_width = RIGHT_WALL - LEFT_WALL;
        match self {
            WallLocation::Left | WallLocation::Right => (WALL_THICKNESS, arena_height + WALL_THICKNESS),
            WallLocation::Bottom | WallLocation::Top => (arena_width + WALL_THICKNESS, WALL_THICKNESS),
        }
    }

    pub fn collider(&self) -> (r: Aabb)
        ensures
            r == wall_box(*self),
            r.wf(),
    {
        let (w, h) = self.size();
        Aabb::new(self.position(), w / 2, h / 2)
    }
}

pub fn hitbox(p: Position) -> (r: Aabb)
    ensures
        r == hitbox_at(p),
        r.wf(),
{
    Aabb::new(p, HEAD_HITBOX / 2, HEAD_HITBOX / 2)
}

/// Tests the head against each wall in turn.
pub fn head_hits_wall(head: Position) -> (r: bool)
    ensures
        r == hits_wall(head),
{
    let h = hitbox(head);
    let walls = [WallLocation::Left, WallLocation::Right, WallLocation::Bottom, WallLocation::Top];
    let mut i: usize = 0;
    while i < 4
        invariant
            i <= 4,
            h == hitbox_at(head),
            walls@ == seq![WallLocation::Left, WallLocation::Right, WallLocation::Bottom, WallLocation::Top],
            forall|k: int| 0 <= k < i ==> !overlaps(h, wall_box(#[trigger] walls@[k])),
        decreases 4 - i,
    {
        if collide(&h, &walls[i].collider()).is_some() {
            return true;
        }
        i = i + 1;
    }
    proof {
        assert(walls@[0] == WallLocation::Left);
        assert(walls@[1] == WallLocation::Right);
        assert(walls@[2] == WallLocation::Bottom);
        assert(walls@[3] == WallLocation::Top);
    }
    false
}

/// Tests the head against food; both use the fixed head-size hitbox.
pub fn head_hits_food(head: Position, food: Position) -> (r: bool)
    ensures
        r == hits_food(head, food),
{
    collide(&hitbox(head), &hitbox(food)).is_some()
}

/// Relies on rand's `thread_rng().gen_range(low..high)`: an integer drawn from
/// the half-open range, which must not be empty.
#[verifier::external_body]
fn random_in_range(low: i32, high: i32) -> (r: i32)
    requires
        low < high,
    ensures
        low <= r < high,
{
    rand::thread_rng().gen_range(low..high)
}

/// Draws a random position for new food inside the inset arena. Nothing
/// keeps it clear of the snake.
pub fn food_spawn_position() -> (r: Position)
    ensures
        in_food_area(r),
{
    let x = random_in_range(LEFT_WALL + WALL_THICKNESS, RIGHT_WALL - WALL_THICKNESS);
    let y = random_in_range(BOTTOM_WALL + WALL_THICKNESS, TOP_WALL - WALL_THICKNESS);
    Position { x, y }
}

} // verus!
