use vstd::prelude::*;

use crate::geometry::Aabb;

verus! {

/// The side of a stationary box that a moving box struck.
#[derive(Clone, Copy, Debug, PartialEq, Eq, Structural)]
pub enum Collision {
    Left,
    Right,
    Top,
    Bottom,
}

/// The two boxes overlap on both axes (touching edges count as overlap).
pub open spec fn overlaps(a: Aabb, b: Aabb) -> bool {
    &&& a.min_x() <= b.max_x()
    &&& a.max_x() >= b.min_x()
    &&& a.min_y() <= b.max_y()
    &&& a.max_y() >= b.min_y()
}

pub open spec fn clamp(v: int, lo: int, hi: int) -> int {
    if v < lo {
        lo
    } else if v > hi {
        hi
    } else {
        v
    }
}

pub open spec fn abs(v: int) -> int {
    if v < 0 {
        -v
    } else {
        v
    }
}

/// Which side of `fixed` the box `moving` struck: take the point of `fixed`
/// closest to the center of `moving`, and the offset of that center from it.
/// A horizontal offset that is strictly larger in magnitude gives `Left` or
/// `Right`; otherwise the vertical one gives `Top` or `Bottom`.
pub open spec fn side_of(moving: Aabb, fixed: Aabb) -> Collision {
    let ox = moving.center.x - clamp(moving.center.x as int, fixed.min_x(), fixed.max_x());
    let oy = moving.center.y - clamp(moving.center.y as int, fixed.min_y(), fixed.max_y());
    if abs(ox) > abs(oy) {
        if ox < 0 {
            Collision::Left
        } else {
            Collision::Right
        }
    } else if oy > 0 {
        Collision::Top
    } else {
        Collision::Bottom
    }
}

pub open spec fn collision_of(moving: Aabb, fixed: Aabb) -> Option<Collision> {
    if overlaps(moving, fixed) {
        Some(side_of(moving, fixed))
    } else {
        None
    }
}

fn clamp_exec(v: i64, lo: i64, hi: i64) -> (r: i64)
    ensures
        r == clamp(v as int, lo as int, hi as int),
{
    if v < lo {
        lo
    } else if v > hi {
        hi
    } else {
        v
    }
}

fn abs_exec(v: i64) -> (r: i64)
    requires
        v > i64::MIN,
    ensures
        r == abs(v as int),
{
    if v < 0 {
        -v
    } else {
        v
    }
}

/// Tests `moving` against the stationary box `fixed`: `None` when they do not
/// overlap, else the side of `fixed` that was struck.
pub fn collide(moving: &Aabb, fixed: &Aabb) -> (r: Option<Collision>)
    ensures
        r == collision_of(*moving, *fixed),
{
    let m_min_x = moving.center.x as i64 - moving.half_w as i64;
    let m_max_x = moving.center.x as i64 + moving.half_w as i64;
    let m_min_y = moving.center.y as i64 - moving.half_h as i64;
    let m_max_y = moving.center.y as i64 + moving.half_h as i64;
    let f_min_x = fixed.center.x as i64 - fixed.half_w as i64;
    let f_max_x = fixed.center.x as i64 + fixed.half_w as i64;
    let f_min_y = fixed.center.y as i64 - fixed.half_h as i64;
    let f_max_y = fixed.center.y as i64 + fixed.half_h as i64;
    if !(m_min_x <= f_max_x && m_max_x >= f_min_x && m_min_y <= f_max_y && m_max_y >= f_min_y) {
        return None;
    }
    let cx = moving.center.x as i64;
    let cy = moving.center.y as i64;
    let ox = cx - clamp_exec(cx, f_min_x, f_max_x);
    let oy = cy - clamp_exec(cy, f_min_y, f_max_y);
    let side = if abs_exec(ox) > abs_exec(oy) {
        if ox < 0 {
            Collision::Left
        } else {
            Collision::Right
        }
    } else if oy > 0 {
        Collision::Top
    } else {
        Collision::Bottom
    };
    Some(side)
}

/// Overlap detection does not depend on which box is the moving one:
/// `collide(a, b)` finds a collision exactly when `collide(b, a)` does.
pub proof fn lemma_overlap_symmetric(a: Aabb, b: Aabb)
    ensures
        collision_of(a, b).is_some() == collision_of(b, a).is_some(),
{
}

} // verus!
