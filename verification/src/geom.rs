//! Plane geometry in milli-pixel fixed point.

use crate::units::{abs64_spec, sat64, sat_add, sat_sub};
use vstd::prelude::*;

verus! {

/// A point or vector, in milli-pixels.  World coordinates put the origin at
/// the screen centre with y growing upward; screen coordinates put it at the
/// top left with y growing downward.
#[derive(Clone, Copy, Debug, PartialEq, Eq, Structural)]
pub struct Vec2i {
    pub x: i64,
    pub y: i64,
}

/// What `world_to_screen_coords` returns.
pub open spec fn world_to_screen_spec(screen_width: int, screen_height: int, point: Vec2i) -> Vec2i {
    Vec2i {
        x: sat64(point.x + screen_width / 2) as i64,
        y: sat64(screen_height - sat64(point.y + screen_height / 2)) as i64,
    }
}

/// Map a world-coordinate point to screen coordinates, for a screen of the
/// given milli-pixel dimensions.
pub fn world_to_screen_coords(screen_width: i64, screen_height: i64, point: Vec2i) -> (r: Vec2i)
    requires
        screen_width >= 0,
        screen_height >= 0,
    ensures
        r == world_to_screen_spec(screen_width as int, screen_height as int, point),
{
    let half_w = (screen_width as u64 / 2) as i64;
    let half_h = (screen_height as u64 / 2) as i64;
    Vec2i { x: sat_add(point.x, half_w), y: sat_sub(screen_height, sat_add(point.y, half_h)) }
}

/// Strict Euclidean proximity: the two points are less than `radius` apart.
/// Stated over exact integers; a non-positive radius admits nothing.
pub open spec fn within_distance(a: Vec2i, b: Vec2i, radius: int) -> bool {
    let dx = abs64_spec(a.x - b.x);
    let dy = abs64_spec(a.y - b.y);
    radius > 0 && dx * dx + dy * dy < radius * radius
}

/// Decide `within_distance` on milli-pixel points.
pub fn points_within_distance(a: Vec2i, b: Vec2i, radius: i64) -> (r: bool)
    ensures
        r == within_distance(a, b, radius as int),
{
    if radius <= 0 {
        return false;
    }
    let dxw: i128 = (a.x as i128) - (b.x as i128);
    let dyw: i128 = (a.y as i128) - (b.y as i128);
    let dx: u128 = if dxw >= 0 {
        dxw as u128
    } else {
        (-dxw) as u128
    };
    let dy: u128 = if dyw >= 0 {
        dyw as u128
    } else {
        (-dyw) as u128
    };
    let rm: u128 = radius as u128;
    if dx >= rm || dy >= rm {
        proof {
            lemma_far_axis_is_far(dx as int, dy as int, rm as int);
        }
        return false;
    }
    assert(rm * rm < 0x40000000000000000000000000000000u128) by (nonlinear_arith)
        requires
            rm < 0x8000000000000000u128,
    ;
    assert(dx * dx < rm * rm) by (nonlinear_arith)
        requires
            0 <= dx < rm,
    ;
    assert(dy * dy < rm * rm) by (nonlinear_arith)
        requires
            0 <= dy < rm,
    ;
    dx * dx + dy * dy < rm * rm
}

/// If either coordinate gap reaches the radius, the points are not within it.
proof fn lemma_far_axis_is_far(dx: int, dy: int, r: int)
    requires
        dx >= 0,
        dy >= 0,
        r >= 0,
        dx >= r || dy >= r,
    ensures
        !(dx * dx + dy * dy < r * r),
{
    assert(dx * dx + dy * dy >= r * r) by (nonlinear_arith)
        requires
            dx >= 0,
            dy >= 0,
            r >= 0,
            dx >= r || dy >= r,
    ;
}

} // verus!
