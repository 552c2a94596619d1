//! Small shared geometry: fixed-point points and rectangles, and the
//! point-in-rectangle test the menu scenes hit-test their buttons with.

use vstd::prelude::*;

verus! {

/// A 2D point or vector in fixed-point screen units.
#[derive(Copy, Clone, Debug, PartialEq, Eq, Structural)]
pub struct Vec2Fx {
    pub x: i64,
    pub y: i64,
}

/// An axis-aligned rectangle in fixed-point screen units, given by its
/// top-left corner and its extent.
#[derive(Copy, Clone, Debug, PartialEq, Eq, Structural)]
pub struct RectFx {
    pub x: i64,
    pub y: i64,
    pub width: i64,
    pub height: i64,
}

/// Whether `point` lies in `rect`, edges included.
pub open spec fn spec_point_in_rect(point: Vec2Fx, rect: RectFx) -> bool {
    &&& rect.x <= point.x <= rect.x + rect.width
    &&& rect.y <= point.y <= rect.y + rect.height
}

/// The hit test every menu button uses: inside or on the edge counts.
pub fn check_collision_point_rect(point: &Vec2Fx, rect: &RectFx) -> (r: bool)
    requires
        i64::MIN <= rect.x + rect.width <= i64::MAX,
        i64::MIN <= rect.y + rect.height <= i64::MAX,
    ensures
        r == spec_point_in_rect(*point, *rect),
{
    let in_x: bool = point.x >= rect.x && point.x <= rect.x + rect.width;
    let in_y: bool = point.y >= rect.y && point.y <= rect.y + rect.height;
    in_x && in_y
}

/// A stubbed point picker: whatever bounds it is given, it answers the
/// origin.
#[allow(unused_variables)]
pub fn random_point(width: i32, height: i32) -> (r: Vec2Fx)
    ensures
        r.x == 0,
        r.y == 0,
{
    Vec2Fx { x: 0, y: 0 }
}

} // verus!
