//! Integer screen/world geometry: points and rectangles with saturating
//! coordinate arithmetic, so that every position update is total.

use vstd::prelude::*;

verus! {

/// The value `v` clamped to the range of `i32`.
pub open spec fn clamp_i32(v: int) -> int {
    if v < i32::MIN as int {
        i32::MIN as int
    } else if v > i32::MAX as int {
        i32::MAX as int
    } else {
        v
    }
}

/// `a + b`, saturating at the bounds of `i32`.
pub fn sat_add_i32(a: i32, b: i32) -> (r: i32)
    ensures
        r == clamp_i32(a + b),
{
    if b >= 0 {
        if a > i32::MAX - b {
            i32::MAX
        } else {
            a + b
        }
    } else {
        if a < i32::MIN - b {
            i32::MIN
        } else {
            a + b
        }
    }
}

/// `a - b`, saturating at the bounds of `i32`.
pub fn sat_sub_i32(a: i32, b: i32) -> (r: i32)
    ensures
        r == clamp_i32(a - b),
{
    if b >= 0 {
        if a < i32::MIN + b {
            i32::MIN
        } else {
            a - b
        }
    } else {
        if a > i32::MAX + b {
            i32::MAX
        } else {
            a - b
        }
    }
}

/// A point in world or screen space.
#[derive(Clone, Copy, PartialEq, Eq, Structural, Debug)]
pub struct Point {
    pub x: i32,
    pub y: i32,
}

impl Point {
    pub fn new(x: i32, y: i32) -> (p: Point)
        ensures
            p == (Point { x, y }),
    {
        Point { x, y }
    }

    /// The point translated by `(dx, dy)`, each coordinate saturating
    /// at the bounds of `i32`.
    pub fn offset(self, dx: i32, dy: i32) -> (p: Point)
        ensures
            p.x == clamp_i32(self.x + dx),
            p.y == clamp_i32(self.y + dy),
    {
        Point { x: sat_add_i32(self.x, dx), y: sat_add_i32(self.y, dy) }
    }
}

/// An axis-aligned rectangle: top-left corner plus width and height.
#[derive(Clone, Copy, PartialEq, Eq, Structural, Debug)]
pub struct Rect {
    pub x: i32,
    pub y: i32,
    pub width: u32,
    pub height: u32,
}

/// The rectangle of size `width` by `height` whose center is `center`
/// (the top-left corner saturates at the bounds of `i32`).
pub open spec fn rect_from_center(center: Point, width: u32, height: u32) -> Rect {
    Rect {
        x: clamp_i32(center.x - width / 2) as i32,
        y: clamp_i32(center.y - height / 2) as i32,
        width,
        height,
    }
}

impl Rect {
    pub fn new(x: i32, y: i32, width: u32, height: u32) -> (r: Rect)
        ensures
            r == (Rect { x, y, width, height }),
    {
        Rect { x, y, width, height }
    }

    /// Builds the rectangle of the given size centered on `center`.
    pub fn from_center(center: Point, width: u32, height: u32) -> (r: Rect)
        ensures
            r == rect_from_center(center, width, height),
    {
        let half_w: i32 = (width / 2) as i32;
        let half_h: i32 = (height / 2) as i32;
        Rect { x: sat_sub_i32(center.x, half_w), y: sat_sub_i32(center.y, half_h), width, height }
    }
}

} // verus!
