//! Points, curve segments, and the point-classification tags.

use vstd::prelude::*;

verus! {

/// Only the two low bits of a tag classify a point.
pub const TAG_MASK: u8 = 0x03;
/// The point lies on the contour.
pub const TAG_ONCURVE: u8 = 0x01;
/// Off-curve control point of a quadratic segment.
pub const TAG_BEZIER2: u8 = 0x00;
/// Off-curve control point of a cubic segment.
pub const TAG_BEZIER3: u8 = 0x02;

/// The classification of a tag: its two low bits.
pub open spec fn tag_class(t: u8) -> u8 {
    t & TAG_MASK
}

/// A 2D coordinate in fixed-point font units.
#[derive(Clone, Copy, PartialEq, Eq, Structural, Debug)]
pub struct Point {
    pub x: i32,
    pub y: i32,
}

/// One decoded segment of a contour: a straight line, a quadratic Bézier,
/// or a cubic Bézier.  Each variant carries the control point(s) and the
/// end point; the segment starts wherever the previous one ended.
#[derive(Clone, Copy, PartialEq, Eq, Structural, Debug)]
pub enum Curve {
    Line(Point),
    Bezier2(Point, Point),
    Bezier3(Point, Point, Point),
}

/// The point a segment ends at.
pub open spec fn curve_end(c: Curve) -> Point {
    match c {
        Curve::Line(e) => e,
        Curve::Bezier2(_, e) => e,
        Curve::Bezier3(_, _, e) => e,
    }
}

/// Halving that rounds toward zero, as machine signed division does.
pub open spec fn half_toward_zero(s: int) -> int {
    if s >= 0 {
        s / 2
    } else {
        -((-s) / 2)
    }
}

/// The midpoint of two points, each coordinate rounded toward zero.
pub open spec fn middle_point_spec(a: Point, b: Point) -> Point {
    Point {
        x: half_toward_zero(a.x + b.x) as i32,
        y: half_toward_zero(a.y + b.y) as i32,
    }
}

/// Halves the sum of two coordinates, rounding toward zero.
fn half_sum(a: i32, b: i32) -> (r: i32)
    ensures
        r as int == half_toward_zero(a as int + b as int),
{
    let s: i64 = a as i64 + b as i64;
    if s >= 0 {
        ((s as u64) / 2) as i32
    } else {
        let m: u64 = (-s) as u64;
        (-((m / 2) as i64)) as i32
    }
}

/// The midpoint of two points, the implied on-curve point between two
/// consecutive off-curve quadratic controls.
pub fn middle_point(a: Point, b: Point) -> (r: Point)
    ensures
        r == middle_point_spec(a, b),
{
    Point { x: half_sum(a.x, b.x), y: half_sum(a.y, b.y) }
}

} // verus!
