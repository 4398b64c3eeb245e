//! The mathematical model of contour decoding.
//!
//! A contour is a pair of equal-length sequences: its points and their
//! tags.  Decoding is specified as a small-step relation on a cursor into
//! the contour, together with a recursive function that collects every
//! segment the steps emit.  The executable iterator is proved to follow
//! these definitions exactly.

use vstd::prelude::*;

use crate::geom::Curve;
use crate::geom::Point;
use crate::geom::middle_point_spec;
use crate::geom::tag_class;
use crate::geom::TAG_BEZIER2;
use crate::geom::TAG_BEZIER3;
use crate::geom::TAG_ONCURVE;

verus! {

/// A contour's points and tags line up, and a contour is never empty.
pub open spec fn contour_wf(pts: Seq<Point>, tags: Seq<u8>) -> bool {
    &&& pts.len() == tags.len()
    &&& pts.len() >= 1
}

/// Circular lookup: a contour implicitly repeats its first point, so any
/// index at or past the end wraps to index 0.
pub open spec fn wrap_index(i: int, len: int) -> int {
    if i < len {
        i
    } else {
        0
    }
}

/// The point at local index `i`, with circular wraparound.
pub open spec fn pt_at(pts: Seq<Point>, i: int) -> Point {
    pts[wrap_index(i, pts.len() as int)]
}

/// The tag classification at local index `i`, with circular wraparound.
pub open spec fn class_at(tags: Seq<u8>, i: int) -> u8 {
    tag_class(tags[wrap_index(i, tags.len() as int)])
}

/// The cursor a decode starts from.  A contour whose first point is an
/// off-curve quadratic control starts one step before the buffer, so that
/// the first emitted segment consumes point 0 as a control.
pub open spec fn initial_cursor(tags: Seq<u8>) -> int {
    if tag_class(tags[0]) == TAG_BEZIER2 {
        -1
    } else {
        0
    }
}

/// Decoding at `idx` emits nothing further: either the cursor has run off
/// the contour, or it sits on the last point while the wrapped-around
/// first point is an off-curve quadratic control, whose segment was
/// already accounted for by start-point resolution.
pub open spec fn step_done(tags: Seq<u8>, idx: int) -> bool {
    ||| idx >= tags.len()
    ||| (idx == tags.len() - 1 && class_at(tags, idx + 1) == TAG_BEZIER2)
}

/// Decoding at `idx` emits a segment: the tags ahead of the cursor form
/// one of the three legal patterns.
pub open spec fn step_ok(tags: Seq<u8>, idx: int) -> bool {
    &&& !step_done(tags, idx)
    &&& {
        ||| class_at(tags, idx + 1) == TAG_ONCURVE
        ||| (class_at(tags, idx + 1) == TAG_BEZIER2
            && (class_at(tags, idx + 2) == TAG_ONCURVE || class_at(tags, idx + 2) == TAG_BEZIER2))
        ||| (class_at(tags, idx + 1) == TAG_BEZIER3
            && class_at(tags, idx + 2) == TAG_BEZIER3
            && class_at(tags, idx + 3) == TAG_ONCURVE)
    }
}

/// How far an emitting step advances the cursor.  Two consecutive
/// quadratic controls advance by only 1: the second control has served as
/// an end point (through the implied midpoint) but not yet as a control,
/// so the next step re-examines it.
pub open spec fn step_advance(tags: Seq<u8>, idx: int) -> int {
    if class_at(tags, idx + 1) == TAG_ONCURVE {
        1
    } else if class_at(tags, idx + 1) == TAG_BEZIER2 {
        if class_at(tags, idx + 2) == TAG_ONCURVE {
            2
        } else {
            1
        }
    } else {
        3
    }
}

/// The segment an emitting step yields.
pub open spec fn step_curve(pts: Seq<Point>, tags: Seq<u8>, idx: int) -> Curve {
    if class_at(tags, idx + 1) == TAG_ONCURVE {
        Curve::Line(pt_at(pts, idx + 1))
    } else if class_at(tags, idx + 1) == TAG_BEZIER2 {
        if class_at(tags, idx + 2) == TAG_ONCURVE {
            Curve::Bezier2(pt_at(pts, idx + 1), pt_at(pts, idx + 2))
        } else {
            Curve::Bezier2(
                pt_at(pts, idx + 1),
                middle_point_spec(pt_at(pts, idx + 1), pt_at(pts, idx + 2)),
            )
        }
    } else {
        Curve::Bezier3(pt_at(pts, idx + 1), pt_at(pts, idx + 2), pt_at(pts, idx + 3))
    }
}

/// Every segment decoding emits from cursor `idx` on, or `None` if the
/// tags ahead of some reached cursor form no legal pattern.
pub open spec fn decode_from(pts: Seq<Point>, tags: Seq<u8>, idx: int) -> Option<Seq<Curve>>
    decreases (if idx < tags.len() {
        tags.len() - idx
    } else {
        0int
    }),
{
    if step_done(tags, idx) {
        Some(Seq::empty())
    } else if step_ok(tags, idx) {
        match decode_from(pts, tags, idx + step_advance(tags, idx)) {
            Some(rest) => Some(seq![step_curve(pts, tags, idx)] + rest),
            None => None,
        }
    } else {
        None
    }
}

/// The full decode of one contour, from its initial cursor.
pub open spec fn decode_contour(pts: Seq<Point>, tags: Seq<u8>) -> Option<Seq<Curve>> {
    decode_from(pts, tags, initial_cursor(tags))
}

/// The tag pattern at the contour boundary lets a start point be
/// resolved: the first point is on-curve (or a cubic control, deferred to
/// decoding to reject), or it is a quadratic control and the last point
/// is on-curve or a quadratic control as well.
pub open spec fn start_ok(tags: Seq<u8>) -> bool {
    ||| tag_class(tags[0]) != TAG_BEZIER2
    ||| tag_class(tags[tags.len() - 1]) == TAG_ONCURVE
    ||| tag_class(tags[tags.len() - 1]) == TAG_BEZIER2
}

/// The point a decoded contour starts (and closes) at.  If the first
/// point is an off-curve quadratic control, the contour is taken to begin
/// at the last point when that one is on-curve, and at the midpoint of
/// last and first point when both are off-curve.
pub open spec fn start_point_spec(pts: Seq<Point>, tags: Seq<u8>) -> Point {
    if tag_class(tags[0]) != TAG_BEZIER2 {
        pts[0]
    } else if tag_class(tags[tags.len() - 1]) == TAG_ONCURVE {
        pts[pts.len() - 1]
    } else {
        middle_point_spec(pts[pts.len() - 1], pts[0])
    }
}

} // verus!
