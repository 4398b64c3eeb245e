//! Proved laws of the decoder, stated over the mathematical model.

use vstd::prelude::*;

use crate::geom::curve_end;
use crate::geom::middle_point_spec;
use crate::geom::tag_class;
use crate::geom::Curve;
use crate::geom::Point;
use crate::geom::TAG_BEZIER2;
use crate::geom::TAG_BEZIER3;
use crate::geom::TAG_ONCURVE;
use crate::model::class_at;
use crate::model::contour_wf;
use crate::model::decode_contour;
use crate::model::decode_from;
use crate::model::initial_cursor;
use crate::model::pt_at;
use crate::model::start_ok;
use crate::model::start_point_spec;
use crate::model::step_advance;
use crate::model::step_curve;
use crate::model::step_done;
use crate::model::step_ok;

verus! {

/// Decoding from any reachable cursor ends back at the contour's
/// resolved start point: whatever segments remain, the last of them ends
/// at `start_point_spec`, and the boundary tags admit that resolution.
proof fn lemma_decode_closes_from(pts: Seq<Point>, tags: Seq<u8>, idx: int)
    requires
        contour_wf(pts, tags),
        -1 <= idx < pts.len(),
        decode_from(pts, tags, idx) is Some,
    ensures
        decode_from(pts, tags, idx)->Some_0.len() > 0 ==> curve_end(
            decode_from(pts, tags, idx)->Some_0.last(),
        ) == start_point_spec(pts, tags) && start_ok(tags),
    decreases pts.len() - idx,
{
    let l = pts.len() as int;
    let cs = decode_from(pts, tags, idx)->Some_0;
    if !step_done(tags, idx) {
        assert(step_ok(tags, idx));
        let adv = step_advance(tags, idx);
        let c = step_curve(pts, tags, idx);
        let rest = decode_from(pts, tags, idx + adv);
        assert(rest is Some);
        assert(cs == seq![c] + rest->Some_0);
        if rest->Some_0.len() > 0 {
            assert(idx + adv < l) by {
                if idx + adv >= l {
                    assert(step_done(tags, idx + adv));
                }
            }
            lemma_decode_closes_from(pts, tags, idx + adv);
            assert(cs.last() == rest->Some_0.last());
        } else {
            assert(step_done(tags, idx + adv));
            assert(cs.last() == c);
        }
    }
}

/// Closure: a contour that decodes without error yields at least one
/// segment, and the last segment ends exactly at the contour's resolved
/// start point — the path traced from `start_point_spec` through every
/// emitted segment is closed.  The boundary tags of such a contour are
/// also always well formed, so start-point resolution cannot fail.
pub proof fn lemma_contour_closes(pts: Seq<Point>, tags: Seq<u8>)
    requires
        contour_wf(pts, tags),
        decode_contour(pts, tags) is Some,
    ensures
        decode_contour(pts, tags)->Some_0.len() >= 1,
        curve_end(decode_contour(pts, tags)->Some_0.last()) == start_point_spec(pts, tags),
        start_ok(tags),
{
    let idx = initial_cursor(tags);
    assert(!step_done(tags, idx));
    lemma_decode_closes_from(pts, tags, idx);
}

/// From a cursor inside an all-on-curve contour, decoding emits one line
/// per remaining point, each to the next point in circular order.
proof fn lemma_lines_decode_from(pts: Seq<Point>, tags: Seq<u8>, idx: int)
    requires
        contour_wf(pts, tags),
        forall|i: int| 0 <= i < tags.len() ==> tag_class(#[trigger] tags[i]) == TAG_ONCURVE,
        0 <= idx <= pts.len(),
    ensures
        decode_from(pts, tags, idx) is Some,
        decode_from(pts, tags, idx)->Some_0.len() == pts.len() - idx,
        forall|j: int|
            0 <= j < pts.len() - idx ==> decode_from(pts, tags, idx)->Some_0[j] == Curve::Line(
                pt_at(pts, idx + 1 + j),
            ),
    decreases pts.len() - idx,
{
    if idx < pts.len() {
        assert(class_at(tags, idx + 1) == TAG_ONCURVE);
        lemma_lines_decode_from(pts, tags, idx + 1);
        let c = step_curve(pts, tags, idx);
        let cs = decode_from(pts, tags, idx)->Some_0;
        let rest = decode_from(pts, tags, idx + 1)->Some_0;
        assert(cs == seq![c] + rest);
        assert forall|j: int| 0 <= j < pts.len() - idx implies cs[j] == Curve::Line(
            pt_at(pts, idx + 1 + j),
        ) by {
            if j > 0 {
                assert(cs[j] == rest[j - 1]);
            }
        }
    }
}

/// A contour whose points are all on-curve decodes, without error, to
/// exactly one line per point, connecting consecutive points circularly.
pub proof fn lemma_all_on_curve_lines(pts: Seq<Point>, tags: Seq<u8>)
    requires
        contour_wf(pts, tags),
        forall|i: int| 0 <= i < tags.len() ==> tag_class(#[trigger] tags[i]) == TAG_ONCURVE,
    ensures
        decode_contour(pts, tags) is Some,
        decode_contour(pts, tags)->Some_0.len() == pts.len(),
        forall|j: int|
            0 <= j < pts.len() ==> decode_contour(pts, tags)->Some_0[j] == Curve::Line(
                pt_at(pts, j + 1),
            ),
{
    assert(tag_class(tags[0]) == TAG_ONCURVE);
    lemma_lines_decode_from(pts, tags, 0);
    assert forall|j: int| 0 <= j < pts.len() implies decode_contour(pts, tags)->Some_0[j]
        == Curve::Line(pt_at(pts, j + 1)) by {
        assert(decode_from(pts, tags, 0)->Some_0[j] == Curve::Line(pt_at(pts, 0 + 1 + j)));
    }
}

/// Two consecutive off-curve quadratic controls ahead of the cursor emit
/// exactly one quadratic segment whose end is the midpoint of the two
/// controls, and the cursor advances by 1 — not 2 — so the second
/// control is re-examined as the next segment's control.
pub proof fn lemma_double_quad_step(pts: Seq<Point>, tags: Seq<u8>, idx: int)
    requires
        contour_wf(pts, tags),
        -1 <= idx < pts.len() - 1,
        class_at(tags, idx + 1) == TAG_BEZIER2,
        class_at(tags, idx + 2) == TAG_BEZIER2,
    ensures
        step_ok(tags, idx),
        step_curve(pts, tags, idx) == Curve::Bezier2(
            pt_at(pts, idx + 1),
            middle_point_spec(pt_at(pts, idx + 1), pt_at(pts, idx + 2)),
        ),
        step_advance(tags, idx) == 1,
{
}

/// A single off-curve quadratic control followed by an on-curve point
/// emits exactly one quadratic segment with that control and that end,
/// and the cursor advances by 2.
pub proof fn lemma_single_quad_step(pts: Seq<Point>, tags: Seq<u8>, idx: int)
    requires
        contour_wf(pts, tags),
        -1 <= idx < pts.len() - 1,
        class_at(tags, idx + 1) == TAG_BEZIER2,
        class_at(tags, idx + 2) == TAG_ONCURVE,
    ensures
        step_ok(tags, idx),
        step_curve(pts, tags, idx) == Curve::Bezier2(pt_at(pts, idx + 1), pt_at(pts, idx + 2)),
        step_advance(tags, idx) == 2,
{
}

/// Two cubic controls followed by an on-curve point emit exactly one
/// cubic segment consuming all three points: the cursor advances by 3.
pub proof fn lemma_cubic_step(pts: Seq<Point>, tags: Seq<u8>, idx: int)
    requires
        contour_wf(pts, tags),
        -1 <= idx < pts.len(),
        class_at(tags, idx + 1) == TAG_BEZIER3,
        class_at(tags, idx + 2) == TAG_BEZIER3,
        class_at(tags, idx + 3) == TAG_ONCURVE,
    ensures
        step_ok(tags, idx),
        step_curve(pts, tags, idx) == Curve::Bezier3(
            pt_at(pts, idx + 1),
            pt_at(pts, idx + 2),
            pt_at(pts, idx + 3),
        ),
        step_advance(tags, idx) == 3,
{
}

/// A cubic control not followed by a second cubic control and an
/// on-curve point is malformed: decoding from that cursor is an error,
/// never a reinterpretation as some other curve.
pub proof fn lemma_lone_cubic_rejected(pts: Seq<Point>, tags: Seq<u8>, idx: int)
    requires
        contour_wf(pts, tags),
        -1 <= idx < pts.len(),
        class_at(tags, idx + 1) == TAG_BEZIER3,
        class_at(tags, idx + 2) != TAG_BEZIER3 || class_at(tags, idx + 3) != TAG_ONCURVE,
    ensures
        !step_done(tags, idx),
        !step_ok(tags, idx),
        decode_from(pts, tags, idx) is None,
{
}

/// A tag whose classification is none of the three known kinds is
/// malformed: decoding from a cursor that faces it is an error.
pub proof fn lemma_unknown_tag_rejected(pts: Seq<Point>, tags: Seq<u8>, idx: int)
    requires
        contour_wf(pts, tags),
        -1 <= idx < pts.len(),
        class_at(tags, idx + 1) != TAG_ONCURVE,
        class_at(tags, idx + 1) != TAG_BEZIER2,
        class_at(tags, idx + 1) != TAG_BEZIER3,
    ensures
        !step_done(tags, idx),
        !step_ok(tags, idx),
        decode_from(pts, tags, idx) is None,
{
}

} // verus!
