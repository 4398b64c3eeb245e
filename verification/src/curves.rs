//! The curve iterator: decoding one contour into curve segments.

use vstd::prelude::*;

use crate::geom::middle_point;
use crate::geom::middle_point_spec;
use crate::geom::tag_class;
use crate::geom::Curve;
use crate::geom::Point;
use crate::geom::TAG_BEZIER2;
use crate::geom::TAG_BEZIER3;
use crate::geom::TAG_MASK;
use crate::geom::TAG_ONCURVE;
use crate::model::class_at;
use crate::model::decode_from;
use crate::model::initial_cursor;
use crate::model::pt_at;
use crate::model::start_ok;
use crate::model::start_point_spec;
use crate::model::step_advance;
use crate::model::step_curve;
use crate::model::step_done;
use crate::model::step_ok;
use crate::outline::Outline;

verus! {

/// Why decoding stopped: the tags ahead of the cursor (or at the contour
/// boundary, for the start point) form no legal pattern.
#[derive(Clone, Copy, PartialEq, Eq, Structural, Debug)]
pub enum DecodeError {
    UnexpectedTag,
}

/// Decodes one contour — the points at indices `start ..= start +
/// length - 1` of an outline — into its curve segments, lazily.
///
/// The cursor `idx` is the local index of the anchor the next segment
/// starts from; `-1` means the contour opens on an off-curve quadratic
/// control, consumed by the first segment.
pub struct CurveIterator<'a> {
    pub outline: &'a Outline,
    pub start: usize,
    pub length: usize,
    pub idx: i32,
}

impl<'a> CurveIterator<'a> {
    /// This contour's points, as a sequence.
    pub open spec fn contour_pts(&self) -> Seq<Point> {
        self.outline.points@.subrange(self.start as int, self.start + self.length)
    }

    /// This contour's tags, as a sequence.
    pub open spec fn contour_tags(&self) -> Seq<u8> {
        self.outline.tags@.subrange(self.start as int, self.start + self.length)
    }

    /// The decode cursor, as a mathematical integer.
    pub open spec fn cursor(&self) -> int {
        self.idx as int
    }

    /// The iterator ranges over an in-bounds, non-empty slice of a
    /// well-formed outline, and the cursor never strays far off it.
    pub open spec fn wf(&self) -> bool {
        &&& self.outline.wf()
        &&& self.length >= 1
        &&& self.start + self.length <= self.outline.points@.len()
        &&& -1 <= self.idx <= self.length + 3
    }

    /// Builds the iterator for the contour occupying `start_idx ..=
    /// end_idx`, with the cursor placed before point 0 when that point is
    /// an off-curve quadratic control.
    pub fn from_raw(outline: &'a Outline, start_idx: usize, end_idx: usize) -> (r: CurveIterator<
        'a,
    >)
        requires
            outline.wf(),
            start_idx <= end_idx,
            end_idx < outline.points@.len(),
        ensures
            r.wf(),
            r.outline == outline,
            r.start == start_idx,
            r.length == end_idx - start_idx + 1,
            r.cursor() == initial_cursor(r.contour_tags()),
    {
        let first_class: u8 = outline.tags[start_idx] & TAG_MASK;
        let idx: i32 = if first_class == TAG_BEZIER2 {
            -1
        } else {
            0
        };
        CurveIterator { outline, start: start_idx, length: end_idx - start_idx + 1, idx }
    }

    /// The point the decoded contour starts (and closes) at.
    ///
    /// If the first point is on-curve it is the start itself.  If it is
    /// an off-curve quadratic control, the contour is treated as
    /// beginning at the last point when that one is on-curve, and at the
    /// midpoint of last and first point when both are off-curve
    /// quadratic controls; a cubic control at the boundary is malformed.
    pub fn start(&self) -> (r: Result<Point, DecodeError>)
        requires
            self.wf(),
        ensures
            start_ok(self.contour_tags()) ==> r == Ok::<Point, DecodeError>(
                start_point_spec(self.contour_pts(), self.contour_tags()),
            ),
            !start_ok(self.contour_tags()) ==> r == Err::<Point, DecodeError>(
                DecodeError::UnexpectedTag,
            ),
            tag_class(self.contour_tags()[0]) == TAG_BEZIER2 && tag_class(
                self.contour_tags()[self.length - 1],
            ) == TAG_ONCURVE ==> r == Ok::<Point, DecodeError>(
                self.contour_pts()[self.length - 1],
            ),
            tag_class(self.contour_tags()[0]) == TAG_BEZIER2 && tag_class(
                self.contour_tags()[self.length - 1],
            ) == TAG_BEZIER2 ==> r == Ok::<Point, DecodeError>(
                middle_point_spec(self.contour_pts()[self.length - 1], self.contour_pts()[0]),
            ),
    {
        let first_class: u8 = self.outline.tags[self.start] & TAG_MASK;
        if first_class == TAG_BEZIER2 {
            let last_i: usize = self.start + self.length - 1;
            let last_class: u8 = self.outline.tags[last_i] & TAG_MASK;
            if last_class == TAG_ONCURVE {
                Ok(self.outline.points[last_i])
            } else if last_class == TAG_BEZIER2 {
                Ok(middle_point(self.outline.points[last_i], self.outline.points[self.start]))
            } else {
                Err(DecodeError::UnexpectedTag)
            }
        } else {
            Ok(self.outline.points[self.start])
        }
    }

    /// The point at offset `i` from the cursor, wrapping past the end of
    /// the contour to its first point.
    fn pt(&self, i: i32) -> (r: Point)
        requires
            self.wf(),
            1 <= i <= 3,
            self.idx < self.length,
        ensures
            r == pt_at(self.contour_pts(), self.cursor() + i),
    {
        let local: i32 = self.idx + i;
        if local < self.length as i32 {
            self.outline.points[self.start + local as usize]
        } else {
            self.outline.points[self.start]
        }
    }

    /// The tag classification at offset `i` from the cursor, wrapping
    /// past the end of the contour to its first tag.
    fn tg(&self, i: i32) -> (r: u8)
        requires
            self.wf(),
            1 <= i <= 3,
            self.idx < self.length,
        ensures
            r == class_at(self.contour_tags(), self.cursor() + i),
    {
        let local: i32 = self.idx + i;
        if local < self.length as i32 {
            self.outline.tags[self.start + local as usize] & TAG_MASK
        } else {
            self.outline.tags[self.start] & TAG_MASK
        }
    }

    /// Decodes the next segment of the contour.
    ///
    /// Returns `Ok(Some(curve))` for each segment in order, `Ok(None)`
    /// once the contour is exhausted, and `Err` if the tags ahead of the
    /// cursor form no legal pattern, after which iteration stops.
    pub fn next(&mut self) -> (r: Result<Option<Curve>, DecodeError>)
        requires
            old(self).wf(),
        ensures
            final(self).wf(),
            final(self).outline == old(self).outline,
            final(self).start == old(self).start,
            final(self).length == old(self).length,
            step_done(old(self).contour_tags(), old(self).cursor()) ==> r == Ok::<
                Option<Curve>,
                DecodeError,
            >(None) && final(self).cursor() == old(self).cursor(),
            step_ok(old(self).contour_tags(), old(self).cursor()) ==> r == Ok::<
                Option<Curve>,
                DecodeError,
            >(
                Some(
                    step_curve(old(self).contour_pts(), old(self).contour_tags(), old(
                        self,
                    ).cursor()),
                ),
            ) && final(self).cursor() == old(self).cursor() + step_advance(
                old(self).contour_tags(),
                old(self).cursor(),
            ),
            !step_done(old(self).contour_tags(), old(self).cursor()) && !step_ok(
                old(self).contour_tags(),
                old(self).cursor(),
            ) ==> r == Err::<Option<Curve>, DecodeError>(DecodeError::UnexpectedTag)
                && final(self).cursor() == old(self).length as int,
    {
        if self.idx >= self.length as i32 {
            return Ok(None);
        }
        let t1: u8 = self.tg(1);
        if t1 == TAG_ONCURVE {
            let c = Curve::Line(self.pt(1));
            self.idx = self.idx + 1;
            return Ok(Some(c));
        }
        if t1 == TAG_BEZIER2 {
            // At the last point, the wrapped-around first point being an
            // off-curve control means the closing segment was already
            // accounted for by start-point resolution.
            if self.idx == self.length as i32 - 1 {
                return Ok(None);
            }
            let t2: u8 = self.tg(2);
            if t2 == TAG_ONCURVE {
                let c = Curve::Bezier2(self.pt(1), self.pt(2));
                self.idx = self.idx + 2;
                return Ok(Some(c));
            }
            if t2 == TAG_BEZIER2 {
                // Two consecutive off-curve controls: the implied
                // on-curve point at their midpoint ends this segment, and
                // the second control is re-examined by the next step.
                let ctrl = self.pt(1);
                let c = Curve::Bezier2(ctrl, middle_point(ctrl, self.pt(2)));
                self.idx = self.idx + 1;
                return Ok(Some(c));
            }
            self.idx = self.length as i32;
            return Err(DecodeError::UnexpectedTag);
        }
        if t1 == TAG_BEZIER3 {
            let t2: u8 = self.tg(2);
            let t3: u8 = self.tg(3);
            if t2 == TAG_BEZIER3 && t3 == TAG_ONCURVE {
                let c = Curve::Bezier3(self.pt(1), self.pt(2), self.pt(3));
                self.idx = self.idx + 3;
                return Ok(Some(c));
            }
            self.idx = self.length as i32;
            return Err(DecodeError::UnexpectedTag);
        }
        self.idx = self.length as i32;
        Err(DecodeError::UnexpectedTag)
    }

    /// Drains the iterator, collecting every remaining segment.
    ///
    /// Returns exactly the segments the model decodes from the current
    /// cursor: `Ok` with all of them when the tags are well formed from
    /// here on, and `Err` when decoding runs into an illegal pattern.
    #[verifier::loop_isolation(false)]
    pub fn collect_curves(&mut self) -> (r: Result<Vec<Curve>, DecodeError>)
        requires
            old(self).wf(),
        ensures
            final(self).wf(),
            final(self).outline == old(self).outline,
            final(self).start == old(self).start,
            final(self).length == old(self).length,
            (decode_from(old(self).contour_pts(), old(self).contour_tags(), old(self).cursor())
                matches Some(s) ==> (r matches Ok(v) && v@ == s)),
            decode_from(old(self).contour_pts(), old(self).contour_tags(), old(self).cursor())
                is None ==> r == Err::<Vec<Curve>, DecodeError>(DecodeError::UnexpectedTag),
    {
        let ghost it0 = *old(self);
        let mut acc: Vec<Curve> = Vec::new();
        loop
            invariant
                self.wf(),
                self.outline == it0.outline,
                self.start == it0.start,
                self.length == it0.length,
                decode_from(it0.contour_pts(), it0.contour_tags(), self.cursor()) matches Some(
                    rest,
                ) ==> (decode_from(it0.contour_pts(), it0.contour_tags(), it0.cursor()) matches
                    Some(s) && s == acc@ + rest),
                decode_from(it0.contour_pts(), it0.contour_tags(), self.cursor()) is None
                    ==> decode_from(it0.contour_pts(), it0.contour_tags(), it0.cursor()) is None,
            decreases self.length + 4 - self.idx,
        {
            let ghost pts = it0.contour_pts();
            let ghost tags = it0.contour_tags();
            let ghost cur = self.cursor();
            let ghost acc0 = acc@;
            match self.next() {
                Ok(Some(c)) => {
                    acc.push(c);
                    proof {
                        let adv = step_advance(tags, cur);
                        if decode_from(pts, tags, cur + adv) is Some {
                            let rest2 = decode_from(pts, tags, cur + adv)->Some_0;
                            assert(decode_from(pts, tags, cur) == Some(seq![c] + rest2));
                            assert(acc0 + (seq![c] + rest2) == (acc0 + seq![c]) + rest2);
                        }
                    }
                },
                Ok(None) => {
                    proof {
                        assert(acc0 + Seq::<Curve>::empty() == acc0);
                    }
                    return Ok(acc);
                },
                Err(e) => {
                    return Err(e);
                },
            }
        }
    }
}

} // verus!
