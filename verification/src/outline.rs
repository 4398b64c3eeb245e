//! The outline view: the three parallel buffers and their invariant.

use vstd::prelude::*;

use crate::contours::ContourIterator;
use crate::geom::Point;

verus! {

/// Buffer counts in this outline format are 16-bit, so a view never holds
/// more points or contours than a signed 16-bit count can state.
pub const MAX_COUNT: usize = 0x7FFF;

/// Why a set of buffers was refused by [`Outline::from_raw`].
#[derive(Clone, Copy, PartialEq, Eq, Structural, Debug)]
pub enum OutlineError {
    /// The points and tags buffers differ in length.
    LengthMismatch,
    /// A buffer exceeds the 16-bit count the format allows.
    TooLarge,
    /// The contour end offsets are not strictly increasing, run past the
    /// point buffer, or fail to end at the last point.
    BadContourEnds,
}

/// The contour-end invariant: end offsets are strictly increasing
/// in-bounds indices, and when there are any points at all, the contours
/// cover them exactly, the last end being the last point.
pub open spec fn ends_wf(ends: Seq<usize>, n_points: int) -> bool {
    &&& forall|i: int| 0 <= i < ends.len() ==> ends[i] < n_points
    &&& forall|i: int| 0 < i < ends.len() ==> ends[i - 1] < #[trigger] ends[i]
    &&& (n_points > 0 ==> ends.len() > 0 && ends[ends.len() - 1] == n_points - 1)
    &&& (n_points == 0 ==> ends.len() == 0)
}

/// The whole outline invariant that construction establishes.
pub open spec fn outline_wf(pts: Seq<Point>, tags: Seq<u8>, ends: Seq<usize>) -> bool {
    &&& pts.len() == tags.len()
    &&& pts.len() <= MAX_COUNT
    &&& ends.len() <= MAX_COUNT
    &&& ends_wf(ends, pts.len() as int)
}

/// A read-only view over one glyph outline: points, one tag per point,
/// and the inclusive end offset of each contour.
#[derive(Debug)]
pub struct Outline {
    pub points: Vec<Point>,
    pub tags: Vec<u8>,
    pub contour_ends: Vec<usize>,
}

impl Outline {
    /// The construction invariant, preserved by every accessor.
    pub open spec fn wf(&self) -> bool {
        outline_wf(self.points@, self.tags@, self.contour_ends@)
    }

    /// Builds a view over the three parallel buffers, validating their
    /// consistency once so that decoding can rely on it.
    pub fn from_raw(points: Vec<Point>, tags: Vec<u8>, contour_ends: Vec<usize>) -> (r: Result<
        Outline,
        OutlineError,
    >)
        ensures
            points@.len() != tags@.len() ==> r == Err::<Outline, OutlineError>(
                OutlineError::LengthMismatch,
            ),
            points@.len() == tags@.len() && (points@.len() > MAX_COUNT || contour_ends@.len()
                > MAX_COUNT) ==> r == Err::<Outline, OutlineError>(OutlineError::TooLarge),
            points@.len() == tags@.len() && points@.len() <= MAX_COUNT && contour_ends@.len()
                <= MAX_COUNT && !ends_wf(contour_ends@, points@.len() as int) ==> r == Err::<
                Outline,
                OutlineError,
            >(OutlineError::BadContourEnds),
            outline_wf(points@, tags@, contour_ends@) ==> (r matches Ok(o) && o.points@ == points@
                && o.tags@ == tags@ && o.contour_ends@ == contour_ends@),
            r matches Ok(o) ==> o.wf(),
    {
        if points.len() != tags.len() {
            return Err(OutlineError::LengthMismatch);
        }
        if points.len() > MAX_COUNT || contour_ends.len() > MAX_COUNT {
            return Err(OutlineError::TooLarge);
        }
        let n: usize = points.len();
        let n_ends: usize = contour_ends.len();
        if n > 0 && n_ends == 0 {
            return Err(OutlineError::BadContourEnds);
        }
        if n == 0 && n_ends > 0 {
            return Err(OutlineError::BadContourEnds);
        }
        if n_ends > 0 && contour_ends[n_ends - 1] != n - 1 {
            return Err(OutlineError::BadContourEnds);
        }
        let mut i: usize = 0;
        while i < n_ends
            invariant
                n_ends == contour_ends@.len(),
                n == points@.len(),
                points@.len() == tags@.len(),
                n <= MAX_COUNT,
                n_ends <= MAX_COUNT,
                n > 0 ==> n_ends > 0 && contour_ends@[n_ends - 1] == n - 1,
                n == 0 ==> n_ends == 0,
                i <= n_ends,
                forall|k: int| 0 <= k < i ==> contour_ends@[k] < n,
                forall|k: int| 0 < k < i ==> contour_ends@[k - 1] < #[trigger] contour_ends@[k],
            decreases n_ends - i,
        {
            if contour_ends[i] >= n {
                return Err(OutlineError::BadContourEnds);
            }
            if i > 0 && contour_ends[i - 1] >= contour_ends[i] {
                return Err(OutlineError::BadContourEnds);
            }
            i = i + 1;
        }
        Ok(Outline { points, tags, contour_ends })
    }

    /// The point buffer.
    pub fn points(&self) -> (r: &Vec<Point>)
        ensures
            r@ == self.points@,
    {
        &self.points
    }

    /// The tag buffer, parallel to the points.
    pub fn tags(&self) -> (r: &Vec<u8>)
        ensures
            r@ == self.tags@,
    {
        &self.tags
    }

    /// The inclusive end offset of each contour, in ascending order.
    pub fn contours(&self) -> (r: &Vec<usize>)
        ensures
            r@ == self.contour_ends@,
    {
        &self.contour_ends
    }

    /// An iterator over the outline's contours, each yielded as a curve
    /// iterator over its point range.
    pub fn contours_iter<'a>(&'a self) -> (r: ContourIterator<'a>)
        requires
            self.wf(),
        ensures
            r.wf(),
            r.outline == self,
            r.next_contour == 0,
    {
        ContourIterator::from_raw(self)
    }
}

} // verus!
