//! The contour iterator: cutting an outline into per-contour ranges.

use vstd::prelude::*;

use crate::curves::CurveIterator;
use crate::model::initial_cursor;
use crate::outline::Outline;

verus! {

/// The first point index of contour `k`: zero for the first contour, one
/// past the previous contour's inclusive end for every later one.
pub open spec fn contour_start_spec(ends: Seq<usize>, k: int) -> int {
    if k == 0 {
        0
    } else {
        ends[k - 1] + 1
    }
}

/// Yields one [`CurveIterator`] per contour, in ascending contour order.
pub struct ContourIterator<'a> {
    pub outline: &'a Outline,
    pub contour_start: usize,
    pub next_contour: usize,
}

impl<'a> ContourIterator<'a> {
    /// The cursor points at a contour boundary of a well-formed outline.
    pub open spec fn wf(&self) -> bool {
        &&& self.outline.wf()
        &&& self.next_contour <= self.outline.contour_ends@.len()
        &&& self.contour_start as int == contour_start_spec(
            self.outline.contour_ends@,
            self.next_contour as int,
        )
    }

    /// Builds the iterator, positioned before the first contour.
    pub fn from_raw(outline: &'a Outline) -> (r: ContourIterator<'a>)
        requires
            outline.wf(),
        ensures
            r.wf(),
            r.outline == outline,
            r.next_contour == 0,
    {
        ContourIterator { outline, contour_start: 0, next_contour: 0 }
    }

    /// Yields the curve iterator of the next contour, or `None` once
    /// every contour has been yielded.
    pub fn next(&mut self) -> (r: Option<CurveIterator<'a>>)
        requires
            old(self).wf(),
        ensures
            final(self).wf(),
            final(self).outline == old(self).outline,
            old(self).next_contour == old(self).outline.contour_ends@.len() ==> r is None
                && *final(self) == *old(self),
            old(self).next_contour < old(self).outline.contour_ends@.len() ==> ({
                let ends = old(self).outline.contour_ends@;
                let k = old(self).next_contour as int;
                &&& final(self).next_contour == k + 1
                &&& r matches Some(ci)
                &&& ci.wf()
                &&& ci.outline == old(self).outline
                &&& ci.start as int == contour_start_spec(ends, k)
                &&& ci.length as int == ends[k] + 1 - contour_start_spec(ends, k)
                &&& ci.cursor() == initial_cursor(ci.contour_tags())
            }),
    {
        if self.next_contour >= self.outline.contour_ends.len() {
            return None;
        }
        let contour_end: usize = self.outline.contour_ends[self.next_contour];
        let curves = CurveIterator::from_raw(self.outline, self.contour_start, contour_end);
        self.contour_start = contour_end + 1;
        self.next_contour = self.next_contour + 1;
        Some(curves)
    }
}

} // verus!
