//! Decoder for compact font glyph outlines.
//!
//! A glyph outline arrives as three parallel buffers: 2D points in
//! fixed-point font units, one classification tag per point, and a list of
//! inclusive end offsets that cut the point buffer into closed contours.
//! Curves are stored implicitly: on-curve points are explicit, consecutive
//! off-curve quadratic controls imply an on-curve point at their midpoint,
//! and every contour closes back onto its first point.  This crate unpacks
//! that encoding into explicit line, quadratic and cubic segments, and
//! proves the decoding correct against a mathematical model.

pub mod contours;
pub mod curves;
pub mod geom;
pub mod laws;
pub mod model;
pub mod outline;

pub use contours::ContourIterator;
pub use curves::CurveIterator;
pub use curves::DecodeError;
pub use geom::Curve;
pub use geom::Point;
pub use outline::Outline;
pub use outline::OutlineError;
