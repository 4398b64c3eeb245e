use glyph_outline::Curve;
use glyph_outline::CurveIterator;
use glyph_outline::DecodeError;
use glyph_outline::Outline;
use glyph_outline::Point;

fn p(x: i32, y: i32) -> Point {
    Point { x, y }
}

fn mk(points: &[(i32, i32)], tags: &[u8], ends: &[usize]) -> Outline {
    let pts: Vec<Point> = points.iter().map(|&(x, y)| p(x, y)).collect();
    Outline::from_raw(pts, tags.to_vec(), ends.to_vec()).unwrap()
}

fn first_contour_of(outline: &Outline) -> CurveIterator<'_> {
    let mut contours = outline.contours_iter();
    contours.next().unwrap()
}

#[test]
fn all_on_curve_square_is_lines() {
    let o = mk(&[(0, 0), (10, 0), (10, 10), (0, 10)], &[1, 1, 1, 1], &[3]);
    let mut curves = first_contour_of(&o);
    assert_eq!(curves.start(), Ok(p(0, 0)));
    let segs = curves.collect_curves().unwrap();
    assert_eq!(
        segs,
        vec![
            Curve::Line(p(10, 0)),
            Curve::Line(p(10, 10)),
            Curve::Line(p(0, 10)),
            Curve::Line(p(0, 0)),
        ]
    );
}

#[test]
fn quad_controls_at_odd_positions() {
    let o = mk(&[(0, 0), (10, 0), (10, 10), (0, 10)], &[1, 0, 1, 0], &[3]);
    let mut curves = first_contour_of(&o);
    assert_eq!(curves.start(), Ok(p(0, 0)));
    let segs = curves.collect_curves().unwrap();
    assert_eq!(
        segs,
        vec![
            Curve::Bezier2(p(10, 0), p(10, 10)),
            Curve::Bezier2(p(0, 10), p(0, 0)),
        ]
    );
}

#[test]
fn two_off_curve_points_only() {
    let o = mk(&[(0, 0), (5, 5)], &[0, 0], &[1]);
    let mut curves = first_contour_of(&o);
    // The midpoint of (0,0) and (5,5) in integer font units, each
    // coordinate rounded toward zero.
    assert_eq!(curves.start(), Ok(p(2, 2)));
    let segs = curves.collect_curves().unwrap();
    // The first point serves as a control toward the midpoint; the
    // wraparound then closes the contour back to the start through the
    // second off-curve point.
    assert_eq!(
        segs,
        vec![
            Curve::Bezier2(p(0, 0), p(2, 2)),
            Curve::Bezier2(p(5, 5), p(2, 2)),
        ]
    );
}

#[test]
fn single_quad_between_on_points() {
    let o = mk(&[(0, 0), (4, 4), (8, 0)], &[1, 0, 1], &[2]);
    let mut curves = first_contour_of(&o);
    assert_eq!(curves.start(), Ok(p(0, 0)));
    let segs = curves.collect_curves().unwrap();
    assert_eq!(
        segs,
        vec![Curve::Bezier2(p(4, 4), p(8, 0)), Curve::Line(p(0, 0))]
    );
}

#[test]
fn double_quad_advances_by_one() {
    let o = mk(&[(0, 0), (10, 0), (10, 10), (0, 10)], &[1, 0, 0, 1], &[3]);
    let mut curves = first_contour_of(&o);
    assert_eq!(curves.start(), Ok(p(0, 0)));
    let segs = curves.collect_curves().unwrap();
    // The second control (10,10) first serves as the end of the implied
    // midpoint segment, then again as the control of the next segment:
    // the cursor moved by 1, not 2, across the off-curve pair.
    assert_eq!(
        segs,
        vec![
            Curve::Bezier2(p(10, 0), p(10, 5)),
            Curve::Bezier2(p(10, 10), p(0, 10)),
            Curve::Line(p(0, 0)),
        ]
    );
}

#[test]
fn cubic_sequence_consumes_three_points() {
    let o = mk(&[(0, 0), (1, 1), (2, 1), (3, 0)], &[1, 2, 2, 1], &[3]);
    let mut curves = first_contour_of(&o);
    assert_eq!(curves.start(), Ok(p(0, 0)));
    let segs = curves.collect_curves().unwrap();
    assert_eq!(
        segs,
        vec![
            Curve::Bezier3(p(1, 1), p(2, 1), p(3, 0)),
            Curve::Line(p(0, 0)),
        ]
    );
}

#[test]
fn start_off_curve_uses_last_on_point() {
    let o = mk(&[(9, 9), (5, 5)], &[0, 1], &[1]);
    let mut curves = first_contour_of(&o);
    assert_eq!(curves.start(), Ok(p(5, 5)));
    let segs = curves.collect_curves().unwrap();
    assert_eq!(segs, vec![Curve::Bezier2(p(9, 9), p(5, 5))]);
}

#[test]
fn start_and_last_off_curve_use_midpoint() {
    let o = mk(&[(2, 2), (6, 8)], &[0, 0], &[1]);
    let mut curves = first_contour_of(&o);
    assert_eq!(curves.start(), Ok(p(4, 5)));
    let segs = curves.collect_curves().unwrap();
    assert_eq!(
        segs,
        vec![
            Curve::Bezier2(p(2, 2), p(4, 5)),
            Curve::Bezier2(p(6, 8), p(4, 5)),
        ]
    );
}

#[test]
fn midpoint_rounds_toward_zero() {
    let o = mk(&[(-5, -5), (0, 0)], &[0, 0], &[1]);
    let mut curves = first_contour_of(&o);
    assert_eq!(curves.start(), Ok(p(-2, -2)));
    let segs = curves.collect_curves().unwrap();
    assert_eq!(
        segs,
        vec![
            Curve::Bezier2(p(-5, -5), p(-2, -2)),
            Curve::Bezier2(p(0, 0), p(-2, -2)),
        ]
    );
}

#[test]
fn single_on_curve_point() {
    let o = mk(&[(7, 7)], &[1], &[0]);
    let mut curves = first_contour_of(&o);
    assert_eq!(curves.start(), Ok(p(7, 7)));
    let segs = curves.collect_curves().unwrap();
    assert_eq!(segs, vec![Curve::Line(p(7, 7))]);
}

#[test]
fn single_off_curve_point() {
    let o = mk(&[(4, 4)], &[0], &[0]);
    let mut curves = first_contour_of(&o);
    assert_eq!(curves.start(), Ok(p(4, 4)));
    let segs = curves.collect_curves().unwrap();
    assert_eq!(segs, vec![Curve::Bezier2(p(4, 4), p(4, 4))]);
}

#[test]
fn only_low_two_tag_bits_matter() {
    let o = mk(&[(0, 0), (4, 4), (8, 0)], &[0x11, 0x10, 0x41], &[2]);
    let mut curves = first_contour_of(&o);
    assert_eq!(curves.start(), Ok(p(0, 0)));
    let segs = curves.collect_curves().unwrap();
    assert_eq!(
        segs,
        vec![Curve::Bezier2(p(4, 4), p(8, 0)), Curve::Line(p(0, 0))]
    );
}

#[test]
fn lone_cubic_control_is_rejected() {
    let o = mk(&[(0, 0), (1, 1), (2, 2)], &[1, 2, 1], &[2]);
    let mut curves = first_contour_of(&o);
    assert_eq!(curves.next(), Err(DecodeError::UnexpectedTag));
    // The error is terminal: iteration stops rather than resuming.
    assert_eq!(curves.next(), Ok(None));
}

#[test]
fn cubic_pair_without_on_curve_end_is_rejected() {
    let o = mk(&[(0, 0), (1, 1), (2, 2), (3, 3)], &[1, 2, 2, 0], &[3]);
    let mut curves = first_contour_of(&o);
    assert_eq!(curves.collect_curves(), Err(DecodeError::UnexpectedTag));
}

#[test]
fn quad_followed_by_cubic_is_rejected() {
    let o = mk(&[(0, 0), (1, 1), (2, 2)], &[1, 0, 2], &[2]);
    let mut curves = first_contour_of(&o);
    assert_eq!(curves.collect_curves(), Err(DecodeError::UnexpectedTag));
}

#[test]
fn unknown_tag_class_is_rejected() {
    let o = mk(&[(0, 0), (1, 1)], &[1, 3], &[1]);
    let mut curves = first_contour_of(&o);
    assert_eq!(curves.collect_curves(), Err(DecodeError::UnexpectedTag));
}

#[test]
fn start_on_cubic_control_defers_rejection_to_decoding() {
    // A first point that is a cubic control is not caught by start-point
    // resolution (only an off-curve quadratic start looks backwards); the
    // illegal pattern is rejected once decoding reaches it.
    let o = mk(&[(9, 9), (5, 5)], &[2, 1], &[1]);
    let mut curves = first_contour_of(&o);
    assert_eq!(curves.start(), Ok(p(9, 9)));
    assert_eq!(curves.collect_curves(), Err(DecodeError::UnexpectedTag));
}

#[test]
fn start_with_cubic_at_boundary_is_rejected() {
    let o = mk(&[(1, 1), (2, 2)], &[0, 2], &[1]);
    let curves = first_contour_of(&o);
    assert_eq!(curves.start(), Err(DecodeError::UnexpectedTag));
}

#[test]
fn emitted_segments_close_back_to_start() {
    let cases: Vec<(Vec<(i32, i32)>, Vec<u8>)> = vec![
        (vec![(0, 0), (10, 0), (10, 10), (0, 10)], vec![1, 1, 1, 1]),
        (vec![(0, 0), (10, 0), (10, 10), (0, 10)], vec![1, 0, 1, 0]),
        (vec![(0, 0), (10, 0), (10, 10), (0, 10)], vec![1, 0, 0, 1]),
        (vec![(0, 0), (5, 5)], vec![0, 0]),
        (vec![(9, 9), (5, 5)], vec![0, 1]),
        (vec![(0, 0), (1, 1), (2, 1), (3, 0)], vec![1, 2, 2, 1]),
    ];
    for (points, tags) in cases {
        let last: usize = points.len() - 1;
        let o = mk(&points, &tags, &[last]);
        let mut curves = first_contour_of(&o);
        let start = curves.start().unwrap();
        let segs = curves.collect_curves().unwrap();
        let end = match *segs.last().unwrap() {
            Curve::Line(e) => e,
            Curve::Bezier2(_, e) => e,
            Curve::Bezier3(_, _, e) => e,
        };
        assert_eq!(end, start);
    }
}
