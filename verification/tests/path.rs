use path2d::path::{Path2D, PathError};
use path2d::segment::Segment;

fn narrow(wide: u64) -> u32 {
    (f64::from_bits(wide) as f32).to_bits()
}

fn sum(a: u64, b: u64) -> u64 {
    (f64::from_bits(a) + f64::from_bits(b)).to_bits()
}

fn d(x: f64) -> u64 {
    x.to_bits()
}

fn s(x: f32) -> u32 {
    x.to_bits()
}

fn not_finite() -> Vec<f64> {
    vec![f64::NAN, -f64::NAN, f64::INFINITY, f64::NEG_INFINITY]
}

#[test]
fn new_path_is_empty() {
    let path = Path2D::new();
    assert!(path.is_path_empty());
    assert_eq!(path.len(), 0);
    assert_eq!(path.segments(), vec![]);
}

#[test]
fn push_appends_whatever_it_is_given() {
    let mut path = Path2D::new();
    let odd = Segment::MoveTo { x: s(f32::NAN), y: s(f32::INFINITY) };
    path.push(Segment::ClosePath);
    path.push(odd);
    assert!(!path.is_path_empty());
    assert_eq!(path.len(), 2);
    assert_eq!(path.segments(), vec![Segment::ClosePath, odd]);
}

#[test]
fn copy_of_a_path_shares_nothing() {
    let mut first = Path2D::new();
    first.move_to(d(1.0), d(2.0), &narrow);
    let mut second = Path2D::new_with_path(&first);
    assert_eq!(second.segments(), first.segments());
    second.close_path();
    first.line_to(d(3.0), d(4.0), &narrow);
    assert_eq!(
        first.segments(),
        vec![Segment::MoveTo { x: s(1.0), y: s(2.0) }, Segment::LineTo { x: s(3.0), y: s(4.0) }]
    );
    assert_eq!(
        second.segments(),
        vec![Segment::MoveTo { x: s(1.0), y: s(2.0) }, Segment::ClosePath]
    );
}

#[test]
fn segments_is_a_copy() {
    let mut path = Path2D::new();
    path.close_path();
    let mut copy = path.segments();
    copy.push(Segment::ClosePath);
    assert_eq!(path.len(), 1);
}

#[test]
fn parsed_path_stops_at_the_first_error() {
    let a = Segment::MoveTo { x: s(1.0), y: s(2.0) };
    let b = Segment::LineTo { x: s(3.0), y: s(4.0) };
    let c = Segment::ClosePath;
    let all: Vec<Result<Segment, ()>> = vec![Ok(a), Ok(b), Ok(c)];
    assert_eq!(Path2D::new_with_parsed(&all).segments(), vec![a, b, c]);
    let cut: Vec<Result<Segment, ()>> = vec![Ok(a), Ok(b), Err(()), Ok(c)];
    assert_eq!(Path2D::new_with_parsed(&cut).segments(), vec![a, b]);
    let at_once: Vec<Result<Segment, &str>> = vec![Err("no command"), Ok(a)];
    assert!(Path2D::new_with_parsed(&at_once).is_path_empty());
    let nothing: Vec<Result<Segment, ()>> = vec![];
    assert!(Path2D::new_with_parsed(&nothing).is_path_empty());
    let twice: Vec<Result<Segment, ()>> = vec![Ok(a), Err(()), Err(()), Ok(b)];
    assert_eq!(Path2D::new_with_parsed(&twice).segments(), vec![a]);
}

#[test]
fn close_path_is_always_appended() {
    let mut path = Path2D::new();
    path.close_path();
    path.close_path();
    assert_eq!(path.segments(), vec![Segment::ClosePath, Segment::ClosePath]);
}

#[test]
fn move_to_and_line_to_append_one_segment() {
    let mut path = Path2D::new();
    path.move_to(d(1.5), d(-2.25), &narrow);
    path.line_to(d(0.1), d(1e300), &narrow);
    assert_eq!(
        path.segments(),
        vec![
            Segment::MoveTo { x: s(1.5), y: s(-2.25) },
            Segment::LineTo { x: s(0.1f64 as f32), y: s(f32::INFINITY) },
        ]
    );
}

#[test]
fn move_to_and_line_to_skip_what_is_not_finite() {
    for bad in not_finite() {
        let mut path = Path2D::new();
        path.close_path();
        path.move_to(d(bad), d(1.0), &narrow);
        path.move_to(d(1.0), d(bad), &narrow);
        path.move_to(d(bad), d(bad), &narrow);
        path.line_to(d(bad), d(1.0), &narrow);
        path.line_to(d(1.0), d(bad), &narrow);
        path.line_to(d(bad), d(bad), &narrow);
        assert_eq!(path.segments(), vec![Segment::ClosePath]);
    }
}

#[test]
fn curves_append_one_segment() {
    let mut path = Path2D::new();
    path.quadratic_curve_to(d(1.), d(2.), d(3.), d(4.), &narrow);
    path.bezier_curve_to(d(1.), d(2.), d(3.), d(4.), d(5.), d(6.), &narrow);
    assert_eq!(
        path.segments(),
        vec![
            Segment::Quadratic { cpx: s(1.), cpy: s(2.), x: s(3.), y: s(4.) },
            Segment::Bezier {
                cp1x: s(1.),
                cp1y: s(2.),
                cp2x: s(3.),
                cp2y: s(4.),
                x: s(5.),
                y: s(6.),
            },
        ]
    );
}

#[test]
fn curves_skip_what_is_not_finite() {
    for bad in not_finite() {
        for at in 0..6 {
            let mut a = [1.0f64, 2., 3., 4., 5., 6.];
            a[at] = bad;
            let mut path = Path2D::new();
            path.bezier_curve_to(d(a[0]), d(a[1]), d(a[2]), d(a[3]), d(a[4]), d(a[5]), &narrow);
            assert!(path.is_path_empty());
            if at < 4 {
                path.quadratic_curve_to(d(a[0]), d(a[1]), d(a[2]), d(a[3]), &narrow);
                assert!(path.is_path_empty());
            }
        }
    }
}

#[test]
fn arc_to_appends_a_corner() {
    let mut path = Path2D::new();
    assert_eq!(path.arc_to(d(33.), d(44.), d(88.), d(100.), d(30.), &narrow), Ok(()));
    assert_eq!(path.arc_to(d(1.), d(2.), d(3.), d(4.), d(0.), &narrow), Ok(()));
    assert_eq!(path.arc_to(d(1.), d(2.), d(3.), d(4.), d(-0.), &narrow), Ok(()));
    assert_eq!(
        path.segments(),
        vec![
            Segment::ArcTo { cp1x: s(33.), cp1y: s(44.), cp2x: s(88.), cp2y: s(100.), radius: s(30.) },
            Segment::ArcTo { cp1x: s(1.), cp1y: s(2.), cp2x: s(3.), cp2y: s(4.), radius: s(0.) },
            Segment::ArcTo { cp1x: s(1.), cp1y: s(2.), cp2x: s(3.), cp2y: s(4.), radius: s(-0.) },
        ]
    );
}

#[test]
fn arc_to_refuses_a_radius_below_zero() {
    let mut path = Path2D::new();
    path.close_path();
    assert_eq!(
        path.arc_to(d(1.), d(2.), d(3.), d(4.), d(-1.), &narrow),
        Err(PathError::RangeError)
    );
    assert_eq!(
        path.arc_to(d(1.), d(2.), d(3.), d(4.), d(-5e-324), &narrow),
        Err(PathError::RangeError)
    );
    assert_eq!(path.segments(), vec![Segment::ClosePath]);
}

#[test]
fn arc_to_skips_what_is_not_finite_before_it_looks_at_the_radius() {
    for bad in not_finite() {
        for at in 0..5 {
            let mut a = [1.0f64, 2., 3., 4., -5.];
            a[at] = bad;
            let mut path = Path2D::new();
            assert_eq!(path.arc_to(d(a[0]), d(a[1]), d(a[2]), d(a[3]), d(a[4]), &narrow), Ok(()));
            assert!(path.is_path_empty());
        }
    }
}

#[test]
fn rect_appends_six_segments_in_order() {
    let mut path = Path2D::new();
    path.close_path();
    path.rect(d(10.), d(20.), d(30.), d(40.), &narrow, &sum);
    assert_eq!(
        path.segments(),
        vec![
            Segment::ClosePath,
            Segment::MoveTo { x: s(10.), y: s(20.) },
            Segment::LineTo { x: s(40.), y: s(20.) },
            Segment::LineTo { x: s(40.), y: s(60.) },
            Segment::LineTo { x: s(10.), y: s(60.) },
            Segment::ClosePath,
            Segment::MoveTo { x: s(10.), y: s(20.) },
        ]
    );
}

#[test]
fn rect_adds_in_double_precision() {
    // In single precision 16777216 + 1 is 16777216, and adding 1 again
    // changes nothing; the sum is made in double precision and rounded once.
    let mut path = Path2D::new();
    path.rect(d(16777217.), d(0.1), d(2.), d(0.2), &narrow, &sum);
    let segments = path.segments();
    assert_eq!(segments.len(), 6);
    assert_eq!(segments[0], Segment::MoveTo { x: s(16777216.), y: s(0.1) });
    assert_eq!(
        segments[2],
        Segment::LineTo { x: s(16777220.), y: s((0.1f64 + 0.2f64) as f32) }
    );
    assert_eq!(segments[5], segments[0]);
}

#[test]
fn rect_with_negative_or_zero_size_is_appended() {
    let mut path = Path2D::new();
    path.rect(d(1.), d(2.), d(-3.), d(0.), &narrow, &sum);
    assert_eq!(
        path.segments(),
        vec![
            Segment::MoveTo { x: s(1.), y: s(2.) },
            Segment::LineTo { x: s(-2.), y: s(2.) },
            Segment::LineTo { x: s(-2.), y: s(2.) },
            Segment::LineTo { x: s(1.), y: s(2.) },
            Segment::ClosePath,
            Segment::MoveTo { x: s(1.), y: s(2.) },
        ]
    );
}

#[test]
fn rect_skips_what_is_not_finite() {
    for bad in not_finite() {
        for at in 0..4 {
            let mut a = [1.0f64, 2., 3., 4.];
            a[at] = bad;
            let mut path = Path2D::new();
            path.rect(d(a[0]), d(a[1]), d(a[2]), d(a[3]), &narrow, &sum);
            assert!(path.is_path_empty());
        }
    }
}

#[test]
fn arc_appends_a_circle() {
    let mut path = Path2D::new();
    assert_eq!(path.arc(d(1.), d(2.), d(3.), d(0.5), d(1.5), true, &narrow), Ok(()));
    assert_eq!(
        path.segments(),
        vec![Segment::Ellipse {
            x: s(1.),
            y: s(2.),
            radius_x: s(3.),
            radius_y: s(3.),
            rotation: s(0.),
            start_angle: s(0.5),
            end_angle: s(1.5),
            anticlockwise: true,
        }]
    );
}

#[test]
fn arc_refuses_a_radius_below_zero() {
    let mut path = Path2D::new();
    assert_eq!(
        path.arc(d(1.), d(2.), d(-3.), d(0.5), d(1.5), false, &narrow),
        Err(PathError::RangeError)
    );
    assert!(path.is_path_empty());
}

#[test]
fn arc_skips_what_is_not_finite_before_it_looks_at_the_radius() {
    for bad in not_finite() {
        for at in 0..5 {
            let mut a = [1.0f64, 2., -3., 4., 5.];
            a[at] = bad;
            let mut path = Path2D::new();
            assert_eq!(path.arc(d(a[0]), d(a[1]), d(a[2]), d(a[3]), d(a[4]), false, &narrow), Ok(()));
            assert!(path.is_path_empty());
        }
    }
}

#[test]
fn ellipse_appends_an_ellipse() {
    let mut path = Path2D::new();
    assert_eq!(
        path.ellipse(d(1.), d(2.), d(3.), d(4.), d(0.25), d(0.5), d(1.5), false, &narrow),
        Ok(())
    );
    assert_eq!(
        path.segments(),
        vec![Segment::Ellipse {
            x: s(1.),
            y: s(2.),
            radius_x: s(3.),
            radius_y: s(4.),
            rotation: s(0.25),
            start_angle: s(0.5),
            end_angle: s(1.5),
            anticlockwise: false,
        }]
    );
}

#[test]
fn ellipse_refuses_either_radius_below_zero() {
    let mut path = Path2D::new();
    assert_eq!(
        path.ellipse(d(1.), d(2.), d(-3.), d(4.), d(0.), d(0.), d(1.), false, &narrow),
        Err(PathError::RangeError)
    );
    assert_eq!(
        path.ellipse(d(1.), d(2.), d(3.), d(-4.), d(0.), d(0.), d(1.), false, &narrow),
        Err(PathError::RangeError)
    );
    assert_eq!(
        path.ellipse(d(1.), d(2.), d(-3.), d(-4.), d(0.), d(0.), d(1.), false, &narrow),
        Err(PathError::RangeError)
    );
    assert!(path.is_path_empty());
}

#[test]
fn ellipse_skips_what_is_not_finite_before_it_looks_at_the_radii() {
    for bad in not_finite() {
        for at in 0..7 {
            let mut a = [1.0f64, 2., -3., -4., 5., 6., 7.];
            a[at] = bad;
            let mut path = Path2D::new();
            assert_eq!(
                path.ellipse(d(a[0]), d(a[1]), d(a[2]), d(a[3]), d(a[4]), d(a[5]), d(a[6]), true, &narrow),
                Ok(())
            );
            assert!(path.is_path_empty());
        }
    }
}

#[test]
fn each_argument_is_rounded_once_and_in_its_place() {
    // An arithmetic that tells its arguments apart: it keeps the low bits.
    let low = |wide: u64| wide as u32;
    let mut path = Path2D::new();
    path.bezier_curve_to(1, 2, 3, 4, 5, 6, &low);
    assert_eq!(path.ellipse(1, 2, 3, 4, 5, 6, 7, true, &low), Ok(()));
    assert_eq!(path.arc(1, 2, 3, 4, 5, false, &low), Ok(()));
    assert_eq!(path.arc_to(1, 2, 3, 4, 5, &low), Ok(()));
    assert_eq!(
        path.segments(),
        vec![
            Segment::Bezier { cp1x: 1, cp1y: 2, cp2x: 3, cp2y: 4, x: 5, y: 6 },
            Segment::Ellipse {
                x: 1,
                y: 2,
                radius_x: 3,
                radius_y: 4,
                rotation: 5,
                start_angle: 6,
                end_angle: 7,
                anticlockwise: true,
            },
            Segment::Ellipse {
                x: 1,
                y: 2,
                radius_x: 3,
                radius_y: 3,
                rotation: 0,
                start_angle: 4,
                end_angle: 5,
                anticlockwise: false,
            },
            Segment::ArcTo { cp1x: 1, cp1y: 2, cp2x: 3, cp2y: 4, radius: 5 },
        ]
    );
}
