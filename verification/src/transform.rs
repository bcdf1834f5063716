//! Affine transforms and their application to segments.
use vstd::prelude::*;
use crate::number::{double_is_finite, is_finite_double};
use crate::segment::{Point, Segment};

verus! {

/// An affine transform of the plane: a linear part (`m11`, `m12`, `m21`,
/// `m22`) and a translation (`m31`, `m32`). Each coefficient is a
/// double-precision bit pattern.
#[derive(Clone, Copy, Debug, PartialEq, Eq, Structural)]
pub struct Matrix {
    pub m11: u64,
    pub m12: u64,
    pub m21: u64,
    pub m22: u64,
    pub m31: u64,
    pub m32: u64,
}

impl Matrix {
    /// All six coefficients are finite.
    pub open spec fn finite(self) -> bool {
        &&& double_is_finite(self.m11)
        &&& double_is_finite(self.m12)
        &&& double_is_finite(self.m21)
        &&& double_is_finite(self.m22)
        &&& double_is_finite(self.m31)
        &&& double_is_finite(self.m32)
    }

    /// Whether all six coefficients are finite.
    pub fn is_finite(&self) -> (r: bool)
        ensures
            r == self.finite(),
    {
        is_finite_double(self.m11) && is_finite_double(self.m12) && is_finite_double(self.m21)
            && is_finite_double(self.m22) && is_finite_double(self.m31) && is_finite_double(
            self.m32,
        )
    }
}

/// Whether `apply` can be asked about every point under `matrix`.
pub open spec fn accepts_points<T: Fn(Matrix, Point) -> Point>(apply: T, matrix: Matrix) -> bool {
    forall|p: Point| #[trigger] apply.requires((matrix, p))
}

/// Whether `b` may be what `a` becomes under `matrix`, with the arithmetic on
/// a point left to `apply`.
///
/// The kind stays. Every end point and control point goes through `apply`;
/// of an arc of an ellipse only the centre or end point does, while radii,
/// rotation, angles and flags stay as they are. The radius of a rounded
/// corner stays too, and a `ClosePath` is unchanged.
pub open spec fn is_transformed<T: Fn(Matrix, Point) -> Point>(
    apply: T,
    matrix: Matrix,
    a: Segment,
    b: Segment,
) -> bool {
    match (a, b) {
        (Segment::MoveTo { x, y }, Segment::MoveTo { x: tx, y: ty }) => apply.ensures(
            (matrix, Point { x, y }),
            Point { x: tx, y: ty },
        ),
        (Segment::LineTo { x, y }, Segment::LineTo { x: tx, y: ty }) => apply.ensures(
            (matrix, Point { x, y }),
            Point { x: tx, y: ty },
        ),
        (
            Segment::Quadratic { cpx, cpy, x, y },
            Segment::Quadratic { cpx: tcpx, cpy: tcpy, x: tx, y: ty },
        ) => {
            &&& apply.ensures((matrix, Point { x: cpx, y: cpy }), Point { x: tcpx, y: tcpy })
            &&& apply.ensures((matrix, Point { x, y }), Point { x: tx, y: ty })
        },
        (
            Segment::Bezier { cp1x, cp1y, cp2x, cp2y, x, y },
            Segment::Bezier { cp1x: tcp1x, cp1y: tcp1y, cp2x: tcp2x, cp2y: tcp2y, x: tx, y: ty },
        ) => {
            &&& apply.ensures((matrix, Point { x: cp1x, y: cp1y }), Point { x: tcp1x, y: tcp1y })
            &&& apply.ensures((matrix, Point { x: cp2x, y: cp2y }), Point { x: tcp2x, y: tcp2y })
            &&& apply.ensures((matrix, Point { x, y }), Point { x: tx, y: ty })
        },
        (
            Segment::ArcTo { cp1x, cp1y, cp2x, cp2y, radius },
            Segment::ArcTo { cp1x: tcp1x, cp1y: tcp1y, cp2x: tcp2x, cp2y: tcp2y, radius: tradius },
        ) => {
            &&& apply.ensures((matrix, Point { x: cp1x, y: cp1y }), Point { x: tcp1x, y: tcp1y })
            &&& apply.ensures((matrix, Point { x: cp2x, y: cp2y }), Point { x: tcp2x, y: tcp2y })
            &&& tradius == radius
        },
        (
            Segment::Ellipse {
                x,
                y,
                radius_x,
                radius_y,
                rotation,
                start_angle,
                end_angle,
                anticlockwise,
            },
            Segment::Ellipse { x: tx, y: ty, .. },
        ) => {
            &&& apply.ensures((matrix, Point { x, y }), Point { x: tx, y: ty })
            &&& b == (Segment::Ellipse {
                x: tx,
                y: ty,
                radius_x,
                radius_y,
                rotation,
                start_angle,
                end_angle,
                anticlockwise,
            })
        },
        (
            Segment::SvgArc { radius_x, radius_y, rotation, large_arc, sweep, x, y },
            Segment::SvgArc { x: tx, y: ty, .. },
        ) => {
            &&& apply.ensures((matrix, Point { x, y }), Point { x: tx, y: ty })
            &&& b == (Segment::SvgArc {
                radius_x,
                radius_y,
                rotation,
                large_arc,
                sweep,
                x: tx,
                y: ty,
            })
        },
        (Segment::ClosePath, Segment::ClosePath) => true,
        _ => false,
    }
}

/// Whether `c` may be what the segments `s` become under `matrix`: as many
/// segments, each the transformed one of its place.
pub open spec fn is_transformed_copy<T: Fn(Matrix, Point) -> Point>(
    apply: T,
    matrix: Matrix,
    s: Seq<Segment>,
    c: Seq<Segment>,
) -> bool {
    &&& c.len() == s.len()
    &&& forall|i: int| 0 <= i < s.len() ==> is_transformed(apply, matrix, s[i], #[trigger] c[i])
}

/// The segment under `matrix`.
pub fn transform_segment<T: Fn(Matrix, Point) -> Point>(
    segment: Segment,
    matrix: Matrix,
    apply: &T,
) -> (r: Segment)
    requires
        accepts_points(*apply, matrix),
    ensures
        is_transformed(*apply, matrix, segment, r),
{
    match segment {
        Segment::MoveTo { x, y } => {
            let p = apply(matrix, Point { x, y });
            Segment::MoveTo { x: p.x, y: p.y }
        },
        Segment::LineTo { x, y } => {
            let p = apply(matrix, Point { x, y });
            Segment::LineTo { x: p.x, y: p.y }
        },
        Segment::Quadratic { cpx, cpy, x, y } => {
            let cp = apply(matrix, Point { x: cpx, y: cpy });
            let p = apply(matrix, Point { x, y });
            Segment::Quadratic { cpx: cp.x, cpy: cp.y, x: p.x, y: p.y }
        },
        Segment::Bezier { cp1x, cp1y, cp2x, cp2y, x, y } => {
            let cp1 = apply(matrix, Point { x: cp1x, y: cp1y });
            let cp2 = apply(matrix, Point { x: cp2x, y: cp2y });
            let p = apply(matrix, Point { x, y });
            Segment::Bezier {
                cp1x: cp1.x,
                cp1y: cp1.y,
                cp2x: cp2.x,
                cp2y: cp2.y,
                x: p.x,
                y: p.y,
            }
        },
        Segment::ArcTo { cp1x, cp1y, cp2x, cp2y, radius } => {
            let cp1 = apply(matrix, Point { x: cp1x, y: cp1y });
            let cp2 = apply(matrix, Point { x: cp2x, y: cp2y });
            Segment::ArcTo { cp1x: cp1.x, cp1y: cp1.y, cp2x: cp2.x, cp2y: cp2.y, radius }
        },
        Segment::Ellipse {
            x,
            y,
            radius_x,
            radius_y,
            rotation,
            start_angle,
            end_angle,
            anticlockwise,
        } => {
            let p = apply(matrix, Point { x, y });
            Segment::Ellipse {
                x: p.x,
                y: p.y,
                radius_x,
                radius_y,
                rotation,
                start_angle,
                end_angle,
                anticlockwise,
            }
        },
        Segment::SvgArc { radius_x, radius_y, rotation, large_arc, sweep, x, y } => {
            let p = apply(matrix, Point { x, y });
            Segment::SvgArc { radius_x, radius_y, rotation, large_arc, sweep, x: p.x, y: p.y }
        },
        Segment::ClosePath => Segment::ClosePath,
    }
}

/// A copy of the segments, each under `matrix`.
pub fn transform_segments<T: Fn(Matrix, Point) -> Point>(
    segments: &[Segment],
    matrix: Matrix,
    apply: &T,
) -> (r: Vec<Segment>)
    requires
        accepts_points(*apply, matrix),
    ensures
        is_transformed_copy(*apply, matrix, segments@, r@),
{
    let mut copy: Vec<Segment> = Vec::new();
    let mut i: usize = 0;
    while i < segments.len()
        invariant
            i <= segments@.len(),
            copy@.len() == i,
            accepts_points(*apply, matrix),
            forall|k: int|
                0 <= k < i ==> is_transformed(*apply, matrix, segments@[k], #[trigger] copy@[k]),
        decreases segments@.len() - i,
    {
        copy.push(transform_segment(segments[i], matrix, apply));
        i += 1;
    }
    copy
}

} // verus!
