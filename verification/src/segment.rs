//! Points and path segments.
use vstd::prelude::*;

verus! {

/// A point of the plane; each coordinate is a single-precision bit pattern.
#[derive(Clone, Copy, Debug, PartialEq, Eq, Structural)]
pub struct Point {
    pub x: u32,
    pub y: u32,
}

impl Point {
    pub fn new(x: u32, y: u32) -> (r: Point)
        ensures
            r == (Point { x, y }),
    {
        Point { x, y }
    }
}

/// One drawing instruction. Every numeric field is a single-precision bit
/// pattern.
#[derive(Clone, Copy, Debug, PartialEq, Eq, Structural)]
pub enum Segment {
    /// Starts a new subpath at a point.
    MoveTo { x: u32, y: u32 },
    /// A straight line to a point.
    LineTo { x: u32, y: u32 },
    /// A quadratic curve: one control point and the end point.
    Quadratic { cpx: u32, cpy: u32, x: u32, y: u32 },
    /// A cubic curve: two control points and the end point.
    Bezier { cp1x: u32, cp1y: u32, cp2x: u32, cp2y: u32, x: u32, y: u32 },
    /// A rounded corner at the first control point, turning towards the
    /// second. It has no end point of its own.
    ArcTo { cp1x: u32, cp1y: u32, cp2x: u32, cp2y: u32, radius: u32 },
    /// An arc of an ellipse, given by its centre.
    Ellipse {
        x: u32,
        y: u32,
        radius_x: u32,
        radius_y: u32,
        rotation: u32,
        start_angle: u32,
        end_angle: u32,
        anticlockwise: bool,
    },
    /// An arc of an ellipse, given by its end point.
    SvgArc {
        radius_x: u32,
        radius_y: u32,
        rotation: u32,
        large_arc: bool,
        sweep: bool,
        x: u32,
        y: u32,
    },
    /// Ends the current subpath and returns to its start.
    ClosePath,
}

impl Segment {
    /// The point that the segment itself names as the place where drawing
    /// continues: the end point of a move, line or curve, the centre of an
    /// `Ellipse`, the end point of an `SvgArc`. A rounded corner and a
    /// `ClosePath` name none.
    pub open spec fn literal_point(self) -> Option<Point> {
        match self {
            Segment::MoveTo { x, y } => Some(Point { x, y }),
            Segment::LineTo { x, y } => Some(Point { x, y }),
            Segment::Quadratic { x, y, .. } => Some(Point { x, y }),
            Segment::Bezier { x, y, .. } => Some(Point { x, y }),
            Segment::Ellipse { x, y, .. } => Some(Point { x, y }),
            Segment::SvgArc { x, y, .. } => Some(Point { x, y }),
            Segment::ArcTo { .. } => None,
            Segment::ClosePath => None,
        }
    }

    /// The first control point of a rounded corner.
    pub open spec fn corner(self) -> Point
        recommends
            self is ArcTo,
    {
        match self {
            Segment::ArcTo { cp1x, cp1y, .. } => Point { x: cp1x, y: cp1y },
            _ => arbitrary(),
        }
    }

    /// The second control point of a rounded corner.
    pub open spec fn towards(self) -> Point
        recommends
            self is ArcTo,
    {
        match self {
            Segment::ArcTo { cp2x, cp2y, .. } => Point { x: cp2x, y: cp2y },
            _ => arbitrary(),
        }
    }

    /// The literal point of the segment, if it has one.
    pub fn point(&self) -> (r: Option<Point>)
        ensures
            r == self.literal_point(),
    {
        match *self {
            Segment::MoveTo { x, y } => Some(Point { x, y }),
            Segment::LineTo { x, y } => Some(Point { x, y }),
            Segment::Quadratic { x, y, .. } => Some(Point { x, y }),
            Segment::Bezier { x, y, .. } => Some(Point { x, y }),
            Segment::Ellipse { x, y, .. } => Some(Point { x, y }),
            Segment::SvgArc { x, y, .. } => Some(Point { x, y }),
            Segment::ArcTo { .. } => None,
            Segment::ClosePath => None,
        }
    }

    /// Whether the segment closes a subpath.
    pub fn is_close_path(&self) -> (r: bool)
        ensures
            r == (*self is ClosePath),
    {
        match *self {
            Segment::ClosePath => true,
            _ => false,
        }
    }
}

} // verus!
