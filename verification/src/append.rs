//! The operations that append to a path.
//!
//! Each takes its numbers in double precision and validates them as such.
//! What is stored is in single precision: the rounding is `narrow`, which
//! the caller gives, as it gives `sum` for the one operation that adds.
use vstd::prelude::*;
use crate::number::{double_is_finite, double_is_negative, is_finite_double, is_negative_double};
use crate::path::{Path2D, PathError};
use crate::segment::Segment;

verus! {

/// The six segments of a rectangle: its four corners joined by lines, the
/// closing of that subpath, and a new subpath at the first corner.
pub open spec fn rect_segments(x: u32, y: u32, right: u32, bottom: u32) -> Seq<Segment> {
    seq![
        Segment::MoveTo { x, y },
        Segment::LineTo { x: right, y },
        Segment::LineTo { x: right, y: bottom },
        Segment::LineTo { x, y: bottom },
        Segment::ClosePath,
        Segment::MoveTo { x, y },
    ]
}

/// Whether `s` may be the segment of a move to (x, y): a `MoveTo` at what
/// `narrow` makes of the two numbers.
pub open spec fn is_move_to<N: Fn(u64) -> u32>(narrow: N, x: u64, y: u64, s: Segment) -> bool {
    match s {
        Segment::MoveTo { x: nx, y: ny } => narrow.ensures((x,), nx) && narrow.ensures((y,), ny),
        _ => false,
    }
}

/// Whether `s` may be the segment of a line to (x, y).
pub open spec fn is_line_to<N: Fn(u64) -> u32>(narrow: N, x: u64, y: u64, s: Segment) -> bool {
    match s {
        Segment::LineTo { x: nx, y: ny } => narrow.ensures((x,), nx) && narrow.ensures((y,), ny),
        _ => false,
    }
}

/// Whether `s` may be the segment of a quadratic curve to (x, y) with the
/// control point (cpx, cpy).
pub open spec fn is_quadratic<N: Fn(u64) -> u32>(
    narrow: N,
    cpx: u64,
    cpy: u64,
    x: u64,
    y: u64,
    s: Segment,
) -> bool {
    match s {
        Segment::Quadratic { cpx: ncpx, cpy: ncpy, x: nx, y: ny } => {
            &&& narrow.ensures((cpx,), ncpx)
            &&& narrow.ensures((cpy,), ncpy)
            &&& narrow.ensures((x,), nx)
            &&& narrow.ensures((y,), ny)
        },
        _ => false,
    }
}

/// Whether `s` may be the segment of a cubic curve to (x, y) with the
/// control points (cp1x, cp1y) and (cp2x, cp2y).
pub open spec fn is_bezier<N: Fn(u64) -> u32>(
    narrow: N,
    cp1x: u64,
    cp1y: u64,
    cp2x: u64,
    cp2y: u64,
    x: u64,
    y: u64,
    s: Segment,
) -> bool {
    match s {
        Segment::Bezier { cp1x: ncp1x, cp1y: ncp1y, cp2x: ncp2x, cp2y: ncp2y, x: nx, y: ny } => {
            &&& narrow.ensures((cp1x,), ncp1x)
            &&& narrow.ensures((cp1y,), ncp1y)
            &&& narrow.ensures((cp2x,), ncp2x)
            &&& narrow.ensures((cp2y,), ncp2y)
            &&& narrow.ensures((x,), nx)
            &&& narrow.ensures((y,), ny)
        },
        _ => false,
    }
}

/// Whether `s` may be the segment of a corner at (x1, y1) towards (x2, y2),
/// rounded with radius `r`.
pub open spec fn is_arc_to<N: Fn(u64) -> u32>(
    narrow: N,
    x1: u64,
    y1: u64,
    x2: u64,
    y2: u64,
    r: u64,
    s: Segment,
) -> bool {
    match s {
        Segment::ArcTo { cp1x, cp1y, cp2x, cp2y, radius } => {
            &&& narrow.ensures((x1,), cp1x)
            &&& narrow.ensures((y1,), cp1y)
            &&& narrow.ensures((x2,), cp2x)
            &&& narrow.ensures((y2,), cp2y)
            &&& narrow.ensures((r,), radius)
        },
        _ => false,
    }
}

/// Whether `s` may be the segment of an arc of the circle around (x, y) with
/// radius `r`: an `Ellipse` with both radii `r` and no rotation.
pub open spec fn is_arc<N: Fn(u64) -> u32>(
    narrow: N,
    x: u64,
    y: u64,
    r: u64,
    start: u64,
    end: u64,
    anticlockwise: bool,
    s: Segment,
) -> bool {
    match s {
        Segment::Ellipse {
            x: nx,
            y: ny,
            radius_x,
            radius_y,
            rotation,
            start_angle,
            end_angle,
            anticlockwise: turn,
        } => {
            &&& narrow.ensures((x,), nx)
            &&& narrow.ensures((y,), ny)
            &&& narrow.ensures((r,), radius_x)
            &&& radius_y == radius_x
            &&& rotation == 0
            &&& narrow.ensures((start,), start_angle)
            &&& narrow.ensures((end,), end_angle)
            &&& turn == anticlockwise
        },
        _ => false,
    }
}

/// Whether `s` may be the segment of an arc of the ellipse around (x, y)
/// with radii `rx` and `ry`, turned by `rotation`.
pub open spec fn is_ellipse<N: Fn(u64) -> u32>(
    narrow: N,
    x: u64,
    y: u64,
    rx: u64,
    ry: u64,
    rotation: u64,
    start: u64,
    end: u64,
    anticlockwise: bool,
    s: Segment,
) -> bool {
    match s {
        Segment::Ellipse {
            x: nx,
            y: ny,
            radius_x,
            radius_y,
            rotation: turned,
            start_angle,
            end_angle,
            anticlockwise: turn,
        } => {
            &&& narrow.ensures((x,), nx)
            &&& narrow.ensures((y,), ny)
            &&& narrow.ensures((rx,), radius_x)
            &&& narrow.ensures((ry,), radius_y)
            &&& narrow.ensures((rotation,), turned)
            &&& narrow.ensures((start,), start_angle)
            &&& narrow.ensures((end,), end_angle)
            &&& turn == anticlockwise
        },
        _ => false,
    }
}

/// What an operation with a radius does with its arguments.
#[derive(Clone, Copy, Debug, PartialEq, Eq, Structural)]
pub enum Outcome {
    /// An argument is not finite: nothing happens, and that is no error.
    Skipped,
    /// All arguments are finite and a radius is below zero: an error.
    Refused,
    /// A segment is appended.
    Appended,
}

/// What becomes of arguments of which `finite` says whether all are finite
/// and `negative` whether a radius is below zero. Finiteness is asked first.
pub open spec fn outcome(finite: bool, negative: bool) -> Outcome {
    if !finite {
        Outcome::Skipped
    } else if negative {
        Outcome::Refused
    } else {
        Outcome::Appended
    }
}

/// What `arc_to` does with its arguments.
pub open spec fn arc_to_outcome(x1: u64, y1: u64, x2: u64, y2: u64, r: u64) -> Outcome {
    outcome(
        double_is_finite(x1) && double_is_finite(y1) && double_is_finite(x2) && double_is_finite(
            y2,
        ) && double_is_finite(r),
        double_is_negative(r),
    )
}

/// What `arc` does with its arguments.
pub open spec fn arc_outcome(x: u64, y: u64, r: u64, start: u64, end: u64) -> Outcome {
    outcome(
        double_is_finite(x) && double_is_finite(y) && double_is_finite(r) && double_is_finite(
            start,
        ) && double_is_finite(end),
        double_is_negative(r),
    )
}

/// What `ellipse` does with its arguments: either radius below zero is
/// refused.
pub open spec fn ellipse_outcome(
    x: u64,
    y: u64,
    rx: u64,
    ry: u64,
    rotation: u64,
    start: u64,
    end: u64,
) -> Outcome {
    outcome(
        double_is_finite(x) && double_is_finite(y) && double_is_finite(rx) && double_is_finite(ry)
            && double_is_finite(rotation) && double_is_finite(start) && double_is_finite(end),
        double_is_negative(rx) || double_is_negative(ry),
    )
}

/// Whether `r` may be the sum of `a` and `b` in single precision: what
/// `narrow` makes of what `sum` makes of the two.
pub open spec fn is_narrow_sum<N: Fn(u64) -> u32, S: Fn(u64, u64) -> u64>(
    narrow: N,
    sum: S,
    a: u64,
    b: u64,
    r: u32,
) -> bool {
    exists|wide: u64| #[trigger] sum.ensures((a, b), wide) && narrow.ensures((wide,), r)
}

/// Whether `added` may be the segments of the rectangle with a corner at
/// (x, y), width `w` and height `h`: the six of `rect_segments`, with the
/// far sides at x + w and y + h.
pub open spec fn is_rect<N: Fn(u64) -> u32, S: Fn(u64, u64) -> u64>(
    narrow: N,
    sum: S,
    x: u64,
    y: u64,
    w: u64,
    h: u64,
    added: Seq<Segment>,
) -> bool {
    exists|nx: u32, ny: u32, right: u32, bottom: u32|
        {
            &&& narrow.ensures((x,), nx)
            &&& narrow.ensures((y,), ny)
            &&& is_narrow_sum(narrow, sum, x, w, right)
            &&& is_narrow_sum(narrow, sum, y, h, bottom)
            &&& added == #[trigger] rect_segments(nx, ny, right, bottom)
        }
}

/// A rectangle is six segments.
pub proof fn lemma_rect_is_six_segments<N: Fn(u64) -> u32, S: Fn(u64, u64) -> u64>(
    narrow: N,
    sum: S,
    x: u64,
    y: u64,
    w: u64,
    h: u64,
    added: Seq<Segment>,
)
    requires
        is_rect(narrow, sum, x, y, w, h, added),
    ensures
        added.len() == 6,
        added[0] is MoveTo,
        added[1] is LineTo,
        added[2] is LineTo,
        added[3] is LineTo,
        added[4] is ClosePath,
        added[5] == added[0],
{
}

impl Path2D {
    /// Closes the current subpath.
    pub fn close_path(&mut self)
        ensures
            final(self)@ == old(self)@.push(Segment::ClosePath),
    {
        self.push(Segment::ClosePath);
    }

    /// Starts a new subpath at (x, y). Does nothing unless both numbers are
    /// finite.
    pub fn move_to<N: Fn(u64) -> u32>(&mut self, x: u64, y: u64, narrow: &N)
        requires
            forall|wide: u64| double_is_finite(wide) ==> #[trigger] narrow.requires((wide,)),
        ensures
            double_is_finite(x) && double_is_finite(y) ==> exists|s: Segment| #[trigger]
                is_move_to(*narrow, x, y, s) && final(self)@ == old(self)@.push(s),
            !(double_is_finite(x) && double_is_finite(y)) ==> final(self)@ == old(self)@,
    {
        if !(is_finite_double(x) && is_finite_double(y)) {
            return ;
        }
        let segment = Segment::MoveTo { x: narrow(x), y: narrow(y) };
        self.push(segment);
        proof {
            assert(is_move_to(*narrow, x, y, segment));
        }
    }

    /// Draws a line to (x, y). Does nothing unless both numbers are finite.
    pub fn line_to<N: Fn(u64) -> u32>(&mut self, x: u64, y: u64, narrow: &N)
        requires
            forall|wide: u64| double_is_finite(wide) ==> #[trigger] narrow.requires((wide,)),
        ensures
            double_is_finite(x) && double_is_finite(y) ==> exists|s: Segment| #[trigger]
                is_line_to(*narrow, x, y, s) && final(self)@ == old(self)@.push(s),
            !(double_is_finite(x) && double_is_finite(y)) ==> final(self)@ == old(self)@,
    {
        if !(is_finite_double(x) && is_finite_double(y)) {
            return ;
        }
        let segment = Segment::LineTo { x: narrow(x), y: narrow(y) };
        self.push(segment);
        proof {
            assert(is_line_to(*narrow, x, y, segment));
        }
    }

    /// Draws a quadratic curve to (x, y) with one control point. Does
    /// nothing unless all four numbers are finite.
    pub fn quadratic_curve_to<N: Fn(u64) -> u32>(
        &mut self,
        cpx: u64,
        cpy: u64,
        x: u64,
        y: u64,
        narrow: &N,
    )
        requires
            forall|wide: u64| double_is_finite(wide) ==> #[trigger] narrow.requires((wide,)),
        ensures
            double_is_finite(cpx) && double_is_finite(cpy) && double_is_finite(x)
                && double_is_finite(y) ==> exists|s: Segment| #[trigger]
                is_quadratic(*narrow, cpx, cpy, x, y, s) && final(self)@ == old(self)@.push(s),
            !(double_is_finite(cpx) && double_is_finite(cpy) && double_is_finite(x)
                && double_is_finite(y)) ==> final(self)@ == old(self)@,
    {
        if !(is_finite_double(cpx) && is_finite_double(cpy) && is_finite_double(x)
            && is_finite_double(y)) {
            return ;
        }
        let segment = Segment::Quadratic {
            cpx: narrow(cpx),
            cpy: narrow(cpy),
            x: narrow(x),
            y: narrow(y),
        };
        self.push(segment);
        proof {
            assert(is_quadratic(*narrow, cpx, cpy, x, y, segment));
        }
    }

    /// Draws a cubic curve to (x, y) with two control points. Does nothing
    /// unless all six numbers are finite.
    pub fn bezier_curve_to<N: Fn(u64) -> u32>(
        &mut self,
        cp1x: u64,
        cp1y: u64,
        cp2x: u64,
        cp2y: u64,
        x: u64,
        y: u64,
        narrow: &N,
    )
        requires
            forall|wide: u64| double_is_finite(wide) ==> #[trigger] narrow.requires((wide,)),
        ensures
            double_is_finite(cp1x) && double_is_finite(cp1y) && double_is_finite(cp2x)
                && double_is_finite(cp2y) && double_is_finite(x) && double_is_finite(y)
                ==> exists|s: Segment| #[trigger]
                is_bezier(*narrow, cp1x, cp1y, cp2x, cp2y, x, y, s)
                    && final(self)@ == old(self)@.push(s),
            !(double_is_finite(cp1x) && double_is_finite(cp1y) && double_is_finite(cp2x)
                && double_is_finite(cp2y) && double_is_finite(x) && double_is_finite(y))
                ==> final(self)@ == old(self)@,
    {
        if !(is_finite_double(cp1x) && is_finite_double(cp1y) && is_finite_double(cp2x)
            && is_finite_double(cp2y) && is_finite_double(x) && is_finite_double(y)) {
            return ;
        }
        let segment = Segment::Bezier {
            cp1x: narrow(cp1x),
            cp1y: narrow(cp1y),
            cp2x: narrow(cp2x),
            cp2y: narrow(cp2y),
            x: narrow(x),
            y: narrow(y),
        };
        self.push(segment);
        proof {
            assert(is_bezier(*narrow, cp1x, cp1y, cp2x, cp2y, x, y, segment));
        }
    }

    /// Rounds the corner at (x1, y1) on the way towards (x2, y2).
    ///
    /// Does nothing unless all five numbers are finite. Of finite numbers, a
    /// radius below zero is an error and leaves the path as it was.
    pub fn arc_to<N: Fn(u64) -> u32>(
        &mut self,
        x1: u64,
        y1: u64,
        x2: u64,
        y2: u64,
        r: u64,
        narrow: &N,
    ) -> (res: Result<(), PathError>)
        requires
            forall|wide: u64| double_is_finite(wide) ==> #[trigger] narrow.requires((wide,)),
        ensures
            arc_to_outcome(x1, y1, x2, y2, r) == Outcome::Refused <==> res is Err,
            res is Err ==> res == Err::<(), PathError>(PathError::RangeError),
            arc_to_outcome(x1, y1, x2, y2, r) == Outcome::Appended ==> exists|s: Segment|
                #[trigger] is_arc_to(*narrow, x1, y1, x2, y2, r, s)
                    && final(self)@ == old(self)@.push(s),
            arc_to_outcome(x1, y1, x2, y2, r) != Outcome::Appended ==> final(self)@ == old(self)@,
    {
        if !(is_finite_double(x1) && is_finite_double(y1) && is_finite_double(x2)
            && is_finite_double(y2) && is_finite_double(r)) {
            return Ok(());
        }
        if is_negative_double(r) {
            return Err(PathError::RangeError);
        }
        let segment = Segment::ArcTo {
            cp1x: narrow(x1),
            cp1y: narrow(y1),
            cp2x: narrow(x2),
            cp2y: narrow(y2),
            radius: narrow(r),
        };
        self.push(segment);
        proof {
            assert(is_arc_to(*narrow, x1, y1, x2, y2, r, segment));
        }
        Ok(())
    }

    /// Adds the rectangle with a corner at (x, y), width `w` and height `h`
    /// as a closed subpath, and starts a new subpath at (x, y). Does nothing
    /// unless all four numbers are finite.
    ///
    /// `sum` adds in double precision; the far sides are x + w and y + h.
    pub fn rect<N: Fn(u64) -> u32, S: Fn(u64, u64) -> u64>(
        &mut self,
        x: u64,
        y: u64,
        w: u64,
        h: u64,
        narrow: &N,
        sum: &S,
    )
        requires
            forall|wide: u64| #[trigger] narrow.requires((wide,)),
            forall|a: u64, b: u64| #[trigger] sum.requires((a, b)),
        ensures
            double_is_finite(x) && double_is_finite(y) && double_is_finite(w)
                && double_is_finite(h) ==> exists|added: Seq<Segment>| #[trigger]
                is_rect(*narrow, *sum, x, y, w, h, added) && final(self)@ == old(self)@ + added,
            !(double_is_finite(x) && double_is_finite(y) && double_is_finite(w)
                && double_is_finite(h)) ==> final(self)@ == old(self)@,
    {
        if !(is_finite_double(x) && is_finite_double(y) && is_finite_double(w)
            && is_finite_double(h)) {
            return ;
        }
        let nx = narrow(x);
        let ny = narrow(y);
        let xw = sum(x, w);
        let yh = sum(y, h);
        let right = narrow(xw);
        let bottom = narrow(yh);
        self.push(Segment::MoveTo { x: nx, y: ny });
        self.push(Segment::LineTo { x: right, y: ny });
        self.push(Segment::LineTo { x: right, y: bottom });
        self.push(Segment::LineTo { x: nx, y: bottom });
        self.push(Segment::ClosePath);
        self.push(Segment::MoveTo { x: nx, y: ny });
        proof {
            let added = rect_segments(nx, ny, right, bottom);
            assert(is_rect(*narrow, *sum, x, y, w, h, added));
        }
    }

    /// Adds an arc of the circle around (x, y) with radius `r`, from the
    /// angle `start` to the angle `end`.
    ///
    /// Does nothing unless all five numbers are finite. Of finite numbers, a
    /// radius below zero is an error and leaves the path as it was.
    pub fn arc<N: Fn(u64) -> u32>(
        &mut self,
        x: u64,
        y: u64,
        r: u64,
        start: u64,
        end: u64,
        anticlockwise: bool,
        narrow: &N,
    ) -> (res: Result<(), PathError>)
        requires
            forall|wide: u64| double_is_finite(wide) ==> #[trigger] narrow.requires((wide,)),
        ensures
            arc_outcome(x, y, r, start, end) == Outcome::Refused <==> res is Err,
            res is Err ==> res == Err::<(), PathError>(PathError::RangeError),
            arc_outcome(x, y, r, start, end) == Outcome::Appended ==> exists|s: Segment|
                #[trigger] is_arc(*narrow, x, y, r, start, end, anticlockwise, s)
                    && final(self)@ == old(self)@.push(s),
            arc_outcome(x, y, r, start, end) != Outcome::Appended ==> final(self)@ == old(self)@,
    {
        if !(is_finite_double(x) && is_finite_double(y) && is_finite_double(r)
            && is_finite_double(start) && is_finite_double(end)) {
            return Ok(());
        }
        if is_negative_double(r) {
            return Err(PathError::RangeError);
        }
        let radius = narrow(r);
        let segment = Segment::Ellipse {
            x: narrow(x),
            y: narrow(y),
            radius_x: radius,
            radius_y: radius,
            rotation: 0,
            start_angle: narrow(start),
            end_angle: narrow(end),
            anticlockwise,
        };
        self.push(segment);
        proof {
            assert(is_arc(*narrow, x, y, r, start, end, anticlockwise, segment));
        }
        Ok(())
    }

    /// Adds an arc of the ellipse around (x, y) with radii `rx` and `ry`,
    /// turned by `rotation`, from the angle `start` to the angle `end`.
    ///
    /// Does nothing unless all seven numbers are finite. Of finite numbers,
    /// a radius below zero is an error and leaves the path as it was.
    pub fn ellipse<N: Fn(u64) -> u32>(
        &mut self,
        x: u64,
        y: u64,
        rx: u64,
        ry: u64,
        rotation: u64,
        start: u64,
        end: u64,
        anticlockwise: bool,
        narrow: &N,
    ) -> (res: Result<(), PathError>)
        requires
            forall|wide: u64| double_is_finite(wide) ==> #[trigger] narrow.requires((wide,)),
        ensures
            ellipse_outcome(x, y, rx, ry, rotation, start, end) == Outcome::Refused <==> res
                is Err,
            res is Err ==> res == Err::<(), PathError>(PathError::RangeError),
            ellipse_outcome(x, y, rx, ry, rotation, start, end) == Outcome::Appended
                ==> exists|s: Segment| #[trigger]
                is_ellipse(*narrow, x, y, rx, ry, rotation, start, end, anticlockwise, s)
                    && final(self)@ == old(self)@.push(s),
            ellipse_outcome(x, y, rx, ry, rotation, start, end) != Outcome::Appended
                ==> final(self)@ == old(self)@,
    {
        if !(is_finite_double(x) && is_finite_double(y) && is_finite_double(rx)
            && is_finite_double(ry) && is_finite_double(rotation) && is_finite_double(start)
            && is_finite_double(end)) {
            return Ok(());
        }
        if is_negative_double(rx) || is_negative_double(ry) {
            return Err(PathError::RangeError);
        }
        let segment = Segment::Ellipse {
            x: narrow(x),
            y: narrow(y),
            radius_x: narrow(rx),
            radius_y: narrow(ry),
            rotation: narrow(rotation),
            start_angle: narrow(start),
            end_angle: narrow(end),
            anticlockwise,
        };
        self.push(segment);
        proof {
            assert(is_ellipse(
                *narrow,
                x,
                y,
                rx,
                ry,
                rotation,
                start,
                end,
                anticlockwise,
                segment,
            ));
        }
        Ok(())
    }
}

} // verus!
