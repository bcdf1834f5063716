//! The point from which drawing continues after a sequence of segments.
use vstd::prelude::*;
use crate::number::{equal_single, is_zero_single, single_equal, single_is_zero};
use crate::segment::{Point, Segment};

verus! {

/// The corners that need no arithmetic: the arc starts at the corner, the
/// two control points coincide, or the radius is zero. Coordinates compare
/// as numbers.
pub open spec fn corner_is_flat(from: Point, corner: Point, towards: Point, radius: u32) -> bool {
    ||| (single_equal(from.x, corner.x) && single_equal(from.y, corner.y))
    ||| (single_equal(corner.x, towards.x) && single_equal(corner.y, towards.y))
    ||| single_is_zero(radius)
}

/// What `tangent_point` may return: the corner itself where the corner is
/// flat, and else whatever `arc` may return on the same four arguments.
pub open spec fn is_tangent_point<F: Fn(Point, Point, Point, u32) -> Point>(
    arc: F,
    from: Point,
    corner: Point,
    towards: Point,
    radius: u32,
    r: Point,
) -> bool {
    if corner_is_flat(from, corner, towards, radius) {
        r == corner
    } else {
        arc.ensures((from, corner, towards, radius), r)
    }
}

/// Whether `arc` can be asked about every corner that is not flat.
pub open spec fn accepts_corners<F: Fn(Point, Point, Point, u32) -> Point>(arc: F) -> bool {
    forall|a: Point, b: Point, c: Point, radius: u32|
        !corner_is_flat(a, b, c, radius) ==> #[trigger] arc.requires((a, b, c, radius))
}

/// The point at which the rounding of a corner lets go of the edge that
/// leads to `towards`.
///
/// A flat corner is answered here. Any other is handed to `arc`, which has
/// the arithmetic.
pub fn tangent_point<F: Fn(Point, Point, Point, u32) -> Point>(
    from: Point,
    corner: Point,
    towards: Point,
    radius: u32,
    arc: &F,
) -> (r: Point)
    requires
        !corner_is_flat(from, corner, towards, radius) ==> arc.requires(
            (from, corner, towards, radius),
        ),
    ensures
        is_tangent_point(*arc, from, corner, towards, radius, r),
{
    if (equal_single(from.x, corner.x) && equal_single(from.y, corner.y)) || (equal_single(
        corner.x,
        towards.x,
    ) && equal_single(corner.y, towards.y)) || is_zero_single(radius) {
        corner
    } else {
        arc(from, corner, towards, radius)
    }
}

/// One past the nearest `ClosePath` among the first `end` segments, or zero
/// where there is none: the index at which the subpath that is open after
/// those segments begins.
pub open spec fn subpath_start(s: Seq<Segment>, end: int) -> int
    decreases end,
{
    if end <= 0 {
        0
    } else if s[end - 1] is ClosePath {
        end
    } else {
        subpath_start(s, end - 1)
    }
}

/// The point to start from where the segments before may have resolved to
/// none.
pub open spec fn or_point(before: Option<Point>, fallback: Point) -> Point {
    match before {
        Some(p) => p,
        None => fallback,
    }
}

/// Whether `r` is the last point of the first `n` segments of `s`, with the
/// arithmetic of rounded corners left to `arc`.
///
/// - No segments have no last point.
/// - A trailing segment with a literal point has that point.
/// - A trailing rounded corner has its tangent point, taken from the last
///   point of the segments before it, or from the corner itself where they
///   have none.
/// - A trailing `ClosePath` has the point at which its subpath began. That
///   is the literal point of the subpath's first segment. Where that segment
///   is a rounded corner, it is the last point of all that came before the
///   subpath, or else the corner. Where the subpath is the `ClosePath` alone,
///   there is no point.
pub open spec fn is_last_point<F: Fn(Point, Point, Point, u32) -> Point>(
    s: Seq<Segment>,
    n: int,
    arc: F,
    r: Option<Point>,
) -> bool
    decreases n,
    via is_last_point_terminates::<F>
{
    if n <= 0 || n > s.len() {
        r is None
    } else {
        match s[n - 1] {
            Segment::ArcTo { cp1x, cp1y, cp2x, cp2y, radius } => {
                let corner = Point { x: cp1x, y: cp1y };
                let towards = Point { x: cp2x, y: cp2y };
                exists|before: Option<Point>|
                    {
                        &&& is_last_point(s, n - 1, arc, before)
                        &&& r is Some
                        &&& is_tangent_point(
                            arc,
                            #[trigger] or_point(before, corner),
                            corner,
                            towards,
                            radius,
                            r->0,
                        )
                    }
            },
            Segment::ClosePath => {
                let first = subpath_start(s, n - 1);
                match s[first] {
                    Segment::ArcTo { cp1x, cp1y, .. } => {
                        exists|before: Option<Point>|
                            {
                                &&& is_last_point(s, first, arc, before)
                                &&& r == Some(
                                    #[trigger] or_point(before, Point { x: cp1x, y: cp1y }),
                                )
                            }
                    },
                    opening => r == opening.literal_point(),
                }
            },
            last => r == last.literal_point(),
        }
    }
}

#[via_fn]
proof fn is_last_point_terminates<F: Fn(Point, Point, Point, u32) -> Point>(
    s: Seq<Segment>,
    n: int,
    arc: F,
    r: Option<Point>,
) {
    if 0 < n <= s.len() {
        lemma_subpath_start(s, n - 1);
    }
}

/// The start of a subpath lies within the segments that were searched; just
/// before it stands a `ClosePath`, unless it is the start of the path; and no
/// `ClosePath` stands between it and the end of the search.
pub proof fn lemma_subpath_start(s: Seq<Segment>, end: int)
    requires
        0 <= end <= s.len(),
    ensures
        0 <= subpath_start(s, end) <= end,
        subpath_start(s, end) > 0 ==> s[subpath_start(s, end) - 1] is ClosePath,
        forall|i: int| subpath_start(s, end) <= i < end ==> !(#[trigger] s[i] is ClosePath),
    decreases end,
{
    if end > 0 && !(s[end - 1] is ClosePath) {
        lemma_subpath_start(s, end - 1);
    }
}

/// Whether `arc` answers each question in one way only.
pub open spec fn is_deterministic<F: Fn(Point, Point, Point, u32) -> Point>(arc: F) -> bool {
    forall|a: Point, b: Point, c: Point, radius: u32, p: Point, q: Point|
        #[trigger] arc.ensures((a, b, c, radius), p) && #[trigger] arc.ensures(
            (a, b, c, radius),
            q,
        ) ==> p == q
}

/// Where the arithmetic of rounded corners has one answer to each question,
/// a sequence of segments has one last point, or none.
pub proof fn lemma_last_point_unique<F: Fn(Point, Point, Point, u32) -> Point>(
    s: Seq<Segment>,
    n: int,
    arc: F,
    r1: Option<Point>,
    r2: Option<Point>,
)
    requires
        is_deterministic(arc),
        is_last_point(s, n, arc, r1),
        is_last_point(s, n, arc, r2),
    ensures
        r1 == r2,
    decreases n,
{
    if 0 < n <= s.len() {
        match s[n - 1] {
            Segment::ArcTo { cp1x, cp1y, cp2x, cp2y, radius } => {
                let corner = Point { x: cp1x, y: cp1y };
                let towards = Point { x: cp2x, y: cp2y };
                let b1 = choose|before: Option<Point>|
                    {
                        &&& is_last_point(s, n - 1, arc, before)
                        &&& r1 is Some
                        &&& is_tangent_point(
                            arc,
                            #[trigger] or_point(before, corner),
                            corner,
                            towards,
                            radius,
                            r1->0,
                        )
                    };
                let b2 = choose|before: Option<Point>|
                    {
                        &&& is_last_point(s, n - 1, arc, before)
                        &&& r2 is Some
                        &&& is_tangent_point(
                            arc,
                            #[trigger] or_point(before, corner),
                            corner,
                            towards,
                            radius,
                            r2->0,
                        )
                    };
                lemma_last_point_unique(s, n - 1, arc, b1, b2);
            },
            Segment::ClosePath => {
                let first = subpath_start(s, n - 1);
                lemma_subpath_start(s, n - 1);
                match s[first] {
                    Segment::ArcTo { cp1x, cp1y, .. } => {
                        let corner = Point { x: cp1x, y: cp1y };
                        let b1 = choose|before: Option<Point>|
                            {
                                &&& is_last_point(s, first, arc, before)
                                &&& r1 == Some(#[trigger] or_point(before, corner))
                            };
                        let b2 = choose|before: Option<Point>|
                            {
                                &&& is_last_point(s, first, arc, before)
                                &&& r2 == Some(#[trigger] or_point(before, corner))
                            };
                        lemma_last_point_unique(s, first, arc, b1, b2);
                    },
                    _ => {},
                }
            },
            _ => {},
        }
    }
}

/// A sequence of segments has no last point in two cases only: it is empty,
/// or it ends in a `ClosePath` that closes a subpath of nothing else.
pub proof fn lemma_no_last_point<F: Fn(Point, Point, Point, u32) -> Point>(
    s: Seq<Segment>,
    arc: F,
    r: Option<Point>,
)
    requires
        is_last_point(s, s.len() as int, arc, r),
    ensures
        r is None <==> s.len() == 0 || (s.last() is ClosePath && subpath_start(s, s.len() - 1)
            == s.len() - 1),
{
    let n = s.len() as int;
    if n > 0 {
        lemma_subpath_start(s, n - 1);
    }
}

/// The last point of the first `n` segments is that of any other sequence
/// that begins with the same `n` segments.
pub proof fn lemma_last_point_of_prefix<F: Fn(Point, Point, Point, u32) -> Point>(
    s: Seq<Segment>,
    t: Seq<Segment>,
    n: int,
    arc: F,
    r: Option<Point>,
)
    requires
        0 <= n <= s.len(),
        n <= t.len(),
        forall|i: int| 0 <= i < n ==> s[i] == t[i],
        is_last_point(s, n, arc, r),
    ensures
        is_last_point(t, n, arc, r),
    decreases n,
{
    if n > 0 {
        lemma_same_subpath_start(s, t, n - 1);
        match s[n - 1] {
            Segment::ArcTo { cp1x, cp1y, cp2x, cp2y, radius } => {
                let corner = Point { x: cp1x, y: cp1y };
                let towards = Point { x: cp2x, y: cp2y };
                let before = choose|before: Option<Point>|
                    {
                        &&& is_last_point(s, n - 1, arc, before)
                        &&& r is Some
                        &&& is_tangent_point(
                            arc,
                            #[trigger] or_point(before, corner),
                            corner,
                            towards,
                            radius,
                            r->0,
                        )
                    };
                lemma_last_point_of_prefix(s, t, n - 1, arc, before);
            },
            Segment::ClosePath => {
                let first = subpath_start(s, n - 1);
                lemma_subpath_start(s, n - 1);
                match s[first] {
                    Segment::ArcTo { cp1x, cp1y, .. } => {
                        let corner = Point { x: cp1x, y: cp1y };
                        let before = choose|before: Option<Point>|
                            {
                                &&& is_last_point(s, first, arc, before)
                                &&& r == Some(#[trigger] or_point(before, corner))
                            };
                        lemma_last_point_of_prefix(s, t, first, arc, before);
                    },
                    _ => {},
                }
            },
            _ => {},
        }
    }
}

/// Two sequences that begin with the same `end` segments open their last
/// subpath among them at the same place.
pub proof fn lemma_same_subpath_start(s: Seq<Segment>, t: Seq<Segment>, end: int)
    requires
        0 <= end <= s.len(),
        end <= t.len(),
        forall|i: int| 0 <= i < end ==> s[i] == t[i],
    ensures
        subpath_start(s, end) == subpath_start(t, end),
    decreases end,
{
    if end > 0 && !(s[end - 1] is ClosePath) {
        lemma_same_subpath_start(s, t, end - 1);
    }
}

/// Finds the start of the subpath that is open after the first `end`
/// segments.
pub fn find_subpath_start(path: &[Segment], end: usize) -> (first: usize)
    requires
        end <= path@.len(),
    ensures
        first == subpath_start(path@, end as int),
        first <= end,
{
    let mut i: usize = end;
    while i > 0
        invariant
            i <= end <= path@.len(),
            subpath_start(path@, end as int) == subpath_start(path@, i as int),
        decreases i,
    {
        if path[i - 1].is_close_path() {
            return i;
        }
        i -= 1;
    }
    0
}

/// A segment whose point waits for the last point of the segments before
/// it: a trailing rounded corner, or a `ClosePath` whose subpath begins with
/// one.
#[derive(Clone, Copy)]
struct Pending {
    corner: Point,
    towards: Point,
    radius: u32,
    /// A trailing corner, whose tangent point is wanted; else the first
    /// segment of a closed subpath, which falls back to the corner.
    rounded: bool,
    /// The number of segments of which this entry gives the last point.
    end: usize,
}

/// The number of segments whose last point the entry waits for.
spec fn below(s: Seq<Segment>, e: Pending) -> int {
    if e.rounded {
        e.end - 1
    } else {
        subpath_start(s, e.end - 1)
    }
}

spec fn entry_fits(s: Seq<Segment>, e: Pending) -> bool {
    &&& 1 <= e.end <= s.len()
    &&& if e.rounded {
        s[e.end - 1] == (Segment::ArcTo {
            cp1x: e.corner.x,
            cp1y: e.corner.y,
            cp2x: e.towards.x,
            cp2y: e.towards.y,
            radius: e.radius,
        })
    } else {
        &&& s[e.end - 1] is ClosePath
        &&& 0 <= below(s, e) < e.end
        &&& s[below(s, e)] is ArcTo
        &&& s[below(s, e)].corner() == e.corner
    }
}

/// The entries lead from the whole path down to its first `n` segments, each
/// waiting for the one pushed after it.
spec fn chained(s: Seq<Segment>, pending: Seq<Pending>, n: int) -> bool {
    &&& pending.len() == 0 ==> n == s.len()
    &&& pending.len() > 0 ==> pending[0].end == s.len()
    &&& forall|k: int|
        0 <= k < pending.len() ==> {
            &&& entry_fits(s, #[trigger] pending[k])
            &&& below(s, pending[k]) == if k + 1 < pending.len() {
                pending[k + 1].end as int
            } else {
                n
            }
        }
}

/// After a segment with a literal point, that point is the last point.
pub proof fn lemma_last_point_of_literal<F: Fn(Point, Point, Point, u32) -> Point>(
    s: Seq<Segment>,
    n: int,
    arc: F,
    r: Option<Point>,
)
    requires
        0 < n <= s.len(),
        s[n - 1].literal_point() is Some,
    ensures
        is_last_point(s, n, arc, r) <==> r == s[n - 1].literal_point(),
{
}

/// After a `ClosePath` whose subpath does not begin with a rounded corner,
/// the last point is the literal point of the subpath's first segment; there
/// is none where that segment is the `ClosePath` itself.
pub proof fn lemma_last_point_of_close<F: Fn(Point, Point, Point, u32) -> Point>(
    s: Seq<Segment>,
    n: int,
    arc: F,
    r: Option<Point>,
)
    requires
        0 < n <= s.len(),
        s[n - 1] is ClosePath,
        !(s[subpath_start(s, n - 1)] is ArcTo),
    ensures
        is_last_point(s, n, arc, r) <==> r == s[subpath_start(s, n - 1)].literal_point(),
{
}

/// After a rounded corner, a tangent point of that corner is a last point:
/// one taken from a last point of the segments before it, or from the
/// corner itself where they have none.
pub proof fn lemma_last_point_after_corner<F: Fn(Point, Point, Point, u32) -> Point>(
    s: Seq<Segment>,
    n: int,
    arc: F,
    before: Option<Point>,
    r: Option<Point>,
)
    requires
        0 < n <= s.len(),
        s[n - 1] is ArcTo,
        is_last_point(s, n - 1, arc, before),
        r is Some,
        is_tangent_point(
            arc,
            or_point(before, s[n - 1].corner()),
            s[n - 1].corner(),
            s[n - 1].towards(),
            s[n - 1]->radius,
            r->0,
        ),
    ensures
        is_last_point(s, n, arc, r),
{
}

/// After a `ClosePath` whose subpath begins with a rounded corner, a last
/// point of what came before the subpath is a last point, and the corner is
/// where that has none.
pub proof fn lemma_last_point_after_closed_corner<F: Fn(Point, Point, Point, u32) -> Point>(
    s: Seq<Segment>,
    n: int,
    arc: F,
    before: Option<Point>,
    r: Option<Point>,
)
    requires
        0 < n <= s.len(),
        s[n - 1] is ClosePath,
        s[subpath_start(s, n - 1)] is ArcTo,
        is_last_point(s, subpath_start(s, n - 1), arc, before),
        r == Some(or_point(before, s[subpath_start(s, n - 1)].corner())),
    ensures
        is_last_point(s, n, arc, r),
{
}

/// Where the arithmetic has one answer to each question, the last point
/// after a rounded corner is the tangent point taken from the last point of
/// the segments before it.
pub proof fn lemma_last_point_of_corner<F: Fn(Point, Point, Point, u32) -> Point>(
    s: Seq<Segment>,
    n: int,
    arc: F,
    before: Option<Point>,
    r: Option<Point>,
)
    requires
        is_deterministic(arc),
        0 < n <= s.len(),
        s[n - 1] is ArcTo,
        is_last_point(s, n - 1, arc, before),
        is_last_point(s, n, arc, r),
    ensures
        r is Some,
        is_tangent_point(
            arc,
            or_point(before, s[n - 1].corner()),
            s[n - 1].corner(),
            s[n - 1].towards(),
            s[n - 1]->radius,
            r->0,
        ),
{
    let corner = s[n - 1].corner();
    let towards = s[n - 1].towards();
    let radius = s[n - 1]->radius;
    let found = choose|found: Option<Point>|
        {
            &&& is_last_point(s, n - 1, arc, found)
            &&& r is Some
            &&& is_tangent_point(
                arc,
                #[trigger] or_point(found, corner),
                corner,
                towards,
                radius,
                r->0,
            )
        };
    lemma_last_point_unique(s, n - 1, arc, found, before);
}

/// Where the arithmetic has one answer to each question, the last point
/// after a `ClosePath` whose subpath begins with a rounded corner is the
/// last point of what came before the subpath, or the corner where that has
/// none.
pub proof fn lemma_last_point_of_closed_corner<F: Fn(Point, Point, Point, u32) -> Point>(
    s: Seq<Segment>,
    n: int,
    arc: F,
    before: Option<Point>,
    r: Option<Point>,
)
    requires
        is_deterministic(arc),
        0 < n <= s.len(),
        s[n - 1] is ClosePath,
        s[subpath_start(s, n - 1)] is ArcTo,
        is_last_point(s, subpath_start(s, n - 1), arc, before),
        is_last_point(s, n, arc, r),
    ensures
        r == Some(or_point(before, s[subpath_start(s, n - 1)].corner())),
{
    let first = subpath_start(s, n - 1);
    let corner = s[first].corner();
    let found = choose|found: Option<Point>|
        {
            &&& is_last_point(s, first, arc, found)
            &&& r == Some(#[trigger] or_point(found, corner))
        };
    lemma_last_point_unique(s, first, arc, found, before);
}

/// The point from which drawing continues after `path`.
///
/// The path is walked from its end by index: each segment whose point
/// depends on what came before it is set aside, until a segment answers by
/// itself or the path is used up; then those set aside are answered from the
/// innermost out.
pub fn last_point<F: Fn(Point, Point, Point, u32) -> Point>(path: &[Segment], arc: &F) -> (r:
    Option<Point>)
    requires
        accepts_corners(*arc),
    ensures
        is_last_point(path@, path@.len() as int, *arc, r),
{
    let ghost s = path@;
    let mut pending: Vec<Pending> = Vec::new();
    let mut n: usize = path.len();
    let mut found: Option<Point> = None;
    let mut searching: bool = true;
    while searching && n > 0
        invariant
            s == path@,
            n <= s.len(),
            chained(s, pending@, n as int),
            !searching ==> is_last_point(s, n as int, *arc, found),
            searching ==> found is None,
        decreases n + if searching { 1int } else { 0int },
    {
        let last = path[n - 1];
        match last {
            Segment::ArcTo { cp1x, cp1y, cp2x, cp2y, radius } => {
                pending.push(
                    Pending {
                        corner: Point { x: cp1x, y: cp1y },
                        towards: Point { x: cp2x, y: cp2y },
                        radius,
                        rounded: true,
                        end: n,
                    },
                );
                n -= 1;
            },
            Segment::ClosePath => {
                let first = find_subpath_start(path, n - 1);
                match path[first] {
                    Segment::ArcTo { cp1x, cp1y, cp2x, cp2y, radius } => {
                        pending.push(
                            Pending {
                                corner: Point { x: cp1x, y: cp1y },
                                towards: Point { x: cp2x, y: cp2y },
                                radius,
                                rounded: false,
                                end: n,
                            },
                        );
                        n = first;
                    },
                    opening => {
                        found = opening.point();
                        searching = false;
                    },
                }
            },
            _ => {
                found = last.point();
                searching = false;
            },
        }
    }
    while pending.len() > 0
        invariant
            s == path@,
            n <= s.len(),
            chained(s, pending@, n as int),
            is_last_point(s, n as int, *arc, found),
            accepts_corners(*arc),
        decreases pending.len(),
    {
        let ghost before = found;
        let e = pending.pop().unwrap();
        let from = match found {
            Some(p) => p,
            None => e.corner,
        };
        if e.rounded {
            found = Some(tangent_point(from, e.corner, e.towards, e.radius, arc));
        } else {
            found = Some(from);
        }
        n = e.end;
        proof {
            if e.rounded {
                lemma_last_point_after_corner(s, n as int, *arc, before, found);
            } else {
                lemma_last_point_after_closed_corner(s, n as int, *arc, before, found);
            }
        }
    }
    found
}

} // verus!
