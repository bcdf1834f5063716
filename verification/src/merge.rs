//! Merging the segments of one path into another under a transform.
use vstd::prelude::*;
use crate::last_point::{accepts_corners, is_last_point, last_point, lemma_last_point_of_literal};
use crate::path::{Path2D, PathError};
use crate::segment::{Point, Segment};
use crate::transform::{
    Matrix, accepts_points, is_transformed, is_transformed_copy, transform_segments,
};

verus! {

/// What follows the merged segments: a new subpath at their last point, or
/// nothing where they have none.
pub open spec fn new_subpath(last: Option<Point>) -> Seq<Segment> {
    match last {
        Some(p) => seq![Segment::MoveTo { x: p.x, y: p.y }],
        None => Seq::empty(),
    }
}

/// Whether `after` may be what `before` becomes when `source` is merged into
/// it under `matrix`: the segments of `before`, then a transformed copy of
/// `source`, then a new subpath at the last point of that copy.
pub open spec fn is_merged<T: Fn(Matrix, Point) -> Point, A: Fn(Point, Point, Point, u32) -> Point>(
    before: Seq<Segment>,
    source: Seq<Segment>,
    matrix: Matrix,
    apply: T,
    arc: A,
    after: Seq<Segment>,
) -> bool {
    exists|copy: Seq<Segment>, last: Option<Point>|
        {
            &&& #[trigger] is_transformed_copy(apply, matrix, source, copy)
            &&& is_last_point(copy, copy.len() as int, arc, last)
            &&& after == before + copy + #[trigger] new_subpath(last)
        }
}

/// Whether a merge of `source` under `transform` changes the target: the
/// source has segments, and the transform was constructed and is finite.
pub open spec fn merge_applies(source: Seq<Segment>, transform: Option<Matrix>) -> bool {
    source.len() > 0 && transform is Some && transform->0.finite()
}

/// A merge keeps every segment that the target had, in its place, and adds
/// as many segments as the source has, and at most one more.
pub proof fn lemma_merge_keeps_target<
    T: Fn(Matrix, Point) -> Point,
    A: Fn(Point, Point, Point, u32) -> Point,
>(before: Seq<Segment>, source: Seq<Segment>, matrix: Matrix, apply: T, arc: A, after: Seq<Segment>)
    requires
        is_merged(before, source, matrix, apply, arc, after),
    ensures
        before.len() + source.len() <= after.len() <= before.len() + source.len() + 1,
        after.take(before.len() as int) == before,
        is_transformed_copy(
            apply,
            matrix,
            source,
            after.subrange(before.len() as int, (before.len() + source.len()) as int),
        ),
{
    let (copy, last) = choose|copy: Seq<Segment>, last: Option<Point>|
        {
            &&& #[trigger] is_transformed_copy(apply, matrix, source, copy)
            &&& is_last_point(copy, copy.len() as int, arc, last)
            &&& after == before + copy + #[trigger] new_subpath(last)
        };
}

/// Drawing continues where the merged segments end: where a merge added
/// one segment more than the source has, that segment is a `MoveTo`, and its
/// point is the last point of the target.
pub proof fn lemma_merge_opens_subpath<
    T: Fn(Matrix, Point) -> Point,
    A: Fn(Point, Point, Point, u32) -> Point,
>(before: Seq<Segment>, source: Seq<Segment>, matrix: Matrix, apply: T, arc: A, after: Seq<Segment>)
    requires
        is_merged(before, source, matrix, apply, arc, after),
        after.len() == before.len() + source.len() + 1,
    ensures
        after.last() is MoveTo,
        is_last_point(after, after.len() as int, arc, after.last().literal_point()),
{
    let (copy, last) = choose|copy: Seq<Segment>, last: Option<Point>|
        {
            &&& #[trigger] is_transformed_copy(apply, matrix, source, copy)
            &&& is_last_point(copy, copy.len() as int, arc, last)
            &&& after == before + copy + #[trigger] new_subpath(last)
        };
    lemma_last_point_of_literal(after, after.len() as int, arc, after.last().literal_point());
}

/// Whether `apply` leaves every point where it is, whatever the matrix.
pub open spec fn is_identity<T: Fn(Matrix, Point) -> Point>(apply: T) -> bool {
    forall|m: Matrix, p: Point, q: Point| #[trigger] apply.ensures((m, p), q) ==> q == p
}

/// Under a transform that leaves every point where it is, the transformed
/// copy of segments is those segments.
pub proof fn lemma_identity_copy<T: Fn(Matrix, Point) -> Point>(
    apply: T,
    matrix: Matrix,
    s: Seq<Segment>,
    c: Seq<Segment>,
)
    requires
        is_identity(apply),
        is_transformed_copy(apply, matrix, s, c),
    ensures
        c == s,
{
    assert forall|i: int| 0 <= i < s.len() implies s[i] == c[i] by {}
}

/// A path merged into itself under a transform that leaves every point
/// where it is holds its segments twice, one run after the other, and after
/// them at most a new subpath: nothing is lost and nothing is changed.
pub proof fn lemma_identity_merge_into_itself<
    T: Fn(Matrix, Point) -> Point,
    A: Fn(Point, Point, Point, u32) -> Point,
>(before: Seq<Segment>, matrix: Matrix, apply: T, arc: A, after: Seq<Segment>)
    requires
        is_identity(apply),
        is_merged(before, before, matrix, apply, arc, after),
    ensures
        exists|last: Option<Point>|
            {
                &&& is_last_point(before, before.len() as int, arc, last)
                &&& after == before + before + #[trigger] new_subpath(last)
            },
{
    let (copy, last) = choose|copy: Seq<Segment>, last: Option<Point>|
        {
            &&& #[trigger] is_transformed_copy(apply, matrix, before, copy)
            &&& is_last_point(copy, copy.len() as int, arc, last)
            &&& after == before + copy + #[trigger] new_subpath(last)
        };
    lemma_identity_copy(apply, matrix, before, copy);
}

impl Path2D {
    /// Appends a transformed copy of `snapshot`, and a new subpath at the
    /// last point of that copy.
    fn merge<T: Fn(Matrix, Point) -> Point, A: Fn(Point, Point, Point, u32) -> Point>(
        &mut self,
        snapshot: &[Segment],
        matrix: Matrix,
        apply: &T,
        arc: &A,
    )
        requires
            accepts_points(*apply, matrix),
            accepts_corners(*arc),
        ensures
            is_merged(old(self)@, snapshot@, matrix, *apply, *arc, final(self)@),
    {
        let copy = transform_segments(snapshot, matrix, apply);
        let last = last_point(copy.as_slice(), arc);
        let mut i: usize = 0;
        while i < copy.len()
            invariant
                i <= copy@.len(),
                self@ == old(self)@ + copy@.take(i as int),
            decreases copy@.len() - i,
        {
            self.push(copy[i]);
            i += 1;
        }
        if let Some(p) = last {
            self.push(Segment::MoveTo { x: p.x, y: p.y });
        }
        proof {
            assert(self@ =~= old(self)@ + copy@ + new_subpath(last));
        }
    }

    /// Merges `source` into this path under a transform.
    ///
    /// `transform` is the transform as it was constructed, or `None` where
    /// its construction failed. A source without segments changes nothing,
    /// whatever the transform. Of a source with segments, a failed
    /// construction is an error, and a transform with a coefficient that is
    /// not finite changes nothing. Otherwise a transformed copy of the
    /// source's segments is appended, and after it a new subpath at the last
    /// point of that copy, where it has one.
    ///
    /// The transform of a point is total: `apply` answers for every point,
    /// so a merge that has begun does not fail, and an error leaves the
    /// target as it was.
    pub fn add_path<T: Fn(Matrix, Point) -> Point, A: Fn(Point, Point, Point, u32) -> Point>(
        &mut self,
        source: &Path2D,
        transform: Option<Matrix>,
        apply: &T,
        arc: &A,
    ) -> (r: Result<(), PathError>)
        requires
            transform is Some && transform->0.finite() ==> accepts_points(*apply, transform->0),
            accepts_corners(*arc),
        ensures
            r is Err <==> source@.len() > 0 && transform is None,
            r is Err ==> r == Err::<(), PathError>(PathError::OperationError),
            merge_applies(source@, transform) ==> is_merged(
                old(self)@,
                source@,
                transform->0,
                *apply,
                *arc,
                final(self)@,
            ),
            !merge_applies(source@, transform) ==> final(self)@ == old(self)@,
    {
        if source.is_path_empty() {
            return Ok(());
        }
        let matrix = match transform {
            Some(matrix) => matrix,
            None => {
                return Err(PathError::OperationError);
            },
        };
        if !matrix.is_finite() {
            return Ok(());
        }
        let snapshot = source.segments();
        self.merge(snapshot.as_slice(), matrix, apply, arc);
        Ok(())
    }

    /// Merges this path into itself under a transform: as `add_path` with a
    /// copy of this path, taken before anything is appended, as the source.
    pub fn add_path_to_self<
        T: Fn(Matrix, Point) -> Point,
        A: Fn(Point, Point, Point, u32) -> Point,
    >(&mut self, transform: Option<Matrix>, apply: &T, arc: &A) -> (r: Result<(), PathError>)
        requires
            transform is Some && transform->0.finite() ==> accepts_points(*apply, transform->0),
            accepts_corners(*arc),
        ensures
            r is Err <==> old(self)@.len() > 0 && transform is None,
            r is Err ==> r == Err::<(), PathError>(PathError::OperationError),
            merge_applies(old(self)@, transform) ==> is_merged(
                old(self)@,
                old(self)@,
                transform->0,
                *apply,
                *arc,
                final(self)@,
            ),
            !merge_applies(old(self)@, transform) ==> final(self)@ == old(self)@,
    {
        let snapshot = Path2D::new_with_path(self);
        self.add_path(&snapshot, transform, apply, arc)
    }
}

} // verus!
