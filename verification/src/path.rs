//! The path: segments in drawing order.
use vstd::prelude::*;
use crate::segment::Segment;

verus! {

/// Why an operation on a path was refused.
#[derive(Clone, Copy, Debug, PartialEq, Eq, Structural)]
pub enum PathError {
    /// A radius below zero.
    RangeError,
    /// The transform of a merge could not be constructed.
    OperationError,
}

/// An ordered, growable sequence of segments. Segments are only ever added
/// at the end; none is removed, reordered or changed.
pub struct Path2D {
    segments: Vec<Segment>,
}

impl View for Path2D {
    type V = Seq<Segment>;

    closed spec fn view(&self) -> Seq<Segment> {
        self.segments@
    }
}

/// The number of items before the first error, or the number of all items
/// where there is no error.
pub open spec fn accepted_len<E>(items: Seq<Result<Segment, E>>) -> int
    decreases items.len(),
{
    if items.len() == 0 || items[0] is Err {
        0
    } else {
        1 + accepted_len(items.skip(1))
    }
}

/// The segments that stand before the first error.
pub open spec fn accepted<E>(items: Seq<Result<Segment, E>>) -> Seq<Segment> {
    Seq::new(accepted_len(items) as nat, |i: int| items[i]->Ok_0)
}

/// The items before the first error are all segments, and right after them
/// stands an error, unless the items are used up.
pub proof fn lemma_accepted_len<E>(items: Seq<Result<Segment, E>>)
    ensures
        0 <= accepted_len(items) <= items.len(),
        forall|i: int| 0 <= i < accepted_len(items) ==> #[trigger] items[i] is Ok,
        accepted_len(items) < items.len() ==> items[accepted_len(items)] is Err,
    decreases items.len(),
{
    if items.len() > 0 && items[0] is Ok {
        let rest = items.skip(1);
        lemma_accepted_len(rest);
        assert forall|i: int| 0 <= i < accepted_len(items) implies #[trigger] items[i] is Ok by {
            if i > 0 {
                assert(items[i] == rest[i - 1]);
            }
        }
    }
}

impl Path2D {
    /// The empty path.
    pub fn new() -> (r: Path2D)
        ensures
            r@ == Seq::<Segment>::empty(),
    {
        Path2D { segments: Vec::new() }
    }

    /// A path with the segments of another; the two share nothing.
    pub fn new_with_path(other: &Path2D) -> (r: Path2D)
        ensures
            r@ == other@,
    {
        Path2D { segments: other.segments() }
    }

    /// A path from what a parser produced: the segments up to the first
    /// error. An error cuts the path short; it does not fail it.
    pub fn new_with_parsed<E>(items: &[Result<Segment, E>]) -> (r: Path2D)
        ensures
            r@ == accepted(items@),
    {
        let mut segments: Vec<Segment> = Vec::new();
        let mut i: usize = 0;
        let mut open: bool = true;
        proof {
            assert(items@.skip(0) == items@);
        }
        while open && i < items.len()
            invariant
                i <= items@.len(),
                segments@.len() == i,
                forall|k: int|
                    0 <= k < i ==> items@[k] == Ok::<Segment, E>(#[trigger] segments@[k]),
                accepted_len(items@) == i + if open {
                    accepted_len(items@.skip(i as int))
                } else {
                    0
                },
            decreases items@.len() - i + if open { 1int } else { 0int },
        {
            match &items[i] {
                Ok(segment) => {
                    proof {
                        assert(items@.skip(i as int).skip(1) == items@.skip(i + 1));
                    }
                    segments.push(*segment);
                    i += 1;
                },
                Err(_) => {
                    open = false;
                },
            }
        }
        Path2D { segments }
    }

    /// Appends a segment, whatever it holds.
    pub fn push(&mut self, segment: Segment)
        ensures
            final(self)@ == old(self)@.push(segment),
    {
        self.segments.push(segment);
    }

    /// A copy of the segments, in drawing order.
    pub fn segments(&self) -> (r: Vec<Segment>)
        ensures
            r@ == self@,
    {
        let mut copy: Vec<Segment> = Vec::new();
        let mut i: usize = 0;
        while i < self.segments.len()
            invariant
                i <= self.segments@.len(),
                copy@ == self.segments@.take(i as int),
            decreases self.segments@.len() - i,
        {
            copy.push(self.segments[i]);
            proof {
                assert(self.segments@.take(i + 1) == self.segments@.take(i as int).push(
                    self.segments@[i as int],
                ));
            }
            i += 1;
        }
        copy
    }

    /// Whether the path has no segment.
    pub fn is_path_empty(&self) -> (r: bool)
        ensures
            r == (self@.len() == 0),
    {
        self.segments.len() == 0
    }

    /// The number of segments.
    pub fn len(&self) -> (r: usize)
        ensures
            r == self@.len(),
    {
        self.segments.len()
    }
}

} // verus!
