use vstd::prelude::*;

use crate::point::Point;

verus! {

/// The polygon being drawn: its vertices in the order they were placed.
#[derive(Clone, Debug)]
pub struct Polygon<S> {
    pub points: Vec<Point<S>>,
}

impl<S> View for Polygon<S> {
    type V = Seq<Point<S>>;

    open spec fn view(&self) -> Seq<Point<S>> {
        self.points@
    }
}

impl<S> Polygon<S> {
    /// A polygon without vertices.
    pub fn new() -> (p: Self)
        ensures
            p@ == Seq::<Point<S>>::empty(),
    {
        Self { points: Vec::<Point<S>>::new() }
    }

    /// Places a new vertex after the existing ones.
    pub fn add_point(&mut self, new_point: Point<S>)
        ensures
            final(self)@ == old(self)@.push(new_point),
    {
        self.points.push(new_point);
    }

    /// The number of vertices.
    pub fn count_points(&self) -> (n: usize)
        ensures
            n == self@.len(),
    {
        self.points.len()
    }

    /// Removes every vertex.
    pub fn clear_points(&mut self)
        ensures
            final(self)@ == Seq::<Point<S>>::empty(),
    {
        self.points.clear()
    }
}

impl<S> Default for Polygon<S> {
    /// The default polygon has no vertices.
    fn default() -> (p: Self)
        ensures
            p@ == Seq::<Point<S>>::empty(),
    {
        Polygon::new()
    }
}

/// The vertices after placing `placed`, one after the other, on a polygon
/// whose vertices were `start`.
pub open spec fn after_placing<S>(start: Seq<Point<S>>, placed: Seq<Point<S>>) -> Seq<Point<S>>
    decreases placed.len(),
{
    if placed.len() == 0 {
        start
    } else {
        after_placing(start, placed.drop_last()).push(placed.last())
    }
}

/// Placing vertices one by one appends them in the order they were placed,
/// and leaves the earlier vertices where they were.
pub proof fn lemma_placing_appends<S>(start: Seq<Point<S>>, placed: Seq<Point<S>>)
    ensures
        after_placing(start, placed) == start + placed,
        after_placing(start, placed).len() == start.len() + placed.len(),
    decreases placed.len(),
{
    if placed.len() > 0 {
        lemma_placing_appends(start, placed.drop_last());
        assert(start + placed == (start + placed.drop_last()).push(placed.last()));
    } else {
        assert(start + placed == start);
    }
}

/// After clearing, the polygon holds exactly the vertices placed since, in
/// order, and their number is how many were placed.
pub proof fn lemma_cleared_then_placed<S>(placed: Seq<Point<S>>)
    ensures
        after_placing(Seq::<Point<S>>::empty(), placed) == placed,
        after_placing(Seq::<Point<S>>::empty(), placed).len() == placed.len(),
{
    lemma_placing_appends(Seq::<Point<S>>::empty(), placed);
    assert(Seq::<Point<S>>::empty() + placed == placed);
}

} // verus!
