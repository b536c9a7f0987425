use vstd::prelude::*;

use crate::point::Point;
use crate::polygon::Polygon;

verus! {

/// The editor's drawing state: the polygon being drawn.
#[derive(Clone, Debug)]
pub struct AppState<S> {
    pub polygon: Polygon<S>,
}

impl<S> AppState<S> {
    /// A fresh state with an empty polygon.
    pub fn new() -> (s: Self)
        ensures
            s.polygon@ == Seq::<Point<S>>::empty(),
    {
        Self { polygon: Polygon::new() }
    }

    /// A click on the canvas places a vertex at `position`.
    pub fn handle_click(&mut self, position: Point<S>)
        ensures
            final(self).polygon@ == old(self).polygon@.push(position),
    {
        self.polygon.add_point(position);
    }

    /// Removes every vertex of the polygon.
    pub fn clear_polygon(&mut self)
        ensures
            final(self).polygon@ == Seq::<Point<S>>::empty(),
    {
        self.polygon.clear_points()
    }
}

impl<S> Default for AppState<S> {
    /// The default state has an empty polygon.
    fn default() -> (s: Self)
        ensures
            s.polygon@ == Seq::<Point<S>>::empty(),
    {
        AppState::new()
    }
}

} // verus!
