use vstd::prelude::*;

verus! {

/// A point of the floor plan, in metres. The coordinate type `S` is the
/// scalar the editor computes with (the application uses `f32`).
#[derive(Clone, Copy, Debug, Default, PartialEq)]
pub struct Point<S> {
    /// Horizontal position (left/right).
    pub x: S,
    /// Depth (forward/back).
    pub y: S,
    /// Height (up/down); 0 on the floor plan.
    pub z: S,
}

impl<S> Point<S> {
    /// The point with the given coordinates.
    pub fn new(x: S, y: S, z: S) -> (p: Self)
        ensures
            p == (Point { x, y, z }),
    {
        Point { x, y, z }
    }

    /// This point with its horizontal coordinate replaced.
    pub fn with_x(self, x: S) -> (p: Self)
        ensures
            p == (Point { x, y: self.y, z: self.z }),
    {
        Point { x: x, y: self.y, z: self.z }
    }

    /// This point with its depth coordinate replaced.
    pub fn with_y(self, y: S) -> (p: Self)
        ensures
            p == (Point { x: self.x, y, z: self.z }),
    {
        Point { x: self.x, y: y, z: self.z }
    }

    /// This point with its height coordinate replaced.
    pub fn with_z(self, z: S) -> (p: Self)
        ensures
            p == (Point { x: self.x, y: self.y, z }),
    {
        Point { x: self.x, y: self.y, z: z }
    }
}

} // verus!
