use vstd::prelude::*;

verus! {

/// How the drawing canvas is shown.
#[derive(Clone, Copy, Debug, PartialEq, Eq, Structural)]
pub enum ViewMode {
    /// Floor plan view: orthographic, looking straight down.
    TwoD,
    /// Wall view: perspective, angled from above.
    ThreeD,
}

impl ViewMode {
    /// The other view mode.
    pub open spec fn toggled(self) -> ViewMode {
        match self {
            ViewMode::TwoD => ViewMode::ThreeD,
            ViewMode::ThreeD => ViewMode::TwoD,
        }
    }

    /// Switches between the 2D and the 3D mode.
    pub fn toggle(&mut self)
        ensures
            *final(self) == old(self).toggled(),
    {
        *self = match self {
            ViewMode::TwoD => ViewMode::ThreeD,
            ViewMode::ThreeD => ViewMode::TwoD,
        };
    }

    /// Whether this is the 2D floor plan mode.
    pub fn is_2d(&self) -> (b: bool)
        ensures
            b == (*self == ViewMode::TwoD),
    {
        matches!(self, ViewMode::TwoD)
    }

    /// Whether this is the 3D wall mode.
    pub fn is_3d(&self) -> (b: bool)
        ensures
            b == (*self == ViewMode::ThreeD),
    {
        matches!(self, ViewMode::ThreeD)
    }
}

impl Default for ViewMode {
    /// The editor starts in the 2D floor plan mode.
    fn default() -> (m: ViewMode)
        ensures
            m == ViewMode::TwoD,
    {
        ViewMode::TwoD
    }
}

/// Toggling twice gives back the mode one started with.
pub proof fn lemma_view_mode_toggle_involutive(m: ViewMode)
    ensures
        m.toggled().toggled() == m,
{
}

/// Every view mode is exactly one of 2D and 3D, and toggling swaps which.
pub proof fn lemma_view_mode_exclusive(m: ViewMode)
    ensures
        (m == ViewMode::TwoD) != (m == ViewMode::ThreeD),
        (m.toggled() == ViewMode::TwoD) == (m == ViewMode::ThreeD),
{
}

} // verus!
