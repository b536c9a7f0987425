use vstd::prelude::*;

verus! {

/// Storage buffers per shader stage that the GPU device is asked for; the
/// rest of the device limits stay at their defaults.
pub const MAX_STORAGE_BUFFERS_PER_SHADER_STAGE: u32 = 12;

/// The main window as the editor asks for it.
#[derive(Clone, Debug)]
pub struct WindowSpec {
    pub title: String,
    /// Whether the native title bar and borders are drawn.
    pub decorations: bool,
    /// Initial content size, in logical pixels.
    pub inner_width: u32,
    pub inner_height: u32,
    /// Smallest content size the window can be resized to, in logical pixels.
    pub min_inner_width: u32,
    pub min_inner_height: u32,
    /// On macOS: transparent titlebar, content under it, no title text, and
    /// dragging the window by its background.
    pub unified_titlebar: bool,
}

/// The main window: "Doxle", decorated, 1280 x 800 logical pixels and never
/// smaller; on macOS with the unified titlebar.
pub fn main_window_spec(is_macos: bool) -> (w: WindowSpec)
    ensures
        w.title@ == "Doxle"@,
        w.decorations,
        w.inner_width == 1280,
        w.inner_height == 800,
        w.min_inner_width == 1280,
        w.min_inner_height == 800,
        w.unified_titlebar == is_macos,
{
    WindowSpec {
        title: "Doxle".to_owned(),
        decorations: true,
        inner_width: 1280,
        inner_height: 800,
        min_inner_width: 1280,
        min_inner_height: 800,
        unified_titlebar: is_macos,
    }
}

} // verus!
