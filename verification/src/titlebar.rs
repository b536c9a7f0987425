use vstd::prelude::*;

verus! {

/// `NSWindowTitleHidden`: the window title text is not drawn.
pub const TITLE_HIDDEN: u64 = 1;

/// `NSWindowStyleMaskFullSizeContentView`: the content extends under the titlebar.
pub const FULL_SIZE_CONTENT_VIEW_MASK: u64 = 0x8000;

/// Delays, in milliseconds, of the attempts to set up the unified titlebar;
/// later attempts catch windows that were not yet key at startup.
pub fn setup_attempt_delays_ms() -> (delays: [u64; 4])
    ensures
        delays@ == seq![0u64, 50u64, 150u64, 300u64],
{
    [0, 50, 150, 300]
}

/// Which window of the application gets the unified titlebar.
#[derive(Clone, Copy, Debug, PartialEq, Eq, Structural)]
pub enum TitlebarWindow {
    /// The key window, which receives keyboard input.
    Key,
    /// The main window, used when there is no key window.
    Main,
}

/// Picks the window to restyle: the key window if there is one, else the
/// main window; none when the application object or both windows are missing.
pub fn titlebar_target(app_present: bool, key_window_present: bool, main_window_present: bool) -> (w:
    Option<TitlebarWindow>)
    ensures
        w == (if !app_present {
            None
        } else if key_window_present {
            Some(TitlebarWindow::Key)
        } else if main_window_present {
            Some(TitlebarWindow::Main)
        } else {
            None
        }),
{
    if !app_present {
        None
    } else if key_window_present {
        Some(TitlebarWindow::Key)
    } else if main_window_present {
        Some(TitlebarWindow::Main)
    } else {
        None
    }
}

/// The window style mask with the full-size content view switched on.
pub fn unified_style_mask(style_mask: u64) -> (mask: u64)
    ensures
        mask == style_mask | FULL_SIZE_CONTENT_VIEW_MASK,
{
    style_mask | FULL_SIZE_CONTENT_VIEW_MASK
}

/// Switching on the full-size content view sets that one flag and keeps every
/// other flag of the style mask; doing it again changes nothing.
pub proof fn lemma_unified_style_mask(style_mask: u64)
    ensures
        (style_mask | FULL_SIZE_CONTENT_VIEW_MASK) & FULL_SIZE_CONTENT_VIEW_MASK == FULL_SIZE_CONTENT_VIEW_MASK,
        (style_mask | FULL_SIZE_CONTENT_VIEW_MASK) & !FULL_SIZE_CONTENT_VIEW_MASK == style_mask
            & !FULL_SIZE_CONTENT_VIEW_MASK,
        ((style_mask | FULL_SIZE_CONTENT_VIEW_MASK) | FULL_SIZE_CONTENT_VIEW_MASK) == (style_mask
            | FULL_SIZE_CONTENT_VIEW_MASK),
{
    assert((style_mask | 0x8000u64) & 0x8000u64 == 0x8000u64) by (bit_vector);
    assert((style_mask | 0x8000u64) & !0x8000u64 == style_mask & !0x8000u64) by (bit_vector);
    assert(((style_mask | 0x8000u64) | 0x8000u64) == (style_mask | 0x8000u64)) by (bit_vector);
}

} // verus!
