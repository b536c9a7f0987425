use vstd::prelude::*;

use crate::theme::Theme;

verus! {

/// Layout of the main container, after the theme's CSS variables.
pub const MAIN_LAYOUT: &'static str = " position: absolute; inset: 0; display: flex; flex-direction: column; background-color: var(--bg-primary); color: var(--text-primary);";

/// Navigation bar style up to its left padding.
pub const NAVBAR_HEAD: &'static str = "height: 60px; width: 100%; background-color: var(--bg-primary); border-bottom: 1px solid var(--border-color); display: flex; align-items: center; justify-content: space-between; -webkit-app-region: drag; padding-left: ";

/// Navigation bar style after its left padding.
pub const NAVBAR_TAIL: &'static str = "; padding-right: 16px;";

/// User menu style up to its background colour.
pub const DROPDOWN_HEAD: &'static str = "\n                position: absolute;\n                top: 40px;\n                right: 0;\n                background-color: ";

/// User menu style between its background and its border colour.
pub const DROPDOWN_MIDDLE: &'static str = ";\n                border: 1px solid ";

/// User menu style after its border colour.
pub const DROPDOWN_TAIL: &'static str = ";\n                border-radius: 8px;\n                min-width: 150px;\n                box-shadow: 0 4px 6px rgba(0,0,0,0.1);\n                z-index: 1000;\n                padding: 8px 0;\n            ";

/// Menu divider style up to its colour.
pub const DIVIDER_HEAD: &'static str = "\n                    height: 1px;\n                    background-color: ";

/// Menu divider style after its colour.
pub const DIVIDER_TAIL: &'static str = ";\n                    margin: 4px 0;\n                ";

/// The CSS class of the top-level container: lets the stylesheet adjust for macOS.
pub fn platform_class(is_macos: bool) -> (c: &'static str)
    ensures
        c@ == (if is_macos { "platform-macos"@ } else { ""@ }),
{
    if is_macos {
        "platform-macos"
    } else {
        ""
    }
}

/// Inline style of the top-level container: the theme's CSS variables, then the layout.
pub fn main_style(theme: Theme) -> (s: String)
    ensures
        s@ == theme.css_vars() + MAIN_LAYOUT@,
{
    let mut s = theme.to_css_vars().to_owned();
    s.append(MAIN_LAYOUT);
    s
}

/// Left padding of the navigation bar: on macOS it leaves room for the
/// window buttons drawn in the transparent titlebar.
pub fn navbar_left_padding(is_macos: bool) -> (p: &'static str)
    ensures
        p@ == (if is_macos { "110px"@ } else { "12px"@ }),
{
    if is_macos {
        "110px"
    } else {
        "12px"
    }
}

/// Inline style of the navigation bar with the given left padding.
pub fn navbar_style(left_pad: &str) -> (s: String)
    ensures
        s@ == NAVBAR_HEAD@ + left_pad@ + NAVBAR_TAIL@,
{
    let mut s = NAVBAR_HEAD.to_owned();
    s.append(left_pad);
    s.append(NAVBAR_TAIL);
    s
}

/// CSS classes of a 2D/3D mode button; the button of the current mode is marked active.
pub fn mode_button_class(active: bool) -> (c: &'static str)
    ensures
        c@ == (if active { "mode-button mode-button-active"@ } else { "mode-button"@ }),
{
    if active {
        "mode-button mode-button-active"
    } else {
        "mode-button"
    }
}

/// Inline style of the user menu, in the theme's surface and border colours.
pub fn dropdown_style(theme: Theme) -> (s: String)
    ensures
        s@ == DROPDOWN_HEAD@ + theme.bg_secondary_hex() + DROPDOWN_MIDDLE@ + theme.border_color_hex()
            + DROPDOWN_TAIL@,
{
    let mut s = DROPDOWN_HEAD.to_owned();
    s.append(theme.bg_secondary());
    s.append(DROPDOWN_MIDDLE);
    s.append(theme.border_color());
    s.append(DROPDOWN_TAIL);
    s
}

/// Inline style of the divider in the user menu, in the theme's border colour.
pub fn divider_style(theme: Theme) -> (s: String)
    ensures
        s@ == DIVIDER_HEAD@ + theme.border_color_hex() + DIVIDER_TAIL@,
{
    let mut s = DIVIDER_HEAD.to_owned();
    s.append(theme.border_color());
    s.append(DIVIDER_TAIL);
    s
}

} // verus!
