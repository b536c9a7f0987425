use vstd::prelude::*;

verus! {

/// CSS custom properties of the dark theme, in the order the stylesheet reads them.
pub const DARK_CSS_VARS: &'static str = r#"
                --bg-primary: #000000;
                --bg-secondary: #1a1a1a;
                --text-primary: #ffffff;
                --text-secondary: #a0a0a0;
                --accent-blue: #3b82f6;
                --accent-yellow: #fbbf24;
                --line-color: #ef4444;
                --preview-color: #fca5a5;
                --border-color: #333333;
            "#;

/// CSS custom properties of the light theme, in the order the stylesheet reads them.
pub const LIGHT_CSS_VARS: &'static str = r#"
                --bg-primary: #ffffff;
                --bg-secondary: #f5f5f5;
                --text-primary: #1a1a1a;
                --text-secondary: #666666;
                --accent-blue: #3b82f6;
                --accent-yellow: #fbbf24;
                --line-color: #ef4444;
                --preview-color: #fca5a5;
                --border-color: #e5e5e5;
            "#;

/// The colour theme of the user interface.
#[derive(Clone, Copy, Debug, PartialEq, Eq, Structural)]
pub enum Theme {
    /// Dark background, light text; the theme the editor starts with.
    Dark,
    /// Light background, dark text.
    Light,
}

impl Theme {
    /// The other theme.
    pub open spec fn toggled(self) -> Theme {
        match self {
            Theme::Dark => Theme::Light,
            Theme::Light => Theme::Dark,
        }
    }

    /// The block of CSS variable declarations of this theme.
    pub open spec fn css_vars(self) -> Seq<char> {
        match self {
            Theme::Dark => DARK_CSS_VARS@,
            Theme::Light => LIGHT_CSS_VARS@,
        }
    }

    /// Primary background colour.
    pub open spec fn bg_primary_hex(self) -> Seq<char> {
        match self {
            Theme::Dark => "#000000"@,
            Theme::Light => "#ffffff"@,
        }
    }

    /// Secondary background colour (cards, dropdowns).
    pub open spec fn bg_secondary_hex(self) -> Seq<char> {
        match self {
            Theme::Dark => "#1a1a1a"@,
            Theme::Light => "#f5f5f5"@,
        }
    }

    /// Primary text colour.
    pub open spec fn text_primary_hex(self) -> Seq<char> {
        match self {
            Theme::Dark => "#ffffff"@,
            Theme::Light => "#1a1a1a"@,
        }
    }

    /// Secondary text colour.
    pub open spec fn text_secondary_hex(self) -> Seq<char> {
        match self {
            Theme::Dark => "#a0a0a0"@,
            Theme::Light => "#666666"@,
        }
    }

    /// Border and divider colour.
    pub open spec fn border_color_hex(self) -> Seq<char> {
        match self {
            Theme::Dark => "#333333"@,
            Theme::Light => "#e5e5e5"@,
        }
    }

    /// Get CSS variables for this theme
    pub fn to_css_vars(&self) -> (css: &'static str)
        ensures
            css@ == self.css_vars(),
    {
        match self {
            Theme::Dark => DARK_CSS_VARS,
            Theme::Light => LIGHT_CSS_VARS,
        }
    }

    /// Toggle between dark and light themes
    pub fn toggle(&mut self)
        ensures
            *final(self) == old(self).toggled(),
    {
        *self = match self {
            Theme::Dark => Theme::Light,
            Theme::Light => Theme::Dark,
        };
    }

    /// Check if dark theme
    pub fn is_dark(&self) -> (b: bool)
        ensures
            b == (*self == Theme::Dark),
    {
        matches!(self, Theme::Dark)
    }

    /// Check if light theme
    pub fn is_light(&self) -> (b: bool)
        ensures
            b == (*self == Theme::Light),
    {
        matches!(self, Theme::Light)
    }

    /// Primary background colour, for inline styles.
    pub fn bg_primary(&self) -> (c: &'static str)
        ensures
            c@ == self.bg_primary_hex(),
    {
        match self {
            Theme::Dark => "#000000",
            Theme::Light => "#ffffff",
        }
    }

    /// Secondary background colour, for inline styles.
    pub fn bg_secondary(&self) -> (c: &'static str)
        ensures
            c@ == self.bg_secondary_hex(),
    {
        match self {
            Theme::Dark => "#1a1a1a",
            Theme::Light => "#f5f5f5",
        }
    }

    /// Primary text colour, for inline styles.
    pub fn text_primary(&self) -> (c: &'static str)
        ensures
            c@ == self.text_primary_hex(),
    {
        match self {
            Theme::Dark => "#ffffff",
            Theme::Light => "#1a1a1a",
        }
    }

    /// Secondary text colour, for inline styles.
    pub fn text_secondary(&self) -> (c: &'static str)
        ensures
            c@ == self.text_secondary_hex(),
    {
        match self {
            Theme::Dark => "#a0a0a0",
            Theme::Light => "#666666",
        }
    }

    /// Blue accent (active buttons); the same in both themes.
    pub fn accent_blue(&self) -> (c: &'static str)
        ensures
            c@ == "#3b82f6"@,
    {
        "#3b82f6"
    }

    /// Yellow accent (user avatar); the same in both themes.
    pub fn accent_yellow(&self) -> (c: &'static str)
        ensures
            c@ == "#fbbf24"@,
    {
        "#fbbf24"
    }

    /// Border and divider colour, for inline styles.
    pub fn border_color(&self) -> (c: &'static str)
        ensures
            c@ == self.border_color_hex(),
    {
        match self {
            Theme::Dark => "#333333",
            Theme::Light => "#e5e5e5",
        }
    }
}

impl Default for Theme {
    /// The editor starts in the dark theme.
    fn default() -> (t: Theme)
        ensures
            t == Theme::Dark,
    {
        Theme::Dark
    }
}

/// Toggling the theme twice gives back the theme one started with.
pub proof fn lemma_theme_toggle_involutive(t: Theme)
    ensures
        t.toggled().toggled() == t,
{
}

/// Every theme is exactly one of dark and light, and toggling swaps which.
pub proof fn lemma_theme_exclusive(t: Theme)
    ensures
        (t == Theme::Dark) != (t == Theme::Light),
        (t.toggled() == Theme::Dark) == (t == Theme::Light),
{
}


/// The CSS declaration `--name: value;`.
pub open spec fn css_declaration(name: Seq<char>, value: Seq<char>) -> Seq<char> {
    "--"@ + name + ": "@ + value + ";"@
}

/// Whether `text` holds `part` as a contiguous run of characters.
pub open spec fn holds_text(text: Seq<char>, part: Seq<char>) -> bool {
    exists|i: int, j: int| 0 <= i <= j <= text.len() && #[trigger] text.subrange(i, j) == part
}

/// The CSS variables of a theme declare every colour with the value that the
/// matching direct getter returns, so inline styles and the stylesheet agree.
pub proof fn lemma_css_vars_agree_with_getters(t: Theme)
    ensures
        holds_text(t.css_vars(), css_declaration("bg-primary"@, t.bg_primary_hex())),
        holds_text(t.css_vars(), css_declaration("bg-secondary"@, t.bg_secondary_hex())),
        holds_text(t.css_vars(), css_declaration("text-primary"@, t.text_primary_hex())),
        holds_text(t.css_vars(), css_declaration("text-secondary"@, t.text_secondary_hex())),
        holds_text(t.css_vars(), css_declaration("accent-blue"@, "#3b82f6"@)),
        holds_text(t.css_vars(), css_declaration("accent-yellow"@, "#fbbf24"@)),
        holds_text(t.css_vars(), css_declaration("border-color"@, t.border_color_hex())),
{
    reveal_strlit("#000000");
    reveal_strlit("#1a1a1a");
    reveal_strlit("#333333");
    reveal_strlit("#3b82f6");
    reveal_strlit("#666666");
    reveal_strlit("#a0a0a0");
    reveal_strlit("#e5e5e5");
    reveal_strlit("#f5f5f5");
    reveal_strlit("#fbbf24");
    reveal_strlit("#ffffff");
    reveal_strlit("--");
    reveal_strlit(": ");
    reveal_strlit(";");
    reveal_strlit("accent-blue");
    reveal_strlit("accent-yellow");
    reveal_strlit("bg-primary");
    reveal_strlit("bg-secondary");
    reveal_strlit("border-color");
    reveal_strlit("text-primary");
    reveal_strlit("text-secondary");
    match t {
        Theme::Dark => {
            reveal_strlit(r#"
                --bg-primary: #000000;
                --bg-secondary: #1a1a1a;
                --text-primary: #ffffff;
                --text-secondary: #a0a0a0;
                --accent-blue: #3b82f6;
                --accent-yellow: #fbbf24;
                --line-color: #ef4444;
                --preview-color: #fca5a5;
                --border-color: #333333;
            "#);
            assert(t.css_vars().subrange(17, 39) =~= css_declaration("bg-primary"@, t.bg_primary_hex()));
            assert(t.css_vars().subrange(56, 80) =~= css_declaration("bg-secondary"@, t.bg_secondary_hex()));
            assert(t.css_vars().subrange(97, 121) =~= css_declaration("text-primary"@, t.text_primary_hex()));
            assert(t.css_vars().subrange(138, 164) =~= css_declaration("text-secondary"@, t.text_secondary_hex()));
            assert(t.css_vars().subrange(181, 204) =~= css_declaration("accent-blue"@, "#3b82f6"@));
            assert(t.css_vars().subrange(221, 246) =~= css_declaration("accent-yellow"@, "#fbbf24"@));
            assert(t.css_vars().subrange(344, 368) =~= css_declaration("border-color"@, t.border_color_hex()));
        },
        Theme::Light => {
            reveal_strlit(r#"
                --bg-primary: #ffffff;
                --bg-secondary: #f5f5f5;
                --text-primary: #1a1a1a;
                --text-secondary: #666666;
                --accent-blue: #3b82f6;
                --accent-yellow: #fbbf24;
                --line-color: #ef4444;
                --preview-color: #fca5a5;
                --border-color: #e5e5e5;
            "#);
            assert(t.css_vars().subrange(17, 39) =~= css_declaration("bg-primary"@, t.bg_primary_hex()));
            assert(t.css_vars().subrange(56, 80) =~= css_declaration("bg-secondary"@, t.bg_secondary_hex()));
            assert(t.css_vars().subrange(97, 121) =~= css_declaration("text-primary"@, t.text_primary_hex()));
            assert(t.css_vars().subrange(138, 164) =~= css_declaration("text-secondary"@, t.text_secondary_hex()));
            assert(t.css_vars().subrange(181, 204) =~= css_declaration("accent-blue"@, "#3b82f6"@));
            assert(t.css_vars().subrange(221, 246) =~= css_declaration("accent-yellow"@, "#fbbf24"@));
            assert(t.css_vars().subrange(344, 368) =~= css_declaration("border-color"@, t.border_color_hex()));
        },
    }
}

/// Toggling the theme changes every theme-dependent colour, so a theme
/// switch updates the whole interface; the accent colours need no change.
pub proof fn lemma_toggle_changes_colours(t: Theme)
    ensures
        t.bg_primary_hex() != t.toggled().bg_primary_hex(),
        t.bg_secondary_hex() != t.toggled().bg_secondary_hex(),
        t.text_primary_hex() != t.toggled().text_primary_hex(),
        t.text_secondary_hex() != t.toggled().text_secondary_hex(),
        t.border_color_hex() != t.toggled().border_color_hex(),
{
    reveal_strlit("#000000");
    reveal_strlit("#ffffff");
    reveal_strlit("#1a1a1a");
    reveal_strlit("#f5f5f5");
    reveal_strlit("#a0a0a0");
    reveal_strlit("#666666");
    reveal_strlit("#333333");
    reveal_strlit("#e5e5e5");
    assert("#000000"@[1] != "#ffffff"@[1]);
    assert("#1a1a1a"@[1] != "#f5f5f5"@[1]);
    assert("#ffffff"@[1] != "#1a1a1a"@[1]);
    assert("#a0a0a0"@[1] != "#666666"@[1]);
    assert("#333333"@[1] != "#e5e5e5"@[1]);
}

} // verus!
