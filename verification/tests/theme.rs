use doxle_core::theme::{Theme, DARK_CSS_VARS, LIGHT_CSS_VARS};

#[test]
fn dark_theme_colours() {
    let t = Theme::Dark;
    assert_eq!(t.bg_primary(), "#000000");
    assert_eq!(t.bg_secondary(), "#1a1a1a");
    assert_eq!(t.text_primary(), "#ffffff");
    assert_eq!(t.text_secondary(), "#a0a0a0");
    assert_eq!(t.accent_blue(), "#3b82f6");
    assert_eq!(t.accent_yellow(), "#fbbf24");
    assert_eq!(t.border_color(), "#333333");
}

#[test]
fn light_theme_colours() {
    let t = Theme::Light;
    assert_eq!(t.bg_primary(), "#ffffff");
    assert_eq!(t.bg_secondary(), "#f5f5f5");
    assert_eq!(t.text_primary(), "#1a1a1a");
    assert_eq!(t.text_secondary(), "#666666");
    assert_eq!(t.accent_blue(), "#3b82f6");
    assert_eq!(t.accent_yellow(), "#fbbf24");
    assert_eq!(t.border_color(), "#e5e5e5");
}

#[test]
fn css_vars_per_theme() {
    assert_eq!(Theme::Dark.to_css_vars(), DARK_CSS_VARS);
    assert_eq!(Theme::Light.to_css_vars(), LIGHT_CSS_VARS);
    assert!(DARK_CSS_VARS.contains("--line-color: #ef4444;"));
    assert!(DARK_CSS_VARS.contains("--preview-color: #fca5a5;"));
    assert!(LIGHT_CSS_VARS.contains("--line-color: #ef4444;"));
}

#[test]
fn css_vars_agree_with_getters() {
    for t in [Theme::Dark, Theme::Light] {
        let css = t.to_css_vars();
        assert!(css.contains(&format!("--bg-primary: {};", t.bg_primary())));
        assert!(css.contains(&format!("--bg-secondary: {};", t.bg_secondary())));
        assert!(css.contains(&format!("--text-primary: {};", t.text_primary())));
        assert!(css.contains(&format!("--text-secondary: {};", t.text_secondary())));
        assert!(css.contains(&format!("--accent-blue: {};", t.accent_blue())));
        assert!(css.contains(&format!("--accent-yellow: {};", t.accent_yellow())));
        assert!(css.contains(&format!("--border-color: {};", t.border_color())));
    }
}

#[test]
fn theme_toggle_round_trip() {
    let mut t = Theme::Dark;
    t.toggle();
    assert_eq!(t, Theme::Light);
    assert!(t.is_light());
    assert!(!t.is_dark());
    t.toggle();
    assert_eq!(t, Theme::Dark);
    assert!(t.is_dark());
    assert!(!t.is_light());
}

#[test]
fn theme_toggle_changes_colours() {
    let mut t = Theme::Light;
    let before = (t.bg_primary(), t.bg_secondary(), t.text_primary(), t.text_secondary(), t.border_color());
    t.toggle();
    assert_ne!(before.0, t.bg_primary());
    assert_ne!(before.1, t.bg_secondary());
    assert_ne!(before.2, t.text_primary());
    assert_ne!(before.3, t.text_secondary());
    assert_ne!(before.4, t.border_color());
}

#[test]
fn theme_default_is_dark() {
    assert_eq!(Theme::default(), Theme::Dark);
}
