use doxle_core::style::{
    divider_style, dropdown_style, main_style, mode_button_class, navbar_left_padding, navbar_style,
    platform_class,
};
use doxle_core::theme::Theme;

#[test]
fn platform_dependent_classes() {
    assert_eq!(platform_class(true), "platform-macos");
    assert_eq!(platform_class(false), "");
    assert_eq!(navbar_left_padding(true), "110px");
    assert_eq!(navbar_left_padding(false), "12px");
}

#[test]
fn mode_button_classes() {
    assert_eq!(mode_button_class(true), "mode-button mode-button-active");
    assert_eq!(mode_button_class(false), "mode-button");
}

#[test]
fn main_style_starts_with_css_vars() {
    let dark = main_style(Theme::Dark);
    assert_eq!(
        dark,
        format!(
            "{} position: absolute; inset: 0; display: flex; flex-direction: column; background-color: var(--bg-primary); color: var(--text-primary);",
            Theme::Dark.to_css_vars()
        )
    );
    assert_ne!(dark, main_style(Theme::Light));
}

#[test]
fn navbar_style_exact() {
    assert_eq!(
        navbar_style("12px"),
        "height: 60px; width: 100%; background-color: var(--bg-primary); border-bottom: 1px solid var(--border-color); display: flex; align-items: center; justify-content: space-between; -webkit-app-region: drag; padding-left: 12px; padding-right: 16px;"
    );
}

#[test]
fn dropdown_styles_follow_theme() {
    let expected = format!(
        "
                position: absolute;
                top: 40px;
                right: 0;
                background-color: {};
                border: 1px solid {};
                border-radius: 8px;
                min-width: 150px;
                box-shadow: 0 4px 6px rgba(0,0,0,0.1);
                z-index: 1000;
                padding: 8px 0;
            ",
        "#1a1a1a", "#333333"
    );
    assert_eq!(dropdown_style(Theme::Dark), expected);
    assert!(dropdown_style(Theme::Light).contains("background-color: #f5f5f5;"));
    assert!(dropdown_style(Theme::Light).contains("border: 1px solid #e5e5e5;"));
    let divider = format!(
        "
                    height: 1px;
                    background-color: {};
                    margin: 4px 0;
                ",
        "#e5e5e5"
    );
    assert_eq!(divider_style(Theme::Light), divider);
}
