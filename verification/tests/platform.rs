use doxle_core::titlebar::{
    setup_attempt_delays_ms, titlebar_target, unified_style_mask, TitlebarWindow, FULL_SIZE_CONTENT_VIEW_MASK,
    TITLE_HIDDEN,
};
use doxle_core::window::{main_window_spec, MAX_STORAGE_BUFFERS_PER_SHADER_STAGE};

#[test]
fn titlebar_attempt_schedule() {
    assert_eq!(setup_attempt_delays_ms(), [0, 50, 150, 300]);
}

#[test]
fn titlebar_window_choice() {
    assert_eq!(titlebar_target(false, true, true), None);
    assert_eq!(titlebar_target(true, true, true), Some(TitlebarWindow::Key));
    assert_eq!(titlebar_target(true, true, false), Some(TitlebarWindow::Key));
    assert_eq!(titlebar_target(true, false, true), Some(TitlebarWindow::Main));
    assert_eq!(titlebar_target(true, false, false), None);
}

#[test]
fn style_mask_gains_full_size_content_view() {
    assert_eq!(FULL_SIZE_CONTENT_VIEW_MASK, 1 << 15);
    assert_eq!(TITLE_HIDDEN, 1);
    assert_eq!(unified_style_mask(0b1111), 0b1111 | (1 << 15));
    assert_eq!(unified_style_mask(1 << 15), 1 << 15);
    let m = unified_style_mask(0x0F);
    assert_eq!(unified_style_mask(m), m);
}

#[test]
fn main_window_configuration() {
    let w = main_window_spec(false);
    assert_eq!(w.title, "Doxle");
    assert!(w.decorations);
    assert_eq!((w.inner_width, w.inner_height), (1280, 800));
    assert_eq!((w.min_inner_width, w.min_inner_height), (1280, 800));
    assert!(!w.unified_titlebar);
    assert!(main_window_spec(true).unified_titlebar);
    assert_eq!(MAX_STORAGE_BUFFERS_PER_SHADER_STAGE, 12);
}
