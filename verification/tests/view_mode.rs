use doxle_core::view_mode::ViewMode;

#[test]
fn view_mode_toggle_round_trip() {
    let mut m = ViewMode::TwoD;
    assert!(m.is_2d());
    assert!(!m.is_3d());
    m.toggle();
    assert_eq!(m, ViewMode::ThreeD);
    assert!(m.is_3d());
    assert!(!m.is_2d());
    m.toggle();
    assert_eq!(m, ViewMode::TwoD);
}

#[test]
fn view_mode_default_is_2d() {
    assert_eq!(ViewMode::default(), ViewMode::TwoD);
}
