use doxle_core::texture::{frame_has_area, TexturePlan, TextureTarget};

#[test]
fn zero_sized_frames_are_skipped() {
    assert!(!frame_has_area(0, 600));
    assert!(!frame_has_area(800, 0));
    assert!(!frame_has_area(0, 0));
    assert!(frame_has_area(800, 600));
}

#[test]
fn first_frame_rebuilds() {
    let t: TextureTarget<u32, u8> = TextureTarget::new();
    assert_eq!(t.last_texture_size, (0, 0));
    assert_eq!(t.current_texture(), None);
    assert_eq!(t.plan(800, 600, true, true), TexturePlan::Rebuild);
    assert_eq!(t.plan(0, 0, true, true), TexturePlan::Rebuild);
    assert_eq!(t.plan(800, 600, false, true), TexturePlan::NoCamera);
    assert_eq!(t.plan(800, 600, true, false), TexturePlan::NoTextureViews);
}

#[test]
fn texture_reused_until_resize() {
    let mut t: TextureTarget<u32, u8> = TextureTarget::new();
    let (old_texture, old_view) = t.take_stale();
    assert_eq!((old_texture, old_view), (None, None));
    t.attach(800, 600, 11, 0);
    assert_eq!(t.current_texture(), Some(11));
    assert_eq!(t.plan(800, 600, true, true), TexturePlan::Reuse);
    assert_eq!(t.plan(800, 600, false, false), TexturePlan::Reuse);
    assert_eq!(t.plan(1024, 600, true, true), TexturePlan::Rebuild);
    let stale = t.take_stale();
    assert_eq!(stale, (Some(11), Some(0)));
    assert_eq!(t.current_texture(), None);
    assert_eq!(t.last_texture_size, (800, 600));
    assert_eq!(t.plan(800, 600, true, true), TexturePlan::Rebuild);
    t.attach(1024, 600, 12, 0);
    assert_eq!(t.plan(1024, 600, true, true), TexturePlan::Reuse);
}
