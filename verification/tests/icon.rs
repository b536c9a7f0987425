use doxle_core::icon::{icon_request, load_icon};

fn png_bytes(width: u32, height: u32) -> Vec<u8> {
    let img = image::RgbaImage::new(width, height);
    let mut buf = Vec::new();
    img.write_to(&mut std::io::Cursor::new(&mut buf), image::ImageFormat::Png).unwrap();
    buf
}

#[test]
fn decodable_png_becomes_icon() {
    assert!(load_icon(&png_bytes(2, 3)).is_some());
    assert!(load_icon(&png_bytes(32, 32)).is_some());
}

#[test]
fn undecodable_bytes_give_no_icon() {
    assert!(load_icon(&[]).is_none());
    assert!(load_icon(b"not an image at all").is_none());
    let mut truncated = png_bytes(4, 4);
    truncated.truncate(20);
    assert!(load_icon(&truncated).is_none());
}

#[test]
fn icon_request_keeps_pixels_and_dimensions() {
    let px = vec![1u8; 4 * 6];
    assert_eq!(icon_request(Some((px.clone(), 2, 3))), Some((px.clone(), 2, 3)));
    assert_eq!(icon_request(Some((px.clone(), 3, 2))), Some((px, 3, 2)));
    assert_eq!(icon_request(Some((vec![], 70000, 70000))), None);
    assert_eq!(icon_request(Some((vec![], 65536, 65535))), Some((vec![], 65536, 65535)));
    assert_eq!(icon_request(None), None);
}

#[test]
fn loaded_icon_hands_out_winit_icon() {
    let icon = load_icon(&png_bytes(3, 2)).map(|i| i.into_icon());
    assert!(icon.is_some());
}
