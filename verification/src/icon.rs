use vstd::prelude::*;

use winit::window::Icon;

verus! {

#[verifier::external_type_specification]
#[verifier::external_body]
pub struct ExIcon(Icon);

/// The 8-bit RGBA pixels, width and height that the `image` crate decodes
/// from an encoded image (PNG here), or none when it cannot decode it.
pub uninterp spec fn decoded_rgba8(bytes: Seq<u8>) -> Option<(Seq<u8>, u32, u32)>;

/// Decodes an image with `image::load_from_memory` (format guessed from the
/// bytes) and converts it to 8-bit RGBA with `to_rgba8`; hands out the raw
/// pixel bytes with the width and height. The result is what the decoder
/// makes of the bytes, and is named, not stated: nothing here says what a
/// given file decodes to.
#[verifier::external_body]
fn decode_rgba8(bytes: &[u8]) -> (r: Option<(Vec<u8>, u32, u32)>)
    ensures
        match r {
            Some((rgba, width, height)) => decoded_rgba8(bytes@) == Some((rgba@, width, height)),
            None => decoded_rgba8(bytes@) is None,
        },
{
    let rgba = image::load_from_memory(bytes).ok()?.to_rgba8();
    let (width, height) = rgba.dimensions();
    Some((rgba.into_raw(), width, height))
}

/// Whether `winit::window::Icon::from_rgba` accepts pixel data of this length
/// for these dimensions: whole 4-byte pixels, `width * height` of them.
pub open spec fn icon_data_fits(len: nat, width: u32, height: u32) -> bool {
    len % 4 == 0 && len / 4 == width * height
}

/// A window icon together with the pixels and dimensions it was made from.
pub struct WindowIcon {
    icon: Icon,
    pixels: Ghost<Seq<u8>>,
    width: Ghost<u32>,
    height: Ghost<u32>,
}

impl WindowIcon {
    /// The RGBA pixel bytes the icon was made from.
    pub closed spec fn pixels(self) -> Seq<u8> {
        self.pixels@
    }

    /// The width, in pixels, the icon was made with.
    pub closed spec fn width(self) -> u32 {
        self.width@
    }

    /// The height, in pixels, the icon was made with.
    pub closed spec fn height(self) -> u32 {
        self.height@
    }

    /// The icon, to hand to the window.
    pub fn into_icon(self) -> Icon {
        self.icon
    }
}

/// `winit::window::Icon::from_rgba`, the made icon kept with the pixels,
/// width and height it was given (winit's `RgbaIcon` stores those three).
/// Its source refuses pixel data that is not whole 4-byte pixels or whose
/// pixel count is not `width * height`; on Linux and macOS it accepts every
/// other input, on Windows the system may still refuse it, so acceptance is
/// not stated. `width * height` is computed in `u32` there, hence the bound.
#[verifier::external_body]
fn icon_from_rgba(rgba: Vec<u8>, width: u32, height: u32) -> (icon: Option<WindowIcon>)
    requires
        width * height <= u32::MAX,
    ensures
        !icon_data_fits(rgba@.len(), width, height) ==> icon is None,
        icon matches Some(i) ==> icon_data_fits(rgba@.len(), width, height) && i.pixels() == rgba@
            && i.width() == width && i.height() == height,
{
    let (pixels, w, h) = (Ghost(rgba@), Ghost(width), Ghost(height));
    let icon = Icon::from_rgba(rgba, width, height).ok()?;
    Some(WindowIcon { icon, pixels, width: w, height: h })
}

/// What a decoded image asks of the windowing library: its pixels, width and
/// height, unchanged, as long as its pixel count fits in 32 bits; nothing
/// otherwise (the windowing library counts pixels in `u32`).
pub fn icon_request(decoded: Option<(Vec<u8>, u32, u32)>) -> (request: Option<(Vec<u8>, u32, u32)>)
    ensures
        request == (if decoded matches Some((_, width, height)) && width * height <= u32::MAX {
            decoded
        } else {
            None
        }),
{
    match decoded {
        Some((rgba, width, height)) => {
            assert((width as u64) * (height as u64) <= u64::MAX) by (nonlinear_arith)
                requires
                    width <= u32::MAX,
                    height <= u32::MAX,
            ;
            if (width as u64) * (height as u64) <= u32::MAX as u64 {
                Some((rgba, width, height))
            } else {
                None
            }
        },
        None => None,
    }
}

/// The window icon made from an encoded image: decoded to RGBA, then handed
/// to the windowing library with its own pixels, width and height. None when
/// the image cannot be decoded, when its pixel count does not fit in 32 bits,
/// or when the icon is refused.
pub fn load_icon(bytes: &[u8]) -> (icon: Option<WindowIcon>)
    ensures
        decoded_rgba8(bytes@) is None ==> icon is None,
        decoded_rgba8(bytes@) matches Some((rgba, width, height)) && width * height > u32::MAX ==> icon is None,
        decoded_rgba8(bytes@) matches Some((rgba, width, height)) && !icon_data_fits(rgba.len(), width, height)
            ==> icon is None,
        icon matches Some(i) ==> decoded_rgba8(bytes@) == Some((i.pixels(), i.width(), i.height()))
            && i.width() * i.height() <= u32::MAX && icon_data_fits(i.pixels().len(), i.width(), i.height()),
{
    match icon_request(decode_rgba8(bytes)) {
        Some((rgba, width, height)) => icon_from_rgba(rgba, width, height),
        None => None,
    }
}

} // verus!
