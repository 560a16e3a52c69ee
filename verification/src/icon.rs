use vstd::prelude::*;

verus! {

#[verifier::external_type_specification]
#[verifier::external_body]
pub struct ExImageError(image::ImageError);

/// Decodes an image held in memory into 8-bit RGBA pixels.
///
/// Calls `image::load_from_memory`, converts the result with
/// `DynamicImage::to_rgba8` and takes the buffer's dimensions and raw bytes.
/// Nothing is claimed of the outcome: the crate first consults the format
/// detection and decoding hooks that any code in the process may register,
/// so the same bytes need not decode alike in every process.
#[verifier::external_body]
fn decode_rgba8(bytes: &[u8]) -> (r: Result<(Vec<u8>, u32, u32), image::ImageError>) {
    match image::load_from_memory(bytes) {
        Ok(img) => {
            let rgba = img.to_rgba8();
            let (w, h) = rgba.dimensions();
            Ok((rgba.into_raw(), w, h))
        },
        Err(e) => Err(e),
    }
}

#[verifier::external_type_specification]
#[verifier::external_body]
pub struct ExIcon(winit::window::Icon);

#[verifier::external_type_specification]
#[verifier::external_body]
pub struct ExBadIcon(winit::window::BadIcon);

/// Whether `len` bytes are exactly `width * height` RGBA pixels.
pub open spec fn is_icon_size(len: nat, width: u32, height: u32) -> bool {
    len % 4 == 0 && len / 4 == width * height
}

/// Makes a window icon from RGBA pixels.
///
/// Calls `winit::window::Icon::from_rgba`; an error comes back with whether
/// it is winit's `BadIcon::OsError`. The contract claims what winit's source
/// shows on every platform: pixels whose byte count is not four times
/// `width * height` are refused by its size check, with one of its size
/// errors, and only pixels that pass that check reach the system and can
/// get an `OsError`. Success is left unsaid: where the platform builds a
/// system icon (Windows) that step may fail. The `requires` keeps
/// `width * height` within `u32`, where winit computes it.
#[verifier::external_body]
fn icon_from_rgba(rgba: Vec<u8>, width: u32, height: u32) -> (r: Result<
    winit::window::Icon,
    (bool, winit::window::BadIcon),
>)
    requires
        width * height <= u32::MAX,
    ensures
        !is_icon_size(rgba@.len(), width, height) ==> r is Err,
        r matches Err((by_os, _)) ==> by_os == is_icon_size(rgba@.len(), width, height),
{
    match winit::window::Icon::from_rgba(rgba, width, height) {
        Ok(icon) => Ok(icon),
        Err(e @ winit::window::BadIcon::OsError(_)) => Err((true, e)),
        Err(e) => Err((false, e)),
    }
}

/// Why an icon could not be made.
#[derive(Debug)]
pub enum IconError {
    /// The bytes are not an image this build can decode.
    Decode(image::ImageError),
    /// `width * height` pixels do not fit 32 bits.
    TooLarge { width: u32, height: u32 },
    /// The pixels were refused: by the size check when `by_os` is false,
    /// by the operating system when it is true.
    Rejected { by_os: bool, error: winit::window::BadIcon },
}

/// A window icon from RGBA pixels, handed unchanged to the window system.
/// Dimensions whose pixel count overflows 32 bits are refused before the
/// window system is asked; pixels whose byte count does not match the
/// dimensions are refused by its size check; pixels that match can only be
/// refused by the operating system.
pub fn icon_from_pixels(rgba: Vec<u8>, width: u32, height: u32) -> (r: Result<winit::window::Icon, IconError>)
    ensures
        (r matches Err(IconError::TooLarge { .. })) <==> width * height > u32::MAX,
        r matches Err(IconError::TooLarge { width: w, height: h }) ==> w == width && h == height,
        width * height <= u32::MAX && !is_icon_size(rgba@.len(), width, height) ==> (r matches Err(
            IconError::Rejected { by_os: false, .. },
        )),
        r matches Err(IconError::Rejected { by_os, .. }) ==> by_os == is_icon_size(
            rgba@.len(),
            width,
            height,
        ),
        r is Ok ==> is_icon_size(rgba@.len(), width, height),
{
    assert((width as int) * (height as int) <= u64::MAX) by (nonlinear_arith)
        requires
            width <= u32::MAX,
            height <= u32::MAX,
    ;
    let pixels: u64 = (width as u64) * (height as u64);
    if pixels > u32::MAX as u64 {
        return Err(IconError::TooLarge { width, height });
    }
    match icon_from_rgba(rgba, width, height) {
        Ok(icon) => Ok(icon),
        Err((by_os, error)) => Err(IconError::Rejected { by_os, error }),
    }
}

/// Decodes the window icon from the bytes of an image file and makes the
/// icon with `icon_from_pixels`. Whatever the decoder gives back, a size
/// refused as too large is one whose pixel count overflows 32 bits.
pub fn load_icon(bytes: &[u8]) -> (r: Result<winit::window::Icon, IconError>)
    ensures
        r matches Err(IconError::TooLarge { width, height }) ==> width * height > u32::MAX,
{
    match decode_rgba8(bytes) {
        Err(e) => Err(IconError::Decode(e)),
        Ok((rgba, width, height)) => icon_from_pixels(rgba, width, height),
    }
}

} // verus!
