//! Cursor selection and cursor-image parameters.
//!
//! Stock cursors are named by the common cursor-name vocabulary and looked
//! up by the platform; custom cursors are opaque handles the embedder made
//! earlier, compared by identity. Building a custom cursor from an image
//! needs a few derived parameters, computed here from the image format.

use vstd::prelude::*;

verus! {

/// A custom cursor previously realized by the platform, identified by the
/// handle the embedder assigned to it.
#[derive(Clone, Copy, PartialEq, Eq, Structural, Debug)]
pub struct CustomCursor(pub u64);

/// A mouse cursor: one of the stock shapes, or a custom one.
#[derive(Clone, Copy, PartialEq, Eq, Structural, Debug)]
pub enum Cursor {
    Arrow,
    IBeam,
    Crosshair,
    OpenHand,
    NotAllowed,
    ResizeLeftRight,
    ResizeUpDown,
    Custom(CustomCursor),
}

/// The platform cursor name for each stock cursor, from the common cursor
/// vocabulary; a custom cursor has none and is used directly.
pub open spec fn spec_cursor_name(c: Cursor) -> Option<Seq<char>> {
    match c {
        Cursor::Arrow => Some("default"@),
        Cursor::IBeam => Some("text"@),
        Cursor::Crosshair => Some("crosshair"@),
        Cursor::OpenHand => Some("grab"@),
        Cursor::NotAllowed => Some("not-allowed"@),
        Cursor::ResizeLeftRight => Some("ew-resize"@),
        Cursor::ResizeUpDown => Some("ns-resize"@),
        Cursor::Custom(_) => None,
    }
}

/// Names the stock cursor for the platform's by-name lookup; a custom
/// cursor yields nothing and the embedder uses its handle instead.
pub fn cursor_name(c: &Cursor) -> (r: Option<&'static str>)
    ensures
        (r is Some) == (spec_cursor_name(*c) is Some),
        (r matches Some(s) ==> spec_cursor_name(*c) matches Some(v) && s@ == v),
{
    match c {
        Cursor::Arrow => Some("default"),
        Cursor::IBeam => Some("text"),
        Cursor::Crosshair => Some("crosshair"),
        Cursor::OpenHand => Some("grab"),
        Cursor::NotAllowed => Some("not-allowed"),
        Cursor::ResizeLeftRight => Some("ew-resize"),
        Cursor::ResizeUpDown => Some("ns-resize"),
        Cursor::Custom(_) => None,
    }
}

/// The pixel layout of a cursor image.
#[derive(Clone, Copy, PartialEq, Eq, Structural, Debug)]
pub enum ImageFormat {
    /// Three bytes per pixel, no alpha channel.
    Rgb,
    /// Four bytes per pixel, alpha unmultiplied.
    RgbaSeparate,
    /// Four bytes per pixel, alpha premultiplied.
    RgbaPremul,
    /// One byte per pixel.
    Grayscale,
}

/// Bytes per pixel of an image format.
pub open spec fn spec_bytes_per_pixel(f: ImageFormat) -> u32 {
    match f {
        ImageFormat::Rgb => 3u32,
        ImageFormat::RgbaSeparate => 4u32,
        ImageFormat::RgbaPremul => 4u32,
        ImageFormat::Grayscale => 1u32,
    }
}

/// The parameters a platform image buffer wants for a cursor image: whether
/// an alpha channel is present (every format but plain RGB has one) and the
/// row stride in bytes.
pub fn cursor_image_params(format: ImageFormat, width: u32) -> (r: (bool, u32))
    requires
        width <= 0x1000_0000,
    ensures
        r.0 == (format != ImageFormat::Rgb),
        r.1 == width * spec_bytes_per_pixel(format),
{
    let bpp: u32 = match format {
        ImageFormat::Rgb => 3,
        ImageFormat::RgbaSeparate => 4,
        ImageFormat::RgbaPremul => 4,
        ImageFormat::Grayscale => 1,
    };
    let has_alpha = match format {
        ImageFormat::Rgb => false,
        _ => true,
    };
    (has_alpha, width * bpp)
}

} // verus!
