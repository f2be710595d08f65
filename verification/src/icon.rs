//! The icon of the application as pixels.

use vstd::prelude::*;

verus! {

/// An image.
#[derive(Debug, PartialEq, Eq)]
pub struct IconImage {
    /// Pixels in a row.
    pub width: u32,
    /// Rows.
    pub height: u32,
    /// Red, green, blue and opacity of each pixel, row by row.
    pub rgba: Vec<u8>,
}

/// The width, the height and the pixels that `image::load_from_memory_with_format`
/// and `DynamicImage::into_rgba8` make of the bytes of a PNG image, or `None`
/// where they hold none.
pub uninterp spec fn decoded_png(bytes: Seq<u8>) -> Option<(u32, u32, Seq<u8>)>;

/// The image in the bytes of a PNG file, decoded by
/// `image::load_from_memory_with_format` and brought to four bytes for each
/// pixel by `DynamicImage::into_rgba8`, or `None` where that reports an error.
#[verifier::external_body]
fn decode_png(bytes: &Vec<u8>) -> (decoded: Option<(u32, u32, Vec<u8>)>)
    ensures
        decoded is Some <==> decoded_png(bytes@) is Some,
        decoded is Some ==> decoded_png(bytes@) == Some(
            (decoded.unwrap().0, decoded.unwrap().1, decoded.unwrap().2@),
        ),
        decoded is Some ==> decoded.unwrap().2@.len() == 4 * decoded.unwrap().0
            * decoded.unwrap().1,
{
    let loaded = image::load_from_memory_with_format(bytes, image::ImageFormat::Png).ok()?;
    let pixels = loaded.into_rgba8();
    let (width, height) = pixels.dimensions();
    Some((width, height, pixels.into_raw()))
}

/// An image from what was decoded.
pub fn image_of(decoded: Option<(u32, u32, Vec<u8>)>) -> (icon: Option<IconImage>)
    ensures
        match decoded {
            Some((width, height, rgba)) => icon == Some(IconImage { width, height, rgba }),
            None => icon is None,
        },
{
    match decoded {
        Some((width, height, rgba)) => Some(IconImage { width, height, rgba }),
        None => None,
    }
}

/// The image in the bytes of a PNG file, or `None` where they hold none. It has
/// four bytes for each pixel.
pub fn app_icon(png: &Vec<u8>) -> (icon: Option<IconImage>)
    ensures
        match decoded_png(png@) {
            Some((width, height, pixels)) => {
                &&& icon matches Some(i)
                &&& i.width == width
                &&& i.height == height
                &&& i.rgba@ == pixels
                &&& i.rgba@.len() == 4 * i.width * i.height
            },
            None => icon is None,
        },
{
    image_of(decode_png(png))
}

} // verus!
