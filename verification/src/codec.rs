//! PNG encoding, decoding and downscaling, done by the `image` crate.
//!
//! What that crate computes is not restated here. Each result is a function
//! of the arguments alone and gets a name; the functions of this library
//! that build on those results say what they return in terms of the names.

use vstd::prelude::*;
use crate::pixels::{ImageView, PixelImage};
use crate::screenshot::{ScreenshotError, ScreenshotResult, ScreenshotResultView, text_view};

verus! {

/// `ImageError` of the `image` crate, carried through without a look
/// inside.
#[verifier::external_type_specification]
#[verifier::external_body]
pub struct ExImageError(image::ImageError);

/// The PNG file that the `image` crate writes for a bitmap, where it can
/// write one.
pub uninterp spec fn png_encoding(image: ImageView) -> Option<Seq<u8>>;

/// The bitmap that the `image` crate reads from bytes taken as a PNG file,
/// where it can read one.
pub uninterp spec fn decoded_image(bytes: Seq<u8>) -> Option<ImageView>;

/// The bitmap that the `image` crate scales a bitmap down to when asked to
/// fit it into `max_width` by `max_height`.
pub uninterp spec fn thumbnail_of(image: ImageView, max_width: nat, max_height: nat) -> ImageView;

/// Calls `DynamicImage::write_to` of the `image` crate with the PNG format
/// on a writer in memory. The bytes written are a function of the bitmap;
/// so is whether writing succeeds.
#[verifier::external_body]
pub(crate) fn image_write_png(image: &PixelImage) -> (written: Result<Vec<u8>, image::ImageError>)
    requires
        image@.wf(),
    ensures
        written matches Ok(bytes) ==> png_encoding(image@) == Some(bytes@),
        written is Err ==> png_encoding(image@) is None,
{
    let buffer = image::RgbaImage::from_raw(image.width, image.height, image.data.clone()).unwrap();
    let mut bytes: Vec<u8> = Vec::new();
    image::DynamicImage::ImageRgba8(buffer).write_to(
        &mut std::io::Cursor::new(&mut bytes),
        image::ImageFormat::Png,
    )?;
    Ok(bytes)
}

/// Calls `load_from_memory_with_format` of the `image` crate with the PNG
/// format and takes the result as 8-bit RGBA. With the format given the
/// crate goes straight to its PNG decoder, so the bitmap read is a function
/// of the bytes; so is whether reading succeeds. A bitmap that was read has
/// four bytes for each pixel.
#[verifier::external_body]
pub(crate) fn image_load(bytes: &Vec<u8>) -> (loaded: Result<PixelImage, image::ImageError>)
    ensures
        loaded matches Ok(image) ==> decoded_image(bytes@) == Some(image@) && image@.wf(),
        loaded is Err ==> decoded_image(bytes@) is None,
{
    let decoded =
        image::load_from_memory_with_format(bytes, image::ImageFormat::Png)?.to_rgba8();
    let (width, height) = decoded.dimensions();
    Ok(PixelImage { width, height, data: decoded.into_raw() })
}

/// Calls `DynamicImage::thumbnail` of the `image` crate, which scales the
/// bitmap down, keeping its aspect ratio, to the largest size that fits
/// into the given one and is at least one pixel wide and high. The result
/// is a function of the arguments and has four bytes for each pixel. Asked
/// for the size that the bitmap has, the crate answers with that size.
///
/// The crate averages, for each pixel of the result, a block of pixels of
/// the bitmap in 32-bit sums. Only a call that shrinks each side to no less
/// than one part in `SHRINK_LIMIT` is asked for: the blocks then stay far
/// below the size at which the sums would no longer fit.
#[verifier::external_body]
pub(crate) fn image_thumbnail(image: &PixelImage, max_width: u32, max_height: u32) -> (small:
    PixelImage)
    requires
        image@.wf(),
        image.width > 0,
        image.height > 0,
        max_width <= image.width,
        max_height <= image.height,
        max_width * SHRINK_LIMIT >= image.width,
        max_height * SHRINK_LIMIT >= image.height,
    ensures
        small@ == thumbnail_of(image@, max_width as nat, max_height as nat),
        small@.wf(),
        1 <= small.width <= max_width,
        1 <= small.height <= max_height,
        max_width == image.width && max_height == image.height ==> small.width == image.width
            && small.height == image.height,
{
    let buffer = image::RgbaImage::from_raw(image.width, image.height, image.data.clone()).unwrap();
    let scaled = image::DynamicImage::ImageRgba8(buffer).thumbnail(max_width, max_height).to_rgba8();
    let (width, height) = scaled.dimensions();
    PixelImage { width, height, data: scaled.into_raw() }
}

/// Calls `to_string` on an error of the `image` crate. Nothing is claimed
/// of the text.
#[verifier::external_body]
pub(crate) fn image_error_text(error: &image::ImageError) -> String {
    error.to_string()
}

/// The error of this library for an error of the `image` crate.
pub fn image_failure(error: &image::ImageError) -> (e: ScreenshotError)
    ensures
        e is Image,
{
    ScreenshotError::Image(image_error_text(error))
}

/// The height that thumbnails are brought down to.
pub const THUMBNAIL_HEIGHT: u32 = 360;

/// The most that one scaling step shrinks a side: to one part in this
/// many.
pub const SHRINK_LIMIT: u32 = 1024;

/// The size asked for when a thumbnail of a bitmap of the given size is
/// made: the size itself up to `THUMBNAIL_HEIGHT` rows, else
/// `THUMBNAIL_HEIGHT` rows and the width that keeps the aspect ratio,
/// rounded down.
pub open spec fn thumbnail_size(width: u32, height: u32) -> (u32, u32) {
    if height <= THUMBNAIL_HEIGHT {
        (width, height)
    } else {
        (((width * THUMBNAIL_HEIGHT) / (height as int)) as u32, THUMBNAIL_HEIGHT)
    }
}

/// Computes `thumbnail_size`. The size is never larger than the bitmap and
/// never higher than `THUMBNAIL_HEIGHT`.
pub fn thumbnail_dimensions(width: u32, height: u32) -> (size: (u32, u32))
    ensures
        size == thumbnail_size(width, height),
        size.0 <= width,
        size.1 <= height,
        size.1 <= THUMBNAIL_HEIGHT,
        height > THUMBNAIL_HEIGHT ==> size.0 * height <= width * THUMBNAIL_HEIGHT < (size.0 + 1)
            * height,
{
    if height <= THUMBNAIL_HEIGHT {
        (width, height)
    } else {
        let scaled: u64 = (width as u64) * (THUMBNAIL_HEIGHT as u64);
        let w: u64 = scaled / (height as u64);
        proof {
            vstd::arithmetic::div_mod::lemma_fundamental_div_mod(scaled as int, height as int);
            vstd::arithmetic::div_mod::lemma_mod_bound(scaled as int, height as int);
            assert(w * height <= scaled) by (nonlinear_arith)
                requires
                    scaled == height * w + (scaled as int) % (height as int),
                    0 <= (scaled as int) % (height as int),
            ;
            assert(w <= width) by (nonlinear_arith)
                requires
                    w * height <= width * 360,
                    height > 360,
                    0 <= w,
                    0 <= width,
            ;
            assert(scaled < (w + 1) * height) by (nonlinear_arith)
                requires
                    scaled == height * w + (scaled as int) % (height as int),
                    (scaled as int) % (height as int) < height,
            ;
        }
        (w as u32, THUMBNAIL_HEIGHT)
    }
}

/// The shortest that one scaling step makes a side of the given length:
/// one part in `SHRINK_LIMIT`, rounded up.
pub open spec fn least_side(side: u32) -> u32 {
    ((side + SHRINK_LIMIT - 1) / (SHRINK_LIMIT as int)) as u32
}

/// The larger of two lengths.
pub open spec fn longer(a: u32, b: u32) -> u32 {
    if a >= b {
        a
    } else {
        b
    }
}

/// The size asked for in one scaling step on a bitmap of the given size:
/// the size of the thumbnail, but no side shorter than the step may make
/// it.
pub open spec fn shrink_request(width: u32, height: u32) -> (u32, u32) {
    let target = thumbnail_size(width, height);
    (longer(target.0, least_side(width)), longer(target.1, least_side(height)))
}

/// What one scaling step makes of a bitmap.
pub open spec fn shrunk(image: ImageView) -> ImageView {
    let request = shrink_request(image.width as u32, image.height as u32);
    thumbnail_of(image, request.0 as nat, request.1 as nat)
}

/// What scaling steps make of a bitmap when they are repeated until it is
/// at most `THUMBNAIL_HEIGHT` rows high. Every step makes the bitmap
/// lower; the steps would end with the first that did not.
pub open spec fn reduced(image: ImageView) -> ImageView
    decreases image.height,
{
    if image.height <= THUMBNAIL_HEIGHT {
        image
    } else {
        let next = shrunk(image);
        if next.height < image.height {
            reduced(next)
        } else {
            next
        }
    }
}

/// The thumbnail of a bitmap. A bitmap that has pixels is scaled down by
/// the `image` crate, in one step where one step can reach the size of the
/// thumbnail, else in as many as it takes. A bitmap without pixels has a
/// thumbnail of the size of the thumbnail, without pixels.
pub open spec fn thumbnail_view(image: ImageView) -> ImageView {
    if image.width == 0 || image.height == 0 {
        let size = thumbnail_size(image.width as u32, image.height as u32);
        ImageView { width: size.0 as nat, height: size.1 as nat, pixels: Seq::empty() }
    } else {
        reduced(shrunk(image))
    }
}

fn least_side_of(side: u32) -> (least: u32)
    ensures
        least == least_side(side),
        side > 0 ==> 1 <= least <= side,
        least * SHRINK_LIMIT >= side,
        side > 1 ==> least < side,
{
    ((side as u64 + (SHRINK_LIMIT as u64 - 1)) / (SHRINK_LIMIT as u64)) as u32
}

/// Computes `shrink_request`. For a bitmap that has pixels the size asked
/// for is one that a scaling step may be asked for, and it is lower than
/// the bitmap where the bitmap is higher than a thumbnail.
pub fn shrink_dimensions(width: u32, height: u32) -> (request: (u32, u32))
    ensures
        request == shrink_request(width, height),
        width > 0 && height > 0 ==> {
            &&& 1 <= request.0 <= width
            &&& 1 <= request.1 <= height
            &&& request.0 * SHRINK_LIMIT >= width
            &&& request.1 * SHRINK_LIMIT >= height
        },
        height > THUMBNAIL_HEIGHT ==> request.1 < height,
        height <= THUMBNAIL_HEIGHT ==> request == (width, height),
{
    let target = thumbnail_dimensions(width, height);
    let least_width = least_side_of(width);
    let least_height = least_side_of(height);
    let w = if target.0 >= least_width {
        target.0
    } else {
        least_width
    };
    let h = if target.1 >= least_height {
        target.1
    } else {
        least_height
    };
    (w, h)
}

/// Whether `small` has a size that the thumbnail of `image` may have: four
/// bytes for each pixel, no wider and no higher than the bitmap, at most
/// `THUMBNAIL_HEIGHT` rows, no wider than the first scaling step asks for,
/// which is the width of the thumbnail size where one step reaches that
/// size, at least one pixel where the bitmap has one, and the size of the
/// bitmap where that is at most `THUMBNAIL_HEIGHT` rows high.
pub open spec fn thumbnail_fits(image: ImageView, small: ImageView) -> bool {
    let width = image.width as u32;
    let height = image.height as u32;
    &&& small.wf()
    &&& small.width <= image.width
    &&& small.height <= image.height
    &&& small.height <= THUMBNAIL_HEIGHT
    &&& small.width <= shrink_request(width, height).0
    &&& shrink_request(width, height) == thumbnail_size(width, height) ==> small.width
        <= thumbnail_size(width, height).0
    &&& image.width > 0 && image.height > 0 ==> small.width >= 1 && small.height >= 1
    &&& image.height <= THUMBNAIL_HEIGHT ==> small.width == image.width && small.height
        == image.height
}

/// Makes the thumbnail of a bitmap. It is never wider than the bitmap and
/// never higher than `THUMBNAIL_HEIGHT`.
pub fn make_thumbnail(image: &PixelImage) -> (small: PixelImage)
    requires
        image@.wf(),
    ensures
        small@ == thumbnail_view(image@),
        thumbnail_fits(image@, small@),
{
    if image.width == 0 || image.height == 0 {
        let size = thumbnail_dimensions(image.width, image.height);
        let empty = PixelImage { width: size.0, height: size.1, data: Vec::new() };
        proof {
            assert((size.0 as nat) * (size.1 as nat) * 4 == 0) by (nonlinear_arith)
                requires
                    size.0 == 0 || size.1 == 0,
            ;
        }
        return empty;
    }
    let request = shrink_dimensions(image.width, image.height);
    let mut current = image_thumbnail(image, request.0, request.1);
    while current.height > THUMBNAIL_HEIGHT
        invariant
            current@.wf(),
            1 <= current.width <= image.width,
            1 <= current.height <= image.height,
            image.height <= THUMBNAIL_HEIGHT ==> current.width == image.width && current.height
                == image.height,
            current.width <= shrink_request(image.width, image.height).0,
            thumbnail_view(image@) == reduced(current@),
        decreases current.height,
    {
        let request = shrink_dimensions(current.width, current.height);
        let next = image_thumbnail(&current, request.0, request.1);
        proof {
            assert(next@ == shrunk(current@));
            assert(reduced(current@) == reduced(next@));
        }
        current = next;
    }
    current
}

/// Encodes a bitmap as a PNG file in memory.
pub fn encode_png(image: &PixelImage) -> (encoded: Result<Vec<u8>, ScreenshotError>)
    requires
        image@.wf(),
    ensures
        encoded matches Ok(bytes) ==> png_encoding(image@) == Some(bytes@),
        encoded matches Err(e) ==> png_encoding(image@) is None && e is Image,
{
    match image_write_png(image) {
        Ok(bytes) => Ok(bytes),
        Err(error) => Err(image_failure(&error)),
    }
}

/// Decodes a PNG file held in memory.
pub fn decode_image(bytes: &Vec<u8>) -> (decoded: Result<PixelImage, ScreenshotError>)
    ensures
        decoded matches Ok(image) ==> decoded_image(bytes@) == Some(image@) && image@.wf(),
        decoded matches Err(e) ==> decoded_image(bytes@) is None && e is Image,
{
    match image_load(bytes) {
        Ok(image) => Ok(image),
        Err(error) => Err(image_failure(&error)),
    }
}

/// The thumbnail of a bitmap as a PNG file, where it can be written.
pub open spec fn thumbnail_png_of(image: ImageView) -> Option<Seq<u8>> {
    png_encoding(thumbnail_view(image))
}

/// Makes the thumbnail of a bitmap and encodes it as a PNG file.
pub fn encode_thumbnail(image: &PixelImage) -> (encoded: Result<Vec<u8>, ScreenshotError>)
    requires
        image@.wf(),
    ensures
        thumbnail_fits(image@, thumbnail_view(image@)),
        encoded matches Ok(bytes) ==> thumbnail_png_of(image@) == Some(bytes@),
        encoded matches Err(e) ==> thumbnail_png_of(image@) is None && e is Image,
{
    let small = make_thumbnail(image);
    encode_png(&small)
}

/// The capture result that holds a bitmap: its thumbnail and the bitmap
/// itself, both as PNG files, where both can be written.
pub open spec fn result_of_image(
    image: ImageView,
    path: Option<Seq<char>>,
    saved_to_clipboard: bool,
) -> Option<ScreenshotResultView> {
    match (thumbnail_png_of(image), png_encoding(image)) {
        (Some(thumbnail), Some(full)) => Some(
            ScreenshotResultView {
                path,
                saved_to_clipboard,
                thumbnail_data: thumbnail,
                full_image_data: full,
            },
        ),
        _ => None,
    }
}

/// Builds the capture result for a bitmap.
pub fn result_from_image(image: &PixelImage, path: Option<String>, saved_to_clipboard: bool) -> (result:
    Result<ScreenshotResult, ScreenshotError>)
    requires
        image@.wf(),
    ensures
        thumbnail_fits(image@, thumbnail_view(image@)),
        result matches Ok(r) ==> result_of_image(image@, text_view(path), saved_to_clipboard)
            == Some(r@),
        result matches Err(e) ==> result_of_image(image@, text_view(path), saved_to_clipboard)
            is None && e is Image,
{
    let thumbnail_data = match encode_thumbnail(image) {
        Ok(bytes) => bytes,
        Err(e) => { return Err(e); },
    };
    let full_image_data = match encode_png(image) {
        Ok(bytes) => bytes,
        Err(e) => { return Err(e); },
    };
    Ok(ScreenshotResult { path, saved_to_clipboard, thumbnail_data, full_image_data })
}

} // verus!
