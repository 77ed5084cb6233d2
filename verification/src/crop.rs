//! Cutting a rectangle out of a bitmap.

use vstd::prelude::*;
use crate::geometry::Rect;
use crate::pixels::{ImageView, PixelImage, pixel_in};

verus! {

/// A rectangle in whole pixels of an image.
#[derive(Clone, Copy, Debug, PartialEq, Eq, Structural)]
pub struct CropRegion {
    pub x: u32,
    pub y: u32,
    pub width: u32,
    pub height: u32,
}

impl CropRegion {
    /// Whether the region lies inside an image of the given size.
    pub open spec fn fits(self, width: u32, height: u32) -> bool {
        self.x + self.width <= width && self.y + self.height <= height
    }
}

/// `v`, or the nearer end of `lo..=hi` where `v` lies outside.
pub open spec fn clamp(v: int, lo: int, hi: int) -> int {
    if v < lo {
        lo
    } else if v > hi {
        hi
    } else {
        v
    }
}

/// The part of an image that a selected rectangle stands for: the origin
/// brought into the image, then the size cut to the room that is left
/// from there.
pub open spec fn clamped_region(image_width: u32, image_height: u32, region: Rect) -> CropRegion {
    let x = clamp(region.x as int, 0, image_width as int);
    let y = clamp(region.y as int, 0, image_height as int);
    CropRegion {
        x: x as u32,
        y: y as u32,
        width: clamp(region.width as int, 0, image_width - x) as u32,
        height: clamp(region.height as int, 0, image_height - y) as u32,
    }
}

/// The clamped region, unless it is empty.
pub open spec fn crop_region_of(image_width: u32, image_height: u32, region: Rect) -> Option<
    CropRegion,
> {
    let clamped = clamped_region(image_width, image_height, region);
    if clamped.width == 0 || clamped.height == 0 {
        None
    } else {
        Some(clamped)
    }
}

fn clamp_to(v: i64, hi: u32) -> (c: u32)
    ensures
        c == clamp(v as int, 0, hi as int),
{
    if v < 0 {
        0
    } else if v > hi as i64 {
        hi
    } else {
        v as u32
    }
}

/// Decides which pixels of an image of the given size a selected
/// rectangle stands for. There are none where the rectangle is empty or
/// lies beyond the right or bottom edge.
pub fn crop_region(image_width: u32, image_height: u32, region: &Rect) -> (clamped: Option<
    CropRegion,
>)
    ensures
        clamped == crop_region_of(image_width, image_height, *region),
        clamped matches Some(c) ==> c.fits(image_width, image_height) && c.width > 0 && c.height
            > 0,
{
    let x = clamp_to(region.x, image_width);
    let y = clamp_to(region.y, image_height);
    let width = clamp_to(region.width, image_width - x);
    let height = clamp_to(region.height, image_height - y);
    if width == 0 || height == 0 {
        None
    } else {
        Some(CropRegion { x, y, width, height })
    }
}

/// Where byte `b` of row `row` lies in an image whose rows are `row_len`
/// bytes long.
pub open spec fn byte_index(row_len: int, row: int, b: int) -> int {
    row * row_len + b
}

/// The bitmap made of the pixels of `region` in `image`: row after row,
/// the bytes of each row of the region as they stand in the image.
pub open spec fn cropped(image: ImageView, region: CropRegion) -> ImageView {
    let row_len = region.width * 4;
    ImageView {
        width: region.width as nat,
        height: region.height as nat,
        pixels: Seq::new(
            (region.width as nat) * (region.height as nat) * 4,
            |k: int|
                image.pixels[byte_index(
                    (image.width * 4) as int,
                    region.y + k / row_len,
                    region.x * 4 + k % row_len,
                )],
        ),
    }
}

proof fn lemma_row_within(row_len: int, rows: int, row: int, b: int)
    requires
        0 <= row < rows,
        0 <= b <= row_len,
    ensures
        0 <= byte_index(row_len, row, b) <= rows * row_len,
        byte_index(row_len, row, row_len) == byte_index(row_len, row + 1, 0),
{
    assert(row * row_len + row_len <= rows * row_len) by (nonlinear_arith)
        requires
            0 <= row < rows,
            0 <= row_len,
    ;
    assert(0 <= row * row_len) by (nonlinear_arith)
        requires
            0 <= row,
            0 <= row_len,
    ;
    assert((row + 1) * row_len == row * row_len + row_len) by (nonlinear_arith);
}

/// Copies the pixels of `region` out of `image`.
pub fn crop(image: &PixelImage, region: &CropRegion) -> (out: PixelImage)
    requires
        image@.wf(),
        region.fits(image.width, image.height),
    ensures
        out.width == region.width,
        out.height == region.height,
        out@.wf(),
        out@ == cropped(image@, *region),
        forall|cx: int, cy: int|
            0 <= cx < region.width && 0 <= cy < region.height ==> #[trigger] out@.pixel_at(cx, cy)
                == image@.pixel_at(region.x + cx, region.y + cy),
{
    if region.width == 0 || region.height == 0 {
        let empty = PixelImage { width: region.width, height: region.height, data: Vec::new() };
        assert((region.width as nat) * (region.height as nat) * 4 == 0) by (nonlinear_arith)
            requires
                region.width == 0 || region.height == 0,
        ;
        assert(empty@.pixels =~= cropped(image@, *region).pixels);
        return empty;
    }
    assert((image.width as int) * 4 <= image.data@.len()) by (nonlinear_arith)
        requires
            image.data@.len() == (image.width as nat) * (image.height as nat) * 4,
            image.height >= 1,
    ;
    let total: usize = image.data.len();
    let src_row_len: usize = (image.width as usize) * 4;
    let row_len: usize = (region.width as usize) * 4;
    let left: usize = (region.x as usize) * 4;
    let ghost top = region.y as int;
    let mut data: Vec<u8> = Vec::new();
    let mut cy: usize = 0;
    proof {
        assert(image.data@.len() == (image.height as int) * (src_row_len as int))
            by (nonlinear_arith)
            requires
                image.data@.len() == (image.width as nat) * (image.height as nat) * 4,
                src_row_len == image.width * 4,
        ;
    }
    while cy < region.height as usize
        invariant
            cy <= region.height,
            image@.wf(),
            region.fits(image.width, image.height),
            src_row_len == image.width * 4,
            row_len == region.width * 4,
            left == region.x * 4,
            top == region.y,
            image.data@.len() == (image.height as int) * (src_row_len as int),
            total == image.data@.len(),
            data@.len() == byte_index(row_len as int, cy as int, 0),
            forall|row: int, b: int|
                0 <= row < cy && 0 <= b < row_len ==> data@[#[trigger] byte_index(
                    row_len as int,
                    row,
                    b,
                )] == image.data@[byte_index(src_row_len as int, top + row, left + b)],
        decreases region.height - cy,
    {
        proof {
            lemma_row_within(src_row_len as int, image.height as int, top + cy, left + row_len);
            lemma_row_within(src_row_len as int, image.height as int, top + cy, 0);
        }
        let start: usize = (region.y as usize + cy) * src_row_len + left;
        let ghost before = data@;
        let mut b: usize = 0;
        while b < row_len
            invariant
                b <= row_len,
                start + row_len <= image.data@.len(),
                total == image.data@.len(),
                start == byte_index(src_row_len as int, top + cy, left as int),
                data@ == before + image.data@.subrange(start as int, start + b),
            decreases row_len - b,
        {
            data.push(image.data[start + b]);
            proof {
                assert(data@ =~= before + image.data@.subrange(start as int, start + b + 1));
            }
            b = b + 1;
        }
        proof {
            assert forall|row: int, k: int| 0 <= row < cy + 1 && 0 <= k < row_len implies data@[
            #[trigger] byte_index(row_len as int, row, k)] == image.data@[byte_index(
                src_row_len as int,
                top + row,
                left + k,
            )] by {
                if row < cy {
                    lemma_row_within(row_len as int, cy as int, row, k + 1);
                    assert(before[byte_index(row_len as int, row, k)] == image.data@[byte_index(
                        src_row_len as int,
                        top + row,
                        left + k,
                    )]);
                } else {
                    assert(byte_index(row_len as int, row, k) == before.len() + k);
                }
            }
            lemma_row_within(row_len as int, cy + 1, cy as int, row_len as int);
        }
        cy = cy + 1;
    }
    let out = PixelImage { width: region.width, height: region.height, data };
    proof {
        assert((region.height as int) * (row_len as int) == (region.width as nat) * (
        region.height as nat) * 4) by (nonlinear_arith)
            requires
                row_len == region.width * 4,
        ;
        let expected = cropped(image@, *region).pixels;
        assert forall|k: int| 0 <= k < out.data@.len() implies out.data@[k] == expected[k] by {
            let row = k / (row_len as int);
            let b = k % (row_len as int);
            vstd::arithmetic::div_mod::lemma_fundamental_div_mod(k, row_len as int);
            vstd::arithmetic::div_mod::lemma_mod_bound(k, row_len as int);
            vstd::arithmetic::div_mod::lemma_div_pos_is_pos(k, row_len as int);
            assert(row_len * row == row * row_len) by (nonlinear_arith);
            assert(row < region.height) by (nonlinear_arith)
                requires
                    k == row * row_len + b,
                    0 <= b,
                    k < region.height * row_len,
                    row_len > 0,
            ;
            assert(k == byte_index(row_len as int, row, b));
        }
        assert(out.data@ =~= expected);
        assert(out.data@.len() == (region.width as nat) * (region.height as nat) * 4)
            by (nonlinear_arith)
            requires
                out.data@.len() == (region.height as int) * (row_len as int) + 0,
                row_len == region.width * 4,
        ;
        assert forall|cx: int, cy: int|
            0 <= cx < region.width && 0 <= cy < region.height implies #[trigger] out@.pixel_at(
            cx,
            cy,
        ) == image@.pixel_at(region.x + cx, region.y + cy) by {
            let i = cy * (region.width as int) + cx;
            let j = (region.y + cy) * (image.width as int) + (region.x + cx);
            assert(4 * i == byte_index(row_len as int, cy, 4 * cx)) by (nonlinear_arith)
                requires
                    i == cy * (region.width as int) + cx,
                    row_len == region.width * 4,
            ;
            assert(4 * j == byte_index(src_row_len as int, top + cy, left + 4 * cx))
                by (nonlinear_arith)
                requires
                    j == (region.y + cy) * (image.width as int) + (region.x + cx),
                    src_row_len == image.width * 4,
                    left == region.x * 4,
                    top == region.y,
            ;
            assert(4 * i + 1 == byte_index(row_len as int, cy, 4 * cx + 1));
            assert(4 * i + 2 == byte_index(row_len as int, cy, 4 * cx + 2));
            assert(4 * i + 3 == byte_index(row_len as int, cy, 4 * cx + 3));
            assert(out.data@[byte_index(row_len as int, cy, 4 * cx)] == image.data@[byte_index(
                src_row_len as int,
                top + cy,
                left + 4 * cx,
            )]);
            assert(out.data@[byte_index(row_len as int, cy, 4 * cx + 1)] == image.data@[byte_index(
                src_row_len as int,
                top + cy,
                left + 4 * cx + 1,
            )]);
            assert(out.data@[byte_index(row_len as int, cy, 4 * cx + 2)] == image.data@[byte_index(
                src_row_len as int,
                top + cy,
                left + 4 * cx + 2,
            )]);
            assert(out.data@[byte_index(row_len as int, cy, 4 * cx + 3)] == image.data@[byte_index(
                src_row_len as int,
                top + cy,
                left + 4 * cx + 3,
            )]);
            assert(pixel_in(out.data@, i) == pixel_in(image.data@, j));
        }
    }
    out
}

} // verus!
