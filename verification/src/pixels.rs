//! Decoded bitmaps and the conversion of raw framebuffer data into them.
//!
//! A `PixelImage` holds one byte each for red, green, blue and alpha per
//! pixel, row after row from the top. Raw framebuffers arrive in one of the
//! layouts that `PixelFormat` names and are converted pixel by pixel.

use vstd::prelude::*;
use vstd::string::*;
use vstd::arithmetic::div_mod::*;
use crate::screenshot::{ScreenshotError, ScreenshotErrorView};
use crate::text::{decimal_digits, push_decimal};

verus! {

/// Format code of 32-bit words holding alpha, red, green, blue from the
/// highest byte down.
pub const FORMAT_ARGB32: u32 = 5;

/// Format code of the same layout with colour already multiplied by alpha.
pub const FORMAT_ARGB32_PREMULTIPLIED: u32 = 6;

/// Format code of three bytes per pixel: red, green, blue.
pub const FORMAT_RGB888: u32 = 13;

/// One pixel.
#[derive(Clone, Copy, Debug, PartialEq, Eq, Structural)]
pub struct Rgba {
    pub r: u8,
    pub g: u8,
    pub b: u8,
    pub a: u8,
}

/// The layout of raw framebuffer data.
#[derive(Clone, Copy, Debug, PartialEq, Eq, Structural)]
pub enum PixelFormat {
    Argb32,
    Argb32Premultiplied,
    Rgb888,
    /// A code without a known layout; the data is taken as red, green,
    /// blue, alpha bytes as they stand.
    Unknown(u32),
}

/// The order in which the bytes of a 32-bit word lie in memory.
#[derive(Clone, Copy, Debug, PartialEq, Eq, Structural)]
pub enum ByteOrder {
    /// Lowest byte first.
    LittleEndian,
    /// Highest byte first.
    BigEndian,
}

/// A decoded bitmap.
#[derive(Clone, Debug, PartialEq, Eq)]
pub struct PixelImage {
    pub width: u32,
    pub height: u32,
    /// Four bytes per pixel: red, green, blue, alpha.
    pub data: Vec<u8>,
}

/// The pixel that the four bytes from `4 * i` on stand for.
pub open spec fn pixel_in(bytes: Seq<u8>, i: int) -> Rgba {
    Rgba { r: bytes[4 * i], g: bytes[4 * i + 1], b: bytes[4 * i + 2], a: bytes[4 * i + 3] }
}

pub struct ImageView {
    pub width: nat,
    pub height: nat,
    pub pixels: Seq<u8>,
}

impl ImageView {
    /// There are exactly four bytes for each pixel.
    pub open spec fn wf(self) -> bool {
        self.pixels.len() == self.width * self.height * 4
    }

    /// The pixel number `i`, counted row after row from the top left.
    pub open spec fn pixel(self, i: int) -> Rgba {
        pixel_in(self.pixels, i)
    }

    /// The pixel in column `x` of row `y`.
    pub open spec fn pixel_at(self, x: int, y: int) -> Rgba {
        self.pixel(y * self.width + x)
    }
}

impl View for PixelImage {
    type V = ImageView;

    open spec fn view(&self) -> ImageView {
        ImageView { width: self.width as nat, height: self.height as nat, pixels: self.data@ }
    }
}

impl PixelFormat {
    pub open spec fn of_code(code: u32) -> PixelFormat {
        if code == FORMAT_ARGB32 {
            PixelFormat::Argb32
        } else if code == FORMAT_ARGB32_PREMULTIPLIED {
            PixelFormat::Argb32Premultiplied
        } else if code == FORMAT_RGB888 {
            PixelFormat::Rgb888
        } else {
            PixelFormat::Unknown(code)
        }
    }

    pub open spec fn spec_bytes_per_pixel(self) -> nat {
        if self is Rgb888 {
            3
        } else {
            4
        }
    }

    /// The layout that a format code stands for.
    pub fn from_code(code: u32) -> (format: PixelFormat)
        ensures
            format == PixelFormat::of_code(code),
    {
        if code == FORMAT_ARGB32 {
            PixelFormat::Argb32
        } else if code == FORMAT_ARGB32_PREMULTIPLIED {
            PixelFormat::Argb32Premultiplied
        } else if code == FORMAT_RGB888 {
            PixelFormat::Rgb888
        } else {
            PixelFormat::Unknown(code)
        }
    }

    pub fn bytes_per_pixel(&self) -> (n: usize)
        ensures
            n == self.spec_bytes_per_pixel(),
    {
        match self {
            PixelFormat::Rgb888 => 3,
            _ => 4,
        }
    }

    /// Whether the layout is one of the documented ones. Data in any other
    /// layout is converted on a best guess, which callers may want to
    /// report.
    pub fn is_known(&self) -> (known: bool)
        ensures
            known == !(self is Unknown),
    {
        match self {
            PixelFormat::Unknown(_) => false,
            _ => true,
        }
    }
}

/// The 32-bit word whose bytes lie in memory as `b0`, `b1`, `b2`, `b3`.
pub open spec fn word_of_bytes(order: ByteOrder, b0: u8, b1: u8, b2: u8, b3: u8) -> u32 {
    match order {
        ByteOrder::LittleEndian => (b0 as u32) | ((b1 as u32) << 8) | ((b2 as u32) << 16) | ((
        b3 as u32) << 24),
        ByteOrder::BigEndian => (b3 as u32) | ((b2 as u32) << 8) | ((b1 as u32) << 16) | ((
        b0 as u32) << 24),
    }
}

/// The pixel that a word holds: alpha in bits 24 to 31, red in bits 16 to
/// 23, green in bits 8 to 15, blue in bits 0 to 7.
pub open spec fn unpack_argb(word: u32) -> Rgba {
    Rgba {
        r: ((word >> 16) & 0xff) as u8,
        g: ((word >> 8) & 0xff) as u8,
        b: (word & 0xff) as u8,
        a: ((word >> 24) & 0xff) as u8,
    }
}

/// How many bytes `width` times `height` pixels take in `format`.
pub open spec fn expected_len(width: u32, height: u32, format: PixelFormat) -> nat {
    (width as nat) * (height as nat) * format.spec_bytes_per_pixel()
}

/// The pixel in word number `i` of raw data made of 32-bit words.
pub open spec fn argb_pixel(order: ByteOrder, raw: Seq<u8>, i: int) -> Rgba {
    unpack_argb(word_of_bytes(order, raw[4 * i], raw[4 * i + 1], raw[4 * i + 2], raw[4 * i + 3]))
}

/// The opaque pixel in the three bytes from `3 * i` on.
pub open spec fn rgb_pixel(raw: Seq<u8>, i: int) -> Rgba {
    Rgba { r: raw[3 * i], g: raw[3 * i + 1], b: raw[3 * i + 2], a: 255 }
}

/// What pixel number `i` of raw data in `format` decodes to.
pub open spec fn decoded_pixel(format: PixelFormat, order: ByteOrder, raw: Seq<u8>, i: int) -> Rgba {
    match format {
        PixelFormat::Argb32 | PixelFormat::Argb32Premultiplied => argb_pixel(order, raw, i),
        PixelFormat::Rgb888 => rgb_pixel(raw, i),
        PixelFormat::Unknown(_) => pixel_in(raw, i),
    }
}

/// The channel `c` of a pixel: red, green, blue, alpha for 0 to 3.
pub open spec fn channel(p: Rgba, c: int) -> u8 {
    if c == 0 {
        p.r
    } else if c == 1 {
        p.g
    } else if c == 2 {
        p.b
    } else {
        p.a
    }
}

/// The bitmap that raw data of the right length decodes to.
pub open spec fn decoded_frame(
    width: u32,
    height: u32,
    format: PixelFormat,
    order: ByteOrder,
    raw: Seq<u8>,
) -> ImageView {
    ImageView {
        width: width as nat,
        height: height as nat,
        pixels: Seq::new(
            (width as nat) * (height as nat) * 4,
            |k: int| channel(decoded_pixel(format, order, raw, k / 4), k % 4),
        ),
    }
}

/// The text of the error for raw data whose length does not fit `format`.
pub open spec fn decode_error_text(format: PixelFormat) -> Seq<char> {
    match format {
        PixelFormat::Argb32 => "Failed to create RGBA image from ARGB data"@,
        PixelFormat::Argb32Premultiplied => "Failed to create RGBA image from premultiplied ARGB data"@,
        PixelFormat::Rgb888 => "Failed to create RGBA image from RGB data"@,
        PixelFormat::Unknown(code) => "Failed to create image from unknown format "@
            + decimal_digits(code as nat),
    }
}

fn decode_error(format: PixelFormat) -> (e: ScreenshotError)
    ensures
        e@ == ScreenshotErrorView::Image(decode_error_text(format)),
{
    match format {
        PixelFormat::Argb32 => ScreenshotError::Image(
            String::from_str("Failed to create RGBA image from ARGB data"),
        ),
        PixelFormat::Argb32Premultiplied => ScreenshotError::Image(
            String::from_str("Failed to create RGBA image from premultiplied ARGB data"),
        ),
        PixelFormat::Rgb888 => ScreenshotError::Image(
            String::from_str("Failed to create RGBA image from RGB data"),
        ),
        PixelFormat::Unknown(code) => {
            let mut text = String::from_str("Failed to create image from unknown format ");
            push_decimal(&mut text, code, 0);
            ScreenshotError::Image(text)
        },
    }
}

fn unpack_word(order: ByteOrder, b0: u8, b1: u8, b2: u8, b3: u8) -> (p: Rgba)
    ensures
        p == unpack_argb(word_of_bytes(order, b0, b1, b2, b3)),
{
    let word: u32 = match order {
        ByteOrder::LittleEndian => (b0 as u32) | ((b1 as u32) << 8) | ((b2 as u32) << 16) | ((
        b3 as u32) << 24),
        ByteOrder::BigEndian => (b3 as u32) | ((b2 as u32) << 8) | ((b1 as u32) << 16) | ((
        b0 as u32) << 24),
    };
    assert((word >> 16) & 0xff < 256) by (bit_vector);
    assert((word >> 8) & 0xff < 256) by (bit_vector);
    assert(word & 0xff < 256) by (bit_vector);
    assert((word >> 24) & 0xff < 256) by (bit_vector);
    Rgba {
        r: ((word >> 16) & 0xff) as u8,
        g: ((word >> 8) & 0xff) as u8,
        b: (word & 0xff) as u8,
        a: ((word >> 24) & 0xff) as u8,
    }
}

fn convert_words(raw: &Vec<u8>, count: usize, order: ByteOrder) -> (out: Vec<u8>)
    requires
        raw.len() == 4 * count,
    ensures
        out.len() == 4 * count,
        forall|i: int| 0 <= i < count ==> #[trigger] pixel_in(out@, i) == argb_pixel(order, raw@, i),
{
    let mut out: Vec<u8> = Vec::new();
    let mut i: usize = 0;
    while i < count
        invariant
            i <= count,
            raw.len() == 4 * count,
            out.len() == 4 * i,
            forall|j: int|
                0 <= j < i ==> #[trigger] pixel_in(out@, j) == argb_pixel(order, raw@, j),
        decreases count - i,
    {
        let p = unpack_word(order, raw[4 * i], raw[4 * i + 1], raw[4 * i + 2], raw[4 * i + 3]);
        let ghost before = out@;
        out.push(p.r);
        out.push(p.g);
        out.push(p.b);
        out.push(p.a);
        proof {
            assert forall|j: int| 0 <= j < i + 1 implies #[trigger] pixel_in(out@, j)
                == argb_pixel(order, raw@, j) by {
                if j < i {
                    assert(pixel_in(out@, j) == pixel_in(before, j));
                }
            }
        }
        i = i + 1;
    }
    out
}

fn convert_rgb(raw: &Vec<u8>, count: usize) -> (out: Vec<u8>)
    requires
        raw.len() == 3 * count,
    ensures
        out.len() == 4 * count,
        forall|i: int| 0 <= i < count ==> #[trigger] pixel_in(out@, i) == rgb_pixel(raw@, i),
{
    let mut out: Vec<u8> = Vec::new();
    let mut i: usize = 0;
    while i < count
        invariant
            i <= count,
            raw.len() == 3 * count,
            out.len() == 4 * i,
            forall|j: int| 0 <= j < i ==> #[trigger] pixel_in(out@, j) == rgb_pixel(raw@, j),
        decreases count - i,
    {
        let ghost before = out@;
        out.push(raw[3 * i]);
        out.push(raw[3 * i + 1]);
        out.push(raw[3 * i + 2]);
        out.push(255);
        proof {
            assert forall|j: int| 0 <= j < i + 1 implies #[trigger] pixel_in(out@, j)
                == rgb_pixel(raw@, j) by {
                if j < i {
                    assert(pixel_in(out@, j) == pixel_in(before, j));
                }
            }
        }
        i = i + 1;
    }
    out
}

pub(crate) fn copy_bytes(raw: &Vec<u8>) -> (out: Vec<u8>)
    ensures
        out@ == raw@,
{
    let mut out: Vec<u8> = Vec::new();
    let mut i: usize = 0;
    while i < raw.len()
        invariant
            i <= raw.len(),
            out@ == raw@.subrange(0, i as int),
        decreases raw.len() - i,
    {
        out.push(raw[i]);
        proof {
            assert(out@ =~= raw@.subrange(0, i + 1));
        }
        i = i + 1;
    }
    proof {
        assert(raw@.subrange(0, raw.len() as int) =~= raw@);
    }
    out
}

/// Converts raw framebuffer data of `width` times `height` pixels in the
/// layout that `code` stands for. Data whose length is not exactly what
/// that layout takes is refused.
pub fn decode_pixels(width: u32, height: u32, code: u32, raw: &Vec<u8>, order: ByteOrder) -> (result:
    Result<PixelImage, ScreenshotError>)
    ensures
        result is Ok <==> raw.len() == expected_len(width, height, PixelFormat::of_code(code)),
        result matches Ok(image) ==> {
            &&& image.width == width
            &&& image.height == height
            &&& image@.wf()
            &&& image@ == decoded_frame(width, height, PixelFormat::of_code(code), order, raw@)
            &&& forall|i: int|
                0 <= i < width * height ==> image@.pixel(i) == decoded_pixel(
                    PixelFormat::of_code(code),
                    order,
                    raw@,
                    i,
                )
        },
        result matches Err(e) ==> e@ == ScreenshotErrorView::Image(
            decode_error_text(PixelFormat::of_code(code)),
        ),
{
    let format = PixelFormat::from_code(code);
    let bpp = format.bytes_per_pixel();
    assert((width as int) * (height as int) <= 0xffff_ffff * 0xffff_ffff) by (nonlinear_arith)
        requires
            0 <= width <= 0xffff_ffff,
            0 <= height <= 0xffff_ffff,
    ;
    let area: u128 = (width as u128) * (height as u128);
    assert((area as int) * (bpp as int) <= 0xffff_ffff * 0xffff_ffff * 4) by (nonlinear_arith)
        requires
            0 <= area <= 0xffff_ffff * 0xffff_ffff,
            0 <= bpp <= 4,
    ;
    let expected: u128 = area * (bpp as u128);
    assert(expected == expected_len(width, height, format));
    if raw.len() as u128 != expected {
        return Err(decode_error(format));
    }
    let count: usize = raw.len() / bpp;
    proof {
        lemma_div_by_multiple(area as int, bpp as int);
        assert(count == area);
        assert(raw.len() == count * bpp);
    }
    let data = match format {
        PixelFormat::Argb32 | PixelFormat::Argb32Premultiplied => convert_words(
            raw,
            count,
            order,
        ),
        PixelFormat::Rgb888 => convert_rgb(raw, count),
        PixelFormat::Unknown(_) => copy_bytes(raw),
    };
    proof {
        let frame = decoded_frame(width, height, format, order, raw@);
        assert(data@.len() == frame.pixels.len());
        assert forall|k: int| 0 <= k < data@.len() implies data@[k] == frame.pixels[k] by {
            let i = k / 4;
            assert(0 <= i < count);
            assert(pixel_in(data@, i) == decoded_pixel(format, order, raw@, i));
        }
        assert(data@ =~= frame.pixels);
    }
    Ok(PixelImage { width, height, data })
}

/// In a little-endian word the bytes lie in memory as blue, green, red,
/// alpha.
pub proof fn law_little_endian_words_are_bgra(b0: u8, b1: u8, b2: u8, b3: u8)
    ensures
        unpack_argb(word_of_bytes(ByteOrder::LittleEndian, b0, b1, b2, b3)) == (Rgba {
            r: b2,
            g: b1,
            b: b0,
            a: b3,
        }),
{
    let word = (b0 as u32) | ((b1 as u32) << 8) | ((b2 as u32) << 16) | ((b3 as u32) << 24);
    assert(((word >> 16) & 0xff) == b2 as u32 && ((word >> 8) & 0xff) == b1 as u32 && (word & 0xff)
        == b0 as u32 && ((word >> 24) & 0xff) == b3 as u32) by (bit_vector)
        requires
            word == (b0 as u32) | ((b1 as u32) << 8) | ((b2 as u32) << 16) | ((b3 as u32) << 24),
    ;
}

/// In a big-endian word the bytes lie in memory as alpha, red, green, blue.
pub proof fn law_big_endian_words_are_argb(b0: u8, b1: u8, b2: u8, b3: u8)
    ensures
        unpack_argb(word_of_bytes(ByteOrder::BigEndian, b0, b1, b2, b3)) == (Rgba {
            r: b1,
            g: b2,
            b: b3,
            a: b0,
        }),
{
    let word = (b3 as u32) | ((b2 as u32) << 8) | ((b1 as u32) << 16) | ((b0 as u32) << 24);
    assert(((word >> 16) & 0xff) == b1 as u32 && ((word >> 8) & 0xff) == b2 as u32 && (word & 0xff)
        == b3 as u32 && ((word >> 24) & 0xff) == b0 as u32) by (bit_vector)
        requires
            word == (b3 as u32) | ((b2 as u32) << 8) | ((b1 as u32) << 16) | ((b0 as u32) << 24),
    ;
}

/// Calls `u32::from_ne_bytes` of the standard library, which reads the four
/// bytes as a word in the byte order of the machine: one of the two orders.
#[verifier::external_body]
fn word_from_native_bytes(b0: u8, b1: u8, b2: u8, b3: u8) -> (word: u32)
    ensures
        word == word_of_bytes(ByteOrder::LittleEndian, b0, b1, b2, b3) || word == word_of_bytes(
            ByteOrder::BigEndian,
            b0,
            b1,
            b2,
            b3,
        ),
{
    u32::from_ne_bytes([b0, b1, b2, b3])
}

impl ByteOrder {
    /// The byte order of the machine this runs on.
    pub fn native() -> ByteOrder {
        ByteOrder::from_probe(word_from_native_bytes(1, 0, 0, 0))
    }

    /// The word that the bytes 1, 0, 0, 0 read as in the given order.
    pub open spec fn probe_word(self) -> u32 {
        word_of_bytes(self, 1, 0, 0, 0)
    }

    /// The order in which the bytes 1, 0, 0, 0 were read, given the word
    /// they read as: lowest byte first where the word is the one that
    /// order gives, else highest byte first.
    pub open spec fn of_probe(word: u32) -> ByteOrder {
        if word == ByteOrder::LittleEndian.probe_word() {
            ByteOrder::LittleEndian
        } else {
            ByteOrder::BigEndian
        }
    }

    /// Tells the byte order from the word that the bytes 1, 0, 0, 0 read
    /// as.
    pub fn from_probe(word: u32) -> (order: ByteOrder)
        ensures
            order == ByteOrder::of_probe(word),
            order is LittleEndian <==> word == 1,
    {
        proof {
            law_probe_tells_the_order(ByteOrder::LittleEndian);
        }
        if word == 1 {
            ByteOrder::LittleEndian
        } else {
            ByteOrder::BigEndian
        }
    }
}

/// The word that the bytes 1, 0, 0, 0 read as tells the order in which
/// they were read: it is 1 with the lowest byte first and 0x0100_0000 with
/// the highest byte first.
pub proof fn law_probe_tells_the_order(order: ByteOrder)
    ensures
        ByteOrder::of_probe(order.probe_word()) == order,
        ByteOrder::LittleEndian.probe_word() == 1,
        ByteOrder::BigEndian.probe_word() == 0x0100_0000,
{
    assert((1u8 as u32) | ((0u8 as u32) << 8) | ((0u8 as u32) << 16) | ((0u8 as u32) << 24) == 1)
        by (bit_vector);
    assert((0u8 as u32) | ((0u8 as u32) << 8) | ((0u8 as u32) << 16) | ((1u8 as u32) << 24)
        == 0x0100_0000) by (bit_vector);
}

/// The pixels of a bitmap with `width` columns are numbered row after row:
/// the pixel in column `x` of row `y` has a number below the count of
/// pixels.
pub proof fn lemma_pixel_number_in_range(width: nat, height: nat, x: int, y: int)
    requires
        0 <= x < width,
        0 <= y < height,
    ensures
        0 <= y * width + x < width * height,
{
    assert(y * width + width <= height * width) by (nonlinear_arith)
        requires
            0 <= y < height,
            0 <= width,
    ;
    assert(0 <= y * width) by (nonlinear_arith)
        requires
            0 <= y,
            0 <= width,
    ;
    assert(height * width == width * height) by (nonlinear_arith);
}

/// In the bitmap that raw data decodes to, the pixel at every coordinate
/// is what the layout and the byte order make of the raw pixel of the same
/// number.
pub proof fn law_decoded_pixel_at_coordinate(
    width: u32,
    height: u32,
    format: PixelFormat,
    order: ByteOrder,
    raw: Seq<u8>,
    x: int,
    y: int,
)
    requires
        0 <= x < width,
        0 <= y < height,
    ensures
        decoded_frame(width, height, format, order, raw).wf(),
        decoded_frame(width, height, format, order, raw).pixel_at(x, y) == decoded_pixel(
            format,
            order,
            raw,
            y * width + x,
        ),
{
    lemma_pixel_number_in_range(width as nat, height as nat, x, y);
    let frame = decoded_frame(width, height, format, order, raw);
    let i = y * (width as nat) + x;
    assert(frame.pixels.len() == (width as nat) * (height as nat) * 4);
    assert(frame.pixels[4 * i] == channel(decoded_pixel(format, order, raw, i), 0));
    assert(frame.pixels[4 * i + 1] == channel(decoded_pixel(format, order, raw, i), 1));
    assert(frame.pixels[4 * i + 2] == channel(decoded_pixel(format, order, raw, i), 2));
    assert(frame.pixels[4 * i + 3] == channel(decoded_pixel(format, order, raw, i), 3));
}

impl PixelImage {
    /// Decides whether there are exactly four bytes for each pixel.
    pub fn is_valid(&self) -> (ok: bool)
        ensures
            ok == self@.wf(),
    {
        assert((self.width as int) * (self.height as int) <= 0xffff_ffff * 0xffff_ffff)
            by (nonlinear_arith)
            requires
                0 <= self.width <= 0xffff_ffff,
                0 <= self.height <= 0xffff_ffff,
        ;
        let area: u128 = (self.width as u128) * (self.height as u128);
        self.data.len() as u128 == area * 4
    }

    /// The pixel in column `x` of row `y`.
    pub fn get_pixel(&self, x: u32, y: u32) -> (p: Rgba)
        requires
            self@.wf(),
            x < self.width,
            y < self.height,
        ensures
            p == self@.pixel_at(x as int, y as int),
    {
        proof {
            lemma_pixel_number_in_range(
                self.width as nat,
                self.height as nat,
                x as int,
                y as int,
            );
            assert((self.width as nat) * (self.height as nat) <= 0xffff_ffff * 0xffff_ffff)
                by (nonlinear_arith)
                requires
                    self.width <= 0xffff_ffff,
                    self.height <= 0xffff_ffff,
            ;
        }
        let total: usize = self.data.len();
        let number: u64 = (y as u64) * (self.width as u64) + (x as u64);
        let i: usize = (number * 4) as usize;
        Rgba { r: self.data[i], g: self.data[i + 1], b: self.data[i + 2], a: self.data[i + 3] }
    }
}

} // verus!
