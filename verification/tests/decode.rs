use cosmic_screenshot::pixels::{decode_pixels, ByteOrder, PixelFormat, PixelImage};
use cosmic_screenshot::screenshot::{FailureKind, ScreenshotError};

fn pixel(image: &PixelImage, x: u32, y: u32) -> [u8; 4] {
    let i = ((y * image.width + x) * 4) as usize;
    [image.data[i], image.data[i + 1], image.data[i + 2], image.data[i + 3]]
}

fn words(pixels: &[(u8, u8, u8, u8)], order: ByteOrder) -> Vec<u8> {
    let mut raw = Vec::new();
    for &(a, r, g, b) in pixels {
        let word = (u32::from(a) << 24) | (u32::from(r) << 16) | (u32::from(g) << 8) | u32::from(b);
        match order {
            ByteOrder::LittleEndian => raw.extend_from_slice(&word.to_le_bytes()),
            ByteOrder::BigEndian => raw.extend_from_slice(&word.to_be_bytes()),
        }
    }
    raw
}

fn sample_pixels() -> Vec<(u8, u8, u8, u8)> {
    let mut pixels = Vec::new();
    for i in 0..6u8 {
        pixels.push((200 + i, 10 * i, 20 + i, 255 - i));
    }
    pixels
}

#[test]
fn argb32_little_endian_is_unpacked_per_pixel() {
    let pixels = sample_pixels();
    let raw = words(&pixels, ByteOrder::LittleEndian);
    let image = decode_pixels(3, 2, 5, &raw, ByteOrder::LittleEndian).unwrap();
    assert_eq!((image.width, image.height), (3, 2));
    assert_eq!(image.data.len(), 24);
    for y in 0..2 {
        for x in 0..3 {
            let (a, r, g, b) = pixels[(y * 3 + x) as usize];
            assert_eq!(pixel(&image, x, y), [r, g, b, a]);
        }
    }
}

#[test]
fn argb32_big_endian_is_unpacked_per_pixel() {
    let pixels = sample_pixels();
    let raw = words(&pixels, ByteOrder::BigEndian);
    let image = decode_pixels(2, 3, 5, &raw, ByteOrder::BigEndian).unwrap();
    for y in 0..3 {
        for x in 0..2 {
            let (a, r, g, b) = pixels[(y * 2 + x) as usize];
            assert_eq!(pixel(&image, x, y), [r, g, b, a]);
        }
    }
}

#[test]
fn premultiplied_argb32_is_unpacked_like_argb32() {
    let pixels = sample_pixels();
    let raw = words(&pixels, ByteOrder::LittleEndian);
    let plain = decode_pixels(3, 2, 5, &raw, ByteOrder::LittleEndian).unwrap();
    let premultiplied = decode_pixels(3, 2, 6, &raw, ByteOrder::LittleEndian).unwrap();
    assert_eq!(plain, premultiplied);
    assert_eq!(pixel(&premultiplied, 1, 1), [40, 24, 251, 204]);
}

#[test]
fn little_endian_bytes_are_blue_green_red_alpha() {
    let raw = vec![1, 2, 3, 4];
    let image = decode_pixels(1, 1, 5, &raw, ByteOrder::LittleEndian).unwrap();
    assert_eq!(image.data, vec![3, 2, 1, 4]);
    let image = decode_pixels(1, 1, 5, &raw, ByteOrder::BigEndian).unwrap();
    assert_eq!(image.data, vec![2, 3, 4, 1]);
}

#[test]
fn rgb888_gets_opaque_alpha() {
    let raw = vec![1, 2, 3, 4, 5, 6, 7, 8, 9, 10, 11, 12];
    let image = decode_pixels(2, 2, 13, &raw, ByteOrder::LittleEndian).unwrap();
    assert_eq!(pixel(&image, 0, 0), [1, 2, 3, 255]);
    assert_eq!(pixel(&image, 1, 0), [4, 5, 6, 255]);
    assert_eq!(pixel(&image, 0, 1), [7, 8, 9, 255]);
    assert_eq!(pixel(&image, 1, 1), [10, 11, 12, 255]);
}

#[test]
fn unknown_format_is_taken_as_rgba() {
    let raw = vec![9, 8, 7, 6, 5, 4, 3, 2];
    let image = decode_pixels(2, 1, 4, &raw, ByteOrder::BigEndian).unwrap();
    assert_eq!(image.data, raw);
    assert!(!PixelFormat::from_code(4).is_known());
    assert!(PixelFormat::from_code(5).is_known());
    assert!(PixelFormat::from_code(6).is_known());
    assert!(PixelFormat::from_code(13).is_known());
}

#[test]
fn wrong_length_is_an_image_error_for_every_format() {
    let cases = [
        (5u32, "Failed to create RGBA image from ARGB data"),
        (6, "Failed to create RGBA image from premultiplied ARGB data"),
        (13, "Failed to create RGBA image from RGB data"),
        (77, "Failed to create image from unknown format 77"),
    ];
    for (code, text) in cases {
        let bpp = if code == 13 { 3 } else { 4 };
        for len in [0usize, 2 * 2 * bpp - 1, 2 * 2 * bpp + 1, 2 * 2 * bpp + bpp] {
            let raw = vec![0u8; len];
            let error = decode_pixels(2, 2, code, &raw, ByteOrder::LittleEndian).unwrap_err();
            assert_eq!(error, ScreenshotError::Image(text.to_string()));
            assert_eq!(error.kind(), FailureKind::ImageDecodeFailure);
        }
    }
}

#[test]
fn rgb_length_is_not_accepted_for_argb() {
    let raw = vec![0u8; 12];
    assert!(decode_pixels(2, 2, 5, &raw, ByteOrder::LittleEndian).is_err());
    assert!(decode_pixels(2, 2, 13, &raw, ByteOrder::LittleEndian).is_ok());
    assert!(decode_pixels(1, 3, 5, &raw, ByteOrder::LittleEndian).is_ok());
}

#[test]
fn empty_image_decodes_from_empty_data() {
    let image = decode_pixels(0, 7, 5, &Vec::new(), ByteOrder::LittleEndian).unwrap();
    assert_eq!((image.width, image.height), (0, 7));
    assert!(image.data.is_empty());
    assert!(decode_pixels(0, 7, 5, &vec![1, 2, 3, 4], ByteOrder::LittleEndian).is_err());
}

#[test]
fn native_byte_order_is_that_of_the_machine() {
    let expected = if u32::from_ne_bytes([1, 0, 0, 0]) == 1 {
        ByteOrder::LittleEndian
    } else {
        ByteOrder::BigEndian
    };
    assert_eq!(ByteOrder::native(), expected);
    let raw = 0x11223344u32.to_ne_bytes().to_vec();
    let image = decode_pixels(1, 1, 5, &raw, ByteOrder::native()).unwrap();
    assert_eq!(image.data, vec![0x22, 0x33, 0x44, 0x11]);
}

#[test]
fn format_codes_map_to_layouts() {
    assert_eq!(PixelFormat::from_code(5), PixelFormat::Argb32);
    assert_eq!(PixelFormat::from_code(6), PixelFormat::Argb32Premultiplied);
    assert_eq!(PixelFormat::from_code(13), PixelFormat::Rgb888);
    assert_eq!(PixelFormat::from_code(0), PixelFormat::Unknown(0));
    assert_eq!(PixelFormat::Rgb888.bytes_per_pixel(), 3);
    assert_eq!(PixelFormat::Argb32.bytes_per_pixel(), 4);
    assert_eq!(PixelFormat::Unknown(9).bytes_per_pixel(), 4);
}

#[test]
fn byte_order_is_told_from_the_probe_word() {
    assert_eq!(ByteOrder::from_probe(1), ByteOrder::LittleEndian);
    assert_eq!(ByteOrder::from_probe(0x0100_0000), ByteOrder::BigEndian);
    assert_eq!(ByteOrder::from_probe(u32::from_le_bytes([1, 0, 0, 0])), ByteOrder::LittleEndian);
    assert_eq!(ByteOrder::from_probe(u32::from_be_bytes([1, 0, 0, 0])), ByteOrder::BigEndian);
    assert_eq!(ByteOrder::from_probe(u32::from_ne_bytes([1, 0, 0, 0])), ByteOrder::native());
}
