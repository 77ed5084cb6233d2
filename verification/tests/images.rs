use cosmic_screenshot::codec::{
    decode_image, encode_png, encode_thumbnail, make_thumbnail, result_from_image,
    shrink_dimensions, thumbnail_dimensions,
};
use cosmic_screenshot::crop::{crop, crop_region, CropRegion};
use cosmic_screenshot::geometry::Rect;
use cosmic_screenshot::pixels::{ByteOrder, PixelImage, Rgba};
use cosmic_screenshot::screenshot::freedesktop_portal::{
    FileTransfer, PortalReply, PortalRequest, PortalScreengrabber,
};
use cosmic_screenshot::screenshot::kwin_screenshot2::{
    KWinCall, KWinMetadata, KWinRecovery, KWinScreengrabber,
};
use cosmic_screenshot::screenshot::windows_native::WindowsScreengrabber;
use cosmic_screenshot::screenshot::xorg_native::XorgScreengrabber;
use cosmic_screenshot::screenshot::{
    ScreenshotError, ScreenshotKind, ScreenshotOptions, ScreenshotResult,
};
use cosmic_screenshot::ui::{
    crop_image_to_region, crop_screenshot_to_region, data_to_save, region_selection_setup,
    selection_bounds,
};

fn gradient(width: u32, height: u32) -> PixelImage {
    let mut data = Vec::new();
    for y in 0..height {
        for x in 0..width {
            data.extend_from_slice(&[(x % 256) as u8, (y % 256) as u8, ((x + y) % 256) as u8, 255]);
        }
    }
    PixelImage { width, height, data }
}

fn pixel(image: &PixelImage, x: u32, y: u32) -> [u8; 4] {
    let i = ((y * image.width + x) * 4) as usize;
    [image.data[i], image.data[i + 1], image.data[i + 2], image.data[i + 3]]
}

#[test]
fn crop_region_clamps_to_the_image() {
    assert_eq!(
        crop_region(1000, 800, &Rect::new(900, 700, 300, 300)),
        Some(CropRegion { x: 900, y: 700, width: 100, height: 100 })
    );
}

#[test]
fn crop_region_inside_the_image_is_unchanged() {
    assert_eq!(
        crop_region(1000, 800, &Rect::new(10, 20, 30, 40)),
        Some(CropRegion { x: 10, y: 20, width: 30, height: 40 })
    );
    assert_eq!(
        crop_region(1000, 800, &Rect::new(0, 0, 1000, 800)),
        Some(CropRegion { x: 0, y: 0, width: 1000, height: 800 })
    );
}

#[test]
fn crop_region_with_negative_origin_starts_at_zero() {
    assert_eq!(
        crop_region(1000, 800, &Rect::new(-50, -60, 100, 100)),
        Some(CropRegion { x: 0, y: 0, width: 100, height: 100 })
    );
}

#[test]
fn crop_region_without_pixels_is_refused() {
    assert_eq!(crop_region(1000, 800, &Rect::new(1000, 0, 10, 10)), None);
    assert_eq!(crop_region(1000, 800, &Rect::new(0, 900, 10, 10)), None);
    assert_eq!(crop_region(1000, 800, &Rect::new(10, 10, 0, 10)), None);
    assert_eq!(crop_region(1000, 800, &Rect::new(10, 10, 10, -4)), None);
    assert_eq!(crop_region(0, 0, &Rect::new(0, 0, 10, 10)), None);
    assert_eq!(
        crop_region(u32::MAX, 5, &Rect::new(i64::MAX, i64::MIN, i64::MAX, i64::MAX)),
        None
    );
}

#[test]
fn crop_copies_the_pixels_of_the_region() {
    let image = gradient(7, 5);
    let region = CropRegion { x: 2, y: 1, width: 4, height: 3 };
    let cut = crop(&image, &region);
    assert_eq!((cut.width, cut.height), (4, 3));
    assert_eq!(cut.data.len(), 4 * 3 * 4);
    for y in 0..3 {
        for x in 0..4 {
            assert_eq!(pixel(&cut, x, y), pixel(&image, x + 2, y + 1));
        }
    }
    let whole = crop(&image, &CropRegion { x: 0, y: 0, width: 7, height: 5 });
    assert_eq!(whole, image);
    let none = crop(&image, &CropRegion { x: 7, y: 2, width: 0, height: 3 });
    assert_eq!((none.width, none.height, none.data.len()), (0, 3, 0));
}

#[test]
fn crop_image_to_region_refuses_an_empty_region() {
    let image = gradient(7, 5);
    assert_eq!(
        crop_image_to_region(&image, &Rect::new(7, 0, 5, 5)),
        Err(ScreenshotError::Portal("Invalid crop region".to_string()))
    );
    let cut = crop_image_to_region(&image, &Rect::new(5, 3, 10, 10)).unwrap();
    assert_eq!((cut.width, cut.height), (2, 2));
    assert_eq!(pixel(&cut, 1, 1), pixel(&image, 6, 4));
}

#[test]
fn png_round_trip_keeps_the_bitmap() {
    let image = gradient(9, 6);
    let bytes = encode_png(&image).unwrap();
    assert_eq!(&bytes[..8], &[0x89, b'P', b'N', b'G', 0x0d, 0x0a, 0x1a, 0x0a]);
    assert_ne!(bytes, image.data);
    let back = decode_image(&bytes).unwrap();
    assert_eq!(back, image);
    assert_eq!(encode_png(&image).unwrap(), bytes);
}

#[test]
fn decoding_garbage_is_an_image_error() {
    let error = decode_image(&vec![1, 2, 3, 4, 5]).unwrap_err();
    assert!(matches!(error, ScreenshotError::Image(ref text) if !text.is_empty()));
    assert!(matches!(decode_image(&Vec::new()), Err(ScreenshotError::Image(_))));
}

#[test]
fn thumbnail_dimensions_follow_the_target_height() {
    assert_eq!(thumbnail_dimensions(1920, 1080), (640, 360));
    assert_eq!(thumbnail_dimensions(1000, 361), (997, 360));
    assert_eq!(thumbnail_dimensions(640, 360), (640, 360));
    assert_eq!(thumbnail_dimensions(200, 100), (200, 100));
    assert_eq!(thumbnail_dimensions(1, 10_000), (0, 360));
    assert_eq!(thumbnail_dimensions(u32::MAX, u32::MAX), (360, 360));
    assert_eq!(thumbnail_dimensions(0, 0), (0, 0));
}

#[test]
fn thumbnail_of_a_tall_image_is_scaled_down() {
    let image = gradient(400, 720);
    let small = make_thumbnail(&image);
    assert_eq!((small.width, small.height), (200, 360));
    assert_eq!(small.data.len(), 200 * 360 * 4);
    let same = make_thumbnail(&gradient(30, 20));
    assert_eq!(same, gradient(30, 20));
    let bytes = encode_thumbnail(&image).unwrap();
    assert_eq!(decode_image(&bytes).unwrap(), small);
}

#[test]
fn thumbnail_of_a_bitmap_without_pixels_has_none() {
    let flat = make_thumbnail(&PixelImage { width: 0, height: 4, data: Vec::new() });
    assert_eq!((flat.width, flat.height, flat.data.len()), (0, 4, 0));
    let tall = make_thumbnail(&PixelImage { width: 0, height: 1000, data: Vec::new() });
    assert_eq!((tall.width, tall.height, tall.data.len()), (0, 360, 0));
    let thin = make_thumbnail(&PixelImage { width: 9, height: 0, data: Vec::new() });
    assert_eq!((thin.width, thin.height, thin.data.len()), (9, 0, 0));
}

#[test]
fn scaling_steps_never_shrink_a_side_too_far() {
    assert_eq!(shrink_dimensions(1920, 1080), (640, 360));
    assert_eq!(shrink_dimensions(200, 100), (200, 100));
    assert_eq!(shrink_dimensions(1, 361), (1, 360));
    assert_eq!(shrink_dimensions(2, 400_000), (1, 391));
    assert_eq!(shrink_dimensions(5000, 2_000_000), (5, 1954));
    assert_eq!(shrink_dimensions(3_000_000, 361), (2_991_689, 360));
    assert_eq!(shrink_dimensions(u32::MAX, u32::MAX), (4_194_304, 4_194_304));
    assert_eq!(shrink_dimensions(0, 0), (0, 0));
}

#[test]
fn thumbnail_of_a_very_narrow_bitmap_takes_several_steps() {
    let white = |width: u32, height: u32| PixelImage {
        width,
        height,
        data: vec![255; (width as usize) * (height as usize) * 4],
    };
    let small = make_thumbnail(&white(2, 1_200_000));
    assert!(small.is_valid());
    assert_eq!((small.width, small.height), (1, 360));
    assert!(small.data.iter().all(|&byte| byte == 255));
    let sliver = make_thumbnail(&white(1, 361));
    assert_eq!((sliver.width, sliver.height), (1, 360));
    let wide = make_thumbnail(&white(1_200_000, 2));
    assert_eq!((wide.width, wide.height), (1_200_000, 2));
    assert!(encode_thumbnail(&white(2, 400_000)).is_ok());
}

#[test]
fn result_from_image_holds_both_encodings() {
    let image = gradient(400, 720);
    let result = result_from_image(&image, Some("/tmp/a.png".to_string()), true).unwrap();
    assert_eq!(result.path, Some("/tmp/a.png".to_string()));
    assert!(result.saved_to_clipboard);
    assert_eq!(decode_image(&result.full_image_data).unwrap(), image);
    let small = decode_image(&result.thumbnail_data).unwrap();
    assert_eq!((small.width, small.height), (200, 360));
}

#[test]
fn crop_of_a_capture_cuts_the_encoded_image() {
    let image = gradient(40, 30);
    let capture = ScreenshotResult {
        path: Some("/tmp/full.png".to_string()),
        saved_to_clipboard: true,
        thumbnail_data: vec![1, 2, 3],
        full_image_data: encode_png(&image).unwrap(),
    };
    let cut = crop_screenshot_to_region(&capture, Rect::new(30, 20, 100, 100)).unwrap();
    assert_eq!(cut.path, None);
    assert!(cut.saved_to_clipboard);
    assert_eq!(cut.thumbnail_data, cut.full_image_data);
    let bitmap = decode_image(&cut.full_image_data).unwrap();
    assert_eq!((bitmap.width, bitmap.height), (10, 10));
    assert_eq!(pixel(&bitmap, 0, 0), pixel(&image, 30, 20));
    assert_eq!(pixel(&bitmap, 9, 9), pixel(&image, 39, 29));
    assert_eq!(
        crop_screenshot_to_region(&capture, Rect::new(40, 0, 10, 10)),
        Err(ScreenshotError::Portal("Invalid crop region".to_string()))
    );
    let broken = ScreenshotResult { full_image_data: vec![0, 1, 2], ..capture.clone() };
    assert!(matches!(
        crop_screenshot_to_region(&broken, Rect::new(0, 0, 10, 10)),
        Err(ScreenshotError::Image(_))
    ));
    assert_eq!(data_to_save(&capture), &capture.full_image_data);
    assert_eq!(data_to_save(&cut), &cut.thumbnail_data);
}

#[test]
fn selection_bounds_follow_the_image() {
    let bytes = encode_png(&gradient(40, 30)).unwrap();
    assert_eq!(selection_bounds(&bytes), Rect::new(0, 0, 40, 30));
    assert_eq!(selection_bounds(&vec![7, 7]), Rect::new(0, 0, 1920, 1080));
}

#[test]
fn kwin_frame_becomes_a_capture_result() {
    let grabber = KWinScreengrabber::new();
    let options = ScreenshotOptions {
        kind: ScreenshotKind::ScreenUnderCursor,
        delay_ms: 0,
        save_to_clipboard: true,
        save_dir: None,
    };
    let raw = vec![1, 2, 3, 4, 5, 6, 7, 8];
    let metadata = KWinMetadata { width: Some(2), height: Some(1), format: Some(5) };
    let result = grabber
        .save_screenshot_data(&raw, &metadata, &options, ByteOrder::LittleEndian, "/tmp/s.png".to_string())
        .unwrap();
    assert_eq!(result.path, Some("/tmp/s.png".to_string()));
    assert!(result.saved_to_clipboard);
    let bitmap = decode_image(&result.full_image_data).unwrap();
    assert_eq!(bitmap, PixelImage { width: 2, height: 1, data: vec![3, 2, 1, 4, 7, 6, 5, 8] });
    assert_eq!(decode_image(&result.thumbnail_data).unwrap(), bitmap);
}

#[test]
fn kwin_frame_with_missing_metadata_or_wrong_length_is_refused() {
    let grabber = KWinScreengrabber::new();
    let options = ScreenshotOptions::default();
    let raw = vec![0u8; 8];
    let store = |metadata: KWinMetadata, raw: &Vec<u8>| {
        grabber.save_screenshot_data(raw, &metadata, &options, ByteOrder::LittleEndian, "p".to_string())
    };
    assert_eq!(
        store(KWinMetadata { width: None, height: None, format: None }, &raw),
        Err(ScreenshotError::Portal("Missing width in KWin response".to_string()))
    );
    assert_eq!(
        store(KWinMetadata { width: Some(2), height: None, format: None }, &raw),
        Err(ScreenshotError::Portal("Missing height in KWin response".to_string()))
    );
    assert_eq!(
        store(KWinMetadata { width: Some(2), height: Some(1), format: None }, &raw),
        Err(ScreenshotError::Portal("Missing format in KWin response".to_string()))
    );
    assert_eq!(
        store(KWinMetadata { width: Some(2), height: Some(2), format: Some(6) }, &raw),
        Err(ScreenshotError::Image(
            "Failed to create RGBA image from premultiplied ARGB data".to_string()
        ))
    );
}

#[test]
fn kwin_calls_follow_the_kind() {
    let grabber = KWinScreengrabber::new();
    assert_eq!(grabber.name(), "KWin ScreenShot2");
    let mut options = ScreenshotOptions::default();
    assert_eq!(grabber.save_directory(&options, "/tmp"), "/tmp");
    options.save_dir = Some("/home/u".to_string());
    assert_eq!(grabber.save_directory(&options, "/tmp"), "/home/u");
    assert_eq!(grabber.capture_call(ScreenshotKind::AllScreens), KWinCall::CaptureWorkspace);
    assert_eq!(grabber.capture_call(ScreenshotKind::ScreenUnderCursor), KWinCall::CaptureActiveScreen);
    assert_eq!(grabber.capture_call(ScreenshotKind::WindowUnderCursor), KWinCall::CaptureActiveWindow);
    assert_eq!(grabber.capture_call(ScreenshotKind::SelectScreen), KWinCall::CaptureInteractive(1));
    assert_eq!(grabber.capture_call(ScreenshotKind::RectangularRegion), KWinCall::CaptureInteractive(0));
    for kind in ScreenshotKind::all() {
        assert!(grabber.supports_kind(kind));
    }
    let direct = grabber.direct_options();
    assert_eq!(
        (direct.include_cursor, direct.include_decoration, direct.include_shadow, direct.native_resolution),
        (false, None, None, true)
    );
    let interactive = grabber.interactive_options();
    assert_eq!(
        (
            interactive.include_cursor,
            interactive.include_decoration,
            interactive.include_shadow,
            interactive.native_resolution
        ),
        (false, Some(true), Some(true), true)
    );
}

#[test]
fn kwin_authorization_failure_falls_back_to_the_chooser() {
    let grabber = KWinScreengrabber::new();
    let denied = || {
        ScreenshotError::DBus("org.kde.KWin.ScreenShot2.Error.NoAuthorized: not allowed".to_string())
    };
    assert!(grabber.is_authorization_error("x NoAuthorized y"));
    assert!(!grabber.is_authorization_error("noauthorized"));
    assert_eq!(
        grabber.fallback_to_interactive(ScreenshotKind::ScreenUnderCursor, denied()),
        KWinRecovery::Interactive(1)
    );
    assert_eq!(
        grabber.fallback_to_interactive(ScreenshotKind::WindowUnderCursor, denied()),
        KWinRecovery::Interactive(0)
    );
    assert_eq!(
        grabber.fallback_to_interactive(ScreenshotKind::SelectScreen, denied()),
        KWinRecovery::Interactive(1)
    );
    assert_eq!(
        grabber.fallback_to_interactive(ScreenshotKind::RectangularRegion, denied()),
        KWinRecovery::Interactive(1)
    );
    assert_eq!(
        grabber.fallback_to_interactive(ScreenshotKind::AllScreens, denied()),
        KWinRecovery::Fail(denied())
    );
    let other = ScreenshotError::DBus("timeout".to_string());
    assert_eq!(
        grabber.fallback_to_interactive(ScreenshotKind::ScreenUnderCursor, other.clone()),
        KWinRecovery::Fail(other)
    );
    let not_bus = ScreenshotError::KWin("NoAuthorized".to_string());
    assert_eq!(
        grabber.fallback_to_interactive(ScreenshotKind::ScreenUnderCursor, not_bus.clone()),
        KWinRecovery::Fail(not_bus)
    );
}

#[test]
fn portal_request_is_interactive_except_for_all_screens() {
    let portal = PortalScreengrabber::new();
    assert_eq!(portal.name(), "Freedesktop Portal");
    assert_eq!(
        portal.request(ScreenshotKind::AllScreens),
        PortalRequest { interactive: false, modal: false }
    );
    for kind in [
        ScreenshotKind::ScreenUnderCursor,
        ScreenshotKind::WindowUnderCursor,
        ScreenshotKind::SelectScreen,
        ScreenshotKind::RectangularRegion,
    ] {
        assert_eq!(portal.request(kind), PortalRequest { interactive: true, modal: true });
        assert!(portal.supports_kind(kind));
    }
}

#[test]
fn portal_reply_is_read_from_the_scheme() {
    let portal = PortalScreengrabber::new();
    assert_eq!(
        portal.interpret_reply("file", "/tmp/shot.png"),
        Ok(PortalReply::File("/tmp/shot.png".to_string()))
    );
    assert_eq!(portal.interpret_reply("file", ""), Ok(PortalReply::File(String::new())));
    assert_eq!(portal.interpret_reply("clipboard", ""), Ok(PortalReply::Clipboard));
    assert_eq!(portal.interpret_reply("clipboard", "/ignored"), Ok(PortalReply::Clipboard));
    assert_eq!(
        portal.interpret_reply("https", "/x"),
        Err(ScreenshotError::Portal("Unsupported scheme: https".to_string()))
    );
    assert_eq!(
        portal.interpret_reply("FILE", "/x"),
        Err(ScreenshotError::Portal("Unsupported scheme: FILE".to_string()))
    );
    assert_eq!(
        portal.interpret_reply("", "/x"),
        Err(ScreenshotError::Portal("Unsupported scheme: ".to_string()))
    );
    assert_eq!(portal.transfer(5, 5), FileTransfer::Rename);
    assert_eq!(portal.transfer(5, 6), FileTransfer::CopyThenDelete);
}

#[test]
fn portal_results_carry_file_or_clipboard() {
    let portal = PortalScreengrabber::new();
    let clipboard = portal.clipboard_result();
    assert_eq!(
        clipboard,
        ScreenshotResult {
            path: None,
            saved_to_clipboard: true,
            thumbnail_data: Vec::new(),
            full_image_data: Vec::new(),
        }
    );
    let file = encode_png(&gradient(100, 720)).unwrap();
    let result = portal.file_result("/pics/a.png".to_string(), file.clone()).unwrap();
    assert_eq!(result.path, Some("/pics/a.png".to_string()));
    assert!(!result.saved_to_clipboard);
    assert_eq!(result.full_image_data, file);
    let small = decode_image(&result.thumbnail_data).unwrap();
    assert_eq!((small.width, small.height), (50, 360));
    assert_eq!(portal.generate_thumbnail(&file).unwrap(), result.thumbnail_data);
    assert!(matches!(
        portal.file_result("/pics/b.png".to_string(), vec![1, 2, 3]),
        Err(ScreenshotError::Image(_))
    ));
}

#[test]
fn native_fallbacks_report_availability_but_cannot_capture() {
    let xorg = XorgScreengrabber::new();
    assert_eq!(xorg.name(), "X11 Native");
    assert!(xorg.is_available(true, false));
    assert!(!xorg.is_available(true, true));
    assert!(!xorg.is_available(false, false));
    assert!(xorg.supports_kind(ScreenshotKind::SelectScreen));
    assert_eq!(xorg.take_screenshot(&ScreenshotOptions::default()), Err(ScreenshotError::NotAvailable));
    let windows = WindowsScreengrabber::new();
    assert_eq!(windows.name(), "Windows Native");
    assert!(windows.is_available(true));
    assert!(!windows.is_available(false));
    assert!(windows.supports_kind(ScreenshotKind::AllScreens));
    assert_eq!(
        windows.take_screenshot(&ScreenshotOptions::default()),
        Err(ScreenshotError::NotAvailable)
    );
}

#[test]
fn bitmaps_know_their_pixels() {
    let image = gradient(7, 5);
    assert!(image.is_valid());
    assert_eq!(image.get_pixel(0, 0), Rgba { r: 0, g: 0, b: 0, a: 255 });
    assert_eq!(image.get_pixel(6, 4), Rgba { r: 6, g: 4, b: 10, a: 255 });
    assert_eq!(image.get_pixel(3, 2), Rgba { r: 3, g: 2, b: 5, a: 255 });
    let short = PixelImage { width: 2, height: 2, data: vec![0; 15] };
    assert!(!short.is_valid());
    let long = PixelImage { width: 2, height: 2, data: vec![0; 17] };
    assert!(!long.is_valid());
    assert!(PixelImage { width: 0, height: 9, data: Vec::new() }.is_valid());
    assert!(!PixelImage { width: u32::MAX, height: u32::MAX, data: Vec::new() }.is_valid());
}

#[test]
fn region_selection_works_on_the_decoded_capture() {
    let image = gradient(40, 30);
    let capture = ScreenshotResult {
        path: None,
        saved_to_clipboard: false,
        thumbnail_data: Vec::new(),
        full_image_data: encode_png(&image).unwrap(),
    };
    let (bitmap, bounds) = region_selection_setup(&capture).unwrap();
    assert_eq!(bitmap, image);
    assert_eq!(bounds, Rect::new(0, 0, 40, 30));
    let broken = ScreenshotResult { full_image_data: vec![1], ..capture };
    assert!(matches!(region_selection_setup(&broken), Err(ScreenshotError::Image(_))));
}
