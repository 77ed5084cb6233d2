use cosmic_screenshot::naming::{region_filename, screenshot_filename, Timestamp};
use cosmic_screenshot::screenshot::{FailureKind, ScreenshotError, ScreenshotKind, ScreenshotOptions};
use cosmic_screenshot::text::{contains_ignore_case, parse_u32, push_decimal};
use cosmic_screenshot::settings::ScreenshotSettings;
use cosmic_screenshot::screenshot::ScreenshotResult;
use cosmic_screenshot::ui::{
    capture_options, capture_plan, completion_step, get_screenshot_kind_index, kind_from_string,
    kind_to_string, parse_delay, region_capture_options, region_output_directory,
    region_startup, selected_backend_name, settings_startup, CapturePlan, CompletionStep,
    SelectionMemory, StartupParameters,
};
use cosmic_screenshot::geometry::Rect;

fn decimal(n: u32, width: usize) -> String {
    let mut out = String::from(">");
    push_decimal(&mut out, n, width);
    out
}

#[test]
fn decimals_are_zero_padded() {
    assert_eq!(decimal(0, 0), ">0");
    assert_eq!(decimal(0, 2), ">00");
    assert_eq!(decimal(7, 2), ">07");
    assert_eq!(decimal(42, 2), ">42");
    assert_eq!(decimal(123, 2), ">123");
    assert_eq!(decimal(5, 4), ">0005");
    assert_eq!(decimal(u32::MAX, 4), ">4294967295");
    assert_eq!(decimal(1000, 1), ">1000");
}

#[test]
fn numbers_are_read_from_decimal_text() {
    assert_eq!(parse_u32("0"), Some(0));
    assert_eq!(parse_u32("007"), Some(7));
    assert_eq!(parse_u32("+15"), Some(15));
    assert_eq!(parse_u32("4294967295"), Some(u32::MAX));
    assert_eq!(parse_u32("4294967296"), None);
    assert_eq!(parse_u32("99999999999999999999999"), None);
    assert_eq!(parse_u32(""), None);
    assert_eq!(parse_u32("+"), None);
    assert_eq!(parse_u32("-1"), None);
    assert_eq!(parse_u32("12a"), None);
    assert_eq!(parse_u32(" 12"), None);
    assert_eq!(parse_u32("1+2"), None);
    assert_eq!(parse_u32("１２"), None);
    for text in ["0", "007", "+15", "4294967295", "4294967296", "", "+", "-1", "12a", "++1"] {
        assert_eq!(parse_u32(text), text.parse::<u32>().ok());
    }
}

#[test]
fn delay_defaults_to_zero() {
    assert_eq!(parse_delay("250"), 250);
    assert_eq!(parse_delay("soon"), 0);
    assert_eq!(parse_delay(""), 0);
}

#[test]
fn file_names_carry_date_and_time() {
    let at = Timestamp { year: 2024, month: 3, day: 9, hour: 7, minute: 5, second: 0 };
    assert_eq!(screenshot_filename(&at), "Screenshot_2024-03-09_07-05-00.png");
    assert_eq!(region_filename(&at), "screenshot_20240309_070500.png");
    let late = Timestamp { year: 987, month: 12, day: 31, hour: 23, minute: 59, second: 59 };
    assert_eq!(screenshot_filename(&late), "Screenshot_0987-12-31_23-59-59.png");
    assert_eq!(region_filename(&late), "screenshot_09871231_235959.png");
}

#[test]
fn search_ignores_letter_case() {
    assert!(contains_ignore_case("KWin ScreenShot2", "kwin"));
    assert!(contains_ignore_case("KWin ScreenShot2", "SCREENSHOT"));
    assert!(contains_ignore_case("Freedesktop Portal", ""));
    assert!(contains_ignore_case("X11 Native", "11 n"));
    assert!(!contains_ignore_case("X11 Native", "wayland"));
    assert!(!contains_ignore_case("kwin", "KWin ScreenShot2"));
}

#[test]
fn kinds_have_labels_tokens_and_places() {
    let expected = [
        (ScreenshotKind::AllScreens, "All screens", "all", 0usize),
        (ScreenshotKind::ScreenUnderCursor, "Screen under cursor", "screen", 1),
        (ScreenshotKind::WindowUnderCursor, "Window under cursor", "window", 2),
        (ScreenshotKind::SelectScreen, "Select screen", "select", 3),
        (ScreenshotKind::RectangularRegion, "Rectangular region", "region", 4),
    ];
    for (kind, label, token, index) in expected {
        assert_eq!(kind.label(), label);
        assert_eq!(kind_to_string(kind), label);
        assert_eq!(kind.token(), token);
        assert_eq!(kind.index(), index);
        assert_eq!(get_screenshot_kind_index(kind), index);
        assert_eq!(ScreenshotKind::from_label(label), Some(kind));
        assert_eq!(kind_from_string(label), kind);
        assert_eq!(ScreenshotKind::from_token(token), Some(kind));
        assert_eq!(ScreenshotKind::from_index(index), kind);
    }
    assert_eq!(ScreenshotKind::from_label("all screens"), None);
    assert_eq!(kind_from_string("nonsense"), ScreenshotKind::AllScreens);
    assert_eq!(ScreenshotKind::from_token("All"), None);
    assert_eq!(ScreenshotKind::from_index(5), ScreenshotKind::AllScreens);
    assert_eq!(ScreenshotKind::default(), ScreenshotKind::AllScreens);
    assert_eq!(ScreenshotKind::all().len(), 5);
}

#[test]
fn errors_have_a_line_of_text_and_a_kind() {
    let cases = [
        (ScreenshotError::Portal("p".into()), "Portal error: p", FailureKind::ProtocolFailure),
        (ScreenshotError::KWin("k".into()), "KWin error: k", FailureKind::ProtocolFailure),
        (ScreenshotError::DBus("d".into()), "DBus error: d", FailureKind::ProtocolFailure),
        (
            ScreenshotError::DBus("Error.NoAuthorized".into()),
            "DBus error: Error.NoAuthorized",
            FailureKind::AuthorizationDenied,
        ),
        (ScreenshotError::Io("i".into()), "IO error: i", FailureKind::IoFailure),
        (
            ScreenshotError::Image("m".into()),
            "Image processing error: m",
            FailureKind::ImageDecodeFailure,
        ),
        (ScreenshotError::NotAvailable, "Screengrabber not available", FailureKind::Unavailable),
        (ScreenshotError::Cancelled, "Operation cancelled", FailureKind::Cancelled),
    ];
    for (error, text, kind) in cases {
        assert_eq!(error.message(), text);
        assert_eq!(error.kind(), kind);
    }
}

#[test]
fn default_options_capture_all_screens_at_once() {
    let options = ScreenshotOptions::default();
    assert_eq!(
        options,
        ScreenshotOptions {
            kind: ScreenshotKind::AllScreens,
            delay_ms: 0,
            save_to_clipboard: false,
            save_dir: None,
        }
    );
    assert_eq!(
        capture_options(ScreenshotKind::SelectScreen, 300),
        ScreenshotOptions { kind: ScreenshotKind::SelectScreen, delay_ms: 300, ..options.clone() }
    );
    assert_eq!(
        region_capture_options(),
        ScreenshotOptions { kind: ScreenshotKind::ScreenUnderCursor, ..options }
    );
}

#[test]
fn first_place_in_the_backend_list_means_any_backend() {
    let backends = vec!["Auto".to_string(), "KWin ScreenShot2".to_string(), "X11 Native".to_string()];
    assert_eq!(selected_backend_name(0, &backends), None);
    assert_eq!(selected_backend_name(1, &backends), Some("KWin ScreenShot2".to_string()));
    assert_eq!(selected_backend_name(2, &backends), Some("X11 Native".to_string()));
    assert_eq!(selected_backend_name(3, &backends), None);
    assert_eq!(selected_backend_name(0, &Vec::new()), None);
}

#[test]
fn selection_memory_is_gated_by_the_remember_flag() {
    let region = Rect::new(1, 2, 30, 40);
    let mut memory = SelectionMemory::new(false, None);
    assert!(!memory.record(region));
    assert_eq!(memory.for_new_session(), None);
    memory.set_remember(true);
    assert_eq!(memory.for_new_session(), None);
    assert!(memory.record(region));
    assert_eq!(memory.for_new_session(), Some(region));
    memory.set_remember(false);
    assert_eq!(memory, SelectionMemory { remember: false, last: None });
    memory.set_remember(true);
    assert_eq!(memory.for_new_session(), None);
    let kept = SelectionMemory::new(false, Some(region));
    assert_eq!(kept.for_new_session(), None);
}

#[test]
fn window_starts_from_command_line_or_settings() {
    let pictures = Some("/pictures".to_string());
    assert_eq!(
        region_startup(Some("0150"), Some("/out".to_string()), pictures.clone()),
        StartupParameters {
            kind: ScreenshotKind::RectangularRegion,
            delay_text: "150".to_string(),
            save_directory: Some("/out".to_string()),
        }
    );
    assert_eq!(
        region_startup(Some("later"), None, pictures.clone()),
        StartupParameters {
            kind: ScreenshotKind::RectangularRegion,
            delay_text: "0".to_string(),
            save_directory: pictures.clone(),
        }
    );
    assert_eq!(region_startup(None, None, None).save_directory, None);
    let mut settings = ScreenshotSettings::new(Some("/kept".to_string()));
    settings.last_screenshot_kind = "Select screen".to_string();
    settings.last_screenshot_delay = 2500;
    assert_eq!(
        settings_startup(&settings, pictures.clone()),
        StartupParameters {
            kind: ScreenshotKind::SelectScreen,
            delay_text: "2500".to_string(),
            save_directory: Some("/kept".to_string()),
        }
    );
    settings.remember_save_directory = false;
    settings.last_screenshot_kind = "?".to_string();
    assert_eq!(
        settings_startup(&settings, pictures.clone()),
        StartupParameters {
            kind: ScreenshotKind::AllScreens,
            delay_text: "2500".to_string(),
            save_directory: pictures.clone(),
        }
    );
    let a = Some("/a".to_string());
    let b = Some("/b".to_string());
    assert_eq!(region_output_directory(a.clone(), b.clone(), pictures.clone()), "/a");
    assert_eq!(region_output_directory(None, b, pictures.clone()), "/b");
    assert_eq!(region_output_directory(None, None, pictures), "/pictures");
    assert_eq!(region_output_directory(None, None, None), ".");
}

#[test]
fn region_captures_never_go_to_a_backend_as_such() {
    let backends = vec!["Auto".to_string(), "KWin ScreenShot2".to_string()];
    assert_eq!(
        capture_plan(ScreenshotKind::RectangularRegion, "100", 1, &backends),
        CapturePlan::RegionSelection
    );
    assert_eq!(
        capture_plan(ScreenshotKind::WindowUnderCursor, "100", 1, &backends),
        CapturePlan::Backend {
            options: capture_options(ScreenshotKind::WindowUnderCursor, 100),
            backend_name: Some("KWin ScreenShot2".to_string()),
        }
    );
    assert_eq!(
        capture_plan(ScreenshotKind::AllScreens, "x", 0, &backends),
        CapturePlan::Backend {
            options: capture_options(ScreenshotKind::AllScreens, 0),
            backend_name: None,
        }
    );
    let capture = ScreenshotResult {
        path: None,
        saved_to_clipboard: false,
        thumbnail_data: vec![1],
        full_image_data: vec![2],
    };
    assert_eq!(
        completion_step(ScreenshotKind::RectangularRegion, Ok(capture.clone())),
        CompletionStep::SelectRegion(capture.clone())
    );
    assert_eq!(
        completion_step(ScreenshotKind::SelectScreen, Ok(capture.clone())),
        CompletionStep::Show(capture)
    );
    assert_eq!(
        completion_step(ScreenshotKind::RectangularRegion, Err("no".to_string())),
        CompletionStep::Fail("no".to_string())
    );
}

#[test]
fn search_finds_a_run_of_characters_anywhere() {
    assert!(contains_ignore_case("", ""));
    assert!(!contains_ignore_case("", "a"));
    assert!(contains_ignore_case("a", "a"));
    assert!(contains_ignore_case("xxab", "ab"));
    assert!(contains_ignore_case("abxx", "ab"));
    assert!(contains_ignore_case("aab", "ab"));
    assert!(!contains_ignore_case("aba", "abb"));
    assert!(!contains_ignore_case("ab", "abc"));
    assert!(contains_ignore_case("grüße an alle", "ÜSS") == "grüße an alle".to_lowercase().contains(&"ÜSS".to_lowercase()));
    assert!(contains_ignore_case("Größe", "öß"));
    for (text, expected) in [
        ("NoAuthorized", FailureKind::AuthorizationDenied),
        ("x.NoAuthorized", FailureKind::AuthorizationDenied),
        ("NoAuthorized: y", FailureKind::AuthorizationDenied),
        ("NoAuthorize", FailureKind::ProtocolFailure),
        ("No Authorized", FailureKind::ProtocolFailure),
        ("", FailureKind::ProtocolFailure),
    ] {
        assert_eq!(ScreenshotError::DBus(text.to_string()).kind(), expected);
    }
}
