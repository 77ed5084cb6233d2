use cosmic_screenshot::screenshot::manager::{
    BackendEvent, BackendInfo, CaptureAction, CaptureSession, Phase, ScreenshotManager,
};
use cosmic_screenshot::screenshot::{
    ScreenshotError, ScreenshotKind, ScreenshotOptions, ScreenshotResult,
};

struct Scripted {
    available: bool,
    outcome: Result<ScreenshotResult, ScreenshotError>,
}

struct Run {
    result: Result<ScreenshotResult, ScreenshotError>,
    probed: Vec<usize>,
    captured: Vec<usize>,
}

fn result(tag: u8) -> ScreenshotResult {
    ScreenshotResult {
        path: Some(format!("/tmp/{tag}.png")),
        saved_to_clipboard: false,
        thumbnail_data: vec![tag],
        full_image_data: vec![tag, tag],
    }
}

fn options(kind: ScreenshotKind) -> ScreenshotOptions {
    ScreenshotOptions { kind, delay_ms: 0, save_to_clipboard: false, save_dir: None }
}

fn drive(
    manager: &ScreenshotManager,
    started: (CaptureSession, CaptureAction),
    script: &[Scripted],
) -> Run {
    let (mut session, mut action) = started;
    let mut probed = Vec::new();
    let mut captured = Vec::new();
    loop {
        match action {
            CaptureAction::Finish(result) => {
                assert_eq!(session.phase, Phase::Finished);
                return Run { result, probed, captured };
            }
            CaptureAction::Probe(i) => {
                probed.push(i);
                action = manager.advance(&mut session, BackendEvent::Availability(script[i].available));
            }
            CaptureAction::Capture(i) => {
                captured.push(i);
                action = manager.advance(&mut session, BackendEvent::Captured(script[i].outcome.clone()));
            }
        }
    }
}

fn all() -> Vec<ScreenshotKind> {
    ScreenshotKind::all()
}

fn three(kinds_of_second: Vec<ScreenshotKind>) -> ScreenshotManager {
    ScreenshotManager::with_backends(vec![
        BackendInfo::new("Alpha Native", all()),
        BackendInfo::new("Beta Portal", kinds_of_second),
        BackendInfo::new("Gamma Fallback", all()),
    ])
}

#[test]
fn fallback_reaches_the_third_backend() {
    let manager = three(vec![ScreenshotKind::AllScreens]);
    let script = [
        Scripted { available: false, outcome: Ok(result(1)) },
        Scripted { available: true, outcome: Ok(result(2)) },
        Scripted { available: true, outcome: Ok(result(3)) },
    ];
    let run = drive(
        &manager,
        manager.take_screenshot(&options(ScreenshotKind::WindowUnderCursor)),
        &script,
    );
    assert_eq!(run.result, Ok(result(3)));
    assert_eq!(run.probed, vec![0, 2]);
    assert_eq!(run.captured, vec![2]);
}

#[test]
fn all_failing_returns_the_last_error() {
    let manager = three(all());
    let script = [
        Scripted { available: true, outcome: Err(ScreenshotError::KWin("one".into())) },
        Scripted { available: true, outcome: Err(ScreenshotError::Portal("two".into())) },
        Scripted { available: true, outcome: Err(ScreenshotError::Io("three".into())) },
    ];
    let run = drive(&manager, manager.take_screenshot(&options(ScreenshotKind::AllScreens)), &script);
    assert_eq!(run.result, Err(ScreenshotError::Io("three".into())));
    assert_eq!(run.captured, vec![0, 1, 2]);
}

#[test]
fn first_success_stops_the_chain() {
    let manager = three(all());
    let script = [
        Scripted { available: true, outcome: Err(ScreenshotError::KWin("one".into())) },
        Scripted { available: true, outcome: Ok(result(2)) },
        Scripted { available: true, outcome: Ok(result(3)) },
    ];
    let run = drive(&manager, manager.take_screenshot(&options(ScreenshotKind::AllScreens)), &script);
    assert_eq!(run.result, Ok(result(2)));
    assert_eq!(run.probed, vec![0, 1]);
    assert_eq!(run.captured, vec![0, 1]);
}

#[test]
fn nothing_eligible_is_not_available() {
    let manager = three(all());
    let script = [
        Scripted { available: false, outcome: Ok(result(1)) },
        Scripted { available: false, outcome: Ok(result(2)) },
        Scripted { available: false, outcome: Ok(result(3)) },
    ];
    let run = drive(&manager, manager.take_screenshot(&options(ScreenshotKind::AllScreens)), &script);
    assert_eq!(run.result, Err(ScreenshotError::NotAvailable));
    assert!(run.captured.is_empty());
    let empty = ScreenshotManager::with_backends(Vec::new());
    let run = drive(&empty, empty.take_screenshot(&options(ScreenshotKind::AllScreens)), &[]);
    assert_eq!(run.result, Err(ScreenshotError::NotAvailable));
}

#[test]
fn cancellation_is_not_a_reason_to_fall_back() {
    let manager = three(all());
    let script = [
        Scripted { available: true, outcome: Err(ScreenshotError::Cancelled) },
        Scripted { available: true, outcome: Ok(result(2)) },
        Scripted { available: true, outcome: Ok(result(3)) },
    ];
    let run = drive(&manager, manager.take_screenshot(&options(ScreenshotKind::AllScreens)), &script);
    assert_eq!(run.result, Err(ScreenshotError::Cancelled));
    assert_eq!(run.captured, vec![0]);
}

#[test]
fn named_backend_failure_is_terminal() {
    let manager = three(all());
    let script = [
        Scripted { available: true, outcome: Ok(result(1)) },
        Scripted { available: true, outcome: Err(ScreenshotError::Portal("denied".into())) },
        Scripted { available: true, outcome: Ok(result(3)) },
    ];
    let run = drive(
        &manager,
        manager.take_screenshot_with_backend(&options(ScreenshotKind::AllScreens), Some("portal")),
        &script,
    );
    assert_eq!(run.result, Err(ScreenshotError::Portal("denied".into())));
    assert_eq!(run.probed, vec![1]);
    assert_eq!(run.captured, vec![1]);
}

#[test]
fn named_backend_is_matched_ignoring_case() {
    let manager = three(all());
    let script = [
        Scripted { available: true, outcome: Ok(result(1)) },
        Scripted { available: true, outcome: Ok(result(2)) },
        Scripted { available: true, outcome: Ok(result(3)) },
    ];
    let run = drive(
        &manager,
        manager.take_screenshot_with_backend(&options(ScreenshotKind::AllScreens), Some("GAMMA")),
        &script,
    );
    assert_eq!(run.result, Ok(result(3)));
    assert_eq!(run.captured, vec![2]);
}

#[test]
fn named_backend_that_is_missing_or_down_is_not_found() {
    let manager = three(vec![ScreenshotKind::AllScreens]);
    let script = [
        Scripted { available: true, outcome: Ok(result(1)) },
        Scripted { available: false, outcome: Ok(result(2)) },
        Scripted { available: true, outcome: Ok(result(3)) },
    ];
    for (name, kind) in [
        ("delta", ScreenshotKind::AllScreens),
        ("beta", ScreenshotKind::AllScreens),
        ("beta", ScreenshotKind::SelectScreen),
    ] {
        let run = drive(
            &manager,
            manager.take_screenshot_with_backend(&options(kind), Some(name)),
            &script,
        );
        assert_eq!(
            run.result,
            Err(ScreenshotError::Portal(format!("Backend '{name}' not found or not available")))
        );
        assert!(run.captured.is_empty());
    }
}

#[test]
fn region_capture_is_refused_without_contacting_a_backend() {
    let manager = three(all());
    for name in [None, Some("alpha")] {
        let (session, action) =
            manager.take_screenshot_with_backend(&options(ScreenshotKind::RectangularRegion), name);
        assert_eq!(session.phase, Phase::Finished);
        assert_eq!(
            action,
            CaptureAction::Finish(Err(ScreenshotError::Portal(
                "Rectangular region selection should use get_screenshot_for_region_selection() and snipper instead"
                    .to_string()
            )))
        );
    }
    let (_, action) = manager.take_screenshot(&options(ScreenshotKind::RectangularRegion));
    assert!(matches!(action, CaptureAction::Finish(Err(ScreenshotError::Portal(_)))));
}

#[test]
fn unexpected_answers_repeat_the_pending_action() {
    let manager = three(all());
    let (mut session, action) = manager.take_screenshot(&options(ScreenshotKind::AllScreens));
    assert_eq!(action, CaptureAction::Probe(0));
    let before = session.clone();
    assert_eq!(
        manager.advance(&mut session, BackendEvent::Captured(Ok(result(9)))),
        CaptureAction::Probe(0)
    );
    assert_eq!(session, before);
    assert_eq!(
        manager.advance(&mut session, BackendEvent::Availability(true)),
        CaptureAction::Capture(0)
    );
    assert_eq!(
        manager.advance(&mut session, BackendEvent::Availability(false)),
        CaptureAction::Capture(0)
    );
    assert_eq!(
        manager.advance(&mut session, BackendEvent::Captured(Ok(result(1)))),
        CaptureAction::Finish(Ok(result(1)))
    );
    assert_eq!(
        manager.advance(&mut session, BackendEvent::Availability(true)),
        CaptureAction::Finish(Err(ScreenshotError::Portal(
            "Capture session is already finished".to_string()
        )))
    );
}

#[test]
fn region_selection_capture_takes_the_screen_under_the_cursor() {
    let manager = ScreenshotManager::new();
    let (session, action) = manager.get_screenshot_for_region_selection();
    assert_eq!(session.kind, ScreenshotKind::ScreenUnderCursor);
    assert_eq!(session.backend_name, None);
    assert_eq!(action, CaptureAction::Probe(0));
}

#[test]
fn built_in_backends_are_in_order_of_preference() {
    let manager = ScreenshotManager::new();
    let names: Vec<&str> = manager.grabbers.iter().map(|g| g.name.as_str()).collect();
    assert_eq!(names, vec!["KWin ScreenShot2", "Freedesktop Portal", "X11 Native", "Windows Native"]);
    for grabber in &manager.grabbers {
        assert_eq!(grabber.kinds, ScreenshotKind::all());
        assert_eq!(grabber.supported_kinds(), ScreenshotKind::all());
    }
}

#[test]
fn introspection_lists_available_backends() {
    let manager = three(vec![ScreenshotKind::SelectScreen, ScreenshotKind::AllScreens]);
    let available = vec![false, true, true];
    assert_eq!(
        manager.get_available_grabbers(&available),
        vec!["Beta Portal".to_string(), "Gamma Fallback".to_string()]
    );
    assert_eq!(manager.get_available_grabber(&available), Some(1));
    assert_eq!(manager.get_grabber_by_name("fallback", &available), Some(2));
    assert_eq!(manager.get_grabber_by_name("alpha", &available), None);
    assert_eq!(manager.get_available_grabbers(&vec![true]), vec!["Alpha Native".to_string()]);
    assert_eq!(manager.get_available_grabber(&Vec::new()), None);
    assert!(manager.supports_kind_with_backend(ScreenshotKind::SelectScreen, "beta", &available));
    assert!(!manager.supports_kind_with_backend(ScreenshotKind::WindowUnderCursor, "beta", &available));
    assert!(!manager.supports_kind_with_backend(ScreenshotKind::AllScreens, "alpha", &available));
    assert_eq!(
        manager.get_backend_capabilities(&available),
        vec![
            (
                "Beta Portal".to_string(),
                vec![ScreenshotKind::AllScreens, ScreenshotKind::SelectScreen]
            ),
            ("Gamma Fallback".to_string(), ScreenshotKind::all()),
        ]
    );
}

#[test]
fn find_candidate_skips_backends_that_do_not_offer_the_kind() {
    let manager = three(vec![ScreenshotKind::AllScreens]);
    assert_eq!(manager.find_candidate(ScreenshotKind::SelectScreen, &None, 1), Some(2));
    assert_eq!(manager.find_candidate(ScreenshotKind::SelectScreen, &None, 3), None);
    assert_eq!(
        manager.find_candidate(ScreenshotKind::AllScreens, &Some("a p".to_string()), 0),
        Some(1)
    );
}
