use cosmic_screenshot::cli::{picture_directory, saved_notification};
use cosmic_screenshot::dbus::ScreenshotService;
use cosmic_screenshot::error::{BusErrorKind, Error, PortalError, UserMessage};
use cosmic_screenshot::error_handling::{
    console_line, format_error_message, is_gui_mode, report_error, report_success,
    set_gui_mode, setup_gui_channel, should_show_dialog, success_line, ErrorSeverity,
    ReportContext, ReportRoute,
};
use cosmic_screenshot::geometry::Rect;
use cosmic_screenshot::notifications::{
    notifications_available, show_system_notification, NotificationManager, NotificationType,
    NotificationUrgency,
};
use cosmic_screenshot::screenshot::manager::{CaptureAction, Phase};
use cosmic_screenshot::screenshot::{ScreenshotError, ScreenshotKind, ScreenshotOptions};
use cosmic_screenshot::settings::{
    ScreenshotSettings, SelectionArea, SettingsEntries, SettingsManager, APP_ID,
};
use cosmic_screenshot::shell::{
    raise_strategy, script_object_path, window_role, RaiseStrategy, WindowRole,
};

#[test]
fn notification_types_have_urgency_and_icon() {
    let expected = [
        (NotificationType::Info, NotificationUrgency::Low, 0u8, "dialog-information"),
        (NotificationType::Success, NotificationUrgency::Low, 0, "emblem-default"),
        (NotificationType::Warning, NotificationUrgency::Normal, 1, "dialog-warning"),
        (NotificationType::Error, NotificationUrgency::Critical, 2, "dialog-error"),
    ];
    for (kind, urgency, level, icon) in expected {
        assert_eq!(kind.urgency(), urgency);
        assert_eq!(kind.urgency().level(), level);
        assert_eq!(kind.icon(), icon);
    }
}

#[test]
fn notifications_need_a_connection() {
    let connected = NotificationManager::new(true);
    assert!(connected.is_available());
    let request = connected.show_notification(NotificationType::Warning, "Title", "Body").unwrap();
    assert_eq!(request.app_name, "COSMIC Screenshot");
    assert_eq!(request.replaces_id, 0);
    assert_eq!(request.app_icon, "dialog-warning");
    assert_eq!(request.summary, "Title");
    assert_eq!(request.body, "Body");
    assert_eq!(request.urgency, 1);
    assert_eq!(request.expire_timeout, 5000);
    assert_eq!(connected.close_notification(17), Ok(17));
    let offline = NotificationManager::new(false);
    assert!(!offline.is_available());
    let text = "No D-Bus connection available for notifications".to_string();
    assert_eq!(offline.show_notification(NotificationType::Info, "a", "b"), Err(text.clone()));
    assert_eq!(offline.close_notification(17), Err(text.clone()));
    assert_eq!(
        show_system_notification(None, NotificationType::Info, "a", "b"),
        Err("Notification manager not initialized".to_string())
    );
    assert_eq!(show_system_notification(Some(&offline), NotificationType::Info, "a", "b"), Err(text));
    assert_eq!(
        show_system_notification(Some(&connected), NotificationType::Error, "a", "b").unwrap().urgency,
        2
    );
    assert!(notifications_available(Some(&connected)));
    assert!(!notifications_available(Some(&offline)));
    assert!(!notifications_available(None));
}

#[test]
fn reports_are_routed_by_mode_and_severity() {
    let mut context = ReportContext::new();
    assert!(!is_gui_mode(&context));
    for severity in [ErrorSeverity::Error, ErrorSeverity::Warning, ErrorSeverity::Info] {
        assert_eq!(report_error(&context, severity), ReportRoute::Console);
    }
    assert_eq!(report_success(&context), ReportRoute::Console);
    set_gui_mode(&mut context, true);
    assert!(is_gui_mode(&context));
    assert_eq!(report_error(&context, ErrorSeverity::Error), ReportRoute::Console);
    setup_gui_channel(&mut context);
    assert_eq!(context, ReportContext { gui_mode: true, gui_channel: true });
    assert_eq!(report_error(&context, ErrorSeverity::Error), ReportRoute::Dialog);
    assert_eq!(
        report_error(&context, ErrorSeverity::Warning),
        ReportRoute::Notification(NotificationType::Warning)
    );
    assert_eq!(
        report_error(&context, ErrorSeverity::Info),
        ReportRoute::Notification(NotificationType::Info)
    );
    assert_eq!(report_success(&context), ReportRoute::Notification(NotificationType::Success));
    set_gui_mode(&mut context, false);
    assert_eq!(report_error(&context, ErrorSeverity::Error), ReportRoute::Console);
}

#[test]
fn report_texts_are_formatted() {
    assert_eq!(format_error_message("Title", "Message"), "Title\n\nMessage");
    assert_eq!(format_error_message("", ""), "\n\n");
    assert_eq!(console_line(ErrorSeverity::Error, "T", "m"), "ERROR: T: m");
    assert_eq!(console_line(ErrorSeverity::Warning, "T", "m"), "WARNING: T: m");
    assert_eq!(console_line(ErrorSeverity::Info, "T", "m"), "INFO: T: m");
    assert_eq!(success_line("Saved", "to disk"), "SUCCESS: Saved: to disk");
    assert!(should_show_dialog(&ErrorSeverity::Error));
    assert!(!should_show_dialog(&ErrorSeverity::Warning));
    assert!(!should_show_dialog(&ErrorSeverity::Info));
}

#[test]
fn portal_errors_are_told_apart() {
    let portal = |kind: PortalError| Error::Ashpd(kind, "portal said no".to_string());
    let cancelled = [portal(PortalError::ResponseCancelled), portal(PortalError::Cancelled)];
    for error in &cancelled {
        assert!(error.cancelled());
        assert!(!error.zbus());
        assert!(!error.unsupported());
        assert_eq!(error.to_user_facing(), UserMessage::Cancelled);
    }
    let unsupported_bus = [
        portal(PortalError::Bus(BusErrorKind::Unsupported)),
        portal(PortalError::Bus(BusErrorKind::InterfaceNotFound)),
        portal(PortalError::PortalBus(BusErrorKind::Unsupported)),
        portal(PortalError::PortalBus(BusErrorKind::InterfaceNotFound)),
    ];
    for error in &unsupported_bus {
        assert!(error.unsupported());
        assert!(error.zbus());
        assert_eq!(error.to_user_facing(), UserMessage::BusError);
    }
    let other_bus = portal(PortalError::Bus(BusErrorKind::Other));
    assert!(other_bus.zbus());
    assert!(!other_bus.unsupported());
    let version = portal(PortalError::RequiresVersion);
    assert!(version.unsupported());
    assert!(!version.zbus());
    assert_eq!(version.to_user_facing(), UserMessage::Failed);
    assert_eq!(
        portal(PortalError::NotAllowed("no".into())).to_user_facing(),
        UserMessage::NotAllowed("no".into())
    );
    assert_eq!(
        Error::MissingSaveDirectory(Some("/x".into())).to_user_facing(),
        UserMessage::NoDirectory("/x".into())
    );
    assert_eq!(
        Error::MissingSaveDirectory(None).to_user_facing(),
        UserMessage::NoDirectory(String::new())
    );
    assert_eq!(Error::Notify("n".into()).to_user_facing(), UserMessage::Failed);
    assert_eq!(
        Error::SaveScreenshot { error: "e".into(), context: "c".into() }.to_user_facing(),
        UserMessage::Failed
    );
    assert_eq!(portal(PortalError::ResponseOther).to_user_facing(), UserMessage::Failed);
    assert_eq!(portal(PortalError::Other).to_user_facing(), UserMessage::Failed);
    assert!(!Error::Notify("n".into()).cancelled());
}

#[test]
fn settings_start_from_defaults() {
    let settings = ScreenshotSettings::new(Some("/home/u/Pictures".to_string()));
    assert_eq!(
        settings,
        ScreenshotSettings {
            screenshot_on_startup: false,
            last_screenshot_kind: "All screens".to_string(),
            last_screenshot_delay: 0,
            last_selected_backend: 0,
            remember_save_directory: true,
            last_save_directory: Some("/home/u/Pictures".to_string()),
            remember_selection_area: false,
            last_selection_area: None,
        }
    );
    assert_eq!(APP_ID, "com.system76.CosmicScreenshot");
}

#[test]
fn settings_entries_fall_back_to_defaults() {
    let defaults = ScreenshotSettings::new(None);
    let area = SelectionArea { x: 1, y: 2, width: 3, height: 4 };
    let complete = SettingsEntries {
        screenshot_on_startup: Some(true),
        last_screenshot_kind: Some("Select screen".to_string()),
        last_screenshot_delay: Some(9),
        last_selected_backend: Some(2),
        remember_save_directory: Some(false),
        last_save_directory: Some(Some("/d".to_string())),
        remember_selection_area: Some(true),
        last_selection_area: Some(Some(area)),
    };
    let read = ScreenshotSettings::get_entry(complete.clone(), defaults.clone()).unwrap();
    assert_eq!(
        read,
        ScreenshotSettings {
            screenshot_on_startup: true,
            last_screenshot_kind: "Select screen".to_string(),
            last_screenshot_delay: 9,
            last_selected_backend: 2,
            remember_save_directory: false,
            last_save_directory: Some("/d".to_string()),
            remember_selection_area: true,
            last_selection_area: Some(area),
        }
    );
    let partial = SettingsEntries { last_screenshot_delay: None, last_selection_area: None, ..complete };
    let merged = ScreenshotSettings::get_entry(partial, defaults.clone()).unwrap_err();
    assert_eq!(merged, ScreenshotSettings { last_screenshot_delay: 0, last_selection_area: None, ..read });
    let nothing = SettingsEntries {
        screenshot_on_startup: None,
        last_screenshot_kind: None,
        last_screenshot_delay: None,
        last_selected_backend: None,
        remember_save_directory: None,
        last_save_directory: None,
        remember_selection_area: None,
        last_selection_area: None,
    };
    assert_eq!(ScreenshotSettings::get_entry(nothing, defaults.clone()), Err(defaults));
}

#[test]
fn settings_manager_updates_one_thing_at_a_time() {
    let defaults = ScreenshotSettings::new(None);
    let mut manager = SettingsManager::new(defaults.clone());
    manager.update_screenshot_settings("Window under cursor", 500, 3);
    assert_eq!(
        manager.settings,
        ScreenshotSettings {
            last_screenshot_kind: "Window under cursor".to_string(),
            last_screenshot_delay: 500,
            last_selected_backend: 3,
            ..defaults.clone()
        }
    );
    let mut manager = SettingsManager::new(defaults.clone());
    manager.update_save_directory(Some("/s".to_string()));
    manager.update_selection_area(Some(Rect::new(5, 6, 70, 80)));
    manager.set_screenshot_on_startup(true);
    manager.set_remember_save_directory(false);
    manager.set_remember_selection_area(true);
    assert_eq!(
        manager.save(),
        &ScreenshotSettings {
            screenshot_on_startup: true,
            remember_save_directory: false,
            last_save_directory: Some("/s".to_string()),
            remember_selection_area: true,
            last_selection_area: Some(SelectionArea { x: 5, y: 6, width: 70, height: 80 }),
            ..defaults
        }
    );
    manager.update_selection_area(None);
    assert_eq!(manager.settings.last_selection_area, None);
    let rect = Rect::new(-3, 4, 50, 60);
    assert_eq!(SelectionArea::from_rect(rect).to_rect(), rect);
}

#[test]
fn bus_calls_are_read_into_requests() {
    let service = ScreenshotService::new();
    let request = service.prepare("window", 250, true, "/out".to_string(), "kwin").unwrap();
    assert_eq!(
        request.options,
        ScreenshotOptions {
            kind: ScreenshotKind::WindowUnderCursor,
            delay_ms: 250,
            save_to_clipboard: true,
            save_dir: Some("/out".to_string()),
        }
    );
    assert_eq!(request.backend_name, Some("kwin".to_string()));
    let request = service.prepare("whatever", 0, false, String::new(), "auto").unwrap();
    assert_eq!(request.options, ScreenshotOptions::default());
    assert_eq!(request.backend_name, None);
    let refusal = "Region selection via D-Bus is not supported. Please use 'cosmic-screenshot take --kind region' from the command line.".to_string();
    assert_eq!(service.prepare("region", 0, false, String::new(), "auto"), Err(refusal.clone()));
    assert_eq!(service.take_screenshot("region", 0, false, String::new()), Err(refusal.clone()));
    assert_eq!(
        service.take_screenshot_with_backend("region", 0, false, String::new(), "kwin".to_string()),
        Err(refusal)
    );
    let (session, action) = service.take_screenshot("screen", 0, false, String::new()).unwrap();
    assert_eq!(session.kind, ScreenshotKind::ScreenUnderCursor);
    assert_eq!(session.backend_name, None);
    assert_eq!(action, CaptureAction::Probe(0));
    let (session, action) = service
        .take_screenshot_with_backend("all", 0, false, String::new(), "portal".to_string())
        .unwrap();
    assert_eq!(session.phase, Phase::Probing(1));
    assert_eq!(action, CaptureAction::Probe(1));
    let (session, _) = service
        .take_screenshot_with_backend("all", 0, false, String::new(), "auto".to_string())
        .unwrap();
    assert_eq!(session.backend_name, None);
    let (_, action) = service
        .take_screenshot_with_backend("all", 0, false, String::new(), "nothing".to_string())
        .unwrap();
    assert_eq!(
        action,
        CaptureAction::Finish(Err(ScreenshotError::Portal(
            "Backend 'nothing' not found or not available".to_string()
        )))
    );
}

#[test]
fn bus_service_answers_questions_about_backends() {
    let service = ScreenshotService::new();
    let available = vec![false, true, true, false];
    assert_eq!(
        service.get_available_backends(&available),
        vec!["Freedesktop Portal".to_string(), "X11 Native".to_string()]
    );
    assert!(service.supports_kind("select", &available));
    assert!(!service.supports_kind("everything", &available));
    assert!(!service.supports_kind("select", &vec![false; 4]));
    assert!(service.supports_kind_with_backend("region", "x11", &available));
    assert!(!service.supports_kind_with_backend("region", "kwin", &available));
    assert!(!service.supports_kind_with_backend("Region", "x11", &available));
    let tokens: Vec<String> =
        ["all", "screen", "window", "select", "region"].iter().map(|t| t.to_string()).collect();
    assert_eq!(
        service.get_backend_capabilities(&available),
        vec![
            ("Freedesktop Portal".to_string(), tokens.clone()),
            ("X11 Native".to_string(), tokens),
        ]
    );
    assert_eq!(
        service.failure_message(&ScreenshotError::KWin("boom".to_string())),
        "Screenshot failed: KWin error: boom"
    );
}

#[test]
fn windows_are_told_apart_by_number() {
    assert_eq!(window_role(3, Some(3), Some(4)), WindowRole::ErrorDialog);
    assert_eq!(window_role(4, Some(3), Some(4)), WindowRole::Snipper);
    assert_eq!(window_role(5, Some(3), Some(4)), WindowRole::Other);
    assert_eq!(window_role(3, Some(3), Some(3)), WindowRole::ErrorDialog);
    assert_eq!(window_role(3, None, None), WindowRole::Other);
}

#[test]
fn raising_a_window_depends_on_the_desktop() {
    assert_eq!(raise_strategy(Some("wayland"), Some("plasma"), None), RaiseStrategy::KWinScript);
    assert_eq!(raise_strategy(Some("wayland"), Some("openbox-kde"), None), RaiseStrategy::KWinScript);
    assert_eq!(raise_strategy(Some("wayland"), None, Some("X:KDE")), RaiseStrategy::KWinScript);
    assert_eq!(raise_strategy(Some("wayland"), Some("KDE"), Some("kde")), RaiseStrategy::ActivationToken);
    assert_eq!(raise_strategy(Some("wayland"), None, None), RaiseStrategy::ActivationToken);
    assert_eq!(raise_strategy(Some("x11"), Some("plasma"), Some("KDE")), RaiseStrategy::GainFocus);
    assert_eq!(raise_strategy(Some("Wayland"), Some("plasma"), None), RaiseStrategy::GainFocus);
    assert_eq!(raise_strategy(None, Some("plasma"), Some("KDE")), RaiseStrategy::GainFocus);
}

#[test]
fn script_numbers_make_bus_paths() {
    assert_eq!(script_object_path(0), Ok("/Scripting/Script0".to_string()));
    assert_eq!(script_object_path(42), Ok("/Scripting/Script42".to_string()));
    assert_eq!(script_object_path(i32::MAX), Ok("/Scripting/Script2147483647".to_string()));
    assert_eq!(script_object_path(-1), Err("KWin returned negative script ID: -1".to_string()));
    assert_eq!(
        script_object_path(i32::MIN),
        Err("KWin returned negative script ID: -2147483648".to_string())
    );
}

#[test]
fn command_line_capture_picks_a_directory() {
    let dir = Some("/given".to_string());
    let pictures = Some("/pictures".to_string());
    assert_eq!(picture_directory(true, dir.clone(), true, pictures.clone()), Ok(None));
    assert_eq!(picture_directory(false, dir.clone(), true, pictures.clone()), Ok(dir.clone()));
    assert_eq!(picture_directory(false, dir.clone(), false, pictures.clone()), Ok(pictures.clone()));
    assert_eq!(picture_directory(false, None, true, pictures.clone()), Ok(pictures));
    assert_eq!(
        picture_directory(false, dir.clone(), false, None),
        Err(Error::MissingSaveDirectory(dir))
    );
    assert_eq!(picture_directory(false, None, false, None), Err(Error::MissingSaveDirectory(None)));
}

#[test]
fn command_line_capture_is_announced() {
    let saved = saved_notification("/pictures/a.png");
    assert_eq!(saved.app_name, "COSMIC Screenshot");
    assert_eq!(saved.replaces_id, 0);
    assert_eq!(saved.app_icon, "com.system76.CosmicScreenshot");
    assert_eq!(saved.summary, "Screenshot saved to:");
    assert_eq!(saved.body, "/pictures/a.png");
    assert!(saved.transient);
    assert_eq!(saved.expire_timeout, 5000);
    let clipboard = saved_notification("");
    assert_eq!(clipboard.summary, "Screenshot saved to clipboard");
    assert_eq!(clipboard.body, "");
}

#[test]
fn command_line_errors_have_a_line_for_the_log() {
    assert_eq!(
        Error::Ashpd(PortalError::Other, "portal said no".to_string()).message(),
        "portal said no"
    );
    assert_eq!(Error::Notify("bus down".to_string()).message(), "posting a notification: bus down");
    assert_eq!(
        Error::MissingSaveDirectory(Some("/x".to_string())).message(),
        "opening `/x` or the Pictures directory"
    );
    assert_eq!(Error::MissingSaveDirectory(None).message(), "opening Pictures directory");
    assert_eq!(
        Error::SaveScreenshot { error: "disk full".to_string(), context: "moving".to_string() }
            .message(),
        "moving: disk full"
    );
}
