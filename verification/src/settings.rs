//! What is kept between runs: the capture parameters used last, the save
//! directory and the selection remembered. Reading and writing the store
//! is the caller's business.

use vstd::prelude::*;
use vstd::string::*;
use crate::geometry::Rect;
use crate::screenshot::text_view;

verus! {

/// The name under which the settings are stored.
pub const APP_ID: &'static str = "com.system76.CosmicScreenshot";

/// The version of the layout of the stored settings.
pub const SETTINGS_VERSION: u64 = 1;

/// A rectangle as it is stored.
#[derive(Clone, Copy, Debug, PartialEq, Eq, Structural)]
pub struct SelectionArea {
    pub x: i64,
    pub y: i64,
    pub width: i64,
    pub height: i64,
}

/// The settings.
#[derive(Clone, Debug, PartialEq, Eq)]
pub struct ScreenshotSettings {
    /// Whether to capture at once on startup with the parameters used
    /// last.
    pub screenshot_on_startup: bool,
    /// The label of the kind of capture used last.
    pub last_screenshot_kind: String,
    pub last_screenshot_delay: u32,
    /// The place in the list of backends used last.
    pub last_selected_backend: usize,
    pub remember_save_directory: bool,
    pub last_save_directory: Option<String>,
    pub remember_selection_area: bool,
    pub last_selection_area: Option<SelectionArea>,
}

pub struct ScreenshotSettingsView {
    pub screenshot_on_startup: bool,
    pub last_screenshot_kind: Seq<char>,
    pub last_screenshot_delay: u32,
    pub last_selected_backend: usize,
    pub remember_save_directory: bool,
    pub last_save_directory: Option<Seq<char>>,
    pub remember_selection_area: bool,
    pub last_selection_area: Option<SelectionArea>,
}

/// What was read from the store: each entry is absent where reading it
/// failed.
#[derive(Clone, Debug, PartialEq, Eq)]
pub struct SettingsEntries {
    pub screenshot_on_startup: Option<bool>,
    pub last_screenshot_kind: Option<String>,
    pub last_screenshot_delay: Option<u32>,
    pub last_selected_backend: Option<usize>,
    pub remember_save_directory: Option<bool>,
    pub last_save_directory: Option<Option<String>>,
    pub remember_selection_area: Option<bool>,
    pub last_selection_area: Option<Option<SelectionArea>>,
}

/// The settings in use.
pub struct SettingsManager {
    pub settings: ScreenshotSettings,
}

impl View for ScreenshotSettings {
    type V = ScreenshotSettingsView;

    open spec fn view(&self) -> ScreenshotSettingsView {
        ScreenshotSettingsView {
            screenshot_on_startup: self.screenshot_on_startup,
            last_screenshot_kind: self.last_screenshot_kind@,
            last_screenshot_delay: self.last_screenshot_delay,
            last_selected_backend: self.last_selected_backend,
            remember_save_directory: self.remember_save_directory,
            last_save_directory: text_view(self.last_save_directory),
            remember_selection_area: self.remember_selection_area,
            last_selection_area: self.last_selection_area,
        }
    }
}

impl SelectionArea {
    pub open spec fn of_rect(rect: Rect) -> SelectionArea {
        SelectionArea { x: rect.x, y: rect.y, width: rect.width, height: rect.height }
    }

    pub open spec fn as_rect(self) -> Rect {
        Rect { x: self.x, y: self.y, width: self.width, height: self.height }
    }

    pub fn from_rect(rect: Rect) -> (area: SelectionArea)
        ensures
            area == SelectionArea::of_rect(rect),
    {
        SelectionArea { x: rect.x, y: rect.y, width: rect.width, height: rect.height }
    }

    pub fn to_rect(&self) -> (rect: Rect)
        ensures
            rect == self.as_rect(),
    {
        Rect { x: self.x, y: self.y, width: self.width, height: self.height }
    }
}

/// A rectangle that is stored and read again is the rectangle it was.
pub proof fn law_selection_area_round_trip(rect: Rect)
    ensures
        SelectionArea::of_rect(rect).as_rect() == rect,
{
}

/// The settings of a first run; the save directory is the directory for
/// pictures, where the system has one.
pub open spec fn default_settings(picture_dir: Option<Seq<char>>) -> ScreenshotSettingsView {
    ScreenshotSettingsView {
        screenshot_on_startup: false,
        last_screenshot_kind: "All screens"@,
        last_screenshot_delay: 0,
        last_selected_backend: 0,
        remember_save_directory: true,
        last_save_directory: picture_dir,
        remember_selection_area: false,
        last_selection_area: None,
    }
}

/// Whether every entry could be read.
pub open spec fn entries_complete(entries: SettingsEntries) -> bool {
    &&& entries.screenshot_on_startup is Some
    &&& entries.last_screenshot_kind is Some
    &&& entries.last_screenshot_delay is Some
    &&& entries.last_selected_backend is Some
    &&& entries.remember_save_directory is Some
    &&& entries.last_save_directory is Some
    &&& entries.remember_selection_area is Some
    &&& entries.last_selection_area is Some
}

/// The settings made of the entries that could be read and, for the
/// others, of the defaults.
pub open spec fn merged_settings(
    entries: SettingsEntries,
    defaults: ScreenshotSettingsView,
) -> ScreenshotSettingsView {
    ScreenshotSettingsView {
        screenshot_on_startup: match entries.screenshot_on_startup {
            Some(v) => v,
            None => defaults.screenshot_on_startup,
        },
        last_screenshot_kind: match entries.last_screenshot_kind {
            Some(v) => v@,
            None => defaults.last_screenshot_kind,
        },
        last_screenshot_delay: match entries.last_screenshot_delay {
            Some(v) => v,
            None => defaults.last_screenshot_delay,
        },
        last_selected_backend: match entries.last_selected_backend {
            Some(v) => v,
            None => defaults.last_selected_backend,
        },
        remember_save_directory: match entries.remember_save_directory {
            Some(v) => v,
            None => defaults.remember_save_directory,
        },
        last_save_directory: match entries.last_save_directory {
            Some(v) => text_view(v),
            None => defaults.last_save_directory,
        },
        remember_selection_area: match entries.remember_selection_area {
            Some(v) => v,
            None => defaults.remember_selection_area,
        },
        last_selection_area: match entries.last_selection_area {
            Some(v) => v,
            None => defaults.last_selection_area,
        },
    }
}

impl ScreenshotSettings {
    /// The settings of a first run.
    pub fn new(picture_dir: Option<String>) -> (settings: ScreenshotSettings)
        ensures
            settings@ == default_settings(text_view(picture_dir)),
    {
        ScreenshotSettings {
            screenshot_on_startup: false,
            last_screenshot_kind: String::from_str("All screens"),
            last_screenshot_delay: 0,
            last_selected_backend: 0,
            remember_save_directory: true,
            last_save_directory: picture_dir,
            remember_selection_area: false,
            last_selection_area: None,
        }
    }

    /// Puts the settings together from what was read. Where an entry
    /// could not be read the default stands in, and the settings come back
    /// as an error so that the caller can tell.
    pub fn get_entry(entries: SettingsEntries, defaults: ScreenshotSettings) -> (settings: Result<
        ScreenshotSettings,
        ScreenshotSettings,
    >)
        ensures
            entries_complete(entries) ==> (settings matches Ok(s) && s@ == merged_settings(
                entries,
                defaults@,
            )),
            !entries_complete(entries) ==> (settings matches Err(s) && s@ == merged_settings(
                entries,
                defaults@,
            )),
    {
        let mut complete = true;
        let screenshot_on_startup = match entries.screenshot_on_startup {
            Some(v) => v,
            None => {
                complete = false;
                defaults.screenshot_on_startup
            },
        };
        let last_screenshot_kind = match entries.last_screenshot_kind {
            Some(v) => v,
            None => {
                complete = false;
                defaults.last_screenshot_kind
            },
        };
        let last_screenshot_delay = match entries.last_screenshot_delay {
            Some(v) => v,
            None => {
                complete = false;
                defaults.last_screenshot_delay
            },
        };
        let last_selected_backend = match entries.last_selected_backend {
            Some(v) => v,
            None => {
                complete = false;
                defaults.last_selected_backend
            },
        };
        let remember_save_directory = match entries.remember_save_directory {
            Some(v) => v,
            None => {
                complete = false;
                defaults.remember_save_directory
            },
        };
        let last_save_directory = match entries.last_save_directory {
            Some(v) => v,
            None => {
                complete = false;
                defaults.last_save_directory
            },
        };
        let remember_selection_area = match entries.remember_selection_area {
            Some(v) => v,
            None => {
                complete = false;
                defaults.remember_selection_area
            },
        };
        let last_selection_area = match entries.last_selection_area {
            Some(v) => v,
            None => {
                complete = false;
                defaults.last_selection_area
            },
        };
        let settings = ScreenshotSettings {
            screenshot_on_startup,
            last_screenshot_kind,
            last_screenshot_delay,
            last_selected_backend,
            remember_save_directory,
            last_save_directory,
            remember_selection_area,
            last_selection_area,
        };
        if complete {
            Ok(settings)
        } else {
            Err(settings)
        }
    }
}

impl SettingsManager {
    /// The manager over settings as they were read; the defaults where
    /// nothing could be read.
    pub fn new(settings: ScreenshotSettings) -> (manager: SettingsManager)
        ensures
            manager.settings == settings,
    {
        SettingsManager { settings }
    }

    /// The settings to write to the store.
    pub fn save(&self) -> (settings: &ScreenshotSettings)
        ensures
            settings == &self.settings,
    {
        &self.settings
    }

    pub fn update_screenshot_settings(&mut self, kind: &str, delay: u32, backend_index: usize)
        ensures
            final(self).settings@ == (ScreenshotSettingsView {
                last_screenshot_kind: kind@,
                last_screenshot_delay: delay,
                last_selected_backend: backend_index,
                ..old(self).settings@
            }),
    {
        self.settings.last_screenshot_kind = String::from_str(kind);
        self.settings.last_screenshot_delay = delay;
        self.settings.last_selected_backend = backend_index;
    }

    pub fn update_save_directory(&mut self, directory: Option<String>)
        ensures
            final(self).settings@ == (ScreenshotSettingsView {
                last_save_directory: text_view(directory),
                ..old(self).settings@
            }),
    {
        self.settings.last_save_directory = directory;
    }

    pub fn update_selection_area(&mut self, area: Option<Rect>)
        ensures
            final(self).settings@ == (ScreenshotSettingsView {
                last_selection_area: match area {
                    Some(r) => Some(SelectionArea::of_rect(r)),
                    None => None,
                },
                ..old(self).settings@
            }),
    {
        self.settings.last_selection_area = match area {
            Some(r) => Some(SelectionArea::from_rect(r)),
            None => None,
        };
    }

    pub fn set_screenshot_on_startup(&mut self, enabled: bool)
        ensures
            final(self).settings@ == (ScreenshotSettingsView {
                screenshot_on_startup: enabled,
                ..old(self).settings@
            }),
    {
        self.settings.screenshot_on_startup = enabled;
    }

    pub fn set_remember_save_directory(&mut self, remember: bool)
        ensures
            final(self).settings@ == (ScreenshotSettingsView {
                remember_save_directory: remember,
                ..old(self).settings@
            }),
    {
        self.settings.remember_save_directory = remember;
    }

    pub fn set_remember_selection_area(&mut self, remember: bool)
        ensures
            final(self).settings@ == (ScreenshotSettingsView {
                remember_selection_area: remember,
                ..old(self).settings@
            }),
    {
        self.settings.remember_selection_area = remember;
    }
}

} // verus!
