//! The X11 fallback. It can tell whether it applies; capturing itself is
//! not available through it.

use vstd::prelude::*;
use crate::screenshot::{ScreenshotError, ScreenshotKind, ScreenshotOptions, ScreenshotResult};

verus! {

pub struct XorgScreengrabber {
    _private: (),
}

impl XorgScreengrabber {
    pub fn new() -> Self {
        Self { _private: () }
    }

    pub fn name(&self) -> (name: &'static str)
        ensures
            name@ == "X11 Native"@,
    {
        "X11 Native"
    }

    pub fn supports_kind(&self, kind: ScreenshotKind) -> (supported: bool)
        ensures
            supported,
    {
        true
    }

    /// Whether the session is an X11 session: an X display is set and no
    /// Wayland display is.
    pub fn is_available(&self, display_set: bool, wayland_display_set: bool) -> (available: bool)
        ensures
            available == (display_set && !wayland_display_set),
    {
        display_set && !wayland_display_set
    }

    /// Always fails: nothing can be captured this way.
    pub fn take_screenshot(&self, options: &ScreenshotOptions) -> (result: Result<
        ScreenshotResult,
        ScreenshotError,
    >)
        ensures
            result == Err::<ScreenshotResult, ScreenshotError>(ScreenshotError::NotAvailable),
    {
        Err(ScreenshotError::NotAvailable)
    }
}

} // verus!
