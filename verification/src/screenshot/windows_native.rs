//! The Windows fallback. Capturing itself is not available through it.

use vstd::prelude::*;
use crate::screenshot::{ScreenshotError, ScreenshotKind, ScreenshotOptions, ScreenshotResult};

verus! {

pub struct WindowsScreengrabber {
    _private: (),
}

impl WindowsScreengrabber {
    pub fn new() -> Self {
        Self { _private: () }
    }

    pub fn name(&self) -> (name: &'static str)
        ensures
            name@ == "Windows Native"@,
    {
        "Windows Native"
    }

    pub fn supports_kind(&self, kind: ScreenshotKind) -> (supported: bool)
        ensures
            supported,
    {
        true
    }

    /// Whether the backend applies: it does on Windows and nowhere else.
    pub fn is_available(&self, on_windows: bool) -> (available: bool)
        ensures
            available == on_windows,
    {
        on_windows
    }

    /// Always fails: nothing can be captured this way.
    pub fn take_screenshot(&self, options: &ScreenshotOptions) -> (result: Result<
        ScreenshotResult,
        ScreenshotError,
    >)
        ensures
            result == Err::<ScreenshotResult, ScreenshotError>(ScreenshotError::NotAvailable),
    {
        Err(ScreenshotError::NotAvailable)
    }
}

} // verus!
