//! The compositor's own capture interface: which call to make for a kind of
//! capture, what to do when the call is refused, and how the raw frame that
//! comes back through the pipe becomes a capture result.

use vstd::prelude::*;
use vstd::string::*;
use crate::codec::{result_from_image, result_of_image, thumbnail_fits, thumbnail_view};
use crate::pixels::{
    ByteOrder,
    PixelFormat,
    decode_error_text,
    decode_pixels,
    decoded_frame,
    expected_len,
};
use crate::screenshot::{
    ScreenshotError,
    ScreenshotErrorView,
    ScreenshotKind,
    ScreenshotOptions,
    ScreenshotResult,
};
use crate::text::{is_substring, str_contains};

verus! {

/// The interactive chooser lets the user pick a window.
pub const CHOOSE_WINDOW: u32 = 0;

/// The interactive chooser lets the user pick a screen.
pub const CHOOSE_SCREEN: u32 = 1;

/// A call of the capture interface.
#[derive(Clone, Copy, Debug, PartialEq, Eq, Structural)]
pub enum KWinCall {
    CaptureWorkspace,
    CaptureActiveScreen,
    CaptureActiveWindow,
    /// The chooser, with what it lets the user pick.
    CaptureInteractive(u32),
}

/// The options that go with a call. An option that is `None` is left out.
#[derive(Clone, Copy, Debug, PartialEq, Eq, Structural)]
pub struct KWinCallOptions {
    pub include_cursor: bool,
    pub include_decoration: Option<bool>,
    pub include_shadow: Option<bool>,
    pub native_resolution: bool,
}

/// What the interface reported about the frame it wrote. A field is `None`
/// where the reply did not hold it as an unsigned 32-bit number.
#[derive(Clone, Copy, Debug, PartialEq, Eq, Structural)]
pub struct KWinMetadata {
    pub width: Option<u32>,
    pub height: Option<u32>,
    pub format: Option<u32>,
}

/// What to do after the direct call failed.
#[derive(Clone, Debug, PartialEq, Eq)]
pub enum KWinRecovery {
    /// Ask again through the interactive chooser, with what it lets the
    /// user pick.
    Interactive(u32),
    /// Give up with this error.
    Fail(ScreenshotError),
}

pub struct KWinScreengrabber {
    _private: (),
}

/// The call that captures `kind` directly.
pub open spec fn direct_call(kind: ScreenshotKind) -> KWinCall {
    match kind {
        ScreenshotKind::AllScreens => KWinCall::CaptureWorkspace,
        ScreenshotKind::ScreenUnderCursor => KWinCall::CaptureActiveScreen,
        ScreenshotKind::WindowUnderCursor => KWinCall::CaptureActiveWindow,
        ScreenshotKind::SelectScreen => KWinCall::CaptureInteractive(CHOOSE_SCREEN),
        ScreenshotKind::RectangularRegion => KWinCall::CaptureInteractive(CHOOSE_WINDOW),
    }
}

/// What the chooser lets the user pick when it stands in for a direct
/// capture of `kind`. It cannot stand in for a capture of all screens.
pub open spec fn interactive_choice(kind: ScreenshotKind) -> Option<u32> {
    match kind {
        ScreenshotKind::AllScreens => None,
        ScreenshotKind::WindowUnderCursor => Some(CHOOSE_WINDOW),
        _ => Some(CHOOSE_SCREEN),
    }
}

/// Whether the text of a bus error says that the caller is not authorized.
pub open spec fn says_not_authorized(text: Seq<char>) -> bool {
    is_substring("NoAuthorized"@, text)
}

/// What follows a failed direct capture of `kind`: a refusal for want of
/// authorization is answered by the chooser where the chooser can stand in;
/// every other error, and a refusal of a capture of all screens, stands.
pub open spec fn recovery_choice(kind: ScreenshotKind, error: ScreenshotErrorView) -> Option<u32> {
    match error {
        ScreenshotErrorView::DBus(text) if says_not_authorized(text) => interactive_choice(kind),
        _ => None,
    }
}

/// The text of the error for a reply that lacks a field, if it lacks one.
pub open spec fn metadata_error_text(metadata: KWinMetadata) -> Option<Seq<char>> {
    if metadata.width is None {
        Some("Missing width in KWin response"@)
    } else if metadata.height is None {
        Some("Missing height in KWin response"@)
    } else if metadata.format is None {
        Some("Missing format in KWin response"@)
    } else {
        None
    }
}

impl KWinScreengrabber {
    pub fn new() -> Self {
        Self { _private: () }
    }

    pub fn name(&self) -> (name: &'static str)
        ensures
            name@ == "KWin ScreenShot2"@,
    {
        "KWin ScreenShot2"
    }

    /// Every kind is offered. Whether a capture of all screens goes through
    /// depends on authorization, which shows only when it is tried.
    pub fn supports_kind(&self, kind: ScreenshotKind) -> (supported: bool)
        ensures
            supported,
    {
        true
    }

    /// The call that captures `kind` directly.
    pub fn capture_call(&self, kind: ScreenshotKind) -> (call: KWinCall)
        ensures
            call == direct_call(kind),
    {
        match kind {
            ScreenshotKind::AllScreens => KWinCall::CaptureWorkspace,
            ScreenshotKind::ScreenUnderCursor => KWinCall::CaptureActiveScreen,
            ScreenshotKind::WindowUnderCursor => KWinCall::CaptureActiveWindow,
            ScreenshotKind::SelectScreen => KWinCall::CaptureInteractive(CHOOSE_SCREEN),
            ScreenshotKind::RectangularRegion => KWinCall::CaptureInteractive(CHOOSE_WINDOW),
        }
    }

    /// The options of a direct call.
    pub fn direct_options(&self) -> (options: KWinCallOptions)
        ensures
            options == (KWinCallOptions {
                include_cursor: false,
                include_decoration: None,
                include_shadow: None,
                native_resolution: true,
            }),
    {
        KWinCallOptions {
            include_cursor: false,
            include_decoration: None,
            include_shadow: None,
            native_resolution: true,
        }
    }

    /// The options of a call of the chooser that stands in for a refused
    /// direct call.
    pub fn interactive_options(&self) -> (options: KWinCallOptions)
        ensures
            options == (KWinCallOptions {
                include_cursor: false,
                include_decoration: Some(true),
                include_shadow: Some(true),
                native_resolution: true,
            }),
    {
        KWinCallOptions {
            include_cursor: false,
            include_decoration: Some(true),
            include_shadow: Some(true),
            native_resolution: true,
        }
    }

    /// Whether the text of a bus error says that the caller is not
    /// authorized.
    pub fn is_authorization_error(&self, text: &str) -> (denied: bool)
        ensures
            denied == says_not_authorized(text@),
    {
        str_contains(text, "NoAuthorized")
    }

    /// Decides what follows a failed direct capture of `kind`. The error is
    /// handed back unchanged where it stands.
    pub fn fallback_to_interactive(&self, kind: ScreenshotKind, error: ScreenshotError) -> (recovery:
        KWinRecovery)
        ensures
            match recovery_choice(kind, error@) {
                Some(choice) => recovery == KWinRecovery::Interactive(choice),
                None => recovery == KWinRecovery::Fail(error),
            },
    {
        let denied = match &error {
            ScreenshotError::DBus(text) => self.is_authorization_error(text.as_str()),
            _ => false,
        };
        if !denied {
            return KWinRecovery::Fail(error);
        }
        match kind {
            ScreenshotKind::AllScreens => KWinRecovery::Fail(error),
            ScreenshotKind::WindowUnderCursor => KWinRecovery::Interactive(CHOOSE_WINDOW),
            _ => KWinRecovery::Interactive(CHOOSE_SCREEN),
        }
    }
}

impl KWinScreengrabber {
    /// The directory that a capture is saved in: the one asked for, else
    /// the directory for temporary files.
    pub fn save_directory(&self, options: &ScreenshotOptions, temp_dir: &str) -> (directory:
        String)
        ensures
            directory@ == (match options.save_dir {
                Some(d) => d@,
                None => temp_dir@,
            }),
    {
        match &options.save_dir {
            Some(d) => d.clone(),
            None => String::from_str(temp_dir),
        }
    }

    /// Turns the raw frame that the interface wrote, with what it reported
    /// about the frame, into the result of the capture. `path` is where the
    /// caller saves the image.
    pub fn save_screenshot_data(
        &self,
        image_data: &Vec<u8>,
        metadata: &KWinMetadata,
        options: &ScreenshotOptions,
        order: ByteOrder,
        path: String,
    ) -> (result: Result<ScreenshotResult, ScreenshotError>)
        ensures
            metadata_error_text(*metadata) matches Some(text) ==> result matches Err(e) && e@
                == ScreenshotErrorView::Portal(text),
            metadata_error_text(*metadata) is None ==> ({
                let width = metadata.width->0;
                let height = metadata.height->0;
                let format = PixelFormat::of_code(metadata.format->0);
                if image_data.len() != expected_len(width, height, format) {
                    result matches Err(e) && e@ == ScreenshotErrorView::Image(
                        decode_error_text(format),
                    )
                } else {
                    let frame = decoded_frame(width, height, format, order, image_data@);
                    &&& thumbnail_fits(frame, thumbnail_view(frame))
                    &&& match result_of_image(frame, Some(path@), options.save_to_clipboard) {
                        Some(expected) => result matches Ok(r) && r@ == expected,
                        None => result matches Err(e) && e is Image,
                    }
                }
            }),
    {
        let width = match metadata.width {
            Some(width) => width,
            None => {
                return Err(
                    ScreenshotError::Portal(String::from_str("Missing width in KWin response")),
                );
            },
        };
        let height = match metadata.height {
            Some(height) => height,
            None => {
                return Err(
                    ScreenshotError::Portal(String::from_str("Missing height in KWin response")),
                );
            },
        };
        let format = match metadata.format {
            Some(format) => format,
            None => {
                return Err(
                    ScreenshotError::Portal(String::from_str("Missing format in KWin response")),
                );
            },
        };
        let image = match decode_pixels(width, height, format, image_data, order) {
            Ok(image) => image,
            Err(e) => { return Err(e); },
        };
        result_from_image(&image, Some(path), options.save_to_clipboard)
    }
}

} // verus!
