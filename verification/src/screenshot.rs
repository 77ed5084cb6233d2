//! What a capture is asked to do, what it returns, and how it fails.

use vstd::prelude::*;
use vstd::string::*;
use crate::text::{is_substring, str_contains};

pub mod chain_laws;
pub mod freedesktop_portal;
pub mod kwin_screenshot2;
pub mod manager;
pub mod windows_native;
pub mod xorg_native;

verus! {

/// What part of the desktop a capture takes.
#[derive(Clone, Copy, Debug, PartialEq, Eq, Structural)]
pub enum ScreenshotKind {
    AllScreens,
    ScreenUnderCursor,
    WindowUnderCursor,
    SelectScreen,
    /// A region the user drags out on a capture of the screen under the
    /// cursor. No backend is ever asked for this kind.
    RectangularRegion,
}

/// One capture request.
#[derive(Clone, Debug, PartialEq, Eq)]
pub struct ScreenshotOptions {
    pub kind: ScreenshotKind,
    /// How long to wait before the capture, in milliseconds.
    pub delay_ms: u32,
    pub save_to_clipboard: bool,
    /// The directory to save into; a temporary place when absent.
    pub save_dir: Option<String>,
}

/// One finished capture.
#[derive(Clone, Debug, PartialEq, Eq)]
pub struct ScreenshotResult {
    /// Where the image was saved, if it was saved to a file.
    pub path: Option<String>,
    pub saved_to_clipboard: bool,
    /// The reduced image, PNG encoded.
    pub thumbnail_data: Vec<u8>,
    /// The image at full resolution, PNG encoded.
    pub full_image_data: Vec<u8>,
}

/// Why a capture failed.
#[derive(Clone, Debug, PartialEq, Eq)]
pub enum ScreenshotError {
    /// The portal, or the capture protocol as such, was not followed.
    Portal(String),
    /// The compositor's capture interface refused or misbehaved.
    KWin(String),
    /// The message bus reported an error; the text is the bus's own.
    DBus(String),
    /// Reading or writing failed.
    Io(String),
    /// Image data could not be decoded or encoded.
    Image(String),
    /// No backend could be reached.
    NotAvailable,
    /// The user cancelled.
    Cancelled,
}

/// What kind of failure an error is, for those who have to tell the user.
#[derive(Clone, Copy, Debug, PartialEq, Eq, Structural)]
pub enum FailureKind {
    /// No backend could be reached. Trying again later may work.
    Unavailable,
    /// A backend answered in a way that the protocol does not allow.
    ProtocolFailure,
    /// The caller is not allowed to capture this way.
    AuthorizationDenied,
    /// The user cancelled.
    Cancelled,
    /// Image data could not be decoded or encoded.
    ImageDecodeFailure,
    /// Reading or writing failed.
    IoFailure,
}

pub struct ScreenshotOptionsView {
    pub kind: ScreenshotKind,
    pub delay_ms: u32,
    pub save_to_clipboard: bool,
    pub save_dir: Option<Seq<char>>,
}

pub struct ScreenshotResultView {
    pub path: Option<Seq<char>>,
    pub saved_to_clipboard: bool,
    pub thumbnail_data: Seq<u8>,
    pub full_image_data: Seq<u8>,
}

pub enum ScreenshotErrorView {
    Portal(Seq<char>),
    KWin(Seq<char>),
    DBus(Seq<char>),
    Io(Seq<char>),
    Image(Seq<char>),
    NotAvailable,
    Cancelled,
}

/// The characters of an optional text.
pub open spec fn text_view(text: Option<String>) -> Option<Seq<char>> {
    match text {
        Some(t) => Some(t@),
        None => None,
    }
}

impl View for ScreenshotOptions {
    type V = ScreenshotOptionsView;

    open spec fn view(&self) -> ScreenshotOptionsView {
        ScreenshotOptionsView {
            kind: self.kind,
            delay_ms: self.delay_ms,
            save_to_clipboard: self.save_to_clipboard,
            save_dir: text_view(self.save_dir),
        }
    }
}

impl View for ScreenshotResult {
    type V = ScreenshotResultView;

    open spec fn view(&self) -> ScreenshotResultView {
        ScreenshotResultView {
            path: text_view(self.path),
            saved_to_clipboard: self.saved_to_clipboard,
            thumbnail_data: self.thumbnail_data@,
            full_image_data: self.full_image_data@,
        }
    }
}

impl View for ScreenshotError {
    type V = ScreenshotErrorView;

    open spec fn view(&self) -> ScreenshotErrorView {
        match self {
            ScreenshotError::Portal(m) => ScreenshotErrorView::Portal(m@),
            ScreenshotError::KWin(m) => ScreenshotErrorView::KWin(m@),
            ScreenshotError::DBus(m) => ScreenshotErrorView::DBus(m@),
            ScreenshotError::Io(m) => ScreenshotErrorView::Io(m@),
            ScreenshotError::Image(m) => ScreenshotErrorView::Image(m@),
            ScreenshotError::NotAvailable => ScreenshotErrorView::NotAvailable,
            ScreenshotError::Cancelled => ScreenshotErrorView::Cancelled,
        }
    }
}

/// The view of the outcome of a capture.
pub open spec fn outcome_view(outcome: Result<ScreenshotResult, ScreenshotError>) -> Result<
    ScreenshotResultView,
    ScreenshotErrorView,
> {
    match outcome {
        Ok(r) => Ok(r@),
        Err(e) => Err(e@),
    }
}

impl Default for ScreenshotKind {
    fn default() -> (kind: ScreenshotKind)
        ensures
            kind == ScreenshotKind::AllScreens,
    {
        ScreenshotKind::AllScreens
    }
}

impl Default for ScreenshotOptions {
    fn default() -> (options: ScreenshotOptions)
        ensures
            options@ == (ScreenshotOptionsView {
                kind: ScreenshotKind::AllScreens,
                delay_ms: 0,
                save_to_clipboard: false,
                save_dir: None,
            }),
    {
        ScreenshotOptions {
            kind: ScreenshotKind::AllScreens,
            delay_ms: 0,
            save_to_clipboard: false,
            save_dir: None,
        }
    }
}

impl ScreenshotKind {
    /// The kind as shown to the user.
    pub open spec fn spec_label(self) -> Seq<char> {
        match self {
            ScreenshotKind::AllScreens => "All screens"@,
            ScreenshotKind::ScreenUnderCursor => "Screen under cursor"@,
            ScreenshotKind::WindowUnderCursor => "Window under cursor"@,
            ScreenshotKind::SelectScreen => "Select screen"@,
            ScreenshotKind::RectangularRegion => "Rectangular region"@,
        }
    }

    /// The short word for the kind on the command line and the bus.
    pub open spec fn spec_token(self) -> Seq<char> {
        match self {
            ScreenshotKind::AllScreens => "all"@,
            ScreenshotKind::ScreenUnderCursor => "screen"@,
            ScreenshotKind::WindowUnderCursor => "window"@,
            ScreenshotKind::SelectScreen => "select"@,
            ScreenshotKind::RectangularRegion => "region"@,
        }
    }

    /// The place of the kind in the list of kinds.
    pub open spec fn spec_index(self) -> usize {
        match self {
            ScreenshotKind::AllScreens => 0,
            ScreenshotKind::ScreenUnderCursor => 1,
            ScreenshotKind::WindowUnderCursor => 2,
            ScreenshotKind::SelectScreen => 3,
            ScreenshotKind::RectangularRegion => 4,
        }
    }

    /// The kind with the given label, if there is one.
    pub open spec fn of_label(label: Seq<char>) -> Option<ScreenshotKind> {
        if label == "All screens"@ {
            Some(ScreenshotKind::AllScreens)
        } else if label == "Screen under cursor"@ {
            Some(ScreenshotKind::ScreenUnderCursor)
        } else if label == "Window under cursor"@ {
            Some(ScreenshotKind::WindowUnderCursor)
        } else if label == "Select screen"@ {
            Some(ScreenshotKind::SelectScreen)
        } else if label == "Rectangular region"@ {
            Some(ScreenshotKind::RectangularRegion)
        } else {
            None
        }
    }

    /// The kind with the given short word, if there is one.
    pub open spec fn of_token(token: Seq<char>) -> Option<ScreenshotKind> {
        if token == "all"@ {
            Some(ScreenshotKind::AllScreens)
        } else if token == "screen"@ {
            Some(ScreenshotKind::ScreenUnderCursor)
        } else if token == "window"@ {
            Some(ScreenshotKind::WindowUnderCursor)
        } else if token == "select"@ {
            Some(ScreenshotKind::SelectScreen)
        } else if token == "region"@ {
            Some(ScreenshotKind::RectangularRegion)
        } else {
            None
        }
    }

    /// The kind in the given place of the list of kinds; a capture of all
    /// screens for a place beyond the list.
    pub open spec fn of_index(index: usize) -> ScreenshotKind {
        if index == 1 {
            ScreenshotKind::ScreenUnderCursor
        } else if index == 2 {
            ScreenshotKind::WindowUnderCursor
        } else if index == 3 {
            ScreenshotKind::SelectScreen
        } else if index == 4 {
            ScreenshotKind::RectangularRegion
        } else {
            ScreenshotKind::AllScreens
        }
    }

    pub fn label(&self) -> (label: &'static str)
        ensures
            label@ == self.spec_label(),
    {
        match self {
            ScreenshotKind::AllScreens => "All screens",
            ScreenshotKind::ScreenUnderCursor => "Screen under cursor",
            ScreenshotKind::WindowUnderCursor => "Window under cursor",
            ScreenshotKind::SelectScreen => "Select screen",
            ScreenshotKind::RectangularRegion => "Rectangular region",
        }
    }

    pub fn token(&self) -> (token: &'static str)
        ensures
            token@ == self.spec_token(),
    {
        match self {
            ScreenshotKind::AllScreens => "all",
            ScreenshotKind::ScreenUnderCursor => "screen",
            ScreenshotKind::WindowUnderCursor => "window",
            ScreenshotKind::SelectScreen => "select",
            ScreenshotKind::RectangularRegion => "region",
        }
    }

    pub fn index(&self) -> (index: usize)
        ensures
            index == self.spec_index(),
    {
        match self {
            ScreenshotKind::AllScreens => 0,
            ScreenshotKind::ScreenUnderCursor => 1,
            ScreenshotKind::WindowUnderCursor => 2,
            ScreenshotKind::SelectScreen => 3,
            ScreenshotKind::RectangularRegion => 4,
        }
    }

    pub fn from_index(index: usize) -> (kind: ScreenshotKind)
        ensures
            kind == ScreenshotKind::of_index(index),
    {
        if index == 1 {
            ScreenshotKind::ScreenUnderCursor
        } else if index == 2 {
            ScreenshotKind::WindowUnderCursor
        } else if index == 3 {
            ScreenshotKind::SelectScreen
        } else if index == 4 {
            ScreenshotKind::RectangularRegion
        } else {
            ScreenshotKind::AllScreens
        }
    }

    /// The kind with the given label, if there is one.
    pub fn from_label(label: &str) -> (kind: Option<ScreenshotKind>)
        ensures
            kind == ScreenshotKind::of_label(label@),
    {
        if label.eq("All screens") {
            Some(ScreenshotKind::AllScreens)
        } else if label.eq("Screen under cursor") {
            Some(ScreenshotKind::ScreenUnderCursor)
        } else if label.eq("Window under cursor") {
            Some(ScreenshotKind::WindowUnderCursor)
        } else if label.eq("Select screen") {
            Some(ScreenshotKind::SelectScreen)
        } else if label.eq("Rectangular region") {
            Some(ScreenshotKind::RectangularRegion)
        } else {
            None
        }
    }

    /// The kind with the given short word, if there is one.
    pub fn from_token(token: &str) -> (kind: Option<ScreenshotKind>)
        ensures
            kind == ScreenshotKind::of_token(token@),
    {
        if token.eq("all") {
            Some(ScreenshotKind::AllScreens)
        } else if token.eq("screen") {
            Some(ScreenshotKind::ScreenUnderCursor)
        } else if token.eq("window") {
            Some(ScreenshotKind::WindowUnderCursor)
        } else if token.eq("select") {
            Some(ScreenshotKind::SelectScreen)
        } else if token.eq("region") {
            Some(ScreenshotKind::RectangularRegion)
        } else {
            None
        }
    }
}

/// Reading a kind's label or short word gives the kind back, and so does
/// its place in the list.
pub proof fn law_kind_names_round_trip(kind: ScreenshotKind)
    ensures
        ScreenshotKind::of_label(kind.spec_label()) == Some(kind),
        ScreenshotKind::of_token(kind.spec_token()) == Some(kind),
        ScreenshotKind::of_index(kind.spec_index()) == kind,
{
    reveal_strlit("All screens");
    reveal_strlit("Screen under cursor");
    reveal_strlit("Window under cursor");
    reveal_strlit("Select screen");
    reveal_strlit("Rectangular region");
    reveal_strlit("all");
    reveal_strlit("screen");
    reveal_strlit("window");
    reveal_strlit("select");
    reveal_strlit("region");
    assert("All screens"@.len() == 11);
    assert("Screen under cursor"@.len() == 19);
    assert("Window under cursor"@.len() == 19);
    assert("Select screen"@.len() == 13);
    assert("Rectangular region"@.len() == 18);
    assert("Screen under cursor"@[0] == 'S' && "Window under cursor"@[0] == 'W');
    assert("all"@.len() == 3);
    assert("screen"@[0] == 's' && "screen"@[1] == 'c');
    assert("window"@[0] == 'w');
    assert("select"@[0] == 's' && "select"@[1] == 'e');
    assert("region"@[0] == 'r');
}

impl ScreenshotError {
    /// What kind of failure an error is. An error of the message bus is a
    /// refusal for want of authorization where its text says so, else a
    /// failure of the protocol.
    pub open spec fn spec_kind(error: ScreenshotErrorView) -> FailureKind {
        match error {
            ScreenshotErrorView::Portal(_) | ScreenshotErrorView::KWin(_) => {
                FailureKind::ProtocolFailure
            },
            ScreenshotErrorView::DBus(text) => if is_substring("NoAuthorized"@, text) {
                FailureKind::AuthorizationDenied
            } else {
                FailureKind::ProtocolFailure
            },
            ScreenshotErrorView::Io(_) => FailureKind::IoFailure,
            ScreenshotErrorView::Image(_) => FailureKind::ImageDecodeFailure,
            ScreenshotErrorView::NotAvailable => FailureKind::Unavailable,
            ScreenshotErrorView::Cancelled => FailureKind::Cancelled,
        }
    }

    /// Says what kind of failure the error is.
    pub fn kind(&self) -> (kind: FailureKind)
        ensures
            kind == ScreenshotError::spec_kind(self@),
    {
        match self {
            ScreenshotError::Portal(_) | ScreenshotError::KWin(_) => FailureKind::ProtocolFailure,
            ScreenshotError::DBus(text) => {
                if str_contains(text.as_str(), "NoAuthorized") {
                    FailureKind::AuthorizationDenied
                } else {
                    FailureKind::ProtocolFailure
                }
            },
            ScreenshotError::Io(_) => FailureKind::IoFailure,
            ScreenshotError::Image(_) => FailureKind::ImageDecodeFailure,
            ScreenshotError::NotAvailable => FailureKind::Unavailable,
            ScreenshotError::Cancelled => FailureKind::Cancelled,
        }
    }

    /// The error as one line of text.
    pub open spec fn spec_message(error: ScreenshotErrorView) -> Seq<char> {
        match error {
            ScreenshotErrorView::Portal(m) => "Portal error: "@ + m,
            ScreenshotErrorView::KWin(m) => "KWin error: "@ + m,
            ScreenshotErrorView::DBus(m) => "DBus error: "@ + m,
            ScreenshotErrorView::Io(m) => "IO error: "@ + m,
            ScreenshotErrorView::Image(m) => "Image processing error: "@ + m,
            ScreenshotErrorView::NotAvailable => "Screengrabber not available"@,
            ScreenshotErrorView::Cancelled => "Operation cancelled"@,
        }
    }

    /// The error as one line of text.
    pub fn message(&self) -> (text: String)
        ensures
            text@ == ScreenshotError::spec_message(self@),
    {
        match self {
            ScreenshotError::Portal(m) => prefixed("Portal error: ", m),
            ScreenshotError::KWin(m) => prefixed("KWin error: ", m),
            ScreenshotError::DBus(m) => prefixed("DBus error: ", m),
            ScreenshotError::Io(m) => prefixed("IO error: ", m),
            ScreenshotError::Image(m) => prefixed("Image processing error: ", m),
            ScreenshotError::NotAvailable => String::from_str("Screengrabber not available"),
            ScreenshotError::Cancelled => String::from_str("Operation cancelled"),
        }
    }
}

fn prefixed(prefix: &str, text: &String) -> (joined: String)
    ensures
        joined@ == prefix@ + text@,
{
    let mut joined = String::from_str(prefix);
    joined.append(text.as_str());
    joined
}

} // verus!
