//! The decisions behind the capture window: which backend a choice in the
//! list stands for, what a capture is asked to do, what is cut out of a
//! capture after a region was selected, and which bytes are saved.

use vstd::prelude::*;
use vstd::string::*;
use crate::codec::{decode_image, decoded_image, encode_png, png_encoding};
use crate::crop::{crop, crop_region, crop_region_of, cropped};
use crate::geometry::Rect;
use crate::pixels::{PixelImage, copy_bytes};
use crate::settings::ScreenshotSettings;
use crate::text::{decimal_digits, parse_u32, parsed_u32, push_decimal};
use crate::screenshot::{
    ScreenshotError,
    ScreenshotErrorView,
    ScreenshotKind,
    ScreenshotOptions,
    ScreenshotOptionsView,
    ScreenshotResult,
    ScreenshotResultView,
    text_view,
};

verus! {

/// The width of the screen assumed where the capture cannot be read.
pub const DEFAULT_SCREEN_WIDTH: i64 = 1920;

/// The height of the screen assumed where the capture cannot be read.
pub const DEFAULT_SCREEN_HEIGHT: i64 = 1080;

/// The kind with the given label; a capture of all screens for a label
/// that is none.
pub fn kind_from_string(kind_str: &str) -> (kind: ScreenshotKind)
    ensures
        kind == (match ScreenshotKind::of_label(kind_str@) {
            Some(k) => k,
            None => ScreenshotKind::AllScreens,
        }),
{
    match ScreenshotKind::from_label(kind_str) {
        Some(k) => k,
        None => ScreenshotKind::AllScreens,
    }
}

/// The label of a kind.
pub fn kind_to_string(kind: ScreenshotKind) -> (label: String)
    ensures
        label@ == kind.spec_label(),
{
    String::from_str(kind.label())
}

/// The place of a kind in the list of kinds.
pub fn get_screenshot_kind_index(kind: ScreenshotKind) -> (index: usize)
    ensures
        index == kind.spec_index(),
{
    kind.index()
}

/// The name of the backend that a place in the list of backends stands
/// for. The first place means any backend, and so does a place beyond the
/// list.
pub fn selected_backend_name(selected_backend: usize, available_backends: &Vec<String>) -> (name:
    Option<String>)
    ensures
        selected_backend == 0 || selected_backend >= available_backends.len() ==> name is None,
        0 < selected_backend < available_backends.len() ==> name == Some(
            available_backends[selected_backend as int],
        ),
{
    if selected_backend == 0 || selected_backend >= available_backends.len() {
        None
    } else {
        Some(available_backends[selected_backend].clone())
    }
}

/// What a capture from the window asks for: the kind after the given
/// delay, not to the clipboard and not into a directory.
pub fn capture_options(kind: ScreenshotKind, delay_ms: u32) -> (options: ScreenshotOptions)
    ensures
        options@ == (ScreenshotOptionsView {
            kind,
            delay_ms,
            save_to_clipboard: false,
            save_dir: None,
        }),
{
    ScreenshotOptions { kind, delay_ms, save_to_clipboard: false, save_dir: None }
}

/// How a capture asked for in the window is carried out.
#[derive(Clone, Debug, PartialEq, Eq)]
pub enum CapturePlan {
    /// By capturing the screen under the cursor and letting the user
    /// select a region of it.
    RegionSelection,
    /// By asking the backends, or the backend named, for the capture.
    Backend { options: ScreenshotOptions, backend_name: Option<String> },
}

/// Decides how a capture asked for in the window is carried out. A capture
/// of a region never goes to a backend as such.
pub fn capture_plan(
    kind: ScreenshotKind,
    delay_text: &str,
    selected_backend: usize,
    available_backends: &Vec<String>,
) -> (plan: CapturePlan)
    ensures
        kind is RectangularRegion ==> plan == CapturePlan::RegionSelection,
        !(kind is RectangularRegion) ==> (plan matches CapturePlan::Backend {
            options,
            backend_name,
        } && options@ == (ScreenshotOptionsView {
            kind,
            delay_ms: match parsed_u32(delay_text@) {
                Some(n) => n,
                None => 0,
            },
            save_to_clipboard: false,
            save_dir: None,
        }) && (selected_backend == 0 || selected_backend >= available_backends.len()
            ==> backend_name is None) && (0 < selected_backend < available_backends.len()
            ==> backend_name == Some(available_backends[selected_backend as int]))),
{
    if kind == ScreenshotKind::RectangularRegion {
        CapturePlan::RegionSelection
    } else {
        CapturePlan::Backend {
            options: capture_options(kind, parse_delay(delay_text)),
            backend_name: selected_backend_name(selected_backend, available_backends),
        }
    }
}

/// What follows a capture that came back.
#[derive(Clone, Debug, PartialEq, Eq)]
pub enum CompletionStep {
    /// Let the user select a region of the capture.
    SelectRegion(ScreenshotResult),
    /// Show the capture.
    Show(ScreenshotResult),
    /// Tell the user that the capture failed; with the reason.
    Fail(String),
}

/// Decides what follows a capture that came back: a capture taken for a
/// region goes on to the selection, any other is shown.
pub fn completion_step(kind: ScreenshotKind, outcome: Result<ScreenshotResult, String>) -> (step:
    CompletionStep)
    ensures
        step == (match outcome {
            Ok(capture) => if kind is RectangularRegion {
                CompletionStep::SelectRegion(capture)
            } else {
                CompletionStep::Show(capture)
            },
            Err(reason) => CompletionStep::Fail(reason),
        }),
{
    match outcome {
        Ok(capture) => {
            if kind == ScreenshotKind::RectangularRegion {
                CompletionStep::SelectRegion(capture)
            } else {
                CompletionStep::Show(capture)
            }
        },
        Err(reason) => CompletionStep::Fail(reason),
    }
}

/// What the capture for a region selection asks for: the screen under the
/// cursor, at once.
pub fn region_capture_options() -> (options: ScreenshotOptions)
    ensures
        options@ == (ScreenshotOptionsView {
            kind: ScreenshotKind::ScreenUnderCursor,
            delay_ms: 0,
            save_to_clipboard: false,
            save_dir: None,
        }),
{
    capture_options(ScreenshotKind::ScreenUnderCursor, 0)
}

/// The bytes to write when a capture is saved: the image at full
/// resolution for a capture that lies in a file already, else the
/// thumbnail, which for a capture cut to a region holds the cut image.
pub fn data_to_save(screenshot: &ScreenshotResult) -> (data: &Vec<u8>)
    ensures
        data == if screenshot.path is Some {
            &screenshot.full_image_data
        } else {
            &screenshot.thumbnail_data
        },
{
    if screenshot.path.is_some() {
        &screenshot.full_image_data
    } else {
        &screenshot.thumbnail_data
    }
}

/// The text of the error for a region that holds no pixel of the image.
pub open spec fn invalid_crop_text() -> Seq<char> {
    "Invalid crop region"@
}

/// Cuts the selected rectangle out of a bitmap. The rectangle is clamped
/// to the bitmap first; a rectangle of which nothing is left is refused.
pub fn crop_image_to_region(image: &PixelImage, region: &Rect) -> (result: Result<
    PixelImage,
    ScreenshotError,
>)
    requires
        image@.wf(),
    ensures
        match crop_region_of(image.width, image.height, *region) {
            Some(clamped) => result matches Ok(out) && out@ == cropped(image@, clamped)
                && out@.wf(),
            None => result matches Err(e) && e@ == ScreenshotErrorView::Portal(
                invalid_crop_text(),
            ),
        },
{
    match crop_region(image.width, image.height, region) {
        Some(clamped) => Ok(crop(image, &clamped)),
        None => Err(ScreenshotError::Portal(String::from_str("Invalid crop region"))),
    }
}

/// Cuts the selected rectangle out of a capture. The result holds the cut
/// image both as image and as thumbnail, and no path: it is not saved yet.
pub fn crop_screenshot_to_region(screenshot: &ScreenshotResult, region: Rect) -> (result: Result<
    ScreenshotResult,
    ScreenshotError,
>)
    ensures
        match decoded_image(screenshot.full_image_data@) {
            None => result matches Err(e) && e is Image,
            Some(image) => match crop_region_of(
                image.width as u32,
                image.height as u32,
                region,
            ) {
                None => result matches Err(e) && e@ == ScreenshotErrorView::Portal(
                    invalid_crop_text(),
                ),
                Some(clamped) => match png_encoding(cropped(image, clamped)) {
                    None => result matches Err(e) && e is Image,
                    Some(bytes) => result matches Ok(r) && r@ == (ScreenshotResultView {
                        path: None,
                        saved_to_clipboard: screenshot.saved_to_clipboard,
                        thumbnail_data: bytes,
                        full_image_data: bytes,
                    }),
                },
            },
        },
{
    let image = match decode_image(&screenshot.full_image_data) {
        Ok(image) => image,
        Err(e) => { return Err(e); },
    };
    let cut = match crop_image_to_region(&image, &region) {
        Ok(cut) => cut,
        Err(e) => { return Err(e); },
    };
    let buffer = match encode_png(&cut) {
        Ok(bytes) => bytes,
        Err(e) => { return Err(e); },
    };
    Ok(
        ScreenshotResult {
            path: None,
            saved_to_clipboard: screenshot.saved_to_clipboard,
            thumbnail_data: copy_bytes(&buffer),
            full_image_data: buffer,
        },
    )
}

/// What a region selection works on: the captured image as a bitmap and
/// the bounds that the selection runs over, which are those of the bitmap.
pub fn region_selection_setup(capture: &ScreenshotResult) -> (setup: Result<
    (PixelImage, Rect),
    ScreenshotError,
>)
    ensures
        match decoded_image(capture.full_image_data@) {
            Some(image) => setup matches Ok(pair) && pair.0@ == image && pair.0@.wf() && pair.1
                == (Rect { x: 0, y: 0, width: image.width as i64, height: image.height as i64 })
                && pair.1.wf(),
            None => setup matches Err(e) && e is Image,
        },
{
    match decode_image(&capture.full_image_data) {
        Ok(image) => {
            let bounds = Rect {
                x: 0,
                y: 0,
                width: image.width as i64,
                height: image.height as i64,
            };
            Ok((image, bounds))
        },
        Err(e) => Err(e),
    }
}

/// The bounds of the selection session over a capture: the size of the
/// captured image, or the default screen size where the image cannot be
/// read.
pub fn selection_bounds(full_image_data: &Vec<u8>) -> (bounds: Rect)
    ensures
        bounds == (match decoded_image(full_image_data@) {
            Some(image) => Rect {
                x: 0,
                y: 0,
                width: image.width as i64,
                height: image.height as i64,
            },
            None => Rect {
                x: 0,
                y: 0,
                width: DEFAULT_SCREEN_WIDTH,
                height: DEFAULT_SCREEN_HEIGHT,
            },
        }),
        bounds.wf(),
{
    match decode_image(full_image_data) {
        Ok(image) => Rect { x: 0, y: 0, width: image.width as i64, height: image.height as i64 },
        Err(_) => Rect { x: 0, y: 0, width: DEFAULT_SCREEN_WIDTH, height: DEFAULT_SCREEN_HEIGHT },
    }
}

/// The delay that a text typed by the user stands for: the number where
/// the text is one, else no delay.
pub fn parse_delay(text: &str) -> (delay_ms: u32)
    ensures
        delay_ms == (match parsed_u32(text@) {
            Some(n) => n,
            None => 0,
        }),
{
    match parse_u32(text) {
        Some(n) => n,
        None => 0,
    }
}

/// The selection kept from one session to the next, and whether it is to
/// be kept at all.
#[derive(Clone, Copy, Debug, PartialEq, Eq, Structural)]
pub struct SelectionMemory {
    pub remember: bool,
    pub last: Option<Rect>,
}

impl SelectionMemory {
    /// The selection handed to a new session: the one kept, unless
    /// remembering is switched off.
    pub open spec fn offer(self) -> Option<Rect> {
        if self.remember {
            self.last
        } else {
            None
        }
    }

    /// The memory after a selection was accepted: it is kept only while
    /// remembering is switched on.
    pub open spec fn recorded(self, region: Rect) -> SelectionMemory {
        if self.remember {
            SelectionMemory { remember: true, last: Some(region) }
        } else {
            self
        }
    }

    /// The memory after remembering was switched on or off. Switching it
    /// off forgets the selection kept.
    pub open spec fn switched(self, remember: bool) -> SelectionMemory {
        SelectionMemory {
            remember,
            last: if remember {
                self.last
            } else {
                None
            },
        }
    }

    pub fn new(remember: bool, last: Option<Rect>) -> (memory: SelectionMemory)
        ensures
            memory == (SelectionMemory { remember, last }),
    {
        SelectionMemory { remember, last }
    }

    /// The selection to hand to a new session.
    pub fn for_new_session(&self) -> (remembered: Option<Rect>)
        ensures
            remembered == self.offer(),
    {
        if self.remember {
            self.last
        } else {
            None
        }
    }

    /// Takes note of an accepted selection. Says whether it was kept, in
    /// which case it is to be stored as well.
    pub fn record(&mut self, region: Rect) -> (kept: bool)
        ensures
            kept == old(self).remember,
            *final(self) == old(self).recorded(region),
    {
        if self.remember {
            self.last = Some(region);
            true
        } else {
            false
        }
    }

    /// Switches remembering on or off.
    pub fn set_remember(&mut self, remember: bool)
        ensures
            *final(self) == old(self).switched(remember),
    {
        self.remember = remember;
        if !remember {
            self.last = None;
        }
    }
}

/// An accepted selection reaches the next session exactly when
/// remembering is switched on; with remembering switched off nothing
/// reaches it, and switching it off and on again forgets what was kept.
pub proof fn law_memory_is_gated(memory: SelectionMemory, region: Rect)
    ensures
        memory.remember ==> memory.recorded(region).offer() == Some(region),
        !memory.remember ==> memory.recorded(region).offer() is None,
        memory.switched(false).switched(true).offer() is None,
{
}

/// What the window starts with.
#[derive(Clone, Debug, PartialEq, Eq)]
pub struct StartupParameters {
    pub kind: ScreenshotKind,
    /// The delay as shown in its text field.
    pub delay_text: String,
    pub save_directory: Option<String>,
}

pub struct StartupParametersView {
    pub kind: ScreenshotKind,
    pub delay_text: Seq<char>,
    pub save_directory: Option<Seq<char>>,
}

impl View for StartupParameters {
    type V = StartupParametersView;

    open spec fn view(&self) -> StartupParametersView {
        StartupParametersView {
            kind: self.kind,
            delay_text: self.delay_text@,
            save_directory: text_view(self.save_directory),
        }
    }
}

/// The first of two optional values that is there.
pub open spec fn first_of(a: Option<Seq<char>>, b: Option<Seq<char>>) -> Option<Seq<char>> {
    if a is Some {
        a
    } else {
        b
    }
}

/// What the window starts with when the program was started from the
/// command line to capture a region: a capture of a region after the delay
/// given, none where the text given is no number, into the directory given
/// or else the directory for pictures.
pub fn region_startup(
    delay: Option<&str>,
    output_dir: Option<String>,
    picture_dir: Option<String>,
) -> (start: StartupParameters)
    ensures
        start@ == (StartupParametersView {
            kind: ScreenshotKind::RectangularRegion,
            delay_text: decimal_digits(
                (match delay {
                    Some(text) => match parsed_u32(text@) {
                        Some(n) => n,
                        None => 0,
                    },
                    None => 0,
                }) as nat,
            ),
            save_directory: first_of(text_view(output_dir), text_view(picture_dir)),
        }),
{
    let delay_ms = match delay {
        Some(text) => parse_delay(text),
        None => 0,
    };
    let mut delay_text = String::new();
    push_decimal(&mut delay_text, delay_ms, 0);
    assert(delay_text@ =~= decimal_digits(delay_ms as nat));
    let save_directory = if output_dir.is_some() {
        output_dir
    } else {
        picture_dir
    };
    StartupParameters { kind: ScreenshotKind::RectangularRegion, delay_text, save_directory }
}

/// What the window starts with otherwise: the kind and the delay used
/// last, and the directory used last where that is to be remembered, else
/// the directory for pictures.
pub fn settings_startup(settings: &ScreenshotSettings, picture_dir: Option<String>) -> (start:
    StartupParameters)
    ensures
        start@ == (StartupParametersView {
            kind: match ScreenshotKind::of_label(settings@.last_screenshot_kind) {
                Some(k) => k,
                None => ScreenshotKind::AllScreens,
            },
            delay_text: decimal_digits(settings.last_screenshot_delay as nat),
            save_directory: if settings.remember_save_directory {
                settings@.last_save_directory
            } else {
                text_view(picture_dir)
            },
        }),
{
    let mut delay_text = String::new();
    push_decimal(&mut delay_text, settings.last_screenshot_delay, 0);
    assert(delay_text@ =~= decimal_digits(settings.last_screenshot_delay as nat));
    let save_directory = if settings.remember_save_directory {
        settings.last_save_directory.clone()
    } else {
        picture_dir
    };
    StartupParameters {
        kind: kind_from_string(settings.last_screenshot_kind.as_str()),
        delay_text,
        save_directory,
    }
}

/// The directory that a capture of a region goes to when the program was
/// started from the command line: the directory given there, else the one
/// chosen in the window, else the directory for pictures, else the
/// directory the program runs in.
pub fn region_output_directory(
    output_dir: Option<String>,
    save_directory: Option<String>,
    picture_dir: Option<String>,
) -> (directory: String)
    ensures
        directory@ == (match first_of(
            text_view(output_dir),
            first_of(text_view(save_directory), text_view(picture_dir)),
        ) {
            Some(d) => d,
            None => "."@,
        }),
{
    match output_dir {
        Some(d) => d,
        None => match save_directory {
            Some(d) => d,
            None => match picture_dir {
                Some(d) => d,
                None => String::from_str("."),
            },
        },
    }
}

} // verus!
