//! The desktop portal: how a capture is asked for, and how the reply,
//! a location with a scheme, becomes a capture result.

use vstd::prelude::*;
use vstd::string::*;
use crate::codec::{
    decode_image,
    decoded_image,
    encode_thumbnail,
    thumbnail_fits,
    thumbnail_png_of,
    thumbnail_view,
};
use crate::screenshot::{
    ScreenshotError,
    ScreenshotErrorView,
    ScreenshotKind,
    ScreenshotResult,
    ScreenshotResultView,
};

verus! {

/// How the portal is asked.
#[derive(Clone, Copy, Debug, PartialEq, Eq, Structural)]
pub struct PortalRequest {
    /// Whether the desktop's own dialog lets the user choose what to
    /// capture.
    pub interactive: bool,
    pub modal: bool,
}

/// Where the portal says the capture is.
#[derive(Clone, Debug, PartialEq, Eq)]
pub enum PortalReply {
    /// In the file at this path.
    File(String),
    /// On the clipboard.
    Clipboard,
}

/// How a file gets from one place to another.
#[derive(Clone, Copy, Debug, PartialEq, Eq, Structural)]
pub enum FileTransfer {
    Rename,
    /// Copy the file, then delete the original.
    CopyThenDelete,
}

pub struct PortalScreengrabber {
    _private: (),
}

/// Only a capture of all screens is taken without asking the user.
pub open spec fn request_for(kind: ScreenshotKind) -> PortalRequest {
    if kind is AllScreens {
        PortalRequest { interactive: false, modal: false }
    } else {
        PortalRequest { interactive: true, modal: true }
    }
}

/// The thumbnail, as a PNG file, of the image in a PNG file.
pub open spec fn thumbnail_png(file: Seq<u8>) -> Option<Seq<u8>> {
    match decoded_image(file) {
        Some(image) => thumbnail_png_of(image),
        None => None,
    }
}

impl PortalScreengrabber {
    pub fn new() -> Self {
        Self { _private: () }
    }

    pub fn name(&self) -> (name: &'static str)
        ensures
            name@ == "Freedesktop Portal"@,
    {
        "Freedesktop Portal"
    }

    /// Every kind is offered: all but a capture of all screens through the
    /// desktop's dialog.
    pub fn supports_kind(&self, kind: ScreenshotKind) -> (supported: bool)
        ensures
            supported,
    {
        true
    }

    /// How to ask the portal for a capture of `kind`.
    pub fn request(&self, kind: ScreenshotKind) -> (request: PortalRequest)
        ensures
            request == request_for(kind),
    {
        match kind {
            ScreenshotKind::AllScreens => PortalRequest { interactive: false, modal: false },
            _ => PortalRequest { interactive: true, modal: true },
        }
    }

    /// Reads the reply of the portal from the scheme and the path of the
    /// location it gave. Only the schemes `file` and `clipboard` are known.
    pub fn interpret_reply(&self, scheme: &str, path: &str) -> (reply: Result<
        PortalReply,
        ScreenshotError,
    >)
        ensures
            scheme@ == "file"@ ==> (reply matches Ok(PortalReply::File(p)) && p@ == path@),
            scheme@ != "file"@ && scheme@ == "clipboard"@ ==> reply == Ok::<
                PortalReply,
                ScreenshotError,
            >(PortalReply::Clipboard),
            scheme@ != "file"@ && scheme@ != "clipboard"@ ==> (reply matches Err(e) && e@
                == ScreenshotErrorView::Portal("Unsupported scheme: "@ + scheme@)),
    {
        if scheme.eq("file") {
            Ok(PortalReply::File(String::from_str(path)))
        } else if scheme.eq("clipboard") {
            Ok(PortalReply::Clipboard)
        } else {
            let mut text = String::from_str("Unsupported scheme: ");
            text.append(scheme);
            Err(ScreenshotError::Portal(text))
        }
    }

    /// How to bring the file to its destination: by renaming where both
    /// lie on the same device, else by copying and deleting.
    pub fn transfer(&self, source_device: u64, destination_device: u64) -> (how: FileTransfer)
        ensures
            how == if source_device == destination_device {
                FileTransfer::Rename
            } else {
                FileTransfer::CopyThenDelete
            },
    {
        if source_device == destination_device {
            FileTransfer::Rename
        } else {
            FileTransfer::CopyThenDelete
        }
    }

    /// Makes the thumbnail for the image held in `file`, the contents of
    /// a PNG file.
    pub fn generate_thumbnail(&self, file: &Vec<u8>) -> (thumbnail: Result<
        Vec<u8>,
        ScreenshotError,
    >)
        ensures
            decoded_image(file@) matches Some(image) ==> thumbnail_fits(
                image,
                thumbnail_view(image),
            ),
            thumbnail matches Ok(bytes) ==> thumbnail_png(file@) == Some(bytes@),
            thumbnail matches Err(e) ==> thumbnail_png(file@) is None && e is Image,
    {
        let image = match decode_image(file) {
            Ok(image) => image,
            Err(e) => { return Err(e); },
        };
        encode_thumbnail(&image)
    }

    /// The result of a capture that the portal left in a file: `path` is
    /// where the file lies in the end, `file` is what it holds.
    pub fn file_result(&self, path: String, file: Vec<u8>) -> (result: Result<
        ScreenshotResult,
        ScreenshotError,
    >)
        ensures
            decoded_image(file@) matches Some(image) ==> thumbnail_fits(
                image,
                thumbnail_view(image),
            ),
            match thumbnail_png(file@) {
                Some(thumbnail) => result matches Ok(r) && r@ == (ScreenshotResultView {
                    path: Some(path@),
                    saved_to_clipboard: false,
                    thumbnail_data: thumbnail,
                    full_image_data: file@,
                }),
                None => result matches Err(e) && e is Image,
            },
    {
        let thumbnail_data = match self.generate_thumbnail(&file) {
            Ok(bytes) => bytes,
            Err(e) => { return Err(e); },
        };
        Ok(
            ScreenshotResult {
                path: Some(path),
                saved_to_clipboard: false,
                thumbnail_data,
                full_image_data: file,
            },
        )
    }

    /// The result of a capture that the portal put on the clipboard: no
    /// file and no image data.
    pub fn clipboard_result(&self) -> (result: ScreenshotResult)
        ensures
            result@ == (ScreenshotResultView {
                path: None,
                saved_to_clipboard: true,
                thumbnail_data: Seq::empty(),
                full_image_data: Seq::empty(),
            }),
    {
        ScreenshotResult {
            path: None,
            saved_to_clipboard: true,
            thumbnail_data: Vec::new(),
            full_image_data: Vec::new(),
        }
    }
}

} // verus!
