//! The one-shot capture from the command line: where the capture is saved
//! and what the notification about it says.

use vstd::prelude::*;
use vstd::string::*;
use crate::error::{Error, ErrorView};
use crate::notifications::{APP_NAME, EXPIRE_TIMEOUT_MS};
use crate::screenshot::text_view;
use crate::settings::APP_ID;

verus! {

/// The notification about a capture taken from the command line.
#[derive(Clone, Debug, PartialEq, Eq)]
pub struct SavedNotification {
    pub app_name: String,
    pub replaces_id: u32,
    pub app_icon: String,
    pub summary: String,
    pub body: String,
    /// Whether the notification is not to be kept once it was shown.
    pub transient: bool,
    pub expire_timeout: i32,
}

pub struct SavedNotificationView {
    pub app_name: Seq<char>,
    pub replaces_id: u32,
    pub app_icon: Seq<char>,
    pub summary: Seq<char>,
    pub body: Seq<char>,
    pub transient: bool,
    pub expire_timeout: i32,
}

impl View for SavedNotification {
    type V = SavedNotificationView;

    open spec fn view(&self) -> SavedNotificationView {
        SavedNotificationView {
            app_name: self.app_name@,
            replaces_id: self.replaces_id,
            app_icon: self.app_icon@,
            summary: self.summary@,
            body: self.body@,
            transient: self.transient,
            expire_timeout: self.expire_timeout,
        }
    }
}

/// The directory that the capture goes to. An interactive capture stays
/// where the portal put it. Otherwise it goes to the directory given where
/// that is a directory, else to the directory for pictures; where there is
/// neither, there is nowhere to save.
pub open spec fn target_directory(
    interactive: bool,
    save_dir: Option<Seq<char>>,
    save_dir_is_dir: bool,
    picture_dir: Option<Seq<char>>,
) -> Result<Option<Seq<char>>, ErrorView> {
    if interactive {
        Ok(None)
    } else if save_dir is Some && save_dir_is_dir {
        Ok(save_dir)
    } else if picture_dir is Some {
        Ok(picture_dir)
    } else {
        Err(ErrorView::MissingSaveDirectory(save_dir))
    }
}

/// Decides the directory that the capture goes to.
pub fn picture_directory(
    interactive: bool,
    save_dir: Option<String>,
    save_dir_is_dir: bool,
    picture_dir: Option<String>,
) -> (directory: Result<Option<String>, Error>)
    ensures
        match target_directory(
            interactive,
            text_view(save_dir),
            save_dir_is_dir,
            text_view(picture_dir),
        ) {
            Ok(d) => directory matches Ok(got) && text_view(got) == d,
            Err(e) => directory matches Err(got) && got@ == e,
        },
{
    if interactive {
        return Ok(None);
    }
    if save_dir.is_some() && save_dir_is_dir {
        return Ok(save_dir);
    }
    if picture_dir.is_some() {
        Ok(picture_dir)
    } else {
        Err(Error::MissingSaveDirectory(save_dir))
    }
}

/// What the notification says above the path: that the capture is on the
/// clipboard where there is no path.
pub open spec fn saved_summary(path: Seq<char>) -> Seq<char> {
    if path.len() == 0 {
        "Screenshot saved to clipboard"@
    } else {
        "Screenshot saved to:"@
    }
}

/// Makes the notification about a capture saved at `path`; the path is
/// empty for a capture on the clipboard.
pub fn saved_notification(path: &str) -> (notification: SavedNotification)
    ensures
        notification@ == (SavedNotificationView {
            app_name: APP_NAME@,
            replaces_id: 0,
            app_icon: APP_ID@,
            summary: saved_summary(path@),
            body: path@,
            transient: true,
            expire_timeout: EXPIRE_TIMEOUT_MS,
        }),
{
    let summary = if path.is_empty() {
        "Screenshot saved to clipboard"
    } else {
        "Screenshot saved to:"
    };
    SavedNotification {
        app_name: String::from_str(APP_NAME),
        replaces_id: 0,
        app_icon: String::from_str(APP_ID),
        summary: String::from_str(summary),
        body: String::from_str(path),
        transient: true,
        expire_timeout: EXPIRE_TIMEOUT_MS,
    }
}

} // verus!
