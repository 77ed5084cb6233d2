//! Decisions about windows: which window an event belongs to and how a
//! window is brought to the front on the desktop at hand.

use vstd::prelude::*;
use vstd::string::*;
use crate::text::{decimal_digits, is_substring, push_decimal, str_contains};

verus! {

/// What a window is for.
#[derive(Clone, Copy, Debug, PartialEq, Eq, Structural)]
pub enum WindowRole {
    ErrorDialog,
    Snipper,
    /// The main window, or a window that is not known.
    Other,
}

/// How a window is brought to the front.
#[derive(Clone, Copy, Debug, PartialEq, Eq, Structural)]
pub enum RaiseStrategy {
    /// Through a script run by the compositor.
    KWinScript,
    /// Through an activation token.
    ActivationToken,
    /// By asking for the focus.
    GainFocus,
}

/// What the window with the given number is for. The error dialog goes
/// first where both numbers are the same.
pub open spec fn role_of(window: u64, error_dialog: Option<u64>, snipper: Option<u64>) -> WindowRole {
    if error_dialog == Some(window) {
        WindowRole::ErrorDialog
    } else if snipper == Some(window) {
        WindowRole::Snipper
    } else {
        WindowRole::Other
    }
}

/// Decides what the window with the given number is for.
pub fn window_role(window: u64, error_dialog: Option<u64>, snipper: Option<u64>) -> (role:
    WindowRole)
    ensures
        role == role_of(window, error_dialog, snipper),
{
    let is_dialog = match error_dialog {
        Some(id) => id == window,
        None => false,
    };
    let is_snipper = match snipper {
        Some(id) => id == window,
        None => false,
    };
    if is_dialog {
        WindowRole::ErrorDialog
    } else if is_snipper {
        WindowRole::Snipper
    } else {
        WindowRole::Other
    }
}

/// Whether the session is a Wayland session.
pub open spec fn is_wayland(session_type: Option<Seq<char>>) -> bool {
    session_type == Some("wayland"@)
}

/// Whether the desktop is run by KWin: the name of the session holds
/// `plasma` or `kde`, or the name of the desktop holds `KDE`.
pub open spec fn is_kwin(desktop_session: Option<Seq<char>>, current_desktop: Option<Seq<char>>) -> bool {
    ||| desktop_session matches Some(s) && (is_substring("plasma"@, s) || is_substring("kde"@, s))
    ||| current_desktop matches Some(d) && is_substring("KDE"@, d)
}

/// How to bring a window to the front on this desktop.
pub open spec fn strategy_of(
    session_type: Option<Seq<char>>,
    desktop_session: Option<Seq<char>>,
    current_desktop: Option<Seq<char>>,
) -> RaiseStrategy {
    if is_wayland(session_type) {
        if is_kwin(desktop_session, current_desktop) {
            RaiseStrategy::KWinScript
        } else {
            RaiseStrategy::ActivationToken
        }
    } else {
        RaiseStrategy::GainFocus
    }
}

/// Decides how to bring a window to the front, from what the environment
/// says about the session and the desktop.
pub fn raise_strategy(
    session_type: Option<&str>,
    desktop_session: Option<&str>,
    current_desktop: Option<&str>,
) -> (strategy: RaiseStrategy)
    ensures
        strategy == strategy_of(
            match session_type {
                Some(t) => Some(t@),
                None => None,
            },
            match desktop_session {
                Some(t) => Some(t@),
                None => None,
            },
            match current_desktop {
                Some(t) => Some(t@),
                None => None,
            },
        ),
{
    let wayland = match session_type {
        Some(t) => t.eq("wayland"),
        None => false,
    };
    if !wayland {
        return RaiseStrategy::GainFocus;
    }
    let session_says = match desktop_session {
        Some(s) => str_contains(s, "plasma") || str_contains(s, "kde"),
        None => false,
    };
    let desktop_says = match current_desktop {
        Some(d) => str_contains(d, "KDE"),
        None => false,
    };
    if session_says || desktop_says {
        RaiseStrategy::KWinScript
    } else {
        RaiseStrategy::ActivationToken
    }
}

/// The text of the error for a script number that is negative.
pub open spec fn negative_script_text(id: i32) -> Seq<char> {
    "KWin returned negative script ID: -"@ + decimal_digits((-id) as nat)
}

/// Where on the bus the script with the given number is found.
pub open spec fn script_path_text(id: i32) -> Seq<char> {
    "/Scripting/Script"@ + decimal_digits(id as nat)
}

/// Says where on the bus the script with the given number is found. A
/// negative number stands for a script that could not be loaded.
pub fn script_object_path(id: i32) -> (path: Result<String, String>)
    ensures
        id >= 0 ==> (path matches Ok(p) && p@ == script_path_text(id)),
        id < 0 ==> (path matches Err(e) && e@ == negative_script_text(id)),
{
    if id < 0 {
        let mut text = String::from_str("KWin returned negative script ID: -");
        let magnitude: u32 = (-(id as i64)) as u32;
        push_decimal(&mut text, magnitude, 0);
        Err(text)
    } else {
        let mut text = String::from_str("/Scripting/Script");
        push_decimal(&mut text, id as u32, 0);
        Ok(text)
    }
}

} // verus!
