//! Deciding where a report goes: a dialog, a desktop notification or the
//! console, depending on how the program runs and how severe the report is.

use vstd::prelude::*;
use vstd::string::*;
use crate::notifications::NotificationType;

verus! {

/// How severe a report is.
#[derive(Clone, Copy, Debug, PartialEq, Eq, Structural)]
pub enum ErrorSeverity {
    /// Something that keeps the program from doing its work.
    Error,
    /// A fallback or a loss of function.
    Warning,
    /// A change of state worth telling.
    Info,
}

/// How the program runs, as far as reporting goes.
#[derive(Clone, Copy, Debug, PartialEq, Eq, Structural)]
pub struct ReportContext {
    /// Whether there is a window to show dialogs in.
    pub gui_mode: bool,
    /// Whether a channel to the window has been set up.
    pub gui_channel: bool,
}

/// Where a report goes.
#[derive(Clone, Copy, Debug, PartialEq, Eq, Structural)]
pub enum ReportRoute {
    /// Into a dialog of the window.
    Dialog,
    /// Into a desktop notification of the given type; onto the console
    /// where that cannot be shown.
    Notification(NotificationType),
    /// Onto the console.
    Console,
}

impl ErrorSeverity {
    /// The word that starts a report on the console.
    pub open spec fn spec_label(self) -> Seq<char> {
        match self {
            ErrorSeverity::Error => "ERROR"@,
            ErrorSeverity::Warning => "WARNING"@,
            ErrorSeverity::Info => "INFO"@,
        }
    }

    pub fn label(&self) -> (label: &'static str)
        ensures
            label@ == self.spec_label(),
    {
        match self {
            ErrorSeverity::Error => "ERROR",
            ErrorSeverity::Warning => "WARNING",
            ErrorSeverity::Info => "INFO",
        }
    }
}

impl ReportContext {
    /// The context of a program without a window.
    pub fn new() -> (context: ReportContext)
        ensures
            context == (ReportContext { gui_mode: false, gui_channel: false }),
    {
        ReportContext { gui_mode: false, gui_channel: false }
    }
}

/// Says whether the program runs with a window.
pub fn set_gui_mode(context: &mut ReportContext, enabled: bool)
    ensures
        *final(context) == (ReportContext { gui_mode: enabled, ..*old(context) }),
{
    context.gui_mode = enabled;
}

/// Whether the program runs with a window.
pub fn is_gui_mode(context: &ReportContext) -> (enabled: bool)
    ensures
        enabled == context.gui_mode,
{
    context.gui_mode
}

/// Notes that the channel to the window has been set up.
pub fn setup_gui_channel(context: &mut ReportContext)
    ensures
        *final(context) == (ReportContext { gui_channel: true, ..*old(context) }),
{
    context.gui_channel = true;
}

/// Where a report of the given severity goes: without a window onto the
/// console; with a window, errors into a dialog, or onto the console while
/// the channel is missing, and everything else into a notification.
pub open spec fn route_of(context: ReportContext, severity: ErrorSeverity) -> ReportRoute {
    if !context.gui_mode {
        ReportRoute::Console
    } else {
        match severity {
            ErrorSeverity::Error => if context.gui_channel {
                ReportRoute::Dialog
            } else {
                ReportRoute::Console
            },
            ErrorSeverity::Warning => ReportRoute::Notification(NotificationType::Warning),
            ErrorSeverity::Info => ReportRoute::Notification(NotificationType::Info),
        }
    }
}

/// Decides where a report goes.
pub fn report_error(context: &ReportContext, severity: ErrorSeverity) -> (route: ReportRoute)
    ensures
        route == route_of(*context, severity),
{
    if !context.gui_mode {
        return ReportRoute::Console;
    }
    match severity {
        ErrorSeverity::Error => {
            if context.gui_channel {
                ReportRoute::Dialog
            } else {
                ReportRoute::Console
            }
        },
        ErrorSeverity::Warning => ReportRoute::Notification(NotificationType::Warning),
        ErrorSeverity::Info => ReportRoute::Notification(NotificationType::Info),
    }
}

/// Decides where the report of a success goes: into a notification with a
/// window, else onto the console.
pub fn report_success(context: &ReportContext) -> (route: ReportRoute)
    ensures
        route == if context.gui_mode {
            ReportRoute::Notification(NotificationType::Success)
        } else {
            ReportRoute::Console
        },
{
    if context.gui_mode {
        ReportRoute::Notification(NotificationType::Success)
    } else {
        ReportRoute::Console
    }
}

/// The line that a report makes on the console.
pub fn console_line(severity: ErrorSeverity, title: &str, message: &str) -> (line: String)
    ensures
        line@ == severity.spec_label() + ": "@ + title@ + ": "@ + message@,
{
    let mut line = String::from_str(severity.label());
    line.append(": ");
    line.append(title);
    line.append(": ");
    line.append(message);
    line
}

/// The line that the report of a success makes on the console.
pub fn success_line(title: &str, message: &str) -> (line: String)
    ensures
        line@ == "SUCCESS: "@ + title@ + ": "@ + message@,
{
    let mut line = String::from_str("SUCCESS: ");
    line.append(title);
    line.append(": ");
    line.append(message);
    line
}

/// The text of a dialog: the title, an empty line, the message.
pub fn format_error_message(title: &str, message: &str) -> (text: String)
    ensures
        text@ == title@ + "\n\n"@ + message@,
{
    let mut text = String::from_str(title);
    text.append("\n\n");
    text.append(message);
    text
}

/// Whether a report of the given severity is shown in a dialog: only
/// errors are.
pub fn should_show_dialog(severity: &ErrorSeverity) -> (dialog: bool)
    ensures
        dialog == (*severity is Error),
{
    match severity {
        ErrorSeverity::Error => true,
        ErrorSeverity::Warning | ErrorSeverity::Info => false,
    }
}

} // verus!
