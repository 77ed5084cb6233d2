//! Errors of a capture through the portal from the command line, told
//! apart by what the user is to be told.

use vstd::prelude::*;
use vstd::string::*;
use crate::screenshot::text_view;

verus! {

/// What an error of the message bus is about, as far as it matters here.
#[derive(Clone, Copy, Debug, PartialEq, Eq, Structural)]
pub enum BusErrorKind {
    /// The method or interface is not supported.
    Unsupported,
    /// The interface was not found.
    InterfaceNotFound,
    Other,
}

/// What went wrong in the portal.
#[derive(Clone, Debug, PartialEq, Eq)]
pub enum PortalError {
    /// The request got a response saying that the user cancelled.
    ResponseCancelled,
    /// The request got some other failure response.
    ResponseOther,
    /// The portal reported that the request was cancelled.
    Cancelled,
    /// The portal reported that the request is not allowed; with its
    /// reason.
    NotAllowed(String),
    /// The portal reported an error of the message bus.
    PortalBus(BusErrorKind),
    /// Talking to the portal failed on the message bus.
    Bus(BusErrorKind),
    /// The portal is older than the call needs.
    RequiresVersion,
    Other,
}

pub enum PortalErrorView {
    ResponseCancelled,
    ResponseOther,
    Cancelled,
    NotAllowed(Seq<char>),
    PortalBus(BusErrorKind),
    Bus(BusErrorKind),
    RequiresVersion,
    Other,
}

/// Why a capture from the command line failed.
#[derive(Clone, Debug, PartialEq, Eq)]
pub enum Error {
    /// The portal or the message bus failed; with what went wrong and the
    /// portal's own words for it.
    Ashpd(PortalError, String),
    /// Posting the notification failed; with the text of the failure.
    Notify(String),
    /// The directory given is no directory and there is none for
    /// pictures either.
    MissingSaveDirectory(Option<String>),
    /// The capture was taken but could not be saved.
    SaveScreenshot { error: String, context: String },
}

pub enum ErrorView {
    Ashpd(PortalErrorView, Seq<char>),
    Notify(Seq<char>),
    MissingSaveDirectory(Option<Seq<char>>),
    SaveScreenshot { error: Seq<char>, context: Seq<char> },
}

/// What to tell the user. The words themselves are found elsewhere.
#[derive(Clone, Debug, PartialEq, Eq)]
pub enum UserMessage {
    Cancelled,
    /// The message bus failed.
    BusError,
    /// There is no directory to save to; with the path tried.
    NoDirectory(String),
    /// The capture is not allowed; with the reason.
    NotAllowed(String),
    Failed,
}

pub enum UserMessageView {
    Cancelled,
    BusError,
    NoDirectory(Seq<char>),
    NotAllowed(Seq<char>),
    Failed,
}

impl View for PortalError {
    type V = PortalErrorView;

    open spec fn view(&self) -> PortalErrorView {
        match self {
            PortalError::ResponseCancelled => PortalErrorView::ResponseCancelled,
            PortalError::ResponseOther => PortalErrorView::ResponseOther,
            PortalError::Cancelled => PortalErrorView::Cancelled,
            PortalError::NotAllowed(m) => PortalErrorView::NotAllowed(m@),
            PortalError::PortalBus(k) => PortalErrorView::PortalBus(*k),
            PortalError::Bus(k) => PortalErrorView::Bus(*k),
            PortalError::RequiresVersion => PortalErrorView::RequiresVersion,
            PortalError::Other => PortalErrorView::Other,
        }
    }
}

impl View for Error {
    type V = ErrorView;

    open spec fn view(&self) -> ErrorView {
        match self {
            Error::Ashpd(e, text) => ErrorView::Ashpd(e@, text@),
            Error::Notify(m) => ErrorView::Notify(m@),
            Error::MissingSaveDirectory(p) => ErrorView::MissingSaveDirectory(text_view(*p)),
            Error::SaveScreenshot { error, context } => ErrorView::SaveScreenshot {
                error: error@,
                context: context@,
            },
        }
    }
}

impl View for UserMessage {
    type V = UserMessageView;

    open spec fn view(&self) -> UserMessageView {
        match self {
            UserMessage::Cancelled => UserMessageView::Cancelled,
            UserMessage::BusError => UserMessageView::BusError,
            UserMessage::NoDirectory(p) => UserMessageView::NoDirectory(p@),
            UserMessage::NotAllowed(m) => UserMessageView::NotAllowed(m@),
            UserMessage::Failed => UserMessageView::Failed,
        }
    }
}

impl BusErrorKind {
    /// Whether the error says that something is not offered.
    pub open spec fn not_offered(self) -> bool {
        self is Unsupported || self is InterfaceNotFound
    }
}

/// Whether the error stands for a request that the user cancelled.
pub open spec fn is_cancelled(error: ErrorView) -> bool {
    error matches ErrorView::Ashpd(e, _) && (e is ResponseCancelled || e is Cancelled)
}

/// Whether the error says that the portal does not offer captures.
pub open spec fn is_unsupported(error: ErrorView) -> bool {
    match error {
        ErrorView::Ashpd(PortalErrorView::RequiresVersion, _) => true,
        ErrorView::Ashpd(PortalErrorView::PortalBus(k), _) => k.not_offered(),
        ErrorView::Ashpd(PortalErrorView::Bus(k), _) => k.not_offered(),
        _ => false,
    }
}

/// Whether the error is one of the message bus.
pub open spec fn is_bus_error(error: ErrorView) -> bool {
    error matches ErrorView::Ashpd(e, _) && (e is Bus || e is PortalBus)
}

/// What the user is told for an error: that the request was cancelled,
/// else that the bus failed, else what is particular to the error, else
/// that the capture failed.
pub open spec fn user_message(error: ErrorView) -> UserMessageView {
    if is_cancelled(error) {
        UserMessageView::Cancelled
    } else if is_bus_error(error) {
        UserMessageView::BusError
    } else {
        match error {
            ErrorView::MissingSaveDirectory(Some(path)) => UserMessageView::NoDirectory(path),
            ErrorView::MissingSaveDirectory(None) => UserMessageView::NoDirectory(Seq::empty()),
            ErrorView::Ashpd(PortalErrorView::NotAllowed(reason), _) => {
                UserMessageView::NotAllowed(reason)
            },
            _ => UserMessageView::Failed,
        }
    }
}

/// The error as one line of text for the log.
pub open spec fn log_message(error: ErrorView) -> Seq<char> {
    match error {
        ErrorView::Ashpd(_, text) => text,
        ErrorView::Notify(text) => "posting a notification: "@ + text,
        ErrorView::MissingSaveDirectory(Some(path)) => "opening `"@ + path
            + "` or the Pictures directory"@,
        ErrorView::MissingSaveDirectory(None) => "opening Pictures directory"@,
        ErrorView::SaveScreenshot { error, context } => context + ": "@ + error,
    }
}

impl Error {
    /// The error as one line of text for the log.
    pub fn message(&self) -> (text: String)
        ensures
            text@ == log_message(self@),
    {
        match self {
            Error::Ashpd(_, text) => text.clone(),
            Error::Notify(detail) => {
                let mut text = String::from_str("posting a notification: ");
                text.append(detail.as_str());
                text
            },
            Error::MissingSaveDirectory(Some(path)) => {
                let mut text = String::from_str("opening `");
                text.append(path.as_str());
                text.append("` or the Pictures directory");
                text
            },
            Error::MissingSaveDirectory(None) => String::from_str("opening Pictures directory"),
            Error::SaveScreenshot { error, context } => {
                let mut text = context.clone();
                text.append(": ");
                text.append(error.as_str());
                text
            },
        }
    }

    /// What to tell the user.
    pub fn to_user_facing(&self) -> (message: UserMessage)
        ensures
            message@ == user_message(self@),
    {
        if self.cancelled() {
            UserMessage::Cancelled
        } else if self.zbus() {
            UserMessage::BusError
        } else {
            match self {
                Error::MissingSaveDirectory(Some(path)) => UserMessage::NoDirectory(path.clone()),
                Error::MissingSaveDirectory(None) => UserMessage::NoDirectory(String::new()),
                Error::Ashpd(PortalError::NotAllowed(reason), _) => UserMessage::NotAllowed(
                    reason.clone(),
                ),
                _ => UserMessage::Failed,
            }
        }
    }

    /// Whether the request was cancelled.
    pub fn cancelled(&self) -> (yes: bool)
        ensures
            yes == is_cancelled(self@),
    {
        match self {
            Error::Ashpd(PortalError::ResponseCancelled, _) => true,
            Error::Ashpd(PortalError::Cancelled, _) => true,
            _ => false,
        }
    }

    /// Whether the portal does not offer captures.
    pub fn unsupported(&self) -> (yes: bool)
        ensures
            yes == is_unsupported(self@),
    {
        match self {
            Error::Ashpd(PortalError::RequiresVersion, _) => true,
            Error::Ashpd(PortalError::PortalBus(k), _) => bus_kind_not_offered(*k),
            Error::Ashpd(PortalError::Bus(k), _) => bus_kind_not_offered(*k),
            _ => false,
        }
    }

    /// Whether the message bus failed.
    pub fn zbus(&self) -> (yes: bool)
        ensures
            yes == is_bus_error(self@),
    {
        match self {
            Error::Ashpd(PortalError::Bus(_), _) => true,
            Error::Ashpd(PortalError::PortalBus(_), _) => true,
            _ => false,
        }
    }
}

fn bus_kind_not_offered(kind: BusErrorKind) -> (yes: bool)
    ensures
        yes == kind.not_offered(),
{
    match kind {
        BusErrorKind::Unsupported | BusErrorKind::InterfaceNotFound => true,
        BusErrorKind::Other => false,
    }
}

/// An error is never both a cancellation and an error of the bus, so what
/// the user is told does not depend on which of the two is asked first.
pub proof fn law_cancelled_excludes_bus_error(error: ErrorView)
    ensures
        !(is_cancelled(error) && is_bus_error(error)),
        is_unsupported(error) ==> !is_cancelled(error),
{
}

} // verus!
