//! Desktop notifications: what is sent for which kind of message.
//! Sending itself is the caller's business.

use vstd::prelude::*;
use vstd::string::*;

verus! {

/// The name under which notifications are sent.
pub const APP_NAME: &'static str = "COSMIC Screenshot";

/// How long a notification stays, in milliseconds.
pub const EXPIRE_TIMEOUT_MS: i32 = 5000;

/// How urgent a notification is.
#[derive(Clone, Copy, Debug, PartialEq, Eq, Structural)]
pub enum NotificationUrgency {
    Low,
    Normal,
    Critical,
}

/// What a notification is about.
#[derive(Clone, Copy, Debug, PartialEq, Eq, Structural)]
pub enum NotificationType {
    Info,
    Warning,
    Error,
    Success,
}

/// One notification, ready to be sent.
#[derive(Clone, Debug, PartialEq, Eq)]
pub struct NotificationRequest {
    pub app_name: String,
    /// The notification to replace; 0 for a new one.
    pub replaces_id: u32,
    pub app_icon: String,
    pub summary: String,
    pub body: String,
    /// The urgency hint.
    pub urgency: u8,
    pub expire_timeout: i32,
}

pub struct NotificationRequestView {
    pub app_name: Seq<char>,
    pub replaces_id: u32,
    pub app_icon: Seq<char>,
    pub summary: Seq<char>,
    pub body: Seq<char>,
    pub urgency: u8,
    pub expire_timeout: i32,
}

impl View for NotificationRequest {
    type V = NotificationRequestView;

    open spec fn view(&self) -> NotificationRequestView {
        NotificationRequestView {
            app_name: self.app_name@,
            replaces_id: self.replaces_id,
            app_icon: self.app_icon@,
            summary: self.summary@,
            body: self.body@,
            urgency: self.urgency,
            expire_timeout: self.expire_timeout,
        }
    }
}

/// Knows whether notifications can be sent at all.
pub struct NotificationManager {
    /// Whether there is a connection to the message bus.
    pub connected: bool,
}

impl NotificationUrgency {
    pub open spec fn spec_level(self) -> u8 {
        match self {
            NotificationUrgency::Low => 0,
            NotificationUrgency::Normal => 1,
            NotificationUrgency::Critical => 2,
        }
    }

    /// The number that stands for the urgency in a notification.
    pub fn level(&self) -> (n: u8)
        ensures
            n == self.spec_level(),
    {
        match self {
            NotificationUrgency::Low => 0,
            NotificationUrgency::Normal => 1,
            NotificationUrgency::Critical => 2,
        }
    }
}

impl NotificationType {
    pub open spec fn spec_urgency(self) -> NotificationUrgency {
        match self {
            NotificationType::Info | NotificationType::Success => NotificationUrgency::Low,
            NotificationType::Warning => NotificationUrgency::Normal,
            NotificationType::Error => NotificationUrgency::Critical,
        }
    }

    pub open spec fn spec_icon(self) -> Seq<char> {
        match self {
            NotificationType::Info => "dialog-information"@,
            NotificationType::Success => "emblem-default"@,
            NotificationType::Warning => "dialog-warning"@,
            NotificationType::Error => "dialog-error"@,
        }
    }

    pub fn urgency(&self) -> (urgency: NotificationUrgency)
        ensures
            urgency == self.spec_urgency(),
    {
        match self {
            NotificationType::Info | NotificationType::Success => NotificationUrgency::Low,
            NotificationType::Warning => NotificationUrgency::Normal,
            NotificationType::Error => NotificationUrgency::Critical,
        }
    }

    /// The name of the icon shown with the notification.
    pub fn icon(&self) -> (icon: &'static str)
        ensures
            icon@ == self.spec_icon(),
    {
        match self {
            NotificationType::Info => "dialog-information",
            NotificationType::Success => "emblem-default",
            NotificationType::Warning => "dialog-warning",
            NotificationType::Error => "dialog-error",
        }
    }
}

/// The text of the error for a manager without a connection.
pub open spec fn no_connection_text() -> Seq<char> {
    "No D-Bus connection available for notifications"@
}

/// The text of the error for a manager that was never set up.
pub open spec fn not_initialized_text() -> Seq<char> {
    "Notification manager not initialized"@
}

/// The notification for a message of the given type.
pub open spec fn request_for(
    notification_type: NotificationType,
    title: Seq<char>,
    message: Seq<char>,
) -> NotificationRequestView {
    NotificationRequestView {
        app_name: APP_NAME@,
        replaces_id: 0,
        app_icon: notification_type.spec_icon(),
        summary: title,
        body: message,
        urgency: notification_type.spec_urgency().spec_level(),
        expire_timeout: EXPIRE_TIMEOUT_MS,
    }
}

impl NotificationManager {
    /// A manager that has a connection to the message bus, or has none.
    pub fn new(connected: bool) -> (manager: NotificationManager)
        ensures
            manager.connected == connected,
    {
        NotificationManager { connected }
    }

    /// Whether notifications can be sent.
    pub fn is_available(&self) -> (available: bool)
        ensures
            available == self.connected,
    {
        self.connected
    }

    /// The notification to send for a message, or an error where none can
    /// be sent.
    pub fn show_notification(
        &self,
        notification_type: NotificationType,
        title: &str,
        message: &str,
    ) -> (request: Result<NotificationRequest, String>)
        ensures
            self.connected ==> (request matches Ok(r) && r@ == request_for(
                notification_type,
                title@,
                message@,
            )),
            !self.connected ==> (request matches Err(e) && e@ == no_connection_text()),
    {
        if self.connected {
            Ok(
                NotificationRequest {
                    app_name: String::from_str(APP_NAME),
                    replaces_id: 0,
                    app_icon: String::from_str(notification_type.icon()),
                    summary: String::from_str(title),
                    body: String::from_str(message),
                    urgency: notification_type.urgency().level(),
                    expire_timeout: EXPIRE_TIMEOUT_MS,
                },
            )
        } else {
            Err(String::from_str("No D-Bus connection available for notifications"))
        }
    }

    /// Whether the notification with the given number can be closed: the
    /// number itself where there is a connection, else an error.
    pub fn close_notification(&self, id: u32) -> (closing: Result<u32, String>)
        ensures
            self.connected ==> closing == Ok::<u32, String>(id),
            !self.connected ==> (closing matches Err(e) && e@ == no_connection_text()),
    {
        if self.connected {
            Ok(id)
        } else {
            Err(String::from_str("No D-Bus connection available for notifications"))
        }
    }
}

/// The notification to send through the shared manager, which may not
/// have been set up.
pub fn show_system_notification(
    manager: Option<&NotificationManager>,
    notification_type: NotificationType,
    title: &str,
    message: &str,
) -> (request: Result<NotificationRequest, String>)
    ensures
        match manager {
            Some(m) if m.connected => request matches Ok(r) && r@ == request_for(
                notification_type,
                title@,
                message@,
            ),
            Some(_) => request matches Err(e) && e@ == no_connection_text(),
            None => request matches Err(e) && e@ == not_initialized_text(),
        },
{
    match manager {
        Some(m) => m.show_notification(notification_type, title, message),
        None => Err(String::from_str("Notification manager not initialized")),
    }
}

/// Whether notifications can be sent through the shared manager.
pub fn notifications_available(manager: Option<&NotificationManager>) -> (available: bool)
    ensures
        available == (manager matches Some(m) && m.connected),
{
    match manager {
        Some(m) => m.is_available(),
        None => false,
    }
}

} // verus!
