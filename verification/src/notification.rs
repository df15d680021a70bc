//! Notifications: what the dispatcher asks the editor-facing loop to show.
//!
//! The dispatcher only produces them. The queue between the two loops
//! belongs to the host program, which sizes it with [`RELAY_CAPACITY`]
//! and turns each notification it takes out into one editor command with
//! [`Notification::ui_command`], in arrival order.

use vstd::prelude::*;
use vstd::string::*;

verus! {

/// The number of notifications the relay holds before a send is refused.
pub const RELAY_CAPACITY: usize = 10;

/// A request to the editor-facing loop.
#[derive(Clone, Debug, PartialEq, Eq)]
pub enum Notification {
    /// Display `message` to the user.
    Echo { message: String },
}

/// The mathematical value of a [`Notification`].
pub enum NotificationView {
    Echo { message: Seq<char> },
}

impl View for Notification {
    type V = NotificationView;

    open spec fn view(&self) -> NotificationView {
        match self {
            Notification::Echo { message } => NotificationView::Echo { message: message@ },
        }
    }
}

/// The view of a notification that may be absent.
pub open spec fn notice_view(notice: Option<Notification>) -> Option<NotificationView> {
    match notice {
        Some(notification) => Some(notification@),
        None => None,
    }
}

/// The editor command that carries out `notification`: for an echo, the
/// word `echo` and the message between double quotes.
pub open spec fn ui_command_of(notification: NotificationView) -> Seq<char> {
    match notification {
        NotificationView::Echo { message } => "echo \""@ + message + "\""@,
    }
}

impl Notification {
    /// The editor command that carries out the notification.
    pub fn ui_command(&self) -> (command: String)
        ensures
            command@ == ui_command_of(self@),
    {
        match self {
            Notification::Echo { message } => {
                let mut command = String::from_str("echo \"");
                command.append(message.as_str());
                command.append("\"");
                command
            },
        }
    }
}

} // verus!
