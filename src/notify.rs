//! Desktop notifications: what is shown, and under which application.

use vstd::prelude::*;

verus! {

/// A text notification to show on the desktop.
#[derive(Debug, Clone)]
pub struct Notification {
    /// The application the notification is shown for.
    pub app_id: String,
    /// The single line of text it shows.
    pub text: String,
}

/// The notification that shows `message` under the application `title`.
pub fn notify_message(title: &str, message: &str) -> (r: Notification)
    ensures
        r.app_id@ == title@,
        r.text@ == message@,
{
    Notification { app_id: title.to_owned(), text: message.to_owned() }
}

} // verus!
