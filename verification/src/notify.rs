//! What is asked of the desktop's notification service.

use vstd::prelude::*;

verus! {

/// The identifier under which every notification is sent, so that each one
/// replaces the one before it.
pub const REPLACES_ID: u32 = 1;

/// How long a notification is to stay, in milliseconds.
pub const TIMEOUT_MS: i32 = 5000;

/// One request to the notification service. The service takes a map of
/// hints too, which stays empty and is no part of the request here.
#[derive(Debug, PartialEq, Eq)]
pub struct Notification {
    /// The name of the program that notifies.
    pub app_name: String,
    /// The notification that this one replaces.
    pub replaces_id: u32,
    /// The icon to show; empty for none.
    pub icon: String,
    /// The headline.
    pub summary: String,
    /// The text below the headline; empty for none.
    pub body: String,
    /// The actions that the user may pick from.
    pub actions: Vec<String>,
    /// How long the notification is to stay, in milliseconds.
    pub timeout_ms: i32,
}

/// A `Notification` with its texts as sequences of characters.
pub struct NotificationView {
    pub app_name: Seq<char>,
    pub replaces_id: u32,
    pub icon: Seq<char>,
    pub summary: Seq<char>,
    pub body: Seq<char>,
    pub actions: Seq<Seq<char>>,
    pub timeout_ms: i32,
}

impl View for Notification {
    type V = NotificationView;

    open spec fn view(&self) -> NotificationView {
        NotificationView {
            app_name: self.app_name@,
            replaces_id: self.replaces_id,
            icon: self.icon@,
            summary: self.summary@,
            body: self.body@,
            actions: Seq::new(self.actions@.len(), |i: int| self.actions@[i]@),
            timeout_ms: self.timeout_ms,
        }
    }
}

/// The notification that announces `song`: the song is the headline, and
/// there is neither icon nor body nor action.
pub open spec fn announcement_of(song: Seq<char>) -> NotificationView {
    NotificationView {
        app_name: "npd"@,
        replaces_id: REPLACES_ID,
        icon: Seq::empty(),
        summary: song,
        body: Seq::empty(),
        actions: Seq::empty(),
        timeout_ms: TIMEOUT_MS,
    }
}

impl Notification {
    /// Makes the notification that announces `song`.
    pub fn announce(song: String) -> (notification: Notification)
        ensures
            notification@ == announcement_of(song@),
    {
        let notification = Notification {
            app_name: String::from_str("npd"),
            replaces_id: REPLACES_ID,
            icon: String::new(),
            summary: song,
            body: String::new(),
            actions: Vec::new(),
            timeout_ms: TIMEOUT_MS,
        };
        assert(notification@.actions =~= Seq::empty());
        notification
    }
}

} // verus!
