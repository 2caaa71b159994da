//! The notifications popup: a snapshot of the notification log shown as an
//! overlay, dismissed by cancel or the exit key.

use vstd::prelude::*;

use crate::types::{AppEvent, EventModel, Key, KeyPress, NavEvent};

verus! {

/// The texts of a sequence of strings.
pub open spec fn notes_view(s: Seq<String>) -> Seq<Seq<char>> {
    s.map_values(|x: String| x@)
}

/// The notifications popup: the log lines it was opened with, oldest first.
#[derive(Debug)]
pub struct NotificationsScreen {
    notifications: Vec<String>,
}

impl View for NotificationsScreen {
    type V = Seq<Seq<char>>;

    closed spec fn view(&self) -> Seq<Seq<char>> {
        notes_view(self.notifications@)
    }
}

/// The event a navigation step on the popup produces: cancel asks to close
/// it, everything else means nothing.
pub open spec fn notif_nav_event(e: NavEvent) -> Option<EventModel> {
    if e is Cancel {
        Some(EventModel::Exit)
    } else {
        None
    }
}

/// The event a raw key on the popup produces: the exit key asks to close
/// it, everything else means nothing.
pub open spec fn notif_key_event(k: KeyPress) -> Option<EventModel> {
    if k.key == Key::Char('q') {
        Some(EventModel::Exit)
    } else {
        None
    }
}

impl NotificationsScreen {
    /// A popup showing this snapshot of the notification log.
    pub fn new(notifications: Vec<String>) -> (r: NotificationsScreen)
        ensures
            r@ == notes_view(notifications@),
    {
        NotificationsScreen { notifications }
    }

    /// One navigation event: only cancel means anything, and it asks to
    /// close the popup.
    pub fn handle_nav(&self, e: NavEvent) -> (r: Option<AppEvent>)
        ensures
            match r {
                Some(ev) => notif_nav_event(e) == Some(ev@),
                None => notif_nav_event(e) is None,
            },
    {
        match e {
            NavEvent::Cancel => Some(AppEvent::ExitScreen),
            _ => None,
        }
    }

    /// One raw key: only the exit key means anything, and it asks to close
    /// the popup.
    pub fn handle_event(&self, k: KeyPress) -> (r: Option<AppEvent>)
        ensures
            match r {
                Some(ev) => notif_key_event(k) == Some(ev@),
                None => notif_key_event(k) is None,
            },
    {
        if matches!(k.key, Key::Char('q')) {
            Some(AppEvent::ExitScreen)
        } else {
            None
        }
    }

    /// The lines a popup of `height` rows shows: the most recent
    /// notifications, newest first.
    pub fn visible(&self, height: usize) -> (r: Vec<String>)
        ensures
            r@.len() == if height as int <= self@.len() {
                height as int
            } else {
                self@.len() as int
            },
            forall|i: int| 0 <= i < r@.len() ==> r@[i]@ == self@[self@.len() - 1 - i],
    {
        let n = self.notifications.len();
        let mut r: Vec<String> = Vec::new();
        let mut i: usize = 0;
        while i < height && i < n
            invariant
                i <= n,
                n == self@.len(),
                i <= height,
                r@.len() == i as int,
                forall|j: int| 0 <= j < i ==> r@[j]@ == self@[n - 1 - j],
            decreases n - i,
        {
            r.push(self.notifications[n - 1 - i].clone());
            i += 1;
        }
        r
    }
}

} // verus!
