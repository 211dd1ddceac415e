//! A one-line notification emitted when a phase expires naturally, shown
//! until it is dismissed or a fixed interval has passed.

use vstd::prelude::*;

verus! {

/// How many seconds a notification stays up before it auto-dismisses.
pub const NOTIFICATION_DURATION: u64 = 5;

/// A notification with its creation time, its lifetime in seconds and the
/// text the notification renderer displays.
pub struct Notification {
    pub time_start: u64,
    pub duration: u64,
    pub text: String,
}

impl Notification {
    /// A notification created at `now` with the default lifetime.
    pub fn new(text: String, now: u64) -> (n: Notification)
        ensures
            n.time_start == now,
            n.duration == NOTIFICATION_DURATION,
            n.text == text,
    {
        Notification { time_start: now, duration: NOTIFICATION_DURATION, text }
    }

    /// The notification's lifetime has passed at `now`. Time before
    /// `time_start` counts as zero, so a notification is never expired
    /// before it is created.
    pub open spec fn spec_expired(self, now: u64) -> bool {
        if now >= self.time_start {
            self.duration < now - self.time_start
        } else {
            false
        }
    }

    /// Whether the notification should be dismissed at `now`.
    pub fn is_expired(&self, now: u64) -> (r: bool)
        ensures
            r == self.spec_expired(now),
    {
        let since: u64 = if now >= self.time_start {
            now - self.time_start
        } else {
            0
        };
        self.duration < since
    }
}

} // verus!
