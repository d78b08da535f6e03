//! The words that go with each notification.

use crate::model::Notify;
use vstd::prelude::*;

verus! {

/// The heading of every notification.
pub open spec fn summary_text() -> Seq<char> {
    "Pomodoro Timer"@
}

/// The message of a notification.
pub open spec fn body_text(notify: Notify) -> Seq<char> {
    match notify {
        Notify::Finished => "Time's up!."@,
        Notify::Started => "Timer started."@,
        Notify::Paused => "Timer paused."@,
        Notify::Resume => "Timer resumed."@,
        Notify::BreakStarted => "Break started. Relax!"@,
    }
}

impl Notify {
    /// The heading to show with this notification.
    pub fn summary(&self) -> (text: &'static str)
        ensures
            text@ == summary_text(),
    {
        "Pomodoro Timer"
    }

    /// The message to show for this notification.
    pub fn body(&self) -> (text: &'static str)
        ensures
            text@ == body_text(*self),
    {
        match self {
            Notify::Finished => "Time's up!.",
            Notify::Started => "Timer started.",
            Notify::Paused => "Timer paused.",
            Notify::Resume => "Timer resumed.",
            Notify::BreakStarted => "Break started. Relax!",
        }
    }
}

} // verus!
