//! The mathematical model of a timer session and of its transitions.

use vstd::prelude::*;

verus! {

/// Nanoseconds in one second.
pub const NANOS_PER_SEC: u128 = 1_000_000_000;

/// Nanoseconds in one minute.
pub const NANOS_PER_MINUTE: u128 = 60_000_000_000;

/// Default length of a focus interval, in minutes.
pub const POMODORO_TIME: u64 = 25;

/// Default length of a break, in minutes.
pub const BREAK_TIME: u64 = 5;

/// Largest length that either interval can be set to, in minutes.
pub const MAX_MINUTES: u64 = 60;

/// The phase a session is in.
#[derive(Clone, Copy, Debug, PartialEq, Eq, Structural)]
pub enum TimerState {
    Ready,
    Running,
    Paused,
    Finished,
    OnBreak,
}

/// An occurrence that the host relays to the user.
#[derive(Clone, Copy, Debug, PartialEq, Eq, Structural)]
pub enum Notify {
    Finished,
    Started,
    Resume,
    Paused,
    BreakStarted,
}

/// A session as a mathematical value. Times are in nanoseconds.
pub struct Session {
    pub state: TimerState,
    /// Timestamp of the last poll that counted time, or of the last phase start.
    pub last_update: nat,
    /// Time left in the current phase.
    pub remaining: nat,
    /// Length of the current phase.
    pub total: nat,
    /// Focus length in minutes, read at the next focus start.
    pub time_setting: nat,
    /// Break length in minutes, read at the next break start.
    pub break_time_setting: nat,
    /// Number of focus phases that ran to their end.
    pub sessions_completed: nat,
}

/// Length in nanoseconds of a phase of `minutes` minutes.
pub open spec fn phase_len(minutes: nat) -> nat {
    minutes * NANOS_PER_MINUTE as nat
}

impl Session {
    /// The session a timer begins with when it is made at `now`.
    pub open spec fn initial(now: nat) -> Session {
        Session {
            state: TimerState::Ready,
            last_update: now,
            remaining: phase_len(POMODORO_TIME as nat),
            total: phase_len(POMODORO_TIME as nat),
            time_setting: POMODORO_TIME as nat,
            break_time_setting: BREAK_TIME as nat,
            sessions_completed: 0,
        }
    }

    /// What holds of every session that the timer can reach.
    pub open spec fn wf(self) -> bool {
        &&& self.remaining <= self.total
        &&& self.total <= phase_len(MAX_MINUTES as nat)
        &&& self.time_setting <= MAX_MINUTES
        &&& self.break_time_setting <= MAX_MINUTES
    }

    /// Whether the countdown is moving.
    pub open spec fn counting(self) -> bool {
        self.state is Running || self.state is OnBreak
    }

    /// Time between the last update and `now`; zero when `now` lies before it.
    pub open spec fn elapsed(self, now: nat) -> nat {
        if now >= self.last_update {
            (now - self.last_update) as nat
        } else {
            0
        }
    }

    /// Whether a poll at `now` ends the current phase.
    pub open spec fn expires(self, now: nat) -> bool {
        self.counting() && self.remaining <= self.elapsed(now)
    }

    /// The session after a focus phase starts at `now`.
    pub open spec fn started(self, now: nat) -> Session {
        Session {
            state: TimerState::Running,
            last_update: now,
            remaining: phase_len(self.time_setting),
            total: phase_len(self.time_setting),
            ..self
        }
    }

    /// The session after a break starts at `now`.
    pub open spec fn break_started(self, now: nat) -> Session {
        Session {
            state: TimerState::OnBreak,
            last_update: now,
            remaining: phase_len(self.break_time_setting),
            total: phase_len(self.break_time_setting),
            ..self
        }
    }

    /// The session after a request to pause.
    pub open spec fn paused(self) -> Session {
        if self.state is Running {
            Session { state: TimerState::Paused, ..self }
        } else {
            self
        }
    }

    /// The session after a request at `now` to resume.
    pub open spec fn resumed(self, now: nat) -> Session {
        if self.state is Paused {
            Session { state: TimerState::Running, last_update: now, ..self }
        } else {
            self
        }
    }

    /// The session after a reset.
    pub open spec fn reset(self) -> Session {
        Session { state: TimerState::Ready, remaining: self.total, ..self }
    }

    /// The session after a poll at `now`.
    ///
    /// A phase that has time left loses the elapsed time. A focus phase that
    /// has none left is counted and gives way to a break; a break that has
    /// none left gives way to the next focus phase. Outside a phase nothing
    /// changes.
    pub open spec fn advanced(self, now: nat) -> Session {
        if !self.counting() {
            self
        } else if self.remaining > self.elapsed(now) {
            Session {
                remaining: (self.remaining - self.elapsed(now)) as nat,
                last_update: now,
                ..self
            }
        } else if self.state is Running {
            Session { sessions_completed: self.sessions_completed + 1, ..self }.break_started(now)
        } else {
            self.started(now)
        }
    }

    /// The notifications that a poll at `now` gives rise to, in order.
    pub open spec fn advance_events(self, now: nat) -> Seq<Notify> {
        if !self.expires(now) {
            Seq::empty()
        } else if self.state is Running {
            seq![Notify::Finished, Notify::BreakStarted]
        } else {
            seq![Notify::Finished, Notify::Started]
        }
    }

    /// The session after the focus length is set to `minutes`.
    pub open spec fn with_time_setting(self, minutes: nat) -> Session {
        Session {
            time_setting: if minutes <= MAX_MINUTES { minutes } else { MAX_MINUTES as nat },
            ..self
        }
    }

    /// The session after the break length is set to `minutes`.
    pub open spec fn with_break_time_setting(self, minutes: nat) -> Session {
        Session {
            break_time_setting: if minutes <= MAX_MINUTES { minutes } else { MAX_MINUTES as nat },
            ..self
        }
    }
}

} // verus!
