//! The timer itself.

use crate::model::{Notify, Session, TimerState};
use crate::model::{BREAK_TIME, MAX_MINUTES, NANOS_PER_MINUTE, POMODORO_TIME};
use vstd::prelude::*;

verus! {

/// A pomodoro timer.
pub struct Pom {
    state: TimerState,
    last_update: u128,
    remaining_time: u128,
    total_duration: u128,
    time_setting: u64,
    sessions_completed: u32,
    break_time_setting: u64,
}

impl View for Pom {
    type V = Session;

    closed spec fn view(&self) -> Session {
        Session {
            state: self.state,
            last_update: self.last_update as nat,
            remaining: self.remaining_time as nat,
            total: self.total_duration as nat,
            time_setting: self.time_setting as nat,
            break_time_setting: self.break_time_setting as nat,
            sessions_completed: self.sessions_completed as nat,
        }
    }
}

impl Pom {
    /// Whether the timer holds a session that it can have reached.
    pub open spec fn wf(&self) -> bool {
        self@.wf()
    }

    /// A timer made at `now`: ready, with the default lengths.
    pub fn new(now: u128) -> (pom: Pom)
        ensures
            pom.wf(),
            pom@ == Session::initial(now as nat),
    {
        let total_duration: u128 = POMODORO_TIME as u128 * NANOS_PER_MINUTE;
        Pom {
            state: TimerState::Ready,
            last_update: now,
            remaining_time: total_duration,
            total_duration,
            time_setting: POMODORO_TIME,
            sessions_completed: 0,
            break_time_setting: BREAK_TIME,
        }
    }

    /// Polls the timer at `now`.
    ///
    /// While a phase runs, the time since the last update is taken off what
    /// remains; a timestamp that lies before the last update counts as no time
    /// at all. When nothing remains, a focus phase is counted and a break
    /// starts, or a break ends and the next focus phase starts, both within
    /// this one call. Returns the notifications to relay, in order.
    pub fn update_timer(&mut self, now: u128) -> (events: Vec<Notify>)
        requires
            old(self).wf(),
            old(self)@.state is Running && old(self)@.expires(now as nat)
                ==> old(self)@.sessions_completed < u32::MAX,
        ensures
            final(self).wf(),
            final(self)@ == old(self)@.advanced(now as nat),
            events@ == old(self)@.advance_events(now as nat),
    {
        let mut events: Vec<Notify> = Vec::new();
        match self.state {
            TimerState::Running | TimerState::OnBreak => {
                let elapsed: u128 = if now >= self.last_update {
                    now - self.last_update
                } else {
                    0
                };
                if self.remaining_time > elapsed {
                    self.remaining_time = self.remaining_time - elapsed;
                } else {
                    self.remaining_time = 0;
                    events.push(Notify::Finished);
                    match self.state {
                        TimerState::Running => {
                            self.state = TimerState::Finished;
                            self.sessions_completed = self.sessions_completed + 1;
                            self.begin_break(now);
                            events.push(Notify::BreakStarted);
                        },
                        _ => {
                            self.state = TimerState::Ready;
                            self.begin_focus(now);
                            events.push(Notify::Started);
                        },
                    }
                }
                self.last_update = now;
            },
            _ => {},
        }
        events
    }

    /// Starts a focus phase at `now`, whatever the timer was doing.
    pub fn start_timer(&mut self, now: u128) -> (events: Vec<Notify>)
        requires
            old(self).wf(),
        ensures
            final(self).wf(),
            final(self)@ == old(self)@.started(now as nat),
            events@ == seq![Notify::Started],
    {
        self.begin_focus(now);
        vec![Notify::Started]
    }

    /// Starts a break at `now`, whatever the timer was doing.
    pub fn start_break(&mut self, now: u128) -> (events: Vec<Notify>)
        requires
            old(self).wf(),
        ensures
            final(self).wf(),
            final(self)@ == old(self)@.break_started(now as nat),
            events@ == seq![Notify::BreakStarted],
    {
        self.begin_break(now);
        vec![Notify::BreakStarted]
    }

    /// Pauses a running focus phase; in any other state nothing happens.
    pub fn pause_timer(&mut self) -> (events: Vec<Notify>)
        ensures
            final(self)@ == old(self)@.paused(),
            old(self).wf() ==> final(self).wf(),
            events@ == if old(self)@.state is Running {
                seq![Notify::Paused]
            } else {
                Seq::empty()
            },
    {
        match self.state {
            TimerState::Running => {
                self.state = TimerState::Paused;
                vec![Notify::Paused]
            },
            _ => Vec::new(),
        }
    }

    /// Resumes a paused focus phase at `now`; in any other state nothing
    /// happens. The time spent paused is not counted.
    pub fn resume_timer(&mut self, now: u128) -> (events: Vec<Notify>)
        ensures
            final(self)@ == old(self)@.resumed(now as nat),
            old(self).wf() ==> final(self).wf(),
            events@ == if old(self)@.state is Paused {
                seq![Notify::Resume]
            } else {
                Seq::empty()
            },
    {
        match self.state {
            TimerState::Paused => {
                self.state = TimerState::Running;
                self.last_update = now;
                vec![Notify::Resume]
            },
            _ => Vec::new(),
        }
    }

    /// Puts the timer back to ready, with the whole of the phase's length
    /// left. The length itself stays.
    pub fn reset_timer(&mut self)
        ensures
            final(self)@ == old(self)@.reset(),
            old(self).wf() ==> final(self).wf(),
    {
        self.state = TimerState::Ready;
        self.remaining_time = self.total_duration;
    }

    /// Sets the focus length, held to at most `MAX_MINUTES`. A phase that is
    /// under way keeps its length: the next focus start reads the new one.
    pub fn set_time_setting(&mut self, minutes: u64)
        ensures
            final(self)@ == old(self)@.with_time_setting(minutes as nat),
            old(self).wf() ==> final(self).wf(),
    {
        self.time_setting = if minutes <= MAX_MINUTES {
            minutes
        } else {
            MAX_MINUTES
        };
    }

    /// Sets the break length, held to at most `MAX_MINUTES`. A phase that is
    /// under way keeps its length: the next break start reads the new one.
    pub fn set_break_time_setting(&mut self, minutes: u64)
        ensures
            final(self)@ == old(self)@.with_break_time_setting(minutes as nat),
            old(self).wf() ==> final(self).wf(),
    {
        self.break_time_setting = if minutes <= MAX_MINUTES {
            minutes
        } else {
            MAX_MINUTES
        };
    }

    /// The phase the timer is in.
    pub fn state(&self) -> (state: TimerState)
        ensures
            state == self@.state,
    {
        self.state
    }

    /// Timestamp of the last poll that counted time, or of the last phase
    /// start.
    pub fn last_update(&self) -> (at: u128)
        ensures
            at == self@.last_update,
    {
        self.last_update
    }

    /// Time left in the current phase.
    pub fn remaining_time(&self) -> (left: u128)
        ensures
            left == self@.remaining,
    {
        self.remaining_time
    }

    /// Length of the current phase.
    pub fn total_duration(&self) -> (length: u128)
        ensures
            length == self@.total,
    {
        self.total_duration
    }

    /// Focus length in minutes, as the next focus start will read it.
    pub fn time_setting(&self) -> (minutes: u64)
        ensures
            minutes == self@.time_setting,
    {
        self.time_setting
    }

    /// Break length in minutes, as the next break start will read it.
    pub fn break_time_setting(&self) -> (minutes: u64)
        ensures
            minutes == self@.break_time_setting,
    {
        self.break_time_setting
    }

    /// Number of focus phases that ran to their end.
    pub fn sessions_completed(&self) -> (count: u32)
        ensures
            count == self@.sessions_completed,
    {
        self.sessions_completed
    }

    fn begin_focus(&mut self, now: u128)
        requires
            old(self)@.time_setting <= MAX_MINUTES,
            old(self)@.break_time_setting <= MAX_MINUTES,
        ensures
            final(self).wf(),
            final(self)@ == old(self)@.started(now as nat),
    {
        let total_duration: u128 = self.time_setting as u128 * NANOS_PER_MINUTE;
        self.total_duration = total_duration;
        self.remaining_time = total_duration;
        self.state = TimerState::Running;
        self.last_update = now;
    }

    fn begin_break(&mut self, now: u128)
        requires
            old(self)@.time_setting <= MAX_MINUTES,
            old(self)@.break_time_setting <= MAX_MINUTES,
        ensures
            final(self).wf(),
            final(self)@ == old(self)@.break_started(now as nat),
    {
        let total_duration: u128 = self.break_time_setting as u128 * NANOS_PER_MINUTE;
        self.total_duration = total_duration;
        self.remaining_time = total_duration;
        self.state = TimerState::OnBreak;
        self.last_update = now;
    }
}

} // verus!
