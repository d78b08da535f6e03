//! Laws of the timer, stated over the model of a session.
//!
//! The timer's methods are specified by the functions of `Session`; what is
//! proved here of those functions therefore holds of every call.

use crate::model::{phase_len, Notify, Session, TimerState};
use vstd::prelude::*;

verus! {

/// Every session that the timer starts with is well formed.
pub proof fn initial_is_well_formed(now: nat)
    ensures
        Session::initial(now).wf(),
        Session::initial(now).state is Ready,
        Session::initial(now).remaining == Session::initial(now).total,
{
}

/// Every transition keeps a well-formed session well formed.
pub proof fn transitions_preserve_well_formedness(s: Session, now: nat, minutes: nat)
    requires
        s.wf(),
    ensures
        s.started(now).wf(),
        s.break_started(now).wf(),
        s.paused().wf(),
        s.resumed(now).wf(),
        s.reset().wf(),
        s.advanced(now).wf(),
        s.with_time_setting(minutes).wf(),
        s.with_break_time_setting(minutes).wf(),
{
}

/// A poll during a focus phase, `d` after the last update and with more than
/// `d` left, takes exactly `d` off what remains and changes nothing else but
/// the time of the last update.
pub proof fn advance_running_counts_down(s: Session, d: nat)
    requires
        s.wf(),
        s.state is Running,
        d < s.remaining,
    ensures
        s.advanced(s.last_update + d).remaining == s.remaining - d,
        s.advanced(s.last_update + d).state is Running,
        s.advanced(s.last_update + d) == (Session {
            remaining: (s.remaining - d) as nat,
            last_update: s.last_update + d,
            ..s
        }),
        s.advance_events(s.last_update + d) == Seq::<Notify>::empty(),
{
}

/// The same holds during a break.
pub proof fn advance_on_break_counts_down(s: Session, d: nat)
    requires
        s.wf(),
        s.state is OnBreak,
        d < s.remaining,
    ensures
        s.advanced(s.last_update + d).remaining == s.remaining - d,
        s.advanced(s.last_update + d).state is OnBreak,
        s.advanced(s.last_update + d) == (Session {
            remaining: (s.remaining - d) as nat,
            last_update: s.last_update + d,
            ..s
        }),
        s.advance_events(s.last_update + d) == Seq::<Notify>::empty(),
{
}

/// While a phase runs, a poll never adds to what remains of it, and what
/// remains never exceeds the phase's length.
pub proof fn advance_never_adds_time(s: Session, now: nat)
    requires
        s.wf(),
        s.counting(),
        !s.expires(now),
    ensures
        s.advanced(now).remaining <= s.remaining,
        s.advanced(now).remaining > 0,
        s.advanced(now).total == s.total,
        s.advanced(now).state == s.state,
        s.advanced(now).sessions_completed == s.sessions_completed,
{
}

/// A poll during a focus phase, once at least as much time has gone by as was
/// left, starts a break with the whole break ahead and counts the focus phase
/// exactly once.
pub proof fn advance_running_completes(s: Session, now: nat)
    requires
        s.wf(),
        s.state is Running,
        s.elapsed(now) >= s.remaining,
    ensures
        s.advanced(now).state is OnBreak,
        s.advanced(now).total == phase_len(s.break_time_setting),
        s.advanced(now).remaining == s.advanced(now).total,
        s.advanced(now).sessions_completed == s.sessions_completed + 1,
        s.advanced(now).last_update == now,
        s.advanced(now).time_setting == s.time_setting,
        s.advanced(now).break_time_setting == s.break_time_setting,
        s.advance_events(now) == seq![Notify::Finished, Notify::BreakStarted],
{
}

/// A poll during a break, once at least as much time has gone by as was left,
/// starts the next focus phase with the whole of it ahead; the count of
/// focus phases stays.
pub proof fn advance_on_break_completes(s: Session, now: nat)
    requires
        s.wf(),
        s.state is OnBreak,
        s.elapsed(now) >= s.remaining,
    ensures
        s.advanced(now).state is Running,
        s.advanced(now).total == phase_len(s.time_setting),
        s.advanced(now).remaining == s.advanced(now).total,
        s.advanced(now).sessions_completed == s.sessions_completed,
        s.advanced(now).last_update == now,
        s.advanced(now).time_setting == s.time_setting,
        s.advanced(now).break_time_setting == s.break_time_setting,
        s.advance_events(now) == seq![Notify::Finished, Notify::Started],
{
}

/// Outside a phase a poll changes nothing and notifies of nothing.
pub proof fn advance_idle_is_noop(s: Session, now: nat)
    requires
        !s.counting(),
    ensures
        s.advanced(now) == s,
        s.advance_events(now) == Seq::<Notify>::empty(),
{
}

/// A timestamp that lies before the last update counts as no time gone by.
pub proof fn advance_clock_going_back(s: Session, now: nat)
    requires
        now <= s.last_update,
    ensures
        s.elapsed(now) == 0,
        s.remaining > 0 ==> s.advanced(now).remaining == s.remaining,
        s.remaining > 0 ==> s.advanced(now).state == s.state,
        s.counting() && s.remaining > 0 ==> s.advanced(now) == (Session { last_update: now, ..s }),
{
}

/// A reset from any state leaves the timer ready with the whole of the phase's
/// length left, and leaves that length as it was.
pub proof fn reset_restores_phase(s: Session)
    ensures
        s.reset().state is Ready,
        s.reset().remaining == s.reset().total,
        s.reset().total == s.total,
        s.reset() == (Session { state: TimerState::Ready, remaining: s.total, ..s }),
{
}

/// A pause changes nothing unless a focus phase is running; a resume changes
/// nothing unless the timer is paused.
pub proof fn pause_and_resume_are_noops_elsewhere(s: Session, now: nat)
    ensures
        !(s.state is Running) ==> s.paused() == s,
        !(s.state is Paused) ==> s.resumed(now) == s,
        s.state is Running ==> s.paused() == (Session { state: TimerState::Paused, ..s }),
        s.state is Paused ==> s.resumed(now) == (Session {
            state: TimerState::Running,
            last_update: now,
            ..s
        }),
{
}

/// A pause followed by a resume leaves a running focus phase with what it had
/// left: the time spent paused is not counted.
pub proof fn pause_then_resume_keeps_remaining(s: Session, now: nat)
    requires
        s.state is Running,
    ensures
        s.paused().resumed(now) == (Session { last_update: now, ..s }),
        s.paused().advanced(now) == s.paused(),
{
}

/// A second poll at the same timestamp changes nothing more and notifies of
/// nothing, unless the first poll started a phase of length zero.
pub proof fn advance_is_idempotent(s: Session, now: nat)
    requires
        s.wf(),
        !(s.expires(now) && s.state is Running && s.break_time_setting == 0),
        !(s.expires(now) && s.state is OnBreak && s.time_setting == 0),
    ensures
        s.advanced(now).advanced(now) == s.advanced(now),
        s.advanced(now).advance_events(now) == Seq::<Notify>::empty(),
{
    assert(phase_len(s.break_time_setting) > 0 <==> s.break_time_setting > 0);
    assert(phase_len(s.time_setting) > 0 <==> s.time_setting > 0);
}

/// A phase of length zero ends at the very next poll, whatever its timestamp.
pub proof fn zero_length_focus_ends_at_once(s: Session, start: nat, now: nat)
    requires
        s.wf(),
        s.time_setting == 0,
    ensures
        s.started(start).remaining == 0,
        s.started(start).state is Running,
        s.started(start).advanced(now).state is OnBreak,
        s.started(start).advanced(now).sessions_completed == s.sessions_completed + 1,
        s.started(start).advanced(now).remaining == phase_len(s.break_time_setting),
{
}

/// A new setting leaves the phase that is under way as it is, and is the
/// length of the next phase of its kind.
pub proof fn settings_apply_at_next_start(s: Session, minutes: nat, now: nat)
    requires
        minutes <= crate::model::MAX_MINUTES,
    ensures
        s.with_time_setting(minutes).remaining == s.remaining,
        s.with_time_setting(minutes).total == s.total,
        s.with_time_setting(minutes).state == s.state,
        s.with_break_time_setting(minutes).remaining == s.remaining,
        s.with_break_time_setting(minutes).total == s.total,
        s.with_break_time_setting(minutes).state == s.state,
        s.with_time_setting(minutes).started(now).total == phase_len(minutes),
        s.with_break_time_setting(minutes).break_started(now).total == phase_len(minutes),
{
}

} // verus!
