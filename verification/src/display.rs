//! What a host draws for a session.

use crate::model::{Session, TimerState, NANOS_PER_SEC};
use crate::pom::Pom;
use vstd::prelude::*;
use vstd::string::StringExecFns;

verus! {

/// How the face of the timer is drawn.
#[derive(Clone, Copy, Debug, PartialEq, Eq, Structural)]
pub enum DisplayMode {
    Normal,
    Paused,
    Finished,
    OnBreak,
}

/// A part of a whole, with `done <= whole` and `whole > 0`.
#[derive(Clone, Copy, Debug, PartialEq, Eq, Structural)]
pub struct Fraction {
    pub done: u128,
    pub whole: u128,
}

/// What to draw: the text in the middle, the mode, and how far the arc goes.
pub struct Face {
    pub label: String,
    pub mode: DisplayMode,
    pub progress: Fraction,
}

/// The character for a decimal digit.
pub open spec fn digit_char(d: nat) -> char {
    if d == 0 {
        '0'
    } else if d == 1 {
        '1'
    } else if d == 2 {
        '2'
    } else if d == 3 {
        '3'
    } else if d == 4 {
        '4'
    } else if d == 5 {
        '5'
    } else if d == 6 {
        '6'
    } else if d == 7 {
        '7'
    } else if d == 8 {
        '8'
    } else {
        '9'
    }
}

/// A number in decimal, without leading zeros.
pub open spec fn decimal(n: nat) -> Seq<char>
    decreases n,
{
    if n < 10 {
        seq![digit_char(n)]
    } else {
        decimal(n / 10).push(digit_char(n % 10))
    }
}

/// A number in decimal, with a leading zero where it has one digit only.
pub open spec fn two_digits(n: nat) -> Seq<char> {
    if n < 10 {
        seq!['0', digit_char(n)]
    } else {
        decimal(n)
    }
}

/// A time in nanoseconds as minutes and seconds, `MM:SS`. Parts of a second
/// are dropped.
pub open spec fn clock_text(nanos: nat) -> Seq<char> {
    let secs = nanos / (NANOS_PER_SEC as nat);
    two_digits(secs / 60) + seq![':'] + two_digits(secs % 60)
}

/// The mode in which a state is drawn.
pub open spec fn mode_of(state: TimerState) -> DisplayMode {
    match state {
        TimerState::Ready | TimerState::Running => DisplayMode::Normal,
        TimerState::Paused => DisplayMode::Paused,
        TimerState::Finished => DisplayMode::Finished,
        TimerState::OnBreak => DisplayMode::OnBreak,
    }
}

/// The text in the middle of the face: the time left in normal mode, else a
/// caption for the state.
pub open spec fn label_text(s: Session) -> Seq<char> {
    match s.state {
        TimerState::Finished => "Time's up!"@,
        TimerState::Paused => "Paused"@,
        TimerState::OnBreak => "On Break"@,
        _ => clock_text(s.remaining),
    }
}

/// The part of the phase that has gone by. A phase of length zero is all done.
pub open spec fn progress_of(s: Session) -> (nat, nat) {
    if s.total > 0 {
        ((s.total - s.remaining) as nat, s.total)
    } else {
        (1, 1)
    }
}

fn digit_str(d: u8) -> (text: &'static str)
    requires
        d < 10,
    ensures
        text@ == seq![digit_char(d as nat)],
{
    proof {
        reveal_strlit("0");
        reveal_strlit("1");
        reveal_strlit("2");
        reveal_strlit("3");
        reveal_strlit("4");
        reveal_strlit("5");
        reveal_strlit("6");
        reveal_strlit("7");
        reveal_strlit("8");
        reveal_strlit("9");
    }
    match d {
        0 => "0",
        1 => "1",
        2 => "2",
        3 => "3",
        4 => "4",
        5 => "5",
        6 => "6",
        7 => "7",
        8 => "8",
        _ => "9",
    }
}

fn push_decimal(text: &mut String, n: u128)
    ensures
        final(text)@ == old(text)@ + decimal(n as nat),
    decreases n,
{
    if n >= 10 {
        push_decimal(text, n / 10);
    }
    text.append(digit_str((n % 10) as u8));
}

fn push_two_digits(text: &mut String, n: u128)
    ensures
        final(text)@ == old(text)@ + two_digits(n as nat),
{
    if n < 10 {
        proof {
            reveal_strlit("0");
        }
        text.append("0");
    }
    push_decimal(text, n);
}

impl Pom {
    /// Writes a time in nanoseconds as minutes and seconds, `MM:SS`, each with
    /// two digits at least.
    pub fn format_duration(duration: u128) -> (text: String)
        ensures
            text@ == clock_text(duration as nat),
    {
        let secs: u128 = duration / NANOS_PER_SEC;
        let mut text = String::new();
        push_two_digits(&mut text, secs / 60);
        proof {
            reveal_strlit(":");
        }
        text.append(":");
        push_two_digits(&mut text, secs % 60);
        text
    }

    /// The mode in which the face is drawn.
    pub fn mode(&self) -> (mode: DisplayMode)
        ensures
            mode == mode_of(self@.state),
    {
        match self.state() {
            TimerState::Ready | TimerState::Running => DisplayMode::Normal,
            TimerState::Paused => DisplayMode::Paused,
            TimerState::Finished => DisplayMode::Finished,
            TimerState::OnBreak => DisplayMode::OnBreak,
        }
    }

    /// The text in the middle of the face.
    pub fn label(&self) -> (text: String)
        ensures
            text@ == label_text(self@),
    {
        match self.state() {
            TimerState::Finished => String::from_str("Time's up!"),
            TimerState::Paused => String::from_str("Paused"),
            TimerState::OnBreak => String::from_str("On Break"),
            _ => Pom::format_duration(self.remaining_time()),
        }
    }

    /// The part of the phase that has gone by, as a fraction between nothing
    /// and the whole.
    pub fn progress(&self) -> (part: Fraction)
        requires
            self.wf(),
        ensures
            (part.done as nat, part.whole as nat) == progress_of(self@),
            part.done <= part.whole,
            part.whole > 0,
    {
        let total: u128 = self.total_duration();
        if total > 0 {
            Fraction { done: total - self.remaining_time(), whole: total }
        } else {
            Fraction { done: 1, whole: 1 }
        }
    }

    /// All that a host needs to draw the face.
    pub fn render(&self) -> (face: Face)
        requires
            self.wf(),
        ensures
            face.label@ == label_text(self@),
            face.mode == mode_of(self@.state),
            (face.progress.done as nat, face.progress.whole as nat) == progress_of(self@),
    {
        Face { label: self.label(), mode: self.mode(), progress: self.progress() }
    }
}

/// A time under a hundred minutes is written with five characters: two digits
/// of minutes, a colon, two digits of seconds.
pub proof fn clock_text_is_mm_ss(nanos: nat)
    requires
        nanos < 6000 * NANOS_PER_SEC,
    ensures
        clock_text(nanos) == ({
            let secs = nanos / (NANOS_PER_SEC as nat);
            let m = secs / 60;
            let s = secs % 60;
            seq![digit_char(m / 10), digit_char(m % 10), ':', digit_char(s / 10), digit_char(s % 10)]
        }),
{
    let secs = nanos / (NANOS_PER_SEC as nat);
    two_digits_under_hundred(secs / 60);
    two_digits_under_hundred(secs % 60);
}

/// A number under a hundred is written with its tens and its units.
pub proof fn two_digits_under_hundred(n: nat)
    requires
        n < 100,
    ensures
        two_digits(n) == seq![digit_char(n / 10), digit_char(n % 10)],
{
    if n >= 10 {
        assert(decimal(n / 10) == seq![digit_char(n / 10)]);
    }
}

} // verus!
