//! The texts the timer window shows: the countdown, the name of the phase,
//! the session counter and the notification raised when a phase ends.

use crate::clock::NANOS_PER_SECOND;
use crate::timer::{PomodoroTimer, SessionType};
use vstd::prelude::*;
use vstd::string::StringExecFns;

verus! {

/// The ten decimal digits, in order.
pub open spec fn digits() -> Seq<char> {
    seq!['0', '1', '2', '3', '4', '5', '6', '7', '8', '9']
}

/// `number` in decimal, without leading zeros.
pub open spec fn decimal(number: nat) -> Seq<char>
    decreases number,
{
    if number < 10 {
        seq![digits()[number as int]]
    } else {
        decimal(number / 10).push(digits()[(number % 10) as int])
    }
}

/// `number` in decimal, with a leading zero if it has one digit.
pub open spec fn two_digits(number: nat) -> Seq<char> {
    if number < 10 {
        seq!['0'] + decimal(number)
    } else {
        decimal(number)
    }
}

/// A span of whole seconds as minutes and seconds, `MM:SS`; the minutes take
/// more digits when they need them.
pub open spec fn clock_text(whole_seconds: nat) -> Seq<char> {
    two_digits(whole_seconds / 60) + seq![':'] + two_digits(whole_seconds % 60)
}

/// The countdown shown for `nanos` nanoseconds left: whole seconds, the rest
/// dropped.
pub open spec fn countdown_text(nanos: nat) -> Seq<char> {
    clock_text(nanos / 1_000_000_000)
}

/// The session counter shown for session `count`.
pub open spec fn session_counter_text(count: nat) -> Seq<char> {
    "Session "@ + decimal(count) + " of 4"@
}

fn digit_text(digit: u8) -> (text: &'static str)
    requires
        digit < 10,
    ensures
        text@ == seq![digits()[digit as int]],
{
    proof {
        reveal_strlit("0");
        reveal_strlit("1");
        reveal_strlit("2");
        reveal_strlit("3");
        reveal_strlit("4");
        reveal_strlit("5");
        reveal_strlit("6");
        reveal_strlit("7");
        reveal_strlit("8");
        reveal_strlit("9");
    }
    let text = match digit {
        0 => "0",
        1 => "1",
        2 => "2",
        3 => "3",
        4 => "4",
        5 => "5",
        6 => "6",
        7 => "7",
        8 => "8",
        _ => "9",
    };
    assert(text@ =~= seq![digits()[digit as int]]);
    text
}

/// Appends `number` in decimal to `text`.
pub fn push_decimal(text: &mut String, number: u128)
    ensures
        final(text)@ == old(text)@ + decimal(number as nat),
    decreases number,
{
    if number >= 10 {
        push_decimal(text, number / 10);
    }
    let digit = (number % 10) as u8;
    text.append(digit_text(digit));
    assert(text@ =~= old(text)@ + decimal(number as nat));
}

/// Appends `number` in decimal to `text`, in at least two digits.
pub fn push_two_digits(text: &mut String, number: u128)
    ensures
        final(text)@ == old(text)@ + two_digits(number as nat),
{
    if number < 10 {
        proof {
            reveal_strlit("0");
        }
        text.append("0");
        assert(text@ =~= old(text)@ + seq!['0']);
    }
    push_decimal(text, number);
    assert(text@ =~= old(text)@ + two_digits(number as nat));
}

/// Writes a span of whole seconds as minutes and seconds.
pub fn format_clock(whole_seconds: u128) -> (text: String)
    ensures
        text@ == clock_text(whole_seconds as nat),
{
    let mut text = String::new();
    push_two_digits(&mut text, whole_seconds / 60);
    proof {
        reveal_strlit(":");
    }
    text.append(":");
    assert(text@ =~= two_digits((whole_seconds / 60) as nat) + seq![':']);
    push_two_digits(&mut text, whole_seconds % 60);
    assert(text@ =~= clock_text(whole_seconds as nat));
    text
}

/// Writes the session counter for session `count`.
pub fn format_session_counter(count: u32) -> (text: String)
    ensures
        text@ == session_counter_text(count as nat),
{
    let mut text = String::from_str("Session ");
    push_decimal(&mut text, count as u128);
    text.append(" of 4");
    assert(text@ =~= session_counter_text(count as nat));
    text
}

/// The name shown for a phase.
pub fn session_name(session: SessionType) -> (name: &'static str)
    ensures
        session == SessionType::Work ==> name@ == "Work Session"@,
        session == SessionType::ShortBreak ==> name@ == "Short Break"@,
        session == SessionType::LongBreak ==> name@ == "Long Break"@,
{
    match session {
        SessionType::Work => "Work Session",
        SessionType::ShortBreak => "Short Break",
        SessionType::LongBreak => "Long Break",
    }
}

/// The title of every notification.
pub fn notification_title() -> (title: &'static str)
    ensures
        title@ == "Pomodoro Timer"@,
{
    "Pomodoro Timer"
}

/// The body of the notification raised when a phase has ended, chosen by the
/// phase the timer is in when the signal is taken.
pub fn notification_message(session: SessionType) -> (message: &'static str)
    ensures
        session == SessionType::Work ==> message@ == "Work session completed! Time for a break."@,
        session == SessionType::ShortBreak ==> message@ == "Break finished! Ready to work?"@,
        session == SessionType::LongBreak ==> message@
            == "Long break finished! Let's get back to it!"@,
{
    match session {
        SessionType::Work => "Work session completed! Time for a break.",
        SessionType::ShortBreak => "Break finished! Ready to work?",
        SessionType::LongBreak => "Long break finished! Let's get back to it!",
    }
}

impl PomodoroTimer {
    /// The countdown as text, as of the last tick.
    pub fn time_string(&self) -> (text: String)
        ensures
            text@ == countdown_text(self@.remaining),
    {
        format_clock(self.remaining() / NANOS_PER_SECOND)
    }

    /// Counts down to the present moment, then gives the countdown as text.
    pub fn get_time_string(&mut self) -> (text: String)
        ensures
            exists|now: nat| final(self)@ == #[trigger] old(self)@.after_tick(now),
            final(self)@.wf(),
            text@ == countdown_text(final(self)@.remaining),
    {
        self.update();
        self.time_string()
    }
}

} // verus!
