//! The timer in words: the clock as minutes and seconds, the status line,
//! and the markup of the big labels.

use vstd::prelude::*;
use crate::config::State;
use crate::span::Span;
use crate::span::NANOS_PER_MILLI;
use crate::timer::AppModel;

verus! {

/// The character of one decimal digit.
pub open spec fn digit(d: nat) -> char {
    if d == 0 {
        '0'
    } else if d == 1 {
        '1'
    } else if d == 2 {
        '2'
    } else if d == 3 {
        '3'
    } else if d == 4 {
        '4'
    } else if d == 5 {
        '5'
    } else if d == 6 {
        '6'
    } else if d == 7 {
        '7'
    } else if d == 8 {
        '8'
    } else {
        '9'
    }
}

/// A number in decimal, without leading zeros.
pub open spec fn decimal(n: nat) -> Seq<char>
    decreases n,
{
    if n < 10 {
        seq![digit(n)]
    } else {
        decimal(n / 10).push(digit(n % 10))
    }
}

/// A number in decimal, with a leading zero where it has one digit only.
pub open spec fn two_digits(n: nat) -> Seq<char> {
    if n < 10 {
        seq!['0'] + decimal(n)
    } else {
        decimal(n)
    }
}

/// The seconds that the clock shows for a length of time: its whole
/// milliseconds, rounded up to whole seconds.
pub open spec fn shown_secs(nanos: nat) -> nat {
    let millis = nanos / (NANOS_PER_MILLI as nat);
    if millis % 1000 != 0 {
        millis / 1000 + 1
    } else {
        millis / 1000
    }
}

/// What the clock shows: minutes, a colon, and two digits of seconds.
pub open spec fn min_format_text(nanos: nat) -> Seq<char> {
    decimal(shown_secs(nanos) / 60) + seq![':'] + two_digits(shown_secs(nanos) % 60)
}

/// The clock in large type.
pub open spec fn min_as_markup_text(s: Seq<char>) -> Seq<char> {
    "<span font=\"Sans Bold 64\">"@ + s + "</span>"@
}

/// The status line: focus periods done, and how far the cycle has come.
pub open spec fn status_bar_text(pomodoro_count: nat, rest_counter: nat, rest_count: nat) -> Seq<
    char,
> {
    "Completed: "@ + decimal(pomodoro_count) + "  -  Cycle ("@ + decimal(rest_counter) + "/"@
        + decimal(rest_count) + ")"@
}

impl State {
    /// The name of the phase.
    pub open spec fn name_text(self) -> Seq<char> {
        match self {
            State::Pomodoro => "Pomodoro"@,
            State::Break => "Break"@,
            State::Rest => "Rest"@,
        }
    }

    /// The colour that the phase is shown in.
    pub open spec fn color_text(self) -> Seq<char> {
        match self {
            State::Pomodoro => "#FFA3CC"@,
            State::Break => "#FAFFA3"@,
            State::Rest => "#A3FFD6"@,
        }
    }

    /// The name of the phase in large type and in its colour.
    pub open spec fn as_markup_text(self) -> Seq<char> {
        "<span font=\"Sans Bold 28\" color=\""@ + self.color_text() + "\">"@ + self.name_text()
            + "</span>"@
    }

    /// The name of the phase.
    pub fn name(&self) -> (r: &'static str)
        ensures
            r@ == self.name_text(),
    {
        match self {
            State::Pomodoro => "Pomodoro",
            State::Break => "Break",
            State::Rest => "Rest",
        }
    }

    /// The colour that the phase is shown in.
    pub fn color(&self) -> (r: &'static str)
        ensures
            r@ == self.color_text(),
    {
        match self {
            State::Pomodoro => "#FFA3CC",
            State::Break => "#FAFFA3",
            State::Rest => "#A3FFD6",
        }
    }

    /// The name of the phase in large type and in its colour.
    pub fn as_markup(&self) -> (r: String)
        ensures
            r@ == self.as_markup_text(),
    {
        let mut out = "<span font=\"Sans Bold 28\" color=\"".to_owned();
        out.append(self.color());
        out.append("\">");
        out.append(self.name());
        out.append("</span>");
        out
    }
}

/// One decimal digit as text.
fn digit_str(d: u8) -> (r: &'static str)
    requires
        d < 10,
    ensures
        r@ == seq![digit(d as nat)],
{
    proof {
        reveal_strlit("0");
        reveal_strlit("1");
        reveal_strlit("2");
        reveal_strlit("3");
        reveal_strlit("4");
        reveal_strlit("5");
        reveal_strlit("6");
        reveal_strlit("7");
        reveal_strlit("8");
        reveal_strlit("9");
    }
    let r = match d {
        0 => "0",
        1 => "1",
        2 => "2",
        3 => "3",
        4 => "4",
        5 => "5",
        6 => "6",
        7 => "7",
        8 => "8",
        _ => "9",
    };
    assert(r@ =~= seq![digit(d as nat)]);
    r
}

/// Writes a number in decimal at the end of `out`.
fn push_decimal(out: &mut String, n: u128)
    ensures
        final(out)@ == old(out)@ + decimal(n as nat),
    decreases n,
{
    if n >= 10 {
        push_decimal(out, n / 10);
    }
    let last: u128 = n % 10;
    out.append(digit_str(last as u8));
    assert(final(out)@ =~= old(out)@ + decimal(n as nat));
}

/// Writes a number at the end of `out`, in two digits where it is below 10.
fn push_two_digits(out: &mut String, n: u128)
    ensures
        final(out)@ == old(out)@ + two_digits(n as nat),
{
    if n < 10 {
        proof {
            reveal_strlit("0");
        }
        out.append("0");
    }
    push_decimal(out, n);
    assert(final(out)@ =~= old(out)@ + two_digits(n as nat));
}

/// What the clock shows for a length of time, as `minutes:seconds`. A
/// started second counts as a whole one, once it holds a whole millisecond.
pub fn min_format(dur: &Span) -> (r: String)
    ensures
        r@ == min_format_text(dur@),
{
    let millis = dur.as_millis();
    let secs: u128 = if millis % 1000 != 0 {
        millis / 1000 + 1
    } else {
        millis / 1000
    };
    let mut out = String::new();
    push_decimal(&mut out, secs / 60);
    proof {
        reveal_strlit(":");
    }
    out.append(":");
    push_two_digits(&mut out, secs % 60);
    assert(out@ =~= min_format_text(dur@));
    out
}

/// The clock in large type.
pub fn min_as_markup(s: String) -> (r: String)
    ensures
        r@ == min_as_markup_text(s@),
{
    let mut out = "<span font=\"Sans Bold 64\">".to_owned();
    out.append(s.as_str());
    out.append("</span>");
    out
}

impl AppModel {
    /// The name of the current phase in large type and in its colour.
    pub fn state_as_markup(&self) -> (r: String)
        ensures
            r@ == self@.state.as_markup_text(),
    {
        self.state().as_markup()
    }

    /// The status line: focus periods done, and how far the cycle has come.
    pub fn status_bar(&self) -> (r: String)
        ensures
            r@ == status_bar_text(
                self@.pomodoro_count,
                self@.rest_counter,
                self@.config.rest_count,
            ),
    {
        let mut out = "Completed: ".to_owned();
        push_decimal(&mut out, self.pomodoro_count() as u128);
        out.append("  -  Cycle (");
        push_decimal(&mut out, self.rest_counter() as u128);
        out.append("/");
        push_decimal(&mut out, self.config().rest_count as u128);
        out.append(")");
        out
    }
}

} // verus!
