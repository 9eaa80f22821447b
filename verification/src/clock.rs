//! A time of day and its rendering as `HH:MM:SS` followed by a period marker.

use crate::period::{period_of, Period};
use vstd::prelude::*;
use vstd::string::StringExecFns;

verus! {

/// The character of a decimal digit.
pub open spec fn digit_char(digit: int) -> char
    recommends
        0 <= digit <= 9,
{
    if digit == 0 {
        '0'
    } else if digit == 1 {
        '1'
    } else if digit == 2 {
        '2'
    } else if digit == 3 {
        '3'
    } else if digit == 4 {
        '4'
    } else if digit == 5 {
        '5'
    } else if digit == 6 {
        '6'
    } else if digit == 7 {
        '7'
    } else if digit == 8 {
        '8'
    } else {
        '9'
    }
}

/// A number below one hundred as two decimal digits, zero-padded.
pub open spec fn two_digits(number: int) -> Seq<char>
    recommends
        0 <= number < 100,
{
    seq![digit_char(number / 10), digit_char(number % 10)]
}

/// A time of day in 24-hour `HH:MM:SS` form.
pub open spec fn clock_text(hour: int, minute: int, second: int) -> Seq<char>
    recommends
        0 <= hour < 24,
        0 <= minute < 60,
        0 <= second < 60,
{
    two_digits(hour) + seq![':'] + two_digits(minute) + seq![':'] + two_digits(second)
}

/// The line shown for a time of day: the clock text, a blank, and the marker
/// of the period that the hour belongs to.
pub open spec fn clock_line(hour: int, minute: int, second: int) -> Seq<char>
    recommends
        0 <= hour < 24,
        0 <= minute < 60,
        0 <= second < 60,
{
    clock_text(hour, minute, second) + seq![' '] + period_of(hour).marker_text()
}

/// Whether three numbers are the hour, minute and second of a time of day.
pub open spec fn is_time_of_day(hour: int, minute: int, second: int) -> bool {
    0 <= hour < 24 && 0 <= minute < 60 && 0 <= second < 60
}

/// A time of day to the second. Every value holds an hour below 24 and a
/// minute and a second below 60.
#[derive(Clone, Copy, Debug, PartialEq, Eq)]
pub struct ClockTime {
    hour: u32,
    minute: u32,
    second: u32,
}

fn digit_str(digit: u32) -> (text: &'static str)
    requires
        digit <= 9,
    ensures
        text@ == seq![digit_char(digit as int)],
{
    proof {
        reveal_strlit("0");
        reveal_strlit("1");
        reveal_strlit("2");
        reveal_strlit("3");
        reveal_strlit("4");
        reveal_strlit("5");
        reveal_strlit("6");
        reveal_strlit("7");
        reveal_strlit("8");
        reveal_strlit("9");
    }
    if digit == 0 {
        "0"
    } else if digit == 1 {
        "1"
    } else if digit == 2 {
        "2"
    } else if digit == 3 {
        "3"
    } else if digit == 4 {
        "4"
    } else if digit == 5 {
        "5"
    } else if digit == 6 {
        "6"
    } else if digit == 7 {
        "7"
    } else if digit == 8 {
        "8"
    } else {
        "9"
    }
}

fn push_two_digits(line: &mut String, number: u32)
    requires
        number < 100,
    ensures
        final(line)@ == old(line)@ + two_digits(number as int),
{
    line.append(digit_str(number / 10));
    line.append(digit_str(number % 10));
}

impl ClockTime {
    #[verifier::type_invariant]
    spec fn in_range(self) -> bool {
        is_time_of_day(self.hour as int, self.minute as int, self.second as int)
    }

    /// The hour, from 0 to 23.
    pub closed spec fn hour_of(self) -> int {
        self.hour as int
    }

    /// The minute, from 0 to 59.
    pub closed spec fn minute_of(self) -> int {
        self.minute as int
    }

    /// The second, from 0 to 59.
    pub closed spec fn second_of(self) -> int {
        self.second as int
    }

    /// This time as `HH:MM:SS`.
    pub open spec fn text(self) -> Seq<char> {
        clock_text(self.hour_of(), self.minute_of(), self.second_of())
    }

    /// This time as the line that is shown for it.
    pub open spec fn line(self) -> Seq<char> {
        clock_line(self.hour_of(), self.minute_of(), self.second_of())
    }

    /// Makes a time of day, or nothing if a part is out of its range.
    pub fn new(hour: u32, minute: u32, second: u32) -> (made: Option<ClockTime>)
        ensures
            made is Some <==> is_time_of_day(hour as int, minute as int, second as int),
            made matches Some(clock) ==> clock.hour_of() == hour && clock.minute_of() == minute
                && clock.second_of() == second,
    {
        if hour < 24 && minute < 60 && second < 60 {
            Some(ClockTime { hour, minute, second })
        } else {
            None
        }
    }

    /// The hour of this time.
    pub fn hour(&self) -> (hour: u32)
        ensures
            hour == self.hour_of(),
            hour < 24,
    {
        proof {
            use_type_invariant(self);
        }
        self.hour
    }

    /// The minute of this time.
    pub fn minute(&self) -> (minute: u32)
        ensures
            minute == self.minute_of(),
            minute < 60,
    {
        proof {
            use_type_invariant(self);
        }
        self.minute
    }

    /// The second of this time.
    pub fn second(&self) -> (second: u32)
        ensures
            second == self.second_of(),
            second < 60,
    {
        proof {
            use_type_invariant(self);
        }
        self.second
    }

    /// The period of the day that this time falls into.
    pub fn period(&self) -> (period: Period)
        ensures
            period == period_of(self.hour_of()),
    {
        Period::of_hour(self.hour)
    }

    /// Renders this time as `HH:MM:SS`: 24-hour, each part zero-padded to two
    /// digits.
    pub fn render(&self) -> (text: String)
        ensures
            text@ == self.text(),
    {
        proof {
            use_type_invariant(self);
        }
        let mut text = String::new();
        push_two_digits(&mut text, self.hour);
        text.append(":");
        push_two_digits(&mut text, self.minute);
        text.append(":");
        push_two_digits(&mut text, self.second);
        proof {
            reveal_strlit(":");
            assert(":"@ == seq![':']);
        }
        text
    }

    /// Renders this time followed by a blank and the marker of its period.
    pub fn format(&self) -> (line: String)
        ensures
            line@ == self.line(),
    {
        let mut line = self.render();
        line.append(" ");
        line.append(self.period().marker());
        proof {
            reveal_strlit(" ");
            assert(" "@ == seq![' ']);
        }
        line
    }
}

/// The clock text is always eight characters long, with a colon in the third
/// and in the sixth place and digits elsewhere.
pub proof fn lemma_clock_text_shape(hour: int, minute: int, second: int)
    requires
        is_time_of_day(hour, minute, second),
    ensures
        clock_text(hour, minute, second).len() == 8,
        clock_text(hour, minute, second)[2] == ':',
        clock_text(hour, minute, second)[5] == ':',
        forall|i: int|
            0 <= i < 8 && i != 2 && i != 5 ==> '0' <= #[trigger] clock_text(hour, minute, second)[i]
                <= '9',
{
}

} // verus!
