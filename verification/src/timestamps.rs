//! How the time of a chat message is written.

use vstd::prelude::*;

use crate::calendar::{civil_date, day_number, is_date};
use crate::text::{decimal, decimal_text, padded_decimal_text, zero_padded};

verus! {

/// Timestamp format options for chat messages.
#[derive(Debug, Clone, Copy, PartialEq, Eq, Structural)]
pub enum TimestampFormat {
    /// 24-hour format: 14:30:05
    Time24h,
    /// 12-hour format: 2:30:05 PM
    Time12h,
    /// 24-hour with date: 2025-01-15 14:30:05
    DateTime24h,
    /// 12-hour with date: 2025-01-15 2:30:05 PM
    DateTime12h,
    /// Relative time: 5m ago
    Relative,
}

impl Default for TimestampFormat {
    fn default() -> (format: Self)
        ensures
            format == TimestampFormat::Time24h,
    {
        TimestampFormat::Time24h
    }
}

/// A number of two or more digits.
pub open spec fn two_digits(n: int) -> Seq<char> {
    zero_padded(decimal(n as nat), 2)
}

/// Minutes and seconds of a time of day in seconds, each behind a colon.
pub open spec fn minutes_and_seconds(time_of_day: int) -> Seq<char> {
    ":"@ + two_digits(time_of_day % 3600 / 60) + ":"@ + two_digits(time_of_day % 60)
}

/// The time of day as on a clock of 24 hours.
pub open spec fn clock_24h(time_of_day: int) -> Seq<char> {
    two_digits(time_of_day / 3600) + minutes_and_seconds(time_of_day)
}

/// The number that a clock of twelve hours shows at an hour of the day.
pub open spec fn hour_of_twelve(hour: int) -> int {
    if hour % 12 == 0 {
        12
    } else {
        hour % 12
    }
}

/// The time of day as on a clock of twelve hours.
pub open spec fn clock_12h(time_of_day: int) -> Seq<char> {
    let hour = time_of_day / 3600;
    decimal(hour_of_twelve(hour) as nat) + minutes_and_seconds(time_of_day) + " "@ + if hour < 12 {
        "AM"@
    } else {
        "PM"@
    }
}

/// A year with its sign and with at least four characters.
pub open spec fn year_text(year: int) -> Seq<char> {
    if year < 0 {
        "-"@ + zero_padded(decimal((-year) as nat), 3)
    } else {
        zero_padded(decimal(year as nat), 4)
    }
}

/// A date as year, month and day.
pub open spec fn date_text(year: int, month: int, day: int) -> Seq<char> {
    year_text(year) + "-"@ + two_digits(month) + "-"@ + two_digits(day)
}

/// Whether `text` is the date of a day counted from 1970-01-01. Of the year it
/// shows the low 32 bits, as a number with a sign.
pub open spec fn is_date_text(text: Seq<char>, days: int) -> bool {
    exists|year: i64, month: int, day: int|
        #![trigger date_text(narrow_year(year), month, day)]
        {
            &&& is_date(year as int, month, day)
            &&& day_number(year as int, month, day) == days
            &&& text == date_text(narrow_year(year), month, day)
        }
}

/// The low 32 bits of a year, as a number with a sign.
pub open spec fn narrow_year(year: i64) -> int {
    #[verifier::truncate]
    (year as i32) as int
}

/// How long ago something was, in the largest unit that fits.
pub open spec fn age_text(elapsed: int) -> Seq<char> {
    if elapsed < 60 {
        "just now"@
    } else if elapsed < 3600 {
        decimal((elapsed / 60) as nat) + "m ago"@
    } else if elapsed < 86400 {
        decimal((elapsed / 3600) as nat) + "h ago"@
    } else {
        decimal((elapsed / 86400) as nat) + "d ago"@
    }
}

/// Convert days since the epoch to (year, month, day).
pub fn days_to_ymd(days: u64) -> (date: (i32, u32, u32))
    requires
        days <= 0x7FFF_FFFF_FFFF_FFFF - 719468,
    ensures
        exists|year: i64|
            {
                &&& date.0 == #[trigger] narrow_year(year)
                &&& is_date(year as int, date.1 as int, date.2 as int)
                &&& day_number(year as int, date.1 as int, date.2 as int) == days
            },
{
    let (year, month, day): (i64, u32, u32) = civil_date(days);
    let short: i32 = #[verifier::truncate]
    (year as i32);
    assert(short == narrow_year(year));
    (short, month, day)
}

fn push_minutes_and_seconds(text: &mut String, time_of_day: u64)
    requires
        time_of_day < 86400,
    ensures
        final(text)@ == old(text)@ + minutes_and_seconds(time_of_day as int),
{
    text.push_str(":");
    text.push_str(padded_decimal_text(time_of_day % 3600 / 60, 2).as_str());
    text.push_str(":");
    text.push_str(padded_decimal_text(time_of_day % 60, 2).as_str());
    assert(text@ =~= old(text)@ + minutes_and_seconds(time_of_day as int));
}

fn clock_24h_text(time_of_day: u64) -> (text: String)
    requires
        time_of_day < 86400,
    ensures
        text@ == clock_24h(time_of_day as int),
{
    let mut text = padded_decimal_text(time_of_day / 3600, 2);
    push_minutes_and_seconds(&mut text, time_of_day);
    text
}

fn clock_12h_text(time_of_day: u64) -> (text: String)
    requires
        time_of_day < 86400,
    ensures
        text@ == clock_12h(time_of_day as int),
{
    let hours: u64 = time_of_day / 3600;
    let (shown, half): (u64, &str) = if hours == 0 {
        (12, "AM")
    } else if hours < 12 {
        (hours, "AM")
    } else if hours == 12 {
        (12, "PM")
    } else {
        (hours - 12, "PM")
    };
    let mut text = decimal_text(shown);
    push_minutes_and_seconds(&mut text, time_of_day);
    text.push_str(" ");
    text.push_str(half);
    text
}

fn year_to_text(year: i32) -> (text: String)
    ensures
        text@ == year_text(year as int),
{
    if year < 0 {
        let size: u64 = (-(year as i64)) as u64;
        let mut text = "-".to_owned();
        text.push_str(padded_decimal_text(size, 3).as_str());
        text
    } else {
        padded_decimal_text(year as u64, 4)
    }
}

fn date_to_text(days: u64) -> (text: String)
    requires
        days <= 0x7FFF_FFFF_FFFF_FFFF - 719468,
    ensures
        is_date_text(text@, days as int),
{
    let (year, month, day): (i32, u32, u32) = days_to_ymd(days);
    let mut text = year_to_text(year);
    text.push_str("-");
    text.push_str(padded_decimal_text(month as u64, 2).as_str());
    text.push_str("-");
    text.push_str(padded_decimal_text(day as u64, 2).as_str());
    assert(text@ == date_text(year as int, month as int, day as int));
    text
}

fn age_to_text(elapsed: u64) -> (text: String)
    ensures
        text@ == age_text(elapsed as int),
{
    if elapsed < 60 {
        "just now".to_owned()
    } else {
        let (count, unit): (u64, &str) = if elapsed < 3600 {
            (elapsed / 60, "m ago")
        } else if elapsed < 86400 {
            (elapsed / 3600, "h ago")
        } else {
            (elapsed / 86400, "d ago")
        };
        let mut text = decimal_text(count);
        text.push_str(unit);
        text
    }
}

/// Whether `text` is a time in the given format. The time is given in seconds since the
/// epoch, and in the seconds that have gone by since.
pub open spec fn is_formatted(
    format: TimestampFormat,
    secs: int,
    elapsed: int,
    text: Seq<char>,
) -> bool {
    match format {
        TimestampFormat::Time24h => text == clock_24h(secs % 86400),
        TimestampFormat::Time12h => text == clock_12h(secs % 86400),
        TimestampFormat::DateTime24h => exists|date: Seq<char>|
            #![trigger is_date_text(date, secs / 86400)]
            is_date_text(date, secs / 86400) && text == date + " "@ + clock_24h(secs % 86400),
        TimestampFormat::DateTime12h => exists|date: Seq<char>|
            #![trigger is_date_text(date, secs / 86400)]
            is_date_text(date, secs / 86400) && text == date + " "@ + clock_12h(secs % 86400),
        TimestampFormat::Relative => text == age_text(elapsed),
    }
}

impl TimestampFormat {
    /// Every format, in the order in which they are offered.
    pub fn all() -> (formats: Vec<TimestampFormat>)
        ensures
            formats@ == seq![
                TimestampFormat::Time24h,
                TimestampFormat::Time12h,
                TimestampFormat::DateTime24h,
                TimestampFormat::DateTime12h,
                TimestampFormat::Relative,
            ],
    {
        vec![
            TimestampFormat::Time24h,
            TimestampFormat::Time12h,
            TimestampFormat::DateTime24h,
            TimestampFormat::DateTime12h,
            TimestampFormat::Relative,
        ]
    }

    /// The name under which a format is offered.
    pub open spec fn name(self) -> Seq<char> {
        match self {
            TimestampFormat::Time24h => "24-hour (14:30:05)"@,
            TimestampFormat::Time12h => "12-hour (2:30:05 PM)"@,
            TimestampFormat::DateTime24h => "Date + 24-hour"@,
            TimestampFormat::DateTime12h => "Date + 12-hour"@,
            TimestampFormat::Relative => "Relative (5m ago)"@,
        }
    }

    /// The name under which a format is offered.
    pub fn label(&self) -> (name: &'static str)
        ensures
            name@ == self.name(),
    {
        match self {
            TimestampFormat::Time24h => "24-hour (14:30:05)",
            TimestampFormat::Time12h => "12-hour (2:30:05 PM)",
            TimestampFormat::DateTime24h => "Date + 24-hour",
            TimestampFormat::DateTime12h => "Date + 12-hour",
            TimestampFormat::Relative => "Relative (5m ago)",
        }
    }

    /// A time written in this format. The time is given in seconds since the epoch,
    /// zero where it lies before it, and in the seconds that have gone by since.
    pub fn format(&self, secs: u64, elapsed: u64) -> (text: String)
        ensures
            is_formatted(*self, secs as int, elapsed as int, text@),
    {
        let time_of_day: u64 = secs % 86400;
        match self {
            TimestampFormat::Time24h => clock_24h_text(time_of_day),
            TimestampFormat::Time12h => clock_12h_text(time_of_day),
            TimestampFormat::DateTime24h => {
                let mut text = date_to_text(secs / 86400);
                let ghost date = text@;
                text.push_str(" ");
                text.push_str(clock_24h_text(time_of_day).as_str());
                assert(is_date_text(date, secs as int / 86400) && text@ == date + " "@ + clock_24h(
                    secs as int % 86400,
                ));
                text
            },
            TimestampFormat::DateTime12h => {
                let mut text = date_to_text(secs / 86400);
                let ghost date = text@;
                text.push_str(" ");
                text.push_str(clock_12h_text(time_of_day).as_str());
                assert(is_date_text(date, secs as int / 86400) && text@ == date + " "@ + clock_12h(
                    secs as int % 86400,
                ));
                text
            },
            TimestampFormat::Relative => age_to_text(elapsed),
        }
    }
}

} // verus!
