//! Calendar dates and moments, held as plain numbers.

use crate::outside::{format_moment, formatted_moment, parse_date, parsed_date};
use crate::text::option_text;
use vstd::prelude::*;

verus! {

/// How day, month and year are written on a page: `6 July 2023`.
pub const POST_DATE_FORMAT: &'static str = "[day padding:none] [month repr:long] [year]";

/// How a moment is written for machines: `2023-07-06T00:00:00Z`.
pub const RFC3339_DATE_FORMAT: &'static str = "[year]-[month]-[day]T[hour]:[minute]:[second]Z";

/// How a moment is written in a feed: `Thu, 06 Jul 2023 00:00:00 GMT`.
pub const RFC2822_DATE_FORMAT: &'static str =
    "[weekday repr:short], [day] [month repr:short] [year] [hour]:[minute]:[second] GMT";

/// How the date stands at the head of a page's path: `20230706`.
pub const PATH_DATE_FORMAT: &'static str = "[year][month][day]";

/// How the date stands in a `x-date` marker: `2023-07-06`.
pub const MARKER_DATE_FORMAT: &'static str = "[year]-[month]-[day]";

/// Whether `year` is a leap year of the Gregorian calendar.
pub open spec fn is_leap_year(year: int) -> bool {
    year % 4 == 0 && (year % 100 != 0 || year % 400 == 0)
}

/// The number of days of a month; 0 where `month` is none.
pub open spec fn days_in_month(year: int, month: int) -> int {
    if month == 2 {
        if is_leap_year(year) {
            29
        } else {
            28
        }
    } else if month == 4 || month == 6 || month == 9 || month == 11 {
        30
    } else if 1 <= month <= 12 {
        31
    } else {
        0
    }
}

/// What a date is, as mathematics.
pub struct DateView {
    pub year: int,
    pub month: int,
    pub day: int,
}

impl DateView {
    /// The day exists in the Gregorian calendar.
    pub open spec fn is_valid(self) -> bool {
        1 <= self.month <= 12 && 1 <= self.day <= days_in_month(self.year, self.month)
    }

    /// This day comes after `other`.
    pub open spec fn is_later_than(self, other: DateView) -> bool {
        self.year > other.year || (self.year == other.year && (self.month > other.month || (
        self.month == other.month && self.day > other.day)))
    }
}

/// A day of the Gregorian calendar.
#[derive(Clone, Copy, Debug, PartialEq, Eq)]
pub struct Date {
    year: i32,
    month: u8,
    day: u8,
}

impl View for Date {
    type V = DateView;

    closed spec fn view(&self) -> DateView {
        DateView { year: self.year as int, month: self.month as int, day: self.day as int }
    }
}

/// The date that three numbers stand for, if they are one.
pub open spec fn date_of_parts(parts: Option<(i32, u8, u8)>) -> Option<DateView> {
    match parts {
        Some((year, month, day)) => {
            let date = DateView { year: year as int, month: month as int, day: day as int };
            if date.is_valid() {
                Some(date)
            } else {
                None
            }
        },
        None => None,
    }
}

/// The view of an optional date.
pub open spec fn option_date(date: Option<Date>) -> Option<DateView> {
    match date {
        Some(d) => Some(d@),
        None => None,
    }
}

/// The text that the formatter gives for midnight of `date` under `format`.
pub open spec fn formatted_date(format: Seq<char>, date: DateView) -> Option<Seq<char>> {
    formatted_moment(format, date.year as i32, date.month as u8, date.day as u8, 0, 0, 0)
}

impl Date {
    #[verifier::type_invariant]
    spec fn inv(self) -> bool {
        self@.is_valid()
    }

    /// Whether `year` is a leap year.
    fn leap(year: i32) -> (leap: bool)
        ensures
            leap == is_leap_year(year as int),
    {
        year % 4 == 0 && (year % 100 != 0 || year % 400 == 0)
    }

    /// The date with these numbers, if the calendar has such a day.
    pub fn new(year: i32, month: u8, day: u8) -> (date: Option<Date>)
        ensures
            option_date(date) == date_of_parts(Some((year, month, day))),
    {
        let days: u8 = if month == 2 {
            if Date::leap(year) {
                29
            } else {
                28
            }
        } else if month == 4 || month == 6 || month == 9 || month == 11 {
            30
        } else if 1 <= month && month <= 12 {
            31
        } else {
            0
        };
        if 1 <= month && month <= 12 && 1 <= day && day <= days {
            Some(Date { year, month, day })
        } else {
            None
        }
    }

    /// The date that the numbers read by a parser stand for, if they are one.
    pub fn from_parts(parts: Option<(i32, u8, u8)>) -> (date: Option<Date>)
        ensures
            option_date(date) == date_of_parts(parts),
    {
        match parts {
            Some((year, month, day)) => Date::new(year, month, day),
            None => None,
        }
    }

    /// The date that `input` spells under the format description `format`.
    pub fn parse(format: &str, input: &str) -> (date: Option<Date>)
        ensures
            option_date(date) == date_of_parts(parsed_date(format@, input@)),
    {
        Date::from_parts(parse_date(format, input))
    }

    /// The year.
    pub fn year(&self) -> (year: i32)
        ensures
            year == self@.year,
            self@.is_valid(),
    {
        proof {
            use_type_invariant(self);
        }
        self.year
    }

    /// The month, from 1 to 12.
    pub fn month(&self) -> (month: u8)
        ensures
            month == self@.month,
            self@.is_valid(),
    {
        proof {
            use_type_invariant(self);
        }
        self.month
    }

    /// The day of the month, from 1.
    pub fn day(&self) -> (day: u8)
        ensures
            day == self@.day,
            self@.is_valid(),
    {
        proof {
            use_type_invariant(self);
        }
        self.day
    }

    /// Whether this day comes after `other`.
    pub fn is_later_than(&self, other: &Date) -> (later: bool)
        ensures
            later == self@.is_later_than(other@),
    {
        self.year > other.year || (self.year == other.year && (self.month > other.month || (
        self.month == other.month && self.day > other.day)))
    }

    /// Midnight of this date written under the format description `format`; `None` where the
    /// formatter refuses.
    pub fn format(&self, format: &str) -> (text: Option<String>)
        ensures
            option_text(text) == formatted_date(format@, self@),
    {
        format_moment(format, self.year, self.month, self.day, 0, 0, 0)
    }
}

/// What a moment is, as mathematics.
pub struct MomentView {
    pub date: DateView,
    pub hour: int,
    pub minute: int,
    pub second: int,
}

impl MomentView {
    /// The date exists and the time of day is one.
    pub open spec fn is_valid(self) -> bool {
        self.date.is_valid() && 0 <= self.hour < 24 && 0 <= self.minute < 60 && 0 <= self.second
            < 60
    }
}

/// A date with a time of day, to the second.
#[derive(Clone, Copy, Debug, PartialEq, Eq)]
pub struct Moment {
    date: Date,
    hour: u8,
    minute: u8,
    second: u8,
}

impl View for Moment {
    type V = MomentView;

    closed spec fn view(&self) -> MomentView {
        MomentView {
            date: self.date@,
            hour: self.hour as int,
            minute: self.minute as int,
            second: self.second as int,
        }
    }
}

/// The text that the formatter gives for `moment` under `format`.
pub open spec fn formatted(format: Seq<char>, moment: MomentView) -> Option<Seq<char>> {
    formatted_moment(
        format,
        moment.date.year as i32,
        moment.date.month as u8,
        moment.date.day as u8,
        moment.hour as u8,
        moment.minute as u8,
        moment.second as u8,
    )
}

impl Moment {
    #[verifier::type_invariant]
    spec fn inv(self) -> bool {
        self@.is_valid()
    }

    /// The moment at `hour:minute:second` of `date`, if that is a time of day.
    pub fn new(date: Date, hour: u8, minute: u8, second: u8) -> (moment: Option<Moment>)
        ensures
            match moment {
                Some(m) => m@ == (MomentView {
                    date: date@,
                    hour: hour as int,
                    minute: minute as int,
                    second: second as int,
                }) && m@.is_valid(),
                None => hour >= 24 || minute >= 60 || second >= 60,
            },
    {
        proof {
            use_type_invariant(&date);
        }
        if hour < 24 && minute < 60 && second < 60 {
            Some(Moment { date, hour, minute, second })
        } else {
            None
        }
    }

    /// The date.
    pub fn date(&self) -> (date: Date)
        ensures
            date@ == self@.date,
    {
        self.date
    }

    /// The moment written under the format description `format`; `None` where the formatter
    /// refuses.
    pub fn format(&self, format: &str) -> (text: Option<String>)
        ensures
            option_text(text) == formatted(format@, self@),
    {
        format_moment(
            format,
            self.date.year(),
            self.date.month(),
            self.date.day(),
            self.hour,
            self.minute,
            self.second,
        )
    }
}

} // verus!
