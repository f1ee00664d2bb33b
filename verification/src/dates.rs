//! Calendar dates and timestamps as the activity logs write them.
use vstd::prelude::*;
use vstd::string::StringSliceAdditionalSpecFns;

verus! {

/// Why a date was turned away.
#[derive(Debug, Clone, Copy, PartialEq, Eq, Structural)]
pub enum DateError {
    /// Not ten bytes with `-` at the fifth and the eighth.
    Format,
    /// The first four bytes are not all digits.
    Year,
    /// Bytes six and seven are not both digits.
    Month,
    /// Bytes nine and ten are not both digits.
    Day,
}

/// Whether `byte` is an ASCII digit.
pub open spec fn is_digit(byte: u8) -> bool {
    0x30 <= byte <= 0x39
}

/// The value of an ASCII digit.
pub open spec fn digit(byte: u8) -> nat {
    (byte - 0x30) as nat
}

/// The number that two ASCII digits spell, if `bytes` is that.
pub open spec fn two_digits(bytes: Seq<u8>) -> Option<u32> {
    if bytes.len() == 2 && is_digit(bytes[0]) && is_digit(bytes[1]) {
        Some((digit(bytes[0]) * 10 + digit(bytes[1])) as u32)
    } else {
        None
    }
}

/// The number that four ASCII digits spell, if `bytes` is that.
pub open spec fn four_digits(bytes: Seq<u8>) -> Option<u32> {
    if bytes.len() == 4 && is_digit(bytes[0]) && is_digit(bytes[1]) && is_digit(bytes[2])
        && is_digit(bytes[3]) {
        Some(
            (digit(bytes[0]) * 1000 + digit(bytes[1]) * 100 + digit(bytes[2]) * 10 + digit(
                bytes[3],
            )) as u32,
        )
    } else {
        None
    }
}

/// Whether `bytes` has the shape `YYYY-MM-DD`, whatever stands for the
/// letters.
pub open spec fn date_shaped(bytes: Seq<u8>) -> bool {
    bytes.len() == 10 && bytes[4] == 0x2d && bytes[7] == 0x2d
}

/// Year, month and day that `bytes` spells as `YYYY-MM-DD`. The numbers are
/// taken as they stand: month 13 and day 0 pass.
pub open spec fn date_of(bytes: Seq<u8>) -> Result<(i32, u32, u32), DateError> {
    if !date_shaped(bytes) {
        Err(DateError::Format)
    } else if four_digits(bytes.subrange(0, 4)) is None {
        Err(DateError::Year)
    } else if two_digits(bytes.subrange(5, 7)) is None {
        Err(DateError::Month)
    } else if two_digits(bytes.subrange(8, 10)) is None {
        Err(DateError::Day)
    } else {
        Ok(
            (
                four_digits(bytes.subrange(0, 4))->Some_0 as i32,
                two_digits(bytes.subrange(5, 7))->Some_0,
                two_digits(bytes.subrange(8, 10))->Some_0,
            ),
        )
    }
}

/// Whether `year` is a leap year of the Gregorian calendar.
pub open spec fn is_leap_year(year: int) -> bool {
    (year % 4 == 0 && year % 100 != 0) || year % 400 == 0
}

/// Number of days of `month` in `year`. A month that is none counts 31.
pub open spec fn days_in_month(year: int, month: nat) -> nat {
    if month == 4 || month == 6 || month == 9 || month == 11 {
        30
    } else if month == 2 {
        if is_leap_year(year) {
            29
        } else {
            28
        }
    } else {
        31
    }
}

/// The day after the given one.
pub open spec fn next_day(year: int, month: nat, day: nat) -> (int, nat, nat) {
    if day < days_in_month(year, month) {
        (year, month, day + 1)
    } else if month < 12 {
        (year, month + 1, 1)
    } else {
        (year + 1, 1, 1)
    }
}

/// Whether `bytes` begins like `YYYY-MM-DDThh:mm`, whatever stands for the
/// letters.
pub open spec fn timestamp_shaped(bytes: Seq<u8>) -> bool {
    bytes.len() >= 16 && bytes[4] == 0x2d && bytes[7] == 0x2d && bytes[10] == 0x54 && bytes[13]
        == 0x3a
}

/// The fields that a timestamp spells, if it spells them all: year, month,
/// day, hour and minute, in universal time.
pub open spec fn timestamp_fields(bytes: Seq<u8>) -> Option<(u32, u32, u32, u32, u32)> {
    if !timestamp_shaped(bytes) {
        None
    } else if four_digits(bytes.subrange(0, 4)) is None || two_digits(bytes.subrange(5, 7))
        is None || two_digits(bytes.subrange(8, 10)) is None || two_digits(
        bytes.subrange(11, 13),
    ) is None || two_digits(bytes.subrange(14, 16)) is None {
        None
    } else {
        Some(
            (
                four_digits(bytes.subrange(0, 4))->Some_0,
                two_digits(bytes.subrange(5, 7))->Some_0,
                two_digits(bytes.subrange(8, 10))->Some_0,
                two_digits(bytes.subrange(11, 13))->Some_0,
                two_digits(bytes.subrange(14, 16))->Some_0,
            ),
        )
    }
}

/// A timestamp in Korean standard time, nine hours ahead of universal
/// time: year, month, day, hour and minute. Past 15:00 universal time the
/// date is the next day's.
pub open spec fn local_timestamp(bytes: Seq<u8>) -> Option<(i32, u32, u32, u32, u32)> {
    match timestamp_fields(bytes) {
        None => None,
        Some((year, month, day, hour, minute)) => if hour + 9 >= 24 {
            let (y, m, d) = next_day(year as int, month as nat, day as nat);
            Some((y as i32, m as u32, d as u32, (hour + 9 - 24) as u32, minute))
        } else {
            Some((year as i32, month, day, (hour + 9) as u32, minute))
        },
    }
}

impl DateError {
    /// The message shown to the user.
    pub fn message(&self) -> (text: String)
        ensures
            text@ == match *self {
                DateError::Format => "Date must be in YYYY-MM-DD format"@,
                DateError::Year => "Invalid year"@,
                DateError::Month => "Invalid month"@,
                DateError::Day => "Invalid day"@,
            },
    {
        match self {
            DateError::Format => "Date must be in YYYY-MM-DD format".to_string(),
            DateError::Year => "Invalid year".to_string(),
            DateError::Month => "Invalid month".to_string(),
            DateError::Day => "Invalid day".to_string(),
        }
    }
}

fn is_ascii_digit(byte: u8) -> (yes: bool)
    ensures
        yes == is_digit(byte),
{
    0x30 <= byte && byte <= 0x39
}

/// The number that two ASCII digits spell.
pub fn parse_two_digits(bytes: &[u8]) -> (number: Option<u32>)
    ensures
        number == two_digits(bytes@),
{
    if bytes.len() != 2 || !is_ascii_digit(bytes[0]) || !is_ascii_digit(bytes[1]) {
        return None;
    }
    let tens = (bytes[0] - 0x30) as u32;
    let ones = (bytes[1] - 0x30) as u32;
    Some(tens * 10 + ones)
}

/// The number that four ASCII digits spell.
pub fn parse_four_digits(bytes: &[u8]) -> (number: Option<u32>)
    ensures
        number == four_digits(bytes@),
{
    if bytes.len() != 4 || !is_ascii_digit(bytes[0]) || !is_ascii_digit(bytes[1])
        || !is_ascii_digit(bytes[2]) || !is_ascii_digit(bytes[3]) {
        return None;
    }
    let thousands = (bytes[0] - 0x30) as u32;
    let hundreds = (bytes[1] - 0x30) as u32;
    let tens = (bytes[2] - 0x30) as u32;
    let ones = (bytes[3] - 0x30) as u32;
    Some(thousands * 1000 + hundreds * 100 + tens * 10 + ones)
}

/// Year, month and day of a date written as `YYYY-MM-DD`.
pub fn parse_date(date: &str) -> (parsed: Result<(i32, u32, u32), DateError>)
    ensures
        parsed == date_of(date.spec_bytes()),
{
    let bytes = date.as_bytes();
    if bytes.len() != 10 || bytes[4] != 0x2d || bytes[7] != 0x2d {
        return Err(DateError::Format);
    }
    let year = match parse_four_digits(&bytes[0..4]) {
        Some(year) => year as i32,
        None => {
            return Err(DateError::Year);
        },
    };
    let month = match parse_two_digits(&bytes[5..7]) {
        Some(month) => month,
        None => {
            return Err(DateError::Month);
        },
    };
    let day = match parse_two_digits(&bytes[8..10]) {
        Some(day) => day,
        None => {
            return Err(DateError::Day);
        },
    };
    Ok((year, month, day))
}

/// The day after the given one. Years follow the Gregorian leap rule.
pub fn add_one_day(year: i32, month: u32, day: u32) -> (next: (i32, u32, u32))
    requires
        year < i32::MAX,
    ensures
        (next.0 as int, next.1 as nat, next.2 as nat) == next_day(
            year as int,
            month as nat,
            day as nat,
        ),
{
    let days_in_month: u32 = if month == 4 || month == 6 || month == 9 || month == 11 {
        30
    } else if month == 2 {
        if (year % 4 == 0 && year % 100 != 0) || year % 400 == 0 {
            29
        } else {
            28
        }
    } else {
        31
    };
    if day < days_in_month {
        (year, month, day + 1)
    } else if month < 12 {
        (year, month + 1, 1)
    } else {
        (year + 1, 1, 1)
    }
}

/// Parses an ISO 8601 timestamp such as `2026-01-22T05:08:51.202Z`, given in
/// universal time, into year, month, day, hour and minute of Korean
/// standard time. Only the first sixteen bytes are read.
pub fn parse_iso_timestamp(timestamp: &str) -> (parsed: Option<(i32, u32, u32, u32, u32)>)
    ensures
        parsed == local_timestamp(timestamp.spec_bytes()),
{
    let bytes = timestamp.as_bytes();
    if bytes.len() < 16 || bytes[4] != 0x2d || bytes[7] != 0x2d || bytes[10] != 0x54 || bytes[13]
        != 0x3a {
        return None;
    }
    let year = match parse_four_digits(&bytes[0..4]) {
        Some(year) => year as i32,
        None => {
            return None;
        },
    };
    let month = match parse_two_digits(&bytes[5..7]) {
        Some(month) => month,
        None => {
            return None;
        },
    };
    let day = match parse_two_digits(&bytes[8..10]) {
        Some(day) => day,
        None => {
            return None;
        },
    };
    let hour = match parse_two_digits(&bytes[11..13]) {
        Some(hour) => hour,
        None => {
            return None;
        },
    };
    let minute = match parse_two_digits(&bytes[14..16]) {
        Some(minute) => minute,
        None => {
            return None;
        },
    };
    let kst_hour = hour + 9;
    if kst_hour >= 24 {
        let (new_year, new_month, new_day) = add_one_day(year, month, day);
        Some((new_year, new_month, new_day, kst_hour - 24, minute))
    } else {
        Some((year, month, day, kst_hour, minute))
    }
}

/// Whether a timestamp falls on the given day of Korean standard time.
pub fn timestamp_matches_date(timestamp: &str, year: i32, month: u32, day: u32) -> (matches: bool)
    ensures
        matches == match local_timestamp(timestamp.spec_bytes()) {
            Some((y, m, d, _, _)) => y == year && m == month && d == day,
            None => false,
        },
{
    match parse_iso_timestamp(timestamp) {
        Some((y, m, d, _, _)) => y == year && m == month && d == day,
        None => false,
    }
}

/// The day of the month of a timestamp that falls into the given month of
/// Korean standard time.
pub fn timestamp_in_month(timestamp: &str, year: i32, month: u32) -> (day: Option<u32>)
    ensures
        day == match local_timestamp(timestamp.spec_bytes()) {
            Some((y, m, d, _, _)) => if y == year && m == month {
                Some(d)
            } else {
                None
            },
            None => None,
        },
{
    match parse_iso_timestamp(timestamp) {
        Some((y, m, d, _, _)) => if y == year && m == month {
            Some(d)
        } else {
            None
        },
        None => None,
    }
}

} // verus!
