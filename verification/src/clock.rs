//! The clock application's formatting logic: turn a real-time-clock
//! timestamp into the eight characters `HH:MM:SS` it shows. Reading the
//! hardware clock and drawing the text stay with the surrounding
//! application.

use vstd::prelude::*;

use chrono::Timelike;

verus! {

/// Timestamps up to the end of year 9999, the range the clock accepts.
pub const MAX_CLOCK_TIMESTAMP: i64 = 253402300800;

/// The clock application.
#[derive(Debug, Clone, Copy, PartialEq, Eq, Structural)]
pub struct Clock;

/// The digit character for a value 0 through 9, and `?` for anything
/// larger.
pub open spec fn spec_to_char(digit: u32) -> char {
    if digit == 0 {
        '0'
    } else if digit == 1 {
        '1'
    } else if digit == 2 {
        '2'
    } else if digit == 3 {
        '3'
    } else if digit == 4 {
        '4'
    } else if digit == 5 {
        '5'
    } else if digit == 6 {
        '6'
    } else if digit == 7 {
        '7'
    } else if digit == 8 {
        '8'
    } else if digit == 9 {
        '9'
    } else {
        '?'
    }
}

/// The digit character for a value 0 through 9, and `?` for anything
/// larger.
pub fn to_char(digit: u32) -> (c: char)
    ensures
        c == spec_to_char(digit),
{
    match digit {
        0 => '0',
        1 => '1',
        2 => '2',
        3 => '3',
        4 => '4',
        5 => '5',
        6 => '6',
        7 => '7',
        8 => '8',
        9 => '9',
        _ => '?',
    }
}

/// The UTC time of day a timestamp falls in.
pub open spec fn spec_time_of_day(timestamp: i64) -> (u32, u32, u32) {
    (
        (((timestamp % 86400) / 3600) as u32),
        ((((timestamp % 86400) % 3600) / 60) as u32),
        ((timestamp % 60) as u32),
    )
}

/// Relies on `chrono::DateTime::<Utc>::from_timestamp` and the `Timelike`
/// accessors: for a non-negative in-range timestamp the UTC time of day is
/// the day remainder split into hours, minutes and seconds.
#[verifier::external_body]
fn utc_time_of_day(timestamp: i64) -> (r: (u32, u32, u32))
    requires
        0 <= timestamp < MAX_CLOCK_TIMESTAMP,
    ensures
        r == spec_time_of_day(timestamp),
{
    let dt = chrono::DateTime::<chrono::Utc>::from_timestamp(timestamp, 0).unwrap();
    (dt.hour(), dt.minute(), dt.second())
}

/// Relies on `String::push`: appends exactly the given character.
#[verifier::external_body]
fn push_char(s: &mut String, c: char)
    ensures
        final(s)@ == old(s)@.push(c),
{
    s.push(c);
}

/// The text the clock shows for a timestamp: hours, minutes and seconds,
/// each as two digits, separated by colons.
pub open spec fn spec_clock_text(timestamp: i64) -> Seq<char> {
    let t = spec_time_of_day(timestamp);
    seq![
        spec_to_char(t.0 / 10),
        spec_to_char(t.0 % 10),
        ':',
        spec_to_char(t.1 / 10),
        spec_to_char(t.1 % 10),
        ':',
        spec_to_char(t.2 / 10),
        spec_to_char(t.2 % 10),
    ]
}

/// Render a timestamp as the eight characters `HH:MM:SS`.
pub fn clock_text(timestamp: i64) -> (r: String)
    requires
        0 <= timestamp < MAX_CLOCK_TIMESTAMP,
    ensures
        r@ == spec_clock_text(timestamp),
{
    let (h, m, s) = utc_time_of_day(timestamp);
    let mut text = String::new();
    push_char(&mut text, to_char(h / 10));
    push_char(&mut text, to_char(h % 10));
    push_char(&mut text, ':');
    push_char(&mut text, to_char(m / 10));
    push_char(&mut text, to_char(m % 10));
    push_char(&mut text, ':');
    push_char(&mut text, to_char(s / 10));
    push_char(&mut text, to_char(s % 10));
    proof {
        assert(text@ =~= spec_clock_text(timestamp));
    }
    text
}

impl Clock {
    pub fn new() -> (c: Clock)
        ensures
            c == (Clock),
    {
        Clock
    }
}

impl Default for Clock {
    fn default() -> (c: Clock)
        ensures
            c == (Clock),
    {
        Clock
    }
}

} // verus!
