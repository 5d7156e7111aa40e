//! The time of day at which a message was sent or received.

use crate::text::digit_char;
use chrono::Timelike;
use vstd::prelude::*;

verus! {

/// The two decimal digits of `n`, with a leading zero below ten.
pub open spec fn two_digits(n: u32) -> Seq<char>
    recommends
        n < 100,
{
    seq![digit_char(n as int / 10), digit_char(n as int % 10)]
}

/// A time of day as text: hours, minutes and seconds, two digits each, with
/// colons between them.
pub open spec fn clock_text(hour: u32, minute: u32, second: u32) -> Seq<char> {
    two_digits(hour) + seq![':'] + two_digits(minute) + seq![':'] + two_digits(second)
}

/// What a [`Timestamp`] holds.
pub struct TimestampView {
    pub hour: u32,
    pub minute: u32,
    pub second: u32,
}

/// A time of day on a 24-hour clock, to the second.
#[derive(Clone, Copy, Debug, PartialEq, Eq)]
pub struct Timestamp {
    hour: u32,
    minute: u32,
    second: u32,
}

impl View for Timestamp {
    type V = TimestampView;

    closed spec fn view(&self) -> TimestampView {
        TimestampView { hour: self.hour, minute: self.minute, second: self.second }
    }
}

/// `chrono::Local::now`, read with `Timelike::hour`, `minute` and `second`:
/// the local time of day at the moment of the call. The hour is below 24,
/// the minute and the second below 60. Nothing more is known of a clock.
/// As chrono does, this panics on a machine whose clock stands before 1970.
#[verifier::external_body]
fn local_time() -> (time: (u32, u32, u32))
    ensures
        time.0 < 24,
        time.1 < 60,
        time.2 < 60,
{
    let now = chrono::Local::now();
    (now.hour(), now.minute(), now.second())
}

/// `chrono::NaiveTime::format` with the pattern `%H:%M:%S`, on the time that
/// `NaiveTime::from_hms_opt` makes of the three numbers: each number in two
/// digits, padded with a zero, and a colon between them.
#[verifier::external_body]
fn format_time(hour: u32, minute: u32, second: u32) -> (text: String)
    requires
        hour < 24,
        minute < 60,
        second < 60,
    ensures
        text@ == clock_text(hour, minute, second),
{
    chrono::NaiveTime::from_hms_opt(hour, minute, second).unwrap().format("%H:%M:%S").to_string()
}

impl Timestamp {
    #[verifier::type_invariant]
    spec fn in_range(self) -> bool {
        self.hour < 24 && self.minute < 60 && self.second < 60
    }

    /// The time of day with these numbers, if there is one.
    pub fn new(hour: u32, minute: u32, second: u32) -> (time: Option<Timestamp>)
        ensures
            time is Some <==> hour < 24 && minute < 60 && second < 60,
            time matches Some(t) ==> t@ == (TimestampView { hour, minute, second }),
    {
        if hour < 24 && minute < 60 && second < 60 {
            Some(Timestamp { hour, minute, second })
        } else {
            None
        }
    }

    /// The local time of day at the moment of the call.
    pub fn now() -> (time: Timestamp)
        ensures
            time@.hour < 24,
            time@.minute < 60,
            time@.second < 60,
    {
        let (hour, minute, second) = local_time();
        Timestamp { hour, minute, second }
    }

    /// The hour, from 0 to 23.
    pub fn hour(&self) -> (hour: u32)
        ensures
            hour == self@.hour,
            hour < 24,
    {
        proof {
            use_type_invariant(self);
        }
        self.hour
    }

    /// The minute, from 0 to 59.
    pub fn minute(&self) -> (minute: u32)
        ensures
            minute == self@.minute,
            minute < 60,
    {
        proof {
            use_type_invariant(self);
        }
        self.minute
    }

    /// The second, from 0 to 59.
    pub fn second(&self) -> (second: u32)
        ensures
            second == self@.second,
            second < 60,
    {
        proof {
            use_type_invariant(self);
        }
        self.second
    }

    /// The time as text, such as `09:05:00`.
    pub fn to_string(&self) -> (text: String)
        ensures
            text@ == clock_text(self@.hour, self@.minute, self@.second),
    {
        proof {
            use_type_invariant(self);
        }
        format_time(self.hour, self.minute, self.second)
    }
}

} // verus!
