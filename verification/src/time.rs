//! Clock-time extraction from ISO-8601 timestamps, the "HH:MM" formatter and
//! the minutes-from-now delta formatter.

use vstd::prelude::*;

use crate::error::{Error, ErrorType};
use crate::numfmt::{digit_char, spec_dec_digits, u64_to_string};

verus! {

/// A time of day read off a timestamp: the hour and minute fields only.
#[derive(Clone, Copy, Debug, PartialEq, Eq, Structural)]
pub struct ClockTime {
    pub hour: u32,
    pub minute: u32,
}

impl ClockTime {
    /// Both fields fit in two decimal digits, as the ISO-8601 grammar forces.
    pub open spec fn wf(self) -> bool {
        self.hour <= 99 && self.minute <= 99
    }

    /// A proper time of day, as the delta computation needs it.
    pub open spec fn is_time_of_day(self) -> bool {
        self.hour <= 23 && self.minute <= 59
    }
}

/// The clock time that an ISO-8601 date-time string parses to, or `None`
/// where the string is not a valid ISO-8601 date-time. The full grammar
/// cannot be stated in a few lines, so the result only gets a name here.
pub uninterp spec fn iso_clock_of(s: Seq<char>) -> Option<ClockTime>;

/// Relies on `iso8601::datetime`: parses an ISO-8601 date-time string; the
/// result depends on the input alone. Its parser reads the hour as two
/// digits in 0..=24 and the minute as two digits in 0..=59.
#[verifier::external_body]
pub(crate) fn parse_iso_clock(s: &str) -> (r: Option<ClockTime>)
    ensures
        r == iso_clock_of(s@),
        r matches Some(t) ==> t.hour <= 24 && t.minute <= 59,
{
    match iso8601::datetime(s) {
        Ok(dt) => Some(ClockTime { hour: dt.time.hour, minute: dt.time.minute }),
        Err(_) => None,
    }
}

/// Relies on `chrono::Local::now` and `chrono::Timelike::{hour, minute}`:
/// the current local time of day. `hour` returns 0..=23 and `minute`
/// returns 0..=59; nothing else holds of the clock's reading.
#[verifier::external_body]
pub(crate) fn now_clock() -> (t: ClockTime)
    ensures
        t.is_time_of_day(),
{
    let now = chrono::Local::now().time();
    ClockTime { hour: chrono::Timelike::hour(&now), minute: chrono::Timelike::minute(&now) }
}

/// The five characters "HH:MM", each part zero-padded to two digits.
pub open spec fn spec_clock_string(t: ClockTime) -> Seq<char> {
    seq![
        digit_char(t.hour as int / 10),
        digit_char(t.hour as int % 10),
        ':',
        digit_char(t.minute as int / 10),
        digit_char(t.minute as int % 10),
    ]
}

/// Law: the clock string is always exactly five characters, with the colon
/// in the middle.
pub proof fn lemma_clock_string_five_chars(t: ClockTime)
    ensures
        spec_clock_string(t).len() == 5,
        spec_clock_string(t)[2] == ':',
{
}

/// Law: formatting is deterministic: whatever two clock strings a timestamp
/// is formatted to, they are the same five characters.
pub proof fn lemma_format_time_deterministic(iso: Seq<char>, s1: Seq<char>, s2: Seq<char>)
    requires
        iso_clock_of(iso) matches Some(t1) && s1 == spec_clock_string(t1),
        iso_clock_of(iso) matches Some(t2) && s2 == spec_clock_string(t2),
    ensures
        s1 == s2,
        s1.len() == 5,
{
}

/// Renders a clock time as "HH:MM".
pub fn format_clock(t: ClockTime) -> (r: String)
    requires
        t.wf(),
    ensures
        r@ == spec_clock_string(t),
{
    proof {
        reveal_strlit(":");
    }
    let mut s = crate::numfmt::two_digits(t.hour);
    s.append(":");
    s.append(crate::numfmt::two_digits(t.minute).as_str());
    proof {
        assert(s@ =~= spec_clock_string(t));
    }
    s
}

/// Formats an ISO-8601 timestamp as the zero-padded clock string "HH:MM".
/// A string that does not parse yields a `Parse` error.
pub fn format_time(iso_time: &str) -> (r: Result<String, Error>)
    ensures
        match r {
            Ok(s) => iso_clock_of(iso_time@) matches Some(t) && s@ == spec_clock_string(t),
            Err(e) => iso_clock_of(iso_time@) is None && e.e == ErrorType::Parse,
        },
{
    match parse_iso_clock(iso_time) {
        Some(t) => Ok(format_clock(t)),
        None => Err(Error::new(ErrorType::Parse)),
    }
}

/// A time of day as minutes since midnight.
pub open spec fn minutes_of(t: ClockTime) -> int {
    t.hour * 60 + t.minute
}

/// The absolute difference in minutes between two times of day; the date is
/// not part of either input.
pub open spec fn abs_delta_minutes(a: ClockTime, b: ClockTime) -> int {
    if minutes_of(a) >= minutes_of(b) {
        minutes_of(a) - minutes_of(b)
    } else {
        minutes_of(b) - minutes_of(a)
    }
}

/// Law: the delta is symmetric in its two times and never negative, so a
/// departure in the past and one equally far in the future render alike.
pub proof fn lemma_delta_symmetric(a: ClockTime, b: ClockTime)
    ensures
        abs_delta_minutes(a, b) == abs_delta_minutes(b, a),
        abs_delta_minutes(a, b) >= 0,
{
}

/// Law: between two times of day the delta is under a day: at most 1439
/// minutes, so its rendering is an unsigned decimal of at most four digits.
pub proof fn lemma_delta_bounded(a: ClockTime, b: ClockTime)
    requires
        a.is_time_of_day(),
        b.is_time_of_day(),
    ensures
        0 <= abs_delta_minutes(a, b) <= 1439,
{
}

/// Renders the absolute difference in minutes between a departure time and
/// the given current time as a decimal string with no sign and no suffix.
pub fn delta_string(dep: ClockTime, now: ClockTime) -> (r: String)
    requires
        dep.wf(),
        now.wf(),
    ensures
        r@ == spec_dec_digits(abs_delta_minutes(dep, now) as nat),
{
    let md: u32 = dep.hour * 60 + dep.minute;
    let mn: u32 = now.hour * 60 + now.minute;
    let diff: u32 = if md >= mn {
        md - mn
    } else {
        mn - md
    };
    u64_to_string(diff as u64)
}

/// Formats an ISO-8601 timestamp as the absolute difference in minutes
/// between its time of day and the current local time of day, the date
/// portion ignored. A string that does not parse, or one whose time is no
/// time of day, yields a `Parse` error. The comparison is made at whole
/// minute granularity on purpose: the clock reading carries no seconds, so
/// near a minute boundary the count can sit one minute above a
/// seconds-precise difference.
pub fn get_delta_time(iso_time: &str) -> (r: Result<String, Error>)
    ensures
        match r {
            Ok(s) => iso_clock_of(iso_time@) matches Some(t) && t.is_time_of_day()
                && exists|now: ClockTime|
                    now.is_time_of_day() && s@ == spec_dec_digits(
                        abs_delta_minutes(t, now) as nat,
                    ),
            Err(e) => e.e == ErrorType::Parse && match iso_clock_of(iso_time@) {
                Some(t) => !t.is_time_of_day(),
                None => true,
            },
        },
{
    match parse_iso_clock(iso_time) {
        Some(t) => {
            if t.hour <= 23 {
                let now = now_clock();
                let s = delta_string(t, now);
                proof {
                    assert(now.is_time_of_day() && s@ == spec_dec_digits(
                        abs_delta_minutes(t, now) as nat,
                    ));
                }
                Ok(s)
            } else {
                Err(Error::new(ErrorType::Parse))
            }
        },
        None => Err(Error::new(ErrorType::Parse)),
    }
}

} // verus!
