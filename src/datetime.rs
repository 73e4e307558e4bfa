use vstd::prelude::*;

use chrono::{Datelike, Timelike};

use crate::text::{padded, padded_string, push_char};

verus! {

/// A calendar date and wall-clock time, already in the local time zone.
pub struct LocalDateTime {
    pub year: i32,
    pub month: u32,
    pub day: u32,
    pub hour: u32,
    pub minute: u32,
    pub second: u32,
}

impl LocalDateTime {
    pub open spec fn wf(&self) -> bool {
        &&& 1 <= self.month <= 12
        &&& 1 <= self.day <= 31
        &&& self.hour < 24
        &&& self.minute < 60
        &&& self.second < 60
    }
}

/// Bound on the seconds since the epoch that chrono always represents.
pub const TIMESTAMP_BOUND: i64 = 8_000_000_000_000;

/// An instant that chrono always turns into a date and time.
pub open spec fn representable(secs: i64, nanos: u32) -> bool {
    nanos < 1_000_000_000 && -TIMESTAMP_BOUND <= secs <= TIMESTAMP_BOUND
}

/// The year as four zero-padded digits; outside `0..=9999` it carries a sign.
pub open spec fn year_text(y: int) -> Seq<char> {
    if 0 <= y <= 9999 {
        padded(y as nat, 4)
    } else if y > 9999 {
        seq!['+'] + padded(y as nat, 4)
    } else {
        seq!['-'] + padded((-y) as nat, 4)
    }
}

/// `YYYY-MM-DD HH:MM:SS`.
pub open spec fn datetime_text(t: LocalDateTime) -> Seq<char> {
    year_text(t.year as int) + seq!['-'] + padded(t.month as nat, 2) + seq!['-'] + padded(
        t.day as nat,
        2,
    ) + seq![' '] + padded(t.hour as nat, 2) + seq![':'] + padded(t.minute as nat, 2) + seq![':']
        + padded(t.second as nat, 2)
}

/// Relies on chrono's `DateTime::from_timestamp` and `with_timezone(&Local)`:
/// the local date and time of an instant given in seconds and nanoseconds
/// since the Unix epoch, or `None` where chrono's range ends. The result
/// depends on the machine's time zone, so only its field ranges are stated.
/// `from_timestamp` accepts every sub-second part below one second and every
/// instant within about 253,000 years of the epoch (chrono's years reach
/// 262,142 either way), and `with_timezone` returns no `None`.
#[verifier::external_body]
pub(crate) fn local_from_timestamp(secs: i64, nanos: u32) -> (r: Option<LocalDateTime>)
    ensures
        r is Some ==> r->0.wf(),
        representable(secs, nanos) ==> r is Some,
{
    let t = chrono::DateTime::from_timestamp(secs, nanos)?.with_timezone(&chrono::Local);
    Some(
        LocalDateTime {
            year: t.year(),
            month: t.month(),
            day: t.day(),
            hour: t.hour(),
            minute: t.minute(),
            second: t.second(),
        },
    )
}

fn year_string(y: i32) -> (r: String)
    ensures
        r@ == year_text(y as int),
{
    if 0 <= y && y <= 9999 {
        padded_string(y as u64, 4)
    } else {
        let mut s = String::new();
        let mag: u64 = if y > 9999 {
            push_char(&mut s, '+');
            y as u64
        } else {
            push_char(&mut s, '-');
            (-(y as i64)) as u64
        };
        let d = padded_string(mag, 4);
        s.append(d.as_str());
        s
    }
}

/// Formats a local time as `YYYY-MM-DD HH:MM:SS`.
pub fn format_datetime(t: &LocalDateTime) -> (r: String)
    ensures
        r@ == datetime_text(*t),
{
    let mut s = year_string(t.year);
    push_char(&mut s, '-');
    s.append(padded_string(t.month as u64, 2).as_str());
    push_char(&mut s, '-');
    s.append(padded_string(t.day as u64, 2).as_str());
    push_char(&mut s, ' ');
    s.append(padded_string(t.hour as u64, 2).as_str());
    push_char(&mut s, ':');
    s.append(padded_string(t.minute as u64, 2).as_str());
    push_char(&mut s, ':');
    s.append(padded_string(t.second as u64, 2).as_str());
    assert(s@ =~= datetime_text(*t));
    s
}

} // verus!
