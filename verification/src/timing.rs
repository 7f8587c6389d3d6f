//! The calendar, had from `chrono`, and the times that are written by it.

use vstd::prelude::*;
use vstd::string::StringExecFns;
use chrono::DateTime;
use chrono::FixedOffset;
use crate::decimal::append_i64;
use crate::decimal::int_text;
use crate::decimal::opt_text;
use crate::errors::AppError;

verus! {

/// How a moment is written.
#[derive(Clone, Copy, Debug, PartialEq, Eq, Structural)]
pub enum TimePattern {
    /// Hour and minute.
    Clock,
    /// Year, month and day.
    Date,
    /// Year, month and day, then hour and minute.
    DateAndClock,
}

impl TimePattern {
    /// The pattern in the notation of `strftime`.
    pub open spec fn notation(self) -> Seq<char> {
        match self {
            TimePattern::Clock => "%H:%M"@,
            TimePattern::Date => "%Y-%m-%d"@,
            TimePattern::DateAndClock => "%Y-%m-%d %H:%M"@,
        }
    }

    /// The pattern in the notation of `strftime`.
    pub fn as_str(self) -> (s: &'static str)
        ensures
            s@ == self.notation(),
    {
        match self {
            TimePattern::Clock => "%H:%M",
            TimePattern::Date => "%Y-%m-%d",
            TimePattern::DateAndClock => "%Y-%m-%d %H:%M",
        }
    }
}

/// Whether a place's clock can stand `seconds` ahead of UTC: less than a
/// day, either way.
pub open spec fn offset_in_range(seconds: int) -> bool {
    -86_400 < seconds < 86_400
}

/// The seconds that a provider's offset stands for. It is sent as an
/// unsigned number of 32 bits; the upper half of them are the offsets west
/// of Greenwich.
pub open spec fn offset_seconds(raw: u32) -> int {
    if raw <= 0x7fff_ffff {
        raw as int
    } else {
        raw as int - 0x1_0000_0000int
    }
}

/// The offset that a provider sent, if a clock can have it.
pub open spec fn offset_of(raw: u32) -> Option<i32> {
    if offset_in_range(offset_seconds(raw)) {
        Some(offset_seconds(raw) as i32)
    } else {
        None
    }
}

/// The offset that a provider sent, if a clock can have it.
pub fn utc_offset(raw: u32) -> (r: Option<i32>)
    ensures
        r == offset_of(raw),
{
    if raw < 86_400 {
        Some(raw as i32)
    } else if raw > 0xffff_ffff - 86_399 {
        let below: u32 = 0xffff_ffff - raw;
        Some(-(below as i32) - 1)
    } else {
        None
    }
}

/// The moment `timestamp` seconds after the start of 1970 in UTC, as a
/// clock `offset` seconds ahead of UTC shows it, written after `pattern`;
/// nothing where the calendar of `chrono` does not reach the moment.
pub uninterp spec fn local_time_text(timestamp: int, offset: int, pattern: Seq<char>) -> Option<
    Seq<char>,
>;

/// Whether `pattern` is one of the three that times are written after.
pub open spec fn is_known_pattern(pattern: Seq<char>) -> bool {
    pattern == TimePattern::Clock.notation() || pattern == TimePattern::Date.notation() || pattern
        == TimePattern::DateAndClock.notation()
}

/// `chrono::DateTime::format` on the moment that
/// `chrono::DateTime::from_timestamp` makes of `timestamp`, seen from the
/// offset that `chrono::FixedOffset::east_opt` makes of `offset`. What is
/// written depends on the three arguments alone; it is named, not
/// described. `east_opt` takes every offset that is admitted here, so
/// nothing comes back only where `from_timestamp` has no moment. Patterns
/// that `format` may fail to write are not admitted.
#[verifier::external_body]
fn format_local_time(timestamp: i64, offset: i32, pattern: &str) -> (r: Option<String>)
    requires
        offset_in_range(offset as int),
        is_known_pattern(pattern@),
    ensures
        opt_text(r) == local_time_text(timestamp as int, offset as int, pattern@),
{
    let zone = FixedOffset::east_opt(offset)?;
    let moment = DateTime::from_timestamp(timestamp, 0)?;
    Some(moment.with_timezone(&zone).format(pattern).to_string())
}

/// What is told when no moment was sent.
pub open spec fn missing_timestamp_text() -> Seq<char> {
    "Failed to get UTC timestamp"@
}

/// What is told when the offset is none that a clock can have.
pub open spec fn missing_offset_text() -> Seq<char> {
    "Failed to parse provided UTC offset"@
}

/// What is told when the calendar does not reach the moment.
pub open spec fn unreachable_timestamp_text(timestamp: int) -> Seq<char> {
    "Failed to parse provided timestamp: "@ + int_text(timestamp) + " to DateTime."@
}

/// A moment as text, or why there is none: `Err` holds the detail of the
/// failure.
pub open spec fn written_or_detail(timestamp: int, written: Option<Seq<char>>) -> Result<
    Seq<char>,
    Seq<char>,
> {
    match written {
        Some(text) => Ok(text),
        None => Err(unreachable_timestamp_text(timestamp)),
    }
}

/// The text of a moment, or why there is none. A moment that was not sent
/// is told first, then an offset that is missing or that no clock has, then
/// a moment that the calendar does not reach.
pub open spec fn time_text(dt: Option<i64>, offset: Option<i32>, pattern: TimePattern) -> Result<
    Seq<char>,
    Seq<char>,
> {
    match dt {
        None => Err(missing_timestamp_text()),
        Some(timestamp) => match offset {
            Some(seconds) if offset_in_range(seconds as int) => written_or_detail(
                timestamp as int,
                local_time_text(timestamp as int, seconds as int, pattern.notation()),
            ),
            _ => Err(missing_offset_text()),
        },
    }
}

/// Whether `r` is the outcome `expected`: the same text, or a failure to
/// tell the time with the same detail.
pub open spec fn is_time_outcome(r: Result<String, AppError>, expected: Result<Seq<char>, Seq<char>>) -> bool {
    match expected {
        Ok(text) => r matches Ok(s) && s@ == text,
        Err(detail) => r matches Err(AppError::TimeParse(d)) && d@ == detail,
    }
}

/// Takes what the calendar wrote for `timestamp`: the text, or the failure
/// that names the moment.
pub fn written_time(timestamp: i64, written: Option<String>) -> (r: Result<String, AppError>)
    ensures
        is_time_outcome(r, written_or_detail(timestamp as int, opt_text(written))),
{
    match written {
        Some(text) => Ok(text),
        None => {
            let mut detail = String::from_str("Failed to parse provided timestamp: ");
            append_i64(&mut detail, timestamp);
            detail.append(" to DateTime.");
            Err(AppError::TimeParse(detail))
        },
    }
}

/// Writes the moment `dt` as a clock `offset` seconds ahead of UTC shows it.
pub fn datetime_to_str(dt: Option<i64>, offset: Option<i32>, pattern: TimePattern) -> (r: Result<
    String,
    AppError,
>)
    ensures
        is_time_outcome(r, time_text(dt, offset, pattern)),
{
    let timestamp = match dt {
        Some(t) => t,
        None => {
            return Err(AppError::TimeParse(String::from_str("Failed to get UTC timestamp")));
        },
    };
    match offset {
        Some(seconds) if -86_400 < seconds && seconds < 86_400 => written_time(
            timestamp,
            format_local_time(timestamp, seconds, pattern.as_str()),
        ),
        _ => Err(AppError::TimeParse(String::from_str("Failed to parse provided UTC offset"))),
    }
}

} // verus!
