//! The date of a note as it is shown: the time of the note, moved by the
//! viewer's offset from UTC and written out by `chrono`.

use vstd::prelude::*;

verus! {

/// The text that `chrono` writes for a number of seconds since the epoch
/// under a pattern, if the seconds name a date.
pub uninterp spec fn utc_text(seconds: int, pattern: Seq<char>) -> Option<Seq<char>>;

/// How much of a date is shown.
#[derive(Clone, Copy, Debug, PartialEq, Eq, Structural)]
pub enum DateStyle {
    /// Year, month and day.
    Day,
    /// Year, month, day and the time to the second.
    Second,
}

/// The pattern of a style.
pub open spec fn pattern_of(style: DateStyle) -> Seq<char> {
    match style {
        DateStyle::Day => "%Y-%m-%d"@,
        DateStyle::Second => "%Y-%m-%d %H:%M:%S"@,
    }
}

/// The shown date of a note: empty where the moved time is out of range.
pub open spec fn shown_date(created_at: u64, offset_seconds: i32, style: DateStyle) -> Seq<char> {
    if created_at + offset_seconds > i64::MAX {
        Seq::<char>::empty()
    } else {
        match utc_text(created_at + offset_seconds, pattern_of(style)) {
            Some(text) => text,
            None => Seq::<char>::empty(),
        }
    }
}

/// Trusted: `chrono::DateTime::from_timestamp` followed by `format` and
/// `to_string`.  The two patterns that `requires` admits are valid, so the
/// formatting cannot fail.
#[verifier::external_body]
fn format_utc(seconds: i64, pattern: &str) -> (text: Option<String>)
    requires
        pattern@ == pattern_of(DateStyle::Day) || pattern@ == pattern_of(DateStyle::Second),
    ensures
        match text {
            Some(t) => utc_text(seconds as int, pattern@) == Some(t@),
            None => utc_text(seconds as int, pattern@) is None,
        },
{
    chrono::DateTime::from_timestamp(seconds, 0).map(|date| date.format(pattern).to_string())
}

impl DateStyle {
    /// The pattern handed to the formatter.
    pub fn pattern(&self) -> (pattern: &'static str)
        ensures
            pattern@ == pattern_of(*self),
    {
        match self {
            DateStyle::Day => "%Y-%m-%d",
            DateStyle::Second => "%Y-%m-%d %H:%M:%S",
        }
    }
}

/// The time of a note moved by an offset from UTC, unless it leaves the
/// range of the clock.
pub fn local_seconds(created_at: u64, offset_seconds: i32) -> (moved: Option<i64>)
    ensures
        match moved {
            Some(seconds) => seconds == created_at + offset_seconds,
            None => created_at + offset_seconds > i64::MAX,
        },
{
    let sum: i128 = created_at as i128 + offset_seconds as i128;
    if sum > i64::MAX as i128 {
        None
    } else {
        Some(sum as i64)
    }
}

/// The date of a note as shown to a viewer whose clock is `offset_seconds`
/// ahead of UTC.
pub fn note_date(created_at: u64, offset_seconds: i32, style: DateStyle) -> (text: String)
    ensures
        text@ == shown_date(created_at, offset_seconds, style),
{
    match local_seconds(created_at, offset_seconds) {
        Some(seconds) => match format_utc(seconds, style.pattern()) {
            Some(text) => text,
            None => String::new(),
        },
        None => String::new(),
    }
}

} // verus!
