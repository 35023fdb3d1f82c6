//! Reading the clock and writing a point in time as a calendar date.

use crate::application::{Error, ErrorView};
use crate::models::Timestamp;
use chrono::{DateTime, Utc};
use std::fmt::Write;
use vstd::prelude::*;

verus! {

/// What chrono writes for a point in time under a `strftime` pattern: the
/// text, or `None` where the calendar does not reach that point or the
/// pattern is not one.
pub uninterp spec fn formatted_timestamp(
    seconds: i64,
    nanoseconds: u32,
    pattern: Seq<char>,
) -> Option<Seq<char>>;

/// Writes a point in time under a pattern: `DateTime::from_timestamp` makes
/// the date, `format` and `write!` write it.  A point that chrono has no date
/// for, and a pattern that it cannot read, both give `None`.  The text
/// depends on the three arguments alone, so the contract gives it a name and
/// no more.
#[verifier::external_body]
fn format_timestamp(seconds: i64, nanoseconds: u32, pattern: &str) -> (text: Option<String>)
    ensures
        option_text(text) == formatted_timestamp(seconds, nanoseconds, pattern@),
{
    let moment = DateTime::from_timestamp(seconds, nanoseconds)?;
    let mut text = String::new();
    match write!(text, "{}", moment.naive_utc().format(pattern)) {
        Ok(_) => Some(text),
        Err(_) => None,
    }
}

/// Whether `now` is something that reading the clock can give: a time at or
/// after the start of 1970, with less than a second's worth of nanoseconds.
pub open spec fn is_clock_reading(now: Timestamp) -> bool {
    now.seconds >= 0 && now.nanoseconds < 1_000_000_000
}

/// Reads the clock with `Utc::now`, which takes the time that has passed
/// since the start of 1970 from the system clock: whole seconds, and the
/// nanoseconds of the second begun.  Which time that is, the clock says; it is
/// not before 1970.  Like `Utc::now`, this takes the system clock to stand at
/// 1970 or later.
#[verifier::external_body]
pub(crate) fn current_timestamp() -> (now: Timestamp)
    ensures
        is_clock_reading(now),
{
    let now = Utc::now();
    Timestamp { seconds: now.timestamp(), nanoseconds: now.timestamp_subsec_nanos() }
}

/// The view of a text that may be absent.
pub open spec fn option_text(text: Option<String>) -> Option<Seq<char>> {
    match text {
        Some(written) => Some(written@),
        None => None,
    }
}

/// The pattern that a post's creation time is shown in: day, month and year,
/// then the time of day.
pub open spec fn creation_time_pattern() -> Seq<char> {
    "%d. %m. %Y. %H:%M:%S"@
}

/// The creation time of a post as a page shows it; a post whose creation time
/// has no calendar date is in error.
pub open spec fn creation_time_text(created_on: Timestamp) -> Result<Seq<char>, ErrorView> {
    match formatted_timestamp(
        created_on.seconds,
        created_on.nanoseconds,
        creation_time_pattern(),
    ) {
        Some(text) => Ok(text),
        None => Err(ErrorView::PostHasInvalidCreationTime),
    }
}

/// The view of a text or an error.
pub open spec fn text_outcome_view(outcome: Result<String, Error>) -> Result<
    Seq<char>,
    ErrorView,
> {
    match outcome {
        Ok(text) => Ok(text@),
        Err(error) => Err(error@),
    }
}

/// Writes the creation time of a post as a page shows it.
pub fn human_readable_creation_time(created_on: Timestamp) -> (outcome: Result<String, Error>)
    ensures
        text_outcome_view(outcome) == creation_time_text(created_on),
{
    match format_timestamp(created_on.seconds, created_on.nanoseconds, "%d. %m. %Y. %H:%M:%S") {
        Some(text) => Ok(text),
        None => Err(Error::PostHasInvalidCreationTime),
    }
}

} // verus!
