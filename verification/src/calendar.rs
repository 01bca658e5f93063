//! The system clock and the civil calendar, both as `chrono` provides them.

use crate::types::Timestamp;
use std::fmt::Write;
use vstd::prelude::*;

verus! {

/// Reads the current time with `chrono::Utc::now` and hands it out as
/// seconds and nanoseconds since the epoch, taken from the result with
/// `DateTime::timestamp` and `DateTime::timestamp_subsec_nanos`.
///
/// Nothing is proved of this function. Its contract claims only that the
/// instant does not lie within a leap second: `Utc::now` builds its result
/// from the time elapsed since the epoch, whose sub-second part is always
/// less than one second. `Utc::now` panics if the system clock is set to a
/// time before the epoch.
#[verifier::external_body]
pub(crate) fn current_time() -> (now: Timestamp)
    ensures
        now.is_plain(),
{
    let now = chrono::Utc::now();
    Timestamp { secs: now.timestamp(), nanos: now.timestamp_subsec_nanos() }
}

/// What `chrono` writes for the instant `secs` seconds and `nanos`
/// nanoseconds after the epoch, taken as a date and time in UTC, under the
/// `strftime`-style `pattern`; `None` if its calendar does not reach the
/// instant or the pattern is not one it accepts.
pub uninterp spec fn calendar_text(secs: int, nanos: int, pattern: Seq<char>) -> Option<Seq<char>>;

/// Writes `instant` as a date and time in UTC: builds the date with
/// `chrono::DateTime::from_timestamp` and writes what `DateTime::format`
/// makes of it under `pattern`.
///
/// Nothing is proved of this function. Its contract claims that the text
/// depends on the instant and the pattern alone, and gives that text the
/// name [`calendar_text`]. `from_timestamp` returns `None` for instants
/// outside the years that `chrono` covers, and writing fails for a pattern
/// that `chrono` rejects; either way the result is `None`.
#[verifier::external_body]
pub(crate) fn show_instant(instant: Timestamp, pattern: &str) -> (text: Option<String>)
    ensures
        match text {
            Some(shown) => calendar_text(instant.secs as int, instant.nanos as int, pattern@)
                == Some(shown@),
            None => calendar_text(instant.secs as int, instant.nanos as int, pattern@) is None,
        },
{
    let moment = chrono::DateTime::from_timestamp(instant.secs, instant.nanos)?;
    let mut shown = String::new();
    write!(shown, "{}", moment.format(pattern)).ok()?;
    Some(shown)
}

} // verus!
