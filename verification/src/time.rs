//! Timestamp handling: the record end-time format and the wall clock.

use vstd::prelude::*;

verus! {

/// The Unix epoch that a timestamp string in the fixed
/// `%Y-%m-%d %H:%M:%S` format denotes: `Some(epoch)` when the string
/// parses, `None` when it does not. The value is computed by `chrono`
/// and depends on the characters alone.
pub uninterp spec fn datetime_epoch(s: Seq<char>) -> Option<u64>;

/// Relies on `chrono::NaiveDateTime::parse_from_str` with the fixed format
/// `%Y-%m-%d %H:%M:%S`, and on `NaiveDateTime::and_utc` /
/// `DateTime::timestamp` to turn the parsed value into a Unix epoch: the
/// result is a function of the characters of `human_time` alone.
#[verifier::external_body]
pub(crate) fn human_to_unix_epoch(human_time: &str) -> (r: Option<u64>)
    ensures
        r == datetime_epoch(human_time@),
{
    match chrono::NaiveDateTime::parse_from_str(human_time, "%Y-%m-%d %H:%M:%S") {
        Ok(dt) => Some(dt.and_utc().timestamp() as u64),
        Err(_) => None,
    }
}

/// Relies on `chrono::Utc::now` for the current wall-clock time as a Unix
/// epoch. Nothing is promised of the value: callers must hold for every
/// outcome.
#[verifier::external_body]
pub(crate) fn now_epoch() -> u64 {
    chrono::Utc::now().timestamp() as u64
}

} // verus!
