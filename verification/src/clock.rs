//! The clock of the service, and how a stored time is shown.

use vstd::prelude::*;

verus! {

/// The text that `chrono` displays for the UTC time that `bson` reads from
/// `millis` milliseconds since the epoch.
pub uninterp spec fn utc_text(millis: int) -> Seq<char>;

/// Calls `chrono::Utc::now` and takes its whole seconds since the epoch.
///
/// Trusted: the reading is not negative, since `chrono` panics where the clock
/// of the machine stands before 1970. Nothing else is claimed of it.
#[verifier::external_body]
pub(crate) fn unix_now() -> (now: i64)
    ensures
        0 <= now,
{
    chrono::Utc::now().timestamp()
}

/// Calls `chrono::Utc::now` and takes its milliseconds since the epoch.
///
/// Trusted: the reading is not negative, since `chrono` panics where the clock
/// of the machine stands before 1970. Nothing else is claimed of it.
#[verifier::external_body]
pub(crate) fn unix_millis_now() -> (now: i64)
    ensures
        0 <= now,
{
    chrono::Utc::now().timestamp_millis()
}

/// Reads `millis` as a time with `bson::DateTime::from_millis` and
/// `to_chrono`, which clamps what `chrono` cannot hold to its first or last
/// moment, and displays it.
///
/// Trusted: the result is the one named by [`utc_text`].
#[verifier::external_body]
pub(crate) fn display_utc(millis: i64) -> (text: String)
    ensures
        text@ == utc_text(millis as int),
{
    bson::DateTime::from_millis(millis).to_chrono().to_string()
}

} // verus!
