//! The wall clock, and timestamps as text.

use crate::types::opt_view;
use vstd::prelude::*;

verus! {

/// `std::time::SystemTime::now`, as the whole seconds and the nanoseconds
/// of the second that have passed since the Unix epoch; zero where the
/// clock stands before the epoch. Nothing is claimed of the value: two
/// readings may differ in either direction.
#[verifier::external_body]
fn system_time() -> (now: (u64, u32)) {
    let since_epoch = std::time::SystemTime::now().duration_since(std::time::UNIX_EPOCH).unwrap_or(
        std::time::Duration::ZERO,
    );
    (since_epoch.as_secs(), since_epoch.subsec_nanos())
}

/// The RFC 3339 text of the moment that lies `seconds` seconds and `nanos`
/// nanoseconds after the Unix epoch, where the calendar reaches that far.
pub uninterp spec fn rfc3339_text(seconds: i64, nanos: u32) -> Option<Seq<char>>;

/// `chrono::DateTime::from_timestamp`, written by `to_rfc3339`: the moment
/// as an RFC 3339 timestamp in UTC, or nothing where the moment is out of
/// the calendar's range. The text is a function of the two numbers alone.
#[verifier::external_body]
fn rfc3339_of(seconds: i64, nanos: u32) -> (stamp: Option<String>)
    ensures
        opt_view(stamp) == rfc3339_text(seconds, nanos),
{
    chrono::DateTime::from_timestamp(seconds, nanos).map(|moment| moment.to_rfc3339())
}

/// The timestamp of the moment that lies `seconds` seconds and `nanos`
/// nanoseconds after the Unix epoch: its RFC 3339 text, or that of the
/// epoch itself where the calendar does not reach the moment.
pub open spec fn stamp_text(seconds: u64, nanos: u32) -> Seq<char> {
    if seconds <= i64::MAX && rfc3339_text(seconds as i64, nanos) is Some {
        rfc3339_text(seconds as i64, nanos)->0
    } else {
        "1970-01-01T00:00:00+00:00"@
    }
}

/// The time of the call, in whole seconds since the Unix epoch. Whatever
/// depends on the time takes it as an argument, so that it holds for
/// every reading of the clock.
pub fn current_timestamp() -> (seconds: u64) {
    system_time().0
}

/// The timestamp of a moment given in seconds and nanoseconds since the
/// Unix epoch.
pub fn rfc3339_at(seconds: u64, nanos: u32) -> (stamp: String)
    ensures
        stamp@ == stamp_text(seconds, nanos),
{
    if seconds <= 0x7fff_ffff_ffff_ffff {
        match rfc3339_of(seconds as i64, nanos) {
            Some(stamp) => stamp,
            None => "1970-01-01T00:00:00+00:00".to_owned(),
        }
    } else {
        "1970-01-01T00:00:00+00:00".to_owned()
    }
}

/// The timestamp of the time of the call.
pub fn now_rfc3339() -> (stamp: String)
    ensures
        exists|seconds: u64, nanos: u32| stamp@ == stamp_text(seconds, nanos),
{
    let (seconds, nanos) = system_time();
    rfc3339_at(seconds, nanos)
}

} // verus!
