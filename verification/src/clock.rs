//! The server's clock.

use std::time::{Duration, SystemTime, UNIX_EPOCH};
use vstd::prelude::*;

verus! {

/// `std::time::SystemTime`, a reading of the system clock. Nothing is known
/// of a value of this type but what `epoch_span` names.
#[verifier::external_type_specification]
#[verifier::external_body]
pub struct ExSystemTime(SystemTime);

/// What `SystemTime::duration_since` answers for `time` and the Unix epoch:
/// the time elapsed from the epoch to `time`, or nothing where `time` lies
/// before the epoch.
pub uninterp spec fn epoch_span(time: SystemTime) -> Option<Duration>;

/// What `Duration::as_secs` answers for `span`: its whole seconds.
pub uninterp spec fn span_seconds(span: Duration) -> u64;

/// The timestamp of a clock reading: the whole seconds from the Unix epoch
/// to it, and 0 for a reading that lies before the epoch.
pub open spec fn timestamp_of(time: SystemTime) -> u64 {
    match epoch_span(time) {
        Some(span) => span_seconds(span),
        None => 0,
    }
}

/// Calls `SystemTime::now`. Nothing is claimed of the reading: it depends
/// on when the call is made.
#[verifier::external_body]
fn system_now() -> SystemTime {
    SystemTime::now()
}

/// Calls `SystemTime::duration_since` with `UNIX_EPOCH` and drops the
/// error, which says only that `time` lies before the epoch. The result
/// depends on `time` alone; the contract gives it the name `epoch_span`.
#[verifier::external_body]
fn since_epoch(time: &SystemTime) -> (r: Option<Duration>)
    ensures
        r == epoch_span(*time),
{
    time.duration_since(UNIX_EPOCH).ok()
}

/// Calls `Duration::as_secs`. The result depends on `span` alone; the
/// contract gives it the name `span_seconds`.
#[verifier::external_body]
fn whole_seconds(span: &Duration) -> (r: u64)
    ensures
        r == span_seconds(*span),
{
    span.as_secs()
}

/// The timestamp of the clock reading `time`: the whole seconds from the
/// Unix epoch to it, and 0 where it lies before the epoch.
pub fn timestamp(time: &SystemTime) -> (r: u64)
    ensures
        r == timestamp_of(*time),
{
    match since_epoch(time) {
        Some(span) => whole_seconds(&span),
        None => 0,
    }
}

/// The current server time in whole seconds since the Unix epoch; 0 where
/// the clock is set before the epoch.
///
/// The clock is read once, and the result is the timestamp of that reading.
/// Which reading it is, no contract can say.
pub fn now_timestamp() -> (r: u64)
    ensures
        exists|time: SystemTime| r == #[trigger] timestamp_of(time),
{
    let time = system_now();
    let r = timestamp(&time);
    assert(r == timestamp_of(time));
    r
}

} // verus!
