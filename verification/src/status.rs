//! The clock and the connection part of snapshots.

use vstd::prelude::*;

use crate::models::{ConnectionSnapshot, ConnectionStatus};
use std::time::{Duration, SystemTime};

verus! {

#[verifier::external_type_specification]
#[verifier::external_body]
pub struct ExSystemTime(SystemTime);

/// Trusted: calls `SystemTime::now`. Nothing is promised of the time it reads.
#[verifier::external_body]
fn system_now() -> SystemTime {
    SystemTime::now()
}

/// Trusted: calls `SystemTime::duration_since(UNIX_EPOCH)`, keeping the
/// duration and dropping the error (a time before the epoch). Nothing is
/// promised of when that happens.
#[verifier::external_body]
fn since_unix_epoch(t: &SystemTime) -> Option<Duration> {
    t.duration_since(std::time::UNIX_EPOCH).ok()
}

/// Trusted: calls `Duration::as_millis`. The duration is opaque here, so
/// nothing is stated of the number.
#[verifier::external_body]
fn whole_millis(d: &Duration) -> u128 {
    d.as_millis()
}

/// The milliseconds since the Unix epoch that a clock reading gives:
/// truncated to 64 bits, and 0 for a reading before the epoch (`None`).
pub open spec fn spec_millis_or_zero(elapsed_ms: Option<u128>) -> u64 {
    match elapsed_ms {
        Some(m) => m as u64,
        None => 0,
    }
}

/// Turns the milliseconds elapsed since the epoch, if the clock reads a time
/// after it, into the timestamp stored in snapshots.
pub fn millis_or_zero(elapsed_ms: Option<u128>) -> (r: u64)
    ensures
        r == spec_millis_or_zero(elapsed_ms),
{
    match elapsed_ms {
        Some(m) => m as u64,
        None => 0,
    }
}

/// Milliseconds since the Unix epoch, truncated to 64 bits; 0 when the
/// clock reads a time before the epoch. The clock reading itself is not
/// known here: the result is [`millis_or_zero`] of it.
pub fn now_ms() -> u64 {
    let now = system_now();
    let elapsed_ms = match since_unix_epoch(&now) {
        Some(elapsed) => Some(whole_millis(&elapsed)),
        None => None,
    };
    millis_or_zero(elapsed_ms)
}

/// A connection snapshot stamped with the current time.
pub fn connection_snapshot(status: ConnectionStatus, detail: String) -> (r: ConnectionSnapshot)
    ensures
        r.status == status,
        r.detail == detail,
{
    ConnectionSnapshot { status, detail, updated_at_ms: now_ms() }
}

} // verus!
