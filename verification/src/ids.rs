//! Identifiers for objects and animations, made from the wall clock.

use std::time::{Duration, SystemTime, SystemTimeError, UNIX_EPOCH};
use vstd::prelude::*;
use crate::text::{hex, push_hex};

verus! {

#[verifier::external_type_specification]
#[verifier::external_body]
pub struct ExSystemTime(SystemTime);

#[verifier::external_type_specification]
#[verifier::external_body]
pub struct ExSystemTimeError(SystemTimeError);

/// Wraps `SystemTime::now`: the present time; nothing is promised of it.
#[verifier::external_body]
fn system_now() -> SystemTime {
    SystemTime::now()
}

/// Wraps `SystemTime::duration_since` with `UNIX_EPOCH`: the time elapsed since
/// the epoch, or an error when the clock stands before it.
#[verifier::external_body]
fn since_unix_epoch(t: &SystemTime) -> Result<Duration, SystemTimeError> {
    t.duration_since(UNIX_EPOCH)
}

/// Wraps `Duration::default`: the zero duration.
#[verifier::external_body]
fn zero_duration() -> Duration {
    Duration::default()
}

/// Wraps `Duration::as_secs`: the whole seconds of the duration.
#[verifier::external_body]
fn whole_seconds(d: &Duration) -> u64 {
    d.as_secs()
}

/// Wraps `Duration::subsec_nanos`, which the documentation says is always
/// below one billion.
#[verifier::external_body]
fn subsec_nanos(d: &Duration) -> (r: u32)
    ensures
        r < 1_000_000_000,
{
    d.subsec_nanos()
}

/// The identifier made from a clock reading: the seconds and then the
/// nanoseconds, each in lower-case hexadecimal.
pub open spec fn clock_id(secs: u64, nanos: u32) -> Seq<char> {
    hex(secs as nat) + hex(nanos as nat)
}

/// `s` is an identifier made from some clock reading.
pub open spec fn is_clock_id(s: Seq<char>) -> bool {
    exists|secs: u64, nanos: u32| nanos < 1_000_000_000 && s == clock_id(secs, nanos)
}

/// Formats a clock reading as an identifier.
pub fn id_from_clock(secs: u64, nanos: u32) -> (r: String)
    ensures
        r@ == clock_id(secs, nanos),
{
    let mut s = String::new();
    push_hex(&mut s, secs);
    push_hex(&mut s, nanos as u64);
    s
}

/// A fresh identifier from the present time since the Unix epoch (zero when the
/// clock stands before the epoch).
pub fn new_id() -> (r: String)
    ensures
        is_clock_id(r@),
{
    let now = system_now();
    let elapsed = match since_unix_epoch(&now) {
        Ok(d) => d,
        Err(_) => zero_duration(),
    };
    let secs = whole_seconds(&elapsed);
    let nanos = subsec_nanos(&elapsed);
    id_from_clock(secs, nanos)
}

} // verus!
