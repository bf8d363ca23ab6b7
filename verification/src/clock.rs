//! Time sources. The logic is written for a given number of milliseconds
//! and proved for every such number; a function that reads a clock only
//! hands the reading on.

use std::time::Instant;
use vstd::prelude::*;

verus! {

/// `Instant` of the standard library: a moment of the monotonic clock.
/// Nothing inside it is visible here.
#[verifier::external_type_specification]
#[verifier::external_body]
pub struct ExInstant(Instant);

/// A monotonic clock that counts milliseconds from the moment it was made.
pub struct MonoClock {
    origin: Instant,
}

/// `Instant::now` of the standard library: the present moment of the
/// monotonic clock. Nothing is claimed of the value.
#[verifier::external_body]
fn instant_now() -> Instant {
    Instant::now()
}

/// `Instant::elapsed` of the standard library, in whole milliseconds: the
/// time that has passed since `origin`. Nothing is claimed of the value.
#[verifier::external_body]
fn elapsed_ms(origin: &Instant) -> u64 {
    origin.elapsed().as_millis() as u64
}

impl MonoClock {
    /// A clock that reads zero now.
    pub fn start() -> MonoClock {
        MonoClock { origin: instant_now() }
    }

    /// Milliseconds since the clock was started.
    pub fn now_ms(&self) -> u64 {
        elapsed_ms(&self.origin)
    }
}

/// `Utc::now` of the `chrono` crate, as milliseconds since the Unix
/// epoch: the present moment of the calendar clock. Nothing is claimed of
/// the value.
#[verifier::external_body]
pub(crate) fn utc_now_ms() -> i64 {
    chrono::Utc::now().timestamp_millis()
}

/// The UTC calendar day of a moment, written `YYYY-MM-DD` as `chrono`
/// formats it; nothing when `chrono` cannot represent the moment.
pub uninterp spec fn utc_day_key(ts_ms: i64) -> Option<Seq<char>>;

/// `DateTime::format` of the `chrono` crate with the pattern `%Y-%m-%d`,
/// on the UTC moment that `DateTime::from_timestamp_millis` makes of
/// `ts_ms`. The result is given the name `utc_day_key` and nothing more is
/// claimed of it.
#[verifier::external_body]
pub(crate) fn day_key_of(ts_ms: i64) -> (key: Option<String>)
    ensures
        crate::types::optional_text(key) == utc_day_key(ts_ms),
{
    match chrono::DateTime::from_timestamp_millis(ts_ms) {
        Some(t) => Some(t.format("%Y-%m-%d").to_string()),
        None => None,
    }
}

/// Length of the rolling window of every rate limit, in milliseconds.
pub const WINDOW_MS: u64 = 60_000;

/// Whether an entry stamped `stamp` has left the rolling window at `now`.
/// A stamp later than `now` counts as fresh.
pub open spec fn expired(stamp: u64, now: u64) -> bool {
    now >= stamp && now - stamp >= 60_000
}

/// Whether an entry stamped `stamp` has left the rolling window at `now`.
pub fn is_expired(stamp: u64, now: u64) -> (r: bool)
    ensures
        r == expired(stamp, now),
{
    now >= stamp && now - stamp >= WINDOW_MS
}

/// What is left of a FIFO of stamps once expired entries are dropped from
/// its front: dropping stops at the first entry that is still fresh.
pub open spec fn pruned(stamps: Seq<u64>, now: u64) -> Seq<u64>
    decreases stamps.len(),
{
    if stamps.len() > 0 && expired(stamps[0], now) {
        pruned(stamps.drop_first(), now)
    } else {
        stamps
    }
}

/// Pruning never lengthens a window.
pub proof fn lemma_pruned_len(stamps: Seq<u64>, now: u64)
    ensures
        pruned(stamps, now).len() <= stamps.len(),
        pruned(stamps, now).len() > 0 ==> !expired(pruned(stamps, now)[0], now),
    decreases stamps.len(),
{
    if stamps.len() > 0 && expired(stamps[0], now) {
        lemma_pruned_len(stamps.drop_first(), now);
    }
}

/// Pruning a pruned window changes nothing.
pub proof fn lemma_pruned_idempotent(stamps: Seq<u64>, now: u64)
    ensures
        pruned(pruned(stamps, now), now) == pruned(stamps, now),
    decreases stamps.len(),
{
    if stamps.len() > 0 && expired(stamps[0], now) {
        lemma_pruned_idempotent(stamps.drop_first(), now);
    }
}

} // verus!
