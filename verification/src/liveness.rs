//! The liveness side of the monitor: the shared tracker of the last poll
//! attempt's epoch minute, and the probe's healthy/unhealthy decision.

use crate::decimal::dec_int;
use crate::decimal::i64_dec;
use vstd::prelude::*;

verus! {

/// Minutes since the last poll attempt above which the probe reports
/// unhealthy. Fixed independently of the poll interval.
pub const STALE_THRESHOLD_MINUTES: i64 = 5;

/// Seconds the cycle driver sleeps between cycles. Fixed independently of
/// the staleness threshold.
pub const POLL_INTERVAL_SECONDS: u64 = 60;

/// HTTP status the probe answers with while the last attempt is recent.
pub const PROBE_HEALTHY_STATUS: u16 = 200;

/// HTTP status the probe answers with when the last attempt is stale.
pub const PROBE_UNHEALTHY_STATUS: u16 = 503;

/// Relies on `chrono::Utc::now` and `chrono::DateTime::timestamp`: the
/// current wall-clock time as whole seconds since the epoch. Nothing is
/// assumed of the value, since it depends on the machine's clock.
#[verifier::external_body]
fn now_timestamp_seconds() -> i64 {
    chrono::Utc::now().timestamp()
}

/// The epoch minute of an epoch-second timestamp; a clock before the epoch
/// counts as the epoch itself.
pub fn minute_of_timestamp(ts: i64) -> (r: i64)
    ensures
        r == if ts >= 0 {
            ts as int / 60
        } else {
            0
        },
{
    if ts <= 0 {
        0
    } else {
        ((ts as u64) / 60u64) as i64
    }
}

/// Reads the clock and returns the current epoch minute.
pub fn current_epoch_minute() -> (r: i64)
    ensures
        r >= 0,
{
    let ts: i64 = now_timestamp_seconds();
    minute_of_timestamp(ts)
}

/// Shared liveness state: the epoch minute of the last poll attempt,
/// written once per cycle by the driver and read by the probe. The
/// recorded minute never decreases.
pub struct LivenessTracker {
    last_attempt_minute: i64,
}

impl LivenessTracker {
    /// The recorded epoch minute of the last poll attempt.
    pub closed spec fn last_minute(&self) -> int {
        self.last_attempt_minute as int
    }

    /// The tracker's invariant: the recorded minute is an epoch minute,
    /// never before the epoch.
    pub open spec fn well_formed(&self) -> bool {
        0 <= self.last_minute()
    }

    /// A fresh tracker, as if the last attempt were at the epoch itself.
    pub fn new() -> (r: Self)
        ensures
            r.well_formed(),
            r.last_minute() == 0,
    {
        LivenessTracker { last_attempt_minute: 0 }
    }

    /// Records one poll attempt at the given minute. The recorded minute
    /// moves to the given minute and never decreases.
    pub fn record_attempt(&mut self, now_minute: i64)
        requires
            old(self).well_formed(),
        ensures
            final(self).well_formed(),
            final(self).last_minute() >= old(self).last_minute(),
            final(self).last_minute() == if now_minute as int > old(self).last_minute() {
                now_minute as int
            } else {
                old(self).last_minute()
            },
    {
        if now_minute > self.last_attempt_minute {
            self.last_attempt_minute = now_minute;
        }
    }

    /// Minutes elapsed at the given minute since the last recorded attempt.
    pub fn minutes_since(&self, now_minute: i64) -> (r: i64)
        requires
            self.well_formed(),
            now_minute >= 0,
        ensures
            r == now_minute as int - self.last_minute(),
    {
        now_minute - self.last_attempt_minute
    }
}

/// The probe's decision for an elapsed-minutes count: healthy while the
/// count is at most the staleness threshold, unhealthy above it; the body
/// is the decimal count either way.
pub fn probe_response(elapsed: i64) -> (r: (u16, String))
    ensures
        r.0 == if elapsed > STALE_THRESHOLD_MINUTES {
            PROBE_UNHEALTHY_STATUS
        } else {
            PROBE_HEALTHY_STATUS
        },
        r.1@ == dec_int(elapsed as int),
{
    let body: String = i64_dec(elapsed);
    if elapsed > STALE_THRESHOLD_MINUTES {
        (PROBE_UNHEALTHY_STATUS, body)
    } else {
        (PROBE_HEALTHY_STATUS, body)
    }
}

/// Answers one probe request against the tracker at the given minute.
pub fn probe(tracker: &LivenessTracker, now_minute: i64) -> (r: (u16, String))
    requires
        tracker.well_formed(),
        now_minute >= 0,
    ensures
        r.0 == if now_minute as int - tracker.last_minute() > STALE_THRESHOLD_MINUTES as int {
            PROBE_UNHEALTHY_STATUS
        } else {
            PROBE_HEALTHY_STATUS
        },
        r.1@ == dec_int(now_minute as int - tracker.last_minute()),
{
    let elapsed: i64 = tracker.minutes_since(now_minute);
    probe_response(elapsed)
}

} // verus!
