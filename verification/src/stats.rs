//! Packet count and throttled rate estimate.
//!
//! Every kept packet increments the total unconditionally. The rate is
//! recomputed from the running total and the time since capture start only
//! when at least one second has passed since the last recomputation;
//! otherwise the previous value is retained, purely to keep the displayed
//! figure stable between redraws. Times are milliseconds from the caller's
//! clock; the rate is kept in thousandths of a packet per second.

use vstd::prelude::*;

verus! {

/// Milliseconds that must pass since the last recomputation before the
/// rate is recomputed.
pub const RATE_INTERVAL_MS: u64 = 1000;

/// The recomputed rate, in thousandths of a packet per second, saturated
/// at the largest representable value.
pub open spec fn rate_of(total: int, elapsed_ms: int) -> int
    recommends
        elapsed_ms > 0,
{
    let q = total * 1000000 / elapsed_ms;
    if q > u64::MAX {
        u64::MAX as int
    } else {
        q
    }
}

/// Mathematical state of the tracker.
pub ghost struct StatsModel {
    pub start_ms: int,
    pub last_update_ms: int,
    pub total: int,
    pub rate_millis: int,
}

/// What one recorded packet does to the tracker state at time `now`.
pub open spec fn record_model(s: StatsModel, now: int) -> StatsModel {
    let total = s.total + 1;
    if now - s.last_update_ms >= RATE_INTERVAL_MS {
        StatsModel {
            start_ms: s.start_ms,
            last_update_ms: now,
            total,
            rate_millis: rate_of(total, now - s.start_ms),
        }
    } else {
        StatsModel { start_ms: s.start_ms, last_update_ms: s.last_update_ms, total, rate_millis: s.rate_millis }
    }
}

/// Running total of kept packets and the throttled rate estimate.
#[derive(Clone, Copy, PartialEq, Eq, Structural, Debug)]
pub struct StatsTracker {
    pub start_ms: u64,
    pub last_update_ms: u64,
    pub total: u64,
    pub rate_millis: u64,
}

impl StatsTracker {
    /// The tracker a fresh start at `now_ms` yields.
    pub open spec fn new_spec(now_ms: u64) -> StatsTracker {
        StatsTracker { start_ms: now_ms, last_update_ms: now_ms, total: 0, rate_millis: 0 }
    }

    /// Mathematical view of the tracker.
    pub open spec fn model(&self) -> StatsModel {
        StatsModel {
            start_ms: self.start_ms as int,
            last_update_ms: self.last_update_ms as int,
            total: self.total as int,
            rate_millis: self.rate_millis as int,
        }
    }

    /// The last recomputation never precedes the start of capture.
    pub open spec fn wf(&self) -> bool {
        self.start_ms <= self.last_update_ms
    }

    /// A fresh tracker whose clock starts at `now_ms`.
    pub fn new(now_ms: u64) -> (t: StatsTracker)
        ensures
            t.wf(),
            t.start_ms == now_ms,
            t.last_update_ms == now_ms,
            t.total == 0,
            t.rate_millis == 0,
    {
        StatsTracker { start_ms: now_ms, last_update_ms: now_ms, total: 0, rate_millis: 0 }
    }

    /// Record one kept packet at time `now_ms`.
    pub fn record(&mut self, now_ms: u64)
        requires
            old(self).wf(),
            now_ms >= old(self).last_update_ms,
            old(self).total < u64::MAX,
        ensures
            final(self).wf(),
            final(self).model() == record_model(old(self).model(), now_ms as int),
    {
        self.total = self.total + 1;
        if now_ms - self.last_update_ms >= RATE_INTERVAL_MS {
            let elapsed = now_ms - self.start_ms;
            let q = (self.total as u128) * 1000000 / (elapsed as u128);
            self.rate_millis = if q > u64::MAX as u128 {
                u64::MAX
            } else {
                q as u64
            };
            self.last_update_ms = now_ms;
        }
    }
}

/// A record within one second of the last recomputation leaves the rate
/// unchanged while still counting the packet.
pub proof fn lemma_rate_throttled(s: StatsModel, now: int)
    requires
        now - s.last_update_ms < RATE_INTERVAL_MS,
    ensures
        record_model(s, now).rate_millis == s.rate_millis,
        record_model(s, now).total == s.total + 1,
{
}

/// The first record at least one second after the last recomputation
/// recomputes the rate from the running total and the time since start.
pub proof fn lemma_rate_recomputed(s: StatsModel, now: int)
    requires
        now - s.last_update_ms >= RATE_INTERVAL_MS,
    ensures
        record_model(s, now).rate_millis == rate_of(s.total + 1, now - s.start_ms),
        record_model(s, now).last_update_ms == now,
        record_model(s, now).total == s.total + 1,
{
}

/// Two records less than one second apart, the first of which recomputed
/// the rate: the second leaves the rate unchanged.
pub proof fn lemma_two_records_stable(s: StatsModel, t1: int, t2: int)
    requires
        t1 - s.last_update_ms >= RATE_INTERVAL_MS,
        t1 <= t2,
        t2 - t1 < RATE_INTERVAL_MS,
    ensures
        record_model(record_model(s, t1), t2).rate_millis == record_model(s, t1).rate_millis,
{
}

} // verus!
