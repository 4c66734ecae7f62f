//! Minimum spacing between outbound requests.
//!
//! One throttle is shared by every caller that talks to the third-party
//! service. A caller holds it exclusively for a whole cycle: it asks how long
//! to wait, waits that long (yielding the scheduler, not blocking the worker),
//! issues its request, and records the time the request went out. The
//! throttle itself only decides; it never sleeps and never performs the
//! request.

use vstd::prelude::*;

verus! {

/// The moment a request may go out, for a caller that arrived at `now` while
/// the previous request went out at `last` (if any): `now` itself, pushed back
/// to `last + min_interval` when that is later.
pub open spec fn throttled_start(min_interval: int, last: Option<int>, now: int) -> int {
    match last {
        Option::None => now,
        Option::Some(l) => if now - l < min_interval {
            l + min_interval
        } else {
            now
        },
    }
}

/// The start times of a whole run of cycles through one throttle: cycle `k`
/// arrives at `arrivals[k]` and starts at `throttled_start` of the previous
/// cycle's start, which is what the caller records after its request.
pub open spec fn cycle_starts(min_interval: int, arrivals: Seq<int>) -> Seq<int>
    decreases arrivals.len(),
{
    if arrivals.len() == 0 {
        Seq::empty()
    } else {
        let prev = cycle_starts(min_interval, arrivals.drop_last());
        let last = if prev.len() == 0 {
            Option::None
        } else {
            Option::Some(prev.last())
        };
        prev.push(throttled_start(min_interval, last, arrivals.last()))
    }
}

/// There is one start time per arrival.
pub proof fn lemma_cycle_starts_len(min_interval: int, arrivals: Seq<int>)
    ensures
        cycle_starts(min_interval, arrivals).len() == arrivals.len(),
    decreases arrivals.len(),
{
    if arrivals.len() > 0 {
        lemma_cycle_starts_len(min_interval, arrivals.drop_last());
    }
}

/// Earlier cycles do not move when later arrivals are added.
proof fn lemma_cycle_starts_prefix(min_interval: int, arrivals: Seq<int>, k: int)
    requires
        0 <= k <= arrivals.len(),
    ensures
        cycle_starts(min_interval, arrivals.take(k)) == cycle_starts(min_interval, arrivals).take(
            k,
        ),
    decreases arrivals.len(),
{
    lemma_cycle_starts_len(min_interval, arrivals);
    if arrivals.len() == 0 {
        assert(cycle_starts(min_interval, arrivals).take(k) =~= Seq::<int>::empty());
        assert(arrivals.take(k) =~= Seq::<int>::empty());
    } else if k == arrivals.len() {
        assert(arrivals.take(k) =~= arrivals);
        assert(cycle_starts(min_interval, arrivals).take(k) =~= cycle_starts(
            min_interval,
            arrivals,
        ));
    } else {
        assert(arrivals.take(k) =~= arrivals.drop_last().take(k));
        lemma_cycle_starts_prefix(min_interval, arrivals.drop_last(), k);
        lemma_cycle_starts_len(min_interval, arrivals.drop_last());
        assert(cycle_starts(min_interval, arrivals).take(k) =~= cycle_starts(
            min_interval,
            arrivals.drop_last(),
        ).take(k));
    }
}

/// For any run of cycles through one throttle, consecutive start times are at
/// least the minimum interval apart, whatever the arrival times were.
pub proof fn lemma_cycle_spacing(min_interval: int, arrivals: Seq<int>, k: int)
    requires
        min_interval >= 0,
        0 <= k,
        k + 1 < arrivals.len(),
    ensures
        cycle_starts(min_interval, arrivals)[k + 1] - cycle_starts(min_interval, arrivals)[k]
            >= min_interval,
    decreases arrivals.len(),
{
    lemma_cycle_starts_len(min_interval, arrivals);
    if k + 2 == arrivals.len() {
        let prev = cycle_starts(min_interval, arrivals.drop_last());
        lemma_cycle_starts_len(min_interval, arrivals.drop_last());
        lemma_cycle_starts_prefix(min_interval, arrivals, k + 1);
        assert(arrivals.take(k + 1) =~= arrivals.drop_last().take(k + 1));
        lemma_cycle_starts_prefix(min_interval, arrivals.drop_last(), k + 1);
        assert(prev.last() == cycle_starts(min_interval, arrivals)[k]);
        assert(cycle_starts(min_interval, arrivals)[k + 1] == throttled_start(
            min_interval,
            Option::Some(prev.last()),
            arrivals.last(),
        ));
    } else {
        lemma_cycle_spacing(min_interval, arrivals.drop_last(), k);
        lemma_cycle_starts_prefix(min_interval, arrivals, arrivals.len() - 1);
        assert(arrivals.take(arrivals.len() - 1) =~= arrivals.drop_last());
        assert(cycle_starts(min_interval, arrivals)[k] == cycle_starts(
            min_interval,
            arrivals.drop_last(),
        )[k]);
        assert(cycle_starts(min_interval, arrivals)[k + 1] == cycle_starts(
            min_interval,
            arrivals.drop_last(),
        )[k + 1]);
    }
}

/// The shared throttle state: the configured minimum interval and the moment
/// the previous request went out, in milliseconds of some monotone clock.
pub struct ThrottleGate {
    /// Minimum spacing between two outbound requests, in milliseconds.
    pub min_interval_ms: u64,
    /// When the previous request went out; `None` before the first request.
    pub last_request_ms: Option<u64>,
}

impl ThrottleGate {
    /// A fresh throttle: no request has gone out yet.
    pub fn new(min_interval_ms: u64) -> (r: Self)
        ensures
            r.min_interval_ms == min_interval_ms,
            r.last_request_ms is None,
    {
        ThrottleGate { min_interval_ms, last_request_ms: Option::None }
    }

    /// How long a caller arriving at `now_ms` must still wait before its
    /// request may go out. The clock is monotone, so `now_ms` is never behind
    /// the recorded previous request.
    pub fn required_delay(&self, now_ms: u64) -> (d: u64)
        requires
            self.last_request_ms matches Some(l) ==> l <= now_ms,
        ensures
            d <= self.min_interval_ms,
            now_ms + d == throttled_start(
                self.min_interval_ms as int,
                match self.last_request_ms {
                    Option::None => Option::None,
                    Option::Some(l) => Option::Some(l as int),
                },
                now_ms as int,
            ),
    {
        match self.last_request_ms {
            Option::None => 0,
            Option::Some(l) => {
                let elapsed = now_ms - l;
                if elapsed < self.min_interval_ms {
                    self.min_interval_ms - elapsed
                } else {
                    0
                }
            },
        }
    }

    /// Records the moment a request went out as the new previous request.
    pub fn record_request(&mut self, at_ms: u64)
        ensures
            final(self).min_interval_ms == old(self).min_interval_ms,
            final(self).last_request_ms == Option::Some(at_ms),
    {
        self.last_request_ms = Option::Some(at_ms);
    }

    /// One whole cycle of the throttle held exclusively: a caller that arrived at
    /// `now_ms` learns when its request may go out, and that moment is
    /// recorded as the new previous request. The start time returned is the
    /// one `cycle_starts` gives the cycle.
    pub fn acquire(&mut self, now_ms: u64) -> (start_ms: u64)
        requires
            old(self).last_request_ms matches Some(l) ==> l <= now_ms,
            now_ms + old(self).min_interval_ms <= u64::MAX,
        ensures
            now_ms <= start_ms,
            start_ms as int == throttled_start(
                old(self).min_interval_ms as int,
                match old(self).last_request_ms {
                    Option::None => Option::None,
                    Option::Some(l) => Option::Some(l as int),
                },
                now_ms as int,
            ),
            old(self).last_request_ms matches Some(l) ==> start_ms >= l + old(
                self,
            ).min_interval_ms,
            final(self).min_interval_ms == old(self).min_interval_ms,
            final(self).last_request_ms == Option::Some(start_ms),
    {
        let d = self.required_delay(now_ms);
        let start_ms = now_ms + d;
        self.record_request(start_ms);
        start_ms
    }
}

} // verus!
