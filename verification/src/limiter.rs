//! Request-weight rate limiting.
//!
//! An exchange grants a budget of request weight per window of time and
//! reports, with each response, how much of it has been used. The bucket
//! counts what was admitted locally and is set to the reported figure
//! whenever one arrives. Time is a reading of a monotonic clock in
//! milliseconds, handed in by the caller.

use crate::text::{parse_unsigned, parse_usize};
use vstd::prelude::*;
use vstd::string::StringSliceAdditionalSpecFns;

verus! {

/// The share of the configured limit that is kept unused, in percent.
pub const LIMITER_BUFFER_PCT: usize = 3;

/// HTTP status of a request refused for exceeding the rate limit.
pub const STATUS_TOO_MANY_REQUESTS: u16 = 429;

/// HTTP status of a client banned for ignoring the rate limit.
pub const STATUS_BANNED: u16 = 418;

/// What a bucket holds.
pub struct BucketState {
    /// The weight that may be used within one window.
    pub max_weight: nat,
    /// The weight used in the current window.
    pub used: nat,
    /// When the current window began.
    pub window_start: nat,
    /// The length of a window.
    pub refill_rate: nat,
}

impl BucketState {
    /// The time since the window began; zero where the clock reads earlier.
    pub open spec fn elapsed(self, now: nat) -> nat {
        if now >= self.window_start {
            (now - self.window_start) as nat
        } else {
            0
        }
    }

    /// The bucket as it stands at `now`: once a whole window has passed, a
    /// new one begins at `now` with nothing used.
    pub open spec fn refreshed(self, now: nat) -> BucketState {
        if self.elapsed(now) >= self.refill_rate {
            BucketState { used: 0, window_start: now, ..self }
        } else {
            self
        }
    }

    /// A request of `weight` at `now` fits the budget of the window.
    pub open spec fn admits(self, weight: nat, now: nat) -> bool {
        self.refreshed(now).used + weight <= self.max_weight
    }

    /// How long a request that does not fit has to wait: until the window
    /// ends.
    pub open spec fn wait_for(self, now: nat) -> nat {
        let fresh = self.refreshed(now);
        (fresh.refill_rate - fresh.elapsed(now)) as nat
    }

    /// The bucket after a request of `weight` at `now`: an admitted request
    /// is counted, a refused one is not.
    pub open spec fn after_request(self, weight: nat, now: nat) -> BucketState {
        let fresh = self.refreshed(now);
        if self.admits(weight, now) {
            BucketState { used: fresh.used + weight, ..fresh }
        } else {
            fresh
        }
    }

    /// The bucket after the exchange reported `reported` as used.
    pub open spec fn after_report(self, reported: nat) -> BucketState {
        BucketState { used: reported, ..self }
    }

    /// The bucket after a run of requests at one and the same time.
    pub open spec fn after_requests(self, weights: Seq<nat>, now: nat) -> BucketState
        decreases weights.len(),
    {
        if weights.len() == 0 {
            self
        } else {
            self.after_requests(weights.drop_last(), now).after_request(weights.last(), now)
        }
    }
}

/// The sum of a run of weights.
pub open spec fn total_weight(weights: Seq<nat>) -> nat
    decreases weights.len(),
{
    if weights.len() == 0 {
        0
    } else {
        total_weight(weights.drop_last()) + weights.last()
    }
}

/// A request that does not fit is told to wait, for a time that is longer
/// than zero and no longer than a window, and is not counted.
pub proof fn lemma_refused_request_waits(b: BucketState, weight: nat, now: nat)
    requires
        b.refill_rate > 0,
        !b.admits(weight, now),
    ensures
        0 < b.wait_for(now) <= b.refill_rate,
        b.after_request(weight, now).used == b.refreshed(now).used,
{
}

/// Within one window, requests are admitted as long as their weights add up
/// to no more than the limit, and the bucket then holds their sum.
pub proof fn lemma_requests_within_limit_admitted(b: BucketState, weights: Seq<nat>, now: nat)
    requires
        b.used == 0,
        b.elapsed(now) < b.refill_rate,
        total_weight(weights) <= b.max_weight,
    ensures
        b.after_requests(weights, now).used == total_weight(weights),
        b.after_requests(weights, now).window_start == b.window_start,
        b.after_requests(weights, now).max_weight == b.max_weight,
        b.after_requests(weights, now).refill_rate == b.refill_rate,
    decreases weights.len(),
{
    if weights.len() > 0 {
        lemma_requests_within_limit_admitted(b, weights.drop_last(), now);
    }
}

/// Within one window, the request with which the cumulative weight first
/// exceeds the limit is refused and told to wait.
pub proof fn lemma_cumulative_weight_over_limit_waits(
    b: BucketState,
    weights: Seq<nat>,
    weight: nat,
    now: nat,
)
    requires
        b.used == 0,
        b.elapsed(now) < b.refill_rate,
        total_weight(weights) <= b.max_weight,
        total_weight(weights) + weight > b.max_weight,
    ensures
        !b.after_requests(weights, now).admits(weight, now),
        b.after_requests(weights, now).wait_for(now) > 0,
{
    lemma_requests_within_limit_admitted(b, weights, now);
}

/// After a report, what is admitted depends on the reported usage alone and
/// not on what had been counted before.
pub proof fn lemma_report_replaces_local_count(
    b: BucketState,
    reported: nat,
    weight: nat,
    now: nat,
)
    requires
        b.elapsed(now) < b.refill_rate,
    ensures
        b.after_report(reported).admits(weight, now) == (reported + weight <= b.max_weight),
        b.after_report(reported).admits(weight, now) ==> b.after_report(reported).after_request(
            weight,
            now,
        ).used == reported + weight,
{
}

/// A lower report admits whatever a higher one admits.
pub proof fn lemma_lower_report_admits_more(
    b: BucketState,
    lower: nat,
    higher: nat,
    weight: nat,
    now: nat,
)
    requires
        lower <= higher,
        b.after_report(higher).admits(weight, now),
    ensures
        b.after_report(lower).admits(weight, now),
{
}

/// A bucket of request weight that is refilled window by window.
#[derive(Clone, Copy, Debug)]
pub struct DynamicBucket {
    max_weight: usize,
    current_used_weight: usize,
    last_updated: u64,
    refill_rate: u64,
}

impl View for DynamicBucket {
    type V = BucketState;

    closed spec fn view(&self) -> BucketState {
        BucketState {
            max_weight: self.max_weight as nat,
            used: self.current_used_weight as nat,
            window_start: self.last_updated as nat,
            refill_rate: self.refill_rate as nat,
        }
    }
}

impl DynamicBucket {
    /// A bucket of `max_weight` per window of `refill_rate` milliseconds,
    /// with nothing used and its first window beginning at time zero.
    pub fn new(max_weight: usize, refill_rate: u64) -> (r: DynamicBucket)
        ensures
            r@ == (BucketState {
                max_weight: max_weight as nat,
                used: 0,
                window_start: 0,
                refill_rate: refill_rate as nat,
            }),
    {
        DynamicBucket { max_weight, current_used_weight: 0, last_updated: 0, refill_rate }
    }

    /// Sets the used weight to what the exchange reported.
    pub fn update_weight(&mut self, new_weight: usize)
        ensures
            final(self)@ == old(self)@.after_report(new_weight as nat),
    {
        self.current_used_weight = new_weight;
    }

    /// Asks to send a request of `weight` at `now`. `None` admits and counts
    /// it; `Some` gives the milliseconds to wait before asking again.
    pub fn prepare_request(&mut self, weight: usize, now: u64) -> (wait: Option<u64>)
        ensures
            final(self)@ == old(self)@.after_request(weight as nat, now as nat),
            wait == (if old(self)@.admits(weight as nat, now as nat) {
                None
            } else {
                Some(old(self)@.wait_for(now as nat) as u64)
            }),
    {
        let elapsed: u64 = if now >= self.last_updated {
            now - self.last_updated
        } else {
            0
        };
        let elapsed: u64 = if elapsed >= self.refill_rate {
            self.current_used_weight = 0;
            self.last_updated = now;
            0
        } else {
            elapsed
        };
        let fits: bool = match self.current_used_weight.checked_add(weight) {
            Some(total) => total <= self.max_weight,
            None => false,
        };
        if fits {
            self.current_used_weight = self.current_used_weight + weight;
            None
        } else {
            Some(self.refill_rate - elapsed)
        }
    }

    /// The weight used in the current window.
    pub fn used_weight(&self) -> (r: usize)
        ensures
            r == self@.used,
    {
        self.current_used_weight
    }

    /// The weight that may be used within one window.
    pub fn max_weight(&self) -> (r: usize)
        ensures
            r == self@.max_weight,
    {
        self.max_weight
    }
}

/// The limit that is enforced: the configured one less the safety buffer,
/// rounded down.
pub open spec fn effective_limit(limit: nat) -> nat {
    limit * ((100 - LIMITER_BUFFER_PCT) as nat) / 100
}

/// The used weight that a header reports, if it is an unsigned decimal
/// integer.
pub open spec fn reported_weight(header: Option<&str>) -> Option<nat> {
    match header {
        Some(text) => parse_unsigned(text.spec_bytes(), usize::MAX as nat),
        None => None,
    }
}

/// A response asks for a hard stop: the exchange refused the request for
/// its rate, or has banned the client.
pub open spec fn is_hard_stop(status: u16) -> bool {
    status == STATUS_TOO_MANY_REQUESTS || status == STATUS_BANNED
}

/// The rate limiter of one exchange.
#[derive(Clone, Copy, Debug)]
pub struct ForexLimiter {
    bucket: DynamicBucket,
}

impl View for ForexLimiter {
    type V = BucketState;

    closed spec fn view(&self) -> BucketState {
        self.bucket@
    }
}

impl ForexLimiter {
    /// A limiter for `limit` weight per window of `refill_rate`
    /// milliseconds, of which the safety buffer is kept unused.
    pub fn new(limit: usize, refill_rate: u64) -> (r: ForexLimiter)
        ensures
            r@ == (BucketState {
                max_weight: effective_limit(limit as nat),
                used: 0,
                window_start: 0,
                refill_rate: refill_rate as nat,
            }),
    {
        let keep: usize = 100 - LIMITER_BUFFER_PCT;
        let whole: usize = limit / 100;
        let rest: usize = limit % 100;
        let effective: usize = whole * keep + rest * keep / 100;
        proof {
            assert(limit * 97 / 100 == whole * 97 + rest * 97 / 100) by (nonlinear_arith)
                requires
                    whole == limit / 100,
                    rest == limit % 100,
            ;
        }
        ForexLimiter { bucket: DynamicBucket::new(effective, refill_rate) }
    }

    /// Asks to send a request of `weight` at `now`. `None` admits and counts
    /// it; `Some` gives the milliseconds to wait before asking again.
    pub fn prepare_request(&mut self, weight: usize, now: u64) -> (wait: Option<u64>)
        ensures
            final(self)@ == old(self)@.after_request(weight as nat, now as nat),
            wait == (if old(self)@.admits(weight as nat, now as nat) {
                None
            } else {
                Some(old(self)@.wait_for(now as nat) as u64)
            }),
    {
        self.bucket.prepare_request(weight, now)
    }

    /// Takes the used weight from the header of a response, where the
    /// response has one that can be read; the weight of the request itself
    /// plays no part.
    pub fn update_from_response(&mut self, used_weight_header: Option<&str>, _weight: usize)
        ensures
            final(self)@ == (match reported_weight(used_weight_header) {
                Some(reported) => old(self)@.after_report(reported),
                None => old(self)@,
            }),
    {
        match used_weight_header {
            Some(text) => match parse_usize(text) {
                Some(reported) => {
                    self.bucket.update_weight(reported);
                },
                None => {},
            },
            None => {},
        }
    }

    /// Whether the status of a response asks for a hard stop.
    pub fn should_exit_on_response(&self, status: u16) -> (r: bool)
        ensures
            r == is_hard_stop(status),
    {
        status == STATUS_TOO_MANY_REQUESTS || status == STATUS_BANNED
    }

    /// The weight used in the current window.
    pub fn used_weight(&self) -> (r: usize)
        ensures
            r == self@.used,
    {
        self.bucket.used_weight()
    }

    /// The weight that may be used within one window.
    pub fn max_weight(&self) -> (r: usize)
        ensures
            r == self@.max_weight,
    {
        self.bucket.max_weight()
    }
}

} // verus!
