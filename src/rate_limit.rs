//! Fixed-window request counting per client address.
//!
//! Each address has a counter `{ window_start, count }`. A request at `now`
//! opens a new window (count 1) when the address has none or when its
//! window is at least `interval` old; otherwise it adds one to the count.
//! The request is admitted while the count stays within `max_requests`.
//! Callers must run one check per address at a time.
use vstd::prelude::*;

verus! {

/// Length of a window, in milliseconds.
pub const WINDOW_MILLIS: u64 = 60_000;

/// Requests admitted per address and window.
pub const MAX_REQUESTS: u64 = 400;

/// The body a refused request is answered with, under a success status.
pub const RATE_LIMIT_MESSAGE: &'static str = "400 req per min rate limit being imposed";

/// A fixed-window policy. Times are milliseconds on a monotonic clock.
#[derive(Clone, Copy, Debug, PartialEq, Eq, Structural)]
pub struct FixedWindow {
    pub interval: u64,
    pub max_requests: u64,
}

/// One address's current window.
#[derive(Clone, Copy, Debug, PartialEq, Eq, Structural)]
pub struct WindowCounter {
    pub window_start: u64,
    pub count: u64,
}

/// The verdict on one request.
#[derive(Clone, Copy, Debug, PartialEq, Eq, Structural)]
pub struct RateDecision {
    pub allowed: bool,
    /// The address's counter after this request, to be stored back.
    pub counter: WindowCounter,
    /// Requests still admitted in this window.
    pub remaining: u64,
    /// When this window ends.
    pub reset_at: u64,
}

/// The policy the board runs with: `MAX_REQUESTS` per `WINDOW_MILLIS`.
pub fn board_policy() -> (r: FixedWindow)
    ensures
        r == (FixedWindow { interval: WINDOW_MILLIS, max_requests: MAX_REQUESTS }),
{
    FixedWindow { interval: WINDOW_MILLIS, max_requests: MAX_REQUESTS }
}

/// Time since `start`; a clock reading before `start` counts as none.
pub open spec fn elapsed(start: u64, now: u64) -> int {
    if now >= start {
        now - start
    } else {
        0
    }
}

/// The counter after a request at `now`.
pub open spec fn next_counter(policy: FixedWindow, entry: Option<WindowCounter>, now: u64) -> WindowCounter {
    match entry {
        Some(c) => if elapsed(c.window_start, now) < policy.interval {
            WindowCounter {
                window_start: c.window_start,
                count: if c.count < u64::MAX {
                    (c.count + 1) as u64
                } else {
                    c.count
                },
            }
        } else {
            WindowCounter { window_start: now, count: 1 }
        },
        None => WindowCounter { window_start: now, count: 1 },
    }
}

/// Whether a request that brought the counter to `c` is admitted.
pub open spec fn admits(policy: FixedWindow, c: WindowCounter) -> bool {
    c.count <= policy.max_requests
}

/// Judges one request at `now` from an address whose counter is `entry`.
pub fn check_request(policy: FixedWindow, entry: Option<WindowCounter>, now: u64) -> (r: RateDecision)
    ensures
        r.counter == next_counter(policy, entry, now),
        r.allowed == admits(policy, r.counter),
        r.remaining == (if r.counter.count <= policy.max_requests {
            policy.max_requests - r.counter.count
        } else {
            0
        }),
        r.reset_at == (if r.counter.window_start + policy.interval <= u64::MAX {
            r.counter.window_start + policy.interval
        } else {
            u64::MAX as int
        }),
{
    let counter = match entry {
        Some(c) => {
            let age = if now >= c.window_start {
                now - c.window_start
            } else {
                0
            };
            if age < policy.interval {
                WindowCounter { window_start: c.window_start, count: c.count.saturating_add(1) }
            } else {
                WindowCounter { window_start: now, count: 1 }
            }
        },
        None => WindowCounter { window_start: now, count: 1 },
    };
    RateDecision {
        allowed: counter.count <= policy.max_requests,
        counter,
        remaining: policy.max_requests.saturating_sub(counter.count),
        reset_at: counter.window_start.saturating_add(policy.interval),
    }
}

/// The counter of an address after requests at `times`, from none.
pub open spec fn counter_after(policy: FixedWindow, times: Seq<u64>) -> Option<WindowCounter>
    decreases times.len(),
{
    if times.len() == 0 {
        None
    } else {
        Some(next_counter(policy, counter_after(policy, times.drop_last()), times.last()))
    }
}

/// Whether the request at `times[i]` is admitted.
pub open spec fn admitted_at(policy: FixedWindow, times: Seq<u64>, i: int) -> bool {
    admits(policy, counter_after(policy, times.take(i + 1))->Some_0)
}

proof fn lemma_counter_within_window(policy: FixedWindow, times: Seq<u64>, n: int)
    requires
        1 <= n <= times.len(),
        times.len() < u64::MAX,
        forall|i: int|
            0 <= i < times.len() ==> times[0] <= #[trigger] times[i] && times[i] - times[0]
                < policy.interval,
    ensures
        counter_after(policy, times.take(n)) == Some(
            WindowCounter { window_start: times[0], count: n as u64 },
        ),
    decreases n,
{
    let prefix = times.take(n);
    assert(prefix.drop_last() =~= times.take(n - 1));
    assert(prefix.last() == times[n - 1]);
    if n > 1 {
        lemma_counter_within_window(policy, times, n - 1);
    } else {
        assert(times.take(0) =~= Seq::<u64>::empty());
    }
}

/// Requests from one address that all fall within the window opened by the
/// first of them are admitted exactly while they number at most
/// `max_requests`: the first `max_requests` go through, every later one is
/// refused.
pub proof fn lemma_window_budget(policy: FixedWindow, times: Seq<u64>)
    requires
        times.len() < u64::MAX,
        forall|i: int|
            0 <= i < times.len() ==> times[0] <= #[trigger] times[i] && times[i] - times[0]
                < policy.interval,
    ensures
        forall|i: int| 0 <= i < times.len() ==> (#[trigger] admitted_at(policy, times, i) <==> i < policy.max_requests),
{
    assert forall|i: int| 0 <= i < times.len() implies (#[trigger] admitted_at(policy, times, i) <==> i < policy.max_requests) by {
        lemma_counter_within_window(policy, times, i + 1);
    }
}

/// Once an address's window is `interval` old, its next request opens a new
/// window and is admitted, whatever came before.
pub proof fn lemma_window_rolls_over(policy: FixedWindow, entry: WindowCounter, now: u64)
    requires
        policy.max_requests >= 1,
        elapsed(entry.window_start, now) >= policy.interval,
    ensures
        next_counter(policy, Some(entry), now) == (WindowCounter { window_start: now, count: 1 }),
        admits(policy, next_counter(policy, Some(entry), now)),
{
}

} // verus!
