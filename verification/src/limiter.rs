//! A token-bucket gate on outbound request starts, shared by all fetch
//! tasks. Admissions are spaced at least one refill interval apart, so no
//! rolling one-second window ever sees more than `rate` admissions.
//!
//! The limiter itself is pure state: callers pass the current time in
//! nanoseconds and learn whether the request may start now, and from when
//! the next one may. Waiting (sleeping until `next_ready`) is the caller's
//! job, so the limiter never blocks and is verified for every clock value.
use vstd::prelude::*;

verus! {

/// Nanoseconds per second, the length of the rolling window.
pub const NANOS_PER_SEC: u64 = 1_000_000_000;

/// The refill interval for a given admission rate: the least number of
/// nanoseconds between two admissions such that `rate` admissions still
/// need a full second (the ceiling of one second divided by the rate).
pub open spec fn spec_interval(rate: u64) -> int {
    if rate >= NANOS_PER_SEC {
        1
    } else {
        (NANOS_PER_SEC + rate - 1) as int / rate as int
    }
}

/// The interval is long enough that `rate` admissions span a full second.
pub proof fn lemma_interval_covers_second(rate: u64)
    requires
        1 <= rate,
    ensures
        1 <= spec_interval(rate) <= NANOS_PER_SEC,
        spec_interval(rate) * rate >= NANOS_PER_SEC,
{
    if rate >= NANOS_PER_SEC {
        assert(spec_interval(rate) * rate >= NANOS_PER_SEC) by (nonlinear_arith)
            requires
                spec_interval(rate) == 1,
                rate >= NANOS_PER_SEC,
        ;
    } else {
        let a = (NANOS_PER_SEC + rate - 1) as int;
        let b = rate as int;
        vstd::arithmetic::div_mod::lemma_fundamental_div_mod(a, b);
        assert((a / b) * b == a - a % b);
        vstd::arithmetic::div_mod::lemma_mod_bound(a, b);
        assert((a / b) * b >= a - (b - 1));
        assert(a / b >= 1) by (nonlinear_arith)
            requires
                (a / b) * b >= a - (b - 1),
                a >= b >= 1,
        ;
        assert(a / b <= NANOS_PER_SEC) by {
            assert(a <= b * NANOS_PER_SEC) by (nonlinear_arith)
                requires
                    a == NANOS_PER_SEC + b - 1,
                    1 <= b,
            ;
            vstd::arithmetic::div_mod::lemma_div_is_ordered(a, b * NANOS_PER_SEC, b);
            vstd::arithmetic::div_mod::lemma_div_multiples_vanish(NANOS_PER_SEC as int, b);
        }
    }
}

/// A token-bucket rate limiter. `next_free` is the earliest instant, in
/// nanoseconds, at which the next admission may start.
pub struct RateLimiter {
    /// Nanoseconds between two admissions.
    pub interval: u64,
    /// Earliest instant at which the next acquisition is admitted.
    pub next_free: u64,
}

impl RateLimiter {
    /// The interval is positive and at most one second.
    pub open spec fn wf(self) -> bool {
        1 <= self.interval <= NANOS_PER_SEC
    }

    /// A limiter admitting `rate` request starts per second, ready at once.
    pub fn new(rate: u64) -> (r: RateLimiter)
        requires
            1 <= rate,
        ensures
            r.wf(),
            r.interval == spec_interval(rate),
            r.next_free == 0,
    {
        proof {
            lemma_interval_covers_second(rate);
        }
        let interval: u64 = if rate >= NANOS_PER_SEC {
            1
        } else {
            (NANOS_PER_SEC + rate - 1) / rate
        };
        RateLimiter { interval, next_free: 0 }
    }

    /// One gate check at clock value `now`: admitted exactly when the
    /// current interval has elapsed; an admission consumes the token and
    /// opens the next interval. A refused call changes nothing, so callers
    /// may poll again after sleeping until `next_ready`.
    pub fn try_acquire(&mut self, now: u64) -> (admitted: bool)
        requires
            old(self).wf(),
            now + old(self).interval <= u64::MAX,
        ensures
            final(self).wf(),
            final(self).interval == old(self).interval,
            admitted <==> now >= old(self).next_free,
            admitted ==> final(self).next_free == now + old(self).interval,
            !admitted ==> *final(self) == *old(self),
    {
        if now >= self.next_free {
            self.next_free = now + self.interval;
            true
        } else {
            false
        }
    }

    /// The earliest instant at which the next call to `try_acquire` admits.
    pub fn next_ready(&self) -> (t: u64)
        ensures
            t == self.next_free,
    {
        self.next_free
    }
}

/// The admission times a limiter with refill interval `interval` allows
/// when it is first ready at `next_free`: no admission comes before the
/// limiter is ready, and every admission pushes readiness one interval out.
pub open spec fn admission_trace(interval: int, next_free: int, times: Seq<int>) -> bool
    decreases times.len(),
{
    times.len() == 0 || {
        times[0] >= next_free && admission_trace(interval, times[0] + interval, times.drop_first())
    }
}

/// Consecutive admissions are at least one interval apart; in general the
/// distance grows linearly with the number of admissions in between.
pub proof fn lemma_admissions_spaced(interval: int, next_free: int, times: Seq<int>, i: int, j: int)
    requires
        admission_trace(interval, next_free, times),
        0 <= i <= j < times.len(),
    ensures
        times[j] >= times[i] + (j - i) * interval,
    decreases times.len(),
{
    if i == j {
        assert((j - i) * interval == 0);
    } else if i == 0 {
        let rest = times.drop_first();
        lemma_admissions_spaced(interval, times[0] + interval, rest, 0, j - 1);
        assert(rest[0] == times[1]);
        assert(rest[j - 1] == times[j]);
        assert(times[1] >= times[0] + interval);
        assert((j - 1) * interval + interval == j * interval) by (nonlinear_arith);
    } else {
        let rest = times.drop_first();
        lemma_admissions_spaced(interval, times[0] + interval, rest, i - 1, j - 1);
        assert(rest[i - 1] == times[i]);
        assert(rest[j - 1] == times[j]);
    }
}

/// The rolling-window bound: when `interval * rate` covers a full second,
/// any two admissions less than one second apart have fewer than `rate`
/// admissions between them, ends included — so no window of one second
/// holds more than `rate` admissions in all.
pub proof fn lemma_rate_window(
    interval: int,
    next_free: int,
    times: Seq<int>,
    rate: int,
    i: int,
    j: int,
)
    requires
        admission_trace(interval, next_free, times),
        1 <= interval,
        1 <= rate,
        interval * rate >= NANOS_PER_SEC,
        0 <= i <= j < times.len(),
        times[j] < times[i] + NANOS_PER_SEC,
    ensures
        j - i + 1 <= rate,
{
    lemma_admissions_spaced(interval, next_free, times, i, j);
    assert((j - i) * interval < NANOS_PER_SEC);
    assert(j - i < rate) by (nonlinear_arith)
        requires
            (j - i) * interval < interval * rate,
            1 <= interval,
            0 <= j - i,
    ;
}

/// How many of the admission times fall in the rolling window that starts
/// at `t` and is one second long.
pub open spec fn window_count(times: Seq<int>, t: int) -> int
    decreases times.len(),
{
    if times.len() == 0 {
        0
    } else {
        window_count(times.drop_last(), t) + if t <= times.last() < t + NANOS_PER_SEC {
            1int
        } else {
            0int
        }
    }
}

/// A window holding at least `k` admissions holds two of them, ends
/// included, at least `k` sequence positions wide apart.
proof fn lemma_window_pair(times: Seq<int>, t: int, k: int)
    requires
        1 <= k <= window_count(times, t),
    ensures
        exists|i: int, j: int|
            #![auto]
            0 <= i <= j < times.len() && t <= times[i] && times[j] < t + NANOS_PER_SEC && j - i + 1
                >= k,
    decreases times.len(),
{
    let last = times.len() - 1;
    let shorter = times.drop_last();
    if t <= times.last() < t + NANOS_PER_SEC {
        if k == 1 {
            assert(0 <= last <= last < times.len() && t <= times[last] && times[last] < t
                + NANOS_PER_SEC && last - last + 1 >= k);
        } else {
            lemma_window_pair(shorter, t, k - 1);
            let (i, j) = choose|i: int, j: int|
                #![auto]
                0 <= i <= j < shorter.len() && t <= shorter[i] && shorter[j] < t + NANOS_PER_SEC
                    && j - i + 1 >= k - 1;
            assert(0 <= i <= last <= last < times.len() && t <= times[i] && times[last] < t
                + NANOS_PER_SEC && last - i + 1 >= k);
        }
    } else {
        lemma_window_pair(shorter, t, k);
        let (i, j) = choose|i: int, j: int|
            #![auto]
            0 <= i <= j < shorter.len() && t <= shorter[i] && shorter[j] < t + NANOS_PER_SEC && j
                - i + 1 >= k;
        assert(0 <= i <= j < times.len() && t <= times[i] && times[j] < t + NANOS_PER_SEC && j - i
            + 1 >= k);
    }
}

/// The headline bound: a limiter whose interval covers a full second when
/// multiplied by `rate` never admits more than `rate` acquisitions within
/// any rolling one-second window, wherever the window starts.
pub proof fn lemma_no_window_exceeds_rate(
    interval: int,
    next_free: int,
    times: Seq<int>,
    rate: int,
    t: int,
)
    requires
        admission_trace(interval, next_free, times),
        1 <= interval,
        1 <= rate,
        interval * rate >= NANOS_PER_SEC,
    ensures
        window_count(times, t) <= rate,
{
    if window_count(times, t) > rate {
        lemma_window_pair(times, t, rate + 1);
        let (i, j) = choose|i: int, j: int|
            #![auto]
            0 <= i <= j < times.len() && t <= times[i] && times[j] < t + NANOS_PER_SEC && j - i + 1
                >= rate + 1;
        lemma_rate_window(interval, next_free, times, rate, i, j);
        assert(false);
    }
}

} // verus!
