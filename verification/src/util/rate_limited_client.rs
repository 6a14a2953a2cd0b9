//! Pacing requests to an HTTP API that limits their rate: a failed send is
//! retried with a doubling delay, and when the server says that fewer than
//! two requests are left, the next send waits until the limit resets.
//!
//! Times are milliseconds since the Unix epoch; sending and sleeping are
//! left to the caller.

use vstd::prelude::*;

verus! {

/// The first delay before a retry, in milliseconds.
pub const INIT_RETRY_DELAY_MS: u64 = 50;

/// A send is given up once the delay exceeds this many seconds.
pub const MAX_RETRY_DELAY_SEC: u64 = 60;

/// The wait, in seconds, when the reset time is already past.
pub const MIN_RATE_LIMIT_SEC: u64 = 60;

/// The number that decimal text stands for: one or more ASCII digits,
/// after an optional `+`; `None` for anything else or a number that does
/// not fit in a `u64`.
pub open spec fn decimal_value(s: Seq<u8>) -> int
    decreases s.len(),
{
    if s.len() == 0 {
        0
    } else {
        decimal_value(s.drop_last()) * 10 + (s.last() - 48)
    }
}

pub open spec fn all_digits(s: Seq<u8>) -> bool {
    forall|i: int| 0 <= i < s.len() ==> 48 <= #[trigger] s[i] <= 57
}

pub open spec fn spec_parse_u64(s: Seq<u8>) -> Option<u64> {
    let digits = if s.len() > 0 && s[0] == 43 {
        s.drop_first()
    } else {
        s
    };
    if digits.len() > 0 && all_digits(digits) && decimal_value(digits) <= u64::MAX {
        Some(decimal_value(digits) as u64)
    } else {
        None
    }
}

/// Decimal text never stands for a negative number.
proof fn lemma_decimal_nonneg(s: Seq<u8>)
    requires
        all_digits(s),
    ensures
        decimal_value(s) >= 0,
    decreases s.len(),
{
    if s.len() > 0 {
        assert(all_digits(s.drop_last()));
        lemma_decimal_nonneg(s.drop_last());
        assert(48 <= s[s.len() - 1]);
    }
}

/// A prefix of decimal text stands for a number no larger than the whole.
proof fn lemma_decimal_prefix_le(s: Seq<u8>, k: int)
    requires
        all_digits(s),
        0 <= k <= s.len(),
    ensures
        decimal_value(s.take(k)) <= decimal_value(s),
    decreases s.len(),
{
    if k == s.len() {
        assert(s.take(k) =~= s);
    } else {
        assert(all_digits(s.drop_last()));
        lemma_decimal_prefix_le(s.drop_last(), k);
        assert(s.drop_last().take(k) =~= s.take(k));
        lemma_decimal_nonneg(s.drop_last());
        assert(48 <= s[s.len() - 1]);
    }
}

/// Reads a header value the way `str::parse::<u64>` reads its text (bytes
/// that are not UTF-8 are no digit either): an optional `+` and one or more
/// ASCII digits whose number fits in a `u64`.
fn parse_u64_header(value: &[u8]) -> (r: Option<u64>)
    ensures
        r == spec_parse_u64(value@),
{
    let start: usize = if value.len() > 0 && value[0] == 43 {
        1
    } else {
        0
    };
    let ghost digits = value@.subrange(start as int, value@.len() as int);
    proof {
        if start == 1 {
            assert(digits =~= value@.drop_first());
        } else {
            assert(digits =~= value@);
        }
    }
    if start >= value.len() {
        return None;
    }
    let mut n: u64 = 0;
    let mut i: usize = start;
    proof {
        assert(value@.subrange(start as int, i as int) =~= Seq::<u8>::empty());
    }
    while i < value.len()
        invariant
            start <= i <= value@.len(),
            digits == value@.subrange(start as int, value@.len() as int),
            (value@.len() > 0 && value@[0] == 43) ==> start == 1 && digits == value@.drop_first(),
            !(value@.len() > 0 && value@[0] == 43) ==> start == 0 && digits == value@,
            all_digits(value@.subrange(start as int, i as int)),
            n == decimal_value(value@.subrange(start as int, i as int)),
        decreases value.len() - i,
    {
        let c = value[i];
        let ghost pre = value@.subrange(start as int, i as int);
        let ghost next = value@.subrange(start as int, i + 1);
        proof {
            assert(next.drop_last() =~= pre);
            assert(next.last() == c);
            assert(digits[i - start] == c);
        }
        if c < 48 || c > 57 {
            proof {
                assert(!(48 <= digits[i - start] <= 57));
            }
            return None;
        }
        let d: u64 = (c - 48) as u64;
        if n > (u64::MAX - d) / 10 {
            proof {
                assert(n * 10 + d > u64::MAX) by (nonlinear_arith)
                    requires
                        n > (u64::MAX - d) / 10,
                        d <= 9,
                ;
                assert(decimal_value(next) == n * 10 + d);
                if all_digits(digits) {
                    assert(digits.take(i + 1 - start) =~= next);
                    lemma_decimal_prefix_le(digits, i + 1 - start);
                }
            }
            return None;
        }
        proof {
            assert(n * 10 + d <= u64::MAX) by (nonlinear_arith)
                requires
                    n <= (u64::MAX - d) / 10,
                    d <= 9,
            ;
            assert forall|j: int| 0 <= j < next.len() implies 48 <= #[trigger] next[j] <= 57 by {
                if j < pre.len() {
                    assert(next[j] == pre[j]);
                }
            }
        }
        n = n * 10 + d;
        i = i + 1;
    }
    proof {
        assert(value@.subrange(start as int, i as int) =~= digits);
    }
    Some(n)
}

/// When the rate limit lifts, if the server said so.
pub struct RateLimiter {
    pub rate_limit_until: Option<u64>,
}

/// How long to wait before sending: nothing without a limit; else the time
/// since the limit's end, or the minimum wait while it is still on.
pub open spec fn spec_wait_before_send(until: Option<u64>, now: u64) -> int {
    match until {
        None => 0,
        Some(u) => if now >= u {
            now - u
        } else {
            MIN_RATE_LIMIT_SEC * 1000
        },
    }
}

/// `x`, or the largest `u64` when `x` is larger: times too far off to be
/// written in milliseconds are as far off as can be written.
pub open spec fn saturated(x: int) -> int {
    if x > u64::MAX {
        u64::MAX as int
    } else {
        x
    }
}

/// When the limit lifts after a response with the given
/// `X-RateLimit-Remaining` and `X-RateLimit-Reset` headers: only when fewer
/// than two requests remain and the reset time is given; an unreadable
/// reset time counts as the epoch, and a past one means the minimum wait;
/// a time past the largest `u64` of milliseconds is that largest one.
pub open spec fn spec_limit_after(remaining: Option<Seq<u8>>, reset: Option<Seq<u8>>, now: u64) -> Option<int> {
    match remaining {
        Some(r) => if spec_parse_u64(r) matches Some(n) && n < 2 {
            match reset {
                Some(t) => {
                    let until = match spec_parse_u64(t) {
                        Some(x) => saturated(x * 1000),
                        None => 0,
                    };
                    if now > until {
                        Some(saturated(now + MIN_RATE_LIMIT_SEC * 1000))
                    } else {
                        Some(until)
                    }
                },
                None => None,
            }
        } else {
            None
        },
        None => None,
    }
}

impl RateLimiter {
    /// No limit known.
    pub fn new() -> (r: RateLimiter)
        ensures
            r.rate_limit_until is None,
    {
        RateLimiter { rate_limit_until: None }
    }

    /// How many milliseconds to sleep before sending; the limit is then
    /// forgotten.
    pub fn wait_before_send(&mut self, now: u64) -> (r: u64)
        ensures
            r == spec_wait_before_send(old(self).rate_limit_until, now),
            final(self).rate_limit_until is None,
    {
        let r = match self.rate_limit_until {
            None => 0,
            Some(u) => if now >= u {
                now - u
            } else {
                MIN_RATE_LIMIT_SEC * 1000
            },
        };
        self.rate_limit_until = None;
        r
    }

    /// The delay before the next attempt after a send failed following a
    /// wait of `delay` milliseconds: twice as long, or `None` to give up
    /// once the wait was over the maximum.
    pub fn next_retry_delay(delay: u64) -> (r: Option<u64>)
        requires
            delay <= u64::MAX / 2,
        ensures
            delay / 1000 > MAX_RETRY_DELAY_SEC ==> r is None,
            delay / 1000 <= MAX_RETRY_DELAY_SEC ==> r == Some((2 * delay) as u64),
    {
        if delay / 1000 > MAX_RETRY_DELAY_SEC {
            None
        } else {
            Some(delay * 2)
        }
    }

    /// Take note of the rate-limit headers of a response (each the raw
    /// value, when present); see [`spec_limit_after`].
    pub fn record_response(&mut self, remaining: Option<&[u8]>, reset: Option<&[u8]>, now: u64)
        requires
            remaining matches Some(r) ==> spec_parse_u64(r@) is Some,
        ensures
            match spec_limit_after(
                match remaining {
                    Some(r) => Some(r@),
                    None => None,
                },
                match reset {
                    Some(t) => Some(t@),
                    None => None,
                },
                now,
            ) {
                Some(u) => final(self).rate_limit_until == Some(u as u64),
                None => final(self).rate_limit_until == old(self).rate_limit_until,
            },
    {
        let delayed = match remaining {
            Some(r) => match parse_u64_header(r) {
                Some(n) => n < 2,
                None => false,
            },
            None => false,
        };
        if delayed {
            match reset {
                Some(t) => {
                    let until = match parse_u64_header(t) {
                        Some(x) => match x.checked_mul(1000) {
                            Some(ms) => ms,
                            None => u64::MAX,
                        },
                        None => 0,
                    };
                    if now > until {
                        self.rate_limit_until = Some(now.saturating_add(MIN_RATE_LIMIT_SEC * 1000));
                    } else {
                        self.rate_limit_until = Some(until);
                    }
                },
                None => {},
            }
        }
    }
}

} // verus!
