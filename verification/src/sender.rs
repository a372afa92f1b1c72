//! The transmission engine's verified half: pacing arithmetic, payload
//! construction, the paced worker loop as a function of its send
//! latencies, and the final summary.
//!
//! The engine outside the library resolves the target, shares one socket
//! among the workers, holds them at a rendezvous barrier, and runs each
//! worker's timed loop; every decision that loop takes — whether to keep
//! sending, and how long to sleep after a send — is computed here. When the
//! duration expires the engine sums the workers' counts and builds the
//! summary here.

use vstd::prelude::*;
use vstd::arithmetic::div_mod::lemma_div_by_multiple;
use vstd::arithmetic::div_mod::lemma_div_is_ordered;
use vstd::arithmetic::div_mod::lemma_fundamental_div_mod;
use vstd::arithmetic::div_mod::lemma_mod_bound;
use crate::stats::mbps_hundredths;
use crate::stats::mbps_hundredths_spec;

verus! {

/// Nanoseconds in one second: the unit the pacing period is expressed in.
pub const NANOS_PER_SEC: u64 = 1_000_000_000;

/// A worker's pacing period in nanoseconds: one second divided by its
/// sub-rate, rounded down. A sub-rate above one packet per nanosecond
/// floors to a period of zero, meaning no pacing at all.
pub fn period_nanos(per_rate: u64) -> (r: u64)
    requires
        per_rate >= 1,
    ensures
        r == NANOS_PER_SEC as int / per_rate as int,
        per_rate <= NANOS_PER_SEC ==> r >= 1,
{
    proof {
        if per_rate <= NANOS_PER_SEC {
            lemma_fundamental_div_mod(NANOS_PER_SEC as int, per_rate as int);
            lemma_mod_bound(NANOS_PER_SEC as int, per_rate as int);
            let q = NANOS_PER_SEC as int / per_rate as int;
            if q < 1 {
                assert(per_rate * q <= 0) by (nonlinear_arith)
                    requires
                        q <= 0,
                        per_rate >= 1,
                ;
            }
        }
    }
    NANOS_PER_SEC / per_rate
}

/// How long a worker sleeps after a send: the remainder of its pacing
/// period once the send's own latency is taken off, and nothing (rather
/// than a negative time) when the send overran the period.
pub fn pacing_delay(period_nanos: u64, send_elapsed_nanos: u64) -> (r: u64)
    ensures
        send_elapsed_nanos <= period_nanos ==> r == period_nanos - send_elapsed_nanos,
        send_elapsed_nanos > period_nanos ==> r == 0,
{
    if send_elapsed_nanos <= period_nanos {
        period_nanos - send_elapsed_nanos
    } else {
        0
    }
}

/// The worker loop's cancellation test, taken once per iteration: keep
/// sending exactly while the elapsed wall-clock seconds are below the
/// configured duration.
pub fn should_continue(elapsed_secs: u64, duration_secs: u64) -> (r: bool)
    ensures
        r == (elapsed_secs < duration_secs),
{
    elapsed_secs < duration_secs
}

/// Relies on rand::Rng::fill on a byte slice, with the thread-local
/// generator of rand::thread_rng: it overwrites the slice in place with
/// random bytes and cannot change its length. The contents are random, so
/// nothing is promised of them.
#[verifier::external_body]
fn fill_random(buf: &mut Vec<u8>)
    ensures
        final(buf)@.len() == old(buf)@.len(),
{
    rand::Rng::fill(&mut rand::thread_rng(), buf.as_mut_slice());
}

/// A worker's payload, generated once before its timed loop and immutable
/// afterwards: `size` zero bytes, or `size` random bytes when the random
/// mode is requested. The hot loop never regenerates it.
pub fn make_payload(size: usize, random_payload: bool) -> (p: Vec<u8>)
    ensures
        p@.len() == size,
        !random_payload ==> forall|i: int| 0 <= i < size ==> p@[i] == 0,
{
    let mut p: Vec<u8> = Vec::new();
    let mut i: usize = 0;
    while i < size
        invariant
            i <= size,
            p@.len() == i,
            forall|j: int| 0 <= j < i ==> p@[j] == 0,
        decreases size - i,
    {
        p.push(0u8);
        i = i + 1;
    }
    if random_payload {
        fill_random(&mut p);
    }
    p
}

/// The paced worker loop, run against a schedule of send latencies:
/// `latencies[i]` is how long the `i`-th send took, and a send beyond the
/// schedule takes no time. Each iteration sends once, then sleeps for the
/// remainder of the period, so when every send completes within its period
/// each iteration advances the clock by exactly one period. The count of
/// sends then lands where open-loop pacing puts it: enough iterations to
/// cover the duration, with all but the last send strictly inside it.
pub fn paced_send_count(period_nanos: u64, duration_nanos: u64, latencies: &Vec<u64>) -> (sent:
    u64)
    requires
        period_nanos >= 1,
        duration_nanos <= u64::MAX - period_nanos,
        forall|i: int| 0 <= i < latencies@.len() ==> latencies@[i] <= period_nanos,
    ensures
        duration_nanos == 0 ==> sent == 0,
        sent * period_nanos >= duration_nanos,
        sent > 0 ==> (sent - 1) * period_nanos < duration_nanos,
{
    let mut elapsed: u64 = 0;
    let mut sent: u64 = 0;
    let mut i: usize = 0;
    while elapsed < duration_nanos
        invariant
            elapsed == sent * period_nanos,
            sent > 0 ==> (sent - 1) * period_nanos < duration_nanos,
            period_nanos >= 1,
            duration_nanos <= u64::MAX - period_nanos,
            forall|k: int| 0 <= k < latencies@.len() ==> latencies@[k] <= period_nanos,
            elapsed <= duration_nanos + period_nanos,
        decreases duration_nanos + period_nanos - elapsed,
    {
        let send_latency: u64 = if i < latencies.len() {
            let l = latencies[i];
            i = i + 1;
            l
        } else {
            0
        };
        let delay = pacing_delay(period_nanos, send_latency);
        proof {
            assert((sent + 1) * period_nanos == sent * period_nanos + period_nanos)
                by (nonlinear_arith);
            assert(sent * period_nanos >= sent) by (nonlinear_arith)
                requires
                    period_nanos >= 1,
                    sent >= 0,
            ;
        }
        sent = sent + 1;
        elapsed = elapsed + send_latency + delay;
    }
    sent
}

/// Paced send-count law: a worker pacing to a sub-rate of `per_rate`
/// packets per second, with period `floor(10^9 / per_rate)` nanoseconds,
/// whose every send completes within its period, sends at least
/// `per_rate * duration_secs` packets over the duration, and exceeds the
/// ideal count `duration_nanos / period` by at most one — the jitter of a
/// single pacing interval. The excess of the lower bound over
/// `per_rate * duration_secs` itself is the drift of the floored period,
/// the documented open-loop approximation.
pub proof fn lemma_paced_rate(
    per_rate: u64,
    period_nanos: u64,
    duration_secs: u64,
    duration_nanos: u64,
    sent: u64,
)
    requires
        per_rate >= 1,
        period_nanos == NANOS_PER_SEC as int / per_rate as int,
        period_nanos >= 1,
        duration_nanos == duration_secs * NANOS_PER_SEC,
        sent * period_nanos >= duration_nanos,
        sent > 0 ==> (sent - 1) * period_nanos < duration_nanos,
    ensures
        sent >= per_rate * duration_secs,
        sent <= duration_nanos as int / period_nanos as int + 1,
{
    let p = period_nanos as int;
    let giga = NANOS_PER_SEC as int;
    lemma_fundamental_div_mod(giga, per_rate as int);
    lemma_mod_bound(giga, per_rate as int);
    assert(per_rate * p <= giga);
    assert(duration_nanos >= duration_secs * (per_rate * p)) by (nonlinear_arith)
        requires
            per_rate * p <= giga,
            duration_nanos == duration_secs * giga,
            duration_secs >= 0,
    ;
    assert(sent >= per_rate * duration_secs) by (nonlinear_arith)
        requires
            sent * p >= duration_secs * (per_rate * p),
            p >= 1,
            sent >= 0,
            per_rate >= 0,
            duration_secs >= 0,
    ;
    if sent > 0 {
        assert((sent - 1) * p <= duration_nanos);
        lemma_div_is_ordered((sent - 1) * p, duration_nanos as int, p);
        lemma_div_by_multiple(sent - 1, p);
        assert(sent - 1 <= duration_nanos as int / p);
    }
}

/// The final summary of one transmission run: the summed worker counts with
/// the totals derived from them.
#[derive(Clone, Copy, Debug, PartialEq, Eq, Structural)]
pub struct Summary {
    /// Packets sent over the whole run, summed over all workers.
    pub packets: u64,
    /// Bytes sent over the whole run: exactly `packets * size`.
    pub bytes: u64,
    /// The configured wall-clock duration of the run, in seconds.
    pub duration_secs: u64,
    /// Throughput in hundredths of a megabit per second; zero when the
    /// duration is zero, where the formula is not evaluated.
    pub mbps_hundredths: u64,
}

/// Sums the per-worker send counts into the run total, reporting any count
/// that would not fit rather than wrapping.
pub fn total_sent(counts: &Vec<u64>) -> (r: Option<u64>)
    ensures
        match r {
            Some(t) => t == sum_of(counts@),
            None => sum_of(counts@) > u64::MAX,
        },
{
    let mut total: u64 = 0;
    let mut i: usize = 0;
    while i < counts.len()
        invariant
            i <= counts@.len(),
            total == sum_of(counts@.take(i as int)),
        decreases counts@.len() - i,
    {
        proof {
            assert(counts@.take(i + 1).drop_last() == counts@.take(i as int));
            lemma_sum_of_nonnegative(counts@.take(i + 1).drop_last());
        }
        let c = counts[i];
        if c > u64::MAX - total {
            proof {
                lemma_sum_of_prefix_bound(counts@, i + 1);
                assert(counts@.take(i + 1).last() == counts@[i as int]);
            }
            return None;
        }
        total = total + c;
        i = i + 1;
    }
    proof {
        assert(counts@.take(counts@.len() as int) == counts@);
    }
    Some(total)
}

/// The sum of a sequence of counts.
pub open spec fn sum_of(s: Seq<u64>) -> int
    decreases s.len(),
{
    if s.len() == 0 {
        0
    } else {
        sum_of(s.drop_last()) + s.last()
    }
}

/// A sum of counts is never negative.
proof fn lemma_sum_of_nonnegative(s: Seq<u64>)
    ensures
        sum_of(s) >= 0,
    decreases s.len(),
{
    if s.len() > 0 {
        lemma_sum_of_nonnegative(s.drop_last());
    }
}

/// Dropping elements from the end never increases a sum of counts.
proof fn lemma_sum_of_prefix_bound(s: Seq<u64>, i: int)
    requires
        0 <= i <= s.len(),
    ensures
        sum_of(s) >= sum_of(s.take(i)),
    decreases s.len() - i,
{
    if i < s.len() {
        lemma_sum_of_prefix_bound(s, i + 1);
        assert(s.take(i + 1).drop_last() == s.take(i));
        assert(sum_of(s.take(i + 1)) == sum_of(s.take(i)) + s[i]);
    } else {
        assert(s.take(i) == s);
    }
}

/// Builds the run's final summary: the byte total is exactly the packet
/// total times the packet size, and the throughput is derived from that
/// byte total over the configured duration — with the zero sentinel, never
/// a division by zero, when the duration is zero.
pub fn summarize(total_sent: u64, size: usize, duration_secs: u64) -> (s: Summary)
    requires
        total_sent * size <= u64::MAX,
    ensures
        s.packets == total_sent,
        s.bytes == total_sent * size,
        s.duration_secs == duration_secs,
        duration_secs == 0 ==> s.mbps_hundredths == 0,
        duration_secs > 0 ==> s.mbps_hundredths == mbps_hundredths_spec(
            (total_sent * size) as u64,
            duration_secs,
        ),
{
    let bytes: u64 = total_sent * (size as u64);
    Summary {
        packets: total_sent,
        bytes,
        duration_secs,
        mbps_hundredths: mbps_hundredths(bytes, duration_secs),
    }
}

} // verus!
