//! The counter pair updated from the hot path, and the pure stats
//! aggregator that derives throughput from a snapshot of it.
//!
//! The two counters (packets, bytes) are updated independently; no
//! cross-counter atomicity is promised, only that each increment lands
//! exactly once. Throughput is carried in hundredths of a megabit per
//! second, so that `mbps_hundredths == (bytes * 8 * 100) / (elapsed * 10^6)`
//! holds exactly over the integers.

use vstd::prelude::*;

verus! {

/// The counter pair: packets seen and bytes seen. One instance is shared by
/// all hot-path writers of an engine run and read by its low-frequency
/// reporter; outside the library the increments are atomic with relaxed
/// ordering, which changes nothing about what each increment adds.
#[derive(Clone, Copy, Debug, PartialEq, Eq, Structural)]
pub struct Stats {
    /// Packets counted so far.
    pub packets: u64,
    /// Bytes counted so far.
    pub bytes: u64,
}

/// Throughput of `bytes` bytes over `elapsed_secs` seconds, in hundredths
/// of a megabit per second: `(bytes * 8 * 100) / (elapsed_secs * 10^6)`,
/// rounded toward zero.
pub open spec fn mbps_hundredths_spec(bytes: u64, elapsed_secs: u64) -> int
    recommends
        elapsed_secs > 0,
{
    (bytes * 800) / (elapsed_secs * 1_000_000)
}

/// Derived metrics for one counter snapshot: what the reporter emits.
#[derive(Clone, Copy, Debug, PartialEq, Eq, Structural)]
pub struct Report {
    /// Seconds elapsed since the run started, at the moment of the snapshot.
    pub elapsed_secs: u64,
    /// Packets counted at the moment of the snapshot.
    pub packets: u64,
    /// Bytes counted at the moment of the snapshot.
    pub bytes: u64,
    /// Throughput in hundredths of a megabit per second; zero when
    /// `elapsed_secs` is zero, where the formula is not evaluated.
    pub mbps_hundredths: u64,
}

/// The report derived from a snapshot, as a value: the aggregator is a pure
/// function of `(elapsed_secs, packets, bytes)` and nothing else.
pub open spec fn report_spec(elapsed_secs: u64, packets: u64, bytes: u64) -> Report {
    Report {
        elapsed_secs,
        packets,
        bytes,
        mbps_hundredths: if elapsed_secs == 0 {
            0
        } else {
            mbps_hundredths_spec(bytes, elapsed_secs) as u64
        },
    }
}

/// The throughput value fits in a `u64`: dividing by at least a million
/// shrinks `bytes * 800` below `u64::MAX`.
proof fn lemma_mbps_fits(bytes: u64, elapsed_secs: u64)
    requires
        elapsed_secs > 0,
    ensures
        0 <= mbps_hundredths_spec(bytes, elapsed_secs) <= u64::MAX,
{
    let num = bytes * 800;
    let den = elapsed_secs * 1_000_000;
    assert(den >= 1_000_000) by (nonlinear_arith)
        requires
            elapsed_secs >= 1,
            den == elapsed_secs * 1_000_000,
    ;
    vstd::arithmetic::div_mod::lemma_div_is_ordered_by_denominator(num, 1_000_000, den);
    vstd::arithmetic::div_mod::lemma_div_is_ordered(num, u64::MAX * 800, 1_000_000);
    vstd::arithmetic::div_mod::lemma_div_pos_is_pos(num, den);
}

/// Throughput in hundredths of a megabit per second, or zero when no time
/// has elapsed: the division is never evaluated with a zero denominator.
pub fn mbps_hundredths(bytes: u64, elapsed_secs: u64) -> (r: u64)
    ensures
        elapsed_secs == 0 ==> r == 0,
        elapsed_secs > 0 ==> r == mbps_hundredths_spec(bytes, elapsed_secs),
{
    if elapsed_secs == 0 {
        return 0;
    }
    let num: u128 = (bytes as u128) * 800;
    let den: u128 = (elapsed_secs as u128) * 1_000_000;
    let q: u128 = num / den;
    proof {
        lemma_mbps_fits(bytes, elapsed_secs);
    }
    q as u64
}

impl Stats {
    /// A fresh counter pair, both counters at zero. The engine creates one
    /// per run; the run's start instant is kept by the caller, which hands
    /// elapsed seconds back in when a report is derived.
    pub fn new() -> (s: Stats)
        ensures
            s.packets == 0,
            s.bytes == 0,
    {
        Stats { packets: 0, bytes: 0 }
    }

    /// Counts one packet of `packet_size` bytes: the packet counter grows by
    /// one and the byte counter by the packet's size, exactly.
    pub fn record(&mut self, packet_size: usize)
        requires
            old(self).packets < u64::MAX,
            old(self).bytes + packet_size <= u64::MAX,
        ensures
            final(self).packets == old(self).packets + 1,
            final(self).bytes == old(self).bytes + packet_size,
    {
        self.packets = self.packets + 1;
        self.bytes = self.bytes + packet_size as u64;
    }

    /// Derives the report for this counter pair after `elapsed_secs`
    /// seconds: a pure function of the snapshot, evaluated off the hot path.
    pub fn report(&self, elapsed_secs: u64) -> (r: Report)
        ensures
            r == report_spec(elapsed_secs, self.packets, self.bytes),
    {
        Report {
            elapsed_secs,
            packets: self.packets,
            bytes: self.bytes,
            mbps_hundredths: mbps_hundredths(self.bytes, elapsed_secs),
        }
    }
}

/// The aggregator is idempotent: two reports derived from the same
/// immutable snapshot are identical, because each equals the pure function
/// of the snapshot and of nothing else.
pub proof fn lemma_report_idempotent(r1: Report, r2: Report, elapsed_secs: u64, packets: u64, bytes: u64)
    requires
        r1 == report_spec(elapsed_secs, packets, bytes),
        r2 == report_spec(elapsed_secs, packets, bytes),
    ensures
        r1 == r2,
{
}

/// The packet counter after a sequence of increments has been applied to
/// `start`, in the order the sequence gives; each element is one
/// increment's amount.
pub open spec fn counter_after(start: int, increments: Seq<u64>) -> int
    decreases increments.len(),
{
    if increments.len() == 0 {
        start
    } else {
        counter_after(start + increments[0], increments.drop_first())
    }
}

/// A run of unit increments adds exactly its length, whatever order the
/// scheduler interleaved them in: any interleaving of the workers' unit
/// increments is such a sequence.
pub proof fn lemma_unit_increments(start: int, increments: Seq<u64>)
    requires
        forall|i: int| 0 <= i < increments.len() ==> increments[i] == 1,
    ensures
        counter_after(start, increments) == start + increments.len(),
    decreases increments.len(),
{
    if increments.len() > 0 {
        lemma_unit_increments(start + increments[0], increments.drop_first());
    }
}

/// Concurrent-increment correctness: when `n` workers each add one to the
/// counter `m` times, the counter ends at exactly `start + n * m`,
/// regardless of how the `n * m` unit increments were interleaved.
pub proof fn lemma_concurrent_increments(start: int, increments: Seq<u64>, n: nat, m: nat)
    requires
        increments.len() == n * m,
        forall|i: int| 0 <= i < increments.len() ==> increments[i] == 1,
    ensures
        counter_after(start, increments) == start + n * m,
{
    lemma_unit_increments(start, increments);
}

} // verus!
