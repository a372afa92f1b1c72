//! The reception engine's verified half: the point-in-time stats snapshot
//! that the periodic reporter derives from the shared counters.
//!
//! The receive loop itself blocks on a socket and lives outside the
//! library; it counts each datagram with [`crate::stats::Stats::record`]
//! semantics. The reporter reads the counters once a second, and emits a
//! sample only once some whole second has elapsed, so the throughput
//! division never sees a zero denominator.

use vstd::prelude::*;
use crate::stats::mbps_hundredths;
use crate::stats::mbps_hundredths_spec;

verus! {

/// One emitted sample: a snapshot of the counters with its derived
/// throughput. Pure data; formatting and printing stay outside the library.
#[derive(Clone, Copy, Debug, PartialEq, Eq, Structural)]
pub struct Stats {
    /// Whole seconds elapsed since reception started.
    pub elapsed_secs: u64,
    /// Packets received so far.
    pub packets: u64,
    /// Bytes received so far.
    pub bytes: u64,
    /// Throughput in hundredths of a megabit per second; zero when
    /// `elapsed_secs` is zero, where the formula is not evaluated.
    pub mbps_hundredths: u64,
}

/// The snapshot derived from a counter read, as a value.
pub open spec fn stats_spec(elapsed_secs: u64, packets: u64, bytes: u64) -> Stats {
    Stats {
        elapsed_secs,
        packets,
        bytes,
        mbps_hundredths: if elapsed_secs == 0 {
            0
        } else {
            mbps_hundredths_spec(bytes, elapsed_secs) as u64
        },
    }
}

impl Stats {
    /// Builds the snapshot for one counter read: a pure function of
    /// `(elapsed_secs, packets, bytes)`. With zero elapsed time the
    /// throughput field is the zero sentinel, never a division by zero.
    pub fn new(elapsed_secs: u64, packets: u64, bytes: u64) -> (s: Stats)
        ensures
            s == stats_spec(elapsed_secs, packets, bytes),
    {
        Stats {
            elapsed_secs,
            packets,
            bytes,
            mbps_hundredths: mbps_hundredths(bytes, elapsed_secs),
        }
    }
}

/// The reporter's sampling decision: a sample is emitted exactly when some
/// time has elapsed, and it is the pure snapshot of the counter read; at
/// zero elapsed time no sample exists, so the throughput formula is never
/// evaluated there.
pub fn sample(elapsed_secs: u64, packets: u64, bytes: u64) -> (r: Option<Stats>)
    ensures
        r is Some <==> elapsed_secs > 0,
        elapsed_secs > 0 ==> r == Some(stats_spec(elapsed_secs, packets, bytes)),
{
    if elapsed_secs == 0 {
        None
    } else {
        Some(Stats::new(elapsed_secs, packets, bytes))
    }
}

} // verus!
