//! End-to-end checks of the library's arithmetic on concrete values:
//! rate splitting, pacing, payloads, counters and derived throughput.

use udp_bench::config::ConfigError;
use udp_bench::config::SendConfig;
use udp_bench::config::per_worker_rate;
use udp_bench::receiver;
use udp_bench::sender::Summary;
use udp_bench::sender::make_payload;
use udp_bench::sender::paced_send_count;
use udp_bench::sender::pacing_delay;
use udp_bench::sender::period_nanos;
use udp_bench::sender::should_continue;
use udp_bench::sender::summarize;
use udp_bench::sender::total_sent;
use udp_bench::stats::Stats;
use udp_bench::stats::mbps_hundredths;

#[test]
fn rate_splits_by_floor() {
    assert_eq!(per_worker_rate(10000, 4), 2500);
    assert_eq!(per_worker_rate(10, 3), 3);
    assert_eq!(per_worker_rate(7, 7), 1);
    // Sum of per-worker rates never exceeds the requested aggregate rate.
    assert!(3 * per_worker_rate(10, 3) <= 10);
    assert!(4 * per_worker_rate(10003, 4) <= 10003);
}

#[test]
fn config_validation() {
    let good = SendConfig { size: 1400, rate: 10000, duration: 30, concurrency: 4, random_payload: false };
    assert_eq!(good.validate(), Ok(()));

    let zero_workers = SendConfig { concurrency: 0, ..good };
    assert_eq!(zero_workers.validate(), Err(ConfigError::ZeroConcurrency));
}

#[test]
fn concurrency_above_rate_is_rejected() {
    // Boundary: more workers than packets per second would floor the
    // per-worker rate to zero; the engine rejects the configuration
    // instead of dividing by zero.
    let cfg = SendConfig { size: 100, rate: 3, duration: 1, concurrency: 5, random_payload: false };
    assert_eq!(cfg.validate(), Err(ConfigError::RateBelowConcurrency));
}

#[test]
fn pacing_period_and_delay() {
    assert_eq!(period_nanos(1000), 1_000_000);
    assert_eq!(period_nanos(3), 333_333_333);
    assert_eq!(period_nanos(1), 1_000_000_000);
    assert_eq!(pacing_delay(1_000_000, 300_000), 700_000);
    assert_eq!(pacing_delay(1_000_000, 1_500_000), 0);
    assert!(should_continue(29, 30));
    assert!(!should_continue(30, 30));
}

#[test]
fn zero_payload_is_zero() {
    let p = make_payload(16, false);
    assert_eq!(p.len(), 16);
    assert!(p.iter().all(|b| *b == 0));
}

#[test]
fn random_payload_has_requested_size() {
    let p = make_payload(64, true);
    assert_eq!(p.len(), 64);
    // 64 random bytes are all zero with probability 2^-512: a payload left
    // unfilled would fail here.
    assert!(p.iter().any(|b| *b != 0));
}

#[test]
fn empty_payload() {
    assert_eq!(make_payload(0, false).len(), 0);
    assert_eq!(make_payload(0, true).len(), 0);
}

#[test]
fn paced_count_matches_rate_times_duration() {
    // Ideal sends (no latency recorded) at 1000 packets per second for two
    // seconds: exactly 2000 sends.
    let latencies: Vec<u64> = Vec::new();
    let sent = paced_send_count(1_000_000, 2_000_000_000, &latencies);
    assert_eq!(sent, 2000);
}

#[test]
fn paced_count_with_send_latency() {
    // Every send takes part of its period; the sleep absorbs the
    // difference, so the count is unchanged.
    let latencies: Vec<u64> = vec![400_000; 2000];
    let sent = paced_send_count(1_000_000, 2_000_000_000, &latencies);
    assert_eq!(sent, 2000);
}

#[test]
fn paced_count_zero_duration() {
    let latencies: Vec<u64> = Vec::new();
    assert_eq!(paced_send_count(1_000_000, 0, &latencies), 0);
}

#[test]
fn send_scenario_one_worker() {
    // size=1000, rate=1000, duration=2, concurrency=1: about 2000 packets,
    // 2_000_000 bytes, 8.00 Mbps.
    let cfg = SendConfig { size: 1000, rate: 1000, duration: 2, concurrency: 1, random_payload: false };
    assert_eq!(cfg.validate(), Ok(()));
    let per_rate = per_worker_rate(cfg.rate, cfg.concurrency);
    assert_eq!(per_rate, 1000);
    let period = period_nanos(per_rate);
    let latencies: Vec<u64> = Vec::new();
    let sent = paced_send_count(period, cfg.duration * 1_000_000_000, &latencies);
    assert_eq!(sent, 2000);
    let counts = vec![sent];
    let total = total_sent(&counts).unwrap();
    let summary = summarize(total, cfg.size, cfg.duration);
    assert_eq!(
        summary,
        Summary { packets: 2000, bytes: 2_000_000, duration_secs: 2, mbps_hundredths: 800 }
    );
}

#[test]
fn summary_bytes_are_packets_times_size() {
    let s = summarize(12345, 1400, 30);
    assert_eq!(s.bytes, 12345 * 1400);
    assert_eq!(s.packets, 12345);
    let s0 = summarize(0, 1400, 30);
    assert_eq!(s0.bytes, 0);
}

#[test]
fn summary_zero_duration_uses_sentinel() {
    let s = summarize(500, 100, 0);
    assert_eq!(s.mbps_hundredths, 0);
    assert_eq!(s.bytes, 50_000);
}

#[test]
fn total_sent_sums_and_reports_overflow() {
    assert_eq!(total_sent(&vec![1, 2, 3]), Some(6));
    assert_eq!(total_sent(&Vec::new()), Some(0));
    assert_eq!(total_sent(&vec![u64::MAX, 1]), None);
}

#[test]
fn throughput_formula_exact() {
    // 2_000_000 bytes over 2 seconds: 16_000_000 bits over 2_000_000
    // microbits-per-Mb gives 8.00 Mbps, carried as 800 hundredths.
    assert_eq!(mbps_hundredths(2_000_000, 2), 800);
    // 50_000 bytes over 1 second: 0.4 Mbps.
    assert_eq!(mbps_hundredths(50_000, 1), 40);
    // Rounds toward zero.
    assert_eq!(mbps_hundredths(1, 1), 0);
    // Largest byte count still fits the result type.
    assert_eq!(mbps_hundredths(u64::MAX, 1), (u64::MAX as u128 * 800 / 1_000_000) as u64);
}

#[test]
fn throughput_zero_elapsed_is_guarded() {
    assert_eq!(mbps_hundredths(123_456, 0), 0);
    assert_eq!(receiver::sample(0, 10, 1000), None);
}

#[test]
fn counters_record_exactly() {
    let mut stats = Stats::new();
    assert_eq!((stats.packets, stats.bytes), (0, 0));
    stats.record(1400);
    stats.record(100);
    assert_eq!(stats.packets, 2);
    assert_eq!(stats.bytes, 1500);
}

#[test]
fn receive_scenario_five_hundred_datagrams() {
    // 500 datagrams of 100 bytes each drained through the counting path:
    // the counters read exactly packets=500, bytes=50000.
    let mut stats = Stats::new();
    for _ in 0..500 {
        stats.record(100);
    }
    assert_eq!(stats.packets, 500);
    assert_eq!(stats.bytes, 50_000);
    let snapshot = receiver::sample(1, stats.packets, stats.bytes).unwrap();
    assert_eq!(snapshot.packets, 500);
    assert_eq!(snapshot.bytes, 50_000);
    assert_eq!(snapshot.mbps_hundredths, 40);
}

#[test]
fn aggregator_is_idempotent() {
    let stats = Stats { packets: 77, bytes: 107_800 };
    let first = stats.report(5);
    let second = stats.report(5);
    assert_eq!(first, second);
    let s1 = receiver::Stats::new(5, 77, 107_800);
    let s2 = receiver::Stats::new(5, 77, 107_800);
    assert_eq!(s1, s2);
}

#[test]
fn concurrent_increments_count_exactly() {
    // Four workers each add one to the packet counter five times; two
    // different interleavings of the twenty unit increments both end at
    // exactly 4 * 5.
    let n = 4;
    let m = 5;
    let mut round_robin = Stats::new();
    for _round in 0..m {
        for _worker in 0..n {
            round_robin.record(1);
        }
    }
    let mut sequential = Stats::new();
    for _worker in 0..n {
        for _round in 0..m {
            sequential.record(1);
        }
    }
    assert_eq!(round_robin.packets, (n * m) as u64);
    assert_eq!(sequential.packets, round_robin.packets);
}
