//! Validated send configuration and the rate-splitting rule.
//!
//! An aggregate packet rate is divided (floor) across the configured worker
//! count; a configuration whose rate is below its concurrency would give a
//! worker a zero sub-rate, so it is rejected before the engine starts.

use vstd::prelude::*;

verus! {

/// Why a send configuration was rejected before the engine started.
#[derive(Clone, Copy, Debug, PartialEq, Eq, Structural)]
pub enum ConfigError {
    /// The worker count is zero: there is nobody to send.
    ZeroConcurrency,
    /// The aggregate rate is below the worker count, so the per-worker
    /// rate floors to zero and a worker would have nothing to pace to.
    RateBelowConcurrency,
}

/// The parameters of one transmission run, as the operator requested them.
/// The target address and port stay outside the library: the engine's
/// arithmetic does not depend on them.
#[derive(Clone, Copy, Debug, PartialEq, Eq, Structural)]
pub struct SendConfig {
    /// Packet payload size in bytes.
    pub size: usize,
    /// Aggregate packet rate over all workers, in packets per second.
    pub rate: u64,
    /// Wall-clock duration of the run, in seconds.
    pub duration: u64,
    /// Number of concurrent send workers.
    pub concurrency: u64,
    /// Whether each worker's payload is randomized once at startup.
    pub random_payload: bool,
}

impl SendConfig {
    /// A configuration the engine accepts: at least one worker, and an
    /// aggregate rate that gives every worker a sub-rate of at least one
    /// packet per second.
    pub open spec fn valid(self) -> bool {
        &&& self.concurrency >= 1
        &&& self.rate >= self.concurrency
    }

    /// Accepts exactly the valid configurations, and names the first
    /// violated rule otherwise.
    pub fn validate(&self) -> (r: Result<(), ConfigError>)
        ensures
            r is Ok <==> self.valid(),
            self.concurrency == 0 ==> r == Result::<(), ConfigError>::Err(
                ConfigError::ZeroConcurrency,
            ),
            self.concurrency >= 1 && self.rate < self.concurrency ==> r == Result::<
                (),
                ConfigError,
            >::Err(ConfigError::RateBelowConcurrency),
    {
        if self.concurrency == 0 {
            Err(ConfigError::ZeroConcurrency)
        } else if self.rate < self.concurrency {
            Err(ConfigError::RateBelowConcurrency)
        } else {
            Ok(())
        }
    }
}

/// The sub-rate each worker paces to: the aggregate rate divided by the
/// worker count, with the remainder dropped (a documented approximation).
pub open spec fn per_worker_rate_spec(rate: u64, concurrency: u64) -> int
    recommends
        concurrency >= 1,
{
    rate as int / concurrency as int
}

/// Computes the per-worker rate. A valid configuration (rate at least the
/// concurrency) gives every worker a sub-rate of at least one.
pub fn per_worker_rate(rate: u64, concurrency: u64) -> (r: u64)
    requires
        concurrency >= 1,
    ensures
        r == per_worker_rate_spec(rate, concurrency),
        rate >= concurrency ==> r >= 1,
{
    proof {
        lemma_rate_split(rate, concurrency);
    }
    rate / concurrency
}

/// The per-worker rates sum back to at most the requested aggregate rate:
/// `concurrency * floor(rate / concurrency) <= rate`. The shortfall is the
/// division remainder, dropped rather than compensated.
pub proof fn lemma_rate_split(rate: u64, concurrency: u64)
    requires
        concurrency >= 1,
    ensures
        concurrency * per_worker_rate_spec(rate, concurrency) <= rate,
        rate >= concurrency ==> per_worker_rate_spec(rate, concurrency) >= 1,
{
    let q = rate as int / concurrency as int;
    let r = rate as int % concurrency as int;
    vstd::arithmetic::div_mod::lemma_fundamental_div_mod(rate as int, concurrency as int);
    vstd::arithmetic::div_mod::lemma_mod_bound(rate as int, concurrency as int);
    assert(rate == concurrency * q + r);
    if rate >= concurrency {
        assert(q >= 1) by {
            if q <= 0 {
                assert(concurrency * q <= 0) by (nonlinear_arith)
                    requires
                        q <= 0,
                        concurrency >= 1,
                ;
            }
        }
    }
}

} // verus!
