//! The timing harness: warm-up, repeated timed batches, and the minimum
//! observed per-call latency as the representative figure.
//!
//! The clock is an outside source: nothing can be promised of any single
//! reading, so the contract of `measure` states the shape of the result —
//! it is the minimum over exactly `samples` observed batch latencies — and
//! leaves the latencies themselves open.

use vstd::prelude::*;

use crate::barrier::opaque_u64;
use crate::errors::ConfigError;
use crate::stats::fold_min;
use crate::stats::seq_min;

verus! {

#[verifier::external_type_specification]
#[verifier::external_body]
pub struct ExInstant(std::time::Instant);

/// Relies on std::time::Instant::now: a reading of a monotonic
/// high-resolution clock. The reading depends on when it is taken, so
/// nothing is promised of it.
#[verifier::external_body]
fn clock_now() -> std::time::Instant {
    std::time::Instant::now()
}

/// Relies on std::time::Instant::elapsed: the time since the reading was
/// taken, as a `Duration`. The result depends on the clock, so nothing is
/// promised of it.
#[verifier::external_body]
fn elapsed_since(start: &std::time::Instant) -> core::time::Duration {
    start.elapsed()
}

/// Relies on core::time::Duration::as_nanos: the whole nanoseconds of the
/// duration, truncated here to 64 bits (which covers centuries of elapsed
/// time).
#[verifier::external_body]
fn duration_nanos(d: &core::time::Duration) -> u64 {
    d.as_nanos() as u64
}

/// The harness configuration, resolved once at startup and passed
/// explicitly: how many timed batches to take and how many back-to-back
/// calls each batch makes.
#[derive(Clone, Copy, PartialEq, Eq, Structural, Debug)]
pub struct HarnessConfig {
    /// The number of timed batches; the reported latency is the minimum
    /// over all of them.
    pub samples: usize,
    /// The number of back-to-back calls per batch; the batch elapsed time
    /// is divided by it to give a per-call latency.
    pub sample_size: usize,
}

impl HarnessConfig {
    /// A configuration is valid when both counts are positive; otherwise
    /// the minimum would be a sentinel never overwritten by a sample.
    pub open spec fn valid(self) -> bool {
        self.samples > 0 && self.sample_size > 0
    }
}

/// Measure the minimum per-call latency of `f` on the fixed argument `n`.
///
/// Warm-up first invokes `f` one tenth of `samples` times, discarding the
/// results; then each of `samples` batches times `sample_size` back-to-back
/// calls and derives a truncating per-call latency. Argument and return
/// value pass through the opacity barrier so the optimizer can neither
/// elide the calls nor hoist them. An invalid configuration fails fast with
/// the matching error and no measurement is taken.
pub fn measure<F: Fn(u64) -> u64>(f: F, n: u64, cfg: &HarnessConfig) -> (r: Result<
    u64,
    ConfigError,
>)
    requires
        forall|x: u64| call_requires(f, (x,)),
    ensures
        r is Ok <==> cfg.valid(),
        cfg.samples == 0 ==> (r matches Err(e) && e == ConfigError::ZeroSamples),
        cfg.samples > 0 && cfg.sample_size == 0 ==> (r matches Err(e) && e
            == ConfigError::ZeroSampleSize),
        r matches Ok(m) ==> exists|lat: Seq<u64>|
            lat.len() == cfg.samples && m == seq_min(lat),
{
    if cfg.samples == 0 {
        return Err(ConfigError::ZeroSamples);
    }
    if cfg.sample_size == 0 {
        return Err(ConfigError::ZeroSampleSize);
    }
    let warmup = cfg.samples / 10;
    let mut w: usize = 0;
    while w < warmup
        invariant
            forall|x: u64| call_requires(f, (x,)),
        decreases warmup - w,
    {
        let _ = opaque_u64(f(opaque_u64(n)));
        w = w + 1;
    }
    let mut latencies: Vec<u64> = Vec::new();
    let mut s: usize = 0;
    while s < cfg.samples
        invariant
            s <= cfg.samples,
            latencies@.len() == s,
            cfg.sample_size > 0,
            forall|x: u64| call_requires(f, (x,)),
        decreases cfg.samples - s,
    {
        let start = clock_now();
        let mut k: usize = 0;
        while k < cfg.sample_size
            invariant
                forall|x: u64| call_requires(f, (x,)),
            decreases cfg.sample_size - k,
        {
            let _ = opaque_u64(f(opaque_u64(n)));
            k = k + 1;
        }
        let d = elapsed_since(&start);
        let nanos = duration_nanos(&d);
        let per_call = nanos / (cfg.sample_size as u64);
        latencies.push(per_call);
        s = s + 1;
    }
    let m = fold_min(&latencies);
    proof {
        assert(latencies@.len() == cfg.samples && m == seq_min(latencies@));
    }
    Ok(m)
}

} // verus!
