//! Configuration errors: the only failures the harness can report.

use vstd::prelude::*;

verus! {

/// A fatal configuration error. No partial results are produced once one of
/// these is detected.
#[derive(Clone, Copy, PartialEq, Eq, Structural, Debug)]
pub enum ConfigError {
    /// Fewer than two family members were requested: a single function
    /// cannot exhibit comparative alignment effects.
    FamilyTooSmall,
    /// The number of timed batches is zero: the minimum would be a sentinel
    /// that no sample ever overwrites.
    ZeroSamples,
    /// The number of calls per timed batch is zero: no per-call latency can
    /// be derived from an empty batch.
    ZeroSampleSize,
}

} // verus!
