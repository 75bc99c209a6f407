//! Aggregate reporting: per-member minimum latencies folded into the
//! family-wide minimum, maximum, and the headline `max - min` spread.

use vstd::prelude::*;

use crate::stats::lemma_spread_nonnegative;
use crate::stats::max_u64;
use crate::stats::min_u64;
use crate::stats::seq_max;
use crate::stats::seq_min;

verus! {

/// One family member's measurement result: its identity tag and the
/// minimum per-call latency observed across all its batches.
#[derive(Clone, Copy, PartialEq, Eq, Structural, Debug)]
pub struct Measurement {
    /// The member's identity tag.
    pub id: u64,
    /// The minimum per-call latency, in nanoseconds.
    pub min_latency: u64,
}

/// The per-member latencies of a run, in measurement order.
pub open spec fn latencies_of(rs: Seq<Measurement>) -> Seq<u64> {
    rs.map_values(|m: Measurement| m.min_latency)
}

/// The family-wide report: the smallest and largest per-member minimum
/// latency, and their difference — the headline spread.
#[derive(Clone, Copy, PartialEq, Eq, Structural, Debug)]
pub struct Report {
    /// The smallest per-member minimum latency.
    pub min: u64,
    /// The largest per-member minimum latency.
    pub max: u64,
    /// `max - min`: how much alignment alone moved the latency of
    /// otherwise identical code. Never negative.
    pub spread: u64,
}

/// Fold the per-member results of one run into the family-wide report.
/// The flow guarantees at least one measurement (the family has at least
/// two members), and min and max are meaningless over none.
pub fn aggregate(rs: &Vec<Measurement>) -> (rep: Report)
    requires
        rs@.len() >= 1,
    ensures
        rep.min == seq_min(latencies_of(rs@)),
        rep.max == seq_max(latencies_of(rs@)),
        rep.min <= rep.max,
        rep.spread == rep.max - rep.min,
{
    let ghost ls = latencies_of(rs@);
    let mut mn: u64 = u64::MAX;
    let mut mx: u64 = 0;
    let mut i: usize = 0;
    proof {
        assert(ls.len() == rs@.len());
    }
    while i < rs.len()
        invariant
            i <= rs@.len(),
            ls == latencies_of(rs@),
            ls.len() == rs@.len(),
            mn == seq_min(ls.take(i as int)),
            mx == seq_max(ls.take(i as int)),
        decreases rs@.len() - i,
    {
        let v = rs[i].min_latency;
        proof {
            assert(ls[i as int] == v);
            assert(ls.take(i + 1).drop_last() =~= ls.take(i as int));
            assert(ls.take(i + 1).last() == ls[i as int]);
        }
        if v < mn {
            mn = v;
        }
        if v > mx {
            mx = v;
        }
        proof {
            assert(mn == min_u64(seq_min(ls.take(i as int)), v));
            assert(mx == max_u64(seq_max(ls.take(i as int)), v));
        }
        i = i + 1;
    }
    proof {
        assert(ls.take(ls.len() as int) =~= ls);
        lemma_spread_nonnegative(ls);
    }
    Report { min: mn, max: mx, spread: mx - mn }
}

} // verus!
