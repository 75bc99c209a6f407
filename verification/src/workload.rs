//! The measured workload and the function family built around it.
//!
//! Every family member computes the same saturating factorial-like
//! reduction; identity, alignment and padding may only move its timing,
//! never its value. The proofs in this module pin that down.

use vstd::prelude::*;

use crate::barrier::opaque_u64;
use crate::errors::ConfigError;

verus! {

/// Multiplication on `u64` that saturates at `u64::MAX` instead of wrapping.
pub open spec fn sat_mul(a: u64, b: u64) -> u64 {
    if a * b > u64::MAX {
        u64::MAX
    } else {
        (a * b) as u64
    }
}

/// The accumulator fold the workload loop performs: starting from `acc`,
/// multiply (saturating) by `n`, `n - 1`, ..., `2`.
pub open spec fn fact_acc(acc: u64, n: u64) -> u64
    decreases n,
{
    if n <= 1 {
        acc
    } else {
        fact_acc(sat_mul(acc, n), (n - 1) as u64)
    }
}

/// The value of the workload on input `n`: the saturating product
/// `n * (n - 1) * ... * 2`, or `1` when `n <= 1`.
pub open spec fn factorial_spec(n: u64) -> u64 {
    fact_acc(1, n)
}

/// What a family member returns. The identity tag and the padding count are
/// part of a member's configuration, but the value it computes depends on
/// the input alone: that is the whole point of the experiment, and the
/// equivalence, determinism and padding-invariance laws below all rest on
/// this definition.
pub open spec fn member_result(id: u64, padding: u64, n: u64) -> u64 {
    factorial_spec(n)
}

/// Saturating multiplication, proved against `sat_mul`.
fn mul_saturating(a: u64, b: u64) -> (r: u64)
    ensures
        r == sat_mul(a, b),
{
    match a.checked_mul(b) {
        Some(p) => p,
        None => u64::MAX,
    }
}

/// The padding unit: `count` no-operations with no observable effect and no
/// data dependency. Verified code cannot hold an opaque machine-instruction
/// sequence, so the unit is modelled as a counted loop that provably changes
/// nothing; a driver measuring real code objects supplies its own opaque
/// filler of the same count.
pub fn padding_unit(count: u64)
{
    let mut i: u64 = 0;
    while i < count
        invariant
            i <= count,
        decreases count - i,
    {
        i = i + 1;
    }
}

/// One member of the function family: an identity tag (`1..=n`) and the
/// alignment boundary, in bytes, that its entry point is pinned to.
#[derive(Clone, Copy, PartialEq, Eq, Structural, Debug)]
pub struct FamilyMember {
    /// The member's identity tag, a small positive integer.
    pub id: u64,
    /// The power-of-two boundary the member's entry point is aligned to.
    pub align: u64,
}

/// The alignment boundary a family configuration pins its members to:
/// a forced 32-byte boundary when pinning is active, the default 16-byte
/// boundary for a control run.
pub open spec fn member_alignment(align_pinned: bool) -> u64 {
    if align_pinned {
        32
    } else {
        16
    }
}

/// The function family generator: `n` members with identity tags
/// `1..=n`, all sharing one alignment configuration. Fails when `n < 2`,
/// since a single function cannot exhibit comparative effects.
pub fn make_family(n: u64, align_pinned: bool) -> (r: Result<Vec<FamilyMember>, ConfigError>)
    ensures
        r is Ok <==> n >= 2,
        r matches Err(e) ==> e == ConfigError::FamilyTooSmall,
        r matches Ok(v) ==> {
            &&& v@.len() == n
            &&& forall|i: int| 0 <= i < v@.len() ==> (#[trigger] v@[i]).id == i + 1
            &&& forall|i: int| 0 <= i < v@.len() ==> (#[trigger] v@[i]).align == member_alignment(
                align_pinned,
            )
        },
{
    if n < 2 {
        return Err(ConfigError::FamilyTooSmall);
    }
    let align: u64 = if align_pinned {
        32
    } else {
        16
    };
    let mut v: Vec<FamilyMember> = Vec::new();
    let mut i: u64 = 0;
    while i < n
        invariant
            i <= n,
            v@.len() == i,
            align == member_alignment(align_pinned),
            forall|j: int| 0 <= j < i ==> (#[trigger] v@[j]).id == j + 1,
            forall|j: int| 0 <= j < i ==> (#[trigger] v@[j]).align == align,
        decreases n - i,
    {
        v.push(FamilyMember { id: i + 1, align });
        i = i + 1;
    }
    Ok(v)
}

/// Run one family member on input `n` with the configured padding count:
/// observe the identity tag through the opacity barrier (the
/// anti-deduplication barrier of the real code objects), then perform the
/// saturating reduction with one padding unit per iteration.
pub fn run_member(member: &FamilyMember, padding: u64, n: u64) -> (r: u64)
    ensures
        r == member_result(member.id, padding, n),
{
    let _tag = opaque_u64(member.id);
    let mut acc: u64 = 1;
    let mut k: u64 = n;
    while k > 1
        invariant
            fact_acc(acc, k) == fact_acc(1, n),
        decreases k,
    {
        acc = mul_saturating(acc, k);
        k = k - 1;
        padding_unit(padding);
    }
    acc
}

/// Equivalence law: any two family members compute the same value on every
/// input; identity and alignment can move timing only, never the result.
pub proof fn lemma_member_equivalence(i: u64, j: u64, padding: u64, n: u64)
    ensures
        member_result(i, padding, n) == member_result(j, padding, n),
{
}

/// Determinism law: two runs of the same member on the same input return
/// the same value — the workload is pure, with no hidden state.
pub proof fn lemma_member_determinism(id: u64, padding: u64, n: u64, r1: u64, r2: u64)
    requires
        r1 == member_result(id, padding, n),
        r2 == member_result(id, padding, n),
    ensures
        r1 == r2,
{
}

/// Padding-count invariance law: changing the padding count never changes a
/// member's returned value, only potentially its timing.
pub proof fn lemma_padding_invariance(id: u64, p1: u64, p2: u64, n: u64)
    ensures
        member_result(id, p1, n) == member_result(id, p2, n),
{
}

} // verus!
