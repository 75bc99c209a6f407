//! The execution-order randomizer: a uniformly random permutation of the
//! measurement order, removing the bias that favours (or penalizes)
//! whichever member is measured first.

use vstd::prelude::*;

use rand::seq::SliceRandom;

verus! {

#[verifier::external_type_specification]
#[verifier::external_body]
pub struct ExThreadRng(rand::rngs::ThreadRng);

/// Relies on rand::thread_rng: a handle to the thread-local generator,
/// seeded from fresh entropy, so the order varies run to run.
#[verifier::external_body]
fn fresh_rng() -> rand::rngs::ThreadRng {
    rand::thread_rng()
}

/// Relies on rand::seq::SliceRandom::shuffle: an in-place Fisher–Yates
/// shuffle, built from swaps alone, so it permutes the slice — the length
/// and the multiset of elements are unchanged. Which permutation comes out
/// depends on the generator, so nothing more is promised.
#[verifier::external_body]
fn shuffle_in_place(v: &mut Vec<usize>, rng: &mut rand::rngs::ThreadRng)
    ensures
        final(v)@.len() == old(v)@.len(),
        final(v)@.to_multiset() == old(v)@.to_multiset(),
{
    v.shuffle(rng)
}

/// The order `0, 1, ..., n - 1` in which the family is laid out before it
/// is shuffled.
pub open spec fn identity_order(n: nat) -> Seq<usize> {
    Seq::new(n, |i: int| i as usize)
}

/// Produce a random measurement order over `n` family slots: a permutation
/// of the indices `0..n`, so every member is measured exactly once.
pub fn random_order(n: usize) -> (r: Vec<usize>)
    ensures
        r@.len() == n,
        r@.to_multiset() == identity_order(n as nat).to_multiset(),
{
    let mut v: Vec<usize> = Vec::new();
    let mut i: usize = 0;
    while i < n
        invariant
            i <= n,
            v@.len() == i,
            forall|j: int| 0 <= j < i ==> #[trigger] v@[j] == j,
        decreases n - i,
    {
        v.push(i);
        i = i + 1;
    }
    proof {
        assert(v@ =~= identity_order(n as nat));
    }
    let mut rng = fresh_rng();
    shuffle_in_place(&mut v, &mut rng);
    v
}

} // verus!
