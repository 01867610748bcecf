//! Power-of-two padding arithmetic.

use vstd::arithmetic::power::lemma_pow_positive;
use vstd::arithmetic::power2::{
    is_pow2, is_pow2_equiv, lemma2_to64, lemma_pow2_strictly_increases, lemma_pow2_unfold, pow2,
};
use vstd::prelude::*;

verus! {

/// The number of doublings that take 1 to the smallest power of two that is
/// at least `n` (0 for `n <= 1`).
pub open spec fn ceil_log2(n: nat) -> nat
    decreases n,
{
    if n <= 1 {
        0
    } else {
        1 + ceil_log2(((n + 1) / 2) as nat)
    }
}

/// The smallest power of two that is at least `n`; 1 for `n == 0`.
pub open spec fn next_pow2(n: nat) -> nat {
    pow2(ceil_log2(n))
}

pub(crate) proof fn lemma_next_pow2_at_least(n: nat)
    ensures
        pow2(ceil_log2(n)) >= n,
    decreases n,
{
    if n <= 1 {
        lemma2_to64();
    } else {
        let m = ((n + 1) / 2) as nat;
        lemma_next_pow2_at_least(m);
        lemma_pow2_unfold(ceil_log2(n));
    }
}

proof fn lemma_next_pow2_smallest(n: nat)
    requires
        n >= 2,
    ensures
        ceil_log2(n) >= 1,
        pow2((ceil_log2(n) - 1) as nat) < n,
    decreases n,
{
    let m = ((n + 1) / 2) as nat;
    if m == 1 {
        lemma2_to64();
    } else {
        lemma_next_pow2_smallest(m);
        lemma_pow2_unfold(ceil_log2(m));
    }
}

proof fn lemma_pow2_monotone(a: nat, b: nat)
    requires
        a <= b,
    ensures
        pow2(a) <= pow2(b),
{
    if a < b {
        lemma_pow2_strictly_increases(a, b);
    }
}

/// For every `n >= 1`, the padded height `next_pow2(n)` is a power of two, is
/// at least `n`, and is the smallest such: half of it falls short of `n`
/// whenever it exceeds 1.
pub proof fn law_next_power_of_two(n: nat)
    requires
        n >= 1,
    ensures
        is_pow2(next_pow2(n) as int),
        next_pow2(n) >= n,
        next_pow2(n) > 1 ==> next_pow2(n) / 2 < n,
{
    lemma_next_pow2_at_least(n);
    is_pow2_equiv(next_pow2(n) as int);
    lemma_pow_positive(2, ceil_log2(n));
    assert(vstd::arithmetic::power::pow(2, ceil_log2(n)) == next_pow2(n) as int);
    if n >= 2 {
        lemma_next_pow2_smallest(n);
        lemma_pow2_unfold(ceil_log2(n));
    } else {
        lemma2_to64();
    }
}

/// Returns the smallest power of two that is at least `n` (1 for `n == 0`),
/// the height to which a trace of `n` rows is padded.
pub fn next_power_of_two(n: usize) -> (r: usize)
    requires
        n <= usize::MAX / 2 + 1,
    ensures
        r as nat == next_pow2(n as nat),
{
    let mut p: usize = 1;
    let ghost mut e: nat = 0;
    proof {
        lemma2_to64();
    }
    while p < n
        invariant
            n <= usize::MAX / 2 + 1,
            p >= 1,
            p as nat == pow2(e),
            e <= ceil_log2(n as nat),
        decreases ceil_log2(n as nat) - e,
    {
        proof {
            lemma_pow2_unfold(e + 1);
            if e + 1 > ceil_log2(n as nat) {
                lemma_next_pow2_at_least(n as nat);
            }
        }
        p = p * 2;
        proof {
            e = e + 1;
        }
    }
    proof {
        if e < ceil_log2(n as nat) {
            lemma_next_pow2_smallest(n as nat);
            lemma_pow2_monotone(e, (ceil_log2(n as nat) - 1) as nat);
        }
    }
    p
}

} // verus!
