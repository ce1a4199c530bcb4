//! Powers of two, and sums over sequences of integers.

use vstd::arithmetic::power2::{lemma2_to64, lemma_pow2_pos, lemma_pow2_strictly_increases, lemma_pow2_unfold, pow2};
use vstd::prelude::*;

verus! {

/// The least power of two that is not below `v`; 0 for 0.
///
/// This is two to the power of the base-2 logarithm of `v`, rounded up.
pub open spec fn ceil_pow2(v: nat) -> nat
    decreases v,
{
    if v <= 1 {
        v
    } else {
        2 * ceil_pow2((v + 1) / 2)
    }
}

/// The sum of the elements of a sequence.
pub open spec fn seq_sum(s: Seq<int>) -> int
    decreases s.len(),
{
    if s.len() == 0 {
        0
    } else {
        seq_sum(s.drop_last()) + s.last()
    }
}

/// Powers of two are positive and double with each step.
pub proof fn lemma_pow2_step(bits: nat)
    ensures
        pow2(bits) >= 1,
        pow2(bits + 1) == 2 * pow2(bits),
{
    lemma_pow2_pos(bits);
    lemma_pow2_unfold(bits + 1);
}

/// Up to 16 bits a power of two stays within 65536, and within 32768 for
/// fewer bits.
pub proof fn lemma_pow2_bound(bits: nat)
    requires
        bits <= 16,
    ensures
        pow2(bits) <= 0x1_0000,
        bits < 16 ==> pow2(bits) <= 0x8000,
{
    lemma2_to64();
    if bits < 15 {
        lemma_pow2_strictly_increases(bits, 15);
    }
}

/// `ceil_pow2(v)` is a power of two that is not below `v`, and the power of
/// two before it is below `v`: it is the least such power.
pub proof fn lemma_ceil_pow2_is_least(v: nat)
    requires
        v >= 1,
    ensures
        exists|k: nat|
            ceil_pow2(v) == #[trigger] pow2(k) && v <= pow2(k) && (k > 0 ==> pow2((k - 1) as nat)
                < v),
    decreases v,
{
    if v == 1 {
        lemma2_to64();
        assert(ceil_pow2(1) == pow2(0));
    } else {
        let half = ((v + 1) / 2) as nat;
        lemma_ceil_pow2_is_least(half);
        let k = choose|k: nat|
            ceil_pow2(half) == #[trigger] pow2(k) && half <= pow2(k) && (k > 0 ==> pow2(
                (k - 1) as nat,
            ) < half);
        lemma_pow2_step(k);
        assert(ceil_pow2(v) == pow2(k + 1));
        if k > 0 {
            lemma_pow2_step((k - 1) as nat);
        } else {
            lemma2_to64();
        }
        assert(pow2(((k + 1) - 1) as nat) < v);
    }
}

/// `ceil_pow2` leaves powers of two as they are.
pub proof fn lemma_ceil_pow2_of_pow2(k: nat)
    ensures
        ceil_pow2(pow2(k)) == pow2(k),
    decreases k,
{
    if k > 0 {
        lemma_ceil_pow2_of_pow2((k - 1) as nat);
        lemma_pow2_step((k - 1) as nat);
        let p = pow2((k - 1) as nat);
        assert((2 * p + 1) / 2 == p);
    } else {
        lemma2_to64();
    }
}

/// `ceil_pow2` of a number is not below the number and below its double.
pub proof fn lemma_ceil_pow2_bounds(v: nat)
    ensures
        v <= ceil_pow2(v),
        v >= 1 ==> ceil_pow2(v) < 2 * v,
    decreases v,
{
    if v > 1 {
        lemma_ceil_pow2_bounds(((v + 1) / 2) as nat);
    }
}

/// Adding 1 to one element of a sequence adds 1 to its sum.
pub proof fn lemma_seq_sum_update(s: Seq<int>, i: int, v: int)
    requires
        0 <= i < s.len(),
    ensures
        seq_sum(s.update(i, v)) == seq_sum(s) - s[i] + v,
    decreases s.len(),
{
    let t = s.update(i, v);
    if i == s.len() - 1 {
        assert(t.drop_last() =~= s.drop_last());
    } else {
        assert(t.drop_last() =~= s.drop_last().update(i, v));
        lemma_seq_sum_update(s.drop_last(), i, v);
    }
}

/// A sequence of zeros sums to zero.
pub proof fn lemma_seq_sum_zeros(s: Seq<int>)
    requires
        forall|i: int| 0 <= i < s.len() ==> s[i] == 0,
    ensures
        seq_sum(s) == 0,
    decreases s.len(),
{
    if s.len() > 0 {
        lemma_seq_sum_zeros(s.drop_last());
    }
}

/// The least power of two that is not below `v`; 0 for 0.
pub fn next_pow2(v: u32) -> (p: u64)
    ensures
        p == ceil_pow2(v as nat),
        p <= 0x1_0000_0000,
{
    if v <= 1 {
        return v as u64;
    }
    proof {
        lemma_ceil_pow2_is_least(v as nat);
    }
    let ghost k = choose|k: nat|
        ceil_pow2(v as nat) == #[trigger] pow2(k) && v <= pow2(k) && (k > 0 ==> pow2(
            (k - 1) as nat,
        ) < v);
    let mut p: u64 = 1;
    let ghost mut e: nat = 0;
    proof {
        lemma2_to64();
    }
    while p < v as u64
        invariant
            p == pow2(e),
            e <= k,
            p <= 0x1_0000_0000,
            v <= pow2(k),
        decreases k - e,
    {
        proof {
            lemma_pow2_step(e);
            lemma2_to64();
            if e >= 32 {
                lemma_pow2_monotonic(32, e);
            }
            lemma_pow2_monotonic(e + 1, 32);
        }
        p = 2 * p;
        proof {
            e = e + 1;
        }
    }
    proof {
        if e < k {
            lemma_pow2_monotonic(e, (k - 1) as nat);
        }
    }
    p
}

/// A larger exponent gives a power of two that is not smaller.
pub proof fn lemma_pow2_monotonic(a: nat, b: nat)
    requires
        a <= b,
    ensures
        pow2(a) <= pow2(b),
{
    if a < b {
        lemma_pow2_strictly_increases(a, b);
    }
}

} // verus!
