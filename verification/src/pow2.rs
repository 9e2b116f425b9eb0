//! Powers of two: the length discipline of the radix-2 engine.

use vstd::prelude::*;

verus! {

/// A length the recursive engine accepts: 1, 2, 4, 8, ...
pub open spec fn is_pow2(n: nat) -> bool
    decreases n,
{
    if n == 0 {
        false
    } else if n == 1 {
        true
    } else {
        n % 2 == 0 && is_pow2(n / 2)
    }
}

/// The first power of two reached by doubling `p` that is at least `n`.
pub open spec fn next_pow2_from(p: nat, n: nat) -> nat
    decreases n - p,
    when 1 <= p
{
    if n <= p {
        p
    } else if 2 * p < n {
        next_pow2_from(2 * p, n)
    } else {
        2 * p
    }
}

/// The smallest power of two that is at least `n`, doubling from 1
/// (so `next_pow2(0) == 1`).
pub open spec fn next_pow2(n: nat) -> nat {
    next_pow2_from(1, n)
}

/// Doubling from any power of two yields a power of two at least `n`.
proof fn lemma_next_pow2_from_sound(p: nat, n: nat)
    requires
        is_pow2(p),
    ensures
        is_pow2(next_pow2_from(p, n)),
        next_pow2_from(p, n) >= n,
        next_pow2_from(p, n) >= p,
    decreases n - p,
{
    if n <= p {
    } else if 2 * p < n {
        assert(is_pow2(2 * p)) by {
            assert((2 * p) / 2 == p);
        }
        lemma_next_pow2_from_sound(2 * p, n);
    } else {
        assert(is_pow2(2 * p)) by {
            assert((2 * p) / 2 == p);
        }
    }
}

/// `next_pow2(n)` is a power of two and is at least `n`.
pub proof fn lemma_next_pow2_sound(n: nat)
    ensures
        is_pow2(next_pow2(n)),
        next_pow2(n) >= n,
        next_pow2(n) >= 1,
{
    lemma_next_pow2_from_sound(1, n);
}

/// Between a power of two and a strictly larger one lies a factor of two.
proof fn lemma_pow2_gap(p: nat, q: nat)
    requires
        is_pow2(p),
        is_pow2(q),
        p < q,
    ensures
        2 * p <= q,
    decreases q,
{
    if q / 2 == p {
        assert(2 * p == q);
    } else if p < q / 2 {
        lemma_pow2_gap(p, q / 2);
    } else {
        lemma_pow2_gap(q / 2, p);
        assert(false);
    }
}

/// Doubling from a power of two never overshoots a power of two already
/// at least `n`: the doubling result is the least such power.
proof fn lemma_next_pow2_from_least(p: nat, n: nat, q: nat)
    requires
        is_pow2(p),
        is_pow2(q),
        q >= n,
        q >= p,
    ensures
        q >= next_pow2_from(p, n),
    decreases n - p,
{
    if n <= p {
    } else if 2 * p < n {
        assert(is_pow2(2 * p)) by {
            assert((2 * p) / 2 == p);
        }
        if q < 2 * p {
            lemma_pow2_gap(q, 2 * p);
            lemma_pow2_gap(p, q);
            assert(false);
        }
        lemma_next_pow2_from_least(2 * p, n, q);
    } else {
        if q < 2 * p {
            lemma_pow2_gap(p, q);
            assert(false);
        }
    }
}

/// `next_pow2(n)` is the least power of two at least `n`.
pub proof fn lemma_next_pow2_least(n: nat, q: nat)
    requires
        is_pow2(q),
        q >= n,
    ensures
        q >= next_pow2(n),
{
    lemma_next_pow2_from_least(1, n, q);
}

/// A power of two is its own padding target.
pub proof fn lemma_next_pow2_fixed(n: nat)
    requires
        is_pow2(n),
    ensures
        next_pow2(n) == n,
{
    lemma_next_pow2_sound(n);
    lemma_next_pow2_least(n, n);
}

/// Half of a power of two greater than one is a power of two.
pub proof fn lemma_pow2_half(n: nat)
    requires
        is_pow2(n),
        n >= 2,
    ensures
        is_pow2(n / 2),
        n % 2 == 0,
{
}

/// Whether `n` is a power of two, by halving.
pub fn is_power_of_two(n: usize) -> (r: bool)
    ensures
        r == is_pow2(n as nat),
    decreases n,
{
    if n == 0 {
        false
    } else if n == 1 {
        true
    } else if n % 2 == 1 {
        false
    } else {
        is_power_of_two(n / 2)
    }
}

} // verus!
