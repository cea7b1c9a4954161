//! The per-seed recurrence evaluator: one application of the iterated modular
//! map, and its n-fold iteration.
//!
//! The recurrence operates in fixed-width 64-bit arithmetic on purpose: the
//! products wrap silently on overflow, and the remainder follows the host's
//! native signed semantics (sign of the dividend). That behavior is part of
//! the contract, so the specification is written over vstd's wrapping
//! arithmetic and over `checked_rem`, which pins Rust's truncating remainder
//! exactly.
use vstd::prelude::*;

verus! {

/// One application of the map: `(mu * x * (x + 1)) mod p`, in wrapping 64-bit
/// arithmetic with Rust's truncating remainder. The single overflowing
/// remainder case (`i64::MIN mod -1`) wraps to 0, as the mathematical
/// remainder does.
pub open spec fn step_spec(x: i64, p: i64, mu: i64) -> i64 {
    let t = mu.wrapping_mul(x).wrapping_mul(x.wrapping_add(1));
    match t.checked_rem(p) {
        Some(r) => r,
        None => 0,
    }
}

/// The iteration count actually performed for a requested count `num`: a
/// non-positive request performs no iterations.
pub open spec fn iter_count(num: i64) -> nat {
    if num >= 0 {
        num as nat
    } else {
        0
    }
}

/// `n`-fold application of `step_spec`, starting from `x`.
pub open spec fn iterate_spec(x: i64, n: nat, p: i64, mu: i64) -> i64
    decreases n,
{
    if n == 0 {
        x
    } else {
        step_spec(iterate_spec(x, (n - 1) as nat, p, mu), p, mu)
    }
}

/// Zero iterations return the seed unchanged.
pub proof fn lemma_iterate_zero(x: i64, p: i64, mu: i64)
    requires
        p != 0,
    ensures
        iterate_spec(x, 0, p, mu) == x,
{
}

/// Single-step composability: one more iteration equals a one-step evaluation
/// of the `n`-iteration result.
pub proof fn lemma_iterate_compose(x: i64, n: nat, p: i64, mu: i64)
    ensures
        iterate_spec(x, n + 1, p, mu) == iterate_spec(iterate_spec(x, n, p, mu), 1, p, mu),
{
    let y = iterate_spec(x, n, p, mu);
    assert(iterate_spec(x, n + 1, p, mu) == step_spec(y, p, mu));
    assert(iterate_spec(y, 1, p, mu) == step_spec(iterate_spec(y, 0, p, mu), p, mu));
}

/// One application of the map.
pub fn step(x: i64, p: i64, mu: i64) -> (r: i64)
    requires
        p != 0,
    ensures
        r == step_spec(x, p, mu),
{
    let t = mu.wrapping_mul(x).wrapping_mul(x.wrapping_add(1));
    match t.checked_rem(p) {
        Some(r) => r,
        None => 0,
    }
}

/// Applies the map `num` times to `seed` (not at all if `num <= 0`).
pub fn evaluate(seed: i64, num: i64, p: i64, mu: i64) -> (r: i64)
    requires
        p != 0,
    ensures
        r == iterate_spec(seed, iter_count(num), p, mu),
{
    let mut x = seed;
    let mut i: i64 = 0;
    while i < num
        invariant
            p != 0,
            0 <= i,
            num >= 0 ==> i <= num,
            num < 0 ==> i == 0,
            x == iterate_spec(seed, i as nat, p, mu),
        decreases num - i,
    {
        x = step(x, p, mu);
        i = i + 1;
    }
    x
}

} // verus!
