//! Batch evaluation: the recurrence applied to every seed of a canonical
//! sequence, either strictly left-to-right on the calling thread or fanned
//! out across the data-parallel runtime, and the narrowing byte projection
//! of result sequences.
use vstd::prelude::*;
use crate::recurrence::{evaluate, iter_count, iterate_spec};
use crate::input::{can_normalize, canonical_spec, EvalError, Input, input_fits, normalize};
use rayon::iter::{IntoParallelRefIterator, ParallelIterator};

verus! {

/// Pointwise batch result: output index `i` holds the evaluation of seed `i`.
/// This is the order-preservation invariant of both execution strategies.
pub open spec fn batch_spec(s: Seq<i64>, n: nat, p: i64, mu: i64) -> Seq<i64> {
    Seq::new(s.len(), |i: int| iterate_spec(s[i], n, p, mu))
}

/// Left-to-right batch result, as the sequential strategy computes it: each
/// seed is evaluated after all seeds before it.
pub open spec fn seq_batch_spec(s: Seq<i64>, n: nat, p: i64, mu: i64) -> Seq<i64>
    decreases s.len(),
{
    if s.len() == 0 {
        Seq::empty()
    } else {
        seq_batch_spec(s.drop_last(), n, p, mu).push(iterate_spec(s.last(), n, p, mu))
    }
}

/// The two execution strategies agree: evaluating left-to-right yields exactly
/// the pointwise batch result, element for element, so parallel fan-out can
/// never change what a batch returns.
pub proof fn lemma_strategies_agree(s: Seq<i64>, n: nat, p: i64, mu: i64)
    ensures
        seq_batch_spec(s, n, p, mu) == batch_spec(s, n, p, mu),
    decreases s.len(),
{
    if s.len() == 0 {
        assert(seq_batch_spec(s, n, p, mu) =~= batch_spec(s, n, p, mu));
    } else {
        lemma_strategies_agree(s.drop_last(), n, p, mu);
        assert(seq_batch_spec(s, n, p, mu) =~= batch_spec(s, n, p, mu));
    }
}

/// Evaluates every seed in strict left-to-right order on the calling thread.
pub fn evaluate_batch_sequential(seeds: &Vec<i64>, num: i64, p: i64, mu: i64) -> (r: Vec<i64>)
    requires
        p != 0,
    ensures
        r@ == batch_spec(seeds@, iter_count(num), p, mu),
        r@ == seq_batch_spec(seeds@, iter_count(num), p, mu),
{
    let mut v: Vec<i64> = Vec::new();
    let mut i: usize = 0;
    while i < seeds.len()
        invariant
            p != 0,
            i <= seeds@.len(),
            v@.len() == i,
            forall|j: int| 0 <= j < v@.len() ==> v@[j] == iterate_spec(
                seeds@[j],
                iter_count(num),
                p,
                mu,
            ),
        decreases seeds@.len() - i,
    {
        let y = evaluate(seeds[i], num, p, mu);
        v.push(y);
        i = i + 1;
    }
    proof {
        assert(v@ =~= batch_spec(seeds@, iter_count(num), p, mu));
        lemma_strategies_agree(seeds@, iter_count(num), p, mu);
    }
    v
}

/// Relies on rayon's `par_iter().map(..).collect::<Vec<_>>()`: an indexed
/// parallel map collects into a vector of the same length in source order,
/// and each output element is produced by the verified `evaluate` on the
/// input element at the same position.
#[verifier::external_body]
fn par_map(seeds: &Vec<i64>, num: i64, p: i64, mu: i64) -> (r: Vec<i64>)
    requires
        p != 0,
    ensures
        r@.len() == seeds@.len(),
        forall|i: int| 0 <= i < seeds@.len() ==> r@[i] == iterate_spec(
            seeds@[i],
            iter_count(num),
            p,
            mu,
        ),
{
    seeds.par_iter().map(|x: &i64| evaluate(*x, num, p, mu)).collect()
}

/// Evaluates every seed by data-parallel fan-out; results come back in input
/// order, identical to the sequential strategy.
pub fn evaluate_batch_parallel(seeds: &Vec<i64>, num: i64, p: i64, mu: i64) -> (r: Vec<i64>)
    requires
        p != 0,
    ensures
        r@ == batch_spec(seeds@, iter_count(num), p, mu),
{
    let r = par_map(seeds, num, p, mu);
    proof {
        assert(r@ =~= batch_spec(seeds@, iter_count(num), p, mu));
    }
    r
}

/// The low-order byte of a 64-bit value, as two's-complement truncation keeps
/// it: the value modulo 256.
pub open spec fn low_byte(x: i64) -> u8 {
    (x as int % 256) as u8
}

/// Pointwise byte projection of a result sequence: one byte per value, the
/// low-order byte only. The other seven bytes are discarded, so the
/// projection is narrowing and not invertible.
pub open spec fn project_spec(s: Seq<i64>) -> Seq<u8> {
    Seq::new(s.len(), |i: int| low_byte(s[i]))
}

/// The low-order byte of one value.
pub fn low_byte_of(x: i64) -> (b: u8)
    ensures
        b == low_byte(x),
{
    let r = match x.checked_rem(256) {
        Some(v) => v,
        None => 0,
    };
    if r < 0 {
        (r + 256) as u8
    } else {
        r as u8
    }
}

/// Projects every value of a result sequence to its low-order byte, in order.
pub fn project(values: &Vec<i64>) -> (r: Vec<u8>)
    ensures
        r@ == project_spec(values@),
{
    let mut v: Vec<u8> = Vec::new();
    let mut i: usize = 0;
    while i < values.len()
        invariant
            i <= values@.len(),
            v@.len() == i,
            forall|j: int| 0 <= j < v@.len() ==> v@[j] == low_byte(values@[j]),
        decreases values@.len() - i,
    {
        let b = low_byte_of(values[i]);
        v.push(b);
        i = i + 1;
    }
    proof {
        assert(v@ =~= project_spec(values@));
    }
    v
}

/// Normalizes an input and evaluates the whole batch sequentially.
pub fn evaluate_input(input: &Input, num: i64, p: i64, mu: i64) -> (r: Vec<i64>)
    requires
        p != 0,
        can_normalize(*input),
    ensures
        r@ == batch_spec(canonical_spec(*input), iter_count(num), p, mu),
{
    let seeds = normalize(input);
    evaluate_batch_sequential(&seeds, num, p, mu)
}

/// Guarded batch evaluation: rejects a zero modulus and an input whose
/// canonical sequence cannot be materialized, instead of requiring the caller
/// to rule them out; succeeds on exactly the remaining inputs.
pub fn evaluate_input_checked(input: &Input, num: i64, p: i64, mu: i64) -> (r: Result<
    Vec<i64>,
    EvalError,
>)
    ensures
        match r {
            Ok(v) => p != 0 && can_normalize(*input) && v@ == batch_spec(
                canonical_spec(*input),
                iter_count(num),
                p,
                mu,
            ),
            Err(e) => (p == 0 || !can_normalize(*input)) && e == EvalError::InvalidInput,
        },
{
    if p != 0 && input_fits(input) {
        Ok(evaluate_input(input, num, p, mu))
    } else {
        Err(EvalError::InvalidInput)
    }
}

/// Normalizes an input and projects its canonical sequence to low-order
/// bytes; fails on exactly the inputs that cannot be materialized.
pub fn project_input(input: &Input) -> (r: Result<Vec<u8>, EvalError>)
    ensures
        match r {
            Ok(b) => can_normalize(*input) && b@ == project_spec(canonical_spec(*input)),
            Err(e) => !can_normalize(*input) && e == EvalError::InvalidInput,
        },
{
    if input_fits(input) {
        let seeds = normalize(input);
        Ok(project(&seeds))
    } else {
        Err(EvalError::InvalidInput)
    }
}

/// Evaluates a batch whose seeds come straight from a raw byte buffer, one
/// zero-extended seed per byte.
pub fn evaluate_bytes(bytes: &Vec<u8>, num: i64, p: i64, mu: i64) -> (r: Vec<i64>)
    requires
        p != 0,
    ensures
        r@ == batch_spec(canonical_spec(Input::RawBytes(*bytes)), iter_count(num), p, mu),
{
    let seeds = normalize(&Input::RawBytes(bytes.clone()));
    proof {
        assert(canonical_spec(Input::RawBytes(*bytes)) =~= seeds@);
    }
    evaluate_batch_sequential(&seeds, num, p, mu)
}

/// Diagnostic pass-through: returns the normalized canonical sequence
/// unchanged. The two parameters are accepted and ignored, as the operation's
/// signature asks.
pub fn passthrough(input: &Input, _p: i64, _mu: i64) -> (r: Result<Vec<i64>, EvalError>)
    ensures
        match r {
            Ok(v) => can_normalize(*input) && v@ == canonical_spec(*input),
            Err(e) => !can_normalize(*input) && e == EvalError::InvalidInput,
        },
{
    if input_fits(input) {
        Ok(normalize(input))
    } else {
        Err(EvalError::InvalidInput)
    }
}

} // verus!
