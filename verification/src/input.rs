//! Input normalization: the three accepted input shapes, their structural
//! decode, and their expansion into one canonical ordered sequence of seeds.
use vstd::prelude::*;

verus! {

/// The three accepted input shapes. Exactly one variant arrives per call; the
/// tag is decided structurally at the host boundary, never by a caller-supplied
/// discriminator field.
pub enum Input {
    /// An inclusive integer range, expanded in ascending order; empty when
    /// `last < first`.
    Range { first: i64, last: i64 },
    /// Explicit seeds in caller-given order; may be empty.
    List(Vec<i64>),
    /// Raw bytes; each byte is zero-extended to an `i64` seed in positional
    /// order.
    RawBytes(Vec<u8>),
}

/// The only error surfaced synchronously: the supplied value matches none of
/// the accepted shapes, or an element of it fails integer coercion.
#[derive(PartialEq, Eq, Structural, Clone, Copy, Debug)]
pub enum EvalError {
    InvalidInput,
}

/// What the structural dispatch reads of a host value: is it a map, and if so
/// is it an inclusive-range struct with integer bounds; is it a proper list,
/// and if so are all elements integers; or is it something else entirely. The
/// host boundary fills this in; the shape decision itself is made here.
pub enum TermShape {
    /// A map tagged as an inclusive-range struct, with integer bounds.
    RangeStruct { first: i64, last: i64 },
    /// A map of any other shape (wrong tag, or bounds that fail coercion).
    OtherMap,
    /// A proper list whose elements all coerce to integers.
    IntList(Vec<i64>),
    /// A proper list with at least one element that fails integer coercion.
    MixedList,
    /// Anything else: a scalar, a binary, a tuple.
    Other,
}

/// Which host shapes decode to an accepted input.
pub open spec fn decodes(t: TermShape) -> bool {
    match t {
        TermShape::RangeStruct { .. } => true,
        TermShape::IntList(_) => true,
        _ => false,
    }
}

/// Structural discrimination between the accepted shapes: a range-struct map
/// becomes `Range`, a list of integers becomes `List`, and every other shape
/// is rejected as `InvalidInput`.
pub fn decode(t: TermShape) -> (r: Result<Input, EvalError>)
    ensures
        match r {
            Ok(input) => decodes(t) && match t {
                TermShape::RangeStruct { first, last } => input matches Input::Range {
                    first: f,
                    last: l,
                } && f == first && l == last,
                TermShape::IntList(v) => input matches Input::List(w) && w@ == v@,
                _ => false,
            },
            Err(e) => !decodes(t) && e == EvalError::InvalidInput,
        },
{
    match t {
        TermShape::RangeStruct { first, last } => Ok(Input::Range { first, last }),
        TermShape::IntList(v) => Ok(Input::List(v)),
        TermShape::OtherMap => Err(EvalError::InvalidInput),
        TermShape::MixedList => Err(EvalError::InvalidInput),
        TermShape::Other => Err(EvalError::InvalidInput),
    }
}

/// The canonical sequence an input denotes: the ascending expansion of a
/// range, a list as given, or bytes zero-extended to seeds.
pub open spec fn canonical_spec(input: Input) -> Seq<i64> {
    match input {
        Input::Range { first, last } => if last < first {
            Seq::empty()
        } else {
            Seq::new((last - first + 1) as nat, |i: int| (first + i) as i64)
        },
        Input::List(v) => v@,
        Input::RawBytes(b) => Seq::new(b@.len(), |i: int| b@[i] as i64),
    }
}

/// Whether the canonical sequence can be materialized on this machine: a
/// non-empty range must not hold more elements than a vector can.
pub open spec fn can_normalize(input: Input) -> bool {
    match input {
        Input::Range { first, last } => last < first || last - first + 1 <= usize::MAX,
        _ => true,
    }
}

/// Runtime test of `can_normalize`, for callers that receive an arbitrary
/// input and must reject oversized ranges instead of materializing them.
pub fn input_fits(input: &Input) -> (b: bool)
    ensures
        b == can_normalize(*input),
{
    match input {
        Input::Range { first, last } => {
            if *last < *first {
                true
            } else {
                (*last as i128) - (*first as i128) + 1 <= usize::MAX as i128
            }
        },
        _ => true,
    }
}

/// Expands an input into its canonical seed sequence: every integer from
/// `first` to `last` inclusive for a range, the list as given, or one seed per
/// byte.
pub fn normalize(input: &Input) -> (r: Vec<i64>)
    requires
        can_normalize(*input),
    ensures
        r@ == canonical_spec(*input),
{
    match input {
        Input::Range { first, last } => {
            let mut v: Vec<i64> = Vec::new();
            if *first <= *last {
                let mut cur: i64 = *first;
                while cur < *last
                    invariant
                        *first <= cur <= *last,
                        v@.len() == cur - *first,
                        forall|i: int| 0 <= i < v@.len() ==> v@[i] == *first + i,
                    decreases *last - cur,
                {
                    v.push(cur);
                    cur = cur + 1;
                }
                v.push(*last);
            }
            proof {
                assert(v@ =~= canonical_spec(*input));
            }
            v
        },
        Input::List(seeds) => {
            let mut v: Vec<i64> = Vec::new();
            let mut i: usize = 0;
            while i < seeds.len()
                invariant
                    i <= seeds@.len(),
                    v@ == seeds@.take(i as int),
                decreases seeds@.len() - i,
            {
                v.push(seeds[i]);
                proof {
                    assert(v@ =~= seeds@.take(i + 1));
                }
                i = i + 1;
            }
            proof {
                assert(v@ =~= seeds@);
            }
            v
        },
        Input::RawBytes(bytes) => {
            let mut v: Vec<i64> = Vec::new();
            let mut i: usize = 0;
            while i < bytes.len()
                invariant
                    i <= bytes@.len(),
                    v@.len() == i,
                    forall|j: int| 0 <= j < v@.len() ==> v@[j] == bytes@[j] as i64,
                decreases bytes@.len() - i,
            {
                v.push(bytes[i] as i64);
                i = i + 1;
            }
            proof {
                assert(v@ =~= canonical_spec(*input));
            }
            v
        },
    }
}

} // verus!
