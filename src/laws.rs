use crate::engine::{
    engine_outcome, engine_value, exceeds_ceiling, fib, outcome_view, FibError, MAX_STEPS,
    SCI_PRECISION,
};
use crate::natural::sci_text;
use crate::parse::{index_of_text, is_index_text};
use vstd::prelude::*;
use vstd::utf8::encode_utf8;

verus! {

/// Indices zero and one both give the number one.
pub proof fn lemma_first_indices_give_one(n: nat)
    requires
        n <= 1,
    ensures
        engine_value(n) == 1,
        engine_outcome(n) == Ok::<Seq<char>, FibError>(sci_text(1, SCI_PRECISION as nat)),
{
}

/// From index two on, below the ceiling, the engine gives the Fibonacci
/// number of the index.
pub proof fn lemma_engine_gives_fib(n: nat)
    requires
        n >= 2,
        !exceeds_ceiling(n),
    ensures
        engine_value(n) == fib(n),
        engine_outcome(n) == Ok::<Seq<char>, FibError>(sci_text(fib(n), SCI_PRECISION as nat)),
{
}

/// Each value of the engine from index four on is the sum of the two before.
pub proof fn lemma_engine_recurrence(n: nat)
    requires
        n >= 4,
    ensures
        engine_value(n) == engine_value((n - 1) as nat) + engine_value((n - 2) as nat),
{
}

/// The engine succeeds exactly below `MAX_STEPS`: every index from there on
/// gives the recursion-limit error and no value.
pub proof fn lemma_ceiling(n: nat)
    ensures
        n >= MAX_STEPS ==> engine_outcome(n) == Err::<Seq<char>, FibError>(
            FibError::RecursionLimit,
        ),
        n < MAX_STEPS ==> engine_outcome(n) is Ok,
{
}

/// Two calls on the same text report the same outcome.
pub proof fn lemma_repeat_calls_agree(
    input: Seq<char>,
    first: Result<String, FibError>,
    second: Result<String, FibError>,
)
    requires
        outcome_view(first) == engine_outcome(index_of_text(encode_utf8(input))),
        outcome_view(second) == engine_outcome(index_of_text(encode_utf8(input))),
    ensures
        outcome_view(first) == outcome_view(second),
{
}

/// Text that is not an index gives what index zero gives: the number one.
pub proof fn lemma_malformed_text_is_index_zero(text: Seq<u8>)
    requires
        !is_index_text(text),
    ensures
        index_of_text(text) == 0,
        engine_outcome(index_of_text(text)) == engine_outcome(0),
        engine_outcome(index_of_text(text)) == Ok::<Seq<char>, FibError>(
            sci_text(1, SCI_PRECISION as nat),
        ),
{
}

} // verus!
