use crate::natural::{sci_text, BigNat};
use crate::parse::{index_of_text, parse_index_bytes};
use vstd::prelude::*;
use vstd::utf8::encode_utf8;

verus! {

/// The most steps that one computation may take: the step that brings the
/// depth counter to this value fails instead.
pub const MAX_STEPS: usize = 4000;

/// Number of significant digits in every result text.
pub const SCI_PRECISION: u64 = 30;

/// The Fibonacci sequence: `fib(0) == 0`, `fib(1) == 1`, and each later term
/// the sum of the two before it.
pub open spec fn fib(n: nat) -> nat
    decreases n,
{
    if n == 0 {
        0
    } else if n == 1 {
        1
    } else {
        fib((n - 2) as nat) + fib((n - 1) as nat)
    }
}

/// The value that the guarded engine gives for index `n`: one for the first
/// two indices, `fib(n)` from two on.
pub open spec fn engine_value(n: nat) -> nat {
    if n < 2 {
        1
    } else {
        fib(n)
    }
}

/// How many steps the guarded engine takes for index `n`.
pub open spec fn engine_steps(n: nat) -> nat {
    if n < 2 {
        0
    } else {
        n
    }
}

/// Whether the guarded engine gives up on index `n`.
pub open spec fn exceeds_ceiling(n: nat) -> bool {
    engine_steps(n) >= MAX_STEPS
}

/// What the guarded engine reports for index `n`.
pub open spec fn engine_outcome(n: nat) -> Result<Seq<char>, FibError> {
    if exceeds_ceiling(n) {
        Err(FibError::RecursionLimit)
    } else {
        Ok(sci_text(engine_value(n), SCI_PRECISION as nat))
    }
}

/// The outcome of a computation, with its text as a sequence of characters.
pub open spec fn outcome_view(r: Result<String, FibError>) -> Result<Seq<char>, FibError> {
    match r {
        Ok(s) => Ok(s@),
        Err(e) => Err(e),
    }
}

/// Why a Fibonacci computation gave no number.
#[derive(Debug, Clone, Copy, PartialEq, Eq, Structural)]
pub enum FibError {
    /// The computation would have taken `MAX_STEPS` steps or more.
    RecursionLimit,
}

impl FibError {
    /// A sentence that describes the error.
    pub fn message(&self) -> (r: String)
        ensures
            r@ == "max recursion limit reached"@,
    {
        match self {
            FibError::RecursionLimit => "max recursion limit reached".to_owned(),
        }
    }
}

/// The guarded engine on index `n`: one for `n < 2`, `fib(n)` otherwise,
/// counting each step in a depth counter and failing with
/// `FibError::RecursionLimit` on the step that brings it to `MAX_STEPS`.
pub fn fib_guarded(n: usize) -> (r: Result<BigNat, FibError>)
    ensures
        r is Err <==> exceeds_ceiling(n as nat),
        r matches Ok(v) ==> v@ == engine_value(n as nat),
        r matches Err(e) ==> e == FibError::RecursionLimit,
{
    if n < 2 {
        return Ok(BigNat::from_u64(1));
    }
    let mut depth: usize = 0;
    let mut countdown: usize = n;
    let mut a = BigNat::from_u64(0);
    let mut b = BigNat::from_u64(1);
    while countdown > 0
        invariant
            2 <= n,
            depth + countdown == n,
            depth < MAX_STEPS,
            a@ == fib(depth as nat),
            b@ == fib((depth + 1) as nat),
        decreases countdown,
    {
        depth = depth + 1;
        if depth >= MAX_STEPS {
            return Err(FibError::RecursionLimit);
        }
        let c = a.add(&b);
        a = b;
        b = c;
        countdown = countdown - 1;
    }
    Ok(a)
}

/// The guarded engine's result for index `n`, written in scientific notation
/// with `SCI_PRECISION` significant digits.
pub fn fib_text(n: usize) -> (r: Result<String, FibError>)
    ensures
        outcome_view(r) == engine_outcome(n as nat),
{
    match fib_guarded(n) {
        Ok(v) => Ok(v.to_sci(SCI_PRECISION)),
        Err(e) => Err(e),
    }
}

/// Reads an index from `input` and runs the guarded engine on it. Text that
/// is not an index selects index zero.
pub fn compute_fibonacci(input: &str) -> (r: Result<String, FibError>)
    ensures
        outcome_view(r) == engine_outcome(index_of_text(encode_utf8(input@))),
{
    let n = match parse_index_bytes(input.as_bytes()) {
        Some(v) => v,
        None => 0,
    };
    fib_text(n)
}

/// The engine behind the web form: the same as `compute_fibonacci` on the
/// text of `input`.
pub fn calc_fib_iter(input: String) -> (r: Result<String, FibError>)
    ensures
        outcome_view(r) == engine_outcome(index_of_text(encode_utf8(input@))),
{
    compute_fibonacci(input.as_str())
}

} // verus!
