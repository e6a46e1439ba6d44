//! Computing the fixed point of a caller-supplied function.
//!
//! Given a transition function `func` and a start value `x0`, [`fixedpoint`]
//! drives the sequence `x0, func(x0), func(func(x0)), ...` until two
//! consecutive values compare equal, and returns that value.  The search is
//! bounded by an iteration budget and, optionally, by an upper bound on the
//! value; crossing either bound is reported as an error.
//!
//! The contract of [`fixedpoint`] is stated over *traces*: a trace is the
//! sequence of values an actual run has seen, each entry a value the
//! transition function returned for its predecessor.  [`laws`] derives the
//! classical properties of fixed-point iteration from that contract for
//! transition functions that behave as a mathematical function.

use vstd::prelude::*;
use vstd::std_specs::cmp::PartialEqSpec;
use vstd::std_specs::cmp::PartialOrdSpec;
use core::cmp::Ordering;

pub mod laws;

verus! {

/// Iteration budget used when the caller supplies none.
pub const DEFAULT_MAX_ITERATIONS: usize = 100;

/// Why a fixed-point search gave up.
#[derive(Clone, Copy, Debug, PartialEq, Eq, Structural)]
pub enum FixedPointError {
    /// The iteration budget ran out before two consecutive iterates compared
    /// equal; carries the budget that was in force.
    IterationLimitExceeded(usize),
    /// An iterate compared strictly greater than the supplied upper bound.
    ValueLimitExceeded,
    /// The caller supplied an iteration budget of zero.
    InvalidConfiguration,
}

/// The iteration budget in force: the caller's, or the default.
pub open spec fn effective_limit(maxiter: Option<usize>) -> usize {
    match maxiter {
        Some(m) => m,
        None => DEFAULT_MAX_ITERATIONS,
    }
}

/// `s` records a run of `func`: it starts at `x0`, and every later entry is a
/// value `func` returned when applied to the entry before it.
pub open spec fn trace_of<T, U, F: Fn(U, &T) -> U>(func: F, args: &T, x0: U, s: Seq<U>) -> bool {
    &&& s.len() >= 2
    &&& s[0] == x0
    &&& forall|i: int|
        #![trigger s[i]]
        1 <= i < s.len() ==> call_ensures(func, (s[i - 1], args), s[i])
}

/// `a` compares strictly greater than `b` under the type's own ordering.
pub open spec fn exceeds<U: PartialOrd>(a: U, b: U) -> bool {
    a.partial_cmp_spec(&b) == Some(Ordering::Greater)
}

/// Every entry of `s` up to index `n` compared unequal to its predecessor.
pub open spec fn steps_differ<U: PartialEq>(s: Seq<U>, n: int) -> bool {
    forall|i: int|
        #![trigger s[i]]
        1 <= i <= n ==> !s[i].eq_spec(&s[i - 1])
}

/// No entry of `s` from index 2 up to index `n` exceeded the bound, when one
/// was given.  Indices 0 and 1 are exempt: the start value and the very first
/// computed value are never checked against the bound.
pub open spec fn steps_within<U: PartialOrd>(s: Seq<U>, n: int, maxval: Option<U>) -> bool {
    match maxval {
        Some(mv) => forall|i: int|
            #![trigger s[i]]
            2 <= i <= n ==> !exceeds(s[i], mv),
        None => true,
    }
}

/// A run that converged: its last entry compared equal to the one before it,
/// every earlier entry compared unequal to its predecessor, fewer than
/// `limit` steps were spent past the first application, and every iterate
/// that was checked against the bound stayed within it.
pub open spec fn converging_trace<T, U: PartialOrd, F: Fn(U, &T) -> U>(
    func: F,
    args: &T,
    x0: U,
    s: Seq<U>,
    limit: usize,
    maxval: Option<U>,
) -> bool {
    &&& trace_of(func, args, x0, s)
    &&& s.last().eq_spec(&s[s.len() - 2])
    &&& steps_differ(s, s.len() - 2)
    &&& s.len() - 2 < limit
    &&& steps_within(s, s.len() - 1, maxval)
}

/// A run that spent the whole budget: `limit` steps past the first
/// application, every entry compared unequal to its predecessor, and every
/// iterate that was checked against the bound stayed within it.  The final
/// entry was computed but never checked against the bound: the budget check
/// comes first.
pub open spec fn iteration_limit_trace<T, U: PartialOrd, F: Fn(U, &T) -> U>(
    func: F,
    args: &T,
    x0: U,
    s: Seq<U>,
    limit: usize,
    maxval: Option<U>,
) -> bool {
    &&& trace_of(func, args, x0, s)
    &&& s.len() == limit + 2
    &&& steps_differ(s, limit as int)
    &&& steps_within(s, limit as int, maxval)
}

/// A run that crossed the value bound: its last entry exceeded the bound,
/// every earlier checked iterate stayed within it, every entry compared
/// unequal to its predecessor, and the budget had not run out at that step.
pub open spec fn value_limit_trace<T, U: PartialOrd, F: Fn(U, &T) -> U>(
    func: F,
    args: &T,
    x0: U,
    s: Seq<U>,
    limit: usize,
    maxval: Option<U>,
) -> bool {
    &&& trace_of(func, args, x0, s)
    &&& s.len() >= 3
    &&& s.len() - 2 < limit
    &&& steps_differ(s, s.len() - 2)
    &&& maxval matches Some(mv) && exceeds(s.last(), mv) && steps_within(
        s,
        s.len() - 2,
        Some(mv),
    )
}

/// Everything [`fixedpoint`] promises of its result `r`: a budget of zero is
/// rejected as such, and every other outcome is justified by a trace of the
/// actual run.
pub open spec fn fixedpoint_post<T, U: PartialOrd, F: Fn(U, &T) -> U>(
    func: F,
    args: &T,
    x0: U,
    maxiter: Option<usize>,
    maxval: Option<U>,
    r: Result<U, FixedPointError>,
) -> bool {
    &&& (r == Err::<U, FixedPointError>(FixedPointError::InvalidConfiguration) <==> maxiter
        == Some(0usize))
    &&& match r {
        Ok(v) => exists|s: Seq<U>|
            #[trigger] converging_trace(func, args, x0, s, effective_limit(maxiter), maxval)
                && v == s.last(),
        Err(FixedPointError::IterationLimitExceeded(m)) => {
            &&& m == effective_limit(maxiter)
            &&& exists|s: Seq<U>|
                #[trigger] iteration_limit_trace(
                    func,
                    args,
                    x0,
                    s,
                    effective_limit(maxiter),
                    maxval,
                )
        },
        Err(FixedPointError::ValueLimitExceeded) => exists|s: Seq<U>|
            #[trigger] value_limit_trace(func, args, x0, s, effective_limit(maxiter), maxval),
        Err(FixedPointError::InvalidConfiguration) => maxiter == Some(0usize),
    }
}

/// Compute the fixed point of `func` by repeated application starting at
/// `x0`.
///
/// `args` is auxiliary data handed unchanged to every application of `func`.
/// `maxiter` bounds the number of applications; it defaults to
/// [`DEFAULT_MAX_ITERATIONS`] when absent, and a budget of zero is rejected
/// as [`FixedPointError::InvalidConfiguration`].  When `maxval` is given,
/// every iterate computed inside the loop is checked against it, and an
/// iterate that compares strictly greater stops the search with
/// [`FixedPointError::ValueLimitExceeded`]; the budget check comes first, so
/// a step that violates both bounds reports
/// [`FixedPointError::IterationLimitExceeded`].
pub fn fixedpoint<T, U: PartialOrd + Copy, F: Fn(U, &T) -> U>(
    func: F,
    x0: U,
    args: &T,
    maxiter: Option<usize>,
    maxval: Option<U>,
) -> (r: Result<U, FixedPointError>)
    requires
        U::obeys_eq_spec(),
        U::obeys_partial_cmp_spec(),
        forall|xi: U| call_requires(func, (xi, args)),
    ensures
        fixedpoint_post(func, args, x0, maxiter, maxval, r),
{
    let limit: usize = match maxiter {
        Some(m) => m,
        None => DEFAULT_MAX_ITERATIONS,
    };
    if limit == 0 {
        return Err(FixedPointError::InvalidConfiguration);
    }
    let mut itr: usize = limit;
    let mut x = x0;
    let mut val = func(x0, args);
    let ghost mut s: Seq<U> = seq![x0, val];
    while val != x
        invariant
            U::obeys_eq_spec(),
            U::obeys_partial_cmp_spec(),
            forall|xi: U| call_requires(func, (xi, args)),
            limit == effective_limit(maxiter),
            limit >= 1,
            1 <= itr <= limit,
            itr + s.len() == limit + 2,
            trace_of(func, args, x0, s),
            val == s.last(),
            x == s[s.len() - 2],
            steps_differ(s, s.len() - 2),
            steps_within(s, s.len() - 1, maxval),
        decreases itr,
    {
        x = val;
        val = func(x, args);
        proof {
            s = s.push(val);
        }
        itr = itr - 1;
        if itr == 0 {
            proof {
                assert(iteration_limit_trace(func, args, x0, s, limit, maxval));
            }
            return Err(FixedPointError::IterationLimitExceeded(limit));
        }
        if let Some(mv) = maxval {
            if val > mv {
                proof {
                    assert(value_limit_trace(func, args, x0, s, limit, maxval));
                }
                return Err(FixedPointError::ValueLimitExceeded);
            }
        }
    }
    proof {
        assert(converging_trace(func, args, x0, s, limit, maxval));
    }
    Ok(val)
}

} // verus!
