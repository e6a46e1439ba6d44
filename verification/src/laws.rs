//! Laws of fixed-point iteration.
//!
//! [`fixedpoint`](crate::fixedpoint) is specified over traces of an
//! arbitrary, possibly nondeterministic transition function.  The proof
//! functions here derive the classical guarantees for the common case: a
//! transition function that behaves as a single mathematical function `g`.

use vstd::prelude::*;
use vstd::std_specs::cmp::PartialEqSpec;
use vstd::std_specs::cmp::PartialOrdSpec;
use vstd::laws_eq::obeys_concrete_eq;
use vstd::laws_cmp::obeys_cmp_partial_ord;

use crate::FixedPointError;
use crate::converging_trace;
use crate::effective_limit;
use crate::exceeds;
use crate::fixedpoint_post;
use crate::iteration_limit_trace;
use crate::trace_of;
use crate::value_limit_trace;

verus! {

/// The value after `n` applications of `g` to `x0`.
pub open spec fn iterate<U>(g: spec_fn(U) -> U, x0: U, n: nat) -> U
    decreases n,
{
    if n == 0 {
        x0
    } else {
        g(iterate(g, x0, (n - 1) as nat))
    }
}

/// `func`, applied to auxiliary data `args`, behaves as the mathematical
/// function `g`: every value it can return for `x` is `g(x)`.
pub open spec fn models<T, U, F: Fn(U, &T) -> U>(func: F, args: &T, g: spec_fn(U) -> U) -> bool {
    forall|x: U, y: U| #[trigger] call_ensures(func, (x, args), y) ==> y == g(x)
}

/// The iterate after step `k` compares unequal to the iterate at step `k`.
pub open spec fn step_changes<U: PartialEq>(g: spec_fn(U) -> U, x0: U, k: nat) -> bool {
    !iterate(g, x0, k + 1).eq_spec(&iterate(g, x0, k))
}

/// The iterate after step `k` compares strictly greater than the iterate at
/// step `k`.
pub open spec fn step_increases<U: PartialOrd>(g: spec_fn(U) -> U, x0: U, k: nat) -> bool {
    exceeds(iterate(g, x0, k + 1), iterate(g, x0, k))
}

/// The iterate at step `k` compares strictly greater than `mv`.
pub open spec fn iterate_exceeds<U: PartialOrd>(
    g: spec_fn(U) -> U,
    x0: U,
    k: nat,
    mv: U,
) -> bool {
    exceeds(iterate(g, x0, k), mv)
}

/// Under a deterministic transition function, a trace is pinned down: its
/// entry at index `i` is the `i`-th iterate.
pub proof fn lemma_trace_entry_is_iterate<T, U, F: Fn(U, &T) -> U>(
    func: F,
    args: &T,
    x0: U,
    s: Seq<U>,
    g: spec_fn(U) -> U,
    i: int,
)
    requires
        trace_of(func, args, x0, s),
        models(func, args, g),
        0 <= i < s.len(),
    ensures
        s[i] == iterate(g, x0, i as nat),
    decreases i,
{
    if i > 0 {
        lemma_trace_entry_is_iterate(func, args, x0, s, g, i - 1);
        assert(call_ensures(func, (s[i - 1], args), s[i]));
    }
}

/// Once `g` reaches a fixed point, every later iterate stays there.
pub proof fn lemma_iterate_stable<U>(g: spec_fn(U) -> U, x0: U, n: nat, k: nat)
    requires
        g(iterate(g, x0, n)) == iterate(g, x0, n),
        n <= k,
    ensures
        iterate(g, x0, k) == iterate(g, x0, n),
    decreases k - n,
{
    if k > n {
        lemma_iterate_stable(g, x0, n, (k - 1) as nat);
    }
}

/// Law: convergence.  If the transition function behaves as a mathematical
/// function `g`, equality on the value type is true equality, iteration of
/// `g` from `x0` reaches a fixed point within the budget, and no value bound
/// is given, then the call returns exactly that fixed point.
pub proof fn lemma_convergence<T, U: PartialOrd + Copy, F: Fn(U, &T) -> U>(
    func: F,
    args: &T,
    x0: U,
    maxiter: Option<usize>,
    r: Result<U, FixedPointError>,
    g: spec_fn(U) -> U,
    n: nat,
)
    requires
        fixedpoint_post(func, args, x0, maxiter, None::<U>, r),
        models(func, args, g),
        obeys_concrete_eq::<U>(),
        g(iterate(g, x0, n)) == iterate(g, x0, n),
        n < effective_limit(maxiter),
    ensures
        r == Ok::<U, FixedPointError>(iterate(g, x0, n)),
{
    reveal(vstd::laws_eq::obeys_concrete_eq);
    let limit: usize = effective_limit(maxiter);
    match r {
        Ok(v) => {
            let s = choose|s: Seq<U>|
                #[trigger] converging_trace(func, args, x0, s, limit, None::<U>) && v == s.last();
            let j = s.len() - 2;
            lemma_trace_entry_is_iterate(func, args, x0, s, g, j);
            lemma_trace_entry_is_iterate(func, args, x0, s, g, j + 1);
            assert(s.last() == s[j + 1]);
            assert(s[j + 1].eq_spec(&s[j]));
            assert(iterate(g, x0, (j + 1) as nat) == iterate(g, x0, j as nat));
            if j <= n {
                lemma_iterate_stable(g, x0, j as nat, n);
            } else {
                lemma_trace_entry_is_iterate(func, args, x0, s, g, n as int);
                lemma_trace_entry_is_iterate(func, args, x0, s, g, n as int + 1);
                lemma_iterate_stable(g, x0, n, n + 1);
                assert(s[n as int + 1] == s[n as int]);
                assert(!s[n as int + 1].eq_spec(&s[n as int]));
                assert(false);
            }
        },
        Err(FixedPointError::IterationLimitExceeded(_)) => {
            let s = choose|s: Seq<U>|
                #[trigger] iteration_limit_trace(func, args, x0, s, limit, None::<U>);
            lemma_trace_entry_is_iterate(func, args, x0, s, g, n as int);
            lemma_trace_entry_is_iterate(func, args, x0, s, g, n as int + 1);
            lemma_iterate_stable(g, x0, n, n + 1);
            assert(s[n as int + 1] == s[n as int]);
            assert(!s[n as int + 1].eq_spec(&s[n as int]));
            assert(false);
        },
        Err(FixedPointError::ValueLimitExceeded) => {
            let s = choose|s: Seq<U>|
                #[trigger] value_limit_trace(func, args, x0, s, limit, None::<U>);
            assert(value_limit_trace(func, args, x0, s, limit, None::<U>));
            assert(false);
        },
        Err(FixedPointError::InvalidConfiguration) => {
            assert(maxiter == Some(0usize));
            assert(false);
        },
    }
}

/// Law: idempotence at a fixed point.  If the transition function behaves as
/// `g` and `x0` is already a fixed point of `g`, the call returns `x0`, and
/// it does so after a single application: every converging trace for this
/// start value holds exactly the start value and that one application.
pub proof fn lemma_idempotence<T, U: PartialOrd + Copy, F: Fn(U, &T) -> U>(
    func: F,
    args: &T,
    x0: U,
    maxiter: Option<usize>,
    maxval: Option<U>,
    r: Result<U, FixedPointError>,
    g: spec_fn(U) -> U,
)
    requires
        fixedpoint_post(func, args, x0, maxiter, maxval, r),
        models(func, args, g),
        obeys_concrete_eq::<U>(),
        g(x0) == x0,
        maxiter != Some(0usize),
    ensures
        r == Ok::<U, FixedPointError>(x0),
        forall|s: Seq<U>|
            #[trigger] converging_trace(func, args, x0, s, effective_limit(maxiter), maxval)
                ==> s.len() == 2,
{
    reveal(vstd::laws_eq::obeys_concrete_eq);
    let limit: usize = effective_limit(maxiter);
    assert(g(iterate(g, x0, 0)) == iterate(g, x0, 0));
    assert forall|s: Seq<U>|
        #[trigger] trace_of(func, args, x0, s) && models(func, args, g) implies s[1] == s[0] by {
        lemma_trace_entry_is_iterate(func, args, x0, s, g, 0);
        lemma_trace_entry_is_iterate(func, args, x0, s, g, 1);
        lemma_iterate_stable(g, x0, 0, 1);
    }
    assert forall|s: Seq<U>|
        #[trigger] converging_trace(func, args, x0, s, limit, maxval) implies s.len() == 2 by {
        if s.len() > 2 {
            assert(!s[1].eq_spec(&s[0]));
            assert(false);
        }
    }
    match r {
        Ok(v) => {
            let s = choose|s: Seq<U>|
                #[trigger] converging_trace(func, args, x0, s, limit, maxval) && v == s.last();
            lemma_trace_entry_is_iterate(func, args, x0, s, g, 1);
            lemma_iterate_stable(g, x0, 0, 1);
            assert(s.len() == 2);
            assert(v == s[1]);
        },
        Err(FixedPointError::IterationLimitExceeded(_)) => {
            let s = choose|s: Seq<U>|
                #[trigger] iteration_limit_trace(func, args, x0, s, limit, maxval);
            assert(!s[1].eq_spec(&s[0]));
            assert(false);
        },
        Err(FixedPointError::ValueLimitExceeded) => {
            let s = choose|s: Seq<U>|
                #[trigger] value_limit_trace(func, args, x0, s, limit, maxval);
            assert(!s[1].eq_spec(&s[0]));
            assert(false);
        },
        Err(FixedPointError::InvalidConfiguration) => {
            assert(false);
        },
    }
}

/// Law: the iteration limit.  If the transition function behaves as `g` and
/// its first `n` iterates each compare unequal to their predecessor, a call
/// with a budget of `n` fails with `IterationLimitExceeded` carrying `n`.
/// No value bound is given: the budget alone stops the run.
pub proof fn lemma_iteration_limit<T, U: PartialOrd + Copy, F: Fn(U, &T) -> U>(
    func: F,
    args: &T,
    x0: U,
    n: usize,
    r: Result<U, FixedPointError>,
    g: spec_fn(U) -> U,
)
    requires
        fixedpoint_post(func, args, x0, Some(n), None::<U>, r),
        models(func, args, g),
        n >= 1,
        forall|k: nat| k < n ==> #[trigger] step_changes(g, x0, k),
    ensures
        r == Err::<U, FixedPointError>(FixedPointError::IterationLimitExceeded(n)),
{
    let limit: usize = effective_limit(Some(n));
    match r {
        Ok(v) => {
            let s = choose|s: Seq<U>|
                #[trigger] converging_trace(func, args, x0, s, limit, None::<U>) && v == s.last();
            let j = s.len() - 2;
            lemma_trace_entry_is_iterate(func, args, x0, s, g, j);
            lemma_trace_entry_is_iterate(func, args, x0, s, g, j + 1);
            assert(s.last() == s[j + 1]);
            assert(step_changes(g, x0, j as nat));
            assert(false);
        },
        Err(FixedPointError::IterationLimitExceeded(_)) => {
        },
        Err(FixedPointError::ValueLimitExceeded) => {
            let s = choose|s: Seq<U>|
                #[trigger] value_limit_trace(func, args, x0, s, limit, None::<U>);
            assert(value_limit_trace(func, args, x0, s, limit, None::<U>));
            assert(false);
        },
        Err(FixedPointError::InvalidConfiguration) => {
            assert(false);
        },
    }
}

/// Law: the value limit.  If the transition function behaves as `g`, the
/// type orders its values coherently, every step up to the first checked
/// crossing strictly increases, the iterates exceed the bound `mv` from step
/// `e` on and not before, and the budget outlasts the step at which the
/// bound is first checked and found crossed, then the call fails with
/// `ValueLimitExceeded` — it never returns a value — and it stops at the
/// first checked iterate that exceeds the bound: every crossing trace ends
/// right there.
#[verifier::rlimit(50)]
pub proof fn lemma_value_limit<T, U: PartialOrd + Copy, F: Fn(U, &T) -> U>(
    func: F,
    args: &T,
    x0: U,
    maxiter: Option<usize>,
    mv: U,
    r: Result<U, FixedPointError>,
    g: spec_fn(U) -> U,
    e: nat,
)
    requires
        fixedpoint_post(func, args, x0, maxiter, Some(mv), r),
        models(func, args, g),
        obeys_cmp_partial_ord::<U>(),
        forall|k: nat| k < (if e >= 2 { e - 1 } else { 1 }) ==> #[trigger] step_increases(g, x0, k),
        forall|k: nat| k < e ==> !(#[trigger] iterate_exceeds(g, x0, k, mv)),
        forall|k: nat| e <= k ==> #[trigger] iterate_exceeds(g, x0, k, mv),
        (if e >= 2 { e - 1 } else { 1 }) < effective_limit(maxiter),
    ensures
        r == Err::<U, FixedPointError>(FixedPointError::ValueLimitExceeded),
        forall|s: Seq<U>|
            #[trigger] value_limit_trace(func, args, x0, s, effective_limit(maxiter), Some(mv))
                ==> s.len() == (if e >= 2 { e + 1 } else { 3 }),
{
    reveal(vstd::laws_cmp::obeys_cmp_partial_ord);
    let limit: usize = effective_limit(maxiter);
    match r {
        Ok(v) => {
            let s = choose|s: Seq<U>|
                #[trigger] converging_trace(func, args, x0, s, limit, Some(mv)) && v == s.last();
            let j = s.len() - 2;
            lemma_trace_entry_is_iterate(func, args, x0, s, g, j);
            lemma_trace_entry_is_iterate(func, args, x0, s, g, j + 1);
            assert(s.last() == s[j + 1]);
            let i0: int = if e >= 2 { e as int } else { 2 };
            if j + 1 >= i0 {
                lemma_trace_entry_is_iterate(func, args, x0, s, g, i0);
                assert(iterate_exceeds(g, x0, i0 as nat, mv));
                assert(!exceeds(s[i0], mv));
            } else {
                assert(step_increases(g, x0, j as nat));
            }
            assert(false);
        },
        Err(FixedPointError::IterationLimitExceeded(_)) => {
            let s = choose|s: Seq<U>|
                #[trigger] iteration_limit_trace(func, args, x0, s, limit, Some(mv));
            let i0: int = if e >= 2 { e as int } else { 2 };
            lemma_trace_entry_is_iterate(func, args, x0, s, g, i0);
            assert(iterate_exceeds(g, x0, i0 as nat, mv));
            assert(!exceeds(s[i0], mv));
            assert(false);
        },
        Err(FixedPointError::ValueLimitExceeded) => {
        },
        Err(FixedPointError::InvalidConfiguration) => {
            assert(false);
        },
    }
    assert forall|s: Seq<U>|
        #[trigger] value_limit_trace(func, args, x0, s, limit, Some(mv)) implies s.len() == (
    if e >= 2 {
        e + 1
    } else {
        3
    }) by {
        let last = s.len() - 1;
        lemma_trace_entry_is_iterate(func, args, x0, s, g, last);
        assert(s.last() == s[last]);
        assert(exceeds(s[last], mv));
        assert(iterate_exceeds(g, x0, last as nat, mv));
        assert(last >= e);
        if s.len() >= 4 {
            let i1 = s.len() - 2;
            lemma_trace_entry_is_iterate(func, args, x0, s, g, i1);
            assert(!exceeds(s[i1], mv));
            assert(!iterate_exceeds(g, x0, i1 as nat, mv));
            assert(i1 < e);
        }
    }
}

/// Law: precedence of the two bounds.  If a run spends its whole budget `n`
/// and the iterate computed at that final step also exceeds the value bound,
/// the call reports `IterationLimitExceeded`, not `ValueLimitExceeded`: the
/// budget is checked first.
pub proof fn lemma_precedence<T, U: PartialOrd + Copy, F: Fn(U, &T) -> U>(
    func: F,
    args: &T,
    x0: U,
    n: usize,
    mv: U,
    r: Result<U, FixedPointError>,
    g: spec_fn(U) -> U,
)
    requires
        fixedpoint_post(func, args, x0, Some(n), Some(mv), r),
        models(func, args, g),
        n >= 1,
        forall|k: nat| k < n ==> #[trigger] step_changes(g, x0, k),
        forall|k: nat| 2 <= k <= n ==> !(#[trigger] iterate_exceeds(g, x0, k, mv)),
        iterate_exceeds(g, x0, (n + 1) as nat, mv),
    ensures
        r == Err::<U, FixedPointError>(FixedPointError::IterationLimitExceeded(n)),
{
    let limit: usize = effective_limit(Some(n));
    match r {
        Ok(v) => {
            let s = choose|s: Seq<U>|
                #[trigger] converging_trace(func, args, x0, s, limit, Some(mv)) && v == s.last();
            let j = s.len() - 2;
            lemma_trace_entry_is_iterate(func, args, x0, s, g, j);
            lemma_trace_entry_is_iterate(func, args, x0, s, g, j + 1);
            assert(s.last() == s[j + 1]);
            assert(step_changes(g, x0, j as nat));
            assert(false);
        },
        Err(FixedPointError::IterationLimitExceeded(_)) => {
        },
        Err(FixedPointError::ValueLimitExceeded) => {
            let s = choose|s: Seq<U>|
                #[trigger] value_limit_trace(func, args, x0, s, limit, Some(mv));
            let j = s.len() - 2;
            lemma_trace_entry_is_iterate(func, args, x0, s, g, j + 1);
            assert(s.last() == s[j + 1]);
            assert(exceeds(s[j + 1], mv));
            assert(iterate_exceeds(g, x0, (j + 1) as nat, mv));
            assert(false);
        },
        Err(FixedPointError::InvalidConfiguration) => {
            assert(false);
        },
    }
}

} // verus!
