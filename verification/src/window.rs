//! The slice engine's mathematical model: effective bounds, the
//! take-then-skip window over a candidate sequence, and the page flags.

use vstd::math::{max, min};
use vstd::prelude::*;

verus! {

/// The effective value of an optional bound over a sequence of length `n`:
/// an absent bound collapses to `n`, a no-op for both take and skip.
pub open spec fn effective_bound(bound: Option<i64>, n: int) -> int {
    match bound {
        Some(b) => b as int,
        None => n,
    }
}

/// How many items the window takes from the front of the candidate
/// sequence, honoring `first`.
pub open spec fn take_count(n: int, first: Option<i64>) -> int {
    min(n, effective_bound(first, n))
}

/// How many leading items of that front window are then dropped, so that
/// at most `last` items remain, honoring `last`.
pub open spec fn skip_count(n: int, first: Option<i64>, last: Option<i64>) -> int {
    max(0, take_count(n, first) - effective_bound(last, n))
}

/// The window itself: indices `[skip_count, take_count)` of the candidate
/// sequence.
pub open spec fn window_of<N>(candidate: Seq<N>, first: Option<i64>, last: Option<i64>) -> Seq<N> {
    candidate.subrange(
        skip_count(candidate.len() as int, first, last),
        take_count(candidate.len() as int, first),
    )
}

/// There is a previous page exactly when a `last` bound was supplied and
/// the candidate sequence exceeds it.
pub open spec fn has_previous_spec(n: int, last: Option<i64>) -> bool {
    last matches Some(l) && n > l
}

/// There is a next page exactly when a `first` bound was supplied and the
/// candidate sequence exceeds it.
pub open spec fn has_next_spec(n: int, first: Option<i64>) -> bool {
    first matches Some(f) && n > f
}

/// A non-negative optional bound.
pub open spec fn nonneg_bound(bound: Option<i64>) -> bool {
    bound matches Some(b) ==> b >= 0
}

/// With only a `first` bound, the window is the leading `min(n, f)` items
/// of the candidate sequence, and the next-page flag says whether the
/// candidate sequence holds more than `f` items.
pub proof fn lemma_first_only<N>(candidate: Seq<N>, f: i64)
    requires
        f >= 0,
    ensures
        window_of(candidate, Some(f), None::<i64>) == candidate.take(
            min(candidate.len() as int, f as int),
        ),
        window_of(candidate, Some(f), None::<i64>).len() == min(candidate.len() as int, f as int),
        has_next_spec(candidate.len() as int, Some(f)) == (candidate.len() > f),
        !has_previous_spec(candidate.len() as int, None::<i64>),
{
}

/// With only a `last` bound, the window is the trailing `min(n, l)` items
/// of the candidate sequence, the previous-page flag says whether the
/// candidate sequence holds more than `l` items, and there is never a next
/// page.
pub proof fn lemma_last_only<N>(candidate: Seq<N>, l: i64)
    requires
        l >= 0,
    ensures
        window_of(candidate, None::<i64>, Some(l)) == candidate.skip(
            candidate.len() - min(candidate.len() as int, l as int),
        ),
        window_of(candidate, None::<i64>, Some(l)).len() == min(candidate.len() as int, l as int),
        has_previous_spec(candidate.len() as int, Some(l)) == (candidate.len() > l),
        !has_next_spec(candidate.len() as int, None::<i64>),
{
}

/// With both bounds, the window is the trailing `min(l, min(n, f))` items
/// of the front `min(n, f)` slice: `first` is applied first, then `last`
/// narrows that window from its trailing end.
pub proof fn lemma_first_and_last<N>(candidate: Seq<N>, f: i64, l: i64)
    requires
        f >= 0,
        l >= 0,
    ensures
        ({
            let front = candidate.take(min(candidate.len() as int, f as int));
            window_of(candidate, Some(f), Some(l)) == front.skip(
                front.len() - min(l as int, front.len() as int),
            )
        }),
        window_of(candidate, Some(f), Some(l)).len() == min(
            l as int,
            min(candidate.len() as int, f as int),
        ),
{
}

/// An empty candidate sequence gives an empty window and both page flags
/// false, whatever the bounds.
pub proof fn lemma_empty_candidates<N>(candidate: Seq<N>, first: Option<i64>, last: Option<i64>)
    requires
        candidate.len() == 0,
        nonneg_bound(first),
        nonneg_bound(last),
    ensures
        window_of(candidate, first, last).len() == 0,
        !has_previous_spec(candidate.len() as int, last),
        !has_next_spec(candidate.len() as int, first),
{
}

} // verus!
