//! Connection assembly: pagination argument validation, the slice engine,
//! and the connection / edge / page-info response types.

use crate::cursor::RelayCursor;
use crate::window::{
    has_next_spec, has_previous_spec, lemma_empty_candidates, lemma_first_and_last,
    lemma_first_only, lemma_last_only, nonneg_bound, skip_count, take_count, window_of,
};
use vstd::math::min;
use vstd::prelude::*;

verus! {

/// A record that can appear inside a connection: it exposes a cursor and
/// names the wrapper types that the surrounding query-exposition layer
/// uses for its connections and edges.
pub trait RelayConnectionNode: Sized {
    /// The node's cursor type.
    type Cursor: RelayCursor;

    /// The cursor associated with this node, as a mathematical value.
    spec fn cursor_spec(&self) -> Self::Cursor;

    /// Returns the cursor associated with this node.
    fn cursor(&self) -> (c: Self::Cursor)
        ensures
            c == self.cursor_spec(),
    ;

    /// The type name connections over these nodes have in the API.
    fn connection_type_name() -> &'static str;

    /// The type name edges containing these nodes have in the API.
    fn edge_type_name() -> &'static str;
}

/// One paginated item together with the string rendering of its cursor.
#[derive(Debug)]
pub struct RelayConnectionEdge<N> {
    pub node: N,
    pub cursor: String,
}

/// Forward/backward pagination metadata for one connection.
#[derive(Debug)]
pub struct RelayConnectionPageInfo {
    pub has_previous_page: bool,
    pub has_next_page: bool,
    pub start_cursor: Option<String>,
    pub end_cursor: Option<String>,
}

/// A relay-style paginated response: the windowed edges in order, plus
/// the page metadata.
#[derive(Debug)]
pub struct RelayConnection<N> {
    pub edges: Vec<RelayConnectionEdge<N>>,
    pub page_info: RelayConnectionPageInfo,
}

/// Why a pagination request was aborted. A loader failure is carried
/// through unchanged in `Loader`; the other variants are this library's
/// own checks.
#[derive(Debug)]
pub enum RelayError<E> {
    /// A negative `first` or `last` bound, with the validation message.
    InvalidArgument(&'static str),
    /// A malformed `after` or `before` string, with the parse failure's
    /// description.
    CursorDecode(String),
    /// The candidate sequence's length does not fit the pagination
    /// integer type.
    LengthOverflow,
    /// The loader itself failed; its error is propagated verbatim.
    Loader(E),
}

/// Checks that a pagination bound is non-negative, returning it unchanged;
/// a negative bound is rejected with the fixed validation message.
pub fn leq_zero(val: i64) -> (r: Result<i64, &'static str>)
    ensures
        val >= 0 ==> r == Result::<i64, &'static str>::Ok(val),
        val < 0 ==> (r matches Err(m) && m@ == "pagination argument must be positive"@),
{
    if val < 0 {
        Err("pagination argument must be positive")
    } else {
        Ok(val)
    }
}

/// Whether an optional cursor string decodes (an absent string trivially
/// does).
pub open spec fn decode_ok<C: RelayCursor>(s: Option<String>) -> bool {
    match s {
        Some(t) => C::decoded(t@) is Some,
        None => true,
    }
}

/// The cursor an optional cursor string decodes to.
pub open spec fn decoded_cursor<C: RelayCursor>(s: Option<String>) -> Option<C> {
    match s {
        Some(t) => C::decoded(t@),
        None => None,
    }
}

/// A non-negative optional pagination argument.
pub open spec fn nonneg_arg(v: Option<i32>) -> bool {
    v matches Some(x) ==> x >= 0
}

/// The pagination argument widened to the bound type.
pub open spec fn widened(v: Option<i32>) -> Option<i64> {
    match v {
        Some(x) => Some(x as i64),
        None => None,
    }
}

/// The fetch-limit hint handed to the loader: one more than `first`, so
/// that the slice engine can detect a further page, or absent when no
/// `first` bound was supplied.
pub open spec fn limit_hint(first: Option<i64>) -> Option<i64> {
    match first {
        Some(f) => Some((f + 1) as i64),
        None => None,
    }
}

impl<N: RelayConnectionNode> RelayConnection<N> {
    /// The connection is exactly the window of `candidate` under the
    /// given bounds: the edges are the windowed nodes in order, each
    /// paired with its cursor's string rendering; the page flags follow
    /// the bounds; and the boundary cursors are those of the first and
    /// last edge, or absent together when there are no edges.
    pub open spec fn matches_window(
        self,
        candidate: Seq<N>,
        first: Option<i64>,
        last: Option<i64>,
    ) -> bool {
        let win = window_of(candidate, first, last);
        &&& self.edges@.len() == win.len()
        &&& (forall|i: int| 0 <= i < win.len() ==> (#[trigger] self.edges@[i]).node == win[i])
        &&& (forall|i: int|
            0 <= i < win.len() ==> (#[trigger] self.edges@[i]).cursor@ == win[i].cursor_spec().encoded())
        &&& self.page_info.has_previous_page == has_previous_spec(candidate.len() as int, last)
        &&& self.page_info.has_next_page == has_next_spec(candidate.len() as int, first)
        &&& (if win.len() == 0 {
            self.page_info.start_cursor is None && self.page_info.end_cursor is None
        } else {
            (self.page_info.start_cursor matches Some(s) && s@ == self.edges@[0].cursor@)
                && (self.page_info.end_cursor matches Some(s) && s@ == self.edges@[win.len()
                - 1].cursor@)
        })
    }

    /// The slice engine and connection assembler: windows an
    /// already-loaded candidate sequence under validated bounds and
    /// wraps it into a connection. Fails only when the candidate
    /// sequence's length does not fit the pagination integer type.
    pub fn from_candidates<E>(candidates: Vec<N>, first: Option<i64>, last: Option<i64>) -> (r:
        Result<RelayConnection<N>, RelayError<E>>)
        requires
            nonneg_bound(first),
            nonneg_bound(last),
        ensures
            candidates@.len() <= i64::MAX ==> (r matches Ok(conn) && conn.matches_window(
                candidates@,
                first,
                last,
            )),
            candidates@.len() > i64::MAX ==> r == Result::<
                RelayConnection<N>,
                RelayError<E>,
            >::Err(RelayError::LengthOverflow),
    {
        let ghost orig: Seq<N> = candidates@;
        let n_usize: usize = candidates.len();
        if n_usize as u64 > i64::MAX as u64 {
            return Err(RelayError::LengthOverflow);
        }
        let n: i64 = n_usize as i64;

        let has_previous_page: bool = match last {
            Some(l) => n > l,
            None => false,
        };
        let has_next_page: bool = match first {
            Some(f) => n > f,
            None => false,
        };

        let eff_first: i64 = match first {
            Some(f) => f,
            None => n,
        };
        let eff_last: i64 = match last {
            Some(l) => l,
            None => n,
        };
        let take: i64 = if n < eff_first {
            n
        } else {
            eff_first
        };
        let diff: i64 = take - eff_last;
        let skip: i64 = if diff > 0 {
            diff
        } else {
            0
        };
        let take_usize: usize = take as usize;
        let skip_usize: usize = skip as usize;

        let ghost win: Seq<N> = window_of(orig, first, last);
        let mut work = candidates;
        work.truncate(take_usize);
        let mut j: usize = 0;
        while j < skip_usize
            invariant
                j <= skip_usize <= take_usize <= n_usize,
                n_usize == orig.len(),
                work@ == orig.subrange(j as int, take_usize as int),
            decreases skip_usize - j,
        {
            let _dropped = work.remove(0);
            j += 1;
        }

        let mut edges: Vec<RelayConnectionEdge<N>> = Vec::new();
        while work.len() > 0
            invariant
                edges@.len() + work@.len() == win.len(),
                work@ == win.subrange(edges@.len() as int, win.len() as int),
                forall|i: int| 0 <= i < edges@.len() ==> (#[trigger] edges@[i]).node == win[i],
                forall|i: int|
                    0 <= i < edges@.len() ==> (#[trigger] edges@[i]).cursor@
                        == win[i].cursor_spec().encoded(),
            decreases work@.len(),
        {
            let node = work.remove(0);
            let cursor_value = node.cursor();
            let cursor = cursor_value.to_cursor_string();
            edges.push(RelayConnectionEdge { node, cursor });
        }

        let start_cursor: Option<String> = if edges.len() > 0 {
            Some(edges[0].cursor.clone())
        } else {
            None
        };
        let end_cursor: Option<String> = if edges.len() > 0 {
            Some(edges[edges.len() - 1].cursor.clone())
        } else {
            None
        };

        Ok(
            RelayConnection {
                edges,
                page_info: RelayConnectionPageInfo {
                    has_previous_page,
                    has_next_page,
                    start_cursor,
                    end_cursor,
                },
            },
        )
    }

    /// The whole pagination pipeline: decodes the cursor strings,
    /// validates the bounds, invokes the loader once with the decoded
    /// cursors and the fetch-limit hint, and windows whatever candidate
    /// sequence it returned. Aborts before the loader call on a
    /// malformed cursor string or a negative bound; a loader failure is
    /// propagated verbatim.
    pub fn new<F, E>(
        first: Option<i32>,
        after: Option<String>,
        last: Option<i32>,
        before: Option<String>,
        load: F,
    ) -> (r: Result<RelayConnection<N>, RelayError<E>>) where
        F: FnOnce(Option<N::Cursor>, Option<N::Cursor>, Option<i64>) -> Result<Vec<N>, E>,

        requires
            forall|a: Option<N::Cursor>, b: Option<N::Cursor>, l: Option<i64>|
                call_requires(load, (a, b, l)),
        ensures
            !decode_ok::<N::Cursor>(after) ==> (r matches Err(e)
                && e matches RelayError::CursorDecode(m) && m@ == <N::Cursor as RelayCursor>::decode_err(
                (after->0)@,
            )),
            decode_ok::<N::Cursor>(after) && !decode_ok::<N::Cursor>(before) ==> (r matches Err(e)
                && e matches RelayError::CursorDecode(m) && m@ == <N::Cursor as RelayCursor>::decode_err(
                (before->0)@,
            )),
            decode_ok::<N::Cursor>(after) && decode_ok::<N::Cursor>(before) && !(nonneg_arg(first)
                && nonneg_arg(last)) ==> (r matches Err(e) && e matches RelayError::InvalidArgument(m)
                && m@ == "pagination argument must be positive"@),
            decode_ok::<N::Cursor>(after) && decode_ok::<N::Cursor>(before) && nonneg_arg(first)
                && nonneg_arg(last) ==> (exists|lr: Result<Vec<N>, E>|
                {
                    &&& #[trigger] call_ensures(
                        load,
                        (
                            decoded_cursor::<N::Cursor>(after),
                            decoded_cursor::<N::Cursor>(before),
                            limit_hint(widened(first)),
                        ),
                        lr,
                    )
                    &&& match lr {
                        Ok(cand) => if cand@.len() <= i64::MAX {
                            r matches Ok(conn) && conn.matches_window(
                                cand@,
                                widened(first),
                                widened(last),
                            )
                        } else {
                            r == Result::<RelayConnection<N>, RelayError<E>>::Err(
                                RelayError::LengthOverflow,
                            )
                        },
                        Err(e) => r == Result::<RelayConnection<N>, RelayError<E>>::Err(
                            RelayError::Loader(e),
                        ),
                    }
                }),
    {
        let after_cursor: Option<N::Cursor> = match after {
            Some(s) => match <N::Cursor as RelayCursor>::from_cursor_string(s.as_str()) {
                Ok(c) => Some(c),
                Err(m) => {
                    return Err(RelayError::CursorDecode(m));
                },
            },
            None => None,
        };
        let before_cursor: Option<N::Cursor> = match before {
            Some(s) => match <N::Cursor as RelayCursor>::from_cursor_string(s.as_str()) {
                Ok(c) => Some(c),
                Err(m) => {
                    return Err(RelayError::CursorDecode(m));
                },
            },
            None => None,
        };

        let first_i64: Option<i64> = match first {
            Some(f) => match leq_zero(f as i64) {
                Ok(v) => Some(v),
                Err(m) => {
                    return Err(RelayError::InvalidArgument(m));
                },
            },
            None => None,
        };
        let last_i64: Option<i64> = match last {
            Some(l) => match leq_zero(l as i64) {
                Ok(v) => Some(v),
                Err(m) => {
                    return Err(RelayError::InvalidArgument(m));
                },
            },
            None => None,
        };

        let limit: Option<i64> = match first_i64 {
            Some(f) => Some(f + 1),
            None => None,
        };

        let loaded = load(after_cursor, before_cursor, limit);
        match loaded {
            Err(e) => Err(RelayError::Loader(e)),
            Ok(candidates) => Self::from_candidates::<E>(candidates, first_i64, last_i64),
        }
    }
}

/// With only a `first` bound, a connection over a candidate sequence
/// holds its leading `min(n, f)` nodes in order, signals a next page
/// exactly when the candidate sequence holds more than `f` items, and
/// never signals a previous page.
pub proof fn lemma_connection_first_only<N: RelayConnectionNode>(
    conn: RelayConnection<N>,
    candidate: Seq<N>,
    f: i64,
)
    requires
        f >= 0,
        conn.matches_window(candidate, Some(f), None::<i64>),
    ensures
        conn.edges@.len() == min(candidate.len() as int, f as int),
        forall|i: int|
            0 <= i < conn.edges@.len() ==> (#[trigger] conn.edges@[i]).node == candidate[i],
        conn.page_info.has_next_page == (candidate.len() > f),
        !conn.page_info.has_previous_page,
{
    lemma_first_only(candidate, f);
    let win = window_of(candidate, Some(f), None::<i64>);
    assert forall|i: int| 0 <= i < conn.edges@.len() implies (#[trigger] conn.edges@[i]).node
        == candidate[i] by {
        assert(win[i] == candidate[i]);
    }
}

/// With only a `last` bound, a connection over a candidate sequence
/// holds its trailing `min(n, l)` nodes in order, signals a previous
/// page exactly when the candidate sequence holds more than `l` items,
/// and never signals a next page.
pub proof fn lemma_connection_last_only<N: RelayConnectionNode>(
    conn: RelayConnection<N>,
    candidate: Seq<N>,
    l: i64,
)
    requires
        l >= 0,
        conn.matches_window(candidate, None::<i64>, Some(l)),
    ensures
        conn.edges@.len() == min(candidate.len() as int, l as int),
        forall|i: int|
            0 <= i < conn.edges@.len() ==> (#[trigger] conn.edges@[i]).node == candidate[candidate.len()
                - conn.edges@.len() + i],
        conn.page_info.has_previous_page == (candidate.len() > l),
        !conn.page_info.has_next_page,
{
    lemma_last_only(candidate, l);
    let win = window_of(candidate, None::<i64>, Some(l));
    assert forall|i: int| 0 <= i < conn.edges@.len() implies (#[trigger] conn.edges@[i]).node
        == candidate[candidate.len() - conn.edges@.len() + i] by {
        assert(win[i] == candidate[candidate.len() - win.len() + i]);
    }
}

/// With both bounds, a connection over a candidate sequence holds the
/// trailing `min(l, min(n, f))` nodes of the front `min(n, f)` slice, in
/// order: `first` is applied first, and `last` then narrows that window
/// from its trailing end.
pub proof fn lemma_connection_first_and_last<N: RelayConnectionNode>(
    conn: RelayConnection<N>,
    candidate: Seq<N>,
    f: i64,
    l: i64,
)
    requires
        f >= 0,
        l >= 0,
        conn.matches_window(candidate, Some(f), Some(l)),
    ensures
        conn.edges@.len() == min(l as int, min(candidate.len() as int, f as int)),
        forall|i: int|
            0 <= i < conn.edges@.len() ==> (#[trigger] conn.edges@[i]).node == candidate[min(
                candidate.len() as int,
                f as int,
            ) - conn.edges@.len() + i],
        conn.page_info.has_next_page == (candidate.len() > f),
        conn.page_info.has_previous_page == (candidate.len() > l),
{
    lemma_first_and_last(candidate, f, l);
    let win = window_of(candidate, Some(f), Some(l));
    let tc = min(candidate.len() as int, f as int);
    assert forall|i: int| 0 <= i < conn.edges@.len() implies (#[trigger] conn.edges@[i]).node
        == candidate[tc - conn.edges@.len() + i] by {
        assert(win[i] == candidate[tc - win.len() + i]);
    }
}

/// Over an empty candidate sequence the connection is empty: no edges,
/// both page flags false, both boundary cursors absent, whatever the
/// bounds.
pub proof fn lemma_connection_empty_candidates<N: RelayConnectionNode>(
    conn: RelayConnection<N>,
    candidate: Seq<N>,
    first: Option<i64>,
    last: Option<i64>,
)
    requires
        candidate.len() == 0,
        nonneg_bound(first),
        nonneg_bound(last),
        conn.matches_window(candidate, first, last),
    ensures
        conn.edges@.len() == 0,
        !conn.page_info.has_previous_page,
        !conn.page_info.has_next_page,
        conn.page_info.start_cursor is None,
        conn.page_info.end_cursor is None,
{
    lemma_empty_candidates(candidate, first, last);
}

impl<N> RelayConnection<N> {
    /// A connection with no elements: empty edges, both page flags
    /// false, both boundary cursors absent. Makes no loader call, so a
    /// caller short-circuiting before data access produces the same
    /// shape as a zero-result query.
    pub fn empty() -> (r: RelayConnection<N>)
        ensures
            r.edges@.len() == 0,
            !r.page_info.has_previous_page,
            !r.page_info.has_next_page,
            r.page_info.start_cursor is None,
            r.page_info.end_cursor is None,
    {
        RelayConnection {
            edges: Vec::new(),
            page_info: RelayConnectionPageInfo {
                has_previous_page: false,
                has_next_page: false,
                start_cursor: None,
                end_cursor: None,
            },
        }
    }
}

} // verus!
