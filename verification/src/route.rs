//! Translation of the HTTP boundary's method and path into an engine
//! operation.  The transport itself (sockets, headers, bodies) stays
//! outside the library; what is verified here is the routing decision
//! and the extraction of the record id from the path's last segment.

use vstd::prelude::*;

use crate::model::str_eq;
use vstd::string::StrSliceExecFns;

verus! {

/// The engine operation a request maps to.
#[derive(Debug)]
pub enum Route {
    /// `POST /workflows`: submit the decoded workflow.
    SubmitWorkflow,
    /// `GET /workflows/{id}`: look one execution up.
    GetWorkflow(String),
    /// `DELETE /workflows/{id}`: remove one execution.
    DeleteWorkflow(String),
    /// `GET /workflows`: list every execution.
    ListWorkflows,
    /// Anything else.
    NotFound,
}

/// Mathematical view of a [`Route`].
pub enum RouteView {
    SubmitWorkflow,
    GetWorkflow(Seq<char>),
    DeleteWorkflow(Seq<char>),
    ListWorkflows,
    NotFound,
}

impl View for Route {
    type V = RouteView;

    open spec fn view(&self) -> RouteView {
        match self {
            Route::SubmitWorkflow => RouteView::SubmitWorkflow,
            Route::GetWorkflow(id) => RouteView::GetWorkflow(id@),
            Route::DeleteWorkflow(id) => RouteView::DeleteWorkflow(id@),
            Route::ListWorkflows => RouteView::ListWorkflows,
            Route::NotFound => RouteView::NotFound,
        }
    }
}

/// Whether `p` begins with `prefix`.
pub open spec fn seq_starts_with(p: Seq<char>, prefix: Seq<char>) -> bool {
    prefix.len() <= p.len() && p.subrange(0, prefix.len() as int) == prefix
}

/// The suffix of `p` after its last `/`; all of `p` if it has none.
/// This is the id segment of a `/workflows/{id}` path.
pub open spec fn last_segment(p: Seq<char>) -> Seq<char>
    decreases p.len(),
{
    if p.len() == 0 {
        p
    } else if p[p.len() - 1] == '/' {
        Seq::empty()
    } else {
        last_segment(p.drop_last()).push(p[p.len() - 1])
    }
}

/// If nothing at or after position `i` is a `/`, and `i` is either the
/// start of `p` or just after a `/`, then the last segment of `p` is
/// exactly the suffix from `i`.
proof fn lemma_last_segment(p: Seq<char>, i: int)
    requires
        0 <= i <= p.len(),
        forall|j: int| i <= j < p.len() ==> p[j] != '/',
        i > 0 ==> p[i - 1] == '/',
    ensures
        last_segment(p) == p.subrange(i, p.len() as int),
    decreases p.len(),
{
    if i == p.len() {
        if i > 0 {
            assert(p[p.len() - 1] == '/');
            assert(last_segment(p) == Seq::<char>::empty());
        }
        assert(last_segment(p) =~= p.subrange(i, p.len() as int));
    } else {
        assert(p[p.len() - 1] != '/');
        let q = p.drop_last();
        if i <= q.len() {
            lemma_last_segment(q, i);
            assert(q.subrange(i, q.len() as int).push(p[p.len() - 1]) =~= p.subrange(
                i,
                p.len() as int,
            ));
        }
    }
}

/// An id that contains no `/` comes back unchanged from the path it
/// was appended to: the last segment of `prefix + id` is `id` whenever
/// the prefix ends in `/`.  This is what lets a record submitted under
/// a generated id be addressed as `/workflows/{id}` afterwards.
pub proof fn lemma_last_segment_after_slash(prefix: Seq<char>, id: Seq<char>)
    requires
        prefix.len() > 0,
        prefix[prefix.len() - 1] == '/',
        forall|i: int| 0 <= i < id.len() ==> id[i] != '/',
    ensures
        last_segment(prefix + id) == id,
{
    let p = prefix + id;
    assert(forall|i: int| 0 <= i < id.len() ==> p[prefix.len() + i] == id[i]);
    lemma_last_segment(p, prefix.len() as int);
    assert(p.subrange(prefix.len() as int, p.len() as int) =~= id);
}

/// Which engine operation a method and path select: the four routes of
/// the boundary's table, in match order, and `NotFound` for the rest.
pub open spec fn route_spec(m: Seq<char>, p: Seq<char>) -> RouteView {
    if m == "POST"@ && p == "/workflows"@ {
        RouteView::SubmitWorkflow
    } else if m == "GET"@ && seq_starts_with(p, "/workflows/"@) {
        RouteView::GetWorkflow(last_segment(p))
    } else if m == "DELETE"@ && seq_starts_with(p, "/workflows/"@) {
        RouteView::DeleteWorkflow(last_segment(p))
    } else if m == "GET"@ && p == "/workflows"@ {
        RouteView::ListWorkflows
    } else {
        RouteView::NotFound
    }
}

/// Whether `s` begins with `prefix`, character by character.
pub fn str_starts_with(s: &str, prefix: &str) -> (r: bool)
    ensures
        r == seq_starts_with(s@, prefix@),
{
    let n = s.unicode_len();
    let np = prefix.unicode_len();
    if np > n {
        return false;
    }
    let mut i: usize = 0;
    while i < np
        invariant
            n == s@.len(),
            np == prefix@.len(),
            np <= n,
            i <= np,
            forall|j: int| 0 <= j < i ==> s@[j] == prefix@[j],
        decreases np - i,
    {
        if s.get_char(i) != prefix.get_char(i) {
            proof {
                if seq_starts_with(s@, prefix@) {
                    assert(s@.subrange(0, np as int)[i as int] == prefix@[i as int]);
                }
            }
            return false;
        }
        i += 1;
    }
    proof {
        assert(s@.subrange(0, np as int) =~= prefix@);
    }
    true
}

/// The id segment of a path: everything after the last `/`, or the
/// whole path if it has none.
pub fn extract_id(path: &str) -> (r: String)
    ensures
        r@ == last_segment(path@),
{
    let n = path.unicode_len();
    let mut start: usize = 0;
    let mut j: usize = 0;
    while j < n
        invariant
            n == path@.len(),
            j <= n,
            start <= j,
            start > 0 ==> path@[start - 1] == '/',
            forall|m: int| start <= m < j ==> path@[m] != '/',
        decreases n - j,
    {
        if path.get_char(j) == '/' {
            start = j + 1;
        }
        j += 1;
    }
    proof {
        lemma_last_segment(path@, start as int);
    }
    let seg = path.substring_char(start, n);
    seg.to_owned()
}

/// Maps a request's method and path to the engine operation of the
/// boundary's table, extracting the id for the per-record routes.
pub fn route(method: &str, path: &str) -> (r: Route)
    ensures
        r@ == route_spec(method@, path@),
{
    if str_eq(method, "POST") && str_eq(path, "/workflows") {
        Route::SubmitWorkflow
    } else if str_eq(method, "GET") && str_starts_with(path, "/workflows/") {
        Route::GetWorkflow(extract_id(path))
    } else if str_eq(method, "DELETE") && str_starts_with(path, "/workflows/") {
        Route::DeleteWorkflow(extract_id(path))
    } else if str_eq(method, "GET") && str_eq(path, "/workflows") {
        Route::ListWorkflows
    } else {
        Route::NotFound
    }
}

} // verus!
