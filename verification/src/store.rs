//! The execution store: the ordered collection of execution records that
//! every backend persists, keyed by id with first-match lookup.
//!
//! The store itself is backend-agnostic: the in-memory backend holds one
//! `ExecutionStore` behind a lock, while an externally persisted backend
//! decodes the whole collection into an `ExecutionStore`, applies one
//! operation, and writes the collection back (a read-modify-write whose
//! lost-update race under concurrency is a documented property of that
//! backend, not of this collection).

use vstd::prelude::*;

use crate::model::{str_eq, ExecutionView, Status, WorkflowExecution};

verus! {

/// Whether some record in `s` carries the id `id`.
pub open spec fn contains_id(s: Seq<ExecutionView>, id: Seq<char>) -> bool {
    exists|i: int| 0 <= i < s.len() && s[i].id == id
}

/// Index of the first record in `s` whose id is `id`, or `-1` if there
/// is none.  Lookups, status updates and removals all act on this first
/// match.
pub open spec fn first_index_of(s: Seq<ExecutionView>, id: Seq<char>) -> int
    decreases s.len(),
{
    if s.len() == 0 {
        -1
    } else if s[0].id == id {
        0
    } else {
        let r = first_index_of(s.subrange(1, s.len() as int), id);
        if r == -1 {
            -1
        } else {
            r + 1
        }
    }
}

/// `first_index_of` really is the first matching index: it is in range
/// exactly when some record matches, it matches, and nothing before it
/// does.
pub proof fn lemma_first_index_of(s: Seq<ExecutionView>, id: Seq<char>)
    ensures
        contains_id(s, id) <==> 0 <= first_index_of(s, id) < s.len(),
        !contains_id(s, id) ==> first_index_of(s, id) == -1,
        0 <= first_index_of(s, id) ==> s[first_index_of(s, id)].id == id,
        forall|j: int|
            0 <= j < first_index_of(s, id) || (first_index_of(s, id) == -1 && 0 <= j < s.len())
                ==> s[j].id != id,
    decreases s.len(),
{
    if s.len() == 0 {
    } else if s[0].id == id {
    } else {
        let t = s.subrange(1, s.len() as int);
        lemma_first_index_of(t, id);
        assert(forall|i: int| 0 <= i < t.len() ==> t[i] == s[i + 1]);
        if contains_id(s, id) {
            let w = choose|i: int| 0 <= i < s.len() && s[i].id == id;
            assert(t[w - 1].id == id);
            assert(contains_id(t, id));
        }
        if contains_id(t, id) {
            let w = choose|i: int| 0 <= i < t.len() && t[i].id == id;
            assert(s[w + 1].id == id);
            assert(contains_id(s, id));
        }
        assert forall|j: int|
            0 <= j < first_index_of(s, id) || (first_index_of(s, id) == -1 && 0 <= j < s.len())
                implies s[j].id != id by {
            if j >= 1 {
                assert(s[j] == t[j - 1]);
            }
        }
    }
}

/// No two records of `s` share an id — the shape every store reached by
/// appending freshly generated ids has.
pub open spec fn unique_ids(s: Seq<ExecutionView>) -> bool {
    forall|i: int, j: int| 0 <= i < j < s.len() ==> s[i].id != s[j].id
}

/// Deleting an id really deletes it: once the first record with `id` is
/// removed from a collection whose ids are unique, no record with that
/// id remains, so a lookup after a removal comes back empty.
pub proof fn lemma_remove_then_absent(s: Seq<ExecutionView>, id: Seq<char>)
    requires
        unique_ids(s),
        contains_id(s, id),
    ensures
        !contains_id(s.remove(first_index_of(s, id)), id),
{
    lemma_first_index_of(s, id);
    let fi = first_index_of(s, id);
    let t = s.remove(fi);
    if contains_id(t, id) {
        let w = choose|i: int| 0 <= i < t.len() && t[i].id == id;
        if w < fi {
            assert(t[w] == s[w]);
        } else {
            assert(t[w] == s[w + 1]);
            assert(s[fi].id == s[w + 1].id);
        }
    }
}

/// Removing a record keeps the remaining ids pairwise distinct, so the
/// no-two-records-share-an-id invariant also survives every deletion.
pub proof fn lemma_remove_preserves_unique_ids(s: Seq<ExecutionView>, i: int)
    requires
        unique_ids(s),
        0 <= i < s.len(),
    ensures
        unique_ids(s.remove(i)),
{
    let t = s.remove(i);
    assert forall|a: int, b: int| 0 <= a < b < t.len() implies t[a].id != t[b].id by {
        if a < i {
            assert(t[a] == s[a]);
        } else {
            assert(t[a] == s[a + 1]);
        }
        if b < i {
            assert(t[b] == s[b]);
        } else {
            assert(t[b] == s[b + 1]);
        }
    }
}

/// The ordered collection of execution records.
///
/// Ids are expected to be unique (they are freshly generated UUIDs),
/// but the collection does not enforce that: like the persisted form it
/// mirrors, it holds whatever was appended, and every operation acts on
/// the first record with the given id.
pub struct ExecutionStore {
    executions: Vec<WorkflowExecution>,
}

impl View for ExecutionStore {
    type V = Seq<ExecutionView>;

    closed spec fn view(&self) -> Seq<ExecutionView> {
        self.executions@.map_values(|e: WorkflowExecution| e@)
    }
}

impl ExecutionStore {
    /// An empty store.
    pub fn new() -> (r: ExecutionStore)
        ensures
            r@ =~= Seq::<ExecutionView>::empty(),
    {
        ExecutionStore { executions: Vec::new() }
    }

    /// Wraps an already decoded collection, as the externally persisted
    /// backend does after reading its blob ("decode or empty").
    pub fn from_records(records: Vec<WorkflowExecution>) -> (r: ExecutionStore)
        ensures
            r@ == records@.map_values(|e: WorkflowExecution| e@),
    {
        ExecutionStore { executions: records }
    }

    /// The records in store order, for listing or for encoding back to
    /// the persisted form.
    pub fn records(&self) -> (r: &Vec<WorkflowExecution>)
        ensures
            r@.map_values(|e: WorkflowExecution| e@) == self@,
    {
        &self.executions
    }

    /// How many records the store holds.
    pub fn len(&self) -> (n: usize)
        ensures
            n == self@.len(),
    {
        self.executions.len()
    }

    /// Appends a record at the end.
    pub fn append(&mut self, exec: WorkflowExecution)
        ensures
            final(self)@ =~= old(self)@.push(exec@),
    {
        self.executions.push(exec);
    }

    /// Index of the first record with id `id`, if any.
    fn position_of(&self, id: &str) -> (r: Option<usize>)
        ensures
            match r {
                Some(i) => i == first_index_of(self@, id@),
                None => !contains_id(self@, id@),
            },
    {
        let n = self.executions.len();
        let mut i: usize = 0;
        while i < n
            invariant
                n == self@.len(),
                i <= n,
                n == self.executions@.len(),
                forall|j: int| 0 <= j < i ==> self@[j].id != id@,
            decreases n - i,
        {
            if str_eq(self.executions[i].id.as_str(), id) {
                proof {
                    lemma_first_index_of(self@, id@);
                    assert(self@[i as int].id == id@);
                }
                return Some(i);
            }
            i += 1;
        }
        proof {
            lemma_first_index_of(self@, id@);
        }
        None
    }

    /// A copy of the first record with id `id`, if any.
    pub fn find_by_id(&self, id: &str) -> (r: Option<WorkflowExecution>)
        ensures
            match r {
                Some(e) => contains_id(self@, id@) && e@ == self@[first_index_of(self@, id@)],
                None => !contains_id(self@, id@),
            },
    {
        proof {
            lemma_first_index_of(self@, id@);
        }
        match self.position_of(id) {
            Some(i) => Some(self.executions[i].duplicate()),
            None => None,
        }
    }

    /// Sets the status of the first record with id `id`; reports whether
    /// such a record was found.  An absent id leaves the store unchanged.
    pub fn update_status(&mut self, id: &str, status: Status) -> (r: bool)
        ensures
            r == contains_id(old(self)@, id@),
            r ==> final(self)@ =~= old(self)@.update(
                first_index_of(old(self)@, id@),
                ExecutionView {
                    status,
                    ..old(self)@[first_index_of(old(self)@, id@)]
                },
            ),
            !r ==> final(self)@ == old(self)@,
    {
        proof {
            lemma_first_index_of(self@, id@);
        }
        match self.position_of(id) {
            Some(i) => {
                let rec = WorkflowExecution {
                    id: self.executions[i].id.clone(),
                    name: self.executions[i].name.clone(),
                    status,
                };
                self.executions.set(i, rec);
                true
            },
            None => false,
        }
    }

    /// Removes and returns the first record with id `id`; an absent id
    /// leaves the store unchanged.
    pub fn remove(&mut self, id: &str) -> (r: Option<WorkflowExecution>)
        ensures
            match r {
                Some(e) => {
                    &&& contains_id(old(self)@, id@)
                    &&& e@ == old(self)@[first_index_of(old(self)@, id@)]
                    &&& final(self)@ =~= old(self)@.remove(first_index_of(old(self)@, id@))
                    &&& final(self)@.len() == old(self)@.len() - 1
                },
                None => !contains_id(old(self)@, id@) && final(self)@ == old(self)@,
            },
    {
        proof {
            lemma_first_index_of(self@, id@);
        }
        match self.position_of(id) {
            Some(i) => {
                let removed = self.executions.remove(i);
                Some(removed)
            },
            None => None,
        }
    }
}

} // verus!
