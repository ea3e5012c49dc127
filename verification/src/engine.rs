//! The execution engine: orchestrates one workflow submission end to
//! end, and serves lookups and deletions, against any store backend.
//!
//! `create_workflow` appends a pending record, dispatches the tasks in
//! order, and — only if every task dispatched successfully — marks the
//! record completed.  A task with an unknown type stops dispatch and
//! leaves the record pending; a task whose payload does not fit its
//! handler fails the submission outright, also leaving the record
//! pending.  The engine holds no state of its own: every operation works
//! on the store it is handed.

use vstd::prelude::*;
use vstd::string::StrSliceExecFns;
use vstd::string::StringExecFns;

use crate::dispatch::{
    dispatch, dispatch_spec, DispatchError, TaskEffect, TaskEffectView,
};
use crate::model::{ExecutionView, Status, TaskView, Workflow, WorkflowExecution, WorkflowView};
use crate::route::{extract_id, last_segment, lemma_last_segment_after_slash};
use crate::store::{contains_id, first_index_of, lemma_first_index_of, unique_ids, ExecutionStore};

verus! {

/// Why a submission's dispatch stopped before the end, and at which
/// task.
#[derive(Clone, Copy, Debug, PartialEq, Eq, Structural)]
pub enum TaskFailure {
    /// The task's type tag is not a built-in handler: the remaining
    /// tasks are skipped, but the submission still reports a message.
    UnknownTaskType { index: usize },
    /// The task's payload does not fit its handler: the submission
    /// fails as a whole.
    InvalidPayload { index: usize },
}

/// Everything one submission produced: the record id, the effects of
/// the tasks that did run (in order, for the caller to perform), how
/// dispatch ended, and the human-readable message of the boundary.
#[derive(Debug)]
pub struct SubmitReport {
    pub id: String,
    pub effects: Vec<TaskEffect>,
    pub failure: Option<TaskFailure>,
    pub message: String,
}

/// Index of the first task whose dispatch fails, or the number of tasks
/// if every one succeeds.
pub open spec fn first_err_index(ts: Seq<TaskView>) -> int
    decreases ts.len(),
{
    if ts.len() == 0 {
        0
    } else if dispatch_spec(ts[0]) is Err {
        0
    } else {
        1 + first_err_index(ts.subrange(1, ts.len() as int))
    }
}

/// `first_err_index` really is the first failing index: every task
/// before it dispatches successfully, and the task there (if any)
/// fails.
pub proof fn lemma_first_err_index(ts: Seq<TaskView>)
    ensures
        0 <= first_err_index(ts) <= ts.len(),
        forall|j: int| 0 <= j < first_err_index(ts) ==> dispatch_spec(ts[j]) is Ok,
        first_err_index(ts) < ts.len() ==> dispatch_spec(ts[first_err_index(ts)]) is Err,
    decreases ts.len(),
{
    if ts.len() == 0 {
    } else if dispatch_spec(ts[0]) is Err {
    } else {
        let t = ts.subrange(1, ts.len() as int);
        lemma_first_err_index(t);
        assert forall|j: int| 0 <= j < first_err_index(ts) implies dispatch_spec(ts[j]) is Ok by {
            if j >= 1 {
                assert(ts[j] == t[j - 1]);
            }
        }
        assert(first_err_index(ts) < ts.len() ==> ts[first_err_index(ts)] == t[first_err_index(
            ts,
        ) - 1]);
    }
}

/// The effects of the first `k` tasks, in dispatch order.
pub open spec fn effects_of(ts: Seq<TaskView>, k: int) -> Seq<TaskEffectView> {
    Seq::new(k as nat, |i: int| dispatch_spec(ts[i])->Ok_0)
}

/// The views of a vector of computed effects.
pub open spec fn effects_view(es: Seq<TaskEffect>) -> Seq<TaskEffectView> {
    es.map_values(|e: TaskEffect| e@)
}

/// The record a submission appends before dispatching anything.
pub open spec fn pending_record(id: Seq<char>, name: Seq<char>) -> ExecutionView {
    ExecutionView { id, name, status: Status::Pending }
}

/// The full contract of one submission with record id `id`: how the
/// store changed from `pre` to `post` and what the report holds, as a
/// function of where the workflow's dispatch first fails.
pub open spec fn submit_post(
    pre: Seq<ExecutionView>,
    post: Seq<ExecutionView>,
    wf: WorkflowView,
    id: Seq<char>,
    r: SubmitReport,
) -> bool {
    let ts = wf.tasks;
    let k = first_err_index(ts);
    let appended = pre.push(pending_record(id, wf.name));
    let fi = first_index_of(appended, id);
    &&& r.id@ == id
    &&& effects_view(r.effects@) == effects_of(ts, k)
    &&& if k == ts.len() {
        // every task dispatched: the first record with this id is now
        // completed, and the store grew by exactly the one record
        &&& r.failure is None
        &&& post == appended.update(
            fi,
            ExecutionView { status: Status::Completed, ..appended[fi] },
        )
        &&& post.len() == pre.len() + 1
        &&& r.message@ == "Workflow "@ + id + " exécuté avec succès"@
    } else if dispatch_spec(ts[k]) == Err::<TaskEffectView, DispatchError>(
        DispatchError::UnknownTaskType,
    ) {
        &&& r.failure == Some(TaskFailure::UnknownTaskType { index: k as usize })
        &&& post == appended
        &&& post.len() == pre.len() + 1
        &&& r.message@ == "Workflow non exécuté avec succès"@
    } else {
        &&& r.failure == Some(TaskFailure::InvalidPayload { index: k as usize })
        &&& post == appended
        &&& post.len() == pre.len() + 1
        &&& r.message@ == "Invalid task payload"@
    }
}

/// A character of a hyphenated lowercase UUID: a lowercase hex digit
/// or the separating hyphen.  In particular never a `/`, so a freshly
/// generated id survives the path round trip of `/workflows/{id}`.
pub open spec fn hyphenated_hex_char(c: char) -> bool {
    c == '-' || ('0' <= c && c <= '9') || ('a' <= c && c <= 'f')
}

/// Relies on `uuid::Uuid::new_v4` and the `Display` form of `Uuid`: a
/// freshly generated random UUID, rendered hyphenated and lowercase as
/// 36 characters, each a lowercase hex digit or a hyphen.  Randomness
/// is all the generator promises, so nothing is stated about the value
/// beyond its shape.
#[verifier::external_body]
fn fresh_id() -> (r: String)
    ensures
        r@.len() == 36,
        forall|i: int| 0 <= i < r@.len() ==> hyphenated_hex_char(#[trigger] r@[i]),
{
    uuid::Uuid::new_v4().to_string()
}

/// Submits one workflow under the given record id: appends a pending
/// record, dispatches the tasks in order until the first failure, and
/// marks the record completed only if none failed.
pub fn submit_with_id(store: &mut ExecutionStore, workflow: &Workflow, id: String) -> (r:
    SubmitReport)
    ensures
        submit_post(old(store)@, final(store)@, workflow@, id@, r),
{
    let ghost pre = store@;
    let ghost ts = workflow@.tasks;
    proof {
        lemma_first_err_index(ts);
    }

    let record = WorkflowExecution {
        id: id.clone(),
        name: workflow.name.clone(),
        status: Status::Pending,
    };
    store.append(record);
    let ghost appended = store@;

    let n = workflow.tasks.len();
    let mut effects: Vec<TaskEffect> = Vec::new();
    proof {
        assert(effects_view(effects@) =~= effects_of(ts, 0));
    }
    let mut i: usize = 0;
    while i < n
        invariant
            n == workflow.tasks@.len(),
            ts == workflow@.tasks,
            ts.len() == n,
            i <= n,
            pre == old(store)@,
            store@ == appended,
            appended == pre.push(pending_record(id@, workflow@.name)),
            forall|j: int| 0 <= j < i ==> dispatch_spec(ts[j]) is Ok,
            effects@.len() == i,
            effects_view(effects@) == effects_of(ts, i as int),
        decreases n - i,
    {
        proof {
            assert(ts[i as int] == workflow.tasks@[i as int]@);
        }
        match dispatch(&workflow.tasks[i]) {
            Ok(effect) => {
                proof {
                    assert(Ok::<TaskEffectView, DispatchError>(effect@) == dispatch_spec(
                        ts[i as int],
                    ));
                }
                let ghost before = effects@;
                effects.push(effect);
                proof {
                    let m = i as int + 1;
                    assert(effects_view(effects@).len() == m);
                    assert forall|j: int| 0 <= j < m implies effects_view(effects@)[j]
                        == effects_of(ts, m)[j] by {
                        if j < i as int {
                            assert(effects@[j] == before[j]);
                            assert(effects_view(before)[j] == effects_of(ts, i as int)[j]);
                        } else {
                            assert(effects@[j] == effect);
                        }
                    }
                    assert(effects_view(effects@) =~= effects_of(ts, m));
                }
                i += 1;
            },
            Err(DispatchError::UnknownTaskType) => {
                proof {
                    lemma_first_err_index(ts);
                    let k = first_err_index(ts);
                    if k < i as int {
                        assert(dispatch_spec(ts[k]) is Ok);
                    }
                    if k > i as int {
                        assert(dispatch_spec(ts[i as int]) is Ok);
                    }
                    assert(k == i as int);
                }
                let message = String::from_str("Workflow non exécuté avec succès");
                return SubmitReport {
                    id,
                    effects,
                    failure: Some(TaskFailure::UnknownTaskType { index: i }),
                    message,
                };
            },
            Err(DispatchError::InvalidPayload) => {
                proof {
                    lemma_first_err_index(ts);
                    let k = first_err_index(ts);
                    if k < i as int {
                        assert(dispatch_spec(ts[k]) is Ok);
                    }
                    if k > i as int {
                        assert(dispatch_spec(ts[i as int]) is Ok);
                    }
                    assert(k == i as int);
                }
                let message = String::from_str("Invalid task payload");
                return SubmitReport {
                    id,
                    effects,
                    failure: Some(TaskFailure::InvalidPayload { index: i }),
                    message,
                };
            },
        }
    }
    proof {
        lemma_first_err_index(ts);
        let k = first_err_index(ts);
        if k < n as int {
            assert(dispatch_spec(ts[k]) is Ok);
        }
        assert(k == n as int);
        assert(appended[pre.len() as int].id == id@);
        assert(contains_id(appended, id@));
        lemma_first_index_of(appended, id@);
    }
    let updated = store.update_status(id.as_str(), Status::Completed);
    proof {
        assert(updated);
    }

    let mut message = String::from_str("Workflow ");
    message.append(id.as_str());
    message.append(" exécuté avec succès");
    SubmitReport { id, effects, failure: None, message }
}

/// Submits one workflow under a freshly generated id (the original
/// entry point of a `POST /workflows` request).  Whatever id came back
/// from the generator, the submission behaves as `submit_post` states
/// of it; the id itself is 36 characters.
pub fn create_workflow(store: &mut ExecutionStore, workflow: &Workflow) -> (r: SubmitReport)
    ensures
        submit_post(old(store)@, final(store)@, workflow@, r.id@, r),
        r.id@.len() == 36,
        forall|i: int| 0 <= i < r.id@.len() ==> hyphenated_hex_char(#[trigger] r.id@[i]),
{
    let id = fresh_id();
    submit_with_id(store, workflow, id)
}

/// A workflow whose every task dispatches successfully, submitted under
/// a fresh (previously unseen) id, leaves the store with exactly one
/// new record: completed, carrying that id and the workflow's name.
pub proof fn lemma_submit_fresh_completes(
    pre: Seq<ExecutionView>,
    post: Seq<ExecutionView>,
    wf: WorkflowView,
    id: Seq<char>,
    r: SubmitReport,
)
    requires
        submit_post(pre, post, wf, id, r),
        !contains_id(pre, id),
        first_err_index(wf.tasks) == wf.tasks.len(),
    ensures
        post =~= pre.push(ExecutionView { id, name: wf.name, status: Status::Completed }),
        r.failure is None,
{
    let appended = pre.push(pending_record(id, wf.name));
    lemma_first_index_of(appended, id);
    let fi = first_index_of(appended, id);
    assert(appended[pre.len() as int].id == id);
    assert(contains_id(appended, id));
    if fi < pre.len() {
        assert(appended[fi] == pre[fi]);
        assert(contains_id(pre, id));
    }
    assert(fi == pre.len());
}

/// A workflow with an unrecognized task type at position `k`, submitted
/// under a fresh id, reports exactly the effects of the tasks before
/// `k` (none after it runs), and its record stays pending.
pub proof fn lemma_unknown_task_leaves_pending(
    pre: Seq<ExecutionView>,
    post: Seq<ExecutionView>,
    wf: WorkflowView,
    id: Seq<char>,
    r: SubmitReport,
)
    requires
        submit_post(pre, post, wf, id, r),
        !contains_id(pre, id),
        first_err_index(wf.tasks) < wf.tasks.len(),
        dispatch_spec(wf.tasks[first_err_index(wf.tasks)]) == Err::<
            TaskEffectView,
            DispatchError,
        >(DispatchError::UnknownTaskType),
    ensures
        effects_view(r.effects@) == effects_of(wf.tasks, first_err_index(wf.tasks)),
        post =~= pre.push(ExecutionView { id, name: wf.name, status: Status::Pending }),
        contains_id(post, id),
        post[first_index_of(post, id)].status == Status::Pending,
{
    let appended = pre.push(pending_record(id, wf.name));
    assert(post =~= appended);
    lemma_first_index_of(post, id);
    let fi = first_index_of(post, id);
    assert(post[pre.len() as int].id == id);
    assert(contains_id(post, id));
    if fi < pre.len() {
        assert(post[fi] == pre[fi]);
        assert(contains_id(pre, id));
    }
    assert(fi == pre.len());
}

/// Whatever a submission under a fresh id did to the workflow's tasks,
/// a lookup of its id afterwards finds a record whose name is the
/// submitted workflow's name.
pub proof fn lemma_get_after_submit(
    pre: Seq<ExecutionView>,
    post: Seq<ExecutionView>,
    wf: WorkflowView,
    id: Seq<char>,
    r: SubmitReport,
)
    requires
        submit_post(pre, post, wf, id, r),
        !contains_id(pre, id),
    ensures
        contains_id(post, id),
        post[first_index_of(post, id)].name == wf.name,
{
    let ts = wf.tasks;
    let k = first_err_index(ts);
    lemma_first_err_index(ts);
    let rec = if k == ts.len() {
        lemma_submit_fresh_completes(pre, post, wf, id, r);
        ExecutionView { id, name: wf.name, status: Status::Completed }
    } else {
        pending_record(id, wf.name)
    };
    assert(post =~= pre.push(rec));
    lemma_first_index_of(post, id);
    let fi = first_index_of(post, id);
    assert(post[pre.len() as int].id == id);
    assert(contains_id(post, id));
    if fi < pre.len() {
        assert(post[fi] == pre[fi]);
        assert(contains_id(pre, id));
    }
    assert(fi == pre.len());
}

/// A submission under a fresh id keeps the store's ids pairwise
/// distinct: the no-two-records-share-an-id invariant survives every
/// submission whose id was previously unseen, whichever way dispatch
/// ended.
pub proof fn lemma_submit_preserves_unique_ids(
    pre: Seq<ExecutionView>,
    post: Seq<ExecutionView>,
    wf: WorkflowView,
    id: Seq<char>,
    r: SubmitReport,
)
    requires
        submit_post(pre, post, wf, id, r),
        unique_ids(pre),
        !contains_id(pre, id),
    ensures
        unique_ids(post),
{
    let ts = wf.tasks;
    let k = first_err_index(ts);
    let appended = pre.push(pending_record(id, wf.name));
    assert forall|a: int, b: int| 0 <= a < b < appended.len() implies appended[a].id
        != appended[b].id by {
        if b == pre.len() {
            assert(appended[a] == pre[a]);
            if appended[a].id == id {
                assert(contains_id(pre, id));
            }
        }
    }
    if k == ts.len() {
        lemma_first_index_of(appended, id);
        let fi = first_index_of(appended, id);
        assert(appended[pre.len() as int].id == id);
        assert(contains_id(appended, id));
        assert(forall|j: int| 0 <= j < post.len() ==> post[j].id == appended[j].id);
    }
}

/// After a submission under a fresh id, the record is reachable through
/// its `/workflows/{id}` path: the generated id holds no `/`, so the
/// path's last segment is the id itself, and the record found under it
/// carries the submitted workflow's name.
pub proof fn lemma_get_after_submit_by_path(
    pre: Seq<ExecutionView>,
    post: Seq<ExecutionView>,
    wf: WorkflowView,
    id: Seq<char>,
    path: Seq<char>,
    r: SubmitReport,
)
    requires
        submit_post(pre, post, wf, id, r),
        !contains_id(pre, id),
        forall|i: int| 0 <= i < id.len() ==> hyphenated_hex_char(#[trigger] id[i]),
        path == "/workflows/"@ + id,
    ensures
        last_segment(path) == id,
        contains_id(post, last_segment(path)),
        post[first_index_of(post, last_segment(path))].name == wf.name,
{
    reveal_strlit("/workflows/");
    assert(forall|i: int| 0 <= i < id.len() ==> id[i] != '/');
    lemma_last_segment_after_slash("/workflows/"@, id);
    lemma_get_after_submit(pre, post, wf, id, r);
}

/// Looks up the execution a `GET /workflows/{id}` path names: the first
/// record whose id equals the path's last segment.
pub fn get_workflow(store: &ExecutionStore, path: &str) -> (r: Option<WorkflowExecution>)
    ensures
        match r {
            Some(e) => {
                &&& contains_id(store@, last_segment(path@))
                &&& e@ == store@[first_index_of(store@, last_segment(path@))]
            },
            None => !contains_id(store@, last_segment(path@)),
        },
{
    let id = extract_id(path);
    store.find_by_id(id.as_str())
}

/// Deletes the execution a `DELETE /workflows/{id}` path names,
/// reporting a confirmation message, or `None` (the boundary's
/// not-found) if no record carries that id — in which case the store is
/// untouched.
pub fn delete_workflow(store: &mut ExecutionStore, path: &str) -> (r: Option<String>)
    ensures
        match r {
            Some(message) => {
                &&& contains_id(old(store)@, last_segment(path@))
                &&& final(store)@ == old(store)@.remove(
                    first_index_of(old(store)@, last_segment(path@)),
                )
                &&& final(store)@.len() == old(store)@.len() - 1
                &&& message@ == "Workflow "@ + last_segment(path@) + " supprimé avec succès"@
            },
            None => !contains_id(old(store)@, last_segment(path@)) && final(store)@ == old(
                store,
            )@,
        },
{
    let id = extract_id(path);
    proof {
        lemma_first_index_of(store@, id@);
    }
    match store.remove(id.as_str()) {
        Some(removed) => {
            let mut message = String::from_str("Workflow ");
            message.append(removed.id.as_str());
            message.append(" supprimé avec succès");
            Some(message)
        },
        None => None,
    }
}

} // verus!
