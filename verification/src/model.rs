//! The data model: tasks, workflows and execution records, together with
//! the mathematical views that the contracts are stated over.

use vstd::prelude::*;
use vstd::string::StrSliceExecFns;

verus! {

/// Character-by-character string equality, so that contracts can speak
/// of `a@ == b@` without trusting a derived comparison.
pub fn str_eq(a: &str, b: &str) -> (r: bool)
    ensures
        r == (a@ == b@),
{
    let la = a.unicode_len();
    let lb = b.unicode_len();
    if la != lb {
        return false;
    }
    let mut i: usize = 0;
    while i < la
        invariant
            la == a@.len(),
            la == b@.len(),
            i <= la,
            forall|j: int| 0 <= j < i ==> a@[j] == b@[j],
        decreases la - i,
    {
        if a.get_char(i) != b.get_char(i) {
            return false;
        }
        i += 1;
    }
    proof {
        assert(a@ =~= b@);
    }
    true
}

/// Lifecycle status of one execution record.
///
/// A record starts `Pending` and moves to `Completed` only after every
/// task of its workflow has been dispatched successfully.  There is no
/// failed state: an execution aborted by an unknown task type or a bad
/// payload stays `Pending`.
#[derive(Clone, Copy, Debug, PartialEq, Eq, Structural)]
pub enum Status {
    Pending,
    Completed,
}

/// The payload of a task, as the handlers read it.
///
/// A payload arrives as opaque JSON; the built-in handlers only ever
/// distinguish an array of integers, a string, a non-negative integer,
/// and everything else, so those four shapes are the model.  The
/// boundary converts the decoded JSON into this type.
#[derive(Debug)]
pub enum TaskValue {
    /// A JSON array of integers (what the `add` handler expects).
    IntArray(Vec<i32>),
    /// A JSON string (what the `print` handler expects).
    Text(String),
    /// A JSON non-negative integer (what the `wait` handler expects).
    UInt(u64),
    /// Any other JSON shape; no handler accepts it.
    Other,
}

/// One typed unit of work: a type tag that selects a handler, and a
/// payload whose shape is checked only when the task is dispatched.
#[derive(Debug)]
pub struct Task {
    pub tasktype: String,
    pub value: TaskValue,
}

/// A named, ordered list of tasks.  A workflow exists only for the
/// duration of one submission and is never persisted as such.
#[derive(Debug)]
pub struct Workflow {
    pub name: String,
    pub tasks: Vec<Task>,
}

/// The persisted record of one submission.
#[derive(Debug)]
pub struct WorkflowExecution {
    /// Assigned once, at creation, and never changed.
    pub id: String,
    /// Copied from the workflow at creation, immutable thereafter.
    pub name: String,
    pub status: Status,
}

/// Mathematical view of a [`TaskValue`].
pub enum TaskValueView {
    IntArray(Seq<i32>),
    Text(Seq<char>),
    UInt(u64),
    Other,
}

/// Mathematical view of a [`Task`].
pub struct TaskView {
    pub tasktype: Seq<char>,
    pub value: TaskValueView,
}

/// Mathematical view of a [`Workflow`].
pub struct WorkflowView {
    pub name: Seq<char>,
    pub tasks: Seq<TaskView>,
}

/// Mathematical view of a [`WorkflowExecution`].
pub struct ExecutionView {
    pub id: Seq<char>,
    pub name: Seq<char>,
    pub status: Status,
}

impl View for TaskValue {
    type V = TaskValueView;

    open spec fn view(&self) -> TaskValueView {
        match self {
            TaskValue::IntArray(ns) => TaskValueView::IntArray(ns@),
            TaskValue::Text(s) => TaskValueView::Text(s@),
            TaskValue::UInt(n) => TaskValueView::UInt(*n),
            TaskValue::Other => TaskValueView::Other,
        }
    }
}

impl View for Task {
    type V = TaskView;

    open spec fn view(&self) -> TaskView {
        TaskView { tasktype: self.tasktype@, value: self.value@ }
    }
}

impl View for Workflow {
    type V = WorkflowView;

    open spec fn view(&self) -> WorkflowView {
        WorkflowView { name: self.name@, tasks: self.tasks@.map_values(|t: Task| t@) }
    }
}

impl View for WorkflowExecution {
    type V = ExecutionView;

    open spec fn view(&self) -> ExecutionView {
        ExecutionView { id: self.id@, name: self.name@, status: self.status }
    }
}

impl WorkflowExecution {
    /// An exact copy of the record; unlike a derived `Clone`, its
    /// contract states that the copy has the same view.
    pub fn duplicate(&self) -> (r: WorkflowExecution)
        ensures
            r@ == self@,
    {
        WorkflowExecution {
            id: self.id.clone(),
            name: self.name.clone(),
            status: self.status,
        }
    }
}

} // verus!
