//! The task handler registry: resolves a task's type tag to one of the
//! built-in handlers, validates the payload against the shape that
//! handler expects, and computes the handler's observable effect.
//!
//! Handlers never touch the execution store; their only outcome is the
//! [`TaskEffect`] they report.  The caller performs the effect (logging
//! the sum or message, sleeping for a `wait`): a handler that blocks or
//! writes to an observability sink does so outside this library, on the
//! effect value computed here.

use vstd::prelude::*;

use crate::model::{str_eq, Task, TaskValue, TaskValueView, TaskView};

verus! {

/// Why a task could not be dispatched.
#[derive(Clone, Copy, Debug, PartialEq, Eq, Structural)]
pub enum DispatchError {
    /// The type tag is outside the closed set of built-in handlers.
    /// Dispatching the workflow's remaining tasks stops, but the
    /// submission itself still reports a (non-execution) message.
    UnknownTaskType,
    /// The payload does not decode into the shape the handler expects.
    /// The whole submission fails outright.
    InvalidPayload,
}

/// The observable side effect of one successfully handled task.
#[derive(Debug)]
pub enum TaskEffect {
    /// The `add` handler reports the sum of its integers.
    Sum(i128),
    /// The `print` handler reports its text as a message.
    Message(String),
    /// The `wait` handler blocks the calling thread for this many
    /// seconds before reporting completion.
    Waited(u64),
}

/// Mathematical view of a [`TaskEffect`].
pub enum TaskEffectView {
    Sum(int),
    Message(Seq<char>),
    Waited(u64),
}

impl View for TaskEffect {
    type V = TaskEffectView;

    open spec fn view(&self) -> TaskEffectView {
        match self {
            TaskEffect::Sum(s) => TaskEffectView::Sum(*s as int),
            TaskEffect::Message(m) => TaskEffectView::Message(m@),
            TaskEffect::Waited(n) => TaskEffectView::Waited(*n),
        }
    }
}

/// The sum of a sequence of integers.
pub open spec fn sum_of(ns: Seq<i32>) -> int
    decreases ns.len(),
{
    if ns.len() == 0 {
        0
    } else {
        sum_of(ns.drop_last()) + ns.last()
    }
}

/// What dispatching one task yields: the handler's effect, or the error
/// that stops it.  This is the registry's whole behaviour, one branch
/// per built-in task type.
pub open spec fn dispatch_spec(t: TaskView) -> Result<TaskEffectView, DispatchError> {
    if t.tasktype == "add"@ {
        match t.value {
            TaskValueView::IntArray(ns) => Ok(TaskEffectView::Sum(sum_of(ns))),
            _ => Err(DispatchError::InvalidPayload),
        }
    } else if t.tasktype == "print"@ {
        match t.value {
            TaskValueView::Text(s) => Ok(TaskEffectView::Message(s)),
            _ => Err(DispatchError::InvalidPayload),
        }
    } else if t.tasktype == "wait"@ {
        match t.value {
            TaskValueView::UInt(n) => Ok(TaskEffectView::Waited(n)),
            _ => Err(DispatchError::InvalidPayload),
        }
    } else {
        Err(DispatchError::UnknownTaskType)
    }
}

/// View of a dispatch result.
pub open spec fn dispatch_result_view(r: Result<TaskEffect, DispatchError>) -> Result<
    TaskEffectView,
    DispatchError,
> {
    match r {
        Ok(e) => Ok(e@),
        Err(x) => Err(x),
    }
}

/// The sum the `add` handler reports.  A 128-bit accumulator cannot
/// overflow: the addends are 32-bit and there are at most `usize::MAX`
/// of them.
pub fn sum(ns: &Vec<i32>) -> (s: i128)
    ensures
        s == sum_of(ns@),
{
    let mut acc: i128 = 0;
    let mut i: usize = 0;
    while i < ns.len()
        invariant
            i <= ns@.len(),
            acc == sum_of(ns@.subrange(0, i as int)),
            -0x8000_0000 * (i as int) <= acc <= 0x8000_0000 * (i as int),
        decreases ns@.len() - i,
    {
        proof {
            let pre = ns@.subrange(0, i as int);
            let cur = ns@.subrange(0, i + 1);
            assert(cur.drop_last() =~= pre);
            assert(cur.last() == ns@[i as int]);
        }
        acc = acc + ns[i] as i128;
        i += 1;
    }
    proof {
        assert(ns@.subrange(0, ns@.len() as int) =~= ns@);
    }
    acc
}

/// Resolves the task's type tag and computes the handler's effect, or
/// reports exactly why the task cannot run.
pub fn dispatch(task: &Task) -> (r: Result<TaskEffect, DispatchError>)
    ensures
        dispatch_result_view(r) == dispatch_spec(task@),
{
    if str_eq(task.tasktype.as_str(), "add") {
        match &task.value {
            TaskValue::IntArray(ns) => Ok(TaskEffect::Sum(sum(ns))),
            _ => Err(DispatchError::InvalidPayload),
        }
    } else if str_eq(task.tasktype.as_str(), "print") {
        match &task.value {
            TaskValue::Text(s) => Ok(TaskEffect::Message(s.clone())),
            _ => Err(DispatchError::InvalidPayload),
        }
    } else if str_eq(task.tasktype.as_str(), "wait") {
        match &task.value {
            TaskValue::UInt(n) => Ok(TaskEffect::Waited(*n)),
            _ => Err(DispatchError::InvalidPayload),
        }
    } else {
        Err(DispatchError::UnknownTaskType)
    }
}

} // verus!
