//! The boundary's status-code column: which HTTP status each engine
//! outcome is answered with.  Encoding the bodies (JSON for records,
//! plain text otherwise) stays outside the library; the 200/400/404/500
//! decision is made here, from plain values.

use vstd::prelude::*;

use crate::engine::{SubmitReport, TaskFailure};
use crate::model::WorkflowExecution;

verus! {

/// What one request produced, before the response is encoded.
pub enum ApiOutcome {
    /// A submission body that does not decode as a workflow.
    InvalidBody,
    /// A submission's report.
    Submission(SubmitReport),
    /// A single-record lookup's result.
    Record(Option<WorkflowExecution>),
    /// The full listing (its body is the encoded collection).
    Records,
    /// A deletion's confirmation, if the record existed.
    Deletion(Option<String>),
    /// No route matched the method and path.
    Unrouted,
}

/// The status of each outcome: 200 on success, 400 for an undecodable
/// body, 404 for an absent record or route, 500 when a task payload
/// failed the submission.  A submission stopped by an unknown task
/// type still answers 200, with its non-execution message.
pub open spec fn status_spec(o: ApiOutcome) -> u16 {
    match o {
        ApiOutcome::InvalidBody => 400,
        ApiOutcome::Submission(r) => match r.failure {
            Some(TaskFailure::InvalidPayload { .. }) => 500,
            _ => 200,
        },
        ApiOutcome::Record(found) => if found is Some {
            200
        } else {
            404
        },
        ApiOutcome::Records => 200,
        ApiOutcome::Deletion(confirmed) => if confirmed is Some {
            200
        } else {
            404
        },
        ApiOutcome::Unrouted => 404,
    }
}

/// The status code the boundary's table assigns to this outcome.
pub fn response_status(o: &ApiOutcome) -> (code: u16)
    ensures
        code == status_spec(*o),
{
    match o {
        ApiOutcome::InvalidBody => 400,
        ApiOutcome::Submission(r) => match &r.failure {
            Some(TaskFailure::InvalidPayload { .. }) => 500,
            _ => 200,
        },
        ApiOutcome::Record(found) => if found.is_some() {
            200
        } else {
            404
        },
        ApiOutcome::Records => 200,
        ApiOutcome::Deletion(confirmed) => if confirmed.is_some() {
            200
        } else {
            404
        },
        ApiOutcome::Unrouted => 404,
    }
}

} // verus!
