//! A small workflow execution engine.
//!
//! A *workflow* is a named, ordered list of typed tasks submitted for
//! one-shot, synchronous execution.  Submitting a workflow creates a
//! persisted *execution* record that tracks the submission's identity,
//! name and status (`Pending` until every task has been dispatched
//! successfully, `Completed` afterwards).  Executions live in an
//! execution store, the collection that both the in-memory and the
//! externally persisted backends share.

pub mod api;
pub mod dispatch;
pub mod engine;
pub mod model;
pub mod route;
pub mod store;
