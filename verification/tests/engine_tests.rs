use workflow_engine::dispatch::TaskEffect;
use workflow_engine::engine::{
    create_workflow, delete_workflow, get_workflow, submit_with_id, TaskFailure,
};
use workflow_engine::model::{Status, Task, TaskValue, Workflow};
use workflow_engine::store::ExecutionStore;

fn task(tasktype: &str, value: TaskValue) -> Task {
    Task { tasktype: tasktype.to_string(), value }
}

fn workflow(name: &str, tasks: Vec<Task>) -> Workflow {
    Workflow { name: name.to_string(), tasks }
}

#[test]
fn successful_submit_completes_the_record() {
    let mut store = ExecutionStore::new();
    let wf = workflow("demo", vec![task("add", TaskValue::IntArray(vec![2, 3, 5]))]);
    let report = submit_with_id(&mut store, &wf, "w1".to_string());
    assert_eq!(report.id, "w1");
    assert!(report.failure.is_none());
    assert_eq!(report.message, "Workflow w1 exécuté avec succès");
    assert_eq!(report.effects.len(), 1);
    assert!(matches!(report.effects[0], TaskEffect::Sum(10)));
    assert_eq!(store.len(), 1);
    let rec = store.find_by_id("w1").unwrap();
    assert_eq!(rec.name, "demo");
    assert_eq!(rec.status, Status::Completed);
}

#[test]
fn all_tasks_run_in_order() {
    let mut store = ExecutionStore::new();
    let wf = workflow(
        "multi",
        vec![
            task("print", TaskValue::Text("one".to_string())),
            task("wait", TaskValue::UInt(2)),
            task("add", TaskValue::IntArray(vec![1, 1])),
        ],
    );
    let report = submit_with_id(&mut store, &wf, "w2".to_string());
    assert!(report.failure.is_none());
    assert_eq!(report.effects.len(), 3);
    match &report.effects[0] {
        TaskEffect::Message(m) => assert_eq!(m, "one"),
        other => panic!("unexpected effect: {:?}", other),
    }
    assert!(matches!(report.effects[1], TaskEffect::Waited(2)));
    assert!(matches!(report.effects[2], TaskEffect::Sum(2)));
}

#[test]
fn unknown_task_type_stops_dispatch_and_stays_pending() {
    let mut store = ExecutionStore::new();
    let wf = workflow(
        "x",
        vec![
            task("print", TaskValue::Text("ran".to_string())),
            task("bogus", TaskValue::UInt(1)),
            task("print", TaskValue::Text("never".to_string())),
        ],
    );
    let report = submit_with_id(&mut store, &wf, "w3".to_string());
    assert_eq!(report.failure, Some(TaskFailure::UnknownTaskType { index: 1 }));
    assert_eq!(report.message, "Workflow non exécuté avec succès");
    assert_eq!(report.effects.len(), 1);
    match &report.effects[0] {
        TaskEffect::Message(m) => assert_eq!(m, "ran"),
        other => panic!("unexpected effect: {:?}", other),
    }
    let rec = store.find_by_id("w3").unwrap();
    assert_eq!(rec.status, Status::Pending);
}

#[test]
fn invalid_payload_fails_the_submission_and_stays_pending() {
    let mut store = ExecutionStore::new();
    let wf = workflow(
        "bad",
        vec![
            task("wait", TaskValue::UInt(1)),
            task("add", TaskValue::Text("not numbers".to_string())),
        ],
    );
    let report = submit_with_id(&mut store, &wf, "w4".to_string());
    assert_eq!(report.failure, Some(TaskFailure::InvalidPayload { index: 1 }));
    assert_eq!(report.message, "Invalid task payload");
    assert_eq!(report.effects.len(), 1);
    let rec = store.find_by_id("w4").unwrap();
    assert_eq!(rec.status, Status::Pending);
}

#[test]
fn empty_workflow_completes_immediately() {
    let mut store = ExecutionStore::new();
    let wf = workflow("empty", Vec::new());
    let report = submit_with_id(&mut store, &wf, "w5".to_string());
    assert!(report.failure.is_none());
    assert!(report.effects.is_empty());
    assert_eq!(store.find_by_id("w5").unwrap().status, Status::Completed);
}

#[test]
fn create_workflow_generates_a_uuid_shaped_id() {
    let mut store = ExecutionStore::new();
    let wf = workflow("demo", vec![task("add", TaskValue::IntArray(vec![4]))]);
    let report = create_workflow(&mut store, &wf);
    assert_eq!(report.id.chars().count(), 36);
    assert!(report.failure.is_none());
    let rec = store.find_by_id(&report.id).unwrap();
    assert_eq!(rec.name, "demo");
    assert_eq!(rec.status, Status::Completed);
}

#[test]
fn list_length_tracks_submits_and_deletes() {
    let mut store = ExecutionStore::new();
    let wf = workflow("a", vec![task("wait", TaskValue::UInt(0))]);
    submit_with_id(&mut store, &wf, "id1".to_string());
    assert_eq!(store.len(), 1);
    submit_with_id(&mut store, &wf, "id2".to_string());
    assert_eq!(store.len(), 2);
    assert!(delete_workflow(&mut store, "/workflows/id1").is_some());
    assert_eq!(store.len(), 1);
    assert!(delete_workflow(&mut store, "/workflows/id1").is_none());
    assert_eq!(store.len(), 1);
}

#[test]
fn get_after_submit_returns_the_submitted_name() {
    let mut store = ExecutionStore::new();
    let wf = workflow("demo", vec![task("print", TaskValue::Text("hi".to_string()))]);
    submit_with_id(&mut store, &wf, "abc123".to_string());
    let rec = get_workflow(&store, "/workflows/abc123").unwrap();
    assert_eq!(rec.name, "demo");
}

#[test]
fn get_on_unknown_id_is_none() {
    let store = ExecutionStore::new();
    assert!(get_workflow(&store, "/workflows/nope").is_none());
}

#[test]
fn delete_then_get_is_none() {
    let mut store = ExecutionStore::new();
    let wf = workflow("demo", vec![task("wait", TaskValue::UInt(0))]);
    submit_with_id(&mut store, &wf, "gone".to_string());
    let message = delete_workflow(&mut store, "/workflows/gone").unwrap();
    assert_eq!(message, "Workflow gone supprimé avec succès");
    assert!(get_workflow(&store, "/workflows/gone").is_none());
}

#[test]
fn delete_on_unknown_id_leaves_the_store_alone() {
    let mut store = ExecutionStore::new();
    let wf = workflow("keep", vec![task("wait", TaskValue::UInt(0))]);
    submit_with_id(&mut store, &wf, "kept".to_string());
    assert!(delete_workflow(&mut store, "/workflows/other").is_none());
    assert_eq!(store.len(), 1);
    assert_eq!(store.find_by_id("kept").unwrap().name, "keep");
}
