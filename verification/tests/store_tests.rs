use workflow_engine::model::{Status, WorkflowExecution};
use workflow_engine::store::ExecutionStore;

fn record(id: &str, name: &str, status: Status) -> WorkflowExecution {
    WorkflowExecution { id: id.to_string(), name: name.to_string(), status }
}

#[test]
fn new_store_is_empty() {
    let store = ExecutionStore::new();
    assert_eq!(store.len(), 0);
    assert!(store.records().is_empty());
}

#[test]
fn append_grows_by_one() {
    let mut store = ExecutionStore::new();
    store.append(record("a", "first", Status::Pending));
    assert_eq!(store.len(), 1);
    store.append(record("b", "second", Status::Pending));
    assert_eq!(store.len(), 2);
}

#[test]
fn find_by_id_returns_the_record() {
    let mut store = ExecutionStore::new();
    store.append(record("a", "first", Status::Pending));
    store.append(record("b", "second", Status::Completed));
    let found = store.find_by_id("b").unwrap();
    assert_eq!(found.id, "b");
    assert_eq!(found.name, "second");
    assert_eq!(found.status, Status::Completed);
}

#[test]
fn find_by_id_on_absent_id_is_none() {
    let mut store = ExecutionStore::new();
    store.append(record("a", "first", Status::Pending));
    assert!(store.find_by_id("zzz").is_none());
}

#[test]
fn update_status_flips_the_record() {
    let mut store = ExecutionStore::new();
    store.append(record("a", "first", Status::Pending));
    assert!(store.update_status("a", Status::Completed));
    let found = store.find_by_id("a").unwrap();
    assert_eq!(found.status, Status::Completed);
    assert_eq!(found.name, "first");
}

#[test]
fn update_status_on_absent_id_changes_nothing() {
    let mut store = ExecutionStore::new();
    store.append(record("a", "first", Status::Pending));
    assert!(!store.update_status("b", Status::Completed));
    assert_eq!(store.len(), 1);
    assert_eq!(store.find_by_id("a").unwrap().status, Status::Pending);
}

#[test]
fn remove_returns_the_record_and_shrinks() {
    let mut store = ExecutionStore::new();
    store.append(record("a", "first", Status::Pending));
    store.append(record("b", "second", Status::Pending));
    let removed = store.remove("a").unwrap();
    assert_eq!(removed.id, "a");
    assert_eq!(store.len(), 1);
    assert!(store.find_by_id("a").is_none());
    assert!(store.find_by_id("b").is_some());
}

#[test]
fn remove_on_absent_id_changes_nothing() {
    let mut store = ExecutionStore::new();
    store.append(record("a", "first", Status::Pending));
    assert!(store.remove("b").is_none());
    assert_eq!(store.len(), 1);
}

#[test]
fn operations_act_on_the_first_match() {
    let mut store = ExecutionStore::new();
    store.append(record("a", "first", Status::Pending));
    store.append(record("a", "second", Status::Pending));
    assert_eq!(store.find_by_id("a").unwrap().name, "first");
    let removed = store.remove("a").unwrap();
    assert_eq!(removed.name, "first");
    assert_eq!(store.find_by_id("a").unwrap().name, "second");
}

#[test]
fn from_records_preserves_the_collection() {
    let records = vec![
        record("a", "first", Status::Pending),
        record("b", "second", Status::Completed),
    ];
    let store = ExecutionStore::from_records(records);
    assert_eq!(store.len(), 2);
    assert_eq!(store.records()[0].id, "a");
    assert_eq!(store.records()[1].id, "b");
}
