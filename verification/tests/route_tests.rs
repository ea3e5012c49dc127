use workflow_engine::route::{extract_id, route, str_starts_with, Route};

#[test]
fn post_workflows_is_submit() {
    assert!(matches!(route("POST", "/workflows"), Route::SubmitWorkflow));
}

#[test]
fn get_workflows_is_list() {
    assert!(matches!(route("GET", "/workflows"), Route::ListWorkflows));
}

#[test]
fn get_with_id_extracts_the_id() {
    match route("GET", "/workflows/abc-123") {
        Route::GetWorkflow(id) => assert_eq!(id, "abc-123"),
        other => panic!("unexpected route: {:?}", other),
    }
}

#[test]
fn delete_with_id_extracts_the_id() {
    match route("DELETE", "/workflows/xyz") {
        Route::DeleteWorkflow(id) => assert_eq!(id, "xyz"),
        other => panic!("unexpected route: {:?}", other),
    }
}

#[test]
fn other_methods_and_paths_are_not_found() {
    assert!(matches!(route("PUT", "/workflows"), Route::NotFound));
    assert!(matches!(route("GET", "/elsewhere"), Route::NotFound));
    assert!(matches!(route("POST", "/workflows/a"), Route::NotFound));
    assert!(matches!(route("DELETE", "/workflows"), Route::NotFound));
}

#[test]
fn extract_id_takes_the_last_segment() {
    assert_eq!(extract_id("/workflows/abc"), "abc");
    assert_eq!(extract_id("/workflows/a/b"), "b");
    assert_eq!(extract_id("/workflows/"), "");
    assert_eq!(extract_id("plain"), "plain");
    assert_eq!(extract_id(""), "");
}

#[test]
fn extract_id_counts_characters_not_bytes() {
    assert_eq!(extract_id("/workflows/café"), "café");
    match route("GET", "/workflows/café") {
        Route::GetWorkflow(id) => assert_eq!(id, "café"),
        other => panic!("unexpected route: {:?}", other),
    }
}

#[test]
fn starts_with_checks_the_prefix() {
    assert!(str_starts_with("/workflows/abc", "/workflows/"));
    assert!(!str_starts_with("/workflows", "/workflows/"));
    assert!(str_starts_with("", ""));
    assert!(!str_starts_with("/work", "/workflows/"));
}
