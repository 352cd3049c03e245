use n8sight::client::requests::{
    api_error_message, get_execution_request, get_workflow_request, list_executions_request,
    list_workflows_request, request_url, retry_execution_request, set_active_request, HttpMethod,
};
use n8sight::client::{ExecutionFilter, WorkflowFilter};
use n8sight::domain::json::Json;

fn pairs(q: &[(String, String)]) -> Vec<(&str, &str)> {
    q.iter().map(|(k, v)| (k.as_str(), v.as_str())).collect()
}

#[test]
fn workflow_listing_query() {
    let f = WorkflowFilter {
        active: Some(false),
        tags: None,
        name: Some("crm".into()),
        project_id: Some("p".into()),
        limit: Some(100),
        cursor: Some("abc".into()),
    };
    let r = list_workflows_request(&f);
    assert_eq!(r.method, HttpMethod::Get);
    assert_eq!(r.path, "/workflows");
    assert_eq!(pairs(&r.query), vec![("active", "false"), ("name", "crm"), ("projectId", "p"), ("limit", "100"), ("cursor", "abc")]);
    assert!(r.body.is_none());
    assert!(list_workflows_request(&WorkflowFilter::default()).query.is_empty());
}

#[test]
fn execution_listing_query() {
    let f = ExecutionFilter {
        status: Some("error".into()),
        workflow_id: Some("7".into()),
        project_id: None,
        limit: Some(5),
        cursor: None,
        include_data: true,
    };
    let r = list_executions_request(&f);
    assert_eq!(r.path, "/executions");
    assert_eq!(pairs(&r.query), vec![("status", "error"), ("workflowId", "7"), ("limit", "5"), ("includeData", "true")]);
}

#[test]
fn single_item_requests() {
    let r = get_workflow_request("12");
    assert_eq!((r.method, r.path.as_str()), (HttpMethod::Get, "/workflows/12"));
    let r = set_active_request("12", true);
    assert_eq!((r.method, r.path.as_str()), (HttpMethod::Post, "/workflows/12/activate"));
    let r = set_active_request("12", false);
    assert_eq!(r.path, "/workflows/12/deactivate");
    let r = get_execution_request("99", true);
    assert_eq!(r.path, "/executions/99");
    assert_eq!(pairs(&r.query), vec![("includeData", "true")]);
    assert!(get_execution_request("99", false).query.is_empty());
    let r = retry_execution_request("99", false);
    assert_eq!((r.method, r.path.as_str()), (HttpMethod::Post, "/executions/99/retry"));
    match r.body {
        Some(Json::Object(entries)) => {
            assert_eq!(entries.len(), 1);
            assert_eq!(entries[0].0, "loadWorkflow");
            assert!(matches!(entries[0].1, Json::Bool(false)));
        }
        other => panic!("unexpected body {:?}", other),
    }
    assert_eq!(request_url("https://x.io/api/v1", "/workflows"), "https://x.io/api/v1/workflows");
}

#[test]
fn api_error_messages_quote_the_body() {
    assert_eq!(api_error_message(404, "https://x.io/api/v1/workflows/1", "Not Found"), "n8n API error 404 on https://x.io/api/v1/workflows/1: Not Found");
    let body = "é".repeat(600);
    let m = api_error_message(500, "u", &body);
    assert_eq!(m, format!("n8n API error 500 on u: {}", "é".repeat(500)));
}
