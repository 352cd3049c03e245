use n8sight::client::mock::MockN8nClient;
use n8sight::client::{ExecutionFilter, WorkflowFilter};
use n8sight::domain::execution::{ExecutionStatus, NodeRunStatus};
use n8sight::figures::{incoming, outgoing, parse_connections};

const NOW: i64 = 1_700_000_000_000;

#[test]
fn canned_workflows() {
    let ws = MockN8nClient::mock_workflows_at(NOW);
    let names: Vec<&str> = ws.iter().map(|w| w.name.as_str()).collect();
    assert_eq!(names, vec!["Customer Onboarding", "Slack Notification Bot", "Data Sync Pipeline", "Invoice Generator", "Weekly Report Emailer"]);
    assert_eq!(ws[3].updated_at, Some(NOW - 30 * 60_000));
    assert_eq!(ws[0].tags[0].name, "production");
    assert!(!ws[2].active);
}

#[test]
fn listing_filters_canned_workflows() {
    let client = MockN8nClient::new();
    let r = client.list_workflows_at(WorkflowFilter { active: Some(false), ..WorkflowFilter::default() }, NOW);
    assert_eq!(r.data.len(), 1);
    assert_eq!(r.data[0].id, "3");
    assert!(r.next_cursor.is_none());
    let r = client.list_workflows_at(WorkflowFilter { name: Some("SLACK".into()), ..WorkflowFilter::default() }, NOW);
    assert_eq!(r.data.len(), 1);
    assert_eq!(r.data[0].id, "2");
}

#[test]
fn listing_filters_canned_executions() {
    let client = MockN8nClient::new();
    let all = client.list_executions_at(ExecutionFilter::default(), NOW);
    assert_eq!(all.data.len(), 7);
    let errors = client.list_executions_at(ExecutionFilter { status: Some("error".into()), ..ExecutionFilter::default() }, NOW);
    let ids: Vec<&str> = errors.data.iter().map(|e| e.id.as_str()).collect();
    assert_eq!(ids, vec!["1002", "1006"]);
    let by_wf = client.list_executions_at(ExecutionFilter { workflow_id: Some("1".into()), ..ExecutionFilter::default() }, NOW);
    assert_eq!(by_wf.data.len(), 2);
    assert_eq!(all.data[6].retry_of.as_deref(), Some("1006"));
    assert_eq!(all.data[2].status, ExecutionStatus::Running);
}

#[test]
fn canned_workflow_graph() {
    let client = MockN8nClient::new();
    assert_eq!(client.get_workflow_at("42", NOW).unwrap_err(), "Workflow not found: 42");
    let d = client.get_workflow_at("4", NOW).unwrap();
    assert_eq!(d.name, "Invoice Generator");
    assert_eq!(d.nodes.len(), 5);
    assert_eq!(d.trigger_nodes().len(), 1);
    let edges = parse_connections(&d.connections);
    let sources: Vec<&str> = edges.iter().map(|e| e.0.as_str()).collect();
    assert_eq!(sources, vec!["IF", "Set Fields", "Webhook"]);
    assert_eq!(outgoing(&edges, "IF"), vec!["Send Email".to_string(), "Slack".to_string()]);
    assert_eq!(incoming(&edges, "IF"), vec!["Set Fields".to_string()]);
    assert!(outgoing(&edges, "Slack").is_empty());
}

#[test]
fn canned_execution_runs() {
    let client = MockN8nClient::new();
    assert_eq!(client.get_execution_at("1", false, NOW).unwrap_err(), "Execution not found: 1");
    let d = client.get_execution_at("1006", true, NOW).unwrap();
    assert_eq!(d.retry_success_id.as_deref(), Some("1007"));
    let runs = d.node_runs();
    let names: Vec<&str> = runs.iter().map(|r| r.node_name.as_str()).collect();
    assert_eq!(names, vec!["Webhook", "Set Fields", "IF", "Send Email"]);
    let durations: Vec<Option<i64>> = runs.iter().map(|r| r.duration_ms).collect();
    assert_eq!(durations, vec![Some(12), Some(3), Some(1), Some(450)]);
    assert!(runs.iter().all(|r| r.status == NodeRunStatus::Success));
    assert_eq!(runs[2].items_out, 1);
    assert_eq!(runs[0].started_at, Some(NOW - 5000));
}

#[test]
fn mock_webhook_checks_the_body() {
    let client = MockN8nClient::new();
    assert_eq!(client.trigger_webhook("/hook", "{\"a\": 1}"), Ok("mock-exec-2001".to_string()));
    let err = client.trigger_webhook("/hook", "{oops").unwrap_err();
    assert!(err.starts_with("Mock: invalid JSON: "), "{}", err);
}
