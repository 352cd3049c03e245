use n8sight::action::Action;
use n8sight::cli_worker::{resume, scan_duration, start, WorkerCall, WorkerJob, WorkerReply, WorkerRequest, WorkerStep};
use n8sight::client::pager::Pager;
use n8sight::client::{ExecutionFilter, WorkflowFilter};
use n8sight::domain::execution::{ExecutionStatus, ExecutionSummary};
use n8sight::domain::insights::InsightCategory;
use n8sight::domain::workflow::WorkflowSummary;

fn wf(id: &str) -> WorkflowSummary {
    WorkflowSummary { id: id.into(), name: id.into(), active: true, tags: vec![], created_at: None, updated_at: None, version_id: None }
}

fn ex(id: &str) -> ExecutionSummary {
    ExecutionSummary {
        id: id.into(),
        finished: true,
        mode: "manual".into(),
        status: ExecutionStatus::Success,
        started_at: None,
        stopped_at: None,
        workflow_id: None,
        workflow_name: None,
        retry_of: None,
        retry_success_id: None,
    }
}

#[test]
fn fetching_workflows_lists_five_pages() {
    let (job, call) = start(WorkerRequest::FetchWorkflows(WorkflowFilter::default()));
    assert!(matches!(call, WorkerCall::ListWorkflows(_, 5)));
    match resume(job, WorkerReply::Workflows(vec![wf("1")])) {
        WorkerStep::Finish(Action::WorkflowsLoaded(ws)) => assert_eq!(ws.len(), 1),
        other => panic!("unexpected {:?}", matches!(other, WorkerStep::Call(..))),
    }
}

#[test]
fn failures_are_reported_with_their_context() {
    let (job, _) = start(WorkerRequest::FetchExecutionDetail("7".into(), true));
    match resume(job, WorkerReply::Failed("timeout".into())) {
        WorkerStep::Finish(Action::LoadError(m)) => assert_eq!(m, "Failed to fetch execution: timeout"),
        _ => panic!("expected a load error"),
    }
    let (job, _) = start(WorkerRequest::RunInsights(3));
    match resume(job, WorkerReply::Failed("down".into())) {
        WorkerStep::Finish(Action::LoadError(m)) => assert_eq!(m, "Insights: down"),
        _ => panic!("expected a load error"),
    }
    let (job, _) = start(WorkerRequest::ActivateWorkflow("1".into()));
    match resume(job, WorkerReply::Failed("nope".into())) {
        WorkerStep::Finish(Action::LoadError(m)) => assert_eq!(m, "Failed to activate: nope"),
        _ => panic!("expected a load error"),
    }
}

#[test]
fn activation_then_lists_workflows_again() {
    let (job, call) = start(WorkerRequest::DeactivateWorkflow("4".into()));
    assert!(matches!(&call, WorkerCall::DeactivateWorkflow(id) if id == "4"));
    let (job, call) = match resume(job, WorkerReply::Changed) {
        WorkerStep::Call(j, c) => (j, c),
        _ => panic!("expected another call"),
    };
    assert!(matches!(&call, WorkerCall::ListWorkflows(f, 5) if f.active.is_none()));
    match resume(job, WorkerReply::Failed("gone".into())) {
        WorkerStep::Finish(Action::LoadError(m)) => assert_eq!(m, "gone"),
        _ => panic!("expected a load error"),
    }
}

#[test]
fn retry_then_lists_executions_again() {
    let (job, call) = start(WorkerRequest::RetryExecution("9".into()));
    assert!(matches!(&call, WorkerCall::RetryExecution(id, false) if id == "9"));
    let (job, call) = match resume(job, WorkerReply::Changed) {
        WorkerStep::Call(j, c) => (j, c),
        _ => panic!("expected another call"),
    };
    assert!(matches!(&call, WorkerCall::ListExecutions(_, 5)));
    assert!(matches!(resume(job, WorkerReply::Executions(vec![ex("1")])), WorkerStep::Finish(Action::ExecutionsLoaded(_))));
}

#[test]
fn insights_scan_reads_both_lists_then_scans() {
    let (job, call) = start(WorkerRequest::RunInsights(2));
    assert!(matches!(&call, WorkerCall::ListWorkflows(f, 2) if f.limit == Some(100)));
    let (job, call) = match resume(job, WorkerReply::Workflows(vec![wf("1"), wf("2")])) {
        WorkerStep::Call(j, c) => (j, c),
        _ => panic!("expected another call"),
    };
    assert!(matches!(&job, WorkerJob::InsightExecutions(ws) if ws.len() == 2));
    assert!(matches!(&call, WorkerCall::ListExecutions(f, 2) if f.limit == Some(100)));
    match resume(job, WorkerReply::Executions(vec![ex("1")])) {
        WorkerStep::Finish(Action::InsightsLoaded(r)) => {
            assert_eq!(r.workflows_scanned, 2);
            assert_eq!(r.executions_scanned, 1);
            // both workflows are active and have not run in the last 30 days
            let entities: Vec<&str> = r.findings.iter().map(|f| f.affected_entity.as_str()).collect();
            assert_eq!(entities, vec!["workflow:1", "workflow:2"]);
            assert!(r.findings.iter().all(|f| f.category == InsightCategory::AbandonedWorkflow));
        }
        _ => panic!("expected insights"),
    }
    assert_eq!(scan_duration(10, 25), 15);
    assert_eq!(scan_duration(25, 10), 0);
}

#[test]
fn pager_follows_cursors_until_none() {
    let filter = WorkflowFilter { name: Some("x".into()), ..WorkflowFilter::default() };
    let mut p: Pager<u32> = Pager::new(None, None, 5);
    let f = p.next_workflow_page(&filter).unwrap();
    assert_eq!(f.limit, Some(100));
    assert_eq!(f.cursor, None);
    assert_eq!(f.name.as_deref(), Some("x"));
    p.record_page(vec![1, 2], Some("c2".into()));
    let f = p.next_workflow_page(&filter).unwrap();
    assert_eq!(f.cursor.as_deref(), Some("c2"));
    p.record_page(vec![3], Some(String::new()));
    assert!(p.is_finished());
    assert!(p.next_workflow_page(&filter).is_none());
    assert_eq!(p.into_items(), vec![1, 2, 3]);
}

#[test]
fn pager_stops_after_the_page_limit() {
    let filter = ExecutionFilter { limit: Some(10), ..ExecutionFilter::default() };
    let mut p: Pager<u32> = Pager::new(Some("start".into()), Some(10), 2);
    let f = p.next_execution_page(&filter).unwrap();
    assert_eq!((f.limit, f.cursor.as_deref()), (Some(10), Some("start")));
    p.record_page(vec![1], Some("a".into()));
    p.record_page(vec![2], Some("b".into()));
    assert!(p.next_execution_page(&filter).is_none());
    assert_eq!(p.into_items(), vec![1, 2]);
}

#[test]
fn pager_stops_at_a_failed_page() {
    let mut p: Pager<u32> = Pager::new(None, None, 5);
    assert_eq!(p.record_outcome::<String>(Ok((vec![1, 2], Some("c2".into())))), None);
    assert!(!p.is_finished());
    assert_eq!(p.record_outcome::<String>(Err("HTTP 500".into())), Some("HTTP 500".to_string()));
    assert!(p.is_finished());
    assert!(p.next_workflow_page(&WorkflowFilter::default()).is_none());
    assert_eq!(p.into_items(), vec![1, 2]);
}
