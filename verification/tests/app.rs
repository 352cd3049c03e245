use n8sight::action::{action_for_key, Action, Effect, KeyCode, KeyEvent, KeyModifiers};
use n8sight::app::{App, InputMode, SortKind, View};
use n8sight::cli_worker::WorkerRequest;
use n8sight::domain::execution::{ExecutionDetail, ExecutionStatus, ExecutionSummary};
use n8sight::domain::json::{Json, JsonNumber};
use n8sight::domain::workflow::{Tag, WorkflowDetail, WorkflowNode, WorkflowSummary};

const NOW: i64 = 1_700_000_000_000;

fn key(c: KeyCode) -> Action {
    Action::Key(KeyEvent { code: c, modifiers: KeyModifiers { shift: false, control: false, alt: false } })
}

fn ch(c: char) -> Action {
    key(KeyCode::Char(c))
}

fn alt(c: char) -> Action {
    Action::Key(KeyEvent { code: KeyCode::Char(c), modifiers: KeyModifiers { shift: false, control: false, alt: true } })
}

fn wf(id: &str, name: &str, active: bool, tag: Option<&str>, updated: i64) -> WorkflowSummary {
    WorkflowSummary {
        id: id.into(),
        name: name.into(),
        active,
        tags: tag
            .map(|t| vec![Tag { id: "t".into(), name: t.into(), created_at: None, updated_at: None }])
            .unwrap_or_default(),
        created_at: None,
        updated_at: Some(updated),
        version_id: None,
    }
}

fn ex(id: &str, status: ExecutionStatus, wf_name: &str, start: i64, stop: Option<i64>) -> ExecutionSummary {
    ExecutionSummary {
        id: id.into(),
        finished: stop.is_some(),
        mode: "production".into(),
        status,
        started_at: Some(start),
        stopped_at: stop,
        workflow_id: Some("1".into()),
        workflow_name: Some(wf_name.into()),
        retry_of: None,
        retry_success_id: None,
    }
}

fn loaded_app() -> App {
    let mut app = App::new_at("https://n8n.example.com/".into(), NOW);
    app.update(Action::WorkflowsLoaded(vec![
        wf("1", "Billing", true, Some("production"), 3),
        wf("2", "alpha sync", false, None, 1),
        wf("3", "Crm Import", true, Some("crm"), 2),
    ]));
    app.update(Action::ExecutionsLoaded(vec![
        ex("100", ExecutionStatus::Success, "Billing", NOW - 60_000, Some(NOW - 58_000)),
        ex("101", ExecutionStatus::Error, "Crm Import", NOW - 50_000, Some(NOW - 49_000)),
        ex("102", ExecutionStatus::Running, "Billing", NOW - 10_000, None),
    ]));
    app
}

fn names(list: &[WorkflowSummary]) -> Vec<String> {
    list.iter().map(|w| w.name.clone()).collect()
}

#[test]
fn startup_state_and_effects() {
    let app = App::new_at("http://localhost:5678".into(), NOW);
    assert_eq!(app.view, View::WorkflowList);
    assert_eq!(app.input_mode, InputMode::Normal);
    assert!(app.loading);
    assert!(app.auto_refresh);
    assert_eq!(app.auto_refresh_interval_secs, 15);
    let effects = App::init_effects();
    assert_eq!(effects.len(), 2);
    assert!(matches!(&effects[0], Effect::SendWorkerRequest(WorkerRequest::FetchWorkflows(f)) if f.active.is_none() && f.limit.is_none()));
    assert!(matches!(&effects[1], Effect::SendWorkerRequest(WorkerRequest::FetchExecutions(f)) if f.status.is_none()));
}

#[test]
fn quitting_takes_two_presses() {
    let mut app = loaded_app();
    let e = app.update(ch('q'));
    assert!(e.is_empty());
    assert!(!app.should_quit);
    assert_eq!(app.status_message.as_deref(), Some("Press q again to quit"));
    let e = app.update(ch('q'));
    assert!(app.should_quit);
    assert!(matches!(e.as_slice(), [Effect::Quit]));
}

#[test]
fn moving_between_presses_of_q_cancels_quitting() {
    let mut app = loaded_app();
    app.update(ch('q'));
    app.update(ch('j'));
    app.update(ch('q'));
    assert!(!app.should_quit);
}

#[test]
fn pause_and_resume_auto_refresh() {
    let mut app = loaded_app();
    app.update(ch('p'));
    assert!(!app.auto_refresh);
    assert_eq!(app.status_message.as_deref(), Some("Auto-refresh paused"));
    app.update(ch('p'));
    assert!(app.auto_refresh);
    assert_eq!(app.status_message.as_deref(), Some("Auto-refresh resumed (every 15s)"));
}

#[test]
fn ctrl_c_quits_at_once() {
    let k = KeyEvent { code: KeyCode::Char('c'), modifiers: KeyModifiers { shift: false, control: true, alt: false } };
    assert!(matches!(action_for_key(k), Action::Quit));
    let k = KeyEvent { code: KeyCode::Char('c'), modifiers: KeyModifiers { shift: false, control: false, alt: false } };
    assert!(matches!(action_for_key(k), Action::Key(_)));
}

#[test]
fn workflow_list_filters_and_sorts() {
    let mut app = loaded_app();
    assert_eq!(names(&app.filtered_workflows()), vec!["Billing", "alpha sync", "Crm Import"]);
    assert_eq!(app.wf_scroll.len(), 3);
    app.update(ch('n'));
    assert_eq!(app.wf_sort, SortKind::NameAsc);
    assert_eq!(names(&app.filtered_workflows()), vec!["alpha sync", "Billing", "Crm Import"]);
    app.update(ch('n'));
    assert_eq!(app.wf_sort, SortKind::NameDesc);
    assert_eq!(names(&app.filtered_workflows()), vec!["Crm Import", "Billing", "alpha sync"]);
    app.update(ch('u'));
    assert_eq!(names(&app.filtered_workflows()), vec!["alpha sync", "Crm Import", "Billing"]);
    app.update(ch('s'));
    assert_eq!(names(&app.filtered_workflows()), vec!["Billing", "Crm Import", "alpha sync"]);
    app.update(ch('i'));
    assert_eq!(names(&app.filtered_workflows()), vec!["alpha sync"]);
    app.update(ch('i'));
    assert_eq!(app.wf_active_filter, None);
    app.update(ch('a'));
    assert_eq!(app.wf_active_filter, Some(true));
    assert_eq!(app.filtered_workflows().len(), 2);
}

#[test]
fn text_filter_is_typed_then_applied() {
    let mut app = loaded_app();
    app.update(ch('/'));
    assert_eq!(app.input_mode, InputMode::Filter);
    app.update(ch('C'));
    app.update(ch('R'));
    app.update(ch('x'));
    app.update(key(KeyCode::Backspace));
    assert_eq!(app.filter_input, "CR");
    assert_eq!(names(&app.filtered_workflows()), vec!["Crm Import"]);
    app.update(key(KeyCode::Enter));
    assert_eq!(app.input_mode, InputMode::Normal);
    assert_eq!(app.wf_filter_text, "CR");
    assert_eq!(app.filter_input, "");
    assert_eq!(names(&app.filtered_workflows()), vec!["Crm Import"]);
    app.update(ch('/'));
    app.update(ch('z'));
    app.update(key(KeyCode::Esc));
    assert_eq!(app.wf_filter_text, "CR");
    assert_eq!(names(&app.filtered_workflows()), vec!["Crm Import"]);
}

#[test]
fn tag_names_match_the_filter() {
    let mut app = loaded_app();
    app.update(ch('/'));
    app.update(ch('p'));
    app.update(ch('r'));
    app.update(ch('o'));
    app.update(ch('d'));
    app.update(key(KeyCode::Enter));
    assert_eq!(names(&app.filtered_workflows()), vec!["Billing"]);
}

#[test]
fn copying_and_opening_links() {
    let mut app = loaded_app();
    app.update(ch('j'));
    let e = app.update(ch('x'));
    match e.as_slice() {
        [Effect::CopyToClipboard(url)] => assert_eq!(url, "https://n8n.example.com/workflow/2"),
        other => panic!("unexpected {:?}", other),
    }
    assert_eq!(app.status_message.as_deref(), Some("Copied: https://n8n.example.com/workflow/2"));
    app.update(key(KeyCode::Tab));
    assert_eq!(app.view, View::ExecutionList);
    let e = app.update(ch('o'));
    match e.as_slice() {
        [Effect::OpenUrl(url)] => assert_eq!(url, "https://n8n.example.com/executions/100"),
        other => panic!("unexpected {:?}", other),
    }
}

#[test]
fn selecting_fetches_details() {
    let mut app = loaded_app();
    app.update(ch('G'));
    let e = app.update(key(KeyCode::Enter));
    assert!(app.loading);
    assert!(matches!(e.as_slice(), [Effect::SendWorkerRequest(WorkerRequest::FetchWorkflowDetail(id))] if id == "3"));
    app.update(alt('2'));
    assert_eq!(app.view, View::ExecutionList);
    let e = app.update(key(KeyCode::Enter));
    assert!(matches!(e.as_slice(), [Effect::SendWorkerRequest(WorkerRequest::FetchExecutionDetail(id, true))] if id == "100"));
}

#[test]
fn execution_status_filter_and_duration_sort() {
    let mut app = loaded_app();
    app.update(alt('2'));
    app.update(ch('1'));
    assert_eq!(app.exec_status_filter.as_deref(), Some("error"));
    let ids: Vec<String> = app.filtered_executions().iter().map(|e| e.id.clone()).collect();
    assert_eq!(ids, vec!["101"]);
    app.update(ch('0'));
    app.update(ch('d'));
    assert_eq!(app.exec_sort, SortKind::DurationAsc);
    let ids: Vec<String> = app.filtered_executions().iter().map(|e| e.id.clone()).collect();
    assert_eq!(ids, vec!["101", "100", "102"]);
    app.update(ch('d'));
    let ids: Vec<String> = app.filtered_executions().iter().map(|e| e.id.clone()).collect();
    assert_eq!(ids, vec!["100", "101", "102"]);
    assert_eq!(app.exec_counts.total, 3);
    assert_eq!(app.exec_counts.running, 1);
}

#[test]
fn insights_tab_starts_a_scan_once() {
    let mut app = loaded_app();
    let e = app.update(alt('3'));
    assert_eq!(app.view, View::Insights);
    assert!(matches!(e.as_slice(), [Effect::SendWorkerRequest(WorkerRequest::RunInsights(5))]));
    let e = app.update(alt('3'));
    assert!(e.is_empty());
}

#[test]
fn ticks_refresh_the_list_when_due() {
    let mut app = loaded_app();
    app.tick_frame_at(NOW + 5_000);
    assert!(app.update(Action::Tick).is_empty());
    app.tick_frame_at(NOW + 15_000);
    let e = app.update(Action::Tick);
    assert!(matches!(e.as_slice(), [Effect::SendWorkerRequest(WorkerRequest::FetchWorkflows(_))]));
    assert_eq!(app.last_refresh, NOW + 15_000);
    app.update(ch('p'));
    app.tick_frame_at(NOW + 60_000);
    assert!(app.update(Action::Tick).is_empty());
}

#[test]
fn load_errors_are_shown() {
    let mut app = loaded_app();
    app.update(Action::LoadError("boom".into()));
    assert_eq!(app.status_message.as_deref(), Some("Error: boom"));
    assert!(!app.loading);
    app.update(Action::Tick);
    assert_eq!(app.status_message.as_deref(), Some("Error: boom"));
    app.update(ch('j'));
    assert_eq!(app.status_message, None);
}

fn node(name: &str) -> WorkflowNode {
    WorkflowNode {
        name: name.into(),
        node_type: "n8n-nodes-base.set".into(),
        position: vec![JsonNumber::PosInt(0), JsonNumber::PosInt(0)],
        parameters: Json::Object(vec![]),
        credentials: None,
        disabled: false,
        type_version: None,
    }
}

#[test]
fn workflow_graph_keys() {
    let mut app = loaded_app();
    app.update(Action::WorkflowDetailLoaded(Box::new(WorkflowDetail {
        id: "1".into(),
        name: "Billing".into(),
        active: true,
        tags: vec![],
        created_at: None,
        updated_at: None,
        version_id: None,
        nodes: vec![node("A"), node("B"), node("C")],
        connections: Json::Object(vec![]),
        settings: Json::Null,
        static_data: None,
    })));
    assert_eq!(app.view, View::WorkflowDetail);
    app.update(ch('l'));
    app.update(ch('l'));
    app.update(ch('k'));
    assert_eq!((app.graph_pan_x, app.graph_pan_y), (8, -2));
    app.update(ch('0'));
    assert_eq!((app.graph_pan_x, app.graph_pan_y), (0, 0));
    app.update(key(KeyCode::Tab));
    assert_eq!(app.graph_selected_node, 1);
    app.update(key(KeyCode::Enter));
    assert_eq!(app.view, View::WorkflowNodeInspect);
    app.update(ch('N'));
    app.update(ch('N'));
    assert_eq!(app.graph_selected_node, 2);
    app.update(ch('j'));
    app.update(ch('d'));
    assert_eq!(app.node_inspect_scroll, 11);
    app.update(ch('G'));
    assert_eq!(app.node_inspect_scroll, u16::MAX);
    app.update(key(KeyCode::Esc));
    assert_eq!(app.view, View::WorkflowDetail);
    app.update(key(KeyCode::Esc));
    assert_eq!(app.view, View::WorkflowList);
}

#[test]
fn execution_detail_and_retry() {
    let mut app = loaded_app();
    app.update(Action::ExecutionDetailLoaded(Box::new(ExecutionDetail {
        id: "101".into(),
        finished: true,
        mode: "production".into(),
        status: ExecutionStatus::Error,
        started_at: Some(NOW - 50_000),
        stopped_at: Some(NOW - 49_000),
        workflow_id: Some("3".into()),
        retry_of: None,
        retry_success_id: None,
        data: None,
        workflow_data: None,
    })));
    assert_eq!(app.view, View::ExecutionDetail);
    assert!(app.cached_node_runs.is_empty());
    let e = app.update(ch('R'));
    assert!(matches!(e.as_slice(), [Effect::SendWorkerRequest(WorkerRequest::RetryExecution(id))] if id == "101"));
    app.update(key(KeyCode::Enter));
    assert_eq!(app.view, View::NodeDetail(0));
    app.update(key(KeyCode::Esc));
    assert_eq!(app.view, View::ExecutionDetail);
    app.update(ch('?'));
    assert!(app.show_help);
    app.update(key(KeyCode::Esc));
    assert!(!app.show_help);
    assert_eq!(app.view, View::ExecutionDetail);
}

#[test]
fn toggling_activation_of_the_selected_workflow() {
    let mut app = loaded_app();
    let e = app.update(ch('A'));
    assert!(matches!(e.as_slice(), [Effect::SendWorkerRequest(WorkerRequest::DeactivateWorkflow(id))] if id == "1"));
    app.update(ch('j'));
    let e = app.update(ch('A'));
    assert!(matches!(e.as_slice(), [Effect::SendWorkerRequest(WorkerRequest::ActivateWorkflow(id))] if id == "2"));
}

#[test]
fn sort_indicator_marks_the_direction() {
    let app = loaded_app();
    assert_eq!(app.sort_indicator(&SortKind::NameAsc, &SortKind::NameAsc, &SortKind::NameDesc), " ▲");
    assert_eq!(app.sort_indicator(&SortKind::NameDesc, &SortKind::NameAsc, &SortKind::NameDesc), " ▼");
    assert_eq!(app.sort_indicator(&SortKind::Unsorted, &SortKind::NameAsc, &SortKind::NameDesc), "");
}

#[test]
fn starting_a_filter_shows_the_list_for_the_empty_input() {
    let mut app = loaded_app();
    app.update(ch('/'));
    app.update(ch('C'));
    app.update(ch('R'));
    app.update(key(KeyCode::Enter));
    assert_eq!(names(&app.filtered_workflows()), vec!["Crm Import"]);
    // while typing, the list follows the (now empty) input, not the old cache
    app.update(ch('/'));
    assert_eq!(app.filter_input, "");
    assert_eq!(names(&app.filtered_workflows()), vec!["Billing", "alpha sync", "Crm Import"]);
}

#[test]
fn leaving_the_list_while_filtering_restores_its_stored_filter() {
    let mut app = loaded_app();
    app.update(ch('/'));
    app.update(ch('C'));
    app.update(ch('R'));
    app.update(key(KeyCode::Enter));
    app.update(ch('/'));
    app.update(ch('z'));
    assert_eq!(names(&app.filtered_workflows()), Vec::<String>::new());
    // switching tabs while typing leaves the list view: the stored text filters it again
    app.update(Action::CycleTab);
    assert_eq!(names(&app.filtered_workflows()), vec!["Crm Import"]);
}
