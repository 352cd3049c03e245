use n8sight::domain::execution::{ExecutionStatus, ExecutionSummary};
use n8sight::domain::insights::{FindingDetail, InsightCategory, InsightsResult, Severity};
use n8sight::domain::insights_compute::{
    compute_insights_at, detect_abandoned_workflows, detect_high_failure_rate,
    detect_inactive_critical, detect_long_running, detect_retry_storms, detect_stuck_executions,
    is_critical_tag_name, sort_by_severity,
};
use n8sight::domain::workflow::{Tag, WorkflowSummary};

const NOW: i64 = 1_700_000_000_000;
const MIN: i64 = 60_000;
const DAY: i64 = 86_400_000;

fn ex(id: &str, wf: &str, status: ExecutionStatus, start: Option<i64>, stop: Option<i64>) -> ExecutionSummary {
    ExecutionSummary {
        id: id.into(),
        finished: stop.is_some(),
        mode: "production".into(),
        status,
        started_at: start,
        stopped_at: stop,
        workflow_id: Some(wf.into()),
        workflow_name: Some(format!("Flow {}", wf)),
        retry_of: None,
        retry_success_id: None,
    }
}

fn wf(id: &str, active: bool, tags: &[&str], updated: Option<i64>) -> WorkflowSummary {
    WorkflowSummary {
        id: id.into(),
        name: format!("WF {}", id),
        active,
        tags: tags.iter().map(|t| Tag { id: "x".into(), name: t.to_string(), created_at: None, updated_at: None }).collect(),
        created_at: None,
        updated_at: updated,
        version_id: None,
    }
}

#[test]
fn failure_rate_thresholds() {
    let mut execs = vec![];
    // workflow a: 2 of 3 failed -> critical
    execs.push(ex("1", "a", ExecutionStatus::Error, None, None));
    execs.push(ex("2", "a", ExecutionStatus::Error, None, None));
    execs.push(ex("3", "a", ExecutionStatus::Success, None, None));
    // workflow b: 1 of 4 failed -> warning (25%)
    execs.push(ex("4", "b", ExecutionStatus::Error, None, None));
    for i in 0..3 {
        execs.push(ex(&format!("b{}", i), "b", ExecutionStatus::Success, None, None));
    }
    // workflow c: 1 of 5 failed -> nothing (20% is not above 20%)
    execs.push(ex("5", "c", ExecutionStatus::Error, None, None));
    for i in 0..4 {
        execs.push(ex(&format!("c{}", i), "c", ExecutionStatus::Success, None, None));
    }
    // workflow d: 2 of 2 failed -> critical, however few the runs
    execs.push(ex("6", "d", ExecutionStatus::Error, None, None));
    execs.push(ex("7", "d", ExecutionStatus::Error, None, None));
    let f = detect_high_failure_rate(&execs, NOW);
    assert_eq!(f.len(), 3);
    assert_eq!(f[0].severity, Severity::Critical);
    assert_eq!(f[0].title, "High failure rate: Flow a");
    assert_eq!(f[0].affected_entity, "workflow:a");
    match &f[0].detail {
        FindingDetail::FailureRate { failed, total, workflow_name } => {
            assert_eq!((*failed, *total, workflow_name.as_str()), (2, 3, "Flow a"))
        }
        other => panic!("unexpected {:?}", other),
    }
    assert_eq!(f[1].severity, Severity::Warning);
    assert_eq!(f[1].title, "Elevated failure rate: Flow b");
    assert_eq!(f[1].category, InsightCategory::HighFailureRate);
    assert_eq!(f[2].severity, Severity::Critical);
    assert_eq!(f[2].title, "High failure rate: Flow d");
}

#[test]
fn stuck_execution_thresholds() {
    let execs = vec![
        ex("1", "a", ExecutionStatus::Running, Some(NOW - 31 * MIN), None),
        ex("2", "a", ExecutionStatus::Waiting, Some(NOW - 121 * MIN), None),
        ex("3", "a", ExecutionStatus::Running, Some(NOW - 30 * MIN), None),
        ex("4", "a", ExecutionStatus::Success, Some(NOW - 500 * MIN), None),
    ];
    let f = detect_stuck_executions(&execs, NOW);
    assert_eq!(f.len(), 2);
    assert_eq!(f[0].severity, Severity::Warning);
    assert_eq!(f[0].title, "Execution 1 Running for 31m");
    assert_eq!(f[0].affected_entity, "execution:1");
    assert_eq!(f[1].severity, Severity::Critical);
    assert_eq!(f[1].title, "Execution 2 Waiting for 121m");
}

#[test]
fn retry_storm_thresholds() {
    let mut execs = vec![];
    for i in 0..5 {
        let mut e = ex(&format!("a{}", i), "a", ExecutionStatus::Success, None, None);
        e.retry_of = Some("x".into());
        execs.push(e);
    }
    for i in 0..3 {
        let mut e = ex(&format!("b{}", i), "b", ExecutionStatus::Success, None, None);
        e.retry_of = Some("y".into());
        execs.push(e);
    }
    for i in 0..2 {
        let mut e = ex(&format!("c{}", i), "c", ExecutionStatus::Success, None, None);
        e.retry_of = Some("z".into());
        execs.push(e);
    }
    let f = detect_retry_storms(&execs, NOW);
    assert_eq!(f.len(), 2);
    assert_eq!(f[0].severity, Severity::Critical);
    assert_eq!(f[0].title, "Retry storm: Flow a (5 retries)");
    assert_eq!(f[1].severity, Severity::Warning);
    assert_eq!(f[1].title, "Multiple retries: Flow b (3 retries)");
}

#[test]
fn long_running_execution() {
    let execs = vec![
        ex("1", "a", ExecutionStatus::Success, Some(0), Some(1_000)),
        ex("2", "a", ExecutionStatus::Success, Some(0), Some(1_000)),
        ex("3", "a", ExecutionStatus::Success, Some(0), Some(1_000)),
        ex("4", "a", ExecutionStatus::Success, Some(0), Some(120_000)),
        // b: long, but never more than three times its average
        ex("5", "b", ExecutionStatus::Success, Some(0), Some(100_000)),
        ex("6", "b", ExecutionStatus::Success, Some(0), Some(100_000)),
        ex("7", "b", ExecutionStatus::Success, Some(0), Some(100_000)),
        // c: short runs, one of them over three times the average
        ex("8", "c", ExecutionStatus::Success, Some(0), Some(1_000)),
        ex("9", "c", ExecutionStatus::Success, Some(0), Some(1_000)),
        ex("10", "c", ExecutionStatus::Success, Some(0), Some(1_000)),
        ex("11", "c", ExecutionStatus::Success, Some(0), Some(30_000)),
        // d: a single run is its own average
        ex("12", "d", ExecutionStatus::Success, Some(0), Some(500_000)),
    ];
    let f = detect_long_running(&execs, NOW);
    assert_eq!(f.len(), 2);
    assert_eq!(f[0].title, "Long execution detected: Flow a");
    assert_eq!(f[0].severity, Severity::Warning);
    assert_eq!(f[1].title, "Long execution detected: Flow c");
    match &f[1].detail {
        FindingDetail::LongRunning { max_ms, total_ms, count, .. } => {
            assert_eq!((*max_ms, *total_ms, *count), (30_000, 33_000, 4))
        }
        other => panic!("unexpected {:?}", other),
    }
}

#[test]
fn abandoned_and_inactive_critical_workflows() {
    let workflows = vec![
        wf("1", true, &[], Some(NOW - 31 * DAY)),
        wf("2", true, &[], Some(NOW - 29 * DAY)),
        wf("3", false, &["Production"], None),
        wf("4", false, &["staging"], None),
        wf("5", true, &[], Some(NOW - 90 * DAY)),
        wf("6", true, &[], Some(NOW - 90 * DAY)),
        wf("7", true, &[], None),
    ];
    let execs = vec![
        // 5 ran yesterday; 6 last ran 40 days ago
        ex("9", "5", ExecutionStatus::Success, Some(NOW - DAY), Some(NOW - DAY + 1_000)),
        ex("10", "6", ExecutionStatus::Success, Some(NOW - 40 * DAY), Some(NOW - 40 * DAY + 1_000)),
    ];
    let a = detect_abandoned_workflows(&workflows, &execs, NOW);
    let titles: Vec<&str> = a.iter().map(|f| f.title.as_str()).collect();
    assert_eq!(titles, vec!["Possibly abandoned: WF 1", "Possibly abandoned: WF 2", "Possibly abandoned: WF 6", "Possibly abandoned: WF 7"]);
    assert_eq!(a[0].severity, Severity::Info);
    assert_eq!(a[0].affected_entity, "workflow:1");
    match &a[2].detail {
        FindingDetail::Text(t) => assert_eq!(t, "Active workflow 'WF 6' has no executions in the last 30 days"),
        other => panic!("unexpected {:?}", other),
    }
    let c = detect_inactive_critical(&workflows, NOW);
    assert_eq!(c.len(), 1);
    assert_eq!(c[0].title, "Critical workflow inactive: WF 3");
    assert!(is_critical_tag_name("prod"));
    assert!(!is_critical_tag_name("Prod"));
}

#[test]
fn scan_orders_findings_most_severe_first() {
    let workflows = vec![wf("1", true, &[], Some(NOW - 40 * DAY)), wf("3", false, &["critical"], None)];
    let execs = vec![
        ex("1", "a", ExecutionStatus::Running, Some(NOW - 200 * MIN), None),
        ex("2", "b", ExecutionStatus::Running, Some(NOW - 40 * MIN), None),
    ];
    let f = compute_insights_at(&workflows, &execs, NOW);
    let sev: Vec<Severity> = f.iter().map(|x| x.severity).collect();
    assert_eq!(sev, vec![Severity::Critical, Severity::Warning, Severity::Warning, Severity::Info]);
    assert_eq!(f[1].category, InsightCategory::StuckExecution);
    assert_eq!(f[2].category, InsightCategory::InactiveCriticalWorkflow);
    let result = InsightsResult { findings: f, workflows_scanned: 2, executions_scanned: 2, scan_duration_ms: 0, computed_at: NOW };
    assert_eq!((result.critical_count(), result.warning_count(), result.info_count()), (1, 2, 1));
}

#[test]
fn sorting_by_severity_is_stable() {
    let workflows = vec![wf("2", false, &["prod"], None), wf("1", false, &["critical"], None)];
    let f = detect_inactive_critical(&workflows, NOW);
    let sorted = sort_by_severity(f);
    let titles: Vec<&str> = sorted.iter().map(|x| x.title.as_str()).collect();
    assert_eq!(titles, vec!["Critical workflow inactive: WF 2", "Critical workflow inactive: WF 1"]);
}

#[test]
fn severity_and_category_texts() {
    assert_eq!(Severity::Critical.symbol(), "✗");
    assert_eq!(Severity::Warning.label(), "WARN");
    assert_eq!(InsightCategory::RetryStorm.name(), "Retry Storm");
    assert!(Severity::Critical.rank() > Severity::Info.rank());
}
