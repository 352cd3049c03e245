use n8sight::domain::execution::{ExecutionStatus, ExecutionSummary, NodeRunResult, NodeRunStatus};
use n8sight::domain::workflow::{Tag, WorkflowSummary};
use n8sight::figures::{
    build_execution_sparkline, clock_time, execution_stats, node_stats, refresh_countdown, share_pct,
    shorten_error, truncate, truncate_name, waterfall_scale, workflow_stats,
};

fn run(name: &str, status: NodeRunStatus, ms: Option<i64>, out: usize) -> NodeRunResult {
    NodeRunResult { node_name: name.into(), status, started_at: None, duration_ms: ms, items_in: 0, items_out: out, error: None, data: None }
}

#[test]
fn node_statistics() {
    let runs = vec![
        run("a", NodeRunStatus::Success, Some(10), 1),
        run("b", NodeRunStatus::Error, Some(30), 0),
        run("c", NodeRunStatus::Success, None, 4),
        run("d", NodeRunStatus::Success, Some(30), 2),
    ];
    let s = node_stats(&runs);
    assert_eq!((s.total, s.succeeded, s.failed), (4, 3, 1));
    assert_eq!(s.total_ms, 70);
    assert_eq!(s.items_out, 7);
    assert_eq!(s.success_pct, 75);
    assert_eq!(s.slowest, Some(3));
    assert_eq!(node_stats(&vec![]).slowest, None);
    assert_eq!(node_stats(&vec![]).success_pct, 0);
    assert_eq!(waterfall_scale(&runs), 30);
    assert_eq!(waterfall_scale(&vec![run("x", NodeRunStatus::Unknown, Some(0), 0)]), 1);
    assert_eq!(share_pct(450, 466), 96);
    assert_eq!(share_pct(-5, 10), -50);
    assert_eq!(share_pct(5, 0), 0);
}

fn wf(active: bool, tagged: bool) -> WorkflowSummary {
    WorkflowSummary {
        id: "1".into(),
        name: "w".into(),
        active,
        tags: if tagged { vec![Tag { id: "t".into(), name: "x".into(), created_at: None, updated_at: None }] } else { vec![] },
        created_at: None,
        updated_at: None,
        version_id: None,
    }
}

#[test]
fn workflow_list_statistics() {
    let s = workflow_stats(&vec![wf(true, true), wf(false, false), wf(true, false)]);
    assert_eq!((s.total, s.active, s.inactive, s.active_pct, s.inactive_pct, s.tagged), (3, 2, 1, 66, 34, 1));
    let s = workflow_stats(&vec![]);
    assert_eq!((s.active_pct, s.inactive_pct), (0, 100));
}

fn ex(start: Option<i64>, stop: Option<i64>, retry: bool) -> ExecutionSummary {
    ExecutionSummary {
        id: "1".into(),
        finished: true,
        mode: "m".into(),
        status: ExecutionStatus::Success,
        started_at: start,
        stopped_at: stop,
        workflow_id: None,
        workflow_name: None,
        retry_of: if retry { Some("0".into()) } else { None },
        retry_success_id: None,
    }
}

#[test]
fn execution_list_statistics() {
    let s = execution_stats(&vec![ex(Some(0), Some(1000), false), ex(Some(0), Some(2500), true), ex(Some(0), None, true)]);
    assert_eq!((s.avg_ms, s.max_ms, s.retries), (1750, 2500, 2));
    let s = execution_stats(&vec![ex(None, None, false)]);
    assert_eq!((s.avg_ms, s.max_ms), (0, 0));
    let s = execution_stats(&vec![ex(Some(100), Some(0), false)]);
    assert_eq!((s.avg_ms, s.max_ms), (-100, -100));
}

#[test]
fn sparkline_counts_starts_per_minute() {
    let now = 10 * 60_000;
    let execs = vec![
        ex(Some(now - 30_000), None, false),
        ex(Some(now - 61_000), None, false),
        ex(Some(now - 65_000), None, false),
        ex(Some(now - 10 * 60_000), None, false),
        ex(Some(now + 1_000), None, false),
        ex(None, None, false),
    ];
    assert_eq!(build_execution_sparkline(&execs, now, 4), vec![0, 0, 2, 2]);
    assert!(build_execution_sparkline(&execs, now, 0).is_empty());
}

#[test]
fn countdown_to_next_refresh() {
    assert_eq!(refresh_countdown(15, 0, 4_500), 11);
    assert_eq!(refresh_countdown(15, 0, 20_000), 0);
}

#[test]
fn cutting_texts() {
    assert_eq!(truncate_name("Send Email", 16), "Send Email");
    assert_eq!(truncate_name("A very long node name", 16), "A very long nod…");
    assert_eq!(truncate("webhook", 5), "webh…");
    assert_eq!(truncate("abc", 0), "…");
    assert_eq!(shorten_error("short"), "short");
    let long = "x".repeat(40);
    assert_eq!(shorten_error(&long), format!("{}…", "x".repeat(35)));
    assert_eq!(truncate_name("héllo wörld", 4), "hé…");
}

#[test]
fn clock_time_shows_the_utc_time_of_day() {
    assert_eq!(clock_time(Some(0)), "00:00:00");
    assert_eq!(clock_time(Some(3_723_000)), "01:02:03");
    assert_eq!(clock_time(Some(86_400_000 + 45_296_999)), "12:34:56");
    assert_eq!(clock_time(Some(-1_000)), "23:59:59");
    assert_eq!(clock_time(Some(i64::MAX)), "—");
    assert_eq!(clock_time(None), "—");
}
