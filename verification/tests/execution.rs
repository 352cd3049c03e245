use n8sight::domain::execution::{
    format_duration, format_relative, ExecutionDetail, ExecutionStatus, ExecutionSummary,
    NodeRunStatus, StatusCounts,
};
use n8sight::domain::json::{Json, JsonNumber};

fn summary(id: &str, status: ExecutionStatus) -> ExecutionSummary {
    ExecutionSummary {
        id: id.into(),
        finished: true,
        mode: "production".into(),
        status,
        started_at: None,
        stopped_at: None,
        workflow_id: None,
        workflow_name: None,
        retry_of: None,
        retry_success_id: None,
    }
}

#[test]
fn test_format_duration() {
    assert_eq!(format_duration(50), "50ms");
    assert_eq!(format_duration(1500), "1.5s");
    assert_eq!(format_duration(65_000), "1m 5s");
    assert_eq!(format_duration(3_665_000), "1h 1m");
}

#[test]
fn test_format_relative() {
    let now = chrono::Utc::now().timestamp_millis();
    assert_eq!(format_relative(now - 30 * 1000, now), "just now");
    assert_eq!(format_relative(now - 5 * 60 * 1000, now), "5m ago");
    assert_eq!(format_relative(now - 3 * 3600 * 1000, now), "3h ago");
    assert_eq!(format_relative(now - 2 * 86400 * 1000, now), "2d ago");
}

#[test]
fn test_status_counts() {
    let execs = vec![
        summary("1", ExecutionStatus::Success),
        summary("2", ExecutionStatus::Error),
        summary("3", ExecutionStatus::Success),
    ];
    let counts = StatusCounts::from_executions(&execs);
    assert_eq!(counts.success, 2);
    assert_eq!(counts.error, 1);
    assert_eq!(counts.total, 3);
}

#[test]
fn test_filter_key_roundtrip() {
    assert_eq!(ExecutionStatus::Success.filter_key(), "success");
    assert_eq!(ExecutionStatus::Error.filter_key(), "error");
    assert_eq!(ExecutionStatus::Running.filter_key(), "running");
}

#[test]
fn format_duration_matches_one_decimal_rendering_of_seconds() {
    for ms in 1000i64..60_000 {
        let expected = format!("{:.1}s", ms as f64 / 1000.0);
        assert_eq!(format_duration(ms), expected, "ms = {}", ms);
    }
}

#[test]
fn format_duration_edges() {
    assert_eq!(format_duration(0), "0ms");
    assert_eq!(format_duration(-5), "-5ms");
    assert_eq!(format_duration(999), "999ms");
    assert_eq!(format_duration(1000), "1.0s");
    assert_eq!(format_duration(1050), "1.1s");
    assert_eq!(format_duration(1250), "1.2s");
    assert_eq!(format_duration(59_999), "60.0s");
    assert_eq!(format_duration(60_000), "1m 0s");
    assert_eq!(format_duration(3_599_999), "59m 59s");
    assert_eq!(format_duration(3_600_000), "1h 0m");
    assert_eq!(format_duration(90_000_000), "25h 0m");
}

#[test]
fn format_relative_future_and_bounds() {
    assert_eq!(format_relative(10_000, 0), "in the future");
    assert_eq!(format_relative(0, 59_999), "just now");
    assert_eq!(format_relative(0, 60_000), "1m ago");
    assert_eq!(format_relative(0, 3_599_999), "59m ago");
    assert_eq!(format_relative(0, 3_600_000), "1h ago");
    assert_eq!(format_relative(0, 86_400_000), "1d ago");
    assert_eq!(format_relative(500, 0), "just now");
}

#[test]
fn status_symbols_and_labels() {
    assert_eq!(ExecutionStatus::Success.symbol(), "✓");
    assert_eq!(ExecutionStatus::Error.symbol(), "✗");
    assert_eq!(ExecutionStatus::Running.symbol(), "⟳");
    assert_eq!(ExecutionStatus::Waiting.symbol(), "◷");
    assert_eq!(ExecutionStatus::Canceled.symbol(), "⊘");
    assert_eq!(ExecutionStatus::Unknown.symbol(), "?");
    assert_eq!(ExecutionStatus::Waiting.filter_key(), "waiting");
    assert_eq!(ExecutionStatus::Canceled.filter_key(), "canceled");
    assert_eq!(ExecutionStatus::Canceled.label(), "Canceled");
    assert_eq!(NodeRunStatus::Waiting.symbol(), "◷");
}

#[test]
fn status_counts_count_every_status() {
    let execs = vec![
        summary("1", ExecutionStatus::Running),
        summary("2", ExecutionStatus::Waiting),
        summary("3", ExecutionStatus::Canceled),
        summary("4", ExecutionStatus::Unknown),
    ];
    let c = StatusCounts::from_executions(&execs);
    assert_eq!((c.success, c.error, c.running, c.waiting, c.canceled, c.total), (0, 0, 1, 1, 1, 4));
}

#[test]
fn durations_of_summaries() {
    let mut e = summary("1", ExecutionStatus::Success);
    assert_eq!(e.duration_display(0), "—");
    assert_eq!(e.started_ago(0), "—");
    e.started_at = Some(1_000);
    e.stopped_at = Some(3_500);
    assert_eq!(e.duration_display(0), "2.5s");
    e.stopped_at = None;
    e.status = ExecutionStatus::Running;
    assert_eq!(e.duration_display(61_000), "1m 0s…");
    assert_eq!(e.started_ago(121_000), "2m ago");
}

fn obj(entries: Vec<(&str, Json)>) -> Json {
    Json::Object(entries.into_iter().map(|(k, v)| (k.to_string(), v)).collect())
}

fn num(n: u64) -> Json {
    Json::Number(JsonNumber::PosInt(n))
}

fn run(start: u64, time: u64, status: &str, items: usize) -> Json {
    let branch = Json::Array((0..items).map(|_| obj(vec![])).collect());
    obj(vec![
        ("data", obj(vec![("main", Json::Array(vec![branch]))])),
        ("executionStatus", Json::Str(status.into())),
        ("executionTime", num(time)),
        ("startTime", num(start)),
    ])
}

fn detail_with(data: Option<Json>) -> ExecutionDetail {
    ExecutionDetail {
        id: "9".into(),
        finished: true,
        mode: "manual".into(),
        status: ExecutionStatus::Success,
        started_at: Some(0),
        stopped_at: Some(450),
        workflow_id: None,
        retry_of: None,
        retry_success_id: None,
        data,
        workflow_data: None,
    }
}

#[test]
fn node_runs_are_ordered_by_start() {
    let run_data = obj(vec![
        ("B", Json::Array(vec![run(2_000, 5, "success", 2)])),
        ("A", Json::Array(vec![run(1_000, 7, "error", 0)])),
        ("C", Json::Array(vec![run(3_000, 1, "waiting", 1)])),
    ]);
    let data = obj(vec![("resultData", obj(vec![("runData", run_data)]))]);
    let runs = detail_with(Some(data)).node_runs();
    let names: Vec<&str> = runs.iter().map(|r| r.node_name.as_str()).collect();
    assert_eq!(names, vec!["A", "B", "C"]);
    assert_eq!(runs[0].status, NodeRunStatus::Error);
    assert_eq!(runs[1].status, NodeRunStatus::Success);
    assert_eq!(runs[2].status, NodeRunStatus::Waiting);
    assert_eq!(runs[1].duration_ms, Some(5));
    assert_eq!(runs[1].items_out, 2);
    assert_eq!(runs[0].started_at, Some(1_000));
}

#[test]
fn node_runs_without_run_data_are_empty() {
    assert!(detail_with(None).node_runs().is_empty());
    assert!(detail_with(Some(obj(vec![]))).node_runs().is_empty());
}

#[test]
fn node_run_error_message_sets_error_status() {
    let failing = obj(vec![
        ("error", obj(vec![("message", Json::Str("boom".into()))])),
        ("executionStatus", Json::Str("success".into())),
    ]);
    let data = obj(vec![("resultData", obj(vec![("runData", obj(vec![("N", Json::Array(vec![failing]))]))]))]);
    let runs = detail_with(Some(data)).node_runs();
    assert_eq!(runs.len(), 1);
    assert_eq!(runs[0].status, NodeRunStatus::Error);
    match &runs[0].error {
        Some(n8sight::domain::execution::NodeError::Message(m)) => assert_eq!(m, "boom"),
        other => panic!("unexpected error {:?}", other),
    }
    assert_eq!(runs[0].started_at, None);
}

#[test]
fn detail_duration_display() {
    assert_eq!(detail_with(None).duration_display(0), "450ms");
}
