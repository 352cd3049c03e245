//! The figures the screens show: statistics of an execution's node runs and
//! of the two lists, the per-minute activity histogram, the refresh
//! countdown, the connections of a workflow graph, and texts cut to a width.
use vstd::prelude::*;
use vstd::utf8::{decode_utf8, encode_utf8, is_char_boundary};

use crate::domain::execution::{
    MAX_INSTANT_MS, MIN_INSTANT_MS, div_trunc, span_ms, span_secs, ExecutionSummary, NodeRunResult, NodeRunStatus, NodeRunView,
    node_runs_view,
};
use crate::domain::json::Json;
use crate::domain::workflow::WorkflowSummary;
use crate::text::{copy_str, push_str};

verus! {

// ─── Node runs of an execution ──────────────────────────────────────────────
/// Statistics of an execution's node runs.
#[derive(Debug, Clone, Copy, PartialEq, Eq, Structural)]
pub struct NodeStats {
    pub total: usize,
    pub succeeded: usize,
    pub failed: usize,
    /// Sum of the known durations.
    pub total_ms: i64,
    /// The position of the slowest run (the last of equally slow ones).
    pub slowest: Option<usize>,
    /// Items over the runs' outputs.
    pub items_out: usize,
    /// Share of successful runs, in whole percent.
    pub success_pct: usize,
}

/// How many runs have status `st`.
pub open spec fn runs_with(runs: Seq<NodeRunView>, st: NodeRunStatus) -> nat {
    runs.filter(|r: NodeRunView| r.status == st).len()
}

/// The sum of the known durations.
pub open spec fn known_ms(runs: Seq<NodeRunView>) -> int
    decreases runs.len(),
{
    if runs.len() == 0 {
        0
    } else {
        known_ms(runs.drop_last()) + match runs.last().duration_ms {
            Some(d) => d as int,
            None => 0,
        }
    }
}

/// The sum of the items out.
pub open spec fn items_out_sum(runs: Seq<NodeRunView>) -> int
    decreases runs.len(),
{
    if runs.len() == 0 {
        0
    } else {
        items_out_sum(runs.drop_last()) + runs.last().items_out
    }
}

/// The key a run is ranked by when looking for the slowest: its duration,
/// or 0 when unknown.
pub open spec fn slow_key(r: NodeRunView) -> int {
    match r.duration_ms {
        Some(d) => d as int,
        None => 0,
    }
}

/// `k` is the position of a slowest run: none is slower, and every later
/// one is faster.
pub open spec fn is_slowest(runs: Seq<NodeRunView>, k: int) -> bool {
    &&& 0 <= k < runs.len()
    &&& forall|j: int| 0 <= j < runs.len() ==> slow_key(#[trigger] runs[j]) <= slow_key(runs[k])
    &&& forall|j: int| k < j < runs.len() ==> slow_key(#[trigger] runs[j]) < slow_key(runs[k])
}

/// `part` in whole percent of `whole` (0 of nothing).
pub open spec fn percent_of(part: int, whole: int) -> int {
    if whole > 0 {
        part * 100 / whole
    } else {
        0
    }
}

/// The statistics of an execution's node runs.
pub fn node_stats(runs: &Vec<NodeRunResult>) -> (r: NodeStats)
    requires
        i64::MIN <= known_ms(node_runs_view(runs@)) <= i64::MAX,
        items_out_sum(node_runs_view(runs@)) <= usize::MAX,
    ensures
        r.total == runs@.len(),
        r.succeeded == runs_with(node_runs_view(runs@), NodeRunStatus::Success),
        r.failed == runs_with(node_runs_view(runs@), NodeRunStatus::Error),
        r.total_ms == known_ms(node_runs_view(runs@)),
        r.items_out == items_out_sum(node_runs_view(runs@)),
        r.success_pct == percent_of(r.succeeded as int, r.total as int),
        match r.slowest {
            Some(k) => is_slowest(node_runs_view(runs@), k as int),
            None => runs@.len() == 0,
        },
{
    let ghost v = node_runs_view(runs@);
    let ghost ps = |x: NodeRunView| x.status == NodeRunStatus::Success;
    let ghost pe = |x: NodeRunView| x.status == NodeRunStatus::Error;
    let mut succeeded: usize = 0;
    let mut failed: usize = 0;
    let mut total_ms: i128 = 0;
    let mut items: u128 = 0;
    let mut slowest: Option<usize> = None;
    let mut i: usize = 0;
    while i < runs.len()
        invariant
            v == node_runs_view(runs@),
            ps == (|x: NodeRunView| x.status == NodeRunStatus::Success),
            pe == (|x: NodeRunView| x.status == NodeRunStatus::Error),
            i <= runs.len(),
            succeeded == v.take(i as int).filter(ps).len(),
            failed == v.take(i as int).filter(pe).len(),
            total_ms == known_ms(v.take(i as int)),
            items == items_out_sum(v.take(i as int)),
            succeeded <= i,
            failed <= i,
            -0x8000_0000_0000_0000 * i <= total_ms <= 0x8000_0000_0000_0000 * i,
            items <= 0xFFFF_FFFF_FFFF_FFFF * i,
            match slowest {
                Some(k) => is_slowest(v.take(i as int), k as int),
                None => i == 0,
            },
        decreases runs.len() - i,
    {
        let ghost t = v.take(i as int);
        let ghost t1 = v.take(i + 1);
        proof {
            reveal(Seq::filter);
            assert(t1.drop_last() =~= t);
            assert(t1.last() == runs@[i as int].view());
        }
        let run = &runs[i];
        match run.status {
            NodeRunStatus::Success => succeeded = succeeded + 1,
            NodeRunStatus::Error => failed = failed + 1,
            _ => {},
        }
        let d: i64 = match run.duration_ms {
            Some(d) => d,
            None => 0,
        };
        match run.duration_ms {
            Some(d) => total_ms = total_ms + d as i128,
            None => {},
        }
        items = items + run.items_out as u128;
        let better = match slowest {
            Some(k) => {
                let dk: i64 = match runs[k].duration_ms {
                    Some(x) => x,
                    None => 0,
                };
                d >= dk
            },
            None => true,
        };
        if better {
            slowest = Some(i);
        }
        proof {
            assert forall|j: int| 0 <= j < t1.len() implies #[trigger] t1[j] == v[j] by {}
            assert(slow_key(t1[i as int]) == d);
            match slowest {
                Some(k) => {
                    assert forall|j: int| 0 <= j < t1.len() implies slow_key(#[trigger] t1[j]) <= slow_key(t1[k as int]) by {
                        if j < i {
                            assert(t1[j] == t[j]);
                        }
                    }
                    assert forall|j: int| k < j < t1.len() implies slow_key(#[trigger] t1[j]) < slow_key(t1[k as int]) by {
                        if j < i {
                            assert(t1[j] == t[j]);
                        }
                    }
                },
                None => {},
            }
        }
        i = i + 1;
    }
    proof {
        assert(v.take(runs@.len() as int) =~= v);
    }
    let total = runs.len();
    let success_pct: usize = if total > 0 {
        let q: u128 = (succeeded as u128 * 100) / total as u128;
        proof {
            let (a, b) = (succeeded as int, total as int);
            assert(a * 100 / b <= 100) by (nonlinear_arith)
                requires
                    0 <= a <= b,
                    b > 0,
            ;
        }
        q as usize
    } else {
        0
    };
    NodeStats {
        total,
        succeeded,
        failed,
        total_ms: total_ms as i64,
        slowest,
        items_out: items as usize,
        success_pct,
    }
}

/// `part` in whole percent of `whole`, truncated toward zero; 0 when
/// `whole` is not positive.
pub fn share_pct(part: i64, whole: i64) -> (r: i64)
    requires
        whole > 0 ==> i64::MIN <= part * 100 <= i64::MAX,
    ensures
        r == if whole > 0 {
            div_trunc(part * 100, whole as int)
        } else {
            0
        },
{
    if whole > 0 {
        let p: i128 = part as i128 * 100;
        let w: i128 = whole as i128;
        if p >= 0 {
            (p / w) as i64
        } else {
            let n: i128 = 0 - p;
            (0 - n / w) as i64
        }
    } else {
        0
    }
}

/// The longest known duration, at least 1 (the scale of the waterfall).
pub open spec fn longest_ms(runs: Seq<NodeRunView>) -> int
    decreases runs.len(),
{
    if runs.len() == 0 {
        1
    } else {
        let rest = longest_ms(runs.drop_last());
        match runs.last().duration_ms {
            Some(d) => if d > rest {
                d as int
            } else {
                rest
            },
            None => rest,
        }
    }
}

/// The scale of the node waterfall: the longest known duration, and at
/// least 1.
pub fn waterfall_scale(runs: &Vec<NodeRunResult>) -> (r: i64)
    ensures
        r == longest_ms(node_runs_view(runs@)),
        r >= 1,
{
    let ghost v = node_runs_view(runs@);
    let mut m: i64 = 1;
    let mut i: usize = 0;
    while i < runs.len()
        invariant
            v == node_runs_view(runs@),
            i <= runs.len(),
            m == longest_ms(v.take(i as int)),
            m >= 1,
        decreases runs.len() - i,
    {
        proof {
            assert(v.take(i + 1).drop_last() =~= v.take(i as int));
            assert(v.take(i + 1).last() == runs@[i as int].view());
        }
        match runs[i].duration_ms {
            Some(d) => {
                if d > m {
                    m = d;
                }
            },
            None => {},
        }
        i = i + 1;
    }
    proof {
        assert(v.take(runs@.len() as int) =~= v);
    }
    m
}

// ─── The workflow list ──────────────────────────────────────────────────────
/// Statistics of the workflow list on screen.
#[derive(Debug, Clone, Copy, PartialEq, Eq, Structural)]
pub struct WorkflowStats {
    pub total: usize,
    pub active: usize,
    pub inactive: usize,
    /// Share of active workflows, in whole percent.
    pub active_pct: usize,
    /// The rest of the hundred.
    pub inactive_pct: usize,
    /// Workflows with at least one tag.
    pub tagged: usize,
}

/// The statistics of a list of workflows.
pub fn workflow_stats(workflows: &Vec<WorkflowSummary>) -> (r: WorkflowStats)
    ensures
        r.total == workflows@.len(),
        r.active == workflows@.filter(|w: WorkflowSummary| w.active).len(),
        r.inactive == r.total - r.active,
        r.active_pct == percent_of(r.active as int, r.total as int),
        r.inactive_pct == 100 - r.active_pct,
        r.tagged == workflows@.filter(|w: WorkflowSummary| w.tags@.len() > 0).len(),
{
    let ghost pa = |w: WorkflowSummary| w.active;
    let ghost pt = |w: WorkflowSummary| w.tags@.len() > 0;
    let mut active: usize = 0;
    let mut tagged: usize = 0;
    let mut i: usize = 0;
    while i < workflows.len()
        invariant
            pa == (|w: WorkflowSummary| w.active),
            pt == (|w: WorkflowSummary| w.tags@.len() > 0),
            i <= workflows.len(),
            active == workflows@.take(i as int).filter(pa).len(),
            tagged == workflows@.take(i as int).filter(pt).len(),
            active <= i,
            tagged <= i,
        decreases workflows.len() - i,
    {
        proof {
            reveal(Seq::filter);
            assert(workflows@.take(i + 1).drop_last() =~= workflows@.take(i as int));
        }
        if workflows[i].active {
            active = active + 1;
        }
        if workflows[i].tags.len() > 0 {
            tagged = tagged + 1;
        }
        i = i + 1;
    }
    proof {
        assert(workflows@.take(workflows@.len() as int) =~= workflows@);
    }
    let total = workflows.len();
    let active_pct: usize = if total > 0 {
        let q: u128 = (active as u128 * 100) / total as u128;
        proof {
            let (a, b) = (active as int, total as int);
            assert(a * 100 / b <= 100) by (nonlinear_arith)
                requires
                    0 <= a <= b,
                    b > 0,
            ;
        }
        q as usize
    } else {
        0
    };
    WorkflowStats {
        total,
        active,
        inactive: total - active,
        active_pct,
        inactive_pct: 100 - active_pct,
        tagged,
    }
}

// ─── The execution list ─────────────────────────────────────────────────────
/// How long an execution ran, when it has both a start and a stop.
pub open spec fn run_span(e: ExecutionSummary) -> Option<int> {
    match (e.stopped_at, e.started_at) {
        (Some(stop), Some(start)) => Some(span_ms(start, stop)),
        _ => None,
    }
}

/// The durations of the executions that have one, in order.
pub open spec fn spans(es: Seq<ExecutionSummary>) -> Seq<int>
    decreases es.len(),
{
    if es.len() == 0 {
        Seq::empty()
    } else {
        match run_span(es.last()) {
            Some(d) => spans(es.drop_last()).push(d),
            None => spans(es.drop_last()),
        }
    }
}

/// The sum of some integers.
pub open spec fn sum_of(s: Seq<int>) -> int
    decreases s.len(),
{
    if s.len() == 0 {
        0
    } else {
        sum_of(s.drop_last()) + s.last()
    }
}

/// The largest of some integers, or 0 when there are none.
pub open spec fn max_or_zero(s: Seq<int>) -> int
    decreases s.len(),
{
    if s.len() == 0 {
        0
    } else if s.len() == 1 {
        s[0]
    } else {
        let rest = max_or_zero(s.drop_last());
        if s.last() > rest {
            s.last()
        } else {
            rest
        }
    }
}

/// Statistics of the execution list on screen.
#[derive(Debug, Clone, Copy, PartialEq, Eq, Structural)]
pub struct ExecutionStats {
    /// Mean duration of the executions that have one, truncated (0 when
    /// none has).
    pub avg_ms: i64,
    /// Longest duration (0 when none has one).
    pub max_ms: i64,
    /// Executions that retry another.
    pub retries: usize,
}

/// The statistics of a list of executions.
pub fn execution_stats(executions: &Vec<ExecutionSummary>) -> (r: ExecutionStats)
    requires
        i64::MIN <= sum_of(spans(executions@)) <= i64::MAX,
    ensures
        r.avg_ms == if spans(executions@).len() == 0 {
            0
        } else {
            div_trunc(sum_of(spans(executions@)), spans(executions@).len() as int)
        },
        r.max_ms == max_or_zero(spans(executions@)),
        r.retries == executions@.filter(|e: ExecutionSummary| e.retry_of is Some).len(),
{
    let ghost pr = |e: ExecutionSummary| e.retry_of is Some;
    let mut sum: i128 = 0;
    let mut count: usize = 0;
    let mut max: i64 = 0;
    let mut retries: usize = 0;
    let mut i: usize = 0;
    while i < executions.len()
        invariant
            pr == (|e: ExecutionSummary| e.retry_of is Some),
            i <= executions.len(),
            sum == sum_of(spans(executions@.take(i as int))),
            count == spans(executions@.take(i as int)).len(),
            max == max_or_zero(spans(executions@.take(i as int))),
            retries == executions@.take(i as int).filter(pr).len(),
            count <= i,
            retries <= i,
            -0x8000_0000_0000_0000 * count <= sum <= 0x8000_0000_0000_0000 * count,
        decreases executions.len() - i,
    {
        let ghost t = executions@.take(i as int);
        proof {
            reveal(Seq::filter);
            assert(executions@.take(i + 1).drop_last() =~= t);
            assert(executions@.take(i + 1).last() == executions@[i as int]);
        }
        let e = &executions[i];
        match (e.stopped_at, e.started_at) {
            (Some(stop), Some(start)) => {
                let d = crate::domain::execution::elapsed_ms(start, stop);
                proof {
                    let s0 = spans(t);
                    assert(run_span(executions@[i as int]) == Some(d as int));
                    assert(spans(executions@.take(i + 1)) == s0.push(d as int));
                    assert(s0.push(d as int).drop_last() =~= s0);
                    assert(s0.push(d as int).last() == d as int);
                }
                sum = sum + d as i128;
                if count == 0 || d > max {
                    max = d;
                }
                count = count + 1;
            },
            _ => {},
        }
        if e.retry_of.is_some() {
            retries = retries + 1;
        }
        i = i + 1;
    }
    proof {
        assert(executions@.take(executions@.len() as int) =~= executions@);
    }
    let avg_ms: i64 = if count == 0 {
        0
    } else {
        let n: i128 = count as i128;
        proof {
            assert(-0x8000_0000_0000_0000 <= sum <= 0x7FFF_FFFF_FFFF_FFFF);
        }
        if sum >= 0 {
            proof {
                assert(sum / n <= sum) by (nonlinear_arith)
                    requires
                        sum >= 0,
                        n >= 1,
                ;
            }
            (sum / n) as i64
        } else {
            let m: i128 = 0 - sum;
            proof {
                assert(m / n <= m) by (nonlinear_arith)
                    requires
                        m >= 0,
                        n >= 1,
                ;
            }
            (0 - m / n) as i64
        }
    };
    ExecutionStats { avg_ms, max_ms: max, retries }
}

// ─── Activity over time ─────────────────────────────────────────────────────
/// Whole minutes from `t` to `now`, rounded toward zero.
pub open spec fn minutes_ago(t: i64, now: i64) -> int {
    div_trunc(span_ms(t, now), 60_000)
}

/// How many executions started in column `i` of `buckets` one-minute
/// columns, the last column being the current minute.
pub open spec fn started_in(es: Seq<ExecutionSummary>, now: i64, buckets: nat, i: int) -> nat {
    es.filter(
        |e: ExecutionSummary|
            e.started_at matches Some(t) && 0 <= minutes_ago(t, now) < buckets && minutes_ago(t, now)
                == buckets - 1 - i,
    ).len()
}

/// Executions started per minute over the last `buckets` minutes, oldest
/// first.
pub fn build_execution_sparkline(executions: &Vec<ExecutionSummary>, now: i64, buckets: usize) -> (r: Vec<u64>)
    ensures
        r@.len() == buckets,
        forall|i: int| 0 <= i < buckets ==> r@[i] == started_in(executions@, now, buckets as nat, i),
{
    let mut data: Vec<u64> = Vec::new();
    let mut k: usize = 0;
    while k < buckets
        invariant
            k <= buckets,
            data@.len() == k,
            forall|j: int| 0 <= j < k ==> data@[j] == 0,
        decreases buckets - k,
    {
        data.push(0);
        k = k + 1;
    }
    let mut i: usize = 0;
    while i < executions.len()
        invariant
            i <= executions.len(),
            data@.len() == buckets,
            forall|j: int| 0 <= j < buckets ==> data@[j] == started_in(executions@.take(i as int), now, buckets as nat, j),
            forall|j: int| 0 <= j < buckets ==> data@[j] <= i,
        decreases executions.len() - i,
    {
        let ghost before = data@;
        proof {
            reveal(Seq::filter);
            assert(executions@.take(i + 1).drop_last() =~= executions@.take(i as int));
            assert(executions@.take(i + 1).last() == executions@[i as int]);
        }
        match executions[i].started_at {
            Some(started) => {
                let mins = crate::domain::execution::elapsed_ms(started, now);
                let mins: i64 = if mins >= 0 {
                    mins / 60_000
                } else {
                    0 - ((0 - (mins as i128)) / 60_000) as i64
                };
                if mins >= 0 && (mins as u64) < (buckets as u64) {
                    let idx = buckets - 1 - (mins as usize);
                    let c = data[idx];
                    data.set(idx, c + 1);
                }
            },
            None => {},
        }
        i = i + 1;
    }
    proof {
        assert(executions@.take(executions@.len() as int) =~= executions@);
    }
    data
}

// ─── The status bar ─────────────────────────────────────────────────────────
/// Seconds until the next automatic refresh: the interval less the whole
/// seconds since the last one, and no less than 0.
pub fn refresh_countdown(interval_secs: u64, last_refresh: i64, now: i64) -> (r: i64)
    requires
        i64::MIN <= (interval_secs as i64) - span_secs(last_refresh, now) <= i64::MAX,
    ensures
        r == if (interval_secs as i64) - span_secs(last_refresh, now) > 0 {
            (interval_secs as i64) - span_secs(last_refresh, now)
        } else {
            0
        },
{
    let since = crate::domain::execution::elapsed_secs(last_refresh, now);
    let left = (interval_secs as i64) - since;
    if left > 0 {
        left
    } else {
        0
    }
}

// ─── Connections of a workflow graph ────────────────────────────────────────
/// The node names that a list of connection targets names.
pub open spec fn names_in(targets: Seq<Json>) -> Seq<Seq<char>>
    decreases targets.len(),
{
    if targets.len() == 0 {
        Seq::empty()
    } else {
        names_in(targets.drop_last()) + match targets.last().field("node"@) {
            Some(n) => match n.text() {
                Some(t) => seq![t],
                None => Seq::empty(),
            },
            None => Seq::empty(),
        }
    }
}

/// The node names that the output branches of a node name, branch by
/// branch.
pub open spec fn branches_targets(branches: Seq<Json>) -> Seq<Seq<char>>
    decreases branches.len(),
{
    if branches.len() == 0 {
        Seq::empty()
    } else {
        branches_targets(branches.drop_last()) + match branches.last() {
            Json::Array(targets) => names_in(targets@),
            _ => Seq::empty(),
        }
    }
}

/// The node names a node's `main` outputs lead to.
pub open spec fn output_targets(outputs: Json) -> Seq<Seq<char>> {
    match outputs.field("main"@) {
        Some(Json::Array(branches)) => branches_targets(branches@),
        _ => Seq::empty(),
    }
}

/// Source nodes with the nodes they lead to, for the sources that lead
/// somewhere, in the order of the connections object.
pub open spec fn connections_of(entries: Seq<(String, Json)>) -> Seq<(Seq<char>, Seq<Seq<char>>)>
    decreases entries.len(),
{
    if entries.len() == 0 {
        Seq::empty()
    } else {
        let rest = connections_of(entries.drop_last());
        let t = output_targets(entries.last().1);
        if t.len() > 0 {
            rest.push((entries.last().0@, t))
        } else {
            rest
        }
    }
}

/// The connections a workflow's connections object describes.
pub open spec fn graph_edges(conn: Json) -> Seq<(Seq<char>, Seq<Seq<char>>)> {
    match conn {
        Json::Object(entries) => connections_of(entries@),
        _ => Seq::empty(),
    }
}

/// The abstract content of parsed connections.
pub open spec fn edges_view(v: Seq<(String, Vec<String>)>) -> Seq<(Seq<char>, Seq<Seq<char>>)> {
    v.map_values(|e: (String, Vec<String>)| (e.0@, crate::text::views(e.1@)))
}

fn push_names(out: &mut Vec<String>, targets: &Vec<Json>)
    ensures
        crate::text::views(final(out)@) == crate::text::views(old(out)@) + names_in(targets@),
{
    let ghost start = crate::text::views(out@);
    let mut i: usize = 0;
    while i < targets.len()
        invariant
            i <= targets.len(),
            crate::text::views(out@) == start + names_in(targets@.take(i as int)),
        decreases targets.len() - i,
    {
        proof {
            assert(targets@.take(i + 1).drop_last() =~= targets@.take(i as int));
            assert(targets@.take(i + 1).last() == targets@[i as int]);
        }
        let ghost before = out@;
        match targets[i].get("node") {
            Some(n) => match n.as_str() {
                Some(t) => {
                    out.push(copy_str(t));
                    proof {
                        assert(crate::text::views(out@) =~= crate::text::views(before).push(t@));
                    }
                },
                None => {},
            },
            None => {},
        }
        proof {
            assert(crate::text::views(out@) =~= start + names_in(targets@.take(i + 1)));
        }
        i = i + 1;
    }
    proof {
        assert(targets@.take(targets@.len() as int) =~= targets@);
    }
}

fn targets_of(outputs: &Json) -> (r: Vec<String>)
    ensures
        crate::text::views(r@) == output_targets(*outputs),
{
    let mut out: Vec<String> = Vec::new();
    proof {
        assert(crate::text::views(out@) =~= Seq::<Seq<char>>::empty());
    }
    match outputs.get("main") {
        Some(main) => match main.as_array() {
            Some(branches) => {
                let mut i: usize = 0;
                while i < branches.len()
                    invariant
                        i <= branches.len(),
                        outputs.field("main"@) == Some(Json::Array(*branches)),
                        crate::text::views(out@) == branches_targets(branches@.take(i as int)),
                    decreases branches.len() - i,
                {
                    proof {
                        assert(branches@.take(i + 1).drop_last() =~= branches@.take(i as int));
                        assert(branches@.take(i + 1).last() == branches@[i as int]);
                    }
                    match branches[i].as_array() {
                        Some(targets) => push_names(&mut out, targets),
                        None => {},
                    }
                    i = i + 1;
                }
                proof {
                    assert(branches@.take(branches@.len() as int) =~= branches@);
                }
            },
            None => {},
        },
        None => {},
    }
    out
}

/// The connections of a workflow graph: each source node with the nodes
/// its `main` outputs lead to, in the order the object lists them.
pub fn parse_connections(conn: &Json) -> (r: Vec<(String, Vec<String>)>)
    ensures
        edges_view(r@) == graph_edges(*conn),
{
    let mut out: Vec<(String, Vec<String>)> = Vec::new();
    match conn.as_object() {
        Some(entries) => {
            let mut i: usize = 0;
            while i < entries.len()
                invariant
                    i <= entries.len(),
                    *conn == Json::Object(*entries),
                    edges_view(out@) == connections_of(entries@.take(i as int)),
                decreases entries.len() - i,
            {
                proof {
                    assert(entries@.take(i + 1).drop_last() =~= entries@.take(i as int));
                    assert(entries@.take(i + 1).last() == entries@[i as int]);
                }
                let targets = targets_of(&entries[i].1);
                if targets.len() > 0 {
                    let ghost before = out@;
                    out.push((entries[i].0.clone(), targets));
                    proof {
                        assert(edges_view(out@) =~= edges_view(before).push(
                            (entries@[i as int].0@, output_targets(entries@[i as int].1)),
                        ));
                    }
                }
                i = i + 1;
            }
            proof {
                assert(entries@.take(entries@.len() as int) =~= entries@);
            }
        },
        None => {
            proof {
                assert(edges_view(out@) =~= Seq::<(Seq<char>, Seq<Seq<char>>)>::empty());
            }
        },
    }
    out
}

/// The nodes `name` leads to: those of the first connection from it.
pub open spec fn outgoing_of(edges: Seq<(Seq<char>, Seq<Seq<char>>)>, name: Seq<char>) -> Seq<Seq<char>>
    decreases edges.len(),
{
    if edges.len() == 0 {
        Seq::empty()
    } else if edges[0].0 == name {
        edges[0].1
    } else {
        outgoing_of(edges.drop_first(), name)
    }
}

/// The nodes that lead to `name`, in the order of the connections.
pub open spec fn incoming_of(edges: Seq<(Seq<char>, Seq<Seq<char>>)>, name: Seq<char>) -> Seq<Seq<char>> {
    edges.filter(|e: (Seq<char>, Seq<Seq<char>>)| e.1.contains(name)).map_values(
        |e: (Seq<char>, Seq<Seq<char>>)| e.0,
    )
}

fn copy_names(v: &Vec<String>) -> (r: Vec<String>)
    ensures
        crate::text::views(r@) == crate::text::views(v@),
{
    let mut out: Vec<String> = Vec::new();
    let mut i: usize = 0;
    while i < v.len()
        invariant
            i <= v.len(),
            crate::text::views(out@) == crate::text::views(v@.take(i as int)),
        decreases v.len() - i,
    {
        let ghost before = out@;
        out.push(v[i].clone());
        proof {
            assert(crate::text::views(out@) =~= crate::text::views(before).push(v@[i as int]@));
            assert(crate::text::views(v@.take(i + 1)) =~= crate::text::views(v@.take(i as int)).push(v@[i as int]@));
        }
        i = i + 1;
    }
    proof {
        assert(v@.take(v@.len() as int) =~= v@);
    }
    out
}

/// The nodes a node's outputs lead to.
pub fn outgoing(edges: &Vec<(String, Vec<String>)>, name: &str) -> (r: Vec<String>)
    ensures
        crate::text::views(r@) == outgoing_of(edges_view(edges@), name@),
{
    let ghost e = edges_view(edges@);
    let mut i: usize = 0;
    proof {
        assert(e.skip(0) =~= e);
    }
    while i < edges.len()
        invariant
            i <= edges.len(),
            e == edges_view(edges@),
            outgoing_of(e, name@) == outgoing_of(e.skip(i as int), name@),
        decreases edges.len() - i,
    {
        proof {
            assert(e.skip(i as int).drop_first() =~= e.skip(i + 1));
            assert(e.skip(i as int)[0] == e[i as int]);
        }
        if crate::domain::json::str_eq(edges[i].0.as_str(), name) {
            return copy_names(&edges[i].1);
        }
        i = i + 1;
    }
    let out: Vec<String> = Vec::new();
    proof {
        assert(crate::text::views(out@) =~= Seq::<Seq<char>>::empty());
    }
    out
}

fn names_contain(v: &Vec<String>, name: &str) -> (r: bool)
    ensures
        r == crate::text::views(v@).contains(name@),
{
    let mut i: usize = 0;
    while i < v.len()
        invariant
            i <= v.len(),
            forall|k: int| 0 <= k < i ==> v@[k]@ != name@,
        decreases v.len() - i,
    {
        if crate::domain::json::str_eq(v[i].as_str(), name) {
            proof {
                assert(crate::text::views(v@)[i as int] == name@);
            }
            return true;
        }
        i = i + 1;
    }
    false
}

/// The nodes whose outputs lead to a node.
pub fn incoming(edges: &Vec<(String, Vec<String>)>, name: &str) -> (r: Vec<String>)
    ensures
        crate::text::views(r@) == incoming_of(edges_view(edges@), name@),
{
    let ghost e = edges_view(edges@);
    let ghost p = |x: (Seq<char>, Seq<Seq<char>>)| x.1.contains(name@);
    let mut out: Vec<String> = Vec::new();
    let mut i: usize = 0;
    while i < edges.len()
        invariant
            i <= edges.len(),
            e == edges_view(edges@),
            p == (|x: (Seq<char>, Seq<Seq<char>>)| x.1.contains(name@)),
            crate::text::views(out@) == e.take(i as int).filter(p).map_values(
                |x: (Seq<char>, Seq<Seq<char>>)| x.0,
            ),
        decreases edges.len() - i,
    {
        proof {
            reveal(Seq::filter);
            assert(e.take(i + 1).drop_last() =~= e.take(i as int));
            assert(e.take(i + 1).last() == e[i as int]);
        }
        let ghost before = out@;
        if names_contain(&edges[i].1, name) {
            out.push(edges[i].0.clone());
            proof {
                assert(crate::text::views(out@) =~= crate::text::views(before).push(edges@[i as int].0@));
            }
        }
        proof {
            assert(crate::text::views(out@) =~= e.take(i + 1).filter(p).map_values(
                |x: (Seq<char>, Seq<Seq<char>>)| x.0,
            ));
        }
        i = i + 1;
    }
    proof {
        assert(e.take(e.len() as int) =~= e);
    }
    out
}

// ─── Texts cut to a width ───────────────────────────────────────────────────
/// The text made of the first `keep` bytes of the UTF-8 encoding of `s`,
/// followed by an ellipsis.
pub open spec fn clipped(s: Seq<char>, keep: int) -> Seq<char> {
    decode_utf8(encode_utf8(s).take(keep)) + seq!['…']
}

fn clip(s: &str, keep: usize) -> (r: String)
    requires
        is_char_boundary(encode_utf8(s@), keep as int),
    ensures
        r@ == clipped(s@, keep as int),
{
    broadcast use vstd::utf8::group_utf8_lib;

    let (head, _) = s.split_at(keep);
    proof {
        assert(head@ == decode_utf8(encode_utf8(head@)));
        assert(encode_utf8(s@).subrange(0, keep as int) =~= encode_utf8(s@).take(keep as int));
    }
    let mut r = copy_str(head);
    push_str(&mut r, "…");
    proof {
        reveal_strlit("…");
    }
    r
}

/// A node name cut to `max` bytes, the last of them an ellipsis.
pub fn truncate_name(name: &str, max: usize) -> (r: String)
    requires
        encode_utf8(name@).len() > max ==> max >= 1 && is_char_boundary(encode_utf8(name@), max - 1),
    ensures
        r@ == if encode_utf8(name@).len() <= max {
            name@
        } else {
            clipped(name@, max - 1)
        },
{
    if name.as_bytes().len() <= max {
        copy_str(name)
    } else {
        clip(name, max - 1)
    }
}

/// A text cut to `max` bytes, the last of them an ellipsis (an empty cut
/// when `max` is 0).
pub fn truncate(s: &str, max: usize) -> (r: String)
    requires
        encode_utf8(s@).len() > max ==> is_char_boundary(
            encode_utf8(s@),
            if max >= 1 {
                max - 1
            } else {
                0
            },
        ),
    ensures
        r@ == if encode_utf8(s@).len() <= max {
            s@
        } else {
            clipped(
                s@,
                if max >= 1 {
                    max - 1
                } else {
                    0
                },
            )
        },
{
    if s.as_bytes().len() <= max {
        copy_str(s)
    } else {
        let keep: usize = if max >= 1 {
            max - 1
        } else {
            0
        };
        clip(s, keep)
    }
}

/// Bytes of an error message shown in the node table.
pub const ERROR_WIDTH: usize = 35;

/// An error message as the node table shows it: its first 35 bytes and an
/// ellipsis when it is longer.
pub fn shorten_error(e: &str) -> (r: String)
    requires
        encode_utf8(e@).len() > ERROR_WIDTH ==> is_char_boundary(encode_utf8(e@), ERROR_WIDTH as int),
    ensures
        r@ == if encode_utf8(e@).len() > ERROR_WIDTH {
            clipped(e@, ERROR_WIDTH as int)
        } else {
            e@
        },
{
    if e.as_bytes().len() > ERROR_WIDTH {
        clip(e, ERROR_WIDTH)
    } else {
        copy_str(e)
    }
}

// ─── A node's settings ──────────────────────────────────────────────────────
/// One credential reference: its kind and its name (`?` when unnamed).
pub open spec fn credential_entry(e: (String, Json)) -> Seq<char> {
    e.0@ + ": "@ + match e.1.field("name"@) {
        Some(n) => match n.text() {
            Some(t) => t,
            None => "?"@,
        },
        None => "?"@,
    }
}

/// The credential references of a node, comma-separated, or `None` when
/// it has no object of them.
pub open spec fn credentials_text(c: Option<Json>) -> Seq<char> {
    match c {
        Some(Json::Object(entries)) => crate::text::join_seqs(
            entries@.map_values(|e: (String, Json)| credential_entry(e)),
            ", "@,
        ),
        _ => "None"@,
    }
}

fn credential_line(e: &(String, Json)) -> (r: String)
    ensures
        r@ == credential_entry(*e),
{
    let mut s = e.0.clone();
    push_str(&mut s, ": ");
    let name: &str = match e.1.get("name") {
        Some(n) => match n.as_str() {
            Some(t) => t,
            None => "?",
        },
        None => "?",
    };
    push_str(&mut s, name);
    s
}

/// What the node inspector shows for a node's credentials.
pub fn credentials_summary(c: &Option<Json>) -> (r: String)
    ensures
        r@ == credentials_text(*c),
{
    match c {
        Some(Json::Object(entries)) => {
            let mut parts: Vec<String> = Vec::new();
            let mut i: usize = 0;
            while i < entries.len()
                invariant
                    i <= entries.len(),
                    crate::text::views(parts@) == entries@.take(i as int).map_values(
                        |e: (String, Json)| credential_entry(e),
                    ),
                decreases entries.len() - i,
            {
                let ghost before = parts@;
                parts.push(credential_line(&entries[i]));
                proof {
                    assert(crate::text::views(parts@) =~= crate::text::views(before).push(
                        credential_entry(entries@[i as int]),
                    ));
                    assert(entries@.take(i + 1).map_values(|e: (String, Json)| credential_entry(e))
                        =~= entries@.take(i as int).map_values(|e: (String, Json)| credential_entry(e)).push(
                        credential_entry(entries@[i as int]),
                    ));
                }
                i = i + 1;
            }
            proof {
                assert(entries@.take(entries@.len() as int) =~= entries@);
            }
            crate::text::join(&parts, ", ")
        },
        _ => copy_str("None"),
    }
}

/// Whether a node has parameters to show: neither null nor an empty object.
pub fn has_parameters(p: &Json) -> (r: bool)
    ensures
        r == !(*p is Null || (*p matches Json::Object(es) && es@.len() == 0)),
{
    match p {
        Json::Null => false,
        Json::Object(es) => es.len() > 0,
        _ => true,
    }
}

// ─── Times of day ───────────────────────────────────────────────────────────
/// A number below 100 written with two digits.
pub open spec fn two_digits(n: int) -> Seq<char> {
    seq![((n / 10) + 48) as char, ((n % 10) + 48) as char]
}

/// The UTC time of day of an instant (ms since the epoch) as `HH:MM:SS`.
pub open spec fn hms(ms: int) -> Seq<char> {
    let sod = (ms / 1000) % 86400;
    two_digits(sod / 3600) + seq![':'] + two_digits((sod % 3600) / 60) + seq![':'] + two_digits(sod % 60)
}

/// `chrono::DateTime::from_timestamp_millis`, then `format("%H:%M:%S")`:
/// the UTC time of day of an instant, zero-padded; nothing for an instant
/// outside the range a UTC date-time can hold.
#[verifier::external_body]
fn time_of_day(ms: i64) -> (r: Option<String>)
    ensures
        r is Some <==> MIN_INSTANT_MS <= ms <= MAX_INSTANT_MS,
        r matches Some(t) ==> t@ == hms(ms as int),
{
    match chrono::DateTime::from_timestamp_millis(ms) {
        Some(t) => Some(t.format("%H:%M:%S").to_string()),
        None => None,
    }
}

/// An instant as the execution header shows it: its UTC time of day, or a
/// dash when there is none.
pub fn clock_time(ms: Option<i64>) -> (r: String)
    ensures
        r@ == match ms {
            Some(t) => if MIN_INSTANT_MS <= t <= MAX_INSTANT_MS {
                hms(t as int)
            } else {
                "—"@
            },
            None => "—"@,
        },
{
    let shown = match ms {
        Some(t) => time_of_day(t),
        None => None,
    };
    match shown {
        Some(text) => text,
        None => copy_str("—"),
    }
}

} // verus!
