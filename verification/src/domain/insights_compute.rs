//! The fleet scan: findings about failure rates, stuck executions, retry
//! storms, long runs, abandoned and inactive critical workflows.
//!
//! Executions are grouped by workflow in the order in which each workflow
//! first appears among them.
use vstd::prelude::*;

use crate::domain::execution::{
    div_trunc, span_ms, span_secs, status_label, elapsed_ms, elapsed_secs, ExecutionStatus,
    ExecutionSummary,
};
use crate::domain::insights::{
    findings_view, DetailView, FindingDetail, FindingView, InsightCategory, InsightFinding, Severity,
};
use crate::domain::workflow::WorkflowSummary;
use crate::text::{
    decimal, lowercase, push_char, push_decimal, push_str, to_lowercase, views,
};
use crate::domain::json::str_eq;

verus! {

/// The characters of an optional string.
pub open spec fn opt_view(o: Option<String>) -> Option<Seq<char>> {
    match o {
        Some(s) => Some(s@),
        None => None,
    }
}

/// Which executions a per-workflow scan looks at.
#[derive(Clone, Copy, Debug, PartialEq, Eq, Structural)]
pub enum GroupKey {
    /// Every execution that names its workflow.
    Workflow,
    /// Retries that name their workflow.
    RetriedWorkflow,
    /// Executions with a start and a stop that name their workflow.
    TimedWorkflow,
}

/// The workflow under which `e` is grouped, if it is looked at.
pub open spec fn group_key(k: GroupKey, e: ExecutionSummary) -> Option<Seq<char>> {
    match k {
        GroupKey::Workflow => opt_view(e.workflow_id),
        GroupKey::RetriedWorkflow => if e.retry_of is Some {
            opt_view(e.workflow_id)
        } else {
            None
        },
        GroupKey::TimedWorkflow => if e.started_at is Some && e.stopped_at is Some {
            opt_view(e.workflow_id)
        } else {
            None
        },
    }
}

/// The workflows of the scan, each once, in order of first appearance.
pub open spec fn first_seen(execs: Seq<ExecutionSummary>, k: GroupKey) -> Seq<Seq<char>>
    decreases execs.len(),
{
    if execs.len() == 0 {
        Seq::empty()
    } else {
        let prev = first_seen(execs.drop_last(), k);
        match group_key(k, execs.last()) {
            Some(id) => if prev.contains(id) {
                prev
            } else {
                prev.push(id)
            },
            None => prev,
        }
    }
}

/// The executions grouped under workflow `id`, in order.
pub open spec fn group(execs: Seq<ExecutionSummary>, k: GroupKey, id: Seq<char>) -> Seq<
    ExecutionSummary,
> {
    execs.filter(|e: ExecutionSummary| group_key(k, e) == Some(id))
}

/// The values that are present, in order.
pub open spec fn somes<T>(s: Seq<Option<T>>) -> Seq<T>
    decreases s.len(),
{
    if s.len() == 0 {
        Seq::empty()
    } else {
        let prev = somes(s.drop_last());
        match s.last() {
            Some(x) => prev.push(x),
            None => prev,
        }
    }
}

proof fn lemma_somes_push<T>(s: Seq<Option<T>>, x: Option<T>)
    ensures
        somes(s.push(x)) == match x {
            Some(v) => somes(s).push(v),
            None => somes(s),
        },
{
    assert(s.push(x).drop_last() =~= s);
}

proof fn lemma_filter_push<T>(s: Seq<T>, x: T, p: spec_fn(T) -> bool)
    ensures
        s.push(x).filter(p) == if p(x) {
            s.filter(p).push(x)
        } else {
            s.filter(p)
        },
{
    reveal(Seq::filter);
    assert(s.push(x).drop_last() =~= s);
}

proof fn lemma_take_push<T>(s: Seq<T>, i: int)
    requires
        0 <= i < s.len(),
    ensures
        s.take(i + 1) == s.take(i).push(s[i]),
{
    assert(s.take(i + 1) =~= s.take(i).push(s[i]));
}

/// The workflow key of an execution for a scan.
fn key_of(k: GroupKey, e: &ExecutionSummary) -> (r: Option<&String>)
    ensures
        r matches Some(s) ==> group_key(k, *e) == Some(s@),
        r is None ==> group_key(k, *e) is None,
{
    match k {
        GroupKey::Workflow => e.workflow_id.as_ref(),
        GroupKey::RetriedWorkflow => if e.retry_of.is_some() {
            e.workflow_id.as_ref()
        } else {
            None
        },
        GroupKey::TimedWorkflow => if e.started_at.is_some() && e.stopped_at.is_some() {
            e.workflow_id.as_ref()
        } else {
            None
        },
    }
}

/// Whether a list of strings holds one with the characters of `s`.
fn contains_string(v: &Vec<String>, s: &String) -> (r: bool)
    ensures
        r == views(v@).contains(s@),
{
    let mut i: usize = 0;
    while i < v.len()
        invariant
            i <= v.len(),
            forall|j: int| 0 <= j < i ==> v@[j]@ != s@,
        decreases v.len() - i,
    {
        if str_eq(v[i].as_str(), s.as_str()) {
            proof {
                assert(views(v@)[i as int] == s@);
            }
            return true;
        }
        i = i + 1;
    }
    proof {
        if views(v@).contains(s@) {
            let j = choose|j: int| 0 <= j < views(v@).len() && views(v@)[j] == s@;
            assert(v@[j]@ == s@);
        }
    }
    false
}

/// The workflows of a scan in order of first appearance.
fn distinct_keys(execs: &[ExecutionSummary], k: GroupKey) -> (r: Vec<String>)
    ensures
        views(r@) == first_seen(execs@, k),
{
    let mut out: Vec<String> = Vec::new();
    let mut i: usize = 0;
    while i < execs.len()
        invariant
            i <= execs@.len(),
            views(out@) == first_seen(execs@.take(i as int), k),
        decreases execs@.len() - i,
    {
        proof {
            lemma_take_push(execs@, i as int);
            assert(execs@.take(i + 1).drop_last() =~= execs@.take(i as int));
        }
        match key_of(k, &execs[i]) {
            Some(s) => {
                if !contains_string(&out, s) {
                    let ghost before = out@;
                    out.push(s.clone());
                    proof {
                        assert(views(out@) =~= views(before).push(s@));
                    }
                }
            },
            None => {},
        }
        i = i + 1;
    }
    proof {
        assert(execs@.take(execs@.len() as int) =~= execs@);
    }
    out
}

// ─── Text assembly ──────────────────────────────────────────────────────────
fn concat2(a: &str, b: &str) -> (r: String)
    ensures
        r@ == a@ + b@,
{
    let mut s = String::new();
    push_str(&mut s, a);
    push_str(&mut s, b);
    proof {
        assert(Seq::<char>::empty() + a@ + b@ =~= a@ + b@);
    }
    s
}

/// The name under which a workflow is reported: its name when known,
/// otherwise its id.
pub open spec fn name_or(n: Option<Seq<char>>, id: Seq<char>) -> Seq<char> {
    match n {
        Some(x) => x,
        None => id,
    }
}

fn name_or_exec(n: Option<String>, id: &String) -> (r: String)
    ensures
        r@ == name_or(opt_view(n), id@),
{
    match n {
        Some(x) => x,
        None => id.clone(),
    }
}

/// `workflow:<id>`.
pub open spec fn workflow_entity(id: Seq<char>) -> Seq<char> {
    "workflow:"@ + id
}

// ─── High failure rate ──────────────────────────────────────────────────────
/// The failed executions among `g`.
pub open spec fn failed_in(g: Seq<ExecutionSummary>) -> Seq<ExecutionSummary> {
    g.filter(|e: ExecutionSummary| e.status == ExecutionStatus::Error)
}

/// The workflow name carried by the first execution of a group.
pub open spec fn first_name(g: Seq<ExecutionSummary>) -> Option<Seq<char>> {
    if g.len() > 0 {
        opt_view(g[0].workflow_name)
    } else {
        None
    }
}

/// The failure-rate finding for workflow `id`: critical when more than half
/// of its runs failed, a warning when more than a fifth did.
pub open spec fn failure_finding(execs: Seq<ExecutionSummary>, id: Seq<char>, now: i64) -> Option<
    FindingView,
> {
    let g = group(execs, GroupKey::Workflow, id);
    let total = g.len();
    let failed = failed_in(g).len();
    let name = name_or(first_name(g), id);
    if 2 * failed > total {
        Some(
            FindingView {
                severity: Severity::Critical,
                category: InsightCategory::HighFailureRate,
                title: "High failure rate: "@ + name,
                detail: DetailView::FailureRate { failed, total, workflow_name: name },
                affected_entity: workflow_entity(id),
                computed_at: now,
            },
        )
    } else if 5 * (failed as u128) > total as u128 {
        Some(
            FindingView {
                severity: Severity::Warning,
                category: InsightCategory::HighFailureRate,
                title: "Elevated failure rate: "@ + name,
                detail: DetailView::FailureRate { failed, total, workflow_name: name },
                affected_entity: workflow_entity(id),
                computed_at: now,
            },
        )
    } else {
        None
    }
}

/// Failure-rate findings, one per workflow at most.
pub open spec fn failure_findings(execs: Seq<ExecutionSummary>, now: i64) -> Seq<FindingView> {
    somes(first_seen(execs, GroupKey::Workflow).map_values(|id: Seq<char>| failure_finding(execs, id, now)))
}

fn failure_scan(execs: &[ExecutionSummary], id: &String, now: i64) -> (r: Option<InsightFinding>)
    ensures
        match r {
            Some(f) => failure_finding(execs@, id@, now) == Some(f@),
            None => failure_finding(execs@, id@, now) is None,
        },
{
    let ghost p = |e: ExecutionSummary| group_key(GroupKey::Workflow, e) == Some(id@);
    let ghost q = |e: ExecutionSummary| e.status == ExecutionStatus::Error;
    let mut total: usize = 0;
    let mut failed: usize = 0;
    let mut first: Option<String> = None;
    let mut i: usize = 0;
    while i < execs.len()
        invariant
            i <= execs@.len(),
            p == (|e: ExecutionSummary| group_key(GroupKey::Workflow, e) == Some(id@)),
            q == (|e: ExecutionSummary| e.status == ExecutionStatus::Error),
            total == execs@.take(i as int).filter(p).len(),
            failed == execs@.take(i as int).filter(p).filter(q).len(),
            total <= i,
            failed <= total,
            opt_view(first) == first_name(execs@.take(i as int).filter(p)),
        decreases execs@.len() - i,
    {
        proof {
            lemma_take_push(execs@, i as int);
            lemma_filter_push(execs@.take(i as int), execs@[i as int], p);
            lemma_filter_push(execs@.take(i as int).filter(p), execs@[i as int], q);
        }
        let e = &execs[i];
        let member = match key_of(GroupKey::Workflow, e) {
            Some(k) => str_eq(k.as_str(), id.as_str()),
            None => false,
        };
        if member {
            if total == 0 {
                first = crate::domain::execution::copy_opt_string(&e.workflow_name);
            }
            total = total + 1;
            if e.status == ExecutionStatus::Error {
                failed = failed + 1;
            }
        }
        i = i + 1;
    }
    proof {
        assert(execs@.take(execs@.len() as int) =~= execs@);
    }
    let name = name_or_exec(first, id);
    if 2 * (failed as u128) > total as u128 {
        Some(
            InsightFinding {
                severity: Severity::Critical,
                category: InsightCategory::HighFailureRate,
                title: concat2("High failure rate: ", name.as_str()),
                detail: FindingDetail::FailureRate { failed, total, workflow_name: name },
                affected_entity: concat2("workflow:", id.as_str()),
                computed_at: now,
            },
        )
    } else if 5 * (failed as u128) > total as u128 {
        Some(
            InsightFinding {
                severity: Severity::Warning,
                category: InsightCategory::HighFailureRate,
                title: concat2("Elevated failure rate: ", name.as_str()),
                detail: FindingDetail::FailureRate { failed, total, workflow_name: name },
                affected_entity: concat2("workflow:", id.as_str()),
                computed_at: now,
            },
        )
    } else {
        None
    }
}

/// Detect workflows with a high failure rate.
pub fn detect_high_failure_rate(execs: &[ExecutionSummary], now: i64) -> (r: Vec<InsightFinding>)
    ensures
        findings_view(r@) == failure_findings(execs@, now),
{
    let ids = distinct_keys(execs, GroupKey::Workflow);
    let ghost idv = views(ids@);
    let ghost f = |id: Seq<char>| failure_finding(execs@, id, now);
    let mut out: Vec<InsightFinding> = Vec::new();
    let mut j: usize = 0;
    while j < ids.len()
        invariant
            j <= ids@.len(),
            idv == views(ids@),
            idv == first_seen(execs@, GroupKey::Workflow),
            f == (|id: Seq<char>| failure_finding(execs@, id, now)),
            findings_view(out@) == somes(idv.take(j as int).map_values(f)),
        decreases ids@.len() - j,
    {
        let found = failure_scan(execs, &ids[j], now);
        proof {
            assert(idv.take(j + 1).map_values(f) =~= idv.take(j as int).map_values(f).push(
                f(idv[j as int]),
            ));
            lemma_somes_push(idv.take(j as int).map_values(f), f(idv[j as int]));
        }
        match found {
            Some(x) => {
                let ghost before = out@;
                out.push(x);
                proof {
                    assert(findings_view(out@) =~= findings_view(before).push(x@));
                }
            },
            None => {},
        }
        j = j + 1;
    }
    proof {
        assert(idv.take(ids@.len() as int) =~= idv);
    }
    out
}


// ─── Stuck executions ───────────────────────────────────────────────────────
/// Whole minutes from `from` to `to`, rounded toward zero.
pub open spec fn span_minutes(from: i64, to: i64) -> int {
    div_trunc(span_secs(from, to), 60)
}

/// The finding for an execution that has been running or waiting for more
/// than 30 minutes: critical beyond two hours.
pub open spec fn stuck_finding(e: ExecutionSummary, now: i64) -> Option<FindingView> {
    if e.status != ExecutionStatus::Running && e.status != ExecutionStatus::Waiting {
        None
    } else {
        match e.started_at {
            Some(started) => {
                let mins = span_minutes(started, now);
                let name = name_or(opt_view(e.workflow_name), "Unknown"@);
                if mins > 30 {
                    Some(
                        FindingView {
                            severity: if mins > 120 {
                                Severity::Critical
                            } else {
                                Severity::Warning
                            },
                            category: InsightCategory::StuckExecution,
                            title: "Execution "@ + e.id@ + " "@ + status_label(e.status) + " for "@
                                + decimal(mins as nat) + "m"@,
                            detail: DetailView::Text(
                                "Execution "@ + e.id@ + " of workflow '"@ + name
                                    + "' has been in "@ + status_label(e.status) + " state for "@
                                    + decimal(mins as nat) + " minutes"@,
                            ),
                            affected_entity: "execution:"@ + e.id@,
                            computed_at: now,
                        },
                    )
                } else {
                    None
                }
            },
            None => None,
        }
    }
}

/// Stuck-execution findings, in execution order.
pub open spec fn stuck_findings(execs: Seq<ExecutionSummary>, now: i64) -> Seq<FindingView> {
    somes(execs.map_values(|e: ExecutionSummary| stuck_finding(e, now)))
}

fn stuck_check(e: &ExecutionSummary, now: i64) -> (r: Option<InsightFinding>)
    ensures
        match r {
            Some(f) => stuck_finding(*e, now) == Some(f@),
            None => stuck_finding(*e, now) is None,
        },
{
    if e.status != ExecutionStatus::Running && e.status != ExecutionStatus::Waiting {
        return None;
    }
    match e.started_at {
        Some(started) => {
            let secs = elapsed_secs(started, now);
            let mins: i64 = if secs >= 0 {
                secs / 60
            } else {
                0 - ((0 - secs) / 60)
            };
            if mins > 30 {
                let label = e.status.label();
                let mut title = String::new();
                push_str(&mut title, "Execution ");
                push_str(&mut title, e.id.as_str());
                push_str(&mut title, " ");
                push_str(&mut title, label);
                push_str(&mut title, " for ");
                push_decimal(&mut title, mins as u64);
                push_str(&mut title, "m");
                let mut detail = String::new();
                push_str(&mut detail, "Execution ");
                push_str(&mut detail, e.id.as_str());
                push_str(&mut detail, " of workflow '");
                match &e.workflow_name {
                    Some(n) => push_str(&mut detail, n.as_str()),
                    None => push_str(&mut detail, "Unknown"),
                }
                push_str(&mut detail, "' has been in ");
                push_str(&mut detail, label);
                push_str(&mut detail, " state for ");
                push_decimal(&mut detail, mins as u64);
                push_str(&mut detail, " minutes");
                let entity = concat2("execution:", e.id.as_str());
                let severity = if mins > 120 {
                    Severity::Critical
                } else {
                    Severity::Warning
                };
                let f = InsightFinding {
                    severity,
                    category: InsightCategory::StuckExecution,
                    title,
                    detail: FindingDetail::Text(detail),
                    affected_entity: entity,
                    computed_at: now,
                };
                proof {
                    assert(f@.title =~= stuck_finding(*e, now)->0.title);
                    assert(f@.detail == stuck_finding(*e, now)->0.detail);
                }
                Some(f)
            } else {
                None
            }
        },
        None => None,
    }
}

/// Detect executions stuck in Running or Waiting state.
pub fn detect_stuck_executions(execs: &[ExecutionSummary], now: i64) -> (r: Vec<InsightFinding>)
    ensures
        findings_view(r@) == stuck_findings(execs@, now),
{
    let ghost f = |e: ExecutionSummary| stuck_finding(e, now);
    let mut out: Vec<InsightFinding> = Vec::new();
    let mut i: usize = 0;
    while i < execs.len()
        invariant
            i <= execs@.len(),
            f == (|e: ExecutionSummary| stuck_finding(e, now)),
            findings_view(out@) == somes(execs@.take(i as int).map_values(f)),
        decreases execs@.len() - i,
    {
        let found = stuck_check(&execs[i], now);
        proof {
            assert(execs@.take(i + 1).map_values(f) =~= execs@.take(i as int).map_values(f).push(
                f(execs@[i as int]),
            ));
            lemma_somes_push(execs@.take(i as int).map_values(f), f(execs@[i as int]));
        }
        match found {
            Some(x) => {
                let ghost before = out@;
                out.push(x);
                proof {
                    assert(findings_view(out@) =~= findings_view(before).push(x@));
                }
            },
            None => {},
        }
        i = i + 1;
    }
    proof {
        assert(execs@.take(execs@.len() as int) =~= execs@);
    }
    out
}

// ─── Retry storms ───────────────────────────────────────────────────────────
/// The workflow name carried by the last execution of a group that has one.
pub open spec fn last_name(g: Seq<ExecutionSummary>) -> Option<Seq<char>>
    decreases g.len(),
{
    if g.len() == 0 {
        None
    } else {
        match g.last().workflow_name {
            Some(n) => Some(n@),
            None => last_name(g.drop_last()),
        }
    }
}

/// The retry-storm finding for workflow `id`: critical from five retries
/// on, a warning from three.
pub open spec fn retry_finding(execs: Seq<ExecutionSummary>, id: Seq<char>, now: i64) -> Option<
    FindingView,
> {
    let g = group(execs, GroupKey::RetriedWorkflow, id);
    let count = g.len();
    let name = name_or(last_name(g), id);
    let detail = DetailView::Text(
        "Workflow '"@ + name + "' has "@ + decimal(count) + " retry executions in the current window"@,
    );
    if count >= 5 {
        Some(
            FindingView {
                severity: Severity::Critical,
                category: InsightCategory::RetryStorm,
                title: "Retry storm: "@ + name + " ("@ + decimal(count) + " retries)"@,
                detail,
                affected_entity: workflow_entity(id),
                computed_at: now,
            },
        )
    } else if count >= 3 {
        Some(
            FindingView {
                severity: Severity::Warning,
                category: InsightCategory::RetryStorm,
                title: "Multiple retries: "@ + name + " ("@ + decimal(count) + " retries)"@,
                detail,
                affected_entity: workflow_entity(id),
                computed_at: now,
            },
        )
    } else {
        None
    }
}

/// Retry-storm findings, one per workflow at most.
pub open spec fn retry_findings(execs: Seq<ExecutionSummary>, now: i64) -> Seq<FindingView> {
    somes(first_seen(execs, GroupKey::RetriedWorkflow).map_values(|id: Seq<char>| retry_finding(execs, id, now)))
}

fn retry_scan(execs: &[ExecutionSummary], id: &String, now: i64) -> (r: Option<InsightFinding>)
    ensures
        match r {
            Some(f) => retry_finding(execs@, id@, now) == Some(f@),
            None => retry_finding(execs@, id@, now) is None,
        },
{
    let ghost p = |e: ExecutionSummary| group_key(GroupKey::RetriedWorkflow, e) == Some(id@);
    let mut count: usize = 0;
    let mut last: Option<String> = None;
    let mut i: usize = 0;
    while i < execs.len()
        invariant
            i <= execs@.len(),
            p == (|e: ExecutionSummary| group_key(GroupKey::RetriedWorkflow, e) == Some(id@)),
            count == execs@.take(i as int).filter(p).len(),
            count <= i,
            opt_view(last) == last_name(execs@.take(i as int).filter(p)),
        decreases execs@.len() - i,
    {
        proof {
            lemma_take_push(execs@, i as int);
            lemma_filter_push(execs@.take(i as int), execs@[i as int], p);
        }
        let e = &execs[i];
        let member = match key_of(GroupKey::RetriedWorkflow, e) {
            Some(k) => str_eq(k.as_str(), id.as_str()),
            None => false,
        };
        if member {
            proof {
                assert(execs@.take(i as int).filter(p).push(*e).drop_last() =~= execs@.take(
                    i as int,
                ).filter(p));
            }
            count = count + 1;
            match &e.workflow_name {
                Some(n) => {
                    last = Some(n.clone());
                },
                None => {},
            }
        }
        i = i + 1;
    }
    proof {
        assert(execs@.take(execs@.len() as int) =~= execs@);
    }
    if count < 3 {
        return None;
    }
    let name = name_or_exec(last, id);
    let mut detail = String::new();
    push_str(&mut detail, "Workflow '");
    push_str(&mut detail, name.as_str());
    push_str(&mut detail, "' has ");
    push_decimal(&mut detail, count as u64);
    push_str(&mut detail, " retry executions in the current window");
    let mut title = String::new();
    if count >= 5 {
        push_str(&mut title, "Retry storm: ");
    } else {
        push_str(&mut title, "Multiple retries: ");
    }
    push_str(&mut title, name.as_str());
    push_str(&mut title, " (");
    push_decimal(&mut title, count as u64);
    push_str(&mut title, " retries)");
    let f = InsightFinding {
        severity: if count >= 5 {
            Severity::Critical
        } else {
            Severity::Warning
        },
        category: InsightCategory::RetryStorm,
        title,
        detail: FindingDetail::Text(detail),
        affected_entity: concat2("workflow:", id.as_str()),
        computed_at: now,
    };
    proof {
        assert(f@.title =~= retry_finding(execs@, id@, now)->0.title);
        assert(f@.detail == retry_finding(execs@, id@, now)->0.detail);
    }
    Some(f)
}

/// Detect retry storms (excessive retries of the same workflow).
pub fn detect_retry_storms(execs: &[ExecutionSummary], now: i64) -> (r: Vec<InsightFinding>)
    ensures
        findings_view(r@) == retry_findings(execs@, now),
{
    let ids = distinct_keys(execs, GroupKey::RetriedWorkflow);
    let ghost idv = views(ids@);
    let ghost f = |id: Seq<char>| retry_finding(execs@, id, now);
    let mut out: Vec<InsightFinding> = Vec::new();
    let mut j: usize = 0;
    while j < ids.len()
        invariant
            j <= ids@.len(),
            idv == views(ids@),
            idv == first_seen(execs@, GroupKey::RetriedWorkflow),
            f == (|id: Seq<char>| retry_finding(execs@, id, now)),
            findings_view(out@) == somes(idv.take(j as int).map_values(f)),
        decreases ids@.len() - j,
    {
        let found = retry_scan(execs, &ids[j], now);
        proof {
            assert(idv.take(j + 1).map_values(f) =~= idv.take(j as int).map_values(f).push(
                f(idv[j as int]),
            ));
            lemma_somes_push(idv.take(j as int).map_values(f), f(idv[j as int]));
        }
        match found {
            Some(x) => {
                let ghost before = out@;
                out.push(x);
                proof {
                    assert(findings_view(out@) =~= findings_view(before).push(x@));
                }
            },
            None => {},
        }
        j = j + 1;
    }
    proof {
        assert(idv.take(ids@.len() as int) =~= idv);
    }
    out
}


// ─── Long-running executions ────────────────────────────────────────────────
/// Milliseconds from start to stop of an execution that has both.
pub open spec fn run_ms(e: ExecutionSummary) -> int {
    match (e.started_at, e.stopped_at) {
        (Some(a), Some(b)) => span_ms(a, b),
        _ => 0,
    }
}

/// Total run time of a group.
pub open spec fn total_ms(g: Seq<ExecutionSummary>) -> int
    decreases g.len(),
{
    if g.len() == 0 {
        0
    } else {
        total_ms(g.drop_last()) + run_ms(g.last())
    }
}

/// Longest run time of a group (0 for none).
pub open spec fn max_ms(g: Seq<ExecutionSummary>) -> int
    decreases g.len(),
{
    if g.len() == 0 {
        0
    } else if g.len() == 1 {
        run_ms(g[0])
    } else {
        let m = max_ms(g.drop_last());
        if run_ms(g.last()) > m {
            run_ms(g.last())
        } else {
            m
        }
    }
}

/// The long-run finding for workflow `id`: its longest timed run took over
/// three times the mean of its timed runs.
pub open spec fn long_finding(execs: Seq<ExecutionSummary>, id: Seq<char>, now: i64) -> Option<
    FindingView,
> {
    let g = group(execs, GroupKey::TimedWorkflow, id);
    let count = g.len();
    let max = max_ms(g);
    let total = total_ms(g);
    let name = name_or(last_name(g), id);
    if max * count > 3 * total {
        Some(
            FindingView {
                severity: Severity::Warning,
                category: InsightCategory::LongRunningExecution,
                title: "Long execution detected: "@ + name,
                detail: DetailView::LongRunning {
                    workflow_name: name,
                    max_ms: max,
                    total_ms: total,
                    count,
                },
                affected_entity: workflow_entity(id),
                computed_at: now,
            },
        )
    } else {
        None
    }
}

/// Long-run findings, one per workflow at most.
pub open spec fn long_findings(execs: Seq<ExecutionSummary>, now: i64) -> Seq<FindingView> {
    somes(first_seen(execs, GroupKey::TimedWorkflow).map_values(|id: Seq<char>| long_finding(execs, id, now)))
}

proof fn lemma_run_ms_bounds(e: ExecutionSummary)
    ensures
        i64::MIN <= run_ms(e) <= i64::MAX,
{
}

proof fn lemma_max_bounds(g: Seq<ExecutionSummary>)
    ensures
        i64::MIN <= max_ms(g) <= i64::MAX,
    decreases g.len(),
{
    if g.len() > 1 {
        lemma_max_bounds(g.drop_last());
    }
}

fn long_scan(execs: &[ExecutionSummary], id: &String, now: i64) -> (r: Option<InsightFinding>)
    ensures
        match r {
            Some(f) => long_finding(execs@, id@, now) == Some(f@),
            None => long_finding(execs@, id@, now) is None,
        },
{
    let ghost p = |e: ExecutionSummary| group_key(GroupKey::TimedWorkflow, e) == Some(id@);
    let mut count: usize = 0;
    let mut total: i128 = 0;
    let mut max: i64 = 0;
    let mut last: Option<String> = None;
    let mut i: usize = 0;
    while i < execs.len()
        invariant
            i <= execs@.len(),
            p == (|e: ExecutionSummary| group_key(GroupKey::TimedWorkflow, e) == Some(id@)),
            count == execs@.take(i as int).filter(p).len(),
            count <= i,
            total == total_ms(execs@.take(i as int).filter(p)),
            -(count as int) * 9223372036854775808 <= total <= count as int * 9223372036854775808,
            max == max_ms(execs@.take(i as int).filter(p)),
            opt_view(last) == last_name(execs@.take(i as int).filter(p)),
        decreases execs@.len() - i,
    {
        proof {
            lemma_take_push(execs@, i as int);
            lemma_filter_push(execs@.take(i as int), execs@[i as int], p);
        }
        let e = &execs[i];
        let member = match key_of(GroupKey::TimedWorkflow, e) {
            Some(k) => str_eq(k.as_str(), id.as_str()),
            None => false,
        };
        if member {
            let ghost g = execs@.take(i as int).filter(p);
            proof {
                assert(g.push(*e).drop_last() =~= g);
                assert(g.push(*e).last() == *e);
                lemma_run_ms_bounds(*e);
                if g.len() == 0 {
                    assert(g.push(*e)[0] == *e);
                }
            }
            let d: i64 = match (e.started_at, e.stopped_at) {
                (Some(a), Some(b)) => elapsed_ms(a, b),
                _ => 0,
            };
            total = total + d as i128;
            if count == 0 || d > max {
                max = d;
            }
            count = count + 1;
            match &e.workflow_name {
                Some(n) => {
                    last = Some(n.clone());
                },
                None => {},
            }
        }
        i = i + 1;
    }
    proof {
        assert(execs@.take(execs@.len() as int) =~= execs@);
    }
    let wide_max: i128 = max as i128;
    assert(-(count as int) * 9223372036854775808 <= max * count <= count as int * 9223372036854775808)
        by (nonlinear_arith)
        requires
            i64::MIN <= max <= i64::MAX,
            count >= 0,
    ;
    assert(count as int * 9223372036854775808 <= 18446744073709551615 * 9223372036854775808)
        by (nonlinear_arith)
        requires
            count <= 18446744073709551615,
    ;
    let scaled_max: i128 = wide_max * (count as i128);
    let exceeds: bool = if total > 56713727820156410577229101238628035242 {
        false
    } else if total < -56713727820156410577229101238628035242 {
        true
    } else {
        scaled_max > 3 * total
    };
    if !exceeds {
        return None;
    }
    let name = name_or_exec(last, id);
    let title = concat2("Long execution detected: ", name.as_str());
    Some(
        InsightFinding {
            severity: Severity::Warning,
            category: InsightCategory::LongRunningExecution,
            title,
            detail: FindingDetail::LongRunning { workflow_name: name, max_ms: max, total_ms: total, count },
            affected_entity: concat2("workflow:", id.as_str()),
            computed_at: now,
        },
    )
}

/// Detect abnormally long-running executions.
pub fn detect_long_running(execs: &[ExecutionSummary], now: i64) -> (r: Vec<InsightFinding>)
    ensures
        findings_view(r@) == long_findings(execs@, now),
{
    let ids = distinct_keys(execs, GroupKey::TimedWorkflow);
    let ghost idv = views(ids@);
    let ghost f = |id: Seq<char>| long_finding(execs@, id, now);
    let mut out: Vec<InsightFinding> = Vec::new();
    let mut j: usize = 0;
    while j < ids.len()
        invariant
            j <= ids@.len(),
            idv == views(ids@),
            idv == first_seen(execs@, GroupKey::TimedWorkflow),
            f == (|id: Seq<char>| long_finding(execs@, id, now)),
            findings_view(out@) == somes(idv.take(j as int).map_values(f)),
        decreases ids@.len() - j,
    {
        let found = long_scan(execs, &ids[j], now);
        proof {
            assert(idv.take(j + 1).map_values(f) =~= idv.take(j as int).map_values(f).push(
                f(idv[j as int]),
            ));
            lemma_somes_push(idv.take(j as int).map_values(f), f(idv[j as int]));
        }
        match found {
            Some(x) => {
                let ghost before = out@;
                out.push(x);
                proof {
                    assert(findings_view(out@) =~= findings_view(before).push(x@));
                }
            },
            None => {},
        }
        j = j + 1;
    }
    proof {
        assert(idv.take(ids@.len() as int) =~= idv);
    }
    out
}


// ─── Abandoned workflows ────────────────────────────────────────────────────
/// Thirty days in milliseconds.
pub const THIRTY_DAYS_MS: i64 = 2_592_000_000i64;

/// An execution that started less than 30 days before `now` (or later).
pub open spec fn recent(e: ExecutionSummary, now: i64) -> bool {
    e.started_at matches Some(t) && span_ms(t, now) < THIRTY_DAYS_MS
}

/// Some execution of workflow `id` started in the last 30 days.
pub open spec fn ran_recently(execs: Seq<ExecutionSummary>, id: Seq<char>, now: i64) -> bool {
    exists|i: int| 0 <= i < execs.len() && opt_view(execs[i].workflow_id) == Some(id) && recent(#[trigger] execs[i], now)
}

/// The finding for an active workflow with no executions in the last 30
/// days.
pub open spec fn abandoned_finding(w: WorkflowSummary, execs: Seq<ExecutionSummary>, now: i64) -> Option<
    FindingView,
> {
    if !w.active || ran_recently(execs, w.id@, now) {
        None
    } else {
        Some(
            FindingView {
                severity: Severity::Info,
                category: InsightCategory::AbandonedWorkflow,
                title: "Possibly abandoned: "@ + w.name@,
                detail: DetailView::Text(
                    "Active workflow '"@ + w.name@ + "' has no executions in the last 30 days"@,
                ),
                affected_entity: workflow_entity(w.id@),
                computed_at: now,
            },
        )
    }
}

/// Abandoned-workflow findings, in workflow order.
pub open spec fn abandoned_findings(
    workflows: Seq<WorkflowSummary>,
    execs: Seq<ExecutionSummary>,
    now: i64,
) -> Seq<FindingView> {
    somes(workflows.map_values(|w: WorkflowSummary| abandoned_finding(w, execs, now)))
}

/// Whether some execution of workflow `id` started in the last 30 days.
fn ran_recently_exec(execs: &[ExecutionSummary], id: &String, now: i64) -> (r: bool)
    ensures
        r == ran_recently(execs@, id@, now),
{
    let mut i: usize = 0;
    while i < execs.len()
        invariant
            i <= execs@.len(),
            forall|k: int|
                0 <= k < i ==> !(opt_view(execs@[k].workflow_id) == Some(id@) && recent(#[trigger] execs@[k], now)),
        decreases execs@.len() - i,
    {
        let e = &execs[i];
        let fresh = match e.started_at {
            Some(t) => elapsed_ms(t, now) < THIRTY_DAYS_MS,
            None => false,
        };
        if fresh {
            match &e.workflow_id {
                Some(w) => {
                    if str_eq(w.as_str(), id.as_str()) {
                        return true;
                    }
                },
                None => {},
            }
        }
        i = i + 1;
    }
    false
}

fn abandoned_check(w: &WorkflowSummary, execs: &[ExecutionSummary], now: i64) -> (r: Option<
    InsightFinding,
>)
    ensures
        match r {
            Some(f) => abandoned_finding(*w, execs@, now) == Some(f@),
            None => abandoned_finding(*w, execs@, now) is None,
        },
{
    if !w.active || ran_recently_exec(execs, &w.id, now) {
        return None;
    }
    let mut detail = String::new();
    push_str(&mut detail, "Active workflow '");
    push_str(&mut detail, w.name.as_str());
    push_str(&mut detail, "' has no executions in the last 30 days");
    Some(
        InsightFinding {
            severity: Severity::Info,
            category: InsightCategory::AbandonedWorkflow,
            title: concat2("Possibly abandoned: ", w.name.as_str()),
            detail: FindingDetail::Text(detail),
            affected_entity: concat2("workflow:", w.id.as_str()),
            computed_at: now,
        },
    )
}

/// Detect active workflows that have not run recently.
pub fn detect_abandoned_workflows(
    workflows: &[WorkflowSummary],
    execs: &[ExecutionSummary],
    now: i64,
) -> (r: Vec<InsightFinding>)
    ensures
        findings_view(r@) == abandoned_findings(workflows@, execs@, now),
{
    let ghost f = |w: WorkflowSummary| abandoned_finding(w, execs@, now);
    let mut out: Vec<InsightFinding> = Vec::new();
    let mut i: usize = 0;
    while i < workflows.len()
        invariant
            i <= workflows@.len(),
            f == (|w: WorkflowSummary| abandoned_finding(w, execs@, now)),
            findings_view(out@) == somes(workflows@.take(i as int).map_values(f)),
        decreases workflows@.len() - i,
    {
        let found = abandoned_check(&workflows[i], execs, now);
        proof {
            assert(workflows@.take(i + 1).map_values(f) =~= workflows@.take(i as int).map_values(
                f,
            ).push(f(workflows@[i as int])));
            lemma_somes_push(workflows@.take(i as int).map_values(f), f(workflows@[i as int]));
        }
        match found {
            Some(x) => {
                let ghost before = out@;
                out.push(x);
                proof {
                    assert(findings_view(out@) =~= findings_view(before).push(x@));
                }
            },
            None => {},
        }
        i = i + 1;
    }
    proof {
        assert(workflows@.take(workflows@.len() as int) =~= workflows@);
    }
    out
}

// ─── Inactive critical workflows ────────────────────────────────────────────
/// A lower-cased tag name that marks a workflow as critical.
pub open spec fn is_critical_tag(lowered: Seq<char>) -> bool {
    lowered == "production"@ || lowered == "critical"@ || lowered == "prod"@
}

/// The workflow carries a tag that, lower-cased, marks it as critical.
pub open spec fn has_critical_tag(w: WorkflowSummary) -> bool {
    exists|i: int| 0 <= i < w.tags@.len() && is_critical_tag(lowercase(w.tags@[i].name@))
}

/// Whether a lower-cased tag name marks a workflow as critical.
pub fn is_critical_tag_name(lowered: &str) -> (r: bool)
    ensures
        r == is_critical_tag(lowered@),
{
    str_eq(lowered, "production") || str_eq(lowered, "critical") || str_eq(lowered, "prod")
}

fn has_critical_tag_exec(w: &WorkflowSummary) -> (r: bool)
    ensures
        r == has_critical_tag(*w),
{
    let mut i: usize = 0;
    while i < w.tags.len()
        invariant
            i <= w.tags@.len(),
            forall|k: int| 0 <= k < i ==> !is_critical_tag(lowercase(w.tags@[k].name@)),
        decreases w.tags@.len() - i,
    {
        let lowered = to_lowercase(w.tags[i].name.as_str());
        if is_critical_tag_name(lowered.as_str()) {
            return true;
        }
        i = i + 1;
    }
    false
}

/// The finding for an inactive workflow tagged as critical.
pub open spec fn inactive_finding(w: WorkflowSummary, now: i64) -> Option<FindingView> {
    if !w.active && has_critical_tag(w) {
        Some(
            FindingView {
                severity: Severity::Warning,
                category: InsightCategory::InactiveCriticalWorkflow,
                title: "Critical workflow inactive: "@ + w.name@,
                detail: DetailView::Text(
                    "Workflow '"@ + w.name@
                        + "' is tagged as production/critical but is currently inactive"@,
                ),
                affected_entity: workflow_entity(w.id@),
                computed_at: now,
            },
        )
    } else {
        None
    }
}

/// Inactive-critical findings, in workflow order.
pub open spec fn inactive_findings(workflows: Seq<WorkflowSummary>, now: i64) -> Seq<FindingView> {
    somes(workflows.map_values(|w: WorkflowSummary| inactive_finding(w, now)))
}

/// Detect inactive workflows tagged as critical or production.
pub fn detect_inactive_critical(workflows: &[WorkflowSummary], now: i64) -> (r: Vec<InsightFinding>)
    ensures
        findings_view(r@) == inactive_findings(workflows@, now),
{
    let ghost f = |w: WorkflowSummary| inactive_finding(w, now);
    let mut out: Vec<InsightFinding> = Vec::new();
    let mut i: usize = 0;
    while i < workflows.len()
        invariant
            i <= workflows@.len(),
            f == (|w: WorkflowSummary| inactive_finding(w, now)),
            findings_view(out@) == somes(workflows@.take(i as int).map_values(f)),
        decreases workflows@.len() - i,
    {
        proof {
            assert(workflows@.take(i + 1).map_values(f) =~= workflows@.take(i as int).map_values(
                f,
            ).push(f(workflows@[i as int])));
            lemma_somes_push(workflows@.take(i as int).map_values(f), f(workflows@[i as int]));
        }
        let w = &workflows[i];
        if !w.active && has_critical_tag_exec(w) {
            let mut detail = String::new();
            push_str(&mut detail, "Workflow '");
            push_str(&mut detail, w.name.as_str());
            push_str(&mut detail, "' is tagged as production/critical but is currently inactive");
            let x = InsightFinding {
                severity: Severity::Warning,
                category: InsightCategory::InactiveCriticalWorkflow,
                title: concat2("Critical workflow inactive: ", w.name.as_str()),
                detail: FindingDetail::Text(detail),
                affected_entity: concat2("workflow:", w.id.as_str()),
                computed_at: now,
            };
            proof {
                assert(x@.detail == inactive_finding(*w, now)->0.detail);
            }
            let ghost before = out@;
            out.push(x);
            proof {
                assert(findings_view(out@) =~= findings_view(before).push(x@));
            }
        }
        i = i + 1;
    }
    proof {
        assert(workflows@.take(workflows@.len() as int) =~= workflows@);
    }
    out
}

// ─── The whole scan ─────────────────────────────────────────────────────────
/// Every finding of the scan, detector by detector.
pub open spec fn all_findings(
    workflows: Seq<WorkflowSummary>,
    execs: Seq<ExecutionSummary>,
    now: i64,
) -> Seq<FindingView> {
    failure_findings(execs, now) + stuck_findings(execs, now) + retry_findings(execs, now)
        + long_findings(execs, now) + abandoned_findings(workflows, execs, now)
        + inactive_findings(workflows, now)
}

/// The findings of severity `s`, in order.
pub open spec fn of_severity(f: Seq<FindingView>, s: Severity) -> Seq<FindingView> {
    f.filter(|x: FindingView| x.severity == s)
}

/// Findings ordered critical first, then warnings, then information;
/// findings of the same severity keep their order.
pub open spec fn by_severity(f: Seq<FindingView>) -> Seq<FindingView> {
    of_severity(f, Severity::Critical) + of_severity(f, Severity::Warning) + of_severity(
        f,
        Severity::Info,
    )
}

fn append_findings(dst: &mut Vec<InsightFinding>, src: Vec<InsightFinding>)
    ensures
        findings_view(final(dst)@) == findings_view(old(dst)@) + findings_view(src@),
{
    let mut src = src;
    let ghost a = old(dst)@;
    let ghost b = src@;
    dst.append(&mut src);
    proof {
        assert(findings_view(dst@) =~= findings_view(a) + findings_view(b));
    }
}

/// Order findings by severity, most severe first, keeping the order of
/// findings of the same severity (a stable sort).
pub fn sort_by_severity(all: Vec<InsightFinding>) -> (r: Vec<InsightFinding>)
    ensures
        findings_view(r@) == by_severity(findings_view(all@)),
{
    let ghost pc = |x: FindingView| x.severity == Severity::Critical;
    let ghost pw = |x: FindingView| x.severity == Severity::Warning;
    let ghost pi = |x: FindingView| x.severity == Severity::Info;
    let mut crit: Vec<InsightFinding> = Vec::new();
    let mut warn: Vec<InsightFinding> = Vec::new();
    let mut info: Vec<InsightFinding> = Vec::new();
    let ghost whole = findings_view(all@);
    for f in it: all.into_iter()
        invariant
            it.seq() == all@,
            whole == findings_view(all@),
            pc == (|x: FindingView| x.severity == Severity::Critical),
            pw == (|x: FindingView| x.severity == Severity::Warning),
            pi == (|x: FindingView| x.severity == Severity::Info),
            findings_view(crit@) == whole.take(it.index() as int).filter(pc),
            findings_view(warn@) == whole.take(it.index() as int).filter(pw),
            findings_view(info@) == whole.take(it.index() as int).filter(pi),
    {
        let ghost k = it.index() as int;
        proof {
            assert(whole.take(k + 1) =~= whole.take(k).push(f@));
            lemma_filter_push(whole.take(k), f@, pc);
            lemma_filter_push(whole.take(k), f@, pw);
            lemma_filter_push(whole.take(k), f@, pi);
        }
        let ghost (c0, w0, i0) = (crit@, warn@, info@);
        match f.severity {
            Severity::Critical => crit.push(f),
            Severity::Warning => warn.push(f),
            Severity::Info => info.push(f),
        }
        proof {
            assert(findings_view(crit@) =~= if f@.severity == Severity::Critical {
                findings_view(c0).push(f@)
            } else {
                findings_view(c0)
            });
            assert(findings_view(warn@) =~= if f@.severity == Severity::Warning {
                findings_view(w0).push(f@)
            } else {
                findings_view(w0)
            });
            assert(findings_view(info@) =~= if f@.severity == Severity::Info {
                findings_view(i0).push(f@)
            } else {
                findings_view(i0)
            });
        }
    }
    proof {
        assert(whole.take(whole.len() as int) =~= whole);
    }
    append_findings(&mut crit, warn);
    append_findings(&mut crit, info);
    crit
}

/// Compute the findings of a scan over workflows and executions, as seen
/// at `now`.
pub fn compute_insights_at(
    workflows: &[WorkflowSummary],
    execs: &[ExecutionSummary],
    now: i64,
) -> (r: Vec<InsightFinding>)
    ensures
        findings_view(r@) == by_severity(all_findings(workflows@, execs@, now)),
{
    let mut all = detect_high_failure_rate(execs, now);
    append_findings(&mut all, detect_stuck_executions(execs, now));
    append_findings(&mut all, detect_retry_storms(execs, now));
    append_findings(&mut all, detect_long_running(execs, now));
    append_findings(&mut all, detect_abandoned_workflows(workflows, execs, now));
    append_findings(&mut all, detect_inactive_critical(workflows, now));
    sort_by_severity(all)
}

/// Compute insights from workflows and executions data, as seen now.
pub fn compute_insights(workflows: &[WorkflowSummary], execs: &[ExecutionSummary]) -> (r: Vec<
    InsightFinding,
>)
    ensures
        exists|now: i64|
            0 <= now <= crate::domain::execution::MAX_INSTANT_MS && findings_view(r@)
                == by_severity(all_findings(workflows@, execs@, now)),
{
    let now = crate::clock::now_ms();
    compute_insights_at(workflows, execs, now)
}

} // verus!
