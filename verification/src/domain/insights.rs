//! Insight findings: severities, categories and the result of a scan.
use vstd::prelude::*;

verus! {

/// Severity level for an insight finding, from least to most severe.
#[derive(Clone, Copy, Debug, PartialEq, Eq, Structural, Hash)]
pub enum Severity {
    Info,
    Warning,
    Critical,
}

/// The position of a severity in the order Info < Warning < Critical.
pub open spec fn severity_rank(s: Severity) -> int {
    match s {
        Severity::Info => 0,
        Severity::Warning => 1,
        Severity::Critical => 2,
    }
}

impl Severity {
    pub fn symbol(&self) -> (r: &'static str)
        ensures
            r@ == match *self {
                Severity::Info => seq!['ℹ'],
                Severity::Warning => seq!['⚠'],
                Severity::Critical => seq!['✗'],
            },
    {
        proof {
            reveal_strlit("ℹ");
            reveal_strlit("⚠");
            reveal_strlit("✗");
        }
        match self {
            Severity::Info => "ℹ",
            Severity::Warning => "⚠",
            Severity::Critical => "✗",
        }
    }

    /// The short label (what `Display` prints).
    pub fn label(&self) -> (r: &'static str)
        ensures
            r@ == match *self {
                Severity::Info => "INFO"@,
                Severity::Warning => "WARN"@,
                Severity::Critical => "CRIT"@,
            },
    {
        match self {
            Severity::Info => "INFO",
            Severity::Warning => "WARN",
            Severity::Critical => "CRIT",
        }
    }

    /// The position in the order Info < Warning < Critical.
    pub fn rank(&self) -> (r: u8)
        ensures
            r == severity_rank(*self),
    {
        match self {
            Severity::Info => 0,
            Severity::Warning => 1,
            Severity::Critical => 2,
        }
    }
}

/// Category of an insight finding.
#[derive(Clone, Copy, Debug, PartialEq, Eq, Structural, Hash)]
pub enum InsightCategory {
    HighFailureRate,
    StuckExecution,
    RetryStorm,
    NodeFailureHotspot,
    LongRunningExecution,
    InactiveCriticalWorkflow,
    AbandonedWorkflow,
    CredentialIssue,
}

/// The display name of a category.
pub open spec fn category_name(c: InsightCategory) -> Seq<char> {
    match c {
        InsightCategory::HighFailureRate => "High Failure Rate"@,
        InsightCategory::StuckExecution => "Stuck Execution"@,
        InsightCategory::RetryStorm => "Retry Storm"@,
        InsightCategory::NodeFailureHotspot => "Node Failure Hotspot"@,
        InsightCategory::LongRunningExecution => "Long Running Execution"@,
        InsightCategory::InactiveCriticalWorkflow => "Inactive Critical Workflow"@,
        InsightCategory::AbandonedWorkflow => "Abandoned Workflow"@,
        InsightCategory::CredentialIssue => "Credential Issue"@,
    }
}

impl InsightCategory {
    /// The display name (what `Display` prints).
    pub fn name(&self) -> (r: &'static str)
        ensures
            r@ == category_name(*self),
    {
        match self {
            InsightCategory::HighFailureRate => "High Failure Rate",
            InsightCategory::StuckExecution => "Stuck Execution",
            InsightCategory::RetryStorm => "Retry Storm",
            InsightCategory::NodeFailureHotspot => "Node Failure Hotspot",
            InsightCategory::LongRunningExecution => "Long Running Execution",
            InsightCategory::InactiveCriticalWorkflow => "Inactive Critical Workflow",
            InsightCategory::AbandonedWorkflow => "Abandoned Workflow",
            InsightCategory::CredentialIssue => "Credential Issue",
        }
    }
}

/// The detail of a finding. Two kinds carry the figures from which their
/// text is written, since that text shows ratios with a fraction.
#[derive(Debug)]
pub enum FindingDetail {
    /// A finished sentence.
    Text(String),
    /// `failed` of `total` executions of the workflow failed.
    FailureRate { failed: usize, total: usize, workflow_name: String },
    /// The longest of `count` runs of the workflow took `max_ms`; all of
    /// them together took `total_ms`.
    LongRunning { workflow_name: String, max_ms: i64, total_ms: i128, count: usize },
}

/// The abstract content of a finding's detail.
pub enum DetailView {
    Text(Seq<char>),
    FailureRate { failed: nat, total: nat, workflow_name: Seq<char> },
    LongRunning { workflow_name: Seq<char>, max_ms: int, total_ms: int, count: nat },
}

impl View for FindingDetail {
    type V = DetailView;

    open spec fn view(&self) -> DetailView {
        match self {
            FindingDetail::Text(s) => DetailView::Text(s@),
            FindingDetail::FailureRate { failed, total, workflow_name } => DetailView::FailureRate {
                failed: *failed as nat,
                total: *total as nat,
                workflow_name: workflow_name@,
            },
            FindingDetail::LongRunning { workflow_name, max_ms, total_ms, count } =>
                DetailView::LongRunning {
                workflow_name: workflow_name@,
                max_ms: *max_ms as int,
                total_ms: *total_ms as int,
                count: *count as nat,
            },
        }
    }
}

/// A single insight finding.
#[derive(Debug)]
pub struct InsightFinding {
    pub severity: Severity,
    pub category: InsightCategory,
    pub title: String,
    pub detail: FindingDetail,
    pub affected_entity: String,
    pub computed_at: i64,
}

/// The abstract content of a finding.
pub struct FindingView {
    pub severity: Severity,
    pub category: InsightCategory,
    pub title: Seq<char>,
    pub detail: DetailView,
    pub affected_entity: Seq<char>,
    pub computed_at: i64,
}

impl View for InsightFinding {
    type V = FindingView;

    open spec fn view(&self) -> FindingView {
        FindingView {
            severity: self.severity,
            category: self.category,
            title: self.title@,
            detail: self.detail@,
            affected_entity: self.affected_entity@,
            computed_at: self.computed_at,
        }
    }
}

/// The contents of a list of findings.
pub open spec fn findings_view(v: Seq<InsightFinding>) -> Seq<FindingView> {
    v.map_values(|f: InsightFinding| f@)
}

/// Result of an insights scan.
#[derive(Debug)]
pub struct InsightsResult {
    pub findings: Vec<InsightFinding>,
    pub workflows_scanned: usize,
    pub executions_scanned: usize,
    pub scan_duration_ms: u64,
    pub computed_at: i64,
}

/// How many findings have severity `s`.
pub open spec fn severity_count(f: Seq<InsightFinding>, s: Severity) -> nat {
    f.filter(|x: InsightFinding| x.severity == s).len()
}

/// Number of findings of a severity.
fn count_severity(f: &Vec<InsightFinding>, s: Severity) -> (r: usize)
    ensures
        r == severity_count(f@, s),
{
    let mut n: usize = 0;
    let mut i: usize = 0;
    while i < f.len()
        invariant
            i <= f.len(),
            n == severity_count(f@.take(i as int), s),
            n <= i,
        decreases f.len() - i,
    {
        proof {
            reveal(Seq::filter);
            assert(f@.take(i + 1).drop_last() =~= f@.take(i as int));
        }
        if f[i].severity == s {
            n = n + 1;
        }
        i = i + 1;
    }
    proof {
        assert(f@.take(f@.len() as int) =~= f@);
    }
    n
}

impl InsightsResult {
    pub fn critical_count(&self) -> (r: usize)
        ensures
            r == severity_count(self.findings@, Severity::Critical),
    {
        count_severity(&self.findings, Severity::Critical)
    }

    pub fn warning_count(&self) -> (r: usize)
        ensures
            r == severity_count(self.findings@, Severity::Warning),
    {
        count_severity(&self.findings, Severity::Warning)
    }

    pub fn info_count(&self) -> (r: usize)
        ensures
            r == severity_count(self.findings@, Severity::Info),
    {
        count_severity(&self.findings, Severity::Info)
    }
}

} // verus!
