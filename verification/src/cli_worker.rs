//! The requests the dashboard hands to its API worker, and the worker's
//! decisions: which API call each request makes, and what the dashboard is
//! told once the answers are in. The worker itself makes the calls.
use vstd::prelude::*;

use crate::action::{Action, ActionView};
use crate::client::{ExecutionFilter, ExecutionFilterView, WorkflowFilter, WorkflowFilterView};
use crate::domain::execution::{ExecutionDetail, ExecutionSummary};
use crate::domain::insights::{findings_view, InsightsResult};
use crate::domain::insights_compute::{all_findings, by_severity, compute_insights_at};
use crate::domain::workflow::{summaries_view, WorkflowDetail, WorkflowSummary};
use crate::text::{copy_str, push_str};

verus! {

/// Request types that the worker can process.
#[derive(Debug)]
pub enum WorkerRequest {
    FetchWorkflows(WorkflowFilter),
    FetchWorkflowDetail(String),
    FetchExecutions(ExecutionFilter),
    FetchExecutionDetail(String, bool),
    RunInsights(usize),
    ActivateWorkflow(String),
    DeactivateWorkflow(String),
    RetryExecution(String),
}


/// The abstract content of a worker request.
pub enum WorkerRequestView {
    FetchWorkflows(WorkflowFilterView),
    FetchWorkflowDetail(Seq<char>),
    FetchExecutions(ExecutionFilterView),
    FetchExecutionDetail(Seq<char>, bool),
    RunInsights(usize),
    ActivateWorkflow(Seq<char>),
    DeactivateWorkflow(Seq<char>),
    RetryExecution(Seq<char>),
}

impl View for WorkerRequest {
    type V = WorkerRequestView;

    open spec fn view(&self) -> WorkerRequestView {
        match self {
            WorkerRequest::FetchWorkflows(f) => WorkerRequestView::FetchWorkflows(f@),
            WorkerRequest::FetchWorkflowDetail(id) => WorkerRequestView::FetchWorkflowDetail(id@),
            WorkerRequest::FetchExecutions(f) => WorkerRequestView::FetchExecutions(f@),
            WorkerRequest::FetchExecutionDetail(id, d) => WorkerRequestView::FetchExecutionDetail(id@, *d),
            WorkerRequest::RunInsights(n) => WorkerRequestView::RunInsights(*n),
            WorkerRequest::ActivateWorkflow(id) => WorkerRequestView::ActivateWorkflow(id@),
            WorkerRequest::DeactivateWorkflow(id) => WorkerRequestView::DeactivateWorkflow(id@),
            WorkerRequest::RetryExecution(id) => WorkerRequestView::RetryExecution(id@),
        }
    }
}

// ─── The worker's decisions ─────────────────────────────────────────────────
/// Pages fetched for a listing the dashboard asked for.
pub const LIST_PAGES: usize = 5;

/// Page size of the listings an insights scan reads.
pub const INSIGHT_PAGE_LIMIT: u32 = 100;

/// A call to the n8n API that a request waits for.
pub enum WorkerCall {
    /// Every workflow matching the filter, page by page, at most the given
    /// number of pages.
    ListWorkflows(WorkflowFilter, usize),
    GetWorkflow(String),
    /// Every execution matching the filter, page by page, at most the given
    /// number of pages.
    ListExecutions(ExecutionFilter, usize),
    GetExecution(String, bool),
    ActivateWorkflow(String),
    DeactivateWorkflow(String),
    /// Retry an execution; the flag asks to load the latest workflow.
    RetryExecution(String, bool),
}

/// The abstract content of a call.
pub enum WorkerCallView {
    ListWorkflows(WorkflowFilterView, usize),
    GetWorkflow(Seq<char>),
    ListExecutions(ExecutionFilterView, usize),
    GetExecution(Seq<char>, bool),
    ActivateWorkflow(Seq<char>),
    DeactivateWorkflow(Seq<char>),
    RetryExecution(Seq<char>, bool),
}

impl View for WorkerCall {
    type V = WorkerCallView;

    open spec fn view(&self) -> WorkerCallView {
        match self {
            WorkerCall::ListWorkflows(f, n) => WorkerCallView::ListWorkflows(f@, *n),
            WorkerCall::GetWorkflow(id) => WorkerCallView::GetWorkflow(id@),
            WorkerCall::ListExecutions(f, n) => WorkerCallView::ListExecutions(f@, *n),
            WorkerCall::GetExecution(id, d) => WorkerCallView::GetExecution(id@, *d),
            WorkerCall::ActivateWorkflow(id) => WorkerCallView::ActivateWorkflow(id@),
            WorkerCall::DeactivateWorkflow(id) => WorkerCallView::DeactivateWorkflow(id@),
            WorkerCall::RetryExecution(id, l) => WorkerCallView::RetryExecution(id@, *l),
        }
    }
}

/// What the API answered to a call.
pub enum WorkerReply {
    Workflows(Vec<WorkflowSummary>),
    Workflow(WorkflowDetail),
    Executions(Vec<ExecutionSummary>),
    Execution(ExecutionDetail),
    /// An activation, deactivation or retry went through.
    Changed,
    /// The call failed; the text describes the failure.
    Failed(String),
}

/// The stage a request is at: what its pending call is for.
pub enum WorkerJob {
    Workflows,
    WorkflowDetail,
    Executions,
    ExecutionDetail,
    /// An insights scan reading workflows; then executions, this many pages.
    InsightWorkflows(usize),
    /// An insights scan reading executions, with the workflows read.
    InsightExecutions(Vec<WorkflowSummary>),
    Activating,
    Deactivating,
    Retrying,
    /// Listing workflows again after an activation or deactivation.
    WorkflowsAfterChange,
    /// Listing executions again after a retry.
    ExecutionsAfterRetry,
}

/// The abstract content of a stage.
pub enum WorkerJobView {
    Workflows,
    WorkflowDetail,
    Executions,
    ExecutionDetail,
    InsightWorkflows(usize),
    InsightExecutions(Seq<WorkflowSummary>),
    Activating,
    Deactivating,
    Retrying,
    WorkflowsAfterChange,
    ExecutionsAfterRetry,
}

impl View for WorkerJob {
    type V = WorkerJobView;

    open spec fn view(&self) -> WorkerJobView {
        match self {
            WorkerJob::Workflows => WorkerJobView::Workflows,
            WorkerJob::WorkflowDetail => WorkerJobView::WorkflowDetail,
            WorkerJob::Executions => WorkerJobView::Executions,
            WorkerJob::ExecutionDetail => WorkerJobView::ExecutionDetail,
            WorkerJob::InsightWorkflows(n) => WorkerJobView::InsightWorkflows(*n),
            WorkerJob::InsightExecutions(ws) => WorkerJobView::InsightExecutions(ws@),
            WorkerJob::Activating => WorkerJobView::Activating,
            WorkerJob::Deactivating => WorkerJobView::Deactivating,
            WorkerJob::Retrying => WorkerJobView::Retrying,
            WorkerJob::WorkflowsAfterChange => WorkerJobView::WorkflowsAfterChange,
            WorkerJob::ExecutionsAfterRetry => WorkerJobView::ExecutionsAfterRetry,
        }
    }
}

/// What to do next: make another call at a new stage, or tell the
/// dashboard.
pub enum WorkerStep {
    Call(WorkerJob, WorkerCall),
    Finish(Action),
}

/// The abstract content of a next step.
pub enum StepView {
    Call(WorkerJobView, WorkerCallView),
    Finish(ActionView),
}

impl View for WorkerStep {
    type V = StepView;

    open spec fn view(&self) -> StepView {
        match self {
            WorkerStep::Call(j, c) => StepView::Call(j@, c@),
            WorkerStep::Finish(a) => StepView::Finish(a@),
        }
    }
}

/// The workflow filter that only sets a page size.
pub open spec fn workflow_limit(limit: u32) -> WorkflowFilterView {
    WorkflowFilterView { active: None, tags: None, name: None, project_id: None, limit: Some(limit), cursor: None }
}

/// The execution filter that only sets a page size.
pub open spec fn execution_limit(limit: u32) -> ExecutionFilterView {
    ExecutionFilterView {
        status: None,
        workflow_id: None,
        project_id: None,
        limit: Some(limit),
        cursor: None,
        include_data: false,
    }
}

/// The first call a request makes, and the stage it is then at.
pub open spec fn first_call(r: WorkerRequestView) -> (WorkerJobView, WorkerCallView) {
    match r {
        WorkerRequestView::FetchWorkflows(f) => (WorkerJobView::Workflows, WorkerCallView::ListWorkflows(f, LIST_PAGES)),
        WorkerRequestView::FetchWorkflowDetail(id) => (WorkerJobView::WorkflowDetail, WorkerCallView::GetWorkflow(id)),
        WorkerRequestView::FetchExecutions(f) => (WorkerJobView::Executions, WorkerCallView::ListExecutions(f, LIST_PAGES)),
        WorkerRequestView::FetchExecutionDetail(id, d) => (WorkerJobView::ExecutionDetail, WorkerCallView::GetExecution(id, d)),
        WorkerRequestView::RunInsights(n) => (
            WorkerJobView::InsightWorkflows(n),
            WorkerCallView::ListWorkflows(workflow_limit(INSIGHT_PAGE_LIMIT), n),
        ),
        WorkerRequestView::ActivateWorkflow(id) => (WorkerJobView::Activating, WorkerCallView::ActivateWorkflow(id)),
        WorkerRequestView::DeactivateWorkflow(id) => (WorkerJobView::Deactivating, WorkerCallView::DeactivateWorkflow(id)),
        WorkerRequestView::RetryExecution(id) => (WorkerJobView::Retrying, WorkerCallView::RetryExecution(id, false)),
    }
}

/// The reply is of the kind the stage's call gives.
pub open spec fn fits(j: WorkerJobView, r: WorkerReply) -> bool {
    r is Failed || match j {
        WorkerJobView::Workflows | WorkerJobView::InsightWorkflows(_) | WorkerJobView::WorkflowsAfterChange => r is Workflows,
        WorkerJobView::WorkflowDetail => r is Workflow,
        WorkerJobView::Executions | WorkerJobView::InsightExecutions(_) | WorkerJobView::ExecutionsAfterRetry => r is Executions,
        WorkerJobView::ExecutionDetail => r is Execution,
        WorkerJobView::Activating | WorkerJobView::Deactivating | WorkerJobView::Retrying => r is Changed,
    }
}

/// The message the dashboard shows when a stage's call fails with `e`.
pub open spec fn failure_message(j: WorkerJobView, e: Seq<char>) -> Seq<char> {
    match j {
        WorkerJobView::Workflows => "Failed to fetch workflows: "@ + e,
        WorkerJobView::WorkflowDetail => "Failed to fetch workflow: "@ + e,
        WorkerJobView::Executions => "Failed to fetch executions: "@ + e,
        WorkerJobView::ExecutionDetail => "Failed to fetch execution: "@ + e,
        WorkerJobView::InsightWorkflows(_) | WorkerJobView::InsightExecutions(_) => "Insights: "@ + e,
        WorkerJobView::Activating => "Failed to activate: "@ + e,
        WorkerJobView::Deactivating => "Failed to deactivate: "@ + e,
        WorkerJobView::Retrying => "Failed to retry: "@ + e,
        WorkerJobView::WorkflowsAfterChange | WorkerJobView::ExecutionsAfterRetry => e,
    }
}

/// The next step after a successful reply, for every stage but the last of
/// an insights scan.
pub open spec fn next_step(j: WorkerJobView, r: WorkerReply) -> StepView {
    match r {
        WorkerReply::Workflows(ws) => match j {
            WorkerJobView::InsightWorkflows(n) => StepView::Call(
                WorkerJobView::InsightExecutions(ws@),
                WorkerCallView::ListExecutions(execution_limit(INSIGHT_PAGE_LIMIT), n),
            ),
            _ => StepView::Finish(ActionView::WorkflowsLoaded(summaries_view(ws@))),
        },
        WorkerReply::Workflow(d) => StepView::Finish(ActionView::WorkflowDetailLoaded(d)),
        WorkerReply::Executions(es) => StepView::Finish(ActionView::ExecutionsLoaded(es@)),
        WorkerReply::Execution(d) => StepView::Finish(ActionView::ExecutionDetailLoaded(d)),
        WorkerReply::Changed => match j {
            WorkerJobView::Retrying => StepView::Call(
                WorkerJobView::ExecutionsAfterRetry,
                WorkerCallView::ListExecutions(crate::client::status_only(None), LIST_PAGES),
            ),
            _ => StepView::Call(
                WorkerJobView::WorkflowsAfterChange,
                WorkerCallView::ListWorkflows(crate::client::active_only(None), LIST_PAGES),
            ),
        },
        WorkerReply::Failed(e) => StepView::Finish(ActionView::LoadError(failure_message(j, e@))),
    }
}

/// The first call of a request, and the stage it is then at.
pub fn start(request: WorkerRequest) -> (r: (WorkerJob, WorkerCall))
    ensures
        (r.0@, r.1@) == first_call(request@),
{
    match request {
        WorkerRequest::FetchWorkflows(f) => (WorkerJob::Workflows, WorkerCall::ListWorkflows(f, LIST_PAGES)),
        WorkerRequest::FetchWorkflowDetail(id) => (WorkerJob::WorkflowDetail, WorkerCall::GetWorkflow(id)),
        WorkerRequest::FetchExecutions(f) => (WorkerJob::Executions, WorkerCall::ListExecutions(f, LIST_PAGES)),
        WorkerRequest::FetchExecutionDetail(id, d) => (WorkerJob::ExecutionDetail, WorkerCall::GetExecution(id, d)),
        WorkerRequest::RunInsights(n) => {
            let mut f = WorkflowFilter::default();
            f.limit = Some(INSIGHT_PAGE_LIMIT);
            (WorkerJob::InsightWorkflows(n), WorkerCall::ListWorkflows(f, n))
        },
        WorkerRequest::ActivateWorkflow(id) => (WorkerJob::Activating, WorkerCall::ActivateWorkflow(id)),
        WorkerRequest::DeactivateWorkflow(id) => (WorkerJob::Deactivating, WorkerCall::DeactivateWorkflow(id)),
        WorkerRequest::RetryExecution(id) => (WorkerJob::Retrying, WorkerCall::RetryExecution(id, false)),
    }
}

fn prefixed(prefix: &str, e: &String) -> (r: String)
    ensures
        r@ == prefix@ + e@,
{
    let mut s = copy_str(prefix);
    push_str(&mut s, e.as_str());
    s
}

fn failure_text(job: &WorkerJob, e: &String) -> (r: String)
    ensures
        r@ == failure_message(job@, e@),
{
    match job {
        WorkerJob::Workflows => prefixed("Failed to fetch workflows: ", e),
        WorkerJob::WorkflowDetail => prefixed("Failed to fetch workflow: ", e),
        WorkerJob::Executions => prefixed("Failed to fetch executions: ", e),
        WorkerJob::ExecutionDetail => prefixed("Failed to fetch execution: ", e),
        WorkerJob::InsightWorkflows(_) | WorkerJob::InsightExecutions(_) => prefixed("Insights: ", e),
        WorkerJob::Activating => prefixed("Failed to activate: ", e),
        WorkerJob::Deactivating => prefixed("Failed to deactivate: ", e),
        WorkerJob::Retrying => prefixed("Failed to retry: ", e),
        WorkerJob::WorkflowsAfterChange | WorkerJob::ExecutionsAfterRetry => e.clone(),
    }
}

/// How long a scan that started at `start` and ended at `end` took, in
/// milliseconds (none when the clock went back).
pub fn scan_duration(start: i64, end: i64) -> (r: u64)
    ensures
        r == if end >= start {
            end - start
        } else {
            0
        },
{
    if end >= start {
        (end as i128 - start as i128) as u64
    } else {
        0
    }
}

/// The next step of a request once its pending call has answered: another
/// call, or the action that tells the dashboard the outcome. The last step
/// of an insights scan runs the scan, timed by the clock.
pub fn resume(job: WorkerJob, reply: WorkerReply) -> (r: WorkerStep)
    requires
        fits(job@, reply),
    ensures
        match (job, reply) {
            (WorkerJob::InsightExecutions(ws), WorkerReply::Executions(es)) => match r {
                WorkerStep::Finish(Action::InsightsLoaded(res)) => {
                    &&& findings_view(res.findings@) == by_severity(all_findings(ws@, es@, res.computed_at))
                    &&& res.workflows_scanned == ws@.len()
                    &&& res.executions_scanned == es@.len()
                },
                _ => false,
            },
            _ => r@ == next_step(job@, reply),
        },
{
    match reply {
        WorkerReply::Failed(e) => {
            let text = failure_text(&job, &e);
            WorkerStep::Finish(Action::LoadError(text))
        },
        WorkerReply::Workflows(ws) => match job {
            WorkerJob::InsightWorkflows(n) => {
                let mut f = ExecutionFilter::default();
                f.limit = Some(INSIGHT_PAGE_LIMIT);
                WorkerStep::Call(WorkerJob::InsightExecutions(ws), WorkerCall::ListExecutions(f, n))
            },
            _ => WorkerStep::Finish(Action::WorkflowsLoaded(ws)),
        },
        WorkerReply::Workflow(d) => WorkerStep::Finish(Action::WorkflowDetailLoaded(Box::new(d))),
        WorkerReply::Executions(es) => match job {
            WorkerJob::InsightExecutions(ws) => {
                let now = crate::clock::now_ms();
                let findings = compute_insights_at(ws.as_slice(), es.as_slice(), now);
                let end = crate::clock::now_ms();
                let scan_duration_ms = scan_duration(now, end);
                WorkerStep::Finish(
                    Action::InsightsLoaded(
                        Box::new(
                            InsightsResult {
                                findings,
                                workflows_scanned: ws.len(),
                                executions_scanned: es.len(),
                                scan_duration_ms,
                                computed_at: now,
                            },
                        ),
                    ),
                )
            },
            _ => WorkerStep::Finish(Action::ExecutionsLoaded(es)),
        },
        WorkerReply::Execution(d) => WorkerStep::Finish(Action::ExecutionDetailLoaded(Box::new(d))),
        WorkerReply::Changed => match job {
            WorkerJob::Retrying => WorkerStep::Call(
                WorkerJob::ExecutionsAfterRetry,
                WorkerCall::ListExecutions(ExecutionFilter::default(), LIST_PAGES),
            ),
            _ => WorkerStep::Call(
                WorkerJob::WorkflowsAfterChange,
                WorkerCall::ListWorkflows(WorkflowFilter::default(), LIST_PAGES),
            ),
        },
    }
}

} // verus!
