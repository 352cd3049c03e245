//! Requests to the n8n API: filters and page-by-page listing.
use vstd::prelude::*;

pub mod mock;
pub mod pager;
pub mod requests;

verus! {

/// Filter parameters for listing executions.
#[derive(Debug)]
pub struct ExecutionFilter {
    pub status: Option<String>,
    pub workflow_id: Option<String>,
    pub project_id: Option<String>,
    pub limit: Option<u32>,
    pub cursor: Option<String>,
    pub include_data: bool,
}

impl Default for ExecutionFilter {
    fn default() -> (r: Self)
        ensures
            r == (ExecutionFilter {
                status: None,
                workflow_id: None,
                project_id: None,
                limit: None,
                cursor: None,
                include_data: false,
            }),
    {
        ExecutionFilter {
            status: None,
            workflow_id: None,
            project_id: None,
            limit: None,
            cursor: None,
            include_data: false,
        }
    }
}

/// Filter parameters for listing workflows.
#[derive(Debug)]
pub struct WorkflowFilter {
    pub active: Option<bool>,
    pub tags: Option<String>,
    pub name: Option<String>,
    pub project_id: Option<String>,
    pub limit: Option<u32>,
    pub cursor: Option<String>,
}

impl Default for WorkflowFilter {
    fn default() -> (r: Self)
        ensures
            r == (WorkflowFilter {
                active: None,
                tags: None,
                name: None,
                project_id: None,
                limit: None,
                cursor: None,
            }),
    {
        WorkflowFilter { active: None, tags: None, name: None, project_id: None, limit: None, cursor: None }
    }
}


/// The characters of an optional string.
pub open spec fn opt_chars(o: Option<String>) -> Option<Seq<char>> {
    match o {
        Some(s) => Some(s@),
        None => None,
    }
}

/// The abstract content of an execution filter.
pub struct ExecutionFilterView {
    pub status: Option<Seq<char>>,
    pub workflow_id: Option<Seq<char>>,
    pub project_id: Option<Seq<char>>,
    pub limit: Option<u32>,
    pub cursor: Option<Seq<char>>,
    pub include_data: bool,
}

impl View for ExecutionFilter {
    type V = ExecutionFilterView;

    open spec fn view(&self) -> ExecutionFilterView {
        ExecutionFilterView {
            status: opt_chars(self.status),
            workflow_id: opt_chars(self.workflow_id),
            project_id: opt_chars(self.project_id),
            limit: self.limit,
            cursor: opt_chars(self.cursor),
            include_data: self.include_data,
        }
    }
}

/// The abstract content of a workflow filter.
pub struct WorkflowFilterView {
    pub active: Option<bool>,
    pub tags: Option<Seq<char>>,
    pub name: Option<Seq<char>>,
    pub project_id: Option<Seq<char>>,
    pub limit: Option<u32>,
    pub cursor: Option<Seq<char>>,
}

impl View for WorkflowFilter {
    type V = WorkflowFilterView;

    open spec fn view(&self) -> WorkflowFilterView {
        WorkflowFilterView {
            active: self.active,
            tags: opt_chars(self.tags),
            name: opt_chars(self.name),
            project_id: opt_chars(self.project_id),
            limit: self.limit,
            cursor: opt_chars(self.cursor),
        }
    }
}

/// The execution filter that asks only for a status.
pub open spec fn status_only(status: Option<Seq<char>>) -> ExecutionFilterView {
    ExecutionFilterView {
        status,
        workflow_id: None,
        project_id: None,
        limit: None,
        cursor: None,
        include_data: false,
    }
}

/// The workflow filter that asks only for an activation state.
pub open spec fn active_only(active: Option<bool>) -> WorkflowFilterView {
    WorkflowFilterView { active, tags: None, name: None, project_id: None, limit: None, cursor: None }
}

} // verus!
