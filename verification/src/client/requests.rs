//! The requests to the n8n REST API: method, path, query parameters and
//! body for each call, and the message for a failed response. Sending them
//! is the caller's part.
use vstd::prelude::*;

use crate::client::{ExecutionFilter, ExecutionFilterView, WorkflowFilter, WorkflowFilterView};
use crate::domain::json::{Json, JsonView};
use crate::text::{copy_str, decimal, push_char, push_decimal, push_str};

verus! {

/// The HTTP method of a request.
#[derive(Debug, Clone, Copy, PartialEq, Eq, Structural)]
pub enum HttpMethod {
    Get,
    Post,
}

/// A request to the API, relative to its base URL.
#[derive(Debug)]
pub struct ApiRequest {
    pub method: HttpMethod,
    pub path: String,
    /// Query parameters, in order.
    pub query: Vec<(String, String)>,
    /// A JSON body.
    pub body: Option<Json>,
}

/// The abstract content of a request.
pub struct ApiRequestView {
    pub method: HttpMethod,
    pub path: Seq<char>,
    pub query: Seq<(Seq<char>, Seq<char>)>,
    pub body: Option<JsonView>,
}

/// The abstract content of query parameters.
pub open spec fn pairs_view(q: Seq<(String, String)>) -> Seq<(Seq<char>, Seq<char>)> {
    q.map_values(|p: (String, String)| (p.0@, p.1@))
}

impl View for ApiRequest {
    type V = ApiRequestView;

    open spec fn view(&self) -> ApiRequestView {
        ApiRequestView {
            method: self.method,
            path: self.path@,
            query: pairs_view(self.query@),
            body: match self.body {
                Some(b) => Some(b.deep()),
                None => None,
            },
        }
    }
}

/// One parameter when the value is set, none otherwise.
pub open spec fn param(key: Seq<char>, value: Option<Seq<char>>) -> Seq<(Seq<char>, Seq<char>)> {
    match value {
        Some(v) => seq![(key, v)],
        None => Seq::empty(),
    }
}

/// `true` or `false`.
pub open spec fn bool_text(b: bool) -> Seq<char> {
    if b {
        "true"@
    } else {
        "false"@
    }
}

/// The query of a workflow listing: activation state, tags, name,
/// project, page size and cursor, each when set.
pub open spec fn workflow_query(f: WorkflowFilterView) -> Seq<(Seq<char>, Seq<char>)> {
    param(
        "active"@,
        match f.active {
            Some(a) => Some(bool_text(a)),
            None => None,
        },
    ) + param("tags"@, f.tags) + param("name"@, f.name) + param("projectId"@, f.project_id) + param(
        "limit"@,
        match f.limit {
            Some(l) => Some(decimal(l as nat)),
            None => None,
        },
    ) + param("cursor"@, f.cursor)
}

/// The query of an execution listing: status, workflow, project, page
/// size, cursor, and whether run data is wanted, each when set.
pub open spec fn execution_query(f: ExecutionFilterView) -> Seq<(Seq<char>, Seq<char>)> {
    param("status"@, f.status) + param("workflowId"@, f.workflow_id) + param("projectId"@, f.project_id)
        + param(
        "limit"@,
        match f.limit {
            Some(l) => Some(decimal(l as nat)),
            None => None,
        },
    ) + param("cursor"@, f.cursor) + param(
        "includeData"@,
        if f.include_data {
            Some("true"@)
        } else {
            None
        },
    )
}

/// The query asking for run data, when wanted.
pub open spec fn data_query(include_data: bool) -> Seq<(Seq<char>, Seq<char>)> {
    param(
        "includeData"@,
        if include_data {
            Some("true"@)
        } else {
            None
        },
    )
}

fn add_param(q: &mut Vec<(String, String)>, key: &str, value: Option<String>)
    ensures
        pairs_view(final(q)@) == pairs_view(old(q)@) + param(
            key@,
            match value {
                Some(v) => Some(v@),
                None => None,
            },
        ),
{
    let ghost before = q@;
    match value {
        Some(v) => {
            q.push((copy_str(key), v));
            proof {
                assert(pairs_view(q@) =~= pairs_view(before) + seq![(key@, v@)]);
            }
        },
        None => {
            proof {
                assert(pairs_view(q@) =~= pairs_view(before) + Seq::<(Seq<char>, Seq<char>)>::empty());
            }
        },
    }
}

fn number_text(n: u32) -> (r: String)
    ensures
        r@ == decimal(n as nat),
{
    let mut s = String::new();
    push_decimal(&mut s, n as u64);
    proof {
        assert(Seq::<char>::empty() + decimal(n as nat) =~= decimal(n as nat));
    }
    s
}

fn copy_opt(o: &Option<String>) -> (r: Option<String>)
    ensures
        match r {
            Some(v) => o matches Some(w) && v@ == w@,
            None => o is None,
        },
{
    match o {
        Some(s) => Some(s.clone()),
        None => None,
    }
}

fn path_with(prefix: &str, id: &str, suffix: &str) -> (r: String)
    ensures
        r@ == prefix@ + id@ + suffix@,
{
    let mut s = copy_str(prefix);
    push_str(&mut s, id);
    push_str(&mut s, suffix);
    s
}

fn true_text() -> (r: Option<String>)
    ensures
        r matches Some(s) && s@ == "true"@,
{
    Some(copy_str("true"))
}

/// The request listing workflows.
pub fn list_workflows_request(filter: &WorkflowFilter) -> (r: ApiRequest)
    ensures
        r@.method == HttpMethod::Get,
        r@.path == "/workflows"@,
        r@.query == workflow_query(filter@),
        r@.body is None,
{
    let mut q: Vec<(String, String)> = Vec::new();
    proof {
        assert(pairs_view(q@) =~= Seq::<(Seq<char>, Seq<char>)>::empty());
    }
    let active: Option<String> = match filter.active {
        Some(a) => Some(
            if a {
                copy_str("true")
            } else {
                copy_str("false")
            },
        ),
        None => None,
    };
    add_param(&mut q, "active", active);
    add_param(&mut q, "tags", copy_opt(&filter.tags));
    add_param(&mut q, "name", copy_opt(&filter.name));
    add_param(&mut q, "projectId", copy_opt(&filter.project_id));
    let limit: Option<String> = match filter.limit {
        Some(l) => Some(number_text(l)),
        None => None,
    };
    add_param(&mut q, "limit", limit);
    add_param(&mut q, "cursor", copy_opt(&filter.cursor));
    proof {
        assert(pairs_view(q@) =~= workflow_query(filter@));
    }
    ApiRequest { method: HttpMethod::Get, path: copy_str("/workflows"), query: q, body: None }
}

/// The request listing executions.
pub fn list_executions_request(filter: &ExecutionFilter) -> (r: ApiRequest)
    ensures
        r@.method == HttpMethod::Get,
        r@.path == "/executions"@,
        r@.query == execution_query(filter@),
        r@.body is None,
{
    let mut q: Vec<(String, String)> = Vec::new();
    proof {
        assert(pairs_view(q@) =~= Seq::<(Seq<char>, Seq<char>)>::empty());
    }
    add_param(&mut q, "status", copy_opt(&filter.status));
    add_param(&mut q, "workflowId", copy_opt(&filter.workflow_id));
    add_param(&mut q, "projectId", copy_opt(&filter.project_id));
    let limit: Option<String> = match filter.limit {
        Some(l) => Some(number_text(l)),
        None => None,
    };
    add_param(&mut q, "limit", limit);
    add_param(&mut q, "cursor", copy_opt(&filter.cursor));
    let data = if filter.include_data {
        true_text()
    } else {
        None
    };
    add_param(&mut q, "includeData", data);
    proof {
        assert(pairs_view(q@) =~= execution_query(filter@));
    }
    ApiRequest { method: HttpMethod::Get, path: copy_str("/executions"), query: q, body: None }
}

/// The request for one workflow.
pub fn get_workflow_request(id: &str) -> (r: ApiRequest)
    ensures
        r@.method == HttpMethod::Get,
        r@.path == "/workflows/"@ + id@,
        r@.query.len() == 0,
        r@.body is None,
{
    let q: Vec<(String, String)> = Vec::new();
    let path = path_with("/workflows/", id, "");
    proof {
        assert(pairs_view(q@) =~= Seq::<(Seq<char>, Seq<char>)>::empty());
        assert(""@.len() == 0) by {
            reveal_strlit("");
        }
        assert("/workflows/"@ + id@ + ""@ =~= "/workflows/"@ + id@);
    }
    ApiRequest { method: HttpMethod::Get, path, query: q, body: None }
}

/// The request activating (`activate`) or deactivating a workflow.
pub fn set_active_request(id: &str, activate: bool) -> (r: ApiRequest)
    ensures
        r@.method == HttpMethod::Post,
        r@.path == "/workflows/"@ + id@ + if activate {
            "/activate"@
        } else {
            "/deactivate"@
        },
        r@.query.len() == 0,
        r@.body is None,
{
    let q: Vec<(String, String)> = Vec::new();
    let path = if activate {
        path_with("/workflows/", id, "/activate")
    } else {
        path_with("/workflows/", id, "/deactivate")
    };
    proof {
        assert(pairs_view(q@) =~= Seq::<(Seq<char>, Seq<char>)>::empty());
    }
    ApiRequest { method: HttpMethod::Post, path, query: q, body: None }
}

/// The request for one execution, with its run data when asked.
pub fn get_execution_request(id: &str, include_data: bool) -> (r: ApiRequest)
    ensures
        r@.method == HttpMethod::Get,
        r@.path == "/executions/"@ + id@,
        r@.query == data_query(include_data),
        r@.body is None,
{
    let mut q: Vec<(String, String)> = Vec::new();
    proof {
        assert(pairs_view(q@) =~= Seq::<(Seq<char>, Seq<char>)>::empty());
    }
    let data = if include_data {
        true_text()
    } else {
        None
    };
    add_param(&mut q, "includeData", data);
    proof {
        assert(pairs_view(q@) =~= data_query(include_data));
    }
    let path = path_with("/executions/", id, "");
    proof {
        assert(""@.len() == 0) by {
            reveal_strlit("");
        }
        assert("/executions/"@ + id@ + ""@ =~= "/executions/"@ + id@);
    }
    ApiRequest { method: HttpMethod::Get, path, query: q, body: None }
}

/// The request retrying an execution; the body says whether to load the
/// latest version of the workflow.
pub fn retry_execution_request(id: &str, load_workflow: bool) -> (r: ApiRequest)
    ensures
        r@.method == HttpMethod::Post,
        r@.path == "/executions/"@ + id@ + "/retry"@,
        r@.query.len() == 0,
        r@.body == Some(JsonView::Object(seq![("loadWorkflow"@, JsonView::Bool(load_workflow))])),
{
    let q: Vec<(String, String)> = Vec::new();
    let mut entries: Vec<(String, Json)> = Vec::new();
    entries.push((copy_str("loadWorkflow"), Json::Bool(load_workflow)));
    let body = Json::Object(entries);
    proof {
        assert(pairs_view(q@) =~= Seq::<(Seq<char>, Seq<char>)>::empty());
        assert(body.deep() == JsonView::Object(seq![("loadWorkflow"@, JsonView::Bool(load_workflow))])) by {
            assert(entries@[0].1.deep() == JsonView::Bool(load_workflow));
            if let JsonView::Object(es) = body.deep() {
                assert(es =~= seq![("loadWorkflow"@, JsonView::Bool(load_workflow))]);
            }
        }
    }
    ApiRequest {
        method: HttpMethod::Post,
        path: path_with("/executions/", id, "/retry"),
        query: q,
        body: Some(body),
    }
}

/// The full URL of a request path.
pub fn request_url(base_url: &str, path: &str) -> (r: String)
    ensures
        r@ == base_url@ + path@,
{
    let mut s = copy_str(base_url);
    push_str(&mut s, path);
    s
}

/// Characters of a response body quoted in an error message.
pub const ERROR_BODY_CHARS: usize = 500;

/// The message for a response that failed with `status`: the status, the
/// URL, and the first 500 characters of the body.
pub fn api_error_message(status: u16, url: &str, body: &str) -> (r: String)
    ensures
        r@ == "n8n API error "@ + decimal(status as nat) + " on "@ + url@ + ": "@ + body@.take(
            if body@.len() < ERROR_BODY_CHARS {
                body@.len() as int
            } else {
                ERROR_BODY_CHARS as int
            },
        ),
{
    let mut s = copy_str("n8n API error ");
    push_decimal(&mut s, status as u64);
    push_str(&mut s, " on ");
    push_str(&mut s, url);
    push_str(&mut s, ": ");
    let ghost start = s@;
    let mut count: usize = 0;
    for c in it: body.chars()
        invariant
            it.seq() == body@,
            count == (if it.index() < ERROR_BODY_CHARS {
                it.index() as int
            } else {
                ERROR_BODY_CHARS as int
            }),
            s@ == start + body@.take(count as int),
    {
        if count < ERROR_BODY_CHARS {
            proof {
                assert(body@.take(count + 1) == body@.take(count as int).push(c));
            }
            push_char(&mut s, c);
            count = count + 1;
        }
    }
    proof {
        assert(body@.take(body@.len() as int) == body@);
    }
    s
}

} // verus!
