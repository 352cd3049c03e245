//! Canned data for running the dashboard without an n8n instance: five
//! workflows and seven executions dated relative to the current time, one
//! workflow graph and one execution's per-node run data.
use vstd::prelude::*;

use crate::client::{ExecutionFilter, ExecutionFilterView, WorkflowFilter, WorkflowFilterView};
use crate::domain::execution::{
    run_entries,
    status_key, ExecutionDetail, ExecutionListResponse, ExecutionStatus, ExecutionSummary,
    MIN_INSTANT_MS,
};
use crate::domain::json::{entries_get, str_eq, Json, JsonNumber};
use crate::domain::workflow::{
    summaries_view, Tag, WorkflowDetail, WorkflowListResponse, WorkflowNode, WorkflowSummary,
};
use crate::figures::{branches_targets, graph_edges, names_in, output_targets, connections_of};
use crate::text::{contains_seq, contains_str, copy_str, lowercase, push_str, to_lowercase};

verus! {

/// Milliseconds in a minute, an hour and a day.
pub const MINUTE_MS: i64 = 60_000;

pub const HOUR_MS: i64 = 3_600_000;

pub const DAY_MS: i64 = 86_400_000;

/// Mock client for development and testing without a live n8n instance.
pub struct MockN8nClient;

// ─── The canned rows ────────────────────────────────────────────────────────
/// `w` is the canned workflow with these fields as of `now`: its one tag
/// (if any) was created and updated at `now`, and it was created and
/// updated the given number of milliseconds before `now`.
pub open spec fn is_mock_workflow(
    w: WorkflowSummary,
    id: Seq<char>,
    name: Seq<char>,
    active: bool,
    tag: Option<(Seq<char>, Seq<char>)>,
    created_ago: int,
    updated_ago: int,
    version: Seq<char>,
    now: i64,
) -> bool {
    &&& w.id@ == id
    &&& w.name@ == name
    &&& w.active == active
    &&& match tag {
        Some((tid, tname)) => {
            &&& w.tags@.len() == 1
            &&& w.tags@[0].id@ == tid
            &&& w.tags@[0].name@ == tname
            &&& w.tags@[0].created_at == Some(now)
            &&& w.tags@[0].updated_at == Some(now)
        },
        None => w.tags@.len() == 0,
    }
    &&& w.created_at == Some((now - created_ago) as i64)
    &&& w.updated_at == Some((now - updated_ago) as i64)
    &&& w.version_id matches Some(v) && v@ == version
}

/// The five canned workflows as of `now`.
pub open spec fn mock_workflows_ok(ws: Seq<WorkflowSummary>, now: i64) -> bool {
    &&& ws.len() == 5
    &&& is_mock_workflow(ws[0], "1"@, "Customer Onboarding"@, true, Some(("1"@, "production"@)), 30 * DAY_MS, 2 * HOUR_MS, "v1"@, now)
    &&& is_mock_workflow(ws[1], "2"@, "Slack Notification Bot"@, true, Some(("2"@, "integrations"@)), 14 * DAY_MS, 6 * HOUR_MS, "v3"@, now)
    &&& is_mock_workflow(ws[2], "3"@, "Data Sync Pipeline"@, false, None, 60 * DAY_MS, 45 * DAY_MS, "v2"@, now)
    &&& is_mock_workflow(ws[3], "4"@, "Invoice Generator"@, true, Some(("1"@, "production"@)), 7 * DAY_MS, 30 * MINUTE_MS, "v5"@, now)
    &&& is_mock_workflow(ws[4], "5"@, "Weekly Report Emailer"@, true, Some(("3"@, "scheduled"@)), 90 * DAY_MS, DAY_MS as int, "v1"@, now)
}

/// The characters of an optional string.
pub open spec fn opt_seq(o: Option<String>) -> Option<Seq<char>> {
    match o {
        Some(s) => Some(s@),
        None => None,
    }
}

/// `e` is the canned execution with these fields as of `now`; instants are
/// given as milliseconds before `now`.
pub open spec fn is_mock_execution(
    e: ExecutionSummary,
    id: Seq<char>,
    finished: bool,
    mode: Seq<char>,
    status: ExecutionStatus,
    started_ago: int,
    stopped_ago: Option<int>,
    workflow: (Seq<char>, Seq<char>),
    retry_of: Option<Seq<char>>,
    retry_success_id: Option<Seq<char>>,
    now: i64,
) -> bool {
    &&& e.id@ == id
    &&& e.finished == finished
    &&& e.mode@ == mode
    &&& e.status == status
    &&& e.started_at == Some((now - started_ago) as i64)
    &&& e.stopped_at == match stopped_ago {
        Some(a) => Some((now - a) as i64),
        None => None,
    }
    &&& opt_seq(e.workflow_id) == Some(workflow.0)
    &&& opt_seq(e.workflow_name) == Some(workflow.1)
    &&& opt_seq(e.retry_of) == retry_of
    &&& opt_seq(e.retry_success_id) == retry_success_id
}

/// The seven canned executions as of `now`.
pub open spec fn mock_executions_ok(es: Seq<ExecutionSummary>, now: i64) -> bool {
    &&& es.len() == 7
    &&& is_mock_execution(es[0], "1001"@, true, "production"@, ExecutionStatus::Success, 5 * MINUTE_MS, Some(4 * MINUTE_MS), ("1"@, "Customer Onboarding"@), None, None, now)
    &&& is_mock_execution(es[1], "1002"@, true, "production"@, ExecutionStatus::Error, 10 * MINUTE_MS, Some(9 * MINUTE_MS), ("2"@, "Slack Notification Bot"@), None, None, now)
    &&& is_mock_execution(es[2], "1003"@, false, "production"@, ExecutionStatus::Running, 30_000, None, ("4"@, "Invoice Generator"@), None, None, now)
    &&& is_mock_execution(es[3], "1004"@, true, "manual"@, ExecutionStatus::Success, HOUR_MS as int, Some(59 * MINUTE_MS), ("1"@, "Customer Onboarding"@), None, None, now)
    &&& is_mock_execution(es[4], "1005"@, false, "production"@, ExecutionStatus::Waiting, 2 * HOUR_MS, None, ("5"@, "Weekly Report Emailer"@), None, None, now)
    &&& is_mock_execution(es[5], "1006"@, true, "production"@, ExecutionStatus::Error, 3 * HOUR_MS, Some(2 * HOUR_MS + 58 * MINUTE_MS), ("2"@, "Slack Notification Bot"@), None, Some("1007"@), now)
    &&& is_mock_execution(es[6], "1007"@, true, "production"@, ExecutionStatus::Success, 2 * HOUR_MS + 55 * MINUTE_MS, Some(2 * HOUR_MS + 54 * MINUTE_MS), ("2"@, "Slack Notification Bot"@), Some("1006"@), None, now)
}

/// A workflow the listing keeps: of the asked activation state, and with
/// the asked name text in its name, ignoring case.
pub open spec fn workflow_kept(f: WorkflowFilterView, w: WorkflowSummary) -> bool {
    &&& (f.active matches Some(a) ==> w.active == a)
    &&& (f.name matches Some(n) ==> contains_seq(lowercase(w.name@), lowercase(n)))
}

/// An execution the listing keeps: of the asked status and workflow.
pub open spec fn execution_kept(f: ExecutionFilterView, e: ExecutionSummary) -> bool {
    &&& (f.status matches Some(s) ==> status_key(e.status) == s)
    &&& (f.workflow_id matches Some(id) ==> opt_seq(e.workflow_id) == Some(id))
}

/// The ids of the canned workflows.
pub open spec fn mock_workflow_ids() -> Seq<Seq<char>> {
    seq!["1"@, "2"@, "3"@, "4"@, "5"@]
}

/// The ids of the canned executions.
pub open spec fn mock_execution_ids() -> Seq<Seq<char>> {
    seq!["1001"@, "1002"@, "1003"@, "1004"@, "1005"@, "1006"@, "1007"@]
}

/// A node placed at `(x, y)`, both written with a fraction.
pub open spec fn placed_at(n: WorkflowNode, x: Seq<char>, y: Seq<char>) -> bool {
    &&& n.position@.len() == 2
    &&& n.position@[0] matches JsonNumber::Float(a) && a@ == x
    &&& n.position@[1] matches JsonNumber::Float(b) && b@ == y
}

/// An object with no entries.
pub open spec fn is_empty_object(j: Json) -> bool {
    j matches Json::Object(e) && e@.len() == 0
}

/// An object of one entry, `key`, holding the text `t`.
pub open spec fn one_text_entry(j: Json, key: Seq<char>, t: Seq<char>) -> bool {
    j matches Json::Object(e) && e@.len() == 1 && e@[0].0@ == key && e@[0].1.text() == Some(t)
}

/// A credential reference `{key: {"id": id, "name": name}}`.
pub open spec fn credential_is(c: Option<Json>, key: Seq<char>, id: Seq<char>, name: Seq<char>) -> bool {
    c matches Some(j) && (j matches Json::Object(e) && e@.len() == 1 && e@[0].0@ == key && (e@[0].1 matches Json::Object(
        f,
    ) && f@.len() == 2 && f@[0].0@ == "id"@ && f@[0].1.text() == Some(id) && f@[1].0@ == "name"@ && f@[1].1.text()
        == Some(name)))
}

/// The nodes of the canned workflow graph: names, types, positions,
/// parameters and credentials; none disabled, all of type version 1.
pub open spec fn mock_nodes_ok(nodes: Seq<WorkflowNode>) -> bool {
    &&& nodes.len() == 5
    &&& nodes[0].name@ == "Webhook"@ && nodes[0].node_type@ == "n8n-nodes-base.webhook"@
    &&& nodes[1].name@ == "Set Fields"@ && nodes[1].node_type@ == "n8n-nodes-base.set"@
    &&& nodes[2].name@ == "IF"@ && nodes[2].node_type@ == "n8n-nodes-base.if"@
    &&& nodes[3].name@ == "Send Email"@ && nodes[3].node_type@ == "n8n-nodes-base.emailSend"@
    &&& nodes[4].name@ == "Slack"@ && nodes[4].node_type@ == "n8n-nodes-base.slack"@
    &&& placed_at(nodes[0], "250.0"@, "300.0"@) && placed_at(nodes[1], "450.0"@, "300.0"@)
    &&& placed_at(nodes[2], "650.0"@, "300.0"@) && placed_at(nodes[3], "850.0"@, "200.0"@)
    &&& placed_at(nodes[4], "850.0"@, "400.0"@)
    &&& one_text_entry(nodes[0].parameters, "path"@, "/onboard"@)
    &&& is_empty_object(nodes[1].parameters) && is_empty_object(nodes[2].parameters)
    &&& is_empty_object(nodes[3].parameters)
    &&& one_text_entry(nodes[4].parameters, "channel"@, "#onboarding"@)
    &&& nodes[0].credentials is None && nodes[1].credentials is None && nodes[2].credentials is None
    &&& credential_is(nodes[3].credentials, "smtp"@, "1"@, "SMTP"@)
    &&& credential_is(nodes[4].credentials, "slackApi"@, "2"@, "Slack"@)
    &&& forall|i: int| 0 <= i < 5 ==> !(#[trigger] nodes[i]).disabled
    &&& forall|i: int| 0 <= i < 5 ==> (#[trigger] nodes[i]).type_version == Some(Json::Number(JsonNumber::PosInt(1)))
}

// ─── Building blocks ────────────────────────────────────────────────────────
fn tag(id: &str, name: &str, now: i64) -> (r: Tag)
    ensures
        r.id@ == id@,
        r.name@ == name@,
        r.created_at == Some(now),
        r.updated_at == Some(now),
{
    Tag { id: copy_str(id), name: copy_str(name), created_at: Some(now), updated_at: Some(now) }
}

fn workflow(
    id: &str,
    name: &str,
    active: bool,
    tag: Option<Tag>,
    created_at: i64,
    updated_at: i64,
    version: &str,
) -> (r: WorkflowSummary)
    ensures
        r.id@ == id@,
        r.name@ == name@,
        r.active == active,
        match tag {
            Some(t) => r.tags@ == seq![t],
            None => r.tags@.len() == 0,
        },
        r.created_at == Some(created_at),
        r.updated_at == Some(updated_at),
        r.version_id matches Some(v) && v@ == version@,
{
    let mut tags: Vec<Tag> = Vec::new();
    match tag {
        Some(t) => {
            tags.push(t);
            proof {
                assert(tags@ =~= seq![t]);
            }
        },
        None => {},
    }
    WorkflowSummary {
        id: copy_str(id),
        name: copy_str(name),
        active,
        tags,
        created_at: Some(created_at),
        updated_at: Some(updated_at),
        version_id: Some(copy_str(version)),
    }
}

fn some_str(s: Option<&str>) -> (r: Option<String>)
    ensures
        opt_seq(r) == match s {
            Some(x) => Some(x@),
            None => None::<Seq<char>>,
        },
{
    match s {
        Some(x) => Some(copy_str(x)),
        None => None,
    }
}

fn execution(
    id: &str,
    finished: bool,
    mode: &str,
    status: ExecutionStatus,
    started_at: i64,
    stopped_at: Option<i64>,
    workflow: (&str, &str),
    retry_of: Option<&str>,
    retry_success_id: Option<&str>,
) -> (r: ExecutionSummary)
    ensures
        r.id@ == id@,
        r.finished == finished,
        r.mode@ == mode@,
        r.status == status,
        r.started_at == Some(started_at),
        r.stopped_at == stopped_at,
        opt_seq(r.workflow_id) == Some(workflow.0@),
        opt_seq(r.workflow_name) == Some(workflow.1@),
        opt_seq(r.retry_of) == match retry_of {
            Some(x) => Some(x@),
            None => None::<Seq<char>>,
        },
        opt_seq(r.retry_success_id) == match retry_success_id {
            Some(x) => Some(x@),
            None => None::<Seq<char>>,
        },
{
    ExecutionSummary {
        id: copy_str(id),
        finished,
        mode: copy_str(mode),
        status,
        started_at: Some(started_at),
        stopped_at,
        workflow_id: Some(copy_str(workflow.0)),
        workflow_name: Some(copy_str(workflow.1)),
        retry_of: some_str(retry_of),
        retry_success_id: some_str(retry_success_id),
    }
}

fn text(s: &str) -> (r: Json)
    ensures
        r is Str,
        r.text() == Some(s@),
{
    Json::Str(copy_str(s))
}

fn integer(n: i64) -> (r: Json)
    ensures
        r == Json::Number(
            if n >= 0 {
                JsonNumber::PosInt(n as u64)
            } else {
                JsonNumber::NegInt(n)
            },
        ),
        r.int_value() == Some(n),
{
    if n >= 0 {
        Json::Number(JsonNumber::PosInt(n as u64))
    } else {
        Json::Number(JsonNumber::NegInt(n))
    }
}

fn object1(k: &str, v: Json) -> (r: Json)
    ensures
        r matches Json::Object(e) && e@.len() == 1 && e@[0].0@ == k@ && e@[0].1 == v,
{
    let mut e: Vec<(String, Json)> = Vec::new();
    e.push((copy_str(k), v));
    Json::Object(e)
}

fn object2(k1: &str, v1: Json, k2: &str, v2: Json) -> (r: Json)
    ensures
        r matches Json::Object(e) && e@.len() == 2 && e@[0].0@ == k1@ && e@[0].1 == v1 && e@[1].0@ == k2@
            && e@[1].1 == v2,
{
    let mut e: Vec<(String, Json)> = Vec::new();
    e.push((copy_str(k1), v1));
    e.push((copy_str(k2), v2));
    Json::Object(e)
}

fn array1(v: Json) -> (r: Json)
    ensures
        r matches Json::Array(a) && a@ == seq![v],
{
    let mut a: Vec<Json> = Vec::new();
    a.push(v);
    Json::Array(a)
}

/// `{"index": 0, "node": name, "type": "main"}`
fn link_to(name: &str) -> (r: Json)
    ensures
        r.field("node"@) matches Some(n) && n.text() == Some(name@),
{
    let mut e: Vec<(String, Json)> = Vec::new();
    e.push((copy_str("index"), integer(0)));
    let t = text(name);
    e.push((copy_str("node"), t));
    e.push((copy_str("type"), text("main")));
    proof {
        reveal_strlit("index");
        reveal_strlit("node");
        assert(e@[0].0@ == "index"@);
        assert("index"@.len() != "node"@.len());
        assert(e@[0].0@ != "node"@);
        assert(e@.drop_first()[0] == e@[1]);
        assert(e@[1].0@ == "node"@ && e@[1].1 == t);
        assert(entries_get(e@.drop_first(), "node"@) == Some(t));
        assert(entries_get(e@, "node"@) == Some(t));
    }
    Json::Object(e)
}

/// A node of the canned graph at `(x, y)`, written as the API writes
/// floating-point numbers.
fn node(name: &str, node_type: &str, x: &str, y: &str, parameters: Json, credentials: Option<Json>) -> (r: WorkflowNode)
    ensures
        r.name@ == name@,
        r.node_type@ == node_type@,
        placed_at(r, x@, y@),
        r.parameters == parameters,
        r.credentials == credentials,
        !r.disabled,
        r.type_version == Some(Json::Number(JsonNumber::PosInt(1))),
{
    let mut position: Vec<JsonNumber> = Vec::new();
    position.push(JsonNumber::Float(copy_str(x)));
    position.push(JsonNumber::Float(copy_str(y)));
    WorkflowNode {
        name: copy_str(name),
        node_type: copy_str(node_type),
        position,
        parameters,
        credentials,
        disabled: false,
        type_version: Some(integer(1)),
    }
}

/// `{"id": id, "name": name}` under `key`.
fn credential(key: &str, id: &str, name: &str) -> (r: Json)
    ensures
        r matches Json::Object(e) && e@.len() == 1 && e@[0].0@ == key@ && (e@[0].1 matches Json::Object(
            f,
        ) && f@.len() == 2 && f@[0].0@ == "id"@ && f@[0].1.text() == Some(id@) && f@[1].0@ == "name"@
            && f@[1].1.text() == Some(name@)),
{
    object1(key, object2("id", text(id), "name", text(name)))
}

fn empty_object() -> (r: Json)
    ensures
        r matches Json::Object(e) && e@.len() == 0,
{
    Json::Object(Vec::new())
}

fn mock_nodes() -> (r: Vec<WorkflowNode>)
    ensures
        mock_nodes_ok(r@),
{
    let mut nodes: Vec<WorkflowNode> = Vec::new();
    nodes.push(node("Webhook", "n8n-nodes-base.webhook", "250.0", "300.0", object1("path", text("/onboard")), None));
    nodes.push(node("Set Fields", "n8n-nodes-base.set", "450.0", "300.0", empty_object(), None));
    nodes.push(node("IF", "n8n-nodes-base.if", "650.0", "300.0", empty_object(), None));
    nodes.push(node("Send Email", "n8n-nodes-base.emailSend", "850.0", "200.0", empty_object(), Some(credential("smtp", "1", "SMTP"))));
    nodes.push(node("Slack", "n8n-nodes-base.slack", "850.0", "400.0", object1("channel", text("#onboarding")), Some(credential("slackApi", "2", "Slack"))));
    nodes
}

/// The edges of the canned graph, in the order of its connections object.
pub open spec fn mock_graph() -> Seq<(Seq<char>, Seq<Seq<char>>)> {
    seq![
        ("IF"@, seq!["Send Email"@, "Slack"@]),
        ("Set Fields"@, seq!["IF"@]),
        ("Webhook"@, seq!["Set Fields"@]),
    ]
}

proof fn lemma_one_link(l: Json, t: Seq<char>)
    requires
        l.field("node"@) matches Some(n) && n.text() == Some(t),
    ensures
        names_in(seq![l]) == seq![t],
{
    assert(seq![l].drop_last() =~= Seq::<Json>::empty());
    assert(seq![l].last() == l);
    assert(names_in(Seq::<Json>::empty()) == Seq::<Seq<char>>::empty());
    assert(Seq::<Seq<char>>::empty() + seq![t] =~= seq![t]);
}

proof fn lemma_one_branch(b: Json, t: Seq<char>)
    requires
        b matches Json::Array(a) && names_in(a@) == seq![t],
    ensures
        branches_targets(seq![b]) == seq![t],
{
    assert(seq![b].drop_last() =~= Seq::<Json>::empty());
    assert(seq![b].last() == b);
    assert(branches_targets(Seq::<Json>::empty()) == Seq::<Seq<char>>::empty());
    assert(Seq::<Seq<char>>::empty() + seq![t] =~= seq![t]);
}

proof fn lemma_two_branches(b1: Json, t1: Seq<char>, b2: Json, t2: Seq<char>)
    requires
        b1 matches Json::Array(a) && names_in(a@) == seq![t1],
        b2 matches Json::Array(a) && names_in(a@) == seq![t2],
    ensures
        branches_targets(seq![b1, b2]) == seq![t1, t2],
{
    lemma_one_branch(b1, t1);
    assert(seq![b1, b2].drop_last() =~= seq![b1]);
    assert(seq![b1, b2].last() == b2);
    assert(seq![t1] + seq![t2] =~= seq![t1, t2]);
}

proof fn lemma_main_only(o: Json, branches: Json)
    requires
        o matches Json::Object(e) && e@.len() == 1 && e@[0].0@ == "main"@ && e@[0].1 == branches,
    ensures
        o.field("main"@) == Some(branches),
{
}

/// The connections of the canned graph: Webhook → Set Fields → IF, and IF
/// → Send Email on its first output and → Slack on its second.
fn mock_connections() -> (r: Json)
    ensures
        graph_edges(r) == mock_graph(),
{
    let l_email = link_to("Send Email");
    let l_slack = link_to("Slack");
    let l_if = link_to("IF");
    let l_set = link_to("Set Fields");
    let b_email = array1(l_email);
    let b_slack = array1(l_slack);
    let b_if = array1(l_if);
    let b_set = array1(l_set);
    let mut if_outputs: Vec<Json> = Vec::new();
    if_outputs.push(b_email);
    if_outputs.push(b_slack);
    let if_main = Json::Array(if_outputs);
    let set_main = array1(b_if);
    let hook_main = array1(b_set);
    proof {
        lemma_one_link(l_email, "Send Email"@);
        lemma_one_link(l_slack, "Slack"@);
        lemma_one_link(l_if, "IF"@);
        lemma_one_link(l_set, "Set Fields"@);
        lemma_two_branches(b_email, "Send Email"@, b_slack, "Slack"@);
        assert(if_outputs@ == seq![b_email, b_slack]);
        lemma_one_branch(b_if, "IF"@);
        lemma_one_branch(b_set, "Set Fields"@);
    }
    let if_out = object1("main", if_main);
    let set_out = object1("main", set_main);
    let hook_out = object1("main", hook_main);
    proof {
        lemma_main_only(if_out, if_main);
        lemma_main_only(set_out, set_main);
        lemma_main_only(hook_out, hook_main);
        assert(output_targets(if_out) == seq!["Send Email"@, "Slack"@]);
        assert(output_targets(set_out) == seq!["IF"@]);
        assert(output_targets(hook_out) == seq!["Set Fields"@]);
    }
    let mut e: Vec<(String, Json)> = Vec::new();
    e.push((copy_str("IF"), if_out));
    e.push((copy_str("Set Fields"), set_out));
    e.push((copy_str("Webhook"), hook_out));
    proof {
        let es = e@;
        assert(es.drop_last().drop_last().drop_last() =~= Seq::<(String, Json)>::empty());
        let e1 = es.drop_last().drop_last();
        let e2 = es.drop_last();
        assert(e1.drop_last() =~= Seq::<(String, Json)>::empty());
        assert(connections_of(Seq::<(String, Json)>::empty()) == Seq::<(Seq<char>, Seq<Seq<char>>)>::empty());
        assert(e1.last() == es[0]);
        assert(es[0].0@ == "IF"@ && es[0].1 == if_out);
        assert(connections_of(e1) =~= seq![("IF"@, seq!["Send Email"@, "Slack"@])]);
        assert(e2.drop_last() == e1);
        assert(e2.last() == es[1]);
        assert(es[1].0@ == "Set Fields"@ && es[1].1 == set_out);
        assert(connections_of(e2) =~= seq![("IF"@, seq!["Send Email"@, "Slack"@]), ("Set Fields"@, seq!["IF"@])]);
        assert(es.last() == es[2]);
        assert(es[2].0@ == "Webhook"@ && es[2].1 == hook_out);
        assert(connections_of(es) =~= mock_graph());
    }
    Json::Object(e)
}

/// A run as the API writes it: started at `start`, lasting `ms`, marked
/// successful.
pub open spec fn run_written(run: Json, start: int, ms: int) -> bool {
    &&& run.field("startTime"@) matches Some(t) && t.int_value() matches Some(v) && v == start
    &&& run.field("executionTime"@) matches Some(t) && t.int_value() matches Some(v) && v == ms
    &&& run.field("executionStatus"@) matches Some(t) && t.text() == Some("success"@)
}

/// The main outputs in a run's data.
pub open spec fn main_outputs(run: Json) -> Option<Json> {
    match run.field("data"@) {
        Some(d) => d.field("main"@),
        None => None,
    }
}

/// One run of a node: started `ago` ms before `now`, lasting `ms`, with
/// `output` as its first output's items.
fn node_run(now: i64, ago: i64, ms: i64, outputs: Json) -> (r: Json)
    requires
        0 <= ago <= 5000,
        MIN_INSTANT_MS <= now,
    ensures
        r matches Json::Array(a) && a@.len() == 1 && run_written(a@[0], now - ago, ms as int) && main_outputs(
            a@[0],
        ) == Some(outputs),
{
    let data = object1("main", outputs);
    let status = text("success");
    let time = integer(ms);
    let start = integer(now - ago);
    let mut e: Vec<(String, Json)> = Vec::new();
    e.push((copy_str("data"), data));
    e.push((copy_str("executionStatus"), status));
    e.push((copy_str("executionTime"), time));
    e.push((copy_str("startTime"), start));
    let run = Json::Object(e);
    proof {
        reveal_strlit("data");
        reveal_strlit("executionStatus");
        reveal_strlit("executionTime");
        reveal_strlit("startTime");
        let es = e@;
        assert(es[0].0@ == "data"@ && es[0].1 == data);
        assert(es[1].0@ == "executionStatus"@ && es[1].1 == status);
        assert(es[2].0@ == "executionTime"@ && es[2].1 == time);
        assert(es[3].0@ == "startTime"@ && es[3].1 == start);
        let e1 = es.drop_first();
        let e2 = e1.drop_first();
        let e3 = e2.drop_first();
        assert(e1[0] == es[1] && e2[0] == es[2] && e3[0] == es[3]);
        assert(e1.len() == 3 && e2.len() == 2 && e3.len() == 1);
        assert(entries_get(es, "data"@) == Some(data));
        assert("data"@.len() == 4 && "executionStatus"@.len() == 15 && "executionTime"@.len() == 13
            && "startTime"@.len() == 9);
        assert("data"@ != "executionStatus"@ && "data"@ != "executionTime"@ && "data"@ != "startTime"@);
        assert("executionStatus"@ != "executionTime"@ && "executionStatus"@ != "startTime"@);
        assert("executionTime"@ != "startTime"@);
        assert(entries_get(e1, "executionStatus"@) == Some(status));
        assert(entries_get(es, "executionStatus"@) == Some(status));
        assert(entries_get(e2, "executionTime"@) == Some(time));
        assert(entries_get(e1, "executionTime"@) == Some(time));
        assert(entries_get(es, "executionTime"@) == Some(time));
        assert(entries_get(e3, "startTime"@) == Some(start));
        assert(entries_get(e2, "startTime"@) == Some(start));
        assert(entries_get(e1, "startTime"@) == Some(start));
        assert(entries_get(es, "startTime"@) == Some(start));
        reveal_strlit("main");
        assert(data.field("main"@) == Some(outputs));
    }
    array1(run)
}

/// `[[{"json": item}]]`
fn one_item(item: Json) -> (r: Json)
    ensures
        r matches Json::Array(a) && a@.len() == 1 && (a@[0] matches Json::Array(b) && b@.len() == 1 && (
        b@[0] matches Json::Object(e) && e@.len() == 1 && e@[0].0@ == "json"@ && e@[0].1 == item)),
{
    array1(array1(object1("json", item)))
}

/// How many items each output branch carries.
pub open spec fn branch_sizes(outputs: Json) -> Seq<int> {
    match outputs {
        Json::Array(bs) => bs@.map_values(
            |b: Json|
                match b {
                    Json::Array(items) => items@.len() as int,
                    _ => -1,
                },
        ),
        _ => Seq::empty(),
    }
}

/// The first item of the first output branch, under its `json` key.
pub open spec fn first_item(outputs: Json) -> Option<Json> {
    match outputs {
        Json::Array(bs) => if bs@.len() > 0 {
            match bs@[0] {
                Json::Array(items) => if items@.len() > 0 {
                    items@[0].field("json"@)
                } else {
                    None
                },
                _ => None,
            }
        } else {
            None
        },
        _ => None,
    }
}

/// A field of an object holding a text.
pub open spec fn text_field(j: Json, key: Seq<char>, t: Seq<char>) -> bool {
    j.field(key) matches Some(v) && v.text() == Some(t)
}

/// A node's entry of the run data: one run of node `name`, started at
/// `start`, lasting `ms`, marked successful, with output branches of
/// `sizes` items.
pub open spec fn canned_node_run(entry: (String, Json), name: Seq<char>, start: int, ms: int, sizes: Seq<int>) -> bool {
    &&& entry.0@ == name
    &&& entry.1 matches Json::Array(a) && a@.len() == 1 && run_written(a@[0], start, ms) && (main_outputs(
        a@[0],
    ) matches Some(o) && branch_sizes(o) == sizes)
}

/// The first item of a node entry's run.
pub open spec fn entry_item(entry: (String, Json)) -> Option<Json> {
    match entry.1 {
        Json::Array(a) => if a@.len() > 0 {
            match main_outputs(a@[0]) {
                Some(o) => first_item(o),
                None => None,
            }
        } else {
            None
        },
        _ => None,
    }
}

/// The canned run data's node entries as of `now`.
pub open spec fn mock_runs_ok(runs: Seq<(String, Json)>, now: int) -> bool {
    &&& runs.len() == 4
    &&& canned_node_run(runs[0], "IF"@, now - 4800, 1, seq![1int, 0int])
    &&& canned_node_run(runs[1], "Send Email"@, now - 4700, 450, seq![1int])
    &&& canned_node_run(runs[2], "Set Fields"@, now - 4900, 3, seq![1int])
    &&& canned_node_run(runs[3], "Webhook"@, now - 5000, 12, seq![1int])
    &&& entry_item(runs[0]) matches Some(j) && text_field(j, "name"@, "Test User"@)
    &&& entry_item(runs[1]) matches Some(j) && text_field(j, "messageId"@, "abc123"@)
    &&& entry_item(runs[2]) matches Some(j) && text_field(j, "name"@, "Test User"@) && (j.field("processed"@)
        == Some(Json::Bool(true)))
    &&& entry_item(runs[3]) matches Some(j) && text_field(j, "name"@, "Test User"@)
}

proof fn lemma_second_field(j: Json, k1: Seq<char>, k2: Seq<char>, v: Json)
    requires
        j matches Json::Object(e) && e@.len() == 2 && e@[0].0@ == k1 && e@[1].0@ == k2 && e@[1].1 == v,
        k1 != k2,
    ensures
        j.field(k2) == Some(v),
{
    match j {
        Json::Object(e) => {
            let es = e@;
            assert(es.drop_first()[0] == es[1]);
            assert(entries_get(es.drop_first(), k2) == Some(v));
        },
        _ => {},
    }
}

/// The canned per-node run data: Webhook, Set Fields, IF and Send Email ran,
/// one after the other, within the last five seconds.
fn mock_run_data(now: i64) -> (r: Json)
    requires
        MIN_INSTANT_MS <= now,
    ensures
        run_entries(Some(r)) matches Some(runs) && mock_runs_ok(runs, now as int),
{
    let user = text("Test User");
    let item_if = object1("name", user);
    let b_if = array1(object1("json", item_if));
    let mut if_outputs: Vec<Json> = Vec::new();
    if_outputs.push(b_if);
    let none_out = Json::Array(Vec::new());
    if_outputs.push(none_out);
    let out_if = Json::Array(if_outputs);
    let item_mail = object1("messageId", text("abc123"));
    let out_mail = one_item(item_mail);
    let item_set = object2("name", text("Test User"), "processed", Json::Bool(true));
    let out_set = one_item(item_set);
    let item_hook = object1("name", text("Test User"));
    let out_hook = one_item(item_hook);
    let run_if = node_run(now, 4800, 1, out_if);
    let run_mail = node_run(now, 4700, 450, out_mail);
    let run_set = node_run(now, 4900, 3, out_set);
    let run_hook = node_run(now, 5000, 12, out_hook);
    let mut runs: Vec<(String, Json)> = Vec::new();
    runs.push((copy_str("IF"), run_if));
    runs.push((copy_str("Send Email"), run_mail));
    runs.push((copy_str("Set Fields"), run_set));
    runs.push((copy_str("Webhook"), run_hook));
    proof {
        reveal_strlit("json");
        reveal_strlit("name");
        reveal_strlit("processed");
        let rs = runs@;
        assert(rs[0].1 == run_if && rs[1].1 == run_mail && rs[2].1 == run_set && rs[3].1 == run_hook);
        assert(if_outputs@ == seq![b_if, none_out]);
        assert(branch_sizes(out_if) =~= seq![1int, 0int]);
        assert(branch_sizes(out_mail) =~= seq![1int]);
        assert(branch_sizes(out_set) =~= seq![1int]);
        assert(branch_sizes(out_hook) =~= seq![1int]);
        assert(first_item(out_if) == Some(item_if));
        assert(first_item(out_mail) == Some(item_mail));
        assert(first_item(out_set) == Some(item_set));
        assert(first_item(out_hook) == Some(item_hook));
        assert("name"@ != "processed"@) by {
            assert("name"@.len() != "processed"@.len());
        }
        lemma_second_field(item_set, "name"@, "processed"@, Json::Bool(true));
        assert(item_set.field("processed"@) == Some(Json::Bool(true)));
    }
    let run_data = object1("runData", Json::Object(runs));
    object1("resultData", run_data)
}

fn joined(what: &str, id: &str) -> (r: String)
    ensures
        r@ == what@ + id@,
{
    let mut s = copy_str(what);
    push_str(&mut s, id);
    s
}

/// What `serde_json::from_str::<serde_json::Value>` reports for a text: the
/// message of its syntax error, or nothing when the text is JSON.
pub uninterp spec fn json_syntax_error(text: Seq<char>) -> Option<Seq<char>>;

/// `serde_json::from_str::<serde_json::Value>`, keeping only whether the text
/// parsed and, when not, the error's message (its `Display`). The contract
/// names the result as a function of the text alone.
#[verifier::external_body]
fn json_error(text: &str) -> (r: Option<String>)
    ensures
        match r {
            Some(m) => json_syntax_error(text@) == Some(m@),
            None => json_syntax_error(text@) is None,
        },
{
    match serde_json::from_str::<serde_json::Value>(text) {
        Ok(_) => None,
        Err(e) => Some(e.to_string()),
    }
}

// ─── The client ─────────────────────────────────────────────────────────────
impl MockN8nClient {
    pub fn new() -> (r: Self)
        ensures
            r == MockN8nClient,
    {
        MockN8nClient
    }

    /// The canned workflows as of `now`.
    pub fn mock_workflows_at(now: i64) -> (r: Vec<WorkflowSummary>)
        requires
            MIN_INSTANT_MS + 90 * DAY_MS <= now,
        ensures
            mock_workflows_ok(r@, now),
    {
        let mut v: Vec<WorkflowSummary> = Vec::new();
        v.push(workflow("1", "Customer Onboarding", true, Some(tag("1", "production", now)), now - 30 * DAY_MS, now - 2 * HOUR_MS, "v1"));
        v.push(workflow("2", "Slack Notification Bot", true, Some(tag("2", "integrations", now)), now - 14 * DAY_MS, now - 6 * HOUR_MS, "v3"));
        v.push(workflow("3", "Data Sync Pipeline", false, None, now - 60 * DAY_MS, now - 45 * DAY_MS, "v2"));
        v.push(workflow("4", "Invoice Generator", true, Some(tag("1", "production", now)), now - 7 * DAY_MS, now - 30 * MINUTE_MS, "v5"));
        v.push(workflow("5", "Weekly Report Emailer", true, Some(tag("3", "scheduled", now)), now - 90 * DAY_MS, now - DAY_MS, "v1"));
        v
    }

    /// The canned executions as of `now`.
    pub fn mock_executions_at(now: i64) -> (r: Vec<ExecutionSummary>)
        requires
            MIN_INSTANT_MS + 3 * HOUR_MS <= now,
        ensures
            mock_executions_ok(r@, now),
    {
        let mut v: Vec<ExecutionSummary> = Vec::new();
        v.push(execution("1001", true, "production", ExecutionStatus::Success, now - 5 * MINUTE_MS, Some(now - 4 * MINUTE_MS), ("1", "Customer Onboarding"), None, None));
        v.push(execution("1002", true, "production", ExecutionStatus::Error, now - 10 * MINUTE_MS, Some(now - 9 * MINUTE_MS), ("2", "Slack Notification Bot"), None, None));
        v.push(execution("1003", false, "production", ExecutionStatus::Running, now - 30_000, None, ("4", "Invoice Generator"), None, None));
        v.push(execution("1004", true, "manual", ExecutionStatus::Success, now - HOUR_MS, Some(now - 59 * MINUTE_MS), ("1", "Customer Onboarding"), None, None));
        v.push(execution("1005", false, "production", ExecutionStatus::Waiting, now - 2 * HOUR_MS, None, ("5", "Weekly Report Emailer"), None, None));
        v.push(execution("1006", true, "production", ExecutionStatus::Error, now - 3 * HOUR_MS, Some(now - 2 * HOUR_MS - 58 * MINUTE_MS), ("2", "Slack Notification Bot"), None, Some("1007")));
        v.push(execution("1007", true, "production", ExecutionStatus::Success, now - 2 * HOUR_MS - 55 * MINUTE_MS, Some(now - 2 * HOUR_MS - 54 * MINUTE_MS), ("2", "Slack Notification Bot"), Some("1006"), None));
        v
    }

    /// The canned workflows that `filter` keeps, on one page.
    pub fn list_workflows_at(&self, filter: WorkflowFilter, now: i64) -> (r: WorkflowListResponse)
        requires
            MIN_INSTANT_MS + 90 * DAY_MS <= now,
        ensures
            exists|all: Seq<WorkflowSummary>|
                mock_workflows_ok(all, now) && summaries_view(r.data@) == summaries_view(
                    all.filter(|w: WorkflowSummary| workflow_kept(filter@, w)),
                ),
            r.next_cursor is None,
    {
        let all = Self::mock_workflows_at(now);
        let ghost pred = |w: WorkflowSummary| workflow_kept(filter@, w);
        let name_lower: Option<String> = match &filter.name {
            Some(n) => Some(to_lowercase(n.as_str())),
            None => None,
        };
        let mut kept: Vec<WorkflowSummary> = Vec::new();
        let mut i: usize = 0;
        while i < all.len()
            invariant
                i <= all.len(),
                pred == (|w: WorkflowSummary| workflow_kept(filter@, w)),
                match name_lower {
                    Some(l) => filter.name matches Some(n) && l@ == lowercase(n@),
                    None => filter.name is None,
                },
                summaries_view(kept@) == summaries_view(all@.take(i as int).filter(pred)),
            decreases all.len() - i,
        {
            proof {
                reveal(Seq::filter);
                assert(all@.take(i + 1).drop_last() =~= all@.take(i as int));
            }
            let w = &all[i];
            let active_ok = match filter.active {
                Some(a) => w.active == a,
                None => true,
            };
            let name_ok = match &name_lower {
                Some(l) => {
                    let lowered = to_lowercase(w.name.as_str());
                    contains_str(lowered.as_str(), l.as_str())
                },
                None => true,
            };
            if active_ok && name_ok {
                let ghost before = kept@;
                kept.push(w.duplicate());
                proof {
                    assert(summaries_view(kept@) =~= summaries_view(before).push(all@[i as int]@));
                    assert(summaries_view(all@.take(i + 1).filter(pred)) =~= summaries_view(
                        all@.take(i as int).filter(pred),
                    ).push(all@[i as int]@));
                }
            }
            i = i + 1;
        }
        proof {
            assert(all@.take(all@.len() as int) =~= all@);
        }
        WorkflowListResponse { data: kept, next_cursor: None }
    }

    /// The canned executions that `filter` keeps, on one page.
    pub fn list_executions_at(&self, filter: ExecutionFilter, now: i64) -> (r: ExecutionListResponse)
        requires
            MIN_INSTANT_MS + 3 * HOUR_MS <= now,
        ensures
            exists|all: Seq<ExecutionSummary>|
                mock_executions_ok(all, now) && r.data@ == all.filter(
                    |e: ExecutionSummary| execution_kept(filter@, e),
                ),
            r.next_cursor is None,
    {
        let all = Self::mock_executions_at(now);
        let ghost pred = |e: ExecutionSummary| execution_kept(filter@, e);
        let mut kept: Vec<ExecutionSummary> = Vec::new();
        let mut i: usize = 0;
        while i < all.len()
            invariant
                i <= all.len(),
                pred == (|e: ExecutionSummary| execution_kept(filter@, e)),
                kept@ == all@.take(i as int).filter(pred),
            decreases all.len() - i,
        {
            proof {
                reveal(Seq::filter);
                assert(all@.take(i + 1).drop_last() =~= all@.take(i as int));
            }
            let e = &all[i];
            let status_ok = match &filter.status {
                Some(s) => str_eq(e.status.filter_key(), s.as_str()),
                None => true,
            };
            let workflow_ok = match &filter.workflow_id {
                Some(id) => match &e.workflow_id {
                    Some(w) => str_eq(w.as_str(), id.as_str()),
                    None => false,
                },
                None => true,
            };
            if status_ok && workflow_ok {
                kept.push(e.duplicate());
            }
            i = i + 1;
        }
        proof {
            assert(all@.take(all@.len() as int) =~= all@);
        }
        ExecutionListResponse { data: kept, next_cursor: None }
    }

    /// The canned workflow with this id, with its graph; an error names an
    /// unknown id.
    pub fn get_workflow_at(&self, id: &str, now: i64) -> (r: Result<WorkflowDetail, String>)
        requires
            MIN_INSTANT_MS + 90 * DAY_MS <= now,
        ensures
            r is Ok <==> mock_workflow_ids().contains(id@),
            r matches Err(e) ==> e@ == "Workflow not found: "@ + id@,
            r matches Ok(d) ==> {
                &&& d.id@ == id@
                &&& exists|all: Seq<WorkflowSummary>, k: int|
                    mock_workflows_ok(all, now) && 0 <= k < 5 && all[k].id@ == id@ && d.name@ == all[k].name@
                        && d.active == all[k].active && d.tags@ == all[k].tags@ && d.created_at
                        == all[k].created_at && d.updated_at == all[k].updated_at && opt_seq(d.version_id)
                        == opt_seq(all[k].version_id)
                &&& mock_nodes_ok(d.nodes@)
                &&& graph_edges(d.connections) == mock_graph()
                &&& one_text_entry(d.settings, "executionOrder"@, "v1"@)
                &&& d.static_data is None
            },
    {
        let all = Self::mock_workflows_at(now);
        let mut i: usize = 0;
        while i < all.len()
            invariant
                i <= all.len(),
                mock_workflows_ok(all@, now),
                forall|k: int| 0 <= k < i ==> all@[k].id@ != id@,
            decreases all.len() - i,
        {
            if str_eq(all[i].id.as_str(), id) {
                let w = &all[i];
                let detail = WorkflowDetail {
                    id: w.id.clone(),
                    name: w.name.clone(),
                    active: w.active,
                    tags: crate::domain::workflow::copy_tags(&w.tags),
                    created_at: w.created_at,
                    updated_at: w.updated_at,
                    version_id: crate::domain::execution::copy_opt_string(&w.version_id),
                    nodes: mock_nodes(),
                    connections: mock_connections(),
                    settings: object1("executionOrder", text("v1")),
                    static_data: None,
                };
                proof {
                    assert(mock_workflow_ids().contains(id@)) by {
                        assert(mock_workflow_ids()[i as int] == all@[i as int].id@);
                    }
                }
                return Ok(detail);
            }
            i = i + 1;
        }
        proof {
            assert(!mock_workflow_ids().contains(id@)) by {
                if mock_workflow_ids().contains(id@) {
                    let k = choose|k: int| 0 <= k < 5 && mock_workflow_ids()[k] == id@;
                    assert(all@[k].id@ == mock_workflow_ids()[k]);
                }
            }
        }
        Err(joined("Workflow not found: ", id))
    }

    /// The canned execution with this id, with its per-node run data; an
    /// error names an unknown id.
    pub fn get_execution_at(&self, id: &str, include_data: bool, now: i64) -> (r: Result<ExecutionDetail, String>)
        requires
            MIN_INSTANT_MS + 3 * HOUR_MS <= now,
        ensures
            r is Ok <==> mock_execution_ids().contains(id@),
            r matches Err(e) ==> e@ == "Execution not found: "@ + id@,
            r matches Ok(d) ==> {
                &&& d.id@ == id@
                &&& exists|all: Seq<ExecutionSummary>, k: int|
                    mock_executions_ok(all, now) && 0 <= k < 7 && all[k].id@ == id@ && d.finished
                        == all[k].finished && d.mode@ == all[k].mode@ && d.status == all[k].status
                        && d.started_at == all[k].started_at && d.stopped_at == all[k].stopped_at
                        && opt_seq(d.workflow_id) == opt_seq(all[k].workflow_id) && opt_seq(d.retry_of)
                        == opt_seq(all[k].retry_of) && opt_seq(d.retry_success_id) == opt_seq(
                        all[k].retry_success_id,
                    )
                &&& d.data is Some
                &&& run_entries(d.data) matches Some(runs) && mock_runs_ok(runs, now as int)
                &&& d.workflow_data is None
            },
    {
        let all = Self::mock_executions_at(now);
        let mut i: usize = 0;
        while i < all.len()
            invariant
                i <= all.len(),
                mock_executions_ok(all@, now),
                MIN_INSTANT_MS + 3 * HOUR_MS <= now,
                forall|k: int| 0 <= k < i ==> all@[k].id@ != id@,
            decreases all.len() - i,
        {
            if str_eq(all[i].id.as_str(), id) {
                let e = &all[i];
                let detail = ExecutionDetail {
                    id: e.id.clone(),
                    finished: e.finished,
                    mode: e.mode.clone(),
                    status: e.status,
                    started_at: e.started_at,
                    stopped_at: e.stopped_at,
                    workflow_id: crate::domain::execution::copy_opt_string(&e.workflow_id),
                    retry_of: crate::domain::execution::copy_opt_string(&e.retry_of),
                    retry_success_id: crate::domain::execution::copy_opt_string(&e.retry_success_id),
                    data: Some(mock_run_data(now)),
                    workflow_data: None,
                };
                proof {
                    assert(mock_execution_ids().contains(id@)) by {
                        assert(mock_execution_ids()[i as int] == all@[i as int].id@);
                    }
                }
                return Ok(detail);
            }
            i = i + 1;
        }
        proof {
            assert(!mock_execution_ids().contains(id@)) by {
                if mock_execution_ids().contains(id@) {
                    let k = choose|k: int| 0 <= k < 7 && mock_execution_ids()[k] == id@;
                    assert(all@[k].id@ == mock_execution_ids()[k]);
                }
            }
        }
        Err(joined("Execution not found: ", id))
    }

    /// Pretends to trigger a webhook: a body that is JSON always succeeds
    /// with the same execution id; any other body is refused with the
    /// parser's message.
    pub fn trigger_webhook(&self, webhook_path: &str, json_body: &str) -> (r: Result<String, String>)
        ensures
            match json_syntax_error(json_body@) {
                None => r matches Ok(id) && id@ == "mock-exec-2001"@,
                Some(m) => r matches Err(e) && e@ == "Mock: invalid JSON: "@ + m,
            },
    {
        match json_error(json_body) {
            None => Ok(copy_str("mock-exec-2001")),
            Some(m) => Err(joined("Mock: invalid JSON: ", m.as_str())),
        }
    }
}

} // verus!
