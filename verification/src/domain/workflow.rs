//! Workflows: summaries, details with their nodes and connections, and tags.
use vstd::prelude::*;

use crate::domain::execution::copy_opt_string;
use crate::domain::json::{Json, JsonNumber};
use crate::text::{
    chars_of, contains_seq, contains_str, join, join_seqs, starts_with, starts_with_seq,
    string_of, suffix_from, views,
};

verus! {

/// Tag attached to a workflow.
#[derive(Debug)]
pub struct Tag {
    pub id: String,
    pub name: String,
    pub created_at: Option<i64>,
    pub updated_at: Option<i64>,
}

impl Tag {
    /// A field-for-field copy.
    pub fn duplicate(&self) -> (r: Self)
        ensures
            r == *self,
    {
        Tag {
            id: self.id.clone(),
            name: self.name.clone(),
            created_at: self.created_at,
            updated_at: self.updated_at,
        }
    }
}

/// A copy of a list of tags.
pub fn copy_tags(tags: &Vec<Tag>) -> (r: Vec<Tag>)
    ensures
        r@ == tags@,
{
    let mut out: Vec<Tag> = Vec::new();
    let mut i: usize = 0;
    while i < tags.len()
        invariant
            i <= tags.len(),
            out@ == tags@.take(i as int),
        decreases tags.len() - i,
    {
        out.push(tags[i].duplicate());
        i = i + 1;
        proof {
            assert(out@ =~= tags@.take(i as int));
        }
    }
    proof {
        assert(tags@.take(tags@.len() as int) =~= tags@);
    }
    out
}

/// Summary of a workflow as returned by the list endpoint.
#[derive(Debug)]
pub struct WorkflowSummary {
    pub id: String,
    pub name: String,
    pub active: bool,
    pub tags: Vec<Tag>,
    pub created_at: Option<i64>,
    pub updated_at: Option<i64>,
    pub version_id: Option<String>,
}

/// A node within a workflow definition.
#[derive(Debug)]
pub struct WorkflowNode {
    /// Node display name.
    pub name: String,
    /// Node type (e.g. `n8n-nodes-base.webhook`).
    pub node_type: String,
    /// Position on the canvas, `[x, y]`, as the payload wrote the numbers.
    pub position: Vec<JsonNumber>,
    /// Node parameters.
    pub parameters: Json,
    /// Credential references.
    pub credentials: Option<Json>,
    /// Whether the node is disabled.
    pub disabled: bool,
    /// Type version.
    pub type_version: Option<Json>,
}

/// Full workflow detail including nodes and connections.
#[derive(Debug)]
pub struct WorkflowDetail {
    pub id: String,
    pub name: String,
    pub active: bool,
    pub tags: Vec<Tag>,
    pub created_at: Option<i64>,
    pub updated_at: Option<i64>,
    pub version_id: Option<String>,
    pub nodes: Vec<WorkflowNode>,
    pub connections: Json,
    pub settings: Json,
    pub static_data: Option<Json>,
}

/// n8n paginated response wrapper for workflows.
#[derive(Debug)]
pub struct WorkflowListResponse {
    pub data: Vec<WorkflowSummary>,
    pub next_cursor: Option<String>,
}

/// The names of a list of tags.
pub open spec fn tag_name_views(tags: Seq<Tag>) -> Seq<Seq<char>> {
    tags.map_values(|t: Tag| t.name@)
}

/// The separator between tag names.
pub open spec fn comma_sep() -> Seq<char> {
    seq![',', ' ']
}

/// Tag names joined by `, `.
pub open spec fn tag_list_text(tags: Seq<Tag>) -> Seq<char> {
    join_seqs(tag_name_views(tags), comma_sep())
}

/// Tag names joined by `, `.
pub fn tag_names_of(tags: &Vec<Tag>) -> (r: String)
    ensures
        r@ == tag_list_text(tags@),
{
    let mut names: Vec<String> = Vec::new();
    let mut i: usize = 0;
    while i < tags.len()
        invariant
            i <= tags.len(),
            names@.len() == i,
            forall|k: int| 0 <= k < i ==> names@[k]@ == tags@[k].name@,
        decreases tags.len() - i,
    {
        names.push(tags[i].name.clone());
        i = i + 1;
    }
    proof {
        assert(views(names@) =~= tag_name_views(tags@));
        reveal_strlit(", ");
        assert(", "@ =~= comma_sep());
    }
    join(&names, ", ")
}

/// The abstract content of a workflow summary.
pub struct WorkflowSummaryView {
    pub id: String,
    pub name: String,
    pub active: bool,
    pub tags: Seq<Tag>,
    pub created_at: Option<i64>,
    pub updated_at: Option<i64>,
    pub version_id: Option<String>,
}

impl View for WorkflowSummary {
    type V = WorkflowSummaryView;

    open spec fn view(&self) -> WorkflowSummaryView {
        WorkflowSummaryView {
            id: self.id,
            name: self.name,
            active: self.active,
            tags: self.tags@,
            created_at: self.created_at,
            updated_at: self.updated_at,
            version_id: self.version_id,
        }
    }
}

/// The contents of a list of workflow summaries.
pub open spec fn summaries_view(v: Seq<WorkflowSummary>) -> Seq<WorkflowSummaryView> {
    v.map_values(|w: WorkflowSummary| w@)
}

impl WorkflowSummary {
    pub fn tag_names(&self) -> (r: String)
        ensures
            r@ == tag_list_text(self.tags@),
    {
        tag_names_of(&self.tags)
    }

    /// A field-for-field copy.
    pub fn duplicate(&self) -> (r: Self)
        ensures
            r@ == self@,
    {
        WorkflowSummary {
            id: self.id.clone(),
            name: self.name.clone(),
            active: self.active,
            tags: copy_tags(&self.tags),
            created_at: self.created_at,
            updated_at: self.updated_at,
            version_id: copy_opt_string(&self.version_id),
        }
    }
}

/// The prefix of built-in node types.
pub open spec fn base_prefix() -> Seq<char> {
    "n8n-nodes-base."@
}

/// The prefix of scoped node types.
pub open spec fn scoped_prefix() -> Seq<char> {
    "@n8n/n8n-nodes-"@
}

/// A node type without its package prefix.
pub open spec fn short_type(t: Seq<char>) -> Seq<char> {
    if starts_with_seq(t, base_prefix()) {
        t.subrange(base_prefix().len() as int, t.len() as int)
    } else if starts_with_seq(t, scoped_prefix()) {
        t.subrange(scoped_prefix().len() as int, t.len() as int)
    } else {
        t
    }
}

/// A node type that starts a workflow: its type names a trigger, a
/// webhook, a cron job or a schedule.
pub open spec fn is_trigger_type(t: Seq<char>) -> bool {
    contains_seq(t, "trigger"@) || contains_seq(t, "webhook"@) || contains_seq(t, "cron"@)
        || contains_seq(t, "schedule"@)
}

/// Whether a node type starts a workflow.
pub fn is_trigger_node_type(t: &str) -> (r: bool)
    ensures
        r == is_trigger_type(t@),
{
    contains_str(t, "trigger") || contains_str(t, "webhook") || contains_str(t, "cron")
        || contains_str(t, "schedule")
}

/// The nodes of a workflow that start it, in workflow order.
pub open spec fn trigger_subseq(nodes: Seq<WorkflowNode>) -> Seq<WorkflowNode> {
    nodes.filter(|n: WorkflowNode| is_trigger_type(n.node_type@))
}

impl WorkflowDetail {
    /// Short type name for a node (strip the package prefix).
    pub fn short_node_type(node_type: &str) -> (r: String)
        ensures
            r@ == short_type(node_type@),
    {
        let t = chars_of(node_type);
        let p1 = chars_of("n8n-nodes-base.");
        if starts_with(&t, &p1) {
            let rest = suffix_from(&t, p1.len());
            return string_of(&rest);
        }
        let p2 = chars_of("@n8n/n8n-nodes-");
        if starts_with(&t, &p2) {
            let rest = suffix_from(&t, p2.len());
            return string_of(&rest);
        }
        string_of(&t)
    }

    pub fn node_count(&self) -> (r: usize)
        ensures
            r == self.nodes@.len(),
    {
        self.nodes.len()
    }

    /// The nodes that start this workflow.
    pub fn trigger_nodes(&self) -> (r: Vec<&WorkflowNode>)
        ensures
            r@.len() == trigger_subseq(self.nodes@).len(),
            forall|i: int| 0 <= i < r@.len() ==> *r@[i] == trigger_subseq(self.nodes@)[i],
    {
        let mut out: Vec<&WorkflowNode> = Vec::new();
        let mut i: usize = 0;
        while i < self.nodes.len()
            invariant
                i <= self.nodes.len(),
                out@.len() == trigger_subseq(self.nodes@.take(i as int)).len(),
                forall|k: int|
                    0 <= k < out@.len() ==> *out@[k] == trigger_subseq(self.nodes@.take(i as int))[k],
            decreases self.nodes.len() - i,
        {
            proof {
                reveal(Seq::filter);
                assert(self.nodes@.take(i + 1).drop_last() =~= self.nodes@.take(i as int));
                assert(self.nodes@.take(i + 1).last() == self.nodes@[i as int]);
            }
            if is_trigger_node_type(self.nodes[i].node_type.as_str()) {
                out.push(&self.nodes[i]);
            }
            i = i + 1;
        }
        proof {
            assert(self.nodes@.take(self.nodes@.len() as int) =~= self.nodes@);
        }
        out
    }
}

} // verus!
