//! The dashboard's state machine: `update` takes an action and returns the
//! side effects to carry out; it performs none itself.
use vstd::prelude::*;
use vstd::view::View as HasView;

use crate::action::{effects_view, Action, ActionView, Effect, EffectView, KeyCode, KeyEvent};
use crate::cli_worker::{WorkerRequest, WorkerRequestView};
use crate::client::{active_only, status_only, ExecutionFilter, WorkflowFilter};
use crate::domain::execution::{
    node_runs_view, ExecutionDetail, ExecutionSummary, NodeRunResult, NodeRunView, StatusCounts,
};
use crate::domain::insights::InsightsResult;
use crate::domain::workflow::{summaries_view, WorkflowDetail, WorkflowSummary, WorkflowSummaryView};
use crate::scroll_state::{ScrollState, ScrollView, TableState};
use crate::domain::execution::{elapsed_ms, elapsed_secs, node_runs_of, span_secs, status_key};
use crate::domain::insights_compute::opt_view;
use crate::domain::workflow::tag_list_text;
use crate::sort::{key_view, keys_view, permuted, sort_rank, stable_order, lemma_order_at};
use crate::text::{
    chars_of, contains_chars, contains_seq, copy_str, decimal, lowercase, push_char, push_decimal, push_str, string_of,
    to_lowercase, trim_end_char, trim_end_matches,
};
use crate::domain::json::str_eq;


use crate::properties::{
    cache_coherent, law_caches_start_coherent, law_caches_stay_coherent, law_filtered_lists_fresh,
};

verus! {

/// The screen shown.
#[derive(Clone, Copy, Debug, PartialEq, Eq, Structural)]
pub enum View {
    WorkflowList,
    WorkflowDetail,
    /// Expanded view of the selected node of the workflow graph.
    WorkflowNodeInspect,
    ExecutionList,
    ExecutionDetail,
    NodeDetail(usize),
    Insights,
    InsightDetail(usize),
}

/// Whether keys navigate or edit the filter text.
#[derive(Clone, Copy, Debug, PartialEq, Eq, Structural)]
pub enum InputMode {
    Normal,
    Filter,
}

/// The order of a list.
#[derive(Clone, Copy, Debug, PartialEq, Eq, Structural)]
pub enum SortKind {
    Unsorted,
    NameAsc,
    NameDesc,
    StatusAsc,
    StatusDesc,
    UpdatedAsc,
    UpdatedDesc,
    DurationAsc,
    DurationDesc,
}

impl Default for SortKind {
    fn default() -> (r: Self)
        ensures
            r == SortKind::Unsorted,
    {
        SortKind::Unsorted
    }
}

/// The dashboard's state.
pub struct App {
    // -- Chrome --
    pub view: View,
    pub input_mode: InputMode,
    pub show_help: bool,
    pub quit_requested: bool,
    pub should_quit: bool,
    pub status_message: Option<String>,
    pub loading: bool,
    /// 0 = Workflows, 1 = Executions, 2 = Insights.
    pub active_tab: usize,
    /// Full n8n instance URL for generating links.
    pub base_url: String,
    // -- Auto-refresh --
    pub auto_refresh: bool,
    pub auto_refresh_interval_secs: u64,
    pub last_refresh: i64,
    // -- Workflow list --
    pub workflows: Vec<WorkflowSummary>,
    pub wf_scroll: ScrollState,
    pub wf_filter_text: String,
    pub wf_active_filter: Option<bool>,
    pub wf_sort: SortKind,
    cached_filtered_wf: Option<Vec<WorkflowSummary>>,
    wf_cache_dirty: bool,
    // -- Workflow detail --
    pub workflow_detail: Option<WorkflowDetail>,
    pub graph_pan_x: i32,
    pub graph_pan_y: i32,
    pub graph_selected_node: usize,
    pub node_inspect_scroll: u16,
    // -- Execution list --
    pub executions: Vec<ExecutionSummary>,
    pub exec_scroll: ScrollState,
    pub exec_filter_text: String,
    pub exec_status_filter: Option<String>,
    pub exec_sort: SortKind,
    pub exec_counts: StatusCounts,
    cached_filtered_exec: Option<Vec<ExecutionSummary>>,
    exec_cache_dirty: bool,
    // -- Execution detail --
    pub execution_detail: Option<ExecutionDetail>,
    pub node_scroll: ScrollState,
    /// Node runs parsed once when the detail arrives.
    pub cached_node_runs: Vec<NodeRunResult>,
    // -- Insights --
    pub insights_result: Option<InsightsResult>,
    pub insight_scroll: ScrollState,
    // -- Filter input --
    pub filter_input: String,
    // -- Render context: captured once per frame --
    pub now: i64,
}

/// The abstract state of the dashboard.
pub struct AppView {
    pub view: View,
    pub input_mode: InputMode,
    pub show_help: bool,
    pub quit_requested: bool,
    pub should_quit: bool,
    pub status_message: Option<Seq<char>>,
    pub loading: bool,
    pub active_tab: usize,
    pub base_url: Seq<char>,
    pub auto_refresh: bool,
    pub auto_refresh_interval_secs: u64,
    pub last_refresh: i64,
    pub workflows: Seq<WorkflowSummaryView>,
    pub wf_scroll: ScrollView,
    pub wf_filter_text: Seq<char>,
    pub wf_active_filter: Option<bool>,
    pub wf_sort: SortKind,
    pub cached_filtered_wf: Option<Seq<WorkflowSummaryView>>,
    pub wf_cache_dirty: bool,
    pub workflow_detail: Option<WorkflowDetail>,
    pub graph_pan_x: i32,
    pub graph_pan_y: i32,
    pub graph_selected_node: usize,
    pub node_inspect_scroll: u16,
    pub executions: Seq<ExecutionSummary>,
    pub exec_scroll: ScrollView,
    pub exec_filter_text: Seq<char>,
    pub exec_status_filter: Option<Seq<char>>,
    pub exec_sort: SortKind,
    pub exec_counts: StatusCounts,
    pub cached_filtered_exec: Option<Seq<ExecutionSummary>>,
    pub exec_cache_dirty: bool,
    pub execution_detail: Option<ExecutionDetail>,
    pub node_scroll: ScrollView,
    pub cached_node_runs: Seq<NodeRunView>,
    pub insights_result: Option<InsightsResult>,
    pub insight_scroll: ScrollView,
    pub filter_input: Seq<char>,
    pub now: i64,
}

/// The characters of an optional string.
pub open spec fn opt_chars(o: Option<String>) -> Option<Seq<char>> {
    match o {
        Some(s) => Some(s@),
        None => None,
    }
}

impl HasView for App {
    type V = AppView;

    closed spec fn view(&self) -> AppView {
        AppView {
            view: self.view,
            input_mode: self.input_mode,
            show_help: self.show_help,
            quit_requested: self.quit_requested,
            should_quit: self.should_quit,
            status_message: opt_chars(self.status_message),
            loading: self.loading,
            active_tab: self.active_tab,
            base_url: self.base_url@,
            auto_refresh: self.auto_refresh,
            auto_refresh_interval_secs: self.auto_refresh_interval_secs,
            last_refresh: self.last_refresh,
            workflows: summaries_view(self.workflows@),
            wf_scroll: self.wf_scroll@,
            wf_filter_text: self.wf_filter_text@,
            wf_active_filter: self.wf_active_filter,
            wf_sort: self.wf_sort,
            cached_filtered_wf: match self.cached_filtered_wf {
                Some(v) => Some(summaries_view(v@)),
                None => None,
            },
            wf_cache_dirty: self.wf_cache_dirty,
            workflow_detail: self.workflow_detail,
            graph_pan_x: self.graph_pan_x,
            graph_pan_y: self.graph_pan_y,
            graph_selected_node: self.graph_selected_node,
            node_inspect_scroll: self.node_inspect_scroll,
            executions: self.executions@,
            exec_scroll: self.exec_scroll@,
            exec_filter_text: self.exec_filter_text@,
            exec_status_filter: opt_chars(self.exec_status_filter),
            exec_sort: self.exec_sort,
            exec_counts: self.exec_counts,
            cached_filtered_exec: match self.cached_filtered_exec {
                Some(v) => Some(v@),
                None => None,
            },
            exec_cache_dirty: self.exec_cache_dirty,
            execution_detail: self.execution_detail,
            node_scroll: self.node_scroll@,
            cached_node_runs: node_runs_view(self.cached_node_runs@),
            insights_result: self.insights_result,
            insight_scroll: self.insight_scroll@,
            filter_input: self.filter_input@,
            now: self.now,
        }
    }
}

/// A fresh list state: nothing selected but the first row, no rows.
pub open spec fn fresh_scroll() -> ScrollView {
    ScrollView { selected: 0, len: 0, table: TableState { selected: Some(0), offset: 0 } }
}

/// The state of a dashboard opened on `base_url` at `now`.
pub open spec fn initial_state(base_url: Seq<char>, now: i64) -> AppView {
    AppView {
        view: View::WorkflowList,
        input_mode: InputMode::Normal,
        show_help: false,
        quit_requested: false,
        should_quit: false,
        status_message: None,
        loading: true,
        active_tab: 0,
        base_url,
        auto_refresh: true,
        auto_refresh_interval_secs: 15,
        last_refresh: now,
        workflows: Seq::empty(),
        wf_scroll: fresh_scroll(),
        wf_filter_text: Seq::empty(),
        wf_active_filter: None,
        wf_sort: SortKind::Unsorted,
        cached_filtered_wf: None,
        wf_cache_dirty: true,
        workflow_detail: None,
        graph_pan_x: 0,
        graph_pan_y: 0,
        graph_selected_node: 0,
        node_inspect_scroll: 0,
        executions: Seq::empty(),
        exec_scroll: fresh_scroll(),
        exec_filter_text: Seq::empty(),
        exec_status_filter: None,
        exec_sort: SortKind::Unsorted,
        exec_counts: StatusCounts {
            success: 0,
            error: 0,
            running: 0,
            waiting: 0,
            canceled: 0,
            total: 0,
        },
        cached_filtered_exec: None,
        exec_cache_dirty: true,
        execution_detail: None,
        node_scroll: fresh_scroll(),
        cached_node_runs: Seq::empty(),
        insights_result: None,
        insight_scroll: fresh_scroll(),
        filter_input: Seq::empty(),
        now,
    }
}

/// The requests sent when the dashboard starts: all workflows and all
/// executions.
pub open spec fn startup_effects() -> Seq<EffectView> {
    seq![
        EffectView::SendWorkerRequest(WorkerRequestView::FetchWorkflows(active_only(None))),
        EffectView::SendWorkerRequest(WorkerRequestView::FetchExecutions(status_only(None))),
    ]
}

impl App {
    /// A dashboard opened on `base_url`, with `now` as the time of the
    /// first frame and of the last refresh.
    pub fn new_at(base_url: String, now: i64) -> (r: Self)
        ensures
            r@ == initial_state(base_url@, now),
            cache_coherent(r@),
    {
        proof {
            law_caches_start_coherent(base_url@, now);
        }
        let r = App {
            view: View::WorkflowList,
            input_mode: InputMode::Normal,
            show_help: false,
            quit_requested: false,
            should_quit: false,
            status_message: None,
            loading: true,
            active_tab: 0,
            base_url,
            auto_refresh: true,
            auto_refresh_interval_secs: 15,
            last_refresh: now,
            workflows: Vec::new(),
            wf_scroll: ScrollState::new(),
            wf_filter_text: String::new(),
            wf_active_filter: None,
            wf_sort: SortKind::Unsorted,
            cached_filtered_wf: None,
            wf_cache_dirty: true,
            workflow_detail: None,
            graph_pan_x: 0,
            graph_pan_y: 0,
            graph_selected_node: 0,
            node_inspect_scroll: 0,
            executions: Vec::new(),
            exec_scroll: ScrollState::new(),
            exec_filter_text: String::new(),
            exec_status_filter: None,
            exec_sort: SortKind::Unsorted,
            exec_counts: StatusCounts::zero(),
            cached_filtered_exec: None,
            exec_cache_dirty: true,
            execution_detail: None,
            node_scroll: ScrollState::new(),
            cached_node_runs: Vec::new(),
            insights_result: None,
            insight_scroll: ScrollState::new(),
            filter_input: String::new(),
            now,
        };
        proof {
            assert(r@.workflows =~= Seq::<WorkflowSummaryView>::empty());
            assert(r@.cached_node_runs =~= Seq::<NodeRunView>::empty());
            assert(r@ == initial_state(base_url@, now));
        }
        r
    }

    /// A dashboard opened on `base_url` now.
    pub fn new(base_url: String) -> (r: Self)
        ensures
            r@ == initial_state(base_url@, r@.now),
            cache_coherent(r@),
    {
        let now = crate::clock::now_ms();
        Self::new_at(base_url, now)
    }

    /// Effects to run on startup.
    pub fn init_effects() -> (r: Vec<Effect>)
        ensures
            crate::action::effects_view(r@) == startup_effects(),
    {
        let mut v: Vec<Effect> = Vec::new();
        v.push(Effect::SendWorkerRequest(WorkerRequest::FetchWorkflows(WorkflowFilter::default())));
        v.push(Effect::SendWorkerRequest(WorkerRequest::FetchExecutions(ExecutionFilter::default())));
        proof {
            assert(crate::action::effects_view(v@) =~= startup_effects());
        }
        v
    }

    /// Capture the time of the frame about to be drawn.
    pub fn tick_frame_at(&mut self, now: i64)
        ensures
            final(self)@ == (AppView { now, ..old(self)@ }),
            cache_coherent(old(self)@) ==> cache_coherent(final(self)@),
    {
        self.now = now;
    }

    /// Call once per frame before rendering to capture a consistent "now":
    /// the clock's reading, in milliseconds since the epoch.
    pub fn tick_frame(&mut self)
        ensures
            final(self)@ == (AppView { now: final(self)@.now, ..old(self)@ }),
            0 <= final(self)@.now <= crate::domain::execution::MAX_INSTANT_MS,
            cache_coherent(old(self)@) ==> cache_coherent(final(self)@),
    {
        let now = crate::clock::now_ms();
        self.tick_frame_at(now);
    }

    /// Sort indicator suffix for column headers.
    pub fn sort_indicator(&self, kind: &SortKind, asc: &SortKind, desc: &SortKind) -> (r: &'static str)
        ensures
            r@ == if *kind == *asc {
                " ▲"@
            } else if *kind == *desc {
                " ▼"@
            } else {
                ""@
            },
    {
        if *kind == *asc {
            " ▲"
        } else if *kind == *desc {
            " ▼"
        } else {
            ""
        }
    }
}


// ─── Filtered and sorted lists ──────────────────────────────────────────────
/// Character codes of a text (the order of `String`s is the
/// lexicographic order of these).
pub open spec fn char_codes(s: Seq<char>) -> Seq<int> {
    s.map_values(|c: char| c as u32 as int)
}

/// The text that filters the workflow list: the one being typed while
/// filtering that list, otherwise the applied one.
pub open spec fn wf_filter_in_use(s: AppView) -> Seq<char> {
    if s.input_mode == InputMode::Filter && s.view == View::WorkflowList {
        s.filter_input
    } else {
        s.wf_filter_text
    }
}

/// The text that filters the execution list.
pub open spec fn exec_filter_in_use(s: AppView) -> Seq<char> {
    if s.input_mode == InputMode::Filter && s.view == View::ExecutionList {
        s.filter_input
    } else {
        s.exec_filter_text
    }
}

/// A workflow passes the filters: the activation filter, and a non-empty
/// text found, ignoring case, in its name or its tag list.
pub open spec fn wf_visible(w: WorkflowSummaryView, active: Option<bool>, text: Seq<char>) -> bool {
    &&& match active {
        Some(a) => w.active == a,
        None => true,
    }
    &&& text.len() > 0 ==> (contains_seq(lowercase(w.name@), lowercase(text)) || contains_seq(
        lowercase(tag_list_text(w.tags)),
        lowercase(text),
    ))
}

/// An execution passes the filters: the status filter, and a non-empty
/// text found in its workflow name (ignoring case) or, lower-cased, in its id.
pub open spec fn exec_visible(e: ExecutionSummary, status: Option<Seq<char>>, text: Seq<char>) -> bool {
    &&& match status {
        Some(st) => status_key(e.status) == st,
        None => true,
    }
    &&& text.len() > 0 ==> ((match e.workflow_name {
        Some(n) => contains_seq(lowercase(n@), lowercase(text)),
        None => false,
    }) || contains_seq(e.id@, lowercase(text)))
}

/// The sort key of a workflow.
pub open spec fn wf_key(w: WorkflowSummaryView, sort: SortKind) -> Seq<int> {
    match sort {
        SortKind::NameAsc | SortKind::NameDesc => char_codes(lowercase(w.name@)),
        SortKind::StatusAsc => seq![if w.active { 0int } else { 1int }],
        SortKind::StatusDesc => seq![if w.active { 1int } else { 0int }],
        SortKind::UpdatedAsc | SortKind::UpdatedDesc => crate::domain::execution::opt_instant_key(
            w.updated_at,
        ),
        _ => Seq::empty(),
    }
}

/// Whether and in which direction the workflow list is sorted
/// (`Some(true)`: greatest key first).
pub open spec fn wf_direction(sort: SortKind) -> Option<bool> {
    match sort {
        SortKind::NameAsc | SortKind::StatusAsc | SortKind::StatusDesc | SortKind::UpdatedAsc => Some(
            false,
        ),
        SortKind::NameDesc | SortKind::UpdatedDesc => Some(true),
        _ => None,
    }
}

/// The sort key of an execution.
pub open spec fn exec_key(e: ExecutionSummary, sort: SortKind) -> Seq<int> {
    match sort {
        SortKind::NameAsc | SortKind::NameDesc => match e.workflow_name {
            Some(n) => seq![1int] + char_codes(n@),
            None => seq![0int],
        },
        SortKind::StatusAsc | SortKind::StatusDesc => char_codes(status_key(e.status)),
        SortKind::DurationAsc => seq![
            match e.duration_ms() {
                Some(d) => d,
                None => i64::MAX as int,
            },
        ],
        SortKind::DurationDesc => seq![
            match e.duration_ms() {
                Some(d) => d,
                None => 0,
            },
        ],
        _ => Seq::empty(),
    }
}

/// Whether and in which direction the execution list is sorted.
pub open spec fn exec_direction(sort: SortKind) -> Option<bool> {
    match sort {
        SortKind::NameAsc | SortKind::StatusAsc | SortKind::DurationAsc => Some(false),
        SortKind::NameDesc | SortKind::StatusDesc | SortKind::DurationDesc => Some(true),
        _ => None,
    }
}

/// `items` in the order given by a direction and keys (unchanged without one).
pub open spec fn ordered<T>(items: Seq<T>, keys: Seq<Seq<int>>, dir: Option<bool>) -> Seq<T> {
    match dir {
        Some(desc) => permuted(items, keys, desc),
        None => items,
    }
}

/// The workflow list as filtered and sorted from scratch.
pub open spec fn fresh_workflows(s: AppView) -> Seq<WorkflowSummaryView> {
    listed_workflows(s.workflows, s.wf_active_filter, wf_filter_in_use(s), s.wf_sort)
}

/// Workflows kept by an activation filter and a text, in a sort order.
pub open spec fn listed_workflows(
    workflows: Seq<WorkflowSummaryView>,
    active: Option<bool>,
    text: Seq<char>,
    sort: SortKind,
) -> Seq<WorkflowSummaryView> {
    let kept = workflows.filter(|w: WorkflowSummaryView| wf_visible(w, active, text));
    ordered(kept, kept.map_values(|w: WorkflowSummaryView| wf_key(w, sort)), wf_direction(sort))
}

/// The execution list as filtered and sorted from scratch.
pub open spec fn fresh_executions(s: AppView) -> Seq<ExecutionSummary> {
    listed_executions(s.executions, s.exec_status_filter, exec_filter_in_use(s), s.exec_sort)
}

/// Executions kept by a status filter and a text, in a sort order.
pub open spec fn listed_executions(
    executions: Seq<ExecutionSummary>,
    status: Option<Seq<char>>,
    text: Seq<char>,
    sort: SortKind,
) -> Seq<ExecutionSummary> {
    let kept = executions.filter(|e: ExecutionSummary| exec_visible(e, status, text));
    ordered(kept, kept.map_values(|e: ExecutionSummary| exec_key(e, sort)), exec_direction(sort))
}

/// `filtered_workflows`: the cached list when it is clean, otherwise a fresh
/// one, which is cached and sizes the workflow list state.
#[verifier::opaque]
pub open spec fn workflows_step(s: AppView) -> (AppView, Seq<WorkflowSummaryView>) {
    if !s.wf_cache_dirty && s.cached_filtered_wf is Some {
        (s, s.cached_filtered_wf->0)
    } else {
        let r = fresh_workflows(s);
        (
            AppView {
                wf_scroll: s.wf_scroll.with_len(r.len()),
                cached_filtered_wf: Some(r),
                wf_cache_dirty: false,
                ..s
            },
            r,
        )
    }
}

/// `filtered_executions`: the cached list when it is clean, otherwise a
/// fresh one, which is cached and sizes the execution list state.
#[verifier::opaque]
pub open spec fn executions_step(s: AppView) -> (AppView, Seq<ExecutionSummary>) {
    if !s.exec_cache_dirty && s.cached_filtered_exec is Some {
        (s, s.cached_filtered_exec->0)
    } else {
        let r = fresh_executions(s);
        (
            AppView {
                exec_scroll: s.exec_scroll.with_len(r.len()),
                cached_filtered_exec: Some(r),
                exec_cache_dirty: false,
                ..s
            },
            r,
        )
    }
}

fn codes_of(s: &str) -> (r: Vec<i128>)
    ensures
        key_view(r) == char_codes(s@),
{
    let v = chars_of(s);
    let mut out: Vec<i128> = Vec::new();
    let mut i: usize = 0;
    while i < v.len()
        invariant
            v@ == s@,
            i <= v.len(),
            out@.len() == i,
            forall|k: int| 0 <= k < i ==> out@[k] as int == v@[k] as u32 as int,
        decreases v.len() - i,
    {
        out.push(v[i] as u32 as i128);
        i = i + 1;
    }
    proof {
        assert(key_view(out) =~= char_codes(s@));
    }
    out
}

fn copy_summaries(v: &Vec<WorkflowSummary>) -> (r: Vec<WorkflowSummary>)
    ensures
        summaries_view(r@) == summaries_view(v@),
{
    let mut out: Vec<WorkflowSummary> = Vec::new();
    let mut i: usize = 0;
    while i < v.len()
        invariant
            i <= v.len(),
            out@.len() == i,
            forall|k: int| 0 <= k < i ==> out@[k]@ == v@[k]@,
        decreases v.len() - i,
    {
        out.push(v[i].duplicate());
        i = i + 1;
    }
    proof {
        assert(summaries_view(out@) =~= summaries_view(v@));
    }
    out
}

fn copy_executions(v: &Vec<ExecutionSummary>) -> (r: Vec<ExecutionSummary>)
    ensures
        r@ == v@,
{
    let mut out: Vec<ExecutionSummary> = Vec::new();
    let mut i: usize = 0;
    while i < v.len()
        invariant
            i <= v.len(),
            out@.len() == i,
            forall|k: int| 0 <= k < i ==> out@[k] == v@[k],
        decreases v.len() - i,
    {
        out.push(v[i].duplicate());
        i = i + 1;
    }
    proof {
        assert(out@ =~= v@);
    }
    out
}

fn wf_key_exec(w: &WorkflowSummary, sort: SortKind) -> (r: Vec<i128>)
    ensures
        key_view(r) == wf_key(w@, sort),
{
    let mut k: Vec<i128> = Vec::new();
    match sort {
        SortKind::NameAsc | SortKind::NameDesc => {
            let lower = to_lowercase(w.name.as_str());
            return codes_of(lower.as_str());
        },
        SortKind::StatusAsc => {
            k.push(if w.active { 0 } else { 1 });
        },
        SortKind::StatusDesc => {
            k.push(if w.active { 1 } else { 0 });
        },
        SortKind::UpdatedAsc | SortKind::UpdatedDesc => {
            match w.updated_at {
                Some(t) => {
                    k.push(1);
                    k.push(t as i128);
                },
                None => {
                    k.push(0);
                },
            }
        },
        _ => {},
    }
    proof {
        assert(key_view(k) =~= wf_key(w@, sort));
    }
    k
}

fn exec_key_exec(e: &ExecutionSummary, sort: SortKind) -> (r: Vec<i128>)
    ensures
        key_view(r) == exec_key(*e, sort),
{
    let mut k: Vec<i128> = Vec::new();
    match sort {
        SortKind::NameAsc | SortKind::NameDesc => {
            match &e.workflow_name {
                Some(n) => {
                    let c = codes_of(n.as_str());
                    k.push(1);
                    let mut i: usize = 0;
                    while i < c.len()
                        invariant
                            i <= c.len(),
                            k@.len() == i + 1,
                            k@[0] == 1,
                            forall|m: int| 0 <= m < i ==> k@[m + 1] == c@[m],
                        decreases c.len() - i,
                    {
                        k.push(c[i]);
                        i = i + 1;
                    }
                    proof {
                        assert(key_view(k) =~= seq![1int] + key_view(c));
                    }
                },
                None => {
                    k.push(0);
                },
            }
        },
        SortKind::StatusAsc | SortKind::StatusDesc => {
            return codes_of(e.status.filter_key());
        },
        SortKind::DurationAsc => {
            match (e.started_at, e.stopped_at) {
                (Some(a), Some(b)) => k.push(elapsed_ms(a, b) as i128),
                _ => k.push(i64::MAX as i128),
            }
        },
        SortKind::DurationDesc => {
            match (e.started_at, e.stopped_at) {
                (Some(a), Some(b)) => k.push(elapsed_ms(a, b) as i128),
                _ => k.push(0),
            }
        },
        _ => {},
    }
    proof {
        assert(key_view(k) =~= exec_key(*e, sort));
    }
    k
}

fn wf_visible_exec(w: &WorkflowSummary, active: Option<bool>, text: &String, lower: &Vec<char>) -> (r:
    bool)
    requires
        lower@ == lowercase(text@),
    ensures
        r == wf_visible(w@, active, text@),
{
    match active {
        Some(a) => {
            if w.active != a {
                return false;
            }
        },
        None => {},
    }
    if text.as_str().is_empty() {
        return true;
    }
    let name = chars_of(to_lowercase(w.name.as_str()).as_str());
    if contains_chars(&name, lower) {
        return true;
    }
    let tags = chars_of(to_lowercase(w.tag_names().as_str()).as_str());
    contains_chars(&tags, lower)
}


fn exec_visible_exec(e: &ExecutionSummary, status: &Option<String>, text: &String, lower: &Vec<char>) -> (r:
    bool)
    requires
        lower@ == lowercase(text@),
    ensures
        r == exec_visible(*e, opt_chars(*status), text@),
{
    match status {
        Some(st) => {
            if !str_eq(e.status.filter_key(), st.as_str()) {
                return false;
            }
        },
        None => {},
    }
    if text.as_str().is_empty() {
        return true;
    }
    let name_match = match &e.workflow_name {
        Some(n) => {
            let nl = chars_of(to_lowercase(n.as_str()).as_str());
            contains_chars(&nl, lower)
        },
        None => false,
    };
    let id = chars_of(e.id.as_str());
    name_match || contains_chars(&id, lower)
}

/// Workflows put in the order of a sort kind.
fn sort_workflows(items: Vec<WorkflowSummary>, sort: SortKind) -> (r: Vec<WorkflowSummary>)
    ensures
        summaries_view(r@) == ordered(
            summaries_view(items@),
            summaries_view(items@).map_values(|w: WorkflowSummaryView| wf_key(w, sort)),
            wf_direction(sort),
        ),
{
    let desc = match sort {
        SortKind::NameAsc | SortKind::StatusAsc | SortKind::StatusDesc | SortKind::UpdatedAsc => false,
        SortKind::NameDesc | SortKind::UpdatedDesc => true,
        _ => {
            return items;
        },
    };
    let ghost iv = summaries_view(items@);
    let ghost kf = |w: WorkflowSummaryView| wf_key(w, sort);
    let mut keys: Vec<Vec<i128>> = Vec::new();
    let mut k: usize = 0;
    while k < items.len()
        invariant
            k <= items@.len(),
            keys@.len() == k,
            iv == summaries_view(items@),
            kf == (|w: WorkflowSummaryView| wf_key(w, sort)),
            forall|m: int| 0 <= m < k ==> key_view(#[trigger] keys@[m]) == kf(iv[m]),
        decreases items@.len() - k,
    {
        keys.push(wf_key_exec(&items[k], sort));
        k = k + 1;
    }
    let ghost kv = keys_view(keys@);
    proof {
        assert(kv =~= iv.map_values(kf));
    }
    let order = stable_order(&keys, desc);
    let mut out: Vec<WorkflowSummary> = Vec::new();
    let mut p: usize = 0;
    while p < order.len()
        invariant
            p <= order@.len(),
            order@.len() == items@.len(),
            iv == summaries_view(items@),
            kv == keys_view(keys@),
            keys@.len() == items@.len(),
            forall|i: int| 0 <= i < items@.len() ==> order@[sort_rank(kv, desc, i) as int] == i,
            forall|q: int| 0 <= q < order@.len() ==> order@[q] < items@.len(),
            out@.len() == p,
            forall|q: int| 0 <= q < p ==> out@[q]@ == iv[order@[q] as int],
        decreases order@.len() - p,
    {
        out.push(items[order[p]].duplicate());
        p = p + 1;
    }
    proof {
        let target = permuted(iv, kv, desc);
        assert forall|q: int| 0 <= q < out@.len() implies out@[q]@ == target[q] by {
            lemma_order_at(kv, desc, order@, q);
        }
        assert(summaries_view(out@) =~= target);
    }
    out
}

/// Executions put in the order of a sort kind.
fn sort_executions(items: Vec<ExecutionSummary>, sort: SortKind) -> (r: Vec<ExecutionSummary>)
    ensures
        r@ == ordered(
            items@,
            items@.map_values(|e: ExecutionSummary| exec_key(e, sort)),
            exec_direction(sort),
        ),
{
    let desc = match sort {
        SortKind::NameAsc | SortKind::StatusAsc | SortKind::DurationAsc => false,
        SortKind::NameDesc | SortKind::StatusDesc | SortKind::DurationDesc => true,
        _ => {
            return items;
        },
    };
    let ghost kf = |e: ExecutionSummary| exec_key(e, sort);
    let mut keys: Vec<Vec<i128>> = Vec::new();
    let mut k: usize = 0;
    while k < items.len()
        invariant
            k <= items@.len(),
            keys@.len() == k,
            kf == (|e: ExecutionSummary| exec_key(e, sort)),
            forall|m: int| 0 <= m < k ==> key_view(#[trigger] keys@[m]) == kf(items@[m]),
        decreases items@.len() - k,
    {
        keys.push(exec_key_exec(&items[k], sort));
        k = k + 1;
    }
    let ghost kv = keys_view(keys@);
    proof {
        assert(kv =~= items@.map_values(kf));
    }
    let order = stable_order(&keys, desc);
    let mut out: Vec<ExecutionSummary> = Vec::new();
    let mut p: usize = 0;
    while p < order.len()
        invariant
            p <= order@.len(),
            order@.len() == items@.len(),
            kv == keys_view(keys@),
            keys@.len() == items@.len(),
            forall|i: int| 0 <= i < items@.len() ==> order@[sort_rank(kv, desc, i) as int] == i,
            forall|q: int| 0 <= q < order@.len() ==> order@[q] < items@.len(),
            out@.len() == p,
            forall|q: int| 0 <= q < p ==> out@[q] == items@[order@[q] as int],
        decreases order@.len() - p,
    {
        out.push(items[order[p]].duplicate());
        p = p + 1;
    }
    proof {
        let target = permuted(items@, kv, desc);
        assert forall|q: int| 0 <= q < out@.len() implies out@[q] == target[q] by {
            lemma_order_at(kv, desc, order@, q);
        }
        assert(out@ =~= target);
    }
    out
}

impl App {
    /// The workflow list as filtered and sorted (cached until a change).
    pub fn filtered_workflows(&mut self) -> (r: Vec<WorkflowSummary>)
        ensures
            (final(self)@, summaries_view(r@)) == workflows_step(old(self)@),
            cache_coherent(old(self)@) ==> summaries_view(r@) == fresh_workflows(old(self)@) && cache_coherent(
                final(self)@,
            ),
    {
        proof {
            if cache_coherent(self@) {
                law_filtered_lists_fresh(self@);
            }
            reveal(workflows_step);
        }
        if !self.wf_cache_dirty {
            match &self.cached_filtered_wf {
                Some(cached) => {
                    return copy_summaries(cached);
                },
                None => {},
            }
        }
        let text: String = if self.input_mode == InputMode::Filter && self.view == View::WorkflowList {
            self.filter_input.clone()
        } else {
            self.wf_filter_text.clone()
        };
        let lower = chars_of(to_lowercase(text.as_str()).as_str());
        let ghost s = self@;
        let ghost pred = |w: WorkflowSummaryView| wf_visible(w, s.wf_active_filter, wf_filter_in_use(s));
        let mut kept: Vec<WorkflowSummary> = Vec::new();
        let mut i: usize = 0;
        while i < self.workflows.len()
            invariant
                s == self@,
                text@ == wf_filter_in_use(s),
                lower@ == lowercase(text@),
                pred == (|w: WorkflowSummaryView| wf_visible(w, s.wf_active_filter, wf_filter_in_use(s))),
                i <= self.workflows@.len(),
                summaries_view(kept@) == s.workflows.take(i as int).filter(pred),
            decreases self.workflows@.len() - i,
        {
            proof {
                reveal(Seq::filter);
                assert(s.workflows.take(i + 1).drop_last() =~= s.workflows.take(i as int));
                assert(s.workflows.take(i + 1).last() == self.workflows@[i as int]@);
            }
            if wf_visible_exec(&self.workflows[i], self.wf_active_filter, &text, &lower) {
                let ghost before = kept@;
                kept.push(self.workflows[i].duplicate());
                proof {
                    assert(summaries_view(kept@) =~= summaries_view(before).push(self.workflows@[i as int]@));
                }
            }
            i = i + 1;
        }
        proof {
            assert(s.workflows.take(s.workflows.len() as int) =~= s.workflows);
        }
        let result = sort_workflows(kept, self.wf_sort);
        self.wf_scroll.set_len(result.len());
        self.cached_filtered_wf = Some(copy_summaries(&result));
        self.wf_cache_dirty = false;
        result
    }

    /// The execution list as filtered and sorted (cached until a change).
    pub fn filtered_executions(&mut self) -> (r: Vec<ExecutionSummary>)
        ensures
            (final(self)@, r@) == executions_step(old(self)@),
            cache_coherent(old(self)@) ==> r@ == fresh_executions(old(self)@) && cache_coherent(final(self)@),
    {
        proof {
            if cache_coherent(self@) {
                law_filtered_lists_fresh(self@);
            }
            reveal(executions_step);
        }
        if !self.exec_cache_dirty {
            match &self.cached_filtered_exec {
                Some(cached) => {
                    return copy_executions(cached);
                },
                None => {},
            }
        }
        let text: String = if self.input_mode == InputMode::Filter && self.view == View::ExecutionList {
            self.filter_input.clone()
        } else {
            self.exec_filter_text.clone()
        };
        let lower = chars_of(to_lowercase(text.as_str()).as_str());
        let ghost s = self@;
        let ghost pred = |e: ExecutionSummary| exec_visible(e, s.exec_status_filter, exec_filter_in_use(s));
        let mut kept: Vec<ExecutionSummary> = Vec::new();
        let mut i: usize = 0;
        while i < self.executions.len()
            invariant
                s == self@,
                text@ == exec_filter_in_use(s),
                lower@ == lowercase(text@),
                pred == (|e: ExecutionSummary| exec_visible(e, s.exec_status_filter, exec_filter_in_use(s))),
                i <= self.executions@.len(),
                kept@ == s.executions.take(i as int).filter(pred),
            decreases self.executions@.len() - i,
        {
            proof {
                reveal(Seq::filter);
                assert(s.executions.take(i + 1).drop_last() =~= s.executions.take(i as int));
            }
            if exec_visible_exec(&self.executions[i], &self.exec_status_filter, &text, &lower) {
                kept.push(self.executions[i].duplicate());
            }
            i = i + 1;
        }
        proof {
            assert(s.executions.take(s.executions.len() as int) =~= s.executions);
        }
        let result = sort_executions(kept, self.exec_sort);
        self.exec_scroll.set_len(result.len());
        self.cached_filtered_exec = Some(copy_executions(&result));
        self.exec_cache_dirty = false;
        result
    }
}


// ─── The transition model ───────────────────────────────────────────────────
/// A move of the selection in a list.
#[derive(Clone, Copy, Debug, PartialEq, Eq, Structural)]
pub enum NavOp {
    Up,
    Down,
    Top,
    Bottom,
    PageUp,
    PageDown,
}

/// A list state after a move; pages are 20 rows.
pub open spec fn nav(v: ScrollView, op: NavOp) -> ScrollView {
    match op {
        NavOp::Up => v.moved_up(),
        NavOp::Down => v.moved_down(),
        NavOp::Top => v.at_top(),
        NavOp::Bottom => v.at_bottom(),
        NavOp::PageUp => v.paged_up(20),
        NavOp::PageDown => v.paged_down(20),
    }
}

/// The state after a move in the current view's list: executions, node
/// runs, findings, or (in every other view) workflows.
pub open spec fn navigated(s: AppView, op: NavOp) -> AppView {
    match s.view {
        View::ExecutionList => AppView { exec_scroll: nav(s.exec_scroll, op), ..s },
        View::ExecutionDetail => AppView { node_scroll: nav(s.node_scroll, op), ..s },
        View::Insights => AppView { insight_scroll: nav(s.insight_scroll, op), ..s },
        _ => AppView { wf_scroll: nav(s.wf_scroll, op), ..s },
    }
}

/// Both list caches marked stale.
pub open spec fn invalidated(s: AppView) -> AppView {
    AppView { wf_cache_dirty: true, exec_cache_dirty: true, ..s }
}

/// No effects.
pub open spec fn none() -> Seq<EffectView> {
    Seq::empty()
}

/// One request to the worker.
pub open spec fn send(r: WorkerRequestView) -> Seq<EffectView> {
    seq![EffectView::SendWorkerRequest(r)]
}

/// Auto-refresh: when on, idle and due, the current list view's data is
/// fetched again (detail views are left alone).
pub open spec fn tick_step(s: AppView) -> (AppView, Seq<EffectView>) {
    if !s.auto_refresh || s.loading {
        (s, none())
    } else if span_secs(s.last_refresh, s.now) < (s.auto_refresh_interval_secs as i64) as int {
        (s, none())
    } else {
        let s1 = AppView { last_refresh: s.now, ..s };
        match s.view {
            View::WorkflowList => (s1, send(WorkerRequestView::FetchWorkflows(active_only(s.wf_active_filter)))),
            View::ExecutionList => (s1, send(WorkerRequestView::FetchExecutions(status_only(s.exec_status_filter)))),
            View::Insights => (s1, send(WorkerRequestView::RunInsights(5))),
            _ => (s1, none()),
        }
    }
}

/// Going back: closes the help overlay, otherwise leaves a detail view for
/// the view it came from.
pub open spec fn back_state(s: AppView) -> AppView {
    if s.show_help {
        AppView { show_help: false, ..s }
    } else {
        match s.view {
            View::WorkflowDetail => AppView { view: View::WorkflowList, ..s },
            View::WorkflowNodeInspect => AppView { view: View::WorkflowDetail, ..s },
            View::ExecutionDetail => AppView { view: View::ExecutionList, ..s },
            View::NodeDetail(_) => AppView { view: View::ExecutionDetail, ..s },
            View::InsightDetail(_) => AppView { view: View::Insights, ..s },
            _ => s,
        }
    }
}

/// Selecting: fetches the selected workflow or execution, or opens the
/// selected node run or finding.
pub open spec fn select_step(s: AppView) -> (AppView, Seq<EffectView>) {
    match s.view {
        View::WorkflowList => {
            let (s1, list) = workflows_step(s);
            let sel = s1.wf_scroll.selected;
            if sel < list.len() {
                (
                    AppView { loading: true, ..s1 },
                    send(WorkerRequestView::FetchWorkflowDetail(list[sel as int].id@)),
                )
            } else {
                (s1, none())
            }
        },
        View::ExecutionList => {
            let (s1, list) = executions_step(s);
            let sel = s1.exec_scroll.selected;
            if sel < list.len() {
                (
                    AppView { loading: true, ..s1 },
                    send(WorkerRequestView::FetchExecutionDetail(list[sel as int].id@, true)),
                )
            } else {
                (s1, none())
            }
        },
        View::ExecutionDetail => (AppView { view: View::NodeDetail(s.node_scroll.selected as usize), ..s }, none()),
        View::Insights => (AppView { view: View::InsightDetail(s.insight_scroll.selected as usize), ..s }, none()),
        _ => (s, none()),
    }
}

/// Showing the active tab's view; the insights scan starts the first time.
pub open spec fn switch_tab(s: AppView) -> (AppView, Seq<EffectView>) {
    if s.active_tab == 0 {
        (AppView { view: View::WorkflowList, ..s }, none())
    } else if s.active_tab == 1 {
        (AppView { view: View::ExecutionList, ..s }, none())
    } else if s.active_tab == 2 {
        if s.insights_result is None && !s.loading {
            (AppView { view: View::Insights, loading: true, ..s }, send(WorkerRequestView::RunInsights(5)))
        } else {
            (AppView { view: View::Insights, ..s }, none())
        }
    } else {
        (s, none())
    }
}

/// Applying the typed filter text to the current list.
pub open spec fn apply_filter(s: AppView) -> AppView {
    let s1 = AppView { input_mode: InputMode::Normal, ..s };
    let s2 = match s.view {
        View::WorkflowList => AppView { wf_filter_text: s.filter_input, wf_scroll: s.wf_scroll.at_top(), ..s1 },
        View::ExecutionList => AppView { exec_filter_text: s.filter_input, exec_scroll: s.exec_scroll.at_top(), ..s1 },
        _ => s1,
    };
    invalidated(AppView { filter_input: Seq::empty(), ..s2 })
}

/// The next kind when a sort key is chosen: ascending, or descending when
/// already ascending.
pub open spec fn toggled(current: SortKind, asc: SortKind, desc: SortKind) -> SortKind {
    if current == asc {
        desc
    } else {
        asc
    }
}

/// Sorting by name (workflow and execution lists).
pub open spec fn sort_name_state(s: AppView) -> AppView {
    match s.view {
        View::WorkflowList => invalidated(AppView { wf_sort: toggled(s.wf_sort, SortKind::NameAsc, SortKind::NameDesc), ..s }),
        View::ExecutionList => invalidated(AppView { exec_sort: toggled(s.exec_sort, SortKind::NameAsc, SortKind::NameDesc), ..s }),
        _ => s,
    }
}

/// Sorting by status (workflow and execution lists).
pub open spec fn sort_status_state(s: AppView) -> AppView {
    match s.view {
        View::WorkflowList => invalidated(AppView { wf_sort: toggled(s.wf_sort, SortKind::StatusAsc, SortKind::StatusDesc), ..s }),
        View::ExecutionList => invalidated(AppView { exec_sort: toggled(s.exec_sort, SortKind::StatusAsc, SortKind::StatusDesc), ..s }),
        _ => s,
    }
}

/// Sorting by update time (workflow list).
pub open spec fn sort_updated_state(s: AppView) -> AppView {
    match s.view {
        View::WorkflowList => invalidated(AppView { wf_sort: toggled(s.wf_sort, SortKind::UpdatedAsc, SortKind::UpdatedDesc), ..s }),
        _ => s,
    }
}

/// Sorting by duration (execution list).
pub open spec fn sort_duration_state(s: AppView) -> AppView {
    match s.view {
        View::ExecutionList => invalidated(AppView { exec_sort: toggled(s.exec_sort, SortKind::DurationAsc, SortKind::DurationDesc), ..s }),
        _ => s,
    }
}

/// A manual refresh of the current view's data.
pub open spec fn refresh_step(s: AppView) -> (AppView, Seq<EffectView>) {
    let s1 = AppView { loading: true, ..s };
    match s.view {
        View::WorkflowList | View::WorkflowDetail => (s1, send(WorkerRequestView::FetchWorkflows(active_only(s.wf_active_filter)))),
        View::ExecutionList | View::ExecutionDetail => (s1, send(WorkerRequestView::FetchExecutions(status_only(s.exec_status_filter)))),
        View::Insights => (s1, send(WorkerRequestView::RunInsights(5))),
        _ => (s, none()),
    }
}

/// Activating or deactivating the selected workflow.
pub open spec fn toggle_step(s: AppView) -> (AppView, Seq<EffectView>) {
    if s.view != View::WorkflowList {
        (s, none())
    } else {
        let (s1, list) = workflows_step(s);
        let sel = s1.wf_scroll.selected;
        if sel < list.len() {
            let w = list[sel as int];
            (
                AppView { loading: true, ..s1 },
                send(
                    if w.active {
                        WorkerRequestView::DeactivateWorkflow(w.id@)
                    } else {
                        WorkerRequestView::ActivateWorkflow(w.id@)
                    },
                ),
            )
        } else {
            (s1, none())
        }
    }
}

/// Retrying the execution shown in detail.
pub open spec fn retry_step(s: AppView) -> (AppView, Seq<EffectView>) {
    if s.view != View::ExecutionDetail {
        (s, none())
    } else {
        match s.execution_detail {
            Some(d) => (AppView { loading: true, ..s }, send(WorkerRequestView::RetryExecution(d.id@))),
            None => (s, none()),
        }
    }
}

/// The instance URL without trailing slashes.
pub open spec fn url_base(s: AppView) -> Seq<char> {
    trim_end_char(s.base_url, '/')
}

/// The link to the current item: the selected or shown workflow or
/// execution.
pub open spec fn url_step(s: AppView) -> (AppView, Option<Seq<char>>) {
    let base = url_base(s);
    match s.view {
        View::WorkflowList => {
            let (s1, list) = workflows_step(s);
            let sel = s1.wf_scroll.selected;
            (s1, if sel < list.len() { Some(base + "/workflow/"@ + list[sel as int].id@) } else { None })
        },
        View::WorkflowDetail => (s, match s.workflow_detail {
            Some(d) => Some(base + "/workflow/"@ + d.id@),
            None => None,
        }),
        View::ExecutionList => {
            let (s1, list) = executions_step(s);
            let sel = s1.exec_scroll.selected;
            (s1, if sel < list.len() { Some(base + "/executions/"@ + list[sel as int].id@) } else { None })
        },
        View::ExecutionDetail | View::NodeDetail(_) => (s, match s.execution_detail {
            Some(d) => Some(base + "/executions/"@ + d.id@),
            None => None,
        }),
        _ => (s, None),
    }
}

/// Copying (`open` false) or opening the link to the current item, with a
/// message saying so.
pub open spec fn link_step(s: AppView, open: bool) -> (AppView, Seq<EffectView>) {
    let (s1, url) = url_step(s);
    match url {
        Some(u) => if open {
            (AppView { status_message: Some("Opened: "@ + u), ..s1 }, seq![EffectView::OpenUrl(u)])
        } else {
            (AppView { status_message: Some("Copied: "@ + u), ..s1 }, seq![EffectView::CopyToClipboard(u)])
        },
        None => (s1, none()),
    }
}

/// New workflows: stored, the list recomputed and its state sized to it.
pub open spec fn workflows_loaded(s: AppView, ws: Seq<WorkflowSummaryView>) -> AppView {
    let s1 = AppView { workflows: ws, loading: false, last_refresh: s.now, wf_cache_dirty: true, ..s };
    let (s2, list) = workflows_step(s1);
    AppView { wf_scroll: s2.wf_scroll.with_len(list.len()), ..s2 }
}

/// New executions: stored and counted, the list recomputed and its state
/// sized to it.
pub open spec fn executions_loaded(s: AppView, es: Seq<ExecutionSummary>) -> AppView {
    let s1 = AppView {
        exec_counts: StatusCounts::of(es),
        executions: es,
        loading: false,
        last_refresh: s.now,
        exec_cache_dirty: true,
        ..s
    };
    let (s2, list) = executions_step(s1);
    AppView { exec_scroll: s2.exec_scroll.with_len(list.len()), ..s2 }
}

/// An execution's details: its node runs parsed once, the first selected,
/// and the detail view shown.
pub open spec fn execution_detail_loaded(s: AppView, d: ExecutionDetail) -> AppView {
    let runs = node_runs_of(d.data);
    AppView {
        cached_node_runs: runs,
        node_scroll: s.node_scroll.with_len(runs.len()).at_top(),
        execution_detail: Some(d),
        view: View::ExecutionDetail,
        loading: false,
        ..s
    }
}

/// A finished insights scan, with the findings list sized to it.
pub open spec fn insights_loaded(s: AppView, r: InsightsResult) -> AppView {
    AppView {
        insight_scroll: s.insight_scroll.with_len(r.findings@.len()),
        insights_result: Some(r),
        loading: false,
        ..s
    }
}

/// Actions that quit, move through lists, views and tabs, or toggle help.
pub open spec fn is_move(a: ActionView) -> bool {
    a is Quit || a is Back || a is MoveUp || a is MoveDown || a is MoveTop || a is MoveBottom
        || a is PageUp || a is PageDown || a is Select || a is CycleTab || a is GoToTab
        || a is ToggleHelp
}

/// Actions that edit or apply a filter, or choose a sort order.
pub open spec fn is_edit(a: ActionView) -> bool {
    a is StartFilter || a is FilterChar || a is FilterBackspace || a is CancelFilter
        || a is ApplyFilter || a is StatusFilter || a is ActiveFilter || a is SortByName
        || a is SortByStatus || a is SortByUpdated || a is SortByDuration
}

/// Actions that deliver data the worker loaded.
pub open spec fn is_loaded(a: ActionView) -> bool {
    a is WorkflowsLoaded || a is WorkflowDetailLoaded || a is ExecutionsLoaded
        || a is ExecutionDetailLoaded || a is InsightsLoaded
}

/// Quitting, moving through lists, views and tabs, and the help overlay.
#[verifier::opaque]
pub open spec fn move_step(s: AppView, a: ActionView) -> (AppView, Seq<EffectView>) {
    match a {
        ActionView::Quit => (AppView { should_quit: true, ..s }, seq![EffectView::Quit]),
        ActionView::Back => (back_state(AppView { quit_requested: false, ..s }), none()),
        ActionView::MoveUp => (navigated(AppView { quit_requested: false, ..s }, NavOp::Up), none()),
        ActionView::MoveDown => (navigated(AppView { quit_requested: false, ..s }, NavOp::Down), none()),
        ActionView::MoveTop => (navigated(s, NavOp::Top), none()),
        ActionView::MoveBottom => (navigated(s, NavOp::Bottom), none()),
        ActionView::PageUp => (navigated(s, NavOp::PageUp), none()),
        ActionView::PageDown => (navigated(s, NavOp::PageDown), none()),
        ActionView::Select => select_step(s),
        ActionView::CycleTab => switch_tab(AppView { quit_requested: false, active_tab: ((s.active_tab + 1) % 3) as usize, ..s }),
        ActionView::GoToTab(idx) => switch_tab(AppView { quit_requested: false, active_tab: if idx < 2 { idx } else { 2 }, ..s }),
        ActionView::ToggleHelp => (AppView { show_help: !s.show_help, ..s }, none()),
        _ => (s, none()),
    }
}

/// Editing and applying filters, and choosing the sort order.
#[verifier::opaque]
pub open spec fn edit_step(s: AppView, a: ActionView) -> AppView {
    match a {
        ActionView::StartFilter => invalidated(AppView { input_mode: InputMode::Filter, filter_input: Seq::empty(), ..s }),
        ActionView::FilterChar(c) => invalidated(AppView { filter_input: s.filter_input.push(c), ..s }),
        ActionView::FilterBackspace => invalidated(AppView {
            filter_input: if s.filter_input.len() > 0 { s.filter_input.drop_last() } else { s.filter_input },
            ..s
        }),
        ActionView::CancelFilter => invalidated(AppView { input_mode: InputMode::Normal, filter_input: Seq::empty(), ..s }),
        ActionView::ApplyFilter => apply_filter(s),
        ActionView::StatusFilter(st) => AppView { exec_status_filter: st, exec_scroll: s.exec_scroll.at_top(), exec_cache_dirty: true, ..s },
        ActionView::ActiveFilter(act) => AppView {
            wf_active_filter: if s.wf_active_filter == act { None } else { act },
            wf_scroll: s.wf_scroll.at_top(),
            wf_cache_dirty: true,
            ..s
        },
        ActionView::SortByName => sort_name_state(s),
        ActionView::SortByStatus => sort_status_state(s),
        ActionView::SortByUpdated => sort_updated_state(s),
        ActionView::SortByDuration => sort_duration_state(s),
        _ => s,
    }
}

/// Storing data the worker loaded.
#[verifier::opaque]
pub open spec fn loaded_step(s: AppView, a: ActionView) -> AppView {
    match a {
        ActionView::WorkflowsLoaded(ws) => workflows_loaded(s, ws),
        ActionView::WorkflowDetailLoaded(d) => AppView {
            workflow_detail: Some(d),
            view: View::WorkflowDetail,
            graph_pan_x: 0,
            graph_pan_y: 0,
            graph_selected_node: 0,
            loading: false,
            ..s
        },
        ActionView::ExecutionsLoaded(es) => executions_loaded(s, es),
        ActionView::ExecutionDetailLoaded(d) => execution_detail_loaded(s, d),
        ActionView::InsightsLoaded(r) => insights_loaded(s, r),
        _ => s,
    }
}

/// Refreshing, activating, retrying, copying or opening links, and load
/// errors.
#[verifier::opaque]
pub open spec fn command_step(s: AppView, a: ActionView) -> (AppView, Seq<EffectView>) {
    match a {
        ActionView::Refresh => refresh_step(s),
        ActionView::ToggleActivation => toggle_step(s),
        ActionView::RetryExecution => retry_step(s),
        ActionView::CopyUrl => link_step(s, false),
        ActionView::OpenInBrowser => link_step(s, true),
        ActionView::LoadError(m) => (AppView { status_message: Some("Error: "@ + m), loading: false, ..s }, none()),
        _ => (s, none()),
    }
}

/// The effect of an action other than a key press: a tick may refresh; any
/// other action first clears the status message.
pub open spec fn basic_step(s0: AppView, a: ActionView) -> (AppView, Seq<EffectView>) {
    let (t, e) = dispatched(s0, a);
    (settled(s0, t), e)
}

/// The lists filter by the typed text only in their own view, so a view
/// change while filtering marks both caches stale.
pub open spec fn settled(s: AppView, t: AppView) -> AppView {
    if s.input_mode == InputMode::Filter && t.view != s.view {
        invalidated(t)
    } else {
        t
    }
}

/// A non-key action, dispatched to its group.
pub open spec fn dispatched(s0: AppView, a: ActionView) -> (AppView, Seq<EffectView>) {
    if a is Tick {
        tick_step(s0)
    } else {
        let s = AppView { status_message: None, ..s0 };
        if is_move(a) {
            move_step(s, a)
        } else if is_edit(a) {
            (edit_step(s, a), none())
        } else if is_loaded(a) {
            (loaded_step(s, a), none())
        } else if a is Key {
            (s, none())
        } else {
            command_step(s, a)
        }
    }
}

// ─── Keys ───────────────────────────────────────────────────────────────────
/// Keys that edit the filter text while filtering.
pub open spec fn filter_key_action(code: KeyCode) -> Option<ActionView> {
    match code {
        KeyCode::Esc => Some(ActionView::CancelFilter),
        KeyCode::Enter => Some(ActionView::ApplyFilter),
        KeyCode::Backspace => Some(ActionView::FilterBackspace),
        KeyCode::Char(c) => Some(ActionView::FilterChar(c)),
        _ => None,
    }
}

/// Keys the workflow graph takes for itself.
pub open spec fn graph_key(code: KeyCode) -> bool {
    code == KeyCode::Left || code == KeyCode::Char('h') || code == KeyCode::Right || code
        == KeyCode::Char('l') || code == KeyCode::Up || code == KeyCode::Char('k') || code
        == KeyCode::Down || code == KeyCode::Char('j') || code == KeyCode::Tab || code
        == KeyCode::Enter || code == KeyCode::Char('0')
}

/// The next node of the graph, cyclically.
pub open spec fn next_node(s: AppView) -> usize {
    match s.workflow_detail {
        Some(d) => if d.nodes@.len() > 0 {
            ((s.graph_selected_node + 1) % (d.nodes@.len() as int)) as usize
        } else {
            s.graph_selected_node
        },
        None => s.graph_selected_node,
    }
}

/// The previous node of the graph, cyclically.
pub open spec fn prev_node(s: AppView) -> usize {
    match s.workflow_detail {
        Some(d) => if d.nodes@.len() > 0 {
            if s.graph_selected_node == 0 {
                (d.nodes@.len() - 1) as usize
            } else {
                (s.graph_selected_node - 1) as usize
            }
        } else {
            s.graph_selected_node
        },
        None => s.graph_selected_node,
    }
}

/// The workflow has nodes to cycle through.
pub open spec fn has_nodes(s: AppView) -> bool {
    s.workflow_detail matches Some(d) && d.nodes@.len() > 0
}

/// Panning, node selection and inspection in the workflow graph.
pub open spec fn graph_state(s: AppView, code: KeyCode) -> AppView {
    if code == KeyCode::Left || code == KeyCode::Char('h') {
        AppView { graph_pan_x: s.graph_pan_x.wrapping_sub(4), ..s }
    } else if code == KeyCode::Right || code == KeyCode::Char('l') {
        AppView { graph_pan_x: s.graph_pan_x.wrapping_add(4), ..s }
    } else if code == KeyCode::Up || code == KeyCode::Char('k') {
        AppView { graph_pan_y: s.graph_pan_y.wrapping_sub(2), ..s }
    } else if code == KeyCode::Down || code == KeyCode::Char('j') {
        AppView { graph_pan_y: s.graph_pan_y.wrapping_add(2), ..s }
    } else if code == KeyCode::Tab {
        AppView { graph_selected_node: next_node(s), ..s }
    } else if code == KeyCode::Enter {
        AppView { view: View::WorkflowNodeInspect, ..s }
    } else {
        AppView { graph_pan_x: 0, graph_pan_y: 0, ..s }
    }
}

/// Keys the node inspector takes for itself.
pub open spec fn inspect_key(code: KeyCode) -> bool {
    code == KeyCode::Char('j') || code == KeyCode::Down || code == KeyCode::Char('k') || code
        == KeyCode::Up || code == KeyCode::Char('d') || code == KeyCode::Char('u') || code
        == KeyCode::Char('g') || code == KeyCode::Char('G') || code == KeyCode::Tab || code
        == KeyCode::Char('n') || code == KeyCode::Char('N') || code == KeyCode::BackTab
}

/// Scrolling the parameters and cycling nodes in the node inspector.
pub open spec fn inspect_state(s: AppView, code: KeyCode) -> AppView {
    if code == KeyCode::Char('j') || code == KeyCode::Down {
        AppView { node_inspect_scroll: s.node_inspect_scroll.saturating_add(1), ..s }
    } else if code == KeyCode::Char('k') || code == KeyCode::Up {
        AppView { node_inspect_scroll: s.node_inspect_scroll.saturating_sub(1), ..s }
    } else if code == KeyCode::Char('d') {
        AppView { node_inspect_scroll: s.node_inspect_scroll.saturating_add(10), ..s }
    } else if code == KeyCode::Char('u') {
        AppView { node_inspect_scroll: s.node_inspect_scroll.saturating_sub(10), ..s }
    } else if code == KeyCode::Char('g') {
        AppView { node_inspect_scroll: 0, ..s }
    } else if code == KeyCode::Char('G') {
        AppView { node_inspect_scroll: u16::MAX, ..s }
    } else if code == KeyCode::Tab || code == KeyCode::Char('n') {
        if has_nodes(s) {
            AppView { graph_selected_node: next_node(s), node_inspect_scroll: 0, ..s }
        } else {
            s
        }
    } else {
        if has_nodes(s) {
            AppView { graph_selected_node: prev_node(s), node_inspect_scroll: 0, ..s }
        } else {
            s
        }
    }
}

/// Navigation keys shared by every view.
pub open spec fn universal_action(k: KeyEvent) -> Option<ActionView> {
    let c = k.code;
    if c == KeyCode::Char('j') || c == KeyCode::Down {
        Some(ActionView::MoveDown)
    } else if c == KeyCode::Char('k') || c == KeyCode::Up {
        Some(ActionView::MoveUp)
    } else if c == KeyCode::Char('g') && !k.modifiers.shift {
        Some(ActionView::MoveTop)
    } else if c == KeyCode::Char('G') {
        Some(ActionView::MoveBottom)
    } else if c == KeyCode::Char('d') && k.modifiers.control {
        Some(ActionView::PageDown)
    } else if c == KeyCode::Char('u') && k.modifiers.control {
        Some(ActionView::PageUp)
    } else if c == KeyCode::PageDown {
        Some(ActionView::PageDown)
    } else if c == KeyCode::PageUp {
        Some(ActionView::PageUp)
    } else if c == KeyCode::Enter {
        Some(ActionView::Select)
    } else if c == KeyCode::Esc || c == KeyCode::Backspace {
        Some(ActionView::Back)
    } else if c == KeyCode::Tab {
        Some(ActionView::CycleTab)
    } else if c == KeyCode::Char('1') && k.modifiers.alt {
        Some(ActionView::GoToTab(0))
    } else if c == KeyCode::Char('2') && k.modifiers.alt {
        Some(ActionView::GoToTab(1))
    } else if c == KeyCode::Char('3') && k.modifiers.alt {
        Some(ActionView::GoToTab(2))
    } else {
        None
    }
}

/// Keys whose meaning depends on the view, and the global action keys.
pub open spec fn view_key_action(v: View, c: KeyCode) -> Option<ActionView> {
    if v == View::WorkflowList && c == KeyCode::Char('a') {
        Some(ActionView::ActiveFilter(Some(true)))
    } else if v == View::WorkflowList && c == KeyCode::Char('i') {
        Some(ActionView::ActiveFilter(Some(false)))
    } else if v == View::WorkflowList && c == KeyCode::Char('0') {
        Some(ActionView::ActiveFilter(None))
    } else if v == View::WorkflowList && c == KeyCode::Char('A') {
        Some(ActionView::ToggleActivation)
    } else if v == View::WorkflowList && c == KeyCode::Char('n') {
        Some(ActionView::SortByName)
    } else if v == View::WorkflowList && c == KeyCode::Char('s') {
        Some(ActionView::SortByStatus)
    } else if v == View::WorkflowList && c == KeyCode::Char('u') {
        Some(ActionView::SortByUpdated)
    } else if v == View::ExecutionList && c == KeyCode::Char('1') {
        Some(ActionView::StatusFilter(Some("error"@)))
    } else if v == View::ExecutionList && c == KeyCode::Char('2') {
        Some(ActionView::StatusFilter(Some("running"@)))
    } else if v == View::ExecutionList && c == KeyCode::Char('3') {
        Some(ActionView::StatusFilter(Some("success"@)))
    } else if v == View::ExecutionList && c == KeyCode::Char('4') {
        Some(ActionView::StatusFilter(Some("waiting"@)))
    } else if v == View::ExecutionList && c == KeyCode::Char('5') {
        Some(ActionView::StatusFilter(Some("canceled"@)))
    } else if v == View::ExecutionList && c == KeyCode::Char('0') {
        Some(ActionView::StatusFilter(None))
    } else if v == View::ExecutionList && c == KeyCode::Char('s') {
        Some(ActionView::SortByStatus)
    } else if v == View::ExecutionList && c == KeyCode::Char('n') {
        Some(ActionView::SortByName)
    } else if v == View::ExecutionList && c == KeyCode::Char('d') {
        Some(ActionView::SortByDuration)
    } else if v == View::ExecutionDetail && c == KeyCode::Char('R') {
        Some(ActionView::RetryExecution)
    } else if c == KeyCode::Char('/') {
        Some(ActionView::StartFilter)
    } else if c == KeyCode::Char('r') {
        Some(ActionView::Refresh)
    } else if c == KeyCode::Char('x') {
        Some(ActionView::CopyUrl)
    } else if c == KeyCode::Char('o') {
        Some(ActionView::OpenInBrowser)
    } else if c == KeyCode::Char('?') {
        Some(ActionView::ToggleHelp)
    } else {
        None
    }
}

/// The message shown when auto-refresh is switched on or off.
pub open spec fn pause_message(resumed: bool, secs: u64) -> Seq<char> {
    if resumed {
        "Auto-refresh resumed (every "@ + decimal(secs as nat) + "s)"@
    } else {
        "Auto-refresh paused"@
    }
}

/// A key in normal mode: the graph and the node inspector take their own
/// keys first, then the shared navigation keys, then the view's keys; `p`
/// pauses or resumes auto-refresh and `q` asks to quit, quitting when
/// pressed twice in a row.
pub open spec fn normal_key_step(s: AppView, k: KeyEvent) -> (AppView, Seq<EffectView>) {
    if s.view == View::WorkflowDetail && graph_key(k.code) {
        (graph_state(s, k.code), none())
    } else if s.view == View::WorkflowNodeInspect && inspect_key(k.code) {
        (inspect_state(s, k.code), none())
    } else {
        plain_key_step(s, k)
    }
}

/// A normal-mode key that neither the graph nor the node inspector takes.
#[verifier::opaque]
pub open spec fn plain_key_step(s: AppView, k: KeyEvent) -> (AppView, Seq<EffectView>) {
    match universal_action(k) {
        Some(a) => basic_step(s, a),
        None => match view_key_action(s.view, k.code) {
            Some(a) => basic_step(s, a),
            None => if k.code == KeyCode::Char('p') {
                (AppView {
                    auto_refresh: !s.auto_refresh,
                    status_message: Some(pause_message(!s.auto_refresh, s.auto_refresh_interval_secs)),
                    ..s
                }, none())
            } else if k.code == KeyCode::Char('q') {
                if s.quit_requested {
                    basic_step(s, ActionView::Quit)
                } else {
                    (AppView {
                        quit_requested: true,
                        status_message: Some("Press q again to quit"@),
                        ..s
                    }, none())
                }
            } else {
                (s, none())
            },
        },
    }
}

/// A key press, interpreted by input mode and view.
pub open spec fn key_step(s: AppView, k: KeyEvent) -> (AppView, Seq<EffectView>) {
    match s.input_mode {
        InputMode::Filter => match filter_key_action(k.code) {
            Some(a) => basic_step(s, a),
            None => (s, none()),
        },
        InputMode::Normal => normal_key_step(s, k),
    }
}

/// The effect of any action: the new state and the effects to carry out.
pub open spec fn step(s: AppView, a: ActionView) -> (AppView, Seq<EffectView>) {
    match a {
        ActionView::Key(k) => key_step(AppView { status_message: None, ..s }, k),
        _ => basic_step(s, a),
    }
}


// ─── The transitions ────────────────────────────────────────────────────────
fn no_effects() -> (r: Vec<Effect>)
    ensures
        effects_view(r@) == none(),
{
    let v: Vec<Effect> = Vec::new();
    proof {
        assert(effects_view(v@) =~= none());
    }
    v
}

fn one_effect(e: Effect) -> (r: Vec<Effect>)
    ensures
        effects_view(r@) == seq![e@],
{
    let mut v: Vec<Effect> = Vec::new();
    v.push(e);
    proof {
        assert(effects_view(v@) =~= seq![e@]);
    }
    v
}

fn fetch_workflows(active: Option<bool>) -> (r: Vec<Effect>)
    ensures
        effects_view(r@) == send(WorkerRequestView::FetchWorkflows(active_only(active))),
{
    let mut f = WorkflowFilter::default();
    f.active = active;
    one_effect(Effect::SendWorkerRequest(WorkerRequest::FetchWorkflows(f)))
}

fn fetch_executions(status: &Option<String>) -> (r: Vec<Effect>)
    ensures
        effects_view(r@) == send(WorkerRequestView::FetchExecutions(status_only(opt_chars(*status)))),
{
    let mut f = ExecutionFilter::default();
    f.status = crate::domain::execution::copy_opt_string(status);
    one_effect(Effect::SendWorkerRequest(WorkerRequest::FetchExecutions(f)))
}

fn scroll_apply(sc: &mut ScrollState, op: NavOp)
    ensures
        final(sc)@ == nav(old(sc)@, op),
{
    match op {
        NavOp::Up => sc.move_up(),
        NavOp::Down => sc.move_down(),
        NavOp::Top => sc.move_top(),
        NavOp::Bottom => sc.move_bottom(),
        NavOp::PageUp => sc.page_up(20),
        NavOp::PageDown => sc.page_down(20),
    }
}

fn concat_str(a: &str, b: &str) -> (r: String)
    ensures
        r@ == a@ + b@,
{
    let mut s = String::new();
    push_str(&mut s, a);
    push_str(&mut s, b);
    proof {
        assert(Seq::<char>::empty() + a@ + b@ =~= a@ + b@);
    }
    s
}

fn link(base: &String, middle: &str, id: &String) -> (r: String)
    ensures
        r@ == base@ + middle@ + id@,
{
    let mut s = base.clone();
    push_str(&mut s, middle);
    push_str(&mut s, id.as_str());
    s
}

impl App {
    fn navigate(&mut self, op: NavOp)
        ensures
            final(self)@ == navigated(old(self)@, op),
    {
        match self.view {
            View::ExecutionList => scroll_apply(&mut self.exec_scroll, op),
            View::ExecutionDetail => scroll_apply(&mut self.node_scroll, op),
            View::Insights => scroll_apply(&mut self.insight_scroll, op),
            _ => scroll_apply(&mut self.wf_scroll, op),
        }
    }

    fn invalidate_filter_cache(&mut self)
        ensures
            final(self)@ == invalidated(old(self)@),
    {
        self.wf_cache_dirty = true;
        self.exec_cache_dirty = true;
    }

    fn handle_tick(&mut self) -> (r: Vec<Effect>)
        ensures
            (final(self)@, effects_view(r@)) == tick_step(old(self)@),
    {
        if !self.auto_refresh || self.loading {
            return no_effects();
        }
        let elapsed = elapsed_secs(self.last_refresh, self.now);
        if elapsed < self.auto_refresh_interval_secs as i64 {
            return no_effects();
        }
        self.last_refresh = self.now;
        match self.view {
            View::WorkflowList => fetch_workflows(self.wf_active_filter),
            View::ExecutionList => fetch_executions(&self.exec_status_filter),
            View::Insights => one_effect(Effect::SendWorkerRequest(WorkerRequest::RunInsights(5))),
            _ => no_effects(),
        }
    }

    fn handle_back(&mut self)
        ensures
            final(self)@ == back_state(old(self)@),
    {
        if self.show_help {
            self.show_help = false;
        } else {
            match self.view {
                View::WorkflowDetail => self.view = View::WorkflowList,
                View::WorkflowNodeInspect => self.view = View::WorkflowDetail,
                View::ExecutionDetail => self.view = View::ExecutionList,
                View::NodeDetail(_) => self.view = View::ExecutionDetail,
                View::InsightDetail(_) => self.view = View::Insights,
                _ => {},
            }
        }
    }

    fn select_workflow(&mut self) -> (r: Vec<Effect>)
        requires
            old(self).view == View::WorkflowList,
        ensures
            (final(self)@, effects_view(r@)) == select_step(old(self)@),
    {
        let filtered = self.filtered_workflows();
        let sel = self.wf_scroll.selected();
        if sel < filtered.len() {
            let id = filtered[sel].id.clone();
            self.loading = true;
            return one_effect(Effect::SendWorkerRequest(WorkerRequest::FetchWorkflowDetail(id)));
        }
        no_effects()
    }

    fn select_execution(&mut self) -> (r: Vec<Effect>)
        requires
            old(self).view == View::ExecutionList,
        ensures
            (final(self)@, effects_view(r@)) == select_step(old(self)@),
    {
        let filtered = self.filtered_executions();
        let sel = self.exec_scroll.selected();
        if sel < filtered.len() {
            let id = filtered[sel].id.clone();
            self.loading = true;
            return one_effect(Effect::SendWorkerRequest(WorkerRequest::FetchExecutionDetail(id, true)));
        }
        no_effects()
    }

    fn handle_select(&mut self) -> (r: Vec<Effect>)
        ensures
            (final(self)@, effects_view(r@)) == select_step(old(self)@),
    {
        match self.view {
            View::WorkflowList => self.select_workflow(),
            View::ExecutionList => self.select_execution(),
            View::ExecutionDetail => {
                self.view = View::NodeDetail(self.node_scroll.selected());
                no_effects()
            },
            View::Insights => {
                self.view = View::InsightDetail(self.insight_scroll.selected());
                no_effects()
            },
            _ => no_effects(),
        }
    }

    fn switch_to_tab(&mut self) -> (r: Vec<Effect>)
        ensures
            (final(self)@, effects_view(r@)) == switch_tab(old(self)@),
    {
        if self.active_tab == 0 {
            self.view = View::WorkflowList;
            no_effects()
        } else if self.active_tab == 1 {
            self.view = View::ExecutionList;
            no_effects()
        } else if self.active_tab == 2 {
            self.view = View::Insights;
            if self.insights_result.is_none() && !self.loading {
                self.loading = true;
                one_effect(Effect::SendWorkerRequest(WorkerRequest::RunInsights(5)))
            } else {
                no_effects()
            }
        } else {
            no_effects()
        }
    }

    fn handle_apply_filter(&mut self)
        ensures
            final(self)@ == apply_filter(old(self)@),
    {
        self.input_mode = InputMode::Normal;
        match self.view {
            View::WorkflowList => {
                self.wf_filter_text = self.filter_input.clone();
                self.wf_scroll.reset();
            },
            View::ExecutionList => {
                self.exec_filter_text = self.filter_input.clone();
                self.exec_scroll.reset();
            },
            _ => {},
        }
        self.filter_input = String::new();
        self.invalidate_filter_cache();
    }

    fn toggle_sort_name(&mut self)
        ensures
            final(self)@ == sort_name_state(old(self)@),
    {
        match self.view {
            View::WorkflowList => {
                self.wf_sort = if self.wf_sort == SortKind::NameAsc { SortKind::NameDesc } else { SortKind::NameAsc };
            },
            View::ExecutionList => {
                self.exec_sort = if self.exec_sort == SortKind::NameAsc { SortKind::NameDesc } else { SortKind::NameAsc };
            },
            _ => {
                return ;
            },
        }
        self.invalidate_filter_cache();
    }

    fn toggle_sort_status(&mut self)
        ensures
            final(self)@ == sort_status_state(old(self)@),
    {
        match self.view {
            View::WorkflowList => {
                self.wf_sort = if self.wf_sort == SortKind::StatusAsc { SortKind::StatusDesc } else { SortKind::StatusAsc };
            },
            View::ExecutionList => {
                self.exec_sort = if self.exec_sort == SortKind::StatusAsc { SortKind::StatusDesc } else { SortKind::StatusAsc };
            },
            _ => {
                return ;
            },
        }
        self.invalidate_filter_cache();
    }

    fn toggle_sort_updated(&mut self)
        ensures
            final(self)@ == sort_updated_state(old(self)@),
    {
        match self.view {
            View::WorkflowList => {
                self.wf_sort = if self.wf_sort == SortKind::UpdatedAsc { SortKind::UpdatedDesc } else { SortKind::UpdatedAsc };
            },
            _ => {
                return ;
            },
        }
        self.invalidate_filter_cache();
    }

    fn toggle_sort_duration(&mut self)
        ensures
            final(self)@ == sort_duration_state(old(self)@),
    {
        if self.view != View::ExecutionList {
            return ;
        }
        self.exec_sort = if self.exec_sort == SortKind::DurationAsc { SortKind::DurationDesc } else { SortKind::DurationAsc };
        self.invalidate_filter_cache();
    }

    fn handle_refresh(&mut self) -> (r: Vec<Effect>)
        ensures
            (final(self)@, effects_view(r@)) == refresh_step(old(self)@),
    {
        match self.view {
            View::WorkflowList | View::WorkflowDetail => {
                self.loading = true;
                fetch_workflows(self.wf_active_filter)
            },
            View::ExecutionList | View::ExecutionDetail => {
                self.loading = true;
                fetch_executions(&self.exec_status_filter)
            },
            View::Insights => {
                self.loading = true;
                one_effect(Effect::SendWorkerRequest(WorkerRequest::RunInsights(5)))
            },
            _ => no_effects(),
        }
    }

    fn handle_toggle_activation(&mut self) -> (r: Vec<Effect>)
        ensures
            (final(self)@, effects_view(r@)) == toggle_step(old(self)@),
    {
        if self.view != View::WorkflowList {
            return no_effects();
        }
        let filtered = self.filtered_workflows();
        let sel = self.wf_scroll.selected();
        if sel < filtered.len() {
            let id = filtered[sel].id.clone();
            self.loading = true;
            if filtered[sel].active {
                one_effect(Effect::SendWorkerRequest(WorkerRequest::DeactivateWorkflow(id)))
            } else {
                one_effect(Effect::SendWorkerRequest(WorkerRequest::ActivateWorkflow(id)))
            }
        } else {
            no_effects()
        }
    }

    fn handle_retry(&mut self) -> (r: Vec<Effect>)
        ensures
            (final(self)@, effects_view(r@)) == retry_step(old(self)@),
    {
        if self.view != View::ExecutionDetail {
            return no_effects();
        }
        match &self.execution_detail {
            Some(detail) => {
                let id = detail.id.clone();
                self.loading = true;
                one_effect(Effect::SendWorkerRequest(WorkerRequest::RetryExecution(id)))
            },
            None => no_effects(),
        }
    }

    /// The link to the currently selected or shown item.
    fn current_item_url(&mut self) -> (r: Option<String>)
        ensures
            (final(self)@, opt_chars(r)) == url_step(old(self)@),
    {
        let base = trim_end_matches(self.base_url.as_str(), '/');
        match self.view {
            View::WorkflowList => {
                let filtered = self.filtered_workflows();
                let sel = self.wf_scroll.selected();
                if sel < filtered.len() {
                    Some(link(&base, "/workflow/", &filtered[sel].id))
                } else {
                    None
                }
            },
            View::WorkflowDetail => match &self.workflow_detail {
                Some(d) => Some(link(&base, "/workflow/", &d.id)),
                None => None,
            },
            View::ExecutionList => {
                let filtered = self.filtered_executions();
                let sel = self.exec_scroll.selected();
                if sel < filtered.len() {
                    Some(link(&base, "/executions/", &filtered[sel].id))
                } else {
                    None
                }
            },
            View::ExecutionDetail | View::NodeDetail(_) => match &self.execution_detail {
                Some(d) => Some(link(&base, "/executions/", &d.id)),
                None => None,
            },
            _ => None,
        }
    }
}


/// An action that key handling can produce (no key, no loaded data).
pub open spec fn key_made(a: Action) -> bool {
    !(a is Key) && !(a is WorkflowsLoaded) && !(a is WorkflowDetailLoaded) && !(a is ExecutionsLoaded)
        && !(a is ExecutionDetailLoaded) && !(a is InsightsLoaded) && !(a is LoadError)
}

/// The action of a key while filtering.
fn filter_key_exec(code: KeyCode) -> (r: Option<Action>)
    ensures
        match r {
            Some(a) => key_made(a) && filter_key_action(code) == Some(a@),
            None => filter_key_action(code) is None,
        },
{
    match code {
        KeyCode::Esc => Some(Action::CancelFilter),
        KeyCode::Enter => Some(Action::ApplyFilter),
        KeyCode::Backspace => Some(Action::FilterBackspace),
        KeyCode::Char(c) => Some(Action::FilterChar(c)),
        _ => None,
    }
}

fn is_graph_key(code: KeyCode) -> (r: bool)
    ensures
        r == graph_key(code),
{
    code == KeyCode::Left || code == KeyCode::Char('h') || code == KeyCode::Right || code
        == KeyCode::Char('l') || code == KeyCode::Up || code == KeyCode::Char('k') || code
        == KeyCode::Down || code == KeyCode::Char('j') || code == KeyCode::Tab || code
        == KeyCode::Enter || code == KeyCode::Char('0')
}

fn is_inspect_key(code: KeyCode) -> (r: bool)
    ensures
        r == inspect_key(code),
{
    code == KeyCode::Char('j') || code == KeyCode::Down || code == KeyCode::Char('k') || code
        == KeyCode::Up || code == KeyCode::Char('d') || code == KeyCode::Char('u') || code
        == KeyCode::Char('g') || code == KeyCode::Char('G') || code == KeyCode::Tab || code
        == KeyCode::Char('n') || code == KeyCode::Char('N') || code == KeyCode::BackTab
}

fn universal_action_exec(k: KeyEvent) -> (r: Option<Action>)
    ensures
        match r {
            Some(a) => key_made(a) && universal_action(k) == Some(a@),
            None => universal_action(k) is None,
        },
{
    let c = k.code;
    if c == KeyCode::Char('j') || c == KeyCode::Down {
        Some(Action::MoveDown)
    } else if c == KeyCode::Char('k') || c == KeyCode::Up {
        Some(Action::MoveUp)
    } else if c == KeyCode::Char('g') && !k.modifiers.shift {
        Some(Action::MoveTop)
    } else if c == KeyCode::Char('G') {
        Some(Action::MoveBottom)
    } else if c == KeyCode::Char('d') && k.modifiers.control {
        Some(Action::PageDown)
    } else if c == KeyCode::Char('u') && k.modifiers.control {
        Some(Action::PageUp)
    } else if c == KeyCode::PageDown {
        Some(Action::PageDown)
    } else if c == KeyCode::PageUp {
        Some(Action::PageUp)
    } else if c == KeyCode::Enter {
        Some(Action::Select)
    } else if c == KeyCode::Esc || c == KeyCode::Backspace {
        Some(Action::Back)
    } else if c == KeyCode::Tab {
        Some(Action::CycleTab)
    } else if c == KeyCode::Char('1') && k.modifiers.alt {
        Some(Action::GoToTab(0))
    } else if c == KeyCode::Char('2') && k.modifiers.alt {
        Some(Action::GoToTab(1))
    } else if c == KeyCode::Char('3') && k.modifiers.alt {
        Some(Action::GoToTab(2))
    } else {
        None
    }
}

fn status_filter_of(key: &str) -> (r: Action)
    ensures
        key_made(r),
        r@ == ActionView::StatusFilter(Some(key@)),
{
    Action::StatusFilter(Some(copy_str(key)))
}

fn view_key_action_exec(v: View, c: KeyCode) -> (r: Option<Action>)
    ensures
        match r {
            Some(a) => key_made(a) && view_key_action(v, c) == Some(a@),
            None => view_key_action(v, c) is None,
        },
{
    if v == View::WorkflowList && c == KeyCode::Char('a') {
        Some(Action::ActiveFilter(Some(true)))
    } else if v == View::WorkflowList && c == KeyCode::Char('i') {
        Some(Action::ActiveFilter(Some(false)))
    } else if v == View::WorkflowList && c == KeyCode::Char('0') {
        Some(Action::ActiveFilter(None))
    } else if v == View::WorkflowList && c == KeyCode::Char('A') {
        Some(Action::ToggleActivation)
    } else if v == View::WorkflowList && c == KeyCode::Char('n') {
        Some(Action::SortByName)
    } else if v == View::WorkflowList && c == KeyCode::Char('s') {
        Some(Action::SortByStatus)
    } else if v == View::WorkflowList && c == KeyCode::Char('u') {
        Some(Action::SortByUpdated)
    } else if v == View::ExecutionList && c == KeyCode::Char('1') {
        Some(status_filter_of("error"))
    } else if v == View::ExecutionList && c == KeyCode::Char('2') {
        Some(status_filter_of("running"))
    } else if v == View::ExecutionList && c == KeyCode::Char('3') {
        Some(status_filter_of("success"))
    } else if v == View::ExecutionList && c == KeyCode::Char('4') {
        Some(status_filter_of("waiting"))
    } else if v == View::ExecutionList && c == KeyCode::Char('5') {
        Some(status_filter_of("canceled"))
    } else if v == View::ExecutionList && c == KeyCode::Char('0') {
        Some(Action::StatusFilter(None))
    } else if v == View::ExecutionList && c == KeyCode::Char('s') {
        Some(Action::SortByStatus)
    } else if v == View::ExecutionList && c == KeyCode::Char('n') {
        Some(Action::SortByName)
    } else if v == View::ExecutionList && c == KeyCode::Char('d') {
        Some(Action::SortByDuration)
    } else if v == View::ExecutionDetail && c == KeyCode::Char('R') {
        Some(Action::RetryExecution)
    } else if c == KeyCode::Char('/') {
        Some(Action::StartFilter)
    } else if c == KeyCode::Char('r') {
        Some(Action::Refresh)
    } else if c == KeyCode::Char('x') {
        Some(Action::CopyUrl)
    } else if c == KeyCode::Char('o') {
        Some(Action::OpenInBrowser)
    } else if c == KeyCode::Char('?') {
        Some(Action::ToggleHelp)
    } else {
        None
    }
}

impl App {
    fn graph_key_press(&mut self, code: KeyCode)
        requires
            graph_key(code),
        ensures
            final(self)@ == graph_state(old(self)@, code),
    {
        if code == KeyCode::Left || code == KeyCode::Char('h') {
            self.graph_pan_x = self.graph_pan_x.wrapping_sub(4);
        } else if code == KeyCode::Right || code == KeyCode::Char('l') {
            self.graph_pan_x = self.graph_pan_x.wrapping_add(4);
        } else if code == KeyCode::Up || code == KeyCode::Char('k') {
            self.graph_pan_y = self.graph_pan_y.wrapping_sub(2);
        } else if code == KeyCode::Down || code == KeyCode::Char('j') {
            self.graph_pan_y = self.graph_pan_y.wrapping_add(2);
        } else if code == KeyCode::Tab {
            self.graph_selected_node = self.next_node_index();
        } else if code == KeyCode::Enter {
            self.view = View::WorkflowNodeInspect;
        } else {
            self.graph_pan_x = 0;
            self.graph_pan_y = 0;
        }
    }

    fn next_node_index(&self) -> (r: usize)
        ensures
            r == next_node(self@),
    {
        match &self.workflow_detail {
            Some(d) => {
                let n = d.nodes.len();
                if n > 0 {
                    ((self.graph_selected_node as u128 + 1) % (n as u128)) as usize
                } else {
                    self.graph_selected_node
                }
            },
            None => self.graph_selected_node,
        }
    }

    fn prev_node_index(&self) -> (r: usize)
        ensures
            r == prev_node(self@),
    {
        match &self.workflow_detail {
            Some(d) => {
                let n = d.nodes.len();
                if n > 0 {
                    if self.graph_selected_node == 0 {
                        n - 1
                    } else {
                        self.graph_selected_node - 1
                    }
                } else {
                    self.graph_selected_node
                }
            },
            None => self.graph_selected_node,
        }
    }

    fn has_nodes_exec(&self) -> (r: bool)
        ensures
            r == has_nodes(self@),
    {
        match &self.workflow_detail {
            Some(d) => d.nodes.len() > 0,
            None => false,
        }
    }

    fn inspect_key_press(&mut self, code: KeyCode)
        requires
            inspect_key(code),
        ensures
            final(self)@ == inspect_state(old(self)@, code),
    {
        if code == KeyCode::Char('j') || code == KeyCode::Down {
            self.node_inspect_scroll = self.node_inspect_scroll.saturating_add(1);
        } else if code == KeyCode::Char('k') || code == KeyCode::Up {
            self.node_inspect_scroll = self.node_inspect_scroll.saturating_sub(1);
        } else if code == KeyCode::Char('d') {
            self.node_inspect_scroll = self.node_inspect_scroll.saturating_add(10);
        } else if code == KeyCode::Char('u') {
            self.node_inspect_scroll = self.node_inspect_scroll.saturating_sub(10);
        } else if code == KeyCode::Char('g') {
            self.node_inspect_scroll = 0;
        } else if code == KeyCode::Char('G') {
            self.node_inspect_scroll = u16::MAX;
        } else if code == KeyCode::Tab || code == KeyCode::Char('n') {
            if self.has_nodes_exec() {
                self.graph_selected_node = self.next_node_index();
                self.node_inspect_scroll = 0;
            }
        } else {
            if self.has_nodes_exec() {
                self.graph_selected_node = self.prev_node_index();
                self.node_inspect_scroll = 0;
            }
        }
    }

    /// Copies or opens the link to the current item.
    fn copy_or_open(&mut self, open: bool) -> (r: Vec<Effect>)
        ensures
            (final(self)@, effects_view(r@)) == link_step(old(self)@, open),
    {
        match self.current_item_url() {
            Some(url) => {
                if open {
                    self.status_message = Some(concat_str("Opened: ", url.as_str()));
                    one_effect(Effect::OpenUrl(url))
                } else {
                    self.status_message = Some(concat_str("Copied: ", url.as_str()));
                    one_effect(Effect::CopyToClipboard(url))
                }
            },
            None => no_effects(),
        }
    }

    fn on_workflows_loaded(&mut self, workflows: Vec<WorkflowSummary>)
        ensures
            final(self)@ == workflows_loaded(old(self)@, summaries_view(workflows@)),
    {
        self.workflows = workflows;
        self.loading = false;
        self.last_refresh = self.now;
        self.wf_cache_dirty = true;
        let filtered = self.filtered_workflows();
        self.wf_scroll.set_len(filtered.len());
    }

    fn on_executions_loaded(&mut self, executions: Vec<ExecutionSummary>)
        requires
            executions@.len() <= u32::MAX,
        ensures
            final(self)@ == executions_loaded(old(self)@, executions@),
    {
        let ghost s = self@;
        let ghost es = executions@;
        let counts = StatusCounts::from_executions(executions.as_slice());
        self.exec_counts = counts;
        self.executions = executions;
        self.loading = false;
        self.last_refresh = self.now;
        self.exec_cache_dirty = true;
        assert(self@ == AppView {
            exec_counts: StatusCounts::of(es),
            executions: es,
            loading: false,
            last_refresh: s.now,
            exec_cache_dirty: true,
            ..s
        });
        let filtered = self.filtered_executions();
        self.exec_scroll.set_len(filtered.len());
    }

    fn on_execution_detail_loaded(&mut self, detail: ExecutionDetail)
        ensures
            final(self)@ == execution_detail_loaded(old(self)@, detail),
    {
        self.cached_node_runs = detail.node_runs();
        self.node_scroll.set_len(self.cached_node_runs.len());
        self.node_scroll.reset();
        self.execution_detail = Some(detail);
        self.view = View::ExecutionDetail;
        self.loading = false;
    }

    fn on_insights_loaded(&mut self, result: InsightsResult)
        ensures
            final(self)@ == insights_loaded(old(self)@, result),
    {
        self.insight_scroll.set_len(result.findings.len());
        self.insights_result = Some(result);
        self.loading = false;
    }
}

fn pause_text(resumed: bool, secs: u64) -> (r: String)
    ensures
        r@ == pause_message(resumed, secs),
{
    if resumed {
        let mut s = copy_str("Auto-refresh resumed (every ");
        push_decimal(&mut s, secs);
        push_str(&mut s, "s)");
        s
    } else {
        copy_str("Auto-refresh paused")
    }
}

fn toggled_filter(current: Option<bool>, chosen: Option<bool>) -> (r: Option<bool>)
    ensures
        r == if current == chosen {
            None
        } else {
            chosen
        },
{
    match (current, chosen) {
        (None, None) => None,
        (Some(a), Some(b)) => if a == b {
            None
        } else {
            chosen
        },
        _ => chosen,
    }
}

fn without_last(s: &String) -> (r: String)
    ensures
        r@ == if s@.len() > 0 {
            s@.drop_last()
        } else {
            s@
        },
{
    let mut v = chars_of(s.as_str());
    if v.len() > 0 {
        v.pop();
    }
    string_of(&v)
}

impl App {
    /// Carries out an action other than a key press.
    fn apply(&mut self, action: Action) -> (r: Vec<Effect>)
        requires
            !(action is Key),
            action matches Action::ExecutionsLoaded(es) ==> es@.len() <= u32::MAX,
        ensures
            (final(self)@, effects_view(r@)) == basic_step(old(self)@, action@),
    {
        let filtering = self.input_mode == InputMode::Filter;
        let before = self.view;
        let r = self.dispatch(action);
        if filtering && self.view != before {
            self.invalidate_filter_cache();
        }
        r
    }

    /// A non-key action, handled by its group.
    fn dispatch(&mut self, action: Action) -> (r: Vec<Effect>)
        requires
            !(action is Key),
            action matches Action::ExecutionsLoaded(es) ==> es@.len() <= u32::MAX,
        ensures
            (final(self)@, effects_view(r@)) == dispatched(old(self)@, action@),
    {
        match action {
            Action::Tick => self.handle_tick(),
            Action::Quit | Action::Back | Action::MoveUp | Action::MoveDown | Action::MoveTop
            | Action::MoveBottom | Action::PageUp | Action::PageDown | Action::Select
            | Action::CycleTab | Action::GoToTab(_) | Action::ToggleHelp => {
                self.status_message = None;
                self.apply_move(action)
            },
            Action::StartFilter | Action::FilterChar(_) | Action::FilterBackspace
            | Action::CancelFilter | Action::ApplyFilter | Action::StatusFilter(_)
            | Action::ActiveFilter(_) | Action::SortByName | Action::SortByStatus
            | Action::SortByUpdated | Action::SortByDuration => {
                self.status_message = None;
                self.apply_filter_or_sort(action)
            },
            Action::WorkflowsLoaded(_) | Action::WorkflowDetailLoaded(_)
            | Action::ExecutionsLoaded(_) | Action::ExecutionDetailLoaded(_)
            | Action::InsightsLoaded(_) => {
                self.status_message = None;
                self.apply_loaded(action)
            },
            _ => {
                self.status_message = None;
                self.apply_command(action)
            },
        }
    }

    /// Quitting, moving through lists, views and tabs, and the help overlay.
    fn apply_move(&mut self, action: Action) -> (r: Vec<Effect>)
        requires
            action is Quit || action is Back || action is MoveUp || action is MoveDown
                || action is MoveTop || action is MoveBottom || action is PageUp
                || action is PageDown || action is Select || action is CycleTab
                || action is GoToTab || action is ToggleHelp,
        ensures
            (final(self)@, effects_view(r@)) == move_step(old(self)@, action@),
    {
        proof {
            reveal(move_step);
        }
        match action {
            Action::Quit => {
                self.should_quit = true;
                one_effect(Effect::Quit)
            },
            Action::Back => {
                self.quit_requested = false;
                self.handle_back();
                no_effects()
            },
            Action::MoveUp => {
                self.quit_requested = false;
                self.navigate(NavOp::Up);
                no_effects()
            },
            Action::MoveDown => {
                self.quit_requested = false;
                self.navigate(NavOp::Down);
                no_effects()
            },
            Action::MoveTop => {
                self.navigate(NavOp::Top);
                no_effects()
            },
            Action::MoveBottom => {
                self.navigate(NavOp::Bottom);
                no_effects()
            },
            Action::PageUp => {
                self.navigate(NavOp::PageUp);
                no_effects()
            },
            Action::PageDown => {
                self.navigate(NavOp::PageDown);
                no_effects()
            },
            Action::Select => self.handle_select(),
            Action::CycleTab => {
                self.quit_requested = false;
                self.active_tab = (self.active_tab % 3 + 1) % 3;
                self.switch_to_tab()
            },
            Action::GoToTab(idx) => {
                self.quit_requested = false;
                self.active_tab = if idx < 2 { idx } else { 2 };
                self.switch_to_tab()
            },
            _ => {
                self.show_help = !self.show_help;
                no_effects()
            },
        }
    }

    /// Editing and applying filters, and choosing the sort order.
    fn apply_filter_or_sort(&mut self, action: Action) -> (r: Vec<Effect>)
        requires
            action is StartFilter || action is FilterChar || action is FilterBackspace
                || action is CancelFilter || action is ApplyFilter || action is StatusFilter
                || action is ActiveFilter || action is SortByName || action is SortByStatus
                || action is SortByUpdated || action is SortByDuration,
        ensures
            final(self)@ == edit_step(old(self)@, action@),
            effects_view(r@) == none(),
    {
        proof {
            reveal(edit_step);
        }
        match action {
            Action::StartFilter => {
                self.input_mode = InputMode::Filter;
                self.filter_input = String::new();
                self.invalidate_filter_cache();
            },
            Action::FilterChar(c) => {
                push_char(&mut self.filter_input, c);
                self.invalidate_filter_cache();
            },
            Action::FilterBackspace => {
                self.filter_input = without_last(&self.filter_input);
                self.invalidate_filter_cache();
            },
            Action::CancelFilter => {
                self.input_mode = InputMode::Normal;
                self.filter_input = String::new();
                self.invalidate_filter_cache();
            },
            Action::ApplyFilter => self.handle_apply_filter(),
            Action::StatusFilter(status) => {
                self.exec_status_filter = status;
                self.exec_scroll.reset();
                self.exec_cache_dirty = true;
            },
            Action::ActiveFilter(active) => {
                self.wf_active_filter = toggled_filter(self.wf_active_filter, active);
                self.wf_scroll.reset();
                self.wf_cache_dirty = true;
            },
            Action::SortByName => self.toggle_sort_name(),
            Action::SortByStatus => self.toggle_sort_status(),
            Action::SortByUpdated => self.toggle_sort_updated(),
            _ => self.toggle_sort_duration(),
        }
        no_effects()
    }

    /// Storing data the worker loaded.
    fn apply_loaded(&mut self, action: Action) -> (r: Vec<Effect>)
        requires
            action is WorkflowsLoaded || action is WorkflowDetailLoaded || action is ExecutionsLoaded
                || action is ExecutionDetailLoaded || action is InsightsLoaded,
            action matches Action::ExecutionsLoaded(es) ==> es@.len() <= u32::MAX,
        ensures
            final(self)@ == loaded_step(old(self)@, action@),
            effects_view(r@) == none(),
    {
        proof {
            reveal(loaded_step);
        }
        match action {
            Action::WorkflowsLoaded(workflows) => self.on_workflows_loaded(workflows),
            Action::WorkflowDetailLoaded(detail) => {
                self.workflow_detail = Some(*detail);
                self.view = View::WorkflowDetail;
                self.graph_pan_x = 0;
                self.graph_pan_y = 0;
                self.graph_selected_node = 0;
                self.loading = false;
            },
            Action::ExecutionsLoaded(executions) => self.on_executions_loaded(executions),
            Action::ExecutionDetailLoaded(detail) => self.on_execution_detail_loaded(*detail),
            Action::InsightsLoaded(result) => self.on_insights_loaded(*result),
            _ => {},
        }
        no_effects()
    }

    /// Refreshing, activating, retrying, copying or opening links, and load
    /// errors.
    fn apply_command(&mut self, action: Action) -> (r: Vec<Effect>)
        requires
            action is Refresh || action is ToggleActivation || action is RetryExecution
                || action is CopyUrl || action is OpenInBrowser || action is LoadError,
        ensures
            (final(self)@, effects_view(r@)) == command_step(old(self)@, action@),
    {
        proof {
            reveal(command_step);
        }
        match action {
            Action::Refresh => self.handle_refresh(),
            Action::ToggleActivation => self.handle_toggle_activation(),
            Action::RetryExecution => self.handle_retry(),
            Action::CopyUrl => self.copy_or_open(false),
            Action::OpenInBrowser => self.copy_or_open(true),
            Action::LoadError(msg) => {
                self.status_message = Some(concat_str("Error: ", msg.as_str()));
                self.loading = false;
                no_effects()
            },
            _ => no_effects(),
        }
    }

    /// A key in normal mode.
    fn handle_normal_key(&mut self, k: KeyEvent) -> (r: Vec<Effect>)
        ensures
            (final(self)@, effects_view(r@)) == normal_key_step(old(self)@, k),
    {
        if self.view == View::WorkflowDetail && is_graph_key(k.code) {
            self.graph_key_press(k.code);
            no_effects()
        } else if self.view == View::WorkflowNodeInspect && is_inspect_key(k.code) {
            self.inspect_key_press(k.code);
            no_effects()
        } else {
            self.handle_plain_key(k)
        }
    }

    /// A normal-mode key that the graph and the node inspector leave alone.
    fn handle_plain_key(&mut self, k: KeyEvent) -> (r: Vec<Effect>)
        ensures
            (final(self)@, effects_view(r@)) == plain_key_step(old(self)@, k),
    {
        proof {
            reveal(plain_key_step);
        }
        match universal_action_exec(k) {
            Some(a) => {
                return self.apply(a);
            },
            None => {},
        }
        match view_key_action_exec(self.view, k.code) {
            Some(a) => {
                return self.apply(a);
            },
            None => {},
        }
        if k.code == KeyCode::Char('p') {
            self.auto_refresh = !self.auto_refresh;
            self.status_message = Some(pause_text(self.auto_refresh, self.auto_refresh_interval_secs));
            no_effects()
        } else if k.code == KeyCode::Char('q') {
            if self.quit_requested {
                self.apply(Action::Quit)
            } else {
                self.quit_requested = true;
                self.status_message = Some(copy_str("Press q again to quit"));
                no_effects()
            }
        } else {
            no_effects()
        }
    }

    /// A key press, by input mode.
    fn handle_key(&mut self, k: KeyEvent) -> (r: Vec<Effect>)
        ensures
            (final(self)@, effects_view(r@)) == key_step(old(self)@, k),
    {
        match self.input_mode {
            InputMode::Filter => match filter_key_exec(k.code) {
                Some(a) => self.apply(a),
                None => no_effects(),
            },
            InputMode::Normal => self.handle_normal_key(k),
        }
    }

    /// The state machine's one entry point: applies `action` to the state and
    /// returns the side effects to carry out; it performs none itself.
    pub fn update(&mut self, action: Action) -> (r: Vec<Effect>)
        requires
            action matches Action::ExecutionsLoaded(es) ==> es@.len() <= u32::MAX,
        ensures
            (final(self)@, effects_view(r@)) == step(old(self)@, action@),
            cache_coherent(old(self)@) ==> cache_coherent(final(self)@),
    {
        proof {
            if cache_coherent(self@) {
                law_caches_stay_coherent(self@, action@);
            }
        }
        match action {
            Action::Key(k) => {
                self.status_message = None;
                self.handle_key(k)
            },
            other => self.apply(other),
        }
    }
}

} // verus!
