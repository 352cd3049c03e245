//! Properties of the dashboard that span several actions or functions.
use vstd::prelude::*;
use vstd::view::View as HasView;

use crate::action::{ActionView, EffectView, KeyCode, KeyEvent};
use crate::app::{
    basic_step, command_step, edit_step, executions_step, filter_key_action, fresh_executions,
    fresh_workflows, has_nodes, initial_state, inspect_state, link_step, loaded_step, move_step,
    nav, navigated, next_node, none, plain_key_step, prev_node, select_step, step, toggle_step,
    universal_action, url_step, view_key_action, workflows_step, AppView, InputMode, NavOp, View,
    pause_message, settled, dispatched, workflows_loaded, executions_loaded, tick_step, key_step, normal_key_step, graph_state, graph_key, inspect_key,
};
use crate::domain::execution::node_runs_of;
use crate::domain::execution::{
    count_status, status_key, status_label, ExecutionStatus, ExecutionSummary, StatusCounts,
};
use crate::domain::insights::{severity_count, severity_rank, InsightFinding, Severity};
use crate::domain::insights_compute::{by_severity, of_severity};
use crate::domain::insights::FindingView;
use crate::scroll_state::{in_bounds, ScrollView};
use crate::app::{exec_filter_in_use, listed_executions, exec_key, exec_direction};
use crate::config::{layered, ConfigEnv, ConfigView};
use crate::domain::execution::{branch_items, run_view};
use crate::domain::insights_compute::{somes, stuck_finding, stuck_findings};
use crate::domain::json::Json;
use crate::sort::{lemma_permuted_contains, permuted};
use crate::text::{contains_seq, lowercase, trim_end_char};

verus! {

// ─── Quitting, pausing, ticking ─────────────────────────────────────────────
/// In normal mode `q` only asks for confirmation the first time (nothing
/// quits, no effect is asked for), and quits when pressed again right
/// after.
pub proof fn law_quit_takes_two_presses(s: AppView, k: KeyEvent)
    requires
        s.input_mode == InputMode::Normal,
        !s.quit_requested,
        k.code == KeyCode::Char('q'),
    ensures
        ({
            let (s1, e1) = step(s, ActionView::Key(k));
            let (s2, e2) = step(s1, ActionView::Key(k));
            &&& s1.should_quit == s.should_quit
            &&& s1.quit_requested
            &&& s1.status_message == Some("Press q again to quit"@)
            &&& e1 == none()
            &&& s2.should_quit
            &&& e2 == seq![EffectView::Quit]
        }),
{
    reveal(plain_key_step);
    reveal(move_step);
}

/// In normal mode `p` pauses auto-refresh when it runs and resumes it when
/// paused: pressing it twice restores the setting.
pub proof fn law_pause_toggles(s: AppView, k: KeyEvent)
    requires
        s.input_mode == InputMode::Normal,
        k.code == KeyCode::Char('p'),
    ensures
        ({
            let (s1, e1) = step(s, ActionView::Key(k));
            let (s2, e2) = step(s1, ActionView::Key(k));
            &&& s1.auto_refresh == !s.auto_refresh
            &&& s1.status_message == Some(pause_message(s1.auto_refresh, s.auto_refresh_interval_secs))
            &&& e1 == none()
            &&& s2.auto_refresh == s.auto_refresh
            &&& e2 == none()
        }),
{
    reveal(plain_key_step);
}

/// A tick changes nothing but the time of the last refresh, and only when
/// it asks for data.
pub proof fn law_tick_only_refreshes(s: AppView)
    ensures
        step(s, ActionView::Tick).0 == s || step(s, ActionView::Tick).0 == (AppView {
            last_refresh: s.now,
            ..s
        }),
        step(s, ActionView::Tick).1.len() <= 1,
        step(s, ActionView::Tick).1.len() == 0 ==> step(s, ActionView::Tick).0 == s
            || s.view != View::WorkflowList && s.view != View::ExecutionList && s.view
            != View::Insights,
{
}

// ─── Filters ────────────────────────────────────────────────────────────────
/// Typing, erasing, starting or cancelling a filter never changes the
/// filters in force: only applying it does, for the list on screen.
pub proof fn law_filter_text_changes_only_on_apply(s: AppView, a: ActionView)
    requires
        a is StartFilter || a is FilterChar || a is FilterBackspace || a is CancelFilter,
    ensures
        step(s, a).0.wf_filter_text == s.wf_filter_text,
        step(s, a).0.exec_filter_text == s.exec_filter_text,
{
    reveal(edit_step);
}

/// Applying the filter makes the typed text the filter of the list on
/// screen and empties the input.
pub proof fn law_apply_filter_sets_text(s: AppView)
    ensures
        s.view == View::WorkflowList ==> step(s, ActionView::ApplyFilter).0.wf_filter_text
            == s.filter_input,
        s.view == View::ExecutionList ==> step(s, ActionView::ApplyFilter).0.exec_filter_text
            == s.filter_input,
        step(s, ActionView::ApplyFilter).0.filter_input == Seq::<char>::empty(),
        step(s, ActionView::ApplyFilter).0.input_mode == InputMode::Normal,
{
    reveal(edit_step);
}

// ─── The cached lists ───────────────────────────────────────────────────────
/// The filtered workflow list is computed once: asking again gives the same
/// list and changes nothing; after a change marked it stale it is computed
/// afresh from the current workflows, filters and order. Asking never
/// changes the workflows, their filters or their order, and with coherent
/// caches the list state is sized to the list.
pub proof fn law_workflow_list_cached(s: AppView)
    ensures
        ({
            let (s1, l1) = workflows_step(s);
            &&& workflows_step(s1) == (s1, l1)
            &&& s.wf_cache_dirty ==> l1 == fresh_workflows(s)
            &&& s1.workflows == s.workflows && s1.wf_active_filter == s.wf_active_filter
            &&& s1.wf_filter_text == s.wf_filter_text && s1.wf_sort == s.wf_sort
            &&& cache_coherent(s) ==> s1.wf_scroll.len == l1.len()
        }),
{
    reveal(workflows_step);
}

/// The filtered execution list is computed once: asking again gives the
/// same list and changes nothing; after a change marked it stale it is
/// computed afresh from the current executions, filters and order. Asking
/// never changes the executions, their filters or their order, and with
/// coherent caches the list state is sized to the list.
pub proof fn law_execution_list_cached(s: AppView)
    ensures
        ({
            let (s1, l1) = executions_step(s);
            &&& executions_step(s1) == (s1, l1)
            &&& s.exec_cache_dirty ==> l1 == fresh_executions(s)
            &&& s1.executions == s.executions && s1.exec_status_filter == s.exec_status_filter
            &&& s1.exec_filter_text == s.exec_filter_text && s1.exec_sort == s.exec_sort
            &&& cache_coherent(s) ==> s1.exec_scroll.len == l1.len()
        }),
{
    reveal(executions_step);
}

// ─── Node selection in the inspector ────────────────────────────────────────
/// In the node inspector, Shift-Tab undoes Tab: the selection moves to the
/// next node of the graph and back.
pub proof fn law_inspector_back_tab_undoes_tab(s: AppView, tab: KeyEvent, back: KeyEvent)
    requires
        s.input_mode == InputMode::Normal,
        s.view == View::WorkflowNodeInspect,
        has_nodes(s),
        s.graph_selected_node < s.workflow_detail->0.nodes.len(),
        tab.code == KeyCode::Tab,
        back.code == KeyCode::BackTab,
    ensures
        ({
            let s1 = step(s, ActionView::Key(tab)).0;
            let s2 = step(s1, ActionView::Key(back)).0;
            &&& s1.graph_selected_node < s.workflow_detail->0.nodes.len()
            &&& s2.graph_selected_node == s.graph_selected_node
        }),
{
    let n = s.workflow_detail->0.nodes@.len() as int;
    let i = s.graph_selected_node as int;
    assert(i + 1 == n ==> (i + 1) % n == 0) by (nonlinear_arith)
        requires
            n > 0,
    ;
    assert(i + 1 < n ==> (i + 1) % n == i + 1) by (nonlinear_arith)
        requires
            0 <= i,
    ;
    let c = AppView { status_message: None, ..s };
    let s1 = step(s, ActionView::Key(tab)).0;
    assert(s1 == inspect_state(c, KeyCode::Tab));
    assert(s1.graph_selected_node == next_node(c));
    assert(s1.workflow_detail == s.workflow_detail);
    let c1 = AppView { status_message: None, ..s1 };
    assert(step(s1, ActionView::Key(back)).0 == inspect_state(c1, KeyCode::BackTab));
    assert(step(s1, ActionView::Key(back)).0.graph_selected_node == prev_node(c1));
    assert(n == s.workflow_detail->0.nodes.len());
    if i + 1 == n {
        assert(s1.graph_selected_node == 0);
    } else {
        assert(s1.graph_selected_node == i + 1);
    }
}

// ─── List selections ────────────────────────────────────────────────────────
/// A list state is sound: its selection lies within the list and its table
/// shows the selected row.
pub open spec fn list_ok(v: ScrollView) -> bool {
    in_bounds(v.selected, v.len) && v.table.selected == Some(v.selected as usize)
}

/// All four lists of the dashboard are sound.
pub open spec fn lists_ok(s: AppView) -> bool {
    list_ok(s.wf_scroll) && list_ok(s.exec_scroll) && list_ok(s.node_scroll) && list_ok(
        s.insight_scroll,
    )
}

proof fn lemma_nav_ok(v: ScrollView, op: NavOp)
    requires
        list_ok(v),
    ensures
        list_ok(nav(v, op)),
{
}

proof fn lemma_resized_ok(v: ScrollView, n: nat)
    ensures
        list_ok(v.with_len(n)),
        list_ok(v.with_len(n).at_top()),
{
}

proof fn lemma_at_top_ok(v: ScrollView)
    requires
        list_ok(v),
    ensures
        list_ok(v.at_top()),
{
}

proof fn lemma_lists_ok_lists(s: AppView)
    requires
        lists_ok(s),
    ensures
        lists_ok(workflows_step(s).0),
        lists_ok(executions_step(s).0),
{
    reveal(workflows_step);
    reveal(executions_step);
    lemma_resized_ok(s.wf_scroll, fresh_workflows(s).len());
    lemma_resized_ok(s.exec_scroll, fresh_executions(s).len());
}

proof fn lemma_lists_ok_navigated(s: AppView, op: NavOp)
    requires
        lists_ok(s),
    ensures
        lists_ok(navigated(s, op)),
{
    lemma_nav_ok(s.wf_scroll, op);
    lemma_nav_ok(s.exec_scroll, op);
    lemma_nav_ok(s.node_scroll, op);
    lemma_nav_ok(s.insight_scroll, op);
}

proof fn lemma_lists_ok_url(s: AppView)
    requires
        lists_ok(s),
    ensures
        lists_ok(url_step(s).0),
        lists_ok(link_step(s, true).0),
        lists_ok(link_step(s, false).0),
        lists_ok(select_step(s).0),
        lists_ok(toggle_step(s).0),
{
    lemma_lists_ok_lists(s);
}

proof fn lemma_lists_ok_move(s: AppView, a: ActionView)
    requires
        lists_ok(s),
    ensures
        lists_ok(move_step(s, a).0),
{
    reveal(move_step);
    let q = AppView { quit_requested: false, ..s };
    match a {
        ActionView::MoveUp => lemma_lists_ok_navigated(q, NavOp::Up),
        ActionView::MoveDown => lemma_lists_ok_navigated(q, NavOp::Down),
        ActionView::MoveTop => lemma_lists_ok_navigated(s, NavOp::Top),
        ActionView::MoveBottom => lemma_lists_ok_navigated(s, NavOp::Bottom),
        ActionView::PageUp => lemma_lists_ok_navigated(s, NavOp::PageUp),
        ActionView::PageDown => lemma_lists_ok_navigated(s, NavOp::PageDown),
        ActionView::Select => lemma_lists_ok_url(s),
        _ => {},
    }
}

proof fn lemma_lists_ok_edit(s: AppView, a: ActionView)
    requires
        lists_ok(s),
    ensures
        lists_ok(edit_step(s, a)),
{
    reveal(edit_step);
    lemma_at_top_ok(s.wf_scroll);
    lemma_at_top_ok(s.exec_scroll);
}

proof fn lemma_lists_ok_loaded(s: AppView, a: ActionView)
    requires
        lists_ok(s),
    ensures
        lists_ok(loaded_step(s, a)),
{
    reveal(loaded_step);
    match a {
        ActionView::WorkflowsLoaded(ws) => {
            let s1 = AppView { workflows: ws, loading: false, last_refresh: s.now, wf_cache_dirty: true, ..s };
            lemma_lists_ok_lists(s1);
            let (s2, list) = workflows_step(s1);
            lemma_resized_ok(s2.wf_scroll, list.len());
        },
        ActionView::ExecutionsLoaded(es) => {
            let s1 = AppView {
                exec_counts: StatusCounts::of(es),
                executions: es,
                loading: false,
                last_refresh: s.now,
                exec_cache_dirty: true,
                ..s
            };
            lemma_lists_ok_lists(s1);
            let (s2, list) = executions_step(s1);
            lemma_resized_ok(s2.exec_scroll, list.len());
        },
        ActionView::ExecutionDetailLoaded(d) => {
            lemma_resized_ok(s.node_scroll, node_runs_of(d.data).len());
        },
        ActionView::InsightsLoaded(r) => {
            lemma_resized_ok(s.insight_scroll, r.findings@.len());
        },
        _ => {},
    }
}

proof fn lemma_lists_ok_command(s: AppView, a: ActionView)
    requires
        lists_ok(s),
    ensures
        lists_ok(command_step(s, a).0),
{
    reveal(command_step);
    lemma_lists_ok_url(s);
}

proof fn lemma_lists_ok_basic(s: AppView, a: ActionView)
    requires
        lists_ok(s),
    ensures
        lists_ok(basic_step(s, a).0),
{
    let c = AppView { status_message: None, ..s };
    lemma_lists_ok_move(c, a);
    lemma_lists_ok_edit(c, a);
    lemma_lists_ok_loaded(c, a);
    lemma_lists_ok_command(c, a);
}

/// Every list's selection lies within the list and each table shows the
/// selected row, whatever the action: moves, filters, sorts, new data and
/// key presses all keep it so.
pub proof fn law_lists_stay_in_bounds(s: AppView, a: ActionView)
    requires
        lists_ok(s),
    ensures
        lists_ok(step(s, a).0),
{
    lemma_lists_ok_basic(s, a);
    if let ActionView::Key(k) = a {
        let c = AppView { status_message: None, ..s };
        reveal(plain_key_step);
        lemma_lists_ok_basic(c, ActionView::Quit);
        if let Some(b) = filter_key_action(k.code) {
            lemma_lists_ok_basic(c, b);
        }
        if let Some(b) = universal_action(k) {
            lemma_lists_ok_basic(c, b);
        }
        if let Some(b) = view_key_action(c.view, k.code) {
            lemma_lists_ok_basic(c, b);
        }
    }
}

/// A newly opened dashboard's lists are sound.
pub proof fn law_lists_start_in_bounds(base_url: Seq<char>, now: i64)
    ensures
        lists_ok(initial_state(base_url, now)),
{
}

// ─── Filtered-list caches ───────────────────────────────────────────────────
/// The workflow cache, when clean, holds the list filtered and sorted afresh
/// from the current workflows, filters and order, and the workflow list
/// state is sized to it.
pub open spec fn wf_coherent(s: AppView) -> bool {
    !s.wf_cache_dirty && s.cached_filtered_wf is Some ==> s.cached_filtered_wf->0 == fresh_workflows(s)
        && s.wf_scroll.len == fresh_workflows(s).len()
}

/// The execution cache, when clean, holds the list filtered and sorted
/// afresh, and the execution list state is sized to it.
pub open spec fn exec_coherent(s: AppView) -> bool {
    !s.exec_cache_dirty && s.cached_filtered_exec is Some ==> s.cached_filtered_exec->0
        == fresh_executions(s) && s.exec_scroll.len == fresh_executions(s).len()
}

/// Both list caches are coherent.
pub open spec fn cache_coherent(s: AppView) -> bool {
    wf_coherent(s) && exec_coherent(s)
}

/// With coherent caches, asking for a filtered list gives the list filtered
/// and sorted afresh, whether it is served from the cache or recomputed, and
/// the caches stay coherent.
pub proof fn law_filtered_lists_fresh(s: AppView)
    requires
        cache_coherent(s),
    ensures
        workflows_step(s).1 == fresh_workflows(s),
        cache_coherent(workflows_step(s).0),
        executions_step(s).1 == fresh_executions(s),
        cache_coherent(executions_step(s).0),
{
    reveal(workflows_step);
    reveal(executions_step);
}

proof fn lemma_nav_len(v: ScrollView, op: NavOp)
    ensures
        nav(v, op).len == v.len,
{
}

proof fn lemma_coherent_navigated(s: AppView, op: NavOp)
    requires
        cache_coherent(s),
    ensures
        cache_coherent(navigated(s, op)),
{
    lemma_nav_len(s.wf_scroll, op);
    lemma_nav_len(s.exec_scroll, op);
}

proof fn lemma_coherent_lists(s: AppView)
    requires
        cache_coherent(s),
    ensures
        cache_coherent(url_step(s).0),
        cache_coherent(link_step(s, true).0),
        cache_coherent(link_step(s, false).0),
        cache_coherent(select_step(s).0),
        cache_coherent(toggle_step(s).0),
{
    law_filtered_lists_fresh(s);
}

proof fn lemma_coherent_move(s: AppView, a: ActionView)
    requires
        cache_coherent(s),
    ensures
        cache_coherent(settled(s, move_step(s, a).0)),
{
    reveal(move_step);
    let q = AppView { quit_requested: false, ..s };
    match a {
        ActionView::Back | ActionView::CycleTab | ActionView::GoToTab(_) => {
            assert(cache_coherent(q));
        },
        ActionView::MoveUp => lemma_coherent_navigated(q, NavOp::Up),
        ActionView::MoveDown => lemma_coherent_navigated(q, NavOp::Down),
        ActionView::MoveTop => lemma_coherent_navigated(s, NavOp::Top),
        ActionView::MoveBottom => lemma_coherent_navigated(s, NavOp::Bottom),
        ActionView::PageUp => lemma_coherent_navigated(s, NavOp::PageUp),
        ActionView::PageDown => lemma_coherent_navigated(s, NavOp::PageDown),
        ActionView::Select => lemma_coherent_lists(s),
        _ => {},
    }
}

proof fn lemma_coherent_edit(s: AppView, a: ActionView)
    requires
        cache_coherent(s),
    ensures
        cache_coherent(settled(s, edit_step(s, a))),
{
    reveal(edit_step);
}

proof fn lemma_coherent_loaded(s: AppView, a: ActionView)
    requires
        cache_coherent(s),
    ensures
        cache_coherent(settled(s, loaded_step(s, a))),
{
    reveal(loaded_step);
    match a {
        ActionView::WorkflowsLoaded(ws) => {
            let s1 = AppView { workflows: ws, loading: false, last_refresh: s.now, wf_cache_dirty: true, ..s };
            assert(exec_coherent(s1));
            law_filtered_lists_fresh(s1);
            reveal(workflows_step);
            let (s2, list) = workflows_step(s1);
            assert(fresh_workflows(s2) == fresh_workflows(s1));
            let t = AppView { wf_scroll: s2.wf_scroll.with_len(list.len()), ..s2 };
            assert(fresh_workflows(t) == fresh_workflows(s1));
            assert(fresh_executions(t) == fresh_executions(s2));
            assert(cache_coherent(t));
            assert(workflows_loaded(s, ws) == t);
            assert(loaded_step(s, a) == t);
            assert(settled(s, t) == t);
        },
        ActionView::ExecutionsLoaded(es) => {
            let s1 = AppView {
                exec_counts: StatusCounts::of(es),
                executions: es,
                loading: false,
                last_refresh: s.now,
                exec_cache_dirty: true,
                ..s
            };
            assert(wf_coherent(s1));
            law_filtered_lists_fresh(s1);
            reveal(executions_step);
            let (s2, list) = executions_step(s1);
            assert(fresh_executions(s2) == fresh_executions(s1));
            let t = AppView { exec_scroll: s2.exec_scroll.with_len(list.len()), ..s2 };
            assert(fresh_workflows(t) == fresh_workflows(s2));
            assert(fresh_executions(t) == fresh_executions(s1));
            assert(cache_coherent(t));
            assert(executions_loaded(s, es) == t);
            assert(settled(s, t) == t);
        },
        _ => {},
    }
}

proof fn lemma_coherent_command(s: AppView, a: ActionView)
    requires
        cache_coherent(s),
    ensures
        cache_coherent(settled(s, command_step(s, a).0)),
{
    reveal(command_step);
    lemma_coherent_lists(s);
}

proof fn lemma_coherent_basic(s: AppView, a: ActionView)
    requires
        cache_coherent(s),
    ensures
        cache_coherent(basic_step(s, a).0),
{
    let c = AppView { status_message: None, ..s };
    lemma_coherent_move(c, a);
    lemma_coherent_edit(c, a);
    lemma_coherent_loaded(c, a);
    lemma_coherent_command(c, a);
}

/// Whatever the action, a clean list cache holds exactly the list that
/// filtering and sorting afresh would give, and the list state is sized to
/// it: every change to the lists, filters, sort orders, typed filter text or
/// view marks the cache stale.
pub proof fn law_caches_stay_coherent(s: AppView, a: ActionView)
    requires
        cache_coherent(s),
    ensures
        cache_coherent(step(s, a).0),
{
    lemma_coherent_basic(s, a);
    if let ActionView::Key(k) = a {
        let c = AppView { status_message: None, ..s };
        reveal(plain_key_step);
        lemma_coherent_basic(c, ActionView::Quit);
        if let Some(b) = filter_key_action(k.code) {
            lemma_coherent_basic(c, b);
        }
        if let Some(b) = universal_action(k) {
            lemma_coherent_basic(c, b);
        }
        if let Some(b) = view_key_action(c.view, k.code) {
            lemma_coherent_basic(c, b);
        }
    }
}

/// A newly opened dashboard's caches are coherent.
pub proof fn law_caches_start_coherent(base_url: Seq<char>, now: i64)
    ensures
        cache_coherent(initial_state(base_url, now)),
{
}

// ─── Status keys ────────────────────────────────────────────────────────────
/// A character with an ASCII capital lowered.
pub open spec fn ascii_lower_char(c: char) -> char {
    if 'A' <= c <= 'Z' {
        ((c as u32) + 32) as char
    } else {
        c
    }
}

/// A text with its ASCII capitals lowered.
pub open spec fn ascii_lower(t: Seq<char>) -> Seq<char> {
    t.map_values(|c: char| ascii_lower_char(c))
}

/// The key of every known status is its display name in lower case (the
/// name the API writes); the unknown status has the empty key.
pub proof fn law_status_key_is_lowercase_name(s: ExecutionStatus)
    ensures
        s != ExecutionStatus::Unknown ==> status_key(s) == ascii_lower(status_label(s)),
        s == ExecutionStatus::Unknown ==> status_key(s) == Seq::<char>::empty(),
{
    assert(ascii_lower_char('S') == 's');
    assert(ascii_lower_char('E') == 'e');
    assert(ascii_lower_char('R') == 'r');
    assert(ascii_lower_char('W') == 'w');
    assert(ascii_lower_char('C') == 'c');
    if s != ExecutionStatus::Unknown {
        assert(status_key(s) =~= ascii_lower(status_label(s)));
    }
}

// ─── Matching executions by id ──────────────────────────────────────────────
/// An execution whose id contains the filter text in use (lower-cased) and
/// that passes the status filter is in the filtered execution list, whatever
/// its workflow name; with coherent caches the list served has it too.
pub proof fn law_execution_id_matches_filter(s: AppView, i: int)
    requires
        0 <= i < s.executions.len(),
        contains_seq(s.executions[i].id@, lowercase(exec_filter_in_use(s))),
        match s.exec_status_filter {
            Some(st) => status_key(s.executions[i].status) == st,
            None => true,
        },
    ensures
        fresh_executions(s).contains(s.executions[i]),
        cache_coherent(s) ==> executions_step(s).1.contains(s.executions[i]),
{
    broadcast use vstd::seq_lib::group_seq_properties;

    let e = s.executions[i];
    let text = exec_filter_in_use(s);
    let pred = |x: ExecutionSummary| crate::app::exec_visible(x, s.exec_status_filter, text);
    assert(pred(e));
    s.executions.lemma_filter_contains(pred, i);
    let kept = s.executions.filter(pred);
    let keys = kept.map_values(|x: ExecutionSummary| exec_key(x, s.exec_sort));
    assert(listed_executions(s.executions, s.exec_status_filter, text, s.exec_sort) == crate::app::ordered(
        kept,
        keys,
        exec_direction(s.exec_sort),
    ));
    let j = choose|j: int| 0 <= j < kept.len() && kept[j] == e;
    match exec_direction(s.exec_sort) {
        Some(desc) => lemma_permuted_contains(kept, keys, desc, j),
        None => {},
    }
    if cache_coherent(s) {
        law_filtered_lists_fresh(s);
    }
}

// ─── Stuck executions ───────────────────────────────────────────────────────
/// Only a running or waiting execution can be stuck: an execution with any
/// other status yields no stuck finding, and adding one to a list adds no
/// finding; every stuck finding names a running or waiting execution.
pub proof fn law_only_running_or_waiting_are_stuck(execs: Seq<ExecutionSummary>, e: ExecutionSummary, now: i64)
    ensures
        e.status != ExecutionStatus::Running && e.status != ExecutionStatus::Waiting ==> stuck_finding(e, now) is None
            && stuck_findings(execs.push(e), now) == stuck_findings(execs, now),
        forall|k: int|
            0 <= k < stuck_findings(execs, now).len() ==> exists|i: int|
                0 <= i < execs.len() && (execs[i].status == ExecutionStatus::Running || execs[i].status
                    == ExecutionStatus::Waiting) && (#[trigger] stuck_findings(execs, now)[k]).affected_entity
                    == "execution:"@ + execs[i].id@,
    decreases execs.len(),
{
    let f = |x: ExecutionSummary| stuck_finding(x, now);
    assert(execs.push(e).map_values(f) =~= execs.map_values(f).push(f(e)));
    assert(execs.map_values(f).push(f(e)).drop_last() =~= execs.map_values(f));
    if execs.len() > 0 {
        let g = execs.drop_last();
        let x = execs.last();
        law_only_running_or_waiting_are_stuck(g, x, now);
        assert(execs == g.push(x));
        assert(g.push(x).map_values(f) =~= g.map_values(f).push(f(x)));
        assert(g.map_values(f).push(f(x)).drop_last() =~= g.map_values(f));
        assert forall|k: int| 0 <= k < stuck_findings(execs, now).len() implies exists|i: int|
            0 <= i < execs.len() && (execs[i].status == ExecutionStatus::Running || execs[i].status
                == ExecutionStatus::Waiting) && (#[trigger] stuck_findings(execs, now)[k]).affected_entity
                == "execution:"@ + execs[i].id@ by {
            if k < stuck_findings(g, now).len() {
                assert(stuck_findings(execs, now)[k] == stuck_findings(g, now)[k]);
                let i = choose|i: int|
                    0 <= i < g.len() && (g[i].status == ExecutionStatus::Running || g[i].status
                        == ExecutionStatus::Waiting) && (#[trigger] stuck_findings(g, now)[k]).affected_entity
                        == "execution:"@ + g[i].id@;
                assert(execs[i] == g[i]);
            } else {
                assert(execs[execs.len() - 1] == x);
            }
        }
    }
}

// ─── Output items of a node run ─────────────────────────────────────────────
/// A run's output items are counted over every output branch: the count of
/// branches put one after the other is the sum of their counts, a branch that
/// is an array counts its items and any other counts none. A run whose
/// `data.main` holds branches reports that count as its output items.
pub proof fn law_output_items_add_up(a: Seq<Json>, b: Seq<Json>, x: Json, run: Json, name: Seq<char>)
    ensures
        branch_items(a + b) == branch_items(a) + branch_items(b),
        branch_items(Seq::empty()) == 0,
        branch_items(seq![x]) == match x {
            Json::Array(v) => v@.len(),
            _ => 0,
        },
        run.field("data"@) matches Some(d) ==> (d.field("main"@) matches Some(Json::Array(bs)) ==> run_view(
            name,
            run,
        ).items_out == branch_items(bs@) as usize),
    decreases b.len(),
{
    assert(seq![x].drop_last() =~= Seq::<Json>::empty());
    assert(seq![x].last() == x);
    assert(branch_items(Seq::<Json>::empty()) == 0);
    if b.len() == 0 {
        assert(a + b =~= a);
    } else {
        law_output_items_add_up(a, b.drop_last(), x, run, name);
        assert((a + b).drop_last() =~= a + b.drop_last());
        assert((a + b).last() == b.last());
    }
}

// ─── Layered settings ───────────────────────────────────────────────────────
/// The command line wins: a URL, key or project given as a flag is the one
/// in force whatever the file and the environment say (the URL without its
/// trailing slashes); without a URL flag the environment's URL wins over the
/// file.
pub proof fn law_flags_override(
    file: Option<ConfigView>,
    env: ConfigEnv,
    url: Option<Seq<char>>,
    key: Option<Seq<char>>,
    project: Option<Seq<char>>,
)
    ensures
        url matches Some(u) ==> layered(file, env, url, key, project).api_url == trim_end_char(u, '/'),
        key matches Some(k) ==> layered(file, env, url, key, project).api_key == k,
        project matches Some(p) ==> layered(file, env, url, key, project).project_id == Some(p),
        url is None && env.api_url is Some ==> layered(file, env, url, key, project).api_url == trim_end_char(
            env.api_url->0@,
            '/',
        ),
{
}

// ─── Status keys ─────────────────────────────────────────────────────────────
proof fn lemma_status_filter_key(s: AppView, k: KeyEvent, st: Seq<char>)
    requires
        s.input_mode == InputMode::Normal,
        s.view == View::ExecutionList,
        universal_action(k) is None,
        view_key_action(s.view, k.code) == Some(ActionView::StatusFilter(Some(st))),
    ensures
        step(s, ActionView::Key(k)).0.exec_status_filter == Some(st),
{
    reveal(plain_key_step);
    reveal(edit_step);
    let c = AppView { status_message: None, ..s };
    assert(key_step(c, k) == normal_key_step(c, k));
    assert(normal_key_step(c, k) == plain_key_step(c, k));
    assert(plain_key_step(c, k) == basic_step(c, ActionView::StatusFilter(Some(st))));
}

/// In the execution list in normal mode, the digit keys 1 to 5 filter by
/// error, running, success, waiting and canceled executions.
pub proof fn law_digit_keys_filter_by_status(s: AppView, k: KeyEvent)
    requires
        s.input_mode == InputMode::Normal,
        s.view == View::ExecutionList,
        !k.modifiers.alt,
    ensures
        k.code == KeyCode::Char('1') ==> step(s, ActionView::Key(k)).0.exec_status_filter == Some(
            status_key(ExecutionStatus::Error),
        ),
        k.code == KeyCode::Char('2') ==> step(s, ActionView::Key(k)).0.exec_status_filter == Some(
            status_key(ExecutionStatus::Running),
        ),
        k.code == KeyCode::Char('3') ==> step(s, ActionView::Key(k)).0.exec_status_filter == Some(
            status_key(ExecutionStatus::Success),
        ),
        k.code == KeyCode::Char('4') ==> step(s, ActionView::Key(k)).0.exec_status_filter == Some(
            status_key(ExecutionStatus::Waiting),
        ),
        k.code == KeyCode::Char('5') ==> step(s, ActionView::Key(k)).0.exec_status_filter == Some(
            status_key(ExecutionStatus::Canceled),
        ),
{
    reveal_strlit("error");
    reveal_strlit("running");
    reveal_strlit("success");
    reveal_strlit("waiting");
    reveal_strlit("canceled");
    if k.code == KeyCode::Char('1') {
        assert("error"@ =~= status_key(ExecutionStatus::Error));
        lemma_status_filter_key(s, k, status_key(ExecutionStatus::Error));
    } else if k.code == KeyCode::Char('2') {
        assert("running"@ =~= status_key(ExecutionStatus::Running));
        lemma_status_filter_key(s, k, status_key(ExecutionStatus::Running));
    } else if k.code == KeyCode::Char('3') {
        assert("success"@ =~= status_key(ExecutionStatus::Success));
        lemma_status_filter_key(s, k, status_key(ExecutionStatus::Success));
    } else if k.code == KeyCode::Char('4') {
        assert("waiting"@ =~= status_key(ExecutionStatus::Waiting));
        lemma_status_filter_key(s, k, status_key(ExecutionStatus::Waiting));
    } else if k.code == KeyCode::Char('5') {
        assert("canceled"@ =~= status_key(ExecutionStatus::Canceled));
        lemma_status_filter_key(s, k, status_key(ExecutionStatus::Canceled));
    }
}

// ─── Counting ───────────────────────────────────────────────────────────────
/// Every execution is counted under exactly one status: the counts of the
/// six statuses add up to the number of executions.
pub proof fn law_status_counts_add_up(es: Seq<ExecutionSummary>)
    ensures
        count_status(es, ExecutionStatus::Success) + count_status(es, ExecutionStatus::Error)
            + count_status(es, ExecutionStatus::Running) + count_status(es, ExecutionStatus::Waiting)
            + count_status(es, ExecutionStatus::Canceled) + count_status(es, ExecutionStatus::Unknown)
            == es.len(),
    decreases es.len(),
{
    if es.len() > 0 {
        law_status_counts_add_up(es.drop_last());
    }
}

/// Every finding has exactly one severity: the critical, warning and info
/// counts add up to the number of findings.
pub proof fn law_severity_counts_add_up(f: Seq<InsightFinding>)
    ensures
        severity_count(f, Severity::Critical) + severity_count(f, Severity::Warning)
            + severity_count(f, Severity::Info) == f.len(),
    decreases f.len(),
{
    broadcast use Seq::lemma_filter_push;

    if f.len() > 0 {
        let g = f.drop_last();
        law_severity_counts_add_up(g);
        assert(f == g.push(f.last()));
    } else {
        assert(f.filter(|x: InsightFinding| x.severity == Severity::Critical).len() == 0);
        assert(f.filter(|x: InsightFinding| x.severity == Severity::Warning).len() == 0);
        assert(f.filter(|x: InsightFinding| x.severity == Severity::Info).len() == 0);
    }
}

// ─── The order of findings ──────────────────────────────────────────────────
/// Findings come most severe first: no finding is followed by a more severe
/// one.
pub proof fn law_findings_most_severe_first(f: Seq<FindingView>, i: int, j: int)
    requires
        0 <= i < j < by_severity(f).len(),
    ensures
        severity_rank(by_severity(f)[i].severity) >= severity_rank(by_severity(f)[j].severity),
{
    let c = of_severity(f, Severity::Critical);
    let w = of_severity(f, Severity::Warning);
    let n = of_severity(f, Severity::Info);
    let r = by_severity(f);
    assert(r == c + w + n);
    assert forall|k: int| 0 <= k < r.len() implies #[trigger] r[k].severity == (if k < c.len() {
        Severity::Critical
    } else if k < c.len() + w.len() {
        Severity::Warning
    } else {
        Severity::Info
    }) by {
        if k < c.len() {
            assert(r[k] == c[k]);
        } else if k < c.len() + w.len() {
            assert(r[k] == w[k - c.len()]);
        } else {
            assert(r[k] == n[k - c.len() - w.len()]);
        }
    }
    assert(r[i].severity == r[i].severity);
    assert(r[j].severity == r[j].severity);
}

/// Ordering by severity loses no finding and adds none: the findings are
/// the same, counted with multiplicity.
pub proof fn law_findings_all_kept(f: Seq<FindingView>)
    ensures
        by_severity(f).to_multiset() =~= f.to_multiset(),
    decreases f.len(),
{
    broadcast use Seq::lemma_filter_push;
    broadcast use vstd::seq_lib::group_to_multiset_ensures;
    broadcast use vstd::seq_lib::lemma_multiset_commutative;
    broadcast use vstd::multiset::group_multiset_axioms;

    let pc = |x: FindingView| x.severity == Severity::Critical;
    let pw = |x: FindingView| x.severity == Severity::Warning;
    let pn = |x: FindingView| x.severity == Severity::Info;
    if f.len() == 0 {
        assert(f.filter(pc).len() == 0);
        assert(f.filter(pw).len() == 0);
        assert(f.filter(pn).len() == 0);
        assert(by_severity(f) =~= Seq::<FindingView>::empty());
    } else {
        let g = f.drop_last();
        let x = f.last();
        law_findings_all_kept(g);
        assert(f == g.push(x));
        assert(of_severity(f, Severity::Critical) == f.filter(pc));
        assert(of_severity(f, Severity::Warning) == f.filter(pw));
        assert(of_severity(f, Severity::Info) == f.filter(pn));
        assert(of_severity(g, Severity::Critical) == g.filter(pc));
        assert(of_severity(g, Severity::Warning) == g.filter(pw));
        assert(of_severity(g, Severity::Info) == g.filter(pn));
        let (c, w, n) = (g.filter(pc), g.filter(pw), g.filter(pn));
        assert((c + w + n).to_multiset() =~= c.to_multiset().add(w.to_multiset()).add(n.to_multiset()));
        if x.severity == Severity::Critical {
            assert((c.push(x) + w + n).to_multiset() =~= c.to_multiset().insert(x).add(w.to_multiset()).add(n.to_multiset()));
        } else if x.severity == Severity::Warning {
            assert((c + w.push(x) + n).to_multiset() =~= c.to_multiset().add(w.to_multiset().insert(x)).add(n.to_multiset()));
        } else {
            assert((c + w + n.push(x)).to_multiset() =~= c.to_multiset().add(w.to_multiset()).add(n.to_multiset().insert(x)));
        }
    }
}

} // verus!
