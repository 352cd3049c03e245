//! Executions: status values, summaries and details, duration and
//! relative-time rendering, and status counts.
//!
//! Instants are milliseconds since the Unix epoch (`i64`).
use vstd::prelude::*;

use crate::domain::json::{Json, JsonView};
use crate::domain::json::str_eq;
use crate::sort::{key_view, keys_view, permuted, sort_rank, stable_order};
use crate::text::{
    decimal, push_char, push_decimal, push_signed_decimal, push_str,
    signed_decimal,
};

verus! {

/// Earliest instant (ms since the epoch) that a UTC date-time can hold:
/// the first millisecond of year -262143.
pub const MIN_INSTANT_MS: i64 = -8334601315200000i64;

/// Latest instant (ms since the epoch) that a UTC date-time can hold:
/// the last millisecond of year 262142.
pub const MAX_INSTANT_MS: i64 = 8210266876799999i64;

/// Execution status values from the n8n API.
#[derive(Clone, Copy, Debug, PartialEq, Eq, Structural, Hash)]
pub enum ExecutionStatus {
    Success,
    Error,
    Running,
    Waiting,
    Canceled,
    Unknown,
}

/// The symbol shown for a status.
pub open spec fn status_symbol(s: ExecutionStatus) -> Seq<char> {
    match s {
        ExecutionStatus::Success => seq!['✓'],
        ExecutionStatus::Error => seq!['✗'],
        ExecutionStatus::Running => seq!['⟳'],
        ExecutionStatus::Waiting => seq!['◷'],
        ExecutionStatus::Canceled => seq!['⊘'],
        ExecutionStatus::Unknown => seq!['?'],
    }
}

/// The key the API uses for a status in filters (empty for `Unknown`).
pub open spec fn status_key(s: ExecutionStatus) -> Seq<char> {
    match s {
        ExecutionStatus::Success => seq!['s', 'u', 'c', 'c', 'e', 's', 's'],
        ExecutionStatus::Error => seq!['e', 'r', 'r', 'o', 'r'],
        ExecutionStatus::Running => seq!['r', 'u', 'n', 'n', 'i', 'n', 'g'],
        ExecutionStatus::Waiting => seq!['w', 'a', 'i', 't', 'i', 'n', 'g'],
        ExecutionStatus::Canceled => seq!['c', 'a', 'n', 'c', 'e', 'l', 'e', 'd'],
        ExecutionStatus::Unknown => Seq::empty(),
    }
}

/// The display name of a status.
pub open spec fn status_label(s: ExecutionStatus) -> Seq<char> {
    match s {
        ExecutionStatus::Success => seq!['S', 'u', 'c', 'c', 'e', 's', 's'],
        ExecutionStatus::Error => seq!['E', 'r', 'r', 'o', 'r'],
        ExecutionStatus::Running => seq!['R', 'u', 'n', 'n', 'i', 'n', 'g'],
        ExecutionStatus::Waiting => seq!['W', 'a', 'i', 't', 'i', 'n', 'g'],
        ExecutionStatus::Canceled => seq!['C', 'a', 'n', 'c', 'e', 'l', 'e', 'd'],
        ExecutionStatus::Unknown => seq!['U', 'n', 'k', 'n', 'o', 'w', 'n'],
    }
}

impl ExecutionStatus {
    pub fn symbol(&self) -> (r: &'static str)
        ensures
            r@ == status_symbol(*self),
    {
        proof {
            reveal_strlit("✓");
            reveal_strlit("✗");
            reveal_strlit("⟳");
            reveal_strlit("◷");
            reveal_strlit("⊘");
            reveal_strlit("?");
        }
        match self {
            ExecutionStatus::Success => "✓",
            ExecutionStatus::Error => "✗",
            ExecutionStatus::Running => "⟳",
            ExecutionStatus::Waiting => "◷",
            ExecutionStatus::Canceled => "⊘",
            ExecutionStatus::Unknown => "?",
        }
    }

    pub fn filter_key(&self) -> (r: &'static str)
        ensures
            r@ == status_key(*self),
    {
        proof {
            reveal_strlit("success");
            reveal_strlit("error");
            reveal_strlit("running");
            reveal_strlit("waiting");
            reveal_strlit("canceled");
            reveal_strlit("");
        }
        match self {
            ExecutionStatus::Success => "success",
            ExecutionStatus::Error => "error",
            ExecutionStatus::Running => "running",
            ExecutionStatus::Waiting => "waiting",
            ExecutionStatus::Canceled => "canceled",
            ExecutionStatus::Unknown => "",
        }
    }

    /// The display name (what `Display` prints in the dashboard).
    pub fn label(&self) -> (r: &'static str)
        ensures
            r@ == status_label(*self),
    {
        proof {
            reveal_strlit("Success");
            reveal_strlit("Error");
            reveal_strlit("Running");
            reveal_strlit("Waiting");
            reveal_strlit("Canceled");
            reveal_strlit("Unknown");
        }
        match self {
            ExecutionStatus::Success => "Success",
            ExecutionStatus::Error => "Error",
            ExecutionStatus::Running => "Running",
            ExecutionStatus::Waiting => "Waiting",
            ExecutionStatus::Canceled => "Canceled",
            ExecutionStatus::Unknown => "Unknown",
        }
    }
}

/// Summary of an execution as returned by the list endpoint.
#[derive(Debug)]
pub struct ExecutionSummary {
    pub id: String,
    pub finished: bool,
    pub mode: String,
    pub status: ExecutionStatus,
    pub started_at: Option<i64>,
    pub stopped_at: Option<i64>,
    pub workflow_id: Option<String>,
    pub workflow_name: Option<String>,
    pub retry_of: Option<String>,
    pub retry_success_id: Option<String>,
}

/// A copy of an optional string.
pub fn copy_opt_string(o: &Option<String>) -> (r: Option<String>)
    ensures
        r == *o,
{
    match o {
        Some(s) => Some(s.clone()),
        None => None,
    }
}

impl ExecutionSummary {
    /// A field-for-field copy.
    pub fn duplicate(&self) -> (r: Self)
        ensures
            r == *self,
    {
        ExecutionSummary {
            id: self.id.clone(),
            finished: self.finished,
            mode: self.mode.clone(),
            status: self.status,
            started_at: self.started_at,
            stopped_at: self.stopped_at,
            workflow_id: copy_opt_string(&self.workflow_id),
            workflow_name: copy_opt_string(&self.workflow_name),
            retry_of: copy_opt_string(&self.retry_of),
            retry_success_id: copy_opt_string(&self.retry_success_id),
        }
    }
}

/// Full execution detail including the per-node run data.
#[derive(Debug)]
pub struct ExecutionDetail {
    pub id: String,
    pub finished: bool,
    pub mode: String,
    pub status: ExecutionStatus,
    pub started_at: Option<i64>,
    pub stopped_at: Option<i64>,
    pub workflow_id: Option<String>,
    pub retry_of: Option<String>,
    pub retry_success_id: Option<String>,
    pub data: Option<Json>,
    pub workflow_data: Option<Json>,
}

/// n8n paginated response wrapper for executions.
#[derive(Debug)]
pub struct ExecutionListResponse {
    pub data: Vec<ExecutionSummary>,
    pub next_cursor: Option<String>,
}

// ─── Time spans ─────────────────────────────────────────────────────────────
/// `x` limited to the range of `i64`.
pub open spec fn clamp_i64(x: int) -> int {
    if x < i64::MIN {
        i64::MIN as int
    } else if x > i64::MAX {
        i64::MAX as int
    } else {
        x
    }
}

/// Milliseconds from `from` to `to` (negative when `to` is earlier), as a
/// time delta counts them; it saturates at the `i64` range, which instants
/// between [`MIN_INSTANT_MS`] and [`MAX_INSTANT_MS`] never reach.
pub open spec fn span_ms(from: i64, to: i64) -> int {
    clamp_i64(to - from)
}

/// Integer division rounding toward zero (as Rust's `/` on signed integers).
pub open spec fn div_trunc(a: int, b: int) -> int
    recommends
        b > 0,
{
    if a >= 0 {
        a / b
    } else {
        -((-a) / b)
    }
}

/// Whole seconds from `from` to `to`, rounded toward zero.
pub open spec fn span_secs(from: i64, to: i64) -> int {
    div_trunc(to - from, 1000)
}

/// Milliseconds from `from` to `to`, saturating at the `i64` range.
pub fn elapsed_ms(from: i64, to: i64) -> (r: i64)
    ensures
        r == span_ms(from, to),
{
    let d: i128 = to as i128 - from as i128;
    if d < i64::MIN as i128 {
        i64::MIN
    } else if d > i64::MAX as i128 {
        i64::MAX
    } else {
        d as i64
    }
}

/// Whole seconds from `from` to `to`, rounded toward zero.
pub fn elapsed_secs(from: i64, to: i64) -> (r: i64)
    ensures
        r == span_secs(from, to),
{
    let d: i128 = to as i128 - from as i128;
    if d >= 0 {
        (d / 1000) as i64
    } else {
        let n: i128 = 0 - d;
        (0 - n / 1000) as i64
    }
}

// ─── Duration rendering ─────────────────────────────────────────────────────
/// `2^(52-e)` for the binary exponent `e` of `ms / 1000`
/// (`1000 <= ms < 64000`): the scale at which that quotient has a whole
/// 53-bit significand.
pub open spec fn significand_scale(ms: int) -> int {
    if ms < 2000 {
        4503599627370496
    } else if ms < 4000 {
        2251799813685248
    } else if ms < 8000 {
        1125899906842624
    } else if ms < 16000 {
        562949953421312
    } else if ms < 32000 {
        281474976710656
    } else {
        140737488355328
    }
}

/// The tenths of a second shown for `ms` milliseconds (`1000 <= ms < 60000`):
/// `ms / 1000` is rounded to the nearest double, which is then rounded to
/// the nearest tenth, ties to even. Away from the exact midpoints (`ms`
/// ending in 50) this is plain rounding of `ms / 100`; at a midpoint the
/// double lies above it, below it, or on it.
pub open spec fn seconds_tenths(ms: int) -> int {
    let lo = ms / 100;
    if ms % 100 == 50 {
        let r = (ms * significand_scale(ms)) % 1000;
        if r == 0 {
            if lo % 2 == 0 {
                lo
            } else {
                lo + 1
            }
        } else if r > 500 {
            lo + 1
        } else {
            lo
        }
    } else {
        (ms + 50) / 100
    }
}

/// A duration in milliseconds as the dashboard shows it:
/// `50ms`, `1.5s`, `1m 5s`, `1h 1m`.
pub open spec fn duration_text(ms: int) -> Seq<char> {
    if ms < 1000 {
        signed_decimal(ms) + seq!['m', 's']
    } else if ms < 60000 {
        let t = seconds_tenths(ms);
        decimal((t / 10) as nat) + seq!['.'] + decimal((t % 10) as nat) + seq!['s']
    } else if ms < 3600000 {
        decimal((ms / 60000) as nat) + seq!['m', ' '] + decimal(((ms % 60000) / 1000) as nat)
            + seq!['s']
    } else {
        decimal((ms / 3600000) as nat) + seq!['h', ' '] + decimal(((ms % 3600000) / 60000) as nat)
            + seq!['m']
    }
}

proof fn lemma_tenths_bounds(ms: int)
    requires
        1000 <= ms < 60000,
    ensures
        10 <= seconds_tenths(ms) <= 600,
{
}

pub fn format_duration(ms: i64) -> (r: String)
    ensures
        r@ == duration_text(ms as int),
{
    let mut s = String::new();
    if ms < 1000 {
        push_signed_decimal(&mut s, ms);
        push_char(&mut s, 'm');
        push_char(&mut s, 's');
    } else if ms < 60000 {
        let lo: i64 = ms / 100;
        let t: i64 = if ms % 100 == 50 {
            let scale: u128 = if ms < 2000 {
                4503599627370496
            } else if ms < 4000 {
                2251799813685248
            } else if ms < 8000 {
                1125899906842624
            } else if ms < 16000 {
                562949953421312
            } else if ms < 32000 {
                281474976710656
            } else {
                140737488355328
            };
            assert(ms * scale <= 60000 * 4503599627370496) by (nonlinear_arith)
                requires
                    ms < 60000,
                    scale <= 4503599627370496,
            ;
            let r: u128 = (ms as u128 * scale) % 1000;
            if r == 0 {
                if lo % 2 == 0 {
                    lo
                } else {
                    lo + 1
                }
            } else if r > 500 {
                lo + 1
            } else {
                lo
            }
        } else {
            (ms + 50) / 100
        };
        proof {
            lemma_tenths_bounds(ms as int);
            assert(t == seconds_tenths(ms as int));
        }
        push_decimal(&mut s, (t / 10) as u64);
        push_char(&mut s, '.');
        push_decimal(&mut s, (t % 10) as u64);
        push_char(&mut s, 's');
    } else if ms < 3600000 {
        push_decimal(&mut s, (ms / 60000) as u64);
        push_char(&mut s, 'm');
        push_char(&mut s, ' ');
        push_decimal(&mut s, ((ms % 60000) / 1000) as u64);
        push_char(&mut s, 's');
    } else {
        push_decimal(&mut s, (ms / 3600000) as u64);
        push_char(&mut s, 'h');
        push_char(&mut s, ' ');
        push_decimal(&mut s, ((ms % 3600000) / 60000) as u64);
        push_char(&mut s, 'm');
    }
    proof {
        assert(s@ =~= duration_text(ms as int));
    }
    s
}

/// How long ago `t` was, seen at `now`.
pub open spec fn relative_text(t: i64, now: i64) -> Seq<char> {
    let secs = span_secs(t, now);
    if secs < 0 {
        seq!['i', 'n', ' ', 't', 'h', 'e', ' ', 'f', 'u', 't', 'u', 'r', 'e']
    } else if secs < 60 {
        seq!['j', 'u', 's', 't', ' ', 'n', 'o', 'w']
    } else if secs < 3600 {
        decimal((secs / 60) as nat) + seq!['m', ' ', 'a', 'g', 'o']
    } else if secs < 86400 {
        decimal((secs / 3600) as nat) + seq!['h', ' ', 'a', 'g', 'o']
    } else {
        decimal((secs / 86400) as nat) + seq!['d', ' ', 'a', 'g', 'o']
    }
}

fn push_ago(s: &mut String)
    ensures
        final(s)@ == old(s)@ + seq![' ', 'a', 'g', 'o'],
{
    push_char(s, ' ');
    push_char(s, 'a');
    push_char(s, 'g');
    push_char(s, 'o');
    proof {
        assert(final(s)@ =~= old(s)@ + seq![' ', 'a', 'g', 'o']);
    }
}

/// Format the time `t` relative to `now`.
pub fn format_relative(t: i64, now: i64) -> (r: String)
    ensures
        r@ == relative_text(t, now),
{
    let secs = elapsed_secs(t, now);
    let mut s = String::new();
    if secs < 0 {
        push_str(&mut s, "in the future");
        proof {
            reveal_strlit("in the future");
        }
    } else if secs < 60 {
        push_str(&mut s, "just now");
        proof {
            reveal_strlit("just now");
        }
    } else if secs < 3600 {
        push_decimal(&mut s, (secs / 60) as u64);
        push_char(&mut s, 'm');
        push_ago(&mut s);
    } else if secs < 86400 {
        push_decimal(&mut s, (secs / 3600) as u64);
        push_char(&mut s, 'h');
        push_ago(&mut s);
    } else {
        push_decimal(&mut s, (secs / 86400) as u64);
        push_char(&mut s, 'd');
        push_ago(&mut s);
    }
    proof {
        assert(s@ =~= relative_text(t, now));
    }
    s
}

/// The dash shown when a time or duration is unknown.
pub open spec fn dash() -> Seq<char> {
    seq!['—']
}

fn dash_string() -> (r: String)
    ensures
        r@ == dash(),
{
    let mut s = String::new();
    push_char(&mut s, '—');
    proof {
        assert(s@ =~= dash());
    }
    s
}

/// The running-duration text: the duration followed by an ellipsis.
pub open spec fn running_text(ms: int) -> Seq<char> {
    duration_text(ms).push('…')
}

impl ExecutionSummary {
    /// Duration text: finished executions show start to stop, a running one
    /// shows start to `now` followed by `…`, anything else shows a dash.
    pub open spec fn duration_text_at(&self, now: i64) -> Seq<char> {
        match (self.started_at, self.stopped_at) {
            (Some(start), Some(stop)) => duration_text(span_ms(start, stop)),
            (Some(start), None) => if self.status == ExecutionStatus::Running {
                running_text(span_ms(start, now))
            } else {
                dash()
            },
            _ => dash(),
        }
    }

    pub fn duration_display(&self, now: i64) -> (r: String)
        ensures
            r@ == self.duration_text_at(now),
    {
        match (self.started_at, self.stopped_at) {
            (Some(start), Some(stop)) => format_duration(elapsed_ms(start, stop)),
            (Some(start), None) => {
                if self.status == ExecutionStatus::Running {
                    let mut s = format_duration(elapsed_ms(start, now));
                    push_char(&mut s, '…');
                    s
                } else {
                    dash_string()
                }
            },
            _ => dash_string(),
        }
    }

    /// Relative start time, or a dash when the start is unknown.
    pub open spec fn started_ago_text(&self, now: i64) -> Seq<char> {
        match self.started_at {
            Some(t) => relative_text(t, now),
            None => dash(),
        }
    }

    pub fn started_ago(&self, now: i64) -> (r: String)
        ensures
            r@ == self.started_ago_text(now),
    {
        match self.started_at {
            Some(t) => format_relative(t, now),
            None => dash_string(),
        }
    }

    /// Milliseconds from start to stop when both are known.
    pub open spec fn duration_ms(&self) -> Option<int> {
        match (self.started_at, self.stopped_at) {
            (Some(start), Some(stop)) => Some(span_ms(start, stop)),
            _ => None,
        }
    }
}

impl ExecutionDetail {
    /// Duration text: start to stop, or start to `now` followed by `…` when
    /// the execution has not stopped, or a dash without a start.
    pub open spec fn duration_text_at(&self, now: i64) -> Seq<char> {
        match (self.started_at, self.stopped_at) {
            (Some(start), Some(stop)) => duration_text(span_ms(start, stop)),
            (Some(start), None) => running_text(span_ms(start, now)),
            _ => dash(),
        }
    }

    pub fn duration_display(&self, now: i64) -> (r: String)
        ensures
            r@ == self.duration_text_at(now),
    {
        match (self.started_at, self.stopped_at) {
            (Some(start), Some(stop)) => format_duration(elapsed_ms(start, stop)),
            (Some(start), None) => {
                let mut s = format_duration(elapsed_ms(start, now));
                push_char(&mut s, '…');
                s
            },
            _ => dash_string(),
        }
    }
}


// ─── Per-node run results ───────────────────────────────────────────────────
/// Outcome of one run of a node.
#[derive(Clone, Copy, Debug, PartialEq, Eq, Structural)]
pub enum NodeRunStatus {
    Success,
    Error,
    Waiting,
    Unknown,
}

impl NodeRunStatus {
    /// The symbol shown for a node run status (what `Display` prints).
    pub fn symbol(&self) -> (r: &'static str)
        ensures
            r@ == match *self {
                NodeRunStatus::Success => seq!['✓'],
                NodeRunStatus::Error => seq!['✗'],
                NodeRunStatus::Waiting => seq!['◷'],
                NodeRunStatus::Unknown => seq!['?'],
            },
    {
        proof {
            reveal_strlit("✓");
            reveal_strlit("✗");
            reveal_strlit("◷");
            reveal_strlit("?");
        }
        match self {
            NodeRunStatus::Success => "✓",
            NodeRunStatus::Error => "✗",
            NodeRunStatus::Waiting => "◷",
            NodeRunStatus::Unknown => "?",
        }
    }
}

/// The error of a node run: its message, or the whole error object when it
/// has no message text.
#[derive(Debug)]
pub enum NodeError {
    Message(String),
    Payload(Json),
}

/// The abstract content of a node run's error.
pub enum NodeErrorView {
    Message(Seq<char>),
    Payload(JsonView),
}

/// Parsed per-node execution result.
#[derive(Debug)]
pub struct NodeRunResult {
    pub node_name: String,
    pub status: NodeRunStatus,
    pub started_at: Option<i64>,
    pub duration_ms: Option<i64>,
    pub items_in: usize,
    pub items_out: usize,
    pub error: Option<NodeError>,
    pub data: Option<Json>,
}

/// The abstract content of a node run.
pub struct NodeRunView {
    pub node_name: Seq<char>,
    pub status: NodeRunStatus,
    pub started_at: Option<i64>,
    pub duration_ms: Option<i64>,
    pub items_in: usize,
    pub items_out: usize,
    pub error: Option<NodeErrorView>,
    pub data: Option<JsonView>,
}

impl NodeRunResult {
    pub open spec fn view(&self) -> NodeRunView {
        NodeRunView {
            node_name: self.node_name@,
            status: self.status,
            started_at: self.started_at,
            duration_ms: self.duration_ms,
            items_in: self.items_in,
            items_out: self.items_out,
            error: match self.error {
                Some(NodeError::Message(m)) => Some(NodeErrorView::Message(m@)),
                Some(NodeError::Payload(j)) => Some(NodeErrorView::Payload(j.deep())),
                None => None,
            },
            data: match self.data {
                Some(j) => Some(j.deep()),
                None => None,
            },
        }
    }

    /// A deep copy.
    pub fn duplicate(&self) -> (r: Self)
        ensures
            r.view() == self.view(),
    {
        NodeRunResult {
            node_name: self.node_name.clone(),
            status: self.status,
            started_at: self.started_at,
            duration_ms: self.duration_ms,
            items_in: self.items_in,
            items_out: self.items_out,
            error: match &self.error {
                Some(NodeError::Message(m)) => Some(NodeError::Message(m.clone())),
                Some(NodeError::Payload(j)) => Some(NodeError::Payload(j.duplicate())),
                None => None,
            },
            data: match &self.data {
                Some(j) => Some(j.duplicate()),
                None => None,
            },
        }
    }
}

/// The contents of a list of node runs.
pub open spec fn node_runs_view(v: Seq<NodeRunResult>) -> Seq<NodeRunView> {
    v.map_values(|r: NodeRunResult| r.view())
}

/// Number of items over the output branches that are arrays.
pub open spec fn branch_items(bs: Seq<Json>) -> nat
    decreases bs.len(),
{
    if bs.len() == 0 {
        0
    } else {
        branch_items(bs.drop_last()) + match bs.last() {
            Json::Array(v) => v@.len(),
            _ => 0,
        }
    }
}

/// The start of a run, when it is an instant a date-time can hold.
pub open spec fn run_start(run: Json) -> Option<i64> {
    match run.field("startTime"@) {
        Some(v) => match v.int_value() {
            Some(ms) => if MIN_INSTANT_MS <= ms <= MAX_INSTANT_MS {
                Some(ms)
            } else {
                None
            },
            None => None,
        },
        None => None,
    }
}

/// The error reported by a run.
pub open spec fn run_error(run: Json) -> Option<NodeErrorView> {
    match run.field("error"@) {
        Some(e) => Some(
            match e.field("message"@) {
                Some(m) => match m.text() {
                    Some(t) => NodeErrorView::Message(t),
                    None => NodeErrorView::Payload(e.deep()),
                },
                None => NodeErrorView::Payload(e.deep()),
            },
        ),
        None => None,
    }
}

/// The status of a run: an error when it reports one, otherwise its stated
/// status (success when unstated or unrecognised).
pub open spec fn run_status(run: Json) -> NodeRunStatus {
    if run_error(run) is Some {
        NodeRunStatus::Error
    } else {
        match run.field("executionStatus"@) {
            Some(s) => match s.text() {
                Some(t) => if t == "success"@ {
                    NodeRunStatus::Success
                } else if t == "error"@ {
                    NodeRunStatus::Error
                } else if t == "waiting"@ {
                    NodeRunStatus::Waiting
                } else {
                    NodeRunStatus::Success
                },
                None => NodeRunStatus::Success,
            },
            None => NodeRunStatus::Success,
        }
    }
}

/// Number of input items of a run.
pub open spec fn run_items_in(run: Json) -> usize {
    match run.field("inputDataItems"@) {
        Some(v) => match v.nat_value() {
            Some(n) => n as usize,
            None => 0,
        },
        None => 0,
    }
}

/// Number of output items of a run, over its main output branches
/// (the count wraps at the `usize` range).
pub open spec fn run_items_out(run: Json) -> usize {
    match run.field("data"@) {
        Some(d) => match d.field("main"@) {
            Some(Json::Array(bs)) => branch_items(bs@) as usize,
            _ => 0,
        },
        None => 0,
    }
}

/// What one run of a node reports.
pub open spec fn run_view(name: Seq<char>, run: Json) -> NodeRunView {
    NodeRunView {
        node_name: name,
        status: run_status(run),
        started_at: run_start(run),
        duration_ms: match run.field("executionTime"@) {
            Some(v) => v.int_value(),
            None => None,
        },
        items_in: run_items_in(run),
        items_out: run_items_out(run),
        error: run_error(run),
        data: Some(run.deep()),
    }
}

/// The runs of one node entry of the run data, in order.
pub open spec fn entry_runs(entry: (String, Json)) -> Seq<NodeRunView> {
    match entry.1 {
        Json::Array(v) => Seq::new(v@.len(), |i: int| run_view(entry.0@, v@[i])),
        _ => Seq::empty(),
    }
}

/// The runs of all node entries, entry by entry.
pub open spec fn all_runs(entries: Seq<(String, Json)>) -> Seq<NodeRunView>
    decreases entries.len(),
{
    if entries.len() == 0 {
        Seq::empty()
    } else {
        all_runs(entries.drop_last()) + entry_runs(entries.last())
    }
}

/// The sort key of an optional instant: absent ones first, then by time.
pub open spec fn opt_instant_key(t: Option<i64>) -> Seq<int> {
    match t {
        Some(x) => seq![1int, x as int],
        None => seq![0int],
    }
}

/// The node entries of an execution's run data.
pub open spec fn run_entries(data: Option<Json>) -> Option<Seq<(String, Json)>> {
    match data {
        Some(d) => match d.field("resultData"@) {
            Some(rd) => match rd.field("runData"@) {
                Some(Json::Object(entries)) => Some(entries@),
                _ => None,
            },
            None => None,
        },
        None => None,
    }
}

/// Per-node runs of an execution, ordered by start (runs without a start
/// first), runs with equal starts in node-entry order.
pub open spec fn node_runs_of(data: Option<Json>) -> Seq<NodeRunView> {
    match run_entries(data) {
        Some(entries) => {
            let runs = all_runs(entries);
            permuted(runs, runs.map_values(|r: NodeRunView| opt_instant_key(r.started_at)), false)
        },
        None => Seq::empty(),
    }
}

fn field_text_is(j: &Json, key: &str, text: &str) -> (r: bool)
    ensures
        r == (j.field(key@) matches Some(v) && v.text() == Some(text@)),
{
    match j.get(key) {
        Some(v) => match v.as_str() {
            Some(t) => str_eq(t, text),
            None => false,
        },
        None => false,
    }
}

fn parse_run(name: &String, run: &Json) -> (r: NodeRunResult)
    ensures
        r.view() == run_view(name@, *run),
{
    let started_at: Option<i64> = match run.get("startTime") {
        Some(v) => match v.as_i64() {
            Some(ms) => if MIN_INSTANT_MS <= ms && ms <= MAX_INSTANT_MS {
                Some(ms)
            } else {
                None
            },
            None => None,
        },
        None => None,
    };
    let duration_ms: Option<i64> = match run.get("executionTime") {
        Some(v) => v.as_i64(),
        None => None,
    };
    let error: Option<NodeError> = match run.get("error") {
        Some(e) => Some(
            match e.get("message") {
                Some(m) => match m.as_str() {
                    Some(t) => NodeError::Message(crate::text::copy_str(t)),
                    None => NodeError::Payload(e.duplicate()),
                },
                None => NodeError::Payload(e.duplicate()),
            },
        ),
        None => None,
    };
    let status = if error.is_some() {
        NodeRunStatus::Error
    } else if field_text_is(run, "executionStatus", "success") {
        NodeRunStatus::Success
    } else if field_text_is(run, "executionStatus", "error") {
        NodeRunStatus::Error
    } else if field_text_is(run, "executionStatus", "waiting") {
        NodeRunStatus::Waiting
    } else {
        NodeRunStatus::Success
    };
    let items_in: usize = match run.get("inputDataItems") {
        Some(v) => match v.as_u64() {
            Some(n) => n as usize,
            None => 0,
        },
        None => 0,
    };
    let items_out: usize = match run.get("data") {
        Some(d) => match d.get("main") {
            Some(m) => match m.as_array() {
                Some(bs) => count_branch_items(bs),
                None => 0,
            },
            None => 0,
        },
        None => 0,
    };
    NodeRunResult {
        node_name: name.clone(),
        status,
        started_at,
        duration_ms,
        items_in,
        items_out,
        error,
        data: Some(run.duplicate()),
    }
}

fn count_branch_items(bs: &Vec<Json>) -> (r: usize)
    ensures
        r == branch_items(bs@) as usize,
{
    let mut total: u128 = 0;
    let mut i: usize = 0;
    while i < bs.len()
        invariant
            i <= bs@.len(),
            total == branch_items(bs@.take(i as int)),
            total <= i * 18446744073709551615,
        decreases bs@.len() - i,
    {
        proof {
            assert(bs@.take(i + 1).drop_last() =~= bs@.take(i as int));
        }
        match bs[i].as_array() {
            Some(v) => {
                total = total + v.len() as u128;
            },
            None => {},
        }
        i = i + 1;
    }
    proof {
        assert(bs@.take(bs@.len() as int) =~= bs@);
    }
    total as usize
}

impl ExecutionDetail {
    /// Per-node run results from the execution's run data, ordered by start.
    pub fn node_runs(&self) -> (r: Vec<NodeRunResult>)
        ensures
            node_runs_view(r@) == node_runs_of(self.data),
    {
        let entries: &Vec<(String, Json)> = match &self.data {
            Some(d) => match d.get("resultData") {
                Some(rd) => match rd.get("runData") {
                    Some(rdd) => match rdd.as_object() {
                        Some(e) => e,
                        None => {
                            return Vec::new();
                        },
                    },
                    None => {
                        return Vec::new();
                    },
                },
                None => {
                    return Vec::new();
                },
            },
            None => {
                return Vec::new();
            },
        };
        let mut runs: Vec<NodeRunResult> = Vec::new();
        let mut i: usize = 0;
        while i < entries.len()
            invariant
                i <= entries@.len(),
                node_runs_view(runs@) == all_runs(entries@.take(i as int)),
            decreases entries@.len() - i,
        {
            proof {
                assert(entries@.take(i + 1).drop_last() =~= entries@.take(i as int));
            }
            let ghost before = node_runs_view(runs@);
            match entries[i].1.as_array() {
                Some(v) => {
                    let mut j: usize = 0;
                    while j < v.len()
                        invariant
                            j <= v@.len(),
                            i < entries@.len(),
                            entries@[i as int].1 == Json::Array(*v),
                            node_runs_view(runs@) == before + entry_runs(entries@[i as int]).take(
                                j as int,
                            ),
                        decreases v@.len() - j,
                    {
                        let r = parse_run(&entries[i].0, &v[j]);
                        let ghost er = entry_runs(entries@[i as int]);
                        let ghost old_runs = runs@;
                        proof {
                            assert(er[j as int] == run_view(entries@[i as int].0@, v@[j as int]));
                            assert(er.take(j + 1) =~= er.take(j as int).push(er[j as int]));
                        }
                        runs.push(r);
                        j = j + 1;
                        proof {
                            assert(node_runs_view(runs@) =~= node_runs_view(old_runs).push(r.view()));
                            assert(node_runs_view(runs@) =~= before + er.take(j as int));
                        }
                    }
                    proof {
                        assert(entry_runs(entries@[i as int]).take(v@.len() as int) =~= entry_runs(
                            entries@[i as int],
                        ));
                    }
                },
                None => {
                    proof {
                        assert(entry_runs(entries@[i as int]) =~= Seq::<NodeRunView>::empty());
                        assert(before + Seq::<NodeRunView>::empty() =~= before);
                    }
                },
            }
            i = i + 1;
        }
        proof {
            assert(entries@.take(entries@.len() as int) =~= entries@);
        }
        let ghost all = node_runs_view(runs@);
        let mut keys: Vec<Vec<i128>> = Vec::new();
        let mut k: usize = 0;
        while k < runs.len()
            invariant
                k <= runs@.len(),
                keys@.len() == k,
                all == node_runs_view(runs@),
                forall|m: int| 0 <= m < k ==> key_view(#[trigger] keys@[m]) == opt_instant_key(all[m].started_at),
            decreases runs@.len() - k,
        {
            let mut key: Vec<i128> = Vec::new();
            match runs[k].started_at {
                Some(t) => {
                    key.push(1);
                    key.push(t as i128);
                },
                None => {
                    key.push(0);
                },
            }
            proof {
                assert(key_view(key) =~= opt_instant_key(all[k as int].started_at));
            }
            keys.push(key);
            k = k + 1;
        }
        let ghost kv = keys_view(keys@);
        proof {
            assert(kv =~= all.map_values(|r: NodeRunView| opt_instant_key(r.started_at)));
        }
        let order = stable_order(&keys, false);
        let mut out: Vec<NodeRunResult> = Vec::new();
        let mut p: usize = 0;
        while p < order.len()
            invariant
                p <= order@.len(),
                order@.len() == runs@.len(),
                all == node_runs_view(runs@),
                kv == keys_view(keys@),
                keys@.len() == runs@.len(),
                forall|i: int| 0 <= i < runs@.len() ==> order@[sort_rank(kv, false, i) as int] == i,
                forall|q: int| 0 <= q < order@.len() ==> order@[q] < runs@.len(),
                out@.len() == p,
                forall|q: int| 0 <= q < p ==> out@[q].view() == all[order@[q] as int],
            decreases order@.len() - p,
        {
            out.push(runs[order[p]].duplicate());
            p = p + 1;
        }
        proof {
            let target = permuted(all, kv, false);
            assert forall|q: int| 0 <= q < out@.len() implies out@[q].view() == target[q] by {
                crate::sort::lemma_order_at(kv, false, order@, q);
            }
            assert(node_runs_view(out@) =~= target);
        }
        out
    }
}

// ─── Status counts ──────────────────────────────────────────────────────────
/// Status counts across executions.
#[derive(Debug, Clone, Copy, PartialEq, Eq, Structural)]
pub struct StatusCounts {
    pub success: u32,
    pub error: u32,
    pub running: u32,
    pub waiting: u32,
    pub canceled: u32,
    pub total: u32,
}

/// How many of `s` have status `st`.
pub open spec fn count_status(s: Seq<ExecutionSummary>, st: ExecutionStatus) -> nat
    decreases s.len(),
{
    if s.len() == 0 {
        0
    } else {
        count_status(s.drop_last(), st) + if s.last().status == st {
            1nat
        } else {
            0nat
        }
    }
}

proof fn lemma_count_status_le(s: Seq<ExecutionSummary>, st: ExecutionStatus)
    ensures
        count_status(s, st) <= s.len(),
    decreases s.len(),
{
    if s.len() > 0 {
        lemma_count_status_le(s.drop_last(), st);
    }
}

impl StatusCounts {
    pub fn zero() -> (r: Self)
        ensures
            r == (StatusCounts { success: 0, error: 0, running: 0, waiting: 0, canceled: 0, total: 0 }),
    {
        StatusCounts { success: 0, error: 0, running: 0, waiting: 0, canceled: 0, total: 0 }
    }

    /// The counts that `from_executions` gives for `s`.
    pub open spec fn of(s: Seq<ExecutionSummary>) -> StatusCounts {
        StatusCounts {
            success: count_status(s, ExecutionStatus::Success) as u32,
            error: count_status(s, ExecutionStatus::Error) as u32,
            running: count_status(s, ExecutionStatus::Running) as u32,
            waiting: count_status(s, ExecutionStatus::Waiting) as u32,
            canceled: count_status(s, ExecutionStatus::Canceled) as u32,
            total: s.len() as u32,
        }
    }

    pub fn from_executions(execs: &[ExecutionSummary]) -> (r: Self)
        requires
            execs@.len() <= u32::MAX,
        ensures
            r == Self::of(execs@),
            r.success == count_status(execs@, ExecutionStatus::Success),
            r.error == count_status(execs@, ExecutionStatus::Error),
            r.running == count_status(execs@, ExecutionStatus::Running),
            r.waiting == count_status(execs@, ExecutionStatus::Waiting),
            r.canceled == count_status(execs@, ExecutionStatus::Canceled),
            r.total == execs@.len(),
    {
        let mut counts = Self::zero();
        let mut i: usize = 0;
        while i < execs.len()
            invariant
                i <= execs@.len() <= u32::MAX,
                counts.success == count_status(execs@.take(i as int), ExecutionStatus::Success),
                counts.error == count_status(execs@.take(i as int), ExecutionStatus::Error),
                counts.running == count_status(execs@.take(i as int), ExecutionStatus::Running),
                counts.waiting == count_status(execs@.take(i as int), ExecutionStatus::Waiting),
                counts.canceled == count_status(execs@.take(i as int), ExecutionStatus::Canceled),
                counts.total == i,
            decreases execs@.len() - i,
        {
            let ghost pre = execs@.take(i as int);
            let ghost post = execs@.take(i + 1);
            proof {
                assert(post.drop_last() == pre);
                assert(post.last() == execs@[i as int]);
                lemma_count_status_le(pre, ExecutionStatus::Success);
                lemma_count_status_le(pre, ExecutionStatus::Error);
                lemma_count_status_le(pre, ExecutionStatus::Running);
                lemma_count_status_le(pre, ExecutionStatus::Waiting);
                lemma_count_status_le(pre, ExecutionStatus::Canceled);
            }
            match execs[i].status {
                ExecutionStatus::Success => counts.success = counts.success + 1,
                ExecutionStatus::Error => counts.error = counts.error + 1,
                ExecutionStatus::Running => counts.running = counts.running + 1,
                ExecutionStatus::Waiting => counts.waiting = counts.waiting + 1,
                ExecutionStatus::Canceled => counts.canceled = counts.canceled + 1,
                ExecutionStatus::Unknown => {},
            }
            counts.total = counts.total + 1;
            i = i + 1;
        }
        proof {
            assert(execs@.take(execs@.len() as int) == execs@);
        }
        counts
    }
}

} // verus!
