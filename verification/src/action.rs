//! Inputs to the dashboard's state machine and the side effects it asks for.
use vstd::prelude::*;

use crate::cli_worker::{WorkerRequest, WorkerRequestView};
use crate::domain::execution::{ExecutionDetail, ExecutionSummary};
use crate::domain::insights::InsightsResult;
use crate::domain::workflow::{summaries_view, WorkflowDetail, WorkflowSummary, WorkflowSummaryView};

verus! {

/// A key as the terminal reports it.
#[derive(Clone, Copy, Debug, PartialEq, Eq, Structural)]
pub enum KeyCode {
    Char(char),
    Left,
    Right,
    Up,
    Down,
    Tab,
    BackTab,
    Enter,
    Esc,
    Backspace,
    PageUp,
    PageDown,
    /// Any other key.
    Other,
}

/// Modifier keys held with a key.
#[derive(Clone, Copy, Debug, PartialEq, Eq, Structural)]
pub struct KeyModifiers {
    pub shift: bool,
    pub control: bool,
    pub alt: bool,
}

/// A key press.
#[derive(Clone, Copy, Debug, PartialEq, Eq, Structural)]
pub struct KeyEvent {
    pub code: KeyCode,
    pub modifiers: KeyModifiers,
}

/// All possible actions in the dashboard's state machine.
#[derive(Debug)]
pub enum Action {
    /// Raw key event from the terminal, interpreted by mode and view.
    Key(KeyEvent),
    Quit,
    Back,
    MoveUp,
    MoveDown,
    MoveTop,
    MoveBottom,
    PageUp,
    PageDown,
    Select,
    CycleTab,
    GoToTab(usize),
    StartFilter,
    FilterChar(char),
    FilterBackspace,
    CancelFilter,
    ApplyFilter,
    StatusFilter(Option<String>),
    ActiveFilter(Option<bool>),
    SortByName,
    SortByStatus,
    SortByUpdated,
    SortByDuration,
    Refresh,
    ToggleActivation,
    RetryExecution,
    CopyUrl,
    OpenInBrowser,
    ToggleHelp,
    WorkflowsLoaded(Vec<WorkflowSummary>),
    WorkflowDetailLoaded(Box<WorkflowDetail>),
    ExecutionsLoaded(Vec<ExecutionSummary>),
    ExecutionDetailLoaded(Box<ExecutionDetail>),
    InsightsLoaded(Box<InsightsResult>),
    LoadError(String),
    Tick,
}

/// Side effects returned from `App::update`, carried out by the main loop.
#[derive(Debug)]
pub enum Effect {
    SendWorkerRequest(WorkerRequest),
    CopyToClipboard(String),
    OpenUrl(String),
    Quit,
}

/// The abstract content of an effect.
pub enum EffectView {
    SendWorkerRequest(WorkerRequestView),
    CopyToClipboard(Seq<char>),
    OpenUrl(Seq<char>),
    Quit,
}

impl View for Effect {
    type V = EffectView;

    open spec fn view(&self) -> EffectView {
        match self {
            Effect::SendWorkerRequest(r) => EffectView::SendWorkerRequest(r@),
            Effect::CopyToClipboard(s) => EffectView::CopyToClipboard(s@),
            Effect::OpenUrl(s) => EffectView::OpenUrl(s@),
            Effect::Quit => EffectView::Quit,
        }
    }
}

/// The contents of a list of effects.
pub open spec fn effects_view(v: Seq<Effect>) -> Seq<EffectView> {
    v.map_values(|e: Effect| e@)
}


/// The abstract content of an action.
pub enum ActionView {
    Key(KeyEvent),
    Quit,
    Back,
    MoveUp,
    MoveDown,
    MoveTop,
    MoveBottom,
    PageUp,
    PageDown,
    Select,
    CycleTab,
    GoToTab(usize),
    StartFilter,
    FilterChar(char),
    FilterBackspace,
    CancelFilter,
    ApplyFilter,
    StatusFilter(Option<Seq<char>>),
    ActiveFilter(Option<bool>),
    SortByName,
    SortByStatus,
    SortByUpdated,
    SortByDuration,
    Refresh,
    ToggleActivation,
    RetryExecution,
    CopyUrl,
    OpenInBrowser,
    ToggleHelp,
    WorkflowsLoaded(Seq<WorkflowSummaryView>),
    WorkflowDetailLoaded(WorkflowDetail),
    ExecutionsLoaded(Seq<ExecutionSummary>),
    ExecutionDetailLoaded(ExecutionDetail),
    InsightsLoaded(InsightsResult),
    LoadError(Seq<char>),
    Tick,
}

impl View for Action {
    type V = ActionView;

    open spec fn view(&self) -> ActionView {
        match self {
            Action::Key(k) => ActionView::Key(*k),
            Action::Quit => ActionView::Quit,
            Action::Back => ActionView::Back,
            Action::MoveUp => ActionView::MoveUp,
            Action::MoveDown => ActionView::MoveDown,
            Action::MoveTop => ActionView::MoveTop,
            Action::MoveBottom => ActionView::MoveBottom,
            Action::PageUp => ActionView::PageUp,
            Action::PageDown => ActionView::PageDown,
            Action::Select => ActionView::Select,
            Action::CycleTab => ActionView::CycleTab,
            Action::GoToTab(i) => ActionView::GoToTab(*i),
            Action::StartFilter => ActionView::StartFilter,
            Action::FilterChar(c) => ActionView::FilterChar(*c),
            Action::FilterBackspace => ActionView::FilterBackspace,
            Action::CancelFilter => ActionView::CancelFilter,
            Action::ApplyFilter => ActionView::ApplyFilter,
            Action::StatusFilter(s) => ActionView::StatusFilter(
                match s {
                    Some(x) => Some(x@),
                    None => None,
                },
            ),
            Action::ActiveFilter(a) => ActionView::ActiveFilter(*a),
            Action::SortByName => ActionView::SortByName,
            Action::SortByStatus => ActionView::SortByStatus,
            Action::SortByUpdated => ActionView::SortByUpdated,
            Action::SortByDuration => ActionView::SortByDuration,
            Action::Refresh => ActionView::Refresh,
            Action::ToggleActivation => ActionView::ToggleActivation,
            Action::RetryExecution => ActionView::RetryExecution,
            Action::CopyUrl => ActionView::CopyUrl,
            Action::OpenInBrowser => ActionView::OpenInBrowser,
            Action::ToggleHelp => ActionView::ToggleHelp,
            Action::WorkflowsLoaded(w) => ActionView::WorkflowsLoaded(summaries_view(w@)),
            Action::WorkflowDetailLoaded(d) => ActionView::WorkflowDetailLoaded(**d),
            Action::ExecutionsLoaded(e) => ActionView::ExecutionsLoaded(e@),
            Action::ExecutionDetailLoaded(d) => ActionView::ExecutionDetailLoaded(**d),
            Action::InsightsLoaded(r) => ActionView::InsightsLoaded(**r),
            Action::LoadError(m) => ActionView::LoadError(m@),
            Action::Tick => ActionView::Tick,
        }
    }
}

/// The action for a key press: Ctrl+C always quits at once; any other key
/// goes to the dashboard as it is.
pub fn action_for_key(key: KeyEvent) -> (r: Action)
    ensures
        r@ == if key.modifiers.control && key.code == KeyCode::Char('c') {
            ActionView::Quit
        } else {
            ActionView::Key(key)
        },
{
    if key.modifiers.control && key.code == KeyCode::Char('c') {
        Action::Quit
    } else {
        Action::Key(key)
    }
}

} // verus!
