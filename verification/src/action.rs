//! The closed set of messages that drive the dashboard, and the interaction mode.

use vstd::prelude::*;
use crate::text::{clone_strings, views};
use crate::unit::{clone_units, unit_views, UnitStatus, UnitView};

verus! {

/// The exclusive interaction state of the interface.
#[derive(Debug, Copy, Clone, PartialEq, Eq, Structural)]
pub enum Mode {
    Normal,
    Search,
    Help,
    ActionMenu,
    Processing,
    Error,
}

impl Default for Mode {
    fn default() -> (mode: Mode)
        ensures
            mode == Mode::Normal,
    {
        Mode::Normal
    }
}


/// Every event that the dashboard reacts to.
#[derive(Debug, PartialEq, Eq)]
pub enum Action {
    Quit,
    Resume,
    Suspend,
    Render,
    DebouncedRender,
    SpinnerTick,
    Resize(u16, u16),
    ToggleShowLogger,
    RefreshServices,
    SetServices(Vec<UnitStatus>),
    EnterMode(Mode),
    EnterError { err: String },
    CancelTask,
    ToggleHelp,
    SetLogs { unit_name: String, logs: Vec<String> },
    AppendLogLine { unit_name: String, line: String },
    ScrollUp(u16),
    ScrollDown(u16),
    ScrollToTop,
    ScrollToBottom,
    StartService(String),
    StopService(String),
    RestartService(String),
    Noop,
}

/// The mathematical value of an [`Action`].
pub ghost enum ActionView {
    Quit,
    Resume,
    Suspend,
    Render,
    DebouncedRender,
    SpinnerTick,
    Resize(u16, u16),
    ToggleShowLogger,
    RefreshServices,
    SetServices(Seq<UnitView>),
    EnterMode(Mode),
    EnterError { err: Seq<char> },
    CancelTask,
    ToggleHelp,
    SetLogs { unit_name: Seq<char>, logs: Seq<Seq<char>> },
    AppendLogLine { unit_name: Seq<char>, line: Seq<char> },
    ScrollUp(u16),
    ScrollDown(u16),
    ScrollToTop,
    ScrollToBottom,
    StartService(Seq<char>),
    StopService(Seq<char>),
    RestartService(Seq<char>),
    Noop,
}

impl View for Action {
    type V = ActionView;

    open spec fn view(&self) -> ActionView {
        match *self {
            Action::Quit => ActionView::Quit,
            Action::Resume => ActionView::Resume,
            Action::Suspend => ActionView::Suspend,
            Action::Render => ActionView::Render,
            Action::DebouncedRender => ActionView::DebouncedRender,
            Action::SpinnerTick => ActionView::SpinnerTick,
            Action::Resize(w, h) => ActionView::Resize(w, h),
            Action::ToggleShowLogger => ActionView::ToggleShowLogger,
            Action::RefreshServices => ActionView::RefreshServices,
            Action::SetServices(units) => ActionView::SetServices(unit_views(units@)),
            Action::EnterMode(mode) => ActionView::EnterMode(mode),
            Action::EnterError { err } => ActionView::EnterError { err: err@ },
            Action::CancelTask => ActionView::CancelTask,
            Action::ToggleHelp => ActionView::ToggleHelp,
            Action::SetLogs { unit_name, logs } => ActionView::SetLogs {
                unit_name: unit_name@,
                logs: views(logs@),
            },
            Action::AppendLogLine { unit_name, line } => ActionView::AppendLogLine {
                unit_name: unit_name@,
                line: line@,
            },
            Action::ScrollUp(n) => ActionView::ScrollUp(n),
            Action::ScrollDown(n) => ActionView::ScrollDown(n),
            Action::ScrollToTop => ActionView::ScrollToTop,
            Action::ScrollToBottom => ActionView::ScrollToBottom,
            Action::StartService(name) => ActionView::StartService(name@),
            Action::StopService(name) => ActionView::StopService(name@),
            Action::RestartService(name) => ActionView::RestartService(name@),
            Action::Noop => ActionView::Noop,
        }
    }
}

/// The values of a list of actions.
pub open spec fn action_views(actions: Seq<Action>) -> Seq<ActionView> {
    actions.map_values(|a: Action| a@)
}

impl Clone for Action {
    fn clone(&self) -> (copy: Action)
        ensures
            copy@ == self@,
    {
        match self {
            Action::Quit => Action::Quit,
            Action::Resume => Action::Resume,
            Action::Suspend => Action::Suspend,
            Action::Render => Action::Render,
            Action::DebouncedRender => Action::DebouncedRender,
            Action::SpinnerTick => Action::SpinnerTick,
            Action::Resize(w, h) => Action::Resize(*w, *h),
            Action::ToggleShowLogger => Action::ToggleShowLogger,
            Action::RefreshServices => Action::RefreshServices,
            Action::SetServices(units) => Action::SetServices(clone_units(units)),
            Action::EnterMode(mode) => Action::EnterMode(*mode),
            Action::EnterError { err } => Action::EnterError { err: err.clone() },
            Action::CancelTask => Action::CancelTask,
            Action::ToggleHelp => Action::ToggleHelp,
            Action::SetLogs { unit_name, logs } => Action::SetLogs {
                unit_name: unit_name.clone(),
                logs: clone_strings(logs),
            },
            Action::AppendLogLine { unit_name, line } => Action::AppendLogLine {
                unit_name: unit_name.clone(),
                line: line.clone(),
            },
            Action::ScrollUp(n) => Action::ScrollUp(*n),
            Action::ScrollDown(n) => Action::ScrollDown(*n),
            Action::ScrollToTop => Action::ScrollToTop,
            Action::ScrollToBottom => Action::ScrollToBottom,
            Action::StartService(name) => Action::StartService(name.clone()),
            Action::StopService(name) => Action::StopService(name.clone()),
            Action::RestartService(name) => Action::RestartService(name.clone()),
            Action::Noop => Action::Noop,
        }
    }
}

} // verus!
