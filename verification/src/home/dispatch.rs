//! The reaction of the interface state to each action.

use tokio_util::sync::CancellationToken;
use vstd::prelude::*;
use crate::action::{Action, ActionView, Mode};
use crate::home::model::{menu_for, SPINNER_FRAMES};
use crate::home::{menu_views, Effect, EffectView, Home, MenuItem, Operation};
use crate::list::StatefulList;

verus! {

/// The value of an action that may be absent.
pub open spec fn follow_up(action: Option<Action>) -> Option<ActionView> {
    match action {
        Some(a) => Some(a@),
        None => None,
    }
}

impl Home {
    /// Starts `operation` on the named unit: a fresh stop signal replaces the
    /// one kept before, and the caller is asked to run the operation with that
    /// same signal.
    pub fn service_action(&mut self, service_name: String, operation: Operation)
        requires
            old(self).wf(),
        ensures
            final(self)@ == old(self)@.running(
                service_name@,
                operation,
                final(self)@.kept_token(),
            ),
            final(self).wf(),
    {
        let cancel_token = CancellationToken::new();
        self.cancel_token = Some(cancel_token.clone());
        self.effects.push(Effect::RunService { name: service_name, operation, token: cancel_token });
        assert(self@.effects =~= old(self)@.effects.push(
            EffectView::RunService { name: service_name@, operation, token: cancel_token },
        ));
    }

    /// Starts the named unit.
    pub fn start_service(&mut self, service_name: String)
        requires
            old(self).wf(),
        ensures
            final(self)@ == old(self)@.running(
                service_name@,
                Operation::Start,
                final(self)@.kept_token(),
            ),
            final(self).wf(),
    {
        self.service_action(service_name, Operation::Start);
    }

    /// Stops the named unit.
    pub fn stop_service(&mut self, service_name: String)
        requires
            old(self).wf(),
        ensures
            final(self)@ == old(self)@.running(
                service_name@,
                Operation::Stop,
                final(self)@.kept_token(),
            ),
            final(self).wf(),
    {
        self.service_action(service_name, Operation::Stop);
    }

    /// Restarts the named unit.
    pub fn restart_service(&mut self, service_name: String)
        requires
            old(self).wf(),
        ensures
            final(self)@ == old(self)@.running(
                service_name@,
                Operation::Restart,
                final(self)@.kept_token(),
            ),
            final(self).wf(),
    {
        self.service_action(service_name, Operation::Restart);
    }

    /// Opens the action menu for the selected unit, with its first entry
    /// selected. With no unit selected nothing changes.
    fn open_menu(&mut self) -> (follow: Option<Action>)
        requires
            old(self).wf(),
        ensures
            (final(self)@, follow_up(follow)) == old(self)@.dispatched(
                ActionView::EnterMode(Mode::ActionMenu),
                final(self)@.kept_token(),
            ),
            final(self).wf(),
    {
        let selected = match self.selected_service() {
            Some(name) => name,
            None => {
                return None;
            },
        };
        let mut menu_items: Vec<MenuItem> = Vec::new();
        menu_items.push(MenuItem::new("Start", Action::StartService(selected.clone())));
        menu_items.push(MenuItem::new("Stop", Action::StopService(selected.clone())));
        menu_items.push(MenuItem::new("Restart", Action::RestartService(selected.clone())));
        assert(menu_views(menu_items@) =~= menu_for(selected@));
        self.menu_items = StatefulList::with_items(menu_items);
        self.menu_items.select(Some(0));
        self.mode = Mode::ActionMenu;
        Some(Action::Render)
    }

    /// Applies `action` to the state and returns the action that follows it,
    /// if any.
    pub fn dispatch(&mut self, action: Action) -> (follow: Option<Action>)
        requires
            old(self).wf(),
        ensures
            (final(self)@, follow_up(follow)) == old(self)@.dispatched(
                action@,
                final(self)@.kept_token(),
            ),
            final(self).wf(),
    {
        match action {
            Action::ToggleShowLogger => {
                self.show_logger = !self.show_logger;
                return Some(Action::Render);
            },
            Action::EnterMode(mode) => {
                if mode == Mode::ActionMenu {
                    return self.open_menu();
                }
                self.mode = mode;
                return Some(Action::Render);
            },
            Action::EnterError { err } => {
                self.error_message = err;
                self.mode = Mode::Error;
                return Some(Action::Render);
            },
            Action::ToggleHelp => {
                if self.mode != Mode::Help {
                    self.mode = Mode::Help;
                } else {
                    self.mode = Mode::Normal;
                }
            },
            Action::SetLogs { unit_name, logs } => {
                let selected = self.selected_service();
                if let Some(name) = selected {
                    if name == unit_name {
                        self.logs = logs;
                    }
                }
            },
            Action::AppendLogLine { unit_name, line } => {
                let selected = self.selected_service();
                if let Some(name) = selected {
                    if name == unit_name {
                        self.logs.push(line);
                        assert(self@.logs =~= old(self)@.logs.push(line@));
                    }
                }
            },
            Action::ScrollUp(offset) => {
                self.logs_scroll_offset = self.logs_scroll_offset.saturating_sub(offset);
            },
            Action::ScrollDown(offset) => {
                self.logs_scroll_offset = self.logs_scroll_offset.saturating_add(offset);
            },
            Action::ScrollToTop => {
                self.logs_scroll_offset = 0;
            },
            Action::ScrollToBottom => {
                let lines = self.logs.len();
                self.logs_scroll_offset = if lines <= 0xffff {
                    lines as u16
                } else {
                    u16::MAX
                };
            },
            Action::StartService(service_name) => self.start_service(service_name),
            Action::StopService(service_name) => self.stop_service(service_name),
            Action::RestartService(service_name) => self.restart_service(service_name),
            Action::RefreshServices => {
                self.effects.push(Effect::RefreshServices);
                assert(self@.effects =~= old(self)@.effects.push(EffectView::RefreshServices));
            },
            Action::SetServices(units) => {
                self.set_units(units);
                return Some(Action::Render);
            },
            Action::SpinnerTick => {
                self.spinner_tick = (self.spinner_tick + 1) % SPINNER_FRAMES;
                return Some(Action::Render);
            },
            Action::CancelTask => {
                if let Some(cancel_token) = self.cancel_token.take() {
                    self.effects.push(Effect::Cancel(cancel_token));
                    assert(self@.effects =~= old(self)@.effects.push(
                        EffectView::Cancel(cancel_token),
                    ));
                }
                self.mode = Mode::Normal;
                return Some(Action::Render);
            },
            _ => (),
        }
        None
    }
}

} // verus!
