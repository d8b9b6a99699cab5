//! The transitions of the interface state, as functions on its value.

use vstd::prelude::*;
use crate::action::{ActionView, Mode};
use crossterm::event::KeyEvent;
use tokio_util::sync::CancellationToken;
use tui_input::Input;
use crate::home::{filter_units, EffectView, HomeView, MenuItemView, Operation};
use crate::input::{edited, typed, Key};
use crate::list::{cursor_after, cursor_before};
use crate::unit::UnitView;

verus! {

/// The number of frames of the progress animation.
pub const SPINNER_FRAMES: u8 = 8;

/// The first position at or after `start` of a unit called `name`, or the
/// length of `units` where there is none.
pub open spec fn first_named(units: Seq<UnitView>, name: Seq<char>, start: int) -> int
    decreases units.len() - start,
{
    if start < 0 || start >= units.len() {
        units.len() as int
    } else if units[start].name == name {
        start
    } else {
        first_named(units, name, start + 1)
    }
}

/// The entries of the action menu for the unit called `name`.
pub open spec fn menu_for(name: Seq<char>) -> Seq<MenuItemView> {
    seq![
        MenuItemView { name: "Start"@, action: ActionView::StartService(name) },
        MenuItemView { name: "Stop"@, action: ActionView::StopService(name) },
        MenuItemView { name: "Restart"@, action: ActionView::RestartService(name) },
    ]
}

impl HomeView {
    /// Asks for the logs of the selected unit; with no unit selected, the log
    /// buffer is emptied instead.
    pub open spec fn ask_logs(self) -> HomeView {
        match self.selected_name() {
            Some(name) => HomeView {
                effects: self.effects.push(EffectView::FollowLogs(name)),
                ..self
            },
            None => HomeView { logs: Seq::empty(), ..self },
        }
    }

    /// Moves the cursor and starts over with the logs: the buffer is emptied,
    /// the logs of the newly selected unit are asked for, and the log pane
    /// scrolls back to the top.
    pub open spec fn move_to(self, cursor: Option<usize>) -> HomeView {
        HomeView { scroll: 0, ..(HomeView { logs: Seq::empty(), cursor, ..self }).ask_logs() }
    }

    /// The state after the cursor went to the next unit.
    pub open spec fn after_next(self) -> HomeView {
        self.move_to(cursor_after(self.cursor, self.filtered.len()))
    }

    /// The state after the cursor went to the previous unit.
    pub open spec fn after_previous(self) -> HomeView {
        self.move_to(cursor_before(self.cursor, self.filtered.len()))
    }

    /// The state after the cursor was set, with or without starting over with
    /// the logs.
    pub open spec fn after_select(self, index: Option<usize>, refresh_logs: bool) -> HomeView {
        if refresh_logs {
            self.move_to(index)
        } else {
            HomeView { cursor: index, ..self }
        }
    }

    /// The state after the cursor was cleared.
    pub open spec fn after_unselect(self) -> HomeView {
        HomeView { logs: Seq::empty(), cursor: None, ..self }
    }

    /// The state after the search was applied again. The unit called
    /// `previous` stays selected, with its logs, if it still matches;
    /// otherwise the first match is selected and its logs are asked for. With
    /// no match none is selected.
    pub open spec fn refiltered(self, previous: Option<Seq<char>>) -> HomeView {
        let filtered = filter_units(self.all_units, self.search());
        let fresh = HomeView { filtered, cursor: None, ..self };
        match previous {
            Some(name) => {
                let at = first_named(filtered, name, 0);
                if at < filtered.len() {
                    fresh.after_select(Some(at as usize), false)
                } else if filtered.len() > 0 {
                    fresh.after_select(Some(0), true)
                } else {
                    fresh.after_select(None, true)
                }
            },
            None => {
                if filtered.len() > 0 {
                    fresh.after_select(Some(0), true)
                } else {
                    fresh.after_unselect()
                }
            },
        }
    }

    /// The state after the unit set was replaced.
    pub open spec fn with_units(self, units: Seq<UnitView>) -> HomeView {
        (HomeView { all_units: units, ..self }).refiltered(self.selected_name())
    }

    /// The state after a service operation was started with the stop signal
    /// `token`: the token replaces the one kept before, and the same token
    /// goes out with the request to run the operation.
    pub open spec fn running(
        self,
        name: Seq<char>,
        operation: Operation,
        token: CancellationToken,
    ) -> HomeView {
        HomeView {
            cancel_token: Some(token),
            effects: self.effects.push(EffectView::RunService { name, operation, token }),
            ..self
        }
    }

    /// The state after `action` and the action that follows it, if any.
    /// `token` is the stop signal made for the action where it starts a
    /// service operation; no other action reads it.
    pub open spec fn dispatched(self, action: ActionView, token: CancellationToken) -> (
        HomeView,
        Option<ActionView>,
    ) {
        match action {
            ActionView::ToggleShowLogger => (
                HomeView { show_logger: !self.show_logger, ..self },
                Some(ActionView::Render),
            ),
            ActionView::EnterMode(mode) => {
                if mode == Mode::ActionMenu {
                    match self.selected_name() {
                        Some(name) => (
                            HomeView { menu: menu_for(name), menu_cursor: Some(0), mode, ..self },
                            Some(ActionView::Render),
                        ),
                        None => (self, None),
                    }
                } else {
                    (HomeView { mode, ..self }, Some(ActionView::Render))
                }
            },
            ActionView::EnterError { err } => (
                HomeView { error_message: err, mode: Mode::Error, ..self },
                Some(ActionView::Render),
            ),
            ActionView::ToggleHelp => (
                HomeView {
                    mode: if self.mode != Mode::Help {
                        Mode::Help
                    } else {
                        Mode::Normal
                    },
                    ..self
                },
                None,
            ),
            ActionView::SetLogs { unit_name, logs } => (
                if self.selected_name() == Some(unit_name) {
                    HomeView { logs, ..self }
                } else {
                    self
                },
                None,
            ),
            ActionView::AppendLogLine { unit_name, line } => (
                if self.selected_name() == Some(unit_name) {
                    HomeView { logs: self.logs.push(line), ..self }
                } else {
                    self
                },
                None,
            ),
            ActionView::ScrollUp(lines) => (
                HomeView {
                    scroll: if self.scroll >= lines {
                        (self.scroll - lines) as u16
                    } else {
                        0
                    },
                    ..self
                },
                None,
            ),
            ActionView::ScrollDown(lines) => (
                HomeView {
                    scroll: if self.scroll + lines <= u16::MAX {
                        (self.scroll + lines) as u16
                    } else {
                        u16::MAX
                    },
                    ..self
                },
                None,
            ),
            ActionView::ScrollToTop => (HomeView { scroll: 0, ..self }, None),
            ActionView::ScrollToBottom => (
                HomeView {
                    scroll: if self.logs.len() <= u16::MAX {
                        self.logs.len() as u16
                    } else {
                        u16::MAX
                    },
                    ..self
                },
                None,
            ),
            ActionView::StartService(name) => (self.running(name, Operation::Start, token), None),
            ActionView::StopService(name) => (self.running(name, Operation::Stop, token), None),
            ActionView::RestartService(name) => (
                self.running(name, Operation::Restart, token),
                None,
            ),
            ActionView::RefreshServices => (
                HomeView { effects: self.effects.push(EffectView::RefreshServices), ..self },
                None,
            ),
            ActionView::SetServices(units) => (self.with_units(units), Some(ActionView::Render)),
            ActionView::SpinnerTick => (
                HomeView {
                    spinner_tick: ((self.spinner_tick + 1) % (SPINNER_FRAMES as int)) as u8,
                    ..self
                },
                Some(ActionView::Render),
            ),
            ActionView::CancelTask => (
                HomeView {
                    cancel_token: None,
                    mode: Mode::Normal,
                    effects: match self.cancel_token {
                        Some(kept) => self.effects.push(EffectView::Cancel(kept)),
                        None => self.effects,
                    },
                    ..self
                },
                Some(ActionView::Render),
            ),
            _ => (self, None),
        }
    }
}

impl HomeView {
    /// The state after the search box was replaced by `input`: where the text
    /// differs, the search is applied again.
    pub open spec fn with_input(self, input: Input) -> HomeView {
        let held = HomeView { input, ..self };
        if typed(input) != typed(self.input) {
            held.refiltered(self.selected_name())
        } else {
            held
        }
    }

    /// The selected entry of the action menu.
    pub open spec fn selected_entry(self) -> Option<MenuItemView> {
        match self.menu_cursor {
            Some(i) if i < self.menu.len() => Some(self.menu[i as int]),
            _ => None,
        }
    }

    /// The reaction to a key in normal mode.
    pub open spec fn keyed_normal(self, key: Key) -> (HomeView, Seq<ActionView>) {
        match key {
            Key::Char('q') => (self, seq![ActionView::Quit]),
            Key::Up => {
                if self.cursor == Some(0usize) {
                    (self, seq![ActionView::EnterMode(Mode::Search)])
                } else {
                    (self.after_previous(), seq![ActionView::Render])
                }
            },
            Key::Down => (self.after_next(), seq![ActionView::Render]),
            Key::Char('/') => (self, seq![ActionView::EnterMode(Mode::Search)]),
            Key::Enter | Key::Char(' ') => (self, seq![ActionView::EnterMode(Mode::ActionMenu)]),
            _ => (self, seq![]),
        }
    }

    /// The reaction to a key in search mode.
    pub open spec fn keyed_search(self, key: Key, raw: KeyEvent) -> (HomeView, Seq<ActionView>) {
        match key {
            Key::Esc => (self, seq![ActionView::EnterMode(Mode::Normal)]),
            Key::Enter => (self, seq![ActionView::EnterMode(Mode::ActionMenu)]),
            Key::Down | Key::Tab => (self.after_next(), seq![ActionView::EnterMode(Mode::Normal)]),
            Key::Up => (self.after_previous(), seq![ActionView::EnterMode(Mode::Normal)]),
            _ => (self.with_input(edited(self.input, raw)), seq![ActionView::Render]),
        }
    }

    /// The reaction to a key while the action menu is open.
    pub open spec fn keyed_menu(self, key: Key) -> (HomeView, Seq<ActionView>) {
        match key {
            Key::Esc => (self, seq![ActionView::EnterMode(Mode::Normal)]),
            Key::Down => (
                HomeView {
                    menu_cursor: cursor_after(self.menu_cursor, self.menu.len()),
                    ..self
                },
                seq![ActionView::Render],
            ),
            Key::Up => (
                HomeView {
                    menu_cursor: cursor_before(self.menu_cursor, self.menu.len()),
                    ..self
                },
                seq![ActionView::Render],
            ),
            Key::Enter | Key::Char(' ') => match self.selected_entry() {
                Some(entry) => (self, seq![entry.action]),
                None => (self, seq![ActionView::EnterMode(Mode::Normal)]),
            },
            _ => (self, seq![]),
        }
    }

    /// The reaction to a key that no shortcut took, by mode.
    pub open spec fn keyed_by_mode(self, key: Key, raw: KeyEvent) -> (HomeView, Seq<ActionView>) {
        match self.mode {
            Mode::Normal => self.keyed_normal(key),
            Mode::Help | Mode::Error => match key {
                Key::Esc | Key::Enter => (self, seq![ActionView::EnterMode(Mode::Normal)]),
                _ => (self, seq![]),
            },
            Mode::Search => self.keyed_search(key, raw),
            Mode::ActionMenu => self.keyed_menu(key),
            Mode::Processing => match key {
                Key::Esc => (self, seq![ActionView::CancelTask]),
                _ => (self, seq![]),
            },
        }
    }

    /// The actions of a shortcut that works in every mode, if the key is one:
    /// the control shortcuts, the help keys and the scroll keys, in that order
    /// of precedence.
    pub open spec fn shortcut(ctrl: bool, key: Key) -> Option<Seq<ActionView>> {
        if ctrl && (key == Key::Char('c') || key == Key::Char('d') || key == Key::Char('q')) {
            Some(seq![ActionView::Quit])
        } else if ctrl && key == Key::Char('z') {
            Some(seq![ActionView::Suspend])
        } else if ctrl && key == Key::Char('f') {
            Some(seq![ActionView::EnterMode(Mode::Search)])
        } else if ctrl && key == Key::Char('l') {
            Some(seq![ActionView::ToggleShowLogger])
        } else if key == Key::Char('?') || key == Key::F(1) {
            Some(seq![ActionView::ToggleHelp, ActionView::Render])
        } else {
            match key {
                Key::PageDown => Some(seq![ActionView::ScrollDown(1), ActionView::Render]),
                Key::PageUp => Some(seq![ActionView::ScrollUp(1), ActionView::Render]),
                Key::Home => Some(seq![ActionView::ScrollToTop, ActionView::Render]),
                Key::End => Some(seq![ActionView::ScrollToBottom, ActionView::Render]),
                _ => None,
            }
        }
    }

    /// The state after a key press and the actions that the key press asks for.
    /// `ctrl` and `key` are what the state machine reads of the key press `raw`,
    /// which the search box handles itself.
    pub open spec fn keyed(self, ctrl: bool, key: Key, raw: KeyEvent) -> (
        HomeView,
        Seq<ActionView>,
    ) {
        match Self::shortcut(ctrl, key) {
            Some(actions) => (self, actions),
            None => self.keyed_by_mode(key, raw),
        }
    }
}

} // verus!
