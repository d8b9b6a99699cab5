//! The reaction of the interface state to key presses.

use crossterm::event::KeyEvent;
use tui_input::Input;
use vstd::prelude::*;
use crate::action::{action_views, Action, ActionView, Mode};
use crate::home::Home;
use crate::input::{apply_key, control_held, holds_control, key_of, pressed, Key};

verus! {

impl Home {
    /// Replaces the search box by `input`; where its text differs from the
    /// text held so far, the search is applied again.
    pub fn set_input(&mut self, input: Input)
        requires
            old(self).wf(),
        ensures
            final(self)@ == old(self)@.with_input(input),
            final(self).wf(),
    {
        let prev_search_value = self.input.value().to_owned();
        let search_value = input.value().to_owned();
        let previously_selected = self.selected_service();
        self.input = input;
        if !(prev_search_value == search_value) {
            self.filter_statuses(previously_selected);
        }
    }

    /// The actions of a shortcut that works in every mode, if the key is one.
    fn shortcut_actions(ctrl: bool, key: Key) -> (actions: Option<Vec<Action>>)
        ensures
            match crate::home::HomeView::shortcut(ctrl, key) {
                Some(expected) => actions matches Some(found) && action_views(found@) == expected,
                None => actions is None,
            },
    {
        let mut actions: Vec<Action> = Vec::new();
        if ctrl && (key == Key::Char('c') || key == Key::Char('d') || key == Key::Char('q')) {
            actions.push(Action::Quit);
        } else if ctrl && key == Key::Char('z') {
            actions.push(Action::Suspend);
        } else if ctrl && key == Key::Char('f') {
            actions.push(Action::EnterMode(Mode::Search));
        } else if ctrl && key == Key::Char('l') {
            actions.push(Action::ToggleShowLogger);
        } else if key == Key::Char('?') || key == Key::F(1) {
            actions.push(Action::ToggleHelp);
            actions.push(Action::Render);
        } else {
            match key {
                Key::PageDown => {
                    actions.push(Action::ScrollDown(1));
                    actions.push(Action::Render);
                },
                Key::PageUp => {
                    actions.push(Action::ScrollUp(1));
                    actions.push(Action::Render);
                },
                Key::Home => {
                    actions.push(Action::ScrollToTop);
                    actions.push(Action::Render);
                },
                Key::End => {
                    actions.push(Action::ScrollToBottom);
                    actions.push(Action::Render);
                },
                _ => {
                    return None;
                },
            }
        }
        assert(action_views(actions@) =~= crate::home::HomeView::shortcut(ctrl, key).unwrap());
        Some(actions)
    }

    /// The reaction to a key in normal mode.
    fn on_key_normal(&mut self, key: Key) -> (actions: Vec<Action>)
        requires
            old(self).wf(),
        ensures
            (final(self)@, action_views(actions@)) == old(self)@.keyed_normal(key),
            final(self).wf(),
    {
        let mut actions: Vec<Action> = Vec::new();
        match key {
            Key::Char('q') => {
                actions.push(Action::Quit);
            },
            Key::Up => {
                if self.filtered_units.selected_index() == Some(0) {
                    actions.push(Action::EnterMode(Mode::Search));
                } else {
                    self.previous();
                    actions.push(Action::Render);
                }
            },
            Key::Down => {
                self.next();
                actions.push(Action::Render);
            },
            Key::Char('/') => {
                actions.push(Action::EnterMode(Mode::Search));
            },
            Key::Enter | Key::Char(' ') => {
                actions.push(Action::EnterMode(Mode::ActionMenu));
            },
            _ => {},
        }
        assert(action_views(actions@) =~= old(self)@.keyed_normal(key).1);
        actions
    }

    /// The reaction to a key in search mode.
    fn on_key_search(&mut self, key: Key, raw: &KeyEvent) -> (actions: Vec<Action>)
        requires
            old(self).wf(),
        ensures
            (final(self)@, action_views(actions@)) == old(self)@.keyed_search(key, *raw),
            final(self).wf(),
    {
        let mut actions: Vec<Action> = Vec::new();
        match key {
            Key::Esc => {
                actions.push(Action::EnterMode(Mode::Normal));
            },
            Key::Enter => {
                actions.push(Action::EnterMode(Mode::ActionMenu));
            },
            Key::Down | Key::Tab => {
                self.next();
                actions.push(Action::EnterMode(Mode::Normal));
            },
            Key::Up => {
                self.previous();
                actions.push(Action::EnterMode(Mode::Normal));
            },
            _ => {
                let mut input = self.input.clone();
                apply_key(&mut input, raw);
                self.set_input(input);
                actions.push(Action::Render);
            },
        }
        assert(action_views(actions@) =~= old(self)@.keyed_search(key, *raw).1);
        actions
    }

    /// The reaction to a key while the action menu is open.
    fn on_key_menu(&mut self, key: Key) -> (actions: Vec<Action>)
        requires
            old(self).wf(),
            old(self)@.mode == Mode::ActionMenu,
        ensures
            (final(self)@, action_views(actions@)) == old(self)@.keyed_menu(key),
            final(self).wf(),
    {
        let mut actions: Vec<Action> = Vec::new();
        match key {
            Key::Esc => {
                actions.push(Action::EnterMode(Mode::Normal));
            },
            Key::Down => {
                self.menu_items.next();
                actions.push(Action::Render);
            },
            Key::Up => {
                self.menu_items.previous();
                actions.push(Action::Render);
            },
            Key::Enter | Key::Char(' ') => {
                match self.menu_items.selected() {
                    Some(entry) => {
                        actions.push(entry.action.clone());
                    },
                    None => {
                        actions.push(Action::EnterMode(Mode::Normal));
                    },
                }
            },
            _ => {},
        }
        assert(action_views(actions@) =~= old(self)@.keyed_menu(key).1);
        actions
    }

    /// The reaction to a key that only dismisses or cancels: `Esc`, and `Enter`
    /// where `with_enter` is set, ask for `action`.
    fn on_key_dismiss(key: Key, with_enter: bool, action: Action) -> (actions: Vec<Action>)
        ensures
            action_views(actions@) == if key == Key::Esc || (with_enter && key == Key::Enter) {
                seq![action@]
            } else {
                Seq::<ActionView>::empty()
            },
    {
        let mut actions: Vec<Action> = Vec::new();
        if key == Key::Esc || (with_enter && key == Key::Enter) {
            actions.push(action);
            assert(action_views(actions@) =~= seq![action@]);
        } else {
            assert(action_views(actions@) =~= Seq::<ActionView>::empty());
        }
        actions
    }

    /// Reacts to a key press of which `ctrl` and `key` have been read, and
    /// returns the actions that it asks for.
    pub fn on_key(&mut self, ctrl: bool, key: Key, raw: &KeyEvent) -> (actions: Vec<Action>)
        requires
            old(self).wf(),
        ensures
            (final(self)@, action_views(actions@)) == old(self)@.keyed(ctrl, key, *raw),
            final(self).wf(),
    {
        if let Some(actions) = Self::shortcut_actions(ctrl, key) {
            return actions;
        }
        match self.mode {
            Mode::Normal => self.on_key_normal(key),
            Mode::Help | Mode::Error => Self::on_key_dismiss(
                key,
                true,
                Action::EnterMode(Mode::Normal),
            ),
            Mode::Search => self.on_key_search(key, raw),
            Mode::ActionMenu => self.on_key_menu(key),
            Mode::Processing => Self::on_key_dismiss(key, false, Action::CancelTask),
        }
    }

    /// Reacts to a key press and returns the actions that it asks for.
    pub fn handle_key_events(&mut self, key: KeyEvent) -> (actions: Vec<Action>)
        requires
            old(self).wf(),
        ensures
            (final(self)@, action_views(actions@)) == old(self)@.keyed(
                control_held(key),
                pressed(key),
                key,
            ),
            final(self).wf(),
    {
        let ctrl = holds_control(&key);
        let code = key_of(&key);
        self.on_key(ctrl, code, &key)
    }
}

} // verus!
