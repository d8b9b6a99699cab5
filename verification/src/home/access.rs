//! Reading the interface state.

use tui_input::Input;
use vstd::prelude::*;
use crate::action::Mode;
use crate::home::{effect_views, menu_views, Effect, EffectView, Home, HomeView, MenuItem};
use crate::text::views;
use crate::unit::{unit_views, UnitStatus};

verus! {

impl Home {
    /// The interaction mode.
    pub fn mode(&self) -> (mode: Mode)
        ensures
            mode == self@.mode,
    {
        self.mode
    }

    /// Whether the diagnostics pane is shown.
    pub fn show_logger(&self) -> (shown: bool)
        ensures
            shown == self@.show_logger,
    {
        self.show_logger
    }

    /// Every unit that the service manager listed.
    pub fn all_units(&self) -> (units: &Vec<UnitStatus>)
        ensures
            unit_views(units@) == self@.all_units,
    {
        &self.all_units
    }

    /// The units that match the search, in order.
    pub fn units(&self) -> (units: &Vec<UnitStatus>)
        ensures
            unit_views(units@) == self@.filtered,
    {
        self.filtered_units.as_vec()
    }

    /// The selected unit: the one under the cursor, if the cursor points at
    /// one.
    pub fn selected_unit(&self) -> (unit: Option<&UnitStatus>)
        ensures
            match self@.selected() {
                Some(selected) => unit matches Some(found) && found@ == selected,
                None => unit is None,
            },
    {
        self.filtered_units.selected()
    }

    /// The cursor into the matching units.
    pub fn selected_index(&self) -> (cursor: Option<usize>)
        ensures
            cursor == self@.cursor,
    {
        self.filtered_units.selected_index()
    }

    /// The log lines of the selected unit.
    pub fn logs(&self) -> (logs: &Vec<String>)
        ensures
            views(logs@) == self@.logs,
    {
        &self.logs
    }

    /// The scroll offset of the log pane.
    pub fn logs_scroll_offset(&self) -> (offset: u16)
        ensures
            offset == self@.scroll,
    {
        self.logs_scroll_offset
    }

    /// The search box.
    pub fn input(&self) -> (input: &Input)
        ensures
            *input == self@.input,
    {
        &self.input
    }

    /// The text of the search box.
    pub fn search(&self) -> (text: &str)
        ensures
            text@ == self@.search(),
    {
        self.input.value()
    }

    /// The entries of the action menu.
    pub fn menu(&self) -> (entries: &Vec<MenuItem>)
        ensures
            menu_views(entries@) == self@.menu,
    {
        self.menu_items.as_vec()
    }

    /// The cursor into the action menu.
    pub fn menu_selected_index(&self) -> (cursor: Option<usize>)
        ensures
            cursor == self@.menu_cursor,
    {
        self.menu_items.selected_index()
    }

    /// Whether a stop signal is kept for a service operation.
    pub fn is_cancellable(&self) -> (kept: bool)
        ensures
            kept == self@.cancellable(),
    {
        self.cancel_token.is_some()
    }

    /// The frame of the progress animation to show.
    pub fn spinner_tick(&self) -> (frame: u8)
        ensures
            frame == self@.spinner_tick,
    {
        self.spinner_tick
    }

    /// The message shown in error mode.
    pub fn error_message(&self) -> (message: &str)
        ensures
            message@ == self@.error_message,
    {
        self.error_message.as_str()
    }

    /// Hands over the work asked of the caller so far, oldest first, and
    /// leaves none behind.
    pub fn take_effects(&mut self) -> (effects: Vec<Effect>)
        ensures
            effect_views(effects@) == old(self)@.effects,
            final(self)@ == (HomeView { effects: Seq::<EffectView>::empty(), ..old(self)@ }),
            old(self).wf() ==> final(self).wf(),
    {
        let mut effects: Vec<Effect> = Vec::new();
        std::mem::swap(&mut effects, &mut self.effects);
        assert(self@.effects =~= Seq::<EffectView>::empty());
        effects
    }
}

} // verus!
