//! The interface state and its transitions.
//!
//! [`Home`] holds everything the dashboard shows. It changes only through the
//! methods of this module, one action or key press at a time, and never blocks:
//! work that has to happen outside (following a unit's logs, running a service
//! operation or stopping it, listing the units again) is recorded as an
//! [`Effect`] for the caller to carry out.

pub mod access;
pub mod dispatch;
pub mod keys;
pub mod laws;
pub mod model;
pub mod select;

use tokio_util::sync::CancellationToken;
use tui_input::Input;
use vstd::prelude::*;
use crate::action::{Action, ActionView, Mode};
use crate::input::typed;
use crate::list::StatefulList;
use crate::text::{lowercased, occurs_in, views};
use crate::unit::{short_name_of, unit_views, UnitStatus, UnitView};

verus! {

/// A service operation that the action menu offers.
#[derive(Debug, Copy, Clone, PartialEq, Eq, Structural)]
pub enum Operation {
    Start,
    Stop,
    Restart,
}

/// Work that a transition asks its caller to carry out.
#[derive(Debug)]
pub enum Effect {
    /// Follow the logs of the named unit, in place of any unit followed before.
    FollowLogs(String),
    /// Run `operation` on the named unit; `token` is a handle on the stop
    /// signal that the state keeps for it.
    RunService { name: String, operation: Operation, token: CancellationToken },
    /// List the units again and deliver them as a `SetServices` action.
    RefreshServices,
    /// Give the stop signal `token`: the operation that runs under it is
    /// asked to stop.
    Cancel(CancellationToken),
}

/// The mathematical value of an [`Effect`].
pub ghost enum EffectView {
    FollowLogs(Seq<char>),
    RunService { name: Seq<char>, operation: Operation, token: CancellationToken },
    RefreshServices,
    Cancel(CancellationToken),
}

impl View for Effect {
    type V = EffectView;

    open spec fn view(&self) -> EffectView {
        match *self {
            Effect::FollowLogs(name) => EffectView::FollowLogs(name@),
            Effect::RunService { name, operation, token } => EffectView::RunService {
                name: name@,
                operation,
                token,
            },
            Effect::RefreshServices => EffectView::RefreshServices,
            Effect::Cancel(token) => EffectView::Cancel(token),
        }
    }
}

/// The values of a list of effects.
pub open spec fn effect_views(effects: Seq<Effect>) -> Seq<EffectView> {
    effects.map_values(|e: Effect| e@)
}

/// An entry of the action menu: a label and the action it stands for.
#[derive(Debug, PartialEq, Eq)]
pub struct MenuItem {
    pub name: String,
    pub action: Action,
}

/// The mathematical value of a [`MenuItem`].
pub ghost struct MenuItemView {
    pub name: Seq<char>,
    pub action: ActionView,
}

impl View for MenuItem {
    type V = MenuItemView;

    open spec fn view(&self) -> MenuItemView {
        MenuItemView { name: self.name@, action: self.action@ }
    }
}

/// The values of a list of menu entries.
pub open spec fn menu_views(items: Seq<MenuItem>) -> Seq<MenuItemView> {
    items.map_values(|m: MenuItem| m@)
}

impl MenuItem {
    /// An entry labelled `name` that stands for `action`.
    pub fn new(name: &str, action: Action) -> (item: MenuItem)
        ensures
            item@ == (MenuItemView { name: name@, action: action@ }),
    {
        MenuItem { name: name.to_owned(), action }
    }
}

/// The interface state.
pub struct Home {
    show_logger: bool,
    all_units: Vec<UnitStatus>,
    filtered_units: StatefulList<UnitStatus>,
    logs: Vec<String>,
    logs_scroll_offset: u16,
    mode: Mode,
    input: Input,
    menu_items: StatefulList<MenuItem>,
    cancel_token: Option<CancellationToken>,
    spinner_tick: u8,
    error_message: String,
    effects: Vec<Effect>,
}

/// The mathematical value of a [`Home`].
pub ghost struct HomeView {
    /// Whether the diagnostics pane is shown.
    pub show_logger: bool,
    /// Every unit that the service manager listed.
    pub all_units: Seq<UnitView>,
    /// The units that match the search, in the order of `all_units`.
    pub filtered: Seq<UnitView>,
    /// The cursor into `filtered`.
    pub cursor: Option<usize>,
    /// The log lines of the selected unit.
    pub logs: Seq<Seq<char>>,
    /// The scroll offset of the log pane.
    pub scroll: u16,
    /// The interaction mode.
    pub mode: Mode,
    /// The search box.
    pub input: Input,
    /// The entries of the action menu.
    pub menu: Seq<MenuItemView>,
    /// The cursor into `menu`.
    pub menu_cursor: Option<usize>,
    /// The stop signal kept for the service operation started last, if one
    /// is kept.
    pub cancel_token: Option<CancellationToken>,
    /// The animation counter.
    pub spinner_tick: u8,
    /// The message shown in error mode.
    pub error_message: Seq<char>,
    /// The work asked of the caller and not yet taken.
    pub effects: Seq<EffectView>,
}

impl HomeView {
    /// Whether a stop signal is kept for a service operation.
    pub open spec fn cancellable(self) -> bool {
        self.cancel_token is Some
    }

    /// The stop signal that is kept; where none is kept, a token of which
    /// nothing is known.
    pub open spec fn kept_token(self) -> CancellationToken {
        match self.cancel_token {
            Some(token) => token,
            None => arbitrary(),
        }
    }

    /// The text of the search box.
    pub open spec fn search(self) -> Seq<char> {
        typed(self.input)
    }

    /// The selected unit: the one under the cursor, if the cursor points at one.
    pub open spec fn selected(self) -> Option<UnitView> {
        match self.cursor {
            Some(i) if i < self.filtered.len() => Some(self.filtered[i as int]),
            _ => None,
        }
    }

    /// The state at start: no units and none selected, no logs, the log pane at
    /// its top, normal mode, an empty search box, no menu, no stop signal, the
    /// first frame of the animation, no error message, and no work asked for.
    pub open spec fn at_start(self) -> bool {
        &&& !self.show_logger
        &&& self.all_units.len() == 0
        &&& self.filtered.len() == 0
        &&& self.cursor == None::<usize>
        &&& self.logs.len() == 0
        &&& self.scroll == 0
        &&& self.mode == Mode::Normal
        &&& self.search().len() == 0
        &&& self.menu.len() == 0
        &&& self.menu_cursor == None::<usize>
        &&& self.cancel_token is None
        &&& self.spinner_tick == 0
        &&& self.error_message.len() == 0
        &&& self.effects.len() == 0
    }

    /// The name of the selected unit.
    pub open spec fn selected_name(self) -> Option<Seq<char>> {
        match self.selected() {
            Some(unit) => Some(unit.name),
            None => None,
        }
    }
}

impl View for Home {
    type V = HomeView;

    closed spec fn view(&self) -> HomeView {
        HomeView {
            show_logger: self.show_logger,
            all_units: unit_views(self.all_units@),
            filtered: unit_views(self.filtered_units.items()),
            cursor: self.filtered_units.cursor(),
            logs: views(self.logs@),
            scroll: self.logs_scroll_offset,
            mode: self.mode,
            input: self.input,
            menu: menu_views(self.menu_items.items()),
            menu_cursor: self.menu_items.cursor(),
            cancel_token: self.cancel_token,
            spinner_tick: self.spinner_tick,
            error_message: self.error_message@,
            effects: effect_views(self.effects@),
        }
    }
}

/// Whether a unit matches a search: the lowercase search text occurs in the
/// lowercase short name of the unit.
pub open spec fn matches_search(search: Seq<char>, unit: UnitView) -> bool {
    occurs_in(lowercased(search), lowercased(short_name_of(unit.name)))
}

/// The units of `all` that match `search`, in order.
pub open spec fn filter_units(all: Seq<UnitView>, search: Seq<char>) -> Seq<UnitView> {
    all.filter(|unit: UnitView| matches_search(search, unit))
}

/// No unit of an empty list matches any search.
pub proof fn lemma_filter_none(search: Seq<char>)
    ensures
        filter_units(Seq::<UnitView>::empty(), search) == Seq::<UnitView>::empty(),
{
    reveal(Seq::filter);
}

/// The part of the invariant that does not depend on the unit list: the menu
/// cursor points at an entry, the menu is not empty while it is open, and the
/// animation counter is a frame number.
pub open spec fn steady(v: HomeView) -> bool {
    &&& v.menu_cursor matches Some(i) ==> i < v.menu.len()
    &&& v.mode == Mode::ActionMenu ==> v.menu.len() > 0
    &&& v.spinner_tick < crate::home::model::SPINNER_FRAMES
}

/// The invariant of the interface state: the filtered list is the unit set
/// under the current search, and the rest is steady.
pub open spec fn valid(v: HomeView) -> bool {
    &&& v.filtered == filter_units(v.all_units, v.search())
    &&& steady(v)
}

impl Home {
    /// The invariant holds of this state.
    pub open spec fn wf(&self) -> bool {
        valid(self@)
    }

    /// The state at start: no units, no logs, normal mode, an empty search.
    pub fn new() -> (home: Home)
        ensures
            home.wf(),
            home@.at_start(),
            home@.show_logger == false,
            home@.all_units.len() == 0,
            home@.filtered.len() == 0,
            home@.cursor == None::<usize>,
            home@.logs.len() == 0,
            home@.scroll == 0,
            home@.mode == Mode::Normal,
            home@.search().len() == 0,
            home@.menu.len() == 0,
            home@.menu_cursor == None::<usize>,
            home@.cancel_token is None,
            home@.spinner_tick == 0,
            home@.error_message.len() == 0,
            home@.effects.len() == 0,
    {
        let home = Home {
            show_logger: false,
            all_units: Vec::new(),
            filtered_units: StatefulList::with_items(Vec::new()),
            logs: Vec::new(),
            logs_scroll_offset: 0,
            mode: Mode::Normal,
            input: Input::default(),
            menu_items: StatefulList::with_items(Vec::new()),
            cancel_token: None,
            spinner_tick: 0,
            error_message: String::new(),
            effects: Vec::new(),
        };
        proof {
            assert(home@.all_units =~= Seq::<UnitView>::empty());
            assert(home@.filtered =~= Seq::<UnitView>::empty());
            lemma_filter_none(home@.search());
        }
        home
    }
}

} // verus!
