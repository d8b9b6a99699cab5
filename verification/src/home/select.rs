//! Selection, filtering and the log requests that follow from them.

use vstd::prelude::*;
use crate::home::model::first_named;
use crate::home::{filter_units, matches_search, steady, Effect, EffectView, Home};
use crate::list::StatefulList;
use crate::text::{contains, lowercased, occurs_in, to_lowercase, views};
use crate::unit::{short_name_of, unit_views, UnitStatus, UnitView};

verus! {

/// The units kept by a search in lowercase, given the lowercase short name of
/// each unit by position: a unit is kept where the search occurs in its name.
/// A unit whose position has no name is not kept.
pub open spec fn kept_units(units: Seq<UnitView>, lower_names: Seq<Seq<char>>, lower_search: Seq<char>) -> Seq<
    UnitView,
>
    decreases units.len(),
{
    if units.len() == 0 {
        Seq::empty()
    } else {
        let before = kept_units(units.drop_last(), lower_names, lower_search);
        let last = units.len() - 1;
        if last < lower_names.len() && occurs_in(lower_search, lower_names[last]) {
            before.push(units.last())
        } else {
            before
        }
    }
}

/// Keeping units by their lowercase names is filtering them by the search:
/// where each name is the lowercase short name of the unit at its position,
/// the units kept by the lowercase search are the units that match the search.
pub proof fn lemma_kept_is_filter(units: Seq<UnitView>, lower_names: Seq<Seq<char>>, search: Seq<char>)
    requires
        lower_names.len() >= units.len(),
        forall|i: int|
            0 <= i < units.len() ==> #[trigger] lower_names[i] == lowercased(
                short_name_of(units[i].name),
            ),
    ensures
        kept_units(units, lower_names, lowercased(search)) == filter_units(units, search),
    decreases units.len(),
{
    reveal(Seq::filter);
    if units.len() > 0 {
        lemma_kept_is_filter(units.drop_last(), lower_names, search);
        assert(matches_search(search, units.last()) == occurs_in(
            lowercased(search),
            lower_names[units.len() - 1],
        ));
    }
}

/// The units of `units` whose lowercase short name contains `lower_search`, in
/// order; `lower_names` gives the lowercase short name of each unit by
/// position.
pub fn keep_matching(units: &Vec<UnitStatus>, lower_names: &Vec<String>, lower_search: &str) -> (kept:
    Vec<UnitStatus>)
    ensures
        unit_views(kept@) == kept_units(unit_views(units@), views(lower_names@), lower_search@),
{
    let ghost all = unit_views(units@);
    let ghost names = views(lower_names@);
    let mut kept: Vec<UnitStatus> = Vec::new();
    let mut i: usize = 0;
    assert(unit_views(kept@) =~= kept_units(all.take(0), names, lower_search@));
    while i < units.len()
        invariant
            i <= units.len(),
            all == unit_views(units@),
            names == views(lower_names@),
            unit_views(kept@) == kept_units(all.take(i as int), names, lower_search@),
        decreases units.len() - i,
    {
        let ghost before = unit_views(kept@);
        proof {
            assert(all.take(i + 1).drop_last() =~= all.take(i as int));
            assert(all.take(i + 1).last() == units[i as int]@);
        }
        if i < lower_names.len() && contains(lower_names[i].as_str(), lower_search) {
            kept.push(units[i].clone());
            assert(unit_views(kept@) =~= before.push(units[i as int]@));
        }
        i = i + 1;
    }
    assert(all.take(i as int) =~= all);
    kept
}

impl Home {
    /// The name of the selected unit.
    pub fn selected_service(&self) -> (name: Option<String>)
        ensures
            match self@.selected_name() {
                Some(n) => name matches Some(s) && s@ == n,
                None => name is None,
            },
    {
        match self.filtered_units.selected() {
            Some(unit) => Some(unit.name.clone()),
            None => None,
        }
    }

    /// Asks for the logs of the selected unit; with no unit selected, empties
    /// the log buffer.
    pub fn get_logs(&mut self)
        requires
            old(self).wf(),
        ensures
            final(self)@ == old(self)@.ask_logs(),
            final(self).wf(),
    {
        match self.filtered_units.selected() {
            Some(selected) => {
                let unit_name = selected.name.clone();
                self.effects.push(Effect::FollowLogs(unit_name));
                assert(self@.effects =~= old(self)@.effects.push(
                    EffectView::FollowLogs(unit_name@),
                ));
            },
            None => {
                self.logs = Vec::new();
                assert(self@.logs =~= Seq::<Seq<char>>::empty());
            },
        }
    }

    /// Moves to the next unit and starts over with its logs.
    pub fn next(&mut self)
        requires
            old(self).wf(),
        ensures
            final(self)@ == old(self)@.after_next(),
            final(self).wf(),
    {
        self.logs = Vec::new();
        assert(self@.logs =~= Seq::<Seq<char>>::empty());
        self.filtered_units.next();
        self.get_logs();
        self.logs_scroll_offset = 0;
    }

    /// Moves to the previous unit and starts over with its logs.
    pub fn previous(&mut self)
        requires
            old(self).wf(),
        ensures
            final(self)@ == old(self)@.after_previous(),
            final(self).wf(),
    {
        self.logs = Vec::new();
        assert(self@.logs =~= Seq::<Seq<char>>::empty());
        self.filtered_units.previous();
        self.get_logs();
        self.logs_scroll_offset = 0;
    }

    /// Sets the cursor to `index`; with `refresh_logs`, starts over with the
    /// logs of the unit it selects.
    pub fn select(&mut self, index: Option<usize>, refresh_logs: bool)
        requires
            old(self).wf(),
        ensures
            final(self)@ == old(self)@.after_select(index, refresh_logs),
            final(self).wf(),
    {
        if refresh_logs {
            self.logs = Vec::new();
            assert(self@.logs =~= Seq::<Seq<char>>::empty());
        }
        self.filtered_units.select(index);
        if refresh_logs {
            self.get_logs();
            self.logs_scroll_offset = 0;
        }
    }

    /// Clears the cursor and the log buffer.
    pub fn unselect(&mut self)
        requires
            old(self).wf(),
        ensures
            final(self)@ == old(self)@.after_unselect(),
            final(self).wf(),
    {
        self.logs = Vec::new();
        assert(self@.logs =~= Seq::<Seq<char>>::empty());
        self.filtered_units.unselect();
    }

    /// The first position in the filtered list of a unit called `name`, or the
    /// length of the list where there is none.
    fn position_of(&self, name: &String) -> (at: usize)
        ensures
            at == first_named(self@.filtered, name@, 0),
            at <= self@.filtered.len(),
    {
        let n = self.filtered_units.len();
        let mut at: usize = 0;
        while at < n
            invariant
                n == self.filtered_units.items().len(),
                at <= n,
                first_named(self@.filtered, name@, 0) == first_named(
                    self@.filtered,
                    name@,
                    at as int,
                ),
            decreases n - at,
        {
            if self.filtered_units.get(at).name == *name {
                return at;
            }
            at = at + 1;
        }
        at
    }

    /// The units that match the search box, in order.
    fn matching_units(&self) -> (matching: Vec<UnitStatus>)
        ensures
            unit_views(matching@) == filter_units(self@.all_units, self@.search()),
    {
        let search_value_lower = to_lowercase(self.input.value());
        let mut lower_names: Vec<String> = Vec::new();
        let mut i: usize = 0;
        while i < self.all_units.len()
            invariant
                i <= self.all_units.len(),
                lower_names.len() == i,
                forall|j: int|
                    0 <= j < i ==> (#[trigger] lower_names[j])@ == lowercased(
                        short_name_of(self.all_units[j]@.name),
                    ),
            decreases self.all_units.len() - i,
        {
            lower_names.push(to_lowercase(self.all_units[i].short_name()));
            i = i + 1;
        }
        let matching = keep_matching(&self.all_units, &lower_names, search_value_lower.as_str());
        proof {
            lemma_kept_is_filter(self@.all_units, views(lower_names@), self@.search());
        }
        matching
    }

    /// Applies the search box to the unit set again. The unit called
    /// `previously_selected` stays selected if it still matches; otherwise the
    /// first match is selected and its logs are asked for. With no match none
    /// is selected.
    pub fn filter_statuses(&mut self, previously_selected: Option<String>)
        requires
            steady(old(self)@),
        ensures
            final(self)@ == old(self)@.refiltered(
                match previously_selected {
                    Some(name) => Some(name@),
                    None => None,
                },
            ),
            final(self).wf(),
    {
        let matching = self.matching_units();
        self.filtered_units = StatefulList::with_items(matching);
        match previously_selected {
            Some(name) => {
                let index = self.position_of(&name);
                if index < self.filtered_units.len() {
                    self.select(Some(index), false);
                } else if self.filtered_units.len() > 0 {
                    self.select(Some(0), true);
                } else {
                    self.select(None, true);
                }
            },
            None => {
                if self.filtered_units.len() > 0 {
                    self.select(Some(0), true);
                } else {
                    self.unselect();
                }
            },
        }
    }

    /// Replaces the unit set and applies the search to it, keeping the
    /// selected unit selected if it is still there.
    pub fn set_units(&mut self, units: Vec<UnitStatus>)
        requires
            old(self).wf(),
        ensures
            final(self)@ == old(self)@.with_units(unit_views(units@)),
            final(self).wf(),
    {
        let previously_selected = self.selected_service();
        self.all_units = units;
        self.filter_statuses(previously_selected);
    }
}

} // verus!
