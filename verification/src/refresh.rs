//! Delivering a listing of the units.
//!
//! The service manager is asked for its units outside. What becomes of the
//! answer is decided here: a listing replaces the unit set, and a listing that
//! could not be had changes nothing, so that the interface goes on with the
//! units it has.

use vstd::prelude::*;
use crate::action::{action_views, Action, ActionView};
use crate::unit::{unit_views, UnitStatus, UnitView};

verus! {

/// The actions that deliver a listing: the units replace the unit set. A
/// listing that failed delivers nothing.
pub open spec fn listing_script(listing: Option<Seq<UnitView>>) -> Seq<ActionView> {
    match listing {
        Some(units) => seq![ActionView::SetServices(units)],
        None => seq![],
    }
}

/// The actions that deliver the answer to a request for the units; `listing`
/// is `None` where the service manager could not be reached.
pub fn listing_actions(listing: Option<Vec<UnitStatus>>) -> (actions: Vec<Action>)
    ensures
        action_views(actions@) == listing_script(
            match listing {
                Some(units) => Some(unit_views(units@)),
                None => None,
            },
        ),
{
    let mut actions: Vec<Action> = Vec::new();
    match listing {
        Some(units) => {
            actions.push(Action::SetServices(units));
            assert(action_views(actions@) =~= seq![ActionView::SetServices(unit_views(units@))]);
        },
        None => {
            assert(action_views(actions@) =~= Seq::<ActionView>::empty());
        },
    }
    actions
}

} // verus!
