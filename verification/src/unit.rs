//! The record that the service manager gives for each unit.

use vstd::prelude::*;
use crate::text::{ends_with, strip_suffix};

verus! {

/// The status of one unit. Only the name identifies a unit.
#[derive(Debug, PartialEq, Eq)]
pub struct UnitStatus {
    pub name: String,
    pub description: String,
    pub load_state: String,
    pub active_state: String,
    pub sub_state: String,
    pub path: String,
}

/// The mathematical value of a [`UnitStatus`].
pub ghost struct UnitView {
    pub name: Seq<char>,
    pub description: Seq<char>,
    pub load_state: Seq<char>,
    pub active_state: Seq<char>,
    pub sub_state: Seq<char>,
    pub path: Seq<char>,
}

impl View for UnitStatus {
    type V = UnitView;

    open spec fn view(&self) -> UnitView {
        UnitView {
            name: self.name@,
            description: self.description@,
            load_state: self.load_state@,
            active_state: self.active_state@,
            sub_state: self.sub_state@,
            path: self.path@,
        }
    }
}

/// The values of a list of units.
pub open spec fn unit_views(units: Seq<UnitStatus>) -> Seq<UnitView> {
    units.map_values(|u: UnitStatus| u@)
}

/// The ending that marks a unit as a service.
pub open spec fn service_suffix() -> Seq<char> {
    ".service"@
}

/// The name of a unit without the ending that marks it as a service.
pub open spec fn short_name_of(name: Seq<char>) -> Seq<char> {
    if ends_with(name, service_suffix()) {
        name.subrange(0, name.len() - service_suffix().len())
    } else {
        name
    }
}

impl UnitStatus {
    /// A unit of the given name with every other field empty.
    pub fn named(name: &str) -> (unit: UnitStatus)
        ensures
            unit@.name == name@,
            unit@.description.len() == 0,
            unit@.load_state.len() == 0,
            unit@.active_state.len() == 0,
            unit@.sub_state.len() == 0,
            unit@.path.len() == 0,
    {
        UnitStatus {
            name: name.to_owned(),
            description: String::new(),
            load_state: String::new(),
            active_state: String::new(),
            sub_state: String::new(),
            path: String::new(),
        }
    }

    /// The name without a trailing `.service`.
    pub fn short_name(&self) -> (short: &str)
        ensures
            short@ == short_name_of(self@.name),
    {
        match strip_suffix(self.name.as_str(), ".service") {
            Some(stem) => stem,
            None => self.name.as_str(),
        }
    }
}

impl Clone for UnitStatus {
    fn clone(&self) -> (copy: UnitStatus)
        ensures
            copy@ == self@,
    {
        UnitStatus {
            name: self.name.clone(),
            description: self.description.clone(),
            load_state: self.load_state.clone(),
            active_state: self.active_state.clone(),
            sub_state: self.sub_state.clone(),
            path: self.path.clone(),
        }
    }
}

/// A copy of every unit of `units`, in order.
pub fn clone_units(units: &Vec<UnitStatus>) -> (copy: Vec<UnitStatus>)
    ensures
        unit_views(copy@) == unit_views(units@),
{
    let mut copy: Vec<UnitStatus> = Vec::new();
    let mut i: usize = 0;
    while i < units.len()
        invariant
            i <= units.len(),
            copy.len() == i,
            forall|j: int| 0 <= j < i ==> copy[j]@ == units[j]@,
        decreases units.len() - i,
    {
        copy.push(units[i].clone());
        i = i + 1;
    }
    assert(unit_views(copy@) =~= unit_views(units@));
    copy
}

} // verus!
