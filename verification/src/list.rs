//! An ordered list of items with a single selection cursor.
//!
//! The cursor is kept in a `ListState` of the widget toolkit. A list that has
//! no items has nowhere to move its cursor to: going to the next or to the
//! previous item leaves it as it is.

use ratatui::widgets::ListState;
use vstd::prelude::*;

verus! {

/// The list state of the widget toolkit, carried as an opaque value.
#[verifier::external_type_specification]
#[verifier::external_body]
pub struct ExListState(ListState);

/// The index that a `ListState` marks as selected, if any.
pub uninterp spec fn marked(state: ListState) -> Option<usize>;

/// `ListState::default()`: the derived default of a state whose selection is
/// an `Option`, so nothing is marked.
pub assume_specification[ <ListState as Default>::default ]() -> (state: ListState)
    ensures
        marked(state) == None::<usize>,
;

/// `ListState::selected` hands back the selection field unchanged.
pub assume_specification[ ListState::selected ](state: &ListState) -> (index: Option<usize>)
    ensures
        index == marked(*state),
;

/// `ListState::select` stores `index` as the selection. (It also resets the
/// scroll offset when `index` is `None`; the offset is not modelled.)
pub assume_specification[ ListState::select ](state: &mut ListState, index: Option<usize>)
    ensures
        marked(*final(state)) == index,
;

/// Whether `index` is a cursor that points at nothing or at one of `len`
/// items.
pub open spec fn cursor_fits(index: Option<usize>, len: nat) -> bool {
    match index {
        Some(i) => i < len,
        None => true,
    }
}

/// The cursor that follows `index` in a list of `len` items: the first
/// position after none and after the last, and `index` itself where the list
/// is empty.
pub open spec fn cursor_after(index: Option<usize>, len: nat) -> Option<usize> {
    if len == 0 {
        index
    } else {
        match index {
            Some(i) => Some(if i + 1 >= len { 0usize } else { (i + 1) as usize }),
            None => Some(0usize),
        }
    }
}

/// The cursor that precedes `index` in a list of `len` items: the last
/// position before the first, the first position after none, and `index`
/// itself where the list is empty.
pub open spec fn cursor_before(index: Option<usize>, len: nat) -> Option<usize> {
    if len == 0 {
        index
    } else {
        match index {
            Some(i) => Some(if i == 0 { (len - 1) as usize } else { (i - 1) as usize }),
            None => Some(0usize),
        }
    }
}

/// A list of items together with the cursor that selects one of them.
pub struct StatefulList<T> {
    state: ListState,
    items: Vec<T>,
}

impl<T> StatefulList<T> {
    /// The items of the list, in order.
    pub closed spec fn items(&self) -> Seq<T> {
        self.items@
    }

    /// The raw cursor, whether or not it points at an item.
    pub closed spec fn cursor(&self) -> Option<usize> {
        marked(self.state)
    }

    /// The cursor points at nothing or at an item of this list.
    pub open spec fn wf(&self) -> bool {
        cursor_fits(self.cursor(), self.items().len())
    }

    /// The position of the selected item: the cursor, when it points at an item.
    pub open spec fn selected_position(&self) -> Option<usize> {
        match self.cursor() {
            Some(i) if i < self.items().len() => Some(i),
            _ => None,
        }
    }

    /// A list of `items` with nothing selected.
    pub fn with_items(items: Vec<T>) -> (list: StatefulList<T>)
        ensures
            list.items() == items@,
            list.cursor() == None::<usize>,
            list.wf(),
    {
        StatefulList { state: ListState::default(), items }
    }

    /// The number of items.
    pub fn len(&self) -> (n: usize)
        ensures
            n == self.items().len(),
    {
        self.items.len()
    }

    /// The item at `position`.
    pub fn get(&self, position: usize) -> (item: &T)
        requires
            position < self.items().len(),
        ensures
            *item == self.items()[position as int],
    {
        &self.items[position]
    }

    /// The items, in order.
    pub fn as_vec(&self) -> (items: &Vec<T>)
        ensures
            items@ == self.items(),
    {
        &self.items
    }

    /// The raw cursor.
    pub fn selected_index(&self) -> (index: Option<usize>)
        ensures
            index == self.cursor(),
    {
        self.state.selected()
    }

    /// The selected item, if the cursor points at one.
    pub fn selected(&self) -> (item: Option<&T>)
        ensures
            match self.selected_position() {
                Some(i) => item == Some(&self.items()[i as int]),
                None => item.is_none(),
            },
    {
        match self.state.selected() {
            Some(i) => {
                if i < self.items.len() {
                    Some(&self.items[i])
                } else {
                    None
                }
            },
            None => None,
        }
    }

    /// Moves the cursor to the next item, wrapping to the first after the
    /// last. In an empty list the cursor stays as it is.
    pub fn next(&mut self)
        ensures
            final(self).items() == old(self).items(),
            final(self).cursor() == cursor_after(old(self).cursor(), old(self).items().len()),
            old(self).wf() ==> final(self).wf(),
    {
        let len = self.items.len();
        if len == 0 {
            return;
        }
        let i: usize = match self.state.selected() {
            Some(i) => {
                if i >= len - 1 {
                    0
                } else {
                    i + 1
                }
            },
            None => 0,
        };
        self.state.select(Some(i));
    }

    /// Moves the cursor to the previous item, wrapping to the last before the
    /// first. In an empty list the cursor stays as it is.
    pub fn previous(&mut self)
        ensures
            final(self).items() == old(self).items(),
            final(self).cursor() == cursor_before(old(self).cursor(), old(self).items().len()),
            old(self).wf() ==> final(self).wf(),
    {
        let len = self.items.len();
        if len == 0 {
            return;
        }
        let i: usize = match self.state.selected() {
            Some(i) => {
                if i == 0 {
                    len - 1
                } else {
                    i - 1
                }
            },
            None => 0,
        };
        self.state.select(Some(i));
    }

    /// Sets the cursor to `index`.
    pub fn select(&mut self, index: Option<usize>)
        ensures
            final(self).items() == old(self).items(),
            final(self).cursor() == index,
    {
        self.state.select(index);
    }

    /// Clears the cursor.
    pub fn unselect(&mut self)
        ensures
            final(self).items() == old(self).items(),
            final(self).cursor() == None::<usize>,
            final(self).wf(),
    {
        self.state.select(None);
    }
}

impl<T> Default for StatefulList<T> {
    fn default() -> (list: StatefulList<T>)
        ensures
            list.items() == Seq::<T>::empty(),
            list.cursor() == None::<usize>,
            list.wf(),
    {
        Self::with_items(Vec::new())
    }
}

} // verus!
