//! The dropdown's state machine. The host hands each user event to
//! [`SelectState::handle`], which updates the state and returns the
//! [`Effect`] that the host then carries out.
use std::collections::HashSet;
use vstd::prelude::*;

use crate::toggles::{toggled, within_bounds};

verus! {

broadcast use vstd::std_specs::hash::group_hash_axioms;

/// A user event on the dropdown.
#[derive(Clone, Copy, Debug, PartialEq, Eq, Structural)]
pub enum SelectEvent {
    /// The text input gained focus.
    FocusIn,
    /// The text input lost focus.
    Blur,
    /// The list item of this option index was clicked.
    ItemClick(usize),
    /// The remove icon on the tag of this option index was clicked.
    TagRemove(usize),
}

/// What the host does after an event.
#[derive(Clone, Copy, Debug, PartialEq, Eq, Structural)]
pub struct Effect {
    /// Request focus on the text input; a host without a mounted input does nothing.
    pub refocus: bool,
    /// Call the change callback, if one was supplied, with this option index
    /// and the option list.
    pub notify: Option<usize>,
}

/// Mathematical model of a [`SelectState`].
pub struct SelectView {
    pub option_count: nat,
    pub selected: Set<usize>,
    pub open: bool,
}

/// Local state of one dropdown over a fixed list of `option_count` options.
pub struct SelectState {
    option_count: usize,
    selected: HashSet<usize>,
    open: bool,
}

impl View for SelectState {
    type V = SelectView;

    closed spec fn view(&self) -> SelectView {
        SelectView { option_count: self.option_count as nat, selected: self.selected@, open: self.open }
    }
}

/// An event that names an option names one of `option_count` options.
pub open spec fn event_in_range(event: SelectEvent, option_count: nat) -> bool {
    match event {
        SelectEvent::ItemClick(i) => i < option_count,
        SelectEvent::TagRemove(i) => i < option_count,
        _ => true,
    }
}

/// The state after `event`.
pub open spec fn next_view(v: SelectView, event: SelectEvent) -> SelectView {
    match event {
        SelectEvent::FocusIn => SelectView { open: true, ..v },
        SelectEvent::Blur => SelectView { open: false, ..v },
        SelectEvent::ItemClick(i) => SelectView { selected: toggled(v.selected, i), open: false, ..v },
        SelectEvent::TagRemove(i) => SelectView { selected: v.selected.remove(i), ..v },
    }
}

/// What the host does after `event`: a click on an item refocuses the input
/// and reports that item once; nothing else asks for anything.
pub open spec fn effect_of(event: SelectEvent) -> Effect {
    match event {
        SelectEvent::ItemClick(i) => Effect { refocus: true, notify: Some(i) },
        _ => Effect { refocus: false, notify: None },
    }
}

impl SelectState {
    /// Every selected index names an option.
    pub open spec fn wf(&self) -> bool {
        within_bounds(self@.selected, self@.option_count)
    }

    /// A fresh dropdown: nothing selected, the list shown when `open`.
    pub fn new(option_count: usize, open: bool) -> (r: Self)
        ensures
            r.wf(),
            r@ == (SelectView { option_count: option_count as nat, selected: Set::empty(), open }),
    {
        SelectState { option_count, selected: HashSet::new(), open }
    }

    /// The number of options.
    pub fn option_count(&self) -> (r: usize)
        ensures
            r == self@.option_count,
    {
        self.option_count
    }

    /// Whether the option list is shown.
    pub fn is_open(&self) -> (r: bool)
        ensures
            r == self@.open,
    {
        self.open
    }

    /// Whether option `index` is selected.
    pub fn is_selected(&self, index: usize) -> (r: bool)
        ensures
            r == self@.selected.contains(index),
    {
        self.selected.contains(&index)
    }

    /// Shows or hides the option list; the selection stays.
    pub fn set_open(&mut self, open: bool)
        requires
            old(self).wf(),
        ensures
            final(self).wf(),
            final(self)@ == (SelectView { open, ..old(self)@ }),
    {
        self.open = open;
    }

    /// Selects option `index` if it was not selected, else unselects it, and
    /// closes the list. The host then refocuses the input and reports `index`
    /// once to the change callback.
    pub fn toggle(&mut self, index: usize) -> (r: Effect)
        requires
            old(self).wf(),
            index < old(self)@.option_count,
        ensures
            final(self).wf(),
            final(self)@.selected == toggled(old(self)@.selected, index),
            !final(self)@.open,
            final(self)@.option_count == old(self)@.option_count,
            r == (Effect { refocus: true, notify: Some(index) }),
    {
        if self.selected.contains(&index) {
            self.selected.remove(&index);
        } else {
            self.selected.insert(index);
        }
        self.open = false;
        Effect { refocus: true, notify: Some(index) }
    }

    /// Unselects option `index`, as the remove icon on its tag does. The list
    /// stays shown or hidden as it was.
    pub fn remove_tag(&mut self, index: usize)
        requires
            old(self).wf(),
        ensures
            final(self).wf(),
            final(self)@ == (SelectView { selected: old(self)@.selected.remove(index), ..old(self)@ }),
    {
        self.selected.remove(&index);
    }

    /// Applies one user event and returns what the host must do next.
    pub fn handle(&mut self, event: SelectEvent) -> (r: Effect)
        requires
            old(self).wf(),
            event_in_range(event, old(self)@.option_count),
        ensures
            final(self).wf(),
            final(self)@ == next_view(old(self)@, event),
            r == effect_of(event),
    {
        match event {
            SelectEvent::FocusIn => {
                self.set_open(true);
                Effect { refocus: false, notify: None }
            },
            SelectEvent::Blur => {
                self.set_open(false);
                Effect { refocus: false, notify: None }
            },
            SelectEvent::ItemClick(i) => self.toggle(i),
            SelectEvent::TagRemove(i) => {
                self.remove_tag(i);
                Effect { refocus: false, notify: None }
            },
        }
    }

    /// The selected option indices in ascending order.
    pub fn selected_indices(&self) -> (r: Vec<usize>)
        requires
            self.wf(),
        ensures
            forall|k: int, l: int| 0 <= k < l < r@.len() ==> r@[k] < r@[l],
            forall|i: usize| self@.selected.contains(i) <==> r@.contains(i),
    {
        let mut r: Vec<usize> = Vec::new();
        let mut i: usize = 0;
        while i < self.option_count
            invariant
                i <= self.option_count,
                self.wf(),
                forall|k: int, l: int| 0 <= k < l < r@.len() ==> r@[k] < r@[l],
                forall|k: int| 0 <= k < r@.len() ==> r@[k] < i,
                forall|j: usize| j < i ==> (self@.selected.contains(j) <==> r@.contains(j)),
            decreases self.option_count - i,
        {
            let ghost before = r@;
            if self.selected.contains(&i) {
                r.push(i);
            }
            assert forall|j: usize| j <= i implies (self@.selected.contains(j) <==> r@.contains(j)) by {
                if j < i && r@.contains(j) && !before.contains(j) {
                    let k = choose|k: int| 0 <= k < r@.len() && r@[k] == j;
                    assert(k == before.len());
                }
                if before.contains(j) {
                    let k = choose|k: int| 0 <= k < before.len() && before[k] == j;
                    assert(r@[k] == j);
                }
                if j == i && self@.selected.contains(j) {
                    assert(r@[before.len() as int] == j);
                }
            }
            i = i + 1;
        }
        r
    }
}

} // verus!
