use vstd::prelude::*;

use crate::roving_focus::{clamp_index, FocusState, RovingFocus, RovingFocusAction};

verus! {

/// Whether moving focus also selects.
#[derive(Debug, Clone, Copy, PartialEq, Eq, Structural)]
pub enum TabsActivation {
    Automatic,
    Manual,
}

/// Abstract state of a tab group: its focus cursor, selection and policy.
pub struct TabsState {
    pub focus: FocusState,
    pub selected: Option<usize>,
    pub activation: TabsActivation,
}

impl TabsState {
    /// The cursor is well formed and always loops, and the selection is in range.
    pub open spec fn wf(self) -> bool {
        &&& self.focus.wf()
        &&& self.focus.looped
        &&& self.selected matches Some(i) ==> i < self.focus.len
    }

    /// The selection after focus landed on `focused`: mirrored under automatic
    /// activation, kept under manual activation.
    pub open spec fn selection_after_focus(self, focused: Option<usize>) -> Option<usize> {
        if self.activation is Automatic {
            focused
        } else {
            self.selected
        }
    }

    /// The state after one focus movement.
    pub open spec fn after_move(self, action: RovingFocusAction) -> TabsState {
        TabsState {
            focus: self.focus.after(action),
            selected: self.selection_after_focus(self.focus.target(action)),
            activation: self.activation,
        }
    }

    /// The state after the focused tab is committed as the selection.
    pub open spec fn after_activate(self) -> TabsState {
        if self.activation is Manual {
            TabsState { selected: self.focus.active, ..self }
        } else {
            self
        }
    }
}

/// Selection and focus over a group of tabs.
#[derive(Debug, Clone, PartialEq, Eq)]
pub struct TabsModel {
    focus: RovingFocus,
    selected: Option<usize>,
    activation: TabsActivation,
}

impl View for TabsModel {
    type V = TabsState;

    closed spec fn view(&self) -> TabsState {
        TabsState { focus: self.focus@, selected: self.selected, activation: self.activation }
    }
}

/// The state that `TabsModel::with_activation(len, activation)` builds.
pub open spec fn spec_new_tabs(len: usize, activation: TabsActivation) -> TabsState {
    TabsState {
        focus: FocusState { len, active: if len > 0 { Some(0) } else { None }, looped: true },
        selected: if len > 0 { Some(0) } else { None },
        activation,
    }
}

impl TabsModel {
    /// A tab group of `len` tabs with automatic activation.
    pub fn new(len: usize) -> (r: Self)
        ensures
            r@ == spec_new_tabs(len, TabsActivation::Automatic),
            r@.wf(),
    {
        Self::with_activation(len, TabsActivation::Automatic)
    }

    /// A tab group of `len` tabs, the first focused and selected.
    pub fn with_activation(len: usize, activation: TabsActivation) -> (r: Self)
        ensures
            r@ == spec_new_tabs(len, activation),
            r@.wf(),
    {
        let focus = RovingFocus::with_active(len, if len > 0 { Some(0) } else { None }, true);
        let selected = if len > 0 { Some(0) } else { None };
        TabsModel { focus, selected, activation }
    }

    pub fn len(&self) -> (r: usize)
        ensures
            r == self@.focus.len,
    {
        self.focus.len()
    }

    pub fn selected(&self) -> (r: Option<usize>)
        ensures
            r == self@.selected,
    {
        self.selected
    }

    pub fn focused(&self) -> (r: Option<usize>)
        ensures
            r == self@.focus.active,
    {
        self.focus.active()
    }

    pub fn activation(&self) -> (r: TabsActivation)
        ensures
            r == self@.activation,
    {
        self.activation
    }

    pub fn set_activation(&mut self, activation: TabsActivation)
        ensures
            final(self)@ == (TabsState { activation, ..old(self)@ }),
    {
        self.activation = activation;
    }

    /// Changes the number of tabs, clamping focus and selection alike.
    pub fn set_len(&mut self, len: usize)
        requires
            old(self)@.wf(),
        ensures
            final(self)@ == (TabsState {
                focus: FocusState { len, active: clamp_index(len, old(self)@.focus.active), looped: old(self)@.focus.looped },
                selected: clamp_index(len, old(self)@.selected),
                activation: old(self)@.activation,
            }),
            final(self)@.wf(),
    {
        self.focus.set_len(len);
        self.selected = self.clamp_index(self.selected);
    }

    /// Moves focus to `index` (clamped); selects it too under automatic activation.
    pub fn focus_index(&mut self, index: Option<usize>) -> (r: Option<usize>)
        requires
            old(self)@.wf(),
        ensures
            r == clamp_index(old(self)@.focus.len, index),
            final(self)@ == (TabsState {
                focus: FocusState { active: r, ..old(self)@.focus },
                selected: old(self)@.selection_after_focus(r),
                activation: old(self)@.activation,
            }),
            final(self)@.wf(),
    {
        let focused = self.focus.set_active(index);
        if self.activation == TabsActivation::Automatic {
            self.selected = focused;
        }
        focused
    }

    /// Moves focus to the next tab.
    pub fn focus_next(&mut self) -> (r: Option<usize>)
        requires
            old(self)@.wf(),
        ensures
            r == old(self)@.focus.target(RovingFocusAction::Next),
            final(self)@ == old(self)@.after_move(RovingFocusAction::Next),
            final(self)@.wf(),
    {
        let focused = self.focus.move_next();
        if self.activation == TabsActivation::Automatic {
            self.selected = focused;
        }
        focused
    }

    /// Moves focus to the previous tab.
    pub fn focus_prev(&mut self) -> (r: Option<usize>)
        requires
            old(self)@.wf(),
        ensures
            r == old(self)@.focus.target(RovingFocusAction::Prev),
            final(self)@ == old(self)@.after_move(RovingFocusAction::Prev),
            final(self)@.wf(),
    {
        let focused = self.focus.move_prev();
        if self.activation == TabsActivation::Automatic {
            self.selected = focused;
        }
        focused
    }

    /// Moves focus to the first tab.
    pub fn focus_first(&mut self) -> (r: Option<usize>)
        requires
            old(self)@.wf(),
        ensures
            r == old(self)@.focus.target(RovingFocusAction::First),
            final(self)@ == old(self)@.after_move(RovingFocusAction::First),
            final(self)@.wf(),
    {
        let focused = self.focus.move_first();
        if self.activation == TabsActivation::Automatic {
            self.selected = focused;
        }
        focused
    }

    /// Moves focus to the last tab.
    pub fn focus_last(&mut self) -> (r: Option<usize>)
        requires
            old(self)@.wf(),
        ensures
            r == old(self)@.focus.target(RovingFocusAction::Last),
            final(self)@ == old(self)@.after_move(RovingFocusAction::Last),
            final(self)@.wf(),
    {
        let focused = self.focus.move_last();
        if self.activation == TabsActivation::Automatic {
            self.selected = focused;
        }
        focused
    }

    /// Selects `index` (clamped); under automatic activation focus follows.
    pub fn select(&mut self, index: Option<usize>) -> (r: Option<usize>)
        requires
            old(self)@.wf(),
        ensures
            r == clamp_index(old(self)@.focus.len, index),
            final(self)@.selected == r,
            final(self)@.activation == old(self)@.activation,
            final(self)@.focus == (if old(self)@.activation is Automatic {
                FocusState { active: r, ..old(self)@.focus }
            } else {
                old(self)@.focus
            }),
            final(self)@.wf(),
    {
        self.selected = self.clamp_index(index);
        if self.activation == TabsActivation::Automatic {
            self.focus.set_active(self.selected);
        }
        self.selected
    }

    /// Under manual activation, selects the focused tab; returns the selection.
    pub fn activate_focused(&mut self) -> (r: Option<usize>)
        requires
            old(self)@.wf(),
        ensures
            final(self)@ == old(self)@.after_activate(),
            r == final(self)@.selected,
            final(self)@.wf(),
    {
        if self.activation == TabsActivation::Manual {
            self.selected = self.focus.active();
        }
        self.selected
    }

    fn clamp_index(&self, index: Option<usize>) -> (r: Option<usize>)
        ensures
            r == clamp_index(self@.focus.len, index),
    {
        match index {
            Some(index) => if self.len() == 0 {
                None
            } else if index < self.len() {
                Some(index)
            } else {
                Some(self.len() - 1)
            },
            None => None,
        }
    }
}

/// Under automatic activation, moving focus to the next tab leaves selection
/// equal to focus. Under manual activation the selection does not move with
/// focus, and committing the focused tab makes them equal.
pub proof fn lemma_focus_next_and_selection(t: TabsState)
    requires
        t.wf(),
    ensures
        t.activation is Automatic ==> t.after_move(RovingFocusAction::Next).selected
            == t.after_move(RovingFocusAction::Next).focus.active,
        t.activation is Manual ==> t.after_move(RovingFocusAction::Next).selected == t.selected,
        t.activation is Manual ==> t.after_move(RovingFocusAction::Next).after_activate().selected
            == t.after_move(RovingFocusAction::Next).focus.active,
{
}

} // verus!
