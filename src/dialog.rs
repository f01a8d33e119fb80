use vstd::prelude::*;

verus! {

/// Derived open/closed state of a dialog.
#[derive(Debug, Clone, Copy, PartialEq, Eq, Structural)]
pub enum DialogState {
    Open,
    Closed,
}

/// Open/closed state with a modality flag that gates nothing.
#[derive(Debug, Clone, Copy, PartialEq, Eq, Structural)]
pub struct DialogModel {
    open: bool,
    modal: bool,
}

impl DialogModel {
    pub closed spec fn is_open(&self) -> bool {
        self.open
    }

    pub closed spec fn is_modal(&self) -> bool {
        self.modal
    }

    /// A modal dialog, open or closed.
    pub fn new(open: bool) -> (r: Self)
        ensures
            r.is_open() == open,
            r.is_modal(),
    {
        DialogModel { open, modal: true }
    }

    pub fn open(&self) -> (r: bool)
        ensures
            r == self.is_open(),
    {
        self.open
    }

    pub fn modal(&self) -> (r: bool)
        ensures
            r == self.is_modal(),
    {
        self.modal
    }

    pub fn set_modal(&mut self, modal: bool)
        ensures
            final(self).is_modal() == modal,
            final(self).is_open() == old(self).is_open(),
    {
        self.modal = modal;
    }

    pub fn state(&self) -> (r: DialogState)
        ensures
            r == (if self.is_open() { DialogState::Open } else { DialogState::Closed }),
    {
        if self.open {
            DialogState::Open
        } else {
            DialogState::Closed
        }
    }

    /// Sets openness; returns whether it changed.
    pub fn set_open(&mut self, open: bool) -> (changed: bool)
        ensures
            final(self).is_open() == open,
            final(self).is_modal() == old(self).is_modal(),
            changed == (old(self).is_open() != open),
    {
        let changed = self.open != open;
        self.open = open;
        changed
    }

    /// Flips openness; always applied.
    pub fn toggle(&mut self) -> (applied: bool)
        ensures
            final(self).is_open() == !old(self).is_open(),
            final(self).is_modal() == old(self).is_modal(),
            applied,
    {
        self.open = !self.open;
        true
    }
}

} // verus!
