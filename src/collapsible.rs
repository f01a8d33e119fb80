use vstd::prelude::*;

verus! {

/// Derived open/closed state of a collapsible panel.
#[derive(Debug, Clone, Copy, PartialEq, Eq, Structural)]
pub enum CollapsibleState {
    Open,
    Closed,
}

/// Open/closed state with a disablement gate.
#[derive(Debug, Clone, Copy, PartialEq, Eq, Structural)]
pub struct CollapsibleModel {
    open: bool,
    disabled: bool,
}

impl CollapsibleModel {
    pub closed spec fn is_open(&self) -> bool {
        self.open
    }

    pub closed spec fn is_disabled(&self) -> bool {
        self.disabled
    }

    /// An enabled panel, open or closed.
    pub fn new(open: bool) -> (r: Self)
        ensures
            r.is_open() == open,
            !r.is_disabled(),
    {
        CollapsibleModel { open, disabled: false }
    }

    pub fn open(&self) -> (r: bool)
        ensures
            r == self.is_open(),
    {
        self.open
    }

    pub fn disabled(&self) -> (r: bool)
        ensures
            r == self.is_disabled(),
    {
        self.disabled
    }

    pub fn state(&self) -> (r: CollapsibleState)
        ensures
            r == (if self.is_open() { CollapsibleState::Open } else { CollapsibleState::Closed }),
    {
        if self.open {
            CollapsibleState::Open
        } else {
            CollapsibleState::Closed
        }
    }

    /// Sets openness unless disabled; returns whether it changed.
    pub fn set_open(&mut self, open: bool) -> (changed: bool)
        ensures
            final(self).is_disabled() == old(self).is_disabled(),
            final(self).is_open() == (if old(self).is_disabled() { old(self).is_open() } else { open }),
            changed == (!old(self).is_disabled() && old(self).is_open() != open),
    {
        if self.disabled {
            return false;
        }
        let changed = self.open != open;
        self.open = open;
        changed
    }

    /// Flips openness unless disabled; returns whether it was applied.
    pub fn toggle(&mut self) -> (applied: bool)
        ensures
            final(self).is_disabled() == old(self).is_disabled(),
            applied == !old(self).is_disabled(),
            final(self).is_open() == (if old(self).is_disabled() { old(self).is_open() } else { !old(self).is_open() }),
    {
        if self.disabled {
            return false;
        }
        self.open = !self.open;
        true
    }

    pub fn set_disabled(&mut self, disabled: bool)
        ensures
            final(self).is_disabled() == disabled,
            final(self).is_open() == old(self).is_open(),
    {
        self.disabled = disabled;
    }
}

} // verus!
