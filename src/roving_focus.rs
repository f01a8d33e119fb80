use vstd::prelude::*;

use crate::text::str_eq;

verus! {

/// Which arrow keys move a roving-focus cursor.
#[derive(Debug, Clone, Copy, PartialEq, Eq, Structural)]
pub enum RovingFocusOrientation {
    Horizontal,
    Vertical,
    Both,
}

/// A cursor movement requested by a key.
#[derive(Debug, Clone, Copy, PartialEq, Eq, Structural)]
pub enum RovingFocusAction {
    Next,
    Prev,
    First,
    Last,
}

/// Abstract state of a roving-focus cursor.
pub struct FocusState {
    pub len: usize,
    pub active: Option<usize>,
    pub looped: bool,
}

/// `None` stays `None`; on an empty list everything becomes `None`; an index
/// past the end collapses to the last index.
pub open spec fn clamp_index(len: usize, index: Option<usize>) -> Option<usize> {
    match index {
        None => None,
        Some(i) => if len == 0 {
            None
        } else if i < len {
            Some(i)
        } else {
            Some((len - 1) as usize)
        },
    }
}

impl FocusState {
    /// The active index is absent on an empty list and in range otherwise.
    pub open spec fn wf(self) -> bool {
        &&& self.len == 0 ==> self.active is None
        &&& self.active matches Some(i) ==> i < self.len
    }

    /// Where an action moves the cursor, or `None` when it does not move.
    pub open spec fn target(self, action: RovingFocusAction) -> Option<usize> {
        if self.len == 0 {
            None
        } else {
            match action {
                RovingFocusAction::First => Some(0),
                RovingFocusAction::Last => Some((self.len - 1) as usize),
                RovingFocusAction::Next => match self.active {
                    None => Some(0),
                    Some(i) => if i + 1 < self.len {
                        Some((i + 1) as usize)
                    } else if self.looped {
                        Some(0)
                    } else {
                        None
                    },
                },
                RovingFocusAction::Prev => match self.active {
                    None => Some((self.len - 1) as usize),
                    Some(i) => if i > 0 {
                        Some((i - 1) as usize)
                    } else if self.looped {
                        Some((self.len - 1) as usize)
                    } else {
                        None
                    },
                },
            }
        }
    }

    /// The state after an action: the cursor moves to its target, stays where it
    /// is when there is none, and an empty list clears it.
    pub open spec fn after(self, action: RovingFocusAction) -> FocusState {
        if self.len == 0 {
            FocusState { len: self.len, active: None, looped: self.looped }
        } else {
            match self.target(action) {
                Some(i) => FocusState { len: self.len, active: Some(i), looped: self.looped },
                None => self,
            }
        }
    }

    /// The state after a sequence of actions, taken in order.
    pub open spec fn after_all(self, actions: Seq<RovingFocusAction>) -> FocusState
        decreases actions.len(),
    {
        if actions.len() == 0 {
            self
        } else {
            self.after(actions[0]).after_all(actions.drop_first())
        }
    }
}

/// Index-based single active element navigation over `len` items.
#[derive(Debug, Clone, Copy, PartialEq, Eq)]
pub struct RovingFocus {
    len: usize,
    active: Option<usize>,
    looped: bool,
}

impl View for RovingFocus {
    type V = FocusState;

    closed spec fn view(&self) -> FocusState {
        FocusState { len: self.len, active: self.active, looped: self.looped }
    }
}

/// The state that `RovingFocus::new(len)` builds.
pub open spec fn spec_new_focus(len: usize) -> FocusState {
    FocusState { len, active: if len > 0 { Some(0) } else { None }, looped: true }
}

/// Left and right arrows move the cursor.
pub open spec fn horizontal_keys(orientation: RovingFocusOrientation) -> bool {
    orientation is Horizontal || orientation is Both
}

/// Up and down arrows move the cursor.
pub open spec fn vertical_keys(orientation: RovingFocusOrientation) -> bool {
    orientation is Vertical || orientation is Both
}

/// Home and End always map to First and Last; left/right arrows need a
/// horizontal orientation, up/down arrows a vertical one.
pub open spec fn spec_action_from_key(key: Seq<char>, orientation: RovingFocusOrientation) -> Option<RovingFocusAction> {
    if key == "Home"@ {
        Some(RovingFocusAction::First)
    } else if key == "End"@ {
        Some(RovingFocusAction::Last)
    } else if key == "ArrowLeft"@ {
        if horizontal_keys(orientation) { Some(RovingFocusAction::Prev) } else { None }
    } else if key == "ArrowRight"@ {
        if horizontal_keys(orientation) { Some(RovingFocusAction::Next) } else { None }
    } else if key == "ArrowUp"@ {
        if vertical_keys(orientation) { Some(RovingFocusAction::Prev) } else { None }
    } else if key == "ArrowDown"@ {
        if vertical_keys(orientation) { Some(RovingFocusAction::Next) } else { None }
    } else {
        None
    }
}

/// Maps a keyboard key name to a cursor movement.
pub fn roving_focus_action_from_key(key: &str, orientation: RovingFocusOrientation) -> (r: Option<RovingFocusAction>)
    ensures
        r == spec_action_from_key(key@, orientation),
{
    let horizontal = matches!(orientation, RovingFocusOrientation::Horizontal | RovingFocusOrientation::Both);
    let vertical = matches!(orientation, RovingFocusOrientation::Vertical | RovingFocusOrientation::Both);
    if str_eq(key, "Home") {
        Some(RovingFocusAction::First)
    } else if str_eq(key, "End") {
        Some(RovingFocusAction::Last)
    } else if str_eq(key, "ArrowLeft") {
        if horizontal { Some(RovingFocusAction::Prev) } else { None }
    } else if str_eq(key, "ArrowRight") {
        if horizontal { Some(RovingFocusAction::Next) } else { None }
    } else if str_eq(key, "ArrowUp") {
        if vertical { Some(RovingFocusAction::Prev) } else { None }
    } else if str_eq(key, "ArrowDown") {
        if vertical { Some(RovingFocusAction::Next) } else { None }
    } else {
        None
    }
}

/// The index that focus lands on after `action`, starting from `current` among
/// `count` items; an action that cannot move keeps `current`, and an empty
/// list gives `0`.
pub open spec fn spec_next_index(current: usize, count: usize, action: RovingFocusAction, looped: bool) -> usize {
    if count == 0 {
        0
    } else {
        let state = FocusState { len: count, active: clamp_index(count, Some(current)), looped };
        match state.target(action) {
            Some(i) => i,
            None => current,
        }
    }
}

/// Stateless form of one cursor movement.
pub fn roving_focus_next_index(current: usize, count: usize, action: RovingFocusAction, looped: bool) -> (r: usize)
    ensures
        r == spec_next_index(current, count, action, looped),
{
    if count == 0 {
        return 0;
    }
    let mut focus = RovingFocus::with_active(count, Some(current), looped);
    match action {
        RovingFocusAction::First => match focus.move_first() {
            Some(i) => i,
            None => 0,
        },
        RovingFocusAction::Last => match focus.move_last() {
            Some(i) => i,
            None => 0,
        },
        RovingFocusAction::Next => match focus.move_next() {
            Some(i) => i,
            None => current,
        },
        RovingFocusAction::Prev => match focus.move_prev() {
            Some(i) => i,
            None => current,
        },
    }
}

impl RovingFocus {
    /// A looped cursor on the first of `len` items (none when `len` is 0).
    pub fn new(len: usize) -> (r: Self)
        ensures
            r@ == spec_new_focus(len),
            r@.wf(),
    {
        Self::with_active(len, if len > 0 { Some(0) } else { None }, true)
    }

    /// A cursor over `len` items on `active`, clamped into range.
    pub fn with_active(len: usize, active: Option<usize>, looped: bool) -> (r: Self)
        ensures
            r@ == (FocusState { len, active: clamp_index(len, active), looped }),
            r@.wf(),
    {
        RovingFocus { len, active: Self::clamp(len, active), looped }
    }

    pub fn len(&self) -> (r: usize)
        ensures
            r == self@.len,
    {
        self.len
    }

    pub fn active(&self) -> (r: Option<usize>)
        ensures
            r == self@.active,
    {
        self.active
    }

    pub fn looped(&self) -> (r: bool)
        ensures
            r == self@.looped,
    {
        self.looped
    }

    pub fn set_looped(&mut self, looped: bool)
        ensures
            final(self)@ == (FocusState { looped, ..old(self)@ }),
    {
        self.looped = looped;
    }

    /// Changes the number of items and re-clamps the active index.
    pub fn set_len(&mut self, len: usize) -> (r: Option<usize>)
        ensures
            final(self)@ == (FocusState { len, active: clamp_index(len, old(self)@.active), looped: old(self)@.looped }),
            final(self)@.wf(),
            r == final(self)@.active,
    {
        self.active = Self::clamp(len, self.active);
        self.len = len;
        self.active
    }

    /// Moves the cursor to `index`, clamped into range.
    pub fn set_active(&mut self, index: Option<usize>) -> (r: Option<usize>)
        ensures
            final(self)@ == (FocusState { active: clamp_index(old(self)@.len, index), ..old(self)@ }),
            r == final(self)@.active,
    {
        self.active = Self::clamp(self.len, index);
        self.active
    }

    /// Moves to the next item, wrapping to the first when looped.
    pub fn move_next(&mut self) -> (r: Option<usize>)
        ensures
            final(self)@ == old(self)@.after(RovingFocusAction::Next),
            r == old(self)@.target(RovingFocusAction::Next),
    {
        let len = self.len;
        if len == 0 {
            self.active = None;
            return None;
        }
        let next = match self.active {
            None => Some(0),
            Some(index) => if index < len - 1 {
                Some(index + 1)
            } else if self.looped {
                Some(0)
            } else {
                None
            },
        };
        if let Some(index) = next {
            self.active = Some(index);
        }
        next
    }

    /// Moves to the previous item, wrapping to the last when looped.
    pub fn move_prev(&mut self) -> (r: Option<usize>)
        ensures
            final(self)@ == old(self)@.after(RovingFocusAction::Prev),
            r == old(self)@.target(RovingFocusAction::Prev),
    {
        let len = self.len;
        if len == 0 {
            self.active = None;
            return None;
        }
        let prev = match self.active {
            None => Some(len - 1),
            Some(index) => if index > 0 {
                Some(index - 1)
            } else if self.looped {
                Some(len - 1)
            } else {
                None
            },
        };
        if let Some(index) = prev {
            self.active = Some(index);
        }
        prev
    }

    /// Moves to the first item.
    pub fn move_first(&mut self) -> (r: Option<usize>)
        ensures
            final(self)@ == old(self)@.after(RovingFocusAction::First),
            r == old(self)@.target(RovingFocusAction::First),
    {
        if self.len == 0 {
            self.active = None;
            return None;
        }
        self.active = Some(0);
        self.active
    }

    /// Moves to the last item.
    pub fn move_last(&mut self) -> (r: Option<usize>)
        ensures
            final(self)@ == old(self)@.after(RovingFocusAction::Last),
            r == old(self)@.target(RovingFocusAction::Last),
    {
        if self.len == 0 {
            self.active = None;
            return None;
        }
        self.active = Some(self.len - 1);
        self.active
    }

    fn clamp(len: usize, active: Option<usize>) -> (r: Option<usize>)
        ensures
            r == clamp_index(len, active),
    {
        match active {
            Some(index) => if len == 0 {
                None
            } else if index < len {
                Some(index)
            } else {
                Some(len - 1)
            },
            None => None,
        }
    }
}

/// An action keeps a well-formed cursor well formed.
pub proof fn lemma_after_keeps_wf(s: FocusState, action: RovingFocusAction)
    requires
        s.wf(),
    ensures
        s.after(action).wf(),
{
}

/// Starting from `RovingFocus::new(len)`, any sequence of movements leaves the
/// active index absent exactly when the list is empty, and in range otherwise.
pub proof fn lemma_moves_keep_active_in_range(len: usize, actions: Seq<RovingFocusAction>)
    ensures
        spec_new_focus(len).after_all(actions).active is None <==> len == 0,
        spec_new_focus(len).after_all(actions).active matches Some(i) ==> i < len,
        spec_new_focus(len).after_all(actions).len == len,
    decreases actions.len(),
{
    lemma_after_all_from(spec_new_focus(len), actions);
}

proof fn lemma_after_all_from(s: FocusState, actions: Seq<RovingFocusAction>)
    requires
        s.wf(),
        s.len > 0 ==> s.active is Some,
    ensures
        s.after_all(actions).wf(),
        s.after_all(actions).len == s.len,
        s.len > 0 ==> s.after_all(actions).active is Some,
    decreases actions.len(),
{
    if actions.len() > 0 {
        lemma_after_keeps_wf(s, actions[0]);
        lemma_after_all_from(s.after(actions[0]), actions.drop_first());
    }
}

/// Without looping, moving past the last item is refused and changes nothing;
/// with looping it lands on the first item.
pub proof fn lemma_next_at_last(s: FocusState)
    requires
        s.wf(),
        s.len > 0,
        s.active == Some((s.len - 1) as usize),
    ensures
        !s.looped ==> s.target(RovingFocusAction::Next) is None && s.after(RovingFocusAction::Next) == s,
        s.looped ==> s.target(RovingFocusAction::Next) == Some(0usize) && s.after(RovingFocusAction::Next).active == Some(0usize),
{
}

} // verus!
