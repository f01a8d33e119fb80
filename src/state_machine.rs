use vstd::prelude::*;
use vstd::laws_eq::obeys_concrete_eq;
use vstd::std_specs::cmp::PartialEqSpec;

verus! {

/// One row of a transition table: in state `from`, `event` leads to `to`.
#[derive(Debug, Clone, PartialEq, Eq)]
pub struct Transition<S, E> {
    pub from: S,
    pub event: E,
    pub to: S,
}

/// The states before and after a successful trigger.
#[derive(Debug, Clone, PartialEq, Eq)]
pub struct TransitionResult<S> {
    pub previous: S,
    pub next: S,
}

/// A finite state machine driven by a declared transition table.
#[derive(Debug, Clone)]
pub struct StateMachine<S, E> {
    state: S,
    transitions: Vec<Transition<S, E>>,
}

/// The equality that the machine uses on states and events is the one their
/// `PartialEq` specifications describe.
pub open spec fn eq_obeyed<S: PartialEq, E: PartialEq>() -> bool {
    S::obeys_eq_spec() && E::obeys_eq_spec()
}

/// A row applies when its source is the current state and its event the one fired.
pub open spec fn row_applies<S: PartialEq, E: PartialEq>(t: Transition<S, E>, state: S, event: E) -> bool {
    t.from.eq_spec(&state) && t.event.eq_spec(&event)
}

/// Some row of `table` applies.
pub open spec fn any_row_applies<S: PartialEq, E: PartialEq>(table: Seq<Transition<S, E>>, state: S, event: E) -> bool {
    exists|i: int| 0 <= i < table.len() && row_applies(#[trigger] table[i], state, event)
}

/// Row `i` is the first row of `table` that applies.
pub open spec fn first_applying_row<S: PartialEq, E: PartialEq>(table: Seq<Transition<S, E>>, state: S, event: E, i: int) -> bool {
    &&& 0 <= i < table.len()
    &&& row_applies(table[i], state, event)
    &&& forall|j: int| 0 <= j < i ==> !row_applies(#[trigger] table[j], state, event)
}

impl<S, E> StateMachine<S, E> {
    /// The current state.
    pub closed spec fn current(&self) -> S {
        self.state
    }

    /// The declared transitions, in order of registration.
    pub closed spec fn table(&self) -> Seq<Transition<S, E>> {
        self.transitions@
    }

    /// A machine in state `initial` with no transitions.
    pub fn new(initial: S) -> (r: Self)
        ensures
            r.current() == initial,
            r.table() == Seq::<Transition<S, E>>::empty(),
    {
        StateMachine { state: initial, transitions: Vec::new() }
    }

    pub fn state(&self) -> (r: &S)
        ensures
            *r == self.current(),
    {
        &self.state
    }

    /// Replaces the current state, whatever the table says.
    pub fn set_state(&mut self, state: S)
        ensures
            final(self).current() == state,
            final(self).table() == old(self).table(),
    {
        self.state = state;
    }

    pub fn transitions(&self) -> (r: &[Transition<S, E>])
        ensures
            r@ == self.table(),
    {
        self.transitions.as_slice()
    }
}

impl<S: PartialEq, E: PartialEq> StateMachine<S, E> {
    /// Appends a row to the table.
    pub fn add_transition(&mut self, from: S, event: E, to: S)
        ensures
            final(self).current() == old(self).current(),
            final(self).table() == old(self).table().push(Transition { from, event, to }),
    {
        self.transitions.push(Transition { from, event, to });
    }

    /// Whether some row applies to the current state and `event`.
    pub fn can_transition(&self, event: &E) -> (r: bool)
        ensures
            eq_obeyed::<S, E>() ==> (r == any_row_applies(self.table(), self.current(), *event)),
    {
        match self.find_row(event) {
            Some(_) => true,
            None => false,
        }
    }

    fn find_row(&self, event: &E) -> (r: Option<usize>)
        ensures
            eq_obeyed::<S, E>() ==> match r {
                Some(i) => first_applying_row(self.table(), self.current(), *event, i as int),
                None => !any_row_applies(self.table(), self.current(), *event),
            },
            r matches Some(i) ==> i < self.table().len(),
    {
        let mut i: usize = 0;
        while i < self.transitions.len()
            invariant
                i <= self.transitions@.len(),
                eq_obeyed::<S, E>() ==> forall|j: int| 0 <= j < i ==> !row_applies(
                    #[trigger] self.transitions@[j],
                    self.state,
                    *event,
                ),
            decreases self.transitions@.len() - i,
        {
            let t = &self.transitions[i];
            if t.from == self.state && t.event == *event {
                return Some(i);
            }
            i = i + 1;
        }
        None
    }
}

impl<S: PartialEq + Clone, E: PartialEq> StateMachine<S, E> {
    /// Fires `event`: the first applying row, in order of registration, moves
    /// the machine to its target. With no applying row nothing changes.
    pub fn trigger(&mut self, event: &E) -> (r: Option<TransitionResult<S>>)
        ensures
            final(self).table() == old(self).table(),
            eq_obeyed::<S, E>() ==> (r is Some <==> any_row_applies(old(self).table(), old(self).current(), *event)),
            r is None ==> final(self).current() == old(self).current(),
            r matches Some(res) ==> {
                &&& res.previous == old(self).current()
                &&& cloned(final(self).current(), res.next)
                &&& exists|i: int|
                    0 <= i < old(self).table().len()
                    && cloned(#[trigger] old(self).table()[i].to, final(self).current())
                    && (eq_obeyed::<S, E>() ==> first_applying_row(old(self).table(), old(self).current(), *event, i))
            },
    {
        match self.find_row(event) {
            None => None,
            Some(i) => {
                let mut previous = self.transitions[i].to.clone();
                std::mem::swap(&mut self.state, &mut previous);
                let next = self.state.clone();
                Some(TransitionResult { previous, next })
            },
        }
    }
}

/// For states and events whose equality is plain equality, the machine's
/// equality obeys its specification, and a row applies exactly when its
/// source is the current state and its event the one fired.
pub proof fn lemma_row_applies_plain<S: PartialEq, E: PartialEq>(t: Transition<S, E>, state: S, event: E)
    requires
        obeys_concrete_eq::<S>(),
        obeys_concrete_eq::<E>(),
    ensures
        eq_obeyed::<S, E>(),
        row_applies(t, state, event) <==> (t.from == state && t.event == event),
{
    reveal(obeys_concrete_eq);
}

} // verus!
