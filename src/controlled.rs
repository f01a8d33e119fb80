use vstd::prelude::*;
use vstd::std_specs::cmp::PartialEqSpec;

verus! {

/// The value before and after a change.
#[derive(Debug, Clone, Copy, PartialEq, Eq)]
pub struct Change<'a, T> {
    pub previous: &'a T,
    pub next: &'a T,
}

/// Something told of every change of a controlled value.
pub trait ChangeHandler<T>: Sized {
    /// The handler can be told of any change.
    spec fn ready(&self) -> bool;

    /// `after` is what this handler may become once told that the value went
    /// from `previous` to `next`.
    spec fn told(&self, previous: T, next: T, after: Self) -> bool;

    /// Tells the handler of one change.
    fn changed(&mut self, change: Change<'_, T>)
        requires
            old(self).ready(),
        ensures
            final(self).ready(),
            old(self).told(*change.previous, *change.next, *final(self));
}

/// The handler of a value that nobody observes.
#[derive(Debug, Clone, Copy, PartialEq, Eq, Structural)]
pub struct NoHandler;

impl<T> ChangeHandler<T> for NoHandler {
    open spec fn ready(&self) -> bool {
        true
    }

    open spec fn told(&self, previous: T, next: T, after: Self) -> bool {
        after == *self
    }

    fn changed(&mut self, change: Change<'_, T>) {
    }
}

impl<T, G: FnMut(Change<'_, T>)> ChangeHandler<T> for Box<G> {
    open spec fn ready(&self) -> bool {
        forall|c: Change<'_, T>| call_requires(**self, (c,))
    }

    /// The closure was called once, with the change.
    open spec fn told(&self, previous: T, next: T, after: Self) -> bool {
        call_ensures(**self, (Change { previous: &previous, next: &next },), ())
    }

    fn changed(&mut self, change: Change<'_, T>) {
        let f: &mut G = &mut **self;
        f(change);
    }
}

/// A value cell that tells its handler, if any, of each change.
pub struct Controlled<T, F> {
    value: T,
    on_change: Option<F>,
}

impl<T> Controlled<T, NoHandler> {
    /// A cell holding `value`, with no handler.
    pub fn new(value: T) -> (r: Self)
        ensures
            r.current() == value,
            r.handler() is None,
    {
        Controlled { value, on_change: None }
    }
}

impl<T, F> Controlled<T, F> {
    /// The value held.
    pub closed spec fn current(&self) -> T {
        self.value
    }

    /// The handler told of changes.
    pub closed spec fn handler(&self) -> Option<F> {
        self.on_change
    }
}

impl<T, F: ChangeHandler<T>> Controlled<T, F> {
    /// The handler, if any, can be told of a change.
    pub open spec fn ready(&self) -> bool {
        self.handler() matches Some(h) ==> h.ready()
    }

    /// `after` is this cell once `next` was set: it holds `next`, and its
    /// handler, if any, was told of the change from the value held before.
    pub open spec fn set_to(&self, next: T, after: Self) -> bool {
        &&& after.current() == next
        &&& self.handler() is None ==> after.handler() is None
        &&& self.handler() matches Some(h) ==> after.handler() matches Some(h2) && h.told(self.current(), next, h2)
    }

    /// A cell holding `value`, whose changes `on_change` is told of.
    pub fn with_on_change(value: T, on_change: F) -> (r: Self)
        ensures
            r.current() == value,
            r.handler() == Some(on_change),
    {
        Controlled { value, on_change: Some(on_change) }
    }

    pub fn value(&self) -> (r: &T)
        ensures
            *r == self.current(),
    {
        &self.value
    }

    pub fn into_inner(self) -> (r: T)
        ensures
            r == self.current(),
    {
        self.value
    }

    /// Replaces the handler.
    pub fn set_on_change(&mut self, on_change: Option<F>)
        ensures
            final(self).current() == old(self).current(),
            final(self).handler() == on_change,
    {
        self.on_change = on_change;
    }

    /// Replaces the value and tells the handler, if any, of the previous and
    /// the new value, whether they differ or not.
    pub fn set(&mut self, next: T)
        requires
            old(self).ready(),
        ensures
            old(self).set_to(next, *final(self)),
            final(self).ready(),
    {
        let mut previous = next;
        std::mem::swap(&mut self.value, &mut previous);
        match &mut self.on_change {
            Some(f) => {
                f.changed(Change { previous: &previous, next: &self.value });
            },
            None => {},
        }
    }

    /// Sets `f` of the current value; see `set`.
    pub fn update<U: FnOnce(&T) -> T>(&mut self, f: U)
        requires
            old(self).ready(),
            call_requires(f, (&old(self).current(),)),
        ensures
            call_ensures(f, (&old(self).current(),), final(self).current()),
            old(self).set_to(final(self).current(), *final(self)),
            final(self).ready(),
    {
        let next = f(&self.value);
        self.set(next);
    }
}

impl<T: PartialEq, F: ChangeHandler<T>> Controlled<T, F> {
    /// Sets `next` only when it differs from the value held; returns whether
    /// it did. An equal value leaves the cell and its handler untouched.
    pub fn set_if_changed(&mut self, next: T) -> (changed: bool)
        requires
            old(self).ready(),
        ensures
            T::obeys_eq_spec() ==> changed == !old(self).current().eq_spec(&next),
            changed ==> old(self).set_to(next, *final(self)),
            !changed ==> *final(self) == *old(self),
            final(self).ready(),
    {
        if self.value == next {
            return false;
        }
        self.set(next);
        true
    }

    /// `set_if_changed` of `f` of the current value.
    pub fn update_if_changed<U: FnOnce(&T) -> T>(&mut self, f: U) -> (changed: bool)
        requires
            old(self).ready(),
            call_requires(f, (&old(self).current(),)),
        ensures
            exists|next: T|
                #[trigger] call_ensures(f, (&old(self).current(),), next) && (T::obeys_eq_spec() ==> changed
                    == !old(self).current().eq_spec(&next)) && (changed ==> final(self).current() == next),
            changed ==> old(self).set_to(final(self).current(), *final(self)),
            !changed ==> *final(self) == *old(self),
            final(self).ready(),
    {
        let next = f(&self.value);
        let ghost witness = next;
        let changed = self.set_if_changed(next);
        assert(call_ensures(f, (&old(self).current(),), witness) && (T::obeys_eq_spec() ==> changed
            == !old(self).current().eq_spec(&witness)) && (changed ==> self.current() == witness));
        changed
    }
}

} // verus!
