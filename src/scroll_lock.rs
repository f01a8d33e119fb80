use vstd::prelude::*;

verus! {

/// A platform handle that scroll locking needed could not be had.
#[derive(Debug, Clone, PartialEq, Eq, Structural)]
pub enum ScrollLockError {
    WindowUnavailable,
    DocumentUnavailable,
    BodyUnavailable,
    StyleUnavailable,
}

/// Platform side of scroll locking; `S` is a captured snapshot of the scroll
/// position and the layout style that locking changes.
pub trait ScrollHost<S> {
    /// The host never fails; a host that claims so proves it of its methods.
    open spec fn infallible(&self) -> bool {
        false
    }

    /// The host keeps the record below of what it did; a host that claims so
    /// proves it of its methods.
    open spec fn records(&self) -> bool {
        false
    }

    /// The snapshots captured so far, in order.
    open spec fn captured(&self) -> Seq<S> {
        Seq::empty()
    }

    /// The snapshots put back so far, in order.
    open spec fn unlocked(&self) -> Seq<S> {
        Seq::empty()
    }

    /// Captures the snapshot, then applies the locked style.
    fn lock(&mut self) -> (r: Result<S, ScrollLockError>)
        ensures
            old(self).infallible() ==> r is Ok && final(self).infallible(),
            old(self).records() ==> final(self).records() && final(self).unlocked() == old(self).unlocked()
                && final(self).captured() == match r {
                Ok(s) => old(self).captured().push(s),
                Err(_) => old(self).captured(),
            };

    /// Puts a captured snapshot back.
    fn unlock(&mut self, snapshot: &S) -> (r: Result<(), ScrollLockError>)
        ensures
            old(self).infallible() ==> r is Ok && final(self).infallible(),
            old(self).records() ==> final(self).records() && final(self).captured() == old(self).captured()
                && final(self).unlocked() == if r is Ok {
                old(self).unlocked().push(*snapshot)
            } else {
                old(self).unlocked()
            };
}

/// Host for targets without a document: there is nothing to capture.
pub struct InertScrollHost {
    captured: Ghost<Seq<()>>,
    unlocked: Ghost<Seq<()>>,
}

impl InertScrollHost {
    /// A host that has done nothing yet.
    pub fn new() -> (r: Self)
        ensures
            r.captured() == Seq::<()>::empty(),
            r.unlocked() == Seq::<()>::empty(),
            r.records(),
            r.infallible(),
    {
        InertScrollHost { captured: Ghost(Seq::empty()), unlocked: Ghost(Seq::empty()) }
    }
}

impl ScrollHost<()> for InertScrollHost {
    open spec fn infallible(&self) -> bool {
        true
    }

    open spec fn records(&self) -> bool {
        true
    }

    closed spec fn captured(&self) -> Seq<()> {
        self.captured@
    }

    closed spec fn unlocked(&self) -> Seq<()> {
        self.unlocked@
    }

    fn lock(&mut self) -> (r: Result<(), ScrollLockError>) {
        self.captured = Ghost(self.captured@.push(()));
        Ok(())
    }

    fn unlock(&mut self, snapshot: &()) -> (r: Result<(), ScrollLockError>) {
        self.unlocked = Ghost(self.unlocked@.push(*snapshot));
        Ok(())
    }
}

/// Abstract scroll-lock state: how many hold the lock, and the snapshot taken
/// when the first of them took it.
pub struct ScrollLockView<S> {
    pub count: usize,
    pub snapshot: Option<S>,
}

impl<S> ScrollLockView<S> {
    /// A snapshot is held exactly while someone holds the lock.
    pub open spec fn wf(self) -> bool {
        (self.count > 0) == (self.snapshot is Some)
    }

    /// The snapshot held, if any, as a list of at most one.
    pub open spec fn kept(self) -> Seq<S> {
        match self.snapshot {
            Some(s) => seq![s],
            None => Seq::empty(),
        }
    }

    /// What the leaving holder puts back: the snapshot when it is the last.
    pub open spec fn restoring(self) -> Seq<S> {
        if self.count == 1 {
            self.kept()
        } else {
            Seq::empty()
        }
    }

    /// The state after one holder leaves: the last one clears the snapshot;
    /// with no holder nothing changes.
    pub open spec fn after_release(self) -> ScrollLockView<S> {
        if self.count == 0 {
            self
        } else if self.count == 1 {
            ScrollLockView { count: 0, snapshot: None }
        } else {
            ScrollLockView { count: (self.count - 1) as usize, snapshot: self.snapshot }
        }
    }
}

/// Reference-counted scroll lock shared by all its holders.
#[derive(Debug)]
pub struct ScrollLockState<S> {
    count: usize,
    snapshot: Option<S>,
}

impl<S> View for ScrollLockState<S> {
    type V = ScrollLockView<S>;

    closed spec fn view(&self) -> ScrollLockView<S> {
        ScrollLockView { count: self.count, snapshot: self.snapshot }
    }
}

impl<S> ScrollLockState<S> {
    /// Nobody holds the lock.
    pub fn new() -> (r: Self)
        ensures
            r@.count == 0,
            r@.snapshot is None,
    {
        ScrollLockState { count: 0, snapshot: None }
    }

    /// Number of holders.
    pub fn count(&self) -> (r: usize)
        ensures
            r == self@.count,
    {
        self.count
    }

    /// Whether a snapshot is held.
    pub fn has_snapshot(&self) -> (r: bool)
        ensures
            r == self@.snapshot is Some,
    {
        self.snapshot.is_some()
    }

    /// Records the first holder, keeping the snapshot the host captured for it.
    pub fn first_hold(&mut self, snapshot: S) -> (r: ScrollLockGuard)
        requires
            old(self)@.count == 0,
        ensures
            final(self)@ == (ScrollLockView { count: 1, snapshot: Some(snapshot) }),
            r.is_active(),
    {
        self.count = 1;
        self.snapshot = Some(snapshot);
        ScrollLockGuard { active: true }
    }

    /// Records one more holder of a lock already held; the snapshot stays.
    pub fn extra_hold(&mut self) -> (r: ScrollLockGuard)
        requires
            0 < old(self)@.count < usize::MAX,
        ensures
            final(self)@ == (ScrollLockView { count: (old(self)@.count + 1) as usize, snapshot: old(self)@.snapshot }),
            r.is_active(),
    {
        self.count = self.count + 1;
        ScrollLockGuard { active: true }
    }

    /// The snapshot that the leaving holder must have put back: the stored
    /// one when it is the last holder, none otherwise.
    pub fn snapshot_to_restore(&self) -> (r: Option<&S>)
        ensures
            r is Some <==> (self@.count == 1 && self@.snapshot is Some),
            r matches Some(s) ==> self@.snapshot == Some(*s),
    {
        if self.count == 1 {
            self.snapshot.as_ref()
        } else {
            None
        }
    }

    /// Records that one holder left.
    pub fn drop_holder(&mut self)
        ensures
            final(self)@ == old(self)@.after_release(),
    {
        if self.count == 1 {
            self.count = 0;
            self.snapshot = None;
        } else if self.count > 1 {
            self.count = self.count - 1;
        }
    }
}

/// Handle of one holder; releasing it twice is harmless.
#[derive(Debug)]
pub struct ScrollLockGuard {
    active: bool,
}

impl ScrollLockGuard {
    pub closed spec fn is_active(&self) -> bool {
        self.active
    }

    pub fn active(&self) -> (r: bool)
        ensures
            r == self.is_active(),
    {
        self.active
    }

    /// Releases this holder's share of the lock if it has not done so yet.
    pub fn release<S, H: ScrollHost<S>>(&mut self, state: &mut ScrollLockState<S>, host: &mut H) -> (r: Result<(), ScrollLockError>)
        ensures
            !old(self).is_active() ==> r is Ok && *final(state) == *old(state) && *final(host) == *old(host)
                && !final(self).is_active(),
            old(self).is_active() && r is Ok ==> !final(self).is_active() && final(state)@.count == (if old(state)@.count
                == 0 { 0 } else { old(state)@.count - 1 }),
            r is Err ==> *final(state) == *old(state) && final(self).is_active(),
            old(self).is_active() && r is Ok ==> final(state)@ == old(state)@.after_release(),
            old(self).is_active() && old(state)@.count != 1 ==> r is Ok && *final(host) == *old(host),
            old(self).is_active() && old(host).infallible() ==> r is Ok,
            old(host).records() ==> final(host).records() && final(host).captured() == old(host).captured(),
            old(host).records() && r is Ok ==> final(host).unlocked() == old(host).unlocked() + (if old(
                self,
            ).is_active() {
                old(state)@.restoring()
            } else {
                Seq::empty()
            }),
    {
        if !self.active {
            return Ok(());
        }
        match scroll_lock_release(state, host) {
            Ok(()) => {
                self.active = false;
                Ok(())
            },
            Err(e) => Err(e),
        }
    }
}

/// Takes a share of the lock. Only the first holder makes the host capture a
/// snapshot and lock scrolling, and that snapshot is the one kept (see
/// `first_hold`); when that fails nothing changes.
pub fn scroll_lock_acquire<S, H: ScrollHost<S>>(state: &mut ScrollLockState<S>, host: &mut H) -> (r: Result<ScrollLockGuard, ScrollLockError>)
    requires
        old(state)@.count < usize::MAX,
    ensures
        r matches Ok(g) ==> g.is_active() && final(state)@.count == old(state)@.count + 1,
        r is Err ==> old(state)@.count == 0 && *final(state) == *old(state),
        old(state)@.count > 0 ==> r is Ok && final(state)@.snapshot == old(state)@.snapshot && *final(host) == *old(host),
        old(state)@.count == 0 && r is Ok ==> final(state)@.count == 1 && final(state)@.snapshot is Some,
        old(state)@.count == 0 && old(host).infallible() ==> r is Ok,
        old(host).records() ==> final(host).records() && final(host).unlocked() == old(host).unlocked(),
        old(host).records() ==> final(host).captured() == old(host).captured() + (if old(state)@.count == 0
            && r is Ok {
            final(state)@.kept()
        } else {
            Seq::empty()
        }),
        old(state)@.wf() ==> final(state)@.wf(),
{
    if state.count == 0 {
        match host.lock() {
            Ok(snapshot) => Ok(state.first_hold(snapshot)),
            Err(e) => Err(e),
        }
    } else {
        Ok(state.extra_hold())
    }
}

/// Gives back a share of the lock. The last holder makes the host put back
/// the stored snapshot (see `snapshot_to_restore`); when that fails nothing
/// changes. With no holder this is a no-op.
pub fn scroll_lock_release<S, H: ScrollHost<S>>(state: &mut ScrollLockState<S>, host: &mut H) -> (r: Result<(), ScrollLockError>)
    ensures
        r is Ok ==> final(state)@ == old(state)@.after_release(),
        r is Err ==> old(state)@.count == 1 && *final(state) == *old(state),
        old(state)@.count != 1 ==> r is Ok && *final(host) == *old(host),
        old(host).infallible() ==> r is Ok,
        old(host).records() ==> final(host).records() && final(host).captured() == old(host).captured(),
        old(host).records() && r is Ok ==> final(host).unlocked() == old(host).unlocked() + old(
            state,
        )@.restoring(),
        old(state)@.wf() ==> final(state)@.wf(),
{
    match state.snapshot_to_restore() {
        Some(snapshot) => match host.unlock(snapshot) {
            Ok(()) => {},
            Err(e) => {
                return Err(e);
            },
        },
        None => {},
    }
    state.drop_holder();
    Ok(())
}

} // verus!
