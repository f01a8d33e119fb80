use vstd::prelude::*;

verus! {

/// Mount lifecycle of a transient overlay.
#[derive(Debug, Clone, Copy, PartialEq, Eq, Structural)]
pub enum PresenceState {
    Mounted,
    Exiting,
    Unmounted,
}

/// The lifecycle table: `present` always mounts; otherwise a mounted overlay
/// starts exiting (or unmounts at once when its exit has already completed),
/// an exiting one unmounts when its exit completes, and an unmounted one stays.
pub open spec fn spec_presence_next(current: PresenceState, present: bool, exit_complete: bool) -> PresenceState {
    if present {
        PresenceState::Mounted
    } else {
        match current {
            PresenceState::Mounted => if exit_complete { PresenceState::Unmounted } else { PresenceState::Exiting },
            PresenceState::Exiting => if exit_complete { PresenceState::Unmounted } else { PresenceState::Exiting },
            PresenceState::Unmounted => PresenceState::Unmounted,
        }
    }
}

/// Next lifecycle state for the desired visibility and the exit-complete signal.
pub fn presence_state_next(current: PresenceState, present: bool, exit_complete: bool) -> (r: PresenceState)
    ensures
        r == spec_presence_next(current, present, exit_complete),
{
    match (current, present, exit_complete) {
        (_, true, _) => PresenceState::Mounted,
        (PresenceState::Mounted, false, true) => PresenceState::Unmounted,
        (PresenceState::Mounted, false, false) => PresenceState::Exiting,
        (PresenceState::Exiting, false, true) => PresenceState::Unmounted,
        (PresenceState::Exiting, false, false) => PresenceState::Exiting,
        (PresenceState::Unmounted, false, _) => PresenceState::Unmounted,
    }
}

/// Whether moving from `current` to `next` completes an exit: the overlay
/// has just become unmounted, which is when the exit-complete callback fires.
pub fn presence_exit_completed(current: PresenceState, next: PresenceState) -> (r: bool)
    ensures
        r == (current != next && next is Unmounted),
{
    match (current, next) {
        (PresenceState::Unmounted, _) => false,
        (_, PresenceState::Unmounted) => true,
        _ => false,
    }
}

} // verus!
