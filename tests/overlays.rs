use ui_primitives::attributes::{
    attribute_delta, attribute_text, normalize_attributes, PrimitiveAttribute,
    PrimitiveAttributeValue,
};
use ui_primitives::modal::{
    modal_hide_siblings, modal_restore, HiddenElement, InertModalHost, ModalError, ModalHost,
    ModalState,
};
use ui_primitives::presence::{presence_exit_completed, presence_state_next, PresenceState};
use ui_primitives::scroll_lock::{
    scroll_lock_acquire, scroll_lock_release, InertScrollHost, ScrollHost, ScrollLockError,
    ScrollLockState,
};

fn attr_str(name: &str, value: &str) -> PrimitiveAttribute {
    PrimitiveAttribute::string(name, value)
}

fn attr_bool(name: &str, value: bool) -> PrimitiveAttribute {
    PrimitiveAttribute::bool(name, value)
}

#[test]
fn attribute_delta_dedupes_and_removes_missing() {
    let previous = vec![attr_str("data-state", "open"), attr_bool("hidden", true)];
    let next = vec![attr_str("data-state", "closed")];

    let delta = attribute_delta(&previous, &next);
    assert_eq!(delta.remove, vec!["hidden"]);
    assert_eq!(delta.set.len(), 1);
    assert_eq!(delta.set[0].name(), "data-state");
    assert_eq!(
        delta.set[0].value(),
        &PrimitiveAttributeValue::String("closed".to_string())
    );
}

#[test]
fn attribute_delta_last_wins() {
    let next = vec![
        attr_str("data-state", "open"),
        attr_str("data-state", "closed"),
    ];
    let delta = attribute_delta(&[], &next);
    assert_eq!(delta.set.len(), 1);
    assert_eq!(delta.set[0].name(), "data-state");
    assert_eq!(
        delta.set[0].value(),
        &PrimitiveAttributeValue::String("closed".to_string())
    );
}

#[test]
fn attribute_delta_orders_by_name_and_keeps_survivors() {
    let previous = vec![attr_str("role", "tab"), attr_str("id", "a"), attr_str("aria-x", "1")];
    let next = vec![
        attr_bool("tabindex", false),
        attr_str("id", "b"),
        attr_str("Id", "c"),
        attr_bool("tabindex", true),
    ];
    let delta = attribute_delta(&previous, &next);
    assert_eq!(delta.remove, vec!["aria-x", "role"]);
    let names: Vec<&str> = delta.set.iter().map(|a| a.name()).collect();
    assert_eq!(names, vec!["Id", "id", "tabindex"]);
    assert_eq!(delta.set[1].value(), &PrimitiveAttributeValue::String("b".to_string()));
    assert_eq!(delta.set[2].value(), &PrimitiveAttributeValue::Bool(true));
    let empty = attribute_delta(&[], &[]);
    assert!(empty.remove.is_empty() && empty.set.is_empty());
    assert_eq!(normalize_attributes(&next).len(), 3);
}

#[test]
fn attribute_text_by_value_kind() {
    assert_eq!(attribute_text(&attr_str("id", "x")), Some("x".to_string()));
    assert_eq!(attribute_text(&attr_bool("hidden", true)), Some(String::new()));
    assert_eq!(attribute_text(&attr_bool("hidden", false)), None);
}

#[test]
fn presence_state_moves_to_exiting_on_close() {
    let next = presence_state_next(PresenceState::Mounted, false, false);
    assert_eq!(next, PresenceState::Exiting);
}

#[test]
fn presence_state_unmounts_after_exit() {
    let next = presence_state_next(PresenceState::Exiting, false, true);
    assert_eq!(next, PresenceState::Unmounted);
}

#[test]
fn presence_state_mounts_when_present() {
    let next = presence_state_next(PresenceState::Unmounted, true, false);
    assert_eq!(next, PresenceState::Mounted);
}

#[test]
fn presence_state_full_table() {
    let all = [PresenceState::Mounted, PresenceState::Exiting, PresenceState::Unmounted];
    for current in all {
        for exit_complete in [false, true] {
            assert_eq!(presence_state_next(current, true, exit_complete), PresenceState::Mounted);
        }
    }
    assert_eq!(presence_state_next(PresenceState::Mounted, false, true), PresenceState::Unmounted);
    assert_eq!(presence_state_next(PresenceState::Exiting, false, false), PresenceState::Exiting);
    assert_eq!(presence_state_next(PresenceState::Unmounted, false, false), PresenceState::Unmounted);
    assert_eq!(presence_state_next(PresenceState::Unmounted, false, true), PresenceState::Unmounted);
}

#[test]
fn modal_guard_tracks_layers() {
    let mut state = ModalState::new();
    let mut host = InertModalHost::new();
    assert_eq!(state.layer_count(), 0);
    let mut guard = modal_hide_siblings(&mut state, &mut host, &()).expect("guard");
    assert_eq!(state.layer_count(), 1);
    guard.release(&mut state, &mut host).expect("release");
    assert_eq!(state.layer_count(), 0);
}

/// Host over a page of numbered elements: `hidden[k]` says whether element
/// `k` is hidden; a root hides every other element.
struct PageHost {
    hidden: Vec<bool>,
    fail: bool,
}

impl ModalHost<u64, bool> for PageHost {
    fn hide_siblings(&mut self, root: &u64) -> Result<Vec<HiddenElement<bool>>, ModalError> {
        if self.fail {
            return Err(ModalError::BodyUnavailable);
        }
        let mut out = Vec::new();
        for k in 0..self.hidden.len() {
            if k as u64 != *root {
                out.push(HiddenElement { key: k as u64, record: self.hidden[k] });
                self.hidden[k] = true;
            }
        }
        Ok(out)
    }

    fn restore(&mut self, item: &HiddenElement<bool>) -> Result<(), ModalError> {
        if self.fail {
            return Err(ModalError::AttributeUnavailable);
        }
        self.hidden[item.key as usize] = item.record;
        Ok(())
    }
}

#[test]
fn modal_inner_release_keeps_outer_hidden() {
    let mut state = ModalState::new();
    let mut host = PageHost { hidden: vec![false; 4], fail: false };
    let mut outer = modal_hide_siblings(&mut state, &mut host, &0).expect("outer");
    assert_eq!(host.hidden, vec![false, true, true, true]);
    let mut inner = modal_hide_siblings(&mut state, &mut host, &1).expect("inner");
    assert_eq!(host.hidden, vec![true, true, true, true]);
    assert_eq!(state.layer_count(), 2);
    inner.release(&mut state, &mut host).expect("inner release");
    assert_eq!(host.hidden, vec![false, true, true, true]);
    inner.release(&mut state, &mut host).expect("second release");
    assert_eq!(state.layer_count(), 1);
    outer.release(&mut state, &mut host).expect("outer release");
    assert_eq!(host.hidden, vec![false, false, false, false]);
    assert_eq!(state.layer_count(), 0);
    assert_eq!(modal_restore(&mut state, &mut host, 77), Ok(()));
}

#[test]
fn modal_failures_leave_stack_unchanged() {
    let mut state = ModalState::new();
    let mut host = PageHost { hidden: vec![false; 3], fail: true };
    assert_eq!(
        modal_hide_siblings(&mut state, &mut host, &0).err(),
        Some(ModalError::BodyUnavailable)
    );
    assert_eq!(state.layer_count(), 0);
    host.fail = false;
    let guard = modal_hide_siblings(&mut state, &mut host, &0).expect("guard");
    assert_eq!(guard.id(), 0);
    host.fail = true;
    assert_eq!(modal_restore(&mut state, &mut host, guard.id()), Err(ModalError::AttributeUnavailable));
    assert_eq!(state.layer_count(), 1);
    host.fail = false;
    assert_eq!(modal_restore(&mut state, &mut host, guard.id()), Ok(()));
    assert_eq!(state.layer_count(), 0);
    assert_eq!(host.hidden, vec![false, false, false]);
    let plan_state: ModalState<bool> = ModalState::new();
    assert!(plan_state.restore_plan(3).is_empty());
}

#[test]
fn scroll_lock_guard_updates_count() {
    let mut state = ScrollLockState::new();
    let mut host = InertScrollHost::new();
    assert_eq!(state.count(), 0);
    let mut guard = scroll_lock_acquire(&mut state, &mut host).expect("lock");
    assert_eq!(state.count(), 1);
    guard.release(&mut state, &mut host).expect("release");
    assert_eq!(state.count(), 0);
}

#[test]
fn scroll_lock_release_is_idempotent() {
    let mut state: ScrollLockState<()> = ScrollLockState::new();
    let mut host = InertScrollHost::new();
    let _ = scroll_lock_release(&mut state, &mut host).expect("release");
    assert_eq!(state.count(), 0);
}

/// Host that counts how often it locked and put a snapshot back.
struct CountingHost {
    locks: u32,
    restores: Vec<i32>,
    scroll: i32,
}

impl ScrollHost<i32> for CountingHost {
    fn lock(&mut self) -> Result<i32, ScrollLockError> {
        self.locks += 1;
        Ok(self.scroll)
    }

    fn unlock(&mut self, snapshot: &i32) -> Result<(), ScrollLockError> {
        self.restores.push(*snapshot);
        Ok(())
    }
}

#[test]
fn scroll_lock_nested_restores_once() {
    let mut state = ScrollLockState::new();
    let mut host = CountingHost { locks: 0, restores: Vec::new(), scroll: 120 };
    let mut first = scroll_lock_acquire(&mut state, &mut host).expect("first");
    assert_eq!(state.count(), 1);
    host.scroll = 999;
    let mut second = scroll_lock_acquire(&mut state, &mut host).expect("second");
    assert_eq!(state.count(), 2);
    assert_eq!(host.locks, 1);
    second.release(&mut state, &mut host).expect("to one");
    assert_eq!(state.count(), 1);
    assert!(host.restores.is_empty());
    assert!(state.has_snapshot());
    first.release(&mut state, &mut host).expect("to zero");
    assert_eq!(state.count(), 0);
    assert_eq!(host.restores, vec![120]);
    first.release(&mut state, &mut host).expect("again");
    scroll_lock_release(&mut state, &mut host).expect("spurious");
    assert_eq!(state.count(), 0);
    assert_eq!(host.restores, vec![120]);
    assert!(!state.has_snapshot());
    assert!(!first.active());
}

/// Host whose platform handles can be made to go missing.
struct FlakyHost {
    fail_lock: bool,
    fail_unlock: bool,
}

impl ScrollHost<u8> for FlakyHost {
    fn lock(&mut self) -> Result<u8, ScrollLockError> {
        if self.fail_lock {
            return Err(ScrollLockError::WindowUnavailable);
        }
        Ok(7)
    }

    fn unlock(&mut self, _snapshot: &u8) -> Result<(), ScrollLockError> {
        if self.fail_unlock {
            return Err(ScrollLockError::StyleUnavailable);
        }
        Ok(())
    }
}

#[test]
fn scroll_lock_failures_leave_count_unchanged() {
    let mut state = ScrollLockState::new();
    let mut host = FlakyHost { fail_lock: true, fail_unlock: true };
    assert_eq!(
        scroll_lock_acquire(&mut state, &mut host).err(),
        Some(ScrollLockError::WindowUnavailable)
    );
    assert_eq!(state.count(), 0);
    assert!(!state.has_snapshot());
    host.fail_lock = false;
    let mut guard = scroll_lock_acquire(&mut state, &mut host).expect("lock");
    assert_eq!(guard.release(&mut state, &mut host), Err(ScrollLockError::StyleUnavailable));
    assert!(guard.active());
    assert_eq!(state.count(), 1);
    assert!(state.has_snapshot());
    host.fail_unlock = false;
    assert_eq!(guard.release(&mut state, &mut host), Ok(()));
    assert_eq!(state.count(), 0);
    assert!(!guard.active());
}

#[test]
fn modal_restore_plan_skips_elements_of_other_layers() {
    let mut state = ModalState::new();
    let outer = state.push_layer(vec![
        HiddenElement { key: 1, record: false },
        HiddenElement { key: 2, record: false },
    ]);
    let inner = state.push_layer(vec![
        HiddenElement { key: 0, record: false },
        HiddenElement { key: 2, record: true },
        HiddenElement { key: 3, record: false },
    ]);
    assert_eq!(outer, 0);
    assert_eq!(inner, 1);
    assert_eq!(state.restore_plan(inner), vec![0, 2]);
    assert_eq!(state.restore_plan(outer), vec![0]);
    assert!(state.restore_plan(9).is_empty());
}

#[test]
fn scroll_lock_steps_keep_and_hand_back_the_snapshot() {
    let mut state: ScrollLockState<i32> = ScrollLockState::new();
    assert_eq!(state.snapshot_to_restore(), None);
    let first = state.first_hold(42);
    assert!(first.active());
    assert_eq!(state.snapshot_to_restore(), Some(&42));
    let _second = state.extra_hold();
    assert_eq!(state.count(), 2);
    assert_eq!(state.snapshot_to_restore(), None);
    state.drop_holder();
    assert_eq!(state.count(), 1);
    assert_eq!(state.snapshot_to_restore(), Some(&42));
    state.drop_holder();
    assert_eq!(state.count(), 0);
    assert!(!state.has_snapshot());
    state.drop_holder();
    assert_eq!(state.count(), 0);
}

#[test]
fn presence_exit_completes_only_on_unmount() {
    assert!(presence_exit_completed(PresenceState::Exiting, PresenceState::Unmounted));
    assert!(presence_exit_completed(PresenceState::Mounted, PresenceState::Unmounted));
    assert!(!presence_exit_completed(PresenceState::Unmounted, PresenceState::Unmounted));
    assert!(!presence_exit_completed(PresenceState::Mounted, PresenceState::Exiting));
    assert!(!presence_exit_completed(PresenceState::Exiting, PresenceState::Mounted));
}
