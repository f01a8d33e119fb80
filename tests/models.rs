use std::cell::RefCell;
use std::rc::Rc;

use ui_primitives::collapsible::{CollapsibleModel, CollapsibleState};
use ui_primitives::controlled::{Change, Controlled};
use ui_primitives::dialog::{DialogModel, DialogState};
use ui_primitives::ids::{generate_ids, IdGenerator};
use ui_primitives::orientation::Orientation;
use ui_primitives::state_machine::{StateMachine, TransitionResult};

#[test]
fn collapsible_toggle() {
    let mut model = CollapsibleModel::new(false);
    assert_eq!(model.state(), CollapsibleState::Closed);
    assert!(model.toggle());
    assert_eq!(model.state(), CollapsibleState::Open);
}

#[test]
fn collapsible_toggle_blocked_when_disabled() {
    let mut model = CollapsibleModel::new(false);
    model.set_disabled(true);
    assert!(!model.toggle());
    assert_eq!(model.state(), CollapsibleState::Closed);
}

#[test]
fn collapsible_disabled_blocks_from_open_too() {
    let mut model = CollapsibleModel::new(true);
    model.set_disabled(true);
    assert!(!model.toggle());
    assert!(model.open());
    assert!(!model.set_open(false));
    assert!(model.open());
    model.set_disabled(false);
    assert!(model.set_open(false));
    assert!(!model.open());
    assert!(!model.set_open(false));
}

#[test]
fn controlled_set_calls_on_change() {
    let changes: Rc<RefCell<Vec<(i32, i32)>>> = Rc::new(RefCell::new(Vec::new()));
    let changes_handle = Rc::clone(&changes);
    let mut controlled = Controlled::with_on_change(
        1,
        Box::new(move |change: Change<'_, i32>| {
            changes_handle
                .borrow_mut()
                .push((*change.previous, *change.next));
        }),
    );

    controlled.set(2);

    let recorded = changes.borrow();
    assert_eq!(recorded.as_slice(), &[(1, 2)]);
}

#[test]
fn controlled_set_if_changed_skips_equal() {
    let changes: Rc<RefCell<Vec<(i32, i32)>>> = Rc::new(RefCell::new(Vec::new()));
    let changes_handle = Rc::clone(&changes);
    let mut controlled = Controlled::with_on_change(
        1,
        Box::new(move |change: Change<'_, i32>| {
            changes_handle
                .borrow_mut()
                .push((*change.previous, *change.next));
        }),
    );

    assert!(!controlled.set_if_changed(1));
    assert!(controlled.set_if_changed(3));

    let recorded = changes.borrow();
    assert_eq!(recorded.as_slice(), &[(1, 3)]);
}

#[test]
fn controlled_update() {
    let mut controlled = Controlled::new(10);
    controlled.update(|value| value + 5);
    assert_eq!(*controlled.value(), 15);
}

#[test]
fn controlled_set_reports_equal_values_too() {
    let changes: Rc<RefCell<Vec<(i32, i32)>>> = Rc::new(RefCell::new(Vec::new()));
    let changes_handle = Rc::clone(&changes);
    let mut controlled = Controlled::with_on_change(
        4,
        Box::new(move |change: Change<'_, i32>| {
            changes_handle
                .borrow_mut()
                .push((*change.previous, *change.next));
        }),
    );
    controlled.set(4);
    assert!(!controlled.update_if_changed(|value| *value));
    assert!(controlled.update_if_changed(|value| value * 2));
    assert_eq!(controlled.into_inner(), 8);
    assert_eq!(changes.borrow().as_slice(), &[(4, 4), (4, 8)]);
}

#[test]
fn dialog_toggle_changes_state() {
    let mut model = DialogModel::new(false);
    assert_eq!(model.state(), DialogState::Closed);
    model.toggle();
    assert_eq!(model.state(), DialogState::Open);
}

#[test]
fn dialog_set_open_reports_change() {
    let mut model = DialogModel::new(false);
    assert!(model.set_open(true));
    assert!(!model.set_open(true));
}

#[test]
fn dialog_modal_flag_does_not_gate() {
    let mut model = DialogModel::new(true);
    assert!(model.modal());
    model.set_modal(false);
    assert!(!model.modal());
    assert!(model.toggle());
    assert!(!model.open());
}

#[test]
fn id_generator_increments() {
    let mut generator = IdGenerator::new("tab");
    assert_eq!(generator.next_id(), "tab-1");
    assert_eq!(generator.next_id(), "tab-2");
}

#[test]
fn generate_ids_returns_count() {
    let ids = generate_ids("item", 3);
    assert_eq!(ids.as_slice(), &["item-1", "item-2", "item-3"]);
}

#[test]
fn id_generator_reset_and_large_numbers() {
    let mut generator = IdGenerator::new("x");
    for _ in 0..12 {
        generator.next_id();
    }
    assert_eq!(generator.next_id(), "x-13");
    generator.reset();
    assert_eq!(generator.next_id(), "x-1");
    assert_eq!(generator.prefix(), "x");
    assert!(generate_ids("none", 0).is_empty());
}

#[test]
fn orientation_aria_value() {
    assert_eq!(Orientation::Horizontal.as_aria_value(), "horizontal");
    assert_eq!(Orientation::Vertical.as_aria_value(), "vertical");
    assert_eq!(Orientation::default(), Orientation::Horizontal);
}

#[derive(Debug, Clone, Copy, PartialEq, Eq)]
enum DoorState {
    Open,
    Closed,
}

#[derive(Debug, Clone, Copy, PartialEq, Eq)]
enum DoorEvent {
    Open,
    Close,
}

#[test]
fn state_machine_transitions() {
    let mut machine = StateMachine::new(DoorState::Closed);
    machine.add_transition(DoorState::Closed, DoorEvent::Open, DoorState::Open);
    machine.add_transition(DoorState::Open, DoorEvent::Close, DoorState::Closed);

    let result = machine.trigger(&DoorEvent::Open);
    assert_eq!(
        result,
        Some(TransitionResult {
            previous: DoorState::Closed,
            next: DoorState::Open,
        })
    );

    assert!(machine.can_transition(&DoorEvent::Close));
}

#[test]
fn state_machine_rejects_invalid_transition() {
    let mut machine = StateMachine::new(DoorState::Closed);
    machine.add_transition(DoorState::Closed, DoorEvent::Open, DoorState::Open);

    assert!(machine.trigger(&DoorEvent::Close).is_none());
    assert!(!machine.can_transition(&DoorEvent::Close));
}

#[test]
fn state_machine_first_match_wins_and_no_match_keeps_state() {
    let mut machine = StateMachine::new(0u8);
    machine.add_transition(0, 'a', 1);
    machine.add_transition(0, 'a', 2);
    machine.add_transition(1, 'b', 0);
    assert_eq!(machine.transitions().len(), 3);
    assert!(machine.trigger(&'b').is_none());
    assert_eq!(*machine.state(), 0);
    assert_eq!(machine.trigger(&'a'), Some(TransitionResult { previous: 0, next: 1 }));
    assert_eq!(*machine.state(), 1);
    machine.set_state(5);
    assert!(!machine.can_transition(&'a'));
    assert!(machine.trigger(&'a').is_none());
    assert_eq!(*machine.state(), 5);
}
