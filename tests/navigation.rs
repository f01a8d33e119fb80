use ui_primitives::roving_focus::{
    roving_focus_action_from_key, roving_focus_next_index, RovingFocus, RovingFocusAction,
    RovingFocusOrientation,
};
use ui_primitives::tabs::{TabsActivation, TabsModel};
use ui_primitives::typeahead::{starts_with_ignore_ascii_case, typeahead_match};

#[test]
fn roving_focus_wraps_when_looped() {
    let mut focus = RovingFocus::with_active(3, Some(2), true);
    assert_eq!(focus.move_next(), Some(0));
    assert_eq!(focus.active(), Some(0));
}

#[test]
fn roving_focus_stops_when_not_looped() {
    let mut focus = RovingFocus::with_active(3, Some(2), false);
    assert_eq!(focus.move_next(), None);
    assert_eq!(focus.active(), Some(2));
}

#[test]
fn roving_focus_handles_empty() {
    let mut focus = RovingFocus::new(0);
    assert_eq!(focus.move_next(), None);
    assert_eq!(focus.active(), None);
}

#[test]
fn roving_focus_action_maps_arrows() {
    assert_eq!(
        roving_focus_action_from_key("ArrowLeft", RovingFocusOrientation::Horizontal),
        Some(RovingFocusAction::Prev)
    );
    assert_eq!(
        roving_focus_action_from_key("ArrowUp", RovingFocusOrientation::Horizontal),
        None
    );
    assert_eq!(
        roving_focus_action_from_key("ArrowDown", RovingFocusOrientation::Both),
        Some(RovingFocusAction::Next)
    );
}

#[test]
fn roving_focus_action_home_end_and_unknown() {
    assert_eq!(
        roving_focus_action_from_key("Home", RovingFocusOrientation::Vertical),
        Some(RovingFocusAction::First)
    );
    assert_eq!(
        roving_focus_action_from_key("End", RovingFocusOrientation::Horizontal),
        Some(RovingFocusAction::Last)
    );
    assert_eq!(
        roving_focus_action_from_key("ArrowRight", RovingFocusOrientation::Vertical),
        None
    );
    assert_eq!(
        roving_focus_action_from_key("ArrowUp", RovingFocusOrientation::Vertical),
        Some(RovingFocusAction::Prev)
    );
    assert_eq!(roving_focus_action_from_key("Tab", RovingFocusOrientation::Both), None);
    assert_eq!(roving_focus_action_from_key("", RovingFocusOrientation::Both), None);
}

#[test]
fn roving_focus_next_index_respects_loop() {
    assert_eq!(roving_focus_next_index(0, 3, RovingFocusAction::Prev, false), 0);
    assert_eq!(roving_focus_next_index(0, 3, RovingFocusAction::Prev, true), 2);
    assert_eq!(roving_focus_next_index(2, 3, RovingFocusAction::Next, true), 0);
}

#[test]
fn roving_focus_next_index_edges() {
    assert_eq!(roving_focus_next_index(5, 0, RovingFocusAction::Last, true), 0);
    assert_eq!(roving_focus_next_index(9, 4, RovingFocusAction::Next, false), 9);
    assert_eq!(roving_focus_next_index(1, 4, RovingFocusAction::Last, false), 3);
    assert_eq!(roving_focus_next_index(3, 4, RovingFocusAction::First, false), 0);
}

#[test]
fn roving_focus_moves_stay_in_range() {
    for len in 0..5usize {
        let mut focus = RovingFocus::new(len);
        let moves = [0u8, 1, 1, 2, 3, 0, 0, 0, 0, 1, 3, 0];
        for m in moves {
            match m {
                0 => focus.move_next(),
                1 => focus.move_prev(),
                2 => focus.move_first(),
                _ => focus.move_last(),
            };
            match focus.active() {
                None => assert_eq!(len, 0),
                Some(i) => assert!(i < len),
            }
        }
    }
}

#[test]
fn roving_focus_next_at_last_index() {
    let mut unlooped = RovingFocus::with_active(4, Some(3), false);
    assert_eq!(unlooped.move_next(), None);
    assert_eq!(unlooped.active(), Some(3));
    let mut looped = RovingFocus::with_active(4, Some(3), true);
    assert_eq!(looped.move_next(), Some(0));
}

#[test]
fn roving_focus_clamps_on_len_change() {
    let mut focus = RovingFocus::with_active(5, Some(9), false);
    assert_eq!(focus.active(), Some(4));
    assert_eq!(focus.set_len(2), Some(1));
    assert_eq!(focus.set_len(0), None);
    assert_eq!(focus.set_len(3), None);
    assert_eq!(focus.move_prev(), Some(2));
    assert_eq!(focus.set_active(Some(7)), Some(2));
    assert_eq!(focus.move_first(), Some(0));
    assert_eq!(focus.move_prev(), None);
    focus.set_looped(true);
    assert!(focus.looped());
    assert_eq!(focus.move_prev(), Some(2));
    assert_eq!(focus.move_last(), Some(2));
    assert_eq!(focus.len(), 3);
}

#[test]
fn tabs_auto_activation_tracks_focus() {
    let mut model = TabsModel::new(3);
    assert_eq!(model.selected(), Some(0));
    model.focus_next();
    assert_eq!(model.selected(), Some(1));
}

#[test]
fn tabs_manual_activation_requires_activate() {
    let mut model = TabsModel::with_activation(3, TabsActivation::Manual);
    model.focus_next();
    assert_eq!(model.selected(), Some(0));
    model.activate_focused();
    assert_eq!(model.selected(), Some(1));
}

#[test]
fn tabs_clamps_selection_on_len_change() {
    let mut model = TabsModel::new(3);
    model.select(Some(2));
    model.set_len(1);
    assert_eq!(model.selected(), Some(0));
}

#[test]
fn tabs_selection_follows_focus_by_policy() {
    let mut auto = TabsModel::new(3);
    auto.focus_last();
    assert_eq!(auto.selected(), auto.focused());
    auto.focus_next();
    assert_eq!(auto.selected(), Some(0));
    assert_eq!(auto.selected(), auto.focused());
    assert_eq!(auto.select(Some(5)), Some(2));
    assert_eq!(auto.focused(), Some(2));

    let mut manual = TabsModel::with_activation(3, TabsActivation::Manual);
    manual.focus_prev();
    assert_eq!(manual.focused(), Some(2));
    assert_eq!(manual.selected(), Some(0));
    assert_eq!(manual.select(Some(1)), Some(1));
    assert_eq!(manual.focused(), Some(2));
    assert_eq!(manual.focus_index(Some(0)), Some(0));
    assert_eq!(manual.selected(), Some(1));
    assert_eq!(manual.activate_focused(), Some(0));
    manual.set_activation(TabsActivation::Automatic);
    assert_eq!(manual.activation(), TabsActivation::Automatic);
    assert_eq!(manual.focus_first(), Some(0));
    assert_eq!(manual.len(), 3);
}

#[test]
fn tabs_empty_has_no_selection() {
    let mut model = TabsModel::new(0);
    assert_eq!(model.selected(), None);
    assert_eq!(model.focus_next(), None);
    assert_eq!(model.select(Some(0)), None);
    model.set_len(2);
    assert_eq!(model.selected(), None);
    assert_eq!(model.focus_next(), Some(0));
    assert_eq!(model.selected(), Some(0));
}

#[test]
fn typeahead_matches_prefix() {
    let items = ["Apple", "Apricot", "Banana"];
    let index = typeahead_match(&items, "ap", |item| item);
    assert_eq!(index, Some(0));
}

#[test]
fn typeahead_is_case_insensitive() {
    let items = ["Apple", "Banana"];
    let index = typeahead_match(&items, "bA", |item| item);
    assert_eq!(index, Some(1));
}

#[test]
fn typeahead_returns_none_for_empty_query() {
    let items = ["Apple"];
    let index = typeahead_match(&items, "", |item| item);
    assert_eq!(index, None);
}

#[test]
fn typeahead_no_match_and_longer_query() {
    let items = ["Apple", "Apricot", "Banana"];
    assert_eq!(typeahead_match(&items, "apples", |item| item), None);
    assert_eq!(typeahead_match(&items, "APR", |item| item), Some(1));
    assert_eq!(typeahead_match(&items, "z", |item| item), None);
    let empty: [&str; 0] = [];
    assert_eq!(typeahead_match(&empty, "a", |item| item), None);
    assert!(starts_with_ignore_ascii_case("Zebra", "zEB"));
    assert!(!starts_with_ignore_ascii_case("Ze", "zeb"));
    assert!(starts_with_ignore_ascii_case("", ""));
    assert!(!starts_with_ignore_ascii_case("[x", "{x"));
}
