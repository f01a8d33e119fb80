use ui_primitives::attributes::PrimitiveAttributeValue;
use ui_primitives::builders::{
    collapsible_content_attrs, collapsible_trigger_attrs, dialog_content_attrs,
    dialog_trigger_attrs, tabs_list_attrs, tabs_panel_attrs, tabs_trigger_attrs,
};
use ui_primitives::collapsible::CollapsibleModel;
use ui_primitives::dialog::DialogModel;
use ui_primitives::dismiss::{
    dismissable_is_escape, dismissable_is_outside, focus_scope_next_index, focus_scope_selector,
};
use ui_primitives::orientation::Orientation;
use ui_primitives::tabs::TabsModel;

#[test]
fn trigger_attrs_include_state_and_controls() {
    let model = CollapsibleModel::new(true);
    let attrs = collapsible_trigger_attrs(&model, Some("content"));
    assert!(attrs.iter().any(|attr| attr.name() == "data-state"));
    assert!(attrs.iter().any(|attr| attr.name() == "aria-controls"));
}

#[test]
fn content_attrs_hide_when_closed() {
    let model = CollapsibleModel::new(false);
    let attrs = collapsible_content_attrs(&model, None);
    let hidden = attrs
        .iter()
        .find(|attr| attr.name() == "hidden")
        .expect("hidden attr");
    assert_eq!(hidden.value(), &PrimitiveAttributeValue::Bool(true));
}

#[test]
fn collapsible_trigger_attrs_when_disabled() {
    let mut model = CollapsibleModel::new(false);
    model.set_disabled(true);
    let attrs = collapsible_trigger_attrs(&model, None);
    let names: Vec<&str> = attrs.iter().map(|a| a.name()).collect();
    assert_eq!(names, vec!["data-state", "aria-expanded", "disabled", "data-disabled"]);
    assert_eq!(attrs[0].value(), &PrimitiveAttributeValue::String("closed".to_string()));
    assert_eq!(attrs[1].value(), &PrimitiveAttributeValue::String("false".to_string()));
    assert_eq!(attrs[2].value(), &PrimitiveAttributeValue::Bool(true));
}

#[test]
fn trigger_attrs_reflect_open() {
    let model = DialogModel::new(true);
    let attrs = dialog_trigger_attrs(&model, Some("dialog"));
    let expanded = attrs
        .iter()
        .find(|attr| attr.name() == "aria-expanded")
        .expect("aria-expanded");
    assert_eq!(
        expanded.value(),
        &PrimitiveAttributeValue::String("true".to_string())
    );
}

#[test]
fn content_attrs_include_role_and_modal() {
    let model = DialogModel::new(true);
    let attrs = dialog_content_attrs(&model, None, None);
    assert!(attrs.iter().any(|attr| attr.name() == "role"));
    assert!(attrs.iter().any(|attr| attr.name() == "aria-modal"));
}

#[test]
fn dialog_content_attrs_without_modal() {
    let mut model = DialogModel::new(false);
    model.set_modal(false);
    let attrs = dialog_content_attrs(&model, Some("title"), Some("desc"));
    let names: Vec<&str> = attrs.iter().map(|a| a.name()).collect();
    assert_eq!(
        names,
        vec!["data-state", "role", "tabindex", "aria-labelledby", "aria-describedby"]
    );
    assert_eq!(attrs[4].value(), &PrimitiveAttributeValue::String("desc".to_string()));
}

#[test]
fn list_attrs_include_orientation_for_vertical() {
    let attrs = tabs_list_attrs(Orientation::Vertical);
    assert!(attrs.iter().any(|attr| attr.name() == "aria-orientation"));
    assert_eq!(tabs_list_attrs(Orientation::Horizontal).len(), 1);
}

#[test]
fn trigger_attrs_selected_state() {
    let model = TabsModel::new(2);
    let attrs = tabs_trigger_attrs(&model, 0, None, None, false);
    let state = attrs
        .iter()
        .find(|attr| attr.name() == "data-state")
        .expect("data-state");
    assert_eq!(
        state.value(),
        &PrimitiveAttributeValue::String("active".to_string())
    );
}

#[test]
fn tabs_trigger_attrs_disabled_and_unselected() {
    let model = TabsModel::new(2);
    let attrs = tabs_trigger_attrs(&model, 1, Some("tab-1"), Some("panel-1"), true);
    let names: Vec<&str> = attrs.iter().map(|a| a.name()).collect();
    assert_eq!(
        names,
        vec!["role", "aria-selected", "data-state", "tabindex", "disabled", "aria-disabled", "id", "aria-controls"]
    );
    assert_eq!(attrs[2].value(), &PrimitiveAttributeValue::String("inactive".to_string()));
    assert_eq!(attrs[3].value(), &PrimitiveAttributeValue::String("-1".to_string()));
}

#[test]
fn panel_attrs_hidden_when_unselected() {
    let model = TabsModel::new(2);
    let attrs = tabs_panel_attrs(&model, 1, None, None);
    let hidden = attrs
        .iter()
        .find(|attr| attr.name() == "hidden")
        .expect("hidden");
    assert_eq!(hidden.value(), &PrimitiveAttributeValue::Bool(true));
}

#[test]
fn dismissable_escape_match() {
    assert!(dismissable_is_escape("Escape"));
    assert!(!dismissable_is_escape("Enter"));
}

#[test]
fn dismissable_outside_check() {
    assert!(dismissable_is_outside(false));
    assert!(!dismissable_is_outside(true));
}

#[test]
fn focus_scope_selector_is_non_empty() {
    assert!(!focus_scope_selector().is_empty());
}

#[test]
fn focus_scope_next_index_wraps() {
    assert_eq!(focus_scope_next_index(0, 3, true), 2);
    assert_eq!(focus_scope_next_index(2, 3, false), 0);
}

#[test]
fn focus_scope_next_index_middle_and_empty() {
    assert_eq!(focus_scope_next_index(1, 3, false), 2);
    assert_eq!(focus_scope_next_index(1, 3, true), 0);
    assert_eq!(focus_scope_next_index(4, 0, false), 0);
    assert_eq!(focus_scope_next_index(usize::MAX, 3, false), 0);
}
