use vstd::prelude::*;

use crate::attributes::{views, AttributeView, PrimitiveAttribute, ValueView};
use crate::collapsible::{CollapsibleModel, CollapsibleState};
use crate::dialog::{DialogModel, DialogState};
use crate::orientation::Orientation;
use crate::tabs::TabsModel;

verus! {

/// A text attribute.
pub open spec fn text_attr(name: Seq<char>, value: Seq<char>) -> AttributeView {
    AttributeView { name, value: ValueView::Text(value) }
}

/// A flag attribute.
pub open spec fn flag_attr(name: Seq<char>, value: bool) -> AttributeView {
    AttributeView { name, value: ValueView::Flag(value) }
}

/// A text attribute when `value` is given, nothing otherwise.
pub open spec fn optional_attr(name: Seq<char>, value: Option<&str>) -> Seq<AttributeView> {
    match value {
        Some(v) => seq![text_attr(name, v@)],
        None => Seq::empty(),
    }
}

/// `true` or `false` as attribute text.
pub open spec fn bool_text(b: bool) -> Seq<char> {
    if b { "true"@ } else { "false"@ }
}

/// The `data-state` text of an open or closed widget.
pub open spec fn open_text(open: bool) -> Seq<char> {
    if open { "open"@ } else { "closed"@ }
}

/// Attributes of a collapsible trigger.
pub open spec fn spec_collapsible_trigger(open: bool, disabled: bool, controls: Option<&str>) -> Seq<AttributeView> {
    seq![
        text_attr("data-state"@, open_text(open)),
        text_attr("aria-expanded"@, bool_text(open)),
        flag_attr("disabled"@, disabled),
    ] + (if disabled { seq![flag_attr("data-disabled"@, true)] } else { Seq::empty() }) + optional_attr(
        "aria-controls"@,
        controls,
    )
}

/// Attributes of a collapsible content region.
pub open spec fn spec_collapsible_content(open: bool, content_id: Option<&str>) -> Seq<AttributeView> {
    seq![text_attr("data-state"@, open_text(open)), flag_attr("hidden"@, !open)] + optional_attr("id"@, content_id)
}

/// Attributes of a dialog trigger.
pub open spec fn spec_dialog_trigger(open: bool, controls_id: Option<&str>) -> Seq<AttributeView> {
    seq![
        text_attr("data-state"@, open_text(open)),
        text_attr("aria-haspopup"@, "dialog"@),
        text_attr("aria-expanded"@, bool_text(open)),
    ] + optional_attr("aria-controls"@, controls_id)
}

/// Attributes of a dialog's content.
pub open spec fn spec_dialog_content(open: bool, modal: bool, labelled_by: Option<&str>, described_by: Option<&str>) -> Seq<AttributeView> {
    seq![text_attr("data-state"@, open_text(open)), text_attr("role"@, "dialog"@), text_attr("tabindex"@, "-1"@)]
        + (if modal { seq![text_attr("aria-modal"@, "true"@)] } else { Seq::empty() }) + optional_attr(
        "aria-labelledby"@,
        labelled_by,
    ) + optional_attr("aria-describedby"@, described_by)
}

/// Attributes of a tab list.
pub open spec fn spec_tabs_list(orientation: Orientation) -> Seq<AttributeView> {
    seq![text_attr("role"@, "tablist"@)] + (if orientation is Vertical {
        seq![text_attr("aria-orientation"@, "vertical"@)]
    } else {
        Seq::empty()
    })
}

/// Attributes of one tab trigger.
pub open spec fn spec_tabs_trigger(
    selected: bool,
    focused: bool,
    disabled: bool,
    trigger_id: Option<&str>,
    controls_id: Option<&str>,
) -> Seq<AttributeView> {
    seq![
        text_attr("role"@, "tab"@),
        text_attr("aria-selected"@, bool_text(selected)),
        text_attr("data-state"@, if selected { "active"@ } else { "inactive"@ }),
        text_attr("tabindex"@, if focused && !disabled { "0"@ } else { "-1"@ }),
        flag_attr("disabled"@, disabled),
    ] + (if disabled { seq![text_attr("aria-disabled"@, "true"@)] } else { Seq::empty() }) + optional_attr(
        "id"@,
        trigger_id,
    ) + optional_attr("aria-controls"@, controls_id)
}

/// Attributes of one tab panel.
pub open spec fn spec_tabs_panel(selected: bool, panel_id: Option<&str>, labelled_by: Option<&str>) -> Seq<AttributeView> {
    seq![text_attr("role"@, "tabpanel"@), flag_attr("hidden"@, !selected), text_attr("tabindex"@, "0"@)]
        + optional_attr("id"@, panel_id) + optional_attr("aria-labelledby"@, labelled_by)
}

fn push_optional(attrs: &mut Vec<PrimitiveAttribute>, name: &str, value: Option<&str>)
    ensures
        views(final(attrs)@) == views(old(attrs)@) + optional_attr(name@, value),
{
    match value {
        Some(v) => {
            attrs.push(PrimitiveAttribute::string(name, v));
            assert(views(attrs@) =~= views(old(attrs)@) + optional_attr(name@, value));
        },
        None => {
            assert(views(attrs@) =~= views(old(attrs)@) + optional_attr(name@, value));
        },
    }
}

fn push_attr(attrs: &mut Vec<PrimitiveAttribute>, attr: PrimitiveAttribute)
    ensures
        views(final(attrs)@) == views(old(attrs)@).push(attr@),
{
    attrs.push(attr);
    assert(views(attrs@) =~= views(old(attrs)@).push(attr@));
}

fn bool_value(b: bool) -> (r: &'static str)
    ensures
        r@ == bool_text(b),
{
    if b {
        "true"
    } else {
        "false"
    }
}

/// The `data-state` text of a collapsible.
pub fn collapsible_state_value(state: CollapsibleState) -> (r: &'static str)
    ensures
        r@ == open_text(state is Open),
{
    match state {
        CollapsibleState::Open => "open",
        CollapsibleState::Closed => "closed",
    }
}

/// The `data-state` text of a dialog.
pub fn dialog_state_value(state: DialogState) -> (r: &'static str)
    ensures
        r@ == open_text(state is Open),
{
    match state {
        DialogState::Open => "open",
        DialogState::Closed => "closed",
    }
}

/// Attributes for the button that opens and closes a collapsible.
pub fn collapsible_trigger_attrs(model: &CollapsibleModel, controls: Option<&str>) -> (r: Vec<PrimitiveAttribute>)
    ensures
        views(r@) == spec_collapsible_trigger(model.is_open(), model.is_disabled(), controls),
{
    let mut attrs: Vec<PrimitiveAttribute> = Vec::new();
    push_attr(&mut attrs, PrimitiveAttribute::string("data-state", collapsible_state_value(model.state())));
    push_attr(&mut attrs, PrimitiveAttribute::string("aria-expanded", bool_value(model.open())));
    push_attr(&mut attrs, PrimitiveAttribute::bool("disabled", model.disabled()));
    if model.disabled() {
        push_attr(&mut attrs, PrimitiveAttribute::bool("data-disabled", true));
    }
    push_optional(&mut attrs, "aria-controls", controls);
    assert(views(attrs@) =~= spec_collapsible_trigger(model.is_open(), model.is_disabled(), controls));
    attrs
}

/// Attributes for a collapsible's content region.
pub fn collapsible_content_attrs(model: &CollapsibleModel, content_id: Option<&str>) -> (r: Vec<PrimitiveAttribute>)
    ensures
        views(r@) == spec_collapsible_content(model.is_open(), content_id),
{
    let mut attrs: Vec<PrimitiveAttribute> = Vec::new();
    push_attr(&mut attrs, PrimitiveAttribute::string("data-state", collapsible_state_value(model.state())));
    push_attr(&mut attrs, PrimitiveAttribute::bool("hidden", !model.open()));
    push_optional(&mut attrs, "id", content_id);
    assert(views(attrs@) =~= spec_collapsible_content(model.is_open(), content_id));
    attrs
}

/// Attributes for the button that opens a dialog.
pub fn dialog_trigger_attrs(model: &DialogModel, controls_id: Option<&str>) -> (r: Vec<PrimitiveAttribute>)
    ensures
        views(r@) == spec_dialog_trigger(model.is_open(), controls_id),
{
    let mut attrs: Vec<PrimitiveAttribute> = Vec::new();
    push_attr(&mut attrs, PrimitiveAttribute::string("data-state", dialog_state_value(model.state())));
    push_attr(&mut attrs, PrimitiveAttribute::string("aria-haspopup", "dialog"));
    push_attr(&mut attrs, PrimitiveAttribute::string("aria-expanded", bool_value(model.open())));
    push_optional(&mut attrs, "aria-controls", controls_id);
    assert(views(attrs@) =~= spec_dialog_trigger(model.is_open(), controls_id));
    attrs
}

/// Attributes for a dialog's content.
pub fn dialog_content_attrs(model: &DialogModel, labelled_by: Option<&str>, described_by: Option<&str>) -> (r: Vec<
    PrimitiveAttribute,
>)
    ensures
        views(r@) == spec_dialog_content(model.is_open(), model.is_modal(), labelled_by, described_by),
{
    let mut attrs: Vec<PrimitiveAttribute> = Vec::new();
    push_attr(&mut attrs, PrimitiveAttribute::string("data-state", dialog_state_value(model.state())));
    push_attr(&mut attrs, PrimitiveAttribute::string("role", "dialog"));
    push_attr(&mut attrs, PrimitiveAttribute::string("tabindex", "-1"));
    if model.modal() {
        push_attr(&mut attrs, PrimitiveAttribute::string("aria-modal", "true"));
    }
    push_optional(&mut attrs, "aria-labelledby", labelled_by);
    push_optional(&mut attrs, "aria-describedby", described_by);
    assert(views(attrs@) =~= spec_dialog_content(model.is_open(), model.is_modal(), labelled_by, described_by));
    attrs
}

/// Attributes for the list that holds the tabs.
pub fn tabs_list_attrs(orientation: Orientation) -> (r: Vec<PrimitiveAttribute>)
    ensures
        views(r@) == spec_tabs_list(orientation),
{
    let mut attrs: Vec<PrimitiveAttribute> = Vec::new();
    push_attr(&mut attrs, PrimitiveAttribute::string("role", "tablist"));
    if orientation == Orientation::Vertical {
        push_attr(&mut attrs, PrimitiveAttribute::string("aria-orientation", orientation.as_aria_value()));
    }
    assert(views(attrs@) =~= spec_tabs_list(orientation));
    attrs
}

fn is_index(o: Option<usize>, index: usize) -> (r: bool)
    ensures
        r == (o == Some(index)),
{
    match o {
        Some(i) => i == index,
        None => false,
    }
}

/// Attributes for the tab at `index`.
pub fn tabs_trigger_attrs(
    model: &TabsModel,
    index: usize,
    trigger_id: Option<&str>,
    controls_id: Option<&str>,
    disabled: bool,
) -> (r: Vec<PrimitiveAttribute>)
    ensures
        views(r@) == spec_tabs_trigger(
            model@.selected == Some(index),
            model@.focus.active == Some(index),
            disabled,
            trigger_id,
            controls_id,
        ),
{
    let selected = is_index(model.selected(), index);
    let focused = is_index(model.focused(), index);
    let mut attrs: Vec<PrimitiveAttribute> = Vec::new();
    push_attr(&mut attrs, PrimitiveAttribute::string("role", "tab"));
    push_attr(&mut attrs, PrimitiveAttribute::string("aria-selected", bool_value(selected)));
    push_attr(&mut attrs, PrimitiveAttribute::string("data-state", if selected { "active" } else { "inactive" }));
    push_attr(&mut attrs, PrimitiveAttribute::string("tabindex", if focused && !disabled { "0" } else { "-1" }));
    push_attr(&mut attrs, PrimitiveAttribute::bool("disabled", disabled));
    if disabled {
        push_attr(&mut attrs, PrimitiveAttribute::string("aria-disabled", "true"));
    }
    push_optional(&mut attrs, "id", trigger_id);
    push_optional(&mut attrs, "aria-controls", controls_id);
    assert(views(attrs@) =~= spec_tabs_trigger(selected, focused, disabled, trigger_id, controls_id));
    attrs
}

/// Attributes for the panel of the tab at `index`.
pub fn tabs_panel_attrs(model: &TabsModel, index: usize, panel_id: Option<&str>, labelled_by: Option<&str>) -> (r: Vec<
    PrimitiveAttribute,
>)
    ensures
        views(r@) == spec_tabs_panel(model@.selected == Some(index), panel_id, labelled_by),
{
    let selected = is_index(model.selected(), index);
    let mut attrs: Vec<PrimitiveAttribute> = Vec::new();
    push_attr(&mut attrs, PrimitiveAttribute::string("role", "tabpanel"));
    push_attr(&mut attrs, PrimitiveAttribute::bool("hidden", !selected));
    push_attr(&mut attrs, PrimitiveAttribute::string("tabindex", "0"));
    push_optional(&mut attrs, "id", panel_id);
    push_optional(&mut attrs, "aria-labelledby", labelled_by);
    assert(views(attrs@) =~= spec_tabs_panel(selected, panel_id, labelled_by));
    attrs
}

} // verus!
