use vstd::prelude::*;

use crate::text::str_eq;

verus! {

/// Why a dismissable layer asked to be dismissed.
#[derive(Debug, Clone, Copy, PartialEq, Eq, Structural)]
pub enum DismissableReason {
    Escape,
    PointerDownOutside,
    FocusOutside,
}

/// Whether a key name is the Escape key.
pub fn dismissable_is_escape(key: &str) -> (r: bool)
    ensures
        r == (key@ == "Escape"@),
{
    str_eq(key, "Escape")
}

/// Whether an event target lies outside the layer.
pub fn dismissable_is_outside(is_inside: bool) -> (r: bool)
    ensures
        r == !is_inside,
{
    !is_inside
}

/// Selector for the elements a focus scope cycles through.
pub const FOCUSABLE_SELECTOR: &'static str = "a[href],button,textarea,input,select,[tabindex]:not([tabindex='-1'])";

pub fn focus_scope_selector() -> (r: &'static str)
    ensures
        r@ == FOCUSABLE_SELECTOR@,
{
    FOCUSABLE_SELECTOR
}

/// Tab order inside a focus scope of `count` elements: forwards, or backwards
/// with `shift`, wrapping at both ends; `0` when the scope is empty.
pub open spec fn spec_focus_scope_next(current: usize, count: usize, shift: bool) -> int {
    if count == 0 {
        0
    } else if shift {
        if current == 0 { count - 1 } else { current - 1 }
    } else if current + 1 >= count {
        0
    } else {
        current + 1
    }
}

pub fn focus_scope_next_index(current: usize, count: usize, shift: bool) -> (r: usize)
    ensures
        r == spec_focus_scope_next(current, count, shift),
{
    if count == 0 {
        return 0;
    }
    if shift {
        if current == 0 {
            count - 1
        } else {
            current - 1
        }
    } else if current >= count - 1 {
        0
    } else {
        current + 1
    }
}

} // verus!
