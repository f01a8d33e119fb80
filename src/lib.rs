pub mod attributes;
pub mod builders;
pub mod collapsible;
pub mod controlled;
pub mod dialog;
pub mod dismiss;
pub mod ids;
pub mod modal;
pub mod orientation;
pub mod presence;
pub mod roving_focus;
pub mod scroll_lock;
pub mod state_machine;
pub mod tabs;
pub mod text;
pub mod typeahead;
