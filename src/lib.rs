//! Interaction state of a multi-select dropdown: which options are chosen,
//! whether the option list is shown, and what the host must do after each
//! user event.
pub mod select;
pub mod toggles;
