//! Terminal front end: keymap scopes and bindings, clipboard outcomes, match
//! highlighting, and what the picker popup shows.

pub mod scope;
pub mod keymap;
pub mod clipboard;
pub mod highlight;
pub mod popup;
