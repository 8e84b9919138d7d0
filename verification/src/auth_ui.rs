//! The user-facing half of subscription authentication: the login and logout
//! pickers, the modal that carries an authorization through to completion,
//! and the bookkeeping of the actor that owns stored credentials.
//!
//! `<leader>l` opens the login picker, `<leader>L` the logout picker. Logging
//! in does not change the selected model or the conversation; it makes
//! subscription models available and says so in the chat area.

pub mod state;
pub mod app_state;
pub mod picker_entry;
pub mod protocol;
pub mod intent;
pub mod actor;
pub mod view;
pub mod caps;
