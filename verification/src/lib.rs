//! Subscription authentication for jinn: provider identity, login methods,
//! credential storage and refresh decisions, the OAuth building blocks, and the
//! state machines that drive the authentication modal.

pub mod provider_id;
pub mod text;
pub mod login_method;
pub mod credential;
pub mod failures;
pub mod codecs;
pub mod codex;
pub mod oauth;
pub mod sorted_map;
pub mod credential_store;
pub mod access_token;
pub mod auth_service;
pub mod interaction;
pub mod auth_ui;
pub mod provider;
pub mod tui;
pub mod app_paths;
