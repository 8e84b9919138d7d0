//! Model providers: which backend a provider block names, the static
//! configuration of the OpenAI-compatible ones, and the OpenAI Codex
//! subscription transport (its catalog, endpoint, request shape, and the
//! normalization of its event stream).

pub mod backend;
pub mod provider_config;
pub mod codex;
pub mod stream;
pub mod request;
