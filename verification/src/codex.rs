//! OpenAI Codex — subscription authentication against a ChatGPT account:
//! endpoints, pasted-input parsing, account extraction, and the protocol
//! decisions of the browser and device-code flows.

pub mod account;
pub mod authorization_input;
pub mod endpoints;
pub mod flow;
