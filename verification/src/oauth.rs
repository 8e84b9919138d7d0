//! Shared OAuth mechanics used by every subscription provider: PKCE, the
//! device-code polling schedule, and the local redirect listener's decisions.

pub mod callback;
pub mod device_code;
pub mod pkce;
