//! The ways a user can complete a subscription login.
//!
//! Providers advertise the subset they support, so the shared login UI never
//! assumes a provider implements every method.

use vstd::prelude::*;

use crate::text::{chars_of, string_from_chars};

verus! {

/// A way of completing a login.
#[derive(Debug, Clone, Copy, PartialEq, Eq, Hash, PartialOrd, Ord, Structural)]
pub enum LoginMethod {
    /// Authorize in a web browser on this machine; jinn receives the result on
    /// a local callback, or accepts a pasted authorization code.
    Browser,
    /// Authorize from any browser using a short code; jinn polls for
    /// completion.
    DeviceCode,
}

/// The stable wire id of a login method.
pub open spec fn method_wire_id(m: LoginMethod) -> Seq<char> {
    match m {
        LoginMethod::Browser => "browser"@,
        LoginMethod::DeviceCode => "device_code"@,
    }
}

/// The row label of a login method.
pub open spec fn method_label(m: LoginMethod) -> Seq<char> {
    match m {
        LoginMethod::Browser => "Browser login"@,
        LoginMethod::DeviceCode => "Device code login"@,
    }
}

/// The one-line explanation of a login method.
pub open spec fn method_description(m: LoginMethod) -> Seq<char> {
    match m {
        LoginMethod::Browser => "opens the authorization page on this machine"@,
        LoginMethod::DeviceCode => "enter a code from another browser or device"@,
    }
}

impl LoginMethod {
    /// Stable wire id.
    pub fn as_str(self) -> (s: &'static str)
        ensures
            s@ == method_wire_id(self),
    {
        match self {
            LoginMethod::Browser => "browser",
            LoginMethod::DeviceCode => "device_code",
        }
    }

    /// Row label shown in the login-method picker.
    pub fn label(self) -> (s: &'static str)
        ensures
            s@ == method_label(self),
    {
        match self {
            LoginMethod::Browser => "Browser login",
            LoginMethod::DeviceCode => "Device code login",
        }
    }

    /// One-line explanation of when to pick this method.
    pub fn description(self) -> (s: &'static str)
        ensures
            s@ == method_description(self),
    {
        match self {
            LoginMethod::Browser => "opens the authorization page on this machine",
            LoginMethod::DeviceCode => "enter a code from another browser or device",
        }
    }

    /// The wire id as an owned string (what `Display` prints).
    pub fn to_string(&self) -> (s: String)
        ensures
            s@ == method_wire_id(*self),
    {
        let cs = chars_of(self.as_str());
        string_from_chars(cs.as_slice())
    }
}

/// Distinct login methods have distinct wire ids.
pub proof fn lemma_method_wire_ids_distinct(a: LoginMethod, b: LoginMethod)
    ensures
        method_wire_id(a) == method_wire_id(b) ==> a == b,
{
    reveal_strlit("browser");
    reveal_strlit("device_code");
    if a != b {
        assert(method_wire_id(a).len() != method_wire_id(b).len());
    }
}

} // verus!
