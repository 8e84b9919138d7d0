//! Rows for the authentication pickers.
//!
//! The login picker lists the subscription providers jinn supports and
//! whether each already has stored credentials. The method picker lists the
//! login methods the chosen provider offers. The logout picker reuses the
//! provider row, listing only configured accounts.

use vstd::prelude::*;

use crate::login_method::{method_description, method_label, LoginMethod};
use crate::provider_id::{provider_display_name, AuthProviderId};

verus! {

/// A subscription provider row.
#[derive(Debug, Clone)]
pub struct AuthProviderEntry {
    /// Which provider this row selects.
    pub provider: AuthProviderId,
    /// Display name shown in the row.
    pub name: String,
    /// Whether credentials for this provider are stored locally. Stored means
    /// a credential is on disk, not that a fresh request would succeed.
    pub is_configured: bool,
    /// The login methods this provider supports, in presentation order.
    pub methods: Vec<LoginMethod>,
}

/// The status word shown beside a provider's name.
pub open spec fn status_label_text(is_configured: bool) -> Seq<char> {
    if is_configured {
        "stored"@
    } else {
        "unconfigured"@
    }
}

impl AuthProviderEntry {
    /// Builds the row for `provider`.
    pub fn new(provider: AuthProviderId, is_configured: bool, methods: Vec<LoginMethod>) -> (e:
        AuthProviderEntry)
        ensures
            e.provider == provider,
            e.name@ == provider_display_name(provider),
            e.is_configured == is_configured,
            e.methods@ == methods@,
    {
        AuthProviderEntry {
            provider,
            name: provider.display_name().to_owned(),
            is_configured,
            methods,
        }
    }

    /// The status word shown beside the provider name.
    pub fn status_label(&self) -> (s: &'static str)
        ensures
            s@ == status_label_text(self.is_configured),
    {
        if self.is_configured {
            "stored"
        } else {
            "unconfigured"
        }
    }

    /// The text the picker filters on: the provider's display name.
    pub fn display_label(&self) -> (s: &str)
        ensures
            s@ == self.name@,
    {
        self.name.as_str()
    }

    /// The row as shown: a marker for a configured provider (blank space
    /// otherwise), the name, and the status in parentheses.
    pub fn row_text(&self) -> (s: String)
        ensures
            s@ == provider_row_text(*self),
    {
        let mut s = if self.is_configured {
            "\u{25cf} ".to_owned()
        } else {
            "  ".to_owned()
        };
        s.append(self.name.as_str());
        s.append("  (");
        s.append(self.status_label());
        s.append(")");
        s
    }
}

/// The marker before a provider's name: a dot when credentials are stored.
pub open spec fn row_marker(is_configured: bool) -> Seq<char> {
    if is_configured {
        "\u{25cf} "@
    } else {
        "  "@
    }
}

/// A provider row as shown: `marker name  (status)`.
pub open spec fn provider_row_text(e: AuthProviderEntry) -> Seq<char> {
    row_marker(e.is_configured) + e.name@ + "  ("@ + status_label_text(e.is_configured) + ")"@
}

/// A login-method row.
#[derive(Debug, Clone)]
pub struct AuthMethodEntry {
    /// Which provider this row logs into.
    pub provider: AuthProviderId,
    /// Which method this row selects.
    pub method: LoginMethod,
    /// Row label.
    pub label: String,
}

impl AuthMethodEntry {
    /// Builds the row for `method`.
    pub fn new(provider: AuthProviderId, method: LoginMethod) -> (e: AuthMethodEntry)
        ensures
            e.provider == provider,
            e.method == method,
            e.label@ == method_label(method),
    {
        AuthMethodEntry { provider, method, label: method.label().to_owned() }
    }

    /// The text the picker filters on: the method's label.
    pub fn display_label(&self) -> (s: &str)
        ensures
            s@ == self.label@,
    {
        self.label.as_str()
    }

    /// The row as shown: `label  description`, indented to line up with the
    /// provider rows.
    pub fn row_text(&self) -> (s: String)
        ensures
            s@ == "  "@ + self.label@ + "  "@ + method_description(self.method),
    {
        let mut s = "  ".to_owned();
        s.append(self.label.as_str());
        s.append("  ");
        s.append(self.method.description());
        s
    }
}

} // verus!
