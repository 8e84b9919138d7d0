//! What the authentication modal says: the phase a provider's report puts it
//! in, its title, the lines of its body, and its footer hint. Styling and
//! drawing happen around these functions.

use vstd::prelude::*;

use crate::auth_ui::state::{AuthFlow, AuthPhase};
use crate::interaction::AuthEvent;
use crate::provider_id::provider_display_name;

verus! {

/// Turns a provider's progress report into what the modal should show.
pub fn phase_for(event: AuthEvent) -> (p: AuthPhase)
    ensures
        p == (match event {
            AuthEvent::Progress { message } => AuthPhase::Working { message },
            AuthEvent::AuthorizationUrl { url, instructions } => AuthPhase::Authorizing {
                url,
                instructions,
            },
            AuthEvent::DeviceCode { verification_uri, user_code } => AuthPhase::DeviceCode {
                verification_uri,
                user_code,
            },
        }),
{
    match event {
        AuthEvent::Progress { message } => AuthPhase::Working { message },
        AuthEvent::AuthorizationUrl { url, instructions } => AuthPhase::Authorizing {
            url,
            instructions,
        },
        AuthEvent::DeviceCode { verification_uri, user_code } => AuthPhase::DeviceCode {
            verification_uri,
            user_code,
        },
    }
}

/// The modal's title for the active attempt.
pub open spec fn progress_title_text(flow: Option<AuthFlow>) -> Seq<char> {
    match flow {
        Some(f) => " "@ + provider_display_name(f.provider) + " login "@,
        None => " Authenticating "@,
    }
}

/// The modal's title for the active attempt.
pub fn progress_title(flow: Option<&AuthFlow>) -> (s: String)
    ensures
        s@ == progress_title_text(match flow {
            Some(f) => Some(*f),
            None => None,
        }),
{
    match flow {
        Some(f) => {
            let mut s = " ".to_owned();
            s.append(f.provider.display_name());
            s.append(" login ");
            s
        },
        None => " Authenticating ".to_owned(),
    }
}

/// The lines of the modal's body for a phase.
pub open spec fn progress_body_text(phase: Option<AuthPhase>) -> Seq<Seq<char>> {
    match phase {
        None => seq!["No authentication in progress."@],
        Some(AuthPhase::Starting) => seq!["Starting authentication…"@],
        Some(AuthPhase::Authorizing { url, instructions }) => seq![
            instructions@,
            ""@,
            url@,
            ""@,
            "Waiting for authorization…"@,
        ],
        Some(AuthPhase::DeviceCode { verification_uri, user_code }) => seq![
            "Open this page and enter the code:"@,
            ""@,
            verification_uri@,
            user_code@,
            ""@,
            "Waiting for authorization…"@,
        ],
        Some(AuthPhase::Working { message }) => seq![message@],
        Some(AuthPhase::Failed { message }) => seq![
            message@,
            ""@,
            "Press Enter to try again, or Esc to close."@,
        ],
    }
}

/// Builds the body lines for the authentication modal: what the user should
/// do next, an authorization URL, a device code, progress, or an error.
pub fn progress_body(phase: Option<&AuthPhase>) -> (lines: Vec<String>)
    ensures
        lines@.len() == progress_body_text(match phase {
            Some(p) => Some(*p),
            None => None,
        }).len(),
        forall|i: int|
            0 <= i < lines@.len() ==> #[trigger] lines@[i]@ == progress_body_text(match phase {
                Some(p) => Some(*p),
                None => None,
            })[i],
{
    let mut lines: Vec<String> = Vec::new();
    match phase {
        None => {
            lines.push("No authentication in progress.".to_owned());
        },
        Some(AuthPhase::Starting) => {
            lines.push("Starting authentication…".to_owned());
        },
        Some(AuthPhase::Authorizing { url, instructions }) => {
            lines.push(instructions.clone());
            lines.push("".to_owned());
            lines.push(url.clone());
            lines.push("".to_owned());
            lines.push("Waiting for authorization…".to_owned());
        },
        Some(AuthPhase::DeviceCode { verification_uri, user_code }) => {
            lines.push("Open this page and enter the code:".to_owned());
            lines.push("".to_owned());
            lines.push(verification_uri.clone());
            lines.push(user_code.clone());
            lines.push("".to_owned());
            lines.push("Waiting for authorization…".to_owned());
        },
        Some(AuthPhase::Working { message }) => {
            lines.push(message.clone());
        },
        Some(AuthPhase::Failed { message }) => {
            lines.push(message.clone());
            lines.push("".to_owned());
            lines.push("Press Enter to try again, or Esc to close.".to_owned());
        },
    }
    lines
}

/// The action Enter takes in the modal: retry after a failure, otherwise
/// submit the pasted code.
pub fn progress_enter_action(failed: bool) -> (s: &'static str)
    ensures
        s@ == (if failed {
            "retry"@
        } else {
            "submit code"@
        }),
{
    if failed {
        "retry"
    } else {
        "submit code"
    }
}

/// The footer hint of an authentication screen: `{key} {action} · ESC cancel`.
pub fn hint_text(key: &str, action: &str) -> (s: String)
    ensures
        s@ == key@ + " "@ + action@ + " · "@ + "ESC "@ + "cancel"@,
{
    let mut s = key.to_owned();
    s.append(" ");
    s.append(action);
    s.append(" · ");
    s.append("ESC ");
    s.append("cancel");
    s
}

} // verus!
