//! Platform clipboard outcomes for the TUI.
//!
//! Every clipboard write runs off the TUI thread and reports back through an
//! owned [`ClipboardCompletion`]. The copied text itself never appears in a
//! completion, only its length. Running the write happens around this
//! module; what the completion says, and what the status line shows, is
//! decided here.

use vstd::prelude::*;

verus! {

/// Error returned when text cannot be written to the platform clipboard.
#[derive(Debug, Clone, Copy, PartialEq, Eq, Structural)]
pub struct ClipboardError;

/// Native clipboard backend (the platform clipboard).
#[derive(Debug, Clone, Copy, PartialEq, Eq, Default)]
pub struct ArboardClipboard;

impl ArboardClipboard {
    /// Stable backend name used in diagnostics.
    pub fn name(&self) -> (n: &'static str)
        ensures
            n@ == "arboard"@,
    {
        "arboard"
    }
}

/// Owned outcome of one asynchronous clipboard write.
#[derive(Debug, Clone, PartialEq, Eq)]
pub enum ClipboardCompletion {
    /// The text was written successfully.
    Success {
        /// Backend that performed the write.
        backend: &'static str,
        /// UTF-8 byte length of the copied text.
        text_len: usize,
    },
    /// The backend could not write the text.
    Failed {
        /// Backend that attempted the write.
        backend: &'static str,
        /// Diagnostic safe to write to the application log.
        error: String,
    },
}

/// The completion of a write of `text_len` bytes by `backend`, given what the
/// backend reported (a diagnostic on failure).
pub fn completion_for(backend: &'static str, text_len: usize, outcome: Result<(), String>) -> (c:
    ClipboardCompletion)
    ensures
        match outcome {
            Ok(()) => c == ClipboardCompletion::Success { backend, text_len },
            Err(e) => c == ClipboardCompletion::Failed { backend, error: e },
        },
{
    match outcome {
        Ok(()) => ClipboardCompletion::Success { backend, text_len },
        Err(error) => ClipboardCompletion::Failed { backend, error },
    }
}

/// The status hint shown after a clipboard write fails.
pub open spec fn copy_failed_text() -> Seq<char> {
    "failed to copy to clipboard; see log for details"@
}

/// The status hint after a completion: a success keeps whatever hint the
/// copying feature already showed; a failure replaces it, taking precedence
/// over a speculative success message.
pub fn status_hint_after(completion: &ClipboardCompletion, current: Option<String>) -> (r: Option<
    String,
>)
    ensures
        match completion {
            ClipboardCompletion::Success { .. } => r == current,
            ClipboardCompletion::Failed { .. } => r matches Some(h) && h@ == copy_failed_text(),
        },
{
    match completion {
        ClipboardCompletion::Success { .. } => current,
        ClipboardCompletion::Failed { .. } => Some(
            "failed to copy to clipboard; see log for details".to_owned(),
        ),
    }
}

/// What flushing a pending copy does.
#[derive(Debug, Clone, PartialEq, Eq)]
pub struct FlushDecision {
    /// Whether a copy is still pending afterwards.
    pub pending: bool,
    /// Whether the selection highlight is cleared.
    pub clear_selection: bool,
    /// The text to hand to the clipboard, if any.
    pub copy: Option<String>,
}

/// Decides a pending copy: nothing happens unless one is pending; then the
/// pending flag is cleared, the highlight is cleared, and the selected text
/// is copied unless it is empty.
pub fn flush_pending(pending: bool, selected: Option<String>) -> (d: FlushDecision)
    ensures
        !pending ==> d == (FlushDecision { pending: false, clear_selection: false, copy: None }),
        pending ==> !d.pending && d.clear_selection,
        pending ==> match selected {
            Some(t) => if t@.len() > 0 {
                d.copy == Some(t)
            } else {
                d.copy is None
            },
            None => d.copy is None,
        },
{
    if !pending {
        return FlushDecision { pending: false, clear_selection: false, copy: None };
    }
    match selected {
        Some(text) => {
            if text.as_str().is_empty() {
                FlushDecision { pending: false, clear_selection: true, copy: None }
            } else {
                FlushDecision { pending: false, clear_selection: true, copy: Some(text) }
            }
        },
        None => FlushDecision { pending: false, clear_selection: true, copy: None },
    }
}

} // verus!
