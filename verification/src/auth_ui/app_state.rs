//! The parts of application state the authentication intents read and write:
//! the focus-scope stack, the pickers the authentication screens use, and the
//! authentication state itself.

use vstd::prelude::*;

use crate::auth_ui::picker_entry::{AuthMethodEntry, AuthProviderEntry};
use crate::auth_ui::state::AuthState;

verus! {

/// Which picker a picker scope shows.
#[derive(Debug, Clone, Copy, PartialEq, Eq, Structural)]
pub enum PickerKind {
    /// Provider/model selection.
    Provider,
    /// Session browser.
    Session,
    /// Persona selection.
    Persona,
    /// Theme selection.
    Theme,
    /// Session lifecycle recipe selection.
    Lifecycle,
    /// Compaction model selection.
    CompactionModel,
    /// Reasoning effort selection.
    ReasoningEffort,
    /// OpenRouter routing endpoint selection.
    Endpoint,
    /// Tool toggle selection.
    Tool,
    /// Skill toggle selection.
    Skill,
    /// Read-only task list browser.
    TaskList,
    /// Curated project directory selection.
    Project,
    /// MCP server toggle selection.
    McpServer,
    /// Read-only plugin list.
    Plugin,
    /// Subscription provider to log in to.
    AuthLogin,
    /// How to complete the chosen provider's login.
    AuthMethod,
    /// The modal carrying an authorization through to completion.
    AuthProgress,
    /// Provider to log out of.
    AuthLogout,
}

/// Whether `kind` is one of the authentication screens.
pub open spec fn is_auth_kind(kind: PickerKind) -> bool {
    kind == PickerKind::AuthLogin || kind == PickerKind::AuthMethod || kind
        == PickerKind::AuthProgress || kind == PickerKind::AuthLogout
}

/// A focus scope above the base (normal) scope.
#[derive(Debug, Clone, Copy, PartialEq, Eq, Structural)]
pub enum FocusScope {
    /// A picker is open.
    Picker {
        /// Which picker.
        kind: PickerKind,
    },
    /// Typing into the input buffer.
    Input,
}

/// The stack of focus scopes over the base scope; the last one has focus.
#[derive(Debug, Clone)]
pub struct ScopeStack {
    scopes: Vec<FocusScope>,
}

/// The picker kind shown by the scope with focus, if it is a picker.
pub open spec fn top_picker(s: Seq<FocusScope>) -> Option<PickerKind> {
    if s.len() > 0 && s.last() is Picker {
        Some(s.last()->kind)
    } else {
        None
    }
}

/// `s` with every authentication screen on top of it dismissed.
pub open spec fn without_auth_screens(s: Seq<FocusScope>) -> Seq<FocusScope>
    decreases s.len(),
{
    if s.len() > 0 && s.last() is Picker && is_auth_kind(s.last()->kind) {
        without_auth_screens(s.drop_last())
    } else {
        s
    }
}

impl View for ScopeStack {
    type V = Seq<FocusScope>;

    closed spec fn view(&self) -> Seq<FocusScope> {
        self.scopes@
    }
}

impl ScopeStack {
    /// An empty stack: the base scope has focus.
    pub fn new() -> (s: ScopeStack)
        ensures
            s@ == Seq::<FocusScope>::empty(),
    {
        ScopeStack { scopes: Vec::new() }
    }

    /// Gives focus to `scope`.
    pub fn push(&mut self, scope: FocusScope)
        ensures
            final(self)@ == old(self)@.push(scope),
    {
        self.scopes.push(scope);
    }

    /// Returns focus to the scope below the top one.
    pub fn pop(&mut self) -> (r: Option<FocusScope>)
        ensures
            old(self)@.len() == 0 ==> r is None && final(self)@ == old(self)@,
            old(self)@.len() > 0 ==> r == Some(old(self)@.last()) && final(self)@ == old(
                self,
            )@.drop_last(),
    {
        self.scopes.pop()
    }

    /// The picker with focus, if a picker has focus.
    pub fn picker_kind(&self) -> (r: Option<PickerKind>)
        ensures
            r == top_picker(self@),
    {
        if self.scopes.len() == 0 {
            return None;
        }
        match self.scopes[self.scopes.len() - 1] {
            FocusScope::Picker { kind } => Some(kind),
            FocusScope::Input => None,
        }
    }

    /// Whether a picker has focus.
    pub fn is_picker(&self) -> (r: bool)
        ensures
            r == top_picker(self@) is Some,
    {
        self.picker_kind().is_some()
    }

    /// Closes every overlay, returning focus to the base scope.
    pub fn clear_overlays(&mut self)
        ensures
            final(self)@ == Seq::<FocusScope>::empty(),
    {
        self.scopes = Vec::new();
    }

    /// Dismisses every authentication screen stacked on top, leaving any
    /// other scope beneath them alone.
    pub fn close_auth_screens(&mut self)
        ensures
            final(self)@ == without_auth_screens(old(self)@),
    {
        loop
            invariant
                without_auth_screens(self@) == without_auth_screens(old(self)@),
            ensures
                self@ == without_auth_screens(old(self)@),
            decreases self@.len(),
        {
            match self.picker_kind() {
                Some(kind) => {
                    if kind == PickerKind::AuthLogin || kind == PickerKind::AuthMethod || kind
                        == PickerKind::AuthProgress || kind == PickerKind::AuthLogout {
                        self.scopes.pop();
                    } else {
                        return;
                    }
                },
                None => {
                    return;
                },
            }
        }
    }
}

/// A picker's rows, the highlighted row, and the text typed into its input
/// line.
#[derive(Debug, Clone)]
pub struct PickerState<T> {
    items: Vec<T>,
    selected: usize,
    filter: String,
}

impl<T> PickerState<T> {
    /// The rows.
    pub closed spec fn rows(self) -> Seq<T> {
        self.items@
    }

    /// The index of the highlighted row.
    pub closed spec fn selection(self) -> nat {
        self.selected as nat
    }

    /// The text in the input line.
    pub closed spec fn input(self) -> Seq<char> {
        self.filter@
    }

    /// A picker with no rows.
    pub fn new() -> (p: PickerState<T>)
        ensures
            p.rows().len() == 0,
            p.selection() == 0,
            p.input().len() == 0,
    {
        PickerState { items: Vec::new(), selected: 0, filter: String::new() }
    }

    /// Clears the input line and highlights the first row.
    pub fn reset(&mut self)
        ensures
            final(self).rows() == old(self).rows(),
            final(self).selection() == 0,
            final(self).input().len() == 0,
    {
        self.selected = 0;
        self.filter = String::new();
    }

    /// Replaces the rows and highlights the first one.
    pub fn set_items(&mut self, items: Vec<T>)
        ensures
            final(self).rows() == items@,
            final(self).selection() == 0,
            final(self).input() == old(self).input(),
    {
        self.items = items;
        self.selected = 0;
    }

    /// The rows.
    pub fn items(&self) -> (r: &Vec<T>)
        ensures
            r@ == self.rows(),
    {
        &self.items
    }

    /// The highlighted row, if the picker has one.
    pub fn selected_item(&self) -> (r: Option<&T>)
        ensures
            match r {
                Some(t) => self.selection() < self.rows().len() && *t == self.rows()[self.selection() as int],
                None => self.selection() >= self.rows().len(),
            },
    {
        if self.selected < self.items.len() {
            Some(&self.items[self.selected])
        } else {
            None
        }
    }

    /// The text in the input line.
    pub fn filter(&self) -> (r: &str)
        ensures
            r@ == self.input(),
    {
        self.filter.as_str()
    }

    /// Types `c` at the end of the input line.
    pub fn insert_char(&mut self, c: char)
        ensures
            final(self).rows() == old(self).rows(),
            final(self).selection() == old(self).selection(),
            final(self).input() == old(self).input().push(c),
    {
        let mut s = String::new();
        s.append(self.filter.as_str());
        let mut cs = crate::text::chars_of(s.as_str());
        cs.push(c);
        self.filter = crate::text::string_from_chars(cs.as_slice());
    }

    /// Empties the input line.
    pub fn clear_filter(&mut self)
        ensures
            final(self).rows() == old(self).rows(),
            final(self).selection() == old(self).selection(),
            final(self).input().len() == 0,
    {
        self.filter = String::new();
    }
}

/// Frontend state the authentication screens use.
pub struct FrontendState {
    /// Which scope has focus.
    pub scope_stack: ScopeStack,
    /// Providers to log in to.
    pub auth_login_picker: PickerState<AuthProviderEntry>,
    /// Providers to log out of.
    pub auth_logout_picker: PickerState<AuthProviderEntry>,
    /// Login methods of the chosen provider.
    pub auth_method_picker: PickerState<AuthMethodEntry>,
    /// The authentication modal; only its input line is used, to paste an
    /// authorization code.
    pub auth_progress_picker: PickerState<()>,
}

impl FrontendState {
    /// Frontend state with no overlay open and every picker empty.
    pub fn new() -> (f: FrontendState)
        ensures
            f.scope_stack@.len() == 0,
            f.auth_login_picker.rows().len() == 0,
            f.auth_logout_picker.rows().len() == 0,
            f.auth_method_picker.rows().len() == 0,
            f.auth_progress_picker.input().len() == 0,
    {
        FrontendState {
            scope_stack: ScopeStack::new(),
            auth_login_picker: PickerState::new(),
            auth_logout_picker: PickerState::new(),
            auth_method_picker: PickerState::new(),
            auth_progress_picker: PickerState::new(),
        }
    }

    /// Closes the authentication modal if one is open: every authentication
    /// screen on top of the stack is dismissed, and nothing else.
    pub fn close_auth_modal(&mut self)
        ensures
            final(self).scope_stack@ == without_auth_screens(old(self).scope_stack@),
            final(self).auth_login_picker == old(self).auth_login_picker,
            final(self).auth_logout_picker == old(self).auth_logout_picker,
            final(self).auth_method_picker == old(self).auth_method_picker,
            final(self).auth_progress_picker == old(self).auth_progress_picker,
    {
        self.scope_stack.close_auth_screens();
    }
}

/// The application state the authentication intents act on.
pub struct AppState {
    /// Frontend state.
    pub frontend: FrontendState,
    /// Authentication state.
    pub auth: AuthState,
}

impl AppState {
    /// The application at start-up: nothing open, no attempt.
    pub fn new() -> (s: AppState)
        ensures
            s.frontend.scope_stack@.len() == 0,
            s.frontend.auth_login_picker.rows().len() == 0,
            s.frontend.auth_logout_picker.rows().len() == 0,
            s.frontend.auth_method_picker.rows().len() == 0,
            s.frontend.auth_progress_picker.input().len() == 0,
            s.auth.current() is None,
    {
        AppState { frontend: FrontendState::new(), auth: AuthState::new() }
    }
}

/// Dismissing the authentication screens never leaves one with focus, and
/// never touches a stack whose top is not an authentication screen.
pub proof fn lemma_closing_leaves_no_auth_screen(s: Seq<FocusScope>)
    ensures
        !(top_picker(without_auth_screens(s)) matches Some(k) && is_auth_kind(k)),
        !(top_picker(s) matches Some(k) && is_auth_kind(k)) ==> without_auth_screens(s) == s,
    decreases s.len(),
{
    if s.len() > 0 && s.last() is Picker && is_auth_kind(s.last()->kind) {
        lemma_closing_leaves_no_auth_screen(s.drop_last());
    }
}

} // verus!
