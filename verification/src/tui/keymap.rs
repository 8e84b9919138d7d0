//! Key bindings: which intent a key resolves to in each scope.
//!
//! A binding belongs to one scope, so the same key can mean different things
//! in different places (`enter` activates a session in the sessions list but
//! returns to normal mode from the pins list). The first binding for the
//! active scope and the pressed key wins; in the input scope, an unbound
//! plain character is typed into the buffer.

use vstd::prelude::*;

use crate::text::{chars_of, str_eq};
use crate::tui::scope::Scope;

verus! {

/// A key without its modifiers.
#[derive(Debug, Clone, Copy, PartialEq, Eq, Structural)]
pub enum KeyCode {
    /// A printable character.
    Char(char),
    /// Enter.
    Enter,
    /// Escape.
    Escape,
    /// Tab.
    Tab,
    /// Backspace.
    Backspace,
    /// Arrow up.
    Up,
    /// Arrow down.
    Down,
    /// Arrow left.
    Left,
    /// Arrow right.
    Right,
}

/// A key press: a key and the modifiers held with it.
#[derive(Debug, Clone, Copy, PartialEq, Eq, Structural)]
pub struct KeyEvent {
    /// The key.
    pub code: KeyCode,
    /// Whether Alt (meta) was held.
    pub alt: bool,
    /// Whether Control was held.
    pub ctrl: bool,
}

/// The key a key name stands for.
pub open spec fn named_key(s: Seq<char>) -> Option<KeyCode> {
    if s.len() == 1 {
        Some(KeyCode::Char(s[0]))
    } else if s == "enter"@ {
        Some(KeyCode::Enter)
    } else if s == "escape"@ || s == "esc"@ {
        Some(KeyCode::Escape)
    } else if s == "tab"@ {
        Some(KeyCode::Tab)
    } else if s == "backspace"@ {
        Some(KeyCode::Backspace)
    } else if s == "up"@ {
        Some(KeyCode::Up)
    } else if s == "down"@ {
        Some(KeyCode::Down)
    } else if s == "left"@ {
        Some(KeyCode::Left)
    } else if s == "right"@ {
        Some(KeyCode::Right)
    } else {
        None
    }
}

/// The key press a notation describes: `m-` (Alt) and `c-` (Control)
/// prefixes, in any order, before a key name or a single character.
pub open spec fn key_of_notation(s: Seq<char>, alt: bool, ctrl: bool) -> Option<KeyEvent>
    decreases s.len(),
{
    if s.len() > 2 && s[0] == 'm' && s[1] == '-' {
        key_of_notation(s.skip(2), true, ctrl)
    } else if s.len() > 2 && s[0] == 'c' && s[1] == '-' {
        key_of_notation(s.skip(2), alt, true)
    } else {
        match named_key(s) {
            Some(code) => Some(KeyEvent { code, alt, ctrl }),
            None => None,
        }
    }
}

impl KeyEvent {
    /// A key pressed without modifiers.
    pub fn plain(code: KeyCode) -> (k: KeyEvent)
        ensures
            k == (KeyEvent { code, alt: false, ctrl: false }),
    {
        KeyEvent { code, alt: false, ctrl: false }
    }

    /// Parses key notation such as `s`, `enter`, `escape` or `m-s`.
    pub fn parse_notation(notation: &str) -> (r: Option<KeyEvent>)
        ensures
            r == key_of_notation(notation@, false, false),
    {
        let cs = chars_of(notation);
        let mut start: usize = 0;
        let mut alt = false;
        let mut ctrl = false;
        proof {
            assert(cs@.skip(0) =~= cs@);
        }
        while cs.len() - start > 2 && (cs[start] == 'm' || cs[start] == 'c') && cs[start + 1]
            == '-'
            invariant
                start <= cs@.len(),
                cs@ == notation@,
                key_of_notation(cs@.skip(start as int), alt, ctrl) == key_of_notation(
                    notation@,
                    false,
                    false,
                ),
            decreases cs@.len() - start,
        {
            proof {
                let rest = cs@.skip(start as int);
                assert(rest[0] == cs@[start as int]);
                assert(rest[1] == cs@[start + 1]);
                assert(rest.skip(2) =~= cs@.skip(start + 2));
            }
            if cs[start] == 'm' {
                alt = true;
            } else {
                ctrl = true;
            }
            start = start + 2;
        }
        let rest = crate::text::slice_chars(cs.as_slice(), start, cs.len());
        proof {
            let r = cs@.skip(start as int);
            assert(rest@ =~= r);
            if r.len() > 2 {
                assert(r[0] == cs@[start as int]);
                assert(r[1] == cs@[start + 1]);
            }
        }
        let code = match named_key_of(rest.as_slice()) {
            Some(code) => code,
            None => return None,
        };
        Some(KeyEvent { code, alt, ctrl })
    }
}

/// Reads a key name.
fn named_key_of(s: &[char]) -> (r: Option<KeyCode>)
    ensures
        r == named_key(s@),
{
    if s.len() == 1 {
        return Some(KeyCode::Char(s[0]));
    }
    let text = crate::text::string_from_chars(s);
    let t = text.as_str();
    if str_eq(t, "enter") {
        Some(KeyCode::Enter)
    } else if str_eq(t, "escape") || str_eq(t, "esc") {
        Some(KeyCode::Escape)
    } else if str_eq(t, "tab") {
        Some(KeyCode::Tab)
    } else if str_eq(t, "backspace") {
        Some(KeyCode::Backspace)
    } else if str_eq(t, "up") {
        Some(KeyCode::Up)
    } else if str_eq(t, "down") {
        Some(KeyCode::Down)
    } else if str_eq(t, "left") {
        Some(KeyCode::Left)
    } else if str_eq(t, "right") {
        Some(KeyCode::Right)
    } else {
        None
    }
}

/// What a key press asks the application to do.
#[derive(Debug, Clone, Copy, PartialEq, Eq, Structural)]
pub enum Intent {
    /// Open the task-list picker.
    OpenTaskListPicker,
    /// Leave the current mode for normal mode.
    EnterNormalMode,
    /// Toggle the input mode (queue or steer).
    ToggleInputMode,
    /// Focus the sessions section of the sidebar.
    SidebarFocusSessions,
    /// Activate the selected session and enter insert mode.
    SidebarConfirmInsert,
    /// Activate the selected session.
    SidebarConfirm,
    /// Leave the sidebar to normal mode at the selected position.
    SidebarLeave,
    /// Reset the selected chat entry to the default context.
    ChatEntryResetSelected,
    /// Type a character into the input buffer.
    InsertChar(char),
}

/// The description shown for an intent (what `Display` prints).
pub open spec fn intent_text(i: Intent) -> Seq<char> {
    match i {
        Intent::OpenTaskListPicker => "search task list"@,
        Intent::EnterNormalMode => "enter normal mode"@,
        Intent::ToggleInputMode => "toggle input mode"@,
        Intent::SidebarFocusSessions => "focus session list"@,
        Intent::SidebarConfirmInsert => "activate session -> insert mode"@,
        Intent::SidebarConfirm => "activate session"@,
        Intent::SidebarLeave => "return to normal mode"@,
        Intent::ChatEntryResetSelected => "reset entry to default context"@,
        Intent::InsertChar(_) => "insert character"@,
    }
}

impl Intent {
    /// The description shown for the intent.
    pub fn to_string(&self) -> (s: String)
        ensures
            s@ == intent_text(*self),
    {
        let text: &str = match self {
            Intent::OpenTaskListPicker => "search task list",
            Intent::EnterNormalMode => "enter normal mode",
            Intent::ToggleInputMode => "toggle input mode",
            Intent::SidebarFocusSessions => "focus session list",
            Intent::SidebarConfirmInsert => "activate session -> insert mode",
            Intent::SidebarConfirm => "activate session",
            Intent::SidebarLeave => "return to normal mode",
            Intent::ChatEntryResetSelected => "reset entry to default context",
            Intent::InsertChar(_) => "insert character",
        };
        text.to_owned()
    }
}

/// One binding: in `scope`, `key` resolves to `intent`.
#[derive(Debug, Clone, Copy, PartialEq, Eq, Structural)]
pub struct Binding {
    /// Where the binding applies.
    pub scope: Scope,
    /// The key press.
    pub key: KeyEvent,
    /// What it resolves to.
    pub intent: Intent,
}

/// The bindings of the application.
#[derive(Debug, Clone)]
pub struct Keymap {
    /// The bindings; the first match wins.
    pub bindings: Vec<Binding>,
}

/// The intent the first binding for `scope` and `key` gives, if any.
pub open spec fn bound_intent(b: Seq<Binding>, scope: Scope, key: KeyEvent) -> Option<Intent>
    decreases b.len(),
{
    if b.len() == 0 {
        None
    } else if b[0].scope == scope && b[0].key == key {
        Some(b[0].intent)
    } else {
        bound_intent(b.drop_first(), scope, key)
    }
}

/// What `key` resolves to in `scope`: its binding, or, in the input scope, a
/// plain character typed into the buffer.
pub open spec fn resolve(b: Seq<Binding>, scope: Scope, key: KeyEvent) -> Option<Intent> {
    match bound_intent(b, scope, key) {
        Some(i) => Some(i),
        None => if scope == Scope::Input && !key.alt && !key.ctrl && key.code is Char {
            Some(Intent::InsertChar(key.code->Char_0))
        } else {
            None
        },
    }
}

/// A binding of a plain character.
fn bind_char(scope: Scope, c: char, intent: Intent) -> (b: Binding)
    ensures
        b == (Binding { scope, key: KeyEvent { code: KeyCode::Char(c), alt: false, ctrl: false }, intent }),
{
    Binding { scope, key: KeyEvent::plain(KeyCode::Char(c)), intent }
}

/// A binding of Alt with a character.
fn bind_alt(scope: Scope, c: char, intent: Intent) -> (b: Binding)
    ensures
        b == (Binding { scope, key: KeyEvent { code: KeyCode::Char(c), alt: true, ctrl: false }, intent }),
{
    Binding { scope, key: KeyEvent { code: KeyCode::Char(c), alt: true, ctrl: false }, intent }
}

/// A binding of a named key.
fn bind_key(scope: Scope, code: KeyCode, intent: Intent) -> (b: Binding)
    ensures
        b == (Binding { scope, key: KeyEvent { code, alt: false, ctrl: false }, intent }),
{
    Binding { scope, key: KeyEvent::plain(code), intent }
}

/// The application's bindings.
pub open spec fn default_bindings() -> Seq<Binding> {
    seq![
        Binding { scope: Scope::SidebarTaskList, key: KeyEvent { code: KeyCode::Char('s'), alt: false, ctrl: false }, intent: Intent::OpenTaskListPicker },
        Binding { scope: Scope::PickerTaskList, key: KeyEvent { code: KeyCode::Escape, alt: false, ctrl: false }, intent: Intent::EnterNormalMode },
        Binding { scope: Scope::Input, key: KeyEvent { code: KeyCode::Char('q'), alt: true, ctrl: false }, intent: Intent::ToggleInputMode },
        Binding { scope: Scope::Input, key: KeyEvent { code: KeyCode::Char('s'), alt: true, ctrl: false }, intent: Intent::SidebarFocusSessions },
        Binding { scope: Scope::Normal, key: KeyEvent { code: KeyCode::Char('s'), alt: true, ctrl: false }, intent: Intent::SidebarFocusSessions },
        Binding { scope: Scope::SidebarSessions, key: KeyEvent { code: KeyCode::Char('i'), alt: false, ctrl: false }, intent: Intent::SidebarConfirmInsert },
        Binding { scope: Scope::SidebarSessions, key: KeyEvent { code: KeyCode::Enter, alt: false, ctrl: false }, intent: Intent::SidebarConfirm },
        Binding { scope: Scope::SidebarPins, key: KeyEvent { code: KeyCode::Enter, alt: false, ctrl: false }, intent: Intent::SidebarLeave },
        Binding { scope: Scope::Normal, key: KeyEvent { code: KeyCode::Char('r'), alt: false, ctrl: false }, intent: Intent::ChatEntryResetSelected },
    ]
}

/// Builds the application's bindings.
pub fn init() -> (k: Keymap)
    ensures
        k.bindings@ == default_bindings(),
{
    let mut bindings: Vec<Binding> = Vec::new();
    bindings.push(bind_char(Scope::SidebarTaskList, 's', Intent::OpenTaskListPicker));
    bindings.push(bind_key(Scope::PickerTaskList, KeyCode::Escape, Intent::EnterNormalMode));
    bindings.push(bind_alt(Scope::Input, 'q', Intent::ToggleInputMode));
    bindings.push(bind_alt(Scope::Input, 's', Intent::SidebarFocusSessions));
    bindings.push(bind_alt(Scope::Normal, 's', Intent::SidebarFocusSessions));
    bindings.push(bind_char(Scope::SidebarSessions, 'i', Intent::SidebarConfirmInsert));
    bindings.push(bind_key(Scope::SidebarSessions, KeyCode::Enter, Intent::SidebarConfirm));
    bindings.push(bind_key(Scope::SidebarPins, KeyCode::Enter, Intent::SidebarLeave));
    bindings.push(bind_char(Scope::Normal, 'r', Intent::ChatEntryResetSelected));
    assert(bindings@ =~= default_bindings());
    Keymap { bindings }
}

/// The keymap rooted at a scope.
#[derive(Debug, Clone)]
pub struct WhichKeyInstance {
    keymap: Keymap,
    scope: Scope,
}

impl WhichKeyInstance {
    /// The bindings in use.
    pub closed spec fn bindings(self) -> Seq<Binding> {
        self.keymap.bindings@
    }

    /// The active scope.
    pub closed spec fn active_scope(self) -> Scope {
        self.scope
    }

    /// Roots `keymap` at `scope`.
    pub fn new(keymap: Keymap, scope: Scope) -> (w: WhichKeyInstance)
        ensures
            w.bindings() == keymap.bindings@,
            w.active_scope() == scope,
    {
        WhichKeyInstance { keymap, scope }
    }

    /// Changes the active scope.
    pub fn set_scope(&mut self, scope: Scope)
        ensures
            final(self).bindings() == old(self).bindings(),
            final(self).active_scope() == scope,
    {
        self.scope = scope;
    }

    /// Resolves a key press in the active scope.
    pub fn handle_key(&mut self, key: KeyEvent) -> (r: Option<Intent>)
        ensures
            r == resolve(old(self).bindings(), old(self).active_scope(), key),
            *final(self) == *old(self),
    {
        let mut i: usize = 0;
        proof {
            assert(self.keymap.bindings@.skip(0) =~= self.keymap.bindings@);
        }
        while i < self.keymap.bindings.len()
            invariant
                i <= self.keymap.bindings@.len(),
                bound_intent(self.keymap.bindings@, self.scope, key) == bound_intent(
                    self.keymap.bindings@.skip(i as int),
                    self.scope,
                    key,
                ),
            decreases self.keymap.bindings@.len() - i,
        {
            let b = self.keymap.bindings[i];
            proof {
                let rest = self.keymap.bindings@.skip(i as int);
                assert(rest[0] == b);
                assert(rest.drop_first() =~= self.keymap.bindings@.skip(i + 1));
            }
            if b.scope == self.scope && b.key == key {
                return Some(b.intent);
            }
            i = i + 1;
        }
        if self.scope == Scope::Input && !key.alt && !key.ctrl {
            if let KeyCode::Char(c) = key.code {
                return Some(Intent::InsertChar(c));
            }
        }
        None
    }
}

/// Bindings are scoped: a binding for one scope never fires in another, so
/// adding bindings for other scopes changes nothing here.
pub proof fn lemma_bindings_are_scoped(b: Seq<Binding>, other: Binding, scope: Scope, key: KeyEvent)
    requires
        other.scope != scope,
    ensures
        bound_intent(seq![other] + b, scope, key) == bound_intent(b, scope, key),
{
    assert((seq![other] + b).drop_first() =~= b);
}

} // verus!
