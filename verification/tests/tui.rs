use jinn::tui::keymap::{self, Intent, KeyEvent, WhichKeyInstance};
use jinn::tui::scope::Scope;

fn keymap_at(scope: Scope) -> WhichKeyInstance {
    WhichKeyInstance::new(keymap::init(), scope)
}

fn key(notation: &str) -> KeyEvent {
    KeyEvent::parse_notation(notation).expect("notation should parse")
}

fn described(intent: Option<Intent>) -> Option<String> {
    intent.map(|i| i.to_string())
}

#[test]
fn s_in_sidebar_task_list_opens_task_list_picker() {
    let mut wk = keymap_at(Scope::SidebarTaskList);
    let intent = wk.handle_key(key("s"));
    assert_eq!(described(intent).as_deref(), Some("search task list"));
}

#[test]
fn s_outside_sidebar_task_list_does_not_open_task_list_picker() {
    for scope in [Scope::Normal, Scope::Input, Scope::SidebarSessions, Scope::PickerSession] {
        let mut wk = keymap_at(scope);
        let intent = wk.handle_key(key("s"));
        assert_ne!(described(intent).as_deref(), Some("search task list"));
    }
}

#[test]
fn esc_in_picker_task_list_returns_to_normal_mode() {
    let mut wk = keymap_at(Scope::PickerTaskList);
    let intent = wk.handle_key(key("escape"));
    assert_eq!(described(intent).as_deref(), Some("enter normal mode"));
}

#[test]
fn alt_q_in_input_scope_toggles_input_mode() {
    let mut wk = keymap_at(Scope::Input);
    let intent = wk.handle_key(key("m-q"));
    assert_eq!(described(intent).as_deref(), Some("toggle input mode"));
}

#[test]
fn alt_s_in_input_scope_focuses_sidebar_sessions() {
    let mut wk = keymap_at(Scope::Input);
    let intent = wk.handle_key(key("m-s"));
    assert_eq!(described(intent).as_deref(), Some("focus session list"));
}

#[test]
fn sessions_i_resolves_to_sidebar_confirm_insert() {
    let mut wk = keymap_at(Scope::SidebarSessions);
    let intent = wk.handle_key(key("i"));
    assert_eq!(
        described(intent).as_deref(),
        Some("activate session -> insert mode")
    );
}

#[test]
fn sessions_enter_still_resolves_to_sidebar_confirm() {
    let mut wk = keymap_at(Scope::SidebarSessions);
    let intent = wk.handle_key(key("enter"));
    assert_eq!(described(intent).as_deref(), Some("activate session"));
}

#[test]
fn pins_enter_resolves_to_sidebar_leave() {
    let mut wk = keymap_at(Scope::SidebarPins);
    let intent = wk.handle_key(key("enter"));
    assert_eq!(described(intent).as_deref(), Some("return to normal mode"));
}

#[test]
fn alt_s_in_normal_scope_focuses_sidebar_sessions() {
    let mut wk = keymap_at(Scope::Normal);
    let intent = wk.handle_key(key("m-s"));
    assert_eq!(described(intent).as_deref(), Some("focus session list"));
}

#[test]
fn r_in_normal_scope_resets_entry_to_default_context() {
    let mut wk = keymap_at(Scope::Normal);
    let intent = wk.handle_key(key("r"));
    assert_eq!(
        described(intent).as_deref(),
        Some("reset entry to default context")
    );
}

#[test]
fn input_scope_types_unbound_characters() {
    let mut wk = keymap_at(Scope::Input);
    assert_eq!(wk.handle_key(key("x")), Some(Intent::InsertChar('x')));
    let mut normal = keymap_at(Scope::Normal);
    assert_eq!(normal.handle_key(key("x")), None);
}

#[test]
fn notation_parses_modifiers_and_names() {
    let k = key("c-m-x");
    assert!(k.alt && k.ctrl);
    assert!(KeyEvent::parse_notation("nonsense").is_none());
    assert_eq!(key("esc"), key("escape"));
}

#[test]
fn picker_reasoning_effort_scope_round_trips() {
    let s = Scope::PickerReasoningEffort.to_string();
    assert_eq!(s, "Picker(reasoning-effort)");
    assert_eq!(Scope::from_name(&s), Ok(Scope::PickerReasoningEffort));
}

#[test]
fn dashboard_scope_round_trips() {
    let s = Scope::Dashboard.to_string();
    assert_eq!(s, "Dashboard");
    assert_eq!(Scope::from_name(&s), Ok(Scope::Dashboard));
}

#[test]
fn plugin_picker_scope_round_trips() {
    let s = Scope::PickerPlugin.to_string();
    assert_eq!(s, "Picker(plugin)");
    assert_eq!(Scope::from_name(&s), Ok(Scope::PickerPlugin));
}

#[test]
fn terminal_scopes_do_not_parse_back() {
    assert_eq!(Scope::from_name(&Scope::TerminalView.to_string()), Err(()));
    assert_eq!(Scope::from_name(&Scope::TerminalControl.to_string()), Err(()));
    assert_eq!("Input".parse::<Scope>(), Ok(Scope::Input));
}
