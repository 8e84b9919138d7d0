//! Keymap scopes for context-sensitive key handling.
//!
//! The scope determines which set of keybindings is active. Each sidebar
//! section has its own scope so section-specific keys (like `r` for rename
//! versus pin-relative) are unambiguous.

use vstd::prelude::*;

use crate::auth_ui::app_state::{FocusScope, PickerKind};
use crate::text::str_eq;

verus! {

/// The current keymap context.
#[derive(Debug, Clone, Copy, PartialEq, Eq, PartialOrd, Ord, Hash, Structural)]
pub enum Scope {
    /// Normal mode - navigation and commands.
    Normal,
    /// Sidebar - Persona section.
    SidebarPersona,
    /// Sidebar - Pins section.
    SidebarPins,
    /// Sidebar - Sessions section.
    SidebarSessions,
    /// Sidebar - Task list section.
    SidebarTaskList,
    /// Sidebar - MCP servers section.
    SidebarMcpServers,
    /// Picker - Provider/model selection.
    PickerProvider,
    /// Picker - Session browser.
    PickerSession,
    /// Picker - Persona selection.
    PickerPersona,
    /// Picker - Theme selection.
    PickerTheme,
    /// Picker - Session lifecycle recipe selection.
    PickerLifecycle,
    /// Picker - Compaction model selection.
    PickerCompactionModel,
    /// Picker - Reasoning effort selection.
    PickerReasoningEffort,
    /// Picker - OpenRouter routing endpoint selection.
    PickerEndpoint,
    /// Picker - Tool toggle selection.
    PickerTool,
    /// Picker - Skill toggle selection.
    PickerSkill,
    /// Picker - Read-only task list browser.
    PickerTaskList,
    /// Picker - Curated project directory selection.
    PickerProject,
    /// Picker - MCP server toggle selection.
    PickerMcpServer,
    /// Picker - Read-only plugin list.
    PickerPlugin,
    /// Picker - Subscription provider to log in to.
    PickerAuthLogin,
    /// Picker - How to complete the chosen provider's login.
    PickerAuthMethod,
    /// Picker - The modal carrying an authorization through to completion.
    PickerAuthProgress,
    /// Picker - Provider to log out of.
    PickerAuthLogout,
    /// Input mode - typing into the input buffer.
    Input,
    /// Arg input mode - typing positional args for a lifecycle command.
    ArgInput,
    /// Token budget input mode - typing a numeric budget value.
    TokenBudgetInput,
    /// Rename session input mode - editing a session title.
    RenameSessionInput,
    /// CWD input mode - typing a directory path.
    CwdInput,
    /// Dashboard tab — service status overview.
    Dashboard,
    /// Terminal tab — viewing an `interactive_term` session (passive).
    TerminalView,
    /// Terminal control — keys forward to the pty; handback key exits.
    TerminalControl,
    /// Project-add input mode - typing a directory path to register a project.
    ProjectAddInput,
    /// Pruner accumulation threshold input mode - numeric input for the KV-cache gate.
    PrunerAccumulationInput,
    /// Quake bar overlay - global console. Captures all keystrokes while open.
    QuakeBar,
    /// Sidebar resize mode - adjusting sidebar width.
    SidebarResize,
}

/// The text a scope is written as.
pub open spec fn scope_name(s: Scope) -> Seq<char> {
    match s {
        Scope::Normal => "Normal"@,
        Scope::SidebarPersona => "SidebarPersona"@,
        Scope::SidebarPins => "SidebarPins"@,
        Scope::SidebarSessions => "SidebarSessions"@,
        Scope::SidebarTaskList => "SidebarTaskList"@,
        Scope::SidebarMcpServers => "SidebarMcpServers"@,
        Scope::PickerProvider => "Picker(provider)"@,
        Scope::PickerSession => "Picker(session)"@,
        Scope::PickerPersona => "Picker(persona)"@,
        Scope::PickerTheme => "Picker(theme)"@,
        Scope::PickerLifecycle => "Picker(lifecycle)"@,
        Scope::PickerCompactionModel => "Picker(compaction-model)"@,
        Scope::PickerReasoningEffort => "Picker(reasoning-effort)"@,
        Scope::PickerEndpoint => "Picker(endpoint)"@,
        Scope::PickerTool => "Picker(tool)"@,
        Scope::PickerSkill => "Picker(skill)"@,
        Scope::PickerTaskList => "Picker(task-list)"@,
        Scope::PickerProject => "Picker(project)"@,
        Scope::PickerMcpServer => "Picker(mcp-server)"@,
        Scope::PickerPlugin => "Picker(plugin)"@,
        Scope::PickerAuthLogin => "Picker(auth-login)"@,
        Scope::PickerAuthMethod => "Picker(auth-method)"@,
        Scope::PickerAuthProgress => "Picker(auth-progress)"@,
        Scope::PickerAuthLogout => "Picker(auth-logout)"@,
        Scope::Input => "Input"@,
        Scope::ArgInput => "ArgInput"@,
        Scope::TokenBudgetInput => "TokenBudgetInput"@,
        Scope::RenameSessionInput => "RenameSessionInput"@,
        Scope::CwdInput => "CwdInput"@,
        Scope::Dashboard => "Dashboard"@,
        Scope::TerminalView => "TerminalView"@,
        Scope::TerminalControl => "TerminalControl"@,
        Scope::ProjectAddInput => "ProjectAddInput"@,
        Scope::PrunerAccumulationInput => "PrunerAccumulationInput"@,
        Scope::QuakeBar => "QuakeBar"@,
        Scope::SidebarResize => "SidebarResize"@,
    }
}

/// The scope a text names. The two terminal scopes have no written form that
/// parses back: they are entered by focus, never by name.
pub open spec fn scope_for_name(s: Seq<char>) -> Option<Scope> {
    if s == "Normal"@ {
        Some(Scope::Normal)
    } else if s == "SidebarPersona"@ {
        Some(Scope::SidebarPersona)
    } else if s == "SidebarPins"@ {
        Some(Scope::SidebarPins)
    } else if s == "SidebarSessions"@ {
        Some(Scope::SidebarSessions)
    } else if s == "SidebarTaskList"@ {
        Some(Scope::SidebarTaskList)
    } else if s == "SidebarMcpServers"@ {
        Some(Scope::SidebarMcpServers)
    } else if s == "Picker(provider)"@ {
        Some(Scope::PickerProvider)
    } else if s == "Picker(session)"@ {
        Some(Scope::PickerSession)
    } else if s == "Picker(persona)"@ {
        Some(Scope::PickerPersona)
    } else if s == "Picker(theme)"@ {
        Some(Scope::PickerTheme)
    } else if s == "Picker(lifecycle)"@ {
        Some(Scope::PickerLifecycle)
    } else if s == "Picker(compaction-model)"@ {
        Some(Scope::PickerCompactionModel)
    } else if s == "Picker(reasoning-effort)"@ {
        Some(Scope::PickerReasoningEffort)
    } else if s == "Picker(endpoint)"@ {
        Some(Scope::PickerEndpoint)
    } else if s == "Picker(tool)"@ {
        Some(Scope::PickerTool)
    } else if s == "Picker(skill)"@ {
        Some(Scope::PickerSkill)
    } else if s == "Picker(task-list)"@ {
        Some(Scope::PickerTaskList)
    } else if s == "Picker(project)"@ {
        Some(Scope::PickerProject)
    } else if s == "Picker(mcp-server)"@ {
        Some(Scope::PickerMcpServer)
    } else if s == "Picker(plugin)"@ {
        Some(Scope::PickerPlugin)
    } else if s == "Picker(auth-login)"@ {
        Some(Scope::PickerAuthLogin)
    } else if s == "Picker(auth-method)"@ {
        Some(Scope::PickerAuthMethod)
    } else if s == "Picker(auth-progress)"@ {
        Some(Scope::PickerAuthProgress)
    } else if s == "Picker(auth-logout)"@ {
        Some(Scope::PickerAuthLogout)
    } else if s == "Input"@ {
        Some(Scope::Input)
    } else if s == "Dashboard"@ {
        Some(Scope::Dashboard)
    } else if s == "ArgInput"@ {
        Some(Scope::ArgInput)
    } else if s == "TokenBudgetInput"@ {
        Some(Scope::TokenBudgetInput)
    } else if s == "RenameSessionInput"@ {
        Some(Scope::RenameSessionInput)
    } else if s == "CwdInput"@ {
        Some(Scope::CwdInput)
    } else if s == "ProjectAddInput"@ {
        Some(Scope::ProjectAddInput)
    } else if s == "PrunerAccumulationInput"@ {
        Some(Scope::PrunerAccumulationInput)
    } else if s == "QuakeBar"@ {
        Some(Scope::QuakeBar)
    } else if s == "SidebarResize"@ {
        Some(Scope::SidebarResize)
    } else {
        None
    }
}

/// Whether a scope's written form parses back to it.
pub open spec fn scope_round_trips(s: Scope) -> bool {
    s != Scope::TerminalView && s != Scope::TerminalControl
}

impl Scope {
    /// The text the scope is written as (what `Display` prints).
    pub fn name(&self) -> (s: &'static str)
        ensures
            s@ == scope_name(*self),
    {
        match self {
            Scope::Normal => "Normal",
            Scope::SidebarPersona => "SidebarPersona",
            Scope::SidebarPins => "SidebarPins",
            Scope::SidebarSessions => "SidebarSessions",
            Scope::SidebarTaskList => "SidebarTaskList",
            Scope::SidebarMcpServers => "SidebarMcpServers",
            Scope::PickerProvider => "Picker(provider)",
            Scope::PickerSession => "Picker(session)",
            Scope::PickerPersona => "Picker(persona)",
            Scope::PickerTheme => "Picker(theme)",
            Scope::PickerLifecycle => "Picker(lifecycle)",
            Scope::PickerCompactionModel => "Picker(compaction-model)",
            Scope::PickerReasoningEffort => "Picker(reasoning-effort)",
            Scope::PickerEndpoint => "Picker(endpoint)",
            Scope::PickerTool => "Picker(tool)",
            Scope::PickerSkill => "Picker(skill)",
            Scope::PickerTaskList => "Picker(task-list)",
            Scope::PickerProject => "Picker(project)",
            Scope::PickerMcpServer => "Picker(mcp-server)",
            Scope::PickerPlugin => "Picker(plugin)",
            Scope::PickerAuthLogin => "Picker(auth-login)",
            Scope::PickerAuthMethod => "Picker(auth-method)",
            Scope::PickerAuthProgress => "Picker(auth-progress)",
            Scope::PickerAuthLogout => "Picker(auth-logout)",
            Scope::Input => "Input",
            Scope::ArgInput => "ArgInput",
            Scope::TokenBudgetInput => "TokenBudgetInput",
            Scope::RenameSessionInput => "RenameSessionInput",
            Scope::CwdInput => "CwdInput",
            Scope::Dashboard => "Dashboard",
            Scope::TerminalView => "TerminalView",
            Scope::TerminalControl => "TerminalControl",
            Scope::ProjectAddInput => "ProjectAddInput",
            Scope::PrunerAccumulationInput => "PrunerAccumulationInput",
            Scope::QuakeBar => "QuakeBar",
            Scope::SidebarResize => "SidebarResize",
        }
    }

    /// The written form as an owned string.
    pub fn to_string(&self) -> (s: String)
        ensures
            s@ == scope_name(*self),
    {
        self.name().to_owned()
    }

    /// Parses a written scope.
    pub fn from_name(s: &str) -> (r: Result<Scope, ()>)
        ensures
            match scope_for_name(s@) {
                Some(sc) => r == Ok::<Scope, ()>(sc),
                None => r is Err,
            },
    {
        if str_eq(s, "Normal") {
            return Ok(Scope::Normal);
        }
        if str_eq(s, "SidebarPersona") {
            return Ok(Scope::SidebarPersona);
        }
        if str_eq(s, "SidebarPins") {
            return Ok(Scope::SidebarPins);
        }
        if str_eq(s, "SidebarSessions") {
            return Ok(Scope::SidebarSessions);
        }
        if str_eq(s, "SidebarTaskList") {
            return Ok(Scope::SidebarTaskList);
        }
        if str_eq(s, "SidebarMcpServers") {
            return Ok(Scope::SidebarMcpServers);
        }
        if str_eq(s, "Picker(provider)") {
            return Ok(Scope::PickerProvider);
        }
        if str_eq(s, "Picker(session)") {
            return Ok(Scope::PickerSession);
        }
        if str_eq(s, "Picker(persona)") {
            return Ok(Scope::PickerPersona);
        }
        if str_eq(s, "Picker(theme)") {
            return Ok(Scope::PickerTheme);
        }
        if str_eq(s, "Picker(lifecycle)") {
            return Ok(Scope::PickerLifecycle);
        }
        if str_eq(s, "Picker(compaction-model)") {
            return Ok(Scope::PickerCompactionModel);
        }
        if str_eq(s, "Picker(reasoning-effort)") {
            return Ok(Scope::PickerReasoningEffort);
        }
        if str_eq(s, "Picker(endpoint)") {
            return Ok(Scope::PickerEndpoint);
        }
        if str_eq(s, "Picker(tool)") {
            return Ok(Scope::PickerTool);
        }
        if str_eq(s, "Picker(skill)") {
            return Ok(Scope::PickerSkill);
        }
        if str_eq(s, "Picker(task-list)") {
            return Ok(Scope::PickerTaskList);
        }
        if str_eq(s, "Picker(project)") {
            return Ok(Scope::PickerProject);
        }
        if str_eq(s, "Picker(mcp-server)") {
            return Ok(Scope::PickerMcpServer);
        }
        if str_eq(s, "Picker(plugin)") {
            return Ok(Scope::PickerPlugin);
        }
        if str_eq(s, "Picker(auth-login)") {
            return Ok(Scope::PickerAuthLogin);
        }
        if str_eq(s, "Picker(auth-method)") {
            return Ok(Scope::PickerAuthMethod);
        }
        if str_eq(s, "Picker(auth-progress)") {
            return Ok(Scope::PickerAuthProgress);
        }
        if str_eq(s, "Picker(auth-logout)") {
            return Ok(Scope::PickerAuthLogout);
        }
        if str_eq(s, "Input") {
            return Ok(Scope::Input);
        }
        if str_eq(s, "Dashboard") {
            return Ok(Scope::Dashboard);
        }
        if str_eq(s, "ArgInput") {
            return Ok(Scope::ArgInput);
        }
        if str_eq(s, "TokenBudgetInput") {
            return Ok(Scope::TokenBudgetInput);
        }
        if str_eq(s, "RenameSessionInput") {
            return Ok(Scope::RenameSessionInput);
        }
        if str_eq(s, "CwdInput") {
            return Ok(Scope::CwdInput);
        }
        if str_eq(s, "ProjectAddInput") {
            return Ok(Scope::ProjectAddInput);
        }
        if str_eq(s, "PrunerAccumulationInput") {
            return Ok(Scope::PrunerAccumulationInput);
        }
        if str_eq(s, "QuakeBar") {
            return Ok(Scope::QuakeBar);
        }
        if str_eq(s, "SidebarResize") {
            return Ok(Scope::SidebarResize);
        }
        Err(())
    }
}

impl std::str::FromStr for Scope {
    type Err = ();

    fn from_str(s: &str) -> (r: Result<Scope, ()>)
        ensures
            match scope_for_name(s@) {
                Some(sc) => r == Ok::<Scope, ()>(sc),
                None => r is Err,
            },
    {
        Scope::from_name(s)
    }
}

/// The keymap scope of the scope with focus.
pub open spec fn focus_scope_of(focus: FocusScope) -> Scope {
    match focus {
        FocusScope::Input => Scope::Input,
        FocusScope::Picker { kind } => match kind {
            PickerKind::Provider => Scope::PickerProvider,
            PickerKind::Session => Scope::PickerSession,
            PickerKind::Persona => Scope::PickerPersona,
            PickerKind::Theme => Scope::PickerTheme,
            PickerKind::Lifecycle => Scope::PickerLifecycle,
            PickerKind::CompactionModel => Scope::PickerCompactionModel,
            PickerKind::ReasoningEffort => Scope::PickerReasoningEffort,
            PickerKind::Endpoint => Scope::PickerEndpoint,
            PickerKind::Tool => Scope::PickerTool,
            PickerKind::Skill => Scope::PickerSkill,
            PickerKind::TaskList => Scope::PickerTaskList,
            PickerKind::Project => Scope::PickerProject,
            PickerKind::McpServer => Scope::PickerMcpServer,
            PickerKind::Plugin => Scope::PickerPlugin,
            PickerKind::AuthLogin => Scope::PickerAuthLogin,
            PickerKind::AuthMethod => Scope::PickerAuthMethod,
            PickerKind::AuthProgress => Scope::PickerAuthProgress,
            PickerKind::AuthLogout => Scope::PickerAuthLogout,
        },
    }
}

/// The keymap scope of the scope with focus.
pub fn scope_for_focus(focus: &FocusScope) -> (s: Scope)
    ensures
        s == focus_scope_of(*focus),
{
    match focus {
        FocusScope::Input => Scope::Input,
        FocusScope::Picker { kind } => match kind {
            PickerKind::Provider => Scope::PickerProvider,
            PickerKind::Session => Scope::PickerSession,
            PickerKind::Persona => Scope::PickerPersona,
            PickerKind::Theme => Scope::PickerTheme,
            PickerKind::Lifecycle => Scope::PickerLifecycle,
            PickerKind::CompactionModel => Scope::PickerCompactionModel,
            PickerKind::ReasoningEffort => Scope::PickerReasoningEffort,
            PickerKind::Endpoint => Scope::PickerEndpoint,
            PickerKind::Tool => Scope::PickerTool,
            PickerKind::Skill => Scope::PickerSkill,
            PickerKind::TaskList => Scope::PickerTaskList,
            PickerKind::Project => Scope::PickerProject,
            PickerKind::McpServer => Scope::PickerMcpServer,
            PickerKind::Plugin => Scope::PickerPlugin,
            PickerKind::AuthLogin => Scope::PickerAuthLogin,
            PickerKind::AuthMethod => Scope::PickerAuthMethod,
            PickerKind::AuthProgress => Scope::PickerAuthProgress,
            PickerKind::AuthLogout => Scope::PickerAuthLogout,
        },
    }
}

/// The length and the characters at the distinguishing positions of each
/// scope name, which tell the names apart.
proof fn lemma_scope_name_shapes()
    ensures
        "Normal"@.len() == 6 && "Normal"@[0] == 'N' && "Normal"@[1] == 'o',
        "SidebarPersona"@.len() == 14 && "SidebarPersona"@[0] == 'S' && "SidebarPersona"@[1] == 'i' && "SidebarPersona"@[7] == 'P' && "SidebarPersona"@[8] == 'e' && "SidebarPersona"@[12] == 'n',
        "SidebarPins"@.len() == 11 && "SidebarPins"@[0] == 'S' && "SidebarPins"@[1] == 'i' && "SidebarPins"@[7] == 'P' && "SidebarPins"@[8] == 'i',
        "SidebarSessions"@.len() == 15 && "SidebarSessions"@[0] == 'S' && "SidebarSessions"@[1] == 'i' && "SidebarSessions"@[7] == 'S' && "SidebarSessions"@[8] == 'e' && "SidebarSessions"@[12] == 'o',
        "SidebarTaskList"@.len() == 15 && "SidebarTaskList"@[0] == 'S' && "SidebarTaskList"@[1] == 'i' && "SidebarTaskList"@[7] == 'T' && "SidebarTaskList"@[8] == 'a' && "SidebarTaskList"@[12] == 'i',
        "SidebarMcpServers"@.len() == 17 && "SidebarMcpServers"@[0] == 'S' && "SidebarMcpServers"@[1] == 'i' && "SidebarMcpServers"@[7] == 'M' && "SidebarMcpServers"@[8] == 'c' && "SidebarMcpServers"@[12] == 'r',
        "Picker(provider)"@.len() == 16 && "Picker(provider)"@[0] == 'P' && "Picker(provider)"@[1] == 'i' && "Picker(provider)"@[7] == 'p' && "Picker(provider)"@[8] == 'r' && "Picker(provider)"@[12] == 'd',
        "Picker(session)"@.len() == 15 && "Picker(session)"@[0] == 'P' && "Picker(session)"@[1] == 'i' && "Picker(session)"@[7] == 's' && "Picker(session)"@[8] == 'e' && "Picker(session)"@[12] == 'o',
        "Picker(persona)"@.len() == 15 && "Picker(persona)"@[0] == 'P' && "Picker(persona)"@[1] == 'i' && "Picker(persona)"@[7] == 'p' && "Picker(persona)"@[8] == 'e' && "Picker(persona)"@[12] == 'n',
        "Picker(theme)"@.len() == 13 && "Picker(theme)"@[0] == 'P' && "Picker(theme)"@[1] == 'i' && "Picker(theme)"@[7] == 't' && "Picker(theme)"@[8] == 'h' && "Picker(theme)"@[12] == ')',
        "Picker(lifecycle)"@.len() == 17 && "Picker(lifecycle)"@[0] == 'P' && "Picker(lifecycle)"@[1] == 'i' && "Picker(lifecycle)"@[7] == 'l' && "Picker(lifecycle)"@[8] == 'i' && "Picker(lifecycle)"@[12] == 'y',
        "Picker(compaction-model)"@.len() == 24 && "Picker(compaction-model)"@[0] == 'P' && "Picker(compaction-model)"@[1] == 'i' && "Picker(compaction-model)"@[7] == 'c' && "Picker(compaction-model)"@[8] == 'o' && "Picker(compaction-model)"@[12] == 'c',
        "Picker(reasoning-effort)"@.len() == 24 && "Picker(reasoning-effort)"@[0] == 'P' && "Picker(reasoning-effort)"@[1] == 'i' && "Picker(reasoning-effort)"@[7] == 'r' && "Picker(reasoning-effort)"@[8] == 'e' && "Picker(reasoning-effort)"@[12] == 'n',
        "Picker(endpoint)"@.len() == 16 && "Picker(endpoint)"@[0] == 'P' && "Picker(endpoint)"@[1] == 'i' && "Picker(endpoint)"@[7] == 'e' && "Picker(endpoint)"@[8] == 'n' && "Picker(endpoint)"@[12] == 'i',
        "Picker(tool)"@.len() == 12 && "Picker(tool)"@[0] == 'P' && "Picker(tool)"@[1] == 'i' && "Picker(tool)"@[7] == 't' && "Picker(tool)"@[8] == 'o',
        "Picker(skill)"@.len() == 13 && "Picker(skill)"@[0] == 'P' && "Picker(skill)"@[1] == 'i' && "Picker(skill)"@[7] == 's' && "Picker(skill)"@[8] == 'k' && "Picker(skill)"@[12] == ')',
        "Picker(task-list)"@.len() == 17 && "Picker(task-list)"@[0] == 'P' && "Picker(task-list)"@[1] == 'i' && "Picker(task-list)"@[7] == 't' && "Picker(task-list)"@[8] == 'a' && "Picker(task-list)"@[12] == 'l',
        "Picker(project)"@.len() == 15 && "Picker(project)"@[0] == 'P' && "Picker(project)"@[1] == 'i' && "Picker(project)"@[7] == 'p' && "Picker(project)"@[8] == 'r' && "Picker(project)"@[12] == 'c',
        "Picker(mcp-server)"@.len() == 18 && "Picker(mcp-server)"@[0] == 'P' && "Picker(mcp-server)"@[1] == 'i' && "Picker(mcp-server)"@[7] == 'm' && "Picker(mcp-server)"@[8] == 'c' && "Picker(mcp-server)"@[12] == 'e',
        "Picker(plugin)"@.len() == 14 && "Picker(plugin)"@[0] == 'P' && "Picker(plugin)"@[1] == 'i' && "Picker(plugin)"@[7] == 'p' && "Picker(plugin)"@[8] == 'l' && "Picker(plugin)"@[12] == 'n',
        "Picker(auth-login)"@.len() == 18 && "Picker(auth-login)"@[0] == 'P' && "Picker(auth-login)"@[1] == 'i' && "Picker(auth-login)"@[7] == 'a' && "Picker(auth-login)"@[8] == 'u' && "Picker(auth-login)"@[12] == 'l',
        "Picker(auth-method)"@.len() == 19 && "Picker(auth-method)"@[0] == 'P' && "Picker(auth-method)"@[1] == 'i' && "Picker(auth-method)"@[7] == 'a' && "Picker(auth-method)"@[8] == 'u' && "Picker(auth-method)"@[12] == 'm',
        "Picker(auth-progress)"@.len() == 21 && "Picker(auth-progress)"@[0] == 'P' && "Picker(auth-progress)"@[1] == 'i' && "Picker(auth-progress)"@[7] == 'a' && "Picker(auth-progress)"@[8] == 'u' && "Picker(auth-progress)"@[12] == 'p',
        "Picker(auth-logout)"@.len() == 19 && "Picker(auth-logout)"@[0] == 'P' && "Picker(auth-logout)"@[1] == 'i' && "Picker(auth-logout)"@[7] == 'a' && "Picker(auth-logout)"@[8] == 'u' && "Picker(auth-logout)"@[12] == 'l',
        "Input"@.len() == 5 && "Input"@[0] == 'I' && "Input"@[1] == 'n',
        "ArgInput"@.len() == 8 && "ArgInput"@[0] == 'A' && "ArgInput"@[1] == 'r' && "ArgInput"@[7] == 't',
        "TokenBudgetInput"@.len() == 16 && "TokenBudgetInput"@[0] == 'T' && "TokenBudgetInput"@[1] == 'o' && "TokenBudgetInput"@[7] == 'd' && "TokenBudgetInput"@[8] == 'g' && "TokenBudgetInput"@[12] == 'n',
        "RenameSessionInput"@.len() == 18 && "RenameSessionInput"@[0] == 'R' && "RenameSessionInput"@[1] == 'e' && "RenameSessionInput"@[7] == 'e' && "RenameSessionInput"@[8] == 's' && "RenameSessionInput"@[12] == 'n',
        "CwdInput"@.len() == 8 && "CwdInput"@[0] == 'C' && "CwdInput"@[1] == 'w' && "CwdInput"@[7] == 't',
        "Dashboard"@.len() == 9 && "Dashboard"@[0] == 'D' && "Dashboard"@[1] == 'a' && "Dashboard"@[7] == 'r' && "Dashboard"@[8] == 'd',
        "TerminalView"@.len() == 12 && "TerminalView"@[0] == 'T' && "TerminalView"@[1] == 'e' && "TerminalView"@[7] == 'l' && "TerminalView"@[8] == 'V',
        "TerminalControl"@.len() == 15 && "TerminalControl"@[0] == 'T' && "TerminalControl"@[1] == 'e' && "TerminalControl"@[7] == 'l' && "TerminalControl"@[8] == 'C' && "TerminalControl"@[12] == 'r',
        "ProjectAddInput"@.len() == 15 && "ProjectAddInput"@[0] == 'P' && "ProjectAddInput"@[1] == 'r' && "ProjectAddInput"@[7] == 'A' && "ProjectAddInput"@[8] == 'd' && "ProjectAddInput"@[12] == 'p',
        "PrunerAccumulationInput"@.len() == 23 && "PrunerAccumulationInput"@[0] == 'P' && "PrunerAccumulationInput"@[1] == 'r' && "PrunerAccumulationInput"@[7] == 'c' && "PrunerAccumulationInput"@[8] == 'c' && "PrunerAccumulationInput"@[12] == 'l',
        "QuakeBar"@.len() == 8 && "QuakeBar"@[0] == 'Q' && "QuakeBar"@[1] == 'u' && "QuakeBar"@[7] == 'r',
        "SidebarResize"@.len() == 13 && "SidebarResize"@[0] == 'S' && "SidebarResize"@[1] == 'i' && "SidebarResize"@[7] == 'R' && "SidebarResize"@[8] == 'e' && "SidebarResize"@[12] == 'e',
{
    reveal_strlit("Normal");
    reveal_strlit("SidebarPersona");
    reveal_strlit("SidebarPins");
    reveal_strlit("SidebarSessions");
    reveal_strlit("SidebarTaskList");
    reveal_strlit("SidebarMcpServers");
    reveal_strlit("Picker(provider)");
    reveal_strlit("Picker(session)");
    reveal_strlit("Picker(persona)");
    reveal_strlit("Picker(theme)");
    reveal_strlit("Picker(lifecycle)");
    reveal_strlit("Picker(compaction-model)");
    reveal_strlit("Picker(reasoning-effort)");
    reveal_strlit("Picker(endpoint)");
    reveal_strlit("Picker(tool)");
    reveal_strlit("Picker(skill)");
    reveal_strlit("Picker(task-list)");
    reveal_strlit("Picker(project)");
    reveal_strlit("Picker(mcp-server)");
    reveal_strlit("Picker(plugin)");
    reveal_strlit("Picker(auth-login)");
    reveal_strlit("Picker(auth-method)");
    reveal_strlit("Picker(auth-progress)");
    reveal_strlit("Picker(auth-logout)");
    reveal_strlit("Input");
    reveal_strlit("ArgInput");
    reveal_strlit("TokenBudgetInput");
    reveal_strlit("RenameSessionInput");
    reveal_strlit("CwdInput");
    reveal_strlit("Dashboard");
    reveal_strlit("TerminalView");
    reveal_strlit("TerminalControl");
    reveal_strlit("ProjectAddInput");
    reveal_strlit("PrunerAccumulationInput");
    reveal_strlit("QuakeBar");
    reveal_strlit("SidebarResize");
}

/// Writing a scope and parsing the text back gives the same scope, for every
/// scope except the two terminal ones, whose names do not parse.
pub proof fn lemma_scope_round_trip(s: Scope)
    ensures
        scope_round_trips(s) ==> scope_for_name(scope_name(s)) == Some(s),
        !scope_round_trips(s) ==> scope_for_name(scope_name(s)) is None,
{
    lemma_scope_name_shapes();
    match s {
        Scope::Normal => {},
        Scope::SidebarPersona => {},
        Scope::SidebarPins => {},
        Scope::SidebarSessions => {},
        Scope::SidebarTaskList => {},
        Scope::SidebarMcpServers => {},
        Scope::PickerProvider => {},
        Scope::PickerSession => {},
        Scope::PickerPersona => {},
        Scope::PickerTheme => {},
        Scope::PickerLifecycle => {},
        Scope::PickerCompactionModel => {},
        Scope::PickerReasoningEffort => {},
        Scope::PickerEndpoint => {},
        Scope::PickerTool => {},
        Scope::PickerSkill => {},
        Scope::PickerTaskList => {},
        Scope::PickerProject => {},
        Scope::PickerMcpServer => {},
        Scope::PickerPlugin => {},
        Scope::PickerAuthLogin => {},
        Scope::PickerAuthMethod => {},
        Scope::PickerAuthProgress => {},
        Scope::PickerAuthLogout => {},
        Scope::Input => {},
        Scope::ArgInput => {},
        Scope::TokenBudgetInput => {},
        Scope::RenameSessionInput => {},
        Scope::CwdInput => {},
        Scope::Dashboard => {},
        Scope::TerminalView => {},
        Scope::TerminalControl => {},
        Scope::ProjectAddInput => {},
        Scope::PrunerAccumulationInput => {},
        Scope::QuakeBar => {},
        Scope::SidebarResize => {},
    }
}

} // verus!
