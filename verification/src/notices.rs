//! The messages that the machines show: status lines, transcript notes and toasts.

use vstd::prelude::*;

use crate::text;
use crate::text::{decimal, join, join3, join4, join5};

verus! {

/// The panes of the sidebar.
#[derive(Debug, Clone, Copy, PartialEq, Eq, Structural)]
pub enum SidebarFocus {
    Work,
    Tasks,
    Agents,
    Context,
    Auto,
}

/// A message for the status line or the transcript.
#[derive(Debug, PartialEq)]
pub enum Notice {
    /// A text that came from elsewhere.
    Message(String),
    CancelHint,
    TurnFailed(String),
    CycleSeparator { from: u32, to: u32, briefing_tokens: u64 },
    ContextRefreshed { from: u32, to: u32, briefing_tokens: u64 },
    CapacityIntervention { action: String, before: u64, after: u64 },
    CapacityMemoryPersistFailed { action: String, error: String },
    AgentStarting { id: String, summary: String },
    AgentProgress { id: String, display: String },
    AgentCompleted { id: String, summary: String },
    AgentTotal(u64),
    ToolBlocked(String),
    ApprovalRequired { tool: String, description: String },
    InputRequired,
    ToolProgress { id: String, summary: String },
    AutoElevating { tool: String, reason: String },
    SandboxBlocked { tool: String, reason: String },
    KillJobs,
    FileTreeClosed,
    FileTreeHelp,
    Attached(String),
    ThinkingExpanded,
    ThinkingFolded,
    CellExpanded,
    CellCollapsed,
    Focus(SidebarFocus),
    Cancelled,
    CancelledRestored,
    QueuedEditStopped,
    BacktrackPrimed,
    BacktrackCanceled,
    NoPreviousTool,
    NoNextTool,
    SteerFailed { error: String, queued: u64 },
    EditedIn(String),
    EditorUnchanged,
    EditorCancelled,
    EditorError(String),
    NoCellToCopy,
    LocaleFailed(String),
    TrustFailed(String),
}

/// The text of the sidebar pane's name.
pub open spec fn focus_text(focus: SidebarFocus) -> Seq<char> {
    match focus {
        SidebarFocus::Work => "work"@,
        SidebarFocus::Tasks => "tasks"@,
        SidebarFocus::Agents => "agents"@,
        SidebarFocus::Context => "context"@,
        SidebarFocus::Auto => "auto"@,
    }
}

/// The text that `notice` shows.
pub open spec fn notice_text(notice: Notice) -> Seq<char> {
    match notice {
        Notice::Message(message) => message@,
        Notice::CancelHint => "Press Esc or Ctrl+C to cancel"@,
        Notice::TurnFailed(error) => "Turn failed: "@ + error@,
        Notice::CycleSeparator { from, to, briefing_tokens } => "─── cycle "@
            + text::decimal_text(from as nat) + " → "@ + text::decimal_text(to as nat)
            + "  (briefing: "@ + text::decimal_text(briefing_tokens as nat) + " tokens) ───"@,
        Notice::ContextRefreshed { from, to, briefing_tokens } => "↻ context refreshed (cycle "@
            + text::decimal_text(from as nat) + " → "@ + text::decimal_text(to as nat)
            + ", briefing: "@ + text::decimal_text(briefing_tokens as nat) + " tokens carried)"@,
        Notice::CapacityIntervention { action, before, after } => "Capacity intervention: "@
            + action@ + " (~"@ + text::decimal_text(before as nat) + " -> ~"@
            + text::decimal_text(after as nat) + " tokens)"@,
        Notice::CapacityMemoryPersistFailed { action, error } =>
            "Capacity memory persist failed ("@ + action@ + "): "@ + error@,
        Notice::AgentStarting { id, summary } => "Sub-agent "@ + id@ + " starting: "@ + summary@,
        Notice::AgentProgress { id, display } => "Sub-agent "@ + id@ + ": "@ + display@,
        Notice::AgentCompleted { id, summary } => "Sub-agent "@ + id@ + " completed: "@ + summary@,
        Notice::AgentTotal(n) => "Sub-agents: "@ + text::decimal_text(n as nat) + " total"@,
        Notice::ToolBlocked(tool) => "Blocked tool '"@ + tool@ + "' (approval_mode=never)"@,
        Notice::ApprovalRequired { tool, description } => "Approval required for '"@ + tool@
            + "': "@ + description@,
        Notice::InputRequired => "Action required: answer the popup with 1-4, arrows, or Enter"@,
        Notice::ToolProgress { id, summary } => "Tool "@ + id@ + ": "@ + summary@,
        Notice::AutoElevating { tool, reason } => "Sandbox denied "@ + tool@ + ": "@ + reason@
            + " - auto-elevating to full access"@,
        Notice::SandboxBlocked { tool, reason } => "Sandbox blocked "@ + tool@ + ": "@ + reason@,
        Notice::KillJobs => "Press Enter to kill all running shell jobs"@,
        Notice::FileTreeClosed => "File tree closed"@,
        Notice::FileTreeHelp => "File tree: ↑/↓ navigate  Enter select  Esc close"@,
        Notice::Attached(path) => "Attached @"@ + path@,
        Notice::ThinkingExpanded => "Thinking block expanded"@,
        Notice::ThinkingFolded => "Thinking block folded"@,
        Notice::CellExpanded => "Cell expanded"@,
        Notice::CellCollapsed => "Cell collapsed"@,
        Notice::Focus(focus) => "Sidebar focus: "@ + focus_text(focus),
        Notice::Cancelled => "Request cancelled"@,
        Notice::CancelledRestored => "Request cancelled; prompt restored to composer"@,
        Notice::QueuedEditStopped => "Stopped editing queued message"@,
        Notice::BacktrackPrimed => "Press Esc again to backtrack"@,
        Notice::BacktrackCanceled => "Backtrack canceled"@,
        Notice::NoPreviousTool => "No previous tool output"@,
        Notice::NoNextTool => "No next tool output"@,
        Notice::SteerFailed { error, queued } => "Steer failed ("@ + error@ + "); queued "@
            + text::decimal_text(queued as nat) + " message(s)"@,
        Notice::EditedIn(editor) => "Edited in "@ + editor@,
        Notice::EditorUnchanged => "Editor closed (no changes)"@,
        Notice::EditorCancelled => "Editor cancelled"@,
        Notice::EditorError(error) => "Editor error: "@ + error@,
        Notice::NoCellToCopy => "No transcript cell to copy"@,
        Notice::LocaleFailed(error) => "Failed to save locale: "@ + error@,
        Notice::TrustFailed(error) => "Failed to trust workspace: "@ + error@,
    }
}

impl Notice {
    /// The text that the notice shows.
    pub fn text(&self) -> (s: String)
        ensures
            s@ == notice_text(*self),
    {
        match self {
            Notice::Message(message) => message.clone(),
            Notice::CancelHint => "Press Esc or Ctrl+C to cancel".to_owned(),
            Notice::TurnFailed(error) => join("Turn failed: ", error.as_str()),
            Notice::CycleSeparator { from, to, briefing_tokens } => {
                let head: String = join4(
                    "─── cycle ",
                    decimal(*from as u64).as_str(),
                    " → ",
                    decimal(*to as u64).as_str(),
                );
                join4(
                    head.as_str(),
                    "  (briefing: ",
                    decimal(*briefing_tokens).as_str(),
                    " tokens) ───",
                )
            },
            Notice::ContextRefreshed { from, to, briefing_tokens } => {
                let head: String = join4(
                    "↻ context refreshed (cycle ",
                    decimal(*from as u64).as_str(),
                    " → ",
                    decimal(*to as u64).as_str(),
                );
                join4(
                    head.as_str(),
                    ", briefing: ",
                    decimal(*briefing_tokens).as_str(),
                    " tokens carried)",
                )
            },
            Notice::CapacityIntervention { action, before, after } => {
                let head: String = join4(
                    "Capacity intervention: ",
                    action.as_str(),
                    " (~",
                    decimal(*before).as_str(),
                );
                join4(head.as_str(), " -> ~", decimal(*after).as_str(), " tokens)")
            },
            Notice::CapacityMemoryPersistFailed { action, error } => join4(
                "Capacity memory persist failed (",
                action.as_str(),
                "): ",
                error.as_str(),
            ),
            Notice::AgentStarting { id, summary } => join4(
                "Sub-agent ",
                id.as_str(),
                " starting: ",
                summary.as_str(),
            ),
            Notice::AgentProgress { id, display } => join4(
                "Sub-agent ",
                id.as_str(),
                ": ",
                display.as_str(),
            ),
            Notice::AgentCompleted { id, summary } => join4(
                "Sub-agent ",
                id.as_str(),
                " completed: ",
                summary.as_str(),
            ),
            Notice::AgentTotal(n) => join3("Sub-agents: ", decimal(*n).as_str(), " total"),
            Notice::ToolBlocked(tool) => join3(
                "Blocked tool '",
                tool.as_str(),
                "' (approval_mode=never)",
            ),
            Notice::ApprovalRequired { tool, description } => join4(
                "Approval required for '",
                tool.as_str(),
                "': ",
                description.as_str(),
            ),
            Notice::InputRequired =>
                "Action required: answer the popup with 1-4, arrows, or Enter".to_owned(),
            Notice::ToolProgress { id, summary } => join4(
                "Tool ",
                id.as_str(),
                ": ",
                summary.as_str(),
            ),
            Notice::AutoElevating { tool, reason } => join5(
                "Sandbox denied ",
                tool.as_str(),
                ": ",
                reason.as_str(),
                " - auto-elevating to full access",
            ),
            Notice::SandboxBlocked { tool, reason } => join4(
                "Sandbox blocked ",
                tool.as_str(),
                ": ",
                reason.as_str(),
            ),
            Notice::KillJobs => "Press Enter to kill all running shell jobs".to_owned(),
            Notice::FileTreeClosed => "File tree closed".to_owned(),
            Notice::FileTreeHelp =>
                "File tree: ↑/↓ navigate  Enter select  Esc close".to_owned(),
            Notice::Attached(path) => join("Attached @", path.as_str()),
            Notice::ThinkingExpanded => "Thinking block expanded".to_owned(),
            Notice::ThinkingFolded => "Thinking block folded".to_owned(),
            Notice::CellExpanded => "Cell expanded".to_owned(),
            Notice::CellCollapsed => "Cell collapsed".to_owned(),
            Notice::Focus(focus) => match focus {
                SidebarFocus::Work => join("Sidebar focus: ", "work"),
                SidebarFocus::Tasks => join("Sidebar focus: ", "tasks"),
                SidebarFocus::Agents => join("Sidebar focus: ", "agents"),
                SidebarFocus::Context => join("Sidebar focus: ", "context"),
                SidebarFocus::Auto => join("Sidebar focus: ", "auto"),
            },
            Notice::Cancelled => "Request cancelled".to_owned(),
            Notice::CancelledRestored =>
                "Request cancelled; prompt restored to composer".to_owned(),
            Notice::QueuedEditStopped => "Stopped editing queued message".to_owned(),
            Notice::BacktrackPrimed => "Press Esc again to backtrack".to_owned(),
            Notice::BacktrackCanceled => "Backtrack canceled".to_owned(),
            Notice::NoPreviousTool => "No previous tool output".to_owned(),
            Notice::NoNextTool => "No next tool output".to_owned(),
            Notice::SteerFailed { error, queued } => join5(
                "Steer failed (",
                error.as_str(),
                "); queued ",
                decimal(*queued).as_str(),
                " message(s)",
            ),
            Notice::EditedIn(editor) => join("Edited in ", editor.as_str()),
            Notice::EditorUnchanged => "Editor closed (no changes)".to_owned(),
            Notice::EditorCancelled => "Editor cancelled".to_owned(),
            Notice::EditorError(error) => join("Editor error: ", error.as_str()),
            Notice::NoCellToCopy => "No transcript cell to copy".to_owned(),
            Notice::LocaleFailed(error) => join("Failed to save locale: ", error.as_str()),
            Notice::TrustFailed(error) => join("Failed to trust workspace: ", error.as_str()),
        }
    }
}

/// A short-lived confirmation above the status line. All toasts are informational.
#[derive(Debug, PartialEq)]
pub enum Toast {
    LanguageSet(String),
    ApiKeySaved(String),
    DraftStashed,
    Copied,
    ThinkingCopied,
}

/// The text that `toast` shows.
pub open spec fn toast_text(toast: Toast) -> Seq<char> {
    match toast {
        Toast::LanguageSet(tag) => "Language set to "@ + tag@,
        Toast::ApiKeySaved(place) => "API key saved to "@ + place@,
        Toast::DraftStashed => "Draft stashed — `/stash pop` to restore"@,
        Toast::Copied => "Copied to clipboard"@,
        Toast::ThinkingCopied => "Thinking copied to clipboard"@,
    }
}

/// How long `toast` stays, in milliseconds.
pub open spec fn toast_millis(toast: Toast) -> u64 {
    match toast {
        Toast::LanguageSet(_) => 2500,
        Toast::ApiKeySaved(_) => 4000,
        Toast::DraftStashed => 3000,
        Toast::Copied => 2000,
        Toast::ThinkingCopied => 2000,
    }
}

impl Toast {
    /// The text that the toast shows.
    pub fn text(&self) -> (s: String)
        ensures
            s@ == toast_text(*self),
    {
        match self {
            Toast::LanguageSet(tag) => join("Language set to ", tag.as_str()),
            Toast::ApiKeySaved(place) => join("API key saved to ", place.as_str()),
            Toast::DraftStashed => "Draft stashed — `/stash pop` to restore".to_owned(),
            Toast::Copied => "Copied to clipboard".to_owned(),
            Toast::ThinkingCopied => "Thinking copied to clipboard".to_owned(),
        }
    }

    /// How long the toast stays, in milliseconds.
    pub fn millis(&self) -> (n: u64)
        ensures
            n == toast_millis(*self),
    {
        match self {
            Toast::LanguageSet(_) => 2500,
            Toast::ApiKeySaved(_) => 4000,
            Toast::DraftStashed => 3000,
            Toast::Copied => 2000,
            Toast::ThinkingCopied => 2000,
        }
    }
}

} // verus!
