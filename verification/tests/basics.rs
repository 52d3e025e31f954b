use crossterm::event::KeyModifiers;

use tui_events::keys::{Key, KeyCode, KeyTraits, Modifiers, ALT, CONTROL, SHIFT, SUPER};
use tui_events::notices::{Notice, SidebarFocus, Toast};
use tui_events::progress::AgentProgress;
use tui_events::state::{add_durations, time_since, TurnOutcome, TurnStatus, MAX_DURATION};
use tui_events::text::{decimal, has_prefix, is_blank, join, same, trim};

fn traits() -> KeyTraits {
    KeyTraits {
        ctrl_h_backspace: false,
        paste: false,
        text_input: false,
        file_tree_toggle: false,
        option_v: false,
        composer_newline: false,
        word_cursor: false,
        alt_nav: false,
        copy: false,
        ctrl_or_alt: false,
    }
}

#[test]
fn modifier_bits_are_those_of_the_terminal_library() {
    assert_eq!(SHIFT, KeyModifiers::SHIFT.bits());
    assert_eq!(CONTROL, KeyModifiers::CONTROL.bits());
    assert_eq!(ALT, KeyModifiers::ALT.bits());
    assert_eq!(SUPER, KeyModifiers::SUPER.bits());
}

#[test]
fn modifiers_contain_each_of_their_bits() {
    let both = Modifiers { bits: CONTROL | ALT };
    assert!(both.contains(CONTROL));
    assert!(both.contains(ALT));
    assert!(both.contains(CONTROL | ALT));
    assert!(!both.contains(SHIFT));
    assert!(!both.contains(CONTROL | SHIFT));
    assert!(!both.is_empty());
    assert!(Modifiers { bits: 0 }.is_empty());
}

#[test]
fn plain_characters_have_no_shortcut_modifier() {
    let mut key = Key {
        code: KeyCode::Char('x'),
        modifiers: Modifiers { bits: SHIFT },
        traits: traits(),
    };
    assert!(key.is_plain_char());
    key.modifiers = Modifiers { bits: SUPER };
    assert!(!key.is_plain_char());
    key.modifiers = Modifiers { bits: CONTROL };
    key.traits.ctrl_or_alt = true;
    assert!(!key.is_plain_char());
    key.traits.ctrl_or_alt = false;
    key.code = KeyCode::Tab;
    assert!(!key.is_plain_char());
}

#[test]
fn white_space_is_trimmed_at_both_ends() {
    assert_eq!(trim("  a b\t\n"), "a b");
    assert_eq!(trim("\u{3000}key\u{00a0}"), "key");
    assert_eq!(trim(" \t "), "");
    assert_eq!(trim("plain"), "plain");
}

#[test]
fn white_space_is_that_of_unicode() {
    let listed = |c: char| {
        matches!(c,
            '\u{9}'..='\u{d}' | '\u{20}' | '\u{85}' | '\u{a0}' | '\u{1680}'
            | '\u{2000}'..='\u{200a}' | '\u{2028}' | '\u{2029}' | '\u{202f}' | '\u{205f}'
            | '\u{3000}')
    };
    for c in '\u{0}'..=char::MAX {
        assert_eq!(is_blank(&c.to_string()), listed(c), "{:?}", c);
    }
}

#[test]
fn blank_texts_hold_only_white_space() {
    assert!(is_blank(""));
    assert!(is_blank(" \u{2003}\n"));
    assert!(!is_blank(" x "));
}

#[test]
fn texts_are_compared_and_joined() {
    assert!(same("rlm", "rlm"));
    assert!(!same("rlm", "rlm_open"));
    assert!(has_prefix("shell_1", "shell_"));
    assert!(!has_prefix("shell", "shell_"));
    assert_eq!(join("a", "é"), "aé");
}

#[test]
fn numbers_are_written_in_decimal() {
    assert_eq!(decimal(0), "0");
    assert_eq!(decimal(907), "907");
    assert_eq!(decimal(18_446_744_073_709_551_615), "18446744073709551615");
}

#[test]
fn times_never_run_backwards() {
    assert_eq!(time_since(Some(5), 12), 7);
    assert_eq!(time_since(Some(12), 5), 0);
    assert_eq!(time_since(None, 5), 0);
}

#[test]
fn durations_add_up_to_the_longest_one() {
    assert_eq!(add_durations(3, 4), 7);
    assert_eq!(add_durations(MAX_DURATION, 1), MAX_DURATION);
    assert_eq!(add_durations(u128::MAX, u128::MAX), MAX_DURATION);
    assert_eq!(MAX_DURATION, std::time::Duration::MAX.as_nanos());
}

#[test]
fn turn_statuses_have_labels() {
    assert_eq!(TurnStatus::InProgress.label(), "in_progress");
    assert_eq!(TurnStatus::Ended(TurnOutcome::Completed).label(), "completed");
    assert_eq!(TurnStatus::Ended(TurnOutcome::Interrupted).label(), "interrupted");
    assert_eq!(TurnStatus::Ended(TurnOutcome::Failed).label(), "failed");
}

#[test]
fn progress_keeps_one_line_for_each_agent() {
    let mut progress = AgentProgress::new();
    progress.insert("a", "one".to_string());
    progress.insert("b", "two".to_string());
    progress.insert("a", "three".to_string());
    assert_eq!(progress.get("a").map(String::as_str), Some("three"));
    assert_eq!(progress.get("b").map(String::as_str), Some("two"));
    assert_eq!(progress.get("c"), None);
}

#[test]
fn progress_that_is_there_stays_where_only_a_missing_one_is_inserted() {
    let mut progress = AgentProgress::new();
    progress.insert_if_absent("a", "one".to_string());
    progress.insert_if_absent("a", "two".to_string());
    assert_eq!(progress.get("a").map(String::as_str), Some("one"));
}

#[test]
fn progress_of_a_removed_agent_is_gone() {
    let mut progress = AgentProgress::new();
    progress.insert("a", "one".to_string());
    progress.insert("b", "two".to_string());
    assert!(progress.has_other("a"));
    progress.remove("b");
    assert!(!progress.has_other("a"));
    assert!(progress.has_other("b"));
    assert_eq!(progress.get("b"), None);
    assert_eq!(progress.get("a").map(String::as_str), Some("one"));
    progress.remove("missing");
    assert_eq!(progress.get("a").map(String::as_str), Some("one"));
}

fn s(text: &str) -> String {
    text.to_string()
}

#[test]
fn engine_notices_read_as_they_should() {
    let cases = vec![
        (Notice::Message(s("as is")), "as is"),
        (Notice::CancelHint, "Press Esc or Ctrl+C to cancel"),
        (Notice::TurnFailed(s("boom")), "Turn failed: boom"),
        (
            Notice::CycleSeparator { from: 1, to: 2, briefing_tokens: 300 },
            "─── cycle 1 → 2  (briefing: 300 tokens) ───",
        ),
        (
            Notice::ContextRefreshed { from: 1, to: 2, briefing_tokens: 300 },
            "↻ context refreshed (cycle 1 → 2, briefing: 300 tokens carried)",
        ),
        (
            Notice::CapacityIntervention { action: s("trim"), before: 900, after: 40 },
            "Capacity intervention: trim (~900 -> ~40 tokens)",
        ),
        (
            Notice::CapacityMemoryPersistFailed { action: s("trim"), error: s("disk full") },
            "Capacity memory persist failed (trim): disk full",
        ),
        (
            Notice::AgentStarting { id: s("a1"), summary: s("look") },
            "Sub-agent a1 starting: look",
        ),
        (Notice::AgentProgress { id: s("a1"), display: s("reading") }, "Sub-agent a1: reading"),
        (
            Notice::AgentCompleted { id: s("a1"), summary: s("found") },
            "Sub-agent a1 completed: found",
        ),
        (Notice::AgentTotal(12), "Sub-agents: 12 total"),
        (Notice::ToolBlocked(s("rm")), "Blocked tool 'rm' (approval_mode=never)"),
        (
            Notice::ApprovalRequired { tool: s("rm"), description: s("delete") },
            "Approval required for 'rm': delete",
        ),
        (
            Notice::InputRequired,
            "Action required: answer the popup with 1-4, arrows, or Enter",
        ),
        (Notice::ToolProgress { id: s("t"), summary: s("half") }, "Tool t: half"),
        (
            Notice::AutoElevating { tool: s("sh"), reason: s("net") },
            "Sandbox denied sh: net - auto-elevating to full access",
        ),
        (
            Notice::SandboxBlocked { tool: s("sh"), reason: s("net") },
            "Sandbox blocked sh: net",
        ),
    ];
    for (notice, text) in cases {
        assert_eq!(notice.text(), text);
    }
}

#[test]
fn key_notices_read_as_they_should() {
    let cases = vec![
        (Notice::KillJobs, "Press Enter to kill all running shell jobs"),
        (Notice::FileTreeClosed, "File tree closed"),
        (
            Notice::FileTreeHelp,
            "File tree: \u{2191}/\u{2193} navigate  Enter select  Esc close",
        ),
        (Notice::Attached(s("src/a.rs")), "Attached @src/a.rs"),
        (Notice::ThinkingExpanded, "Thinking block expanded"),
        (Notice::ThinkingFolded, "Thinking block folded"),
        (Notice::CellExpanded, "Cell expanded"),
        (Notice::CellCollapsed, "Cell collapsed"),
        (Notice::Focus(SidebarFocus::Work), "Sidebar focus: work"),
        (Notice::Focus(SidebarFocus::Tasks), "Sidebar focus: tasks"),
        (Notice::Focus(SidebarFocus::Agents), "Sidebar focus: agents"),
        (Notice::Focus(SidebarFocus::Context), "Sidebar focus: context"),
        (Notice::Focus(SidebarFocus::Auto), "Sidebar focus: auto"),
        (Notice::Cancelled, "Request cancelled"),
        (Notice::CancelledRestored, "Request cancelled; prompt restored to composer"),
        (Notice::QueuedEditStopped, "Stopped editing queued message"),
        (Notice::BacktrackPrimed, "Press Esc again to backtrack"),
        (Notice::BacktrackCanceled, "Backtrack canceled"),
        (Notice::NoPreviousTool, "No previous tool output"),
        (Notice::NoNextTool, "No next tool output"),
        (
            Notice::SteerFailed { error: s("closed"), queued: 2 },
            "Steer failed (closed); queued 2 message(s)",
        ),
        (Notice::EditedIn(s("vim")), "Edited in vim"),
        (Notice::EditorUnchanged, "Editor closed (no changes)"),
        (Notice::EditorCancelled, "Editor cancelled"),
        (Notice::EditorError(s("exit 1")), "Editor error: exit 1"),
        (Notice::NoCellToCopy, "No transcript cell to copy"),
        (Notice::LocaleFailed(s("denied")), "Failed to save locale: denied"),
        (Notice::TrustFailed(s("denied")), "Failed to trust workspace: denied"),
    ];
    for (notice, text) in cases {
        assert_eq!(notice.text(), text);
    }
}

#[test]
fn toasts_read_as_they_should_and_stay_as_long() {
    let cases = vec![
        (Toast::LanguageSet(s("de")), "Language set to de", 2_500),
        (Toast::ApiKeySaved(s("~/.config")), "API key saved to ~/.config", 4_000),
        (Toast::DraftStashed, "Draft stashed — `/stash pop` to restore", 3_000),
        (Toast::Copied, "Copied to clipboard", 2_000),
        (Toast::ThinkingCopied, "Thinking copied to clipboard", 2_000),
    ];
    for (toast, text, millis) in cases {
        assert_eq!(toast.text(), text);
        assert_eq!(toast.millis(), millis);
    }
}
