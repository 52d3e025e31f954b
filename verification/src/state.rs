//! The state of the client that the machines read and write.
//!
//! Instants and durations are counted in nanoseconds; an instant is counted from a start that the
//! host picks once.

use std::collections::HashSet;

use vstd::prelude::*;

use crate::notices::{Notice, SidebarFocus};
use crate::progress::AgentProgress;

verus! {

/// `serde_json::Value`, a JSON document. Tool inputs are carried along as they came.
#[verifier::external_type_specification]
#[verifier::external_body]
pub struct ExJsonValue(serde_json::Value);

/// The longest duration that the standard library holds: 2^64 - 1 seconds and 999,999,999
/// nanoseconds.
pub const MAX_DURATION: u128 = 18_446_744_073_709_551_615_999_999_999;

/// The time from `since` to `now`; zero where `now` is earlier.
pub open spec fn elapsed(since: u128, now: u128) -> u128 {
    if now >= since {
        (now - since) as u128
    } else {
        0
    }
}

/// The time from `since` to `now`; zero where nothing had started or `now` is earlier.
pub open spec fn elapsed_since(since: Option<u128>, now: u128) -> u128 {
    match since {
        Some(t) => elapsed(t, now),
        None => 0,
    }
}

/// The sum of two durations, or the longest duration where the sum exceeds it.
pub open spec fn duration_sum(a: u128, b: u128) -> u128 {
    if a + b > MAX_DURATION {
        MAX_DURATION
    } else {
        (a + b) as u128
    }
}

/// The time from `since` to `now`; zero where nothing had started or `now` is earlier.
pub fn time_since(since: Option<u128>, now: u128) -> (d: u128)
    ensures
        d == elapsed_since(since, now),
{
    match since {
        Some(t) => now.saturating_sub(t),
        None => 0,
    }
}

/// The sum of two durations, or the longest duration where the sum exceeds it.
pub fn add_durations(a: u128, b: u128) -> (d: u128)
    ensures
        d == duration_sum(a, b),
{
    let d: u128 = a.saturating_add(b);
    if d > MAX_DURATION {
        MAX_DURATION
    } else {
        d
    }
}

/// How a turn ended.
#[derive(Debug, Clone, Copy, PartialEq, Eq, Structural)]
pub enum TurnOutcome {
    Completed,
    Interrupted,
    Failed,
}

/// Where the current turn stands.
#[derive(Debug, Clone, Copy, PartialEq, Eq, Structural)]
pub enum TurnStatus {
    InProgress,
    Ended(TurnOutcome),
}

impl TurnStatus {
    /// The name under which the status is recorded.
    pub open spec fn label_text(self) -> Seq<char> {
        match self {
            TurnStatus::InProgress => "in_progress"@,
            TurnStatus::Ended(TurnOutcome::Completed) => "completed"@,
            TurnStatus::Ended(TurnOutcome::Interrupted) => "interrupted"@,
            TurnStatus::Ended(TurnOutcome::Failed) => "failed"@,
        }
    }

    /// The name under which the status is recorded.
    pub fn label(self) -> (s: &'static str)
        ensures
            s@ == self.label_text(),
    {
        match self {
            TurnStatus::InProgress => "in_progress",
            TurnStatus::Ended(TurnOutcome::Completed) => "completed",
            TurnStatus::Ended(TurnOutcome::Interrupted) => "interrupted",
            TurnStatus::Ended(TurnOutcome::Failed) => "failed",
        }
    }
}

/// The working modes.
#[derive(Debug, Clone, Copy, PartialEq, Eq, Structural)]
pub enum AppMode {
    Plan,
    Agent,
    Yolo,
}

/// How tool calls are approved.
#[derive(Debug, Clone, Copy, PartialEq, Eq, Structural)]
pub enum ApprovalMode {
    /// Approve without asking.
    Auto,
    /// Ask the user.
    Suggest,
    /// Deny without asking.
    Never,
}

/// The kinds of view on the modal stack that the machines tell apart.
#[derive(Debug, Clone, Copy, PartialEq, Eq, Structural)]
pub enum ModalKind {
    Help,
    LiveTranscript,
    PlanPrompt,
    Other,
}

/// The modes of the composer's vim bindings.
#[derive(Debug, Clone, Copy, PartialEq, Eq, Structural)]
pub enum VimMode {
    Normal,
    Insert,
    Visual,
}

/// The screens of the first-run onboarding.
#[derive(Debug, Clone, Copy, PartialEq, Eq, Structural)]
pub enum OnboardingState {
    /// No onboarding, or no more.
    Inactive,
    Welcome,
    Language,
    ApiKey,
    TrustDirectory,
    Tips,
}

/// A message that waits to be sent.
#[derive(Debug, PartialEq)]
pub struct QueuedMessage {
    pub display: String,
    pub skill_instruction: Option<String>,
}

impl QueuedMessage {
    /// The same message again.
    pub fn duplicate(&self) -> (m: QueuedMessage)
        ensures
            m == *self,
    {
        QueuedMessage {
            display: self.display.clone(),
            skill_instruction: self.skill_instruction.clone(),
        }
    }
}

/// A tool call that the model has asked for in this turn.
#[derive(Debug, PartialEq)]
pub struct ToolUse {
    pub id: String,
    pub name: String,
    pub input: serde_json::Value,
}

/// A sub-agent as the engine lists it.
#[derive(Debug, PartialEq)]
pub struct SubAgent {
    pub agent_id: String,
    pub running: bool,
    pub from_prior_session: bool,
}

impl SubAgent {
    /// The same entry again.
    pub fn duplicate(&self) -> (a: SubAgent)
        ensures
            a == *self,
    {
        SubAgent {
            agent_id: self.agent_id.clone(),
            running: self.running,
            from_prior_session: self.from_prior_session,
        }
    }
}

/// An entry of the sidebar's task panel.
#[derive(Debug, PartialEq)]
pub struct TaskEntry {
    pub id: String,
    pub status: String,
}

/// The turn in flight.
#[derive(Debug, PartialEq)]
pub struct Turn {
    /// The user has cancelled the turn; what it still streams is hidden until it is complete.
    pub suppress_stream_events_until_turn_complete: bool,
    pub is_loading: bool,
    pub is_compacting: bool,
    pub offline_mode: bool,
    /// The turn's error already stands in the transcript.
    pub turn_error_posted: bool,
    pub dispatch_started_at: Option<u128>,
    pub turn_started_at: Option<u128>,
    pub runtime_turn_id: Option<String>,
    pub runtime_turn_status: Option<TurnStatus>,
    pub cumulative_turn_duration: u128,
    pub user_scrolled_during_stream: bool,
    pub plan_tool_used_in_turn: bool,
    pub plan_prompt_pending: bool,
}

/// The text that is streaming in.
#[derive(Debug, PartialEq)]
pub struct Stream {
    pub current_streaming_text: String,
    pub streaming_message_index: Option<usize>,
    pub streaming_thinking_active_entry: Option<usize>,
    pub thinking_started_at: Option<u128>,
    pub reasoning_buffer: String,
    pub reasoning_header: Option<String>,
    pub last_reasoning: Option<String>,
    pub translation_enabled: bool,
    /// A client for translations is at hand.
    pub translation_client: bool,
    pub pending_translations: usize,
    pub pending_thinking_translations: usize,
}

/// Tool calls and their approval.
#[derive(Debug, PartialEq)]
pub struct Tools {
    pub pending_tool_uses: Vec<ToolUse>,
    pub pending_subagent_dispatch: Option<String>,
    pub last_fanout_card_index: Option<usize>,
    pub approval_mode: ApprovalMode,
}

/// Sub-agents.
#[derive(Debug, PartialEq)]
pub struct Agents {
    pub agent_progress: AgentProgress,
    pub subagent_cache: Vec<SubAgent>,
    pub agent_activity_started_at: Option<u128>,
}

/// Messages that wait for a turn.
#[derive(Debug, PartialEq)]
pub struct Queue {
    /// How many messages are queued.
    pub queued_messages: usize,
    pub queued_draft: Option<QueuedMessage>,
    /// How many steers are pending.
    pub pending_steers: usize,
    pub submit_pending_steers_after_interrupt: bool,
}

/// The conversation as a whole.
#[derive(Debug, PartialEq)]
pub struct Session {
    pub current_session_id: Option<String>,
    pub session_title: Option<String>,
    pub auto_model: bool,
    pub model: String,
    pub last_effective_model: Option<String>,
    pub mode: AppMode,
    /// The conversation holds messages.
    pub has_messages: bool,
    pub cycle_count: u32,
}

/// Token counts of the session, and those of its last turn.
#[derive(Debug, PartialEq)]
pub struct Tokens {
    pub total_tokens: u32,
    pub total_conversation_tokens: u32,
    pub total_input_tokens: u32,
    pub total_output_tokens: u32,
    pub total_cache_hit_tokens: u32,
    pub total_cache_miss_tokens: u32,
    pub last_prompt_tokens: Option<u32>,
    pub last_completion_tokens: Option<u32>,
    pub last_prompt_cache_hit_tokens: Option<u32>,
    pub last_prompt_cache_miss_tokens: Option<u32>,
    pub last_reasoning_replay_tokens: Option<u32>,
}

/// How stable the cached prompt prefix is.
#[derive(Debug, PartialEq)]
pub struct PrefixCache {
    pub prefix_checks_total: u64,
    pub prefix_change_count: u64,
    pub prefix_stability_pct: Option<u8>,
    pub last_pinned_prefix_hash: Option<String>,
    pub last_prefix_change_desc: Option<String>,
}

/// The composer.
#[derive(Debug, PartialEq)]
pub struct Composer {
    pub input: String,
    pub cursor_position: usize,
    pub slash_menu_selected: usize,
    pub mention_menu_selected: usize,
    pub mention_menu_hidden: bool,
    pub vim_enabled: bool,
    pub vim_mode: VimMode,
    /// How many attachments the composer holds.
    pub attachments: usize,
    pub selected_attachment: Option<usize>,
    pub history_search_active: bool,
    /// One Esc was pressed; the next one opens the backtrack overlay.
    pub backtrack_primed: bool,
    pub bracketed_paste_seen: bool,
    /// The last message is being revised.
    pub edit_in_progress: bool,
    /// The user memory file is in use.
    pub memory_enabled: bool,
}

/// The screen and its panes.
#[derive(Debug, PartialEq)]
pub struct Screen {
    pub use_alt_screen: bool,
    pub use_mouse_capture: bool,
    pub needs_redraw: bool,
    pub force_terminal_repaint: bool,
    /// The view on top of the modal stack; none where the stack is empty.
    pub top_modal: Option<ModalKind>,
    pub sidebar_focus: SidebarFocus,
    pub file_tree_open: bool,
    pub task_panel: Vec<TaskEntry>,
    pub folded_thinking: HashSet<usize>,
    pub collapsed_cells: HashSet<usize>,
    /// How many transcript lines are visible.
    pub last_transcript_visible: usize,
    pub transcript_selection_active: bool,
    pub terminal_paused_at: Option<u128>,
    pub last_focus_recovery: u128,
    pub last_status_frame: u128,
    pub last_task_refresh: u128,
    pub draws_since_last_full_repaint: u64,
    /// After how many draws a finished turn repaints the whole screen.
    pub full_repaint_every: u64,
}

/// The first-run onboarding.
#[derive(Debug, PartialEq)]
pub struct Onboarding {
    pub state: OnboardingState,
    pub api_key_input: String,
    pub api_key_cursor: usize,
    pub trust_mode: bool,
    /// Only the workspace's trust was asked for.
    pub onboarding_workspace_trust_gate: bool,
    pub api_key_env_only: bool,
}

/// What a pass over the engine's events leaves for the main loop.
#[derive(Debug, PartialEq)]
pub struct PollResult {
    pub received_engine_event: bool,
    pub transcript_batch_updated: bool,
    pub queued_to_send: Option<QueuedMessage>,
}

impl PollResult {
    /// What a pass leaves that has met no event.
    pub open spec fn empty_poll() -> PollResult {
        PollResult {
            received_engine_event: false,
            transcript_batch_updated: false,
            queued_to_send: None,
        }
    }

    /// What a pass leaves that has met no event.
    pub fn empty() -> (result: PollResult)
        ensures
            result == PollResult::empty_poll(),
    {
        PollResult {
            received_engine_event: false,
            transcript_batch_updated: false,
            queued_to_send: None,
        }
    }
}

/// The state of the client.
#[derive(Debug, PartialEq)]
pub struct App {
    pub turn: Turn,
    pub stream: Stream,
    pub tools: Tools,
    pub agents: Agents,
    pub queue: Queue,
    pub session: Session,
    pub tokens: Tokens,
    pub prefix: PrefixCache,
    pub composer: Composer,
    pub screen: Screen,
    pub onboarding: Onboarding,
    pub poll: PollResult,
    pub status_message: Option<Notice>,
}

impl App {
    /// The same state with `notice` in the status line.
    pub open spec fn with_status(self, notice: Notice) -> App {
        App { status_message: Some(notice), ..self }
    }

    /// The same state with a transcript that has changed where `changed` says so.
    pub open spec fn batched(self, changed: bool) -> App {
        App {
            poll: PollResult {
                transcript_batch_updated: changed || self.poll.transcript_batch_updated,
                ..self.poll
            },
            ..self
        }
    }

    /// The same state with the screen to be drawn anew.
    pub open spec fn redrawn(self) -> App {
        App { screen: Screen { needs_redraw: true, ..self.screen }, ..self }
    }

    /// The model that the last turn ran on, as far as one is known.
    pub open spec fn effective_model(self) -> String {
        match self.session.last_effective_model {
            Some(model) => model,
            None => self.session.model,
        }
    }

    /// The model that the last turn ran on, as far as one is known.
    pub fn effective_model_name(&self) -> (model: String)
        ensures
            model == self.effective_model(),
    {
        match &self.session.last_effective_model {
            Some(model) => model.clone(),
            None => self.session.model.clone(),
        }
    }

    /// Takes what the pass over the engine's events has left; the next pass starts with nothing.
    pub fn take_poll(&mut self) -> (result: PollResult)
        ensures
            result == old(self).poll,
            *final(self) == (App { poll: PollResult::empty_poll(), ..*old(self) }),
    {
        let mut result: PollResult = PollResult::empty();
        std::mem::swap(&mut result, &mut self.poll);
        result
    }

    /// Notes that the transcript has changed, where `changed` says so.
    pub fn note_batch(&mut self, changed: bool)
        ensures
            *final(self) == old(self).batched(changed),
    {
        if changed {
            self.poll.transcript_batch_updated = true;
        }
    }
}

} // verus!
