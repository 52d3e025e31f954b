//! Engine events, the effects of handling them, and where a handling may wait.

use vstd::prelude::*;

use crate::notices::Notice;
use crate::state::{AppMode, QueuedMessage, SubAgent, ToolUse, TurnOutcome};
use crate::step::{Reply, ReplyKind, Step};

verus! {

/// The tokens that a turn used.
#[derive(Debug, Clone, Copy, PartialEq, Eq, Structural)]
pub struct Usage {
    pub input_tokens: u32,
    pub output_tokens: u32,
    pub prompt_cache_hit_tokens: Option<u32>,
    pub prompt_cache_miss_tokens: Option<u32>,
    pub reasoning_replay_tokens: Option<u32>,
}

impl Usage {
    /// Whether the turn's tokens can be counted together.
    pub open spec fn countable(self) -> bool {
        self.input_tokens + self.output_tokens <= u32::MAX
    }

    /// Whether the turn's tokens can be counted together.
    pub fn is_countable(&self) -> (b: bool)
        ensures
            b == self.countable(),
    {
        self.input_tokens <= u32::MAX - self.output_tokens
    }
}

/// What a turn leaves in the cache telemetry.
#[derive(Debug, Clone, Copy, PartialEq, Eq, Structural)]
pub struct TurnCacheRecord {
    pub input_tokens: u32,
    pub output_tokens: u32,
    pub cache_hit_tokens: Option<u32>,
    pub cache_miss_tokens: Option<u32>,
    pub reasoning_replay_tokens: Option<u32>,
    pub recorded_at: u128,
}

/// What the engine reports. Parts that the machine does not read stay with the host.
#[derive(Debug, PartialEq)]
pub enum EngineEvent {
    MessageStarted,
    MessageDelta { content: String },
    MessageComplete,
    ThinkingStarted,
    ThinkingDelta { content: String },
    ThinkingComplete,
    ToolCallStarted { id: String, name: String, input: serde_json::Value },
    /// `error` is the text of the tool's error; without one the host holds the output.
    ToolCallComplete { id: String, name: String, error: Option<String> },
    TurnStarted { turn_id: String },
    TurnComplete { usage: Usage, status: TurnOutcome, error: Option<String> },
    Error,
    Status { message: String },
    SessionUpdated { session_id: String, model: String },
    CompactionStarted { message: String },
    CompactionCompleted { message: String },
    CompactionFailed { message: String },
    CycleAdvanced { from: u32, to: u32, briefing_tokens: u64 },
    CoherenceState,
    PrefixCacheChange {
        description: String,
        stability_pct: u8,
        changed: bool,
        pinned_combined_hash: String,
    },
    CapacityDecision,
    CapacityIntervention { action: String, before_prompt_tokens: u64, after_prompt_tokens: u64 },
    CapacityMemoryPersistFailed { action: String, error: String },
    /// `ack` tells whether someone waits for an acknowledgement.
    PauseEvents { ack: bool },
    ResumeEvents,
    AgentSpawned { id: String, prompt: String },
    AgentProgress { id: String, status: String },
    AgentComplete { id: String, result: String },
    AgentList { agents: Vec<SubAgent> },
    SubAgentMailbox,
    ApprovalRequired {
        id: String,
        tool_name: String,
        description: String,
        approval_key: String,
        approval_grouping_key: String,
    },
    UserInputRequired { id: String },
    ToolCallProgress { id: String, output: String },
    ElevationRequired {
        tool_id: String,
        tool_name: String,
        command: Option<String>,
        denial_reason: String,
        blocked_network: bool,
        blocked_write: bool,
    },
}

/// An entry of the log of sensitive events.
#[derive(Debug, PartialEq)]
pub enum AuditRecord {
    AutoDenySession { tool_name: String, approval_key: String, session_id: Option<String> },
    AutoApprove {
        tool_name: String,
        approval_key: String,
        session_id: Option<String>,
        mode: AppMode,
    },
    AutoDeny { tool_name: String, session_id: Option<String>, mode: AppMode },
    Prompted {
        tool_name: String,
        description: String,
        session_id: Option<String>,
        mode: AppMode,
    },
    AutoElevate {
        tool_name: String,
        tool_id: String,
        reason: String,
        session_id: Option<String>,
    },
    PromptElevation {
        tool_name: String,
        tool_id: String,
        reason: String,
        session_id: Option<String>,
    },
}

impl AuditRecord {
    /// The name of the logged event.
    pub open spec fn name_text(self) -> Seq<char> {
        match self {
            AuditRecord::AutoDenySession { .. } => "tool.approval.auto_deny_session"@,
            AuditRecord::AutoApprove { .. } => "tool.approval.auto_approve"@,
            AuditRecord::AutoDeny { .. } => "tool.approval.auto_deny"@,
            AuditRecord::Prompted { .. } => "tool.approval.prompted"@,
            AuditRecord::AutoElevate { .. } => "tool.sandbox.auto_elevate"@,
            AuditRecord::PromptElevation { .. } => "tool.sandbox.prompt_elevation"@,
        }
    }

    /// The name of the logged event.
    pub fn name(&self) -> (s: &'static str)
        ensures
            s@ == self.name_text(),
    {
        match self {
            AuditRecord::AutoDenySession { .. } => "tool.approval.auto_deny_session",
            AuditRecord::AutoApprove { .. } => "tool.approval.auto_approve",
            AuditRecord::AutoDeny { .. } => "tool.approval.auto_deny",
            AuditRecord::Prompted { .. } => "tool.approval.prompted",
            AuditRecord::AutoElevate { .. } => "tool.sandbox.auto_elevate",
            AuditRecord::PromptElevation { .. } => "tool.sandbox.prompt_elevation",
        }
    }
}

/// The input of a tool call, as the user is shown it.
#[derive(Debug, PartialEq)]
pub enum ToolInput {
    /// The input that the call was started with.
    Given(serde_json::Value),
    /// An object without entries.
    EmptyObject,
}

/// What the host carries out while an engine event is handled. An effect that returns something
/// says so, and so does one that may fail; the host's own parts of the event are meant where an
/// effect names none.
#[derive(Debug, PartialEq)]
pub enum EngineEffect {
    /// Cancel the engine's turn.
    CancelEngine,
    /// Flag: whether the event belongs to a turn that the user has cancelled.
    AskSuppressed,
    /// Flag: whether the event is a leftover of a stream while no turn is running.
    AskStale,
    /// Commit the group of running tools to the transcript.
    FlushActiveCell,
    /// Reset the streaming state.
    ResetStreaming,
    /// Start the text block 0 of the streaming state.
    StartText,
    /// Text: the chunk without control sequences.
    Sanitize(String),
    /// Index: the transcript cell that the assistant's text streams into.
    EnsureAssistantCell,
    /// Push content into block 0 of the streaming state.
    PushContent(String),
    /// Text: what block 0 of the streaming state commits.
    CommitText,
    /// Text: what was left in block 0 of the streaming state.
    FinalizeBlockText,
    AppendStreamingText { index: usize, text: String },
    /// The assistant cell no longer streams.
    EndAssistantStreaming { index: usize },
    BumpHistoryCell { index: usize },
    /// Flag: whether a thinking entry was finalized.
    FinalizeCurrentThinking,
    /// Move the reasoning buffer into the last reasoning.
    StashReasoning,
    /// Flag: whether the transcript changed.
    StartThinkingBlock,
    /// Index: the active thinking entry.
    EnsureThinkingEntry,
    SetThinkingPlaceholder { index: usize },
    /// Maybe: the header of the reasoning buffer.
    ExtractReasoningHeader,
    AppendThinking { index: usize, text: String },
    /// Flag: whether a thinking entry was finalized.
    FinalizeThinkingEntry { duration: Option<u128> },
    /// Flag: whether the text is in another language than the user's.
    AskNeedsTranslation(String),
    /// Text: the localized line for a translation in progress.
    TranslationStatus,
    /// Text: the localized line for a translation of thinking in progress.
    ThinkingTranslationStatus,
    SpawnTranslation {
        history_index: Option<usize>,
        original_text: String,
        model: String,
        thinking: Option<String>,
        tool_uses: Vec<ToolUse>,
    },
    SpawnThinkingTranslation { original: String, model: String },
    /// Put the original thinking in the place of its placeholder.
    ReplacePendingTranslation { original: String },
    PushAssistantMessage { text: String, thinking: Option<String>, tool_uses: Vec<ToolUse> },
    HandleToolCallStarted { id: String, name: String, input: serde_json::Value },
    /// Text: the tool's output, shortened for the model's context.
    CompactToolResult { model: String, name: String },
    /// Append a user message that holds the tool result, with neither an error flag nor blocks.
    PushToolResult { tool_use_id: String, content: String },
    HandleToolCallComplete { id: String, name: String },
    RefreshTaskPanel,
    /// Ask the engine for its sub-agents.
    ListSubAgents,
    FinalizeActiveCellInterrupted,
    FinalizeAssistantInterrupted,
    PushTurnCacheRecord(TurnCacheRecord),
    /// Flag: whether the turn's cost is known.
    EstimateTurnCost { model: String, usage: Usage },
    /// Add the estimated cost to the session.
    AccrueTurnCost,
    /// Flag: whether desktop notifications are configured.
    AskNotifications,
    NotifyTurnDone { elapsed: u128 },
    /// Flag: whether the store of sessions could be opened.
    OpenSessionStore,
    /// Snapshot: the session as it stands.
    BuildSnapshot,
    PersistSnapshot,
    PersistCheckpoint,
    ClearCheckpoint,
    /// Add the note on a plan's next step to the transcript.
    AddPlanNote,
    ShowPlanPrompt,
    /// Message: the pending steers in one.
    MergePendingSteers,
    /// Messages: the pending steers, which are then gone.
    DrainPendingSteers,
    QueueMessage(QueuedMessage),
    /// Message: the next queued message, which is then gone.
    PopQueuedMessage,
    /// Show the event's error.
    ApplyEngineError,
    /// Take over the event's messages and system prompt.
    InstallMessages,
    SetModelSelection(String),
    UpdateCompactionBudget,
    /// Take over the event's workspace.
    InstallWorkspace,
    /// Maybe: the title of the saved session with this id.
    LoadSavedTitle(String),
    /// Maybe: a title made from the messages.
    DeriveTitle,
    /// Keep the event's briefing.
    RecordBriefing,
    AddSystemMessage(Notice),
    /// Take over the event's coherence state.
    SetCoherence,
    /// Flag: whether terminal events are paused.
    AskPaused,
    /// Hand the terminal over. It may fail.
    PauseTerminal,
    /// Stop reading terminal events.
    PauseBroker,
    Acknowledge,
    /// Take the terminal back. It may fail.
    ResumeTerminal,
    /// Read terminal events again.
    ResumeBroker,
    /// Text: a one-line summary.
    Summarize(String),
    /// Text: the progress in words for the user.
    FriendlyProgress { id: String, status: String },
    /// Flag: whether the progress says nothing new.
    AskNoisyProgress(String),
    NotifyAgentDone { id: String, result: String, elapsed: u128 },
    /// Agents: the same agents in display order.
    SortAgents(Vec<SubAgent>),
    /// Bring the agents' activity in line with the cached list.
    ReconcileAgents,
    /// Count: how many agents the view shows.
    BuildAgentView(Vec<SubAgent>),
    /// Flag: whether an open view took the agents over.
    UpdateAgentView,
    HandleMailbox,
    /// Flag: whether the user has approved such calls for the session.
    AskSessionApproved { tool_name: String, approval_grouping_key: String },
    /// Flag: whether the user has denied this call for the session.
    AskSessionDenied { approval_key: String },
    Audit(AuditRecord),
    DenyToolCall(String),
    ApproveToolCall(String),
    AddPatchPreview(ToolInput),
    ShowApproval {
        id: String,
        tool_name: String,
        description: String,
        input: ToolInput,
        approval_key: String,
    },
    ShowUserInput { id: String },
    /// Run the tool call again without a sandbox.
    RetryWithFullAccess(String),
    ShowElevation {
        tool_id: String,
        command: String,
        denial_reason: String,
        blocked_network: bool,
        blocked_write: bool,
    },
}

/// An approval request that the user is asked about.
#[derive(Debug, PartialEq)]
pub struct ApprovalPrompt {
    pub id: String,
    pub tool_name: String,
    pub description: String,
    pub approval_key: String,
}

/// Where the handling of an engine event waits for the host.
#[derive(Debug, PartialEq)]
pub enum EngineStage {
    GateSuppressed { event: EngineEvent },
    GateStale { event: EngineEvent },
    StartedFlushed,
    DeltaSanitized,
    DeltaFlushed { sanitized: String },
    DeltaCell { sanitized: String },
    DeltaCommitted { index: usize },
    CompleteThinking,
    CompleteStashed,
    CompleteRemaining { index: usize },
    CompleteEnded { index: usize },
    CompleteNeeds {
        history_index: Option<usize>,
        text: String,
        thinking: Option<String>,
        tool_uses: Vec<ToolUse>,
    },
    CompleteStatus {
        history_index: Option<usize>,
        text: String,
        thinking: Option<String>,
        tool_uses: Vec<ToolUse>,
    },
    ThinkingStarted,
    ThinkingStartedEntry,
    ThinkingSanitized,
    ThinkingHeader { sanitized: String },
    ThinkingEntry { sanitized: String },
    ThinkingCommitted { index: usize },
    ThinkingFinalized,
    ThinkingEntryFinalized { original: String },
    ThinkingNeeds { original: String },
    ThinkingStatus { original: String },
    ToolCompacted { id: String, name: String },
    ToolSanitized { id: String, name: String },
    ToolRefreshed { name: String },
    TurnClosed {
        usage: Usage,
        status: TurnOutcome,
        error: Option<String>,
        was_locally_cancelled: bool,
    },
    TurnRecorded { usage: Usage, status: TurnOutcome, error: Option<String>, elapsed: u128 },
    TurnCosted { status: TurnOutcome, elapsed: u128 },
    TurnNotify { status: TurnOutcome, elapsed: u128 },
    TurnStore { status: TurnOutcome },
    TurnSnapshot { status: TurnOutcome },
    TurnPlanNote { status: TurnOutcome },
    TurnMerged,
    TurnDrained,
    TurnPopped,
    SessionModel,
    SessionStore,
    SessionSnapshot,
    SessionSaved,
    SessionDerived,
    CycleNoted { from: u32, to: u32, briefing_tokens: u64 },
    PauseAsked { ack: bool },
    PauseDone { ack: bool },
    ResumeAsked,
    ResumeDone,
    SpawnSummarized { id: String },
    ProgressFriendly { id: String, status: String },
    ProgressNoisy { id: String, display: String },
    AgentSummarized { id: String, result: String, elapsed: u128, others: bool },
    AgentNotify { id: String, result: String, elapsed: u128 },
    AgentRecaptured,
    AgentsSorted,
    AgentsViewed,
    AgentsUpdated { count: usize },
    ApprovalSession { prompt: ApprovalPrompt },
    ApprovalDenied { prompt: ApprovalPrompt, session_approved: bool },
    ApprovalPreview { prompt: ApprovalPrompt, input: ToolInput },
    ProgressSummarized { id: String },
}

impl EngineEffect {
    /// What the effect returns.
    pub open spec fn reply_kind(self) -> ReplyKind {
        match self {
            EngineEffect::AskSuppressed => ReplyKind::Flag,
            EngineEffect::AskStale => ReplyKind::Flag,
            EngineEffect::FinalizeCurrentThinking => ReplyKind::Flag,
            EngineEffect::StartThinkingBlock => ReplyKind::Flag,
            EngineEffect::FinalizeThinkingEntry { .. } => ReplyKind::Flag,
            EngineEffect::AskNeedsTranslation(..) => ReplyKind::Flag,
            EngineEffect::EstimateTurnCost { .. } => ReplyKind::Flag,
            EngineEffect::AskNotifications => ReplyKind::Flag,
            EngineEffect::OpenSessionStore => ReplyKind::Flag,
            EngineEffect::AskPaused => ReplyKind::Flag,
            EngineEffect::AskNoisyProgress(..) => ReplyKind::Flag,
            EngineEffect::UpdateAgentView => ReplyKind::Flag,
            EngineEffect::AskSessionApproved { .. } => ReplyKind::Flag,
            EngineEffect::AskSessionDenied { .. } => ReplyKind::Flag,
            EngineEffect::Sanitize(..) => ReplyKind::Text,
            EngineEffect::CommitText => ReplyKind::Text,
            EngineEffect::FinalizeBlockText => ReplyKind::Text,
            EngineEffect::TranslationStatus => ReplyKind::Text,
            EngineEffect::ThinkingTranslationStatus => ReplyKind::Text,
            EngineEffect::CompactToolResult { .. } => ReplyKind::Text,
            EngineEffect::Summarize(..) => ReplyKind::Text,
            EngineEffect::FriendlyProgress { .. } => ReplyKind::Text,
            EngineEffect::EnsureAssistantCell => ReplyKind::Index,
            EngineEffect::EnsureThinkingEntry => ReplyKind::Index,
            EngineEffect::ExtractReasoningHeader => ReplyKind::Maybe,
            EngineEffect::LoadSavedTitle(..) => ReplyKind::Maybe,
            EngineEffect::DeriveTitle => ReplyKind::Maybe,
            EngineEffect::BuildSnapshot => ReplyKind::Snapshot,
            EngineEffect::MergePendingSteers => ReplyKind::Message,
            EngineEffect::PopQueuedMessage => ReplyKind::Message,
            EngineEffect::DrainPendingSteers => ReplyKind::Messages,
            EngineEffect::SortAgents(..) => ReplyKind::Agents,
            EngineEffect::BuildAgentView(..) => ReplyKind::Count,
            _ => ReplyKind::Done,
        }
    }

    /// Whether the effect may fail.
    pub open spec fn may_fail(self) -> bool {
        match self {
            EngineEffect::PauseTerminal => true,
            EngineEffect::ResumeTerminal => true,
            _ => false,
        }
    }
}

impl EngineStage {
    /// What the stage waits for.
    pub open spec fn awaited_kind(self) -> ReplyKind {
        match self {
            EngineStage::GateSuppressed { .. } => ReplyKind::Flag,
            EngineStage::GateStale { .. } => ReplyKind::Flag,
            EngineStage::CompleteThinking => ReplyKind::Flag,
            EngineStage::CompleteNeeds { .. } => ReplyKind::Flag,
            EngineStage::ThinkingStarted => ReplyKind::Flag,
            EngineStage::ThinkingFinalized => ReplyKind::Flag,
            EngineStage::ThinkingEntryFinalized { .. } => ReplyKind::Flag,
            EngineStage::ThinkingNeeds { .. } => ReplyKind::Flag,
            EngineStage::TurnCosted { .. } => ReplyKind::Flag,
            EngineStage::TurnNotify { .. } => ReplyKind::Flag,
            EngineStage::TurnStore { .. } => ReplyKind::Flag,
            EngineStage::SessionStore => ReplyKind::Flag,
            EngineStage::PauseAsked { .. } => ReplyKind::Flag,
            EngineStage::ResumeAsked => ReplyKind::Flag,
            EngineStage::ProgressNoisy { .. } => ReplyKind::Flag,
            EngineStage::AgentNotify { .. } => ReplyKind::Flag,
            EngineStage::AgentsUpdated { .. } => ReplyKind::Flag,
            EngineStage::ApprovalSession { .. } => ReplyKind::Flag,
            EngineStage::ApprovalDenied { .. } => ReplyKind::Flag,
            EngineStage::DeltaSanitized => ReplyKind::Text,
            EngineStage::DeltaCommitted { .. } => ReplyKind::Text,
            EngineStage::CompleteRemaining { .. } => ReplyKind::Text,
            EngineStage::CompleteStatus { .. } => ReplyKind::Text,
            EngineStage::ThinkingSanitized => ReplyKind::Text,
            EngineStage::ThinkingCommitted { .. } => ReplyKind::Text,
            EngineStage::ThinkingStatus { .. } => ReplyKind::Text,
            EngineStage::ToolCompacted { .. } => ReplyKind::Text,
            EngineStage::ToolSanitized { .. } => ReplyKind::Text,
            EngineStage::SpawnSummarized { .. } => ReplyKind::Text,
            EngineStage::ProgressFriendly { .. } => ReplyKind::Text,
            EngineStage::AgentSummarized { .. } => ReplyKind::Text,
            EngineStage::ProgressSummarized { .. } => ReplyKind::Text,
            EngineStage::DeltaCell { .. } => ReplyKind::Index,
            EngineStage::ThinkingStartedEntry => ReplyKind::Index,
            EngineStage::ThinkingEntry { .. } => ReplyKind::Index,
            EngineStage::ThinkingHeader { .. } => ReplyKind::Maybe,
            EngineStage::SessionSaved => ReplyKind::Maybe,
            EngineStage::SessionDerived => ReplyKind::Maybe,
            EngineStage::TurnSnapshot { .. } => ReplyKind::Snapshot,
            EngineStage::SessionSnapshot => ReplyKind::Snapshot,
            EngineStage::TurnMerged => ReplyKind::Message,
            EngineStage::TurnPopped => ReplyKind::Message,
            EngineStage::TurnDrained => ReplyKind::Messages,
            EngineStage::AgentsSorted => ReplyKind::Agents,
            EngineStage::AgentsViewed => ReplyKind::Count,
            _ => ReplyKind::Done,
        }
    }

    /// Whether the stage waits for an effect that may fail.
    pub open spec fn may_fail(self) -> bool {
        match self {
            EngineStage::PauseDone { .. } => true,
            EngineStage::ResumeDone => true,
            EngineStage::AgentRecaptured => true,
            _ => false,
        }
    }

    /// Whether the reply is one that the stage waits for.
    pub open spec fn accepts(self, reply: Reply) -> bool {
        ||| reply.kind() == self.awaited_kind()
        ||| reply is Failed && self.may_fail()
    }
}

impl EngineStage {
    /// Whether the numbers that the stage carries can be counted.
    pub open spec fn countable(self) -> bool {
        match self {
            EngineStage::TurnClosed { usage, .. } => usage.countable(),
            _ => true,
        }
    }
}

/// How the handling of an engine event goes on.
#[derive(Debug, PartialEq)]
pub enum EngineNext {
    Await(EngineStage),
    Finish,
    /// The event could not be handled; the text is the error.
    Fail(String),
}

/// One step of the handling of an engine event.
pub type EngineStep = Step<EngineEffect, EngineNext>;

} // verus!
