//! The effects of handling a key, and where the handling may wait.

use vstd::prelude::*;

use crate::keys::{Key, KeyCode, Modifiers};
use crate::notices::{SidebarFocus, Toast};
use crate::state::{AppMode, QueuedMessage};
use crate::step;
use crate::step::{Reply, ReplyKind, Step};

verus! {

/// What the host carries out while a key is handled. An effect that returns something says so, and
/// so does one that may fail.
#[derive(Debug, PartialEq)]
pub enum KeyEffect {
    /// Take the top view off the modal stack.
    PopView,
    PushHelp,
    /// Flag: whether anything was killed.
    KillToEndOfLine,
    PushCommandPalette,
    /// Build the file tree of the workspace.
    BuildFileTree,
    DropFileTree,
    OpenFilePicker,
    OpenShellControl,
    OpenContextInspector,
    /// Hand the key to the top view; the host keeps the view's events.
    ModalKey(Key),
    /// Flag: whether one of the view's events ends the program. It may fail.
    HandleViewEvents,
    TreeUp,
    TreeDown,
    /// Maybe: the path of the file that was picked; none where a directory was opened or closed.
    TreeActivate,
    InsertText(String),
    InsertChar(char),
    HistorySearchKey(Key),
    StartHistorySearch,
    FlushPasteBurst { now: u128 },
    OpenToolDetails,
    /// Maybe: the text that a paste burst held back.
    FlushBeforeModified,
    /// Flag: whether the key belongs to a paste burst.
    BurstKey { key: Key, now: u128 },
    /// Count: the entries of the slash menu that are visible.
    CountSlashMenu,
    /// Count: the entries of the mention menu that are visible.
    CountMentionMenu,
    ResetBacktrack,
    /// Flag: whether a pager was opened for the selection.
    SelectionPager,
    /// Flag: whether a pager was opened for the last message.
    LastMessagePager,
    /// Flag: whether a pager was opened for the activity.
    ActivityPager,
    /// Cell: the focused transcript cell.
    DetailTargetCell,
    MarkHistoryUpdated,
    ToggleLiveTranscript,
    SetSidebarFocus(SidebarFocus),
    SetMode(AppMode),
    /// The shortcut on Alt+4 with these modifiers.
    AltFour(Modifiers),
    /// The shortcut on Alt+0 with these modifiers.
    AltZero(Modifiers),
    PushSessionPicker,
    CopySelection,
    ClearSelection,
    /// CtrlC: what Ctrl+C does now.
    AskCtrlC,
    CancelEngine,
    /// Mark the turn as cancelled by the user.
    MarkCancelled,
    /// Flag: whether the last prompt went back into the empty composer.
    RestorePrompt,
    ArmQuit,
    DisarmQuit,
    /// Tell the engine to shut down.
    ShutdownEngine,
    VimEnterNormal,
    VimKey(char),
    /// Flag: whether an attachment was selected.
    ClearAttachmentSelection,
    /// Escape: what Esc does now.
    AskEscape { slash_menu_open: bool },
    CloseSlashMenu,
    ClearInputRecoverable,
    /// Count: the user's cells in the transcript.
    CountUserCells,
    /// Backtrack: what the Esc does to the backtrack.
    BacktrackEsc { total: usize },
    OpenBacktrackOverlay,
    ScrollUp(usize),
    ScrollDown(usize),
    ScrollToTop,
    ScrollToBottom,
    PreviousSlashEntry { entries: usize },
    NextSlashEntry { entries: usize },
    PreviousAttachment,
    NextAttachment,
    /// Flag: whether a selected attachment was removed.
    RemoveAttachment,
    /// Move the last queued message into the draft.
    PopLastQueued,
    /// Flag: whether the mention menu's entry was applied.
    ApplyMention,
    /// Flag: whether the slash menu's entry was applied.
    ApplySlash { for_editing: bool },
    /// Flag: whether a slash command was completed.
    CompleteCommand,
    /// Flag: whether a file mention was completed.
    CompleteMention,
    /// Flag: whether the draft was queued for the next turn.
    QueueDraft,
    CycleMode,
    CycleEffort,
    /// Tell the engine which model to use.
    SetEngineModel(String),
    /// Flag: whether there was a tool cell to jump to.
    JumpTool { forward: bool },
    /// Maybe: the composer's input, which is then gone.
    SubmitInput,
    /// Maybe: the composer's input, where Enter submits it.
    ComposerEnter,
    /// Flag: whether the input looks like a slash command.
    AskSlashCommand(String),
    /// Flag: whether the command ends the program. It may fail.
    ExecuteCommand(String),
    /// Built: the input as a message.
    BuildMessage(String),
    /// Maybe: the error where the running turn could not be steered.
    SteerMessage(QueuedMessage),
    QueueMessage(QueuedMessage),
    /// Send the message. It may fail.
    SubmitOrSteer(QueuedMessage),
    /// Flag: whether the input answers the plan prompt. It may fail.
    PlanChoice(String),
    /// Flag: whether the input is a note for the memory file.
    AskMemoryNote(String),
    AddMemoryNote(String),
    /// Undo the last exchange.
    Undo,
    /// Send the session as it stands to the engine.
    SyncSession,
    Erase(Erasure),
    MoveWordBackward,
    MoveLeft,
    MoveWordForward,
    MoveRight,
    MoveLineStart,
    MoveLineEnd,
    MoveEnd,
    SelectAll,
    /// Editor: how the external editor was left that was opened on this text.
    RunEditor(String),
    /// EditorVariables: the environment's editors.
    ReadEditorVariables,
    HistoryArrow { key: Key, slash_menu_open: bool, mention_menu_open: bool },
    StashDraft(String),
    ShowToast(Toast),
    /// Flag: whether there was a cell to copy.
    CopyFocusedCell,
    /// Flag: whether there was thinking to copy.
    CopyThinkingCell,
    Yank,
    PasteFromClipboard,
    ClearPasteBurstWindow,
}

/// What an erasing key takes away.
#[derive(Debug, Clone, Copy, PartialEq, Eq, Structural)]
pub enum Erasure {
    CharBackward,
    CharForward,
    WordBackward,
    WordForward,
    ToLineStart,
}

/// How many entries the two menus over the composer show; a menu without entries is closed.
#[derive(Debug, Clone, Copy, PartialEq, Eq, Structural)]
pub struct Menus {
    pub slash: usize,
    pub mention: usize,
}

/// Where the handling of a key waits for the host.
#[derive(Debug, PartialEq)]
pub enum KeyStage {
    Unprimed { key: Key, now: u128 },
    Killed,
    ViewEvents,
    TreeActivated,
    BurstFlushed { key: Key, now: u128 },
    PendingFlushed { key: Key },
    BurstKeyed { key: Key },
    SlashCounted { key: Key },
    MentionCounted { key: Key, slash: usize },
    EnterSelection { key: Key, menus: Menus },
    EnterMention { key: Key, menus: Menus },
    EnterLooks { key: Key },
    EnterApplied { key: Key },
    EnterInput { key: Key },
    EnterPlan { key: Key, input: String },
    EnterMemory { key: Key, input: String },
    EnterCommand { key: Key, input: String },
    EnterBuilt { key: Key },
    EnterUndone { key: Key, message: QueuedMessage },
    Submitted { key: Key },
    CommandRun { key: Key },
    /// `always` steers even where no turn is running.
    SteerInput { key: Key, always: bool },
    SteerLooks { key: Key, always: bool, input: String },
    SteerBuilt { key: Key, always: bool },
    Steered { key: Key, message: QueuedMessage },
    SteerQueued { key: Key, error: String },
    EscAttachment { key: Key, menus: Menus },
    EscAction { key: Key },
    EscCancelled { key: Key },
    EscCounted { key: Key },
    EscBacktracked { key: Key },
    TabMention { key: Key, menus: Menus },
    TabSlash { key: Key },
    TabCommand { key: Key },
    TabFile { key: Key },
    TabQueue { key: Key },
    TabMode { key: Key, prior: String },
    Erasing { key: Key, erasure: Erasure },
    Paged { key: Key, menus: Menus },
    FoldCell,
    FoldMarked,
    Focused { focus: SidebarFocus },
    CtrlCAsked { key: Key },
    CtrlCCancelled { key: Key },
    CtrlCRestored { key: Key },
    Jumped { key: Key, menus: Menus, forward: bool },
    Edited { key: Key },
    EditorNamed { key: Key },
    CellCopied { key: Key },
    ThinkingCopied { key: Key },
}

impl KeyEffect {
    /// What the effect returns.
    pub open spec fn reply_kind(self) -> ReplyKind {
        match self {
            KeyEffect::KillToEndOfLine => ReplyKind::Flag,
            KeyEffect::HandleViewEvents => ReplyKind::Flag,
            KeyEffect::BurstKey { .. } => ReplyKind::Flag,
            KeyEffect::SelectionPager => ReplyKind::Flag,
            KeyEffect::LastMessagePager => ReplyKind::Flag,
            KeyEffect::ActivityPager => ReplyKind::Flag,
            KeyEffect::RestorePrompt => ReplyKind::Flag,
            KeyEffect::ClearAttachmentSelection => ReplyKind::Flag,
            KeyEffect::RemoveAttachment => ReplyKind::Flag,
            KeyEffect::ApplyMention => ReplyKind::Flag,
            KeyEffect::ApplySlash { .. } => ReplyKind::Flag,
            KeyEffect::CompleteCommand => ReplyKind::Flag,
            KeyEffect::CompleteMention => ReplyKind::Flag,
            KeyEffect::QueueDraft => ReplyKind::Flag,
            KeyEffect::JumpTool { .. } => ReplyKind::Flag,
            KeyEffect::AskSlashCommand(..) => ReplyKind::Flag,
            KeyEffect::ExecuteCommand(..) => ReplyKind::Flag,
            KeyEffect::PlanChoice(..) => ReplyKind::Flag,
            KeyEffect::AskMemoryNote(..) => ReplyKind::Flag,
            KeyEffect::CopyFocusedCell => ReplyKind::Flag,
            KeyEffect::CopyThinkingCell => ReplyKind::Flag,
            KeyEffect::TreeActivate => ReplyKind::Maybe,
            KeyEffect::FlushBeforeModified => ReplyKind::Maybe,
            KeyEffect::SubmitInput => ReplyKind::Maybe,
            KeyEffect::ComposerEnter => ReplyKind::Maybe,
            KeyEffect::SteerMessage(..) => ReplyKind::Maybe,
            KeyEffect::CountSlashMenu => ReplyKind::Count,
            KeyEffect::CountMentionMenu => ReplyKind::Count,
            KeyEffect::CountUserCells => ReplyKind::Count,
            KeyEffect::DetailTargetCell => ReplyKind::Cell,
            KeyEffect::AskCtrlC => ReplyKind::CtrlC,
            KeyEffect::AskEscape { .. } => ReplyKind::Escape,
            KeyEffect::BacktrackEsc { .. } => ReplyKind::Backtrack,
            KeyEffect::BuildMessage(..) => ReplyKind::Built,
            KeyEffect::RunEditor(..) => ReplyKind::Editor,
            KeyEffect::ReadEditorVariables => ReplyKind::EditorVariables,
            _ => ReplyKind::Done,
        }
    }

    /// Whether the effect may fail.
    pub open spec fn may_fail(self) -> bool {
        match self {
            KeyEffect::HandleViewEvents => true,
            KeyEffect::ExecuteCommand(_) => true,
            KeyEffect::SubmitOrSteer(_) => true,
            KeyEffect::PlanChoice(_) => true,
            _ => false,
        }
    }
}

impl KeyStage {
    /// What the stage waits for.
    pub open spec fn awaited_kind(self) -> ReplyKind {
        match self {
            KeyStage::Killed => ReplyKind::Flag,
            KeyStage::ViewEvents => ReplyKind::Flag,
            KeyStage::BurstKeyed { .. } => ReplyKind::Flag,
            KeyStage::EnterSelection { .. } => ReplyKind::Flag,
            KeyStage::EnterMention { .. } => ReplyKind::Flag,
            KeyStage::EnterLooks { .. } => ReplyKind::Flag,
            KeyStage::EnterApplied { .. } => ReplyKind::Flag,
            KeyStage::EnterPlan { .. } => ReplyKind::Flag,
            KeyStage::EnterMemory { .. } => ReplyKind::Flag,
            KeyStage::EnterCommand { .. } => ReplyKind::Flag,
            KeyStage::CommandRun { .. } => ReplyKind::Flag,
            KeyStage::SteerLooks { .. } => ReplyKind::Flag,
            KeyStage::EscAttachment { .. } => ReplyKind::Flag,
            KeyStage::TabMention { .. } => ReplyKind::Flag,
            KeyStage::TabSlash { .. } => ReplyKind::Flag,
            KeyStage::TabCommand { .. } => ReplyKind::Flag,
            KeyStage::TabFile { .. } => ReplyKind::Flag,
            KeyStage::TabQueue { .. } => ReplyKind::Flag,
            KeyStage::Erasing { .. } => ReplyKind::Flag,
            KeyStage::Paged { .. } => ReplyKind::Flag,
            KeyStage::CtrlCRestored { .. } => ReplyKind::Flag,
            KeyStage::Jumped { .. } => ReplyKind::Flag,
            KeyStage::CellCopied { .. } => ReplyKind::Flag,
            KeyStage::ThinkingCopied { .. } => ReplyKind::Flag,
            KeyStage::TreeActivated => ReplyKind::Maybe,
            KeyStage::PendingFlushed { .. } => ReplyKind::Maybe,
            KeyStage::EnterInput { .. } => ReplyKind::Maybe,
            KeyStage::SteerInput { .. } => ReplyKind::Maybe,
            KeyStage::Steered { .. } => ReplyKind::Maybe,
            KeyStage::SlashCounted { .. } => ReplyKind::Count,
            KeyStage::MentionCounted { .. } => ReplyKind::Count,
            KeyStage::EscCounted { .. } => ReplyKind::Count,
            KeyStage::EnterBuilt { .. } => ReplyKind::Built,
            KeyStage::SteerBuilt { .. } => ReplyKind::Built,
            KeyStage::EscAction { .. } => ReplyKind::Escape,
            KeyStage::EscBacktracked { .. } => ReplyKind::Backtrack,
            KeyStage::FoldCell => ReplyKind::Cell,
            KeyStage::CtrlCAsked { .. } => ReplyKind::CtrlC,
            KeyStage::Edited { .. } => ReplyKind::Editor,
            KeyStage::EditorNamed { .. } => ReplyKind::EditorVariables,
            _ => ReplyKind::Done,
        }
    }

    /// Whether the stage waits for an effect that may fail.
    pub open spec fn may_fail(self) -> bool {
        match self {
            KeyStage::ViewEvents => true,
            KeyStage::EnterPlan { .. } => true,
            KeyStage::CommandRun { .. } => true,
            KeyStage::Submitted { .. } => true,
            _ => false,
        }
    }

    /// Whether the reply is one that the stage waits for.
    pub open spec fn accepts(self, reply: Reply) -> bool {
        ||| reply.kind() == self.awaited_kind()
        ||| reply is Failed && self.may_fail()
    }
}

/// What the caller should do after a key was handled.
#[derive(Debug, Clone, Copy, PartialEq, Eq, Structural)]
pub enum KeyEventAction {
    /// The key was consumed; the event loop goes on to the next event.
    Handled,
    /// The event loop returns.
    Return,
    /// No binding consumed the key; the caller continues as usual.
    Continue,
}

/// How the handling of a key goes on.
#[derive(Debug, PartialEq)]
pub enum KeyNext {
    Await(KeyStage),
    Finish(KeyEventAction),
    /// The key could not be handled; the text is the error.
    Fail(String),
}

/// One step of the handling of a key.
pub type KeyStep = Step<KeyEffect, KeyNext>;

/// What a step does: its effects, and how it goes on.
pub open spec fn does(step: KeyStep, plan: (Seq<KeyEffect>, KeyNext)) -> bool {
    step::step_is(step, plan.0, plan.1)
}

/// The key is consumed after `effects`.
pub open spec fn handled(effects: Seq<KeyEffect>) -> (Seq<KeyEffect>, KeyNext) {
    (effects, KeyNext::Finish(KeyEventAction::Handled))
}

/// The event loop returns after `effects`.
pub open spec fn leaves(effects: Seq<KeyEffect>) -> (Seq<KeyEffect>, KeyNext) {
    (effects, KeyNext::Finish(KeyEventAction::Return))
}

/// The handling goes on in `stage` after `effects`.
pub open spec fn waits(effects: Seq<KeyEffect>, stage: KeyStage) -> (Seq<KeyEffect>, KeyNext) {
    (effects, KeyNext::Await(stage))
}

/// The handling ends with an error.
pub open spec fn fails(error: String) -> (Seq<KeyEffect>, KeyNext) {
    (seq![], KeyNext::Fail(error))
}

/// Whether the key may be part of pasted text.
pub open spec fn burst_key(key: Key) -> bool {
    key.plain_char() || key.code == KeyCode::Enter
}

/// The effects of a key that was looked up in the bindings: one that is no part of pasted text ends
/// a paste burst.
pub open spec fn ending_burst(key: Key, effects: Seq<KeyEffect>) -> Seq<KeyEffect> {
    if burst_key(key) {
        effects
    } else {
        effects.push(KeyEffect::ClearPasteBurstWindow)
    }
}

/// The key is consumed by its binding after `effects`.
pub open spec fn consumes(key: Key, effects: Seq<KeyEffect>) -> (Seq<KeyEffect>, KeyNext) {
    handled(ending_burst(key, effects))
}

/// The key has no binding, and the caller continues.
pub open spec fn ignores(key: Key) -> (Seq<KeyEffect>, KeyNext) {
    (ending_burst(key, seq![]), KeyNext::Finish(KeyEventAction::Continue))
}

/// The key is consumed after `effects`.
pub fn handle(effects: Vec<KeyEffect>) -> (step: KeyStep)
    ensures
        does(step, handled(effects@)),
{
    Step { effects, next: KeyNext::Finish(KeyEventAction::Handled) }
}

/// The event loop returns after `effects`.
pub fn leave(effects: Vec<KeyEffect>) -> (step: KeyStep)
    ensures
        does(step, leaves(effects@)),
{
    Step { effects, next: KeyNext::Finish(KeyEventAction::Return) }
}

/// The handling goes on in `stage` after `effects`.
pub fn wait(effects: Vec<KeyEffect>, stage: KeyStage) -> (step: KeyStep)
    ensures
        does(step, waits(effects@, stage)),
{
    Step { effects, next: KeyNext::Await(stage) }
}

/// The handling ends with an error.
pub fn fail(error: String) -> (step: KeyStep)
    ensures
        does(step, fails(error)),
{
    Step { effects: Vec::new(), next: KeyNext::Fail(error) }
}

/// Whether the key may be part of pasted text.
pub fn is_burst_key(key: Key) -> (b: bool)
    ensures
        b == burst_key(key),
{
    key.is_plain_char() || key.code == KeyCode::Enter
}

/// Ends a paste burst after `effects`, where the key is no part of pasted text.
fn end_burst(key: Key, effects: Vec<KeyEffect>) -> (ended: Vec<KeyEffect>)
    ensures
        ended@ == ending_burst(key, effects@),
{
    let mut effects = effects;
    if !is_burst_key(key) {
        effects.push(KeyEffect::ClearPasteBurstWindow);
    }
    effects
}

/// The key is consumed by its binding after `effects`.
pub fn consume(key: Key, effects: Vec<KeyEffect>) -> (step: KeyStep)
    ensures
        does(step, consumes(key, effects@)),
{
    handle(end_burst(key, effects))
}

/// The key has no binding, and the caller continues.
pub fn ignore(key: Key) -> (step: KeyStep)
    ensures
        does(step, ignores(key)),
{
    Step {
        effects: end_burst(key, Vec::new()),
        next: KeyNext::Finish(KeyEventAction::Continue),
    }
}

} // verus!
