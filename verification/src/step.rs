//! What a machine asks of its host, and what the host answers.

use vstd::prelude::*;

use crate::state::{QueuedMessage, SubAgent};

verus! {

/// One step of a machine: the effects that the host carries out, in order, and how to go on.
///
/// Where the machine waits, the host hands back what the last of the effects returned, or the error
/// where it has failed. Only the last effect of a step that waits may fail.
#[derive(Debug, PartialEq)]
pub struct Step<E, N> {
    pub effects: Vec<E>,
    pub next: N,
}

/// Whether `step` asks for `effects` and goes on as `next` says.
pub open spec fn step_is<E, N>(step: Step<E, N>, effects: Seq<E>, next: N) -> bool {
    step.effects@ =~= effects && step.next == next
}

/// The list of one effect.
pub fn one<E>(a: E) -> (effects: Vec<E>)
    ensures
        effects@ == seq![a],
{
    let mut effects = Vec::new();
    effects.push(a);
    effects
}

/// The list of two effects.
pub fn two<E>(a: E, b: E) -> (effects: Vec<E>)
    ensures
        effects@ == seq![a, b],
{
    let mut effects = Vec::new();
    effects.push(a);
    effects.push(b);
    effects
}

/// The list of three effects.
pub fn three<E>(a: E, b: E, c: E) -> (effects: Vec<E>)
    ensures
        effects@ == seq![a, b, c],
{
    let mut effects = Vec::new();
    effects.push(a);
    effects.push(b);
    effects.push(c);
    effects
}

/// What Ctrl+C does.
#[derive(Debug, Clone, Copy, PartialEq, Eq, Structural)]
pub enum CtrlCDisposition {
    CopySelection,
    CancelTurn,
    ConfirmExit,
    ArmExit,
}

/// What Esc does.
#[derive(Debug, Clone, Copy, PartialEq, Eq, Structural)]
pub enum EscapeAction {
    CloseSlashMenu,
    CancelRequest,
    DiscardQueuedDraft,
    ClearInput,
    Noop,
}

/// What an Esc does to the backtrack.
#[derive(Debug, Clone, Copy, PartialEq, Eq, Structural)]
pub enum EscEffect {
    Nothing,
    Prime,
    Cancel,
    OpenOverlay,
}

/// How the external editor was left.
#[derive(Debug, PartialEq)]
pub enum EditorOutcome {
    Edited(String),
    Unchanged,
    Cancelled,
    Failed(String),
}

/// What the terminal had ready while resizes were drained.
#[derive(Debug, Clone, Copy, PartialEq, Eq, Structural)]
pub enum Drained {
    /// No event, or an error while asking for one.
    Nothing,
    Resize { width: u16, height: u16 },
    /// Another event; it is lost.
    OtherEvent,
    ReadError,
}

/// What an effect returned.
#[derive(Debug, PartialEq)]
pub enum Reply {
    /// It returned nothing.
    Done,
    Flag(bool),
    Text(String),
    Maybe(Option<String>),
    Index(usize),
    Count(usize),
    Message(Option<QueuedMessage>),
    Built(QueuedMessage),
    Messages(Vec<QueuedMessage>),
    Agents(Vec<SubAgent>),
    /// The id and the title of a session snapshot.
    Snapshot { id: String, title: String },
    /// A transcript cell's index, and whether it holds thinking.
    Cell(Option<(usize, bool)>),
    CtrlC(CtrlCDisposition),
    Escape(EscapeAction),
    Backtrack(EscEffect),
    Editor(EditorOutcome),
    /// The values of the environment variables `VISUAL` and `EDITOR`.
    EditorVariables { visual: Option<String>, editor: Option<String> },
    Drained(Drained),
    /// Where something was saved, or why it was not.
    Saved(Result<String, String>),
    /// It failed, with this error.
    Failed(String),
}

/// The kinds of reply.
#[derive(Debug, Clone, Copy, PartialEq, Eq, Structural)]
pub enum ReplyKind {
    Done,
    Flag,
    Text,
    Maybe,
    Index,
    Count,
    Message,
    Built,
    Messages,
    Agents,
    Snapshot,
    Cell,
    CtrlC,
    Escape,
    Backtrack,
    Editor,
    EditorVariables,
    Drained,
    Saved,
    Failed,
}

impl Reply {
    /// The kind of the reply.
    pub open spec fn kind(self) -> ReplyKind {
        match self {
            Reply::Done => ReplyKind::Done,
            Reply::Flag(_) => ReplyKind::Flag,
            Reply::Text(_) => ReplyKind::Text,
            Reply::Maybe(_) => ReplyKind::Maybe,
            Reply::Index(_) => ReplyKind::Index,
            Reply::Count(_) => ReplyKind::Count,
            Reply::Message(_) => ReplyKind::Message,
            Reply::Built(_) => ReplyKind::Built,
            Reply::Messages(_) => ReplyKind::Messages,
            Reply::Agents(_) => ReplyKind::Agents,
            Reply::Snapshot { .. } => ReplyKind::Snapshot,
            Reply::Cell(_) => ReplyKind::Cell,
            Reply::CtrlC(_) => ReplyKind::CtrlC,
            Reply::Escape(_) => ReplyKind::Escape,
            Reply::Backtrack(_) => ReplyKind::Backtrack,
            Reply::Editor(_) => ReplyKind::Editor,
            Reply::EditorVariables { .. } => ReplyKind::EditorVariables,
            Reply::Drained(_) => ReplyKind::Drained,
            Reply::Saved(_) => ReplyKind::Saved,
            Reply::Failed(_) => ReplyKind::Failed,
        }
    }
}

} // verus!
