//! What holds of the engine's events over several steps.

use vstd::prelude::*;

use crate::engine::agents;
use crate::engine::dispatch;
use crate::engine::session;
use crate::engine::stream;
use crate::engine::tools;
use crate::engine::turn;
use crate::engine::types::{
    ApprovalPrompt, EngineEffect, EngineEvent, EngineNext, EngineStage, EngineStep, ToolInput, Usage,
};
use crate::notices::Notice;
use crate::state;
use crate::state::{
    App, AppMode, ApprovalMode, QueuedMessage, SubAgent, Tokens, ToolUse, TurnOutcome, TurnStatus,
};
use crate::step::Reply;

verus! {

/// How many steps may still follow a stage, at most.
pub open spec fn rank(stage: EngineStage) -> nat {
    match stage {
        EngineStage::GateSuppressed { .. } => 10,
        EngineStage::GateStale { .. } => 10,
        EngineStage::StartedFlushed => 1,
        EngineStage::DeltaSanitized => 4,
        EngineStage::DeltaFlushed { .. } => 3,
        EngineStage::DeltaCell { .. } => 2,
        EngineStage::DeltaCommitted { .. } => 1,
        EngineStage::CompleteThinking => 6,
        EngineStage::CompleteStashed => 5,
        EngineStage::CompleteRemaining { .. } => 4,
        EngineStage::CompleteEnded { .. } => 3,
        EngineStage::CompleteNeeds { .. } => 2,
        EngineStage::CompleteStatus { .. } => 1,
        EngineStage::ThinkingStarted => 2,
        EngineStage::ThinkingStartedEntry => 1,
        EngineStage::ThinkingSanitized => 4,
        EngineStage::ThinkingHeader { .. } => 3,
        EngineStage::ThinkingEntry { .. } => 2,
        EngineStage::ThinkingCommitted { .. } => 1,
        EngineStage::ThinkingFinalized => 1,
        EngineStage::ThinkingEntryFinalized { .. } => 3,
        EngineStage::ThinkingNeeds { .. } => 2,
        EngineStage::ThinkingStatus { .. } => 1,
        EngineStage::ToolCompacted { .. } => 3,
        EngineStage::ToolSanitized { .. } => 2,
        EngineStage::ToolRefreshed { .. } => 1,
        EngineStage::TurnClosed { .. } => 9,
        EngineStage::TurnRecorded { .. } => 8,
        EngineStage::TurnCosted { .. } => 7,
        EngineStage::TurnNotify { .. } => 6,
        EngineStage::TurnStore { .. } => 5,
        EngineStage::TurnSnapshot { .. } => 4,
        EngineStage::TurnPlanNote { .. } => 3,
        EngineStage::TurnMerged => 2,
        EngineStage::TurnDrained => 2,
        EngineStage::TurnPopped => 1,
        EngineStage::SessionModel => 4,
        EngineStage::SessionStore => 3,
        EngineStage::SessionSnapshot => 1,
        EngineStage::SessionSaved => 2,
        EngineStage::SessionDerived => 1,
        EngineStage::CycleNoted { .. } => 1,
        EngineStage::PauseAsked { .. } => 2,
        EngineStage::PauseDone { .. } => 1,
        EngineStage::ResumeAsked => 2,
        EngineStage::ResumeDone => 1,
        EngineStage::SpawnSummarized { .. } => 1,
        EngineStage::ProgressFriendly { .. } => 2,
        EngineStage::ProgressNoisy { .. } => 1,
        EngineStage::AgentSummarized { .. } => 3,
        EngineStage::AgentNotify { .. } => 2,
        EngineStage::AgentRecaptured => 1,
        EngineStage::AgentsSorted => 3,
        EngineStage::AgentsViewed => 2,
        EngineStage::AgentsUpdated { .. } => 1,
        EngineStage::ApprovalSession { .. } => 3,
        EngineStage::ApprovalDenied { .. } => 2,
        EngineStage::ApprovalPreview { .. } => 1,
        EngineStage::ProgressSummarized { .. } => 1,
    }
}

/// Whether the step ends the event, or goes on in a stage of a rank below `bound` that waits for
/// what the step's last effect returns.
pub open spec fn advances(step: EngineStep, bound: nat) -> bool {
    match step.next {
        EngineNext::Finish => true,
        EngineNext::Fail(_) => true,
        EngineNext::Await(stage) => {
            &&& step.effects@.len() > 0
            &&& step.effects@.last().reply_kind() == stage.awaited_kind()
            &&& step.effects@.last().may_fail() == stage.may_fail()
            &&& rank(stage) < bound
        },
    }
}

/// An event that is not skipped starts with a step that advances.
pub proof fn applying_advances(pre: App, event: EngineEvent, now: u128, post: App, step: EngineStep)
    requires
        dispatch::event_applied(pre, event, now, post, step),
    ensures
        advances(step, 10),
{
}

/// Every event ends after a bounded number of steps, and no step waits for anything but what its
/// last effect returns: the first step of an event advances.
pub proof fn beginning_advances(
    pre: App,
    event: EngineEvent,
    now: u128,
    post: App,
    step: EngineStep,
)
    requires
        dispatch::event_begun(pre, event, now, post, step),
    ensures
        advances(step, 11),
{
    if !pre.turn.suppress_stream_events_until_turn_complete && pre.turn.is_loading {
        applying_advances(dispatch::received(pre), event, now, post, step);
    }
}

/// Whether the stage belongs to a message or to thinking.
pub open spec fn streaming(stage: EngineStage) -> bool {
    ||| stage is StartedFlushed
    ||| stage is DeltaSanitized
    ||| stage is DeltaFlushed
    ||| stage is DeltaCell
    ||| stage is DeltaCommitted
    ||| stage is CompleteThinking
    ||| stage is CompleteStashed
    ||| stage is CompleteRemaining
    ||| stage is CompleteEnded
    ||| stage is CompleteNeeds
    ||| stage is CompleteStatus
    ||| stage is ThinkingStarted
    ||| stage is ThinkingStartedEntry
    ||| stage is ThinkingSanitized
    ||| stage is ThinkingHeader
    ||| stage is ThinkingEntry
    ||| stage is ThinkingCommitted
    ||| stage is ThinkingFinalized
    ||| stage is ThinkingEntryFinalized
    ||| stage is ThinkingNeeds
    ||| stage is ThinkingStatus
}

/// Whether the stage belongs to the end of a turn.
pub open spec fn ending_turn(stage: EngineStage) -> bool {
    ||| stage is TurnClosed
    ||| stage is TurnRecorded
    ||| stage is TurnCosted
    ||| stage is TurnNotify
    ||| stage is TurnStore
    ||| stage is TurnSnapshot
    ||| stage is TurnPlanNote
    ||| stage is TurnMerged
    ||| stage is TurnDrained
    ||| stage is TurnPopped
}

proof fn resuming_stream_advances(
    pre: App,
    stage: EngineStage,
    reply: Reply,
    now: u128,
    post: App,
    step: EngineStep,
)
    requires
        streaming(stage),
        dispatch::event_resumed(pre, stage, reply, now, post, step),
        stage.accepts(reply),
    ensures
        advances(step, rank(stage)),
{
}

proof fn resuming_turn_advances(
    pre: App,
    stage: EngineStage,
    reply: Reply,
    now: u128,
    post: App,
    step: EngineStep,
)
    requires
        ending_turn(stage),
        dispatch::event_resumed(pre, stage, reply, now, post, step),
        stage.accepts(reply),
    ensures
        advances(step, rank(stage)),
{
}

proof fn resuming_gate_advances(
    pre: App,
    event: EngineEvent,
    skip: bool,
    now: u128,
    post: App,
    step: EngineStep,
)
    requires
        dispatch::event_gated(pre, event, skip, now, post, step),
    ensures
        advances(step, 10),
{
    if !skip {
        applying_advances(pre, event, now, post, step);
    }
}

proof fn resuming_others_advances(
    pre: App,
    stage: EngineStage,
    reply: Reply,
    now: u128,
    post: App,
    step: EngineStep,
)
    requires
        !streaming(stage),
        !ending_turn(stage),
        !(stage is GateSuppressed),
        !(stage is GateStale),
        dispatch::event_resumed(pre, stage, reply, now, post, step),
        stage.accepts(reply),
    ensures
        advances(step, rank(stage)),
{
}

/// Every event ends after a bounded number of steps: where the host hands back what the stage waits
/// for, the next step ends the event or goes on in a stage of a lower rank.
pub proof fn resuming_advances(
    pre: App,
    stage: EngineStage,
    reply: Reply,
    now: u128,
    post: App,
    step: EngineStep,
)
    requires
        dispatch::event_resumed(pre, stage, reply, now, post, step),
        stage.accepts(reply),
    ensures
        advances(step, rank(stage)),
{
    if streaming(stage) {
        resuming_stream_advances(pre, stage, reply, now, post, step);
    } else if ending_turn(stage) {
        resuming_turn_advances(pre, stage, reply, now, post, step);
    } else if let (EngineStage::GateSuppressed { event }, Reply::Flag(skip)) = (stage, reply) {
        resuming_gate_advances(pre, event, skip, now, post, step);
    } else if let (EngineStage::GateStale { event }, Reply::Flag(skip)) = (stage, reply) {
        resuming_gate_advances(pre, event, skip, now, post, step);
    } else {
        resuming_others_advances(pre, stage, reply, now, post, step);
    }
}

/// The steps of one event, from the first on. Between two of them the host may change the state as
/// it likes; at each stage it hands back what the stage waits for.
pub struct Handling {
    pub event: EngineEvent,
    pub before: Seq<App>,
    pub after: Seq<App>,
    pub stages: Seq<EngineStage>,
    pub replies: Seq<Reply>,
    pub times: Seq<u128>,
    pub steps: Seq<EngineStep>,
}

impl Handling {
    /// Whether the first step begins the event.
    #[verifier::opaque]
    pub open spec fn begins(self) -> bool {
        dispatch::event_begun(
            self.before[0],
            self.event,
            self.times[0],
            self.after[0],
            self.steps[0],
        )
    }

    /// Whether step `i` resumes the stage that the step before it waits in, with what that stage
    /// waits for.
    #[verifier::opaque]
    pub open spec fn resumes(self, i: int) -> bool {
        &&& self.steps[i - 1].next == EngineNext::Await(self.stages[i])
        &&& self.stages[i].accepts(self.replies[i])
        &&& dispatch::event_resumed(
            self.before[i],
            self.stages[i],
            self.replies[i],
            self.times[i],
            self.after[i],
            self.steps[i],
        )
    }
}

proof fn resumed_step_advances(handling: Handling, i: int)
    requires
        handling.resumes(i),
    ensures
        handling.steps[i - 1].next == EngineNext::Await(handling.stages[i]),
        advances(handling.steps[i], rank(handling.stages[i])),
{
    reveal(Handling::resumes);
    resuming_advances(
        handling.before[i],
        handling.stages[i],
        handling.replies[i],
        handling.times[i],
        handling.after[i],
        handling.steps[i],
    );
}

proof fn step_bound(handling: Handling, n: int)
    requires
        0 <= n <= 10,
        handling.begins(),
        forall|i: int| 0 < i <= n ==> #[trigger] handling.resumes(i),
    ensures
        advances(handling.steps[n], (11 - n) as nat),
    decreases n,
{
    if n == 0 {
        reveal(Handling::begins);
        beginning_advances(
            handling.before[0],
            handling.event,
            handling.times[0],
            handling.after[0],
            handling.steps[0],
        );
    } else {
        step_bound(handling, n - 1);
        assert(handling.resumes(n));
        resumed_step_advances(handling, n);
    }
}

/// Every event ends: however the host changes the state in between, the handling of an event takes
/// eleven steps at most as long as each stage is handed what it waits for.
pub proof fn events_end(handling: Handling)
    requires
        handling.begins(),
        forall|i: int| 0 < i < handling.steps.len() ==> #[trigger] handling.resumes(i),
    ensures
        handling.steps.len() <= 11,
{
    if handling.steps.len() > 11 {
        step_bound(handling, 10);
        assert(handling.resumes(11));
        resumed_step_advances(handling, 11);
    }
}

/// Whether every effect of the step that may fail is heard of: it is the last one, and the stage
/// waits for it as for one that may fail.
pub open spec fn failures_are_heard(step: EngineStep) -> bool {
    forall|i: int| #![trigger step.effects@[i]]
        0 <= i < step.effects@.len() && step.effects@[i].may_fail() ==> {
            &&& i == step.effects@.len() - 1
            &&& step.next matches EngineNext::Await(stage) && stage.may_fail()
        }
}

proof fn applying_hears_failures(
    pre: App,
    event: EngineEvent,
    now: u128,
    post: App,
    step: EngineStep,
)
    requires
        dispatch::event_applied(pre, event, now, post, step),
    ensures
        failures_are_heard(step),
        !(step.next is Fail),
{
}

/// The first step of an event hears of every failure, and ends with none.
pub proof fn beginning_hears_failures(
    pre: App,
    event: EngineEvent,
    now: u128,
    post: App,
    step: EngineStep,
)
    requires
        dispatch::event_begun(pre, event, now, post, step),
    ensures
        failures_are_heard(step),
        !(step.next is Fail),
{
    if !pre.turn.suppress_stream_events_until_turn_complete && pre.turn.is_loading {
        applying_hears_failures(dispatch::received(pre), event, now, post, step);
    }
}

proof fn resuming_stream_hears_failures(
    pre: App,
    stage: EngineStage,
    reply: Reply,
    now: u128,
    post: App,
    step: EngineStep,
)
    requires
        streaming(stage),
        dispatch::event_resumed(pre, stage, reply, now, post, step),
    ensures
        failures_are_heard(step),
        !(step.next is Fail),
{
}

proof fn resuming_turn_hears_failures(
    pre: App,
    stage: EngineStage,
    reply: Reply,
    now: u128,
    post: App,
    step: EngineStep,
)
    requires
        ending_turn(stage),
        dispatch::event_resumed(pre, stage, reply, now, post, step),
    ensures
        failures_are_heard(step),
        !(step.next is Fail),
{
}

proof fn resuming_others_hears_failures(
    pre: App,
    stage: EngineStage,
    reply: Reply,
    now: u128,
    post: App,
    step: EngineStep,
)
    requires
        !streaming(stage),
        !ending_turn(stage),
        !(stage is GateSuppressed),
        !(stage is GateStale),
        dispatch::event_resumed(pre, stage, reply, now, post, step),
    ensures
        failures_are_heard(step),
        step.next is Fail <==> stage.may_fail() && reply is Failed,
        step.next matches EngineNext::Fail(error) ==> reply == Reply::Failed(error) && post == pre
            && step.effects@.len() == 0,
{
}

/// Every later step hears of every failure. The event ends with an error exactly where an effect has
/// failed that may, and with that very error; the state is then left as it was and nothing else is
/// done.
pub proof fn failures_end_events(
    pre: App,
    stage: EngineStage,
    reply: Reply,
    now: u128,
    post: App,
    step: EngineStep,
)
    requires
        dispatch::event_resumed(pre, stage, reply, now, post, step),
    ensures
        failures_are_heard(step),
        step.next is Fail <==> stage.may_fail() && reply is Failed,
        step.next matches EngineNext::Fail(error) ==> reply == Reply::Failed(error) && post == pre
            && step.effects@.len() == 0,
{
    if streaming(stage) {
        resuming_stream_hears_failures(pre, stage, reply, now, post, step);
    } else if ending_turn(stage) {
        resuming_turn_hears_failures(pre, stage, reply, now, post, step);
    } else if let (EngineStage::GateSuppressed { event }, Reply::Flag(skip)) = (stage, reply) {
        if !skip {
            applying_hears_failures(pre, event, now, post, step);
        }
    } else if let (EngineStage::GateStale { event }, Reply::Flag(skip)) = (stage, reply) {
        if !skip {
            applying_hears_failures(pre, event, now, post, step);
        }
    } else if !(stage is GateSuppressed) && !(stage is GateStale) {
        resuming_others_hears_failures(pre, stage, reply, now, post, step);
    }
}

/// What a pass has noted stays noted.
pub open spec fn notes_kept(pre: App, post: App) -> bool {
    &&& pre.poll.received_engine_event ==> post.poll.received_engine_event
    &&& pre.poll.transcript_batch_updated ==> post.poll.transcript_batch_updated
}

proof fn applying_keeps_notes(pre: App, event: EngineEvent, now: u128, post: App, step: EngineStep)
    requires
        dispatch::event_applied(pre, event, now, post, step),
    ensures
        notes_kept(pre, post),
{
}

proof fn resuming_stream_keeps_notes(
    pre: App,
    stage: EngineStage,
    reply: Reply,
    now: u128,
    post: App,
    step: EngineStep,
)
    requires
        streaming(stage),
        dispatch::event_resumed(pre, stage, reply, now, post, step),
    ensures
        notes_kept(pre, post),
{
}

proof fn resuming_others_keeps_notes(
    pre: App,
    stage: EngineStage,
    reply: Reply,
    now: u128,
    post: App,
    step: EngineStep,
)
    requires
        !streaming(stage),
        !(stage is GateSuppressed),
        !(stage is GateStale),
        dispatch::event_resumed(pre, stage, reply, now, post, step),
    ensures
        notes_kept(pre, post),
{
}

/// Every event is noted as received, and what a pass has noted is not forgotten by any later step
/// of it.
pub proof fn notes_stay(
    pre: App,
    event: EngineEvent,
    stage: EngineStage,
    reply: Reply,
    now: u128,
    post: App,
    step: EngineStep,
)
    requires
        dispatch::event_begun(pre, event, now, post, step) || dispatch::event_resumed(
            pre,
            stage,
            reply,
            now,
            post,
            step,
        ),
    ensures
        notes_kept(pre, post),
        dispatch::event_begun(pre, event, now, post, step) ==> post.poll.received_engine_event,
{
    if dispatch::event_begun(pre, event, now, post, step) {
        let seen = dispatch::received(pre);
        if !pre.turn.suppress_stream_events_until_turn_complete && pre.turn.is_loading {
            applying_keeps_notes(seen, event, now, post, step);
        }
    } else if streaming(stage) {
        resuming_stream_keeps_notes(pre, stage, reply, now, post, step);
    } else if let (EngineStage::GateSuppressed { event }, Reply::Flag(skip)) = (stage, reply) {
        if !skip {
            applying_keeps_notes(pre, event, now, post, step);
        }
    } else if let (EngineStage::GateStale { event }, Reply::Flag(skip)) = (stage, reply) {
        if !skip {
            applying_keeps_notes(pre, event, now, post, step);
        }
    } else if !(stage is GateSuppressed) && !(stage is GateStale) {
        resuming_others_keeps_notes(pre, stage, reply, now, post, step);
    }
}

/// While a cancelled turn is hidden, the start of a turn cancels the engine again and leaves the
/// turn hidden.
pub proof fn late_start_is_cancelled(
    pre: App,
    turn_id: String,
    now: u128,
    post: App,
    step: EngineStep,
)
    requires
        pre.turn.suppress_stream_events_until_turn_complete,
        dispatch::event_begun(pre, EngineEvent::TurnStarted { turn_id }, now, post, step),
    ensures
        post == dispatch::received(pre),
        post.turn.suppress_stream_events_until_turn_complete,
        stream::finishes(step, seq![EngineEffect::CancelEngine]),
{
}

/// An event that the host has skipped leaves no trace but that it was received: whether the turn is
/// hidden or none is running, the host is asked first, and nothing is done before it answers.
pub proof fn skipped_event_leaves_no_trace(
    first: App,
    event: EngineEvent,
    now: u128,
    middle: App,
    asked: EngineStep,
    later: u128,
    last: App,
    answered: EngineStep,
)
    requires
        first.turn.suppress_stream_events_until_turn_complete || !first.turn.is_loading,
        !(first.turn.suppress_stream_events_until_turn_complete && event is TurnStarted),
        dispatch::event_begun(first, event, now, middle, asked),
        asked.next matches EngineNext::Await(stage) && dispatch::event_resumed(
            middle,
            stage,
            Reply::Flag(true),
            later,
            last,
            answered,
        ),
    ensures
        last == dispatch::received(first),
        asked.effects@.len() == 1,
        stream::finishes(answered, seq![]),
{
}

/// The turn's time runs from its start to its end, and is added to that of the turns before.
pub proof fn turn_time_adds_up(
    idle: App,
    turn_id: String,
    start: u128,
    running: App,
    started: EngineStep,
    ending: App,
    usage: Usage,
    status: TurnOutcome,
    error: Option<String>,
    cancelled: bool,
    end: u128,
    ended: App,
    closed: EngineStep,
)
    requires
        turn::turn_started(idle, turn_id, start, running, started),
        ending.turn == running.turn,
        turn::turn_closed(ending, usage, status, error, cancelled, end, ended, closed),
        start <= end,
        idle.turn.cumulative_turn_duration + (end - start) <= state::MAX_DURATION,
    ensures
        running.turn.is_loading,
        running.turn.runtime_turn_status == Some(TurnStatus::InProgress),
        !ended.turn.is_loading,
        ended.turn.turn_started_at is None,
        ended.turn.runtime_turn_status == Some(TurnStatus::Ended(status)),
        ended.turn.cumulative_turn_duration == idle.turn.cumulative_turn_duration + (end - start),
{
}

/// Counting a turn never lowers a total, and without cache telemetry the cache totals stand still.
pub proof fn totals_never_fall(tokens: Tokens, usage: Usage)
    ensures
        ({
            let counted = turn::tokens_counted(tokens, usage);
            &&& counted.total_tokens >= tokens.total_tokens
            &&& counted.total_conversation_tokens >= tokens.total_conversation_tokens
            &&& counted.total_input_tokens >= tokens.total_input_tokens
            &&& counted.total_output_tokens >= tokens.total_output_tokens
            &&& counted.total_cache_hit_tokens >= tokens.total_cache_hit_tokens
            &&& counted.total_cache_miss_tokens >= tokens.total_cache_miss_tokens
            &&& usage.prompt_cache_hit_tokens is None ==> counted.total_cache_hit_tokens
                == tokens.total_cache_hit_tokens && counted.total_cache_miss_tokens
                == tokens.total_cache_miss_tokens
        }),
{
}

/// Thinking that is still active when its message is complete is finalized and put by before
/// anything of the message goes out.
pub proof fn thinking_precedes_message(
    first: App,
    middle: App,
    finalizing: EngineStep,
    resumed: App,
    changed: bool,
    now: u128,
    last: App,
    stashing: EngineStep,
)
    requires
        first.stream.streaming_thinking_active_entry is Some,
        stream::message_complete(first, middle, finalizing),
        dispatch::event_resumed(
            resumed,
            EngineStage::CompleteThinking,
            Reply::Flag(changed),
            now,
            last,
            stashing,
        ),
    ensures
        stream::awaits(
            finalizing,
            seq![EngineEffect::FinalizeCurrentThinking],
            EngineStage::CompleteThinking,
        ),
        stream::awaits(
            stashing,
            seq![EngineEffect::StashReasoning],
            EngineStage::CompleteStashed,
        ),
{
}

/// Whatever becomes of its translation, complete thinking ends with its reasoning put by for the
/// message.
pub proof fn thinking_is_put_by(
    pre: App,
    stage: EngineStage,
    reply: Reply,
    now: u128,
    post: App,
    step: EngineStep,
)
    requires
        stage is ThinkingFinalized || stage is ThinkingEntryFinalized || stage is ThinkingNeeds
            || stage is ThinkingStatus,
        dispatch::event_resumed(pre, stage, reply, now, post, step),
        step.next is Finish,
    ensures
        step.effects@.len() > 0,
        step.effects@.last() == EngineEffect::StashReasoning,
{
}

/// Whether the step passes a message's parts on: to the transcript, to a translation, or to the next
/// stage on the way there.
pub open spec fn passes_on(
    step: EngineStep,
    text: String,
    thinking: Option<String>,
    tool_uses: Vec<ToolUse>,
) -> bool {
    match step.next {
        EngineNext::Finish => {
            &&& step.effects@.len() == 1
            &&& match step.effects@[0] {
                EngineEffect::PushAssistantMessage { text: t, thinking: r, tool_uses: u } => t
                    == text && r == thinking && u == tool_uses,
                EngineEffect::SpawnTranslation { original_text: t, thinking: r, tool_uses: u, .. } =>
                    t == text && r == thinking && u == tool_uses,
                _ => false,
            }
        },
        EngineNext::Await(stage) => match stage {
            EngineStage::CompleteNeeds { text: t, thinking: r, tool_uses: u, .. } => t == text && r
                == thinking && u == tool_uses,
            EngineStage::CompleteStatus { text: t, thinking: r, tool_uses: u, .. } => t == text && r
                == thinking && u == tool_uses,
            _ => false,
        },
        EngineNext::Fail(_) => false,
    }
}

/// A message goes out with the text that has streamed in, with the reasoning that was put by and
/// with the tool calls that were pending; afterwards neither belongs to any later message.
pub proof fn message_takes_all(pre: App, index: Option<usize>, post: App, step: EngineStep)
    requires
        stream::complete_message(pre, index, post, step),
    ensures
        passes_on(
            step,
            pre.stream.current_streaming_text,
            pre.stream.last_reasoning,
            pre.tools.pending_tool_uses,
        ),
        post.stream.last_reasoning is None,
        post.tools.pending_tool_uses@.len() == 0,
{
}

/// On its way through the translation a message loses nothing.
pub proof fn translation_loses_nothing(
    pre: App,
    stage: EngineStage,
    reply: Reply,
    now: u128,
    post: App,
    step: EngineStep,
)
    requires
        dispatch::event_resumed(pre, stage, reply, now, post, step),
    ensures
        match stage {
            EngineStage::CompleteNeeds { text, thinking, tool_uses, .. } => passes_on(
                step,
                text,
                thinking,
                tool_uses,
            ),
            EngineStage::CompleteStatus { text, thinking, tool_uses, .. } => passes_on(
                step,
                text,
                thinking,
                tool_uses,
            ),
            _ => true,
        },
{
}

/// The pieces one after the other.
pub open spec fn concatenated(pieces: Seq<String>) -> Seq<char>
    decreases pieces.len(),
{
    if pieces.len() == 0 {
        seq![]
    } else {
        concatenated(pieces.drop_last()) + pieces.last()@
    }
}

/// The text after piece upon piece has been added to it.
proof fn pieces_add_up(
    start: Seq<char>,
    pieces: Seq<String>,
    before: Seq<Seq<char>>,
    after: Seq<Seq<char>>,
)
    requires
        before.len() == pieces.len(),
        after.len() == pieces.len(),
        forall|i: int| #![trigger pieces[i]]
            0 <= i < pieces.len() ==> after[i] == before[i] + pieces[i]@ && before[i] == (if i == 0 {
                start
            } else {
                after[i - 1]
            }),
    ensures
        (if pieces.len() == 0 {
            start
        } else {
            after.last()
        }) == start + concatenated(pieces),
    decreases pieces.len(),
{
    if pieces.len() > 0 {
        let n = pieces.len() - 1;
        let front = pieces.drop_last();
        assert forall|i: int| #![trigger front[i]] 0 <= i < n implies after.drop_last()[i]
            == before.drop_last()[i] + front[i]@ && before.drop_last()[i] == (if i == 0 {
            start
        } else {
            after.drop_last()[i - 1]
        }) by {
            assert(front[i] == pieces[i]);
        }
        pieces_add_up(start, front, before.drop_last(), after.drop_last());
        assert(pieces[n] == pieces.last());
        assert(after[n] == before[n] + pieces[n]@);
        assert(start + concatenated(front) + pieces[n]@ =~= start + concatenated(pieces));
    } else {
        assert(start + concatenated(pieces) =~= start);
    }
}

/// One piece of a message, from its sanitized text on. Where it is the first of its message, the
/// running tools are settled before it is added; the host leaves the text alone meanwhile.
pub struct Piece {
    pub text: String,
    pub before: App,
    pub sanitized: App,
    pub first: EngineStep,
    pub settled: App,
    pub second: EngineStep,
    pub after: App,
}

impl Piece {
    /// Whether the steps are those of the piece.
    #[verifier::opaque]
    pub open spec fn streams(self) -> bool {
        &&& stream::delta_sanitized(self.before, self.text, self.sanitized, self.first)
        &&& if self.first.next == EngineNext::Await(
            EngineStage::DeltaFlushed { sanitized: self.text },
        ) {
            &&& self.settled.stream.current_streaming_text
                == self.sanitized.stream.current_streaming_text
            &&& stream::delta_flushed(self.settled, self.text, self.after, self.second)
        } else {
            self.after == self.sanitized
        }
    }
}

proof fn piece_is_added(piece: Piece)
    requires
        piece.streams(),
    ensures
        piece.after.stream.current_streaming_text@
            == piece.before.stream.current_streaming_text@ + piece.text@,
{
    reveal(Piece::streams);
    let text = piece.before.stream.current_streaming_text@;
    if piece.text@.len() == 0 {
        assert(text + piece.text@ =~= text);
    }
}

/// The pieces of a message from the state `begun` on.
pub struct Streaming {
    pub begun: App,
    pub pieces: Seq<Piece>,
}

impl Streaming {
    /// The state after the first `n` pieces.
    pub open spec fn state(self, n: int) -> App {
        if n <= 0 {
            self.begun
        } else {
            self.pieces[n - 1].after
        }
    }

    /// Whether piece `i` follows upon the text that those before it have left.
    pub open spec fn follows(self, i: int) -> bool {
        &&& self.pieces[i].streams()
        &&& self.pieces[i].before.stream.current_streaming_text == self.state(
            i,
        ).stream.current_streaming_text
    }

    /// Whether the pieces follow upon each other.
    pub open spec fn well_formed(self) -> bool {
        forall|i: int| 0 <= i < self.pieces.len() ==> #[trigger] self.follows(i)
    }

    /// The texts of the pieces.
    pub open spec fn texts(self) -> Seq<String> {
        self.pieces.map_values(|piece: Piece| piece.text)
    }

    /// The text after the first `n` pieces.
    pub open spec fn text(self, n: int) -> Seq<char> {
        self.state(n).stream.current_streaming_text@
    }
}

proof fn text_grows(streaming: Streaming, n: int)
    requires
        streaming.well_formed(),
        0 <= n <= streaming.pieces.len(),
    ensures
        streaming.text(n) == streaming.text(0) + concatenated(streaming.texts().take(n)),
    decreases n,
{
    let taken = streaming.texts().take(n);
    if n > 0 {
        text_grows(streaming, n - 1);
        assert(streaming.follows(n - 1));
        piece_is_added(streaming.pieces[n - 1]);
        assert(taken.drop_last() =~= streaming.texts().take(n - 1));
        assert(taken.last() == streaming.pieces[n - 1].text);
        assert(streaming.text(0) + concatenated(taken) =~= streaming.text(0) + concatenated(
            taken.drop_last(),
        ) + taken.last()@);
    } else {
        assert(streaming.text(0) + concatenated(taken) =~= streaming.text(0));
    }
}

/// What streams in is added to the message: after pieces of it have come in, empty ones among them,
/// with the text left alone in between, the text is what it was and the pieces one after the other.
pub proof fn streamed_text_is_kept(streaming: Streaming)
    requires
        streaming.well_formed(),
    ensures
        streaming.text(streaming.pieces.len() as int) == streaming.text(0) + concatenated(
            streaming.texts(),
        ),
{
    let n = streaming.pieces.len() as int;
    text_grows(streaming, n);
    assert(streaming.texts().take(n) =~= streaming.texts());
}

/// What streams in is what a fresh message holds: after a message has started and pieces of it have
/// come in, with the text left alone in between, the text is the pieces one after the other.
pub proof fn fresh_message_is_its_pieces(idle: App, started: EngineStep, streaming: Streaming)
    requires
        stream::started_flushed(idle, streaming.begun, started),
        streaming.well_formed(),
    ensures
        streaming.text(streaming.pieces.len() as int) == concatenated(streaming.texts()),
{
    streamed_text_is_kept(streaming);
    let text = concatenated(streaming.texts());
    assert(streaming.text(0) + text =~= text);
}

/// What streams in as thinking is added to the reasoning: after pieces of it have come in, with the
/// buffer left alone in between, the buffer holds what it held and the pieces one after the other.
pub proof fn streamed_thinking_is_kept(
    begun: App,
    pieces: Seq<String>,
    before: Seq<App>,
    after: Seq<App>,
    steps: Seq<EngineStep>,
)
    requires
        before.len() == pieces.len(),
        after.len() == pieces.len(),
        steps.len() == pieces.len(),
        forall|i: int| #![trigger pieces[i]]
            0 <= i < pieces.len() ==> stream::thinking_sanitized(
                before[i],
                pieces[i],
                after[i],
                steps[i],
            ) && before[i].stream.reasoning_buffer == (if i == 0 {
                begun
            } else {
                after[i - 1]
            }).stream.reasoning_buffer,
    ensures
        (if pieces.len() == 0 {
            begun
        } else {
            after.last()
        }).stream.reasoning_buffer@ == begun.stream.reasoning_buffer@ + concatenated(pieces),
{
    let text = |app: App| app.stream.reasoning_buffer@;
    let old_texts = before.map_values(text);
    let new_texts = after.map_values(text);
    let start = begun.stream.reasoning_buffer@;
    assert forall|i: int| #![trigger pieces[i]] 0 <= i < pieces.len() implies new_texts[i]
        == old_texts[i] + pieces[i]@ && old_texts[i] == (if i == 0 {
        start
    } else {
        new_texts[i - 1]
    }) by {
        assert(old_texts[i] == text(before[i]));
        assert(new_texts[i] == text(after[i]));
        if i > 0 {
            assert(new_texts[i - 1] == text(after[i - 1]));
        }
        if pieces[i]@.len() == 0 {
            assert(old_texts[i] + pieces[i]@ =~= old_texts[i]);
        }
    }
    pieces_add_up(start, pieces, old_texts, new_texts);
}

/// A tool call that needs approval is answered once: it is approved, denied or shown to the user.
/// It is approved only where it was not denied for the session, and then only by an approval for
/// the session or by the automatic mode; what was denied for the session is denied in every mode.
pub proof fn approvals_are_heeded(
    pre: App,
    prompt: ApprovalPrompt,
    session_approved: bool,
    session_denied: bool,
    post: App,
    step: EngineStep,
)
    requires
        tools::approval_denied(pre, prompt, session_approved, session_denied, post, step),
    ensures
        step.effects@.contains(EngineEffect::ApproveToolCall(prompt.id)) <==> !session_denied && (
        session_approved || pre.tools.approval_mode == ApprovalMode::Auto),
        step.effects@.contains(EngineEffect::DenyToolCall(prompt.id)) <==> session_denied || (
        !session_approved && pre.tools.approval_mode == ApprovalMode::Never),
        !session_denied && !session_approved && pre.tools.approval_mode == ApprovalMode::Suggest
            ==> (step.next matches EngineNext::Await(stage) && stage is ApprovalPreview)
            || step.effects@.last() is ShowApproval,
{
    match tools::approval_verdict(session_denied, session_approved, pre.tools.approval_mode) {
        tools::ApprovalVerdict::Ask => {
            assert(forall|i: int|
                0 <= i < step.effects@.len() ==> !(#[trigger] step.effects@[i] is ApproveToolCall)
                    && !(step.effects@[i] is DenyToolCall));
        },
        _ => {
            assert(step.effects@[1] == step.effects@.last());
        },
    }
}

/// A tool call that the sandbox has denied runs again with full access only in the automatic
/// approval mode; otherwise the user is asked.
pub proof fn full_access_needs_auto(
    pre: App,
    tool_id: String,
    tool_name: String,
    command: Option<String>,
    reason: String,
    network: bool,
    write: bool,
    post: App,
    step: EngineStep,
)
    requires
        tools::elevation_required(
            pre,
            tool_id,
            tool_name,
            command,
            reason,
            network,
            write,
            post,
            step,
        ),
    ensures
        step.effects@.contains(EngineEffect::RetryWithFullAccess(tool_id))
            <==> pre.tools.approval_mode == ApprovalMode::Auto,
        pre.tools.approval_mode != ApprovalMode::Auto ==> step.effects@.last() is ShowElevation,
        step.effects@[0] is Audit,
{
    if pre.tools.approval_mode == ApprovalMode::Auto {
        assert(step.effects@[2] == EngineEffect::RetryWithFullAccess(tool_id));
    }
}

/// The user is shown the input that a tool call was started with, where its id is new.
pub proof fn started_input_is_shown(
    pre: App,
    id: String,
    name: String,
    input: serde_json::Value,
    post: App,
    step: EngineStep,
)
    requires
        tools::tool_call_started(pre, id, name, input, post, step),
        tools::pending_input(pre.tools.pending_tool_uses@, id@) is None,
    ensures
        tools::shown_input(post.tools.pending_tool_uses@, id@) == ToolInput::Given(input),
{
    pushed_input_is_found(pre.tools.pending_tool_uses@, ToolUse { id, name, input });
}

proof fn pushed_input_is_found(uses: Seq<ToolUse>, tool_use: ToolUse)
    requires
        tools::pending_input(uses, tool_use.id@) is None,
    ensures
        tools::pending_input(uses.push(tool_use), tool_use.id@) == Some(tool_use.input),
    decreases uses.len(),
{
    let pushed = uses.push(tool_use);
    if uses.len() > 0 {
        assert(pushed.skip(1) =~= uses.skip(1).push(tool_use));
        assert(pushed[0] == uses[0]);
        pushed_input_is_found(uses.skip(1), tool_use);
    } else {
        assert(pushed[0] == tool_use);
    }
}

/// A turn's error that the transcript shows already is not shown again.
pub proof fn error_is_shown_once(
    pre: App,
    usage: Usage,
    status: TurnOutcome,
    error: Option<String>,
    elapsed: u128,
    post: App,
    step: EngineStep,
)
    requires
        turn::turn_recorded(pre, usage, status, error, elapsed, post, step),
    ensures
        pre.turn.turn_error_posted || error is None ==> post.status_message == pre.status_message,
        !pre.turn.turn_error_posted && error is Some ==> post.status_message == Some(
            Notice::TurnFailed(error->0),
        ),
{
}

/// Progress that says nothing new never replaces what is shown of a sub-agent.
pub proof fn noise_replaces_nothing(
    pre: App,
    id: String,
    display: String,
    now: u128,
    post: App,
    step: EngineStep,
)
    requires
        agents::progress_noisy(pre, id, display, true, now, post, step),
    ensures
        forall|agent: Seq<char>| #[trigger]
            pre.agents.agent_progress@.contains_key(agent)
                ==> post.agents.agent_progress@.contains_key(agent)
                && post.agents.agent_progress@[agent] == pre.agents.agent_progress@[agent],
        post.agents.agent_progress@.contains_key(id@),
{
}

/// A sub-agent is shown from its start to its end, and the others are left alone by both.
pub proof fn agent_comes_and_goes(
    first: App,
    id: String,
    summary: String,
    start: u128,
    working: App,
    started: EngineStep,
    result: String,
    end: u128,
    last: App,
    completed: EngineStep,
)
    requires
        agents::spawn_summarized(first, id, summary, start, working, started),
        agents::agent_complete(working, id, result, end, last, completed),
    ensures
        working.agents.agent_progress@.contains_key(id@),
        last.agents.agent_progress@ == first.agents.agent_progress@.remove(id@),
{
    assert(last.agents.agent_progress@ =~= first.agents.agent_progress@.remove(id@));
}

/// The list of sub-agents holds those of this session and no others.
pub proof fn list_holds_this_session(
    pre: App,
    sorted: Seq<SubAgent>,
    post: App,
    step: EngineStep,
)
    requires
        agents::agents_sorted(pre, sorted, post, step),
    ensures
        forall|i: int| #![trigger post.agents.subagent_cache@[i]]
            0 <= i < post.agents.subagent_cache@.len()
                ==> !post.agents.subagent_cache@[i].from_prior_session && sorted.contains(
                post.agents.subagent_cache@[i],
            ),
        forall|i: int| #![trigger sorted[i]]
            0 <= i < sorted.len() && !sorted[i].from_prior_session
                ==> post.agents.subagent_cache@.contains(sorted[i]),
{
    let kept = |a: SubAgent| !a.from_prior_session;
    let list = sorted.filter(kept);
    assert forall|i: int| #![trigger list[i]] 0 <= i < list.len() implies
        !list[i].from_prior_session && sorted.contains(list[i]) by {
        sorted.lemma_filter_pred(kept, i);
        sorted.lemma_filter_contains_rev(kept, list[i]);
    }
    assert forall|i: int| #![trigger sorted[i]] 0 <= i < sorted.len()
        && !sorted[i].from_prior_session implies list.contains(sorted[i]) by {
        sorted.lemma_filter_contains(kept, i);
    }
}

/// Pausing a paused terminal and resuming a running one change nothing.
pub proof fn pausing_twice_is_pausing_once(
    pre: App,
    ack: bool,
    post: App,
    step: EngineStep,
)
    ensures
        session::pause_asked(pre, ack, true, post, step) ==> post == pre && stream::finishes(
            step,
            session::acknowledged(ack),
        ),
        session::resume_asked(pre, false, post, step) ==> post == pre && stream::finishes(
            step,
            seq![],
        ),
{
}

/// The prompt for a plan's next step comes only in plan mode, after a turn that made a plan, while
/// none is pending and nothing is queued; and a plan counts for one turn only.
pub proof fn plan_prompt_is_due(
    pre: App,
    status: TurnOutcome,
    effects: Seq<EngineEffect>,
    post: App,
    step: EngineStep,
)
    requires
        turn::turn_saved(pre, status, effects, post, step),
    ensures
        step.next matches EngineNext::Await(stage) && stage is TurnPlanNote ==> pre.session.mode
            == AppMode::Plan && pre.turn.plan_tool_used_in_turn && !pre.turn.plan_prompt_pending
            && pre.queue.queued_messages == 0 && pre.queue.queued_draft is None
            && post.turn.plan_prompt_pending,
        !turn::plan_is_due(pre) ==> !post.turn.plan_tool_used_in_turn,
{
}

/// After a failed turn every pending steer is queued, in order, before the next message is taken.
pub proof fn steers_are_not_lost(
    pre: App,
    steers: Seq<QueuedMessage>,
    post: App,
    step: EngineStep,
)
    requires
        turn::turn_drained(pre, steers, post, step),
    ensures
        step.effects@.len() >= steers.len(),
        forall|i: int| #![trigger steers[i]]
            0 <= i < steers.len() ==> step.effects@[i] == EngineEffect::QueueMessage(steers[i]),
{
}

/// Steers that were merged after an interruption are sent next, whatever is queued.
pub proof fn merged_steers_go_first(
    pre: App,
    merged: QueuedMessage,
    post: App,
    step: EngineStep,
)
    requires
        turn::turn_merged(pre, Some(merged), post, step),
    ensures
        post.poll.queued_to_send == Some(merged),
        stream::finishes(step, seq![]),
{
}

/// A tool that hands work to several sub-agents hands work to sub-agents.
pub proof fn fanout_is_dispatch(name: Seq<char>)
    ensures
        tools::fans_out(name) ==> tools::dispatches(name),
{
}

} // verus!
