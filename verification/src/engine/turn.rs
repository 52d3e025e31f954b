//! The start and the end of a turn.

use vstd::prelude::*;

use crate::engine::stream;
use crate::engine::stream::{finish, wait};
use crate::engine::types::{EngineEffect, EngineStage, EngineStep, TurnCacheRecord, Usage};
use crate::notices::Notice;
use crate::state;
use crate::state::{
    add_durations, time_since, App, AppMode, ModalKind, PollResult, QueuedMessage, Screen, Session,
    Stream, Tokens, ToolUse, Tools, Turn, TurnOutcome, TurnStatus,
};
use crate::step::{one, two};

verus! {

// A turn starts: whatever an earlier one has left of its stream is gone. The hint on how to cancel
// stands in the status line only where nothing else does.

pub open spec fn turn_started(
    pre: App,
    turn_id: String,
    now: u128,
    post: App,
    step: EngineStep,
) -> bool {
    &&& post.stream.current_streaming_text@ == Seq::<char>::empty()
    &&& post.stream.reasoning_buffer@ == Seq::<char>::empty()
    &&& post.tools.pending_tool_uses@ == Seq::<ToolUse>::empty()
    &&& post == App {
        turn: Turn {
            suppress_stream_events_until_turn_complete: false,
            is_loading: true,
            offline_mode: false,
            turn_error_posted: false,
            dispatch_started_at: None,
            turn_started_at: Some(now),
            runtime_turn_id: Some(turn_id),
            runtime_turn_status: Some(TurnStatus::InProgress),
            plan_tool_used_in_turn: false,
            ..pre.turn
        },
        stream: Stream {
            current_streaming_text: post.stream.current_streaming_text,
            streaming_message_index: None,
            streaming_thinking_active_entry: None,
            reasoning_buffer: post.stream.reasoning_buffer,
            reasoning_header: None,
            last_reasoning: None,
            ..pre.stream
        },
        tools: Tools { pending_tool_uses: post.tools.pending_tool_uses, ..pre.tools },
        screen: Screen { last_status_frame: now, ..pre.screen },
        status_message: match pre.status_message {
            Some(notice) => Some(notice),
            None => Some(Notice::CancelHint),
        },
        ..pre
    }
    &&& stream::finishes(step, seq![EngineEffect::ResetStreaming])
}

/// Starts the turn's own state.
fn start_turn(turn: &mut Turn, turn_id: String, now: u128)
    ensures
        *final(turn) == (Turn {
            suppress_stream_events_until_turn_complete: false,
            is_loading: true,
            offline_mode: false,
            turn_error_posted: false,
            dispatch_started_at: None,
            turn_started_at: Some(now),
            runtime_turn_id: Some(turn_id),
            runtime_turn_status: Some(TurnStatus::InProgress),
            plan_tool_used_in_turn: false,
            ..*old(turn)
        }),
{
    turn.suppress_stream_events_until_turn_complete = false;
    turn.is_loading = true;
    turn.offline_mode = false;
    turn.turn_error_posted = false;
    turn.dispatch_started_at = None;
    turn.turn_started_at = Some(now);
    turn.runtime_turn_id = Some(turn_id);
    turn.runtime_turn_status = Some(TurnStatus::InProgress);
    turn.plan_tool_used_in_turn = false;
}

/// Drops what an earlier turn has left in the stream.
fn clear_stream(stream: &mut Stream)
    ensures
        final(stream).current_streaming_text@ == Seq::<char>::empty(),
        final(stream).reasoning_buffer@ == Seq::<char>::empty(),
        *final(stream) == (Stream {
            current_streaming_text: final(stream).current_streaming_text,
            streaming_message_index: None,
            streaming_thinking_active_entry: None,
            reasoning_buffer: final(stream).reasoning_buffer,
            reasoning_header: None,
            last_reasoning: None,
            ..*old(stream)
        }),
{
    stream.current_streaming_text = String::new();
    stream.streaming_message_index = None;
    stream.streaming_thinking_active_entry = None;
    stream.reasoning_buffer = String::new();
    stream.reasoning_header = None;
    stream.last_reasoning = None;
}

pub fn on_turn_started(app: &mut App, turn_id: String, now: u128) -> (step: EngineStep)
    ensures
        turn_started(*old(app), turn_id, now, *final(app), step),
{
    start_turn(&mut app.turn, turn_id, now);
    clear_stream(&mut app.stream);
    if app.status_message.is_none() {
        app.status_message = Some(Notice::CancelHint);
    }
    app.tools.pending_tool_uses = Vec::new();
    app.screen.last_status_frame = now;
    finish(one(EngineEffect::ResetStreaming))
}

// A turn is complete. First its cells are closed: as interrupted where it did not run to its end.

pub open spec fn turn_complete(
    pre: App,
    usage: Usage,
    status: TurnOutcome,
    error: Option<String>,
    post: App,
    step: EngineStep,
) -> bool {
    &&& post == App {
        turn: Turn { suppress_stream_events_until_turn_complete: false, ..pre.turn },
        screen: Screen {
            force_terminal_repaint: status != TurnOutcome::Completed
                || pre.screen.draws_since_last_full_repaint >= pre.screen.full_repaint_every
                || pre.screen.force_terminal_repaint,
            ..pre.screen
        },
        ..pre
    }
    &&& stream::awaits(
        step,
        if status == TurnOutcome::Completed {
            seq![EngineEffect::FlushActiveCell]
        } else {
            seq![
                EngineEffect::FinalizeActiveCellInterrupted,
                EngineEffect::FinalizeAssistantInterrupted,
            ]
        },
        EngineStage::TurnClosed {
            usage,
            status,
            error,
            was_locally_cancelled: pre.turn.suppress_stream_events_until_turn_complete,
        },
    )
}

pub fn on_turn_complete(
    app: &mut App,
    usage: Usage,
    status: TurnOutcome,
    error: Option<String>,
) -> (step: EngineStep)
    ensures
        turn_complete(*old(app), usage, status, error, *final(app), step),
{
    let was_locally_cancelled = app.turn.suppress_stream_events_until_turn_complete;
    app.turn.suppress_stream_events_until_turn_complete = false;
    let completed = status == TurnOutcome::Completed;
    let due = app.screen.draws_since_last_full_repaint >= app.screen.full_repaint_every;
    app.screen.force_terminal_repaint = !completed || due || app.screen.force_terminal_repaint;
    let stage = EngineStage::TurnClosed { usage, status, error, was_locally_cancelled };
    if completed {
        wait(one(EngineEffect::FlushActiveCell), stage)
    } else {
        wait(
            two(
                EngineEffect::FinalizeActiveCellInterrupted,
                EngineEffect::FinalizeAssistantInterrupted,
            ),
            stage,
        )
    }
}

// Then the turn's state is wound down and its tokens are counted.

/// The prompt tokens that the cache did not hold: as reported, or what is left of the prompt.
pub open spec fn cache_misses(usage: Usage, hits: u32) -> u32 {
    match usage.prompt_cache_miss_tokens {
        Some(misses) => misses,
        None => usage.input_tokens.saturating_sub(hits),
    }
}

/// The session's tokens with those of a turn. Without cache telemetry the cache totals stand still.
pub open spec fn tokens_counted(tokens: Tokens, usage: Usage) -> Tokens {
    let turn_tokens = (usage.input_tokens + usage.output_tokens) as u32;
    Tokens {
        total_tokens: tokens.total_tokens.saturating_add(turn_tokens),
        total_conversation_tokens: tokens.total_conversation_tokens.saturating_add(turn_tokens),
        total_input_tokens: tokens.total_input_tokens.saturating_add(usage.input_tokens),
        total_output_tokens: tokens.total_output_tokens.saturating_add(usage.output_tokens),
        total_cache_hit_tokens: match usage.prompt_cache_hit_tokens {
            Some(hits) => tokens.total_cache_hit_tokens.saturating_add(hits),
            None => tokens.total_cache_hit_tokens,
        },
        total_cache_miss_tokens: match usage.prompt_cache_hit_tokens {
            Some(hits) => tokens.total_cache_miss_tokens.saturating_add(cache_misses(usage, hits)),
            None => tokens.total_cache_miss_tokens,
        },
        last_prompt_tokens: Some(usage.input_tokens),
        last_completion_tokens: Some(usage.output_tokens),
        last_prompt_cache_hit_tokens: usage.prompt_cache_hit_tokens,
        last_prompt_cache_miss_tokens: usage.prompt_cache_miss_tokens,
        last_reasoning_replay_tokens: usage.reasoning_replay_tokens,
    }
}

/// What the turn leaves in the cache telemetry.
pub open spec fn cache_record(usage: Usage, now: u128) -> TurnCacheRecord {
    TurnCacheRecord {
        input_tokens: usage.input_tokens,
        output_tokens: usage.output_tokens,
        cache_hit_tokens: usage.prompt_cache_hit_tokens,
        cache_miss_tokens: usage.prompt_cache_miss_tokens,
        reasoning_replay_tokens: usage.reasoning_replay_tokens,
        recorded_at: now,
    }
}

pub open spec fn turn_closed(
    pre: App,
    usage: Usage,
    status: TurnOutcome,
    error: Option<String>,
    was_locally_cancelled: bool,
    now: u128,
    post: App,
    step: EngineStep,
) -> bool {
    let elapsed = state::elapsed_since(pre.turn.turn_started_at, now);
    &&& was_locally_cancelled ==> post.stream.current_streaming_text@ == Seq::<char>::empty()
    &&& post == App {
        turn: Turn {
            is_loading: false,
            dispatch_started_at: None,
            offline_mode: false,
            turn_started_at: None,
            cumulative_turn_duration: state::duration_sum(
                pre.turn.cumulative_turn_duration,
                elapsed,
            ),
            user_scrolled_during_stream: false,
            runtime_turn_status: Some(TurnStatus::Ended(status)),
            ..pre.turn
        },
        stream: Stream {
            current_streaming_text: if was_locally_cancelled {
                post.stream.current_streaming_text
            } else {
                pre.stream.current_streaming_text
            },
            ..pre.stream
        },
        tokens: tokens_counted(pre.tokens, usage),
        ..pre
    }
    &&& stream::awaits(
        step,
        if status == TurnOutcome::Completed {
            seq![
                EngineEffect::ResetStreaming,
                EngineEffect::PushTurnCacheRecord(cache_record(usage, now)),
            ]
        } else {
            seq![
                EngineEffect::ResetStreaming,
                EngineEffect::ListSubAgents,
                EngineEffect::PushTurnCacheRecord(cache_record(usage, now)),
            ]
        },
        EngineStage::TurnRecorded { usage, status, error, elapsed },
    )
}

/// Adds a turn's tokens to those of the session.
pub fn count_tokens(tokens: &mut Tokens, usage: &Usage)
    requires
        usage.countable(),
    ensures
        *final(tokens) == tokens_counted(*old(tokens), *usage),
{
    let turn_tokens: u32 = usage.input_tokens + usage.output_tokens;
    tokens.total_tokens = tokens.total_tokens.saturating_add(turn_tokens);
    tokens.total_conversation_tokens = tokens.total_conversation_tokens.saturating_add(turn_tokens);
    tokens.total_input_tokens = tokens.total_input_tokens.saturating_add(usage.input_tokens);
    tokens.total_output_tokens = tokens.total_output_tokens.saturating_add(usage.output_tokens);
    if let Some(hits) = usage.prompt_cache_hit_tokens {
        tokens.total_cache_hit_tokens = tokens.total_cache_hit_tokens.saturating_add(hits);
        let misses: u32 = match usage.prompt_cache_miss_tokens {
            Some(misses) => misses,
            None => usage.input_tokens.saturating_sub(hits),
        };
        tokens.total_cache_miss_tokens = tokens.total_cache_miss_tokens.saturating_add(misses);
    }
    tokens.last_prompt_tokens = Some(usage.input_tokens);
    tokens.last_completion_tokens = Some(usage.output_tokens);
    tokens.last_prompt_cache_hit_tokens = usage.prompt_cache_hit_tokens;
    tokens.last_prompt_cache_miss_tokens = usage.prompt_cache_miss_tokens;
    tokens.last_reasoning_replay_tokens = usage.reasoning_replay_tokens;
}

pub fn on_turn_closed(
    app: &mut App,
    usage: Usage,
    status: TurnOutcome,
    error: Option<String>,
    was_locally_cancelled: bool,
    now: u128,
) -> (step: EngineStep)
    requires
        usage.countable(),
    ensures
        turn_closed(
            *old(app),
            usage,
            status,
            error,
            was_locally_cancelled,
            now,
            *final(app),
            step,
        ),
{
    app.turn.is_loading = false;
    app.turn.dispatch_started_at = None;
    app.turn.offline_mode = false;
    let mut effects = one(EngineEffect::ResetStreaming);
    if was_locally_cancelled {
        app.stream.current_streaming_text = String::new();
    }
    let elapsed: u128 = time_since(app.turn.turn_started_at, now);
    app.turn.turn_started_at = None;
    app.turn.cumulative_turn_duration = add_durations(app.turn.cumulative_turn_duration, elapsed);
    app.turn.user_scrolled_during_stream = false;
    app.turn.runtime_turn_status = Some(TurnStatus::Ended(status));
    if status != TurnOutcome::Completed {
        effects.push(EngineEffect::ListSubAgents);
    }
    count_tokens(&mut app.tokens, &usage);
    effects.push(
        EngineEffect::PushTurnCacheRecord(
            TurnCacheRecord {
                input_tokens: usage.input_tokens,
                output_tokens: usage.output_tokens,
                cache_hit_tokens: usage.prompt_cache_hit_tokens,
                cache_miss_tokens: usage.prompt_cache_miss_tokens,
                reasoning_replay_tokens: usage.reasoning_replay_tokens,
                recorded_at: now,
            },
        ),
    );
    wait(effects, EngineStage::TurnRecorded { usage, status, error, elapsed })
}

// Then the turn's error is shown, unless the transcript already shows it, and its cost is taken.

/// The model that the turn is priced by.
pub open spec fn pricing_model(app: App) -> String {
    if app.session.auto_model {
        app.effective_model()
    } else {
        app.session.model
    }
}

pub open spec fn turn_recorded(
    pre: App,
    usage: Usage,
    status: TurnOutcome,
    error: Option<String>,
    elapsed: u128,
    post: App,
    step: EngineStep,
) -> bool {
    &&& post == match error {
        Some(error) if !pre.turn.turn_error_posted => pre.with_status(Notice::TurnFailed(error)),
        _ => pre,
    }
    &&& stream::awaits(
        step,
        seq![EngineEffect::EstimateTurnCost { model: pricing_model(pre), usage }],
        EngineStage::TurnCosted { status, elapsed },
    )
}

pub open spec fn turn_costed(
    pre: App,
    status: TurnOutcome,
    elapsed: u128,
    known: bool,
    post: App,
    step: EngineStep,
) -> bool {
    let accrued = if known {
        seq![EngineEffect::AccrueTurnCost]
    } else {
        seq![]
    };
    &&& post == pre
    &&& if status == TurnOutcome::Completed {
        stream::awaits(
            step,
            accrued + seq![EngineEffect::AskNotifications],
            EngineStage::TurnNotify { status, elapsed },
        )
    } else {
        stream::awaits(
            step,
            accrued + seq![EngineEffect::OpenSessionStore],
            EngineStage::TurnStore { status },
        )
    }
}

pub open spec fn turn_notify(
    pre: App,
    status: TurnOutcome,
    elapsed: u128,
    configured: bool,
    post: App,
    step: EngineStep,
) -> bool {
    let notified = if configured {
        seq![EngineEffect::NotifyTurnDone { elapsed }]
    } else {
        seq![]
    };
    &&& post == pre
    &&& stream::awaits(
        step,
        notified + seq![EngineEffect::OpenSessionStore],
        EngineStage::TurnStore { status },
    )
}

pub fn on_turn_recorded(
    app: &mut App,
    usage: Usage,
    status: TurnOutcome,
    error: Option<String>,
    elapsed: u128,
) -> (step: EngineStep)
    ensures
        turn_recorded(*old(app), usage, status, error, elapsed, *final(app), step),
{
    let model: String = if app.session.auto_model {
        app.effective_model_name()
    } else {
        app.session.model.clone()
    };
    if let Some(error) = error {
        if !app.turn.turn_error_posted {
            app.status_message = Some(Notice::TurnFailed(error));
        }
    }
    wait(
        one(EngineEffect::EstimateTurnCost { model, usage }),
        EngineStage::TurnCosted { status, elapsed },
    )
}

pub fn on_turn_costed(app: &mut App, status: TurnOutcome, elapsed: u128, known: bool) -> (step:
    EngineStep)
    ensures
        turn_costed(*old(app), status, elapsed, known, *final(app), step),
{
    let mut effects: Vec<EngineEffect> = Vec::new();
    if known {
        effects.push(EngineEffect::AccrueTurnCost);
    }
    if status == TurnOutcome::Completed {
        effects.push(EngineEffect::AskNotifications);
        wait(effects, EngineStage::TurnNotify { status, elapsed })
    } else {
        effects.push(EngineEffect::OpenSessionStore);
        wait(effects, EngineStage::TurnStore { status })
    }
}

pub fn on_turn_notify(app: &mut App, status: TurnOutcome, elapsed: u128, configured: bool) -> (step:
    EngineStep)
    ensures
        turn_notify(*old(app), status, elapsed, configured, *final(app), step),
{
    let mut effects: Vec<EngineEffect> = Vec::new();
    if configured {
        effects.push(EngineEffect::NotifyTurnDone { elapsed });
    }
    effects.push(EngineEffect::OpenSessionStore);
    wait(effects, EngineStage::TurnStore { status })
}

// Then the session is saved and the crash checkpoint is dropped; a plan that was made in this turn
// asks for its next step where nothing else is waiting.

pub open spec fn turn_store(
    pre: App,
    status: TurnOutcome,
    opened: bool,
    post: App,
    step: EngineStep,
) -> bool {
    if opened {
        post == pre && stream::awaits(
            step,
            seq![EngineEffect::BuildSnapshot],
            EngineStage::TurnSnapshot { status },
        )
    } else {
        turn_saved(pre, status, seq![EngineEffect::ClearCheckpoint], post, step)
    }
}

pub open spec fn turn_snapshot(
    pre: App,
    status: TurnOutcome,
    id: String,
    post: App,
    step: EngineStep,
) -> bool {
    turn_saved(
        App { session: Session { current_session_id: Some(id), ..pre.session }, ..pre },
        status,
        seq![EngineEffect::PersistSnapshot, EngineEffect::ClearCheckpoint],
        post,
        step,
    )
}

/// Whether a plan was made in this turn and its next step is to be asked for.
pub open spec fn plan_is_due(app: App) -> bool {
    &&& app.session.mode == AppMode::Plan
    &&& app.turn.plan_tool_used_in_turn
    &&& !app.turn.plan_prompt_pending
    &&& app.queue.queued_messages == 0
    &&& app.queue.queued_draft is None
}

pub open spec fn turn_saved(
    pre: App,
    status: TurnOutcome,
    effects: Seq<EngineEffect>,
    post: App,
    step: EngineStep,
) -> bool {
    if plan_is_due(pre) {
        &&& post == App { turn: Turn { plan_prompt_pending: true, ..pre.turn }, ..pre }
        &&& stream::awaits(
            step,
            effects + seq![EngineEffect::AddPlanNote],
            EngineStage::TurnPlanNote { status },
        )
    } else {
        turn_planned(pre, status, effects, post, step)
    }
}

pub open spec fn turn_plan_note(pre: App, status: TurnOutcome, post: App, step: EngineStep) -> bool {
    turn_planned(
        pre,
        status,
        if pre.screen.top_modal == Some(ModalKind::PlanPrompt) {
            seq![]
        } else {
            seq![EngineEffect::ShowPlanPrompt]
        },
        post,
        step,
    )
}

pub fn on_turn_store(app: &mut App, status: TurnOutcome, opened: bool) -> (step: EngineStep)
    ensures
        turn_store(*old(app), status, opened, *final(app), step),
{
    if opened {
        wait(one(EngineEffect::BuildSnapshot), EngineStage::TurnSnapshot { status })
    } else {
        on_turn_saved(app, status, one(EngineEffect::ClearCheckpoint))
    }
}

pub fn on_turn_snapshot(app: &mut App, status: TurnOutcome, id: String) -> (step: EngineStep)
    ensures
        turn_snapshot(*old(app), status, id, *final(app), step),
{
    app.session.current_session_id = Some(id);
    on_turn_saved(app, status, two(EngineEffect::PersistSnapshot, EngineEffect::ClearCheckpoint))
}

pub fn on_turn_saved(app: &mut App, status: TurnOutcome, effects: Vec<EngineEffect>) -> (step:
    EngineStep)
    ensures
        turn_saved(*old(app), status, effects@, *final(app), step),
{
    let mut effects = effects;
    if app.session.mode == AppMode::Plan && app.turn.plan_tool_used_in_turn
        && !app.turn.plan_prompt_pending && app.queue.queued_messages == 0
        && app.queue.queued_draft.is_none() {
        app.turn.plan_prompt_pending = true;
        effects.push(EngineEffect::AddPlanNote);
        wait(effects, EngineStage::TurnPlanNote { status })
    } else {
        on_turn_planned(app, status, effects)
    }
}

pub fn on_turn_plan_note(app: &mut App, status: TurnOutcome) -> (step: EngineStep)
    ensures
        turn_plan_note(*old(app), status, *final(app), step),
{
    let shown = match app.screen.top_modal {
        Some(ModalKind::PlanPrompt) => true,
        _ => false,
    };
    if shown {
        on_turn_planned(app, status, Vec::new())
    } else {
        on_turn_planned(app, status, one(EngineEffect::ShowPlanPrompt))
    }
}

// At last the next message is found: the pending steers in one after an interruption that asked for
// it, else the first of the queue; after a failure the pending steers join the queue before.

pub open spec fn turn_planned(
    pre: App,
    status: TurnOutcome,
    effects: Seq<EngineEffect>,
    post: App,
    step: EngineStep,
) -> bool {
    let planned = App { turn: Turn { plan_tool_used_in_turn: false, ..pre.turn }, ..pre };
    if status == TurnOutcome::Interrupted && pre.queue.submit_pending_steers_after_interrupt {
        &&& post == planned
        &&& stream::awaits(
            step,
            effects + seq![EngineEffect::MergePendingSteers],
            EngineStage::TurnMerged,
        )
    } else if status == TurnOutcome::Failed && pre.queue.pending_steers > 0 {
        &&& post == planned
        &&& stream::awaits(
            step,
            effects + seq![EngineEffect::DrainPendingSteers],
            EngineStage::TurnDrained,
        )
    } else {
        next_message(planned, effects, post, step)
    }
}

pub open spec fn next_message(
    pre: App,
    effects: Seq<EngineEffect>,
    post: App,
    step: EngineStep,
) -> bool {
    &&& post == pre
    &&& if pre.poll.queued_to_send is None {
        stream::awaits(
            step,
            effects + seq![EngineEffect::PopQueuedMessage],
            EngineStage::TurnPopped,
        )
    } else {
        stream::finishes(step, effects)
    }
}

pub open spec fn turn_merged(
    pre: App,
    merged: Option<QueuedMessage>,
    post: App,
    step: EngineStep,
) -> bool {
    next_message(
        App {
            poll: PollResult {
                queued_to_send: match merged {
                    Some(message) => Some(message),
                    None => pre.poll.queued_to_send,
                },
                ..pre.poll
            },
            ..pre
        },
        seq![],
        post,
        step,
    )
}

pub open spec fn turn_drained(
    pre: App,
    steers: Seq<QueuedMessage>,
    post: App,
    step: EngineStep,
) -> bool {
    next_message(
        pre,
        steers.map_values(|m: QueuedMessage| EngineEffect::QueueMessage(m)),
        post,
        step,
    )
}

pub open spec fn turn_popped(
    pre: App,
    message: Option<QueuedMessage>,
    post: App,
    step: EngineStep,
) -> bool {
    &&& post == App { poll: PollResult { queued_to_send: message, ..pre.poll }, ..pre }
    &&& stream::finishes(step, seq![])
}

pub fn on_turn_planned(app: &mut App, status: TurnOutcome, effects: Vec<EngineEffect>) -> (step:
    EngineStep)
    ensures
        turn_planned(*old(app), status, effects@, *final(app), step),
{
    let mut effects = effects;
    app.turn.plan_tool_used_in_turn = false;
    if status == TurnOutcome::Interrupted && app.queue.submit_pending_steers_after_interrupt {
        effects.push(EngineEffect::MergePendingSteers);
        wait(effects, EngineStage::TurnMerged)
    } else if status == TurnOutcome::Failed && app.queue.pending_steers > 0 {
        effects.push(EngineEffect::DrainPendingSteers);
        wait(effects, EngineStage::TurnDrained)
    } else {
        on_next_message(app, effects)
    }
}

pub fn on_next_message(app: &mut App, effects: Vec<EngineEffect>) -> (step: EngineStep)
    ensures
        next_message(*old(app), effects@, *final(app), step),
{
    let mut effects = effects;
    if app.poll.queued_to_send.is_none() {
        effects.push(EngineEffect::PopQueuedMessage);
        wait(effects, EngineStage::TurnPopped)
    } else {
        finish(effects)
    }
}

pub fn on_turn_merged(app: &mut App, merged: Option<QueuedMessage>) -> (step: EngineStep)
    ensures
        turn_merged(*old(app), merged, *final(app), step),
{
    if merged.is_some() {
        app.poll.queued_to_send = merged;
    }
    on_next_message(app, Vec::new())
}

pub fn on_turn_popped(app: &mut App, message: Option<QueuedMessage>) -> (step: EngineStep)
    ensures
        turn_popped(*old(app), message, *final(app), step),
{
    app.poll.queued_to_send = message;
    finish(Vec::new())
}

pub fn on_turn_drained(app: &mut App, steers: Vec<QueuedMessage>) -> (step: EngineStep)
    ensures
        turn_drained(*old(app), steers@, *final(app), step),
{
    let mut effects: Vec<EngineEffect> = Vec::new();
    let mut i: usize = 0;
    while i < steers.len()
        invariant
            i <= steers@.len(),
            effects@ =~= steers@.take(i as int).map_values(
                |m: QueuedMessage| EngineEffect::QueueMessage(m),
            ),
        decreases steers@.len() - i,
    {
        effects.push(EngineEffect::QueueMessage(steers[i].duplicate()));
        i = i + 1;
    }
    proof {
        assert(steers@.take(i as int) =~= steers@);
    }
    on_next_message(app, effects)
}

} // verus!
