//! Every engine event, from the first step of its handling to the last.

use vstd::prelude::*;

use crate::engine::agents;
use crate::engine::session;
use crate::engine::stream;
use crate::engine::stream::{fail, finish, wait};
use crate::engine::tools;
use crate::engine::turn;
use crate::engine::types::{ApprovalPrompt, EngineEffect, EngineEvent, EngineStage, EngineStep};
use crate::notices::Notice;
use crate::state::{App, PollResult};
use crate::step::{one, two, Reply};

verus! {

/// The first step of an event that is not skipped.
pub open spec fn event_applied(
    pre: App,
    event: EngineEvent,
    now: u128,
    post: App,
    step: EngineStep,
) -> bool {
    match event {
        EngineEvent::MessageStarted => stream::message_started(pre, post, step),
        EngineEvent::MessageDelta { content } => stream::message_delta(pre, content, post, step),
        EngineEvent::MessageComplete => stream::message_complete(pre, post, step),
        EngineEvent::ThinkingStarted => stream::thinking_started(pre, post, step),
        EngineEvent::ThinkingDelta { content } => stream::thinking_delta(pre, content, post, step),
        EngineEvent::ThinkingComplete => stream::thinking_complete(pre, now, post, step),
        EngineEvent::ToolCallStarted { id, name, input } => tools::tool_call_started(
            pre,
            id,
            name,
            input,
            post,
            step,
        ),
        EngineEvent::ToolCallComplete { id, name, error } => tools::tool_call_complete(
            pre,
            id,
            name,
            error,
            post,
            step,
        ),
        EngineEvent::TurnStarted { turn_id } => turn::turn_started(pre, turn_id, now, post, step),
        EngineEvent::TurnComplete { usage, status, error } => turn::turn_complete(
            pre,
            usage,
            status,
            error,
            post,
            step,
        ),
        EngineEvent::Error => asks(pre, EngineEffect::ApplyEngineError, post, step),
        EngineEvent::Status { message } => session::status(
            pre,
            Notice::Message(message),
            post,
            step,
        ),
        EngineEvent::SessionUpdated { session_id, model } => session::session_updated(
            pre,
            session_id,
            model,
            post,
            step,
        ),
        EngineEvent::CompactionStarted { message } => session::compaction(
            pre,
            true,
            message,
            post,
            step,
        ),
        EngineEvent::CompactionCompleted { message } => session::compaction(
            pre,
            false,
            message,
            post,
            step,
        ),
        EngineEvent::CompactionFailed { message } => session::compaction(
            pre,
            false,
            message,
            post,
            step,
        ),
        EngineEvent::CycleAdvanced { from, to, briefing_tokens } => session::cycle_advanced(
            pre,
            from,
            to,
            briefing_tokens,
            post,
            step,
        ),
        EngineEvent::CoherenceState => asks(pre, EngineEffect::SetCoherence, post, step),
        EngineEvent::PrefixCacheChange {
            description,
            stability_pct,
            changed,
            pinned_combined_hash,
        } => session::prefix_cache_change(
            pre,
            description,
            stability_pct,
            changed,
            pinned_combined_hash,
            post,
            step,
        ),
        EngineEvent::CapacityDecision => post == pre && stream::finishes(step, seq![]),
        EngineEvent::CapacityIntervention { action, before_prompt_tokens, after_prompt_tokens } =>
            session::status(
            pre,
            Notice::CapacityIntervention {
                action,
                before: before_prompt_tokens,
                after: after_prompt_tokens,
            },
            post,
            step,
        ),
        EngineEvent::CapacityMemoryPersistFailed { action, error } => session::status(
            pre,
            Notice::CapacityMemoryPersistFailed { action, error },
            post,
            step,
        ),
        EngineEvent::PauseEvents { ack } => post == pre && stream::awaits(
            step,
            seq![EngineEffect::AskPaused],
            EngineStage::PauseAsked { ack },
        ),
        EngineEvent::ResumeEvents => post == pre && stream::awaits(
            step,
            seq![EngineEffect::AskPaused],
            EngineStage::ResumeAsked,
        ),
        EngineEvent::AgentSpawned { id, prompt } => post == pre && stream::awaits(
            step,
            seq![EngineEffect::Summarize(prompt)],
            EngineStage::SpawnSummarized { id },
        ),
        EngineEvent::AgentProgress { id, status } => post == pre && stream::awaits(
            step,
            seq![EngineEffect::FriendlyProgress { id, status }],
            EngineStage::ProgressFriendly { id, status },
        ),
        EngineEvent::AgentComplete { id, result } => agents::agent_complete(
            pre,
            id,
            result,
            now,
            post,
            step,
        ),
        EngineEvent::AgentList { agents } => post == pre && stream::awaits(
            step,
            seq![EngineEffect::SortAgents(agents)],
            EngineStage::AgentsSorted,
        ),
        EngineEvent::SubAgentMailbox => asks(
            pre.batched(true),
            EngineEffect::HandleMailbox,
            post,
            step,
        ),
        EngineEvent::ApprovalRequired {
            id,
            tool_name,
            description,
            approval_key,
            approval_grouping_key,
        } => tools::approval_required(
            pre,
            ApprovalPrompt { id, tool_name, description, approval_key },
            approval_grouping_key,
            post,
            step,
        ),
        EngineEvent::UserInputRequired { id } => tools::user_input_required(pre, id, post, step),
        EngineEvent::ToolCallProgress { id, output } => tools::tool_call_progress(
            pre,
            id,
            output,
            post,
            step,
        ),
        EngineEvent::ElevationRequired {
            tool_id,
            tool_name,
            command,
            denial_reason,
            blocked_network,
            blocked_write,
        } => tools::elevation_required(
            pre,
            tool_id,
            tool_name,
            command,
            denial_reason,
            blocked_network,
            blocked_write,
            post,
            step,
        ),
    }
}

/// The event is handled by one effect alone.
pub open spec fn asks(pre: App, effect: EngineEffect, post: App, step: EngineStep) -> bool {
    post == pre && stream::finishes(step, seq![effect])
}

/// Applies an event that is not skipped.
pub fn apply_event(app: &mut App, event: EngineEvent, now: u128) -> (step: EngineStep)
    ensures
        event_applied(*old(app), event, now, *final(app), step),
{
    match event {
        EngineEvent::MessageStarted => wait(
            one(EngineEffect::FlushActiveCell),
            EngineStage::StartedFlushed,
        ),
        EngineEvent::MessageDelta { content } => wait(
            one(EngineEffect::Sanitize(content)),
            EngineStage::DeltaSanitized,
        ),
        EngineEvent::MessageComplete => stream::on_message_complete(app),
        EngineEvent::ThinkingStarted => wait(
            one(EngineEffect::StartThinkingBlock),
            EngineStage::ThinkingStarted,
        ),
        EngineEvent::ThinkingDelta { content } => wait(
            one(EngineEffect::Sanitize(content)),
            EngineStage::ThinkingSanitized,
        ),
        EngineEvent::ThinkingComplete => stream::on_thinking_complete(app, now),
        EngineEvent::ToolCallStarted { id, name, input } => tools::on_tool_call_started(
            app,
            id,
            name,
            input,
        ),
        EngineEvent::ToolCallComplete { id, name, error } => tools::on_tool_call_complete(
            app,
            id,
            name,
            error,
        ),
        EngineEvent::TurnStarted { turn_id } => turn::on_turn_started(app, turn_id, now),
        EngineEvent::TurnComplete { usage, status, error } => turn::on_turn_complete(
            app,
            usage,
            status,
            error,
        ),
        EngineEvent::Error => finish(one(EngineEffect::ApplyEngineError)),
        EngineEvent::Status { message } => session::on_status(app, Notice::Message(message)),
        EngineEvent::SessionUpdated { session_id, model } => session::on_session_updated(
            app,
            session_id,
            model,
        ),
        EngineEvent::CompactionStarted { message } => session::on_compaction(app, true, message),
        EngineEvent::CompactionCompleted { message } => session::on_compaction(app, false, message),
        EngineEvent::CompactionFailed { message } => session::on_compaction(app, false, message),
        EngineEvent::CycleAdvanced { from, to, briefing_tokens } => session::on_cycle_advanced(
            app,
            from,
            to,
            briefing_tokens,
        ),
        EngineEvent::CoherenceState => finish(one(EngineEffect::SetCoherence)),
        EngineEvent::PrefixCacheChange {
            description,
            stability_pct,
            changed,
            pinned_combined_hash,
        } => session::on_prefix_cache_change(
            app,
            description,
            stability_pct,
            changed,
            pinned_combined_hash,
        ),
        EngineEvent::CapacityDecision => finish(Vec::new()),
        EngineEvent::CapacityIntervention { action, before_prompt_tokens, after_prompt_tokens } =>
            session::on_status(
            app,
            Notice::CapacityIntervention {
                action,
                before: before_prompt_tokens,
                after: after_prompt_tokens,
            },
        ),
        EngineEvent::CapacityMemoryPersistFailed { action, error } => session::on_status(
            app,
            Notice::CapacityMemoryPersistFailed { action, error },
        ),
        EngineEvent::PauseEvents { ack } => wait(
            one(EngineEffect::AskPaused),
            EngineStage::PauseAsked { ack },
        ),
        EngineEvent::ResumeEvents => wait(one(EngineEffect::AskPaused), EngineStage::ResumeAsked),
        EngineEvent::AgentSpawned { id, prompt } => wait(
            one(EngineEffect::Summarize(prompt)),
            EngineStage::SpawnSummarized { id },
        ),
        EngineEvent::AgentProgress { id, status } => wait(
            one(EngineEffect::FriendlyProgress { id: id.clone(), status: status.clone() }),
            EngineStage::ProgressFriendly { id, status },
        ),
        EngineEvent::AgentComplete { id, result } => agents::on_agent_complete(
            app,
            id,
            result,
            now,
        ),
        EngineEvent::AgentList { agents } => wait(
            one(EngineEffect::SortAgents(agents)),
            EngineStage::AgentsSorted,
        ),
        EngineEvent::SubAgentMailbox => {
            app.note_batch(true);
            finish(one(EngineEffect::HandleMailbox))
        },
        EngineEvent::ApprovalRequired {
            id,
            tool_name,
            description,
            approval_key,
            approval_grouping_key,
        } => wait(
            one(
                EngineEffect::AskSessionApproved {
                    tool_name: tool_name.clone(),
                    approval_grouping_key,
                },
            ),
            EngineStage::ApprovalSession {
                prompt: ApprovalPrompt { id, tool_name, description, approval_key },
            },
        ),
        EngineEvent::UserInputRequired { id } => tools::on_user_input_required(app, id),
        EngineEvent::ToolCallProgress { id, output } => wait(
            one(EngineEffect::Summarize(output)),
            EngineStage::ProgressSummarized { id },
        ),
        EngineEvent::ElevationRequired {
            tool_id,
            tool_name,
            command,
            denial_reason,
            blocked_network,
            blocked_write,
        } => tools::on_elevation_required(
            app,
            tool_id,
            tool_name,
            command,
            denial_reason,
            blocked_network,
            blocked_write,
        ),
    }
}

/// The state with an event received.
pub open spec fn received(app: App) -> App {
    App { poll: PollResult { received_engine_event: true, ..app.poll }, ..app }
}

/// The first step of an event. While the events of a cancelled turn are hidden, its start cancels
/// the engine again, and the host tells which of the others to skip; while no turn is running, the
/// host tells which are leftovers of one.
pub open spec fn event_begun(
    pre: App,
    event: EngineEvent,
    now: u128,
    post: App,
    step: EngineStep,
) -> bool {
    let seen = received(pre);
    if pre.turn.suppress_stream_events_until_turn_complete {
        &&& post == seen
        &&& if event is TurnStarted {
            stream::finishes(step, seq![EngineEffect::CancelEngine])
        } else {
            stream::awaits(
                step,
                seq![EngineEffect::AskSuppressed],
                EngineStage::GateSuppressed { event },
            )
        }
    } else if !pre.turn.is_loading {
        &&& post == seen
        &&& stream::awaits(step, seq![EngineEffect::AskStale], EngineStage::GateStale { event })
    } else {
        event_applied(seen, event, now, post, step)
    }
}

/// Begins to handle an event.
pub fn begin_event(app: &mut App, event: EngineEvent, now: u128) -> (step: EngineStep)
    ensures
        event_begun(*old(app), event, now, *final(app), step),
{
    app.poll.received_engine_event = true;
    if app.turn.suppress_stream_events_until_turn_complete {
        match event {
            EngineEvent::TurnStarted { .. } => finish(one(EngineEffect::CancelEngine)),
            event => wait(one(EngineEffect::AskSuppressed), EngineStage::GateSuppressed { event }),
        }
    } else if !app.turn.is_loading {
        wait(one(EngineEffect::AskStale), EngineStage::GateStale { event })
    } else {
        apply_event(app, event, now)
    }
}

/// The step after the host has told whether to skip the event.
pub open spec fn event_gated(
    pre: App,
    event: EngineEvent,
    skip: bool,
    now: u128,
    post: App,
    step: EngineStep,
) -> bool {
    if skip {
        post == pre && stream::finishes(step, seq![])
    } else {
        event_applied(pre, event, now, post, step)
    }
}

/// Goes on after the host has told whether to skip the event.
pub fn on_event_gated(app: &mut App, event: EngineEvent, skip: bool, now: u128) -> (step: EngineStep)
    ensures
        event_gated(*old(app), event, skip, now, *final(app), step),
{
    if skip {
        finish(Vec::new())
    } else {
        apply_event(app, event, now)
    }
}

/// The next step of an event, after the host has handed back `reply`. Where an effect has failed, the
/// event ends with its error and leaves the state as it was. A reply that the stage does not wait
/// for changes nothing.
pub open spec fn event_resumed(
    pre: App,
    stage: EngineStage,
    reply: Reply,
    now: u128,
    post: App,
    step: EngineStep,
) -> bool {
    match (stage, reply) {
        (EngineStage::GateSuppressed { event }, Reply::Flag(skip)) => event_gated(
            pre,
            event,
            skip,
            now,
            post,
            step,
        ),
        (EngineStage::GateStale { event }, Reply::Flag(skip)) => event_gated(
            pre,
            event,
            skip,
            now,
            post,
            step,
        ),
        (EngineStage::StartedFlushed, Reply::Done) => stream::started_flushed(pre, post, step),
        (EngineStage::DeltaSanitized, Reply::Text(sanitized)) => stream::delta_sanitized(
            pre,
            sanitized,
            post,
            step,
        ),
        (EngineStage::DeltaFlushed { sanitized }, Reply::Done) => stream::delta_flushed(
            pre,
            sanitized,
            post,
            step,
        ),
        (EngineStage::DeltaCell { sanitized }, Reply::Index(index)) => stream::delta_cell(
            pre,
            sanitized,
            index,
            post,
            step,
        ),
        (EngineStage::DeltaCommitted { index }, Reply::Text(committed)) => stream::delta_committed(
            pre,
            index,
            committed,
            post,
            step,
        ),
        (EngineStage::CompleteThinking, Reply::Flag(changed)) => stream::complete_thinking(
            pre,
            changed,
            post,
            step,
        ),
        (EngineStage::CompleteStashed, Reply::Done) => stream::complete_stashed(pre, post, step),
        (EngineStage::CompleteRemaining { index }, Reply::Text(remaining)) => {
            stream::complete_remaining(pre, index, remaining, post, step)
        },
        (EngineStage::CompleteEnded { index }, Reply::Done) => stream::complete_message(
            pre,
            Some(index),
            post,
            step,
        ),
        (
            EngineStage::CompleteNeeds { history_index, text, thinking, tool_uses },
            Reply::Flag(needed),
        ) => stream::complete_needs(
            pre,
            history_index,
            text,
            thinking,
            tool_uses,
            needed,
            post,
            step,
        ),
        (
            EngineStage::CompleteStatus { history_index, text, thinking, tool_uses },
            Reply::Text(status),
        ) => stream::complete_status(
            pre,
            history_index,
            text,
            thinking,
            tool_uses,
            status,
            post,
            step,
        ),
        (EngineStage::ThinkingStarted, Reply::Flag(changed)) => stream::thinking_block_started(
            pre,
            changed,
            post,
            step,
        ),
        (EngineStage::ThinkingStartedEntry, Reply::Index(index)) => stream::thinking_started_entry(
            pre,
            index,
            post,
            step,
        ),
        (EngineStage::ThinkingSanitized, Reply::Text(sanitized)) => stream::thinking_sanitized(
            pre,
            sanitized,
            post,
            step,
        ),
        (EngineStage::ThinkingHeader { sanitized }, Reply::Maybe(header)) => {
            stream::thinking_header(pre, sanitized, header, post, step)
        },
        (EngineStage::ThinkingEntry { sanitized }, Reply::Index(index)) => stream::thinking_entry(
            pre,
            sanitized,
            index,
            post,
            step,
        ),
        (EngineStage::ThinkingCommitted { index }, Reply::Text(committed)) => {
            stream::thinking_committed(pre, index, committed, post, step)
        },
        (EngineStage::ThinkingFinalized, Reply::Flag(changed)) => stream::thinking_finalized(
            pre,
            changed,
            post,
            step,
        ),
        (EngineStage::ThinkingEntryFinalized { original }, Reply::Flag(changed)) => {
            stream::thinking_entry_finalized(pre, original, changed, post, step)
        },
        (EngineStage::ThinkingNeeds { original }, Reply::Flag(needed)) => stream::thinking_needs(
            pre,
            original,
            needed,
            post,
            step,
        ),
        (EngineStage::ThinkingStatus { original }, Reply::Text(status)) => stream::thinking_status(
            pre,
            original,
            status,
            post,
            step,
        ),
        (EngineStage::ToolCompacted { id, name }, Reply::Text(compacted)) => tools::tool_compacted(
            pre,
            id,
            name,
            compacted,
            post,
            step,
        ),
        (EngineStage::ToolSanitized { id, name }, Reply::Text(content)) => tools::tool_sanitized(
            pre,
            id,
            name,
            content,
            post,
            step,
        ),
        (EngineStage::ToolRefreshed { name }, Reply::Done) => tools::tool_refreshed(
            pre,
            name,
            now,
            post,
            step,
        ),
        (EngineStage::TurnClosed { usage, status, error, was_locally_cancelled }, Reply::Done) => {
            turn::turn_closed(pre, usage, status, error, was_locally_cancelled, now, post, step)
        },
        (EngineStage::TurnRecorded { usage, status, error, elapsed }, Reply::Done) => {
            turn::turn_recorded(pre, usage, status, error, elapsed, post, step)
        },
        (EngineStage::TurnCosted { status, elapsed }, Reply::Flag(known)) => turn::turn_costed(
            pre,
            status,
            elapsed,
            known,
            post,
            step,
        ),
        (EngineStage::TurnNotify { status, elapsed }, Reply::Flag(configured)) => turn::turn_notify(
            pre,
            status,
            elapsed,
            configured,
            post,
            step,
        ),
        (EngineStage::TurnStore { status }, Reply::Flag(opened)) => turn::turn_store(
            pre,
            status,
            opened,
            post,
            step,
        ),
        (EngineStage::TurnSnapshot { status }, Reply::Snapshot { id, .. }) => turn::turn_snapshot(
            pre,
            status,
            id,
            post,
            step,
        ),
        (EngineStage::TurnPlanNote { status }, Reply::Done) => turn::turn_plan_note(
            pre,
            status,
            post,
            step,
        ),
        (EngineStage::TurnMerged, Reply::Message(merged)) => turn::turn_merged(
            pre,
            merged,
            post,
            step,
        ),
        (EngineStage::TurnDrained, Reply::Messages(steers)) => turn::turn_drained(
            pre,
            steers@,
            post,
            step,
        ),
        (EngineStage::TurnPopped, Reply::Message(message)) => turn::turn_popped(
            pre,
            message,
            post,
            step,
        ),
        (EngineStage::SessionModel, Reply::Done) => session::session_model(pre, post, step),
        (EngineStage::SessionStore, Reply::Flag(opened)) => session::session_store(
            pre,
            opened,
            post,
            step,
        ),
        (EngineStage::SessionSnapshot, Reply::Snapshot { title, .. }) => session::session_snapshot(
            pre,
            title,
            post,
            step,
        ),
        (EngineStage::SessionSaved, Reply::Maybe(saved)) => session::session_saved(
            pre,
            saved,
            post,
            step,
        ),
        (EngineStage::SessionDerived, Reply::Maybe(title)) => session::session_derived(
            pre,
            title,
            post,
            step,
        ),
        (EngineStage::CycleNoted { from, to, briefing_tokens }, Reply::Done) => session::status(
            pre,
            Notice::ContextRefreshed { from, to, briefing_tokens },
            post,
            step,
        ),
        (EngineStage::PauseAsked { ack }, Reply::Flag(paused)) => session::pause_asked(
            pre,
            ack,
            paused,
            post,
            step,
        ),
        (EngineStage::PauseDone { ack }, Reply::Done) => session::pause_done(
            pre,
            ack,
            now,
            post,
            step,
        ),
        (EngineStage::ResumeAsked, Reply::Flag(paused)) => session::resume_asked(
            pre,
            paused,
            post,
            step,
        ),
        (EngineStage::ResumeDone, Reply::Done) => session::resume_done(pre, post, step),
        (EngineStage::SpawnSummarized { id }, Reply::Text(summary)) => agents::spawn_summarized(
            pre,
            id,
            summary,
            now,
            post,
            step,
        ),
        (EngineStage::ProgressFriendly { id, status }, Reply::Text(display)) => {
            post == pre && stream::awaits(
                step,
                seq![EngineEffect::AskNoisyProgress(status)],
                EngineStage::ProgressNoisy { id, display },
            )
        },
        (EngineStage::ProgressNoisy { id, display }, Reply::Flag(noisy)) => agents::progress_noisy(
            pre,
            id,
            display,
            noisy,
            now,
            post,
            step,
        ),
        (EngineStage::AgentSummarized { id, result, elapsed, others }, Reply::Text(summary)) => {
            agents::agent_summarized(pre, id, result, elapsed, others, summary, post, step)
        },
        (EngineStage::AgentNotify { id, result, elapsed }, Reply::Flag(configured)) => {
            agents::agent_notify(pre, id, result, elapsed, configured, post, step)
        },
        (EngineStage::AgentRecaptured, Reply::Done) => agents::agent_recaptured(pre, post, step),
        (EngineStage::AgentsSorted, Reply::Agents(sorted)) => agents::agents_sorted(
            pre,
            sorted@,
            post,
            step,
        ),
        (EngineStage::AgentsViewed, Reply::Count(count)) => post == pre && stream::awaits(
            step,
            seq![EngineEffect::UpdateAgentView],
            EngineStage::AgentsUpdated { count },
        ),
        (EngineStage::AgentsUpdated { count }, Reply::Flag(updated)) => agents::agents_updated(
            pre,
            count,
            updated,
            post,
            step,
        ),
        (EngineStage::ApprovalSession { prompt }, Reply::Flag(approved)) => tools::approval_session(
            pre,
            prompt,
            approved,
            post,
            step,
        ),
        (EngineStage::ApprovalDenied { prompt, session_approved }, Reply::Flag(denied)) => {
            tools::approval_denied(pre, prompt, session_approved, denied, post, step)
        },
        (EngineStage::ApprovalPreview { prompt, input }, Reply::Done) => tools::approval_shown(
            pre,
            prompt,
            input,
            post,
            step,
        ),
        (EngineStage::ProgressSummarized { id }, Reply::Text(summary)) => {
            tools::progress_summarized(pre, id, summary, post, step)
        },
        (EngineStage::PauseDone { .. }, Reply::Failed(error)) => failed(pre, error, post, step),
        (EngineStage::ResumeDone, Reply::Failed(error)) => failed(pre, error, post, step),
        (EngineStage::AgentRecaptured, Reply::Failed(error)) => failed(pre, error, post, step),
        (stage, _) => post == pre && stream::awaits(step, seq![], stage),
    }
}

/// An effect has failed: the event ends with its error and leaves the state as it was.
pub open spec fn failed(pre: App, error: String, post: App, step: EngineStep) -> bool {
    post == pre && stream::fails(step, error)
}

/// Goes on with an event, after the host has handed back `reply`.
pub fn resume_event(app: &mut App, stage: EngineStage, reply: Reply, now: u128) -> (step: EngineStep)
    requires
        stage.countable(),
    ensures
        event_resumed(*old(app), stage, reply, now, *final(app), step),
{
    match (stage, reply) {
        (EngineStage::GateSuppressed { event }, Reply::Flag(skip)) => on_event_gated(
            app,
            event,
            skip,
            now,
        ),
        (EngineStage::GateStale { event }, Reply::Flag(skip)) => on_event_gated(
            app,
            event,
            skip,
            now,
        ),
        (EngineStage::StartedFlushed, Reply::Done) => stream::on_started_flushed(app),
        (EngineStage::DeltaSanitized, Reply::Text(sanitized)) => stream::on_delta_sanitized(
            app,
            sanitized,
        ),
        (EngineStage::DeltaFlushed { sanitized }, Reply::Done) => stream::on_delta_flushed(
            app,
            sanitized,
        ),
        (EngineStage::DeltaCell { sanitized }, Reply::Index(index)) => wait(
            two(EngineEffect::PushContent(sanitized), EngineEffect::CommitText),
            EngineStage::DeltaCommitted { index },
        ),
        (EngineStage::DeltaCommitted { index }, Reply::Text(committed)) => {
            stream::on_delta_committed(app, index, committed)
        },
        (EngineStage::CompleteThinking, Reply::Flag(changed)) => stream::on_complete_thinking(
            app,
            changed,
        ),
        (EngineStage::CompleteStashed, Reply::Done) => stream::on_complete_stashed(app),
        (EngineStage::CompleteRemaining { index }, Reply::Text(remaining)) => {
            stream::on_complete_remaining(app, index, remaining)
        },
        (EngineStage::CompleteEnded { index }, Reply::Done) => stream::on_complete_message(
            app,
            Some(index),
        ),
        (
            EngineStage::CompleteNeeds { history_index, text, thinking, tool_uses },
            Reply::Flag(needed),
        ) => stream::on_complete_needs(app, history_index, text, thinking, tool_uses, needed),
        (
            EngineStage::CompleteStatus { history_index, text, thinking, tool_uses },
            Reply::Text(status),
        ) => stream::on_complete_status(app, history_index, text, thinking, tool_uses, status),
        (EngineStage::ThinkingStarted, Reply::Flag(changed)) => stream::on_thinking_block_started(
            app,
            changed,
        ),
        (EngineStage::ThinkingStartedEntry, Reply::Index(index)) => {
            stream::on_thinking_started_entry(app, index)
        },
        (EngineStage::ThinkingSanitized, Reply::Text(sanitized)) => stream::on_thinking_sanitized(
            app,
            sanitized,
        ),
        (EngineStage::ThinkingHeader { sanitized }, Reply::Maybe(header)) => {
            stream::on_thinking_header(app, sanitized, header)
        },
        (EngineStage::ThinkingEntry { sanitized }, Reply::Index(index)) => wait(
            two(EngineEffect::PushContent(sanitized), EngineEffect::CommitText),
            EngineStage::ThinkingCommitted { index },
        ),
        (EngineStage::ThinkingCommitted { index }, Reply::Text(committed)) => {
            stream::on_thinking_committed(app, index, committed)
        },
        (EngineStage::ThinkingFinalized, Reply::Flag(changed)) => stream::on_thinking_finalized(
            app,
            changed,
        ),
        (EngineStage::ThinkingEntryFinalized { original }, Reply::Flag(changed)) => {
            stream::on_thinking_entry_finalized(app, original, changed)
        },
        (EngineStage::ThinkingNeeds { original }, Reply::Flag(needed)) => stream::on_thinking_needs(
            app,
            original,
            needed,
        ),
        (EngineStage::ThinkingStatus { original }, Reply::Text(status)) => {
            stream::on_thinking_status(app, original, status)
        },
        (EngineStage::ToolCompacted { id, name }, Reply::Text(compacted)) => wait(
            one(EngineEffect::Sanitize(compacted)),
            EngineStage::ToolSanitized { id, name },
        ),
        (EngineStage::ToolSanitized { id, name }, Reply::Text(content)) => tools::on_tool_sanitized(
            app,
            id,
            name,
            content,
        ),
        (EngineStage::ToolRefreshed { name }, Reply::Done) => tools::on_tool_refreshed(
            app,
            name,
            now,
        ),
        (EngineStage::TurnClosed { usage, status, error, was_locally_cancelled }, Reply::Done) => {
            turn::on_turn_closed(app, usage, status, error, was_locally_cancelled, now)
        },
        (EngineStage::TurnRecorded { usage, status, error, elapsed }, Reply::Done) => {
            turn::on_turn_recorded(app, usage, status, error, elapsed)
        },
        (EngineStage::TurnCosted { status, elapsed }, Reply::Flag(known)) => turn::on_turn_costed(
            app,
            status,
            elapsed,
            known,
        ),
        (EngineStage::TurnNotify { status, elapsed }, Reply::Flag(configured)) => {
            turn::on_turn_notify(app, status, elapsed, configured)
        },
        (EngineStage::TurnStore { status }, Reply::Flag(opened)) => turn::on_turn_store(
            app,
            status,
            opened,
        ),
        (EngineStage::TurnSnapshot { status }, Reply::Snapshot { id, .. }) => {
            turn::on_turn_snapshot(app, status, id)
        },
        (EngineStage::TurnPlanNote { status }, Reply::Done) => turn::on_turn_plan_note(app, status),
        (EngineStage::TurnMerged, Reply::Message(merged)) => turn::on_turn_merged(app, merged),
        (EngineStage::TurnDrained, Reply::Messages(steers)) => turn::on_turn_drained(app, steers),
        (EngineStage::TurnPopped, Reply::Message(message)) => turn::on_turn_popped(app, message),
        (EngineStage::SessionModel, Reply::Done) => session::on_session_model(app),
        (EngineStage::SessionStore, Reply::Flag(opened)) => session::on_session_store(app, opened),
        (EngineStage::SessionSnapshot, Reply::Snapshot { title, .. }) => {
            session::on_session_snapshot(app, title)
        },
        (EngineStage::SessionSaved, Reply::Maybe(saved)) => session::on_session_saved(app, saved),
        (EngineStage::SessionDerived, Reply::Maybe(title)) => session::on_session_derived(
            app,
            title,
        ),
        (EngineStage::CycleNoted { from, to, briefing_tokens }, Reply::Done) => session::on_status(
            app,
            Notice::ContextRefreshed { from, to, briefing_tokens },
        ),
        (EngineStage::PauseAsked { ack }, Reply::Flag(paused)) => session::on_pause_asked(
            app,
            ack,
            paused,
        ),
        (EngineStage::PauseDone { ack }, Reply::Done) => session::on_pause_done(app, ack, now),
        (EngineStage::ResumeAsked, Reply::Flag(paused)) => session::on_resume_asked(app, paused),
        (EngineStage::ResumeDone, Reply::Done) => session::on_resume_done(app),
        (EngineStage::SpawnSummarized { id }, Reply::Text(summary)) => agents::on_spawn_summarized(
            app,
            id,
            summary,
            now,
        ),
        (EngineStage::ProgressFriendly { id, status }, Reply::Text(display)) => wait(
            one(EngineEffect::AskNoisyProgress(status)),
            EngineStage::ProgressNoisy { id, display },
        ),
        (EngineStage::ProgressNoisy { id, display }, Reply::Flag(noisy)) => {
            agents::on_progress_noisy(app, id, display, noisy, now)
        },
        (EngineStage::AgentSummarized { id, result, elapsed, others }, Reply::Text(summary)) => {
            agents::on_agent_summarized(app, id, result, elapsed, others, summary)
        },
        (EngineStage::AgentNotify { id, result, elapsed }, Reply::Flag(configured)) => {
            agents::on_agent_notify(app, id, result, elapsed, configured)
        },
        (EngineStage::AgentRecaptured, Reply::Done) => agents::on_agent_recaptured(app),
        (EngineStage::AgentsSorted, Reply::Agents(sorted)) => agents::on_agents_sorted(app, sorted),
        (EngineStage::AgentsViewed, Reply::Count(count)) => wait(
            one(EngineEffect::UpdateAgentView),
            EngineStage::AgentsUpdated { count },
        ),
        (EngineStage::AgentsUpdated { count }, Reply::Flag(updated)) => agents::on_agents_updated(
            app,
            count,
            updated,
        ),
        (EngineStage::ApprovalSession { prompt }, Reply::Flag(approved)) => wait(
            one(EngineEffect::AskSessionDenied { approval_key: prompt.approval_key.clone() }),
            EngineStage::ApprovalDenied { prompt, session_approved: approved },
        ),
        (EngineStage::ApprovalDenied { prompt, session_approved }, Reply::Flag(denied)) => {
            tools::on_approval_denied(app, prompt, session_approved, denied)
        },
        (EngineStage::ApprovalPreview { prompt, input }, Reply::Done) => tools::on_approval_shown(
            app,
            prompt,
            input,
        ),
        (EngineStage::ProgressSummarized { id }, Reply::Text(summary)) => {
            tools::on_progress_summarized(app, id, summary)
        },
        (EngineStage::PauseDone { .. }, Reply::Failed(error)) => fail(error),
        (EngineStage::ResumeDone, Reply::Failed(error)) => fail(error),
        (EngineStage::AgentRecaptured, Reply::Failed(error)) => fail(error),
        (stage, _) => wait(Vec::new(), stage),
    }
}

} // verus!
