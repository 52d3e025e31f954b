//! What holds of the end of a turn, whatever the host answers on the way.

use vstd::prelude::*;

use crate::engine::dispatch;
use crate::engine::laws;
use crate::engine::runs;
use crate::engine::runs::Run;
use crate::engine::types::{EngineEffect, EngineEvent, EngineNext, EngineStage, EngineStep};
use crate::notices::Notice;
use crate::state::{
    App, AppMode, ModalKind, QueuedMessage, TurnOutcome, TurnStatus, MAX_DURATION,
};
use crate::step::Reply;

verus! {

/// Whether the step waits for the next message of the queue.
pub open spec fn pops(step: EngineStep) -> bool {
    step.effects@.contains(EngineEffect::PopQueuedMessage)
}

/// Whether the step waits for the pending steers in one message.
pub open spec fn merges(step: EngineStep) -> bool {
    step.effects@.len() > 0 && step.effects@.last() == EngineEffect::MergePendingSteers
}

/// How a step of a turn's end leaves the search for the next message: it waits for the queue only
/// where there is no message yet, and it ends the event only where there is one.
pub open spec fn searches(post: App, step: EngineStep) -> bool {
    &&& step.next matches EngineNext::Await(stage) ==> {
        &&& laws::ending_turn(stage)
        &&& stage is TurnPopped <==> pops(step)
        &&& stage is TurnMerged <==> merges(step)
    }
    &&& pops(step) ==> {
        &&& step.next is Await
        &&& post.poll.queued_to_send is None
        &&& step.effects@.last() == EngineEffect::PopQueuedMessage
        &&& forall|k: int| #![trigger step.effects@[k]]
            0 <= k < step.effects@.len() - 1 ==> step.effects@[k] != EngineEffect::PopQueuedMessage
    }
    &&& step.next is Finish ==> post.poll.queued_to_send is Some
    &&& !(step.next is Fail)
}

proof fn ending_searches(pre: App, event: EngineEvent, now: u128, post: App, step: EngineStep)
    requires
        event is TurnComplete,
        dispatch::event_applied(pre, event, now, post, step),
    ensures
        step.next is Await,
        searches(post, step),
        !pops(step),
        post.poll == pre.poll,
{
}

proof fn closing_searches(
    pre: App,
    stage: EngineStage,
    reply: Reply,
    now: u128,
    post: App,
    step: EngineStep,
)
    requires
        stage is TurnClosed || stage is TurnRecorded || stage is TurnCosted || stage is TurnNotify,
        dispatch::event_resumed(pre, stage, reply, now, post, step),
        stage.accepts(reply),
    ensures
        searches(post, step),
        post.poll == pre.poll,
{
}

proof fn saving_searches(
    pre: App,
    stage: EngineStage,
    reply: Reply,
    now: u128,
    post: App,
    step: EngineStep,
)
    requires
        stage is TurnStore || stage is TurnSnapshot || stage is TurnPlanNote,
        dispatch::event_resumed(pre, stage, reply, now, post, step),
        stage.accepts(reply),
    ensures
        searches(post, step),
        post.poll == pre.poll,
{
    if step.next matches EngineNext::Await(next) && next is TurnPopped {
        let last = step.effects@.len() - 1;
        assert(step.effects@[last] == EngineEffect::PopQueuedMessage);
    }
}

proof fn finding_searches(
    pre: App,
    stage: EngineStage,
    reply: Reply,
    now: u128,
    post: App,
    step: EngineStep,
)
    requires
        stage is TurnMerged || stage is TurnDrained,
        dispatch::event_resumed(pre, stage, reply, now, post, step),
        stage.accepts(reply),
    ensures
        searches(post, step),
        post.poll.queued_to_send == match (stage, reply) {
            (EngineStage::TurnMerged, Reply::Message(Some(merged))) => Some(merged),
            _ => pre.poll.queued_to_send,
        },
{
    if step.next matches EngineNext::Await(next) && next is TurnPopped {
        let last = step.effects@.len() - 1;
        assert(step.effects@[last] == EngineEffect::PopQueuedMessage);
    }
}

proof fn popping_ends(
    pre: App,
    stage: EngineStage,
    reply: Reply,
    now: u128,
    post: App,
    step: EngineStep,
)
    requires
        stage is TurnPopped,
        dispatch::event_resumed(pre, stage, reply, now, post, step),
        stage.accepts(reply),
    ensures
        step.next is Finish,
        step.effects@.len() == 0,
        reply == Reply::Message(post.poll.queued_to_send),
{
}

/// Whether the host leaves alone what the pass has noted.
pub open spec fn notes_left_alone(run: Run) -> bool {
    forall|i: int| #![trigger run.before[i]]
        0 < i < run.steps.len() ==> run.before[i].poll == run.after[i - 1].poll
}

/// The message to be sent next as far as it is known when step `n` has been taken, apart from the
/// queue: what the pass had found before, or the steers that the host has merged into one since.
pub open spec fn found(run: Run, n: int) -> Option<QueuedMessage>
    decreases n,
{
    if n <= 0 {
        run.before[0].poll.queued_to_send
    } else {
        match run.replies[n] {
            Reply::Message(Some(merged)) if merges(run.steps[n - 1]) => Some(merged),
            _ => found(run, n - 1),
        }
    }
}

proof fn search_goes_on(run: Run, n: int)
    requires
        run.well_formed(),
        run.event is TurnComplete,
        notes_left_alone(run),
        0 <= n < run.steps.len(),
    ensures
        run.steps[n].next is Await ==> {
            &&& searches(run.after[n], run.steps[n])
            &&& laws::ending_turn(run.stage(n))
            &&& run.after[n].poll.queued_to_send == found(run, n)
            &&& forall|k: int| 0 <= k < n ==> !#[trigger] pops(run.steps[k])
        },
        run.steps[n].next is Finish ==> n > 0 && if pops(run.steps[n - 1]) {
            &&& found(run, n) is None
            &&& run.replies[n] == Reply::Message(run.after[n].poll.queued_to_send)
            &&& run.effects(n).len() == 0
            &&& forall|k: int| 0 <= k < n - 1 ==> !#[trigger] pops(run.steps[k])
        } else {
            &&& found(run, n) is Some
            &&& run.after[n].poll.queued_to_send == found(run, n)
            &&& forall|k: int| 0 <= k <= n ==> !#[trigger] pops(run.steps[k])
        },
        !(run.steps[n].next is Fail),
    decreases n,
{
    if n == 0 {
        runs::first_step(run);
        ending_searches(run.before[0], run.event, run.times[0], run.after[0], run.steps[0]);
    } else {
        search_goes_on(run, n - 1);
        runs::later_step(run, n);
        assert(run.before[n].poll == run.after[n - 1].poll);
        let stage = run.stage(n - 1);
        let reply = run.replies[n];
        let (pre, now, post, step) = (run.before[n], run.times[n], run.after[n], run.steps[n]);
        if stage is TurnPopped {
            popping_ends(pre, stage, reply, now, post, step);
        } else if stage is TurnMerged || stage is TurnDrained {
            finding_searches(pre, stage, reply, now, post, step);
        } else if stage is TurnStore || stage is TurnSnapshot || stage is TurnPlanNote {
            saving_searches(pre, stage, reply, now, post, step);
        } else {
            closing_searches(pre, stage, reply, now, post, step);
        }
    }
}

/// The end of a turn, however the turn has ended, finds the message to be sent next. Where the pass
/// has found one before, or the host has merged the pending steers into one, that is it, and the
/// queue is left alone. Otherwise the queue is asked exactly once, and what it gives is what is
/// sent next.
pub proof fn next_message_is_sent(run: Run, asking: int)
    requires
        run.complete(),
        run.event is TurnComplete,
        notes_left_alone(run),
        asking == run.steps.len() - 2,
    ensures
        found(run, run.steps.len() - 1) is Some ==> {
            &&& run.outcome().poll.queued_to_send == found(run, run.steps.len() - 1)
            &&& forall|i: int|
                0 <= i < run.steps.len() ==> !(#[trigger] run.effects(i)).contains(
                    EngineEffect::PopQueuedMessage,
                )
        },
        found(run, run.steps.len() - 1) is None ==> {
            &&& run.answered(
                asking,
                EngineEffect::PopQueuedMessage,
                Reply::Message(run.outcome().poll.queued_to_send),
            )
            &&& forall|i: int, k: int|
                0 <= i < run.steps.len() && 0 <= k < run.effects(i).len() && #[trigger] run.effects(
                    i,
                )[k] == EngineEffect::PopQueuedMessage ==> i == asking && k == run.effects(i).len()
                    - 1
        },
{
    let n = run.steps.len() - 1;
    search_goes_on(run, n);
    if found(run, n) is None {
        search_goes_on(run, n - 1);
        runs::steps_wait(run, n - 1);
        assert forall|i: int, k: int|
            0 <= i < run.steps.len() && 0 <= k < run.effects(i).len() && #[trigger] run.effects(
                i,
            )[k] == EngineEffect::PopQueuedMessage implies i == n - 1 && k == run.effects(i).len()
            - 1 by {
            assert(run.steps[i].effects@[k] == EngineEffect::PopQueuedMessage);
            assert(pops(run.steps[i]));
        }
    } else {
        assert forall|i: int| 0 <= i < run.steps.len() implies !(#[trigger] run.effects(
            i,
        )).contains(EngineEffect::PopQueuedMessage) by {
            assert(!pops(run.steps[i]));
        }
    }
}

/// The sum, or the largest number that is counted to.
pub open spec fn capped(a: int, b: int, most: int) -> int {
    if a + b > most {
        most
    } else {
        a + b
    }
}

/// How long it is from `since` to `now`, where anything had begun and the clock has not run back.
pub open spec fn span(since: Option<u128>, now: u128) -> int {
    match since {
        Some(since) if since <= now => now - since,
        _ => 0,
    }
}

proof fn closed_stage(run: Run)
    requires
        run.well_formed(),
        run.event is TurnComplete,
    ensures
        run.steps[0].next is Await,
        run.event matches EngineEvent::TurnComplete { usage, status, error } ==> run.stage(0)
            == (EngineStage::TurnClosed {
            usage,
            status,
            error,
            was_locally_cancelled: run.before[0].turn.suppress_stream_events_until_turn_complete,
        }),
{
    runs::first_step(run);
}

/// The end of a turn closes its cells: those of a turn that ran to its end are committed, those of
/// any other are marked as interrupted, and then the screen is repainted. The turn is hidden no
/// longer.
pub proof fn end_of_turn_closes_cells(run: Run)
    requires
        run.well_formed(),
        run.event is TurnComplete,
    ensures
        ({
            let completed = run.event->TurnComplete_status == TurnOutcome::Completed;
            let (pre, post) = (run.before[0], run.after[0]);
            &&& completed ==> run.effects(0) == seq![EngineEffect::FlushActiveCell]
            &&& !completed ==> run.effects(0) == seq![
                EngineEffect::FinalizeActiveCellInterrupted,
                EngineEffect::FinalizeAssistantInterrupted,
            ]
            &&& !completed ==> post.screen.force_terminal_repaint
            &&& completed ==> (post.screen.force_terminal_repaint
                <==> pre.screen.force_terminal_repaint
                || pre.screen.draws_since_last_full_repaint >= pre.screen.full_repaint_every)
            &&& !post.turn.suppress_stream_events_until_turn_complete
            &&& post.turn.is_loading == pre.turn.is_loading
            &&& post.tokens == pre.tokens
            &&& post.queue == pre.queue
            &&& post.stream == pre.stream
            &&& post.status_message == pre.status_message
        }),
{
    runs::first_step(run);
}

/// Then the turn is over: it is no longer loading, its time is added to that of the turns before,
/// and its outcome is kept. The text of a turn that the user has cancelled is dropped.
pub proof fn end_of_turn_stops_the_clock(run: Run)
    requires
        run.well_formed(),
        run.event is TurnComplete,
        run.steps.len() > 1,
    ensures
        ({
            let status = run.event->TurnComplete_status;
            let (pre, post) = (run.before[1], run.after[1]);
            &&& !post.turn.is_loading
            &&& post.turn.turn_started_at is None
            &&& post.turn.dispatch_started_at is None
            &&& !post.turn.offline_mode
            &&& !post.turn.user_scrolled_during_stream
            &&& post.turn.runtime_turn_status == Some(TurnStatus::Ended(status))
            &&& post.turn.cumulative_turn_duration == capped(
                pre.turn.cumulative_turn_duration as int,
                span(pre.turn.turn_started_at, run.times[1]),
                MAX_DURATION as int,
            )
            &&& run.before[0].turn.suppress_stream_events_until_turn_complete
                ==> post.stream.current_streaming_text@.len() == 0
            &&& !run.before[0].turn.suppress_stream_events_until_turn_complete
                ==> post.stream.current_streaming_text == pre.stream.current_streaming_text
            &&& post.queue == pre.queue
            &&& post.poll == pre.poll
            &&& post.session == pre.session
        }),
{
    closed_stage(run);
    runs::later_step(run, 1);
}

/// The tokens of a turn are added to those of the session, to each of its totals; the cache totals
/// grow only by what was reported of the cache, and a miss that was not reported is what the hits
/// leave of the prompt.
pub proof fn end_of_turn_counts_tokens(run: Run)
    requires
        run.well_formed(),
        run.event is TurnComplete,
        run.event->TurnComplete_usage.countable(),
        run.steps.len() > 1,
    ensures
        ({
            let usage = run.event->TurnComplete_usage;
            let (pre, post) = (run.before[1].tokens, run.after[1].tokens);
            let (input, output) = (usage.input_tokens as int, usage.output_tokens as int);
            let most = u32::MAX as int;
            &&& post.total_tokens == capped(pre.total_tokens as int, input + output, most)
            &&& post.total_conversation_tokens == capped(
                pre.total_conversation_tokens as int,
                input + output,
                most,
            )
            &&& post.total_input_tokens == capped(pre.total_input_tokens as int, input, most)
            &&& post.total_output_tokens == capped(pre.total_output_tokens as int, output, most)
            &&& match usage.prompt_cache_hit_tokens {
                Some(hits) => {
                    &&& post.total_cache_hit_tokens == capped(
                        pre.total_cache_hit_tokens as int,
                        hits as int,
                        most,
                    )
                    &&& post.total_cache_miss_tokens == capped(
                        pre.total_cache_miss_tokens as int,
                        match usage.prompt_cache_miss_tokens {
                            Some(misses) => misses as int,
                            None => if input > hits {
                                input - hits
                            } else {
                                0
                            },
                        },
                        most,
                    )
                },
                None => {
                    &&& post.total_cache_hit_tokens == pre.total_cache_hit_tokens
                    &&& post.total_cache_miss_tokens == pre.total_cache_miss_tokens
                },
            }
            &&& post.last_prompt_tokens == Some(usage.input_tokens)
            &&& post.last_completion_tokens == Some(usage.output_tokens)
            &&& post.last_prompt_cache_hit_tokens == usage.prompt_cache_hit_tokens
            &&& post.last_prompt_cache_miss_tokens == usage.prompt_cache_miss_tokens
            &&& post.last_reasoning_replay_tokens == usage.reasoning_replay_tokens
        }),
{
    closed_stage(run);
    runs::later_step(run, 1);
}

proof fn recorded_stage(run: Run)
    requires
        run.well_formed(),
        run.event is TurnComplete,
        run.steps.len() > 1,
    ensures
        run.steps[1].next is Await,
        run.event matches EngineEvent::TurnComplete { usage, status, error } ==> run.stage(1) matches
            EngineStage::TurnRecorded { usage: u, status: s, error: e, elapsed } && u == usage && s
            == status && e == error && elapsed == span(
            run.before[1].turn.turn_started_at,
            run.times[1],
        ),
{
    closed_stage(run);
    runs::later_step(run, 1);
}

/// The stream starts afresh, the cache telemetry gets the turn's numbers as they were reported, and
/// after a turn that did not run to its end the sub-agents are listed anew.
pub proof fn end_of_turn_leaves_a_record(run: Run)
    requires
        run.well_formed(),
        run.event is TurnComplete,
        run.steps.len() > 1,
    ensures
        ({
            let usage = run.event->TurnComplete_usage;
            let effects = run.effects(1);
            let last = effects.len() - 1;
            &&& effects[0] == EngineEffect::ResetStreaming
            &&& effects[last] matches EngineEffect::PushTurnCacheRecord(record)
                && record.input_tokens == usage.input_tokens && record.output_tokens
                == usage.output_tokens && record.cache_hit_tokens == usage.prompt_cache_hit_tokens
                && record.cache_miss_tokens == usage.prompt_cache_miss_tokens
                && record.reasoning_replay_tokens == usage.reasoning_replay_tokens
                && record.recorded_at == run.times[1]
            &&& if run.event->TurnComplete_status == TurnOutcome::Completed {
                effects.len() == 2
            } else {
                effects.len() == 3 && effects[1] == EngineEffect::ListSubAgents
            }
        }),
{
    closed_stage(run);
    runs::later_step(run, 1);
}

/// The turn's error is shown where the transcript does not show it yet, and only then. The turn is
/// priced by the model that it ran on: in the automatic choice the last one that is known, else the
/// chosen one.
pub proof fn end_of_turn_tells_its_error(run: Run)
    requires
        run.well_formed(),
        run.event is TurnComplete,
        run.steps.len() > 2,
    ensures
        ({
            let (pre, post) = (run.before[2], run.after[2]);
            let usage = run.event->TurnComplete_usage;
            &&& post.status_message == match run.event->TurnComplete_error {
                Some(error) => if pre.turn.turn_error_posted {
                    pre.status_message
                } else {
                    Some(Notice::TurnFailed(error))
                },
                None => pre.status_message,
            }
            &&& post == (App { status_message: post.status_message, ..pre })
            &&& run.effects(2).len() == 1
            &&& run.effects(2)[0] matches EngineEffect::EstimateTurnCost { model, usage: u } && u
                == usage && model == match pre.session.last_effective_model {
                Some(last) if pre.session.auto_model => last,
                _ => pre.session.model,
            }
        }),
{
    recorded_stage(run);
    runs::later_step(run, 2);
}

proof fn costed_stage(run: Run)
    requires
        run.well_formed(),
        run.event is TurnComplete,
        run.steps.len() > 2,
    ensures
        run.steps[2].next is Await,
        run.stage(2) matches EngineStage::TurnCosted { status, elapsed } && status
            == run.event->TurnComplete_status && elapsed == span(
            run.before[1].turn.turn_started_at,
            run.times[1],
        ),
{
    recorded_stage(run);
    runs::later_step(run, 2);
}

/// A cost that is known is accrued. Only after a turn that ran to its end is the user to be told.
pub proof fn end_of_turn_takes_the_cost(run: Run)
    requires
        run.well_formed(),
        run.event is TurnComplete,
        run.steps.len() > 3,
    ensures
        ({
            let effects = run.effects(3);
            let asks = if run.event->TurnComplete_status == TurnOutcome::Completed {
                EngineEffect::AskNotifications
            } else {
                EngineEffect::OpenSessionStore
            };
            &&& run.after[3] == run.before[3]
            &&& run.replies[3] == Reply::Flag(true) ==> effects == seq![
                EngineEffect::AccrueTurnCost,
                asks,
            ]
            &&& run.replies[3] == Reply::Flag(false) ==> effects == seq![asks]
        }),
{
    costed_stage(run);
    runs::later_step(run, 3);
}

/// The user is told of a turn that ran to its end where notifications are configured, with the time
/// that the turn took.
pub proof fn user_is_told_of_the_end(run: Run)
    requires
        run.well_formed(),
        run.event is TurnComplete,
        run.event->TurnComplete_status == TurnOutcome::Completed,
        run.steps.len() > 4,
    ensures
        ({
            let effects = run.effects(4);
            &&& run.after[4] == run.before[4]
            &&& effects.last() == EngineEffect::OpenSessionStore
            &&& run.replies[4] == Reply::Flag(false) ==> effects.len() == 1
            &&& run.replies[4] == Reply::Flag(true) ==> effects.len() == 2 && (
            effects[0] matches EngineEffect::NotifyTurnDone { elapsed } && elapsed == span(
                run.before[1].turn.turn_started_at,
                run.times[1],
            ))
        }),
{
    costed_stage(run);
    runs::later_step(run, 3);
    runs::later_step(run, 4);
}

/// The step that asks for the session store.
pub open spec fn storing(run: Run) -> int {
    if run.event->TurnComplete_status == TurnOutcome::Completed {
        4
    } else {
        3
    }
}

proof fn store_stage(run: Run)
    requires
        run.well_formed(),
        run.event is TurnComplete,
        run.steps.len() > storing(run),
    ensures
        run.effects(storing(run)).last() == EngineEffect::OpenSessionStore,
        run.steps[storing(run)].next is Await,
        run.stage(storing(run)) == (EngineStage::TurnStore {
            status: run.event->TurnComplete_status,
        }),
{
    costed_stage(run);
    runs::later_step(run, 3);
    if run.event->TurnComplete_status == TurnOutcome::Completed {
        runs::later_step(run, 4);
    }
}

/// Whether a plan was made in the turn, its next step is not asked for yet, and nothing else waits.
pub open spec fn plan_waits(app: App) -> bool {
    &&& app.session.mode == AppMode::Plan
    &&& app.turn.plan_tool_used_in_turn
    &&& !app.turn.plan_prompt_pending
    &&& app.queue.queued_messages == 0
    &&& app.queue.queued_draft is None
}

/// What a step of the turn's end asks for to save the session, before it looks for what comes next.
pub open spec fn saves_with(
    run: Run,
    i: int,
    saved: Seq<EngineEffect>,
) -> bool {
    let (pre, post, effects) = (run.before[i], run.after[i], run.effects(i));
    &&& effects.len() >= saved.len()
    &&& effects.take(saved.len() as int) == saved
    &&& plan_waits(pre) ==> {
        &&& effects == saved.push(EngineEffect::AddPlanNote)
        &&& run.steps[i].next is Await
        &&& post.turn.plan_prompt_pending
    }
    &&& !plan_waits(pre) ==> {
        &&& !effects.contains(EngineEffect::AddPlanNote)
        &&& !effects.contains(EngineEffect::ShowPlanPrompt)
        &&& post.turn.plan_prompt_pending == pre.turn.plan_prompt_pending
        &&& !post.turn.plan_tool_used_in_turn
        &&& seeks(run.event->TurnComplete_status, pre, effects.skip(saved.len() as int))
    }
}

/// What is asked for to find the next message: the pending steers in one message after an
/// interruption that asked for it, the pending steers one by one after a failure, and otherwise the
/// queue, where no message was found before.
pub open spec fn seeks(status: TurnOutcome, app: App, effects: Seq<EngineEffect>) -> bool {
    if status == TurnOutcome::Interrupted && app.queue.submit_pending_steers_after_interrupt {
        effects == seq![EngineEffect::MergePendingSteers]
    } else if status == TurnOutcome::Failed && app.queue.pending_steers > 0 {
        effects == seq![EngineEffect::DrainPendingSteers]
    } else if app.poll.queued_to_send is None {
        effects == seq![EngineEffect::PopQueuedMessage]
    } else {
        effects.len() == 0
    }
}

proof fn saved_or_planned(
    pre: App,
    stage: EngineStage,
    reply: Reply,
    now: u128,
    post: App,
    step: EngineStep,
    status: TurnOutcome,
    saved: Seq<EngineEffect>,
)
    requires
        dispatch::event_resumed(pre, stage, reply, now, post, step),
        stage == (EngineStage::TurnStore { status }) && reply == Reply::Flag(false) && saved
            == seq![EngineEffect::ClearCheckpoint] || stage == (EngineStage::TurnSnapshot {
            status,
        }) && reply is Snapshot && saved == seq![
            EngineEffect::PersistSnapshot,
            EngineEffect::ClearCheckpoint,
        ],
    ensures
        step.effects@.len() >= saved.len(),
        step.effects@.take(saved.len() as int) == saved,
        plan_waits(pre) ==> step.effects@ == saved.push(EngineEffect::AddPlanNote)
            && step.next == EngineNext::Await(EngineStage::TurnPlanNote { status })
            && post.turn.plan_prompt_pending,
        !plan_waits(pre) ==> {
            &&& !step.effects@.contains(EngineEffect::AddPlanNote)
            &&& !step.effects@.contains(EngineEffect::ShowPlanPrompt)
            &&& post.turn.plan_prompt_pending == pre.turn.plan_prompt_pending
            &&& !post.turn.plan_tool_used_in_turn
            &&& seeks(status, pre, step.effects@.skip(saved.len() as int))
        },
{
    assert(step.effects@.take(saved.len() as int) =~= saved);
    let rest = step.effects@.skip(saved.len() as int);
    if !plan_waits(pre) {
        if status == TurnOutcome::Interrupted && pre.queue.submit_pending_steers_after_interrupt {
            assert(rest =~= seq![EngineEffect::MergePendingSteers]);
        } else if status == TurnOutcome::Failed && pre.queue.pending_steers > 0 {
            assert(rest =~= seq![EngineEffect::DrainPendingSteers]);
        } else if pre.poll.queued_to_send is None {
            assert(rest =~= seq![EngineEffect::PopQueuedMessage]);
        }
    }
}

/// The session is saved where its store can be opened, under the id that it is saved with, and the
/// crash checkpoint is dropped in any case. Then a plan that was made in the turn asks for its next
/// step where nothing else waits, and otherwise the next message is looked for.
pub proof fn end_of_turn_saves_the_session(run: Run)
    requires
        run.well_formed(),
        run.event is TurnComplete,
        run.steps.len() > storing(run) + 1,
    ensures
        ({
            let i = storing(run) + 1;
            &&& run.replies[i] == Reply::Flag(false) ==> saves_with(
                run,
                i,
                seq![EngineEffect::ClearCheckpoint],
            ) && run.after[i].session == run.before[i].session
            &&& run.replies[i] == Reply::Flag(true) ==> run.effects(i) == seq![
                EngineEffect::BuildSnapshot,
            ] && run.after[i] == run.before[i]
            &&& run.replies[i] == Reply::Flag(true) && run.steps.len() > i + 1 ==> {
                &&& saves_with(
                    run,
                    i + 1,
                    seq![EngineEffect::PersistSnapshot, EngineEffect::ClearCheckpoint],
                )
                &&& run.replies[i + 1] matches Reply::Snapshot { id, .. }
                    && run.after[i + 1].session.current_session_id == Some(id)
            }
        }),
{
    let i = storing(run) + 1;
    let status = run.event->TurnComplete_status;
    store_stage(run);
    runs::later_step(run, i);
    if run.replies[i] == Reply::Flag(false) {
        saved_or_planned(
            run.before[i],
            run.stage(i - 1),
            run.replies[i],
            run.times[i],
            run.after[i],
            run.steps[i],
            status,
            seq![EngineEffect::ClearCheckpoint],
        );
    } else if run.steps.len() > i + 1 {
        runs::later_step(run, i + 1);
        saved_or_planned(
            run.before[i + 1],
            run.stage(i),
            run.replies[i + 1],
            run.times[i + 1],
            run.after[i + 1],
            run.steps[i + 1],
            status,
            seq![EngineEffect::PersistSnapshot, EngineEffect::ClearCheckpoint],
        );
    }
}

/// Once the plan is noted its prompt is shown, unless it stands there already; then the next
/// message is looked for as after any other turn, and the plan counts for no other turn.
pub proof fn plan_prompt_is_shown(
    pre: App,
    status: TurnOutcome,
    now: u128,
    post: App,
    step: EngineStep,
)
    requires
        dispatch::event_resumed(
            pre,
            EngineStage::TurnPlanNote { status },
            Reply::Done,
            now,
            post,
            step,
        ),
    ensures
        pre.screen.top_modal == Some(ModalKind::PlanPrompt) ==> seeks(status, pre, step.effects@),
        pre.screen.top_modal != Some(ModalKind::PlanPrompt) ==> step.effects@.len() > 0
            && step.effects@[0] == EngineEffect::ShowPlanPrompt && seeks(
            status,
            pre,
            step.effects@.skip(1),
        ),
        !post.turn.plan_tool_used_in_turn,
{
    let shown = pre.screen.top_modal == Some(ModalKind::PlanPrompt);
    let rest = if shown {
        step.effects@
    } else {
        step.effects@.skip(1)
    };
    if status == TurnOutcome::Interrupted && pre.queue.submit_pending_steers_after_interrupt {
        assert(rest =~= seq![EngineEffect::MergePendingSteers]);
    } else if status == TurnOutcome::Failed && pre.queue.pending_steers > 0 {
        assert(rest =~= seq![EngineEffect::DrainPendingSteers]);
    } else if pre.poll.queued_to_send is None {
        assert(rest =~= seq![EngineEffect::PopQueuedMessage]);
    }
}

/// The pending steers of a failed turn are all queued, in order, and nothing else is, before the
/// queue is asked for the next message.
pub proof fn steers_join_the_queue(
    pre: App,
    steers: Vec<QueuedMessage>,
    now: u128,
    post: App,
    step: EngineStep,
)
    requires
        dispatch::event_resumed(
            pre,
            EngineStage::TurnDrained,
            Reply::Messages(steers),
            now,
            post,
            step,
        ),
    ensures
        post == pre,
        step.effects@.len() == steers@.len() + if pre.poll.queued_to_send is None {
            1int
        } else {
            0
        },
        forall|i: int| #![trigger step.effects@[i]]
            0 <= i < steers@.len() ==> step.effects@[i] == EngineEffect::QueueMessage(steers@[i]),
        pre.poll.queued_to_send is None ==> step.effects@.last() == EngineEffect::PopQueuedMessage,
{
}

/// A turn starts with nothing of an earlier one: no text, no reasoning, no pending calls; and it
/// replaces no notice but an empty status line.
pub proof fn turn_starts_afresh(run: Run)
    requires
        run.well_formed(),
        run.event is TurnStarted,
    ensures
        run.steps.len() == 1,
        run.effects(0) == seq![EngineEffect::ResetStreaming],
        ({
            let (pre, post) = (run.before[0], run.after[0]);
            &&& post.turn.is_loading
            &&& !post.turn.suppress_stream_events_until_turn_complete
            &&& !post.turn.offline_mode
            &&& !post.turn.turn_error_posted
            &&& !post.turn.plan_tool_used_in_turn
            &&& post.turn.dispatch_started_at is None
            &&& post.turn.turn_started_at == Some(run.times[0])
            &&& post.turn.runtime_turn_id == Some(run.event->TurnStarted_turn_id)
            &&& post.turn.runtime_turn_status == Some(TurnStatus::InProgress)
            &&& post.turn.cumulative_turn_duration == pre.turn.cumulative_turn_duration
            &&& post.turn.plan_prompt_pending == pre.turn.plan_prompt_pending
            &&& post.stream.current_streaming_text@.len() == 0
            &&& post.stream.reasoning_buffer@.len() == 0
            &&& post.stream.streaming_message_index is None
            &&& post.stream.streaming_thinking_active_entry is None
            &&& post.stream.reasoning_header is None
            &&& post.stream.last_reasoning is None
            &&& post.tools.pending_tool_uses@.len() == 0
            &&& post.tools.approval_mode == pre.tools.approval_mode
            &&& post.queue == pre.queue
            &&& post.tokens == pre.tokens
            &&& post.agents == pre.agents
            &&& pre.status_message is Some ==> post.status_message == pre.status_message
            &&& pre.status_message is None ==> post.status_message == Some(Notice::CancelHint)
        }),
{
    runs::first_step(run);
    if run.steps.len() > 1 {
        runs::later_step(run, 1);
    }
}

} // verus!
