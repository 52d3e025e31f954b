//! Assistant text and thinking as they stream in.

use vstd::prelude::*;
use vstd::string::StringExecFns;

use crate::engine::types::{EngineEffect, EngineNext, EngineStage, EngineStep};
use crate::notices::Notice;
use crate::state;
use crate::state::{time_since, App, Stream, ToolUse, Tools, Turn};
use crate::step;
use crate::step::{one, three, two, Step};

verus! {

/// The step that asks for `effects` and is the event's last.
pub open spec fn finishes(step: EngineStep, effects: Seq<EngineEffect>) -> bool {
    step::step_is(step, effects, EngineNext::Finish)
}

/// The step that asks for `effects` and goes on in `stage`.
pub open spec fn awaits(step: EngineStep, effects: Seq<EngineEffect>, stage: EngineStage) -> bool {
    step::step_is(step, effects, EngineNext::Await(stage))
}

/// The step that asks for nothing and ends the event with an error.
pub open spec fn fails(step: EngineStep, error: String) -> bool {
    step::step_is(step, seq![], EngineNext::Fail(error))
}

/// The event is handled after `effects`.
pub fn finish(effects: Vec<EngineEffect>) -> (step: EngineStep)
    ensures
        finishes(step, effects@),
{
    Step { effects, next: EngineNext::Finish }
}

/// The event's handling goes on in `stage` after `effects`.
pub fn wait(effects: Vec<EngineEffect>, stage: EngineStage) -> (step: EngineStep)
    ensures
        awaits(step, effects@, stage),
{
    Step { effects, next: EngineNext::Await(stage) }
}

/// The event ends with an error.
pub fn fail(error: String) -> (step: EngineStep)
    ensures
        fails(step, error),
{
    Step { effects: Vec::new(), next: EngineNext::Fail(error) }
}

// A message starts: the running tools are committed, then the text starts afresh below them.

pub open spec fn message_started(pre: App, post: App, step: EngineStep) -> bool {
    &&& post == pre
    &&& awaits(step, seq![EngineEffect::FlushActiveCell], EngineStage::StartedFlushed)
}

pub open spec fn started_flushed(pre: App, post: App, step: EngineStep) -> bool {
    &&& post.stream.current_streaming_text@ == Seq::<char>::empty()
    &&& post == App {
        stream: Stream {
            current_streaming_text: post.stream.current_streaming_text,
            streaming_message_index: None,
            ..pre.stream
        },
        ..pre
    }
    &&& finishes(step, seq![EngineEffect::ResetStreaming, EngineEffect::StartText])
}

pub fn on_started_flushed(app: &mut App) -> (step: EngineStep)
    ensures
        started_flushed(*old(app), *final(app), step),
{
    app.stream.current_streaming_text = String::new();
    app.stream.streaming_message_index = None;
    finish(two(EngineEffect::ResetStreaming, EngineEffect::StartText))
}

// A piece of the message: an empty one changes nothing; the first one of a message settles the
// running tools before it appears below them.

pub open spec fn message_delta(pre: App, content: String, post: App, step: EngineStep) -> bool {
    &&& post == pre
    &&& awaits(step, seq![EngineEffect::Sanitize(content)], EngineStage::DeltaSanitized)
}

pub open spec fn delta_sanitized(pre: App, sanitized: String, post: App, step: EngineStep) -> bool {
    if sanitized@.len() == 0 {
        post == pre && finishes(step, seq![])
    } else if pre.stream.streaming_message_index is None {
        post == pre && awaits(
            step,
            seq![EngineEffect::FlushActiveCell],
            EngineStage::DeltaFlushed { sanitized },
        )
    } else {
        delta_flushed(pre, sanitized, post, step)
    }
}

pub open spec fn delta_flushed(pre: App, sanitized: String, post: App, step: EngineStep) -> bool {
    &&& post.stream.current_streaming_text@ == pre.stream.current_streaming_text@ + sanitized@
    &&& post == App {
        stream: Stream {
            current_streaming_text: post.stream.current_streaming_text,
            ..pre.stream
        },
        ..pre
    }
    &&& awaits(step, seq![EngineEffect::EnsureAssistantCell], EngineStage::DeltaCell { sanitized })
}

pub open spec fn delta_cell(
    pre: App,
    sanitized: String,
    index: usize,
    post: App,
    step: EngineStep,
) -> bool {
    &&& post == pre
    &&& awaits(
        step,
        seq![EngineEffect::PushContent(sanitized), EngineEffect::CommitText],
        EngineStage::DeltaCommitted { index },
    )
}

pub open spec fn delta_committed(
    pre: App,
    index: usize,
    committed: String,
    post: App,
    step: EngineStep,
) -> bool {
    &&& post == pre.batched(committed@.len() > 0)
    &&& finishes(
        step,
        if committed@.len() > 0 {
            seq![EngineEffect::AppendStreamingText { index, text: committed }]
        } else {
            seq![]
        },
    )
}

pub fn on_delta_sanitized(app: &mut App, sanitized: String) -> (step: EngineStep)
    ensures
        delta_sanitized(*old(app), sanitized, *final(app), step),
{
    if sanitized.as_str().is_empty() {
        finish(Vec::new())
    } else if app.stream.streaming_message_index.is_none() {
        wait(one(EngineEffect::FlushActiveCell), EngineStage::DeltaFlushed { sanitized })
    } else {
        on_delta_flushed(app, sanitized)
    }
}

pub fn on_delta_flushed(app: &mut App, sanitized: String) -> (step: EngineStep)
    ensures
        delta_flushed(*old(app), sanitized, *final(app), step),
{
    app.stream.current_streaming_text.append(sanitized.as_str());
    wait(one(EngineEffect::EnsureAssistantCell), EngineStage::DeltaCell { sanitized })
}

pub fn on_delta_committed(app: &mut App, index: usize, committed: String) -> (step: EngineStep)
    ensures
        delta_committed(*old(app), index, committed, *final(app), step),
{
    if committed.as_str().is_empty() {
        finish(Vec::new())
    } else {
        app.note_batch(true);
        finish(one(EngineEffect::AppendStreamingText { index, text: committed }))
    }
}

// The message is complete. A thinking entry that is still active is finalized first, so that its
// reasoning goes out with the message whichever of the two events came first.

pub open spec fn message_complete(pre: App, post: App, step: EngineStep) -> bool {
    if pre.stream.streaming_thinking_active_entry is Some {
        post == pre && awaits(
            step,
            seq![EngineEffect::FinalizeCurrentThinking],
            EngineStage::CompleteThinking,
        )
    } else {
        complete_stashed(pre, post, step)
    }
}

pub open spec fn complete_thinking(pre: App, changed: bool, post: App, step: EngineStep) -> bool {
    &&& post == pre.batched(changed)
    &&& awaits(step, seq![EngineEffect::StashReasoning], EngineStage::CompleteStashed)
}

pub open spec fn complete_stashed(pre: App, post: App, step: EngineStep) -> bool {
    match pre.stream.streaming_message_index {
        Some(index) => {
            &&& post == App {
                stream: Stream { streaming_message_index: None, ..pre.stream },
                ..pre
            }
            &&& awaits(
                step,
                seq![EngineEffect::FinalizeBlockText],
                EngineStage::CompleteRemaining { index },
            )
        },
        None => complete_message(pre, None, post, step),
    }
}

pub open spec fn complete_remaining(
    pre: App,
    index: usize,
    remaining: String,
    post: App,
    step: EngineStep,
) -> bool {
    &&& post == pre.batched(true)
    &&& awaits(
        step,
        if remaining@.len() > 0 {
            seq![
                EngineEffect::AppendStreamingText { index, text: remaining },
                EngineEffect::EndAssistantStreaming { index },
                EngineEffect::BumpHistoryCell { index },
            ]
        } else {
            seq![
                EngineEffect::EndAssistantStreaming { index },
                EngineEffect::BumpHistoryCell { index },
            ]
        },
        EngineStage::CompleteEnded { index },
    )
}

/// The message goes out with the reasoning and the tool calls that belong to it, which are then no
/// longer pending; a text in another language is translated first, where that is wanted.
pub open spec fn complete_message(
    pre: App,
    history_index: Option<usize>,
    post: App,
    step: EngineStep,
) -> bool {
    let text = pre.stream.current_streaming_text;
    let thinking = pre.stream.last_reasoning;
    let tool_uses = pre.tools.pending_tool_uses;
    &&& post.tools.pending_tool_uses@ == Seq::<ToolUse>::empty()
    &&& post == App {
        stream: Stream { last_reasoning: None, ..pre.stream },
        tools: Tools { pending_tool_uses: post.tools.pending_tool_uses, ..pre.tools },
        ..pre
    }
    &&& if pre.stream.translation_enabled && text@.len() > 0 {
        awaits(
            step,
            seq![EngineEffect::AskNeedsTranslation(text)],
            EngineStage::CompleteNeeds { history_index, text, thinking, tool_uses },
        )
    } else {
        finishes(step, seq![EngineEffect::PushAssistantMessage { text, thinking, tool_uses }])
    }
}

pub open spec fn complete_needs(
    pre: App,
    history_index: Option<usize>,
    text: String,
    thinking: Option<String>,
    tool_uses: Vec<ToolUse>,
    needed: bool,
    post: App,
    step: EngineStep,
) -> bool {
    &&& post == pre
    &&& if needed && pre.stream.translation_client {
        awaits(
            step,
            seq![EngineEffect::TranslationStatus],
            EngineStage::CompleteStatus { history_index, text, thinking, tool_uses },
        )
    } else {
        finishes(step, seq![EngineEffect::PushAssistantMessage { text, thinking, tool_uses }])
    }
}

pub open spec fn complete_status(
    pre: App,
    history_index: Option<usize>,
    text: String,
    thinking: Option<String>,
    tool_uses: Vec<ToolUse>,
    status: String,
    post: App,
    step: EngineStep,
) -> bool {
    &&& post == App {
        turn: Turn { is_loading: true, ..pre.turn },
        stream: Stream {
            pending_translations: pre.stream.pending_translations.saturating_add(1),
            ..pre.stream
        },
        ..pre
    }.with_status(Notice::Message(status))
    &&& finishes(
        step,
        seq![
            EngineEffect::SpawnTranslation {
                history_index,
                original_text: text,
                model: pre.effective_model(),
                thinking,
                tool_uses,
            },
        ],
    )
}

pub fn on_message_complete(app: &mut App) -> (step: EngineStep)
    ensures
        message_complete(*old(app), *final(app), step),
{
    if app.stream.streaming_thinking_active_entry.is_some() {
        wait(one(EngineEffect::FinalizeCurrentThinking), EngineStage::CompleteThinking)
    } else {
        on_complete_stashed(app)
    }
}

pub fn on_complete_thinking(app: &mut App, changed: bool) -> (step: EngineStep)
    ensures
        complete_thinking(*old(app), changed, *final(app), step),
{
    app.note_batch(changed);
    wait(one(EngineEffect::StashReasoning), EngineStage::CompleteStashed)
}

pub fn on_complete_stashed(app: &mut App) -> (step: EngineStep)
    ensures
        complete_stashed(*old(app), *final(app), step),
{
    match app.stream.streaming_message_index {
        Some(index) => {
            app.stream.streaming_message_index = None;
            wait(one(EngineEffect::FinalizeBlockText), EngineStage::CompleteRemaining { index })
        },
        None => on_complete_message(app, None),
    }
}

pub fn on_complete_remaining(app: &mut App, index: usize, remaining: String) -> (step: EngineStep)
    ensures
        complete_remaining(*old(app), index, remaining, *final(app), step),
{
    app.note_batch(true);
    let effects = if remaining.as_str().is_empty() {
        two(EngineEffect::EndAssistantStreaming { index }, EngineEffect::BumpHistoryCell { index })
    } else {
        three(
            EngineEffect::AppendStreamingText { index, text: remaining },
            EngineEffect::EndAssistantStreaming { index },
            EngineEffect::BumpHistoryCell { index },
        )
    };
    wait(effects, EngineStage::CompleteEnded { index })
}

pub fn on_complete_message(app: &mut App, history_index: Option<usize>) -> (step: EngineStep)
    ensures
        complete_message(*old(app), history_index, *final(app), step),
{
    let text: String = app.stream.current_streaming_text.clone();
    let thinking = app.stream.last_reasoning.take();
    let mut tool_uses: Vec<ToolUse> = Vec::new();
    std::mem::swap(&mut tool_uses, &mut app.tools.pending_tool_uses);
    if app.stream.translation_enabled && !text.as_str().is_empty() {
        wait(
            one(EngineEffect::AskNeedsTranslation(text.clone())),
            EngineStage::CompleteNeeds { history_index, text, thinking, tool_uses },
        )
    } else {
        finish(one(EngineEffect::PushAssistantMessage { text, thinking, tool_uses }))
    }
}

pub fn on_complete_needs(
    app: &mut App,
    history_index: Option<usize>,
    text: String,
    thinking: Option<String>,
    tool_uses: Vec<ToolUse>,
    needed: bool,
) -> (step: EngineStep)
    ensures
        complete_needs(
            *old(app),
            history_index,
            text,
            thinking,
            tool_uses,
            needed,
            *final(app),
            step,
        ),
{
    if needed && app.stream.translation_client {
        wait(
            one(EngineEffect::TranslationStatus),
            EngineStage::CompleteStatus { history_index, text, thinking, tool_uses },
        )
    } else {
        finish(one(EngineEffect::PushAssistantMessage { text, thinking, tool_uses }))
    }
}

pub fn on_complete_status(
    app: &mut App,
    history_index: Option<usize>,
    text: String,
    thinking: Option<String>,
    tool_uses: Vec<ToolUse>,
    status: String,
) -> (step: EngineStep)
    ensures
        complete_status(
            *old(app),
            history_index,
            text,
            thinking,
            tool_uses,
            status,
            *final(app),
            step,
        ),
{
    app.status_message = Some(Notice::Message(status));
    app.turn.is_loading = true;
    app.stream.pending_translations = app.stream.pending_translations.saturating_add(1);
    let model: String = app.effective_model_name();
    finish(
        one(
            EngineEffect::SpawnTranslation {
                history_index,
                original_text: text,
                model,
                thinking,
                tool_uses,
            },
        ),
    )
}

// Thinking starts.

pub open spec fn thinking_started(pre: App, post: App, step: EngineStep) -> bool {
    &&& post == pre
    &&& awaits(step, seq![EngineEffect::StartThinkingBlock], EngineStage::ThinkingStarted)
}

pub open spec fn thinking_block_started(
    pre: App,
    changed: bool,
    post: App,
    step: EngineStep,
) -> bool {
    &&& post == pre.batched(changed)
    &&& if pre.stream.translation_enabled {
        awaits(step, seq![EngineEffect::EnsureThinkingEntry], EngineStage::ThinkingStartedEntry)
    } else {
        finishes(step, seq![])
    }
}

pub open spec fn thinking_started_entry(pre: App, index: usize, post: App, step: EngineStep) -> bool {
    &&& post == pre.batched(true)
    &&& finishes(step, seq![EngineEffect::SetThinkingPlaceholder { index }])
}

pub fn on_thinking_block_started(app: &mut App, changed: bool) -> (step: EngineStep)
    ensures
        thinking_block_started(*old(app), changed, *final(app), step),
{
    app.note_batch(changed);
    if app.stream.translation_enabled {
        wait(one(EngineEffect::EnsureThinkingEntry), EngineStage::ThinkingStartedEntry)
    } else {
        finish(Vec::new())
    }
}

pub fn on_thinking_started_entry(app: &mut App, index: usize) -> (step: EngineStep)
    ensures
        thinking_started_entry(*old(app), index, *final(app), step),
{
    app.note_batch(true);
    finish(one(EngineEffect::SetThinkingPlaceholder { index }))
}

// A piece of the thinking: it is kept in the reasoning buffer; the transcript shows it, or a
// placeholder where it is to be translated.

pub open spec fn thinking_delta(pre: App, content: String, post: App, step: EngineStep) -> bool {
    &&& post == pre
    &&& awaits(step, seq![EngineEffect::Sanitize(content)], EngineStage::ThinkingSanitized)
}

pub open spec fn thinking_sanitized(
    pre: App,
    sanitized: String,
    post: App,
    step: EngineStep,
) -> bool {
    if sanitized@.len() == 0 {
        post == pre && finishes(step, seq![])
    } else {
        &&& post.stream.reasoning_buffer@ == pre.stream.reasoning_buffer@ + sanitized@
        &&& post == App {
            stream: Stream { reasoning_buffer: post.stream.reasoning_buffer, ..pre.stream },
            ..pre
        }
        &&& if pre.stream.reasoning_header is None {
            awaits(
                step,
                seq![EngineEffect::ExtractReasoningHeader],
                EngineStage::ThinkingHeader { sanitized },
            )
        } else {
            awaits(
                step,
                seq![EngineEffect::EnsureThinkingEntry],
                EngineStage::ThinkingEntry { sanitized },
            )
        }
    }
}

pub open spec fn thinking_header(
    pre: App,
    sanitized: String,
    header: Option<String>,
    post: App,
    step: EngineStep,
) -> bool {
    &&& post == App { stream: Stream { reasoning_header: header, ..pre.stream }, ..pre }
    &&& awaits(
        step,
        seq![EngineEffect::EnsureThinkingEntry],
        EngineStage::ThinkingEntry { sanitized },
    )
}

pub open spec fn thinking_entry(
    pre: App,
    sanitized: String,
    index: usize,
    post: App,
    step: EngineStep,
) -> bool {
    &&& post == pre
    &&& awaits(
        step,
        seq![EngineEffect::PushContent(sanitized), EngineEffect::CommitText],
        EngineStage::ThinkingCommitted { index },
    )
}

pub open spec fn thinking_committed(
    pre: App,
    index: usize,
    committed: String,
    post: App,
    step: EngineStep,
) -> bool {
    &&& post == pre.batched(committed@.len() > 0)
    &&& finishes(
        step,
        if committed@.len() == 0 {
            seq![]
        } else if pre.stream.translation_enabled {
            seq![EngineEffect::SetThinkingPlaceholder { index }]
        } else {
            seq![EngineEffect::AppendThinking { index, text: committed }]
        },
    )
}

pub fn on_thinking_sanitized(app: &mut App, sanitized: String) -> (step: EngineStep)
    ensures
        thinking_sanitized(*old(app), sanitized, *final(app), step),
{
    if sanitized.as_str().is_empty() {
        return finish(Vec::new());
    }
    app.stream.reasoning_buffer.append(sanitized.as_str());
    if app.stream.reasoning_header.is_none() {
        wait(one(EngineEffect::ExtractReasoningHeader), EngineStage::ThinkingHeader { sanitized })
    } else {
        wait(one(EngineEffect::EnsureThinkingEntry), EngineStage::ThinkingEntry { sanitized })
    }
}

pub fn on_thinking_header(app: &mut App, sanitized: String, header: Option<String>) -> (step:
    EngineStep)
    ensures
        thinking_header(*old(app), sanitized, header, *final(app), step),
{
    app.stream.reasoning_header = header;
    wait(one(EngineEffect::EnsureThinkingEntry), EngineStage::ThinkingEntry { sanitized })
}

pub fn on_thinking_committed(app: &mut App, index: usize, committed: String) -> (step: EngineStep)
    ensures
        thinking_committed(*old(app), index, committed, *final(app), step),
{
    if committed.as_str().is_empty() {
        return finish(Vec::new());
    }
    app.note_batch(true);
    if app.stream.translation_enabled {
        finish(one(EngineEffect::SetThinkingPlaceholder { index }))
    } else {
        finish(one(EngineEffect::AppendThinking { index, text: committed }))
    }
}

// Thinking is complete: its entry is finalized, translated where that is wanted, and the reasoning
// is put by for the message in every case.

pub open spec fn thinking_complete(pre: App, now: u128, post: App, step: EngineStep) -> bool {
    if pre.stream.translation_enabled {
        &&& post == App { stream: Stream { thinking_started_at: None, ..pre.stream }, ..pre }
        &&& awaits(
            step,
            seq![
                EngineEffect::FinalizeBlockText,
                EngineEffect::FinalizeThinkingEntry {
                    duration: match pre.stream.thinking_started_at {
                        Some(t) => Some(state::elapsed(t, now)),
                        None => None,
                    },
                },
            ],
            EngineStage::ThinkingEntryFinalized { original: pre.stream.reasoning_buffer },
        )
    } else {
        post == pre && awaits(
            step,
            seq![EngineEffect::FinalizeCurrentThinking],
            EngineStage::ThinkingFinalized,
        )
    }
}

pub open spec fn thinking_finalized(pre: App, changed: bool, post: App, step: EngineStep) -> bool {
    &&& post == pre.batched(changed)
    &&& finishes(step, seq![EngineEffect::StashReasoning])
}

pub open spec fn thinking_entry_finalized(
    pre: App,
    original: String,
    changed: bool,
    post: App,
    step: EngineStep,
) -> bool {
    &&& post == pre.batched(changed)
    &&& if original@.len() > 0 {
        awaits(
            step,
            seq![EngineEffect::AskNeedsTranslation(original)],
            EngineStage::ThinkingNeeds { original },
        )
    } else {
        finishes(
            step,
            seq![
                EngineEffect::ReplacePendingTranslation { original },
                EngineEffect::StashReasoning,
            ],
        )
    }
}

pub open spec fn thinking_needs(
    pre: App,
    original: String,
    needed: bool,
    post: App,
    step: EngineStep,
) -> bool {
    &&& post == pre
    &&& if needed && pre.stream.translation_client {
        awaits(
            step,
            seq![EngineEffect::ThinkingTranslationStatus],
            EngineStage::ThinkingStatus { original },
        )
    } else {
        finishes(
            step,
            seq![
                EngineEffect::ReplacePendingTranslation { original },
                EngineEffect::StashReasoning,
            ],
        )
    }
}

pub open spec fn thinking_status(
    pre: App,
    original: String,
    status: String,
    post: App,
    step: EngineStep,
) -> bool {
    &&& post == App {
        turn: Turn { is_loading: true, ..pre.turn },
        stream: Stream {
            pending_translations: pre.stream.pending_translations.saturating_add(1),
            pending_thinking_translations: pre.stream.pending_thinking_translations.saturating_add(
                1,
            ),
            ..pre.stream
        },
        ..pre
    }.with_status(Notice::Message(status))
    &&& finishes(
        step,
        seq![
            EngineEffect::SpawnThinkingTranslation { original, model: pre.effective_model() },
            EngineEffect::StashReasoning,
        ],
    )
}

pub fn on_thinking_complete(app: &mut App, now: u128) -> (step: EngineStep)
    ensures
        thinking_complete(*old(app), now, *final(app), step),
{
    if app.stream.translation_enabled {
        let original: String = app.stream.reasoning_buffer.clone();
        let started = app.stream.thinking_started_at.take();
        let duration = match started {
            Some(_) => Some(time_since(started, now)),
            None => None,
        };
        wait(
            two(
                EngineEffect::FinalizeBlockText,
                EngineEffect::FinalizeThinkingEntry { duration },
            ),
            EngineStage::ThinkingEntryFinalized { original },
        )
    } else {
        wait(one(EngineEffect::FinalizeCurrentThinking), EngineStage::ThinkingFinalized)
    }
}

pub fn on_thinking_finalized(app: &mut App, changed: bool) -> (step: EngineStep)
    ensures
        thinking_finalized(*old(app), changed, *final(app), step),
{
    app.note_batch(changed);
    finish(one(EngineEffect::StashReasoning))
}

pub fn on_thinking_entry_finalized(app: &mut App, original: String, changed: bool) -> (step:
    EngineStep)
    ensures
        thinking_entry_finalized(*old(app), original, changed, *final(app), step),
{
    app.note_batch(changed);
    if original.as_str().is_empty() {
        finish(
            two(
                EngineEffect::ReplacePendingTranslation { original },
                EngineEffect::StashReasoning,
            ),
        )
    } else {
        wait(
            one(EngineEffect::AskNeedsTranslation(original.clone())),
            EngineStage::ThinkingNeeds { original },
        )
    }
}

pub fn on_thinking_needs(app: &mut App, original: String, needed: bool) -> (step: EngineStep)
    ensures
        thinking_needs(*old(app), original, needed, *final(app), step),
{
    if needed && app.stream.translation_client {
        wait(
            one(EngineEffect::ThinkingTranslationStatus),
            EngineStage::ThinkingStatus { original },
        )
    } else {
        finish(
            two(
                EngineEffect::ReplacePendingTranslation { original },
                EngineEffect::StashReasoning,
            ),
        )
    }
}

pub fn on_thinking_status(app: &mut App, original: String, status: String) -> (step: EngineStep)
    ensures
        thinking_status(*old(app), original, status, *final(app), step),
{
    app.status_message = Some(Notice::Message(status));
    app.turn.is_loading = true;
    app.stream.pending_translations = app.stream.pending_translations.saturating_add(1);
    app.stream.pending_thinking_translations =
    app.stream.pending_thinking_translations.saturating_add(1);
    let model: String = app.effective_model_name();
    finish(
        two(
            EngineEffect::SpawnThinkingTranslation { original, model },
            EngineEffect::StashReasoning,
        ),
    )
}

} // verus!
