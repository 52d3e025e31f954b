//! What holds of streamed messages and thinking, whatever the host answers on the way.

use vstd::prelude::*;

use crate::engine::runs;
use crate::engine::runs::Run;
use crate::engine::types::{EngineEffect, EngineStage};
use crate::notices::Notice;
use crate::state::{App, Stream, Tools};
use crate::step::Reply;

verus! {

/// A message starts empty, below the tools that have run before it.
pub proof fn message_starts_empty(run: Run)
    requires
        run.complete(),
        run.event is MessageStarted,
    ensures
        run.steps.len() == 2,
        run.journal() == seq![
            EngineEffect::FlushActiveCell,
            EngineEffect::ResetStreaming,
            EngineEffect::StartText,
        ],
        run.after[0] == run.before[0],
        run.outcome().stream.current_streaming_text@.len() == 0,
        run.outcome().stream.streaming_message_index is None,
        run.outcome().stream.reasoning_buffer == run.before[1].stream.reasoning_buffer,
        run.outcome().stream.last_reasoning == run.before[1].stream.last_reasoning,
        run.outcome().turn == run.before[1].turn,
        run.outcome().tools == run.before[1].tools,
{
    runs::first_step(run);
    runs::later_step(run, 1);
    if run.steps.len() > 2 {
        runs::later_step(run, 2);
    }
    reveal_with_fuel(Run::asked, 4);
    assert(run.journal() =~= seq![
        EngineEffect::FlushActiveCell,
        EngineEffect::ResetStreaming,
        EngineEffect::StartText,
    ]);
}

/// The step by which a piece of a message is added to the text: one later where no cell streams
/// yet, since the running tools are committed first.
pub open spec fn adding(run: Run) -> int {
    if run.before[1].stream.streaming_message_index is None {
        2
    } else {
        1
    }
}

/// A piece of a message is added as the host has sanitized it: an empty one changes nothing and
/// asks for nothing more; any other is added to the text, goes into the stream, and what the stream
/// then commits is appended to the message's cell, where there is anything.
pub proof fn piece_is_added_and_shown(run: Run)
    requires
        run.complete(),
        run.event is MessageDelta,
    ensures
        run.effects(0) == seq![EngineEffect::Sanitize(run.event->MessageDelta_content)],
        run.after[0] == run.before[0],
        run.steps.len() > 1,
        run.replies[1] matches Reply::Text(piece) && if piece@.len() == 0 {
            &&& run.steps.len() == 2
            &&& run.effects(1).len() == 0
            &&& run.after[1] == run.before[1]
        } else {
            let k = adding(run);
            &&& run.steps.len() == k + 3
            &&& k == 2 ==> run.effects(1) == seq![EngineEffect::FlushActiveCell] && run.after[1]
                == run.before[1]
            &&& run.effects(k) == seq![EngineEffect::EnsureAssistantCell]
            &&& run.after[k].stream.current_streaming_text@
                == run.before[k].stream.current_streaming_text@ + piece@
            &&& run.effects(k + 1) == seq![
                EngineEffect::PushContent(piece),
                EngineEffect::CommitText,
            ]
            &&& run.after[k + 1] == run.before[k + 1]
            &&& run.replies[k + 1] matches Reply::Index(index)
                && run.replies[k + 2] matches Reply::Text(committed) && if committed@.len() > 0 {
                &&& run.effects(k + 2) == seq![
                    EngineEffect::AppendStreamingText { index, text: committed },
                ]
                &&& run.outcome().poll.transcript_batch_updated
            } else {
                run.effects(k + 2).len() == 0 && run.outcome() == run.before[k + 2]
            }
        },
{
    let k = adding(run);
    runs::first_step(run);
    runs::later_step(run, 1);
    if let Reply::Text(piece) = run.replies[1] {
        if piece@.len() > 0 {
            if k == 2 {
                runs::later_step(run, 2);
            }
            runs::later_step(run, k + 1);
            runs::later_step(run, k + 2);
            if run.steps.len() > k + 3 {
                runs::later_step(run, k + 3);
            }
        } else if run.steps.len() > 2 {
            runs::later_step(run, 2);
        }
    }
}

/// The step of a complete message after thinking that was still active has been put by.
pub open spec fn settled(run: Run) -> int {
    if run.before[0].stream.streaming_thinking_active_entry is Some {
        2
    } else {
        0
    }
}

/// The step of a complete message that takes its parts together, after its cell has been closed.
pub open spec fn gathering(run: Run) -> int {
    if run.before[settled(run)].stream.streaming_message_index is Some {
        settled(run) + 2
    } else {
        settled(run)
    }
}

/// Whether the message is one that may be translated.
pub open spec fn may_be_translated(run: Run) -> bool {
    let app = run.before[gathering(run)];
    app.stream.translation_enabled && app.stream.current_streaming_text@.len() > 0
}

/// Whether the host has said that the message needs a translation, and there is a client for it.
pub open spec fn is_translated(run: Run) -> bool {
    let m = gathering(run);
    &&& may_be_translated(run)
    &&& run.replies[m + 1] == Reply::Flag(true)
    &&& run.before[m + 1].stream.translation_client
}

proof fn thinking_settles(run: Run)
    requires
        run.complete(),
        run.event is MessageComplete,
    ensures
        run.steps.len() > settled(run),
        settled(run) == 2 ==> {
            &&& run.effects(0) == seq![EngineEffect::FinalizeCurrentThinking]
            &&& run.after[0] == run.before[0]
            &&& run.effects(1) == seq![EngineEffect::StashReasoning]
            &&& run.replies[1] matches Reply::Flag(changed) && run.after[1]
                == run.before[1].batched(changed)
            &&& run.stage(1) is CompleteStashed
            &&& run.steps[1].next is Await
        },
{
    runs::first_step(run);
    if settled(run) == 2 {
        runs::later_step(run, 1);
        runs::later_step(run, 2);
    }
}

proof fn cell_is_closed(run: Run)
    requires
        run.complete(),
        run.event is MessageComplete,
    ensures
        run.steps.len() > gathering(run),
        run.before[settled(run)].stream.streaming_message_index matches Some(index) ==> {
            let j = settled(run);
            &&& run.effects(j) == seq![EngineEffect::FinalizeBlockText]
            &&& run.after[j].stream.streaming_message_index is None
            &&& run.after[j].stream.current_streaming_text
                == run.before[j].stream.current_streaming_text
            &&& run.after[j + 1] == run.before[j + 1].batched(true)
            &&& run.replies[j + 1] matches Reply::Text(remaining) && run.effects(j + 1) == if
            remaining@.len() > 0 {
                seq![
                    EngineEffect::AppendStreamingText { index, text: remaining },
                    EngineEffect::EndAssistantStreaming { index },
                    EngineEffect::BumpHistoryCell { index },
                ]
            } else {
                seq![
                    EngineEffect::EndAssistantStreaming { index },
                    EngineEffect::BumpHistoryCell { index },
                ]
            }
            &&& run.steps[j + 1].next is Await
            &&& run.stage(j + 1) == (EngineStage::CompleteEnded { index })
        },
{
    let j = settled(run);
    thinking_settles(run);
    runs::first_step(run);
    if j == 2 {
        runs::later_step(run, 2);
    }
    if run.before[j].stream.streaming_message_index is Some {
        runs::later_step(run, j + 1);
        runs::later_step(run, j + 2);
    }
}

/// Before a message goes out, thinking that is still active is finalized and put by, and then the
/// message's cell, where there is one, gets what the stream still held and is closed.
pub proof fn message_is_settled_first(run: Run)
    requires
        run.complete(),
        run.event is MessageComplete,
    ensures
        run.steps.len() > gathering(run),
        settled(run) == 2 ==> run.asked(2) == seq![
            EngineEffect::FinalizeCurrentThinking,
            EngineEffect::StashReasoning,
        ],
        run.before[settled(run)].stream.streaming_message_index matches Some(index) ==> {
            let j = settled(run);
            &&& run.effects(j) == seq![EngineEffect::FinalizeBlockText]
            &&& run.after[j].stream.streaming_message_index is None
            &&& run.after[j + 1].poll.transcript_batch_updated
            &&& run.replies[j + 1] matches Reply::Text(remaining) && run.effects(j + 1) == if
            remaining@.len() > 0 {
                seq![
                    EngineEffect::AppendStreamingText { index, text: remaining },
                    EngineEffect::EndAssistantStreaming { index },
                    EngineEffect::BumpHistoryCell { index },
                ]
            } else {
                seq![
                    EngineEffect::EndAssistantStreaming { index },
                    EngineEffect::BumpHistoryCell { index },
                ]
            }
        },
{
    thinking_settles(run);
    cell_is_closed(run);
    reveal_with_fuel(Run::asked, 3);
    if settled(run) == 2 {
        assert(run.asked(2) =~= seq![
            EngineEffect::FinalizeCurrentThinking,
            EngineEffect::StashReasoning,
        ]);
    }
}

proof fn message_parts(run: Run)
    requires
        run.complete(),
        run.event is MessageComplete,
    ensures
        ({
            let m = gathering(run);
            let (pre, post) = (run.before[m], run.after[m]);
            &&& run.steps.len() > m
            &&& post.stream.last_reasoning is None
            &&& post.tools.pending_tool_uses@.len() == 0
            &&& post == (App {
                stream: Stream { last_reasoning: None, ..pre.stream },
                tools: Tools {
                    pending_tool_uses: post.tools.pending_tool_uses,
                    ..pre.tools
                },
                ..pre
            })
            &&& may_be_translated(run) ==> {
                &&& run.effects(m) == seq![
                    EngineEffect::AskNeedsTranslation(pre.stream.current_streaming_text),
                ]
                &&& run.steps[m].next is Await
                &&& run.stage(m) matches EngineStage::CompleteNeeds {
                    history_index,
                    text,
                    thinking,
                    tool_uses,
                } && text == pre.stream.current_streaming_text && thinking
                    == pre.stream.last_reasoning && tool_uses == pre.tools.pending_tool_uses
                    && history_index == run.before[settled(run)].stream.streaming_message_index
            }
            &&& !may_be_translated(run) ==> {
                &&& run.effects(m) == seq![
                    EngineEffect::PushAssistantMessage {
                        text: pre.stream.current_streaming_text,
                        thinking: pre.stream.last_reasoning,
                        tool_uses: pre.tools.pending_tool_uses,
                    },
                ]
                &&& run.steps[m].next is Finish
            }
        }),
{
    let m = gathering(run);
    thinking_settles(run);
    cell_is_closed(run);
    runs::first_step(run);
    if m > 0 {
        runs::later_step(run, m);
    }
}

/// A message goes out once and whole: with the text that has streamed in, the reasoning that was
/// put by and the calls that were pending when its cell was closed; none of these belongs to a
/// later message. It goes to a translation exactly where translation is on, there is a client, and
/// the host has said of this very text that it needs one; then the client is loading and one more
/// translation is pending. Otherwise it goes to the transcript, and neither changes.
pub proof fn message_goes_out_once(run: Run)
    requires
        run.complete(),
        run.event is MessageComplete,
    ensures
        ({
            let m = gathering(run);
            let app = run.before[m];
            let last = run.steps.len() - 1;
            &&& run.after[m].stream.last_reasoning is None
            &&& run.after[m].tools.pending_tool_uses@.len() == 0
            &&& run.after[m].turn == app.turn
            &&& run.after[m].stream.pending_translations == app.stream.pending_translations
            &&& may_be_translated(run) ==> run.effects(m) == seq![
                EngineEffect::AskNeedsTranslation(app.stream.current_streaming_text),
            ]
            &&& is_translated(run) ==> {
                &&& last == m + 2
                &&& run.effects(m + 1) == seq![EngineEffect::TranslationStatus]
                &&& run.after[m + 1] == run.before[m + 1]
                &&& run.effects(last) == seq![
                    EngineEffect::SpawnTranslation {
                        history_index: run.before[settled(run)].stream.streaming_message_index,
                        original_text: app.stream.current_streaming_text,
                        model: match run.before[last].session.last_effective_model {
                            Some(model) => model,
                            None => run.before[last].session.model,
                        },
                        thinking: app.stream.last_reasoning,
                        tool_uses: app.tools.pending_tool_uses,
                    },
                ]
                &&& run.outcome().turn.is_loading
                &&& run.outcome().stream.pending_translations
                    == run.before[last].stream.pending_translations.saturating_add(1)
                &&& run.outcome().stream.pending_thinking_translations
                    == run.before[last].stream.pending_thinking_translations
                &&& run.replies[last] matches Reply::Text(status) && run.outcome().status_message
                    == Some(Notice::Message(status))
            }
            &&& !is_translated(run) ==> {
                &&& last == if may_be_translated(run) {
                    m + 1
                } else {
                    m
                }
                &&& run.effects(last) == seq![
                    EngineEffect::PushAssistantMessage {
                        text: app.stream.current_streaming_text,
                        thinking: app.stream.last_reasoning,
                        tool_uses: app.tools.pending_tool_uses,
                    },
                ]
                &&& run.outcome().turn == run.before[last].turn
                &&& run.outcome().stream.pending_translations
                    == run.before[last].stream.pending_translations
                &&& run.outcome().status_message == run.before[last].status_message
            }
        }),
{
    let m = gathering(run);
    message_parts(run);
    if may_be_translated(run) {
        runs::later_step(run, m + 1);
        if is_translated(run) {
            runs::later_step(run, m + 2);
            if run.steps.len() > m + 3 {
                runs::later_step(run, m + 3);
            }
        } else if run.steps.len() > m + 2 {
            runs::later_step(run, m + 2);
        }
    } else if run.steps.len() > m + 1 {
        runs::later_step(run, m + 1);
    }
}

/// Thinking that starts gets its block; where it is to be translated, a placeholder stands in its
/// entry from the first.
pub proof fn thinking_starts_in_its_entry(run: Run)
    requires
        run.complete(),
        run.event is ThinkingStarted,
    ensures
        run.effects(0) == seq![EngineEffect::StartThinkingBlock],
        run.after[0] == run.before[0],
        run.steps.len() > 1,
        run.replies[1] matches Reply::Flag(changed) && run.after[1] == run.before[1].batched(
            changed,
        ),
        run.before[1].stream.translation_enabled ==> {
            &&& run.steps.len() == 3
            &&& run.effects(1) == seq![EngineEffect::EnsureThinkingEntry]
            &&& run.replies[2] matches Reply::Index(index) && run.effects(2) == seq![
                EngineEffect::SetThinkingPlaceholder { index },
            ]
            &&& run.outcome() == run.before[2].batched(true)
        },
        !run.before[1].stream.translation_enabled ==> run.steps.len() == 2 && run.effects(1).len()
            == 0,
{
    runs::first_step(run);
    runs::later_step(run, 1);
    if run.steps.len() > 2 {
        runs::later_step(run, 2);
        if run.steps.len() > 3 {
            runs::later_step(run, 3);
        }
    }
}

/// The step of a piece of thinking that asks for its entry: one later where no header is known yet.
pub open spec fn entering(run: Run) -> int {
    if run.before[1].stream.reasoning_header is None {
        2
    } else {
        1
    }
}

/// A piece of thinking is added to the reasoning as the host has sanitized it; an empty one changes
/// nothing. A header is looked for until one is found. What the stream commits is shown in the
/// entry, or a placeholder in its place where the thinking is to be translated.
pub proof fn thinking_is_added_and_shown(run: Run)
    requires
        run.complete(),
        run.event is ThinkingDelta,
    ensures
        run.effects(0) == seq![EngineEffect::Sanitize(run.event->ThinkingDelta_content)],
        run.after[0] == run.before[0],
        run.steps.len() > 1,
        run.replies[1] matches Reply::Text(piece) && if piece@.len() == 0 {
            &&& run.steps.len() == 2
            &&& run.effects(1).len() == 0
            &&& run.after[1] == run.before[1]
        } else {
            let k = entering(run);
            &&& run.steps.len() == k + 3
            &&& run.after[1].stream.reasoning_buffer@ == run.before[1].stream.reasoning_buffer@
                + piece@
            &&& run.after[1].stream.current_streaming_text
                == run.before[1].stream.current_streaming_text
            &&& k == 2 ==> {
                &&& run.effects(1) == seq![EngineEffect::ExtractReasoningHeader]
                &&& run.replies[2] == Reply::Maybe(run.after[2].stream.reasoning_header)
                &&& run.after[2].stream.reasoning_buffer == run.before[2].stream.reasoning_buffer
            }
            &&& run.effects(k) == seq![EngineEffect::EnsureThinkingEntry]
            &&& run.effects(k + 1) == seq![
                EngineEffect::PushContent(piece),
                EngineEffect::CommitText,
            ]
            &&& run.after[k + 1] == run.before[k + 1]
            &&& run.replies[k + 1] matches Reply::Index(index)
                && run.replies[k + 2] matches Reply::Text(committed) && if committed@.len() == 0 {
                run.effects(k + 2).len() == 0 && run.outcome() == run.before[k + 2]
            } else {
                &&& run.outcome() == run.before[k + 2].batched(true)
                &&& run.before[k + 2].stream.translation_enabled ==> run.effects(k + 2) == seq![
                    EngineEffect::SetThinkingPlaceholder { index },
                ]
                &&& !run.before[k + 2].stream.translation_enabled ==> run.effects(k + 2) == seq![
                    EngineEffect::AppendThinking { index, text: committed },
                ]
            }
        },
{
    let k = entering(run);
    runs::first_step(run);
    runs::later_step(run, 1);
    if let Reply::Text(piece) = run.replies[1] {
        if piece@.len() > 0 {
            if k == 2 {
                runs::later_step(run, 2);
            }
            runs::later_step(run, k + 1);
            runs::later_step(run, k + 2);
            if run.steps.len() > k + 3 {
                runs::later_step(run, k + 3);
            }
        } else if run.steps.len() > 2 {
            runs::later_step(run, 2);
        }
    }
}

/// Whether the host has said that the thinking needs a translation, and there is a client for it.
pub open spec fn thinking_is_translated(run: Run) -> bool {
    &&& run.before[0].stream.translation_enabled
    &&& run.before[0].stream.reasoning_buffer@.len() > 0
    &&& run.replies[2] == Reply::Flag(true)
    &&& run.before[2].stream.translation_client
}

/// Thinking that is complete is finalized and its reasoning put by for the message, last of all and
/// in every case. It is translated exactly where translation is on, there is a client, and the host
/// has said of this very reasoning that it needs one; where it is to be shown as it is, it replaces
/// the placeholder.
pub proof fn complete_thinking_is_put_by(run: Run)
    requires
        run.complete(),
        run.event is ThinkingComplete,
    ensures
        ({
            let original = run.before[0].stream.reasoning_buffer;
            let last = run.steps.len() - 1;
            &&& run.effects(last).last() == EngineEffect::StashReasoning
            &&& forall|i: int|
                0 <= i < last ==> !(#[trigger] run.effects(i)).contains(EngineEffect::StashReasoning)
            &&& !run.before[0].stream.translation_enabled ==> {
                &&& run.effects(0) == seq![EngineEffect::FinalizeCurrentThinking]
                &&& run.after[0] == run.before[0]
                &&& last == 1
                &&& run.effects(1).len() == 1
                &&& run.replies[1] matches Reply::Flag(changed) && run.outcome()
                    == run.before[1].batched(changed)
            }
            &&& run.before[0].stream.translation_enabled ==> {
                &&& run.effects(0).len() == 2
                &&& run.effects(0)[0] == EngineEffect::FinalizeBlockText
                &&& run.effects(0)[1] matches EngineEffect::FinalizeThinkingEntry { duration }
                    && match run.before[0].stream.thinking_started_at {
                    Some(started) => duration == Some(
                        if started <= run.times[0] {
                            (run.times[0] - started) as u128
                        } else {
                            0
                        },
                    ),
                    None => duration is None,
                }
                &&& run.after[0].stream.thinking_started_at is None
                &&& run.after[0].stream.reasoning_buffer == original
                &&& run.replies[1] matches Reply::Flag(changed) && run.after[1]
                    == run.before[1].batched(changed)
                &&& original@.len() > 0 ==> run.effects(1) == seq![
                    EngineEffect::AskNeedsTranslation(original),
                ]
                &&& !thinking_is_translated(run) ==> {
                    &&& last == if original@.len() > 0 {
                        2int
                    } else {
                        1
                    }
                    &&& run.effects(last) == seq![
                        EngineEffect::ReplacePendingTranslation { original },
                        EngineEffect::StashReasoning,
                    ]
                    &&& run.outcome().turn == run.before[last].turn
                    &&& run.outcome().stream == run.before[last].stream
                }
                &&& thinking_is_translated(run) ==> {
                    &&& last == 3
                    &&& run.effects(2) == seq![EngineEffect::ThinkingTranslationStatus]
                    &&& run.after[2] == run.before[2]
                    &&& run.effects(3) == seq![
                        EngineEffect::SpawnThinkingTranslation {
                            original,
                            model: match run.before[3].session.last_effective_model {
                                Some(model) => model,
                                None => run.before[3].session.model,
                            },
                        },
                        EngineEffect::StashReasoning,
                    ]
                    &&& run.outcome().turn.is_loading
                    &&& run.outcome().stream.pending_translations
                        == run.before[3].stream.pending_translations.saturating_add(1)
                    &&& run.outcome().stream.pending_thinking_translations
                        == run.before[3].stream.pending_thinking_translations.saturating_add(1)
                    &&& run.replies[3] matches Reply::Text(status) && run.outcome().status_message
                        == Some(Notice::Message(status))
                }
            }
        }),
{
    runs::first_step(run);
    runs::later_step(run, 1);
    if run.steps.len() > 2 {
        runs::later_step(run, 2);
        if run.steps.len() > 3 {
            runs::later_step(run, 3);
            if run.steps.len() > 4 {
                runs::later_step(run, 4);
            }
        }
    }
}

} // verus!
