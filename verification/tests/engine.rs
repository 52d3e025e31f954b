use std::collections::HashSet;

use tui_events::notices::{Notice, SidebarFocus};
use tui_events::progress::AgentProgress;
use tui_events::state::{
    Agents, App, AppMode, ApprovalMode, Composer, ModalKind, Onboarding, OnboardingState,
    PollResult, PrefixCache, Queue, QueuedMessage, Screen, Session, Stream, SubAgent, Tokens,
    ToolUse, Tools, Turn, TurnOutcome, TurnStatus, VimMode,
};
use tui_events::engine::dispatch::{begin_event, resume_event};
use tui_events::engine::pass::{begin_pass, on_received, on_replied, PassNext, PassStep};
use tui_events::engine::tools::{
    decide_approval, is_agent_change, is_dispatch, is_fanout, is_task_change, tool_error_text,
    ApprovalVerdict,
};
use tui_events::engine::types::{
    AuditRecord, EngineEffect, EngineEvent, EngineNext, EngineStage, EngineStep, ToolInput,
    TurnCacheRecord, Usage,
};
use tui_events::step::Reply;

fn app() -> App {
    App {
        turn: Turn {
            suppress_stream_events_until_turn_complete: false,
            is_loading: false,
            is_compacting: false,
            offline_mode: false,
            turn_error_posted: false,
            dispatch_started_at: None,
            turn_started_at: None,
            runtime_turn_id: None,
            runtime_turn_status: None,
            cumulative_turn_duration: 0,
            user_scrolled_during_stream: false,
            plan_tool_used_in_turn: false,
            plan_prompt_pending: false,
        },
        stream: Stream {
            current_streaming_text: String::new(),
            streaming_message_index: None,
            streaming_thinking_active_entry: None,
            thinking_started_at: None,
            reasoning_buffer: String::new(),
            reasoning_header: None,
            last_reasoning: None,
            translation_enabled: false,
            translation_client: false,
            pending_translations: 0,
            pending_thinking_translations: 0,
        },
        tools: Tools {
            pending_tool_uses: Vec::new(),
            pending_subagent_dispatch: None,
            last_fanout_card_index: Some(4),
            approval_mode: ApprovalMode::Suggest,
        },
        agents: Agents {
            agent_progress: AgentProgress::new(),
            subagent_cache: Vec::new(),
            agent_activity_started_at: None,
        },
        queue: Queue {
            queued_messages: 0,
            queued_draft: None,
            pending_steers: 0,
            submit_pending_steers_after_interrupt: false,
        },
        session: Session {
            current_session_id: None,
            session_title: None,
            auto_model: false,
            model: "chat".to_string(),
            last_effective_model: None,
            mode: AppMode::Agent,
            has_messages: false,
            cycle_count: 0,
        },
        tokens: Tokens {
            total_tokens: 0,
            total_conversation_tokens: 0,
            total_input_tokens: 0,
            total_output_tokens: 0,
            total_cache_hit_tokens: 0,
            total_cache_miss_tokens: 0,
            last_prompt_tokens: None,
            last_completion_tokens: None,
            last_prompt_cache_hit_tokens: None,
            last_prompt_cache_miss_tokens: None,
            last_reasoning_replay_tokens: None,
        },
        prefix: PrefixCache {
            prefix_checks_total: 0,
            prefix_change_count: 0,
            prefix_stability_pct: None,
            last_pinned_prefix_hash: None,
            last_prefix_change_desc: None,
        },
        composer: Composer {
            input: String::new(),
            cursor_position: 0,
            slash_menu_selected: 0,
            mention_menu_selected: 0,
            mention_menu_hidden: false,
            vim_enabled: false,
            vim_mode: VimMode::Insert,
            attachments: 0,
            selected_attachment: None,
            history_search_active: false,
            backtrack_primed: false,
            bracketed_paste_seen: false,
            edit_in_progress: false,
            memory_enabled: false,
        },
        screen: Screen {
            use_alt_screen: true,
            use_mouse_capture: false,
            needs_redraw: false,
            force_terminal_repaint: false,
            top_modal: None,
            sidebar_focus: SidebarFocus::Auto,
            file_tree_open: false,
            task_panel: Vec::new(),
            folded_thinking: HashSet::new(),
            collapsed_cells: HashSet::new(),
            last_transcript_visible: 20,
            transcript_selection_active: false,
            terminal_paused_at: None,
            last_focus_recovery: 0,
            last_status_frame: 0,
            last_task_refresh: 0,
            draws_since_last_full_repaint: 0,
            full_repaint_every: 100,
        },
        onboarding: Onboarding {
            state: OnboardingState::Inactive,
            api_key_input: String::new(),
            api_key_cursor: 0,
            trust_mode: false,
            onboarding_workspace_trust_gate: false,
            api_key_env_only: false,
        },
        poll: PollResult::empty(),
        status_message: None,
    }
}

fn s(text: &str) -> String {
    text.to_string()
}

fn usage() -> Usage {
    Usage {
        input_tokens: 100,
        output_tokens: 20,
        prompt_cache_hit_tokens: Some(60),
        prompt_cache_miss_tokens: None,
        reasoning_replay_tokens: Some(5),
    }
}

fn message(text: &str) -> QueuedMessage {
    QueuedMessage { display: s(text), skill_instruction: None }
}

fn agent(id: &str, running: bool, from_prior_session: bool) -> SubAgent {
    SubAgent { agent_id: s(id), running, from_prior_session }
}

/// A client with a turn under way.
fn busy() -> App {
    let mut app = app();
    app.turn.is_loading = true;
    app
}

fn stage(step: EngineStep) -> EngineStage {
    match step.next {
        EngineNext::Await(stage) => stage,
        EngineNext::Finish | EngineNext::Fail(_) => panic!("the event is already handled"),
    }
}

fn finished(step: &EngineStep) -> bool {
    matches!(step.next, EngineNext::Finish)
}

/// Begins an event and answers each step with the next reply.
fn run(app: &mut App, event: EngineEvent, now: u128, replies: Vec<Reply>) -> Vec<EngineEffect> {
    let mut all = Vec::new();
    let mut step = begin_event(app, event, now);
    for reply in replies {
        all.append(&mut step.effects);
        step = resume_event(app, stage(step), reply, now);
    }
    assert!(finished(&step));
    all.append(&mut step.effects);
    all
}

#[test]
fn every_event_is_noted_as_received() {
    let mut app = busy();
    let effects = run(&mut app, EngineEvent::CapacityDecision, 1, vec![]);
    assert!(effects.is_empty());
    assert!(app.poll.received_engine_event);
    let mut expected = busy();
    expected.poll.received_engine_event = true;
    assert_eq!(app, expected);
}

#[test]
fn start_of_a_cancelled_turn_cancels_the_engine_again() {
    let mut app = busy();
    app.turn.suppress_stream_events_until_turn_complete = true;
    let effects = run(&mut app, EngineEvent::TurnStarted { turn_id: s("t") }, 9, vec![]);
    assert_eq!(effects, vec![EngineEffect::CancelEngine]);
    assert!(app.turn.suppress_stream_events_until_turn_complete);
    assert_eq!(app.turn.runtime_turn_id, None);
}

#[test]
fn skipped_events_leave_no_trace() {
    let mut app = busy();
    app.turn.suppress_stream_events_until_turn_complete = true;
    let effects = run(
        &mut app,
        EngineEvent::Status { message: s("late") },
        1,
        vec![Reply::Flag(true)],
    );
    assert_eq!(effects, vec![EngineEffect::AskSuppressed]);
    assert_eq!(app.status_message, None);

    let mut idle = self::app();
    let effects = run(&mut idle, EngineEvent::MessageStarted, 1, vec![Reply::Flag(true)]);
    assert_eq!(effects, vec![EngineEffect::AskStale]);
    let mut expected = self::app();
    expected.poll.received_engine_event = true;
    assert_eq!(idle, expected);
}

#[test]
fn events_that_are_not_skipped_go_on() {
    let mut app = app();
    let effects = run(
        &mut app,
        EngineEvent::Status { message: s("hello") },
        1,
        vec![Reply::Flag(false)],
    );
    assert_eq!(effects, vec![EngineEffect::AskStale]);
    assert_eq!(app.status_message, Some(Notice::Message(s("hello"))));
}

#[test]
fn unexpected_reply_changes_nothing() {
    let mut app = busy();
    let step = begin_event(&mut app, EngineEvent::MessageStarted, 1);
    let step = resume_event(&mut app, stage(step), Reply::Count(3), 1);
    assert!(step.effects.is_empty());
    assert_eq!(stage(step), EngineStage::StartedFlushed);
    let mut expected = busy();
    expected.poll.received_engine_event = true;
    assert_eq!(app, expected);
}

#[test]
fn message_starts_below_the_tools() {
    let mut app = busy();
    app.stream.current_streaming_text = s("old");
    app.stream.streaming_message_index = Some(2);
    let effects = run(&mut app, EngineEvent::MessageStarted, 1, vec![Reply::Done]);
    assert_eq!(
        effects,
        vec![EngineEffect::FlushActiveCell, EngineEffect::ResetStreaming, EngineEffect::StartText]
    );
    assert_eq!(app.stream.current_streaming_text, "");
    assert_eq!(app.stream.streaming_message_index, None);
}

#[test]
fn first_piece_of_a_message_settles_the_tools() {
    let mut app = busy();
    let effects = run(
        &mut app,
        EngineEvent::MessageDelta { content: s("Hi\u{7}") },
        1,
        vec![Reply::Text(s("Hi")), Reply::Done, Reply::Index(7), Reply::Text(s("Hi"))],
    );
    assert_eq!(
        effects,
        vec![
            EngineEffect::Sanitize(s("Hi\u{7}")),
            EngineEffect::FlushActiveCell,
            EngineEffect::EnsureAssistantCell,
            EngineEffect::PushContent(s("Hi")),
            EngineEffect::CommitText,
            EngineEffect::AppendStreamingText { index: 7, text: s("Hi") },
        ]
    );
    assert_eq!(app.stream.current_streaming_text, "Hi");
    assert!(app.poll.transcript_batch_updated);
}

#[test]
fn later_pieces_follow_the_first() {
    let mut app = busy();
    app.stream.streaming_message_index = Some(7);
    app.stream.current_streaming_text = s("Hi");
    let effects = run(
        &mut app,
        EngineEvent::MessageDelta { content: s(" you") },
        1,
        vec![Reply::Text(s(" you")), Reply::Index(7), Reply::Text(s(""))],
    );
    assert_eq!(
        effects,
        vec![
            EngineEffect::Sanitize(s(" you")),
            EngineEffect::EnsureAssistantCell,
            EngineEffect::PushContent(s(" you")),
            EngineEffect::CommitText,
        ]
    );
    assert_eq!(app.stream.current_streaming_text, "Hi you");
    assert!(!app.poll.transcript_batch_updated);
}

#[test]
fn piece_without_text_is_dropped() {
    let mut app = busy();
    let effects = run(
        &mut app,
        EngineEvent::MessageDelta { content: s("\u{1b}[0m") },
        1,
        vec![Reply::Text(s(""))],
    );
    assert_eq!(effects, vec![EngineEffect::Sanitize(s("\u{1b}[0m"))]);
    assert_eq!(app.stream.current_streaming_text, "");
}

#[test]
fn message_goes_out_with_its_reasoning_and_tools() {
    let mut app = busy();
    app.stream.current_streaming_text = s("answer");
    app.stream.streaming_message_index = Some(3);
    app.stream.last_reasoning = Some(s("because"));
    app.tools.pending_tool_uses.push(ToolUse {
        id: s("t1"),
        name: s("grep"),
        input: serde_json::Value::Null,
    });
    let effects = run(
        &mut app,
        EngineEvent::MessageComplete,
        1,
        vec![Reply::Text(s(" tail")), Reply::Done],
    );
    assert_eq!(
        effects,
        vec![
            EngineEffect::FinalizeBlockText,
            EngineEffect::AppendStreamingText { index: 3, text: s(" tail") },
            EngineEffect::EndAssistantStreaming { index: 3 },
            EngineEffect::BumpHistoryCell { index: 3 },
            EngineEffect::PushAssistantMessage {
                text: s("answer"),
                thinking: Some(s("because")),
                tool_uses: vec![ToolUse {
                    id: s("t1"),
                    name: s("grep"),
                    input: serde_json::Value::Null,
                }],
            },
        ]
    );
    assert_eq!(app.stream.last_reasoning, None);
    assert_eq!(app.stream.streaming_message_index, None);
    assert!(app.tools.pending_tool_uses.is_empty());
    assert!(app.poll.transcript_batch_updated);
}

#[test]
fn active_thinking_is_put_by_before_the_message() {
    let mut app = busy();
    app.stream.streaming_thinking_active_entry = Some(1);
    let step = begin_event(&mut app, EngineEvent::MessageComplete, 1);
    assert_eq!(step.effects, vec![EngineEffect::FinalizeCurrentThinking]);
    let step = resume_event(&mut app, stage(step), Reply::Flag(true), 1);
    assert_eq!(step.effects, vec![EngineEffect::StashReasoning]);
    assert!(app.poll.transcript_batch_updated);
    app.stream.last_reasoning = Some(s("late"));
    let step = resume_event(&mut app, stage(step), Reply::Done, 1);
    assert_eq!(
        step.effects,
        vec![EngineEffect::PushAssistantMessage {
            text: s(""),
            thinking: Some(s("late")),
            tool_uses: vec![],
        }]
    );
}

#[test]
fn message_in_another_language_is_translated() {
    let mut app = busy();
    app.stream.translation_enabled = true;
    app.stream.translation_client = true;
    app.stream.current_streaming_text = s("bonjour");
    app.session.last_effective_model = Some(s("flash"));
    app.turn.is_loading = true;
    let effects = run(
        &mut app,
        EngineEvent::MessageComplete,
        1,
        vec![Reply::Flag(true), Reply::Text(s("Translating"))],
    );
    assert_eq!(
        effects,
        vec![
            EngineEffect::AskNeedsTranslation(s("bonjour")),
            EngineEffect::TranslationStatus,
            EngineEffect::SpawnTranslation {
                history_index: None,
                original_text: s("bonjour"),
                model: s("flash"),
                thinking: None,
                tool_uses: vec![],
            },
        ]
    );
    assert_eq!(app.status_message, Some(Notice::Message(s("Translating"))));
    assert_eq!(app.stream.pending_translations, 1);
}

#[test]
fn message_without_a_translation_client_goes_out_as_it_is() {
    let mut app = busy();
    app.stream.translation_enabled = true;
    app.stream.current_streaming_text = s("bonjour");
    let effects = run(&mut app, EngineEvent::MessageComplete, 1, vec![Reply::Flag(true)]);
    assert!(matches!(effects[1], EngineEffect::PushAssistantMessage { .. }));
    assert_eq!(app.stream.pending_translations, 0);
}

#[test]
fn thinking_streams_into_its_entry() {
    let mut app = busy();
    let effects = run(
        &mut app,
        EngineEvent::ThinkingDelta { content: s("# Plan") },
        1,
        vec![
            Reply::Text(s("# Plan")),
            Reply::Maybe(Some(s("Plan"))),
            Reply::Index(2),
            Reply::Text(s("# Plan")),
        ],
    );
    assert_eq!(
        effects,
        vec![
            EngineEffect::Sanitize(s("# Plan")),
            EngineEffect::ExtractReasoningHeader,
            EngineEffect::EnsureThinkingEntry,
            EngineEffect::PushContent(s("# Plan")),
            EngineEffect::CommitText,
            EngineEffect::AppendThinking { index: 2, text: s("# Plan") },
        ]
    );
    assert_eq!(app.stream.reasoning_buffer, "# Plan");
    assert_eq!(app.stream.reasoning_header, Some(s("Plan")));
}

#[test]
fn thinking_to_be_translated_shows_a_placeholder() {
    let mut app = busy();
    app.stream.translation_enabled = true;
    app.stream.reasoning_header = Some(s("Plan"));
    let effects = run(
        &mut app,
        EngineEvent::ThinkingDelta { content: s("b") },
        1,
        vec![Reply::Text(s("b")), Reply::Index(2), Reply::Text(s("b"))],
    );
    assert_eq!(effects.last(), Some(&EngineEffect::SetThinkingPlaceholder { index: 2 }));

    let effects = run(
        &mut app,
        EngineEvent::ThinkingStarted,
        1,
        vec![Reply::Flag(false), Reply::Index(5)],
    );
    assert_eq!(
        effects,
        vec![
            EngineEffect::StartThinkingBlock,
            EngineEffect::EnsureThinkingEntry,
            EngineEffect::SetThinkingPlaceholder { index: 5 },
        ]
    );
}

#[test]
fn complete_thinking_is_always_put_by() {
    let mut app = busy();
    let effects = run(&mut app, EngineEvent::ThinkingComplete, 9, vec![Reply::Flag(true)]);
    assert_eq!(
        effects,
        vec![EngineEffect::FinalizeCurrentThinking, EngineEffect::StashReasoning]
    );

    app.stream.translation_enabled = true;
    app.stream.translation_client = true;
    app.stream.reasoning_buffer = s("pensée");
    app.stream.thinking_started_at = Some(4);
    let effects = run(
        &mut app,
        EngineEvent::ThinkingComplete,
        9,
        vec![Reply::Flag(true), Reply::Flag(true), Reply::Text(s("Translating thinking"))],
    );
    assert_eq!(
        effects,
        vec![
            EngineEffect::FinalizeBlockText,
            EngineEffect::FinalizeThinkingEntry { duration: Some(5) },
            EngineEffect::AskNeedsTranslation(s("pensée")),
            EngineEffect::ThinkingTranslationStatus,
            EngineEffect::SpawnThinkingTranslation { original: s("pensée"), model: s("chat") },
            EngineEffect::StashReasoning,
        ]
    );
    assert_eq!(app.stream.thinking_started_at, None);
    assert_eq!(app.stream.pending_translations, 1);
    assert_eq!(app.stream.pending_thinking_translations, 1);

    let effects = run(
        &mut app,
        EngineEvent::ThinkingComplete,
        9,
        vec![Reply::Flag(false), Reply::Flag(false)],
    );
    assert_eq!(
        effects[3..],
        [
            EngineEffect::ReplacePendingTranslation { original: s("pensée") },
            EngineEffect::StashReasoning,
        ]
    );
}

#[test]
fn names_of_tools_decide_what_follows() {
    assert!(is_dispatch("agent_open") && is_dispatch("delegate") && is_dispatch("rlm"));
    assert!(!is_dispatch("agent_close"));
    assert!(is_fanout("rlm_eval") && !is_fanout("agent_spawn"));
    assert!(is_task_change("exec_shell") && !is_task_change("agent_eval"));
    assert!(is_agent_change("agent_eval") && !is_agent_change("agent_spawn"));
}

#[test]
fn started_tool_call_is_pending() {
    let mut app = busy();
    let input = serde_json::Value::from(vec![1, 2]);
    let effects = run(
        &mut app,
        EngineEvent::ToolCallStarted { id: s("1"), name: s("rlm_open"), input: input.clone() },
        1,
        vec![],
    );
    assert_eq!(
        effects,
        vec![EngineEffect::HandleToolCallStarted {
            id: s("1"),
            name: s("rlm_open"),
            input: input.clone(),
        }]
    );
    assert_eq!(
        app.tools.pending_tool_uses,
        vec![ToolUse { id: s("1"), name: s("rlm_open"), input }]
    );
    assert_eq!(app.tools.pending_subagent_dispatch, Some(s("rlm_open")));
    assert_eq!(app.tools.last_fanout_card_index, None);
}

#[test]
fn started_delegation_keeps_the_fanout_card() {
    let mut app = busy();
    run(
        &mut app,
        EngineEvent::ToolCallStarted {
            id: s("1"),
            name: s("agent_open"),
            input: serde_json::Value::Null,
        },
        1,
        vec![],
    );
    assert_eq!(app.tools.pending_subagent_dispatch, Some(s("agent_open")));
    assert_eq!(app.tools.last_fanout_card_index, Some(4));
}

#[test]
fn tool_output_goes_to_the_model() {
    let mut app = busy();
    let effects = run(
        &mut app,
        EngineEvent::ToolCallComplete { id: s("1"), name: s("update_plan"), error: None },
        1,
        vec![Reply::Text(s("long")), Reply::Text(s("clean"))],
    );
    assert_eq!(
        effects,
        vec![
            EngineEffect::CompactToolResult { model: s("chat"), name: s("update_plan") },
            EngineEffect::Sanitize(s("long")),
            EngineEffect::PushToolResult { tool_use_id: s("1"), content: s("clean") },
            EngineEffect::HandleToolCallComplete { id: s("1"), name: s("update_plan") },
        ]
    );
    assert!(app.turn.plan_tool_used_in_turn);
}

#[test]
fn tool_error_goes_to_the_model_and_the_panels_follow() {
    let mut app = busy();
    let effects = run(
        &mut app,
        EngineEvent::ToolCallComplete {
            id: s("1"),
            name: s("agent_close"),
            error: Some(s("gone")),
        },
        77,
        vec![Reply::Text(s("Error: gone")), Reply::Done],
    );
    assert_eq!(
        effects,
        vec![
            EngineEffect::Sanitize(s("Error: gone")),
            EngineEffect::PushToolResult { tool_use_id: s("1"), content: s("Error: gone") },
            EngineEffect::HandleToolCallComplete { id: s("1"), name: s("agent_close") },
            EngineEffect::RefreshTaskPanel,
            EngineEffect::ListSubAgents,
        ]
    );
    assert_eq!(app.screen.last_task_refresh, 77);
    assert_eq!(tool_error_text("gone"), "Error: gone");
}

#[test]
fn turn_starts_afresh() {
    let mut app = app();
    app.turn.turn_error_posted = true;
    app.turn.offline_mode = true;
    app.turn.plan_tool_used_in_turn = true;
    app.turn.dispatch_started_at = Some(1);
    app.stream.current_streaming_text = s("old");
    app.stream.reasoning_buffer = s("old");
    app.stream.last_reasoning = Some(s("old"));
    app.stream.streaming_thinking_active_entry = Some(1);
    let effects = run(
        &mut app,
        EngineEvent::TurnStarted { turn_id: s("t1") },
        50,
        vec![Reply::Flag(false)],
    );
    assert_eq!(effects, vec![EngineEffect::AskStale, EngineEffect::ResetStreaming]);
    let mut expected = self::app();
    expected.turn.is_loading = true;
    expected.turn.turn_started_at = Some(50);
    expected.turn.runtime_turn_id = Some(s("t1"));
    expected.turn.runtime_turn_status = Some(TurnStatus::InProgress);
    expected.screen.last_status_frame = 50;
    expected.status_message = Some(Notice::CancelHint);
    expected.poll.received_engine_event = true;
    assert_eq!(app, expected);
}

#[test]
fn cancel_hint_replaces_no_other_notice() {
    let mut app = busy();
    app.status_message = Some(Notice::KillJobs);
    run(&mut app, EngineEvent::TurnStarted { turn_id: s("t1") }, 50, vec![]);
    assert_eq!(app.status_message, Some(Notice::KillJobs));
}

#[test]
fn completed_turn_is_counted_and_saved() {
    let mut app = busy();
    app.turn.turn_started_at = Some(100);
    app.turn.cumulative_turn_duration = 7;
    app.turn.user_scrolled_during_stream = true;
    app.tokens.total_tokens = 1_000;
    let effects = run(
        &mut app,
        EngineEvent::TurnComplete { usage: usage(), status: TurnOutcome::Completed, error: None },
        130,
        vec![
            Reply::Done,
            Reply::Done,
            Reply::Flag(true),
            Reply::Flag(true),
            Reply::Flag(true),
            Reply::Snapshot { id: s("sid"), title: s("title") },
            Reply::Message(Some(message("next"))),
        ],
    );
    assert_eq!(
        effects,
        vec![
            EngineEffect::FlushActiveCell,
            EngineEffect::ResetStreaming,
            EngineEffect::PushTurnCacheRecord(TurnCacheRecord {
                input_tokens: 100,
                output_tokens: 20,
                cache_hit_tokens: Some(60),
                cache_miss_tokens: None,
                reasoning_replay_tokens: Some(5),
                recorded_at: 130,
            }),
            EngineEffect::EstimateTurnCost { model: s("chat"), usage: usage() },
            EngineEffect::AccrueTurnCost,
            EngineEffect::AskNotifications,
            EngineEffect::NotifyTurnDone { elapsed: 30 },
            EngineEffect::OpenSessionStore,
            EngineEffect::BuildSnapshot,
            EngineEffect::PersistSnapshot,
            EngineEffect::ClearCheckpoint,
            EngineEffect::PopQueuedMessage,
        ]
    );
    assert!(!app.turn.is_loading);
    assert_eq!(app.turn.turn_started_at, None);
    assert_eq!(app.turn.cumulative_turn_duration, 37);
    assert!(!app.turn.user_scrolled_during_stream);
    assert_eq!(app.turn.runtime_turn_status, Some(TurnStatus::Ended(TurnOutcome::Completed)));
    assert_eq!(app.tokens.total_tokens, 1_120);
    assert_eq!(app.tokens.total_conversation_tokens, 120);
    assert_eq!(app.tokens.total_input_tokens, 100);
    assert_eq!(app.tokens.total_output_tokens, 20);
    assert_eq!(app.tokens.total_cache_hit_tokens, 60);
    assert_eq!(app.tokens.total_cache_miss_tokens, 40);
    assert_eq!(app.tokens.last_prompt_tokens, Some(100));
    assert_eq!(app.tokens.last_completion_tokens, Some(20));
    assert_eq!(app.tokens.last_prompt_cache_hit_tokens, Some(60));
    assert_eq!(app.tokens.last_prompt_cache_miss_tokens, None);
    assert_eq!(app.tokens.last_reasoning_replay_tokens, Some(5));
    assert_eq!(app.session.current_session_id, Some(s("sid")));
    assert_eq!(app.poll.queued_to_send, Some(message("next")));
    assert!(!app.screen.force_terminal_repaint);
}

#[test]
fn cache_totals_need_telemetry() {
    let mut app = busy();
    app.tokens.total_cache_hit_tokens = 3;
    app.tokens.total_cache_miss_tokens = 4;
    let usage = Usage { prompt_cache_hit_tokens: None, ..usage() };
    let step = begin_event(
        &mut app,
        EngineEvent::TurnComplete { usage, status: TurnOutcome::Completed, error: None },
        1,
    );
    resume_event(&mut app, stage(step), Reply::Done, 1);
    assert_eq!(app.tokens.total_cache_hit_tokens, 3);
    assert_eq!(app.tokens.total_cache_miss_tokens, 4);
    assert_eq!(app.tokens.total_input_tokens, 100);
}

#[test]
fn totals_saturate() {
    let mut app = busy();
    app.tokens.total_tokens = u32::MAX - 5;
    let step = begin_event(
        &mut app,
        EngineEvent::TurnComplete { usage: usage(), status: TurnOutcome::Completed, error: None },
        1,
    );
    resume_event(&mut app, stage(step), Reply::Done, 1);
    assert_eq!(app.tokens.total_tokens, u32::MAX);
    assert!(usage().is_countable());
    assert!(!Usage { input_tokens: u32::MAX, ..usage() }.is_countable());
}

#[test]
fn failed_turn_is_closed_as_interrupted_and_told_once() {
    let mut app = busy();
    app.queue.pending_steers = 2;
    let effects = run(
        &mut app,
        EngineEvent::TurnComplete {
            usage: usage(),
            status: TurnOutcome::Failed,
            error: Some(s("502")),
        },
        1,
        vec![
            Reply::Done,
            Reply::Done,
            Reply::Flag(false),
            Reply::Flag(false),
            Reply::Messages(vec![message("a"), message("b")]),
            Reply::Message(None),
        ],
    );
    assert_eq!(effects[..2], [
        EngineEffect::FinalizeActiveCellInterrupted,
        EngineEffect::FinalizeAssistantInterrupted,
    ]);
    assert_eq!(effects[3], EngineEffect::ListSubAgents);
    assert_eq!(
        effects[5..],
        [
            EngineEffect::EstimateTurnCost { model: s("chat"), usage: usage() },
            EngineEffect::OpenSessionStore,
            EngineEffect::ClearCheckpoint,
            EngineEffect::DrainPendingSteers,
            EngineEffect::QueueMessage(message("a")),
            EngineEffect::QueueMessage(message("b")),
            EngineEffect::PopQueuedMessage,
        ]
    );
    assert_eq!(app.status_message, Some(Notice::TurnFailed(s("502"))));
    assert!(app.screen.force_terminal_repaint);
    assert_eq!(app.poll.queued_to_send, None);

    let mut told = busy();
    told.turn.turn_error_posted = true;
    let step = begin_event(
        &mut told,
        EngineEvent::TurnComplete {
            usage: usage(),
            status: TurnOutcome::Failed,
            error: Some(s("502")),
        },
        1,
    );
    let step = resume_event(&mut told, stage(step), Reply::Done, 1);
    resume_event(&mut told, stage(step), Reply::Done, 1);
    assert_eq!(told.status_message, None);
}

#[test]
fn interrupted_turn_sends_the_merged_steers() {
    let mut app = busy();
    app.turn.suppress_stream_events_until_turn_complete = true;
    app.stream.current_streaming_text = s("half");
    app.queue.submit_pending_steers_after_interrupt = true;
    let effects = run(
        &mut app,
        EngineEvent::TurnComplete {
            usage: usage(),
            status: TurnOutcome::Interrupted,
            error: None,
        },
        1,
        vec![
            Reply::Flag(false),
            Reply::Done,
            Reply::Done,
            Reply::Flag(false),
            Reply::Flag(false),
            Reply::Message(Some(message("merged"))),
        ],
    );
    assert_eq!(effects.last(), Some(&EngineEffect::MergePendingSteers));
    assert_eq!(app.poll.queued_to_send, Some(message("merged")));
    assert_eq!(app.stream.current_streaming_text, "");
    assert!(!app.turn.suppress_stream_events_until_turn_complete);
}

#[test]
fn plan_asks_for_its_next_step_once() {
    let mut app = busy();
    app.session.mode = AppMode::Plan;
    app.turn.plan_tool_used_in_turn = true;
    let effects = run(
        &mut app,
        EngineEvent::TurnComplete { usage: usage(), status: TurnOutcome::Completed, error: None },
        1,
        vec![
            Reply::Done,
            Reply::Done,
            Reply::Flag(false),
            Reply::Flag(false),
            Reply::Flag(false),
            Reply::Done,
            Reply::Message(None),
        ],
    );
    assert_eq!(
        effects[6..],
        [
            EngineEffect::ClearCheckpoint,
            EngineEffect::AddPlanNote,
            EngineEffect::ShowPlanPrompt,
            EngineEffect::PopQueuedMessage,
        ]
    );
    assert!(app.turn.plan_prompt_pending);
    assert!(!app.turn.plan_tool_used_in_turn);
}

#[test]
fn plan_prompt_that_is_shown_is_not_shown_again() {
    let mut app = busy();
    app.screen.top_modal = Some(ModalKind::PlanPrompt);
    let step = resume_event(
        &mut app,
        EngineStage::TurnPlanNote { status: TurnOutcome::Completed },
        Reply::Done,
        1,
    );
    assert_eq!(step.effects, vec![EngineEffect::PopQueuedMessage]);
}

#[test]
fn many_draws_force_a_repaint() {
    let mut app = busy();
    app.screen.draws_since_last_full_repaint = 100;
    begin_event(
        &mut app,
        EngineEvent::TurnComplete { usage: usage(), status: TurnOutcome::Completed, error: None },
        1,
    );
    assert!(app.screen.force_terminal_repaint);
}

#[test]
fn session_under_way_is_checkpointed() {
    let mut app = busy();
    let effects = run(
        &mut app,
        EngineEvent::SessionUpdated { session_id: s("sid"), model: s("pro") },
        1,
        vec![
            Reply::Done,
            Reply::Flag(true),
            Reply::Snapshot { id: s("sid"), title: s("A title") },
        ],
    );
    assert_eq!(
        effects,
        vec![
            EngineEffect::InstallMessages,
            EngineEffect::SetModelSelection(s("pro")),
            EngineEffect::UpdateCompactionBudget,
            EngineEffect::InstallWorkspace,
            EngineEffect::OpenSessionStore,
            EngineEffect::BuildSnapshot,
            EngineEffect::PersistCheckpoint,
        ]
    );
    assert_eq!(app.session.current_session_id, Some(s("sid")));
    assert_eq!(app.session.session_title, Some(s("A title")));
}

#[test]
fn idle_session_gets_a_title() {
    let mut app = app();
    app.session.auto_model = true;
    let effects = run(
        &mut app,
        EngineEvent::SessionUpdated { session_id: s("sid"), model: s("pro") },
        1,
        vec![
            Reply::Flag(false),
            Reply::Done,
            Reply::Maybe(None),
            Reply::Maybe(Some(s("Derived"))),
        ],
    );
    assert_eq!(
        effects,
        vec![
            EngineEffect::AskStale,
            EngineEffect::InstallMessages,
            EngineEffect::UpdateCompactionBudget,
            EngineEffect::InstallWorkspace,
            EngineEffect::LoadSavedTitle(s("sid")),
            EngineEffect::DeriveTitle,
        ]
    );
    assert_eq!(app.session.last_effective_model, Some(s("pro")));
    assert_eq!(app.session.session_title, Some(s("Derived")));

    let effects = run(
        &mut app,
        EngineEvent::SessionUpdated { session_id: s("sid"), model: s("pro") },
        1,
        vec![Reply::Flag(false), Reply::Done],
    );
    assert_eq!(effects.last(), Some(&EngineEffect::InstallWorkspace));
}

#[test]
fn session_whose_store_is_missing_gets_the_saved_title() {
    let mut app = busy();
    run(
        &mut app,
        EngineEvent::SessionUpdated { session_id: s("sid"), model: s("pro") },
        1,
        vec![Reply::Done, Reply::Flag(false), Reply::Maybe(Some(s("Saved")))],
    );
    assert_eq!(app.session.session_title, Some(s("Saved")));
}

#[test]
fn compaction_is_shown() {
    let mut app = busy();
    run(&mut app, EngineEvent::CompactionStarted { message: s("compacting") }, 1, vec![]);
    assert!(app.turn.is_compacting);
    assert_eq!(app.status_message, Some(Notice::Message(s("compacting"))));
    run(&mut app, EngineEvent::CompactionCompleted { message: s("done") }, 1, vec![]);
    assert!(!app.turn.is_compacting);
    app.turn.is_compacting = true;
    run(&mut app, EngineEvent::CompactionFailed { message: s("failed") }, 1, vec![]);
    assert!(!app.turn.is_compacting);
    assert_eq!(app.status_message, Some(Notice::Message(s("failed"))));
}

#[test]
fn new_cycle_is_marked() {
    let mut app = busy();
    let effects = run(
        &mut app,
        EngineEvent::CycleAdvanced { from: 1, to: 2, briefing_tokens: 300 },
        1,
        vec![Reply::Done],
    );
    assert_eq!(
        effects,
        vec![
            EngineEffect::RecordBriefing,
            EngineEffect::AddSystemMessage(Notice::CycleSeparator {
                from: 1,
                to: 2,
                briefing_tokens: 300,
            }),
        ]
    );
    assert_eq!(app.session.cycle_count, 2);
    assert_eq!(
        app.status_message,
        Some(Notice::ContextRefreshed { from: 1, to: 2, briefing_tokens: 300 })
    );
}

#[test]
fn prefix_changes_are_counted() {
    let mut app = busy();
    let change = |changed: bool, description: &str, hash: &str| EngineEvent::PrefixCacheChange {
        description: s(description),
        stability_pct: 90,
        changed,
        pinned_combined_hash: s(hash),
    };
    run(&mut app, change(true, "tools", "abc"), 1, vec![]);
    assert_eq!(app.prefix.prefix_checks_total, 1);
    assert_eq!(app.prefix.prefix_change_count, 1);
    assert_eq!(app.prefix.prefix_stability_pct, Some(90));
    assert_eq!(app.prefix.last_pinned_prefix_hash, Some(s("abc")));
    assert_eq!(app.prefix.last_prefix_change_desc, Some(s("tools")));
    run(&mut app, change(true, "", ""), 1, vec![]);
    assert_eq!(app.prefix.prefix_change_count, 2);
    assert_eq!(app.prefix.last_pinned_prefix_hash, None);
    assert_eq!(app.prefix.last_prefix_change_desc, Some(s("tools")));
    run(&mut app, change(false, "unused", "x"), 1, vec![]);
    assert_eq!(app.prefix.prefix_checks_total, 3);
    assert_eq!(app.prefix.prefix_change_count, 2);
    assert_eq!(app.prefix.last_prefix_change_desc, Some(s("tools")));
}

#[test]
fn short_events_are_shown_or_handed_on() {
    let mut app = busy();
    let effects = run(&mut app, EngineEvent::Error, 1, vec![]);
    assert_eq!(effects, vec![EngineEffect::ApplyEngineError]);
    let effects = run(&mut app, EngineEvent::CoherenceState, 1, vec![]);
    assert_eq!(effects, vec![EngineEffect::SetCoherence]);
    let effects = run(&mut app, EngineEvent::SubAgentMailbox, 1, vec![]);
    assert_eq!(effects, vec![EngineEffect::HandleMailbox]);
    assert!(app.poll.transcript_batch_updated);
    run(
        &mut app,
        EngineEvent::CapacityIntervention {
            action: s("trim"),
            before_prompt_tokens: 9,
            after_prompt_tokens: 4,
        },
        1,
        vec![],
    );
    assert_eq!(
        app.status_message,
        Some(Notice::CapacityIntervention { action: s("trim"), before: 9, after: 4 })
    );
    run(
        &mut app,
        EngineEvent::CapacityMemoryPersistFailed { action: s("trim"), error: s("disk") },
        1,
        vec![],
    );
    assert_eq!(
        app.status_message,
        Some(Notice::CapacityMemoryPersistFailed { action: s("trim"), error: s("disk") })
    );
}

#[test]
fn terminal_is_paused_and_resumed_once() {
    let mut app = busy();
    let effects = run(
        &mut app,
        EngineEvent::PauseEvents { ack: true },
        8,
        vec![Reply::Flag(false), Reply::Done],
    );
    assert_eq!(
        effects,
        vec![
            EngineEffect::AskPaused,
            EngineEffect::PauseTerminal,
            EngineEffect::PauseBroker,
            EngineEffect::Acknowledge,
        ]
    );
    assert_eq!(app.screen.terminal_paused_at, Some(8));
    let effects = run(
        &mut app,
        EngineEvent::PauseEvents { ack: true },
        9,
        vec![Reply::Flag(true)],
    );
    assert_eq!(effects, vec![EngineEffect::AskPaused, EngineEffect::Acknowledge]);
    assert_eq!(app.screen.terminal_paused_at, Some(8));

    let effects =
        run(&mut app, EngineEvent::ResumeEvents, 10, vec![Reply::Flag(true), Reply::Done]);
    assert_eq!(
        effects,
        vec![EngineEffect::AskPaused, EngineEffect::ResumeTerminal, EngineEffect::ResumeBroker]
    );
    assert_eq!(app.screen.terminal_paused_at, None);
    let effects = run(&mut app, EngineEvent::ResumeEvents, 11, vec![Reply::Flag(false)]);
    assert_eq!(effects, vec![EngineEffect::AskPaused]);
}

#[test]
fn failed_handover_of_the_terminal_ends_the_event() {
    let stages = || [
        EngineStage::PauseDone { ack: true },
        EngineStage::ResumeDone,
        EngineStage::AgentRecaptured,
    ];
    for failing in stages() {
        let mut app = busy();
        app.screen.terminal_paused_at = Some(3);
        let step = resume_event(&mut app, failing, Reply::Failed(s("not a tty")), 9);
        assert!(step.effects.is_empty());
        assert_eq!(step.next, EngineNext::Fail(s("not a tty")));
        let mut expected = busy();
        expected.screen.terminal_paused_at = Some(3);
        assert_eq!(app, expected);
    }
}

#[test]
fn agents_come_report_and_go() {
    let mut app = busy();
    let effects = run(
        &mut app,
        EngineEvent::AgentSpawned { id: s("a"), prompt: s("long prompt") },
        10,
        vec![Reply::Text(s("short"))],
    );
    assert_eq!(
        effects,
        vec![EngineEffect::Summarize(s("long prompt")), EngineEffect::ListSubAgents]
    );
    assert_eq!(app.agents.agent_progress.get("a").map(String::as_str), Some("starting: short"));
    assert_eq!(app.agents.agent_activity_started_at, Some(10));
    assert_eq!(
        app.status_message,
        Some(Notice::AgentStarting { id: s("a"), summary: s("short") })
    );

    run(
        &mut app,
        EngineEvent::AgentProgress { id: s("a"), status: s("raw") },
        12,
        vec![Reply::Text(s("noise")), Reply::Flag(true)],
    );
    assert_eq!(app.agents.agent_progress.get("a").map(String::as_str), Some("starting: short"));
    run(
        &mut app,
        EngineEvent::AgentProgress { id: s("a"), status: s("raw") },
        13,
        vec![Reply::Text(s("reading")), Reply::Flag(false)],
    );
    assert_eq!(app.agents.agent_progress.get("a").map(String::as_str), Some("reading"));
    assert_eq!(app.agents.agent_activity_started_at, Some(10));
    assert_eq!(
        app.status_message,
        Some(Notice::AgentProgress { id: s("a"), display: s("reading") })
    );

    app.screen.terminal_paused_at = Some(1);
    let effects = run(
        &mut app,
        EngineEvent::AgentComplete { id: s("a"), result: s("long result") },
        30,
        vec![Reply::Text(s("result")), Reply::Flag(true), Reply::Done],
    );
    assert_eq!(
        effects,
        vec![
            EngineEffect::Summarize(s("long result")),
            EngineEffect::AskNotifications,
            EngineEffect::NotifyAgentDone { id: s("a"), result: s("long result"), elapsed: 20 },
            EngineEffect::ResumeTerminal,
            EngineEffect::ResumeBroker,
            EngineEffect::ListSubAgents,
        ]
    );
    assert_eq!(app.agents.agent_progress.get("a"), None);
    assert_eq!(app.screen.terminal_paused_at, None);
    assert!(app.screen.needs_redraw);
}

#[test]
fn user_hears_of_the_last_agent_only() {
    let mut app = busy();
    app.agents.subagent_cache.push(agent("b", true, false));
    let effects = run(
        &mut app,
        EngineEvent::AgentComplete { id: s("a"), result: s("r") },
        30,
        vec![Reply::Text(s("r"))],
    );
    assert_eq!(effects, vec![EngineEffect::Summarize(s("r")), EngineEffect::ListSubAgents]);

    let mut app = busy();
    app.agents.agent_progress.insert("b", s("busy"));
    app.agents.subagent_cache.push(agent("a", true, false));
    let step = begin_event(
        &mut app,
        EngineEvent::AgentComplete { id: s("a"), result: s("r") },
        30,
    );
    assert!(matches!(stage(step), EngineStage::AgentSummarized { others: true, .. }));
    app.agents.agent_progress.remove("b");
    app.agents.subagent_cache.push(agent("b", false, false));
    let step = begin_event(
        &mut app,
        EngineEvent::AgentComplete { id: s("a"), result: s("r") },
        30,
    );
    assert!(matches!(stage(step), EngineStage::AgentSummarized { others: false, .. }));
}

#[test]
fn agent_time_falls_back_to_the_turn() {
    let mut app = busy();
    app.turn.turn_started_at = Some(5);
    app.screen.use_alt_screen = false;
    let effects = run(
        &mut app,
        EngineEvent::AgentComplete { id: s("a"), result: s("r") },
        30,
        vec![Reply::Text(s("r")), Reply::Flag(true)],
    );
    assert_eq!(
        effects[2..],
        [
            EngineEffect::NotifyAgentDone { id: s("a"), result: s("r"), elapsed: 25 },
            EngineEffect::ListSubAgents,
        ]
    );
}

#[test]
fn agent_list_leaves_out_earlier_sessions() {
    let mut app = busy();
    let effects = run(
        &mut app,
        EngineEvent::AgentList { agents: vec![agent("b", true, false), agent("a", true, true)] },
        1,
        vec![
            Reply::Agents(vec![agent("a", true, true), agent("b", true, false)]),
            Reply::Count(1),
            Reply::Flag(true),
        ],
    );
    assert_eq!(
        effects,
        vec![
            EngineEffect::SortAgents(vec![agent("b", true, false), agent("a", true, true)]),
            EngineEffect::ReconcileAgents,
            EngineEffect::BuildAgentView(vec![agent("b", true, false)]),
            EngineEffect::UpdateAgentView,
        ]
    );
    assert_eq!(app.agents.subagent_cache, vec![agent("b", true, false)]);
    assert_eq!(app.status_message, Some(Notice::AgentTotal(1)));

    let mut app = busy();
    run(
        &mut app,
        EngineEvent::AgentList { agents: vec![] },
        1,
        vec![Reply::Agents(vec![]), Reply::Count(0), Reply::Flag(false)],
    );
    assert_eq!(app.status_message, None);
}

fn approval(tool: &str) -> EngineEvent {
    EngineEvent::ApprovalRequired {
        id: s("1"),
        tool_name: s(tool),
        description: s("why"),
        approval_key: s("key"),
        approval_grouping_key: s("group"),
    }
}

#[test]
fn approval_follows_the_table() {
    let modes = [ApprovalMode::Auto, ApprovalMode::Suggest, ApprovalMode::Never];
    for mode in modes {
        assert_eq!(decide_approval(true, true, mode), ApprovalVerdict::DenySession);
        assert_eq!(decide_approval(true, false, mode), ApprovalVerdict::DenySession);
        assert_eq!(decide_approval(false, true, mode), ApprovalVerdict::Approve);
    }
    assert_eq!(decide_approval(false, false, ApprovalMode::Auto), ApprovalVerdict::Approve);
    assert_eq!(decide_approval(false, false, ApprovalMode::Suggest), ApprovalVerdict::Ask);
    assert_eq!(decide_approval(false, false, ApprovalMode::Never), ApprovalVerdict::Deny);
}

#[test]
fn denial_for_the_session_wins_over_the_automatic_mode() {
    let mut app = busy();
    app.tools.approval_mode = ApprovalMode::Auto;
    app.session.current_session_id = Some(s("sid"));
    let effects =
        run(&mut app, approval("rm"), 1, vec![Reply::Flag(true), Reply::Flag(true)]);
    assert_eq!(
        effects,
        vec![
            EngineEffect::AskSessionApproved {
                tool_name: s("rm"),
                approval_grouping_key: s("group"),
            },
            EngineEffect::AskSessionDenied { approval_key: s("key") },
            EngineEffect::Audit(AuditRecord::AutoDenySession {
                tool_name: s("rm"),
                approval_key: s("key"),
                session_id: Some(s("sid")),
            }),
            EngineEffect::DenyToolCall(s("1")),
        ]
    );
    assert_eq!(app.status_message, None);
}

#[test]
fn approvals_and_denials_are_logged() {
    let mut app = busy();
    let effects =
        run(&mut app, approval("rm"), 1, vec![Reply::Flag(true), Reply::Flag(false)]);
    assert_eq!(
        effects[2..],
        [
            EngineEffect::Audit(AuditRecord::AutoApprove {
                tool_name: s("rm"),
                approval_key: s("key"),
                session_id: None,
                mode: AppMode::Agent,
            }),
            EngineEffect::ApproveToolCall(s("1")),
        ]
    );
    app.tools.approval_mode = ApprovalMode::Never;
    let effects =
        run(&mut app, approval("rm"), 1, vec![Reply::Flag(false), Reply::Flag(false)]);
    assert_eq!(
        effects[2..],
        [
            EngineEffect::Audit(AuditRecord::AutoDeny {
                tool_name: s("rm"),
                session_id: None,
                mode: AppMode::Agent,
            }),
            EngineEffect::DenyToolCall(s("1")),
        ]
    );
    assert_eq!(app.status_message, Some(Notice::ToolBlocked(s("rm"))));
}

#[test]
fn user_is_asked_with_the_input_of_the_call() {
    let mut app = busy();
    let input = serde_json::Value::String(s("patch"));
    run(
        &mut app,
        EngineEvent::ToolCallStarted { id: s("1"), name: s("apply_patch"), input: input.clone() },
        1,
        vec![],
    );
    let effects = run(
        &mut app,
        approval("apply_patch"),
        1,
        vec![Reply::Flag(false), Reply::Flag(false), Reply::Done],
    );
    assert_eq!(
        effects[2..],
        [
            EngineEffect::AddPatchPreview(ToolInput::Given(input.clone())),
            EngineEffect::Audit(AuditRecord::Prompted {
                tool_name: s("apply_patch"),
                description: s("why"),
                session_id: None,
                mode: AppMode::Agent,
            }),
            EngineEffect::ShowApproval {
                id: s("1"),
                tool_name: s("apply_patch"),
                description: s("why"),
                input: ToolInput::Given(input),
                approval_key: s("key"),
            },
        ]
    );
    assert_eq!(
        app.status_message,
        Some(Notice::ApprovalRequired { tool: s("apply_patch"), description: s("why") })
    );
}

#[test]
fn unknown_call_is_shown_with_an_empty_object() {
    let mut app = busy();
    let effects =
        run(&mut app, approval("rm"), 1, vec![Reply::Flag(false), Reply::Flag(false)]);
    assert!(matches!(
        effects[3],
        EngineEffect::ShowApproval { input: ToolInput::EmptyObject, .. }
    ));
}

#[test]
fn audit_records_have_names() {
    let session_id = None;
    let record = AuditRecord::AutoElevate {
        tool_name: s("sh"),
        tool_id: s("1"),
        reason: s("net"),
        session_id,
    };
    assert_eq!(record.name(), "tool.sandbox.auto_elevate");
    let record = AuditRecord::AutoDeny { tool_name: s("sh"), session_id: None, mode: AppMode::Yolo };
    assert_eq!(record.name(), "tool.approval.auto_deny");
    let record = AuditRecord::AutoDenySession {
        tool_name: s("sh"),
        approval_key: s("k"),
        session_id: None,
    };
    assert_eq!(record.name(), "tool.approval.auto_deny_session");
    let record = AuditRecord::AutoApprove {
        tool_name: s("sh"),
        approval_key: s("k"),
        session_id: None,
        mode: AppMode::Plan,
    };
    assert_eq!(record.name(), "tool.approval.auto_approve");
    let record = AuditRecord::Prompted {
        tool_name: s("sh"),
        description: s("d"),
        session_id: None,
        mode: AppMode::Plan,
    };
    assert_eq!(record.name(), "tool.approval.prompted");
    let record = AuditRecord::PromptElevation {
        tool_name: s("sh"),
        tool_id: s("1"),
        reason: s("net"),
        session_id: None,
    };
    assert_eq!(record.name(), "tool.sandbox.prompt_elevation");
}

fn elevation(command: Option<String>) -> EngineEvent {
    EngineEvent::ElevationRequired {
        tool_id: s("1"),
        tool_name: s("sh"),
        command,
        denial_reason: s("net"),
        blocked_network: true,
        blocked_write: false,
    }
}

#[test]
fn full_access_needs_the_automatic_mode() {
    let mut app = busy();
    app.tools.approval_mode = ApprovalMode::Auto;
    let effects = run(&mut app, elevation(None), 1, vec![]);
    assert_eq!(
        effects,
        vec![
            EngineEffect::Audit(AuditRecord::AutoElevate {
                tool_name: s("sh"),
                tool_id: s("1"),
                reason: s("net"),
                session_id: None,
            }),
            EngineEffect::AddSystemMessage(Notice::AutoElevating {
                tool: s("sh"),
                reason: s("net"),
            }),
            EngineEffect::RetryWithFullAccess(s("1")),
        ]
    );

    let mut app = busy();
    let effects = run(&mut app, elevation(None), 1, vec![]);
    assert_eq!(
        effects[1],
        EngineEffect::ShowElevation {
            tool_id: s("1"),
            command: s("sh"),
            denial_reason: s("net"),
            blocked_network: true,
            blocked_write: false,
        }
    );
    assert_eq!(
        app.status_message,
        Some(Notice::SandboxBlocked { tool: s("sh"), reason: s("net") })
    );
    let effects = run(&mut app, elevation(Some(s("curl x"))), 1, vec![]);
    assert!(matches!(&effects[1], EngineEffect::ShowElevation { command, .. } if command == "curl x"));
}

#[test]
fn questions_and_tool_progress_are_shown() {
    let mut app = busy();
    let effects = run(&mut app, EngineEvent::UserInputRequired { id: s("q") }, 1, vec![]);
    assert_eq!(effects, vec![EngineEffect::ShowUserInput { id: s("q") }]);
    assert_eq!(app.status_message, Some(Notice::InputRequired));
    let effects = run(
        &mut app,
        EngineEvent::ToolCallProgress { id: s("t"), output: s("long") },
        1,
        vec![Reply::Text(s("short"))],
    );
    assert_eq!(effects, vec![EngineEffect::Summarize(s("long"))]);
    assert_eq!(
        app.status_message,
        Some(Notice::ToolProgress { id: s("t"), summary: s("short") })
    );
}

#[test]
fn result_of_a_pass_is_taken_once() {
    let mut app = busy();
    run(&mut app, EngineEvent::SubAgentMailbox, 1, vec![]);
    let result = app.take_poll();
    assert!(result.received_engine_event && result.transcript_batch_updated);
    assert_eq!(result.queued_to_send, None);
    assert_eq!(app.take_poll(), PollResult::empty());
}

#[test]
fn streamed_pieces_make_the_message() {
    let mut app = busy();
    run(&mut app, EngineEvent::MessageStarted, 1, vec![Reply::Done]);
    for piece in ["To", " be", " or", " not"] {
        app.stream.streaming_message_index = Some(0);
        run(
            &mut app,
            EngineEvent::MessageDelta { content: s(piece) },
            1,
            vec![Reply::Text(s(piece)), Reply::Index(0), Reply::Text(s(""))],
        );
    }
    let effects = run(
        &mut app,
        EngineEvent::MessageComplete,
        1,
        vec![Reply::Text(s("")), Reply::Done],
    );
    assert_eq!(
        effects.last(),
        Some(&EngineEffect::PushAssistantMessage {
            text: s("To be or not"),
            thinking: None,
            tool_uses: vec![],
        })
    );
}

#[test]
fn pieces_are_added_to_what_is_there() {
    let mut app = busy();
    app.stream.current_streaming_text = s("so far");
    for piece in ["", ", so", "", " good"] {
        let step = begin_event(&mut app, EngineEvent::MessageDelta { content: s(piece) }, 1);
        let step = resume_event(&mut app, stage(step), Reply::Text(s(piece)), 1);
        if let EngineNext::Await(flushed) = step.next {
            resume_event(&mut app, flushed, Reply::Done, 1);
        }
    }
    assert_eq!(app.stream.current_streaming_text, "so far, so good");
}

#[test]
fn streamed_thinking_fills_the_buffer() {
    let mut app = busy();
    app.stream.reasoning_header = Some(s("Plan"));
    for piece in ["a", "", "b"] {
        let step = begin_event(&mut app, EngineEvent::ThinkingDelta { content: s(piece) }, 1);
        resume_event(&mut app, stage(step), Reply::Text(s(piece)), 1);
    }
    assert_eq!(app.stream.reasoning_buffer, "ab");
}

#[test]
fn what_a_pass_has_noted_stays_noted() {
    let mut app = busy();
    run(&mut app, EngineEvent::SubAgentMailbox, 1, vec![]);
    run(&mut app, EngineEvent::CapacityDecision, 1, vec![]);
    run(&mut app, EngineEvent::ThinkingStarted, 1, vec![Reply::Flag(false)]);
    assert!(app.poll.received_engine_event && app.poll.transcript_batch_updated);
}

#[test]
fn handling_of_a_turn_end_is_bounded() {
    let mut app = busy();
    app.turn.suppress_stream_events_until_turn_complete = true;
    app.session.mode = AppMode::Plan;
    app.turn.plan_tool_used_in_turn = true;
    let mut steps = 1;
    let mut step = begin_event(
        &mut app,
        EngineEvent::TurnComplete { usage: usage(), status: TurnOutcome::Completed, error: None },
        1,
    );
    let replies = vec![
        Reply::Flag(false),
        Reply::Done,
        Reply::Done,
        Reply::Flag(true),
        Reply::Flag(true),
        Reply::Flag(true),
        Reply::Snapshot { id: s("sid"), title: s("t") },
        Reply::Done,
        Reply::Message(None),
    ];
    for reply in replies {
        step = resume_event(&mut app, stage(step), reply, 1);
        steps += 1;
    }
    assert!(finished(&step));
    assert!(steps <= 11);
}

/// Takes the events in, answering each step that waits with the next reply, until none is left.
fn pass(
    app: &mut App,
    events: Vec<EngineEvent>,
    replies: Vec<Reply>,
) -> (Vec<EngineEffect>, PollResult) {
    let mut all = Vec::new();
    let bound = 11 * events.len() + 2;
    let mut steps = 1;
    let mut events = events.into_iter();
    let mut replies = replies.into_iter();
    let mut step: PassStep = begin_pass(app);
    loop {
        assert!(steps <= bound);
        steps += 1;
        all.append(&mut step.effects);
        step = match step.next {
            PassNext::Receive => on_received(app, events.next(), 1),
            PassNext::Await(stage) => {
                on_replied(app, stage, replies.next().expect("a reply is left"), 1)
            }
            PassNext::Finish(result) => {
                assert!(events.next().is_none());
                return (all, result);
            }
            PassNext::Fail(error) => panic!("the pass failed: {}", error),
        };
    }
}

#[test]
fn empty_pass_leaves_nothing() {
    let mut app = app();
    assert_eq!(pass(&mut app, vec![], vec![]), (vec![], PollResult::empty()));
    assert_eq!(app, self::app());
}

#[test]
fn pass_takes_in_every_event_that_is_ready() {
    let mut app = busy();
    app.poll.transcript_batch_updated = true;
    let (effects, result) = pass(
        &mut app,
        vec![
            EngineEvent::CapacityDecision,
            EngineEvent::MessageStarted,
            EngineEvent::SubAgentMailbox,
        ],
        vec![Reply::Done],
    );
    assert_eq!(
        effects,
        vec![
            EngineEffect::FlushActiveCell,
            EngineEffect::ResetStreaming,
            EngineEffect::StartText,
            EngineEffect::HandleMailbox,
        ]
    );
    assert!(result.received_engine_event && result.transcript_batch_updated);
    assert_eq!(app.poll, PollResult::empty());
}

#[test]
fn pass_starts_with_nothing_noted() {
    let mut app = busy();
    app.poll.transcript_batch_updated = true;
    let (_, result) = pass(&mut app, vec![EngineEvent::CapacityDecision], vec![]);
    assert!(result.received_engine_event && !result.transcript_batch_updated);
}

#[test]
fn skipped_event_counts_as_received() {
    let mut app = app();
    let (effects, result) =
        pass(&mut app, vec![EngineEvent::MessageStarted], vec![Reply::Flag(true)]);
    assert_eq!(effects, vec![EngineEffect::AskStale]);
    assert!(result.received_engine_event);
    assert_eq!(app, self::app());
}

#[test]
fn failure_ends_the_pass() {
    let mut app = busy();
    let step = begin_pass(&mut app);
    assert_eq!(step.next, PassNext::Receive);
    let step = on_received(&mut app, Some(EngineEvent::ResumeEvents), 1);
    let PassNext::Await(asked) = step.next else { panic!("the event is already handled") };
    let step = on_replied(&mut app, asked, Reply::Flag(true), 1);
    assert_eq!(step.effects, vec![EngineEffect::ResumeTerminal]);
    let PassNext::Await(resumed) = step.next else { panic!("the event is already handled") };
    let step = on_replied(&mut app, resumed, Reply::Failed(s("not a tty")), 1);
    assert!(step.effects.is_empty());
    assert_eq!(step.next, PassNext::Fail(s("not a tty")));
}
