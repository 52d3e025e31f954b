use std::collections::HashSet;

use tui_events::notices::SidebarFocus;
use tui_events::progress::AgentProgress;
use tui_events::state::{
    Agents, App, AppMode, ApprovalMode, Composer, ModalKind, Onboarding, OnboardingState,
    PollResult, PrefixCache, Queue, Screen, Session, Stream, Tokens, Tools, Turn, VimMode,
};
use tui_events::step::{Drained, Reply};
use tui_events::terminal::{
    begin_terminal_event, resume_terminal_event, TerminalEffect, TerminalEvent,
    TerminalEventOutcome, TerminalNext, TerminalStage, TerminalStep, FOCUS_RECOVERY_DEBOUNCE,
};

fn app() -> App {
    App {
        turn: Turn {
            suppress_stream_events_until_turn_complete: false,
            is_loading: false,
            is_compacting: false,
            offline_mode: false,
            turn_error_posted: false,
            dispatch_started_at: None,
            turn_started_at: None,
            runtime_turn_id: None,
            runtime_turn_status: None,
            cumulative_turn_duration: 0,
            user_scrolled_during_stream: false,
            plan_tool_used_in_turn: false,
            plan_prompt_pending: false,
        },
        stream: Stream {
            current_streaming_text: String::new(),
            streaming_message_index: None,
            streaming_thinking_active_entry: None,
            thinking_started_at: None,
            reasoning_buffer: String::new(),
            reasoning_header: None,
            last_reasoning: None,
            translation_enabled: false,
            translation_client: false,
            pending_translations: 0,
            pending_thinking_translations: 0,
        },
        tools: Tools {
            pending_tool_uses: Vec::new(),
            pending_subagent_dispatch: None,
            last_fanout_card_index: Some(4),
            approval_mode: ApprovalMode::Suggest,
        },
        agents: Agents {
            agent_progress: AgentProgress::new(),
            subagent_cache: Vec::new(),
            agent_activity_started_at: None,
        },
        queue: Queue {
            queued_messages: 0,
            queued_draft: None,
            pending_steers: 0,
            submit_pending_steers_after_interrupt: false,
        },
        session: Session {
            current_session_id: None,
            session_title: None,
            auto_model: false,
            model: "chat".to_string(),
            last_effective_model: None,
            mode: AppMode::Agent,
            has_messages: false,
            cycle_count: 0,
        },
        tokens: Tokens {
            total_tokens: 0,
            total_conversation_tokens: 0,
            total_input_tokens: 0,
            total_output_tokens: 0,
            total_cache_hit_tokens: 0,
            total_cache_miss_tokens: 0,
            last_prompt_tokens: None,
            last_completion_tokens: None,
            last_prompt_cache_hit_tokens: None,
            last_prompt_cache_miss_tokens: None,
            last_reasoning_replay_tokens: None,
        },
        prefix: PrefixCache {
            prefix_checks_total: 0,
            prefix_change_count: 0,
            prefix_stability_pct: None,
            last_pinned_prefix_hash: None,
            last_prefix_change_desc: None,
        },
        composer: Composer {
            input: String::new(),
            cursor_position: 0,
            slash_menu_selected: 0,
            mention_menu_selected: 0,
            mention_menu_hidden: false,
            vim_enabled: false,
            vim_mode: VimMode::Insert,
            attachments: 0,
            selected_attachment: None,
            history_search_active: false,
            backtrack_primed: false,
            bracketed_paste_seen: false,
            edit_in_progress: false,
            memory_enabled: false,
        },
        screen: Screen {
            use_alt_screen: true,
            use_mouse_capture: false,
            needs_redraw: false,
            force_terminal_repaint: false,
            top_modal: None,
            sidebar_focus: SidebarFocus::Auto,
            file_tree_open: false,
            task_panel: Vec::new(),
            folded_thinking: HashSet::new(),
            collapsed_cells: HashSet::new(),
            last_transcript_visible: 20,
            transcript_selection_active: false,
            terminal_paused_at: None,
            last_focus_recovery: 0,
            last_status_frame: 0,
            last_task_refresh: 0,
            draws_since_last_full_repaint: 0,
            full_repaint_every: 100,
        },
        onboarding: Onboarding {
            state: OnboardingState::Inactive,
            api_key_input: String::new(),
            api_key_cursor: 0,
            trust_mode: false,
            onboarding_workspace_trust_gate: false,
            api_key_env_only: false,
        },
        poll: PollResult::empty(),
        status_message: None,
    }
}

fn s(text: &str) -> String {
    text.to_string()
}

fn stage(step: TerminalStep) -> TerminalStage {
    match step.next {
        TerminalNext::Await(stage) => stage,
        TerminalNext::Finish(_) | TerminalNext::Fail(_) => {
            panic!("the event is already handled")
        }
    }
}

fn run(
    app: &mut App,
    event: TerminalEvent,
    recapture: bool,
    now: u128,
    replies: Vec<Reply>,
) -> (Vec<TerminalEffect>, TerminalEventOutcome) {
    let mut all = Vec::new();
    let mut step = begin_terminal_event(app, event, recapture, now);
    for reply in replies {
        all.append(&mut step.effects);
        step = resume_terminal_event(app, stage(step), reply);
    }
    all.append(&mut step.effects);
    match step.next {
        TerminalNext::Finish(outcome) => (all, outcome),
        TerminalNext::Fail(error) => panic!("the event failed: {}", error),
        TerminalNext::Await(_) => panic!("the event is not handled yet"),
    }
}

fn paste() -> TerminalEvent {
    TerminalEvent::Paste { text: s("text") }
}

#[test]
fn pasted_text_goes_to_one_place() {
    let mut app = app();
    assert_eq!(
        run(&mut app, paste(), false, 0, vec![Reply::Flag(false)]),
        (
            vec![
                TerminalEffect::ModalPaste(s("text")),
                TerminalEffect::InsertPaste(s("text")),
            ],
            TerminalEventOutcome::Consumed
        )
    );
    assert!(app.composer.bracketed_paste_seen);
    assert_eq!(
        run(&mut app, paste(), false, 0, vec![Reply::Flag(true)]),
        (vec![TerminalEffect::ModalPaste(s("text"))], TerminalEventOutcome::Consumed)
    );
    app.screen.top_modal = Some(ModalKind::Other);
    assert_eq!(
        run(&mut app, paste(), false, 0, vec![Reply::Flag(false)]),
        (vec![TerminalEffect::ModalPaste(s("text"))], TerminalEventOutcome::Consumed)
    );
    app.composer.history_search_active = true;
    assert_eq!(
        run(&mut app, paste(), false, 0, vec![]),
        (vec![TerminalEffect::HistorySearchInsert(s("text"))], TerminalEventOutcome::Consumed)
    );
    app.onboarding.state = OnboardingState::ApiKey;
    assert_eq!(
        run(&mut app, paste(), false, 0, vec![]),
        (
            vec![TerminalEffect::InsertKeyText(s("text")), TerminalEffect::SyncKeyStatus],
            TerminalEventOutcome::Consumed
        )
    );
}

#[test]
fn debounce_lasts_two_hundred_milliseconds() {
    assert_eq!(
        FOCUS_RECOVERY_DEBOUNCE,
        std::time::Duration::from_millis(200).as_nanos()
    );
}

#[test]
fn recoveries_lie_apart() {
    let mut app = app();
    let start = 1_000_000_000;
    assert_eq!(
        run(&mut app, TerminalEvent::Focus, true, start, vec![]),
        (vec![TerminalEffect::RecoverModes], TerminalEventOutcome::Consumed)
    );
    assert_eq!(app.screen.last_focus_recovery, start);
    assert!(app.screen.force_terminal_repaint && app.screen.needs_redraw);
    app.screen.force_terminal_repaint = false;
    assert_eq!(
        run(&mut app, TerminalEvent::Focus, true, start + 199_999_999, vec![]),
        (vec![], TerminalEventOutcome::Consumed)
    );
    assert_eq!(app.screen.last_focus_recovery, start);
    assert!(app.screen.force_terminal_repaint);
    let (effects, _) =
        run(&mut app, TerminalEvent::Focus, true, start + 200_000_000, vec![]);
    assert_eq!(effects, vec![TerminalEffect::RecoverModes]);
}

#[test]
fn other_events_go_back() {
    let mut app = app();
    assert_eq!(
        run(&mut app, TerminalEvent::Other, false, 5, vec![]),
        (vec![], TerminalEventOutcome::NotConsumed)
    );
    assert_eq!(app, self::app());
    let (effects, outcome) = run(&mut app, TerminalEvent::Other, true, 1_000_000_000, vec![]);
    assert_eq!(effects, vec![TerminalEffect::RecoverModes]);
    assert_eq!(outcome, TerminalEventOutcome::NotConsumed);
}

#[test]
fn focus_is_consumed() {
    let mut app = app();
    assert_eq!(
        run(&mut app, TerminalEvent::Focus, false, 5, vec![]),
        (vec![], TerminalEventOutcome::Consumed)
    );
    assert_eq!(app, self::app());
}

#[test]
fn last_resize_counts() {
    for end in [Drained::Nothing, Drained::OtherEvent, Drained::ReadError] {
        let mut app = app();
        app.screen.needs_redraw = true;
        app.screen.draws_since_last_full_repaint = 9;
        assert_eq!(
            run(
                &mut app,
                TerminalEvent::Resize { width: 80, height: 24 },
                false,
                5,
                vec![
                    Reply::Drained(Drained::Resize { width: 90, height: 30 }),
                    Reply::Drained(Drained::Resize { width: 100, height: 40 }),
                    Reply::Drained(end),
                    Reply::Done,
                ]
            ),
            (
                vec![
                    TerminalEffect::DrainEvent,
                    TerminalEffect::DrainEvent,
                    TerminalEffect::DrainEvent,
                    TerminalEffect::ResizeTerminal { width: 100, height: 40 },
                    TerminalEffect::HandleResize { width: 100, height: 40 },
                    TerminalEffect::ForceSize { width: 100, height: 40 },
                    TerminalEffect::DrawFrame,
                    TerminalEffect::ClearForcedSize,
                ],
                TerminalEventOutcome::Consumed
            )
        );
        assert!(!app.screen.needs_redraw);
        assert_eq!(app.screen.draws_since_last_full_repaint, 0);
    }
}

#[test]
fn single_resize_is_acted_on() {
    let mut app = app();
    let (effects, _) = run(
        &mut app,
        TerminalEvent::Resize { width: 80, height: 24 },
        true,
        1_000_000_000,
        vec![Reply::Drained(Drained::Nothing), Reply::Done],
    );
    assert_eq!(effects[..3], [
        TerminalEffect::RecoverModes,
        TerminalEffect::DrainEvent,
        TerminalEffect::ResizeTerminal { width: 80, height: 24 },
    ]);
}

#[test]
fn failed_draw_is_reported() {
    let mut app = app();
    app.screen.needs_redraw = true;
    app.screen.draws_since_last_full_repaint = 9;
    let resize = TerminalEvent::Resize { width: 80, height: 24 };
    let step = begin_terminal_event(&mut app, resize, false, 5);
    let step = resume_terminal_event(&mut app, stage(step), Reply::Drained(Drained::Nothing));
    assert_eq!(step.effects.last(), Some(&TerminalEffect::DrawFrame));
    let step = resume_terminal_event(&mut app, stage(step), Reply::Failed(s("broken pipe")));
    assert_eq!(step.effects, vec![TerminalEffect::ClearForcedSize]);
    assert_eq!(step.next, TerminalNext::Fail(s("broken pipe")));
    assert!(app.screen.needs_redraw);
    assert_eq!(app.screen.draws_since_last_full_repaint, 9);
}

#[test]
fn mouse_needs_capture() {
    let mut app = app();
    assert_eq!(
        run(&mut app, TerminalEvent::Mouse, false, 5, vec![]),
        (vec![], TerminalEventOutcome::Consumed)
    );
    assert_eq!(app, self::app());
    app.screen.use_mouse_capture = true;
    assert_eq!(
        run(&mut app, TerminalEvent::Mouse, false, 5, vec![Reply::Flag(true)]),
        (vec![TerminalEffect::AskDropMotion], TerminalEventOutcome::Consumed)
    );
    assert_eq!(
        run(&mut app, TerminalEvent::Mouse, false, 5, vec![Reply::Flag(false), Reply::Flag(false)]),
        (
            vec![
                TerminalEffect::AskDropMotion,
                TerminalEffect::HandleMouse,
                TerminalEffect::HandleViewEvents,
            ],
            TerminalEventOutcome::Consumed
        )
    );
    let (_, outcome) =
        run(&mut app, TerminalEvent::Mouse, false, 5, vec![Reply::Flag(false), Reply::Flag(true)]);
    assert_eq!(outcome, TerminalEventOutcome::Return);
}

#[test]
fn failure_of_the_views_is_passed_on() {
    let mut app = app();
    app.screen.use_mouse_capture = true;
    let step = begin_terminal_event(&mut app, TerminalEvent::Mouse, false, 5);
    let step = resume_terminal_event(&mut app, stage(step), Reply::Flag(false));
    assert_eq!(step.effects.last(), Some(&TerminalEffect::HandleViewEvents));
    let step = resume_terminal_event(&mut app, stage(step), Reply::Failed(s("no terminal")));
    assert!(step.effects.is_empty());
    assert_eq!(step.next, TerminalNext::Fail(s("no terminal")));
    let mut expected = self::app();
    expected.screen.use_mouse_capture = true;
    assert_eq!(app, expected);
}

#[test]
fn effect_that_cannot_fail_has_no_error() {
    let mut app = app();
    let step = resume_terminal_event(
        &mut app,
        TerminalStage::MouseAsked,
        Reply::Failed(s("odd")),
    );
    assert!(step.effects.is_empty());
    assert_eq!(stage(step), TerminalStage::MouseAsked);
}

#[test]
fn unexpected_reply_to_a_terminal_event_changes_nothing() {
    let mut app = app();
    let step = resume_terminal_event(&mut app, TerminalStage::Drawn, Reply::Flag(true));
    assert!(step.effects.is_empty());
    assert_eq!(stage(step), TerminalStage::Drawn);
    assert_eq!(app, self::app());
}
