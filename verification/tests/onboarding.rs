use std::collections::HashSet;

use tui_events::keys::{Key, KeyCode, KeyTraits, Modifiers, CONTROL};
use tui_events::notices::{Notice, SidebarFocus, Toast};
use tui_events::onboarding::{
    begin_onboarding_key, resume_onboarding_key, OnboardingAction, OnboardingEffect,
    OnboardingNext, OnboardingStage, OnboardingStep,
};
use tui_events::progress::AgentProgress;
use tui_events::state::{
    Agents, App, AppMode, ApprovalMode, Composer, Onboarding, OnboardingState, PollResult,
    PrefixCache, Queue, Screen, Session, Stream, Tokens, Tools, Turn, VimMode,
};
use tui_events::step::Reply;

fn app() -> App {
    App {
        turn: Turn {
            suppress_stream_events_until_turn_complete: false,
            is_loading: false,
            is_compacting: false,
            offline_mode: false,
            turn_error_posted: false,
            dispatch_started_at: None,
            turn_started_at: None,
            runtime_turn_id: None,
            runtime_turn_status: None,
            cumulative_turn_duration: 0,
            user_scrolled_during_stream: false,
            plan_tool_used_in_turn: false,
            plan_prompt_pending: false,
        },
        stream: Stream {
            current_streaming_text: String::new(),
            streaming_message_index: None,
            streaming_thinking_active_entry: None,
            thinking_started_at: None,
            reasoning_buffer: String::new(),
            reasoning_header: None,
            last_reasoning: None,
            translation_enabled: false,
            translation_client: false,
            pending_translations: 0,
            pending_thinking_translations: 0,
        },
        tools: Tools {
            pending_tool_uses: Vec::new(),
            pending_subagent_dispatch: None,
            last_fanout_card_index: Some(4),
            approval_mode: ApprovalMode::Suggest,
        },
        agents: Agents {
            agent_progress: AgentProgress::new(),
            subagent_cache: Vec::new(),
            agent_activity_started_at: None,
        },
        queue: Queue {
            queued_messages: 0,
            queued_draft: None,
            pending_steers: 0,
            submit_pending_steers_after_interrupt: false,
        },
        session: Session {
            current_session_id: None,
            session_title: None,
            auto_model: false,
            model: "chat".to_string(),
            last_effective_model: None,
            mode: AppMode::Agent,
            has_messages: false,
            cycle_count: 0,
        },
        tokens: Tokens {
            total_tokens: 0,
            total_conversation_tokens: 0,
            total_input_tokens: 0,
            total_output_tokens: 0,
            total_cache_hit_tokens: 0,
            total_cache_miss_tokens: 0,
            last_prompt_tokens: None,
            last_completion_tokens: None,
            last_prompt_cache_hit_tokens: None,
            last_prompt_cache_miss_tokens: None,
            last_reasoning_replay_tokens: None,
        },
        prefix: PrefixCache {
            prefix_checks_total: 0,
            prefix_change_count: 0,
            prefix_stability_pct: None,
            last_pinned_prefix_hash: None,
            last_prefix_change_desc: None,
        },
        composer: Composer {
            input: String::new(),
            cursor_position: 0,
            slash_menu_selected: 0,
            mention_menu_selected: 0,
            mention_menu_hidden: false,
            vim_enabled: false,
            vim_mode: VimMode::Insert,
            attachments: 0,
            selected_attachment: None,
            history_search_active: false,
            backtrack_primed: false,
            bracketed_paste_seen: false,
            edit_in_progress: false,
            memory_enabled: false,
        },
        screen: Screen {
            use_alt_screen: true,
            use_mouse_capture: false,
            needs_redraw: false,
            force_terminal_repaint: false,
            top_modal: None,
            sidebar_focus: SidebarFocus::Auto,
            file_tree_open: false,
            task_panel: Vec::new(),
            folded_thinking: HashSet::new(),
            collapsed_cells: HashSet::new(),
            last_transcript_visible: 20,
            transcript_selection_active: false,
            terminal_paused_at: None,
            last_focus_recovery: 0,
            last_status_frame: 0,
            last_task_refresh: 0,
            draws_since_last_full_repaint: 0,
            full_repaint_every: 100,
        },
        onboarding: Onboarding {
            state: OnboardingState::Inactive,
            api_key_input: String::new(),
            api_key_cursor: 0,
            trust_mode: false,
            onboarding_workspace_trust_gate: false,
            api_key_env_only: false,
        },
        poll: PollResult::empty(),
        status_message: None,
    }
}

fn s(text: &str) -> String {
    text.to_string()
}

fn on(state: OnboardingState) -> App {
    let mut app = app();
    app.onboarding.state = state;
    app
}

fn key(code: KeyCode, bits: u8) -> Key {
    Key {
        code,
        modifiers: Modifiers { bits },
        traits: KeyTraits {
            ctrl_h_backspace: false,
            paste: false,
            text_input: false,
            file_tree_toggle: false,
            option_v: false,
            composer_newline: false,
            word_cursor: false,
            alt_nav: false,
            copy: false,
            ctrl_or_alt: false,
        },
    }
}

fn stage(step: OnboardingStep) -> OnboardingStage {
    match step.next {
        OnboardingNext::Await(stage) => stage,
        OnboardingNext::Finish(_) => panic!("the key is already handled"),
    }
}

fn run(app: &mut App, key: Key, replies: Vec<Reply>) -> (Vec<OnboardingEffect>, OnboardingAction) {
    let mut all = Vec::new();
    let mut step = begin_onboarding_key(app, key);
    for reply in replies {
        all.append(&mut step.effects);
        step = resume_onboarding_key(app, stage(step), reply);
    }
    all.append(&mut step.effects);
    match step.next {
        OnboardingNext::Finish(action) => (all, action),
        OnboardingNext::Await(_) => panic!("the key is not handled yet"),
    }
}

const STATES: [OnboardingState; 6] = [
    OnboardingState::Inactive,
    OnboardingState::Welcome,
    OnboardingState::Language,
    OnboardingState::ApiKey,
    OnboardingState::TrustDirectory,
    OnboardingState::Tips,
];

#[test]
fn control_c_leaves_every_screen() {
    for state in STATES {
        let mut app = on(state);
        assert_eq!(
            run(&mut app, key(KeyCode::Char('c'), CONTROL), vec![]),
            (vec![OnboardingEffect::ShutdownEngine], OnboardingAction::Shutdown)
        );
        assert_eq!(app, on(state));
    }
}

#[test]
fn escape_leads_back_to_the_welcome() {
    let mut app = on(OnboardingState::ApiKey);
    app.onboarding.api_key_input = s("secret");
    app.onboarding.api_key_cursor = 6;
    app.status_message = Some(Notice::KillJobs);
    assert_eq!(
        run(&mut app, key(KeyCode::Esc, 0), vec![]),
        (vec![], OnboardingAction::Handled)
    );
    assert_eq!(app, on(OnboardingState::Welcome));
    let mut app = on(OnboardingState::Language);
    run(&mut app, key(KeyCode::Esc, 0), vec![]);
    assert_eq!(app, on(OnboardingState::Welcome));
    let mut app = on(OnboardingState::Tips);
    run(&mut app, key(KeyCode::Esc, 0), vec![]);
    assert_eq!(app, on(OnboardingState::Tips));
}

#[test]
fn digit_picks_a_language() {
    let mut app = on(OnboardingState::Language);
    let two = key(KeyCode::Char('2'), 0);
    assert_eq!(
        run(&mut app, two, vec![Reply::Maybe(Some(s("de"))), Reply::Maybe(None)]),
        (
            vec![
                OnboardingEffect::LanguageForHotkey('2'),
                OnboardingEffect::SetLocale(s("de")),
                OnboardingEffect::ShowToast(Toast::LanguageSet(s("de"))),
                OnboardingEffect::AdvanceAfterLanguage,
            ],
            OnboardingAction::Handled
        )
    );
    let (effects, _) =
        run(&mut app, two, vec![Reply::Maybe(Some(s("de"))), Reply::Maybe(Some(s("denied")))]);
    assert_eq!(effects.len(), 2);
    assert_eq!(app.status_message, Some(Notice::LocaleFailed(s("denied"))));
    let (effects, _) = run(&mut app, two, vec![Reply::Maybe(None)]);
    assert_eq!(effects, vec![OnboardingEffect::LanguageForHotkey('2')]);
    let (effects, _) = run(&mut app, key(KeyCode::Char('x'), 0), vec![]);
    assert!(effects.is_empty());
}

#[test]
fn enter_goes_on() {
    let enter = key(KeyCode::Enter, 0);
    let cases = [
        (OnboardingState::Inactive, vec![]),
        (OnboardingState::Welcome, vec![OnboardingEffect::AdvanceFromWelcome]),
        (OnboardingState::Language, vec![OnboardingEffect::AdvanceAfterLanguage]),
        (OnboardingState::TrustDirectory, vec![]),
        (OnboardingState::Tips, vec![OnboardingEffect::FinishOnboarding]),
    ];
    for (state, effects) in cases {
        let mut app = on(state);
        assert_eq!(run(&mut app, enter, vec![]), (effects, OnboardingAction::Handled));
    }
}

#[test]
fn saved_key_restarts_the_engine() {
    let mut app = on(OnboardingState::ApiKey);
    app.onboarding.api_key_input = s("  sk-1\n");
    app.onboarding.api_key_env_only = true;
    app.turn.offline_mode = true;
    app.session.has_messages = true;
    app.status_message = Some(Notice::KillJobs);
    let (effects, action) = run(
        &mut app,
        key(KeyCode::Enter, 0),
        vec![
            Reply::Maybe(None),
            Reply::Saved(Ok(s("config.toml"))),
            Reply::Done,
            Reply::Done,
        ],
    );
    assert_eq!(
        effects,
        vec![
            OnboardingEffect::ValidateKey(s("sk-1")),
            OnboardingEffect::SubmitKey,
            OnboardingEffect::ShowToast(Toast::ApiKeySaved(s("config.toml"))),
            OnboardingEffect::ShutdownEngine,
            OnboardingEffect::RestartEngine(s("sk-1")),
            OnboardingEffect::SyncSession,
            OnboardingEffect::AdvanceAfterLanguage,
        ]
    );
    assert_eq!(action, OnboardingAction::Handled);
    assert_eq!(app.status_message, None);
    assert!(!app.turn.offline_mode && !app.onboarding.api_key_env_only);

    app.session.has_messages = false;
    let (effects, _) = run(
        &mut app,
        key(KeyCode::Enter, 0),
        vec![
            Reply::Maybe(None),
            Reply::Saved(Ok(s("config.toml"))),
            Reply::Done,
            Reply::Done,
        ],
    );
    assert!(!effects.contains(&OnboardingEffect::SyncSession));
}

#[test]
fn rejected_key_is_not_saved() {
    let mut app = on(OnboardingState::ApiKey);
    app.onboarding.api_key_input = s("x");
    let (effects, _) =
        run(&mut app, key(KeyCode::Enter, 0), vec![Reply::Maybe(Some(s("too short")))]);
    assert_eq!(effects, vec![OnboardingEffect::ValidateKey(s("x"))]);
    assert_eq!(app.status_message, Some(Notice::Message(s("too short"))));
    assert_eq!(app.onboarding.api_key_input, "x");
}

#[test]
fn key_that_cannot_be_saved_restarts_nothing() {
    let mut app = on(OnboardingState::ApiKey);
    app.onboarding.api_key_input = s("x");
    let (effects, _) = run(
        &mut app,
        key(KeyCode::Enter, 0),
        vec![Reply::Maybe(None), Reply::Saved(Err(s("read-only")))],
    );
    assert_eq!(
        effects,
        vec![OnboardingEffect::ValidateKey(s("x")), OnboardingEffect::SubmitKey]
    );
    assert_eq!(app.status_message, Some(Notice::Message(s("read-only"))));
}

#[test]
fn workspace_is_trusted_or_refused() {
    for c in ['y', 'Y', '1'] {
        let mut app = on(OnboardingState::TrustDirectory);
        let (effects, _) = run(&mut app, key(KeyCode::Char(c), 0), vec![Reply::Maybe(None)]);
        assert_eq!(effects, vec![OnboardingEffect::MarkTrusted]);
        assert!(app.onboarding.trust_mode);
        assert_eq!(app.onboarding.state, OnboardingState::Tips);
    }
    let mut app = on(OnboardingState::TrustDirectory);
    app.onboarding.onboarding_workspace_trust_gate = true;
    run(&mut app, key(KeyCode::Char('y'), 0), vec![Reply::Maybe(None)]);
    assert_eq!(app.onboarding.state, OnboardingState::Inactive);
    assert!(!app.onboarding.onboarding_workspace_trust_gate);

    let mut app = on(OnboardingState::TrustDirectory);
    run(&mut app, key(KeyCode::Char('y'), 0), vec![Reply::Maybe(Some(s("denied")))]);
    assert!(!app.onboarding.trust_mode);
    assert_eq!(app.status_message, Some(Notice::TrustFailed(s("denied"))));
    for c in ['n', 'N', '2'] {
        assert_eq!(
            run(&mut app, key(KeyCode::Char(c), 0), vec![]),
            (vec![OnboardingEffect::ShutdownEngine], OnboardingAction::Shutdown)
        );
    }
}

#[test]
fn api_key_is_edited_on_its_screen_only() {
    let mut ctrl_h = key(KeyCode::Char('h'), CONTROL);
    ctrl_h.traits.ctrl_h_backspace = true;
    let mut paste = key(KeyCode::Char('v'), CONTROL);
    paste.traits.paste = true;
    let mut text = key(KeyCode::Char('k'), 0);
    text.traits.text_input = true;
    let cases = [
        (key(KeyCode::Backspace, 0), OnboardingEffect::DeleteKeyChar),
        (ctrl_h, OnboardingEffect::DeleteKeyChar),
        (paste, OnboardingEffect::PasteKey),
        (text, OnboardingEffect::InsertKeyChar('k')),
    ];
    for (key, effect) in cases {
        let mut app = on(OnboardingState::ApiKey);
        assert_eq!(
            run(&mut app, key, vec![]),
            (vec![effect, OnboardingEffect::SyncKeyStatus], OnboardingAction::Handled)
        );
        for state in STATES {
            if state != OnboardingState::ApiKey {
                assert_eq!(
                    run(&mut on(state), key, vec![]),
                    (vec![], OnboardingAction::Handled)
                );
            }
        }
    }
    let mut app = on(OnboardingState::ApiKey);
    assert_eq!(
        run(&mut app, key(KeyCode::Char('k'), 0), vec![]),
        (vec![], OnboardingAction::Handled)
    );
}

#[test]
fn unexpected_reply_in_the_onboarding_changes_nothing() {
    let mut app = on(OnboardingState::Tips);
    let step = resume_onboarding_key(&mut app, OnboardingStage::TrustMarked, Reply::Done);
    assert!(step.effects.is_empty());
    assert_eq!(stage(step), OnboardingStage::TrustMarked);
    assert_eq!(app, on(OnboardingState::Tips));
}
