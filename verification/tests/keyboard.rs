use std::collections::HashSet;

use tui_events::keyboard::dispatch::resume_key;
use tui_events::keyboard::followups::pick_editor;
use tui_events::keyboard::front::begin_key;
use tui_events::keyboard::types::{
    Erasure, KeyEffect, KeyEventAction, KeyNext, KeyStage, KeyStep, Menus,
};
use tui_events::keys::{Key, KeyCode, KeyTraits, Modifiers, ALT, CONTROL, SHIFT, SUPER};
use tui_events::notices::{Notice, SidebarFocus, Toast};
use tui_events::progress::AgentProgress;
use tui_events::state::{
    Agents, App, AppMode, ApprovalMode, Composer, ModalKind, Onboarding, OnboardingState,
    PollResult, PrefixCache, Queue, QueuedMessage, Screen, Session, Stream, TaskEntry, Tokens,
    Tools, Turn, VimMode,
};
use tui_events::step::{CtrlCDisposition, EditorOutcome, EscEffect, EscapeAction, Reply};

fn app() -> App {
    App {
        turn: Turn {
            suppress_stream_events_until_turn_complete: false,
            is_loading: false,
            is_compacting: false,
            offline_mode: false,
            turn_error_posted: false,
            dispatch_started_at: None,
            turn_started_at: None,
            runtime_turn_id: None,
            runtime_turn_status: None,
            cumulative_turn_duration: 0,
            user_scrolled_during_stream: false,
            plan_tool_used_in_turn: false,
            plan_prompt_pending: false,
        },
        stream: Stream {
            current_streaming_text: String::new(),
            streaming_message_index: None,
            streaming_thinking_active_entry: None,
            thinking_started_at: None,
            reasoning_buffer: String::new(),
            reasoning_header: None,
            last_reasoning: None,
            translation_enabled: false,
            translation_client: false,
            pending_translations: 0,
            pending_thinking_translations: 0,
        },
        tools: Tools {
            pending_tool_uses: Vec::new(),
            pending_subagent_dispatch: None,
            last_fanout_card_index: Some(4),
            approval_mode: ApprovalMode::Suggest,
        },
        agents: Agents {
            agent_progress: AgentProgress::new(),
            subagent_cache: Vec::new(),
            agent_activity_started_at: None,
        },
        queue: Queue {
            queued_messages: 0,
            queued_draft: None,
            pending_steers: 0,
            submit_pending_steers_after_interrupt: false,
        },
        session: Session {
            current_session_id: None,
            session_title: None,
            auto_model: false,
            model: "chat".to_string(),
            last_effective_model: None,
            mode: AppMode::Agent,
            has_messages: false,
            cycle_count: 0,
        },
        tokens: Tokens {
            total_tokens: 0,
            total_conversation_tokens: 0,
            total_input_tokens: 0,
            total_output_tokens: 0,
            total_cache_hit_tokens: 0,
            total_cache_miss_tokens: 0,
            last_prompt_tokens: None,
            last_completion_tokens: None,
            last_prompt_cache_hit_tokens: None,
            last_prompt_cache_miss_tokens: None,
            last_reasoning_replay_tokens: None,
        },
        prefix: PrefixCache {
            prefix_checks_total: 0,
            prefix_change_count: 0,
            prefix_stability_pct: None,
            last_pinned_prefix_hash: None,
            last_prefix_change_desc: None,
        },
        composer: Composer {
            input: String::new(),
            cursor_position: 0,
            slash_menu_selected: 0,
            mention_menu_selected: 0,
            mention_menu_hidden: false,
            vim_enabled: false,
            vim_mode: VimMode::Insert,
            attachments: 0,
            selected_attachment: None,
            history_search_active: false,
            backtrack_primed: false,
            bracketed_paste_seen: false,
            edit_in_progress: false,
            memory_enabled: false,
        },
        screen: Screen {
            use_alt_screen: true,
            use_mouse_capture: false,
            needs_redraw: false,
            force_terminal_repaint: false,
            top_modal: None,
            sidebar_focus: SidebarFocus::Auto,
            file_tree_open: false,
            task_panel: Vec::new(),
            folded_thinking: HashSet::new(),
            collapsed_cells: HashSet::new(),
            last_transcript_visible: 20,
            transcript_selection_active: false,
            terminal_paused_at: None,
            last_focus_recovery: 0,
            last_status_frame: 0,
            last_task_refresh: 0,
            draws_since_last_full_repaint: 0,
            full_repaint_every: 100,
        },
        onboarding: Onboarding {
            state: OnboardingState::Inactive,
            api_key_input: String::new(),
            api_key_cursor: 0,
            trust_mode: false,
            onboarding_workspace_trust_gate: false,
            api_key_env_only: false,
        },
        poll: PollResult::empty(),
        status_message: None,
    }
}

fn s(text: &str) -> String {
    text.to_string()
}

fn traits() -> KeyTraits {
    KeyTraits {
        ctrl_h_backspace: false,
        paste: false,
        text_input: false,
        file_tree_toggle: false,
        option_v: false,
        composer_newline: false,
        word_cursor: false,
        alt_nav: false,
        copy: false,
        ctrl_or_alt: false,
    }
}

fn key(code: KeyCode, bits: u8) -> Key {
    let mut traits = traits();
    traits.ctrl_or_alt = bits & (CONTROL | ALT) != 0;
    Key { code, modifiers: Modifiers { bits }, traits }
}

fn typed(c: char) -> Key {
    key(KeyCode::Char(c), 0)
}

fn message(text: &str) -> QueuedMessage {
    QueuedMessage { display: s(text), skill_instruction: None }
}

const CLOSED: Menus = Menus { slash: 0, mention: 0 };

fn stage(step: KeyStep) -> KeyStage {
    match step.next {
        KeyNext::Await(stage) => stage,
        KeyNext::Finish(_) | KeyNext::Fail(_) => panic!("the key is already handled"),
    }
}

fn action(step: &KeyStep) -> KeyEventAction {
    match &step.next {
        KeyNext::Await(_) => panic!("the key is not handled yet"),
        KeyNext::Fail(error) => panic!("the key failed: {}", error),
        KeyNext::Finish(action) => *action,
    }
}

/// Begins a key that is expected to end at once.
fn press(app: &mut App, key: Key) -> (Vec<KeyEffect>, KeyEventAction) {
    let step = begin_key(app, key, 1);
    let action = action(&step);
    (step.effects, action)
}

/// What the key is bound to, with the replies that follow.
fn bound(
    app: &mut App,
    key: Key,
    menus: Menus,
    replies: Vec<Reply>,
) -> (Vec<KeyEffect>, KeyEventAction) {
    let mut all = Vec::new();
    let counted = KeyStage::MentionCounted { key, slash: menus.slash };
    let mut step = resume_key(app, counted, Reply::Count(menus.mention));
    for reply in replies {
        all.append(&mut step.effects);
        step = resume_key(app, stage(step), reply);
    }
    let action = action(&step);
    all.append(&mut step.effects);
    (all, action)
}

fn done(mut effects: Vec<KeyEffect>) -> (Vec<KeyEffect>, KeyEventAction) {
    effects.push(KeyEffect::ClearPasteBurstWindow);
    (effects, KeyEventAction::Handled)
}

fn handled(effects: Vec<KeyEffect>) -> (Vec<KeyEffect>, KeyEventAction) {
    (effects, KeyEventAction::Handled)
}

#[test]
fn typed_character_passes_every_gate() {
    let mut app = app();
    app.composer.backtrack_primed = true;
    app.composer.slash_menu_selected = 9;
    let step = begin_key(&mut app, typed('g'), 5);
    assert_eq!(step.effects, vec![KeyEffect::ResetBacktrack]);
    assert!(!app.composer.backtrack_primed);
    let step = resume_key(&mut app, stage(step), Reply::Done);
    assert_eq!(step.effects, vec![KeyEffect::FlushPasteBurst { now: 5 }]);
    let step = resume_key(&mut app, stage(step), Reply::Done);
    assert_eq!(step.effects, vec![KeyEffect::BurstKey { key: typed('g'), now: 5 }]);
    let step = resume_key(&mut app, stage(step), Reply::Flag(false));
    assert_eq!(step.effects, vec![KeyEffect::CountSlashMenu]);
    let step = resume_key(&mut app, stage(step), Reply::Count(3));
    assert_eq!(step.effects, vec![KeyEffect::CountMentionMenu]);
    assert_eq!(app.composer.slash_menu_selected, 2);
    let step = resume_key(&mut app, stage(step), Reply::Count(0));
    assert_eq!(step.effects, vec![KeyEffect::InsertChar('g')]);
    assert_eq!(action(&step), KeyEventAction::Handled);
}

#[test]
fn first_escape_is_taken_back_by_any_other_key() {
    let mut toggle = key(KeyCode::Char('E'), CONTROL | SHIFT);
    toggle.traits.file_tree_toggle = true;
    let cases = [
        (key(KeyCode::F(1), 0), KeyEffect::PushHelp),
        (key(KeyCode::Char('p'), CONTROL), KeyEffect::OpenFilePicker),
        (key(KeyCode::Char('k'), CONTROL), KeyEffect::KillToEndOfLine),
        (toggle, KeyEffect::BuildFileTree),
        (key(KeyCode::F(5), 0), KeyEffect::FlushPasteBurst { now: 7 }),
    ];
    for (key, effect) in cases {
        let mut app = app();
        app.composer.backtrack_primed = true;
        let step = begin_key(&mut app, key, 7);
        assert_eq!(step.effects, vec![KeyEffect::ResetBacktrack]);
        assert!(!app.composer.backtrack_primed);
        let step = resume_key(&mut app, stage(step), Reply::Done);
        assert_eq!(step.effects, vec![effect]);
    }
    let mut app = app();
    app.composer.backtrack_primed = true;
    app.screen.top_modal = Some(ModalKind::Other);
    let step = begin_key(&mut app, typed('j'), 7);
    assert_eq!(step.effects, vec![KeyEffect::ResetBacktrack]);
    let step = resume_key(&mut app, stage(step), Reply::Done);
    assert_eq!(
        step.effects,
        vec![KeyEffect::ModalKey(typed('j')), KeyEffect::HandleViewEvents]
    );
}

#[test]
fn escape_keeps_the_first_escape() {
    let mut app = app();
    app.composer.backtrack_primed = true;
    let step = begin_key(&mut app, key(KeyCode::Esc, 0), 7);
    assert_eq!(step.effects, vec![KeyEffect::FlushPasteBurst { now: 7 }]);
    assert!(app.composer.backtrack_primed);
}

#[test]
fn shifted_letters_are_text() {
    for c in ['G', 'L', 'V', 'Q', '?', '!'] {
        assert_eq!(
            bound(&mut app(), key(KeyCode::Char(c), SHIFT), CLOSED, vec![]),
            handled(vec![KeyEffect::InsertChar(c)])
        );
    }
}

#[test]
fn altgr_characters_are_text() {
    for c in "@[]{}|~$#€\\4cdorvy".chars() {
        let mut altgr = key(KeyCode::Char(c), CONTROL | ALT);
        altgr.traits.ctrl_or_alt = false;
        let mut app = app();
        let step = begin_key(&mut app, altgr, 3);
        assert_eq!(step.effects, vec![KeyEffect::FlushPasteBurst { now: 3 }]);
        assert_eq!(
            bound(&mut app, altgr, CLOSED, vec![]),
            handled(vec![KeyEffect::InsertChar(c)])
        );
        assert_eq!(app, self::app());
    }
}

#[test]
fn keys_without_a_binding_are_left_to_the_caller() {
    for code in [KeyCode::F(5), KeyCode::Other] {
        let mut app = app();
        assert_eq!(
            bound(&mut app, key(code, 0), CLOSED, vec![]),
            (vec![KeyEffect::ClearPasteBurstWindow], KeyEventAction::Continue)
        );
        assert_eq!(app, self::app());
    }
}

#[test]
fn bare_letters_are_text() {
    for c in ['g', 'G', '[', ']', '?', 'l', 'v', 'V', 'y', 'q', 'é'] {
        let mut app = app();
        assert_eq!(
            bound(&mut app, typed(c), CLOSED, vec![]),
            (vec![KeyEffect::InsertChar(c)], KeyEventAction::Handled)
        );
        assert_eq!(app, self::app());
    }
}

#[test]
fn help_key_opens_and_closes_the_help() {
    let mut app = app();
    let f1 = key(KeyCode::F(1), 0);
    assert_eq!(press(&mut app, f1), handled(vec![KeyEffect::PushHelp]));
    app.screen.top_modal = Some(ModalKind::Help);
    assert_eq!(press(&mut app, f1), handled(vec![KeyEffect::PopView]));
    let slash = key(KeyCode::Char('/'), CONTROL);
    assert_eq!(press(&mut app, slash), handled(vec![KeyEffect::PopView]));
    app.screen.top_modal = Some(ModalKind::Other);
    assert_eq!(press(&mut app, slash), handled(vec![KeyEffect::PushHelp]));
}

#[test]
fn control_k_offers_to_kill_running_jobs() {
    let mut app = app();
    app.screen.sidebar_focus = SidebarFocus::Tasks;
    app.screen.task_panel.push(TaskEntry { id: s("agent_1"), status: s("running") });
    app.screen.task_panel.push(TaskEntry { id: s("shell_1"), status: s("running") });
    assert_eq!(press(&mut app, key(KeyCode::Char('k'), CONTROL)), handled(vec![]));
    assert_eq!(app.composer.input, "/jobs cancel-all");
    assert_eq!(app.composer.cursor_position, app.composer.input.len());
    assert_eq!(app.status_message, Some(Notice::KillJobs));
}

#[test]
fn control_k_kills_the_line_or_opens_the_palette() {
    let mut app = app();
    app.screen.sidebar_focus = SidebarFocus::Tasks;
    app.screen.task_panel.push(TaskEntry { id: s("shell_1"), status: s("done") });
    let ctrl_k = key(KeyCode::Char('k'), CONTROL);
    let step = begin_key(&mut app, ctrl_k, 1);
    assert_eq!(step.effects, vec![KeyEffect::KillToEndOfLine]);
    let step = resume_key(&mut app, stage(step), Reply::Flag(true));
    assert!(step.effects.is_empty());
    let step = begin_key(&mut app, ctrl_k, 1);
    let step = resume_key(&mut app, stage(step), Reply::Flag(false));
    assert_eq!(step.effects, vec![KeyEffect::PushCommandPalette]);
    app.screen.top_modal = Some(ModalKind::Other);
    assert_eq!(press(&mut app, ctrl_k), handled(vec![KeyEffect::PushCommandPalette]));
}

#[test]
fn file_tree_is_shown_and_hidden() {
    let mut app = app();
    let mut toggle = key(KeyCode::Char('E'), CONTROL | SHIFT);
    toggle.traits.file_tree_toggle = true;
    assert_eq!(press(&mut app, toggle), handled(vec![KeyEffect::BuildFileTree]));
    assert!(app.screen.file_tree_open && app.screen.needs_redraw);
    assert_eq!(app.status_message, Some(Notice::FileTreeHelp));
    assert_eq!(press(&mut app, toggle), handled(vec![KeyEffect::DropFileTree]));
    assert!(!app.screen.file_tree_open);
    assert_eq!(app.status_message, Some(Notice::FileTreeClosed));
}

#[test]
fn file_tree_takes_its_keys() {
    let mut app = app();
    app.screen.file_tree_open = true;
    assert_eq!(press(&mut app, key(KeyCode::Up, 0)), handled(vec![KeyEffect::TreeUp]));
    assert_eq!(press(&mut app, key(KeyCode::Down, 0)), handled(vec![KeyEffect::TreeDown]));
    assert!(app.screen.needs_redraw);
    let step = begin_key(&mut app, key(KeyCode::Enter, 0), 1);
    assert_eq!(step.effects, vec![KeyEffect::TreeActivate]);
    let step = resume_key(&mut app, stage(step), Reply::Maybe(Some(s("src/a.rs"))));
    assert_eq!(step.effects, vec![KeyEffect::InsertText(s("@src/a.rs "))]);
    assert_eq!(app.status_message, Some(Notice::Attached(s("src/a.rs"))));
    app.screen.needs_redraw = false;
    let step = begin_key(&mut app, key(KeyCode::Enter, 0), 1);
    let step = resume_key(&mut app, stage(step), Reply::Maybe(None));
    assert!(step.effects.is_empty() && app.screen.needs_redraw);
    assert_eq!(press(&mut app, key(KeyCode::Esc, 0)), handled(vec![KeyEffect::DropFileTree]));
    assert!(!app.screen.file_tree_open);
}

#[test]
fn global_shortcuts_need_a_free_screen() {
    let shortcuts = [
        (key(KeyCode::Char('p'), CONTROL), KeyEffect::OpenFilePicker),
        (key(KeyCode::Char('b'), CONTROL), KeyEffect::OpenShellControl),
        (key(KeyCode::Char('B'), CONTROL | SHIFT), KeyEffect::OpenShellControl),
        (key(KeyCode::Char('c'), ALT), KeyEffect::OpenContextInspector),
    ];
    for (key, effect) in shortcuts {
        let mut app = app();
        assert_eq!(press(&mut app, key), handled(vec![effect]));
        app.screen.top_modal = Some(ModalKind::Other);
        let step = begin_key(&mut app, key, 1);
        assert_eq!(step.effects, vec![KeyEffect::ModalKey(key), KeyEffect::HandleViewEvents]);
    }
    let mut app = app();
    app.turn.is_loading = true;
    let step = begin_key(&mut app, key(KeyCode::Char('p'), CONTROL), 1);
    assert!(matches!(stage(step), KeyStage::BurstFlushed { .. }));
}

#[test]
fn open_view_takes_the_key() {
    let mut app = app();
    app.screen.top_modal = Some(ModalKind::Other);
    app.screen.file_tree_open = true;
    let step = begin_key(&mut app, key(KeyCode::Enter, 0), 1);
    assert_eq!(
        step.effects,
        vec![KeyEffect::ModalKey(key(KeyCode::Enter, 0)), KeyEffect::HandleViewEvents]
    );
    assert!(app.screen.needs_redraw);
    let stay = resume_key(&mut app, KeyStage::ViewEvents, Reply::Flag(false));
    assert_eq!(action(&stay), KeyEventAction::Handled);
    let quit = resume_key(&mut app, stage(step), Reply::Flag(true));
    assert_eq!(action(&quit), KeyEventAction::Return);
}

#[test]
fn history_search_takes_and_starts() {
    let mut app = app();
    let alt_r = key(KeyCode::Char('R'), ALT | SHIFT);
    assert_eq!(press(&mut app, alt_r), handled(vec![KeyEffect::StartHistorySearch]));
    app.composer.history_search_active = true;
    assert_eq!(press(&mut app, alt_r), handled(vec![KeyEffect::HistorySearchKey(alt_r)]));
}

#[test]
fn pasted_text_is_told_from_keys() {
    let mut app = app();
    let step = resume_key(&mut app, KeyStage::BurstKeyed { key: typed('a') }, Reply::Flag(true));
    assert_eq!(action(&step), KeyEventAction::Handled);

    let left = key(KeyCode::Left, 0);
    let step = resume_key(&mut app, KeyStage::BurstFlushed { key: left, now: 3 }, Reply::Done);
    assert_eq!(step.effects, vec![KeyEffect::FlushBeforeModified]);
    let step = resume_key(&mut app, stage(step), Reply::Maybe(Some(s("held"))));
    assert_eq!(step.effects, vec![KeyEffect::InsertText(s("held")), KeyEffect::CountSlashMenu]);

    let mut option_v = typed('√');
    option_v.traits.option_v = true;
    let step = resume_key(&mut app, KeyStage::BurstFlushed { key: option_v, now: 3 }, Reply::Done);
    assert_eq!(step.effects, vec![KeyEffect::OpenToolDetails]);
    assert_eq!(action(&step), KeyEventAction::Handled);
}

#[test]
fn failed_effect_ends_the_key_with_its_error() {
    let enter = key(KeyCode::Enter, 0);
    let stages = || [
        KeyStage::ViewEvents,
        KeyStage::EnterPlan { key: enter, input: s("1") },
        KeyStage::CommandRun { key: enter },
        KeyStage::Submitted { key: enter },
    ];
    for failing in stages() {
        let mut app = app();
        let step = resume_key(&mut app, failing, Reply::Failed(s("disk full")));
        assert!(step.effects.is_empty());
        assert_eq!(step.next, KeyNext::Fail(s("disk full")));
        assert_eq!(app, self::app());
    }
    let mut app = app();
    let looking = KeyStage::EnterLooks { key: enter };
    let step = resume_key(&mut app, looking, Reply::Failed(s("odd")));
    assert_eq!(stage(step), KeyStage::EnterLooks { key: enter });
}

#[test]
fn message_that_cannot_be_sent_is_reported() {
    let mut app = app();
    let enter = key(KeyCode::Enter, 0);
    let step = resume_key(&mut app, KeyStage::EnterBuilt { key: enter }, Reply::Built(message("a")));
    assert_eq!(step.effects, vec![KeyEffect::SubmitOrSteer(message("a"))]);
    let step = resume_key(&mut app, stage(step), Reply::Failed(s("engine is gone")));
    assert_eq!(step.next, KeyNext::Fail(s("engine is gone")));
}

#[test]
fn unexpected_reply_to_a_key_changes_nothing() {
    let mut app = app();
    let step = resume_key(&mut app, KeyStage::FoldMarked, Reply::Count(1));
    assert!(step.effects.is_empty());
    assert_eq!(stage(step), KeyStage::FoldMarked);
    assert_eq!(app, self::app());
}

#[test]
fn enter_opens_the_selection() {
    let mut app = app();
    app.screen.transcript_selection_active = true;
    let enter = key(KeyCode::Enter, 0);
    assert_eq!(
        bound(&mut app, enter, CLOSED, vec![Reply::Flag(true)]),
        handled(vec![KeyEffect::SelectionPager])
    );
    assert_eq!(
        bound(&mut app, enter, CLOSED, vec![Reply::Flag(false), Reply::Maybe(None)]),
        (
            vec![KeyEffect::SelectionPager, KeyEffect::ComposerEnter],
            KeyEventAction::Handled
        )
    );
}

#[test]
fn enter_sends_a_message() {
    let mut app = app();
    let enter = key(KeyCode::Enter, 0);
    assert_eq!(
        bound(
            &mut app,
            enter,
            CLOSED,
            vec![
                Reply::Maybe(Some(s("hi"))),
                Reply::Flag(false),
                Reply::Flag(false),
                Reply::Built(message("hi")),
                Reply::Done,
            ]
        ),
        (
            vec![
                KeyEffect::ComposerEnter,
                KeyEffect::PlanChoice(s("hi")),
                KeyEffect::AskSlashCommand(s("hi")),
                KeyEffect::BuildMessage(s("hi")),
                KeyEffect::SubmitOrSteer(message("hi")),
            ],
            KeyEventAction::Handled
        )
    );
}

#[test]
fn enter_sends_the_edited_draft() {
    let mut app = app();
    app.queue.queued_draft =
        Some(QueuedMessage { display: s("old"), skill_instruction: Some(s("skill")) });
    let (effects, _) = bound(
        &mut app,
        key(KeyCode::Enter, 0),
        CLOSED,
        vec![
            Reply::Maybe(Some(s("new"))),
            Reply::Flag(false),
            Reply::Flag(false),
            Reply::Done,
        ],
    );
    assert_eq!(
        effects.last(),
        Some(&KeyEffect::SubmitOrSteer(QueuedMessage {
            display: s("new"),
            skill_instruction: Some(s("skill")),
        }))
    );
    assert_eq!(app.queue.queued_draft, None);
}

#[test]
fn revised_message_undoes_the_last_exchange_first() {
    let mut app = app();
    app.composer.edit_in_progress = true;
    let (effects, _) = bound(
        &mut app,
        key(KeyCode::Enter, 0),
        CLOSED,
        vec![
            Reply::Maybe(Some(s("new"))),
            Reply::Flag(false),
            Reply::Flag(false),
            Reply::Built(message("new")),
            Reply::Done,
            Reply::Done,
        ],
    );
    assert_eq!(
        effects[4..],
        [
            KeyEffect::Undo,
            KeyEffect::SyncSession,
            KeyEffect::SubmitOrSteer(message("new")),
        ]
    );
    assert!(!app.composer.edit_in_progress);
}

#[test]
fn enter_answers_the_plan_or_adds_a_note() {
    let mut app = app();
    let enter = key(KeyCode::Enter, 0);
    assert_eq!(
        bound(&mut app, enter, CLOSED, vec![Reply::Maybe(Some(s("1"))), Reply::Flag(true)]),
        handled(vec![KeyEffect::ComposerEnter, KeyEffect::PlanChoice(s("1"))])
    );
    app.composer.memory_enabled = true;
    assert_eq!(
        bound(
            &mut app,
            enter,
            CLOSED,
            vec![Reply::Maybe(Some(s("# note"))), Reply::Flag(false), Reply::Flag(true)]
        ),
        handled(vec![
            KeyEffect::ComposerEnter,
            KeyEffect::PlanChoice(s("# note")),
            KeyEffect::AskMemoryNote(s("# note")),
            KeyEffect::AddMemoryNote(s("# note")),
        ])
    );
}

#[test]
fn enter_runs_the_highlighted_command() {
    let mut app = app();
    app.composer.input = s("/mo");
    assert_eq!(
        bound(
            &mut app,
            key(KeyCode::Enter, 0),
            Menus { slash: 2, mention: 0 },
            vec![
                Reply::Flag(true),
                Reply::Flag(true),
                Reply::Maybe(Some(s("/model"))),
                Reply::Flag(false),
                Reply::Flag(true),
                Reply::Flag(true),
            ]
        ),
        (
            vec![
                KeyEffect::AskSlashCommand(s("/mo")),
                KeyEffect::ApplySlash { for_editing: false },
                KeyEffect::CloseSlashMenu,
                KeyEffect::ComposerEnter,
                KeyEffect::PlanChoice(s("/model")),
                KeyEffect::AskSlashCommand(s("/model")),
                KeyEffect::ExecuteCommand(s("/model")),
            ],
            KeyEventAction::Return
        )
    );
}

#[test]
fn enter_completes_a_mention() {
    let mut app = app();
    let menus = Menus { slash: 0, mention: 3 };
    assert_eq!(
        bound(&mut app, key(KeyCode::Enter, 0), menus, vec![Reply::Flag(true)]),
        handled(vec![KeyEffect::ApplyMention])
    );
}

#[test]
fn shift_enter_steers_a_running_turn() {
    let mut app = app();
    app.turn.is_loading = true;
    app.queue.queued_messages = 2;
    assert_eq!(
        bound(
            &mut app,
            key(KeyCode::Enter, SHIFT),
            CLOSED,
            vec![
                Reply::Maybe(Some(s("left"))),
                Reply::Flag(false),
                Reply::Built(message("left")),
                Reply::Maybe(Some(s("closed"))),
                Reply::Done,
            ]
        ),
        (
            vec![
                KeyEffect::SubmitInput,
                KeyEffect::AskSlashCommand(s("left")),
                KeyEffect::BuildMessage(s("left")),
                KeyEffect::SteerMessage(message("left")),
                KeyEffect::QueueMessage(message("left")),
            ],
            KeyEventAction::Handled
        )
    );
    assert_eq!(
        app.status_message,
        Some(Notice::SteerFailed { error: s("closed"), queued: 2 })
    );
}

#[test]
fn shift_enter_breaks_the_line_when_idle() {
    let mut app = app();
    let mut shift_enter = key(KeyCode::Enter, SHIFT);
    shift_enter.traits.composer_newline = true;
    assert_eq!(
        bound(&mut app, shift_enter, CLOSED, vec![]),
        (vec![KeyEffect::InsertChar('\n')], KeyEventAction::Handled)
    );
}

#[test]
fn control_enter_steers_or_sends() {
    let ctrl_enter = key(KeyCode::Enter, CONTROL);
    let replies = || vec![
        Reply::Maybe(Some(s("go"))),
        Reply::Flag(false),
        Reply::Built(message("go")),
    ];
    let mut app = app();
    let mut sending = replies();
    sending.push(Reply::Done);
    let (effects, _) = bound(&mut app, ctrl_enter, CLOSED, sending);
    assert_eq!(effects.last(), Some(&KeyEffect::SubmitOrSteer(message("go"))));

    app.turn.is_loading = true;
    let mut steering = replies();
    steering.push(Reply::Maybe(None));
    let (effects, action) = bound(&mut app, ctrl_enter, CLOSED, steering);
    assert_eq!(effects.last(), Some(&KeyEffect::SteerMessage(message("go"))));
    assert_eq!(action, KeyEventAction::Handled);
    assert_eq!(app.status_message, None);
}

#[test]
fn steering_takes_the_draft_and_runs_commands() {
    let mut app = app();
    app.turn.is_loading = true;
    app.queue.queued_draft = Some(message("old"));
    let (effects, _) = bound(
        &mut app,
        key(KeyCode::Enter, CONTROL),
        CLOSED,
        vec![Reply::Maybe(Some(s("new"))), Reply::Flag(false), Reply::Maybe(None)],
    );
    assert_eq!(effects.last(), Some(&KeyEffect::SteerMessage(message("new"))));
    assert_eq!(app.queue.queued_draft, None);
    let (effects, action) = bound(
        &mut app,
        key(KeyCode::Enter, CONTROL),
        CLOSED,
        vec![Reply::Maybe(Some(s("/quit"))), Reply::Flag(true), Reply::Flag(true)],
    );
    assert_eq!(effects.last(), Some(&KeyEffect::ExecuteCommand(s("/quit"))));
    assert_eq!(action, KeyEventAction::Return);
}

#[test]
fn vim_escape_only_leaves_the_insert_mode() {
    let mut app = app();
    app.composer.vim_enabled = true;
    app.turn.is_loading = true;
    assert_eq!(
        bound(&mut app, key(KeyCode::Esc, 0), CLOSED, vec![]),
        handled(vec![KeyEffect::VimEnterNormal])
    );
}

#[test]
fn escape_closes_what_is_open() {
    let esc = key(KeyCode::Esc, 0);
    let mut app = app();
    assert_eq!(
        bound(&mut app, esc, CLOSED, vec![Reply::Flag(true)]),
        handled(vec![KeyEffect::ClearAttachmentSelection])
    );
    app.composer.mention_menu_selected = 2;
    assert_eq!(
        bound(&mut app, esc, Menus { slash: 0, mention: 3 }, vec![Reply::Flag(false)]),
        done(vec![KeyEffect::ClearAttachmentSelection])
    );
    assert!(app.composer.mention_menu_hidden);
    assert_eq!(app.composer.mention_menu_selected, 0);
    assert_eq!(
        bound(
            &mut app,
            esc,
            Menus { slash: 1, mention: 0 },
            vec![Reply::Flag(false), Reply::Escape(EscapeAction::CloseSlashMenu)]
        ),
        done(vec![
            KeyEffect::ClearAttachmentSelection,
            KeyEffect::AskEscape { slash_menu_open: true },
            KeyEffect::ResetBacktrack,
            KeyEffect::CloseSlashMenu,
        ])
    );
}

fn escape(app: &mut App, replies: Vec<Reply>) -> (Vec<KeyEffect>, KeyEventAction) {
    let mut all = vec![Reply::Flag(false)];
    all.extend(replies);
    let (effects, action) = bound(app, key(KeyCode::Esc, 0), CLOSED, all);
    (effects.into_iter().skip(2).collect(), action)
}

#[test]
fn escape_cancels_the_turn() {
    let mut app = app();
    app.composer.backtrack_primed = true;
    app.stream.current_streaming_text = s("half");
    assert_eq!(
        escape(&mut app, vec![Reply::Escape(EscapeAction::CancelRequest), Reply::Done]),
        done(vec![
            KeyEffect::ResetBacktrack,
            KeyEffect::CancelEngine,
            KeyEffect::MarkCancelled,
        ])
    );
    assert_eq!(app.stream.current_streaming_text, "");
    assert_eq!(app.status_message, Some(Notice::Cancelled));
    assert!(!app.composer.backtrack_primed);
}

#[test]
fn escape_drops_the_draft_or_the_input() {
    let mut app = app();
    app.queue.queued_draft = Some(message("d"));
    app.composer.edit_in_progress = true;
    assert_eq!(
        escape(&mut app, vec![Reply::Escape(EscapeAction::DiscardQueuedDraft)]),
        done(vec![KeyEffect::ResetBacktrack])
    );
    assert_eq!(app.queue.queued_draft, None);
    assert_eq!(app.status_message, Some(Notice::QueuedEditStopped));
    assert_eq!(
        escape(&mut app, vec![Reply::Escape(EscapeAction::ClearInput)]),
        done(vec![KeyEffect::ResetBacktrack, KeyEffect::ClearInputRecoverable])
    );
    assert!(!app.composer.edit_in_progress);
}

#[test]
fn double_escape_goes_back() {
    let mut app = app();
    let noop = || Reply::Escape(EscapeAction::Noop);
    assert_eq!(
        escape(
            &mut app,
            vec![noop(), Reply::Count(4), Reply::Backtrack(EscEffect::Prime)]
        ),
        done(vec![KeyEffect::CountUserCells, KeyEffect::BacktrackEsc { total: 4 }])
    );
    assert_eq!(app.status_message, Some(Notice::BacktrackPrimed));
    assert!(app.screen.needs_redraw);
    let (effects, _) = escape(
        &mut app,
        vec![noop(), Reply::Count(4), Reply::Backtrack(EscEffect::OpenOverlay)],
    );
    assert_eq!(effects[2], KeyEffect::OpenBacktrackOverlay);
    escape(&mut app, vec![noop(), Reply::Count(4), Reply::Backtrack(EscEffect::Cancel)]);
    assert_eq!(app.status_message, Some(Notice::BacktrackCanceled));
    app.status_message = None;
    escape(&mut app, vec![noop(), Reply::Count(0), Reply::Backtrack(EscEffect::Nothing)]);
    assert_eq!(app.status_message, None);
}

#[test]
fn idle_escape_while_streaming_is_silent() {
    let mut app = app();
    app.turn.is_loading = true;
    for _ in 0..2 {
        assert_eq!(
            escape(&mut app, vec![Reply::Escape(EscapeAction::Noop)]),
            handled(vec![])
        );
    }
    let mut expected = self::app();
    expected.turn.is_loading = true;
    assert_eq!(app, expected);
}

#[test]
fn arrows_with_modifiers_scroll() {
    let mut app = app();
    assert_eq!(
        bound(&mut app, key(KeyCode::Up, SUPER), CLOSED, vec![]),
        done(vec![KeyEffect::ScrollUp(20)])
    );
    assert_eq!(
        bound(&mut app, key(KeyCode::Up, ALT), CLOSED, vec![]),
        done(vec![KeyEffect::ScrollUp(3)])
    );
    assert_eq!(
        bound(&mut app, key(KeyCode::Down, SHIFT), CLOSED, vec![]),
        done(vec![KeyEffect::ScrollDown(3)])
    );
    app.screen.last_transcript_visible = 0;
    assert_eq!(
        bound(&mut app, key(KeyCode::Down, SUPER), CLOSED, vec![]),
        done(vec![KeyEffect::ScrollDown(3)])
    );
    assert_eq!(
        bound(&mut app, key(KeyCode::PageUp, 0), CLOSED, vec![]),
        done(vec![KeyEffect::ScrollUp(1)])
    );
    app.screen.last_transcript_visible = 8;
    assert_eq!(
        bound(&mut app, key(KeyCode::PageDown, 0), CLOSED, vec![]),
        done(vec![KeyEffect::ScrollDown(8)])
    );
}

#[test]
fn arrows_move_in_the_menus() {
    let mut app = app();
    let up = key(KeyCode::Up, 0);
    let down = key(KeyCode::Down, 0);
    let mention = Menus { slash: 0, mention: 2 };
    assert_eq!(bound(&mut app, down, mention, vec![]), done(vec![]));
    assert_eq!(app.composer.mention_menu_selected, 1);
    bound(&mut app, down, mention, vec![]);
    assert_eq!(app.composer.mention_menu_selected, 1);
    assert_eq!(bound(&mut app, up, mention, vec![]), done(vec![]));
    assert_eq!(app.composer.mention_menu_selected, 0);
    let slash = Menus { slash: 5, mention: 0 };
    assert_eq!(
        bound(&mut app, up, slash, vec![]),
        done(vec![KeyEffect::PreviousSlashEntry { entries: 5 }])
    );
    assert_eq!(
        bound(&mut app, down, slash, vec![]),
        done(vec![KeyEffect::NextSlashEntry { entries: 5 }])
    );
}

#[test]
fn arrows_move_among_attachments_queue_and_history() {
    let mut app = app();
    let up = key(KeyCode::Up, 0);
    let down = key(KeyCode::Down, 0);
    let history = |key: Key| KeyEffect::HistoryArrow {
        key,
        slash_menu_open: false,
        mention_menu_open: false,
    };
    assert_eq!(bound(&mut app, up, CLOSED, vec![]), done(vec![history(up)]));
    assert_eq!(bound(&mut app, down, CLOSED, vec![]), done(vec![history(down)]));
    app.queue.queued_messages = 1;
    assert_eq!(bound(&mut app, up, CLOSED, vec![]), done(vec![KeyEffect::PopLastQueued]));
    app.composer.attachments = 1;
    assert_eq!(bound(&mut app, up, CLOSED, vec![]), handled(vec![KeyEffect::PreviousAttachment]));
    app.composer.selected_attachment = Some(0);
    assert_eq!(bound(&mut app, up, CLOSED, vec![]), done(vec![KeyEffect::PreviousAttachment]));
    assert_eq!(bound(&mut app, down, CLOSED, vec![]), done(vec![KeyEffect::NextAttachment]));
}

#[test]
fn tab_tries_every_completion() {
    let mut app = app();
    app.turn.is_loading = true;
    let tab = key(KeyCode::Tab, 0);
    let no = || Reply::Flag(false);
    let menus = Menus { slash: 1, mention: 1 };
    assert_eq!(
        bound(&mut app, tab, menus, vec![no(), no(), no(), no(), no(), Reply::Done]),
        done(vec![
            KeyEffect::ApplyMention,
            KeyEffect::ApplySlash { for_editing: true },
            KeyEffect::CompleteCommand,
            KeyEffect::CompleteMention,
            KeyEffect::QueueDraft,
            KeyEffect::CycleMode,
        ])
    );
    assert_eq!(
        bound(&mut app, tab, menus, vec![no(), Reply::Flag(true)]),
        handled(vec![KeyEffect::ApplyMention, KeyEffect::ApplySlash { for_editing: true }])
    );
}

#[test]
fn tab_tells_the_engine_of_a_new_model() {
    let mut app = app();
    let tab = key(KeyCode::Tab, 0);
    let step = resume_key(&mut app, KeyStage::TabFile { key: tab }, Reply::Flag(false));
    assert_eq!(step.effects, vec![KeyEffect::CycleMode]);
    app.session.model = s("reasoner");
    let step = resume_key(&mut app, stage(step), Reply::Done);
    assert_eq!(
        step.effects,
        vec![KeyEffect::SetEngineModel(s("reasoner")), KeyEffect::ClearPasteBurstWindow]
    );
    assert_eq!(
        bound(&mut app, key(KeyCode::BackTab, 0), CLOSED, vec![]),
        done(vec![KeyEffect::CycleEffort])
    );
}

#[test]
fn erasing_keys_erase_what_they_should() {
    let cases = [
        (key(KeyCode::Backspace, SUPER), Erasure::ToLineStart),
        (key(KeyCode::Backspace, ALT), Erasure::WordBackward),
        (key(KeyCode::Backspace, CONTROL), Erasure::WordBackward),
        (key(KeyCode::Backspace, 0), Erasure::CharBackward),
        (key(KeyCode::Delete, ALT), Erasure::WordForward),
        (key(KeyCode::Delete, CONTROL), Erasure::WordForward),
        (key(KeyCode::Delete, SUPER), Erasure::CharForward),
        (key(KeyCode::Delete, 0), Erasure::CharForward),
    ];
    for (key, erasure) in cases {
        let mut app = app();
        assert_eq!(
            bound(&mut app, key, CLOSED, vec![Reply::Flag(false)]),
            done(vec![KeyEffect::RemoveAttachment, KeyEffect::Erase(erasure)])
        );
        assert_eq!(
            bound(&mut app, key, CLOSED, vec![Reply::Flag(true)]),
            done(vec![KeyEffect::RemoveAttachment])
        );
    }
    let mut ctrl_h = key(KeyCode::Char('h'), CONTROL);
    ctrl_h.traits.ctrl_h_backspace = true;
    assert_eq!(
        bound(&mut app(), ctrl_h, CLOSED, vec![Reply::Flag(false)]),
        done(vec![KeyEffect::RemoveAttachment, KeyEffect::Erase(Erasure::CharBackward)])
    );
}

#[test]
fn cursor_keys_move_the_cursor() {
    let mut word_left = key(KeyCode::Left, CONTROL);
    word_left.traits.word_cursor = true;
    let mut word_right = key(KeyCode::Right, CONTROL);
    word_right.traits.word_cursor = true;
    let cases = [
        (word_left, KeyEffect::MoveWordBackward),
        (key(KeyCode::Left, 0), KeyEffect::MoveLeft),
        (word_right, KeyEffect::MoveWordForward),
        (key(KeyCode::Right, 0), KeyEffect::MoveRight),
        (key(KeyCode::Home, CONTROL), KeyEffect::ScrollToTop),
        (key(KeyCode::Home, 0), KeyEffect::MoveLineStart),
        (key(KeyCode::End, CONTROL), KeyEffect::ScrollToBottom),
        (key(KeyCode::End, 0), KeyEffect::MoveLineEnd),
        (key(KeyCode::Char('a'), CONTROL), KeyEffect::SelectAll),
        (key(KeyCode::Char('e'), CONTROL), KeyEffect::MoveEnd),
        (key(KeyCode::Char('u'), CONTROL), KeyEffect::ClearInputRecoverable),
        (key(KeyCode::Char('w'), CONTROL), KeyEffect::Erase(Erasure::WordBackward)),
    ];
    for (key, effect) in cases {
        assert_eq!(bound(&mut app(), key, CLOSED, vec![]), done(vec![effect]));
    }
}

#[test]
fn navigation_needs_alt_and_an_empty_composer() {
    let nav = |c: char| {
        let mut key = key(KeyCode::Char(c), ALT);
        key.traits.alt_nav = true;
        key
    };
    let mut app = app();
    assert_eq!(bound(&mut app, nav('g'), CLOSED, vec![]), done(vec![KeyEffect::ScrollToTop]));
    assert_eq!(bound(&mut app, nav('G'), CLOSED, vec![]), done(vec![KeyEffect::ScrollToBottom]));
    assert_eq!(bound(&mut app, nav('?'), CLOSED, vec![]), handled(vec![KeyEffect::PushHelp]));
    assert_eq!(
        bound(&mut app, nav('l'), CLOSED, vec![Reply::Flag(true)]),
        handled(vec![KeyEffect::LastMessagePager])
    );
    assert_eq!(
        bound(&mut app, nav('l'), CLOSED, vec![Reply::Flag(false)]),
        done(vec![KeyEffect::LastMessagePager, KeyEffect::InsertChar('l')])
    );
    assert_eq!(
        bound(&mut app, nav('['), CLOSED, vec![Reply::Flag(false)]),
        done(vec![KeyEffect::JumpTool { forward: false }])
    );
    assert_eq!(app.status_message, Some(Notice::NoPreviousTool));
    bound(&mut app, nav(']'), CLOSED, vec![Reply::Flag(false)]);
    assert_eq!(app.status_message, Some(Notice::NoNextTool));
    assert_eq!(
        bound(&mut app, nav(']'), CLOSED, vec![Reply::Flag(true)]),
        done(vec![KeyEffect::JumpTool { forward: true }, KeyEffect::InsertChar(']')])
    );
    app.composer.input = s("text");
    assert_eq!(bound(&mut app, nav('g'), CLOSED, vec![]), done(vec![KeyEffect::InsertChar('g')]));
}

#[test]
fn space_folds_and_unfolds_the_focused_cell() {
    let mut app = app();
    let folded = |app: &mut App| {
        bound(
            app,
            typed(' '),
            CLOSED,
            vec![Reply::Cell(Some((3, true))), Reply::Done],
        )
    };
    assert_eq!(
        folded(&mut app),
        handled(vec![KeyEffect::DetailTargetCell, KeyEffect::MarkHistoryUpdated])
    );
    assert!(app.screen.folded_thinking.contains(&3) && app.screen.needs_redraw);
    assert_eq!(app.status_message, Some(Notice::ThinkingFolded));
    folded(&mut app);
    assert!(app.screen.folded_thinking.is_empty());
    assert_eq!(app.status_message, Some(Notice::ThinkingExpanded));
    bound(&mut app, typed(' '), CLOSED, vec![Reply::Cell(Some((3, false))), Reply::Done]);
    assert!(app.screen.collapsed_cells.contains(&3) && app.screen.folded_thinking.is_empty());
    assert_eq!(app.status_message, Some(Notice::CellCollapsed));
    bound(&mut app, typed(' '), CLOSED, vec![Reply::Cell(Some((3, false))), Reply::Done]);
    assert!(app.screen.collapsed_cells.is_empty());
    assert_eq!(app.status_message, Some(Notice::CellExpanded));
    assert_eq!(
        bound(&mut app, typed(' '), CLOSED, vec![Reply::Cell(None)]),
        handled(vec![KeyEffect::DetailTargetCell])
    );
    app.composer.input = s("a");
    assert_eq!(
        bound(&mut app, typed(' '), CLOSED, vec![]),
        (vec![KeyEffect::InsertChar(' ')], KeyEventAction::Handled)
    );
}

#[test]
fn alt_digits_pick_modes_and_panes() {
    let mut app = app();
    let cases = [('1', AppMode::Plan), ('2', AppMode::Agent), ('3', AppMode::Yolo)];
    for (c, mode) in cases {
        assert_eq!(
            bound(&mut app, key(KeyCode::Char(c), ALT), CLOSED, vec![]),
            handled(vec![KeyEffect::SetMode(mode)])
        );
    }
    let panes = [
        ('1', ALT | CONTROL, SidebarFocus::Work),
        ('2', ALT | CONTROL, SidebarFocus::Tasks),
        ('3', ALT | CONTROL, SidebarFocus::Agents),
        ('!', ALT, SidebarFocus::Work),
        ('@', ALT, SidebarFocus::Tasks),
        ('#', ALT, SidebarFocus::Agents),
        ('$', ALT, SidebarFocus::Context),
        ('%', ALT, SidebarFocus::Context),
        (')', ALT, SidebarFocus::Auto),
    ];
    for (c, bits, focus) in panes {
        assert_eq!(
            bound(&mut app, key(KeyCode::Char(c), bits), CLOSED, vec![Reply::Done]),
            handled(vec![KeyEffect::SetSidebarFocus(focus)])
        );
        assert_eq!(app.status_message, Some(Notice::Focus(focus)));
    }
    assert_eq!(
        bound(&mut app, key(KeyCode::Char('4'), ALT), CLOSED, vec![]),
        handled(vec![KeyEffect::AltFour(Modifiers { bits: ALT })])
    );
    assert_eq!(
        bound(&mut app, key(KeyCode::Char('0'), ALT | CONTROL), CLOSED, vec![]),
        handled(vec![KeyEffect::AltZero(Modifiers { bits: ALT | CONTROL })])
    );
}

#[test]
fn alt_letters_pick_modes() {
    let mut app = app();
    app.composer.input = s("x");
    let cases = [
        ('a', AppMode::Agent),
        ('A', AppMode::Agent),
        ('y', AppMode::Yolo),
        ('Y', AppMode::Yolo),
        ('p', AppMode::Plan),
        ('P', AppMode::Plan),
    ];
    for (c, mode) in cases {
        assert_eq!(
            bound(&mut app, key(KeyCode::Char(c), ALT), CLOSED, vec![]),
            handled(vec![KeyEffect::SetMode(mode)])
        );
    }
    assert_eq!(
        bound(&mut app, key(KeyCode::Char('V'), ALT), CLOSED, vec![]),
        handled(vec![KeyEffect::OpenToolDetails])
    );
    let ctrl_x = key(KeyCode::Char('x'), CONTROL);
    assert_eq!(
        bound(&mut app, ctrl_x, CLOSED, vec![]),
        done(vec![KeyEffect::SetMode(AppMode::Plan)])
    );
    app.session.mode = AppMode::Plan;
    assert_eq!(
        bound(&mut app, ctrl_x, CLOSED, vec![]),
        done(vec![KeyEffect::SetMode(AppMode::Agent)])
    );
}

#[test]
fn control_c_does_one_of_four_things() {
    let ctrl_c = key(KeyCode::Char('c'), CONTROL);
    let mut app = app();
    let ask = KeyEffect::AskCtrlC;
    assert_eq!(
        bound(&mut app, ctrl_c, CLOSED, vec![Reply::CtrlC(CtrlCDisposition::CopySelection)]),
        done(vec![ask, KeyEffect::CopySelection, KeyEffect::ClearSelection])
    );
    assert_eq!(
        bound(&mut app, ctrl_c, CLOSED, vec![Reply::CtrlC(CtrlCDisposition::ArmExit)]),
        done(vec![KeyEffect::AskCtrlC, KeyEffect::ArmQuit])
    );
    assert_eq!(
        bound(&mut app, ctrl_c, CLOSED, vec![Reply::CtrlC(CtrlCDisposition::ConfirmExit)]),
        (vec![KeyEffect::AskCtrlC, KeyEffect::ShutdownEngine], KeyEventAction::Return)
    );
    app.stream.current_streaming_text = s("half");
    assert_eq!(
        bound(
            &mut app,
            ctrl_c,
            CLOSED,
            vec![
                Reply::CtrlC(CtrlCDisposition::CancelTurn),
                Reply::Done,
                Reply::Flag(true),
            ]
        ),
        done(vec![
            KeyEffect::AskCtrlC,
            KeyEffect::CancelEngine,
            KeyEffect::MarkCancelled,
            KeyEffect::RestorePrompt,
            KeyEffect::DisarmQuit,
        ])
    );
    assert_eq!(app.stream.current_streaming_text, "");
    assert_eq!(app.status_message, Some(Notice::CancelledRestored));
    resume_key(&mut app, KeyStage::CtrlCRestored { key: ctrl_c }, Reply::Flag(false));
    assert_eq!(app.status_message, Some(Notice::Cancelled));
}

#[test]
fn copy_shortcut_comes_before_control_c() {
    let mut copy = key(KeyCode::Char('C'), CONTROL | SHIFT);
    copy.traits.copy = true;
    assert_eq!(
        bound(&mut app(), copy, CLOSED, vec![]),
        done(vec![KeyEffect::CopySelection])
    );
}

#[test]
fn control_d_leaves_an_empty_composer() {
    let ctrl_d = key(KeyCode::Char('d'), CONTROL);
    let mut app = app();
    assert_eq!(
        bound(&mut app, ctrl_d, CLOSED, vec![]),
        (vec![KeyEffect::ShutdownEngine], KeyEventAction::Return)
    );
    app.composer.input = s("x");
    assert_eq!(bound(&mut app, ctrl_d, CLOSED, vec![]).1, KeyEventAction::Handled);
}

#[test]
fn editor_outcomes_are_told() {
    let ctrl_o = key(KeyCode::Char('o'), CONTROL);
    let mut app = app();
    app.composer.input = s("seed");
    assert_eq!(
        bound(
            &mut app,
            ctrl_o,
            CLOSED,
            vec![
                Reply::Editor(EditorOutcome::Edited(s("new"))),
                Reply::EditorVariables { visual: Some(s("  ")), editor: Some(s("hx")) },
            ]
        ),
        done(vec![
            KeyEffect::RunEditor(s("seed")),
            KeyEffect::MoveEnd,
            KeyEffect::ReadEditorVariables,
        ])
    );
    assert_eq!(app.composer.input, "new");
    assert_eq!(app.status_message, Some(Notice::EditedIn(s("hx"))));
    assert!(app.screen.needs_redraw);
    let outcomes = [
        (EditorOutcome::Unchanged, Notice::EditorUnchanged),
        (EditorOutcome::Cancelled, Notice::EditorCancelled),
        (EditorOutcome::Failed(s("no tty")), Notice::EditorError(s("no tty"))),
    ];
    for (outcome, notice) in outcomes {
        let (effects, _) = bound(&mut app, ctrl_o, CLOSED, vec![Reply::Editor(outcome)]);
        assert_eq!(effects[0], KeyEffect::RunEditor(s("new")));
        assert_eq!(app.status_message, Some(notice));
    }
}

#[test]
fn editor_name_is_the_first_that_is_set() {
    assert_eq!(pick_editor(Some(s("code -w")), Some(s("hx"))), "code -w");
    assert_eq!(pick_editor(None, Some(s("hx"))), "hx");
    assert_eq!(pick_editor(Some(s("\t")), Some(s(" "))), "vi");
    assert_eq!(pick_editor(None, None), "vi");
}

#[test]
fn control_o_on_an_empty_composer_opens_the_activity() {
    let ctrl_o = key(KeyCode::Char('o'), CONTROL);
    assert_eq!(
        bound(&mut app(), ctrl_o, CLOSED, vec![Reply::Flag(true)]),
        handled(vec![KeyEffect::ActivityPager])
    );
    let (effects, _) = bound(
        &mut app(),
        ctrl_o,
        CLOSED,
        vec![Reply::Flag(false), Reply::Editor(EditorOutcome::Unchanged)],
    );
    assert_eq!(effects[1], KeyEffect::RunEditor(s("")));
}

#[test]
fn draft_is_stashed() {
    let ctrl_s = key(KeyCode::Char('s'), CONTROL);
    let mut app = app();
    app.composer.input = s("draft");
    assert_eq!(
        bound(&mut app, ctrl_s, CLOSED, vec![]),
        done(vec![
            KeyEffect::StashDraft(s("draft")),
            KeyEffect::ClearInputRecoverable,
            KeyEffect::ShowToast(Toast::DraftStashed),
        ])
    );
}

#[test]
fn empty_draft_is_not_stashed() {
    let mut app = app();
    assert_eq!(bound(&mut app, key(KeyCode::Char('s'), CONTROL), CLOSED, vec![]), done(vec![]));
    assert_eq!(app, self::app());
}

#[test]
fn copying_out_of_the_transcript() {
    let ctrl_y = key(KeyCode::Char('y'), CONTROL);
    let mut app = app();
    assert_eq!(
        bound(&mut app, ctrl_y, CLOSED, vec![Reply::Flag(true)]),
        done(vec![KeyEffect::CopyFocusedCell, KeyEffect::ShowToast(Toast::Copied)])
    );
    bound(&mut app, ctrl_y, CLOSED, vec![Reply::Flag(false)]);
    assert_eq!(app.status_message, Some(Notice::NoCellToCopy));
    let big_y = key(KeyCode::Char('Y'), SHIFT);
    assert_eq!(
        bound(&mut app, big_y, CLOSED, vec![Reply::Flag(true)]),
        (
            vec![KeyEffect::CopyThinkingCell, KeyEffect::ShowToast(Toast::ThinkingCopied)],
            KeyEventAction::Handled
        )
    );
    assert_eq!(
        bound(&mut app, big_y, CLOSED, vec![Reply::Flag(false)]).0,
        vec![KeyEffect::CopyThinkingCell]
    );
    app.composer.input = s("x");
    assert_eq!(bound(&mut app, ctrl_y, CLOSED, vec![]), done(vec![KeyEffect::Yank]));
    assert_eq!(bound(&mut app, big_y, CLOSED, vec![]).0, vec![KeyEffect::InsertChar('Y')]);
}

#[test]
fn vim_modes_take_bare_characters() {
    let mut app = app();
    app.composer.vim_enabled = true;
    app.composer.vim_mode = VimMode::Normal;
    assert_eq!(bound(&mut app, typed('x'), CLOSED, vec![]), handled(vec![KeyEffect::VimKey('x')]));
    let menu = Menus { slash: 1, mention: 0 };
    assert_eq!(bound(&mut app, typed('x'), menu, vec![]).0, vec![KeyEffect::InsertChar('x')]);
    app.composer.vim_mode = VimMode::Visual;
    assert_eq!(
        bound(&mut app, typed('x'), CLOSED, vec![]),
        handled(vec![])
    );
    assert_eq!(
        bound(&mut app, key(KeyCode::Char('X'), SHIFT), CLOSED, vec![]),
        handled(vec![])
    );
    app.composer.vim_mode = VimMode::Insert;
    assert_eq!(bound(&mut app, typed('x'), CLOSED, vec![]).0, vec![KeyEffect::InsertChar('x')]);
}

#[test]
fn paste_shortcut_pastes() {
    let mut paste = key(KeyCode::Char('v'), CONTROL);
    paste.traits.paste = true;
    assert_eq!(
        bound(&mut app(), paste, CLOSED, vec![]),
        done(vec![KeyEffect::PasteFromClipboard])
    );
    let mut insert = key(KeyCode::Other, SHIFT);
    insert.traits.paste = true;
    assert_eq!(
        bound(&mut app(), insert, CLOSED, vec![]),
        done(vec![KeyEffect::PasteFromClipboard])
    );
}

#[test]
fn transcript_and_session_shortcuts() {
    let mut app = app();
    assert_eq!(
        bound(&mut app, key(KeyCode::Char('t'), CONTROL), CLOSED, vec![]),
        handled(vec![KeyEffect::ToggleLiveTranscript])
    );
    assert_eq!(
        bound(&mut app, key(KeyCode::Char('r'), CONTROL), CLOSED, vec![]),
        handled(vec![KeyEffect::PushSessionPicker])
    );
}
