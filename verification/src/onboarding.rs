//! The keys of the first-run onboarding.

use vstd::prelude::*;

use crate::keys::{Key, KeyCode, CONTROL};
use crate::notices::{Notice, Toast};
use crate::state::{App, Onboarding, OnboardingState, Turn};
use crate::step;
use crate::step::{one, two, Reply, ReplyKind, Step};
use crate::text;
use crate::text::trim;

verus! {

/// What the host carries out while an onboarding key is handled. An effect that returns something
/// says so.
#[derive(Debug, PartialEq)]
pub enum OnboardingEffect {
    /// Tell the engine to shut down.
    ShutdownEngine,
    /// Maybe: the tag of the language that the digit picks.
    LanguageForHotkey(char),
    /// Maybe: the error where the locale could not be saved.
    SetLocale(String),
    ShowToast(Toast),
    AdvanceFromWelcome,
    AdvanceAfterLanguage,
    /// Maybe: why the key is rejected.
    ValidateKey(String),
    /// Saved: where the entered key was saved, or why it was not.
    SubmitKey,
    /// Put the key into the configuration and start a new engine with it.
    RestartEngine(String),
    /// Send the session as it stands to the engine.
    SyncSession,
    /// Maybe: the error where the workspace could not be marked as trusted.
    MarkTrusted,
    FinishOnboarding,
    DeleteKeyChar,
    PasteKey,
    InsertKeyChar(char),
    /// Bring the status line in line with the key as entered so far.
    SyncKeyStatus,
}

/// Where the handling of an onboarding key waits for the host.
#[derive(Debug, PartialEq)]
pub enum OnboardingStage {
    LanguageFound,
    LocaleSet { tag: String },
    KeyValidated { key: String },
    KeySubmitted { key: String },
    KeyAnnounced { key: String },
    EngineRestarted,
    TrustMarked,
}

impl OnboardingEffect {
    /// What the effect returns.
    pub open spec fn reply_kind(self) -> ReplyKind {
        match self {
            OnboardingEffect::LanguageForHotkey(..) => ReplyKind::Maybe,
            OnboardingEffect::SetLocale(..) => ReplyKind::Maybe,
            OnboardingEffect::ValidateKey(..) => ReplyKind::Maybe,
            OnboardingEffect::MarkTrusted => ReplyKind::Maybe,
            OnboardingEffect::SubmitKey => ReplyKind::Saved,
            _ => ReplyKind::Done,
        }
    }
}

impl OnboardingStage {
    /// What the stage waits for.
    pub open spec fn awaited_kind(self) -> ReplyKind {
        match self {
            OnboardingStage::LanguageFound => ReplyKind::Maybe,
            OnboardingStage::LocaleSet { .. } => ReplyKind::Maybe,
            OnboardingStage::KeyValidated { .. } => ReplyKind::Maybe,
            OnboardingStage::TrustMarked => ReplyKind::Maybe,
            OnboardingStage::KeySubmitted { .. } => ReplyKind::Saved,
            _ => ReplyKind::Done,
        }
    }
}

/// What the caller should do after an onboarding key was handled.
#[derive(Debug, Clone, Copy, PartialEq, Eq, Structural)]
pub enum OnboardingAction {
    /// The event loop keeps processing.
    Handled,
    /// The user asked to exit; the event loop returns.
    Shutdown,
}

/// How the handling of an onboarding key goes on.
#[derive(Debug, PartialEq)]
pub enum OnboardingNext {
    Await(OnboardingStage),
    Finish(OnboardingAction),
}

/// One step of the handling of an onboarding key.
pub type OnboardingStep = Step<OnboardingEffect, OnboardingNext>;

/// The key is handled after `effects`.
pub open spec fn handled(step: OnboardingStep, effects: Seq<OnboardingEffect>) -> bool {
    step::step_is(step, effects, OnboardingNext::Finish(OnboardingAction::Handled))
}

/// The engine is told to shut down, and the event loop returns.
pub open spec fn shuts_down(step: OnboardingStep) -> bool {
    step::step_is(
        step,
        seq![OnboardingEffect::ShutdownEngine],
        OnboardingNext::Finish(OnboardingAction::Shutdown),
    )
}

/// The handling goes on in `stage` after `effects`.
pub open spec fn waits(
    step: OnboardingStep,
    effects: Seq<OnboardingEffect>,
    stage: OnboardingStage,
) -> bool {
    step::step_is(step, effects, OnboardingNext::Await(stage))
}

fn handle(effects: Vec<OnboardingEffect>) -> (step: OnboardingStep)
    ensures
        handled(step, effects@),
{
    Step { effects, next: OnboardingNext::Finish(OnboardingAction::Handled) }
}

fn shut_down() -> (step: OnboardingStep)
    ensures
        shuts_down(step),
{
    Step {
        effects: one(OnboardingEffect::ShutdownEngine),
        next: OnboardingNext::Finish(OnboardingAction::Shutdown),
    }
}

fn wait(effects: Vec<OnboardingEffect>, stage: OnboardingStage) -> (step: OnboardingStep)
    ensures
        waits(step, effects@, stage),
{
    Step { effects, next: OnboardingNext::Await(stage) }
}

/// The keys that accept the workspace.
pub open spec fn accepts(code: KeyCode) -> bool {
    ||| code == KeyCode::Char('y')
    ||| code == KeyCode::Char('Y')
    ||| code == KeyCode::Char('1')
}

/// The keys that refuse the workspace.
pub open spec fn refuses(code: KeyCode) -> bool {
    ||| code == KeyCode::Char('n')
    ||| code == KeyCode::Char('N')
    ||| code == KeyCode::Char('2')
}

/// The screen that Esc leads back from, with nothing entered and nothing in the status line.
pub open spec fn back_to_welcome(pre: App, post: App) -> bool {
    if pre.onboarding.state == OnboardingState::ApiKey {
        &&& post.onboarding.api_key_input@ == Seq::<char>::empty()
        &&& post == App {
            onboarding: Onboarding {
                state: OnboardingState::Welcome,
                api_key_input: post.onboarding.api_key_input,
                api_key_cursor: 0,
                ..pre.onboarding
            },
            status_message: None,
            ..pre
        }
    } else {
        post == App {
            onboarding: Onboarding { state: OnboardingState::Welcome, ..pre.onboarding },
            status_message: None,
            ..pre
        }
    }
}

/// Enter goes on from the current screen.
pub open spec fn enter_pressed(pre: App, post: App, step: OnboardingStep) -> bool {
    &&& post == pre
    &&& match pre.onboarding.state {
        OnboardingState::Welcome => handled(step, seq![OnboardingEffect::AdvanceFromWelcome]),
        OnboardingState::Language => handled(step, seq![OnboardingEffect::AdvanceAfterLanguage]),
        OnboardingState::ApiKey => {
            &&& step.effects@.len() == 1
            &&& step.effects@[0] matches OnboardingEffect::ValidateKey(key)
                && key@ == text::trimmed(pre.onboarding.api_key_input@)
                && waits(step, step.effects@, OnboardingStage::KeyValidated { key })
        },
        OnboardingState::Tips => handled(step, seq![OnboardingEffect::FinishOnboarding]),
        _ => handled(step, seq![]),
    }
}

/// An edit of the API key; the status line follows what is entered.
pub open spec fn edits(step: OnboardingStep, effect: OnboardingEffect) -> bool {
    handled(step, seq![effect, OnboardingEffect::SyncKeyStatus])
}

/// The first step of an onboarding key.
pub open spec fn key_begun(pre: App, key: Key, post: App, step: OnboardingStep) -> bool {
    let state = pre.onboarding.state;
    if key.code == KeyCode::Char('c') && key.modifiers.has(CONTROL) {
        post == pre && shuts_down(step)
    } else if key.code == KeyCode::Esc && (state == OnboardingState::ApiKey || state
        == OnboardingState::Language) {
        back_to_welcome(pre, post) && handled(step, seq![])
    } else if state == OnboardingState::Language && (key.code matches KeyCode::Char(c) && '0' <= c
        <= '9') {
        post == pre && waits(
            step,
            seq![OnboardingEffect::LanguageForHotkey(key.code->Char_0)],
            OnboardingStage::LanguageFound,
        )
    } else if key.code == KeyCode::Enter {
        enter_pressed(pre, post, step)
    } else if state == OnboardingState::TrustDirectory && accepts(key.code) {
        post == pre && waits(
            step,
            seq![OnboardingEffect::MarkTrusted],
            OnboardingStage::TrustMarked,
        )
    } else if state == OnboardingState::TrustDirectory && refuses(key.code) {
        post == pre && shuts_down(step)
    } else if state == OnboardingState::ApiKey {
        post == pre && key_edited(key, step)
    } else {
        post == pre && handled(step, seq![])
    }
}

/// A key in the field for the API key.
pub open spec fn key_edited(key: Key, step: OnboardingStep) -> bool {
    if key.code == KeyCode::Backspace || key.code == KeyCode::Char('h')
        && key.traits.ctrl_h_backspace {
        edits(step, OnboardingEffect::DeleteKeyChar)
    } else if key.traits.paste {
        edits(step, OnboardingEffect::PasteKey)
    } else if key.code is Char && key.traits.text_input {
        edits(step, OnboardingEffect::InsertKeyChar(key.code->Char_0))
    } else {
        handled(step, seq![])
    }
}

fn on_key_edited(key: Key) -> (step: OnboardingStep)
    ensures
        key_edited(key, step),
{
    if key.code == KeyCode::Backspace || key.is_char('h') && key.traits.ctrl_h_backspace {
        return handle(two(OnboardingEffect::DeleteKeyChar, OnboardingEffect::SyncKeyStatus));
    }
    if key.traits.paste {
        return handle(two(OnboardingEffect::PasteKey, OnboardingEffect::SyncKeyStatus));
    }
    match key.code {
        KeyCode::Char(c) => if key.traits.text_input {
            handle(two(OnboardingEffect::InsertKeyChar(c), OnboardingEffect::SyncKeyStatus))
        } else {
            handle(Vec::new())
        },
        _ => handle(Vec::new()),
    }
}

fn on_enter_pressed(app: &mut App) -> (step: OnboardingStep)
    ensures
        enter_pressed(*old(app), *final(app), step),
{
    match app.onboarding.state {
        OnboardingState::Welcome => handle(one(OnboardingEffect::AdvanceFromWelcome)),
        OnboardingState::Language => handle(one(OnboardingEffect::AdvanceAfterLanguage)),
        OnboardingState::ApiKey => {
            let key: String = trim(app.onboarding.api_key_input.as_str());
            wait(
                one(OnboardingEffect::ValidateKey(key.clone())),
                OnboardingStage::KeyValidated { key },
            )
        },
        OnboardingState::Tips => handle(one(OnboardingEffect::FinishOnboarding)),
        _ => handle(Vec::new()),
    }
}

fn go_back(app: &mut App)
    ensures
        back_to_welcome(*old(app), *final(app)),
{
    if app.onboarding.state == OnboardingState::ApiKey {
        app.onboarding.api_key_input = String::new();
        app.onboarding.api_key_cursor = 0;
    }
    app.onboarding.state = OnboardingState::Welcome;
    app.status_message = None;
}

/// Begins to handle an onboarding key.
pub fn begin_onboarding_key(app: &mut App, key: Key) -> (step: OnboardingStep)
    ensures
        key_begun(*old(app), key, *final(app), step),
{
    let state = app.onboarding.state;
    if key.is_char('c') && key.modifiers.contains(CONTROL) {
        return shut_down();
    }
    if key.code == KeyCode::Esc && (state == OnboardingState::ApiKey || state
        == OnboardingState::Language) {
        go_back(app);
        return handle(Vec::new());
    }
    if state == OnboardingState::Language {
        if let KeyCode::Char(c) = key.code {
            if '0' <= c && c <= '9' {
                return wait(
                    one(OnboardingEffect::LanguageForHotkey(c)),
                    OnboardingStage::LanguageFound,
                );
            }
        }
    }
    if key.code == KeyCode::Enter {
        return on_enter_pressed(app);
    }
    if state == OnboardingState::TrustDirectory {
        if key.is_char('y') || key.is_char('Y') || key.is_char('1') {
            return wait(one(OnboardingEffect::MarkTrusted), OnboardingStage::TrustMarked);
        }
        if key.is_char('n') || key.is_char('N') || key.is_char('2') {
            return shut_down();
        }
    }
    if state == OnboardingState::ApiKey {
        on_key_edited(key)
    } else {
        handle(Vec::new())
    }
}

// What the host has found out decides how it goes on.

pub open spec fn language_found(
    pre: App,
    tag: Option<String>,
    post: App,
    step: OnboardingStep,
) -> bool {
    &&& post == pre
    &&& match tag {
        Some(tag) => waits(
            step,
            seq![OnboardingEffect::SetLocale(tag)],
            OnboardingStage::LocaleSet { tag },
        ),
        None => handled(step, seq![]),
    }
}

pub open spec fn locale_set(
    pre: App,
    tag: String,
    error: Option<String>,
    post: App,
    step: OnboardingStep,
) -> bool {
    match error {
        None => post == pre && handled(
            step,
            seq![
                OnboardingEffect::ShowToast(Toast::LanguageSet(tag)),
                OnboardingEffect::AdvanceAfterLanguage,
            ],
        ),
        Some(error) => post == pre.with_status(Notice::LocaleFailed(error)) && handled(
            step,
            seq![],
        ),
    }
}

/// A rejected key is not saved.
pub open spec fn key_validated(
    pre: App,
    key: String,
    rejection: Option<String>,
    post: App,
    step: OnboardingStep,
) -> bool {
    match rejection {
        Some(message) => post == pre.with_status(Notice::Message(message)) && handled(step, seq![]),
        None => post == pre && waits(
            step,
            seq![OnboardingEffect::SubmitKey],
            OnboardingStage::KeySubmitted { key },
        ),
    }
}

pub open spec fn key_submitted(
    pre: App,
    key: String,
    saved: Result<String, String>,
    post: App,
    step: OnboardingStep,
) -> bool {
    match saved {
        Ok(place) => post == pre && waits(
            step,
            seq![OnboardingEffect::ShowToast(Toast::ApiKeySaved(place))],
            OnboardingStage::KeyAnnounced { key },
        ),
        Err(error) => post == pre.with_status(Notice::Message(error)) && handled(step, seq![]),
    }
}

/// The old engine goes, and a new one comes with the key.
pub open spec fn key_announced(pre: App, key: String, post: App, step: OnboardingStep) -> bool {
    &&& post == App { status_message: None, ..pre }
    &&& waits(
        step,
        seq![OnboardingEffect::ShutdownEngine, OnboardingEffect::RestartEngine(key)],
        OnboardingStage::EngineRestarted,
    )
}

/// The new engine learns of the conversation so far.
pub open spec fn engine_restarted(pre: App, post: App, step: OnboardingStep) -> bool {
    &&& post == App {
        turn: Turn { offline_mode: false, ..pre.turn },
        onboarding: Onboarding { api_key_env_only: false, ..pre.onboarding },
        ..pre
    }
    &&& handled(
        step,
        if pre.session.has_messages {
            seq![OnboardingEffect::SyncSession, OnboardingEffect::AdvanceAfterLanguage]
        } else {
            seq![OnboardingEffect::AdvanceAfterLanguage]
        },
    )
}

/// The workspace is trusted: the onboarding ends where only that was asked for.
pub open spec fn trust_marked(
    pre: App,
    error: Option<String>,
    post: App,
    step: OnboardingStep,
) -> bool {
    &&& handled(step, seq![])
    &&& post == match error {
        None => App {
            onboarding: Onboarding {
                trust_mode: true,
                onboarding_workspace_trust_gate: false,
                state: if pre.onboarding.onboarding_workspace_trust_gate {
                    OnboardingState::Inactive
                } else {
                    OnboardingState::Tips
                },
                ..pre.onboarding
            },
            status_message: None,
            ..pre
        },
        Some(error) => pre.with_status(Notice::TrustFailed(error)),
    }
}

fn show(app: &mut App, notice: Notice) -> (step: OnboardingStep)
    ensures
        *final(app) == old(app).with_status(notice),
        handled(step, seq![]),
{
    app.status_message = Some(notice);
    handle(Vec::new())
}

pub fn on_language_found(app: &mut App, tag: Option<String>) -> (step: OnboardingStep)
    ensures
        language_found(*old(app), tag, *final(app), step),
{
    match tag {
        Some(tag) => wait(
            one(OnboardingEffect::SetLocale(tag.clone())),
            OnboardingStage::LocaleSet { tag },
        ),
        None => handle(Vec::new()),
    }
}

pub fn on_locale_set(app: &mut App, tag: String, error: Option<String>) -> (step: OnboardingStep)
    ensures
        locale_set(*old(app), tag, error, *final(app), step),
{
    match error {
        None => handle(
            two(
                OnboardingEffect::ShowToast(Toast::LanguageSet(tag)),
                OnboardingEffect::AdvanceAfterLanguage,
            ),
        ),
        Some(error) => show(app, Notice::LocaleFailed(error)),
    }
}

pub fn on_key_validated(app: &mut App, key: String, rejection: Option<String>) -> (step:
    OnboardingStep)
    ensures
        key_validated(*old(app), key, rejection, *final(app), step),
{
    match rejection {
        Some(message) => show(app, Notice::Message(message)),
        None => wait(one(OnboardingEffect::SubmitKey), OnboardingStage::KeySubmitted { key }),
    }
}

pub fn on_key_submitted(app: &mut App, key: String, saved: Result<String, String>) -> (step:
    OnboardingStep)
    ensures
        key_submitted(*old(app), key, saved, *final(app), step),
{
    match saved {
        Ok(place) => wait(
            one(OnboardingEffect::ShowToast(Toast::ApiKeySaved(place))),
            OnboardingStage::KeyAnnounced { key },
        ),
        Err(error) => show(app, Notice::Message(error)),
    }
}

pub fn on_key_announced(app: &mut App, key: String) -> (step: OnboardingStep)
    ensures
        key_announced(*old(app), key, *final(app), step),
{
    app.status_message = None;
    wait(
        two(OnboardingEffect::ShutdownEngine, OnboardingEffect::RestartEngine(key)),
        OnboardingStage::EngineRestarted,
    )
}

pub fn on_engine_restarted(app: &mut App) -> (step: OnboardingStep)
    ensures
        engine_restarted(*old(app), *final(app), step),
{
    app.turn.offline_mode = false;
    app.onboarding.api_key_env_only = false;
    if app.session.has_messages {
        handle(two(OnboardingEffect::SyncSession, OnboardingEffect::AdvanceAfterLanguage))
    } else {
        handle(one(OnboardingEffect::AdvanceAfterLanguage))
    }
}

pub fn on_trust_marked(app: &mut App, error: Option<String>) -> (step: OnboardingStep)
    ensures
        trust_marked(*old(app), error, *final(app), step),
{
    match error {
        None => {
            app.onboarding.trust_mode = true;
            app.status_message = None;
            if app.onboarding.onboarding_workspace_trust_gate {
                app.onboarding.onboarding_workspace_trust_gate = false;
                app.onboarding.state = OnboardingState::Inactive;
            } else {
                app.onboarding.state = OnboardingState::Tips;
            }
            handle(Vec::new())
        },
        Some(error) => show(app, Notice::TrustFailed(error)),
    }
}

/// The next step of an onboarding key, after the host has handed back `reply`. A reply that the
/// stage does not wait for changes nothing.
pub open spec fn key_resumed(
    pre: App,
    stage: OnboardingStage,
    reply: Reply,
    post: App,
    step: OnboardingStep,
) -> bool {
    match (stage, reply) {
        (OnboardingStage::LanguageFound, Reply::Maybe(tag)) => language_found(pre, tag, post, step),
        (OnboardingStage::LocaleSet { tag }, Reply::Maybe(error)) => locale_set(
            pre,
            tag,
            error,
            post,
            step,
        ),
        (OnboardingStage::KeyValidated { key }, Reply::Maybe(rejection)) => key_validated(
            pre,
            key,
            rejection,
            post,
            step,
        ),
        (OnboardingStage::KeySubmitted { key }, Reply::Saved(saved)) => key_submitted(
            pre,
            key,
            saved,
            post,
            step,
        ),
        (OnboardingStage::KeyAnnounced { key }, Reply::Done) => key_announced(pre, key, post, step),
        (OnboardingStage::EngineRestarted, Reply::Done) => engine_restarted(pre, post, step),
        (OnboardingStage::TrustMarked, Reply::Maybe(error)) => trust_marked(pre, error, post, step),
        (stage, _) => post == pre && waits(step, seq![], stage),
    }
}

/// Goes on with an onboarding key, after the host has handed back `reply`.
pub fn resume_onboarding_key(app: &mut App, stage: OnboardingStage, reply: Reply) -> (step:
    OnboardingStep)
    ensures
        key_resumed(*old(app), stage, reply, *final(app), step),
{
    match (stage, reply) {
        (OnboardingStage::LanguageFound, Reply::Maybe(tag)) => on_language_found(app, tag),
        (OnboardingStage::LocaleSet { tag }, Reply::Maybe(error)) => on_locale_set(app, tag, error),
        (OnboardingStage::KeyValidated { key }, Reply::Maybe(rejection)) => on_key_validated(
            app,
            key,
            rejection,
        ),
        (OnboardingStage::KeySubmitted { key }, Reply::Saved(saved)) => on_key_submitted(
            app,
            key,
            saved,
        ),
        (OnboardingStage::KeyAnnounced { key }, Reply::Done) => on_key_announced(app, key),
        (OnboardingStage::EngineRestarted, Reply::Done) => on_engine_restarted(app),
        (OnboardingStage::TrustMarked, Reply::Maybe(error)) => on_trust_marked(app, error),
        (stage, _) => wait(Vec::new(), stage),
    }
}

// What holds of the onboarding over several steps.

/// How many steps may still follow a stage, at most.
pub open spec fn rank(stage: OnboardingStage) -> nat {
    match stage {
        OnboardingStage::LanguageFound => 2,
        OnboardingStage::LocaleSet { .. } => 1,
        OnboardingStage::KeyValidated { .. } => 4,
        OnboardingStage::KeySubmitted { .. } => 3,
        OnboardingStage::KeyAnnounced { .. } => 2,
        OnboardingStage::EngineRestarted => 1,
        OnboardingStage::TrustMarked => 1,
    }
}

/// Whether the step ends the key, or goes on in a stage of a rank below `bound` that waits for what
/// the step's last effect returns.
pub open spec fn advances(step: OnboardingStep, bound: nat) -> bool {
    match step.next {
        OnboardingNext::Finish(_) => true,
        OnboardingNext::Await(stage) => {
            &&& step.effects@.len() > 0
            &&& step.effects@.last().reply_kind() == stage.awaited_kind()
            &&& rank(stage) < bound
        },
    }
}

/// Every onboarding key ends after a bounded number of steps, and no step waits for anything but
/// what its last effect returns: the first step of a key advances.
pub proof fn beginning_advances(pre: App, key: Key, post: App, step: OnboardingStep)
    requires
        key_begun(pre, key, post, step),
    ensures
        advances(step, 5),
{
}

/// Every onboarding key ends after a bounded number of steps: where the host hands back what the
/// stage waits for, the next step ends the key or goes on in a stage of a lower rank.
pub proof fn resuming_advances(
    pre: App,
    stage: OnboardingStage,
    reply: Reply,
    post: App,
    step: OnboardingStep,
)
    requires
        key_resumed(pre, stage, reply, post, step),
        reply.kind() == stage.awaited_kind(),
    ensures
        advances(step, rank(stage)),
{
}

/// Ctrl+C leaves the program from every screen.
pub proof fn ctrl_c_always_leaves(pre: App, key: Key, post: App, step: OnboardingStep)
    requires
        key.code == KeyCode::Char('c'),
        key.modifiers.has(CONTROL),
        key_begun(pre, key, post, step),
    ensures
        post == pre,
        shuts_down(step),
{
}

/// A key leaves the program exactly by Ctrl+C, on every screen, or by the refusal to trust the
/// workspace.
pub proof fn only_ctrl_c_and_refusal_leave(pre: App, key: Key, post: App, step: OnboardingStep)
    requires
        key_begun(pre, key, post, step),
    ensures
        step.next == OnboardingNext::Finish(OnboardingAction::Shutdown) <==> (key.code
            == KeyCode::Char('c') && key.modifiers.has(CONTROL)) || (pre.onboarding.state
            == OnboardingState::TrustDirectory && refuses(key.code)),
{
}

/// No later step of an onboarding key leaves the program.
pub proof fn later_steps_stay(
    pre: App,
    stage: OnboardingStage,
    reply: Reply,
    post: App,
    step: OnboardingStep,
)
    requires
        key_resumed(pre, stage, reply, post, step),
    ensures
        step.next != OnboardingNext::Finish(OnboardingAction::Shutdown),
{
}

/// A key that was rejected restarts nothing and stays in its field.
pub proof fn rejected_key_goes_nowhere(
    pre: App,
    key: String,
    message: String,
    post: App,
    step: OnboardingStep,
)
    requires
        key_resumed(
            pre,
            OnboardingStage::KeyValidated { key },
            Reply::Maybe(Some(message)),
            post,
            step,
        ),
    ensures
        handled(step, seq![]),
        post.onboarding == pre.onboarding,
        post.status_message == Some(Notice::Message(message)),
{
}

/// A key that could not be saved restarts nothing and stays in its field.
pub proof fn unsaved_key_goes_nowhere(
    pre: App,
    key: String,
    error: String,
    post: App,
    step: OnboardingStep,
)
    requires
        key_resumed(
            pre,
            OnboardingStage::KeySubmitted { key },
            Reply::Saved(Err(error)),
            post,
            step,
        ),
    ensures
        handled(step, seq![]),
        post.onboarding == pre.onboarding,
        post.status_message == Some(Notice::Message(error)),
{
}

/// The engine is started anew only with a key that was saved: the restart follows the announcement,
/// and the announcement follows the save, with the same key.
pub proof fn restart_follows_save(
    pre: App,
    stage: OnboardingStage,
    reply: Reply,
    post: App,
    step: OnboardingStep,
    key: String,
)
    requires
        key_resumed(pre, stage, reply, post, step),
    ensures
        step.effects@.contains(OnboardingEffect::RestartEngine(key)) ==> stage
            == (OnboardingStage::KeyAnnounced { key }),
        step.next == OnboardingNext::Await(OnboardingStage::KeyAnnounced { key })
            && step.effects@.len() > 0 ==> stage == (OnboardingStage::KeySubmitted { key })
            && reply matches Reply::Saved(Ok(_)),
        step.next == OnboardingNext::Await(OnboardingStage::KeySubmitted { key })
            && step.effects@.len() > 0 ==> stage == (OnboardingStage::KeyValidated { key })
            && reply == Reply::Maybe(None),
{
}

/// The key that is validated, saved and used is the entered one without the white space around it.
pub proof fn entered_key_is_trimmed(
    pre: App,
    key: Key,
    post: App,
    step: OnboardingStep,
    entered: String,
)
    requires
        key_begun(pre, key, post, step),
        step.next == OnboardingNext::Await(OnboardingStage::KeyValidated { key: entered }),
    ensures
        pre.onboarding.state == OnboardingState::ApiKey,
        key.code == KeyCode::Enter,
        entered@ == text::trimmed(pre.onboarding.api_key_input@),
        step.effects@ == seq![OnboardingEffect::ValidateKey(entered)],
{
}

/// Esc leads back to the first screen and leaves nothing of an entered key.
pub proof fn escape_forgets_the_key(pre: App, key: Key, post: App, step: OnboardingStep)
    requires
        key.code == KeyCode::Esc,
        pre.onboarding.state == OnboardingState::ApiKey,
        key_begun(pre, key, post, step),
    ensures
        post.onboarding.state == OnboardingState::Welcome,
        post.onboarding.api_key_input@.len() == 0,
        post.onboarding.api_key_cursor == 0,
        post.status_message is None,
{
}

/// The API key is edited on its own screen only.
pub proof fn key_is_edited_on_its_screen(
    pre: App,
    key: Key,
    post: App,
    step: OnboardingStep,
    c: char,
)
    requires
        key_begun(pre, key, post, step),
        step.effects@.contains(OnboardingEffect::InsertKeyChar(c)) || step.effects@.contains(
            OnboardingEffect::PasteKey,
        ) || step.effects@.contains(OnboardingEffect::DeleteKeyChar),
    ensures
        pre.onboarding.state == OnboardingState::ApiKey,
{
}

/// The workspace is trusted only after it could be marked so; a failure changes nothing but the
/// status line.
pub proof fn trust_follows_the_mark(
    pre: App,
    error: Option<String>,
    post: App,
    step: OnboardingStep,
)
    requires
        trust_marked(pre, error, post, step),
    ensures
        error is None ==> post.onboarding.trust_mode && post.onboarding.state
            != OnboardingState::TrustDirectory,
        error is Some ==> post.onboarding == pre.onboarding,
{
}

} // verus!
