//! What holds of an onboarding key from its first step to its last, whatever the host answers on
//! the way.

use vstd::prelude::*;

use crate::keys::{Key, KeyCode, CONTROL};
use crate::notices::{Notice, Toast};
use crate::onboarding;
use crate::onboarding::{
    OnboardingAction, OnboardingEffect, OnboardingNext, OnboardingStep,
};
use crate::state::{App, Onboarding, OnboardingState, Turn};
use crate::step::Reply;
use crate::text;

verus! {

/// The steps of one key, from the first on. Between two of them the host may change the state as it
/// likes; at each stage it hands back what the stage waits for.
pub struct Run {
    pub key: Key,
    pub before: Seq<App>,
    pub after: Seq<App>,
    pub replies: Seq<Reply>,
    pub steps: Seq<OnboardingStep>,
}

impl Run {
    /// Whether step `i` goes on where the step before it waits, with what is waited for there.
    pub open spec fn goes_on(self, i: int) -> bool {
        self.steps[i - 1].next matches OnboardingNext::Await(stage) && self.replies[i].kind()
            == stage.awaited_kind() && onboarding::key_resumed(
            self.before[i],
            stage,
            self.replies[i],
            self.after[i],
            self.steps[i],
        )
    }

    /// Whether the steps are all those of the key.
    pub open spec fn complete(self) -> bool {
        &&& self.steps.len() > 0
        &&& onboarding::key_begun(self.before[0], self.key, self.after[0], self.steps[0])
        &&& forall|i: int| 0 < i < self.steps.len() ==> #[trigger] self.goes_on(i)
        &&& self.steps.last().next is Finish
    }

    /// What step `i` asks for.
    pub open spec fn effects(self, i: int) -> Seq<OnboardingEffect> {
        self.steps[i].effects@
    }

    /// Whether step `i` is the last, asks for `effects` and ends the key as handled.
    pub open spec fn ends(self, i: int, effects: Seq<OnboardingEffect>) -> bool {
        &&& i == self.steps.len() - 1
        &&& self.effects(i) == effects
        &&& self.steps[i].next == OnboardingNext::Finish(OnboardingAction::Handled)
    }

    /// Whether the key does nothing at all.
    pub open spec fn does_nothing(self) -> bool {
        self.ends(0, seq![]) && self.after[0] == self.before[0]
    }

    /// Whether the key makes the engine shut down and the event loop return.
    pub open spec fn leaves(self) -> bool {
        &&& self.steps.len() == 1
        &&& self.effects(0) == seq![OnboardingEffect::ShutdownEngine]
        &&& self.steps[0].next == OnboardingNext::Finish(OnboardingAction::Shutdown)
        &&& self.after[0] == self.before[0]
    }

    /// The screen that the key is pressed on.
    pub open spec fn screen(self) -> OnboardingState {
        self.before[0].onboarding.state
    }
}

/// Whether the key is Ctrl+C.
pub open spec fn is_ctrl_c(key: Key) -> bool {
    key.code == KeyCode::Char('c') && key.modifiers.has(CONTROL)
}

/// The state with another status line and nothing else changed.
pub open spec fn saying(app: App, notice: Notice) -> App {
    App { status_message: Some(notice), ..app }
}

proof fn unfold(run: Run)
    requires
        run.complete(),
    ensures
        run.steps.len() > 1 ==> run.goes_on(1),
        run.steps.len() > 2 ==> run.goes_on(2),
        run.steps.len() > 3 ==> run.goes_on(3),
        run.steps.len() > 4 ==> run.goes_on(4),
        run.steps.len() > 5 ==> run.goes_on(5),
        run.steps.len() > 1 <==> run.steps[0].next is Await,
        run.steps.len() > 2 <==> run.steps.len() > 1 && run.steps[1].next is Await,
        run.steps.len() > 3 <==> run.steps.len() > 2 && run.steps[2].next is Await,
        run.steps.len() > 4 <==> run.steps.len() > 3 && run.steps[3].next is Await,
        run.steps.len() > 5 <==> run.steps.len() > 4 && run.steps[4].next is Await,
{
    if run.steps.len() > 1 {
        assert(run.goes_on(1));
    }
    if run.steps.len() > 2 {
        assert(run.goes_on(2));
    }
    if run.steps.len() > 3 {
        assert(run.goes_on(3));
    }
    if run.steps.len() > 4 {
        assert(run.goes_on(4));
    }
    if run.steps.len() > 5 {
        assert(run.goes_on(5));
    }
}

/// Ctrl+C leaves the program from every screen, and the refusal leaves it on the screen that asks
/// for trust.
pub proof fn leaving_keys_leave(run: Run)
    requires
        run.complete(),
        is_ctrl_c(run.key) || run.screen() == OnboardingState::TrustDirectory && (run.key.code
            == KeyCode::Char('n') || run.key.code == KeyCode::Char('N') || run.key.code
            == KeyCode::Char('2')),
    ensures
        run.leaves(),
{
    unfold(run);
}

/// Esc leads from the screens for the language and for the API key back to the first one, with an
/// empty status line and nothing left of an entered key; elsewhere it does nothing.
pub proof fn escape_goes_back(run: Run)
    requires
        run.complete(),
        run.key.code == KeyCode::Esc,
    ensures
        ({
            let (pre, post) = (run.before[0], run.after[0]);
            let entering = run.screen() == OnboardingState::ApiKey;
            let choosing = run.screen() == OnboardingState::Language;
            &&& entering || choosing ==> run.ends(0, seq![])
            &&& choosing ==> post == (App {
                onboarding: Onboarding { state: OnboardingState::Welcome, ..pre.onboarding },
                status_message: None,
                ..pre
            })
            &&& entering ==> post.onboarding.api_key_input@.len() == 0 && post == (App {
                onboarding: Onboarding {
                    state: OnboardingState::Welcome,
                    api_key_input: post.onboarding.api_key_input,
                    api_key_cursor: 0,
                    ..pre.onboarding
                },
                status_message: None,
                ..pre
            })
            &&& !entering && !choosing ==> run.does_nothing()
        }),
{
    unfold(run);
}

/// A digit on the screen for the language picks one. Where it stands for none nothing happens. The
/// locale is set, and only where that could be done does the onboarding go on, with a toast that
/// says which it is.
pub proof fn digit_picks_a_language(run: Run, c: char)
    requires
        run.complete(),
        run.key.code == KeyCode::Char(c),
        '0' <= c <= '9',
        run.screen() == OnboardingState::Language,
    ensures
        run.effects(0) == seq![OnboardingEffect::LanguageForHotkey(c)],
        run.after[0] == run.before[0],
        run.after[1] == run.before[1],
        run.replies[1] == Reply::Maybe(None) ==> run.ends(1, seq![]),
        run.replies[1] matches Reply::Maybe(Some(tag)) ==> {
            &&& run.effects(1) == seq![OnboardingEffect::SetLocale(tag)]
            &&& run.replies[2] == Reply::Maybe(None) ==> run.after[2] == run.before[2] && run.ends(
                2,
                seq![
                    OnboardingEffect::ShowToast(Toast::LanguageSet(tag)),
                    OnboardingEffect::AdvanceAfterLanguage,
                ],
            )
            &&& run.replies[2] matches Reply::Maybe(Some(error)) ==> run.ends(2, seq![])
                && run.after[2] == saying(run.before[2], Notice::LocaleFailed(error))
            &&& run.replies[2] is Maybe
        },
        run.replies[1] is Maybe,
{
    unfold(run);
    assert(c != 'c');
}

/// Enter goes on from the screens that only show something or have nothing more to ask, and does
/// nothing where another answer is asked for.
pub proof fn enter_goes_on(run: Run)
    requires
        run.complete(),
        run.key.code == KeyCode::Enter,
    ensures
        run.after[0] == run.before[0],
        run.screen() == OnboardingState::Welcome ==> run.ends(
            0,
            seq![OnboardingEffect::AdvanceFromWelcome],
        ),
        run.screen() == OnboardingState::Language ==> run.ends(
            0,
            seq![OnboardingEffect::AdvanceAfterLanguage],
        ),
        run.screen() == OnboardingState::Tips ==> run.ends(
            0,
            seq![OnboardingEffect::FinishOnboarding],
        ),
        run.screen() == OnboardingState::TrustDirectory || run.screen() == OnboardingState::Inactive
            ==> run.does_nothing(),
{
    unfold(run);
}

/// Whether `part` is `whole` without the white space at its ends: it neither starts nor ends with
/// white space, and what was left out at the ends is nothing else.
pub open spec fn is_trimmed(whole: Seq<char>, part: Seq<char>) -> bool {
    &&& exists|i: int, j: int|
        0 <= i <= j <= whole.len() && part == whole.subrange(i, j) && text::blank(
            #[trigger] whole.subrange(0, i),
        ) && text::blank(#[trigger] whole.subrange(j, whole.len() as int))
    &&& part.len() > 0 ==> !text::white_space(part.first()) && !text::white_space(part.last())
}

/// Enter on the screen for the API key tries the key as it was entered, without the white space
/// around it. A key that is rejected is not saved, and one that was not saved starts no engine; the
/// status line says why, and the field stays as it is. With a key that was saved a new engine takes
/// the place of the old one, learns of the conversation so far where there is one, and the
/// onboarding goes on.
pub proof fn entered_key_is_used(run: Run)
    requires
        run.complete(),
        run.key.code == KeyCode::Enter,
        run.screen() == OnboardingState::ApiKey,
    ensures
        run.effects(0).len() == 1,
        run.effects(0)[0] matches OnboardingEffect::ValidateKey(key) && is_trimmed(
            run.before[0].onboarding.api_key_input@,
            key@,
        ),
        run.replies[1] is Maybe,
        run.replies[1] matches Reply::Maybe(Some(message)) ==> run.ends(1, seq![]) && run.after[1]
            == saying(run.before[1], Notice::Message(message)),
        run.replies[1] == Reply::Maybe(None) ==> {
            &&& run.effects(1) == seq![OnboardingEffect::SubmitKey]
            &&& run.after[1] == run.before[1]
            &&& run.replies[2] is Saved
            &&& run.replies[2] matches Reply::Saved(Err(error)) ==> run.ends(2, seq![])
                && run.after[2] == saying(run.before[2], Notice::Message(error))
            &&& run.replies[2] matches Reply::Saved(Ok(place)) ==> {
                &&& run.effects(2) == seq![OnboardingEffect::ShowToast(Toast::ApiKeySaved(place))]
                &&& run.after[2] == run.before[2]
                &&& run.effects(3) == seq![
                    OnboardingEffect::ShutdownEngine,
                    OnboardingEffect::RestartEngine(run.effects(0)[0]->ValidateKey_0),
                ]
                &&& run.after[3] == (App { status_message: None, ..run.before[3] })
                &&& run.before[4].session.has_messages ==> run.ends(
                    4,
                    seq![OnboardingEffect::SyncSession, OnboardingEffect::AdvanceAfterLanguage],
                )
                &&& !run.before[4].session.has_messages ==> run.ends(
                    4,
                    seq![OnboardingEffect::AdvanceAfterLanguage],
                )
                &&& run.after[4] == (App {
                    turn: Turn { offline_mode: false, ..run.before[4].turn },
                    onboarding: Onboarding {
                        api_key_env_only: false,
                        ..run.before[4].onboarding
                    },
                    ..run.before[4]
                })
            }
        },
{
    unfold(run);
    let entered = run.before[0].onboarding.api_key_input@;
    text::trimming_takes_the_ends(entered);
    let (i, j) = choose|i: int, j: int|
        0 <= i <= j <= entered.len() && text::trimmed(entered) == entered.subrange(i, j)
            && text::blank(#[trigger] entered.subrange(0, i)) && text::blank(
            #[trigger] entered.subrange(j, entered.len() as int),
        );
    assert(text::blank(entered.subrange(0, i)));
    assert(text::blank(entered.subrange(j, entered.len() as int)));
}

/// The workspace is accepted with Y or 1, and then marked as trusted. Where that could be done it
/// is trusted, and the onboarding goes on with the tips, or ends where only the trust was asked
/// for; where it could not, the status line says why and the question stays.
pub proof fn accepted_workspace_is_trusted(run: Run)
    requires
        run.complete(),
        run.key.code == KeyCode::Char('y') || run.key.code == KeyCode::Char('Y') || run.key.code
            == KeyCode::Char('1'),
        run.screen() == OnboardingState::TrustDirectory,
    ensures
        ({
            let (pre, post) = (run.before[1], run.after[1]);
            let gate = pre.onboarding.onboarding_workspace_trust_gate;
            &&& run.effects(0) == seq![OnboardingEffect::MarkTrusted]
            &&& run.after[0] == run.before[0]
            &&& run.ends(1, seq![])
            &&& run.replies[1] is Maybe
            &&& run.replies[1] == Reply::Maybe(None) ==> {
                &&& gate ==> post.onboarding.state == OnboardingState::Inactive
                &&& !gate ==> post.onboarding.state == OnboardingState::Tips
                &&& post == (App {
                    onboarding: Onboarding {
                        trust_mode: true,
                        onboarding_workspace_trust_gate: false,
                        state: post.onboarding.state,
                        ..pre.onboarding
                    },
                    status_message: None,
                    ..pre
                })
            }
            &&& run.replies[1] matches Reply::Maybe(Some(error)) ==> post == saying(
                pre,
                Notice::TrustFailed(error),
            )
        }),
{
    unfold(run);
}

/// What a key does to the API key as entered so far.
pub open spec fn edit_of(key: Key) -> Option<OnboardingEffect> {
    let erases = key.code == KeyCode::Backspace || key.traits.ctrl_h_backspace && key.code
        == KeyCode::Char('h');
    if erases {
        Some(OnboardingEffect::DeleteKeyChar)
    } else if key.traits.paste {
        Some(OnboardingEffect::PasteKey)
    } else if key.traits.text_input && key.code is Char {
        Some(OnboardingEffect::InsertKeyChar(key.code->Char_0))
    } else {
        None
    }
}

/// On the screen for the API key every other key edits it, and the status line is brought in line
/// with it; a key that edits nothing does nothing.
pub proof fn api_key_is_edited(run: Run)
    requires
        run.complete(),
        run.screen() == OnboardingState::ApiKey,
        !is_ctrl_c(run.key),
        run.key.code != KeyCode::Esc,
        run.key.code != KeyCode::Enter,
    ensures
        edit_of(run.key) is None ==> run.does_nothing(),
        edit_of(run.key) matches Some(edit) ==> run.after[0] == run.before[0] && run.ends(
            0,
            seq![edit, OnboardingEffect::SyncKeyStatus],
        ),
{
    unfold(run);
}

/// Whether the key is an answer to what the screen asks for.
pub open spec fn is_answer(screen: OnboardingState, code: KeyCode) -> bool {
    ||| screen == OnboardingState::ApiKey
    ||| screen == OnboardingState::Language && (code matches KeyCode::Char(c) && '0' <= c <= '9')
    ||| screen == OnboardingState::TrustDirectory && (code matches KeyCode::Char(c) && (c == 'y'
        || c == 'Y' || c == '1' || c == 'n' || c == 'N' || c == '2'))
}

/// A key that is no answer does nothing.
pub proof fn other_keys_do_nothing(run: Run)
    requires
        run.complete(),
        !is_ctrl_c(run.key),
        run.key.code != KeyCode::Esc,
        run.key.code != KeyCode::Enter,
        !is_answer(run.screen(), run.key.code),
    ensures
        run.does_nothing(),
{
    unfold(run);
}

} // verus!
