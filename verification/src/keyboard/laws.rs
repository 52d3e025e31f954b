//! What holds of the keys over several steps.

use vstd::prelude::*;

use crate::keyboard::bindings;
use crate::keyboard::chars;
use crate::keyboard::dispatch;
use crate::keyboard::enter;
use crate::keyboard::escape;
use crate::keyboard::followups;
use crate::keyboard::front;
use crate::keyboard::types;
use crate::keyboard::types::{
    Erasure, KeyEffect, KeyEventAction, KeyNext, KeyStage, KeyStep, Menus,
};
use crate::keys;
use crate::keys::{Key, KeyCode, KeyTraits, ALT, CONTROL, SHIFT};
use crate::state::{App, Composer, ModalKind, QueuedMessage, VimMode};
use crate::step::{CtrlCDisposition, EscapeAction, Reply};

verus! {

/// How many steps may still follow a stage, at most.
pub open spec fn rank(stage: KeyStage) -> nat {
    match stage {
        KeyStage::Unprimed { .. } => 16,
        KeyStage::Killed => 1,
        KeyStage::ViewEvents => 1,
        KeyStage::TreeActivated => 1,
        KeyStage::BurstFlushed { .. } => 15,
        KeyStage::PendingFlushed { .. } => 14,
        KeyStage::BurstKeyed { .. } => 14,
        KeyStage::SlashCounted { .. } => 13,
        KeyStage::MentionCounted { .. } => 12,
        KeyStage::EnterSelection { .. } => 11,
        KeyStage::EnterMention { .. } => 10,
        KeyStage::EnterLooks { .. } => 9,
        KeyStage::EnterApplied { .. } => 8,
        KeyStage::EnterInput { .. } => 7,
        KeyStage::EnterPlan { .. } => 6,
        KeyStage::EnterMemory { .. } => 5,
        KeyStage::EnterCommand { .. } => 4,
        KeyStage::EnterBuilt { .. } => 3,
        KeyStage::EnterUndone { .. } => 2,
        KeyStage::Submitted { .. } => 1,
        KeyStage::CommandRun { .. } => 1,
        KeyStage::SteerInput { .. } => 5,
        KeyStage::SteerLooks { .. } => 4,
        KeyStage::SteerBuilt { .. } => 3,
        KeyStage::Steered { .. } => 2,
        KeyStage::SteerQueued { .. } => 1,
        KeyStage::EscAttachment { .. } => 4,
        KeyStage::EscAction { .. } => 3,
        KeyStage::EscCancelled { .. } => 1,
        KeyStage::EscCounted { .. } => 2,
        KeyStage::EscBacktracked { .. } => 1,
        KeyStage::TabMention { .. } => 6,
        KeyStage::TabSlash { .. } => 5,
        KeyStage::TabCommand { .. } => 4,
        KeyStage::TabFile { .. } => 3,
        KeyStage::TabQueue { .. } => 2,
        KeyStage::TabMode { .. } => 1,
        KeyStage::Erasing { .. } => 1,
        KeyStage::Paged { .. } => 3,
        KeyStage::FoldCell => 2,
        KeyStage::FoldMarked => 1,
        KeyStage::Focused { .. } => 1,
        KeyStage::CtrlCAsked { .. } => 3,
        KeyStage::CtrlCCancelled { .. } => 2,
        KeyStage::CtrlCRestored { .. } => 1,
        KeyStage::Jumped { .. } => 3,
        KeyStage::Edited { .. } => 2,
        KeyStage::EditorNamed { .. } => 1,
        KeyStage::CellCopied { .. } => 1,
        KeyStage::ThinkingCopied { .. } => 1,
    }
}

/// Whether the step ends the key, or goes on in a stage of a rank below `bound` that waits for what
/// the step's last effect returns.
pub open spec fn advances(step: KeyStep, bound: nat) -> bool {
    match step.next {
        KeyNext::Finish(_) => true,
        KeyNext::Fail(_) => true,
        KeyNext::Await(stage) => {
            &&& step.effects@.len() > 0
            &&& step.effects@.last().reply_kind() == stage.awaited_kind()
            &&& step.effects@.last().may_fail() == stage.may_fail()
            &&& rank(stage) < bound
        },
    }
}

proof fn composing_advances(app: App, key: Key, menus: Menus, c: char, step: KeyStep)
    requires
        types::does(step, chars::composer_plan(app, key, menus, c)),
    ensures
        advances(step, 3),
{
}

proof fn typing_advances(app: App, key: Key, menus: Menus, c: char, step: KeyStep)
    requires
        types::does(step, chars::char_plan(app, key, menus, c)),
    ensures
        advances(step, 12),
{
    match chars::transcript_plan(app, key, menus, c) {
        Some(_) => {},
        None => {
            composing_advances(app, key, menus, c, step);
        },
    }
}

/// What a key is bound to is done in a step that advances.
pub proof fn binding_advances(pre: App, key: Key, menus: Menus, post: App, step: KeyStep)
    requires
        bindings::key_bound(pre, key, menus, post, step),
    ensures
        advances(step, 12),
{
    if let KeyCode::Char(c) = key.code {
        typing_advances(pre, key, menus, c, step);
    }
}

proof fn starting_advances(pre: App, key: Key, now: u128, post: App, step: KeyStep)
    requires
        front::key_started(pre, key, now, post, step),
    ensures
        advances(step, 16),
{
}

/// Every key ends after a bounded number of steps, and no step waits for anything but what its last
/// effect returns: the first step of a key advances.
pub proof fn beginning_advances(pre: App, key: Key, now: u128, post: App, step: KeyStep)
    requires
        front::key_begun(pre, key, now, post, step),
    ensures
        advances(step, 17),
{
    if !front::unprimes(pre, key) {
        starting_advances(pre, key, now, post, step);
    }
}

/// Every key ends after a bounded number of steps: where the host hands back what the stage waits
/// for, the next step ends the key or goes on in a stage of a lower rank.
pub proof fn resuming_advances(
    pre: App,
    stage: KeyStage,
    reply: Reply,
    post: App,
    step: KeyStep,
)
    requires
        dispatch::key_resumed(pre, stage, reply, post, step),
        stage.accepts(reply),
    ensures
        advances(step, rank(stage)),
{
    match (stage, reply) {
        (KeyStage::Unprimed { key, now }, Reply::Done) => {
            starting_advances(pre, key, now, post, step);
        },
        (KeyStage::MentionCounted { key, slash }, Reply::Count(mention)) => {
            binding_advances(
                selecting(pre, mention),
                key,
                Menus { slash, mention },
                post,
                step,
            );
        },
        (KeyStage::Paged { key, menus }, Reply::Flag(opened)) => {
            if let KeyCode::Char(c) = key.code {
                if !opened {
                    composing_advances(pre, key, menus, c, step);
                }
            }
        },
        (KeyStage::Jumped { key, menus, .. }, Reply::Flag(found)) => {
            if let KeyCode::Char(c) = key.code {
                if found {
                    composing_advances(pre, key, menus, c, step);
                }
            }
        },
        _ => {},
    }
}

/// The state with the selection of the mention menu kept within its entries.
pub open spec fn selecting(app: App, mention: usize) -> App {
    App {
        composer: Composer {
            mention_menu_selected: front::clamped(app.composer.mention_menu_selected, mention),
            ..app.composer
        },
        ..app
    }
}

/// The steps of one key, from the first on. Between two of them the host may change the state as it
/// likes; at each stage it hands back what the stage waits for.
pub struct Handling {
    pub key: Key,
    pub now: u128,
    pub before: Seq<App>,
    pub after: Seq<App>,
    pub stages: Seq<KeyStage>,
    pub replies: Seq<Reply>,
    pub steps: Seq<KeyStep>,
}

impl Handling {
    /// Whether the first step begins the key.
    #[verifier::opaque]
    pub open spec fn begins(self) -> bool {
        front::key_begun(self.before[0], self.key, self.now, self.after[0], self.steps[0])
    }

    /// Whether step `i` resumes the stage that the step before it waits in, with what that stage
    /// waits for.
    #[verifier::opaque]
    pub open spec fn resumes(self, i: int) -> bool {
        &&& self.steps[i - 1].next == KeyNext::Await(self.stages[i])
        &&& self.stages[i].accepts(self.replies[i])
        &&& dispatch::key_resumed(
            self.before[i],
            self.stages[i],
            self.replies[i],
            self.after[i],
            self.steps[i],
        )
    }
}

proof fn resumed_step_advances(handling: Handling, i: int)
    requires
        handling.resumes(i),
    ensures
        handling.steps[i - 1].next == KeyNext::Await(handling.stages[i]),
        advances(handling.steps[i], rank(handling.stages[i])),
{
    reveal(Handling::resumes);
    resuming_advances(
        handling.before[i],
        handling.stages[i],
        handling.replies[i],
        handling.after[i],
        handling.steps[i],
    );
}

proof fn step_bound(handling: Handling, n: int)
    requires
        0 <= n <= 16,
        handling.begins(),
        forall|i: int| 0 < i <= n ==> #[trigger] handling.resumes(i),
    ensures
        advances(handling.steps[n], (17 - n) as nat),
    decreases n,
{
    if n == 0 {
        reveal(Handling::begins);
        beginning_advances(
            handling.before[0],
            handling.key,
            handling.now,
            handling.after[0],
            handling.steps[0],
        );
    } else {
        step_bound(handling, n - 1);
        assert(handling.resumes(n));
        resumed_step_advances(handling, n);
    }
}

/// Every key ends: however the host changes the state in between, the handling of a key takes
/// seventeen steps at most as long as each stage is handed what it waits for.
pub proof fn keys_end(handling: Handling)
    requires
        handling.begins(),
        forall|i: int| 0 < i < handling.steps.len() ==> #[trigger] handling.resumes(i),
    ensures
        handling.steps.len() <= 17,
{
    if handling.steps.len() > 17 {
        step_bound(handling, 16);
        assert(handling.resumes(17));
        resumed_step_advances(handling, 17);
    }
}

/// Whether the platform's keymap makes nothing of the key but text.
pub open spec fn plain_traits(traits: KeyTraits) -> bool {
    &&& !traits.ctrl_h_backspace
    &&& !traits.paste
    &&& !traits.file_tree_toggle
    &&& !traits.option_v
    &&& !traits.composer_newline
    &&& !traits.alt_nav
    &&& !traits.copy
    &&& !traits.ctrl_or_alt
}

/// Whether the composer takes characters as text.
pub open spec fn takes_text(composer: Composer) -> bool {
    !composer.vim_enabled || composer.vim_mode == VimMode::Insert
}

/// Whether the character is bound although it is bare: on an empty composer the space folds cells,
/// and the `Y` copies thinking where no view is open.
pub open spec fn bound_bare(app: App, key: Key, c: char) -> bool {
    &&& app.composer.input@.len() == 0
    &&& c == ' ' && key.modifiers.bits == 0 || c == 'Y' && app.screen.top_modal is None
}

/// Bare characters are text: without a modifier, or with Shift alone, a character goes into the
/// composer, in vim's insert mode or without vim. On an empty composer the bare space and the `Y`
/// are the only ones that do not.
pub proof fn bare_characters_are_text(app: App, key: Key, menus: Menus, c: char)
    requires
        key.code == KeyCode::Char(c),
        key.modifiers.bits == 0 || key.modifiers.bits == SHIFT,
        plain_traits(key.traits),
        takes_text(app.composer),
        !bound_bare(app, key, c),
    ensures
        chars::char_plan(app, key, menus, c) == types::consumes(
            key,
            seq![KeyEffect::InsertChar(c)],
        ),
{
    keys::modifiers_apart(key.modifiers);
}

/// Characters typed with AltGr are text, whatever is bound to them with Control or with Alt; on an
/// empty composer the `Y` is the only one that is not.
pub proof fn altgr_characters_are_text(app: App, key: Key, menus: Menus, c: char)
    requires
        key.code == KeyCode::Char(c),
        key.modifiers.has(CONTROL),
        key.modifiers.has(ALT),
        plain_traits(key.traits),
        takes_text(app.composer),
        !bound_bare(app, key, c),
    ensures
        key.altgr_char(),
        chars::char_plan(app, key, menus, c) == types::consumes(
            key,
            seq![KeyEffect::InsertChar(c)],
        ),
{
    keys::modifiers_apart(key.modifiers);
}

/// No global shortcut takes a bare character or one typed with AltGr away: with no view open and no
/// history search it is first looked at as a part of pasted text.
pub proof fn text_is_let_through(
    pre: App,
    key: Key,
    c: char,
    now: u128,
    post: App,
    step: KeyStep,
)
    requires
        front::key_started(pre, key, now, post, step),
        key.code == KeyCode::Char(c),
        key.modifiers.bits == 0 || key.modifiers.bits == SHIFT || key.altgr_char(),
        plain_traits(key.traits),
        pre.screen.top_modal is None,
        !pre.composer.history_search_active,
    ensures
        post == pre,
        types::does(
            step,
            types::waits(
                seq![KeyEffect::FlushPasteBurst { now }],
                KeyStage::BurstFlushed { key, now },
            ),
        ),
{
    keys::modifiers_apart(key.modifiers);
}

/// Ctrl+S on an empty composer does nothing: nothing is stashed, shown or typed.
pub proof fn empty_draft_is_not_stashed(app: App, key: Key, menus: Menus, c: char)
    requires
        key.code == KeyCode::Char(c),
        c == 's' || c == 'S',
        key.modifiers.bits == CONTROL,
        !key.traits.composer_newline,
        app.composer.input@.len() == 0,
    ensures
        chars::char_plan(app, key, menus, c) == types::consumes(key, seq![]),
{
    keys::modifiers_apart(key.modifiers);
}

/// An open view takes every key but the three global shortcuts: help, Ctrl+K and the file tree. The
/// composer is left alone.
pub proof fn views_take_keys(pre: App, key: Key, now: u128, post: App, step: KeyStep)
    requires
        front::key_started(pre, key, now, post, step),
        pre.screen.top_modal is Some,
        !front::help_key(key),
        !front::ctrl_letter(key, 'k'),
        !key.traits.file_tree_toggle,
    ensures
        post == pre.redrawn(),
        types::does(
            step,
            types::waits(
                seq![KeyEffect::ModalKey(key), KeyEffect::HandleViewEvents],
                KeyStage::ViewEvents,
            ),
        ),
{
}

/// The help key opens the help and, pressed again on it, closes it.
pub proof fn help_key_toggles(
    first: App,
    key: Key,
    now: u128,
    second: App,
    opening: KeyStep,
    shown: App,
    later: u128,
    third: App,
    closing: KeyStep,
)
    requires
        front::help_key(key),
        first.screen.top_modal != Some(ModalKind::Help),
        front::key_started(first, key, now, second, opening),
        shown.screen.top_modal == Some(ModalKind::Help),
        front::key_started(shown, key, later, third, closing),
    ensures
        types::does(opening, types::handled(seq![KeyEffect::PushHelp])),
        types::does(closing, types::handled(seq![KeyEffect::PopView])),
{
}

/// Showing and hiding the file tree undo each other.
pub proof fn tree_key_toggles(
    first: App,
    second: App,
    opening: KeyStep,
    third: App,
    closing: KeyStep,
)
    requires
        front::tree_toggled(first, second, opening),
        front::tree_toggled(second, third, closing),
    ensures
        third.screen.file_tree_open == first.screen.file_tree_open,
        second.screen.file_tree_open != first.screen.file_tree_open,
{
}

/// In vim's insert and visual modes Esc only leads back to the normal mode: it cancels nothing.
pub proof fn vim_escape_cancels_nothing(
    pre: App,
    key: Key,
    menus: Menus,
    post: App,
    step: KeyStep,
)
    requires
        key.code == KeyCode::Esc,
        pre.composer.vim_enabled,
        pre.composer.vim_mode != VimMode::Normal,
        bindings::key_bound(pre, key, menus, post, step),
    ensures
        post == pre,
        types::does(step, types::handled(seq![KeyEffect::VimEnterNormal])),
{
}

/// While a turn is running, or over the live transcript, an Esc that nothing else cares about does
/// nothing, however often it is pressed.
pub proof fn idle_escape_is_silent(pre: App, key: Key, post: App, step: KeyStep)
    requires
        escape::esc_action(pre, key, EscapeAction::Noop, post, step),
        pre.turn.is_loading || pre.screen.top_modal == Some(ModalKind::LiveTranscript),
    ensures
        post == pre,
        types::does(step, types::handled(seq![])),
{
}

/// Every key other than Esc takes back the first half of a double Esc, at once and before anything
/// else.
pub proof fn other_keys_unprime(pre: App, key: Key, now: u128, post: App, step: KeyStep)
    requires
        key.code != KeyCode::Esc,
        front::key_begun(pre, key, now, post, step),
    ensures
        !post.composer.backtrack_primed,
        pre.composer.backtrack_primed ==> step.effects@ == seq![KeyEffect::ResetBacktrack],
{
}

/// No later step of any key makes up a first half of a double Esc.
pub proof fn later_steps_do_not_prime(
    pre: App,
    stage: KeyStage,
    reply: Reply,
    post: App,
    step: KeyStep,
)
    requires
        dispatch::key_resumed(pre, stage, reply, post, step),
    ensures
        post.composer.backtrack_primed ==> pre.composer.backtrack_primed,
{
}

/// Every Esc that does something else takes back the first half of a double Esc.
pub proof fn useful_escapes_unprime(
    pre: App,
    key: Key,
    action: EscapeAction,
    post: App,
    step: KeyStep,
)
    requires
        escape::esc_action(pre, key, action, post, step),
        action != EscapeAction::Noop,
    ensures
        !post.composer.backtrack_primed,
        step.effects@[0] == KeyEffect::ResetBacktrack,
{
}

/// The selection of an open menu lies within its entries, and stays where it is if it lay there.
pub proof fn selection_is_kept_within(selected: usize, entries: usize)
    requires
        entries > 0,
    ensures
        front::clamped(selected, entries) < entries,
        selected < entries ==> front::clamped(selected, entries) == selected,
        front::clamped(front::clamped(selected, entries), entries) == front::clamped(
            selected,
            entries,
        ),
{
}

/// The arrows keep the selection of an open mention menu within its entries, and Down undoes Up.
pub proof fn arrows_stay_within(
    first: App,
    up: Key,
    down: Key,
    menus: Menus,
    second: App,
    going_up: KeyStep,
    third: App,
    going_down: KeyStep,
)
    requires
        up.modifiers.bits == 0,
        down.modifiers.bits == 0,
        first.composer.mention_menu_selected < menus.mention,
        bindings::up_bound(first, up, menus, second, going_up),
        bindings::down_bound(second, down, menus, third, going_down),
    ensures
        second.composer.mention_menu_selected < menus.mention,
        third.composer.mention_menu_selected < menus.mention,
        first.composer.mention_menu_selected > 0 ==> third.composer.mention_menu_selected
            == first.composer.mention_menu_selected,
{
}

/// Folding a cell twice leaves every cell as it was.
pub proof fn folding_twice_undoes(
    first: App,
    index: usize,
    thinking: bool,
    second: App,
    folding: KeyStep,
    third: App,
    unfolding: KeyStep,
)
    requires
        followups::fold_cell(first, Some((index, thinking)), second, folding),
        followups::fold_cell(second, Some((index, thinking)), third, unfolding),
    ensures
        third.screen.folded_thinking@ == first.screen.folded_thinking@,
        third.screen.collapsed_cells@ == first.screen.collapsed_cells@,
        second.screen.folded_thinking@ != first.screen.folded_thinking@
            || second.screen.collapsed_cells@ != first.screen.collapsed_cells@,
{
    assert(followups::toggled(
        followups::toggled(first.screen.folded_thinking@, index),
        index,
    ) =~= first.screen.folded_thinking@);
    assert(followups::toggled(
        followups::toggled(first.screen.collapsed_cells@, index),
        index,
    ) =~= first.screen.collapsed_cells@);
    if thinking {
        assert(second.screen.folded_thinking@.contains(index)
            != first.screen.folded_thinking@.contains(index));
    } else {
        assert(second.screen.collapsed_cells@.contains(index)
            != first.screen.collapsed_cells@.contains(index));
    }
}

/// A message that could not steer the running turn is queued as it is.
pub proof fn failed_steer_is_queued(
    first: App,
    key: Key,
    always: bool,
    message: QueuedMessage,
    second: App,
    steering: KeyStep,
    resumed: App,
    error: String,
    third: App,
    queueing: KeyStep,
)
    requires
        always || first.turn.is_loading,
        enter::steer_message(first, key, always, message, second, steering),
        steering.next matches KeyNext::Await(stage) && dispatch::key_resumed(
            resumed,
            stage,
            Reply::Maybe(Some(error)),
            third,
            queueing,
        ),
    ensures
        types::does(
            steering,
            types::waits(
                seq![KeyEffect::SteerMessage(message)],
                KeyStage::Steered { key, message },
            ),
        ),
        types::does(
            queueing,
            types::waits(
                seq![KeyEffect::QueueMessage(message)],
                KeyStage::SteerQueued { key, error },
            ),
        ),
{
}

/// A draft that is being edited is what is sent: with the composer's text in the place of its own,
/// with its skill, and no longer as a draft.
pub proof fn draft_is_sent(
    pre: App,
    key: Key,
    input: String,
    draft: QueuedMessage,
    post: App,
    step: KeyStep,
)
    requires
        pre.queue.queued_draft == Some(draft),
        !pre.composer.edit_in_progress,
        enter::enter_command(pre, key, input, false, post, step),
    ensures
        post.queue.queued_draft is None,
        step.effects@.len() > 0,
        step.effects@[0] == KeyEffect::SubmitOrSteer(
            QueuedMessage { display: input, skill_instruction: draft.skill_instruction },
        ),
{
}

/// A revised message goes out only after the last exchange was taken back, here and in the engine.
pub proof fn revision_undoes_first(
    first: App,
    key: Key,
    message: QueuedMessage,
    second: App,
    undoing: KeyStep,
    resumed: App,
    third: App,
    sending: KeyStep,
)
    requires
        first.composer.edit_in_progress,
        enter::enter_message(first, key, message, second, undoing),
        undoing.next matches KeyNext::Await(stage) && dispatch::key_resumed(
            resumed,
            stage,
            Reply::Done,
            third,
            sending,
        ),
    ensures
        undoing.effects@ == seq![KeyEffect::Undo],
        sending.effects@.len() >= 2,
        sending.effects@[0] == KeyEffect::SyncSession,
        sending.effects@[1] == KeyEffect::SubmitOrSteer(message),
        !third.composer.edit_in_progress,
{
}

/// An erasing key that has removed an attachment takes no text away.
pub proof fn attachment_is_erased_alone(
    pre: App,
    key: Key,
    erasure: Erasure,
    post: App,
    step: KeyStep,
)
    requires
        bindings::erasing(pre, key, erasure, true, post, step),
    ensures
        !step.effects@.contains(KeyEffect::Erase(erasure)),
        post == pre,
{
}

/// Up takes a queued message back for editing only where the composer is idle: empty, with no draft
/// and no menu.
pub proof fn queued_message_comes_back_when_idle(
    pre: App,
    key: Key,
    menus: Menus,
    post: App,
    step: KeyStep,
)
    requires
        bindings::up_bound(pre, key, menus, post, step),
        step.effects@.contains(KeyEffect::PopLastQueued),
    ensures
        pre.composer.input@.len() == 0,
        pre.composer.cursor_position == 0,
        pre.queue.queued_draft is None,
        pre.queue.queued_messages > 0,
        bindings::no_menu(menus),
{
}

/// A key that was looked up in the bindings ends a paste burst, unless it may be a part of one.
pub proof fn other_keys_end_bursts(key: Key, effects: Seq<KeyEffect>, step: KeyStep)
    requires
        types::does(step, types::consumes(key, effects)) || types::does(step, types::ignores(key)),
    ensures
        !types::burst_key(key) ==> step.effects@.len() > 0 && step.effects@.last()
            == KeyEffect::ClearPasteBurstWindow,
{
}

/// Whether no binding consumes the key.
pub open spec fn unbound(key: Key) -> bool {
    &&& key.code is F || key.code is Other
    &&& !key.traits.composer_newline
    &&& !key.traits.paste
}

/// The caller is told to continue exactly with the keys that no binding consumes, and nothing was
/// done for those but to end a paste burst.
pub proof fn unbound_keys_continue(pre: App, key: Key, menus: Menus, post: App, step: KeyStep)
    requires
        bindings::key_bound(pre, key, menus, post, step),
    ensures
        step.next == KeyNext::Finish(KeyEventAction::Continue) <==> unbound(key),
        unbound(key) ==> post == pre && step.effects@ == seq![KeyEffect::ClearPasteBurstWindow],
{
}

/// Every other step consumes the key too: the caller is told to continue only where the menus were
/// counted for a key that no binding consumes.
pub proof fn later_steps_consume(
    pre: App,
    stage: KeyStage,
    reply: Reply,
    post: App,
    step: KeyStep,
)
    requires
        dispatch::key_resumed(pre, stage, reply, post, step),
        step.next == KeyNext::Finish(KeyEventAction::Continue),
        stage matches KeyStage::Paged { key, .. } ==> key.code is Char,
        stage matches KeyStage::Jumped { key, .. } ==> key.code is Char,
    ensures
        stage matches KeyStage::MentionCounted { key, .. } && unbound(key),
{
    if let (KeyStage::MentionCounted { key, slash }, Reply::Count(mention)) = (stage, reply) {
        unbound_keys_continue(
            selecting(pre, mention),
            key,
            Menus { slash, mention },
            post,
            step,
        );
    }
}

/// Whether the key leaves the program by its binding alone: Ctrl+D on an empty composer.
pub open spec fn leaving_key(app: App, key: Key) -> bool {
    front::ctrl_letter(key, 'd') && app.composer.input@.len() == 0
}

/// A binding leaves the program exactly by Ctrl+D on an empty composer, with the engine told to shut
/// down.
pub proof fn bindings_leave_on_purpose(
    pre: App,
    key: Key,
    menus: Menus,
    post: App,
    step: KeyStep,
)
    requires
        bindings::key_bound(pre, key, menus, post, step),
    ensures
        step.next == KeyNext::Finish(KeyEventAction::Return) <==> leaving_key(pre, key),
        leaving_key(pre, key) ==> step.effects@ == seq![KeyEffect::ShutdownEngine],
{
}

/// The first step of a key never leaves the program.
pub proof fn beginning_stays(pre: App, key: Key, now: u128, post: App, step: KeyStep)
    requires
        front::key_begun(pre, key, now, post, step),
    ensures
        step.next != KeyNext::Finish(KeyEventAction::Return),
{
}

/// The answers that leave the program: Ctrl+C confirmed, a view or a command that ends it, and the
/// menus counted for a key that leaves by its binding.
pub open spec fn leaving_answer(app: App, stage: KeyStage, reply: Reply) -> bool {
    match (stage, reply) {
        (KeyStage::CtrlCAsked { .. }, Reply::CtrlC(disposition)) => disposition
            == CtrlCDisposition::ConfirmExit,
        (KeyStage::ViewEvents, Reply::Flag(quit)) => quit,
        (KeyStage::CommandRun { .. }, Reply::Flag(quit)) => quit,
        (KeyStage::MentionCounted { key, .. }, Reply::Count(_)) => leaving_key(app, key),
        _ => false,
    }
}

/// The program is left only on purpose: a later step leaves it exactly on one of these answers, and
/// with the engine told to shut down where it was a key that left it.
pub proof fn later_steps_leave_on_purpose(
    pre: App,
    stage: KeyStage,
    reply: Reply,
    post: App,
    step: KeyStep,
)
    requires
        dispatch::key_resumed(pre, stage, reply, post, step),
    ensures
        step.next == KeyNext::Finish(KeyEventAction::Return) <==> leaving_answer(pre, stage, reply),
        leaving_answer(pre, stage, reply) && (stage is CtrlCAsked || stage is MentionCounted)
            ==> step.effects@ == seq![KeyEffect::ShutdownEngine],
{
    if let (KeyStage::MentionCounted { key, slash }, Reply::Count(mention)) = (stage, reply) {
        bindings_leave_on_purpose(
            selecting(pre, mention),
            key,
            Menus { slash, mention },
            post,
            step,
        );
    }
}

/// Whether every effect of the step that may fail is heard of: it is the last one, and the stage
/// waits for it as for one that may fail.
pub open spec fn failures_are_heard(step: KeyStep) -> bool {
    forall|i: int| #![trigger step.effects@[i]]
        0 <= i < step.effects@.len() && step.effects@[i].may_fail() ==> {
            &&& i == step.effects@.len() - 1
            &&& step.next matches KeyNext::Await(stage) && stage.may_fail()
        }
}

proof fn starting_hears_failures(pre: App, key: Key, now: u128, post: App, step: KeyStep)
    requires
        front::key_started(pre, key, now, post, step),
    ensures
        failures_are_heard(step),
        !(step.next is Fail),
{
}

/// The first step of a key hears of every failure, and ends with none.
pub proof fn beginning_hears_failures(pre: App, key: Key, now: u128, post: App, step: KeyStep)
    requires
        front::key_begun(pre, key, now, post, step),
    ensures
        failures_are_heard(step),
        !(step.next is Fail),
{
}

proof fn composing_hears_failures(app: App, key: Key, menus: Menus, c: char, step: KeyStep)
    requires
        types::does(step, chars::composer_plan(app, key, menus, c)),
    ensures
        failures_are_heard(step),
        !(step.next is Fail),
{
}

proof fn typing_hears_failures(app: App, key: Key, menus: Menus, c: char, step: KeyStep)
    requires
        types::does(step, chars::char_plan(app, key, menus, c)),
    ensures
        failures_are_heard(step),
        !(step.next is Fail),
{
    if chars::transcript_plan(app, key, menus, c) is None {
        composing_hears_failures(app, key, menus, c, step);
    }
}

/// What a key is bound to hears of every failure, and ends with none.
pub proof fn bindings_hear_failures(pre: App, key: Key, menus: Menus, post: App, step: KeyStep)
    requires
        bindings::key_bound(pre, key, menus, post, step),
    ensures
        failures_are_heard(step),
        !(step.next is Fail),
{
    if let KeyCode::Char(c) = key.code {
        typing_hears_failures(pre, key, menus, c, step);
    }
}

/// Whether the stage belongs to Enter.
pub open spec fn entering(stage: KeyStage) -> bool {
    ||| stage is EnterSelection
    ||| stage is EnterMention
    ||| stage is EnterLooks
    ||| stage is EnterApplied
    ||| stage is EnterInput
    ||| stage is EnterPlan
    ||| stage is EnterMemory
    ||| stage is EnterCommand
    ||| stage is EnterBuilt
    ||| stage is EnterUndone
    ||| stage is Submitted
    ||| stage is CommandRun
    ||| stage is SteerInput
    ||| stage is SteerLooks
    ||| stage is SteerBuilt
    ||| stage is Steered
    ||| stage is SteerQueued
}

proof fn entering_hears_failures(
    pre: App,
    stage: KeyStage,
    reply: Reply,
    post: App,
    step: KeyStep,
)
    requires
        entering(stage),
        dispatch::key_resumed(pre, stage, reply, post, step),
    ensures
        failures_are_heard(step),
{
}

proof fn others_hear_failures(
    pre: App,
    stage: KeyStage,
    reply: Reply,
    post: App,
    step: KeyStep,
)
    requires
        !entering(stage),
        !(stage is Unprimed),
        !(stage is MentionCounted),
        !(stage is Paged),
        !(stage is Jumped),
        dispatch::key_resumed(pre, stage, reply, post, step),
    ensures
        failures_are_heard(step),
{
}

/// Every later step of a key hears of every failure too.
pub proof fn later_steps_hear_failures(
    pre: App,
    stage: KeyStage,
    reply: Reply,
    post: App,
    step: KeyStep,
)
    requires
        dispatch::key_resumed(pre, stage, reply, post, step),
    ensures
        failures_are_heard(step),
{
    match (stage, reply) {
        (KeyStage::Unprimed { key, now }, Reply::Done) => {
            starting_hears_failures(pre, key, now, post, step);
        },
        (KeyStage::MentionCounted { key, slash }, Reply::Count(mention)) => {
            bindings_hear_failures(
                selecting(pre, mention),
                key,
                Menus { slash, mention },
                post,
                step,
            );
        },
        (KeyStage::Paged { key, menus }, Reply::Flag(opened)) => {
            if let KeyCode::Char(c) = key.code {
                if !opened {
                    composing_hears_failures(pre, key, menus, c, step);
                }
            }
        },
        (KeyStage::Jumped { key, menus, .. }, Reply::Flag(found)) => {
            if let KeyCode::Char(c) = key.code {
                if found {
                    composing_hears_failures(pre, key, menus, c, step);
                }
            }
        },
        _ => {
            if entering(stage) {
                entering_hears_failures(pre, stage, reply, post, step);
            } else if !(stage is Unprimed || stage is MentionCounted || stage is Paged
                || stage is Jumped) {
                others_hear_failures(pre, stage, reply, post, step);
            }
        },
    }
}

/// A key ends with an error exactly where an effect has failed that may, and with that very error;
/// the state is then left as it was and nothing else is done.
pub proof fn failures_end_keys(
    pre: App,
    stage: KeyStage,
    reply: Reply,
    post: App,
    step: KeyStep,
)
    requires
        dispatch::key_resumed(pre, stage, reply, post, step),
    ensures
        step.next is Fail <==> stage.may_fail() && reply is Failed,
        step.next matches KeyNext::Fail(error) ==> reply == Reply::Failed(error) && post == pre
            && step.effects@.len() == 0,
{
    match (stage, reply) {
        (KeyStage::Unprimed { key, now }, Reply::Done) => {
            starting_hears_failures(pre, key, now, post, step);
        },
        (KeyStage::MentionCounted { key, slash }, Reply::Count(mention)) => {
            bindings_hear_failures(
                selecting(pre, mention),
                key,
                Menus { slash, mention },
                post,
                step,
            );
        },
        _ => {},
    }
}

} // verus!
