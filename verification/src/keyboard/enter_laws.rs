//! What holds of Enter, whatever the host answers on the way.

use vstd::prelude::*;

use crate::keyboard::dispatch;
use crate::keyboard::laws;
use crate::keyboard::runs;
use crate::keyboard::runs::Run;
use crate::keyboard::types::{KeyEffect, KeyEventAction, KeyNext, KeyStage, KeyStep};
use crate::keys::{Key, KeyCode, ALT, CONTROL, SHIFT};
use crate::notices::Notice;
use crate::state::{App, QueuedMessage};
use crate::step::Reply;

verus! {

/// Shift and Enter, with neither Control nor Alt.
pub open spec fn shift_enter(key: Key) -> bool {
    &&& key.modifiers.has(SHIFT)
    &&& !key.modifiers.has(CONTROL)
    &&& !key.modifiers.has(ALT)
}

/// Where Enter goes on once no selection was opened: it steers a running turn with Shift, breaks
/// the line, completes a mention, steers or sends with Control, completes a command, or submits.
pub open spec fn turns_to(key: Key, app: App, slash: usize, mention: usize) -> KeyEffect {
    if app.turn.is_loading && shift_enter(key) {
        KeyEffect::SubmitInput
    } else if key.traits.composer_newline {
        KeyEffect::InsertChar('\n')
    } else if mention > 0 {
        KeyEffect::ApplyMention
    } else {
        submits(key, app, slash)
    }
}

/// Where Enter goes on once no mention was completed either.
pub open spec fn submits(key: Key, app: App, slash: usize) -> KeyEffect {
    if key.modifiers.has(CONTROL) {
        KeyEffect::SubmitInput
    } else if slash > 0 {
        KeyEffect::AskSlashCommand(app.composer.input)
    } else {
        KeyEffect::ComposerEnter
    }
}

/// Enter opens a selection on an empty composer, where it can; otherwise it breaks the line where
/// the key does that, and completes a mention where one is highlighted; and only then does it
/// submit what the composer holds.
pub proof fn enter_finds_its_way(run: Run)
    requires
        run.complete(),
        run.key.code == KeyCode::Enter,
    ensures
        ({
            let (slash, mention) = (run.menus.slash, run.menus.mention);
            let selecting = run.before[0].composer.input@.len() == 0
                && run.before[0].screen.transcript_selection_active;
            let i = if selecting {
                1int
            } else {
                0
            };
            let way = turns_to(run.key, run.before[i], slash, mention);
            &&& run.after[0] == run.before[0]
            &&& selecting ==> run.effects(0) == seq![KeyEffect::SelectionPager]
            &&& selecting && run.replies[1] == Reply::Flag(true) ==> run.is_done(1)
            &&& !selecting || run.replies[1] == Reply::Flag(false) ==> {
                &&& run.after[i] == run.before[i]
                &&& run.effects(i).len() > 0
                &&& run.effects(i)[0] == way
                &&& way is InsertChar ==> i == run.steps.len() - 1
                &&& way is ApplyMention && run.replies[i + 1] == Reply::Flag(true) ==> run.is_done(
                    i + 1,
                )
                &&& way is ApplyMention && run.replies[i + 1] == Reply::Flag(false)
                    ==> run.effects(i + 1) == seq![submits(run.key, run.before[i + 1], slash)]
                    && run.after[i + 1] == run.before[i + 1]
            }
        }),
{
    runs::first_step(run);
    if run.steps.len() > 1 {
        runs::later_step(run, 1);
        if run.steps.len() > 2 {
            runs::later_step(run, 2);
            if run.steps.len() > 3 {
                runs::later_step(run, 3);
            }
        }
    }
}

/// A command that is highlighted in the menu is completed before it is submitted, where the
/// composer holds a command; the menu is then closed. In either case the composer is submitted
/// next.
pub proof fn highlighted_command_is_completed(
    pre: App,
    stage: KeyStage,
    reply: Reply,
    post: App,
    step: KeyStep,
)
    requires
        dispatch::key_resumed(pre, stage, reply, post, step),
        stage is EnterLooks || stage is EnterApplied,
        stage.accepts(reply),
    ensures
        post == pre,
        stage is EnterLooks && reply == Reply::Flag(true) ==> step.effects@ == seq![
            KeyEffect::ApplySlash { for_editing: false },
        ] && (step.next matches KeyNext::Await(next) && next is EnterApplied),
        stage is EnterLooks && reply == Reply::Flag(false) ==> step.effects@ == seq![
            KeyEffect::ComposerEnter,
        ],
        stage is EnterApplied && reply == Reply::Flag(true) ==> step.effects@ == seq![
            KeyEffect::CloseSlashMenu,
            KeyEffect::ComposerEnter,
        ],
        stage is EnterApplied && reply == Reply::Flag(false) ==> step.effects@ == seq![
            KeyEffect::ComposerEnter,
        ],
{
}

/// Whether the host has handed out the composer's text `input` at step `g`, for it to be submitted.
pub open spec fn submitted_at(run: Run, g: int, input: String) -> bool {
    &&& 0 < g < run.steps.len()
    &&& run.effects(g - 1).len() > 0
    &&& run.effects(g - 1).last() == KeyEffect::ComposerEnter
    &&& run.replies[g] == Reply::Maybe(Some(input))
}

/// Whether the host has handed out the composer's text `input` at step `g`, for it to steer with.
pub open spec fn steered_at(run: Run, g: int, input: String) -> bool {
    &&& 0 < g < run.steps.len()
    &&& run.effects(g - 1).len() > 0
    &&& run.effects(g - 1).last() == KeyEffect::SubmitInput
    &&& run.replies[g] == Reply::Maybe(Some(input))
}

/// The key of a stage of Enter.
pub open spec fn key_of(stage: KeyStage) -> Key {
    match stage {
        KeyStage::EnterSelection { key, .. } => key,
        KeyStage::EnterMention { key, .. } => key,
        KeyStage::EnterLooks { key } => key,
        KeyStage::EnterApplied { key } => key,
        KeyStage::EnterInput { key } => key,
        KeyStage::EnterPlan { key, .. } => key,
        KeyStage::EnterMemory { key, .. } => key,
        KeyStage::EnterCommand { key, .. } => key,
        KeyStage::EnterBuilt { key } => key,
        KeyStage::EnterUndone { key, .. } => key,
        KeyStage::Submitted { key } => key,
        KeyStage::CommandRun { key } => key,
        KeyStage::SteerInput { key, .. } => key,
        KeyStage::SteerLooks { key, .. } => key,
        KeyStage::SteerBuilt { key, .. } => key,
        KeyStage::Steered { key, .. } => key,
        KeyStage::SteerQueued { key, .. } => key,
        _ => arbitrary(),
    }
}

/// Where a stage of Enter stands, by the effect that it waits for.
pub open spec fn stands(stage: KeyStage, effect: KeyEffect) -> bool {
    &&& stage is EnterInput <==> effect == KeyEffect::ComposerEnter
    &&& stage is SteerInput <==> effect == KeyEffect::SubmitInput
}

proof fn entering_stands(run: Run, n: int)
    requires
        run.well_formed(),
        run.key.code == KeyCode::Enter,
        0 <= n < run.steps.len(),
        run.steps[n].next is Await,
    ensures
        laws::entering(run.stage(n)),
        key_of(run.stage(n)) == run.key,
        run.effects(n).len() > 0,
        stands(run.stage(n), run.effects(n).last()),
        run.stage(n) matches KeyStage::SteerInput { always, .. } ==> always == shift_enter(run.key),
        run.stage(n) matches KeyStage::SteerLooks { always, .. } ==> always == shift_enter(run.key),
        run.stage(n) matches KeyStage::SteerBuilt { always, .. } ==> always == shift_enter(run.key),
    decreases n,
{
    if n == 0 {
        runs::first_step(run);
    } else {
        runs::steps_wait(run, n - 1);
        entering_stands(run, n - 1);
        runs::later_step(run, n);
    }
}

/// The step by which it was asked whether a submitted text is a command.
pub open spec fn asking(run: Run, g: int) -> int {
    if run.before[g + 1].composer.memory_enabled {
        g + 2
    } else {
        g + 1
    }
}

/// Whether the host has taken a submitted text as the answer to the plan prompt.
pub open spec fn answers_plan(run: Run, g: int) -> bool {
    run.replies[g + 1] == Reply::Flag(true)
}

/// Whether the host has found that a submitted text is a note for the memory file.
pub open spec fn is_note(run: Run, g: int) -> bool {
    run.before[g + 1].composer.memory_enabled && run.replies[g + 2] == Reply::Flag(true)
}

proof fn submitted_is_asked_about(run: Run, g: int, input: String)
    requires
        run.complete(),
        run.key.code == KeyCode::Enter,
        submitted_at(run, g, input),
    ensures
        run.effects(g) == seq![KeyEffect::PlanChoice(input)],
        run.after[g] == run.before[g],
        run.steps.len() > g + 1,
        run.after[g + 1] == run.before[g + 1],
        answers_plan(run, g) ==> run.is_done(g + 1),
        !answers_plan(run, g) && run.before[g + 1].composer.memory_enabled ==> {
            &&& run.steps.len() > g + 2
            &&& run.effects(g + 1) == seq![KeyEffect::AskMemoryNote(input)]
            &&& run.after[g + 2] == run.before[g + 2]
        },
        !answers_plan(run, g) && is_note(run, g) ==> run.ends(
            g + 2,
            seq![KeyEffect::AddMemoryNote(input)],
            KeyEventAction::Handled,
        ),
        !answers_plan(run, g) && !is_note(run, g) ==> {
            let c = asking(run, g);
            &&& run.steps.len() > c
            &&& run.effects(c) == seq![KeyEffect::AskSlashCommand(input)]
            &&& run.steps[c].next is Await
            &&& run.stage(c) matches KeyStage::EnterCommand { key, input: held } && held == input
        },
{
    runs::steps_wait(run, g - 1);
    entering_stands(run, g - 1);
    runs::later_step(run, g);
    runs::later_step(run, g + 1);
    if run.steps.len() > g + 2 {
        runs::later_step(run, g + 2);
        if run.steps.len() > g + 3 {
            runs::later_step(run, g + 3);
        }
    }
}

/// What the composer gives on Enter is first offered as the answer to the plan prompt, and where it
/// is one, nothing else becomes of it. Where the memory is on it is then offered as a note, and
/// where it is one it goes to the memory file alone. Any other text, with the memory on or off, is
/// looked at as a command next.
pub proof fn submitted_text_is_offered_in_turn(run: Run, g: int, input: String)
    requires
        run.complete(),
        run.key.code == KeyCode::Enter,
        submitted_at(run, g, input),
    ensures
        run.effects(g) == seq![KeyEffect::PlanChoice(input)],
        run.steps.len() > g + 1,
        answers_plan(run, g) ==> run.is_done(g + 1),
        !answers_plan(run, g) && run.before[g + 1].composer.memory_enabled ==> run.effects(g + 1)
            == seq![KeyEffect::AskMemoryNote(input)],
        !answers_plan(run, g) && is_note(run, g) ==> run.ends(
            g + 2,
            seq![KeyEffect::AddMemoryNote(input)],
            KeyEventAction::Handled,
        ),
        !answers_plan(run, g) && !is_note(run, g) ==> run.effects(asking(run, g)) == seq![
            KeyEffect::AskSlashCommand(input),
        ],
{
    submitted_is_asked_about(run, g, input);
}

/// The message that is made of a text, once step `c` has asked whether it is a command: the draft
/// that is being edited with this text in the place of its own, or what the host has built of it.
pub open spec fn message_of(run: Run, c: int, input: String) -> QueuedMessage {
    match run.before[c + 1].queue.queued_draft {
        Some(draft) => QueuedMessage {
            display: input,
            skill_instruction: draft.skill_instruction,
        },
        None => run.replies[c + 2]->Built_0,
    }
}

/// The step that has the message: one later where the host has to build it.
pub open spec fn having(run: Run, c: int) -> int {
    if run.before[c + 1].queue.queued_draft is Some {
        c + 1
    } else {
        c + 2
    }
}

/// How the message comes about, at the step that has it.
pub open spec fn message_is_made(run: Run, c: int, input: String) -> bool {
    let s = having(run, c);
    &&& run.before[c + 1].queue.queued_draft is Some ==> run.after[c + 1].queue.queued_draft is None
    &&& run.before[c + 1].queue.queued_draft is None ==> {
        &&& run.effects(c + 1) == seq![KeyEffect::BuildMessage(input)]
        &&& run.after[c + 1] == run.before[c + 1]
        &&& run.replies[c + 2] is Built
    }
    &&& run.steps.len() > s
}

/// Whether the text is run as a command: it is, and nothing else becomes of it; the program ends
/// where the command says so.
pub open spec fn is_executed(run: Run, c: int, input: String) -> bool {
    &&& run.effects(c + 1) == seq![KeyEffect::ExecuteCommand(input)]
    &&& run.after[c + 1] == run.before[c + 1]
    &&& run.after[c + 2] == run.before[c + 2]
    &&& run.replies[c + 2] == Reply::Flag(true) ==> run.ends(
        c + 2,
        seq![],
        KeyEventAction::Return,
    )
    &&& run.replies[c + 2] == Reply::Flag(false) ==> run.is_done(c + 2)
}

/// A submitted text that is neither an answer nor a note is run where it is a command, and
/// otherwise sent: as the draft that is being edited, with its skill, or as a message of its own.
/// One that revises the last message goes out only after the last exchange was taken back, here and
/// in the engine.
pub proof fn submitted_text_is_run_or_sent(run: Run, g: int, input: String)
    requires
        run.complete(),
        run.key.code == KeyCode::Enter,
        submitted_at(run, g, input),
        !answers_plan(run, g),
        !is_note(run, g),
    ensures
        ({
            let c = asking(run, g);
            let s = having(run, c);
            let message = message_of(run, c, input);
            &&& run.replies[c + 1] == Reply::Flag(true) ==> is_executed(run, c, input)
            &&& run.replies[c + 1] == Reply::Flag(false) ==> {
                &&& message_is_made(run, c, input)
                &&& run.before[s].composer.edit_in_progress ==> {
                    &&& run.effects(s) == seq![KeyEffect::Undo]
                    &&& run.effects(s + 1) == seq![
                        KeyEffect::SyncSession,
                        KeyEffect::SubmitOrSteer(message),
                    ]
                    &&& !run.after[s + 1].composer.edit_in_progress
                    &&& run.is_done(s + 2)
                }
                &&& !run.before[s].composer.edit_in_progress ==> {
                    &&& run.effects(s) == seq![KeyEffect::SubmitOrSteer(message)]
                    &&& run.is_done(s + 1)
                }
            }
        }),
{
    let c = asking(run, g);
    let s = having(run, c);
    submitted_is_asked_about(run, g, input);
    entering_stands(run, c);
    command_is_decided(run, c, input);
    if run.replies[c + 1] == Reply::Flag(false) {
        message_is_sent(run, s, message_of(run, c, input));
    }
}

proof fn command_is_decided(run: Run, c: int, input: String)
    requires
        run.complete(),
        run.key.code == KeyCode::Enter,
        0 <= c < run.steps.len(),
        run.steps[c].next is Await,
        key_of(run.stage(c)) == run.key,
        run.stage(c) matches KeyStage::EnterCommand { key, input: held } && held == input || (
        run.stage(c) matches KeyStage::SteerLooks { key, always, input: held } && held == input),
    ensures
        run.replies[c + 1] == Reply::Flag(true) || run.replies[c + 1] == Reply::Flag(false),
        run.replies[c + 1] == Reply::Flag(true) ==> is_executed(run, c, input),
        run.replies[c + 1] == Reply::Flag(false) ==> {
            let s = having(run, c);
            &&& message_is_made(run, c, input)
            &&& run.stage(c) is EnterCommand ==> sends(run, s, message_of(run, c, input))
            &&& run.stage(c) matches KeyStage::SteerLooks { always, .. } ==> steers(
                run,
                s,
                always,
                message_of(run, c, input),
            )
        },
{
    runs::later_step(run, c + 1);
    runs::later_step(run, c + 2);
    if run.steps.len() > c + 3 {
        runs::later_step(run, c + 3);
    }
}

/// The first step of sending a message.
pub open spec fn sends(run: Run, s: int, message: QueuedMessage) -> bool {
    &&& 0 <= s < run.steps.len()
    &&& run.steps[s].next is Await
    &&& run.before[s].composer.edit_in_progress ==> run.effects(s) == seq![KeyEffect::Undo]
        && run.stage(s) == (KeyStage::EnterUndone { key: run.key, message })
    &&& !run.before[s].composer.edit_in_progress ==> run.effects(s) == seq![
        KeyEffect::SubmitOrSteer(message),
    ] && run.stage(s) == (KeyStage::Submitted { key: run.key })
}

/// The first step of steering with a message.
pub open spec fn steers(run: Run, s: int, always: bool, message: QueuedMessage) -> bool {
    &&& 0 <= s < run.steps.len()
    &&& run.steps[s].next is Await
    &&& always || run.before[s].turn.is_loading ==> run.effects(s) == seq![
        KeyEffect::SteerMessage(message),
    ] && run.stage(s) == (KeyStage::Steered { key: run.key, message })
    &&& !always && !run.before[s].turn.is_loading ==> run.effects(s) == seq![
        KeyEffect::SubmitOrSteer(message),
    ] && run.stage(s) == (KeyStage::Submitted { key: run.key })
}

proof fn message_is_sent(run: Run, s: int, message: QueuedMessage)
    requires
        run.complete(),
        run.key.code == KeyCode::Enter,
        sends(run, s, message),
    ensures
        run.before[s].composer.edit_in_progress ==> {
            &&& run.effects(s + 1) == seq![
                KeyEffect::SyncSession,
                KeyEffect::SubmitOrSteer(message),
            ]
            &&& !run.after[s + 1].composer.edit_in_progress
            &&& run.is_done(s + 2)
        },
        !run.before[s].composer.edit_in_progress ==> run.is_done(s + 1),
{
    runs::later_step(run, s + 1);
    if run.steps.len() > s + 2 {
        runs::later_step(run, s + 2);
        if run.steps.len() > s + 3 {
            runs::later_step(run, s + 3);
        }
    }
}

proof fn message_steers(run: Run, s: int, always: bool, message: QueuedMessage)
    requires
        run.complete(),
        run.key.code == KeyCode::Enter,
        steers(run, s, always, message),
    ensures
        run.stage(s) is Submitted ==> run.is_done(s + 1),
        run.stage(s) is Steered ==> {
            &&& run.replies[s + 1] == Reply::Maybe(None) ==> run.is_done(s + 1)
            &&& run.replies[s + 1] matches Reply::Maybe(Some(error)) ==> {
                &&& run.effects(s + 1) == seq![KeyEffect::QueueMessage(message)]
                &&& run.after[s + 1] == run.before[s + 1]
                &&& run.is_done(s + 2)
                &&& run.after[s + 2] == run.before[s + 2].with_status(
                    Notice::SteerFailed {
                        error,
                        queued: run.before[s + 2].queue.queued_messages as u64,
                    },
                )
            }
        },
{
    runs::later_step(run, s + 1);
    if run.steps.len() > s + 2 {
        runs::later_step(run, s + 2);
        if run.steps.len() > s + 3 {
            runs::later_step(run, s + 3);
        }
    }
}

/// A text that is to steer is run where it is a command. Otherwise its message steers the turn that
/// is running, and is sent like any other where none is, unless it was Shift that asked for it. One
/// that could not steer is queued, and the status line says so with the number of those that wait.
pub proof fn steering_text_is_run_or_sent(run: Run, g: int, input: String)
    requires
        run.complete(),
        run.key.code == KeyCode::Enter,
        steered_at(run, g, input),
    ensures
        ({
            let s = having(run, g);
            let message = message_of(run, g, input);
            &&& run.effects(g) == seq![KeyEffect::AskSlashCommand(input)]
            &&& run.after[g] == run.before[g]
            &&& run.replies[g + 1] == Reply::Flag(true) ==> is_executed(run, g, input)
            &&& run.replies[g + 1] == Reply::Flag(false) ==> {
                &&& message_is_made(run, g, input)
                &&& run.before[s].turn.is_loading || shift_enter(run.key) ==> {
                    &&& run.effects(s) == seq![KeyEffect::SteerMessage(message)]
                    &&& run.replies[s + 1] == Reply::Maybe(None) ==> run.is_done(s + 1)
                    &&& run.replies[s + 1] matches Reply::Maybe(Some(error)) ==> {
                        &&& run.effects(s + 1) == seq![KeyEffect::QueueMessage(message)]
                        &&& run.after[s + 1] == run.before[s + 1]
                        &&& run.is_done(s + 2)
                        &&& run.after[s + 2] == run.before[s + 2].with_status(
                            Notice::SteerFailed {
                                error,
                                queued: run.before[s + 2].queue.queued_messages as u64,
                            },
                        )
                    }
                }
                &&& !run.before[s].turn.is_loading && !shift_enter(run.key) ==> {
                    &&& run.effects(s) == seq![KeyEffect::SubmitOrSteer(message)]
                    &&& run.is_done(s + 1)
                }
            }
        }),
{
    runs::steps_wait(run, g - 1);
    entering_stands(run, g - 1);
    runs::later_step(run, g);
    entering_stands(run, g);
    command_is_decided(run, g, input);
    if run.replies[g + 1] == Reply::Flag(false) {
        let s = having(run, g);
        if let KeyStage::SteerLooks { always, .. } = run.stage(g) {
            message_steers(run, s, always, message_of(run, g, input));
        }
    }
}

/// Where the composer has nothing to give, the key ends and nothing is sent.
pub proof fn nothing_is_sent_of_nothing(run: Run, g: int)
    requires
        run.complete(),
        run.key.code == KeyCode::Enter,
        0 < g < run.steps.len(),
        run.effects(g - 1).len() > 0,
        run.effects(g - 1).last() == KeyEffect::ComposerEnter || run.effects(g - 1).last()
            == KeyEffect::SubmitInput,
        run.replies[g] == Reply::Maybe(None),
    ensures
        run.is_done(g),
        run.after[g] == run.before[g],
{
    runs::steps_wait(run, g - 1);
    entering_stands(run, g - 1);
    runs::later_step(run, g);
    if run.steps.len() > g + 1 {
        runs::later_step(run, g + 1);
    }
}

/// Whether the effect takes a text that was submitted: into the memory file, as a command, or as a
/// message.
pub open spec fn takes_text(effect: KeyEffect) -> bool {
    ||| effect is AddMemoryNote
    ||| effect is ExecuteCommand
    ||| effect is SubmitOrSteer
    ||| effect is SteerMessage
}

/// Whether effect `k` of step `i` takes the text.
pub open spec fn taken_at(run: Run, i: int, k: int) -> bool {
    &&& 0 <= i < run.steps.len()
    &&& 0 <= k < run.effects(i).len()
    &&& takes_text(run.effects(i)[k])
}

/// The stages that follow upon the taking of the text.
pub open spec fn after_taking(stage: KeyStage) -> bool {
    ||| stage is CommandRun
    ||| stage is Submitted
    ||| stage is Steered
    ||| stage is SteerQueued
}

proof fn step_takes_once(
    pre: App,
    stage: KeyStage,
    reply: Reply,
    post: App,
    step: KeyStep,
)
    requires
        dispatch::key_resumed(pre, stage, reply, post, step),
        laws::entering(stage),
        key_of(stage).code == KeyCode::Enter,
        stage.accepts(reply),
    ensures
        forall|k: int| #![trigger step.effects@[k]]
            0 <= k < step.effects@.len() && takes_text(step.effects@[k]) ==> {
                &&& k == step.effects@.len() - 1
                &&& !after_taking(stage)
                &&& step.next matches KeyNext::Await(next) ==> after_taking(next)
            },
        step.next matches KeyNext::Await(next) && after_taking(next) && !after_taking(stage)
            ==> step.effects@.len() > 0 && takes_text(step.effects@.last()),
        after_taking(stage) ==> (step.next matches KeyNext::Await(next) ==> after_taking(next)),
{
}

proof fn text_is_taken_once(run: Run, n: int)
    requires
        run.well_formed(),
        run.key.code == KeyCode::Enter,
        0 <= n < run.steps.len(),
    ensures
        forall|i: int, k: int, j: int, l: int|
            #![trigger taken_at(run, i, k), taken_at(run, j, l)]
            0 <= i <= n && 0 <= j <= n && taken_at(run, i, k) && taken_at(run, j, l) ==> i == j && k
                == l,
        run.steps[n].next is Await && !after_taking(run.stage(n)) ==> forall|i: int, k: int|
            0 <= i <= n ==> !#[trigger] taken_at(run, i, k),
    decreases n,
{
    if n == 0 {
        runs::first_step(run);
    } else {
        runs::steps_wait(run, n - 1);
        entering_stands(run, n - 1);
        text_is_taken_once(run, n - 1);
        runs::later_step(run, n);
        step_takes_once(
            run.before[n],
            run.stage(n - 1),
            run.replies[n],
            run.after[n],
            run.steps[n],
        );
    }
}

/// A text that the composer gave is not lost, and not used twice: unless the host has taken it as
/// the answer to the plan prompt, it goes to exactly one of the memory file, a command and a
/// message, over all the steps of the key.
pub proof fn text_goes_to_one_place(run: Run, g: int, input: String)
    requires
        run.complete(),
        run.key.code == KeyCode::Enter,
        submitted_at(run, g, input) && !answers_plan(run, g) || steered_at(run, g, input),
    ensures
        exists|i: int, k: int| taken_at(run, i, k),
        forall|i: int, k: int, j: int, l: int|
            #![trigger taken_at(run, i, k), taken_at(run, j, l)]
            taken_at(run, i, k) && taken_at(run, j, l) ==> i == j && k == l,
{
    text_is_taken_once(run, run.steps.len() - 1);
    if steered_at(run, g, input) {
        steering_text_is_run_or_sent(run, g, input);
        runs::steps_wait(run, g - 1);
        entering_stands(run, g - 1);
        runs::later_step(run, g);
        runs::later_step(run, g + 1);
        if run.replies[g + 1] == Reply::Flag(true) {
            assert(taken_at(run, g + 1, 0));
        } else {
            assert(taken_at(run, having(run, g), 0));
        }
    } else if is_note(run, g) {
        submitted_text_is_offered_in_turn(run, g, input);
        assert(taken_at(run, g + 2, 0));
    } else {
        let c = asking(run, g);
        let s = having(run, c);
        submitted_is_asked_about(run, g, input);
        submitted_text_is_run_or_sent(run, g, input);
        runs::later_step(run, c + 1);
        if run.replies[c + 1] == Reply::Flag(true) {
            assert(taken_at(run, c + 1, 0));
        } else if run.before[s].composer.edit_in_progress {
            assert(taken_at(run, s + 1, 1));
        } else {
            assert(taken_at(run, s, 0));
        }
    }
}

} // verus!
