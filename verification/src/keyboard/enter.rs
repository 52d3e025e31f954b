//! Enter: it opens what is selected, completes, runs a command, sends a message, or steers the
//! running turn with one.

use vstd::prelude::*;

use crate::keyboard::bindings::break_line;
use crate::keyboard::types;
use crate::keyboard::types::{
    consume, handle, leave, wait, KeyEffect, KeyNext, KeyStage, KeyStep, Menus,
};
use crate::keys::{Key, ALT, CONTROL, SHIFT};
use crate::notices::Notice;
use crate::state::{App, Composer, Queue, QueuedMessage};
use crate::step::{one, two};

verus! {

/// Shift+Enter while a turn is running.
pub open spec fn steering_enter(app: App, key: Key) -> bool {
    &&& app.turn.is_loading
    &&& key.modifiers.has(SHIFT)
    &&& !key.modifiers.has(CONTROL)
    &&& !key.modifiers.has(ALT)
}

pub open spec fn enter_bound(pre: App, key: Key, menus: Menus, post: App, step: KeyStep) -> bool {
    if pre.composer.input@.len() == 0 && pre.screen.transcript_selection_active {
        post == pre && types::does(
            step,
            types::waits(
                seq![KeyEffect::SelectionPager],
                KeyStage::EnterSelection { key, menus },
            ),
        )
    } else {
        post == pre && types::does(step, enter_plan(pre, key, menus))
    }
}

/// Enter where no selection is opened.
pub open spec fn enter_plan(app: App, key: Key, menus: Menus) -> (Seq<KeyEffect>, KeyNext) {
    if steering_enter(app, key) {
        types::waits(seq![KeyEffect::SubmitInput], KeyStage::SteerInput { key, always: true })
    } else if key.traits.composer_newline {
        types::consumes(key, seq![KeyEffect::InsertChar('\n')])
    } else if menus.mention > 0 {
        types::waits(seq![KeyEffect::ApplyMention], KeyStage::EnterMention { key, menus })
    } else {
        submit_plan(app, key, menus)
    }
}

/// Enter where no mention is completed either.
pub open spec fn submit_plan(app: App, key: Key, menus: Menus) -> (Seq<KeyEffect>, KeyNext) {
    if key.modifiers.has(CONTROL) {
        types::waits(seq![KeyEffect::SubmitInput], KeyStage::SteerInput { key, always: false })
    } else if menus.slash > 0 {
        types::waits(
            seq![KeyEffect::AskSlashCommand(app.composer.input)],
            KeyStage::EnterLooks { key },
        )
    } else {
        types::waits(seq![KeyEffect::ComposerEnter], KeyStage::EnterInput { key })
    }
}

pub open spec fn enter_selection(
    pre: App,
    key: Key,
    menus: Menus,
    opened: bool,
    post: App,
    step: KeyStep,
) -> bool {
    &&& post == pre
    &&& types::does(
        step,
        if opened {
            types::handled(seq![])
        } else {
            enter_plan(pre, key, menus)
        },
    )
}

pub open spec fn enter_mention(
    pre: App,
    key: Key,
    menus: Menus,
    applied: bool,
    post: App,
    step: KeyStep,
) -> bool {
    &&& post == pre
    &&& types::does(
        step,
        if applied {
            types::handled(seq![])
        } else {
            submit_plan(pre, key, menus)
        },
    )
}

fn plan_submit(app: &App, key: Key, menus: Menus) -> (step: KeyStep)
    ensures
        types::does(step, submit_plan(*app, key, menus)),
{
    if key.modifiers.contains(CONTROL) {
        wait(one(KeyEffect::SubmitInput), KeyStage::SteerInput { key, always: false })
    } else if menus.slash > 0 {
        wait(
            one(KeyEffect::AskSlashCommand(app.composer.input.clone())),
            KeyStage::EnterLooks { key },
        )
    } else {
        wait(one(KeyEffect::ComposerEnter), KeyStage::EnterInput { key })
    }
}

fn plan_enter(app: &App, key: Key, menus: Menus) -> (step: KeyStep)
    ensures
        types::does(step, enter_plan(*app, key, menus)),
{
    if app.turn.is_loading && key.modifiers.contains(SHIFT) && !key.modifiers.contains(CONTROL)
        && !key.modifiers.contains(ALT) {
        wait(one(KeyEffect::SubmitInput), KeyStage::SteerInput { key, always: true })
    } else if key.traits.composer_newline {
        break_line(key)
    } else if menus.mention > 0 {
        wait(one(KeyEffect::ApplyMention), KeyStage::EnterMention { key, menus })
    } else {
        plan_submit(app, key, menus)
    }
}

pub fn bind_enter(app: &mut App, key: Key, menus: Menus) -> (step: KeyStep)
    ensures
        enter_bound(*old(app), key, menus, *final(app), step),
{
    if app.composer.input.as_str().is_empty() && app.screen.transcript_selection_active {
        wait(one(KeyEffect::SelectionPager), KeyStage::EnterSelection { key, menus })
    } else {
        plan_enter(app, key, menus)
    }
}

pub fn on_enter_selection(app: &mut App, key: Key, menus: Menus, opened: bool) -> (step: KeyStep)
    ensures
        enter_selection(*old(app), key, menus, opened, *final(app), step),
{
    if opened {
        handle(Vec::new())
    } else {
        plan_enter(app, key, menus)
    }
}

pub fn on_enter_mention(app: &mut App, key: Key, menus: Menus, applied: bool) -> (step: KeyStep)
    ensures
        enter_mention(*old(app), key, menus, applied, *final(app), step),
{
    if applied {
        handle(Vec::new())
    } else {
        plan_submit(app, key, menus)
    }
}

// A bare Enter. An open slash menu completes the command first. What the composer then gives is an
// answer to the plan prompt, a note for the memory file, a command, or a message.

pub open spec fn enter_looks(pre: App, key: Key, command: bool, post: App, step: KeyStep) -> bool {
    &&& post == pre
    &&& types::does(
        step,
        if command {
            types::waits(
                seq![KeyEffect::ApplySlash { for_editing: false }],
                KeyStage::EnterApplied { key },
            )
        } else {
            types::waits(seq![KeyEffect::ComposerEnter], KeyStage::EnterInput { key })
        },
    )
}

pub open spec fn enter_applied(pre: App, key: Key, applied: bool, post: App, step: KeyStep) -> bool {
    &&& post == pre
    &&& types::does(
        step,
        types::waits(
            if applied {
                seq![KeyEffect::CloseSlashMenu, KeyEffect::ComposerEnter]
            } else {
                seq![KeyEffect::ComposerEnter]
            },
            KeyStage::EnterInput { key },
        ),
    )
}

pub open spec fn enter_input(
    pre: App,
    key: Key,
    input: Option<String>,
    post: App,
    step: KeyStep,
) -> bool {
    &&& post == pre
    &&& types::does(
        step,
        match input {
            Some(input) => types::waits(
                seq![KeyEffect::PlanChoice(input)],
                KeyStage::EnterPlan { key, input },
            ),
            None => types::consumes(key, seq![]),
        },
    )
}

pub open spec fn enter_plan_asked(
    pre: App,
    key: Key,
    input: String,
    chosen: bool,
    post: App,
    step: KeyStep,
) -> bool {
    &&& post == pre
    &&& types::does(
        step,
        if chosen {
            types::handled(seq![])
        } else if pre.composer.memory_enabled {
            types::waits(
                seq![KeyEffect::AskMemoryNote(input)],
                KeyStage::EnterMemory { key, input },
            )
        } else {
            types::waits(
                seq![KeyEffect::AskSlashCommand(input)],
                KeyStage::EnterCommand { key, input },
            )
        },
    )
}

pub open spec fn enter_memory(
    pre: App,
    key: Key,
    input: String,
    note: bool,
    post: App,
    step: KeyStep,
) -> bool {
    &&& post == pre
    &&& types::does(
        step,
        if note {
            types::handled(seq![KeyEffect::AddMemoryNote(input)])
        } else {
            types::waits(
                seq![KeyEffect::AskSlashCommand(input)],
                KeyStage::EnterCommand { key, input },
            )
        },
    )
}

/// The state without a draft.
pub open spec fn undrafted(app: App) -> App {
    App { queue: Queue { queued_draft: None, ..app.queue }, ..app }
}

/// The draft with `input` as its text.
pub open spec fn redrafted(draft: QueuedMessage, input: String) -> QueuedMessage {
    QueuedMessage { display: input, ..draft }
}

pub open spec fn enter_command(
    pre: App,
    key: Key,
    input: String,
    command: bool,
    post: App,
    step: KeyStep,
) -> bool {
    if command {
        post == pre && types::does(
            step,
            types::waits(seq![KeyEffect::ExecuteCommand(input)], KeyStage::CommandRun { key }),
        )
    } else {
        match pre.queue.queued_draft {
            Some(draft) => enter_message(
                undrafted(pre),
                key,
                redrafted(draft, input),
                post,
                step,
            ),
            None => post == pre && types::does(
                step,
                types::waits(seq![KeyEffect::BuildMessage(input)], KeyStage::EnterBuilt { key }),
            ),
        }
    }
}

/// The message is sent; one that revises the last message takes the last exchange back first.
pub open spec fn enter_message(
    pre: App,
    key: Key,
    message: QueuedMessage,
    post: App,
    step: KeyStep,
) -> bool {
    &&& post == pre
    &&& types::does(
        step,
        if pre.composer.edit_in_progress {
            types::waits(seq![KeyEffect::Undo], KeyStage::EnterUndone { key, message })
        } else {
            types::waits(
                seq![KeyEffect::SubmitOrSteer(message)],
                KeyStage::Submitted { key },
            )
        },
    )
}

pub open spec fn enter_undone(
    pre: App,
    key: Key,
    message: QueuedMessage,
    post: App,
    step: KeyStep,
) -> bool {
    &&& post == App { composer: Composer { edit_in_progress: false, ..pre.composer }, ..pre }
    &&& types::does(
        step,
        types::waits(
            seq![KeyEffect::SyncSession, KeyEffect::SubmitOrSteer(message)],
            KeyStage::Submitted { key },
        ),
    )
}

pub open spec fn submitted(pre: App, key: Key, post: App, step: KeyStep) -> bool {
    post == pre && types::does(step, types::consumes(key, seq![]))
}

pub open spec fn command_run(pre: App, key: Key, quit: bool, post: App, step: KeyStep) -> bool {
    &&& post == pre
    &&& types::does(
        step,
        if quit {
            types::leaves(seq![])
        } else {
            types::consumes(key, seq![])
        },
    )
}

pub fn on_enter_looks(app: &mut App, key: Key, command: bool) -> (step: KeyStep)
    ensures
        enter_looks(*old(app), key, command, *final(app), step),
{
    if command {
        wait(one(KeyEffect::ApplySlash { for_editing: false }), KeyStage::EnterApplied { key })
    } else {
        wait(one(KeyEffect::ComposerEnter), KeyStage::EnterInput { key })
    }
}

pub fn on_enter_applied(app: &mut App, key: Key, applied: bool) -> (step: KeyStep)
    ensures
        enter_applied(*old(app), key, applied, *final(app), step),
{
    if applied {
        wait(
            two(KeyEffect::CloseSlashMenu, KeyEffect::ComposerEnter),
            KeyStage::EnterInput { key },
        )
    } else {
        wait(one(KeyEffect::ComposerEnter), KeyStage::EnterInput { key })
    }
}

pub fn on_enter_input(app: &mut App, key: Key, input: Option<String>) -> (step: KeyStep)
    ensures
        enter_input(*old(app), key, input, *final(app), step),
{
    match input {
        Some(input) => wait(
            one(KeyEffect::PlanChoice(input.clone())),
            KeyStage::EnterPlan { key, input },
        ),
        None => consume(key, Vec::new()),
    }
}

pub fn on_enter_plan_asked(app: &mut App, key: Key, input: String, chosen: bool) -> (step: KeyStep)
    ensures
        enter_plan_asked(*old(app), key, input, chosen, *final(app), step),
{
    if chosen {
        handle(Vec::new())
    } else if app.composer.memory_enabled {
        wait(
            one(KeyEffect::AskMemoryNote(input.clone())),
            KeyStage::EnterMemory { key, input },
        )
    } else {
        wait(
            one(KeyEffect::AskSlashCommand(input.clone())),
            KeyStage::EnterCommand { key, input },
        )
    }
}

pub fn on_enter_memory(app: &mut App, key: Key, input: String, note: bool) -> (step: KeyStep)
    ensures
        enter_memory(*old(app), key, input, note, *final(app), step),
{
    if note {
        handle(one(KeyEffect::AddMemoryNote(input)))
    } else {
        wait(
            one(KeyEffect::AskSlashCommand(input.clone())),
            KeyStage::EnterCommand { key, input },
        )
    }
}

pub fn on_enter_command(app: &mut App, key: Key, input: String, command: bool) -> (step: KeyStep)
    ensures
        enter_command(*old(app), key, input, command, *final(app), step),
{
    if command {
        wait(one(KeyEffect::ExecuteCommand(input)), KeyStage::CommandRun { key })
    } else {
        match app.queue.queued_draft.take() {
            Some(draft) => {
                let message = QueuedMessage {
                    display: input,
                    skill_instruction: draft.skill_instruction,
                };
                on_enter_message(app, key, message)
            },
            None => wait(one(KeyEffect::BuildMessage(input)), KeyStage::EnterBuilt { key }),
        }
    }
}

pub fn on_enter_message(app: &mut App, key: Key, message: QueuedMessage) -> (step: KeyStep)
    ensures
        enter_message(*old(app), key, message, *final(app), step),
{
    if app.composer.edit_in_progress {
        wait(one(KeyEffect::Undo), KeyStage::EnterUndone { key, message })
    } else {
        wait(one(KeyEffect::SubmitOrSteer(message)), KeyStage::Submitted { key })
    }
}

pub fn on_enter_undone(app: &mut App, key: Key, message: QueuedMessage) -> (step: KeyStep)
    ensures
        enter_undone(*old(app), key, message, *final(app), step),
{
    app.composer.edit_in_progress = false;
    wait(
        two(KeyEffect::SyncSession, KeyEffect::SubmitOrSteer(message)),
        KeyStage::Submitted { key },
    )
}

pub fn on_submitted(app: &mut App, key: Key) -> (step: KeyStep)
    ensures
        submitted(*old(app), key, *final(app), step),
{
    consume(key, Vec::new())
}

pub fn on_command_run(app: &mut App, key: Key, quit: bool) -> (step: KeyStep)
    ensures
        command_run(*old(app), key, quit, *final(app), step),
{
    if quit {
        leave(Vec::new())
    } else {
        consume(key, Vec::new())
    }
}

// Enter with Shift in a running turn, or with Control at any time: the message steers the running
// turn. One that could not is queued, so that it is not lost.

pub open spec fn steer_input(
    pre: App,
    key: Key,
    always: bool,
    input: Option<String>,
    post: App,
    step: KeyStep,
) -> bool {
    &&& post == pre
    &&& types::does(
        step,
        match input {
            Some(input) => types::waits(
                seq![KeyEffect::AskSlashCommand(input)],
                KeyStage::SteerLooks { key, always, input },
            ),
            None => types::consumes(key, seq![]),
        },
    )
}

pub open spec fn steer_looks(
    pre: App,
    key: Key,
    always: bool,
    input: String,
    command: bool,
    post: App,
    step: KeyStep,
) -> bool {
    if command {
        post == pre && types::does(
            step,
            types::waits(seq![KeyEffect::ExecuteCommand(input)], KeyStage::CommandRun { key }),
        )
    } else {
        match pre.queue.queued_draft {
            Some(draft) => steer_message(
                undrafted(pre),
                key,
                always,
                redrafted(draft, input),
                post,
                step,
            ),
            None => post == pre && types::does(
                step,
                types::waits(
                    seq![KeyEffect::BuildMessage(input)],
                    KeyStage::SteerBuilt { key, always },
                ),
            ),
        }
    }
}

/// The message steers the running turn; without one it is sent as any other.
pub open spec fn steer_message(
    pre: App,
    key: Key,
    always: bool,
    message: QueuedMessage,
    post: App,
    step: KeyStep,
) -> bool {
    &&& post == pre
    &&& types::does(
        step,
        if always || pre.turn.is_loading {
            types::waits(
                seq![KeyEffect::SteerMessage(message)],
                KeyStage::Steered { key, message },
            )
        } else {
            types::waits(
                seq![KeyEffect::SubmitOrSteer(message)],
                KeyStage::Submitted { key },
            )
        },
    )
}

pub open spec fn steered(
    pre: App,
    key: Key,
    message: QueuedMessage,
    error: Option<String>,
    post: App,
    step: KeyStep,
) -> bool {
    &&& post == pre
    &&& types::does(
        step,
        match error {
            Some(error) => types::waits(
                seq![KeyEffect::QueueMessage(message)],
                KeyStage::SteerQueued { key, error },
            ),
            None => types::consumes(key, seq![]),
        },
    )
}

pub open spec fn steer_queued(pre: App, key: Key, error: String, post: App, step: KeyStep) -> bool {
    &&& post == pre.with_status(
        Notice::SteerFailed { error, queued: pre.queue.queued_messages as u64 },
    )
    &&& types::does(step, types::consumes(key, seq![]))
}

pub fn on_steer_input(app: &mut App, key: Key, always: bool, input: Option<String>) -> (step:
    KeyStep)
    ensures
        steer_input(*old(app), key, always, input, *final(app), step),
{
    match input {
        Some(input) => wait(
            one(KeyEffect::AskSlashCommand(input.clone())),
            KeyStage::SteerLooks { key, always, input },
        ),
        None => consume(key, Vec::new()),
    }
}

pub fn on_steer_looks(app: &mut App, key: Key, always: bool, input: String, command: bool) -> (step:
    KeyStep)
    ensures
        steer_looks(*old(app), key, always, input, command, *final(app), step),
{
    if command {
        wait(one(KeyEffect::ExecuteCommand(input)), KeyStage::CommandRun { key })
    } else {
        match app.queue.queued_draft.take() {
            Some(draft) => {
                let message = QueuedMessage {
                    display: input,
                    skill_instruction: draft.skill_instruction,
                };
                on_steer_message(app, key, always, message)
            },
            None => wait(
                one(KeyEffect::BuildMessage(input)),
                KeyStage::SteerBuilt { key, always },
            ),
        }
    }
}

pub fn on_steer_message(app: &mut App, key: Key, always: bool, message: QueuedMessage) -> (step:
    KeyStep)
    ensures
        steer_message(*old(app), key, always, message, *final(app), step),
{
    if always || app.turn.is_loading {
        wait(
            one(KeyEffect::SteerMessage(message.duplicate())),
            KeyStage::Steered { key, message },
        )
    } else {
        wait(one(KeyEffect::SubmitOrSteer(message)), KeyStage::Submitted { key })
    }
}

pub fn on_steered(app: &mut App, key: Key, message: QueuedMessage, error: Option<String>) -> (step:
    KeyStep)
    ensures
        steered(*old(app), key, message, error, *final(app), step),
{
    match error {
        Some(error) => wait(
            one(KeyEffect::QueueMessage(message)),
            KeyStage::SteerQueued { key, error },
        ),
        None => consume(key, Vec::new()),
    }
}

pub fn on_steer_queued(app: &mut App, key: Key, error: String) -> (step: KeyStep)
    ensures
        steer_queued(*old(app), key, error, *final(app), step),
{
    app.status_message = Some(
        Notice::SteerFailed { error, queued: app.queue.queued_messages as u64 },
    );
    consume(key, Vec::new())
}

} // verus!
