//! Every key, from the step after the first to the last.

use vstd::prelude::*;

use crate::keyboard::bindings;
use crate::keyboard::enter;
use crate::keyboard::escape;
use crate::keyboard::followups;
use crate::keyboard::front;
use crate::keyboard::types;
use crate::keyboard::types::{fail, wait, KeyEffect, KeyStage, KeyStep, Menus};
use crate::state::App;
use crate::step::{one, Reply};

verus! {

/// The next step of a key, after the host has handed back `reply`. Where an effect has failed, the
/// key ends with its error and leaves the state as it was. A reply that the stage does not wait for
/// changes nothing.
pub open spec fn key_resumed(
    pre: App,
    stage: KeyStage,
    reply: Reply,
    post: App,
    step: KeyStep,
) -> bool {
    match (stage, reply) {
        (KeyStage::Unprimed { key, now }, Reply::Done) => front::key_started(
            pre,
            key,
            now,
            post,
            step,
        ),
        (KeyStage::Killed, Reply::Flag(killed)) => front::killed(pre, killed, post, step),
        (KeyStage::ViewEvents, Reply::Flag(quit)) => front::view_events(pre, quit, post, step),
        (KeyStage::TreeActivated, Reply::Maybe(path)) => front::tree_activated(
            pre,
            path,
            post,
            step,
        ),
        (KeyStage::BurstFlushed { key, now }, Reply::Done) => front::burst_flushed(
            pre,
            key,
            now,
            post,
            step,
        ),
        (KeyStage::PendingFlushed { key }, Reply::Maybe(pending)) => front::pending_flushed(
            pre,
            key,
            pending,
            post,
            step,
        ),
        (KeyStage::BurstKeyed { key }, Reply::Flag(taken)) => front::burst_keyed(
            pre,
            key,
            taken,
            post,
            step,
        ),
        (KeyStage::SlashCounted { key }, Reply::Count(entries)) => front::slash_counted(
            pre,
            key,
            entries,
            post,
            step,
        ),
        (KeyStage::MentionCounted { key, slash }, Reply::Count(mention)) => front::mention_counted(
            pre,
            key,
            Menus { slash, mention },
            post,
            step,
        ),
        (KeyStage::EnterSelection { key, menus }, Reply::Flag(opened)) => enter::enter_selection(
            pre,
            key,
            menus,
            opened,
            post,
            step,
        ),
        (KeyStage::EnterMention { key, menus }, Reply::Flag(applied)) => enter::enter_mention(
            pre,
            key,
            menus,
            applied,
            post,
            step,
        ),
        (KeyStage::EnterLooks { key }, Reply::Flag(command)) => enter::enter_looks(
            pre,
            key,
            command,
            post,
            step,
        ),
        (KeyStage::EnterApplied { key }, Reply::Flag(applied)) => enter::enter_applied(
            pre,
            key,
            applied,
            post,
            step,
        ),
        (KeyStage::EnterInput { key }, Reply::Maybe(input)) => enter::enter_input(
            pre,
            key,
            input,
            post,
            step,
        ),
        (KeyStage::EnterPlan { key, input }, Reply::Flag(chosen)) => enter::enter_plan_asked(
            pre,
            key,
            input,
            chosen,
            post,
            step,
        ),
        (KeyStage::EnterMemory { key, input }, Reply::Flag(note)) => enter::enter_memory(
            pre,
            key,
            input,
            note,
            post,
            step,
        ),
        (KeyStage::EnterCommand { key, input }, Reply::Flag(command)) => enter::enter_command(
            pre,
            key,
            input,
            command,
            post,
            step,
        ),
        (KeyStage::EnterBuilt { key }, Reply::Built(message)) => enter::enter_message(
            pre,
            key,
            message,
            post,
            step,
        ),
        (KeyStage::EnterUndone { key, message }, Reply::Done) => enter::enter_undone(
            pre,
            key,
            message,
            post,
            step,
        ),
        (KeyStage::Submitted { key }, Reply::Done) => enter::submitted(pre, key, post, step),
        (KeyStage::CommandRun { key }, Reply::Flag(quit)) => enter::command_run(
            pre,
            key,
            quit,
            post,
            step,
        ),
        (KeyStage::SteerInput { key, always }, Reply::Maybe(input)) => enter::steer_input(
            pre,
            key,
            always,
            input,
            post,
            step,
        ),
        (KeyStage::SteerLooks { key, always, input }, Reply::Flag(command)) => enter::steer_looks(
            pre,
            key,
            always,
            input,
            command,
            post,
            step,
        ),
        (KeyStage::SteerBuilt { key, always }, Reply::Built(message)) => enter::steer_message(
            pre,
            key,
            always,
            message,
            post,
            step,
        ),
        (KeyStage::Steered { key, message }, Reply::Maybe(error)) => enter::steered(
            pre,
            key,
            message,
            error,
            post,
            step,
        ),
        (KeyStage::SteerQueued { key, error }, Reply::Done) => enter::steer_queued(
            pre,
            key,
            error,
            post,
            step,
        ),
        (KeyStage::EscAttachment { key, menus }, Reply::Flag(cleared)) => escape::esc_attachment(
            pre,
            key,
            menus,
            cleared,
            post,
            step,
        ),
        (KeyStage::EscAction { key }, Reply::Escape(action)) => escape::esc_action(
            pre,
            key,
            action,
            post,
            step,
        ),
        (KeyStage::EscCancelled { key }, Reply::Done) => escape::esc_cancelled(
            pre,
            key,
            post,
            step,
        ),
        (KeyStage::EscCounted { key }, Reply::Count(total)) => escape::esc_counted(
            pre,
            key,
            total,
            post,
            step,
        ),
        (KeyStage::EscBacktracked { key }, Reply::Backtrack(effect)) => escape::esc_backtracked(
            pre,
            key,
            effect,
            post,
            step,
        ),
        (KeyStage::TabMention { key, menus }, Reply::Flag(applied)) => bindings::tab_mention(
            pre,
            key,
            menus,
            applied,
            post,
            step,
        ),
        (KeyStage::TabSlash { key }, Reply::Flag(applied)) => bindings::tab_tried(
            pre,
            applied,
            KeyEffect::CompleteCommand,
            KeyStage::TabCommand { key },
            post,
            step,
        ),
        (KeyStage::TabCommand { key }, Reply::Flag(applied)) => bindings::tab_tried(
            pre,
            applied,
            KeyEffect::CompleteMention,
            KeyStage::TabFile { key },
            post,
            step,
        ),
        (KeyStage::TabFile { key }, Reply::Flag(applied)) => bindings::tab_file(
            pre,
            key,
            applied,
            post,
            step,
        ),
        (KeyStage::TabQueue { key }, Reply::Flag(applied)) => bindings::tab_queue(
            pre,
            key,
            applied,
            post,
            step,
        ),
        (KeyStage::TabMode { key, prior }, Reply::Done) => bindings::tab_mode(
            pre,
            key,
            prior,
            post,
            step,
        ),
        (KeyStage::Erasing { key, erasure }, Reply::Flag(removed)) => bindings::erasing(
            pre,
            key,
            erasure,
            removed,
            post,
            step,
        ),
        (KeyStage::Paged { key, menus }, Reply::Flag(opened)) => followups::paged(
            pre,
            key,
            menus,
            opened,
            post,
            step,
        ),
        (KeyStage::FoldCell, Reply::Cell(cell)) => followups::fold_cell(pre, cell, post, step),
        (KeyStage::FoldMarked, Reply::Done) => followups::fold_marked(pre, post, step),
        (KeyStage::Focused { focus }, Reply::Done) => followups::focused(pre, focus, post, step),
        (KeyStage::CtrlCAsked { key }, Reply::CtrlC(disposition)) => followups::ctrl_c_asked(
            pre,
            key,
            disposition,
            post,
            step,
        ),
        (KeyStage::CtrlCCancelled { key }, Reply::Done) => followups::ctrl_c_cancelled(
            pre,
            key,
            post,
            step,
        ),
        (KeyStage::CtrlCRestored { key }, Reply::Flag(restored)) => followups::ctrl_c_restored(
            pre,
            key,
            restored,
            post,
            step,
        ),
        (KeyStage::Jumped { key, menus, forward }, Reply::Flag(found)) => followups::jumped(
            pre,
            key,
            menus,
            forward,
            found,
            post,
            step,
        ),
        (KeyStage::Edited { key }, Reply::Editor(outcome)) => followups::edited(
            pre,
            key,
            outcome,
            post,
            step,
        ),
        (KeyStage::EditorNamed { key }, Reply::EditorVariables { visual, editor }) => {
            followups::editor_named(pre, key, visual, editor, post, step)
        },
        (KeyStage::CellCopied { key }, Reply::Flag(copied)) => followups::cell_copied(
            pre,
            key,
            copied,
            post,
            step,
        ),
        (KeyStage::ThinkingCopied { key }, Reply::Flag(copied)) => followups::thinking_copied(
            pre,
            key,
            copied,
            post,
            step,
        ),
        (KeyStage::ViewEvents, Reply::Failed(error)) => failed(pre, error, post, step),
        (KeyStage::EnterPlan { .. }, Reply::Failed(error)) => failed(pre, error, post, step),
        (KeyStage::CommandRun { .. }, Reply::Failed(error)) => failed(pre, error, post, step),
        (KeyStage::Submitted { .. }, Reply::Failed(error)) => failed(pre, error, post, step),
        (stage, _) => post == pre && types::does(step, types::waits(seq![], stage)),
    }
}

/// An effect has failed: the key ends with its error and leaves the state as it was.
pub open spec fn failed(pre: App, error: String, post: App, step: KeyStep) -> bool {
    post == pre && types::does(step, types::fails(error))
}

/// Goes on with a key, after the host has handed back `reply`.
pub fn resume_key(app: &mut App, stage: KeyStage, reply: Reply) -> (step: KeyStep)
    ensures
        key_resumed(*old(app), stage, reply, *final(app), step),
{
    match (stage, reply) {
        (KeyStage::Unprimed { key, now }, Reply::Done) => front::start_key(app, key, now),
        (KeyStage::Killed, Reply::Flag(killed)) => front::on_killed(app, killed),
        (KeyStage::ViewEvents, Reply::Flag(quit)) => front::on_view_events(app, quit),
        (KeyStage::TreeActivated, Reply::Maybe(path)) => front::on_tree_activated(app, path),
        (KeyStage::BurstFlushed { key, now }, Reply::Done) => front::on_burst_flushed(
            app,
            key,
            now,
        ),
        (KeyStage::PendingFlushed { key }, Reply::Maybe(pending)) => front::on_pending_flushed(
            app,
            key,
            pending,
        ),
        (KeyStage::BurstKeyed { key }, Reply::Flag(taken)) => front::on_burst_keyed(
            app,
            key,
            taken,
        ),
        (KeyStage::SlashCounted { key }, Reply::Count(entries)) => front::on_slash_counted(
            app,
            key,
            entries,
        ),
        (KeyStage::MentionCounted { key, slash }, Reply::Count(mention)) => {
            front::on_mention_counted(app, key, Menus { slash, mention })
        },
        (KeyStage::EnterSelection { key, menus }, Reply::Flag(opened)) => enter::on_enter_selection(
            app,
            key,
            menus,
            opened,
        ),
        (KeyStage::EnterMention { key, menus }, Reply::Flag(applied)) => enter::on_enter_mention(
            app,
            key,
            menus,
            applied,
        ),
        (KeyStage::EnterLooks { key }, Reply::Flag(command)) => enter::on_enter_looks(
            app,
            key,
            command,
        ),
        (KeyStage::EnterApplied { key }, Reply::Flag(applied)) => enter::on_enter_applied(
            app,
            key,
            applied,
        ),
        (KeyStage::EnterInput { key }, Reply::Maybe(input)) => enter::on_enter_input(
            app,
            key,
            input,
        ),
        (KeyStage::EnterPlan { key, input }, Reply::Flag(chosen)) => enter::on_enter_plan_asked(
            app,
            key,
            input,
            chosen,
        ),
        (KeyStage::EnterMemory { key, input }, Reply::Flag(note)) => enter::on_enter_memory(
            app,
            key,
            input,
            note,
        ),
        (KeyStage::EnterCommand { key, input }, Reply::Flag(command)) => enter::on_enter_command(
            app,
            key,
            input,
            command,
        ),
        (KeyStage::EnterBuilt { key }, Reply::Built(message)) => enter::on_enter_message(
            app,
            key,
            message,
        ),
        (KeyStage::EnterUndone { key, message }, Reply::Done) => enter::on_enter_undone(
            app,
            key,
            message,
        ),
        (KeyStage::Submitted { key }, Reply::Done) => enter::on_submitted(app, key),
        (KeyStage::CommandRun { key }, Reply::Flag(quit)) => enter::on_command_run(app, key, quit),
        (KeyStage::SteerInput { key, always }, Reply::Maybe(input)) => enter::on_steer_input(
            app,
            key,
            always,
            input,
        ),
        (KeyStage::SteerLooks { key, always, input }, Reply::Flag(command)) => {
            enter::on_steer_looks(app, key, always, input, command)
        },
        (KeyStage::SteerBuilt { key, always }, Reply::Built(message)) => enter::on_steer_message(
            app,
            key,
            always,
            message,
        ),
        (KeyStage::Steered { key, message }, Reply::Maybe(error)) => enter::on_steered(
            app,
            key,
            message,
            error,
        ),
        (KeyStage::SteerQueued { key, error }, Reply::Done) => enter::on_steer_queued(
            app,
            key,
            error,
        ),
        (KeyStage::EscAttachment { key, menus }, Reply::Flag(cleared)) => escape::on_esc_attachment(
            app,
            key,
            menus,
            cleared,
        ),
        (KeyStage::EscAction { key }, Reply::Escape(action)) => escape::on_esc_action(
            app,
            key,
            action,
        ),
        (KeyStage::EscCancelled { key }, Reply::Done) => escape::on_esc_cancelled(app, key),
        (KeyStage::EscCounted { key }, Reply::Count(total)) => wait(
            one(KeyEffect::BacktrackEsc { total }),
            KeyStage::EscBacktracked { key },
        ),
        (KeyStage::EscBacktracked { key }, Reply::Backtrack(effect)) => escape::on_esc_backtracked(
            app,
            key,
            effect,
        ),
        (KeyStage::TabMention { key, menus }, Reply::Flag(applied)) => bindings::on_tab_mention(
            app,
            key,
            menus,
            applied,
        ),
        (KeyStage::TabSlash { key }, Reply::Flag(applied)) => bindings::on_tab_tried(
            app,
            applied,
            KeyEffect::CompleteCommand,
            KeyStage::TabCommand { key },
        ),
        (KeyStage::TabCommand { key }, Reply::Flag(applied)) => bindings::on_tab_tried(
            app,
            applied,
            KeyEffect::CompleteMention,
            KeyStage::TabFile { key },
        ),
        (KeyStage::TabFile { key }, Reply::Flag(applied)) => bindings::on_tab_file(
            app,
            key,
            applied,
        ),
        (KeyStage::TabQueue { key }, Reply::Flag(applied)) => bindings::on_tab_queue(
            app,
            key,
            applied,
        ),
        (KeyStage::TabMode { key, prior }, Reply::Done) => bindings::on_tab_mode(app, key, prior),
        (KeyStage::Erasing { key, erasure }, Reply::Flag(removed)) => bindings::on_erasing(
            app,
            key,
            erasure,
            removed,
        ),
        (KeyStage::Paged { key, menus }, Reply::Flag(opened)) => followups::on_paged(
            app,
            key,
            menus,
            opened,
        ),
        (KeyStage::FoldCell, Reply::Cell(cell)) => followups::on_fold_cell(app, cell),
        (KeyStage::FoldMarked, Reply::Done) => followups::on_fold_marked(app),
        (KeyStage::Focused { focus }, Reply::Done) => followups::on_focused(app, focus),
        (KeyStage::CtrlCAsked { key }, Reply::CtrlC(disposition)) => followups::on_ctrl_c_asked(
            app,
            key,
            disposition,
        ),
        (KeyStage::CtrlCCancelled { key }, Reply::Done) => followups::on_ctrl_c_cancelled(app, key),
        (KeyStage::CtrlCRestored { key }, Reply::Flag(restored)) => followups::on_ctrl_c_restored(
            app,
            key,
            restored,
        ),
        (KeyStage::Jumped { key, menus, forward }, Reply::Flag(found)) => followups::on_jumped(
            app,
            key,
            menus,
            forward,
            found,
        ),
        (KeyStage::Edited { key }, Reply::Editor(outcome)) => followups::on_edited(
            app,
            key,
            outcome,
        ),
        (KeyStage::EditorNamed { key }, Reply::EditorVariables { visual, editor }) => {
            followups::on_editor_named(app, key, visual, editor)
        },
        (KeyStage::CellCopied { key }, Reply::Flag(copied)) => followups::on_cell_copied(
            app,
            key,
            copied,
        ),
        (KeyStage::ThinkingCopied { key }, Reply::Flag(copied)) => followups::on_thinking_copied(
            app,
            key,
            copied,
        ),
        (KeyStage::ViewEvents, Reply::Failed(error)) => fail(error),
        (KeyStage::EnterPlan { .. }, Reply::Failed(error)) => fail(error),
        (KeyStage::CommandRun { .. }, Reply::Failed(error)) => fail(error),
        (KeyStage::Submitted { .. }, Reply::Failed(error)) => fail(error),
        (stage, _) => wait(Vec::new(), stage),
    }
}

} // verus!
