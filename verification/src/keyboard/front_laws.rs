//! What holds of a key before its binding is looked up.

use vstd::prelude::*;

use crate::keyboard::dispatch;
use crate::keyboard::front;
use crate::keyboard::types::{KeyEffect, KeyEventAction, KeyNext, KeyStage, KeyStep};
use crate::keys::{Key, KeyCode, ALT, CONTROL, SUPER};
use crate::notices::{Notice, SidebarFocus};
use crate::state::{App, Composer, ModalKind, Screen};
use crate::step::Reply;

verus! {

/// Whether the key takes back the first of two Escs.
pub open spec fn takes_back(app: App, key: Key) -> bool {
    app.composer.backtrack_primed && key.code != KeyCode::Esc
}

/// Whether the step is the first of the key that is not spent on a first Esc: the first of all, or
/// where there is a first Esc to take back, the one after that.
pub open spec fn starts(pre: App, key: Key, now: u128, post: App, step: KeyStep) -> bool {
    ||| !takes_back(pre, key) && front::key_begun(pre, key, now, post, step)
    ||| dispatch::key_resumed(pre, KeyStage::Unprimed { key, now }, Reply::Done, post, step)
}

/// Whether the step asks for `effects` and ends the key as handled.
pub open spec fn ends(step: KeyStep, effects: Seq<KeyEffect>) -> bool {
    step.effects@ == effects && step.next == KeyNext::Finish(KeyEventAction::Handled)
}

/// Whether the step asks for `effects` and waits in `stage`.
pub open spec fn awaits(step: KeyStep, effects: Seq<KeyEffect>, stage: KeyStage) -> bool {
    step.effects@ == effects && step.next == KeyNext::Await(stage)
}

/// Whether the key is the character with Control, which is not down as a half of AltGr.
pub open spec fn is_control(key: Key, c: char) -> bool {
    &&& key.code == KeyCode::Char(c)
    &&& key.modifiers.has(CONTROL)
    &&& key.modifiers.has(ALT) ==> key.traits.ctrl_or_alt
}

/// Whether the key is one of the two letters with Alt alone, or with Alt and Shift.
pub open spec fn is_alt(key: Key, lower: char, upper: char) -> bool {
    &&& key.code == KeyCode::Char(lower) || key.code == KeyCode::Char(upper)
    &&& key.modifiers.has(ALT)
    &&& !(key.modifiers.has(CONTROL) || key.modifiers.has(SUPER))
}

/// F1 or Ctrl+/.
pub open spec fn asks_for_help(key: Key) -> bool {
    key.code == KeyCode::F(1) || is_control(key, '/')
}

/// A key that is no Esc takes back a first Esc before anything else, and leaves the rest as it is.
pub proof fn first_escape_is_taken_back(pre: App, key: Key, now: u128, post: App, step: KeyStep)
    requires
        front::key_begun(pre, key, now, post, step),
        takes_back(pre, key),
    ensures
        awaits(step, seq![KeyEffect::ResetBacktrack], KeyStage::Unprimed { key, now }),
        post == (App {
            composer: Composer { backtrack_primed: false, ..pre.composer },
            ..pre
        }),
{
}

/// The key for the help opens it, and closes it where it is on top; it comes before all others.
pub proof fn help_comes_first(pre: App, key: Key, now: u128, post: App, step: KeyStep)
    requires
        starts(pre, key, now, post, step),
        asks_for_help(key),
    ensures
        post == pre,
        pre.screen.top_modal == Some(ModalKind::Help) ==> ends(step, seq![KeyEffect::PopView]),
        pre.screen.top_modal != Some(ModalKind::Help) ==> ends(step, seq![KeyEffect::PushHelp]),
{
}

/// Whether a task of the panel is a shell job that runs.
pub open spec fn a_job_runs(app: App) -> bool {
    exists|i: int| #![trigger app.screen.task_panel@[i]]
        0 <= i < app.screen.task_panel@.len() && "shell_"@.is_prefix_of(
            app.screen.task_panel@[i].id@,
        ) && app.screen.task_panel@[i].status@ == "running"@
}

/// Ctrl+K with a view open opens the command palette. With none it puts up the command that ends
/// the running shell jobs, where the sidebar shows tasks and there are any, and does not run it;
/// otherwise it kills the rest of the line, and where nothing was left of it the command palette
/// opens.
pub proof fn ctrl_k_kills_jobs_or_the_line(
    pre: App,
    key: Key,
    now: u128,
    post: App,
    step: KeyStep,
    resumed: App,
    reply: Reply,
    end: App,
    ending: KeyStep,
)
    requires
        starts(pre, key, now, post, step),
        is_control(key, 'k'),
        step.next matches KeyNext::Await(stage) ==> stage.accepts(reply) && dispatch::key_resumed(
            resumed,
            stage,
            reply,
            end,
            ending,
        ),
    ensures
        ({
            let jobs = pre.screen.sidebar_focus == SidebarFocus::Tasks && a_job_runs(pre);
            let free = pre.screen.top_modal is None;
            &&& !free ==> ends(step, seq![KeyEffect::PushCommandPalette]) && post == pre
            &&& free && jobs ==> {
                &&& ends(step, seq![])
                &&& post.composer.input@ == "/jobs cancel-all"@
                &&& post.composer.cursor_position == "/jobs cancel-all"@.len()
                &&& post == (App {
                    composer: Composer {
                        input: post.composer.input,
                        cursor_position: post.composer.cursor_position,
                        ..pre.composer
                    },
                    status_message: Some(Notice::KillJobs),
                    ..pre
                })
            }
            &&& free && !jobs ==> {
                &&& step.effects@ == seq![KeyEffect::KillToEndOfLine]
                &&& post == pre
                &&& end == resumed
                &&& reply == Reply::Flag(true) ==> ends(ending, seq![])
                &&& reply == Reply::Flag(false) ==> ends(
                    ending,
                    seq![KeyEffect::PushCommandPalette],
                )
                &&& reply is Flag
            }
        }),
{
    reveal_strlit("/jobs cancel-all");
    if a_job_runs(pre) {
        let i = choose|i: int| #![trigger pre.screen.task_panel@[i]]
            0 <= i < pre.screen.task_panel@.len() && "shell_"@.is_prefix_of(
                pre.screen.task_panel@[i].id@,
            ) && pre.screen.task_panel@[i].status@ == "running"@;
        assert(front::running_job(pre.screen.task_panel@[i]));
    }
}

/// Whether a key that comes before the views is pressed.
pub open spec fn is_global(key: Key) -> bool {
    asks_for_help(key) || is_control(key, 'k') || key.traits.file_tree_toggle
}

/// The file tree is shown where it was hidden and hidden where it was shown, and the status line
/// says so.
pub open spec fn toggles_the_tree(pre: App, post: App, step: KeyStep) -> bool {
    let shown = pre.screen.file_tree_open;
    &&& shown ==> ends(step, seq![KeyEffect::DropFileTree])
    &&& !shown ==> ends(step, seq![KeyEffect::BuildFileTree])
    &&& post == (App {
        screen: Screen { file_tree_open: !shown, needs_redraw: true, ..pre.screen },
        status_message: Some(
            if shown {
                Notice::FileTreeClosed
            } else {
                Notice::FileTreeHelp
            },
        ),
        ..pre
    })
}

/// The key of the file tree toggles it, whatever view is open.
pub proof fn tree_key_comes_before_views(pre: App, key: Key, now: u128, post: App, step: KeyStep)
    requires
        starts(pre, key, now, post, step),
        key.traits.file_tree_toggle,
        !asks_for_help(key),
        !is_control(key, 'k'),
    ensures
        toggles_the_tree(pre, post, step),
{
}

/// Whether the key opens something over the transcript, which it does only where no view is open:
/// the file picker, though not while a turn is running, the shell control or the context inspector.
pub open spec fn opens(pre: App, key: Key) -> Option<KeyEffect> {
    if pre.screen.top_modal is Some {
        None
    } else if is_control(key, 'p') && !pre.turn.is_loading {
        Some(KeyEffect::OpenFilePicker)
    } else if is_control(key, 'b') || is_control(key, 'B') {
        Some(KeyEffect::OpenShellControl)
    } else if is_alt(key, 'c', 'C') {
        Some(KeyEffect::OpenContextInspector)
    } else {
        None
    }
}

/// The keys that open something do that and nothing else.
pub proof fn openers_open(
    pre: App,
    key: Key,
    now: u128,
    post: App,
    step: KeyStep,
    effect: KeyEffect,
)
    requires
        starts(pre, key, now, post, step),
        !is_global(key),
        opens(pre, key) == Some(effect),
    ensures
        ends(step, seq![effect]),
        post == pre,
{
}

/// An open view gets every other key. The event loop returns exactly where one of its events asks
/// for that, and where the views fail the key ends with their error.
pub proof fn open_view_gets_the_key(
    pre: App,
    key: Key,
    now: u128,
    post: App,
    step: KeyStep,
    resumed: App,
    reply: Reply,
    end: App,
    ending: KeyStep,
)
    requires
        starts(pre, key, now, post, step),
        !is_global(key),
        pre.screen.top_modal is Some,
        step.next matches KeyNext::Await(stage) ==> stage.accepts(reply) && dispatch::key_resumed(
            resumed,
            stage,
            reply,
            end,
            ending,
        ),
    ensures
        step.effects@ == seq![KeyEffect::ModalKey(key), KeyEffect::HandleViewEvents],
        step.next is Await,
        post == (App { screen: Screen { needs_redraw: true, ..pre.screen }, ..pre }),
        end == resumed,
        ending.effects@.len() == 0,
        reply == Reply::Flag(true) ==> ending.next == KeyNext::Finish(KeyEventAction::Return),
        reply == Reply::Flag(false) ==> ending.next == KeyNext::Finish(KeyEventAction::Handled),
        reply matches Reply::Failed(error) ==> ending.next == KeyNext::Fail(error),
{
}

/// Whether the key may go on to the file tree, the history search or the composer: nothing before
/// them takes it.
pub open spec fn comes_through(pre: App, key: Key) -> bool {
    !is_global(key) && opens(pre, key) is None && pre.screen.top_modal is None
}

/// Whether the open file tree takes the key.
pub open spec fn goes_to_the_tree(pre: App, key: Key) -> bool {
    pre.screen.file_tree_open && (key.code == KeyCode::Up || key.code == KeyCode::Down || key.code
        == KeyCode::Enter || key.code == KeyCode::Esc)
}

/// In the open file tree the arrows move the selection, and Esc closes the tree. Enter picks a
/// file, which is then mentioned in the composer with the status line saying so; a directory that
/// was opened or closed is drawn again.
pub proof fn open_tree_takes_its_keys(
    pre: App,
    key: Key,
    now: u128,
    post: App,
    step: KeyStep,
    resumed: App,
    path: Option<String>,
    end: App,
    ending: KeyStep,
)
    requires
        starts(pre, key, now, post, step),
        comes_through(pre, key),
        goes_to_the_tree(pre, key),
        step.next matches KeyNext::Await(stage) ==> dispatch::key_resumed(
            resumed,
            stage,
            Reply::Maybe(path),
            end,
            ending,
        ),
    ensures
        key.code == KeyCode::Up ==> ends(step, seq![KeyEffect::TreeUp]),
        key.code == KeyCode::Down ==> ends(step, seq![KeyEffect::TreeDown]),
        key.code == KeyCode::Up || key.code == KeyCode::Down ==> post == (App {
            screen: Screen { needs_redraw: true, ..pre.screen },
            ..pre
        }),
        key.code == KeyCode::Esc ==> toggles_the_tree(pre, post, step),
        key.code == KeyCode::Enter ==> {
            &&& step.effects@ == seq![KeyEffect::TreeActivate]
            &&& post == pre
            &&& ending.next == KeyNext::Finish(KeyEventAction::Handled)
            &&& path is None ==> ending.effects@.len() == 0 && end == (App {
                screen: Screen { needs_redraw: true, ..resumed.screen },
                ..resumed
            })
            &&& path matches Some(file) ==> {
                &&& ending.effects@.len() == 1
                &&& ending.effects@[0] matches KeyEffect::InsertText(mention) && mention@ == seq![
                    '@',
                ] + file@ + seq![' ']
                &&& end == (App { status_message: Some(Notice::Attached(file)), ..resumed })
            }
        },
{
    reveal_strlit("@");
    reveal_strlit(" ");
    assert("@"@ =~= seq!['@']);
    assert(" "@ =~= seq![' ']);
}

/// An active history search takes every key that comes through; otherwise Alt+R starts one, and any
/// other key goes on to the composer, once pasted text that is due was put there.
pub proof fn search_takes_the_key(pre: App, key: Key, now: u128, post: App, step: KeyStep)
    requires
        starts(pre, key, now, post, step),
        comes_through(pre, key),
        !goes_to_the_tree(pre, key),
    ensures
        post == pre,
        pre.composer.history_search_active ==> ends(step, seq![KeyEffect::HistorySearchKey(key)]),
        !pre.composer.history_search_active && is_alt(key, 'r', 'R') ==> ends(
            step,
            seq![KeyEffect::StartHistorySearch],
        ),
        !pre.composer.history_search_active && !is_alt(key, 'r', 'R') ==> awaits(
            step,
            seq![KeyEffect::FlushPasteBurst { now }],
            KeyStage::BurstFlushed { key, now },
        ),
{
}

} // verus!
