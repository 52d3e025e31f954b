//! What a key does before the bindings are looked up: global shortcuts, modal views, the file tree,
//! the history search, pasted text and the menus over the composer.

use vstd::prelude::*;

use crate::keyboard::bindings;
use crate::keyboard::types;
use crate::keyboard::types::{
    handle, is_burst_key, leave, wait, KeyEffect, KeyStage, KeyStep, Menus,
};
use crate::keys::{Key, KeyCode, ALT, CONTROL, SUPER};
use crate::notices::{Notice, SidebarFocus};
use crate::state::{App, Composer, ModalKind, Screen, TaskEntry};
use crate::step::{one, two};
use crate::text::{has_prefix, join3, same};

verus! {

/// F1 or Ctrl+/.
pub open spec fn help_key(key: Key) -> bool {
    ||| key.code == KeyCode::F(1)
    ||| ctrl_letter(key, '/')
}

/// One of the two letters with Alt, and with neither Control nor Super.
pub open spec fn alt_letter(key: Key, lower: char, upper: char) -> bool {
    &&& key.code == KeyCode::Char(lower) || key.code == KeyCode::Char(upper)
    &&& key.modifiers.has(ALT)
    &&& !key.modifiers.has(CONTROL)
    &&& !key.modifiers.has(SUPER)
}

/// The character with Control.
pub open spec fn ctrl_letter(key: Key, c: char) -> bool {
    key.code == KeyCode::Char(c) && key.ctrl()
}

/// Whether the task is a shell job that runs.
pub open spec fn running_job(task: TaskEntry) -> bool {
    "shell_"@.is_prefix_of(task.id@) && task.status@ == "running"@
}

/// Whether the sidebar shows tasks of which a shell job runs.
pub open spec fn jobs_in_focus(screen: Screen) -> bool {
    &&& screen.sidebar_focus == SidebarFocus::Tasks
    &&& exists|i: int| #![trigger screen.task_panel@[i]]
        0 <= i < screen.task_panel@.len() && running_job(screen.task_panel@[i])
}

/// Whether the file tree takes the key.
pub open spec fn tree_key(key: Key) -> bool {
    ||| key.code == KeyCode::Up
    ||| key.code == KeyCode::Down
    ||| key.code == KeyCode::Enter
    ||| key.code == KeyCode::Esc
}

/// Whether the key takes back the first half of a double Esc: every key but Esc does.
pub open spec fn unprimes(app: App, key: Key) -> bool {
    key.code != KeyCode::Esc && app.composer.backtrack_primed
}

/// The first step of a key. A first half of a double Esc is taken back before anything else.
pub open spec fn key_begun(pre: App, key: Key, now: u128, post: App, step: KeyStep) -> bool {
    if unprimes(pre, key) {
        &&& post == App {
            composer: Composer { backtrack_primed: false, ..pre.composer },
            ..pre
        }
        &&& types::does(
            step,
            types::waits(seq![KeyEffect::ResetBacktrack], KeyStage::Unprimed { key, now }),
        )
    } else {
        key_started(pre, key, now, post, step)
    }
}

/// What a key does first, with no first half of a double Esc to take back.
pub open spec fn key_started(pre: App, key: Key, now: u128, post: App, step: KeyStep) -> bool {
    let on_top = pre.screen.top_modal;
    if help_key(key) {
        &&& post == pre
        &&& types::does(
            step,
            types::handled(
                if on_top == Some(ModalKind::Help) {
                    seq![KeyEffect::PopView]
                } else {
                    seq![KeyEffect::PushHelp]
                },
            ),
        )
    } else if ctrl_letter(key, 'k') {
        kill_key(pre, post, step)
    } else if key.traits.file_tree_toggle {
        tree_toggled(pre, post, step)
    } else if ctrl_letter(key, 'p') && on_top is None && !pre.turn.is_loading {
        post == pre && types::does(step, types::handled(seq![KeyEffect::OpenFilePicker]))
    } else if (ctrl_letter(key, 'b') || ctrl_letter(key, 'B')) && on_top is None {
        post == pre && types::does(step, types::handled(seq![KeyEffect::OpenShellControl]))
    } else if alt_letter(key, 'c', 'C') && on_top is None {
        post == pre && types::does(step, types::handled(seq![KeyEffect::OpenContextInspector]))
    } else if on_top is Some {
        &&& post == pre.redrawn()
        &&& types::does(
            step,
            types::waits(
                seq![KeyEffect::ModalKey(key), KeyEffect::HandleViewEvents],
                KeyStage::ViewEvents,
            ),
        )
    } else if pre.screen.file_tree_open && tree_key(key) {
        tree_used(pre, key, post, step)
    } else if pre.composer.history_search_active {
        post == pre && types::does(step, types::handled(seq![KeyEffect::HistorySearchKey(key)]))
    } else if alt_letter(key, 'r', 'R') {
        post == pre && types::does(step, types::handled(seq![KeyEffect::StartHistorySearch]))
    } else {
        &&& post == pre
        &&& types::does(
            step,
            types::waits(
                seq![KeyEffect::FlushPasteBurst { now }],
                KeyStage::BurstFlushed { key, now },
            ),
        )
    }
}

/// Ctrl+K: where the sidebar shows running shell jobs, the command that kills them is put up for
/// confirmation; else the line is killed from the cursor on; where nothing is left to kill, or a
/// view is open, the command palette opens.
pub open spec fn kill_key(pre: App, post: App, step: KeyStep) -> bool {
    if pre.screen.top_modal is None && jobs_in_focus(pre.screen) {
        &&& post.composer.input@ == "/jobs cancel-all"@
        &&& post == App {
            composer: Composer {
                input: post.composer.input,
                cursor_position: 16,
                ..pre.composer
            },
            ..pre
        }.with_status(Notice::KillJobs)
        &&& types::does(step, types::handled(seq![]))
    } else if pre.screen.top_modal is None {
        post == pre && types::does(
            step,
            types::waits(seq![KeyEffect::KillToEndOfLine], KeyStage::Killed),
        )
    } else {
        post == pre && types::does(step, types::handled(seq![KeyEffect::PushCommandPalette]))
    }
}

/// The file tree is shown, or hidden where it was shown.
pub open spec fn tree_toggled(pre: App, post: App, step: KeyStep) -> bool {
    let open = !pre.screen.file_tree_open;
    &&& post == App {
        screen: Screen { file_tree_open: open, needs_redraw: true, ..pre.screen },
        status_message: Some(
            if open {
                Notice::FileTreeHelp
            } else {
                Notice::FileTreeClosed
            },
        ),
        ..pre
    }
    &&& types::does(
        step,
        types::handled(
            if open {
                seq![KeyEffect::BuildFileTree]
            } else {
                seq![KeyEffect::DropFileTree]
            },
        ),
    )
}

/// A key in the open file tree.
pub open spec fn tree_used(pre: App, key: Key, post: App, step: KeyStep) -> bool {
    if key.code == KeyCode::Up {
        post == pre.redrawn() && types::does(step, types::handled(seq![KeyEffect::TreeUp]))
    } else if key.code == KeyCode::Down {
        post == pre.redrawn() && types::does(step, types::handled(seq![KeyEffect::TreeDown]))
    } else if key.code == KeyCode::Enter {
        post == pre && types::does(
            step,
            types::waits(seq![KeyEffect::TreeActivate], KeyStage::TreeActivated),
        )
    } else {
        tree_toggled(pre, post, step)
    }
}

/// The file that was picked in the tree is mentioned in the composer.
pub open spec fn tree_activated(pre: App, path: Option<String>, post: App, step: KeyStep) -> bool {
    match path {
        Some(path) => {
            &&& post == pre.with_status(Notice::Attached(path))
            &&& step.effects@.len() == 1
            &&& step.effects@[0] matches KeyEffect::InsertText(text) && text@ == "@"@ + path@ + " "@
            &&& types::does(step, types::handled(step.effects@))
        },
        None => post == pre.redrawn() && types::does(step, types::handled(seq![])),
    }
}

/// Where nothing was left to kill the command palette opens.
pub open spec fn killed(pre: App, killed: bool, post: App, step: KeyStep) -> bool {
    &&& post == pre
    &&& types::does(
        step,
        types::handled(
            if killed {
                seq![]
            } else {
                seq![KeyEffect::PushCommandPalette]
            },
        ),
    )
}

/// A view has handled the key.
pub open spec fn view_events(pre: App, quit: bool, post: App, step: KeyStep) -> bool {
    &&& post == pre
    &&& types::does(
        step,
        if quit {
            types::leaves(seq![])
        } else {
            types::handled(seq![])
        },
    )
}

/// Whether a shell job among `tasks` runs.
fn job_runs(tasks: &Vec<TaskEntry>) -> (b: bool)
    ensures
        b == exists|i: int| #![trigger tasks@[i]]
            0 <= i < tasks@.len() && running_job(tasks@[i]),
{
    let mut i: usize = 0;
    while i < tasks.len()
        invariant
            i <= tasks@.len(),
            forall|j: int| #![trigger tasks@[j]] 0 <= j < i ==> !running_job(tasks@[j]),
        decreases tasks@.len() - i,
    {
        if has_prefix(tasks[i].id.as_str(), "shell_") && same(tasks[i].status.as_str(), "running") {
            assert(running_job(tasks@[i as int]));
            return true;
        }
        i = i + 1;
    }
    false
}

pub fn on_kill_key(app: &mut App) -> (step: KeyStep)
    ensures
        kill_key(*old(app), *final(app), step),
{
    let free = app.screen.top_modal.is_none();
    if free && app.screen.sidebar_focus == SidebarFocus::Tasks && job_runs(
        &app.screen.task_panel,
    ) {
        app.composer.input = "/jobs cancel-all".to_owned();
        app.composer.cursor_position = 16;
        app.status_message = Some(Notice::KillJobs);
        handle(Vec::new())
    } else if free {
        wait(one(KeyEffect::KillToEndOfLine), KeyStage::Killed)
    } else {
        handle(one(KeyEffect::PushCommandPalette))
    }
}

pub fn on_killed(app: &mut App, killed_any: bool) -> (step: KeyStep)
    ensures
        killed(*old(app), killed_any, *final(app), step),
{
    if killed_any {
        handle(Vec::new())
    } else {
        handle(one(KeyEffect::PushCommandPalette))
    }
}

pub fn on_view_events(app: &mut App, quit: bool) -> (step: KeyStep)
    ensures
        view_events(*old(app), quit, *final(app), step),
{
    if quit {
        leave(Vec::new())
    } else {
        handle(Vec::new())
    }
}

pub fn on_tree_toggled(app: &mut App) -> (step: KeyStep)
    ensures
        tree_toggled(*old(app), *final(app), step),
{
    app.screen.needs_redraw = true;
    if app.screen.file_tree_open {
        app.screen.file_tree_open = false;
        app.status_message = Some(Notice::FileTreeClosed);
        handle(one(KeyEffect::DropFileTree))
    } else {
        app.screen.file_tree_open = true;
        app.status_message = Some(Notice::FileTreeHelp);
        handle(one(KeyEffect::BuildFileTree))
    }
}

pub fn on_tree_used(app: &mut App, key: Key) -> (step: KeyStep)
    ensures
        tree_used(*old(app), key, *final(app), step),
{
    match key.code {
        KeyCode::Up => {
            app.screen.needs_redraw = true;
            handle(one(KeyEffect::TreeUp))
        },
        KeyCode::Down => {
            app.screen.needs_redraw = true;
            handle(one(KeyEffect::TreeDown))
        },
        KeyCode::Enter => wait(one(KeyEffect::TreeActivate), KeyStage::TreeActivated),
        _ => on_tree_toggled(app),
    }
}

pub fn on_tree_activated(app: &mut App, path: Option<String>) -> (step: KeyStep)
    ensures
        tree_activated(*old(app), path, *final(app), step),
{
    match path {
        Some(path) => {
            let text: String = join3("@", path.as_str(), " ");
            app.status_message = Some(Notice::Attached(path));
            handle(one(KeyEffect::InsertText(text)))
        },
        None => {
            app.screen.needs_redraw = true;
            handle(Vec::new())
        },
    }
}

/// Whether the key is one of the two letters with Alt, and with neither Control nor Super.
fn is_alt_letter(key: Key, lower: char, upper: char) -> (b: bool)
    ensures
        b == alt_letter(key, lower, upper),
{
    (key.is_char(lower) || key.is_char(upper)) && key.modifiers.contains(ALT)
        && !key.modifiers.contains(CONTROL) && !key.modifiers.contains(SUPER)
}

/// Whether the key is the character with Control.
fn is_ctrl_letter(key: Key, c: char) -> (b: bool)
    ensures
        b == ctrl_letter(key, c),
{
    key.is_char(c) && key.has_ctrl()
}

/// Begins to handle a key.
pub fn begin_key(app: &mut App, key: Key, now: u128) -> (step: KeyStep)
    ensures
        key_begun(*old(app), key, now, *final(app), step),
{
    if key.code != KeyCode::Esc && app.composer.backtrack_primed {
        app.composer.backtrack_primed = false;
        wait(one(KeyEffect::ResetBacktrack), KeyStage::Unprimed { key, now })
    } else {
        start_key(app, key, now)
    }
}

/// Handles a key with no first half of a double Esc to take back.
pub fn start_key(app: &mut App, key: Key, now: u128) -> (step: KeyStep)
    ensures
        key_started(*old(app), key, now, *final(app), step),
{
    let free = app.screen.top_modal.is_none();
    if key.code == KeyCode::F(1) || is_ctrl_letter(key, '/') {
        let shown = match app.screen.top_modal {
            Some(ModalKind::Help) => true,
            _ => false,
        };
        if shown {
            handle(one(KeyEffect::PopView))
        } else {
            handle(one(KeyEffect::PushHelp))
        }
    } else if is_ctrl_letter(key, 'k') {
        on_kill_key(app)
    } else if key.traits.file_tree_toggle {
        on_tree_toggled(app)
    } else if is_ctrl_letter(key, 'p') && free && !app.turn.is_loading {
        handle(one(KeyEffect::OpenFilePicker))
    } else if (is_ctrl_letter(key, 'b') || is_ctrl_letter(key, 'B')) && free {
        handle(one(KeyEffect::OpenShellControl))
    } else if is_alt_letter(key, 'c', 'C') && free {
        handle(one(KeyEffect::OpenContextInspector))
    } else if !free {
        app.screen.needs_redraw = true;
        wait(two(KeyEffect::ModalKey(key), KeyEffect::HandleViewEvents), KeyStage::ViewEvents)
    } else if app.screen.file_tree_open && (key.code == KeyCode::Up || key.code == KeyCode::Down
        || key.code == KeyCode::Enter || key.code == KeyCode::Esc) {
        on_tree_used(app, key)
    } else if app.composer.history_search_active {
        handle(one(KeyEffect::HistorySearchKey(key)))
    } else if is_alt_letter(key, 'r', 'R') {
        handle(one(KeyEffect::StartHistorySearch))
    } else {
        wait(one(KeyEffect::FlushPasteBurst { now }), KeyStage::BurstFlushed { key, now })
    }
}

// Pasted text that comes in as single keys is held back until it is clear that it is no typing; a
// key that cannot be part of it ends it.

pub open spec fn burst_flushed(pre: App, key: Key, now: u128, post: App, step: KeyStep) -> bool {
    &&& post == pre
    &&& types::does(
        step,
        if key.traits.option_v {
            types::handled(seq![KeyEffect::OpenToolDetails])
        } else if types::burst_key(key) {
            types::waits(seq![KeyEffect::BurstKey { key, now }], KeyStage::BurstKeyed { key })
        } else {
            types::waits(seq![KeyEffect::FlushBeforeModified], KeyStage::PendingFlushed { key })
        },
    )
}

pub open spec fn pending_flushed(
    pre: App,
    key: Key,
    pending: Option<String>,
    post: App,
    step: KeyStep,
) -> bool {
    &&& post == pre
    &&& types::does(
        step,
        types::waits(
            match pending {
                Some(text) => seq![KeyEffect::InsertText(text), KeyEffect::CountSlashMenu],
                None => seq![KeyEffect::CountSlashMenu],
            },
            KeyStage::SlashCounted { key },
        ),
    )
}

pub open spec fn burst_keyed(pre: App, key: Key, taken: bool, post: App, step: KeyStep) -> bool {
    &&& post == pre
    &&& types::does(
        step,
        if taken {
            types::handled(seq![])
        } else {
            types::waits(seq![KeyEffect::CountSlashMenu], KeyStage::SlashCounted { key })
        },
    )
}

// The selection of an open menu is kept within its entries.

/// The selected entry of a menu with `entries` entries: the last one where it would lie beyond.
pub open spec fn clamped(selected: usize, entries: usize) -> usize {
    if entries > 0 && selected >= entries {
        (entries - 1) as usize
    } else {
        selected
    }
}

pub open spec fn slash_counted(pre: App, key: Key, entries: usize, post: App, step: KeyStep) -> bool {
    &&& post == App {
        composer: Composer {
            slash_menu_selected: clamped(pre.composer.slash_menu_selected, entries),
            ..pre.composer
        },
        ..pre
    }
    &&& types::does(
        step,
        types::waits(
            seq![KeyEffect::CountMentionMenu],
            KeyStage::MentionCounted { key, slash: entries },
        ),
    )
}

pub open spec fn mention_counted(
    pre: App,
    key: Key,
    menus: Menus,
    post: App,
    step: KeyStep,
) -> bool {
    let composer = Composer {
        mention_menu_selected: clamped(pre.composer.mention_menu_selected, menus.mention),
        ..pre.composer
    };
    bindings::key_bound(App { composer, ..pre }, key, menus, post, step)
}

pub fn on_burst_flushed(app: &mut App, key: Key, now: u128) -> (step: KeyStep)
    ensures
        burst_flushed(*old(app), key, now, *final(app), step),
{
    if key.traits.option_v {
        handle(one(KeyEffect::OpenToolDetails))
    } else if is_burst_key(key) {
        wait(one(KeyEffect::BurstKey { key, now }), KeyStage::BurstKeyed { key })
    } else {
        wait(one(KeyEffect::FlushBeforeModified), KeyStage::PendingFlushed { key })
    }
}

pub fn on_pending_flushed(app: &mut App, key: Key, pending: Option<String>) -> (step: KeyStep)
    ensures
        pending_flushed(*old(app), key, pending, *final(app), step),
{
    match pending {
        Some(text) => wait(
            two(KeyEffect::InsertText(text), KeyEffect::CountSlashMenu),
            KeyStage::SlashCounted { key },
        ),
        None => wait(one(KeyEffect::CountSlashMenu), KeyStage::SlashCounted { key }),
    }
}

pub fn on_burst_keyed(app: &mut App, key: Key, taken: bool) -> (step: KeyStep)
    ensures
        burst_keyed(*old(app), key, taken, *final(app), step),
{
    if taken {
        handle(Vec::new())
    } else {
        wait(one(KeyEffect::CountSlashMenu), KeyStage::SlashCounted { key })
    }
}

/// The selected entry of a menu, kept within its entries.
fn clamp_selection(selected: usize, entries: usize) -> (n: usize)
    ensures
        n == clamped(selected, entries),
{
    if entries > 0 && selected >= entries {
        entries - 1
    } else {
        selected
    }
}

pub fn on_slash_counted(app: &mut App, key: Key, entries: usize) -> (step: KeyStep)
    ensures
        slash_counted(*old(app), key, entries, *final(app), step),
{
    app.composer.slash_menu_selected = clamp_selection(app.composer.slash_menu_selected, entries);
    wait(
        one(KeyEffect::CountMentionMenu),
        KeyStage::MentionCounted { key, slash: entries },
    )
}

pub fn on_mention_counted(app: &mut App, key: Key, menus: Menus) -> (step: KeyStep)
    ensures
        mention_counted(*old(app), key, menus, *final(app), step),
{
    app.composer.mention_menu_selected = clamp_selection(
        app.composer.mention_menu_selected,
        menus.mention,
    );
    bindings::bind_key(app, key, menus)
}

} // verus!
