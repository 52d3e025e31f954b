//! How the bindings of character keys go on once the host has answered.

use std::collections::HashSet;

use vstd::prelude::*;

use crate::keyboard::chars;
use crate::keyboard::chars::bind_composer;
use crate::keyboard::types;
use crate::keyboard::types::{
    consume, handle, ignore, leave, wait, KeyEffect, KeyStage, KeyStep, Menus,
};
use crate::keys::{Key, KeyCode};
use crate::notices::{Notice, SidebarFocus, Toast};
use crate::state::{App, Composer, Screen, Stream};
use crate::step::{one, two, CtrlCDisposition, EditorOutcome};
use crate::text;
use crate::text::is_blank;

verus! {

// A pager was looked for: where there was none to open, the character goes on to the composer.

/// The character goes on to the composer.
pub open spec fn passed_on(pre: App, key: Key, menus: Menus, post: App, step: KeyStep) -> bool {
    &&& post == pre
    &&& types::does(
        step,
        match key.code {
            KeyCode::Char(c) => chars::composer_plan(pre, key, menus, c),
            _ => types::ignores(key),
        },
    )
}

pub open spec fn paged(
    pre: App,
    key: Key,
    menus: Menus,
    opened: bool,
    post: App,
    step: KeyStep,
) -> bool {
    if opened {
        post == pre && types::does(step, types::handled(seq![]))
    } else {
        passed_on(pre, key, menus, post, step)
    }
}

fn pass_on(app: &mut App, key: Key, menus: Menus) -> (step: KeyStep)
    ensures
        passed_on(*old(app), key, menus, *final(app), step),
{
    match key.code {
        KeyCode::Char(c) => bind_composer(app, key, menus, c),
        _ => ignore(key),
    }
}

pub fn on_paged(app: &mut App, key: Key, menus: Menus, opened: bool) -> (step: KeyStep)
    ensures
        paged(*old(app), key, menus, opened, *final(app), step),
{
    if opened {
        handle(Vec::new())
    } else {
        pass_on(app, key, menus)
    }
}

// A tool cell to jump to was looked for: where there was none the status line says so, and after a
// jump the character goes on to the composer too.

pub open spec fn jumped(
    pre: App,
    key: Key,
    menus: Menus,
    forward: bool,
    found: bool,
    post: App,
    step: KeyStep,
) -> bool {
    if found {
        passed_on(pre, key, menus, post, step)
    } else {
        &&& post == pre.with_status(
            if forward {
                Notice::NoNextTool
            } else {
                Notice::NoPreviousTool
            },
        )
        &&& types::does(step, types::consumes(key, seq![]))
    }
}

pub fn on_jumped(app: &mut App, key: Key, menus: Menus, forward: bool, found: bool) -> (step:
    KeyStep)
    ensures
        jumped(*old(app), key, menus, forward, found, *final(app), step),
{
    if found {
        pass_on(app, key, menus)
    } else {
        app.status_message = Some(
            if forward {
                Notice::NoNextTool
            } else {
                Notice::NoPreviousTool
            },
        );
        consume(key, Vec::new())
    }
}

// Space folds the focused cell, or unfolds it where it is folded. Thinking and other cells are kept
// apart.

/// The set with `index` in it, or without it where it was in it.
pub open spec fn toggled(set: Set<usize>, index: usize) -> Set<usize> {
    if set.contains(index) {
        set.remove(index)
    } else {
        set.insert(index)
    }
}

/// What the status line says after the cell was folded or unfolded.
pub open spec fn fold_notice(screen: Screen, index: usize, thinking: bool) -> Notice {
    if thinking {
        if screen.folded_thinking@.contains(index) {
            Notice::ThinkingExpanded
        } else {
            Notice::ThinkingFolded
        }
    } else if screen.collapsed_cells@.contains(index) {
        Notice::CellExpanded
    } else {
        Notice::CellCollapsed
    }
}

pub open spec fn fold_cell(
    pre: App,
    cell: Option<(usize, bool)>,
    post: App,
    step: KeyStep,
) -> bool {
    match cell {
        None => post == pre && types::does(step, types::handled(seq![])),
        Some((index, thinking)) => {
            &&& post.screen.folded_thinking@ == if thinking {
                toggled(pre.screen.folded_thinking@, index)
            } else {
                pre.screen.folded_thinking@
            }
            &&& post.screen.collapsed_cells@ == if thinking {
                pre.screen.collapsed_cells@
            } else {
                toggled(pre.screen.collapsed_cells@, index)
            }
            &&& post == App {
                screen: Screen {
                    folded_thinking: post.screen.folded_thinking,
                    collapsed_cells: post.screen.collapsed_cells,
                    ..pre.screen
                },
                ..pre
            }.with_status(fold_notice(pre.screen, index, thinking))
            &&& types::does(
                step,
                types::waits(seq![KeyEffect::MarkHistoryUpdated], KeyStage::FoldMarked),
            )
        },
    }
}

pub open spec fn fold_marked(pre: App, post: App, step: KeyStep) -> bool {
    &&& post == pre.redrawn()
    &&& types::does(step, types::handled(seq![]))
}

/// Takes `index` out of the set, or puts it in; tells whether it was in.
pub fn toggle(set: &mut HashSet<usize>, index: usize) -> (was_in: bool)
    ensures
        was_in == old(set)@.contains(index),
        final(set)@ == toggled(old(set)@, index),
{
    broadcast use vstd::std_specs::hash::group_hash_axioms;

    if set.contains(&index) {
        set.remove(&index);
        true
    } else {
        set.insert(index);
        false
    }
}

pub fn on_fold_cell(app: &mut App, cell: Option<(usize, bool)>) -> (step: KeyStep)
    ensures
        fold_cell(*old(app), cell, *final(app), step),
{
    match cell {
        None => handle(Vec::new()),
        Some((index, thinking)) => {
            if thinking {
                let folded = toggle(&mut app.screen.folded_thinking, index);
                app.status_message = Some(
                    if folded {
                        Notice::ThinkingExpanded
                    } else {
                        Notice::ThinkingFolded
                    },
                );
            } else {
                let collapsed = toggle(&mut app.screen.collapsed_cells, index);
                app.status_message = Some(
                    if collapsed {
                        Notice::CellExpanded
                    } else {
                        Notice::CellCollapsed
                    },
                );
            }
            wait(one(KeyEffect::MarkHistoryUpdated), KeyStage::FoldMarked)
        },
    }
}

pub fn on_fold_marked(app: &mut App) -> (step: KeyStep)
    ensures
        fold_marked(*old(app), *final(app), step),
{
    app.screen.needs_redraw = true;
    handle(Vec::new())
}

// The sidebar has turned to another pane.

pub open spec fn focused(pre: App, focus: SidebarFocus, post: App, step: KeyStep) -> bool {
    &&& post == pre.with_status(Notice::Focus(focus))
    &&& types::does(step, types::handled(seq![]))
}

pub fn on_focused(app: &mut App, focus: SidebarFocus) -> (step: KeyStep)
    ensures
        focused(*old(app), focus, *final(app), step),
{
    app.status_message = Some(Notice::Focus(focus));
    handle(Vec::new())
}

// Ctrl+C copies a selection, or cancels the running turn, or leaves the program, or asks whether to
// leave it.

pub open spec fn ctrl_c_asked(
    pre: App,
    key: Key,
    disposition: CtrlCDisposition,
    post: App,
    step: KeyStep,
) -> bool {
    &&& post == pre
    &&& types::does(
        step,
        match disposition {
            CtrlCDisposition::CopySelection => types::consumes(
                key,
                seq![KeyEffect::CopySelection, KeyEffect::ClearSelection],
            ),
            CtrlCDisposition::CancelTurn => types::waits(
                seq![KeyEffect::CancelEngine, KeyEffect::MarkCancelled],
                KeyStage::CtrlCCancelled { key },
            ),
            CtrlCDisposition::ConfirmExit => types::leaves(seq![KeyEffect::ShutdownEngine]),
            CtrlCDisposition::ArmExit => types::consumes(key, seq![KeyEffect::ArmQuit]),
        },
    )
}

/// The turn was cancelled: what it had streamed so far is gone.
pub open spec fn ctrl_c_cancelled(pre: App, key: Key, post: App, step: KeyStep) -> bool {
    &&& post.stream.current_streaming_text@ == Seq::<char>::empty()
    &&& post == App {
        stream: Stream {
            current_streaming_text: post.stream.current_streaming_text,
            ..pre.stream
        },
        ..pre
    }
    &&& types::does(
        step,
        types::waits(seq![KeyEffect::RestorePrompt], KeyStage::CtrlCRestored { key }),
    )
}

pub open spec fn ctrl_c_restored(
    pre: App,
    key: Key,
    restored: bool,
    post: App,
    step: KeyStep,
) -> bool {
    &&& post == pre.with_status(
        if restored {
            Notice::CancelledRestored
        } else {
            Notice::Cancelled
        },
    )
    &&& types::does(step, types::consumes(key, seq![KeyEffect::DisarmQuit]))
}

pub fn on_ctrl_c_asked(app: &mut App, key: Key, disposition: CtrlCDisposition) -> (step: KeyStep)
    ensures
        ctrl_c_asked(*old(app), key, disposition, *final(app), step),
{
    match disposition {
        CtrlCDisposition::CopySelection => consume(
            key,
            two(KeyEffect::CopySelection, KeyEffect::ClearSelection),
        ),
        CtrlCDisposition::CancelTurn => wait(
            two(KeyEffect::CancelEngine, KeyEffect::MarkCancelled),
            KeyStage::CtrlCCancelled { key },
        ),
        CtrlCDisposition::ConfirmExit => leave(one(KeyEffect::ShutdownEngine)),
        CtrlCDisposition::ArmExit => consume(key, one(KeyEffect::ArmQuit)),
    }
}

pub fn on_ctrl_c_cancelled(app: &mut App, key: Key) -> (step: KeyStep)
    ensures
        ctrl_c_cancelled(*old(app), key, *final(app), step),
{
    app.stream.current_streaming_text = String::new();
    wait(one(KeyEffect::RestorePrompt), KeyStage::CtrlCRestored { key })
}

pub fn on_ctrl_c_restored(app: &mut App, key: Key, restored: bool) -> (step: KeyStep)
    ensures
        ctrl_c_restored(*old(app), key, restored, *final(app), step),
{
    app.status_message = Some(
        if restored {
            Notice::CancelledRestored
        } else {
            Notice::Cancelled
        },
    );
    consume(key, one(KeyEffect::DisarmQuit))
}

// The composer's text comes back from an external editor.

/// The name of the editor: the first of the two variables that is not blank, or `vi`.
pub open spec fn editor_name(visual: Option<String>, editor: Option<String>) -> Seq<char> {
    match (visual, editor) {
        (Some(name), _) if !text::blank(name@) => name@,
        (_, Some(name)) if !text::blank(name@) => name@,
        _ => "vi"@,
    }
}

pub open spec fn edited(
    pre: App,
    key: Key,
    outcome: EditorOutcome,
    post: App,
    step: KeyStep,
) -> bool {
    match outcome {
        EditorOutcome::Edited(input) => {
            &&& post == App { composer: Composer { input, ..pre.composer }, ..pre }
            &&& types::does(
                step,
                types::waits(
                    seq![KeyEffect::MoveEnd, KeyEffect::ReadEditorVariables],
                    KeyStage::EditorNamed { key },
                ),
            )
        },
        EditorOutcome::Unchanged => editor_closed(
            pre,
            key,
            Notice::EditorUnchanged,
            post,
            step,
        ),
        EditorOutcome::Cancelled => editor_closed(
            pre,
            key,
            Notice::EditorCancelled,
            post,
            step,
        ),
        EditorOutcome::Failed(error) => editor_closed(
            pre,
            key,
            Notice::EditorError(error),
            post,
            step,
        ),
    }
}

pub open spec fn editor_closed(
    pre: App,
    key: Key,
    notice: Notice,
    post: App,
    step: KeyStep,
) -> bool {
    &&& post == pre.redrawn().with_status(notice)
    &&& types::does(step, types::consumes(key, seq![]))
}

pub open spec fn editor_named(
    pre: App,
    key: Key,
    visual: Option<String>,
    editor: Option<String>,
    post: App,
    step: KeyStep,
) -> bool {
    &&& post.status_message matches Some(Notice::EditedIn(name)) && name@ == editor_name(
        visual,
        editor,
    ) && editor_closed(pre, key, Notice::EditedIn(name), post, step)
}

fn close_editor(app: &mut App, key: Key, notice: Notice) -> (step: KeyStep)
    ensures
        editor_closed(*old(app), key, notice, *final(app), step),
{
    app.status_message = Some(notice);
    app.screen.needs_redraw = true;
    consume(key, Vec::new())
}

pub fn on_edited(app: &mut App, key: Key, outcome: EditorOutcome) -> (step: KeyStep)
    ensures
        edited(*old(app), key, outcome, *final(app), step),
{
    match outcome {
        EditorOutcome::Edited(input) => {
            app.composer.input = input;
            wait(
                two(KeyEffect::MoveEnd, KeyEffect::ReadEditorVariables),
                KeyStage::EditorNamed { key },
            )
        },
        EditorOutcome::Unchanged => close_editor(app, key, Notice::EditorUnchanged),
        EditorOutcome::Cancelled => close_editor(app, key, Notice::EditorCancelled),
        EditorOutcome::Failed(error) => close_editor(app, key, Notice::EditorError(error)),
    }
}

/// The name of the editor: the first of the two variables that is not blank, or `vi`.
pub fn pick_editor(visual: Option<String>, editor: Option<String>) -> (name: String)
    ensures
        name@ == editor_name(visual, editor),
{
    if let Some(name) = visual {
        if !is_blank(name.as_str()) {
            return name;
        }
    }
    if let Some(name) = editor {
        if !is_blank(name.as_str()) {
            return name;
        }
    }
    "vi".to_owned()
}

pub fn on_editor_named(
    app: &mut App,
    key: Key,
    visual: Option<String>,
    editor: Option<String>,
) -> (step: KeyStep)
    ensures
        editor_named(*old(app), key, visual, editor, *final(app), step),
{
    let name: String = pick_editor(visual, editor);
    close_editor(app, key, Notice::EditedIn(name))
}

// Something was copied out of the transcript, or there was nothing to copy.

pub open spec fn cell_copied(pre: App, key: Key, copied: bool, post: App, step: KeyStep) -> bool {
    if copied {
        post == pre && types::does(
            step,
            types::consumes(key, seq![KeyEffect::ShowToast(Toast::Copied)]),
        )
    } else {
        &&& post == pre.with_status(Notice::NoCellToCopy)
        &&& types::does(step, types::consumes(key, seq![]))
    }
}

pub open spec fn thinking_copied(
    pre: App,
    key: Key,
    copied: bool,
    post: App,
    step: KeyStep,
) -> bool {
    &&& post == pre
    &&& types::does(
        step,
        types::consumes(
            key,
            if copied {
                seq![KeyEffect::ShowToast(Toast::ThinkingCopied)]
            } else {
                seq![]
            },
        ),
    )
}

pub fn on_cell_copied(app: &mut App, key: Key, copied: bool) -> (step: KeyStep)
    ensures
        cell_copied(*old(app), key, copied, *final(app), step),
{
    if copied {
        consume(key, one(KeyEffect::ShowToast(Toast::Copied)))
    } else {
        app.status_message = Some(Notice::NoCellToCopy);
        consume(key, Vec::new())
    }
}

pub fn on_thinking_copied(app: &mut App, key: Key, copied: bool) -> (step: KeyStep)
    ensures
        thinking_copied(*old(app), key, copied, *final(app), step),
{
    if copied {
        consume(key, one(KeyEffect::ShowToast(Toast::ThinkingCopied)))
    } else {
        consume(key, Vec::new())
    }
}

} // verus!
