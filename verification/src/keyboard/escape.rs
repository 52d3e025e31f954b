//! Esc: back to vim's normal mode, out of a selection or a menu, out of a running turn, and, pressed
//! twice, back in the conversation.

use vstd::prelude::*;

use crate::keyboard::types;
use crate::keyboard::types::{consume, handle, wait, KeyEffect, KeyStage, KeyStep, Menus};
use crate::keys::Key;
use crate::notices::Notice;
use crate::state::{App, Composer, ModalKind, Queue, Stream, VimMode};
use crate::step::{one, three, two, EscEffect, EscapeAction};

verus! {

pub open spec fn esc_bound(pre: App, key: Key, menus: Menus, post: App, step: KeyStep) -> bool {
    &&& post == pre
    &&& types::does(
        step,
        if pre.composer.vim_enabled && pre.composer.vim_mode != VimMode::Normal {
            types::handled(seq![KeyEffect::VimEnterNormal])
        } else {
            types::waits(
                seq![KeyEffect::ClearAttachmentSelection],
                KeyStage::EscAttachment { key, menus },
            )
        },
    )
}

pub open spec fn esc_attachment(
    pre: App,
    key: Key,
    menus: Menus,
    cleared: bool,
    post: App,
    step: KeyStep,
) -> bool {
    if cleared {
        post == pre && types::does(step, types::handled(seq![]))
    } else if menus.mention > 0 {
        &&& post == App {
            composer: Composer {
                mention_menu_hidden: true,
                mention_menu_selected: 0,
                ..pre.composer
            },
            ..pre
        }
        &&& types::does(step, types::consumes(key, seq![]))
    } else {
        &&& post == pre
        &&& types::does(
            step,
            types::waits(
                seq![KeyEffect::AskEscape { slash_menu_open: menus.slash > 0 }],
                KeyStage::EscAction { key },
            ),
        )
    }
}

/// The composer with no first half of a double Esc.
pub open spec fn unprimed(composer: Composer) -> Composer {
    Composer { backtrack_primed: false, ..composer }
}

pub open spec fn esc_action(
    pre: App,
    key: Key,
    action: EscapeAction,
    post: App,
    step: KeyStep,
) -> bool {
    let composer = unprimed(pre.composer);
    match action {
        EscapeAction::CloseSlashMenu => {
            &&& post == App { composer, ..pre }
            &&& types::does(
                step,
                types::consumes(key, seq![KeyEffect::ResetBacktrack, KeyEffect::CloseSlashMenu]),
            )
        },
        EscapeAction::CancelRequest => {
            &&& post == App { composer, ..pre }
            &&& types::does(
                step,
                types::waits(
                    seq![
                        KeyEffect::ResetBacktrack,
                        KeyEffect::CancelEngine,
                        KeyEffect::MarkCancelled,
                    ],
                    KeyStage::EscCancelled { key },
                ),
            )
        },
        EscapeAction::DiscardQueuedDraft => {
            &&& post == App {
                composer,
                queue: Queue { queued_draft: None, ..pre.queue },
                ..pre
            }.with_status(Notice::QueuedEditStopped)
            &&& types::does(step, types::consumes(key, seq![KeyEffect::ResetBacktrack]))
        },
        EscapeAction::ClearInput => {
            &&& post == App {
                composer: Composer { edit_in_progress: false, ..composer },
                ..pre
            }
            &&& types::does(
                step,
                types::consumes(
                    key,
                    seq![KeyEffect::ResetBacktrack, KeyEffect::ClearInputRecoverable],
                ),
            )
        },
        EscapeAction::Noop => {
            &&& post == pre
            &&& types::does(
                step,
                if pre.turn.is_loading || pre.screen.top_modal == Some(ModalKind::LiveTranscript) {
                    types::handled(seq![])
                } else {
                    types::waits(seq![KeyEffect::CountUserCells], KeyStage::EscCounted { key })
                },
            )
        },
    }
}

/// The turn was cancelled: what it had streamed so far is gone.
pub open spec fn esc_cancelled(pre: App, key: Key, post: App, step: KeyStep) -> bool {
    &&& post.stream.current_streaming_text@ == Seq::<char>::empty()
    &&& post == App {
        stream: Stream {
            current_streaming_text: post.stream.current_streaming_text,
            ..pre.stream
        },
        ..pre
    }.with_status(Notice::Cancelled)
    &&& types::does(step, types::consumes(key, seq![]))
}

pub open spec fn esc_counted(pre: App, key: Key, total: usize, post: App, step: KeyStep) -> bool {
    &&& post == pre
    &&& types::does(
        step,
        types::waits(
            seq![KeyEffect::BacktrackEsc { total }],
            KeyStage::EscBacktracked { key },
        ),
    )
}

pub open spec fn esc_backtracked(
    pre: App,
    key: Key,
    effect: EscEffect,
    post: App,
    step: KeyStep,
) -> bool {
    &&& post == match effect {
        EscEffect::Prime => pre.redrawn().with_status(Notice::BacktrackPrimed),
        EscEffect::Cancel => pre.redrawn().with_status(Notice::BacktrackCanceled),
        _ => pre,
    }
    &&& types::does(
        step,
        types::consumes(
            key,
            if effect == EscEffect::OpenOverlay {
                seq![KeyEffect::OpenBacktrackOverlay]
            } else {
                seq![]
            },
        ),
    )
}

pub fn bind_esc(app: &mut App, key: Key, menus: Menus) -> (step: KeyStep)
    ensures
        esc_bound(*old(app), key, menus, *final(app), step),
{
    if app.composer.vim_enabled && app.composer.vim_mode != VimMode::Normal {
        handle(one(KeyEffect::VimEnterNormal))
    } else {
        wait(
            one(KeyEffect::ClearAttachmentSelection),
            KeyStage::EscAttachment { key, menus },
        )
    }
}

pub fn on_esc_attachment(app: &mut App, key: Key, menus: Menus, cleared: bool) -> (step: KeyStep)
    ensures
        esc_attachment(*old(app), key, menus, cleared, *final(app), step),
{
    if cleared {
        handle(Vec::new())
    } else if menus.mention > 0 {
        app.composer.mention_menu_hidden = true;
        app.composer.mention_menu_selected = 0;
        consume(key, Vec::new())
    } else {
        wait(
            one(KeyEffect::AskEscape { slash_menu_open: menus.slash > 0 }),
            KeyStage::EscAction { key },
        )
    }
}

pub fn on_esc_action(app: &mut App, key: Key, action: EscapeAction) -> (step: KeyStep)
    ensures
        esc_action(*old(app), key, action, *final(app), step),
{
    match action {
        EscapeAction::CloseSlashMenu => {
            app.composer.backtrack_primed = false;
            consume(key, two(KeyEffect::ResetBacktrack, KeyEffect::CloseSlashMenu))
        },
        EscapeAction::CancelRequest => {
            app.composer.backtrack_primed = false;
            wait(
                three(
                    KeyEffect::ResetBacktrack,
                    KeyEffect::CancelEngine,
                    KeyEffect::MarkCancelled,
                ),
                KeyStage::EscCancelled { key },
            )
        },
        EscapeAction::DiscardQueuedDraft => {
            app.composer.backtrack_primed = false;
            app.queue.queued_draft = None;
            app.status_message = Some(Notice::QueuedEditStopped);
            consume(key, one(KeyEffect::ResetBacktrack))
        },
        EscapeAction::ClearInput => {
            app.composer.backtrack_primed = false;
            app.composer.edit_in_progress = false;
            consume(key, two(KeyEffect::ResetBacktrack, KeyEffect::ClearInputRecoverable))
        },
        EscapeAction::Noop => {
            let live = match app.screen.top_modal {
                Some(ModalKind::LiveTranscript) => true,
                _ => false,
            };
            if app.turn.is_loading || live {
                handle(Vec::new())
            } else {
                wait(one(KeyEffect::CountUserCells), KeyStage::EscCounted { key })
            }
        },
    }
}

pub fn on_esc_cancelled(app: &mut App, key: Key) -> (step: KeyStep)
    ensures
        esc_cancelled(*old(app), key, *final(app), step),
{
    app.stream.current_streaming_text = String::new();
    app.status_message = Some(Notice::Cancelled);
    consume(key, Vec::new())
}

pub fn on_esc_backtracked(app: &mut App, key: Key, effect: EscEffect) -> (step: KeyStep)
    ensures
        esc_backtracked(*old(app), key, effect, *final(app), step),
{
    match effect {
        EscEffect::Nothing => consume(key, Vec::new()),
        EscEffect::Prime => {
            app.status_message = Some(Notice::BacktrackPrimed);
            app.screen.needs_redraw = true;
            consume(key, Vec::new())
        },
        EscEffect::Cancel => {
            app.status_message = Some(Notice::BacktrackCanceled);
            app.screen.needs_redraw = true;
            consume(key, Vec::new())
        },
        EscEffect::OpenOverlay => consume(key, one(KeyEffect::OpenBacktrackOverlay)),
    }
}

} // verus!
