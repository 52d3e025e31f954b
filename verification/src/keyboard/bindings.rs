//! The bindings of the keys that type no character.

use vstd::prelude::*;

use crate::keyboard::chars;
use crate::keyboard::enter;
use crate::keyboard::escape;
use crate::keyboard::types;
use crate::keyboard::types::{
    consume, handle, ignore, wait, Erasure, KeyEffect, KeyNext, KeyStage, KeyStep, Menus,
};
use crate::keys;
use crate::keys::{Key, KeyCode, ALT, CONTROL, SHIFT, SUPER};
use crate::state::{App, Composer};
use crate::step::one;
use crate::text::same;

verus! {

/// What a key is bound to.
pub open spec fn key_bound(pre: App, key: Key, menus: Menus, post: App, step: KeyStep) -> bool {
    match key.code {
        KeyCode::Enter => enter::enter_bound(pre, key, menus, post, step),
        KeyCode::Esc => escape::esc_bound(pre, key, menus, post, step),
        KeyCode::Up => up_bound(pre, key, menus, post, step),
        KeyCode::Down => down_bound(pre, key, menus, post, step),
        KeyCode::Tab => tab_bound(pre, key, menus, post, step),
        KeyCode::Char(c) => post == pre && types::does(
            step,
            chars::char_plan(pre, key, menus, c),
        ),
        code => post == pre && types::does(step, plain_plan(pre, key, code)),
    }
}

/// Does what a key is bound to.
pub fn bind_key(app: &mut App, key: Key, menus: Menus) -> (step: KeyStep)
    ensures
        key_bound(*old(app), key, menus, *final(app), step),
{
    match key.code {
        KeyCode::Enter => enter::bind_enter(app, key, menus),
        KeyCode::Esc => escape::bind_esc(app, key, menus),
        KeyCode::Up => bind_up(app, key, menus),
        KeyCode::Down => bind_down(app, key, menus),
        KeyCode::Tab => bind_tab(app, key, menus),
        KeyCode::Char(c) => chars::bind_char(app, key, menus, c),
        code => bind_plain(app, key, code),
    }
}

// Keys that move the cursor or the transcript, or take text away. A key that puts a line break into
// the composer does so wherever nothing else came first.

/// How many lines a step of the transcript with Super takes.
pub open spec fn screenful(app: App, least: usize) -> usize {
    if app.screen.last_transcript_visible > least {
        app.screen.last_transcript_visible
    } else {
        least
    }
}

/// What Backspace takes away.
pub open spec fn backspace_erasure(key: Key) -> Erasure {
    if key.modifiers.has(SUPER) {
        Erasure::ToLineStart
    } else if key.modifiers.has(ALT) || key.modifiers.has(CONTROL) {
        Erasure::WordBackward
    } else {
        Erasure::CharBackward
    }
}

/// What Delete takes away.
pub open spec fn delete_erasure(key: Key) -> Erasure {
    if key.modifiers.has(ALT) || key.modifiers.has(CONTROL) {
        Erasure::WordForward
    } else {
        Erasure::CharForward
    }
}

/// A selected attachment is taken away before any text is.
pub open spec fn erases(key: Key, erasure: Erasure) -> (Seq<KeyEffect>, KeyNext) {
    types::waits(seq![KeyEffect::RemoveAttachment], KeyStage::Erasing { key, erasure })
}

pub open spec fn plain_plan(app: App, key: Key, code: KeyCode) -> (Seq<KeyEffect>, KeyNext) {
    match code {
        KeyCode::PageUp => types::consumes(key, seq![KeyEffect::ScrollUp(screenful(app, 1))]),
        KeyCode::PageDown => types::consumes(key, seq![KeyEffect::ScrollDown(screenful(app, 1))]),
        KeyCode::BackTab => types::consumes(key, seq![KeyEffect::CycleEffort]),
        code => if key.traits.composer_newline {
            types::consumes(key, seq![KeyEffect::InsertChar('\n')])
        } else {
            match code {
                KeyCode::Backspace => erases(key, backspace_erasure(key)),
                KeyCode::Delete => erases(key, delete_erasure(key)),
                KeyCode::Left => types::consumes(
                    key,
                    if key.traits.word_cursor {
                        seq![KeyEffect::MoveWordBackward]
                    } else {
                        seq![KeyEffect::MoveLeft]
                    },
                ),
                KeyCode::Right => types::consumes(
                    key,
                    if key.traits.word_cursor {
                        seq![KeyEffect::MoveWordForward]
                    } else {
                        seq![KeyEffect::MoveRight]
                    },
                ),
                KeyCode::Home => types::consumes(
                    key,
                    if key.modifiers.has(CONTROL) {
                        seq![KeyEffect::ScrollToTop]
                    } else {
                        seq![KeyEffect::MoveLineStart]
                    },
                ),
                KeyCode::End => types::consumes(
                    key,
                    if key.modifiers.has(CONTROL) {
                        seq![KeyEffect::ScrollToBottom]
                    } else {
                        seq![KeyEffect::MoveLineEnd]
                    },
                ),
                _ => if key.traits.paste {
                    types::consumes(key, seq![KeyEffect::PasteFromClipboard])
                } else {
                    types::ignores(key)
                },
            }
        },
    }
}

/// The step after the host has looked for a selected attachment.
pub open spec fn erasing(
    pre: App,
    key: Key,
    erasure: Erasure,
    removed: bool,
    post: App,
    step: KeyStep,
) -> bool {
    &&& post == pre
    &&& types::does(
        step,
        types::consumes(
            key,
            if removed {
                seq![]
            } else {
                seq![KeyEffect::Erase(erasure)]
            },
        ),
    )
}

/// The visible lines of the transcript, or `least` where they are fewer.
fn visible_lines(app: &App, least: usize) -> (n: usize)
    ensures
        n == screenful(*app, least),
{
    if app.screen.last_transcript_visible > least {
        app.screen.last_transcript_visible
    } else {
        least
    }
}

/// Looks for a selected attachment before text is taken away.
pub fn erase(key: Key, erasure: Erasure) -> (step: KeyStep)
    ensures
        types::does(step, erases(key, erasure)),
{
    wait(one(KeyEffect::RemoveAttachment), KeyStage::Erasing { key, erasure })
}

/// Puts a line break into the composer.
pub fn break_line(key: Key) -> (step: KeyStep)
    ensures
        types::does(step, types::consumes(key, seq![KeyEffect::InsertChar('\n')])),
{
    consume(key, one(KeyEffect::InsertChar('\n')))
}

fn bind_backspace(key: Key) -> (step: KeyStep)
    ensures
        types::does(step, erases(key, backspace_erasure(key))),
{
    if key.modifiers.contains(SUPER) {
        erase(key, Erasure::ToLineStart)
    } else if key.modifiers.contains(ALT) || key.modifiers.contains(CONTROL) {
        erase(key, Erasure::WordBackward)
    } else {
        erase(key, Erasure::CharBackward)
    }
}

fn bind_delete(key: Key) -> (step: KeyStep)
    ensures
        types::does(step, erases(key, delete_erasure(key))),
{
    if key.modifiers.contains(ALT) || key.modifiers.contains(CONTROL) {
        erase(key, Erasure::WordForward)
    } else {
        erase(key, Erasure::CharForward)
    }
}

fn either(first: bool, a: KeyEffect, b: KeyEffect) -> (effects: Vec<KeyEffect>)
    ensures
        effects@ == if first {
            seq![a]
        } else {
            seq![b]
        },
{
    if first {
        one(a)
    } else {
        one(b)
    }
}

pub fn bind_plain(app: &mut App, key: Key, code: KeyCode) -> (step: KeyStep)
    ensures
        *final(app) == *old(app),
        types::does(step, plain_plan(*old(app), key, code)),
{
    match code {
        KeyCode::PageUp => consume(key, one(KeyEffect::ScrollUp(visible_lines(app, 1)))),
        KeyCode::PageDown => consume(key, one(KeyEffect::ScrollDown(visible_lines(app, 1)))),
        KeyCode::BackTab => consume(key, one(KeyEffect::CycleEffort)),
        code => if key.traits.composer_newline {
            break_line(key)
        } else {
            match code {
                KeyCode::Backspace => bind_backspace(key),
                KeyCode::Delete => bind_delete(key),
                KeyCode::Left => consume(
                    key,
                    either(
                        key.traits.word_cursor,
                        KeyEffect::MoveWordBackward,
                        KeyEffect::MoveLeft,
                    ),
                ),
                KeyCode::Right => consume(
                    key,
                    either(
                        key.traits.word_cursor,
                        KeyEffect::MoveWordForward,
                        KeyEffect::MoveRight,
                    ),
                ),
                KeyCode::Home => consume(
                    key,
                    either(
                        key.modifiers.contains(CONTROL),
                        KeyEffect::ScrollToTop,
                        KeyEffect::MoveLineStart,
                    ),
                ),
                KeyCode::End => consume(
                    key,
                    either(
                        key.modifiers.contains(CONTROL),
                        KeyEffect::ScrollToBottom,
                        KeyEffect::MoveLineEnd,
                    ),
                ),
                _ => if key.traits.paste {
                    consume(key, one(KeyEffect::PasteFromClipboard))
                } else {
                    ignore(key)
                },
            }
        },
    }
}

pub fn on_erasing(app: &mut App, key: Key, erasure: Erasure, removed: bool) -> (step: KeyStep)
    ensures
        erasing(*old(app), key, erasure, removed, *final(app), step),
{
    if removed {
        consume(key, Vec::new())
    } else {
        consume(key, one(KeyEffect::Erase(erasure)))
    }
}

// Up and Down: with a modifier they scroll the transcript; without one they move through an open
// menu, the attachments, the queued messages or the history of inputs, whichever comes first.

/// The history of inputs takes the key.
pub open spec fn history_arrow(key: Key, menus: Menus) -> KeyEffect {
    KeyEffect::HistoryArrow {
        key,
        slash_menu_open: menus.slash > 0,
        mention_menu_open: menus.mention > 0,
    }
}

/// Whether no menu is open over the composer.
pub open spec fn no_menu(menus: Menus) -> bool {
    menus.slash == 0 && menus.mention == 0
}

pub open spec fn up_bound(pre: App, key: Key, menus: Menus, post: App, step: KeyStep) -> bool {
    let composer = pre.composer;
    let bare = key.modifiers.bits == 0;
    if bare && menus.mention > 0 && composer.mention_menu_selected > 0 {
        &&& post == App {
            composer: Composer {
                mention_menu_selected: (composer.mention_menu_selected - 1) as usize,
                ..composer
            },
            ..pre
        }
        &&& types::does(step, types::consumes(key, seq![]))
    } else {
        post == pre && types::does(step, up_plan(pre, key, menus))
    }
}

pub open spec fn up_plan(app: App, key: Key, menus: Menus) -> (Seq<KeyEffect>, KeyNext) {
    let composer = app.composer;
    let bare = key.modifiers.bits == 0;
    if key.modifiers.has(SUPER) {
        types::consumes(key, seq![KeyEffect::ScrollUp(screenful(app, 3))])
    } else if key.modifiers.has(ALT) || key.modifiers.has(SHIFT) {
        types::consumes(key, seq![KeyEffect::ScrollUp(3)])
    } else if bare && menus.slash > 0 {
        types::consumes(key, seq![KeyEffect::PreviousSlashEntry { entries: menus.slash }])
    } else if bare && composer.selected_attachment is Some {
        types::consumes(key, seq![KeyEffect::PreviousAttachment])
    } else if bare && composer.cursor_position == 0 && no_menu(menus) && composer.attachments > 0 {
        types::handled(seq![KeyEffect::PreviousAttachment])
    } else if bare && composer.input@.len() == 0 && composer.cursor_position == 0
        && app.queue.queued_draft is None && app.queue.queued_messages > 0 && no_menu(menus) {
        types::consumes(key, seq![KeyEffect::PopLastQueued])
    } else if key.traits.composer_newline {
        types::consumes(key, seq![KeyEffect::InsertChar('\n')])
    } else {
        types::consumes(key, seq![history_arrow(key, menus)])
    }
}

pub open spec fn down_bound(pre: App, key: Key, menus: Menus, post: App, step: KeyStep) -> bool {
    let composer = pre.composer;
    let bare = key.modifiers.bits == 0;
    if bare && menus.mention > 0 {
        &&& post == App {
            composer: Composer {
                mention_menu_selected: if composer.mention_menu_selected + 1 < menus.mention {
                    (composer.mention_menu_selected + 1) as usize
                } else {
                    (menus.mention - 1) as usize
                },
                ..composer
            },
            ..pre
        }
        &&& types::does(step, types::consumes(key, seq![]))
    } else {
        post == pre && types::does(step, down_plan(pre, key, menus))
    }
}

pub open spec fn down_plan(app: App, key: Key, menus: Menus) -> (Seq<KeyEffect>, KeyNext) {
    let bare = key.modifiers.bits == 0;
    if key.modifiers.has(SUPER) {
        types::consumes(key, seq![KeyEffect::ScrollDown(screenful(app, 3))])
    } else if key.modifiers.has(ALT) || key.modifiers.has(SHIFT) {
        types::consumes(key, seq![KeyEffect::ScrollDown(3)])
    } else if bare && menus.slash > 0 {
        types::consumes(key, seq![KeyEffect::NextSlashEntry { entries: menus.slash }])
    } else if bare && app.composer.selected_attachment is Some {
        types::consumes(key, seq![KeyEffect::NextAttachment])
    } else if key.traits.composer_newline {
        types::consumes(key, seq![KeyEffect::InsertChar('\n')])
    } else {
        types::consumes(key, seq![history_arrow(key, menus)])
    }
}

fn arrow(key: Key, menus: Menus) -> (step: KeyStep)
    ensures
        types::does(step, types::consumes(key, seq![history_arrow(key, menus)])),
{
    consume(
        key,
        one(
            KeyEffect::HistoryArrow {
                key,
                slash_menu_open: menus.slash > 0,
                mention_menu_open: menus.mention > 0,
            },
        ),
    )
}

pub fn bind_up(app: &mut App, key: Key, menus: Menus) -> (step: KeyStep)
    ensures
        up_bound(*old(app), key, menus, *final(app), step),
{
    proof {
        keys::modifiers_apart(key.modifiers);
    }
    let bare = key.modifiers.is_empty();
    let closed = menus.slash == 0 && menus.mention == 0;
    if key.modifiers.contains(SUPER) {
        consume(key, one(KeyEffect::ScrollUp(visible_lines(app, 3))))
    } else if key.modifiers.contains(ALT) || key.modifiers.contains(SHIFT) {
        consume(key, one(KeyEffect::ScrollUp(3)))
    } else if bare && menus.mention > 0 && app.composer.mention_menu_selected > 0 {
        app.composer.mention_menu_selected = app.composer.mention_menu_selected - 1;
        consume(key, Vec::new())
    } else if bare && menus.slash > 0 {
        consume(key, one(KeyEffect::PreviousSlashEntry { entries: menus.slash }))
    } else if bare && app.composer.selected_attachment.is_some() {
        consume(key, one(KeyEffect::PreviousAttachment))
    } else if bare && app.composer.cursor_position == 0 && closed && app.composer.attachments > 0 {
        handle(one(KeyEffect::PreviousAttachment))
    } else if bare && app.composer.input.as_str().is_empty() && app.composer.cursor_position == 0
        && app.queue.queued_draft.is_none() && app.queue.queued_messages > 0 && closed {
        consume(key, one(KeyEffect::PopLastQueued))
    } else if key.traits.composer_newline {
        break_line(key)
    } else {
        arrow(key, menus)
    }
}

pub fn bind_down(app: &mut App, key: Key, menus: Menus) -> (step: KeyStep)
    ensures
        down_bound(*old(app), key, menus, *final(app), step),
{
    proof {
        keys::modifiers_apart(key.modifiers);
    }
    let bare = key.modifiers.is_empty();
    if key.modifiers.contains(SUPER) {
        consume(key, one(KeyEffect::ScrollDown(visible_lines(app, 3))))
    } else if key.modifiers.contains(ALT) || key.modifiers.contains(SHIFT) {
        consume(key, one(KeyEffect::ScrollDown(3)))
    } else if bare && menus.mention > 0 {
        let next: usize = app.composer.mention_menu_selected.saturating_add(1);
        app.composer.mention_menu_selected = if next < menus.mention {
            next
        } else {
            menus.mention - 1
        };
        consume(key, Vec::new())
    } else if bare && menus.slash > 0 {
        consume(key, one(KeyEffect::NextSlashEntry { entries: menus.slash }))
    } else if bare && app.composer.selected_attachment.is_some() {
        consume(key, one(KeyEffect::NextAttachment))
    } else if key.traits.composer_newline {
        break_line(key)
    } else {
        arrow(key, menus)
    }
}

// Tab completes: a mention, a slash command, a file name; while a turn is running it queues the
// draft; where nothing was there to complete it turns to the next mode, and the engine learns of a
// model that changed with the mode.

pub open spec fn tab_bound(pre: App, key: Key, menus: Menus, post: App, step: KeyStep) -> bool {
    if menus.mention > 0 {
        post == pre && types::does(
            step,
            types::waits(seq![KeyEffect::ApplyMention], KeyStage::TabMention { key, menus }),
        )
    } else {
        tab_slash(pre, key, menus, post, step)
    }
}

pub open spec fn tab_slash(pre: App, key: Key, menus: Menus, post: App, step: KeyStep) -> bool {
    &&& post == pre
    &&& types::does(
        step,
        if menus.slash > 0 {
            types::waits(
                seq![KeyEffect::ApplySlash { for_editing: true }],
                KeyStage::TabSlash { key },
            )
        } else {
            types::waits(seq![KeyEffect::CompleteCommand], KeyStage::TabCommand { key })
        },
    )
}

/// The step after an attempt to complete: `next` where there was nothing to complete.
pub open spec fn tab_tried(
    pre: App,
    applied: bool,
    effect: KeyEffect,
    stage: KeyStage,
    post: App,
    step: KeyStep,
) -> bool {
    &&& post == pre
    &&& types::does(
        step,
        if applied {
            types::handled(seq![])
        } else {
            types::waits(seq![effect], stage)
        },
    )
}

pub open spec fn tab_mention(
    pre: App,
    key: Key,
    menus: Menus,
    applied: bool,
    post: App,
    step: KeyStep,
) -> bool {
    if applied {
        post == pre && types::does(step, types::handled(seq![]))
    } else {
        tab_slash(pre, key, menus, post, step)
    }
}

pub open spec fn tab_file(pre: App, key: Key, applied: bool, post: App, step: KeyStep) -> bool {
    if pre.turn.is_loading {
        tab_tried(pre, applied, KeyEffect::QueueDraft, KeyStage::TabQueue { key }, post, step)
    } else {
        tab_queue(pre, key, applied, post, step)
    }
}

pub open spec fn tab_queue(pre: App, key: Key, applied: bool, post: App, step: KeyStep) -> bool {
    tab_tried(
        pre,
        applied,
        KeyEffect::CycleMode,
        KeyStage::TabMode { key, prior: pre.session.model },
        post,
        step,
    )
}

pub open spec fn tab_mode(pre: App, key: Key, prior: String, post: App, step: KeyStep) -> bool {
    &&& post == pre
    &&& types::does(
        step,
        types::consumes(
            key,
            if pre.session.model@ == prior@ {
                seq![]
            } else {
                seq![KeyEffect::SetEngineModel(pre.session.model)]
            },
        ),
    )
}

pub fn bind_tab(app: &mut App, key: Key, menus: Menus) -> (step: KeyStep)
    ensures
        tab_bound(*old(app), key, menus, *final(app), step),
{
    if menus.mention > 0 {
        wait(one(KeyEffect::ApplyMention), KeyStage::TabMention { key, menus })
    } else {
        on_tab_slash(app, key, menus)
    }
}

pub fn on_tab_slash(app: &mut App, key: Key, menus: Menus) -> (step: KeyStep)
    ensures
        tab_slash(*old(app), key, menus, *final(app), step),
{
    if menus.slash > 0 {
        wait(one(KeyEffect::ApplySlash { for_editing: true }), KeyStage::TabSlash { key })
    } else {
        wait(one(KeyEffect::CompleteCommand), KeyStage::TabCommand { key })
    }
}

pub fn on_tab_tried(app: &mut App, applied: bool, effect: KeyEffect, stage: KeyStage) -> (step:
    KeyStep)
    ensures
        tab_tried(*old(app), applied, effect, stage, *final(app), step),
{
    if applied {
        handle(Vec::new())
    } else {
        wait(one(effect), stage)
    }
}

pub fn on_tab_mention(app: &mut App, key: Key, menus: Menus, applied: bool) -> (step: KeyStep)
    ensures
        tab_mention(*old(app), key, menus, applied, *final(app), step),
{
    if applied {
        handle(Vec::new())
    } else {
        on_tab_slash(app, key, menus)
    }
}

pub fn on_tab_file(app: &mut App, key: Key, applied: bool) -> (step: KeyStep)
    ensures
        tab_file(*old(app), key, applied, *final(app), step),
{
    if app.turn.is_loading {
        on_tab_tried(app, applied, KeyEffect::QueueDraft, KeyStage::TabQueue { key })
    } else {
        on_tab_queue(app, key, applied)
    }
}

pub fn on_tab_queue(app: &mut App, key: Key, applied: bool) -> (step: KeyStep)
    ensures
        tab_queue(*old(app), key, applied, *final(app), step),
{
    let prior: String = app.session.model.clone();
    on_tab_tried(app, applied, KeyEffect::CycleMode, KeyStage::TabMode { key, prior })
}

pub fn on_tab_mode(app: &mut App, key: Key, prior: String) -> (step: KeyStep)
    ensures
        tab_mode(*old(app), key, prior, *final(app), step),
{
    if same(app.session.model.as_str(), prior.as_str()) {
        consume(key, Vec::new())
    } else {
        consume(key, one(KeyEffect::SetEngineModel(app.session.model.clone())))
    }
}

} // verus!
