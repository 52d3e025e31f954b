//! The bindings of the keys that type a character.

use vstd::prelude::*;

use crate::keyboard::bindings;
use crate::keyboard::bindings::{break_line, erase};
use crate::keyboard::types;
use crate::keyboard::types::{
    consume, handle, leave, wait, Erasure, KeyEffect, KeyNext, KeyStage, KeyStep, Menus,
};
use crate::keys::{Key, CONTROL};
use crate::notices::{SidebarFocus, Toast};
use crate::state::{App, AppMode, ModalKind, VimMode};
use crate::step::{one, three};

verus! {

/// What a character key does, from the first of its bindings that applies. The transcript's
/// bindings come first, then the line break, then those of the composer.
pub open spec fn char_plan(app: App, key: Key, menus: Menus, c: char) -> (
    Seq<KeyEffect>,
    KeyNext,
) {
    match transcript_plan(app, key, menus, c) {
        Some(plan) => plan,
        None => composer_plan(app, key, menus, c),
    }
}

/// The sidebar turns to `focus`.
pub open spec fn focuses(focus: SidebarFocus) -> (Seq<KeyEffect>, KeyNext) {
    types::waits(seq![KeyEffect::SetSidebarFocus(focus)], KeyStage::Focused { focus })
}

/// Alt with a digit turns to a mode, and with Control too to a pane of the sidebar.
pub open spec fn digit_plan(key: Key, focus: SidebarFocus, mode: AppMode) -> (
    Seq<KeyEffect>,
    KeyNext,
) {
    if key.ctrl() {
        focuses(focus)
    } else {
        types::handled(seq![KeyEffect::SetMode(mode)])
    }
}

/// The bindings with Alt on digits and their shifted signs.
pub open spec fn alt_plan(key: Key, c: char) -> Option<(Seq<KeyEffect>, KeyNext)> {
    match c {
        '1' => Some(digit_plan(key, SidebarFocus::Work, AppMode::Plan)),
        '2' => Some(digit_plan(key, SidebarFocus::Tasks, AppMode::Agent)),
        '3' => Some(digit_plan(key, SidebarFocus::Agents, AppMode::Yolo)),
        '4' => Some(types::handled(seq![KeyEffect::AltFour(key.modifiers)])),
        '!' => Some(focuses(SidebarFocus::Work)),
        '@' => Some(focuses(SidebarFocus::Tasks)),
        '#' => Some(focuses(SidebarFocus::Agents)),
        '$' => Some(focuses(SidebarFocus::Context)),
        '%' => Some(focuses(SidebarFocus::Context)),
        ')' => Some(focuses(SidebarFocus::Auto)),
        '0' => Some(types::handled(seq![KeyEffect::AltZero(key.modifiers)])),
        _ => None,
    }
}

/// The bindings for moving about in the transcript, on an empty composer with no slash menu.
pub open spec fn navigation_plan(app: App, key: Key, menus: Menus, c: char) -> Option<
    (Seq<KeyEffect>, KeyNext),
> {
    match c {
        'g' => Some(types::consumes(key, seq![KeyEffect::ScrollToTop])),
        'G' => Some(types::consumes(key, seq![KeyEffect::ScrollToBottom])),
        '[' => Some(
            types::waits(
                seq![KeyEffect::JumpTool { forward: false }],
                KeyStage::Jumped { key, menus, forward: false },
            ),
        ),
        ']' => Some(
            types::waits(
                seq![KeyEffect::JumpTool { forward: true }],
                KeyStage::Jumped { key, menus, forward: true },
            ),
        ),
        '?' => Some(
            types::handled(
                if app.screen.top_modal == Some(ModalKind::Help) {
                    seq![]
                } else {
                    seq![KeyEffect::PushHelp]
                },
            ),
        ),
        _ => None,
    }
}

/// The bindings that come before a line break.
pub open spec fn transcript_plan(app: App, key: Key, menus: Menus, c: char) -> Option<
    (Seq<KeyEffect>, KeyNext),
> {
    let empty = app.composer.input@.len() == 0;
    let ctrl = key.ctrl();
    if c == 'l' && key.traits.alt_nav && empty {
        Some(types::waits(seq![KeyEffect::LastMessagePager], KeyStage::Paged { key, menus }))
    } else if c == 'o' && ctrl && empty {
        Some(types::waits(seq![KeyEffect::ActivityPager], KeyStage::Paged { key, menus }))
    } else if c == ' ' && key.modifiers.bits == 0 && empty {
        Some(types::waits(seq![KeyEffect::DetailTargetCell], KeyStage::FoldCell))
    } else if (c == 't' || c == 'T') && key.modifiers.bits == CONTROL {
        Some(types::handled(seq![KeyEffect::ToggleLiveTranscript]))
    } else if key.alt() && alt_plan(key, c) is Some {
        alt_plan(key, c)
    } else if c == 'r' && ctrl {
        Some(types::handled(seq![KeyEffect::PushSessionPicker]))
    } else if (c == 'c' || c == 'C') && key.traits.copy {
        Some(types::consumes(key, seq![KeyEffect::CopySelection]))
    } else if c == 'c' && ctrl {
        Some(types::waits(seq![KeyEffect::AskCtrlC], KeyStage::CtrlCAsked { key }))
    } else if c == 'd' && ctrl && empty {
        Some(types::leaves(seq![KeyEffect::ShutdownEngine]))
    } else if key.traits.alt_nav && empty && menus.slash == 0 {
        navigation_plan(app, key, menus, c)
    } else {
        None
    }
}

/// The bindings from the line break on.
pub open spec fn composer_plan(app: App, key: Key, menus: Menus, c: char) -> (
    Seq<KeyEffect>,
    KeyNext,
) {
    if key.traits.composer_newline {
        types::consumes(key, seq![KeyEffect::InsertChar('\n')])
    } else {
        match editing_plan(app, key, c) {
            Some(plan) => plan,
            None => typing_plan(app, key, menus, c),
        }
    }
}

/// The bindings that edit the composer or copy out of the transcript.
pub open spec fn editing_plan(app: App, key: Key, c: char) -> Option<(Seq<KeyEffect>, KeyNext)> {
    let empty = app.composer.input@.len() == 0;
    let free = app.screen.top_modal is None;
    let ctrl = key.ctrl();
    if c == 'h' && key.traits.ctrl_h_backspace {
        Some(bindings::erases(key, Erasure::CharBackward))
    } else if c == 'a' && ctrl {
        Some(types::consumes(key, seq![KeyEffect::SelectAll]))
    } else if c == 'e' && ctrl {
        Some(types::consumes(key, seq![KeyEffect::MoveEnd]))
    } else if c == 'o' && ctrl {
        Some(
            types::waits(
                seq![KeyEffect::RunEditor(app.composer.input)],
                KeyStage::Edited { key },
            ),
        )
    } else if c == 'u' && ctrl {
        Some(types::consumes(key, seq![KeyEffect::ClearInputRecoverable]))
    } else if (c == 'w' || c == 'W') && ctrl {
        Some(types::consumes(key, seq![KeyEffect::Erase(Erasure::WordBackward)]))
    } else if (c == 's' || c == 'S') && key.modifiers.bits == CONTROL {
        Some(
            types::consumes(
                key,
                if empty {
                    seq![]
                } else {
                    seq![
                        KeyEffect::StashDraft(app.composer.input),
                        KeyEffect::ClearInputRecoverable,
                        KeyEffect::ShowToast(Toast::DraftStashed),
                    ]
                },
            ),
        )
    } else if c == 'y' && ctrl {
        if empty && free {
            Some(types::waits(seq![KeyEffect::CopyFocusedCell], KeyStage::CellCopied { key }))
        } else {
            Some(types::consumes(key, seq![KeyEffect::Yank]))
        }
    } else if c == 'Y' && empty && free {
        Some(types::waits(seq![KeyEffect::CopyThinkingCell], KeyStage::ThinkingCopied { key }))
    } else if c == 'x' && ctrl {
        Some(types::consumes(key, seq![KeyEffect::SetMode(other_mode(app.session.mode))]))
    } else {
        None
    }
}

/// The mode that Ctrl+X turns to.
pub open spec fn other_mode(mode: AppMode) -> AppMode {
    match mode {
        AppMode::Plan => AppMode::Agent,
        _ => AppMode::Plan,
    }
}

/// The mode that Alt with a letter turns to.
pub open spec fn letter_mode(c: char) -> Option<AppMode> {
    match c {
        'a' => Some(AppMode::Agent),
        'A' => Some(AppMode::Agent),
        'y' => Some(AppMode::Yolo),
        'Y' => Some(AppMode::Yolo),
        'p' => Some(AppMode::Plan),
        'P' => Some(AppMode::Plan),
        _ => None,
    }
}

/// Pasting, the modes on Alt, vim, and at last the character itself.
pub open spec fn typing_plan(app: App, key: Key, menus: Menus, c: char) -> (
    Seq<KeyEffect>,
    KeyNext,
) {
    let vim = app.composer.vim_enabled && app.screen.top_modal is None;
    if key.traits.paste {
        types::consumes(key, seq![KeyEffect::PasteFromClipboard])
    } else if key.alt() && letter_mode(c) is Some {
        types::handled(seq![KeyEffect::SetMode(letter_mode(c)->0)])
    } else if key.alt() && (c == 'v' || c == 'V') {
        types::handled(seq![KeyEffect::OpenToolDetails])
    } else if vim && app.composer.vim_mode == VimMode::Normal && key.modifiers.bits == 0
        && bindings::no_menu(menus) {
        types::handled(seq![KeyEffect::VimKey(c)])
    } else if vim && app.composer.vim_mode == VimMode::Visual && key.plain_char() {
        types::consumes(key, seq![])
    } else {
        types::consumes(key, seq![KeyEffect::InsertChar(c)])
    }
}

/// Whether `step` is what `plan` asks for; where there is no plan there is no step.
pub open spec fn does_maybe(step: Option<KeyStep>, plan: Option<(Seq<KeyEffect>, KeyNext)>) -> bool {
    match plan {
        Some(plan) => step matches Some(step) && types::does(step, plan),
        None => step is None,
    }
}

fn turn_to(focus: SidebarFocus) -> (step: KeyStep)
    ensures
        types::does(step, focuses(focus)),
{
    wait(one(KeyEffect::SetSidebarFocus(focus)), KeyStage::Focused { focus })
}

fn bind_digit(key: Key, pane: SidebarFocus, mode: AppMode) -> (step: KeyStep)
    ensures
        types::does(step, digit_plan(key, pane, mode)),
{
    if key.has_ctrl() {
        turn_to(pane)
    } else {
        handle(one(KeyEffect::SetMode(mode)))
    }
}

fn bind_alt(key: Key, c: char) -> (step: Option<KeyStep>)
    ensures
        does_maybe(step, alt_plan(key, c)),
{
    match c {
        '1' => Some(bind_digit(key, SidebarFocus::Work, AppMode::Plan)),
        '2' => Some(bind_digit(key, SidebarFocus::Tasks, AppMode::Agent)),
        '3' => Some(bind_digit(key, SidebarFocus::Agents, AppMode::Yolo)),
        '4' => Some(handle(one(KeyEffect::AltFour(key.modifiers)))),
        '!' => Some(turn_to(SidebarFocus::Work)),
        '@' => Some(turn_to(SidebarFocus::Tasks)),
        '#' => Some(turn_to(SidebarFocus::Agents)),
        '$' => Some(turn_to(SidebarFocus::Context)),
        '%' => Some(turn_to(SidebarFocus::Context)),
        ')' => Some(turn_to(SidebarFocus::Auto)),
        '0' => Some(handle(one(KeyEffect::AltZero(key.modifiers)))),
        _ => None,
    }
}

/// Whether the help is the top view.
fn help_shown(app: &App) -> (b: bool)
    ensures
        b == (app.screen.top_modal == Some(ModalKind::Help)),
{
    match app.screen.top_modal {
        Some(ModalKind::Help) => true,
        _ => false,
    }
}

fn bind_navigation(app: &App, key: Key, menus: Menus, c: char) -> (step: Option<KeyStep>)
    ensures
        does_maybe(step, navigation_plan(*app, key, menus, c)),
{
    match c {
        'g' => Some(consume(key, one(KeyEffect::ScrollToTop))),
        'G' => Some(consume(key, one(KeyEffect::ScrollToBottom))),
        '[' => Some(
            wait(
                one(KeyEffect::JumpTool { forward: false }),
                KeyStage::Jumped { key, menus, forward: false },
            ),
        ),
        ']' => Some(
            wait(
                one(KeyEffect::JumpTool { forward: true }),
                KeyStage::Jumped { key, menus, forward: true },
            ),
        ),
        '?' => if help_shown(app) {
            Some(handle(Vec::new()))
        } else {
            Some(handle(one(KeyEffect::PushHelp)))
        },
        _ => None,
    }
}

fn bind_transcript(app: &App, key: Key, menus: Menus, c: char) -> (step: Option<KeyStep>)
    ensures
        does_maybe(step, transcript_plan(*app, key, menus, c)),
{
    let empty = app.composer.input.as_str().is_empty();
    let ctrl = key.has_ctrl();
    if c == 'l' && key.traits.alt_nav && empty {
        return Some(wait(one(KeyEffect::LastMessagePager), KeyStage::Paged { key, menus }));
    }
    if c == 'o' && ctrl && empty {
        return Some(wait(one(KeyEffect::ActivityPager), KeyStage::Paged { key, menus }));
    }
    if c == ' ' && key.modifiers.is_empty() && empty {
        return Some(wait(one(KeyEffect::DetailTargetCell), KeyStage::FoldCell));
    }
    if (c == 't' || c == 'T') && key.modifiers.bits == CONTROL {
        return Some(handle(one(KeyEffect::ToggleLiveTranscript)));
    }
    if key.has_alt() {
        let step = bind_alt(key, c);
        if step.is_some() {
            return step;
        }
    }
    if c == 'r' && ctrl {
        Some(handle(one(KeyEffect::PushSessionPicker)))
    } else if (c == 'c' || c == 'C') && key.traits.copy {
        Some(consume(key, one(KeyEffect::CopySelection)))
    } else if c == 'c' && ctrl {
        Some(wait(one(KeyEffect::AskCtrlC), KeyStage::CtrlCAsked { key }))
    } else if c == 'd' && ctrl && empty {
        Some(leave(one(KeyEffect::ShutdownEngine)))
    } else if key.traits.alt_nav && empty && menus.slash == 0 {
        bind_navigation(app, key, menus, c)
    } else {
        None
    }
}

fn bind_editing(app: &App, key: Key, c: char) -> (step: Option<KeyStep>)
    ensures
        does_maybe(step, editing_plan(*app, key, c)),
{
    let empty = app.composer.input.as_str().is_empty();
    let free = app.screen.top_modal.is_none();
    let ctrl = key.has_ctrl();
    if c == 'h' && key.traits.ctrl_h_backspace {
        Some(erase(key, Erasure::CharBackward))
    } else if c == 'a' && ctrl {
        Some(consume(key, one(KeyEffect::SelectAll)))
    } else if c == 'e' && ctrl {
        Some(consume(key, one(KeyEffect::MoveEnd)))
    } else if c == 'o' && ctrl {
        Some(wait(one(KeyEffect::RunEditor(app.composer.input.clone())), KeyStage::Edited { key }))
    } else if c == 'u' && ctrl {
        Some(consume(key, one(KeyEffect::ClearInputRecoverable)))
    } else if (c == 'w' || c == 'W') && ctrl {
        Some(consume(key, one(KeyEffect::Erase(Erasure::WordBackward))))
    } else if (c == 's' || c == 'S') && key.modifiers.bits == CONTROL {
        if empty {
            return Some(consume(key, Vec::new()));
        }
        Some(
            consume(
                key,
                three(
                    KeyEffect::StashDraft(app.composer.input.clone()),
                    KeyEffect::ClearInputRecoverable,
                    KeyEffect::ShowToast(Toast::DraftStashed),
                ),
            ),
        )
    } else if c == 'y' && ctrl {
        if empty && free {
            Some(wait(one(KeyEffect::CopyFocusedCell), KeyStage::CellCopied { key }))
        } else {
            Some(consume(key, one(KeyEffect::Yank)))
        }
    } else if c == 'Y' && empty && free {
        Some(wait(one(KeyEffect::CopyThinkingCell), KeyStage::ThinkingCopied { key }))
    } else if c == 'x' && ctrl {
        let mode = match app.session.mode {
            AppMode::Plan => AppMode::Agent,
            _ => AppMode::Plan,
        };
        Some(consume(key, one(KeyEffect::SetMode(mode))))
    } else {
        None
    }
}

fn bind_typing(app: &App, key: Key, menus: Menus, c: char) -> (step: KeyStep)
    ensures
        types::does(step, typing_plan(*app, key, menus, c)),
{
    let vim = app.composer.vim_enabled && app.screen.top_modal.is_none();
    if key.traits.paste {
        return consume(key, one(KeyEffect::PasteFromClipboard));
    }
    if key.has_alt() {
        let mode = match c {
            'a' => Some(AppMode::Agent),
            'A' => Some(AppMode::Agent),
            'y' => Some(AppMode::Yolo),
            'Y' => Some(AppMode::Yolo),
            'p' => Some(AppMode::Plan),
            'P' => Some(AppMode::Plan),
            _ => None,
        };
        if let Some(mode) = mode {
            return handle(one(KeyEffect::SetMode(mode)));
        }
        if c == 'v' || c == 'V' {
            return handle(one(KeyEffect::OpenToolDetails));
        }
    }
    if vim && app.composer.vim_mode == VimMode::Normal && key.modifiers.is_empty() && menus.slash
        == 0 && menus.mention == 0 {
        handle(one(KeyEffect::VimKey(c)))
    } else if vim && app.composer.vim_mode == VimMode::Visual && key.is_plain_char() {
        consume(key, Vec::new())
    } else {
        consume(key, one(KeyEffect::InsertChar(c)))
    }
}

/// Does what the character is bound to from the line break on.
pub fn bind_composer(app: &App, key: Key, menus: Menus, c: char) -> (step: KeyStep)
    ensures
        types::does(step, composer_plan(*app, key, menus, c)),
{
    if key.traits.composer_newline {
        return break_line(key);
    }
    match bind_editing(app, key, c) {
        Some(step) => step,
        None => bind_typing(app, key, menus, c),
    }
}

pub fn bind_char(app: &mut App, key: Key, menus: Menus, c: char) -> (step: KeyStep)
    ensures
        *final(app) == *old(app),
        types::does(step, char_plan(*old(app), key, menus, c)),
{
    match bind_transcript(app, key, menus, c) {
        Some(step) => step,
        None => bind_composer(app, key, menus, c),
    }
}

} // verus!
