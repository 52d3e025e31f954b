//! What holds of the keys that type a character, whatever the host answers on the way.

use vstd::prelude::*;

use crate::keyboard::runs;
use crate::keyboard::runs::Run;
use crate::keyboard::types::{Erasure, KeyEffect, KeyEventAction, KeyNext, KeyStage};
use crate::keys;
use crate::keys::{Key, KeyCode, ALT, CONTROL, SUPER};
use crate::notices::{Notice, SidebarFocus, Toast};
use crate::state::{App, AppMode, Composer, ModalKind, Screen, Stream, VimMode};
use crate::step::{CtrlCDisposition, EditorOutcome, Reply};
use crate::text;

verus! {

/// Whether Control is down with the character, and not as a half of AltGr.
pub open spec fn control(key: Key) -> bool {
    key.modifiers.has(CONTROL) && (key.modifiers.has(ALT) ==> key.traits.ctrl_or_alt)
}

/// Whether Alt is down with the character, and not as a half of AltGr.
pub open spec fn meta(key: Key) -> bool {
    key.modifiers.has(ALT) && (key.modifiers.has(CONTROL) ==> key.traits.ctrl_or_alt)
}

/// Whether the character is typed with no shortcut modifier down.
pub open spec fn is_typed(key: Key) -> bool {
    !key.traits.ctrl_or_alt && !key.modifiers.has(SUPER)
}

/// Whether the key ends with step `i`, handled, with these effects; a paste burst ends with it,
/// where the key cannot be a part of one.
pub open spec fn closes(run: Run, i: int, effects: Seq<KeyEffect>) -> bool {
    &&& is_typed(run.key) ==> run.ends(i, effects, KeyEventAction::Handled)
    &&& !is_typed(run.key) ==> run.ends(
        i,
        effects.push(KeyEffect::ClearPasteBurstWindow),
        KeyEventAction::Handled,
    )
}

/// Whether the composer is empty.
pub open spec fn nothing_typed(app: App) -> bool {
    app.composer.input@.len() == 0
}

/// The state with another status line and nothing else changed.
pub open spec fn saying(app: App, notice: Notice) -> App {
    App { status_message: Some(notice), ..app }
}

/// The state with the screen to be drawn again and nothing else changed.
pub open spec fn to_redraw(app: App) -> App {
    App { screen: Screen { needs_redraw: true, ..app.screen }, ..app }
}

// Alt with digits and signs

/// The pane of the sidebar that the sign stands for.
pub open spec fn pane_of(c: char) -> Option<SidebarFocus> {
    if c == '!' {
        Some(SidebarFocus::Work)
    } else if c == '@' {
        Some(SidebarFocus::Tasks)
    } else if c == '#' {
        Some(SidebarFocus::Agents)
    } else if c == '$' || c == '%' {
        Some(SidebarFocus::Context)
    } else if c == ')' {
        Some(SidebarFocus::Auto)
    } else {
        None
    }
}

/// Whether the sidebar is turned to the pane, the status line says so, and nothing else happens.
pub open spec fn turns_to(run: Run, pane: SidebarFocus) -> bool {
    &&& run.effects(0) == seq![KeyEffect::SetSidebarFocus(pane)]
    &&& run.after[0] == run.before[0]
    &&& run.is_done(1)
    &&& run.after[1] == saying(run.before[1], Notice::Focus(pane))
}

/// Alt with a digit turns to its mode, with Control too to its pane, and with a shifted digit to
/// the pane of the sign. Alt with 4 and 0 are looked at by the host.
pub proof fn alt_digits_turn(run: Run, c: char)
    requires
        run.complete(),
        run.key.code == KeyCode::Char(c),
        meta(run.key),
    ensures
        ({
            let plain = !control(run.key);
            let sets = |mode: AppMode|
                run.ends(0, seq![KeyEffect::SetMode(mode)], KeyEventAction::Handled);
            &&& c == '1' && plain ==> sets(AppMode::Plan)
            &&& c == '2' && plain ==> sets(AppMode::Agent)
            &&& c == '3' && plain ==> sets(AppMode::Yolo)
            &&& c == '1' && !plain ==> turns_to(run, SidebarFocus::Work)
            &&& c == '2' && !plain ==> turns_to(run, SidebarFocus::Tasks)
            &&& c == '3' && !plain ==> turns_to(run, SidebarFocus::Agents)
            &&& pane_of(c) matches Some(pane) ==> turns_to(run, pane)
            &&& c == '4' ==> run.ends(
                0,
                seq![KeyEffect::AltFour(run.key.modifiers)],
                KeyEventAction::Handled,
            )
            &&& c == '0' ==> run.ends(
                0,
                seq![KeyEffect::AltZero(run.key.modifiers)],
                KeyEventAction::Handled,
            )
        }),
{
    runs::first_step(run);
    keys::modifiers_apart(run.key.modifiers);
    if run.steps.len() > 1 {
        runs::later_step(run, 1);
        if run.steps.len() > 2 {
            runs::later_step(run, 2);
        }
    }
}

// The transcript

/// The shortcuts of the transcript that do one thing: the live transcript, the session picker, the
/// copy of the selection, and the end of the program on an empty composer.
pub proof fn transcript_keys_do_one_thing(run: Run, c: char)
    requires
        run.complete(),
        run.key.code == KeyCode::Char(c),
    ensures
        ({
            let key = run.key;
            let pre = run.before[0];
            let (ctrl, empty) = (control(key), nothing_typed(pre));
            &&& (c == 't' || c == 'T') && key.modifiers.bits == CONTROL ==> run.ends(
                0,
                seq![KeyEffect::ToggleLiveTranscript],
                KeyEventAction::Handled,
            ) && run.after[0] == pre
            &&& c == 'r' && ctrl ==> run.ends(
                0,
                seq![KeyEffect::PushSessionPicker],
                KeyEventAction::Handled,
            ) && run.after[0] == pre
            &&& (c == 'c' || c == 'C') && key.traits.copy ==> closes(
                run,
                0,
                seq![KeyEffect::CopySelection],
            ) && run.after[0] == pre
            &&& c == 'd' && ctrl && empty ==> run.ends(
                0,
                seq![KeyEffect::ShutdownEngine],
                KeyEventAction::Return,
            ) && run.after[0] == pre
        }),
{
    runs::first_step(run);
    if run.steps.len() > 1 {
        runs::later_step(run, 1);
    }
}

/// On an empty composer with no slash menu the navigation keys go to the ends of the transcript and
/// open the help, unless it is open. The brackets look for a tool to jump to; where there is none
/// the status line says so.
pub proof fn navigation_keys_navigate(run: Run, c: char)
    requires
        run.complete(),
        run.key.code == KeyCode::Char(c),
        run.key.traits.alt_nav,
        nothing_typed(run.before[0]),
        run.menus.slash == 0,
    ensures
        ({
            let pre = run.before[0];
            let none = |notice: Notice|
                run.replies[1] == Reply::Flag(false) ==> closes(run, 1, seq![]) && run.after[1]
                    == saying(run.before[1], notice);
            &&& run.after[0] == pre
            &&& c == 'g' ==> closes(run, 0, seq![KeyEffect::ScrollToTop])
            &&& c == 'G' ==> closes(run, 0, seq![KeyEffect::ScrollToBottom])
            &&& c == '?' && pre.screen.top_modal == Some(ModalKind::Help) ==> run.is_done(0)
            &&& c == '?' && pre.screen.top_modal != Some(ModalKind::Help) ==> run.ends(
                0,
                seq![KeyEffect::PushHelp],
                KeyEventAction::Handled,
            )
            &&& c == '[' ==> run.effects(0) == seq![KeyEffect::JumpTool { forward: false }]
                && run.steps.len() > 1 && none(Notice::NoPreviousTool)
            &&& c == ']' ==> run.effects(0) == seq![KeyEffect::JumpTool { forward: true }]
                && run.steps.len() > 1 && none(Notice::NoNextTool)
        }),
{
    runs::first_step(run);
    if run.steps.len() > 1 {
        runs::later_step(run, 1);
        if run.steps.len() > 2 {
            runs::later_step(run, 2);
        }
    }
}

/// What is done with a character that is typed: vim takes it in its normal mode, it is dropped in
/// vim's visual mode, and otherwise it goes into the composer.
pub open spec fn types_it(run: Run, i: int, c: char) -> bool {
    let app = run.before[i];
    let vim = app.composer.vim_enabled && app.screen.top_modal is None;
    let normal = vim && app.composer.vim_mode == VimMode::Normal && run.key.modifiers.bits == 0
        && run.menus.slash == 0 && run.menus.mention == 0;
    let dropped = vim && app.composer.vim_mode == VimMode::Visual && is_typed(run.key);
    &&& run.after[i] == app
    &&& normal ==> run.ends(i, seq![KeyEffect::VimKey(c)], KeyEventAction::Handled)
    &&& dropped ==> closes(run, i, seq![])
    &&& !normal && !dropped ==> closes(run, i, seq![KeyEffect::InsertChar(c)])
}

/// After a jump the bracket is typed too, unless the key breaks the line or pastes.
pub proof fn jumping_types_the_bracket(run: Run, c: char)
    requires
        run.complete(),
        run.key.code == KeyCode::Char(c),
        c == '[' || c == ']',
        run.key.traits.alt_nav,
        nothing_typed(run.before[0]),
        run.menus.slash == 0,
        run.replies[1] == Reply::Flag(true),
    ensures
        run.key.traits.composer_newline ==> closes(run, 1, seq![KeyEffect::InsertChar('\n')]),
        !run.key.traits.composer_newline && run.key.traits.paste ==> closes(
            run,
            1,
            seq![KeyEffect::PasteFromClipboard],
        ),
        !run.key.traits.composer_newline && !run.key.traits.paste ==> types_it(run, 1, c),
{
    runs::first_step(run);
    runs::later_step(run, 1);
    if run.steps.len() > 2 {
        runs::later_step(run, 2);
    }
}

/// On an empty composer a pager is opened for the last message or for the activity, and where it
/// was, nothing else happens.
pub proof fn pagers_are_opened(run: Run, c: char)
    requires
        run.complete(),
        run.key.code == KeyCode::Char(c),
        nothing_typed(run.before[0]),
        c == 'l' && run.key.traits.alt_nav || c == 'o' && control(run.key),
    ensures
        run.effects(0) == seq![
            if c == 'l' {
                KeyEffect::LastMessagePager
            } else {
                KeyEffect::ActivityPager
            },
        ],
        run.after[0] == run.before[0],
        run.steps.len() > 1,
        run.replies[1] == Reply::Flag(true) ==> run.is_done(1) && run.after[1] == run.before[1],
        run.replies[1] == Reply::Flag(false) && run.key.traits.composer_newline ==> closes(
            run,
            1,
            seq![KeyEffect::InsertChar('\n')],
        ),
        run.replies[1] == Reply::Flag(false) && !run.key.traits.composer_newline && c == 'o'
            ==> run.effects(1) == seq![KeyEffect::RunEditor(run.before[1].composer.input)],
        run.replies[1] == Reply::Flag(false) && !run.key.traits.composer_newline
            && c == 'l' && run.key.traits.paste ==> closes(
            run,
            1,
            seq![KeyEffect::PasteFromClipboard],
        ),
        run.replies[1] == Reply::Flag(false) && !run.key.traits.composer_newline
            && !run.key.traits.paste && c == 'l' ==> types_it(run, 1, c),
{
    runs::first_step(run);
    runs::later_step(run, 1);
    if run.steps.len() > 2 {
        runs::later_step(run, 2);
    }
}

/// Whether exactly the membership of `index` differs, and that only where `flips`.
pub open spec fn flips_only(from: Set<usize>, to: Set<usize>, index: usize, flips: bool) -> bool {
    forall|j: usize| #[trigger]
        to.contains(j) <==> if flips && j == index {
            !from.contains(j)
        } else {
            from.contains(j)
        }
}

/// Space on an empty composer folds the cell in focus, or unfolds it where it is folded; cells of
/// thinking and other cells are kept apart. The status line says what was done, and the history is
/// drawn again. With no cell in focus nothing happens.
pub proof fn space_folds_the_cell(run: Run)
    requires
        run.complete(),
        run.key.code == KeyCode::Char(' '),
        run.key.modifiers.bits == 0,
        nothing_typed(run.before[0]),
    ensures
        run.effects(0) == seq![KeyEffect::DetailTargetCell],
        run.after[0] == run.before[0],
        run.replies[1] == Reply::Cell(None) ==> run.is_done(1) && run.after[1] == run.before[1],
        run.replies[1] matches Reply::Cell(Some((index, thinking))) ==> {
            let (pre, post) = (run.before[1], run.after[1]);
            let folded = if thinking {
                pre.screen.folded_thinking@.contains(index)
            } else {
                pre.screen.collapsed_cells@.contains(index)
            };
            &&& flips_only(
                pre.screen.folded_thinking@,
                post.screen.folded_thinking@,
                index,
                thinking,
            )
            &&& flips_only(
                pre.screen.collapsed_cells@,
                post.screen.collapsed_cells@,
                index,
                !thinking,
            )
            &&& post == saying(
                App {
                    screen: Screen {
                        folded_thinking: post.screen.folded_thinking,
                        collapsed_cells: post.screen.collapsed_cells,
                        ..pre.screen
                    },
                    ..pre
                },
                if thinking && folded {
                    Notice::ThinkingExpanded
                } else if thinking {
                    Notice::ThinkingFolded
                } else if folded {
                    Notice::CellExpanded
                } else {
                    Notice::CellCollapsed
                },
            )
            &&& run.effects(1) == seq![KeyEffect::MarkHistoryUpdated]
            &&& run.is_done(2)
            &&& run.after[2] == to_redraw(run.before[2])
        },
        run.replies[1] is Cell,
{
    runs::first_step(run);
    keys::modifiers_apart(run.key.modifiers);
    runs::later_step(run, 1);
    if run.steps.len() > 2 {
        runs::later_step(run, 2);
        if run.steps.len() > 3 {
            runs::later_step(run, 3);
        }
    }
}

// Ctrl+C

/// Ctrl+C does what the host says: it copies the selection and drops it, leaves the program, asks
/// whether to leave it, or cancels the turn. With the turn goes what it had streamed in; the prompt
/// goes back into the composer where that can be, the status line says so, and the next Ctrl+C does
/// not leave.
pub proof fn ctrl_c_does_what_is_asked(run: Run)
    requires
        run.complete(),
        run.key.code == KeyCode::Char('c'),
        control(run.key),
        !run.key.traits.copy,
    ensures
        run.effects(0) == seq![KeyEffect::AskCtrlC],
        run.after[0] == run.before[0],
        run.replies[1] is CtrlC,
        run.after[1] == run.before[1],
        run.replies[1] == Reply::CtrlC(CtrlCDisposition::CopySelection) ==> closes(
            run,
            1,
            seq![KeyEffect::CopySelection, KeyEffect::ClearSelection],
        ),
        run.replies[1] == Reply::CtrlC(CtrlCDisposition::ConfirmExit) ==> run.ends(
            1,
            seq![KeyEffect::ShutdownEngine],
            KeyEventAction::Return,
        ),
        run.replies[1] == Reply::CtrlC(CtrlCDisposition::ArmExit) ==> closes(
            run,
            1,
            seq![KeyEffect::ArmQuit],
        ),
        run.replies[1] == Reply::CtrlC(CtrlCDisposition::CancelTurn) ==> {
            &&& run.effects(1) == seq![KeyEffect::CancelEngine, KeyEffect::MarkCancelled]
            &&& run.after[2].stream.current_streaming_text@.len() == 0
            &&& run.after[2] == (App {
                stream: Stream {
                    current_streaming_text: run.after[2].stream.current_streaming_text,
                    ..run.before[2].stream
                },
                ..run.before[2]
            })
            &&& run.effects(2) == seq![KeyEffect::RestorePrompt]
            &&& closes(run, 3, seq![KeyEffect::DisarmQuit])
            &&& run.replies[3] == Reply::Flag(true) ==> run.after[3] == saying(
                run.before[3],
                Notice::CancelledRestored,
            )
            &&& run.replies[3] == Reply::Flag(false) ==> run.after[3] == saying(
                run.before[3],
                Notice::Cancelled,
            )
        },
{
    runs::first_step(run);
    keys::modifiers_apart(run.key.modifiers);
    runs::later_step(run, 1);
    if run.steps.len() > 2 {
        runs::later_step(run, 2);
        if run.steps.len() > 3 {
            runs::later_step(run, 3);
            if run.steps.len() > 4 {
                runs::later_step(run, 4);
            }
        }
    }
}

// The composer

/// The one thing that Control with a letter does to the composer.
pub open spec fn edit_of(app: App, key: Key, c: char) -> Option<KeyEffect> {
    if c == 'a' {
        Some(KeyEffect::SelectAll)
    } else if c == 'e' {
        Some(KeyEffect::MoveEnd)
    } else if c == 'u' {
        Some(KeyEffect::ClearInputRecoverable)
    } else if c == 'w' || c == 'W' {
        Some(KeyEffect::Erase(Erasure::WordBackward))
    } else if c == 'y' && !(nothing_typed(app) && app.screen.top_modal is None) {
        Some(KeyEffect::Yank)
    } else if c == 'x' {
        Some(
            KeyEffect::SetMode(
                if app.session.mode == AppMode::Plan {
                    AppMode::Agent
                } else {
                    AppMode::Plan
                },
            ),
        )
    } else {
        None
    }
}

/// Control with a letter edits the composer, and changes nothing besides.
pub proof fn control_letters_edit(run: Run, c: char, effect: KeyEffect)
    requires
        run.complete(),
        run.key.code == KeyCode::Char(c),
        control(run.key),
        !run.key.traits.composer_newline,
        edit_of(run.before[0], run.key, c) == Some(effect),
    ensures
        closes(run, 0, seq![effect]),
        run.after[0] == run.before[0],
{
    runs::first_step(run);
    if run.steps.len() > 1 {
        runs::later_step(run, 1);
    }
}

/// Ctrl+H as terminals send it for Backspace removes a selected attachment, and a character only
/// where there was none.
pub proof fn ctrl_h_is_backspace(run: Run)
    requires
        run.complete(),
        run.key.code == KeyCode::Char('h'),
        run.key.traits.ctrl_h_backspace,
        !run.key.traits.composer_newline,
    ensures
        run.effects(0) == seq![KeyEffect::RemoveAttachment],
        run.after[0] == run.before[0],
        run.after[1] == run.before[1],
        run.replies[1] == Reply::Flag(true) ==> closes(run, 1, seq![]),
        run.replies[1] == Reply::Flag(false) ==> closes(
            run,
            1,
            seq![KeyEffect::Erase(Erasure::CharBackward)],
        ),
{
    runs::first_step(run);
    runs::later_step(run, 1);
    if run.steps.len() > 2 {
        runs::later_step(run, 2);
    }
}

/// Ctrl+S puts the draft by and clears the composer, and does nothing with an empty one.
pub proof fn draft_is_stashed(run: Run, c: char)
    requires
        run.complete(),
        run.key.code == KeyCode::Char(c),
        c == 's' || c == 'S',
        run.key.modifiers.bits == CONTROL,
        !run.key.traits.composer_newline,
    ensures
        run.after[0] == run.before[0],
        nothing_typed(run.before[0]) ==> closes(run, 0, seq![]),
        !nothing_typed(run.before[0]) ==> closes(
            run,
            0,
            seq![
                KeyEffect::StashDraft(run.before[0].composer.input),
                KeyEffect::ClearInputRecoverable,
                KeyEffect::ShowToast(Toast::DraftStashed),
            ],
        ),
{
    runs::first_step(run);
    if run.steps.len() > 1 {
        runs::later_step(run, 1);
    }
}

/// With an empty composer and no view open, Ctrl+Y copies the cell in focus, and Y the thinking; a
/// toast says that something was copied, and the status line that there was no cell.
pub proof fn cells_are_copied(run: Run, c: char)
    requires
        run.complete(),
        run.key.code == KeyCode::Char(c),
        c == 'y' && control(run.key) || c == 'Y',
        !run.key.traits.composer_newline,
        nothing_typed(run.before[0]),
        run.before[0].screen.top_modal is None,
    ensures
        ({
            let copied = run.replies[1] == Reply::Flag(true);
            let cell = c == 'y';
            &&& run.effects(0) == seq![
                if cell {
                    KeyEffect::CopyFocusedCell
                } else {
                    KeyEffect::CopyThinkingCell
                },
            ]
            &&& run.after[0] == run.before[0]
            &&& copied && cell ==> closes(run, 1, seq![KeyEffect::ShowToast(Toast::Copied)])
            &&& copied && !cell ==> closes(
                run,
                1,
                seq![KeyEffect::ShowToast(Toast::ThinkingCopied)],
            )
            &&& !copied ==> closes(run, 1, seq![])
            &&& !copied && cell ==> run.after[1] == saying(run.before[1], Notice::NoCellToCopy)
            &&& copied || !cell ==> run.after[1] == run.before[1]
        }),
{
    runs::first_step(run);
    runs::later_step(run, 1);
    if run.steps.len() > 2 {
        runs::later_step(run, 2);
    }
}

/// The first of the two names that is not blank, or `vi`.
pub open spec fn named(visual: Option<String>, editor: Option<String>, name: Seq<char>) -> bool {
    let first = visual is Some && !text::blank(visual->0@);
    let second = editor is Some && !text::blank(editor->0@);
    &&& first ==> name == visual->0@
    &&& !first && second ==> name == editor->0@
    &&& !first && !second ==> name == "vi"@
}

/// Where the external editor was opened on the text of the composer with step `i`, what it was left
/// with is taken over: the text that was edited is the composer's with the cursor behind it, and
/// the status line names the editor; otherwise the text stays, and the status line says why.
pub proof fn edited_text_is_taken(run: Run, i: int)
    requires
        run.complete(),
        run.key.code is Char,
        0 <= i < run.steps.len(),
        run.steps[i].next == KeyNext::Await(
            KeyStage::Edited { key: run.key },
        ),
    ensures
        run.replies[i + 1] is Editor,
        run.replies[i + 1] == Reply::Editor(EditorOutcome::Unchanged) ==> closes(run, i + 1, seq![])
            && run.after[i + 1] == saying(to_redraw(run.before[i + 1]), Notice::EditorUnchanged),
        run.replies[i + 1] == Reply::Editor(EditorOutcome::Cancelled) ==> closes(run, i + 1, seq![])
            && run.after[i + 1] == saying(to_redraw(run.before[i + 1]), Notice::EditorCancelled),
        run.replies[i + 1] matches Reply::Editor(EditorOutcome::Failed(error)) ==> closes(
            run,
            i + 1,
            seq![],
        ) && run.after[i + 1] == saying(to_redraw(run.before[i + 1]), Notice::EditorError(error)),
        run.replies[i + 1] matches Reply::Editor(EditorOutcome::Edited(input)) ==> {
            &&& run.after[i + 1] == (App {
                composer: Composer { input, ..run.before[i + 1].composer },
                ..run.before[i + 1]
            })
            &&& run.effects(i + 1) == seq![KeyEffect::MoveEnd, KeyEffect::ReadEditorVariables]
            &&& closes(run, i + 2, seq![])
            &&& run.replies[i + 2] matches Reply::EditorVariables { visual, editor }
            &&& run.after[i + 2].status_message matches Some(Notice::EditedIn(name)) && named(
                visual,
                editor,
                name@,
            ) && run.after[i + 2] == saying(to_redraw(run.before[i + 2]), Notice::EditedIn(name))
        },
{
    runs::later_step(run, i + 1);
    if run.steps.len() > i + 2 {
        runs::later_step(run, i + 2);
        if run.steps.len() > i + 3 {
            runs::later_step(run, i + 3);
        }
    }
}

/// Ctrl+O on text that was typed opens the external editor on it.
pub proof fn text_is_edited_outside(run: Run)
    requires
        run.complete(),
        run.key.code == KeyCode::Char('o'),
        control(run.key),
        !run.key.traits.composer_newline,
        !nothing_typed(run.before[0]),
    ensures
        run.effects(0) == seq![KeyEffect::RunEditor(run.before[0].composer.input)],
        run.after[0] == run.before[0],
        run.steps[0].next == KeyNext::Await(
            KeyStage::Edited { key: run.key },
        ),
{
    runs::first_step(run);
}

/// Alt with a letter turns to its mode, and with V opens the details of a tool.
pub proof fn alt_letters_turn(run: Run, c: char)
    requires
        run.complete(),
        run.key.code == KeyCode::Char(c),
        meta(run.key) && !control(run.key),
        !run.key.traits.composer_newline,
        !run.key.traits.paste,
        !run.key.traits.ctrl_h_backspace,
    ensures
        ({
            let pre = run.before[0];
            let does = |effect: KeyEffect|
                run.ends(0, seq![effect], KeyEventAction::Handled) && run.after[0] == pre;
            let copies = nothing_typed(pre) && pre.screen.top_modal is None;
            &&& c == 'a' || c == 'A' ==> does(KeyEffect::SetMode(AppMode::Agent))
            &&& c == 'y' || c == 'Y' && !copies ==> does(KeyEffect::SetMode(AppMode::Yolo))
            &&& c == 'p' || c == 'P' ==> does(KeyEffect::SetMode(AppMode::Plan))
            &&& c == 'v' || c == 'V' ==> does(KeyEffect::OpenToolDetails)
        }),
{
    runs::first_step(run);
    keys::modifiers_apart(run.key.modifiers);
    if run.steps.len() > 1 {
        runs::later_step(run, 1);
    }
}

/// Whether the character is a shortcut of the transcript, which come before all else.
pub open spec fn is_transcript_key(run: Run, c: char) -> bool {
    let key = run.key;
    let empty = nothing_typed(run.before[0]);
    ||| key.traits.alt_nav && empty && c == 'l'
    ||| key.traits.alt_nav && empty && run.menus.slash == 0 && (c == 'g' || c == 'G' || c == '['
        || c == ']' || c == '?')
    ||| control(key) && empty && (c == 'o' || c == 'd')
    ||| control(key) && (c == 'r' || c == 'c')
    ||| key.traits.copy && (c == 'c' || c == 'C')
    ||| key.modifiers.bits == CONTROL && (c == 't' || c == 'T')
    ||| key.modifiers.bits == 0 && empty && c == ' '
    ||| meta(key) && (pane_of(c) is Some || c == '0' || c == '1' || c == '2' || c == '3' || c
        == '4')
}

/// Whether the character is a shortcut of the composer, which come before pasting.
pub open spec fn is_edit_key(run: Run, c: char) -> bool {
    let key = run.key;
    ||| key.traits.ctrl_h_backspace && c == 'h'
    ||| control(key) && (c == 'a' || c == 'e' || c == 'o' || c == 'u' || c == 'w' || c == 'W' || c
        == 'y' || c == 'x')
    ||| key.modifiers.bits == CONTROL && (c == 's' || c == 'S')
    ||| c == 'Y' && nothing_typed(run.before[0]) && run.before[0].screen.top_modal is None
}

/// Whether the character with Alt turns to a mode or opens the details of a tool.
pub open spec fn is_mode_key(run: Run, c: char) -> bool {
    meta(run.key) && (c == 'a' || c == 'A' || c == 'y' || c == 'Y' || c == 'p' || c == 'P' || c
        == 'v' || c == 'V')
}

/// A character that is no shortcut of the transcript breaks the line where the key does that.
/// Unless it edits the composer it pastes where the key does that. And unless it turns to a mode it
/// is typed, whatever modifiers are down.
pub proof fn characters_are_typed(run: Run, c: char)
    requires
        run.complete(),
        run.key.code == KeyCode::Char(c),
        !is_transcript_key(run, c),
    ensures
        ({
            let traits = run.key.traits;
            let edits = is_edit_key(run, c);
            &&& run.after[0] == run.before[0]
            &&& traits.composer_newline ==> closes(run, 0, seq![KeyEffect::InsertChar('\n')])
            &&& !traits.composer_newline && !edits && traits.paste ==> closes(
                run,
                0,
                seq![KeyEffect::PasteFromClipboard],
            )
            &&& !traits.composer_newline && !edits && !traits.paste && !is_mode_key(run, c)
                ==> types_it(run, 0, c)
        }),
{
    runs::first_step(run);
    keys::modifiers_apart(run.key.modifiers);
    if run.steps.len() > 1 {
        runs::later_step(run, 1);
    }
}

} // verus!
