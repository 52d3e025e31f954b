//! What holds of the keys that type no character, whatever the host answers on the way.

use vstd::prelude::*;

use crate::keyboard::runs;
use crate::keyboard::runs::Run;
use crate::keyboard::types::{Erasure, KeyEffect, KeyEventAction, KeyStage};
use crate::keys;
use crate::keys::{Key, KeyCode, ALT, CONTROL, SHIFT, SUPER};
use crate::notices::Notice;
use crate::state::{App, Composer, ModalKind, Queue, VimMode};
use crate::step::{EscEffect, EscapeAction, Reply};

verus! {

/// Whether the key ends with step `i`, handled, with these effects and the end of a paste burst.
pub open spec fn ends_with(run: Run, i: int, effects: Seq<KeyEffect>) -> bool {
    run.ends(i, effects.push(KeyEffect::ClearPasteBurstWindow), KeyEventAction::Handled)
}

// Tab

/// The attempts of Tab before it turns to the next mode.
pub open spec fn is_attempt(effect: KeyEffect) -> bool {
    ||| effect == KeyEffect::ApplyMention
    ||| effect == (KeyEffect::ApplySlash { for_editing: true })
    ||| effect == KeyEffect::CompleteCommand
    ||| effect == KeyEffect::CompleteMention
    ||| effect == KeyEffect::QueueDraft
}

/// The step that tries to complete a command without a menu.
pub open spec fn completing(run: Run) -> int {
    (if run.menus.mention > 0 {
        1int
    } else {
        0
    }) + if run.menus.slash > 0 {
        1int
    } else {
        0
    }
}

/// The step that turns to the next mode: one later while a turn is running, since the draft is to
/// be queued first.
pub open spec fn cycling(run: Run) -> int {
    if run.before[completing(run) + 2].turn.is_loading {
        completing(run) + 3
    } else {
        completing(run) + 2
    }
}

/// What Tab asks for at step `i`, as long as nothing was done before.
pub open spec fn tab_effect(run: Run, i: int) -> KeyEffect {
    let c = completing(run);
    if i == 0 && run.menus.mention > 0 {
        KeyEffect::ApplyMention
    } else if i < c {
        KeyEffect::ApplySlash { for_editing: true }
    } else if i == c {
        KeyEffect::CompleteCommand
    } else if i == c + 1 {
        KeyEffect::CompleteMention
    } else if i < cycling(run) {
        KeyEffect::QueueDraft
    } else {
        KeyEffect::CycleMode
    }
}

proof fn tab_goes_on(run: Run, n: int)
    requires
        run.complete(),
        run.key.code == KeyCode::Tab,
        0 <= n <= cycling(run),
        n < run.steps.len(),
        forall|j: int| #![trigger run.replies[j]]
            0 < j <= n ==> run.replies[j] == Reply::Flag(false),
    ensures
        run.effects(n) == seq![tab_effect(run, n)],
        run.steps[n].next is Await,
        run.after[n] == run.before[n],
        ({
            let c = completing(run);
            let key = run.key;
            run.stage(n) == if n == 0 && run.menus.mention > 0 {
                KeyStage::TabMention { key, menus: run.menus }
            } else if n < c {
                KeyStage::TabSlash { key }
            } else if n == c {
                KeyStage::TabCommand { key }
            } else if n == c + 1 {
                KeyStage::TabFile { key }
            } else if n < cycling(run) {
                KeyStage::TabQueue { key }
            } else {
                KeyStage::TabMode { key, prior: run.before[n].session.model }
            }
        }),
    decreases n,
{
    if n == 0 {
        runs::first_step(run);
    } else {
        tab_goes_on(run, n - 1);
        runs::later_step(run, n);
        assert(run.replies[n] == Reply::Flag(false));
    }
}

/// Tab tries one thing after the other: the highlighted mention, the highlighted command, a
/// command, a file name, and while a turn is running the draft; and only where all of them came to
/// nothing does it turn to the next mode. Then the engine learns of the model, where it has changed
/// with the mode.
pub proof fn tab_tries_in_order(run: Run, n: int)
    requires
        run.complete(),
        run.key.code == KeyCode::Tab,
        0 <= n <= cycling(run),
        n < run.steps.len(),
        forall|j: int| #![trigger run.replies[j]]
            0 < j <= n ==> run.replies[j] == Reply::Flag(false),
    ensures
        run.effects(n) == seq![tab_effect(run, n)],
        run.after[n] == run.before[n],
        run.steps.len() > n + 1,
        n < cycling(run) && run.replies[n + 1] == Reply::Flag(true) ==> run.is_done(n + 1)
            && run.after[n + 1] == run.before[n + 1],
        n == cycling(run) ==> {
            let (old_model, model) = (
                run.before[n].session.model,
                run.before[n + 1].session.model,
            );
            &&& old_model@ == model@ ==> ends_with(run, n + 1, seq![])
            &&& old_model@ != model@ ==> ends_with(
                run,
                n + 1,
                seq![KeyEffect::SetEngineModel(model)],
            )
            &&& run.after[n + 1] == run.before[n + 1]
        },
{
    tab_goes_on(run, n);
    runs::later_step(run, n + 1);
    if run.steps.len() > n + 2 {
        runs::later_step(run, n + 2);
    }
}

proof fn tab_until(run: Run, n: int) -> (m: int)
    requires
        run.complete(),
        run.key.code == KeyCode::Tab,
        0 <= n < run.steps.len(),
        n <= cycling(run),
        forall|j: int| #![trigger run.replies[j]]
            0 < j <= n ==> run.replies[j] == Reply::Flag(false),
    ensures
        n <= m <= cycling(run),
        m < run.steps.len(),
        forall|j: int| #![trigger run.replies[j]]
            0 < j <= m ==> run.replies[j] == Reply::Flag(false),
        m == cycling(run) || run.replies[m + 1] == Reply::Flag(true),
    decreases cycling(run) - n,
{
    tab_goes_on(run, n);
    runs::later_step(run, n + 1);
    if n == cycling(run) || run.replies[n + 1] == Reply::Flag(true) {
        n
    } else {
        assert(run.replies[n + 1] == Reply::Flag(false));
        tab_until(run, n + 1)
    }
}

/// Tab does one thing only: once an attempt has done something, the key ends as handled with
/// nothing more; and the mode is turned only where every attempt before has come to nothing, the
/// completion of commands and of file names among them.
pub proof fn tab_does_one_thing(run: Run, i: int)
    requires
        run.complete(),
        run.key.code == KeyCode::Tab,
        0 <= i < run.steps.len(),
    ensures
        i + 1 < run.steps.len() && run.effects(i).len() == 1 && is_attempt(run.effects(i)[0])
            && run.replies[i + 1] == Reply::Flag(true) ==> run.is_done(i + 1),
        run.effects(i).contains(KeyEffect::CycleMode) ==> {
            &&& i == cycling(run)
            &&& forall|j: int| #![trigger run.effects(j)]
                0 <= j < i ==> run.effects(j).len() == 1 && is_attempt(run.effects(j)[0])
                    && run.replies[j + 1] == Reply::Flag(false)
            &&& run.effects(completing(run)) == seq![KeyEffect::CompleteCommand]
            &&& run.effects(completing(run) + 1) == seq![KeyEffect::CompleteMention]
        },
{
    let m = tab_until(run, 0);
    tab_tries_in_order(run, m);
    if i <= m {
        tab_goes_on(run, i);
        assert(run.effects(i)[0] == tab_effect(run, i));
        if run.effects(i).contains(KeyEffect::CycleMode) {
            assert forall|j: int| #![trigger run.effects(j)] 0 <= j < i implies run.effects(j).len()
                == 1 && is_attempt(run.effects(j)[0]) && run.replies[j + 1] == Reply::Flag(
                false,
            ) by {
                tab_goes_on(run, j);
                assert(run.replies[j + 1] == Reply::Flag(false));
            }
            tab_goes_on(run, completing(run));
            tab_goes_on(run, completing(run) + 1);
        }
    }
}

// Esc

/// What Esc does first: it leaves vim's insert and visual modes; otherwise it drops the selection
/// of an attachment, then closes a mention menu, and only then is it asked what else it does.
pub proof fn escape_closes_the_nearest(run: Run)
    requires
        run.complete(),
        run.key.code == KeyCode::Esc,
    ensures
        ({
            let app = run.before[0];
            let vim = app.composer.vim_enabled && app.composer.vim_mode != VimMode::Normal;
            &&& run.after[0] == app
            &&& vim ==> run.ends(0, seq![KeyEffect::VimEnterNormal], KeyEventAction::Handled)
            &&& !vim ==> {
                &&& run.effects(0) == seq![KeyEffect::ClearAttachmentSelection]
                &&& run.steps.len() > 1
                &&& run.replies[1] == Reply::Flag(true) ==> run.is_done(1) && run.after[1]
                    == run.before[1]
                &&& run.replies[1] == Reply::Flag(false) && run.menus.mention > 0 ==> {
                    &&& ends_with(run, 1, seq![])
                    &&& run.after[1] == (App {
                        composer: Composer {
                            mention_menu_hidden: true,
                            mention_menu_selected: 0,
                            ..run.before[1].composer
                        },
                        ..run.before[1]
                    })
                }
                &&& run.replies[1] == Reply::Flag(false) && run.menus.mention == 0 ==> {
                    &&& run.effects(1) == seq![
                        KeyEffect::AskEscape { slash_menu_open: run.menus.slash > 0 },
                    ]
                    &&& run.after[1] == run.before[1]
                    &&& run.steps.len() > 2
                    &&& run.replies[2] is Escape
                    &&& run.stage(1) == (KeyStage::EscAction { key: run.key })
                }
            }
        }),
{
    runs::first_step(run);
    if run.steps.len() > 1 {
        runs::later_step(run, 1);
        if run.steps.len() > 2 {
            runs::later_step(run, 2);
        }
    }
}

/// Whether the host was asked what Esc does, and has said this.
pub open spec fn escapes_by(run: Run, action: EscapeAction) -> bool {
    &&& run.steps.len() > 2
    &&& run.effects(1) == seq![KeyEffect::AskEscape { slash_menu_open: run.menus.slash > 0 }]
    &&& run.replies[2] == Reply::Escape(action)
}

/// What the host says that Esc does is what is done: it closes the menu, cancels the turn and drops
/// what had streamed in, drops the draft, or clears the composer; each of these takes back a first
/// Esc. Where there is nothing else to do, and no turn is running and no live transcript is open,
/// the Esc goes to the backtrack.
pub proof fn escape_does_what_is_asked(run: Run)
    requires
        run.complete(),
        run.key.code == KeyCode::Esc,
    ensures
        ({
            let pre = run.before[2];
            let composer = Composer { backtrack_primed: false, ..pre.composer };
            &&& escapes_by(run, EscapeAction::CloseSlashMenu) ==> {
                &&& ends_with(run, 2, seq![KeyEffect::ResetBacktrack, KeyEffect::CloseSlashMenu])
                &&& run.after[2] == (App { composer, ..pre })
            }
            &&& escapes_by(run, EscapeAction::CancelRequest) ==> {
                &&& run.effects(2) == seq![
                    KeyEffect::ResetBacktrack,
                    KeyEffect::CancelEngine,
                    KeyEffect::MarkCancelled,
                ]
                &&& run.after[2] == (App { composer, ..pre })
                &&& ends_with(run, 3, seq![])
                &&& run.after[3].stream.current_streaming_text@.len() == 0
                &&& run.after[3].status_message == Some(Notice::Cancelled)
                &&& run.after[3].queue == run.before[3].queue
                &&& run.after[3].composer == run.before[3].composer
            }
            &&& escapes_by(run, EscapeAction::DiscardQueuedDraft) ==> {
                &&& ends_with(run, 2, seq![KeyEffect::ResetBacktrack])
                &&& run.after[2] == (App {
                    composer,
                    queue: Queue { queued_draft: None, ..pre.queue },
                    ..pre
                }).with_status(Notice::QueuedEditStopped)
            }
            &&& escapes_by(run, EscapeAction::ClearInput) ==> {
                &&& ends_with(
                    run,
                    2,
                    seq![KeyEffect::ResetBacktrack, KeyEffect::ClearInputRecoverable],
                )
                &&& run.after[2] == (App {
                    composer: Composer { edit_in_progress: false, ..composer },
                    ..pre
                })
            }
            &&& escapes_by(run, EscapeAction::Noop) ==> {
                let silent = pre.turn.is_loading || pre.screen.top_modal == Some(
                    ModalKind::LiveTranscript,
                );
                &&& run.after[2] == pre
                &&& silent ==> run.is_done(2)
                &&& !silent ==> {
                    &&& run.effects(2) == seq![KeyEffect::CountUserCells]
                    &&& run.after[3] == run.before[3]
                    &&& run.replies[3] matches Reply::Count(total) && run.effects(3) == seq![
                        KeyEffect::BacktrackEsc { total },
                    ]
                    &&& run.steps.len() == 5
                    &&& run.replies[4] matches Reply::Backtrack(effect) && {
                        &&& effect == EscEffect::OpenOverlay ==> ends_with(
                            run,
                            4,
                            seq![KeyEffect::OpenBacktrackOverlay],
                        )
                        &&& effect != EscEffect::OpenOverlay ==> ends_with(run, 4, seq![])
                        &&& effect == EscEffect::Prime ==> run.after[4].screen.needs_redraw
                            && run.after[4].status_message == Some(Notice::BacktrackPrimed)
                        &&& effect == EscEffect::Cancel ==> run.after[4].screen.needs_redraw
                            && run.after[4].status_message == Some(Notice::BacktrackCanceled)
                        &&& effect == EscEffect::Nothing || effect == EscEffect::OpenOverlay
                            ==> run.after[4] == run.before[4]
                    }
                }
            }
        }),
{
    escape_closes_the_nearest(run);
    runs::first_step(run);
    if run.steps.len() > 2 && run.effects(1) == seq![
        KeyEffect::AskEscape { slash_menu_open: run.menus.slash > 0 },
    ] {
        runs::later_step(run, 1);
        assert(run.effects(1)[0] is AskEscape);
        runs::later_step(run, 2);
        if run.steps.len() > 3 {
            runs::later_step(run, 3);
            if run.steps.len() > 4 {
                runs::later_step(run, 4);
                if run.steps.len() > 5 {
                    runs::later_step(run, 5);
                }
            }
        }
    }
}

// The arrows

/// The lines of a screenful, but never less than `least`.
pub open spec fn at_least(visible: usize, least: usize) -> usize {
    if visible < least {
        least
    } else {
        visible
    }
}

/// Whether no modifier is down with the key.
pub open spec fn bare_arrow(key: Key) -> bool {
    key.modifiers.bits == 0
}

/// Up and Down with Super scroll by a screenful, with Alt or Shift by three lines.
pub proof fn arrows_with_modifiers_scroll(run: Run)
    requires
        run.complete(),
        run.key.code == KeyCode::Up || run.key.code == KeyCode::Down,
        run.key.modifiers.has(SUPER) || run.key.modifiers.has(ALT) || run.key.modifiers.has(SHIFT),
    ensures
        ({
            let lines = if run.key.modifiers.has(SUPER) {
                at_least(run.before[0].screen.last_transcript_visible, 3)
            } else {
                3
            };
            &&& run.key.code == KeyCode::Up ==> ends_with(run, 0, seq![KeyEffect::ScrollUp(lines)])
            &&& run.key.code == KeyCode::Down ==> ends_with(
                run,
                0,
                seq![KeyEffect::ScrollDown(lines)],
            )
            &&& run.after[0] == run.before[0]
        }),
{
    keys::modifiers_apart(run.key.modifiers);
    runs::first_step(run);
    if run.steps.len() > 1 {
        runs::later_step(run, 1);
    }
}

/// In an open mention menu the bare arrows move the selection by one entry, and not beyond its
/// ends; at the first entry Up goes elsewhere.
pub proof fn arrows_move_in_the_mention_menu(run: Run)
    requires
        run.complete(),
        bare_arrow(run.key),
        run.menus.mention > 0,
    ensures
        ({
            let (pre, post) = (run.before[0], run.after[0]);
            let (from, to) = (
                pre.composer.mention_menu_selected as int,
                post.composer.mention_menu_selected as int,
            );
            &&& run.key.code == KeyCode::Up ==> to == if from > 0 {
                from - 1
            } else {
                0
            }
            &&& run.key.code == KeyCode::Up && from > 0 ==> ends_with(run, 0, seq![])
            &&& run.key.code == KeyCode::Down ==> ends_with(run, 0, seq![]) && to == if from + 1
                < run.menus.mention {
                from + 1
            } else {
                run.menus.mention - 1
            }
            &&& run.key.code == KeyCode::Up || run.key.code == KeyCode::Down ==> post == (App {
                composer: Composer {
                    mention_menu_selected: post.composer.mention_menu_selected,
                    ..pre.composer
                },
                ..pre
            })
        }),
{
    keys::modifiers_apart(run.key.modifiers);
    runs::first_step(run);
    if run.steps.len() > 1 {
        runs::later_step(run, 1);
    }
}

/// Whether the arrow moves the selection of the mention menu.
pub open spec fn moves_a_mention(run: Run) -> bool {
    bare_arrow(run.key) && run.menus.mention > 0 && (run.key.code == KeyCode::Down
        || run.before[0].composer.mention_menu_selected > 0)
}

/// Where no mention is to be moved to, the bare arrows move in the slash menu, then among the
/// attachments; and with no menu open Up goes from the start of the text to the attachments, or
/// takes a queued message back into an idle composer. Otherwise the arrows go to the history,
/// unless the key breaks the line.
pub proof fn arrows_find_their_place(run: Run)
    requires
        run.complete(),
        run.key.code == KeyCode::Up || run.key.code == KeyCode::Down,
        !run.key.modifiers.has(SUPER),
        !run.key.modifiers.has(ALT),
        !run.key.modifiers.has(SHIFT),
        !moves_a_mention(run),
    ensures
        ({
            let app = run.before[0];
            let (bare, up) = (bare_arrow(run.key), run.key.code == KeyCode::Up);
            let (entries, mentions) = (run.menus.slash, run.menus.mention);
            let chosen = app.composer.selected_attachment is Some;
            let back = bare && up && app.composer.cursor_position == 0 && entries == 0 && mentions
                == 0 && !chosen;
            let attached = back && app.composer.attachments > 0;
            let queued = back && app.composer.attachments == 0 && app.composer.input@.len() == 0
                && app.queue.queued_draft is None && app.queue.queued_messages > 0;
            &&& run.after[0] == app
            &&& bare && entries > 0 && up ==> ends_with(
                run,
                0,
                seq![KeyEffect::PreviousSlashEntry { entries }],
            )
            &&& bare && entries > 0 && !up ==> ends_with(
                run,
                0,
                seq![KeyEffect::NextSlashEntry { entries }],
            )
            &&& bare && entries == 0 && chosen && up ==> ends_with(
                run,
                0,
                seq![KeyEffect::PreviousAttachment],
            )
            &&& bare && entries == 0 && chosen && !up ==> ends_with(
                run,
                0,
                seq![KeyEffect::NextAttachment],
            )
            &&& attached ==> run.ends(
                0,
                seq![KeyEffect::PreviousAttachment],
                KeyEventAction::Handled,
            )
            &&& queued ==> ends_with(run, 0, seq![KeyEffect::PopLastQueued])
            &&& !(bare && (entries > 0 || chosen)) && !attached && !queued ==> ends_with(
                run,
                0,
                seq![
                    if run.key.traits.composer_newline {
                        KeyEffect::InsertChar('\n')
                    } else {
                        KeyEffect::HistoryArrow {
                            key: run.key,
                            slash_menu_open: entries > 0,
                            mention_menu_open: mentions > 0,
                        }
                    },
                ],
            )
        }),
{
    keys::modifiers_apart(run.key.modifiers);
    runs::first_step(run);
    if run.steps.len() > 1 {
        runs::later_step(run, 1);
    }
}

// Erasing, moving and scrolling

/// What an erasing key takes away, forwards with Delete and backwards with Backspace: a character,
/// a word with Alt or Control, and with Super and Backspace all up to the start of the line.
pub open spec fn erased_by(key: Key) -> Erasure {
    let word = key.modifiers.has(ALT) || key.modifiers.has(CONTROL);
    if key.code == KeyCode::Delete {
        if word {
            Erasure::WordForward
        } else {
            Erasure::CharForward
        }
    } else if key.modifiers.has(SUPER) {
        Erasure::ToLineStart
    } else if word {
        Erasure::WordBackward
    } else {
        Erasure::CharBackward
    }
}

/// An erasing key removes a selected attachment, and text only where there was none.
pub proof fn erasing_keys_erase(run: Run)
    requires
        run.complete(),
        run.key.code == KeyCode::Backspace || run.key.code == KeyCode::Delete,
        !run.key.traits.composer_newline,
    ensures
        run.effects(0) == seq![KeyEffect::RemoveAttachment],
        run.steps.len() == 2,
        run.after[0] == run.before[0],
        run.after[1] == run.before[1],
        run.replies[1] == Reply::Flag(true) ==> ends_with(run, 1, seq![]),
        run.replies[1] == Reply::Flag(false) ==> ends_with(
            run,
            1,
            seq![KeyEffect::Erase(erased_by(run.key))],
        ),
{
    runs::first_step(run);
    runs::later_step(run, 1);
    if run.steps.len() > 2 {
        runs::later_step(run, 2);
    }
}

/// The one thing that a key does which moves the cursor or the transcript.
pub open spec fn moved_by(app: App, key: Key) -> Option<KeyEffect> {
    let page = at_least(app.screen.last_transcript_visible, 1);
    let control = key.modifiers.has(CONTROL);
    let word = key.traits.word_cursor;
    match key.code {
        KeyCode::PageUp => Some(KeyEffect::ScrollUp(page)),
        KeyCode::PageDown => Some(KeyEffect::ScrollDown(page)),
        KeyCode::BackTab => Some(KeyEffect::CycleEffort),
        KeyCode::Left if !key.traits.composer_newline => Some(
            if word {
                KeyEffect::MoveWordBackward
            } else {
                KeyEffect::MoveLeft
            },
        ),
        KeyCode::Right if !key.traits.composer_newline => Some(
            if word {
                KeyEffect::MoveWordForward
            } else {
                KeyEffect::MoveRight
            },
        ),
        KeyCode::Home if !key.traits.composer_newline => Some(
            if control {
                KeyEffect::ScrollToTop
            } else {
                KeyEffect::MoveLineStart
            },
        ),
        KeyCode::End if !key.traits.composer_newline => Some(
            if control {
                KeyEffect::ScrollToBottom
            } else {
                KeyEffect::MoveLineEnd
            },
        ),
        _ => None,
    }
}

/// The keys that move do that and nothing else, and change no state.
pub proof fn moving_keys_move(run: Run, effect: KeyEffect)
    requires
        run.complete(),
        moved_by(run.before[0], run.key) == Some(effect),
    ensures
        ends_with(run, 0, seq![effect]),
        run.after[0] == run.before[0],
{
    runs::first_step(run);
    if run.steps.len() > 1 {
        runs::later_step(run, 1);
    }
}

/// Whether the key is one that does nothing else where it breaks the line.
pub open spec fn may_break_the_line(key: Key) -> bool {
    match key.code {
        KeyCode::Backspace | KeyCode::Delete | KeyCode::Left | KeyCode::Right | KeyCode::Home
        | KeyCode::End | KeyCode::F(_) | KeyCode::Other => true,
        _ => false,
    }
}

/// A key that breaks the line does that before anything else that it may be bound to. One that
/// nothing is bound to pastes where it does that, and is otherwise left to the caller.
pub proof fn other_keys_break_or_paste(run: Run)
    requires
        run.complete(),
        may_break_the_line(run.key),
    ensures
        ({
            let traits = run.key.traits;
            let unbound = run.key.code is F || run.key.code is Other;
            &&& run.after[0] == run.before[0]
            &&& traits.composer_newline ==> ends_with(run, 0, seq![KeyEffect::InsertChar('\n')])
            &&& unbound && !traits.composer_newline && traits.paste ==> ends_with(
                run,
                0,
                seq![KeyEffect::PasteFromClipboard],
            )
            &&& unbound && !traits.composer_newline && !traits.paste ==> run.ends(
                0,
                seq![KeyEffect::ClearPasteBurstWindow],
                KeyEventAction::Continue,
            )
        }),
{
    runs::first_step(run);
    if run.steps.len() > 1 {
        runs::later_step(run, 1);
    }
}

} // verus!
