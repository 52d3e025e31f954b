//! What holds of a terminal event from its first step to its last, whatever the host answers on the
//! way.

use vstd::prelude::*;

use crate::state::{App, Composer, OnboardingState, Screen};
use crate::step::{Drained, Reply};
use crate::terminal::{
    Handling, TerminalEffect, TerminalEvent, TerminalEventOutcome, TerminalNext, TerminalStage,
};

verus! {

/// Whether the steps are all those of the event.
pub open spec fn complete(run: Handling) -> bool {
    run.well_formed() && !(run.steps.last().next is Await)
}

/// What step `i` asks for.
pub open spec fn effects(run: Handling, i: int) -> Seq<TerminalEffect> {
    run.steps[i].effects@
}

/// Whether step `i` is the last, asks for `asked` and ends the event as consumed.
pub open spec fn ends(run: Handling, i: int, asked: Seq<TerminalEffect>) -> bool {
    &&& i == run.steps.len() - 1
    &&& effects(run, i) == asked
    &&& run.steps[i].next == TerminalNext::Finish(TerminalEventOutcome::Consumed)
}

proof fn step_resumes(run: Handling, i: int)
    requires
        run.well_formed(),
        0 < i < run.steps.len(),
    ensures
        run.resumes(i),
{
}

/// Pasted text is put into one place, and as it is: on the screen for the API key into its field,
/// else into an active history search; else it is offered to the views, and goes into the composer
/// only where none of them took it and none is open. That text can be pasted is kept in mind.
pub proof fn pasted_text_has_one_place(run: Handling, text: String)
    requires
        complete(run),
        run.event == (TerminalEvent::Paste { text }),
    ensures
        ({
            let pre = run.before[0];
            let entering = pre.onboarding.state == OnboardingState::ApiKey;
            let searching = pre.composer.history_search_active;
            &&& run.after[0] == (App {
                composer: Composer { bracketed_paste_seen: true, ..pre.composer },
                ..pre
            })
            &&& entering ==> ends(
                run,
                0,
                seq![TerminalEffect::InsertKeyText(text), TerminalEffect::SyncKeyStatus],
            )
            &&& !entering && searching ==> ends(
                run,
                0,
                seq![TerminalEffect::HistorySearchInsert(text)],
            )
            &&& !entering && !searching ==> {
                let open = run.before[1].screen.top_modal is Some;
                &&& effects(run, 0) == seq![TerminalEffect::ModalPaste(text)]
                &&& run.after[1] == run.before[1]
                &&& run.replies[1] == Reply::Flag(true) || open ==> ends(run, 1, seq![])
                &&& run.replies[1] == Reply::Flag(false) && !open ==> ends(
                    run,
                    1,
                    seq![TerminalEffect::InsertPaste(text)],
                )
                &&& run.replies[1] is Flag
            }
        }),
{
    if run.steps.len() > 1 {
        step_resumes(run, 1);
        if run.steps.len() > 2 {
            step_resumes(run, 2);
        }
    }
}

/// Whether the modes of the terminal are set anew: where the terminal may have left them, and it
/// was not done in the last fifth of a second.
pub open spec fn recovers(run: Handling) -> bool {
    run.recapture && run.now - run.before[0].screen.last_focus_recovery >= 200_000_000
}

/// Where the terminal may have left its modes, every event that is no pasted text has the whole
/// screen painted anew, and the modes are set anew before anything else, unless that was done a
/// moment ago; otherwise nothing of the kind is done.
pub proof fn terminal_is_recaptured(run: Handling)
    requires
        complete(run),
        !(run.event is Paste),
    ensures
        ({
            let (pre, post) = (run.before[0], run.after[0]);
            &&& !run.recapture ==> post == pre
            &&& run.recapture ==> post == (App {
                screen: Screen {
                    last_focus_recovery: post.screen.last_focus_recovery,
                    force_terminal_repaint: true,
                    needs_redraw: true,
                    ..pre.screen
                },
                ..pre
            })
            &&& recovers(run) ==> post.screen.last_focus_recovery == run.now
            &&& !recovers(run) ==> post.screen.last_focus_recovery
                == pre.screen.last_focus_recovery
            &&& recovers(run) ==> effects(run, 0).len() > 0 && effects(run, 0)[0]
                == TerminalEffect::RecoverModes
            &&& !recovers(run) ==> !effects(run, 0).contains(TerminalEffect::RecoverModes)
        }),
{
}

/// What the first step asks for behind the recovery of the modes, where there is one.
pub open spec fn behind_recovery(run: Handling) -> Seq<TerminalEffect> {
    if recovers(run) {
        effects(run, 0).drop_first()
    } else {
        effects(run, 0)
    }
}

/// A change of focus asks for nothing more and is consumed. An event that is none of those known
/// here asks for nothing more and goes back to the main loop.
pub proof fn focus_and_keys_ask_for_nothing(run: Handling)
    requires
        complete(run),
        run.event is Focus || run.event is Other,
    ensures
        run.steps.len() == 1,
        behind_recovery(run) == Seq::<TerminalEffect>::empty(),
        run.event is Focus ==> run.steps[0].next == TerminalNext::Finish(
            TerminalEventOutcome::Consumed,
        ),
        run.event is Other ==> run.steps[0].next == TerminalNext::Finish(
            TerminalEventOutcome::NotConsumed,
        ),
{
    if run.steps.len() > 1 {
        step_resumes(run, 1);
    }
}

/// A mouse event is consumed at once where the mouse is not captured. Where it is, motion may be
/// dropped; otherwise the event is handled and the views hear of it. The main loop returns where
/// they ask for that, and the event ends with their error where they fail.
pub proof fn mouse_is_handled(run: Handling)
    requires
        complete(run),
        run.event is Mouse,
    ensures
        ({
            let captured = run.before[0].screen.use_mouse_capture;
            &&& !captured ==> run.steps.len() == 1 && behind_recovery(run) == Seq::<
                TerminalEffect,
            >::empty() && run.steps[0].next == TerminalNext::Finish(TerminalEventOutcome::Consumed)
            &&& captured ==> {
                &&& behind_recovery(run) == seq![TerminalEffect::AskDropMotion]
                &&& run.after[1] == run.before[1]
                &&& run.replies[1] == Reply::Flag(true) ==> ends(run, 1, seq![])
                &&& run.replies[1] == Reply::Flag(false) ==> {
                    &&& effects(run, 1) == seq![
                        TerminalEffect::HandleMouse,
                        TerminalEffect::HandleViewEvents,
                    ]
                    &&& run.steps.len() == 3
                    &&& effects(run, 2).len() == 0
                    &&& run.after[2] == run.before[2]
                    &&& run.replies[2] == Reply::Flag(true) ==> run.steps[2].next
                        == TerminalNext::Finish(TerminalEventOutcome::Return)
                    &&& run.replies[2] == Reply::Flag(false) ==> run.steps[2].next
                        == TerminalNext::Finish(TerminalEventOutcome::Consumed)
                    &&& run.replies[2] matches Reply::Failed(error) ==> run.steps[2].next
                        == TerminalNext::Fail(error)
                }
                &&& run.replies[1] is Flag
            }
        }),
{
    if run.steps.len() > 1 {
        step_resumes(run, 1);
        if run.steps.len() > 2 {
            step_resumes(run, 2);
            if run.steps.len() > 3 {
                step_resumes(run, 3);
            }
        }
    }
}

/// The size that is known after `i` resizes were drained: the last one of them, or that of the
/// event.
pub open spec fn size_after(run: Handling, i: int) -> (u16, u16) {
    if i == 0 {
        (run.event->width, run.event->height)
    } else {
        match run.replies[i] {
            Reply::Drained(Drained::Resize { width, height }) => (width, height),
            _ => (0, 0),
        }
    }
}

proof fn resizes_go_on(run: Handling, n: int)
    requires
        complete(run),
        run.event is Resize,
        0 <= n,
        forall|i: int| #![trigger run.replies[i]]
            0 < i <= n ==> run.replies[i] matches Reply::Drained(Drained::Resize { .. }),
        n < run.steps.len(),
    ensures
        ({
            let (width, height) = size_after(run, n);
            run.steps[n].next == TerminalNext::Await(TerminalStage::ResizeDrain { width, height })
        }),
        n > 0 ==> effects(run, n) == seq![TerminalEffect::DrainEvent] && run.after[n]
            == run.before[n],
        n == 0 ==> behind_recovery(run) == seq![TerminalEffect::DrainEvent],
        n + 1 < run.steps.len(),
    decreases n,
{
    if n > 0 {
        resizes_go_on(run, n - 1);
        step_resumes(run, n);
        assert(run.replies[n] matches Reply::Drained(Drained::Resize { .. }));
    }
}

/// Resizes that are waiting are drained one after the other, and then the last of them is acted on,
/// or the event's own where none was waiting: the viewport and the transcript get its size, and the
/// screen is drawn under it once. Whether that succeeds or not, the size is given free again; a
/// draw that fails is reported and counts for nothing.
pub proof fn last_waiting_resize_counts(run: Handling, n: int)
    requires
        complete(run),
        run.event is Resize,
        0 <= n < run.steps.len(),
        forall|i: int| #![trigger run.replies[i]]
            0 < i <= n ==> run.replies[i] matches Reply::Drained(Drained::Resize { .. }),
    ensures
        n > 0 ==> effects(run, n) == seq![TerminalEffect::DrainEvent],
        n == 0 ==> behind_recovery(run) == seq![TerminalEffect::DrainEvent],
        n > 0 ==> run.after[n] == run.before[n],
        run.replies[n + 1] is Drained,
        !(run.replies[n + 1] matches Reply::Drained(Drained::Resize { .. })) ==> {
            let (width, height) = size_after(run, n);
            &&& effects(run, n + 1) == seq![
                TerminalEffect::ResizeTerminal { width, height },
                TerminalEffect::HandleResize { width, height },
                TerminalEffect::ForceSize { width, height },
                TerminalEffect::DrawFrame,
            ]
            &&& run.after[n + 1] == run.before[n + 1]
            &&& run.steps.len() == n + 3
            &&& effects(run, n + 2) == seq![TerminalEffect::ClearForcedSize]
            &&& run.replies[n + 2] == Reply::Done ==> ends(
                run,
                n + 2,
                seq![TerminalEffect::ClearForcedSize],
            ) && run.after[n + 2] == (App {
                screen: Screen {
                    draws_since_last_full_repaint: 0,
                    needs_redraw: false,
                    ..run.before[n + 2].screen
                },
                ..run.before[n + 2]
            })
            &&& run.replies[n + 2] matches Reply::Failed(error) ==> run.steps[n + 2].next
                == TerminalNext::Fail(error) && run.after[n + 2] == run.before[n + 2]
        },
{
    resizes_go_on(run, n);
    step_resumes(run, n + 1);
    if run.steps.len() > n + 2 {
        step_resumes(run, n + 2);
        if run.steps.len() > n + 3 {
            step_resumes(run, n + 3);
        }
    }
}

} // verus!
