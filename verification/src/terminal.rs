//! Terminal events other than keys: pasted text, focus, resizes and the mouse.

use vstd::prelude::*;

use crate::state;
use crate::state::{time_since, App, Composer, OnboardingState, Screen};
use crate::step;
use crate::step::{one, two, Drained, Reply, ReplyKind, Step};

verus! {

/// How long after one recovery of the terminal's modes no other follows: 200 milliseconds. Some
/// terminals report a gained focus again when the modes are recovered.
pub const FOCUS_RECOVERY_DEBOUNCE: u128 = 200_000_000;

/// A terminal event, as far as the machine reads it.
#[derive(Debug, PartialEq)]
pub enum TerminalEvent {
    Paste { text: String },
    Resize { width: u16, height: u16 },
    Mouse,
    /// The focus was gained or lost.
    Focus,
    /// A key.
    Other,
}

/// What the host carries out while a terminal event is handled. An effect that returns something
/// says so, and so does one that may fail; the host keeps the event.
#[derive(Debug, PartialEq)]
pub enum TerminalEffect {
    /// Insert the text into the field for the API key.
    InsertKeyText(String),
    /// Bring the status line in line with the key as entered so far.
    SyncKeyStatus,
    HistorySearchInsert(String),
    /// Flag: whether a view took the text.
    ModalPaste(String),
    /// Insert the text into the composer.
    InsertPaste(String),
    /// Set the terminal's modes anew.
    RecoverModes,
    /// Drained: what the terminal has ready.
    DrainEvent,
    /// Give the viewport this size; a failure is only logged.
    ResizeTerminal { width: u16, height: u16 },
    /// Lay the transcript out for this size.
    HandleResize { width: u16, height: u16 },
    /// Let the terminal report this size until `ClearForcedSize`.
    ForceSize { width: u16, height: u16 },
    /// Clear the screen and draw it whole. It may fail.
    DrawFrame,
    ClearForcedSize,
    /// Flag: whether the mouse has only moved and a turn is running.
    AskDropMotion,
    /// Handle the mouse event; the host keeps the events of the views.
    HandleMouse,
    /// Flag: whether one of the views' events ends the program. It may fail.
    HandleViewEvents,
}

/// Where the handling of a terminal event waits for the host.
#[derive(Debug, PartialEq)]
pub enum TerminalStage {
    PasteOffered { text: String },
    ResizeDrain { width: u16, height: u16 },
    Drawn,
    MouseAsked,
    MouseHandled,
}

impl TerminalEffect {
    /// What the effect returns.
    pub open spec fn reply_kind(self) -> ReplyKind {
        match self {
            TerminalEffect::ModalPaste(..) => ReplyKind::Flag,
            TerminalEffect::AskDropMotion => ReplyKind::Flag,
            TerminalEffect::HandleViewEvents => ReplyKind::Flag,
            TerminalEffect::DrainEvent => ReplyKind::Drained,
            _ => ReplyKind::Done,
        }
    }

    /// Whether the effect may fail.
    pub open spec fn may_fail(self) -> bool {
        match self {
            TerminalEffect::DrawFrame => true,
            TerminalEffect::HandleViewEvents => true,
            _ => false,
        }
    }
}

impl TerminalStage {
    /// What the stage waits for.
    pub open spec fn awaited_kind(self) -> ReplyKind {
        match self {
            TerminalStage::PasteOffered { .. } => ReplyKind::Flag,
            TerminalStage::MouseAsked => ReplyKind::Flag,
            TerminalStage::MouseHandled => ReplyKind::Flag,
            TerminalStage::ResizeDrain { .. } => ReplyKind::Drained,
            _ => ReplyKind::Done,
        }
    }

    /// Whether the stage waits for an effect that may fail.
    pub open spec fn may_fail(self) -> bool {
        match self {
            TerminalStage::Drawn => true,
            TerminalStage::MouseHandled => true,
            _ => false,
        }
    }

    /// Whether the reply is one that the stage waits for.
    pub open spec fn accepts(self, reply: Reply) -> bool {
        ||| reply.kind() == self.awaited_kind()
        ||| reply is Failed && self.may_fail()
    }
}

/// The outcome of a terminal event.
#[derive(Debug, Clone, Copy, PartialEq, Eq, Structural)]
pub enum TerminalEventOutcome {
    /// The event is consumed; the main loop goes on to the next one.
    Consumed,
    /// The main loop returns.
    Return,
    /// The event is of no kind that is handled here; it goes back to the main loop, which may find
    /// a key in it.
    NotConsumed,
}

/// How the handling of a terminal event goes on.
#[derive(Debug, PartialEq)]
pub enum TerminalNext {
    Await(TerminalStage),
    Finish(TerminalEventOutcome),
    /// The event could not be handled; the text is the error.
    Fail(String),
}

/// One step of the handling of a terminal event.
pub type TerminalStep = Step<TerminalEffect, TerminalNext>;

/// The event ends with an error after `effects`.
pub open spec fn fails(step: TerminalStep, effects: Seq<TerminalEffect>, error: String) -> bool {
    step::step_is(step, effects, TerminalNext::Fail(error))
}

/// The event ends with an error after `effects`.
fn fail(effects: Vec<TerminalEffect>, error: String) -> (step: TerminalStep)
    ensures
        fails(step, effects@, error),
{
    Step { effects, next: TerminalNext::Fail(error) }
}

/// The event is handled after `effects`.
pub open spec fn finishes(
    step: TerminalStep,
    effects: Seq<TerminalEffect>,
    outcome: TerminalEventOutcome,
) -> bool {
    step::step_is(step, effects, TerminalNext::Finish(outcome))
}

/// The handling goes on in `stage` after `effects`.
pub open spec fn waits(
    step: TerminalStep,
    effects: Seq<TerminalEffect>,
    stage: TerminalStage,
) -> bool {
    step::step_is(step, effects, TerminalNext::Await(stage))
}

fn finish(effects: Vec<TerminalEffect>, outcome: TerminalEventOutcome) -> (step: TerminalStep)
    ensures
        finishes(step, effects@, outcome),
{
    Step { effects, next: TerminalNext::Finish(outcome) }
}

fn consume(effects: Vec<TerminalEffect>) -> (step: TerminalStep)
    ensures
        finishes(step, effects@, TerminalEventOutcome::Consumed),
{
    finish(effects, TerminalEventOutcome::Consumed)
}

fn wait(effects: Vec<TerminalEffect>, stage: TerminalStage) -> (step: TerminalStep)
    ensures
        waits(step, effects@, stage),
{
    Step { effects, next: TerminalNext::Await(stage) }
}

// Pasted text goes to one place: the field for the API key, the history search, the top view, or
// the composer where no view is open.

pub open spec fn pasted(pre: App, text: String, post: App, step: TerminalStep) -> bool {
    &&& post == App { composer: Composer { bracketed_paste_seen: true, ..pre.composer }, ..pre }
    &&& if pre.onboarding.state == OnboardingState::ApiKey {
        finishes(
            step,
            seq![TerminalEffect::InsertKeyText(text), TerminalEffect::SyncKeyStatus],
            TerminalEventOutcome::Consumed,
        )
    } else if pre.composer.history_search_active {
        finishes(
            step,
            seq![TerminalEffect::HistorySearchInsert(text)],
            TerminalEventOutcome::Consumed,
        )
    } else {
        waits(
            step,
            seq![TerminalEffect::ModalPaste(text)],
            TerminalStage::PasteOffered { text },
        )
    }
}

pub open spec fn paste_offered(
    pre: App,
    text: String,
    taken: bool,
    post: App,
    step: TerminalStep,
) -> bool {
    &&& post == pre
    &&& finishes(
        step,
        if taken || pre.screen.top_modal is Some {
            seq![]
        } else {
            seq![TerminalEffect::InsertPaste(text)]
        },
        TerminalEventOutcome::Consumed,
    )
}

fn on_pasted(app: &mut App, text: String) -> (step: TerminalStep)
    ensures
        pasted(*old(app), text, *final(app), step),
{
    app.composer.bracketed_paste_seen = true;
    if app.onboarding.state == OnboardingState::ApiKey {
        consume(two(TerminalEffect::InsertKeyText(text), TerminalEffect::SyncKeyStatus))
    } else if app.composer.history_search_active {
        consume(one(TerminalEffect::HistorySearchInsert(text)))
    } else {
        wait(
            one(TerminalEffect::ModalPaste(text.clone())),
            TerminalStage::PasteOffered { text },
        )
    }
}

pub fn on_paste_offered(app: &mut App, text: String, taken: bool) -> (step: TerminalStep)
    ensures
        paste_offered(*old(app), text, taken, *final(app), step),
{
    if taken || app.screen.top_modal.is_some() {
        consume(Vec::new())
    } else {
        consume(one(TerminalEffect::InsertPaste(text)))
    }
}

// An event after which the terminal may be in another state than it was left in: its modes are
// recovered, though not twice in a short time, and the whole screen is repainted.

/// Whether the terminal's modes are recovered.
pub open spec fn recovery_due(app: App, recapture: bool, now: u128) -> bool {
    recapture && state::elapsed(app.screen.last_focus_recovery, now) >= FOCUS_RECOVERY_DEBOUNCE
}

/// The state after an event that asks for a recapture where `recapture` says so.
pub open spec fn recaptured(app: App, recapture: bool, now: u128) -> App {
    if recapture {
        App {
            screen: Screen {
                last_focus_recovery: if recovery_due(app, recapture, now) {
                    now
                } else {
                    app.screen.last_focus_recovery
                },
                force_terminal_repaint: true,
                needs_redraw: true,
                ..app.screen
            },
            ..app
        }
    } else {
        app
    }
}

/// What is carried out for a recapture.
pub open spec fn recovery(app: App, recapture: bool, now: u128) -> Seq<TerminalEffect> {
    if recovery_due(app, recapture, now) {
        seq![TerminalEffect::RecoverModes]
    } else {
        seq![]
    }
}

fn recapture_terminal(app: &mut App, recapture: bool, now: u128) -> (effects: Vec<TerminalEffect>)
    ensures
        *final(app) == recaptured(*old(app), recapture, now),
        effects@ == recovery(*old(app), recapture, now),
{
    let mut effects: Vec<TerminalEffect> = Vec::new();
    if recapture {
        if time_since(Some(app.screen.last_focus_recovery), now) >= FOCUS_RECOVERY_DEBOUNCE {
            effects.push(TerminalEffect::RecoverModes);
            app.screen.last_focus_recovery = now;
        }
        app.screen.force_terminal_repaint = true;
        app.screen.needs_redraw = true;
    }
    effects
}

/// The first step of a terminal event.
pub open spec fn event_begun(
    pre: App,
    event: TerminalEvent,
    recapture: bool,
    now: u128,
    post: App,
    step: TerminalStep,
) -> bool {
    let recovered = recovery(pre, recapture, now);
    match event {
        TerminalEvent::Paste { text } => pasted(pre, text, post, step),
        TerminalEvent::Resize { width, height } => {
            &&& post == recaptured(pre, recapture, now)
            &&& waits(
                step,
                recovered.push(TerminalEffect::DrainEvent),
                TerminalStage::ResizeDrain { width, height },
            )
        },
        TerminalEvent::Mouse => {
            &&& post == recaptured(pre, recapture, now)
            &&& if pre.screen.use_mouse_capture {
                waits(
                    step,
                    recovered.push(TerminalEffect::AskDropMotion),
                    TerminalStage::MouseAsked,
                )
            } else {
                finishes(step, recovered, TerminalEventOutcome::Consumed)
            }
        },
        TerminalEvent::Focus => {
            &&& post == recaptured(pre, recapture, now)
            &&& finishes(step, recovered, TerminalEventOutcome::Consumed)
        },
        TerminalEvent::Other => {
            &&& post == recaptured(pre, recapture, now)
            &&& finishes(step, recovered, TerminalEventOutcome::NotConsumed)
        },
    }
}

/// Begins to handle a terminal event. `recapture` tells whether the terminal may have left its
/// modes and its viewport.
pub fn begin_terminal_event(app: &mut App, event: TerminalEvent, recapture: bool, now: u128) -> (step:
    TerminalStep)
    ensures
        event_begun(*old(app), event, recapture, now, *final(app), step),
{
    match event {
        TerminalEvent::Paste { text } => on_pasted(app, text),
        TerminalEvent::Resize { width, height } => {
            let mut effects = recapture_terminal(app, recapture, now);
            effects.push(TerminalEffect::DrainEvent);
            wait(effects, TerminalStage::ResizeDrain { width, height })
        },
        TerminalEvent::Mouse => {
            let mut effects = recapture_terminal(app, recapture, now);
            if app.screen.use_mouse_capture {
                effects.push(TerminalEffect::AskDropMotion);
                wait(effects, TerminalStage::MouseAsked)
            } else {
                consume(effects)
            }
        },
        TerminalEvent::Focus => {
            let effects = recapture_terminal(app, recapture, now);
            consume(effects)
        },
        TerminalEvent::Other => {
            let effects = recapture_terminal(app, recapture, now);
            finish(effects, TerminalEventOutcome::NotConsumed)
        },
    }
}

// Resizes that are already waiting are drained, and the last of them is acted on.

pub open spec fn resize_drained(
    pre: App,
    width: u16,
    height: u16,
    drained: Drained,
    post: App,
    step: TerminalStep,
) -> bool {
    &&& post == pre
    &&& match drained {
        Drained::Resize { width, height } => waits(
            step,
            seq![TerminalEffect::DrainEvent],
            TerminalStage::ResizeDrain { width, height },
        ),
        _ => waits(
            step,
            seq![
                TerminalEffect::ResizeTerminal { width, height },
                TerminalEffect::HandleResize { width, height },
                TerminalEffect::ForceSize { width, height },
                TerminalEffect::DrawFrame,
            ],
            TerminalStage::Drawn,
        ),
    }
}

pub open spec fn drawn(pre: App, post: App, step: TerminalStep) -> bool {
    &&& post == App {
        screen: Screen {
            draws_since_last_full_repaint: 0,
            needs_redraw: false,
            ..pre.screen
        },
        ..pre
    }
    &&& finishes(step, seq![TerminalEffect::ClearForcedSize], TerminalEventOutcome::Consumed)
}

/// The screen could not be drawn: the size was forced for this one draw only, and a draw that failed
/// counts for nothing.
pub open spec fn draw_failed(pre: App, error: String, post: App, step: TerminalStep) -> bool {
    post == pre && fails(step, seq![TerminalEffect::ClearForcedSize], error)
}

pub fn on_resize_drained(app: &mut App, width: u16, height: u16, drained: Drained) -> (step:
    TerminalStep)
    ensures
        resize_drained(*old(app), width, height, drained, *final(app), step),
{
    match drained {
        Drained::Resize { width, height } => wait(
            one(TerminalEffect::DrainEvent),
            TerminalStage::ResizeDrain { width, height },
        ),
        _ => {
            let mut effects = two(
                TerminalEffect::ResizeTerminal { width, height },
                TerminalEffect::HandleResize { width, height },
            );
            effects.push(TerminalEffect::ForceSize { width, height });
            effects.push(TerminalEffect::DrawFrame);
            wait(effects, TerminalStage::Drawn)
        },
    }
}

pub fn on_drawn(app: &mut App) -> (step: TerminalStep)
    ensures
        drawn(*old(app), *final(app), step),
{
    app.screen.draws_since_last_full_repaint = 0;
    app.screen.needs_redraw = false;
    consume(one(TerminalEffect::ClearForcedSize))
}

pub fn on_draw_failed(app: &mut App, error: String) -> (step: TerminalStep)
    ensures
        draw_failed(*old(app), error, *final(app), step),
{
    fail(one(TerminalEffect::ClearForcedSize), error)
}

// The mouse: while a turn is running mere motion is dropped.

pub open spec fn mouse_asked(pre: App, drop: bool, post: App, step: TerminalStep) -> bool {
    &&& post == pre
    &&& if drop {
        finishes(step, seq![], TerminalEventOutcome::Consumed)
    } else {
        waits(
            step,
            seq![TerminalEffect::HandleMouse, TerminalEffect::HandleViewEvents],
            TerminalStage::MouseHandled,
        )
    }
}

pub open spec fn mouse_handled(pre: App, quit: bool, post: App, step: TerminalStep) -> bool {
    &&& post == pre
    &&& finishes(
        step,
        seq![],
        if quit {
            TerminalEventOutcome::Return
        } else {
            TerminalEventOutcome::Consumed
        },
    )
}

pub fn on_mouse_asked(app: &mut App, drop: bool) -> (step: TerminalStep)
    ensures
        mouse_asked(*old(app), drop, *final(app), step),
{
    if drop {
        consume(Vec::new())
    } else {
        wait(
            two(TerminalEffect::HandleMouse, TerminalEffect::HandleViewEvents),
            TerminalStage::MouseHandled,
        )
    }
}

pub fn on_mouse_handled(app: &mut App, quit: bool) -> (step: TerminalStep)
    ensures
        mouse_handled(*old(app), quit, *final(app), step),
{
    if quit {
        finish(Vec::new(), TerminalEventOutcome::Return)
    } else {
        consume(Vec::new())
    }
}

/// The next step of a terminal event, after the host has handed back `reply`. Where an effect has
/// failed, the event ends with its error and leaves the state as it was. A reply that the stage does
/// not wait for changes nothing.
pub open spec fn event_resumed(
    pre: App,
    stage: TerminalStage,
    reply: Reply,
    post: App,
    step: TerminalStep,
) -> bool {
    match (stage, reply) {
        (TerminalStage::PasteOffered { text }, Reply::Flag(taken)) => paste_offered(
            pre,
            text,
            taken,
            post,
            step,
        ),
        (TerminalStage::ResizeDrain { width, height }, Reply::Drained(drained)) => resize_drained(
            pre,
            width,
            height,
            drained,
            post,
            step,
        ),
        (TerminalStage::Drawn, Reply::Done) => drawn(pre, post, step),
        (TerminalStage::Drawn, Reply::Failed(error)) => draw_failed(pre, error, post, step),
        (TerminalStage::MouseAsked, Reply::Flag(drop)) => mouse_asked(pre, drop, post, step),
        (TerminalStage::MouseHandled, Reply::Flag(quit)) => mouse_handled(pre, quit, post, step),
        (TerminalStage::MouseHandled, Reply::Failed(error)) => {
            post == pre && fails(step, seq![], error)
        },
        (stage, _) => post == pre && waits(step, seq![], stage),
    }
}

/// Goes on with a terminal event, after the host has handed back `reply`.
pub fn resume_terminal_event(app: &mut App, stage: TerminalStage, reply: Reply) -> (step:
    TerminalStep)
    ensures
        event_resumed(*old(app), stage, reply, *final(app), step),
{
    match (stage, reply) {
        (TerminalStage::PasteOffered { text }, Reply::Flag(taken)) => on_paste_offered(
            app,
            text,
            taken,
        ),
        (TerminalStage::ResizeDrain { width, height }, Reply::Drained(drained)) =>
            on_resize_drained(app, width, height, drained),
        (TerminalStage::Drawn, Reply::Done) => on_drawn(app),
        (TerminalStage::Drawn, Reply::Failed(error)) => on_draw_failed(app, error),
        (TerminalStage::MouseAsked, Reply::Flag(drop)) => on_mouse_asked(app, drop),
        (TerminalStage::MouseHandled, Reply::Flag(quit)) => on_mouse_handled(app, quit),
        (TerminalStage::MouseHandled, Reply::Failed(error)) => fail(Vec::new(), error),
        (stage, _) => wait(Vec::new(), stage),
    }
}

// What holds of terminal events over several steps.

/// How many steps may still follow a stage, at most, apart from those that drain resizes.
pub open spec fn rank(stage: TerminalStage) -> nat {
    match stage {
        TerminalStage::PasteOffered { .. } => 1,
        TerminalStage::ResizeDrain { .. } => 2,
        TerminalStage::Drawn => 1,
        TerminalStage::MouseAsked => 2,
        TerminalStage::MouseHandled => 1,
    }
}

/// Whether the step ends the event, or goes on in a stage of a rank below `bound` that waits for
/// what the step's last effect returns.
pub open spec fn advances(step: TerminalStep, bound: nat) -> bool {
    match step.next {
        TerminalNext::Finish(_) => true,
        TerminalNext::Fail(_) => true,
        TerminalNext::Await(stage) => {
            &&& step.effects@.len() > 0
            &&& step.effects@.last().reply_kind() == stage.awaited_kind()
            &&& step.effects@.last().may_fail() == stage.may_fail()
            &&& rank(stage) < bound
        },
    }
}

/// No step waits for anything but what its last effect returns: the first step of an event
/// advances.
pub proof fn beginning_advances(
    pre: App,
    event: TerminalEvent,
    recapture: bool,
    now: u128,
    post: App,
    step: TerminalStep,
)
    requires
        event_begun(pre, event, recapture, now, post, step),
    ensures
        advances(step, 3),
{
}

/// Every event ends once the terminal has no further resize ready: where the host hands back what
/// the stage waits for, the next step ends the event or goes on in a stage of a lower rank; a
/// further resize is drained in the same stage.
pub proof fn resuming_advances(
    pre: App,
    stage: TerminalStage,
    reply: Reply,
    post: App,
    step: TerminalStep,
)
    requires
        event_resumed(pre, stage, reply, post, step),
        stage.accepts(reply),
    ensures
        if reply matches Reply::Drained(Drained::Resize { .. }) {
            advances(step, 3)
        } else {
            advances(step, rank(stage))
        },
{
}

/// Pasted text goes to one place only, and as it is: on the screen for the API key into its field,
/// else into an active history search, else to the open view, and into the composer only where no
/// view is open and none took it.
pub proof fn paste_has_one_place(
    first: App,
    text: String,
    recapture: bool,
    now: u128,
    second: App,
    pasting: TerminalStep,
    resumed: App,
    taken: bool,
    third: App,
    offered: TerminalStep,
)
    requires
        event_begun(first, TerminalEvent::Paste { text }, recapture, now, second, pasting),
        pasting.next is Await ==> pasting.next == TerminalNext::Await(
            TerminalStage::PasteOffered { text },
        ) && event_resumed(
            resumed,
            TerminalStage::PasteOffered { text },
            Reply::Flag(taken),
            third,
            offered,
        ),
    ensures
        second.composer.bracketed_paste_seen,
        first.onboarding.state == OnboardingState::ApiKey ==> finishes(
            pasting,
            seq![TerminalEffect::InsertKeyText(text), TerminalEffect::SyncKeyStatus],
            TerminalEventOutcome::Consumed,
        ),
        first.onboarding.state != OnboardingState::ApiKey && first.composer.history_search_active
            ==> finishes(
            pasting,
            seq![TerminalEffect::HistorySearchInsert(text)],
            TerminalEventOutcome::Consumed,
        ),
        pasting.next is Await ==> pasting.effects@ == seq![TerminalEffect::ModalPaste(text)],
        pasting.next is Await && (taken || resumed.screen.top_modal is Some) ==> finishes(
            offered,
            seq![],
            TerminalEventOutcome::Consumed,
        ),
        pasting.next is Await && !taken && resumed.screen.top_modal is None ==> finishes(
            offered,
            seq![TerminalEffect::InsertPaste(text)],
            TerminalEventOutcome::Consumed,
        ),
{
}

/// Two recoveries of the terminal's modes lie apart by the debounce time at least, as long as the
/// time of the first is left alone; but every event that asks for a recapture repaints the screen.
pub proof fn recoveries_lie_apart(
    first: App,
    event: TerminalEvent,
    recapture: bool,
    t: u128,
    second: App,
    one_step: TerminalStep,
    third: App,
    other: TerminalEvent,
    u: u128,
    fourth: App,
    other_step: TerminalStep,
)
    requires
        event_begun(first, event, recapture, t, second, one_step),
        !(event is Paste),
        third.screen.last_focus_recovery == second.screen.last_focus_recovery,
        event_begun(third, other, true, u, fourth, other_step),
        !(other is Paste),
        one_step.effects@.contains(TerminalEffect::RecoverModes),
        other_step.effects@.contains(TerminalEffect::RecoverModes),
    ensures
        u >= t + FOCUS_RECOVERY_DEBOUNCE,
        fourth.screen.force_terminal_repaint,
        fourth.screen.needs_redraw,
{
    assert(recovery_due(first, recapture, t));
    assert(recovery_due(third, true, u));
}

/// However many resizes are waiting, the last of them is acted on: after a run of resizes that ends
/// with something else, the viewport gets the size of the last one, or the event's own where none
/// was waiting.
pub proof fn last_resize_counts(
    sizes: Seq<(u16, u16)>,
    drained: Seq<Drained>,
    before: Seq<App>,
    after: Seq<App>,
    steps: Seq<TerminalStep>,
)
    requires
        sizes.len() > 0,
        drained.len() == sizes.len(),
        before.len() == sizes.len(),
        after.len() == sizes.len(),
        steps.len() == sizes.len(),
        forall|i: int| #![trigger steps[i]]
            0 <= i < steps.len() ==> resize_drained(
                before[i],
                sizes[i].0,
                sizes[i].1,
                drained[i],
                after[i],
                steps[i],
            ),
        forall|i: int| #![trigger drained[i]]
            0 <= i < drained.len() - 1 ==> drained[i] is Resize && steps[i].next
                == TerminalNext::Await(
                TerminalStage::ResizeDrain { width: sizes[i + 1].0, height: sizes[i + 1].1 },
            ),
        !(drained.last() is Resize),
    ensures
        ({
            let n = sizes.len() as int;
            let (width, height) = if n == 1 {
                sizes[0]
            } else {
                (drained[n - 2]->width, drained[n - 2]->height)
            };
            waits(
                steps.last(),
                seq![
                    TerminalEffect::ResizeTerminal { width, height },
                    TerminalEffect::HandleResize { width, height },
                    TerminalEffect::ForceSize { width, height },
                    TerminalEffect::DrawFrame,
                ],
                TerminalStage::Drawn,
            )
        }),
{
    let n = sizes.len() as int;
    assert(steps[n - 1] == steps.last());
    assert(drained[n - 1] == drained.last());
    if n > 1 {
        assert(drained[n - 2] is Resize);
        assert(steps[n - 2].next == TerminalNext::Await(
            TerminalStage::ResizeDrain {
                width: drained[n - 2]->width,
                height: drained[n - 2]->height,
            },
        ));
    }
}

/// Without mouse capture the mouse does nothing.
pub proof fn mouse_needs_capture(
    pre: App,
    recapture: bool,
    now: u128,
    post: App,
    step: TerminalStep,
)
    requires
        event_begun(pre, TerminalEvent::Mouse, recapture, now, post, step),
        !pre.screen.use_mouse_capture,
    ensures
        step.next == TerminalNext::Finish(TerminalEventOutcome::Consumed),
        !recapture ==> post == pre && step.effects@.len() == 0,
{
}

/// Only what is neither pasted text nor a change of focus, a resize or a mouse event goes back to
/// the main loop, and all of that does.
pub proof fn only_keys_go_back(
    pre: App,
    event: TerminalEvent,
    recapture: bool,
    now: u128,
    post: App,
    step: TerminalStep,
)
    requires
        event_begun(pre, event, recapture, now, post, step),
    ensures
        step.next == TerminalNext::Finish(TerminalEventOutcome::NotConsumed) <==> event is Other,
{
}

/// What was once held on to does not go back later.
pub proof fn nothing_goes_back_later(
    pre: App,
    stage: TerminalStage,
    reply: Reply,
    post: App,
    step: TerminalStep,
)
    requires
        event_resumed(pre, stage, reply, post, step),
    ensures
        step.next != TerminalNext::Finish(TerminalEventOutcome::NotConsumed),
{
}

/// The size is forced for one draw only: the draw is the last that is done under it, and whether it
/// succeeds or not the next effect gives the size free. A draw that fails is reported and leaves
/// the state as it was.
pub proof fn size_is_forced_for_one_draw(
    first: App,
    width: u16,
    height: u16,
    drained: Drained,
    second: App,
    drawing: TerminalStep,
    resumed: App,
    reply: Reply,
    third: App,
    ending: TerminalStep,
)
    requires
        !(drained is Resize),
        resize_drained(first, width, height, drained, second, drawing),
        drawing.next matches TerminalNext::Await(stage) && stage.accepts(reply) && event_resumed(
            resumed,
            stage,
            reply,
            third,
            ending,
        ),
    ensures
        drawing.effects@.len() == 4,
        drawing.effects@[2] == (TerminalEffect::ForceSize { width, height }),
        drawing.effects@[3] == TerminalEffect::DrawFrame,
        ending.effects@ == seq![TerminalEffect::ClearForcedSize],
        reply matches Reply::Failed(error) ==> ending.next == TerminalNext::Fail(error) && third
            == resumed,
        !(reply is Failed) ==> ending.next == TerminalNext::Finish(TerminalEventOutcome::Consumed)
            && third.screen.draws_since_last_full_repaint == 0,
{
}

/// Whether every effect of the step that may fail is heard of: it is the last one, and the stage
/// waits for it as for one that may fail.
pub open spec fn failures_are_heard(step: TerminalStep) -> bool {
    forall|i: int| #![trigger step.effects@[i]]
        0 <= i < step.effects@.len() && step.effects@[i].may_fail() ==> {
            &&& i == step.effects@.len() - 1
            &&& step.next matches TerminalNext::Await(stage) && stage.may_fail()
        }
}

/// The first step of an event hears of every failure, and neither ends with one nor ends the main
/// loop.
pub proof fn beginning_hears_failures(
    pre: App,
    event: TerminalEvent,
    recapture: bool,
    now: u128,
    post: App,
    step: TerminalStep,
)
    requires
        event_begun(pre, event, recapture, now, post, step),
    ensures
        failures_are_heard(step),
        !(step.next is Fail),
        step.next != TerminalNext::Finish(TerminalEventOutcome::Return),
{
}

/// Every later step hears of every failure. The event ends with an error exactly where an effect has
/// failed that may, and with that very error; the state is then left as it was.
pub proof fn failures_end_events(
    pre: App,
    stage: TerminalStage,
    reply: Reply,
    post: App,
    step: TerminalStep,
)
    requires
        event_resumed(pre, stage, reply, post, step),
    ensures
        failures_are_heard(step),
        step.next is Fail <==> stage.may_fail() && reply is Failed,
        step.next matches TerminalNext::Fail(error) ==> reply == Reply::Failed(error) && post
            == pre,
{
}

/// The steps of one event, from the first on. Between two of them the host may change the state as
/// it likes; at each stage it hands back what the stage waits for.
pub struct Handling {
    pub event: TerminalEvent,
    pub recapture: bool,
    pub now: u128,
    pub before: Seq<App>,
    pub after: Seq<App>,
    pub replies: Seq<Reply>,
    pub steps: Seq<TerminalStep>,
}

impl Handling {
    /// Whether step `i` resumes the stage that the step before it waits in, with what that stage
    /// waits for.
    pub open spec fn resumes(self, i: int) -> bool {
        self.steps[i - 1].next matches TerminalNext::Await(stage) && stage.accepts(
            self.replies[i],
        ) && event_resumed(self.before[i], stage, self.replies[i], self.after[i], self.steps[i])
    }

    /// Whether the steps are those of the event.
    pub open spec fn well_formed(self) -> bool {
        &&& self.steps.len() > 0
        &&& event_begun(
            self.before[0],
            self.event,
            self.recapture,
            self.now,
            self.after[0],
            self.steps[0],
        )
        &&& forall|i: int| 0 < i < self.steps.len() ==> #[trigger] self.resumes(i)
    }

    /// Whether the event is one of the captured mouse.
    pub open spec fn captured(self) -> bool {
        self.event is Mouse && self.before[0].screen.use_mouse_capture
    }

    /// Whether the views have handled a captured mouse event that was not dropped, with `reply` for
    /// an answer.
    pub open spec fn views_answered(self, reply: Reply) -> bool {
        &&& self.captured()
        &&& self.steps.len() == 3
        &&& self.replies[1] == Reply::Flag(false)
        &&& self.replies[2] == reply
    }
}

proof fn awaited_stage(handling: Handling, n: int)
    requires
        handling.well_formed(),
        0 <= n < handling.steps.len(),
    ensures
        handling.steps[n].next matches TerminalNext::Await(stage) ==> match stage {
            TerminalStage::MouseAsked => n == 0 && handling.captured(),
            TerminalStage::MouseHandled => n == 1 && handling.captured() && handling.replies[1]
                == Reply::Flag(false),
            _ => !(handling.event is Mouse),
        },
    decreases n,
{
    if n > 0 {
        awaited_stage(handling, n - 1);
        assert(handling.resumes(n));
    }
}

/// When an event ends the main loop: exactly where it is a captured mouse event that is not dropped
/// and one of the views' events asks for the end. Where none does, the event is consumed; where the
/// views fail, it ends with their error.
pub proof fn only_views_end_the_loop(handling: Handling)
    requires
        handling.well_formed(),
    ensures
        handling.steps.last().next == TerminalNext::Finish(TerminalEventOutcome::Return)
            <==> handling.views_answered(Reply::Flag(true)),
        handling.views_answered(Reply::Flag(false)) ==> handling.steps.last().next
            == TerminalNext::Finish(TerminalEventOutcome::Consumed),
        forall|error: String|
            #[trigger] handling.views_answered(Reply::Failed(error)) ==> handling.steps.last().next
                == TerminalNext::Fail(error),
{
    let n = handling.steps.len() - 1;
    if n > 0 {
        awaited_stage(handling, n - 1);
        assert(handling.resumes(n));
    }
    if handling.captured() && n == 2 {
        assert(handling.resumes(1));
        awaited_stage(handling, 1);
    }
}

/// A mouse event that is dropped while a turn is running is consumed.
pub proof fn dropped_motion_is_consumed(handling: Handling)
    requires
        handling.well_formed(),
        handling.captured(),
        handling.steps.len() == 2,
        handling.replies[1] == Reply::Flag(true),
    ensures
        handling.steps.last().next == TerminalNext::Finish(TerminalEventOutcome::Consumed),
        handling.steps.last().effects@.len() == 0,
{
    assert(handling.resumes(1));
}

} // verus!
