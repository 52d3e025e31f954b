//! The run of an event: its steps with the host's answers, from the first step that applies it to
//! the last, and what the host was asked for on the way.

use vstd::prelude::*;

use crate::engine::dispatch;
use crate::engine::types::{EngineEffect, EngineEvent, EngineNext, EngineStage, EngineStep};
use crate::state::App;
use crate::step::Reply;

verus! {

/// The steps of an event that is not skipped. Between two of them the host may change the state as
/// it likes; at each stage it hands back what the stage waits for.
pub struct Run {
    pub event: EngineEvent,
    pub before: Seq<App>,
    pub after: Seq<App>,
    pub replies: Seq<Reply>,
    pub times: Seq<u128>,
    pub steps: Seq<EngineStep>,
}

impl Run {
    /// Whether the first step applies the event.
    #[verifier::opaque]
    pub open spec fn starts(self) -> bool {
        dispatch::event_applied(
            self.before[0],
            self.event,
            self.times[0],
            self.after[0],
            self.steps[0],
        )
    }

    /// Whether step `i` goes on where the step before it waits, with what is waited for there.
    #[verifier::opaque]
    pub open spec fn goes_on(self, i: int) -> bool {
        self.steps[i - 1].next matches EngineNext::Await(stage) && stage.accepts(self.replies[i])
            && dispatch::event_resumed(
            self.before[i],
            stage,
            self.replies[i],
            self.times[i],
            self.after[i],
            self.steps[i],
        )
    }

    /// Whether the steps are those of the event.
    pub open spec fn well_formed(self) -> bool {
        &&& self.steps.len() > 0
        &&& self.starts()
        &&& forall|i: int| 0 < i < self.steps.len() ==> #[trigger] self.goes_on(i)
    }

    /// Whether the steps are all those of the event, and it did not fail.
    pub open spec fn complete(self) -> bool {
        self.well_formed() && self.steps.last().next is Finish
    }

    /// What step `i` asks for.
    pub open spec fn effects(self, i: int) -> Seq<EngineEffect> {
        self.steps[i].effects@
    }

    /// What the first `n` steps ask for, in order.
    pub open spec fn asked(self, n: int) -> Seq<EngineEffect>
        decreases n,
    {
        if n <= 0 {
            seq![]
        } else {
            self.asked(n - 1) + self.effects(n - 1)
        }
    }

    /// What the event has asked for, in order.
    pub open spec fn journal(self) -> Seq<EngineEffect> {
        self.asked(self.steps.len() as int)
    }

    /// Whether `reply` is what the host has handed back for the effect, which was asked for by step
    /// `i`.
    pub open spec fn answered(self, i: int, effect: EngineEffect, reply: Reply) -> bool {
        &&& 0 <= i < self.steps.len() - 1
        &&& self.effects(i).len() > 0
        &&& self.effects(i).last() == effect
        &&& self.replies[i + 1] == reply
    }

    /// The stage that step `i` waits in.
    pub open spec fn stage(self, i: int) -> EngineStage {
        self.steps[i].next->Await_0
    }

    /// The state that the event leaves.
    pub open spec fn outcome(self) -> App {
        self.after[self.steps.len() - 1]
    }
}

/// What the first step does.
pub proof fn first_step(run: Run)
    requires
        run.well_formed(),
    ensures
        dispatch::event_applied(
            run.before[0],
            run.event,
            run.times[0],
            run.after[0],
            run.steps[0],
        ),
{
    reveal(Run::starts);
}

/// What a later step does.
pub proof fn later_step(run: Run, i: int)
    requires
        run.well_formed(),
        0 < i < run.steps.len(),
    ensures
        run.steps[i - 1].next is Await,
        run.stage(i - 1).accepts(run.replies[i]),
        dispatch::event_resumed(
            run.before[i],
            run.stage(i - 1),
            run.replies[i],
            run.times[i],
            run.after[i],
            run.steps[i],
        ),
{
    assert(run.goes_on(i));
    reveal(Run::goes_on);
}

/// Every step but the last waits.
pub proof fn steps_wait(run: Run, i: int)
    requires
        run.well_formed(),
        0 <= i < run.steps.len() - 1,
    ensures
        run.steps[i].next is Await,
{
    later_step(run, i + 1);
}

/// An event of a running turn that is not hidden is applied at once. While the turn is hidden, or
/// none is running, the host is asked first; where it says so the event is skipped, and otherwise
/// applied. Only the start of a hidden turn is neither: it cancels the engine.
pub proof fn events_are_applied_unless_skipped(
    first: App,
    event: EngineEvent,
    now: u128,
    middle: App,
    begun: EngineStep,
    resumed: App,
    skip: bool,
    later: u128,
    last: App,
    gated: EngineStep,
)
    requires
        dispatch::event_begun(first, event, now, middle, begun),
    ensures
        !first.turn.suppress_stream_events_until_turn_complete && first.turn.is_loading
            ==> dispatch::event_applied(dispatch::received(first), event, now, middle, begun),
        first.turn.suppress_stream_events_until_turn_complete && event is TurnStarted
            ==> begun.next is Finish && begun.effects@ == seq![EngineEffect::CancelEngine]
            && middle == dispatch::received(first),
        first.turn.suppress_stream_events_until_turn_complete && !(event is TurnStarted)
            ==> begun.effects@ == seq![EngineEffect::AskSuppressed],
        !first.turn.suppress_stream_events_until_turn_complete && !first.turn.is_loading
            ==> begun.effects@ == seq![EngineEffect::AskStale],
        (begun.effects@ == seq![EngineEffect::AskSuppressed] || begun.effects@
            == seq![EngineEffect::AskStale]) && (begun.next matches EngineNext::Await(stage)
            && dispatch::event_resumed(resumed, stage, Reply::Flag(skip), later, last, gated)) ==> {
            &&& middle == dispatch::received(first)
            &&& skip ==> last == resumed && gated.effects@.len() == 0 && gated.next is Finish
            &&& !skip ==> dispatch::event_applied(resumed, event, later, last, gated)
        },
{
    if !first.turn.suppress_stream_events_until_turn_complete && first.turn.is_loading {
        no_gate_effect(dispatch::received(first), event, now, middle, begun);
    }
}

proof fn no_gate_effect(pre: App, event: EngineEvent, now: u128, post: App, step: EngineStep)
    requires
        dispatch::event_applied(pre, event, now, post, step),
    ensures
        step.effects@ != seq![EngineEffect::AskSuppressed],
        step.effects@ != seq![EngineEffect::AskStale],
{
    if step.effects@.len() > 0 {
        assert(!(step.effects@[0] is AskSuppressed) && !(step.effects@[0] is AskStale));
        assert(seq![EngineEffect::AskSuppressed][0] is AskSuppressed);
        assert(seq![EngineEffect::AskStale][0] is AskStale);
    }
}

} // verus!
