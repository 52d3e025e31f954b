//! A pass over the engine's events: they are taken in one after the other until none is ready.

use vstd::prelude::*;

use crate::engine::dispatch;
use crate::engine::dispatch::{begin_event, resume_event};
use crate::engine::laws;
use crate::engine::types::{EngineEffect, EngineEvent, EngineNext, EngineStage, EngineStep};
use crate::state::{App, PollResult};
use crate::step;
use crate::step::{Reply, Step};

verus! {

/// How a pass goes on once the effects are carried out.
#[derive(Debug, PartialEq)]
pub enum PassNext {
    /// The next event that is ready is taken in, without waiting for one.
    Receive,
    /// The event's handling goes on in this stage with what the last effect returned.
    Await(EngineStage),
    /// The pass is over.
    Finish(PollResult),
    /// The pass ends with the error of an event; the events behind it are not taken in.
    Fail(String),
}

/// One step of a pass.
pub type PassStep = Step<EngineEffect, PassNext>;

/// The step of the event that the step of the pass stands for.
pub open spec fn event_step(step: PassStep) -> EngineStep {
    Step {
        effects: step.effects,
        next: match step.next {
            PassNext::Await(stage) => EngineNext::Await(stage),
            PassNext::Fail(error) => EngineNext::Fail(error),
            _ => EngineNext::Finish,
        },
    }
}

/// A pass begins with nothing noted.
pub open spec fn pass_begun(pre: App, post: App, step: PassStep) -> bool {
    &&& post == App { poll: PollResult::empty_poll(), ..pre }
    &&& step::step_is(step, seq![], PassNext::Receive)
}

/// An event that was ready is begun; where none was, the pass is over and gives what it has noted.
pub open spec fn received(
    pre: App,
    event: Option<EngineEvent>,
    now: u128,
    post: App,
    step: PassStep,
) -> bool {
    match event {
        Some(event) => {
            &&& !(step.next is Finish)
            &&& dispatch::event_begun(pre, event, now, post, event_step(step))
        },
        None => {
            &&& post == App { poll: PollResult::empty_poll(), ..pre }
            &&& step::step_is(step, seq![], PassNext::Finish(pre.poll))
        },
    }
}

/// The event goes on.
pub open spec fn replied(
    pre: App,
    stage: EngineStage,
    reply: Reply,
    now: u128,
    post: App,
    step: PassStep,
) -> bool {
    &&& !(step.next is Finish)
    &&& dispatch::event_resumed(pre, stage, reply, now, post, event_step(step))
}

/// The step of a pass that stands for the step of an event.
fn pass_on(step: EngineStep) -> (pass: PassStep)
    ensures
        !(pass.next is Finish),
        event_step(pass) == step,
{
    Step {
        effects: step.effects,
        next: match step.next {
            EngineNext::Await(stage) => PassNext::Await(stage),
            EngineNext::Finish => PassNext::Receive,
            EngineNext::Fail(error) => PassNext::Fail(error),
        },
    }
}

/// Begins a pass.
pub fn begin_pass(app: &mut App) -> (step: PassStep)
    ensures
        pass_begun(*old(app), *final(app), step),
{
    app.take_poll();
    Step { effects: Vec::new(), next: PassNext::Receive }
}

/// Goes on with the next event that was ready, or ends the pass where none was.
pub fn on_received(app: &mut App, event: Option<EngineEvent>, now: u128) -> (step: PassStep)
    ensures
        received(*old(app), event, now, *final(app), step),
{
    match event {
        Some(event) => pass_on(begin_event(app, event, now)),
        None => {
            let result = app.take_poll();
            Step { effects: Vec::new(), next: PassNext::Finish(result) }
        },
    }
}

/// Goes on with an event, after the host has handed back `reply`.
pub fn on_replied(app: &mut App, stage: EngineStage, reply: Reply, now: u128) -> (step: PassStep)
    requires
        stage.countable(),
    ensures
        replied(*old(app), stage, reply, now, *final(app), step),
{
    pass_on(resume_event(app, stage, reply, now))
}

// What holds of a whole pass.

/// What a step of a pass is handed.
pub enum Input {
    /// It begins the pass.
    Start,
    /// The next event that was ready, if any was.
    Received(Option<EngineEvent>),
    /// What the last effect returned.
    Replied(Reply),
}

/// The steps of a pass, from the first on.
pub struct Pass {
    pub before: Seq<App>,
    pub after: Seq<App>,
    pub inputs: Seq<Input>,
    pub times: Seq<u128>,
    pub steps: Seq<PassStep>,
}

impl Pass {
    /// Whether step `i` was handed what the step before it asks for. Between the two the host may
    /// change the state as it likes, but for what the pass has noted.
    #[verifier::opaque]
    pub open spec fn goes_on(self, i: int) -> bool {
        &&& self.before[i].poll == self.after[i - 1].poll
        &&& match (self.steps[i - 1].next, self.inputs[i]) {
            (PassNext::Receive, Input::Received(event)) => received(
                self.before[i],
                event,
                self.times[i],
                self.after[i],
                self.steps[i],
            ),
            (PassNext::Await(stage), Input::Replied(reply)) => replied(
                self.before[i],
                stage,
                reply,
                self.times[i],
                self.after[i],
                self.steps[i],
            ),
            _ => false,
        }
    }

    /// Whether the steps are those of a pass.
    pub open spec fn well_formed(self) -> bool {
        &&& self.steps.len() > 0
        &&& self.inputs.len() == self.steps.len()
        &&& self.inputs[0] is Start
        &&& pass_begun(self.before[0], self.after[0], self.steps[0])
        &&& forall|i: int| 0 < i < self.steps.len() ==> #[trigger] self.goes_on(i)
    }

    /// Whether step `i`, where it goes on with an event, is handed what the event waits for.
    pub open spec fn answers(self, i: int) -> bool {
        match (self.steps[i - 1].next, self.inputs[i]) {
            (PassNext::Await(stage), Input::Replied(reply)) => stage.accepts(reply),
            _ => true,
        }
    }

    /// Whether step `i` is told that an effect of the event has failed that may.
    pub open spec fn hears_failure(self, i: int) -> bool {
        match (self.steps[i - 1].next, self.inputs[i]) {
            (PassNext::Await(stage), Input::Replied(reply)) => stage.may_fail() && reply is Failed,
            _ => false,
        }
    }

    /// How many steps may still follow step `i`, at most, before the event is done with.
    pub open spec fn left(self, i: int) -> nat {
        match self.steps[i].next {
            PassNext::Await(stage) => laws::rank(stage),
            _ => 0,
        }
    }

    /// The events that the steps up to step `n` have taken in, in order.
    pub open spec fn taken(self, n: int) -> Seq<EngineEvent>
        decreases n,
    {
        if n <= 0 {
            seq![]
        } else {
            match self.inputs[n] {
                Input::Received(Some(event)) => self.taken(n - 1).push(event),
                _ => self.taken(n - 1),
            }
        }
    }

    /// Whether `events` are what is ready from the first step on: as long as some of them are left
    /// the next of them is received, and then none.
    pub open spec fn drains(self, events: Seq<EngineEvent>) -> bool {
        forall|i: int|
            0 < i < self.steps.len() ==> (#[trigger] self.inputs[i] matches Input::Received(event)
                ==> event == if self.taken(i - 1).len() < events.len() {
                Some(events[self.taken(i - 1).len() as int])
            } else {
                None
            })
    }
}

proof fn step_notes(pass: Pass, i: int)
    requires
        pass.goes_on(i),
    ensures
        pass.before[i].poll == pass.after[i - 1].poll,
        pass.inputs[i] matches Input::Received(Some(_)) ==> {
            &&& pass.after[i].poll.received_engine_event
            &&& !(pass.steps[i].next is Finish)
        },
        pass.inputs[i] is Replied ==> laws::notes_kept(pass.before[i], pass.after[i]) && !(
        pass.steps[i].next is Finish),
        pass.inputs[i] is Replied ==> pass.steps[i - 1].next is Await,
        pass.inputs[i] matches Input::Received(None) ==> pass.steps[i].next == PassNext::Finish(
            pass.before[i].poll,
        ) && pass.steps[i].effects@.len() == 0,
        pass.inputs[i] is Received || pass.inputs[i] is Replied,
        !(pass.steps[i - 1].next is Finish),
{
    reveal(Pass::goes_on);
    let step = event_step(pass.steps[i]);
    match (pass.steps[i - 1].next, pass.inputs[i]) {
        (PassNext::Receive, Input::Received(Some(event))) => {
            laws::notes_stay(
                pass.before[i],
                event,
                arbitrary(),
                arbitrary(),
                pass.times[i],
                pass.after[i],
                step,
            );
        },
        (PassNext::Await(stage), Input::Replied(reply)) => {
            laws::notes_stay(
                pass.before[i],
                arbitrary(),
                stage,
                reply,
                pass.times[i],
                pass.after[i],
                step,
            );
        },
        _ => {},
    }
}

proof fn pass_notes(pass: Pass, n: int)
    requires
        pass.well_formed(),
        0 <= n < pass.steps.len(),
        !(pass.steps[n].next is Finish),
    ensures
        pass.after[n].poll.received_engine_event == (pass.taken(n).len() > 0),
        pass.steps[n].next is Await ==> pass.taken(n).len() > 0,
        pass.taken(n).len() == 0 ==> n == 0 && pass.after[n].poll == PollResult::empty_poll(),
    decreases n,
{
    if n > 0 {
        assert(pass.goes_on(n));
        step_notes(pass, n);
        pass_notes(pass, n - 1);
    }
}

proof fn taken_in_order(pass: Pass, events: Seq<EngineEvent>, n: int)
    requires
        pass.drains(events),
        0 <= n < pass.steps.len(),
    ensures
        pass.taken(n).len() <= events.len(),
        pass.taken(n) == events.take(pass.taken(n).len() as int),
    decreases n,
{
    if n > 0 {
        taken_in_order(pass, events, n - 1);
        let before = pass.taken(n - 1);
        if let Input::Received(Some(event)) = pass.inputs[n] {
            assert(event == events[before.len() as int]);
            assert(before.push(event) =~= events.take(before.len() as int + 1));
        }
    }
}

/// Whether the step of a pass hands the step of an event on: it asks for the same, waits where that
/// waits, ends with its error, and where the event is done with the next one is to be received.
pub open spec fn hands_on(pass: PassStep, step: EngineStep) -> bool {
    &&& pass.effects@ == step.effects@
    &&& step.next matches EngineNext::Await(stage) ==> pass.next == PassNext::Await(stage)
    &&& step.next matches EngineNext::Fail(error) ==> pass.next == PassNext::Fail(error)
    &&& step.next is Finish ==> pass.next == PassNext::Receive
}

/// Whether all that was noted is gone, and nothing else has changed.
pub open spec fn starts_afresh(pre: App, post: App) -> bool {
    &&& !post.poll.received_engine_event
    &&& !post.poll.transcript_batch_updated
    &&& post.poll.queued_to_send is None
    &&& post == (App { poll: post.poll, ..pre })
}

/// A pass drops no event and no answer, and does nothing of its own: it starts with nothing noted,
/// hands each event that it receives to the machine for events, and each answer to the stage that
/// waits for it. Where none is left it gives what is noted by then, all of it, and notes nothing
/// more.
pub proof fn events_are_handed_on(pass: Pass, i: int)
    requires
        pass.well_formed(),
        0 <= i < pass.steps.len(),
    ensures
        i == 0 ==> starts_afresh(pass.before[0], pass.after[0]) && pass.steps[0].effects@.len() == 0
            && pass.steps[0].next is Receive,
        pass.inputs[i] matches Input::Received(Some(event)) ==> exists|step: EngineStep| #[trigger]
            hands_on(pass.steps[i], step) && dispatch::event_begun(
                pass.before[i],
                event,
                pass.times[i],
                pass.after[i],
                step,
            ),
        pass.inputs[i] matches Input::Replied(reply) ==> pass.steps[i - 1].next matches
            PassNext::Await(stage) && exists|step: EngineStep| #[trigger]
            hands_on(pass.steps[i], step) && dispatch::event_resumed(
                pass.before[i],
                stage,
                reply,
                pass.times[i],
                pass.after[i],
                step,
            ),
        pass.inputs[i] matches Input::Received(None) ==> {
            &&& starts_afresh(pass.before[i], pass.after[i])
            &&& pass.steps[i].effects@.len() == 0
            &&& pass.steps[i].next == PassNext::Finish(pass.after[i - 1].poll)
        },
{
    reveal(Pass::goes_on);
    if i > 0 {
        assert(pass.goes_on(i));
        let step = event_step(pass.steps[i]);
        if !(pass.steps[i].next is Finish) {
            assert(hands_on(pass.steps[i], step));
        }
    }
}

/// A pass tells whether it met an event: its result says so exactly where one was taken in, skipped
/// events among them. It ends only when no event is ready; one that met none took two steps, asked
/// the host for nothing and gives nothing.
pub proof fn pass_tells_of_events(pass: Pass, result: PollResult)
    requires
        pass.well_formed(),
        pass.steps.last().next == PassNext::Finish(result),
    ensures
        result.received_engine_event == (pass.taken(pass.steps.len() - 1).len() > 0),
        pass.inputs.last() matches Input::Received(None),
        pass.taken(pass.steps.len() - 1).len() == 0 ==> result == PollResult::empty_poll()
            && pass.steps.len() == 2 && pass.steps[0].effects@.len() == 0
            && pass.steps[1].effects@.len() == 0,
{
    let n = pass.steps.len() - 1;
    assert(n > 0);
    assert(pass.goes_on(n));
    step_notes(pass, n);
    pass_notes(pass, n - 1);
}

/// A pass empties the channel: it takes in all the events that are ready, in order, and its result
/// tells whether there were any.
pub proof fn pass_takes_in_all_events(pass: Pass, events: Seq<EngineEvent>, result: PollResult)
    requires
        pass.well_formed(),
        pass.drains(events),
        pass.steps.last().next == PassNext::Finish(result),
    ensures
        pass.taken(pass.steps.len() - 1) == events,
        result.received_engine_event == (events.len() > 0),
        events.len() == 0 ==> result == PollResult::empty_poll(),
{
    let n = pass.steps.len() - 1;
    pass_tells_of_events(pass, result);
    taken_in_order(pass, events, n);
    assert(pass.inputs[n] matches Input::Received(None));
    assert(events.take(events.len() as int) =~= events);
}

proof fn step_advances(pass: Pass, i: int)
    requires
        pass.goes_on(i),
        pass.answers(i),
    ensures
        pass.inputs[i] is Received ==> pass.left(i - 1) == 0 && pass.left(i) <= 10,
        pass.inputs[i] is Replied ==> pass.left(i) < pass.left(i - 1),
        !(pass.inputs[i] is Start),
{
    reveal(Pass::goes_on);
    let step = event_step(pass.steps[i]);
    match (pass.steps[i - 1].next, pass.inputs[i]) {
        (PassNext::Receive, Input::Received(Some(event))) => {
            laws::beginning_advances(pass.before[i], event, pass.times[i], pass.after[i], step);
        },
        (PassNext::Await(stage), Input::Replied(reply)) => {
            laws::resuming_advances(
                pass.before[i],
                stage,
                reply,
                pass.times[i],
                pass.after[i],
                step,
            );
        },
        _ => {},
    }
}

proof fn steps_are_bounded(pass: Pass, n: int)
    requires
        pass.well_formed(),
        forall|i: int| 0 < i < pass.steps.len() ==> #[trigger] pass.answers(i),
        0 <= n < pass.steps.len(),
        !(pass.steps[n].next is Finish),
    ensures
        n + pass.left(n) <= 11 * pass.taken(n).len(),
    decreases n,
{
    if n > 0 {
        assert(pass.goes_on(n));
        assert(pass.answers(n));
        step_notes(pass, n);
        step_advances(pass, n);
        steps_are_bounded(pass, n - 1);
    }
}

/// A pass over events of which no more come ends: besides its first and its last step it takes
/// eleven for each event at most, as long as each stage is handed what it waits for.
pub proof fn passes_end(pass: Pass, events: Seq<EngineEvent>)
    requires
        pass.well_formed(),
        pass.drains(events),
        forall|i: int| 0 < i < pass.steps.len() ==> #[trigger] pass.answers(i),
    ensures
        pass.steps.len() <= 11 * events.len() + 2,
{
    let n = pass.steps.len() - 1;
    taken_in_order(pass, events, n);
    if n > 0 {
        assert(pass.goes_on(n));
        step_notes(pass, n);
        steps_are_bounded(pass, n - 1);
        taken_in_order(pass, events, n - 1);
    }
}

/// A pass ends with an error exactly where an effect of an event has failed that may, with that
/// very error, and leaves the state as that event's earlier steps have made it.
pub proof fn failures_end_passes(pass: Pass, i: int)
    requires
        pass.well_formed(),
        0 <= i < pass.steps.len(),
    ensures
        pass.steps[i].next is Fail <==> i > 0 && pass.hears_failure(i),
        pass.steps[i].next matches PassNext::Fail(error) ==> pass.inputs[i] == Input::Replied(
            Reply::Failed(error),
        ) && pass.after[i] == pass.before[i] && pass.steps[i].effects@.len() == 0 && i
            == pass.steps.len() - 1,
{
    reveal(Pass::goes_on);
    if i > 0 {
        assert(pass.goes_on(i));
        let step = event_step(pass.steps[i]);
        match (pass.steps[i - 1].next, pass.inputs[i]) {
            (PassNext::Receive, Input::Received(Some(event))) => {
                laws::beginning_hears_failures(
                    pass.before[i],
                    event,
                    pass.times[i],
                    pass.after[i],
                    step,
                );
            },
            (PassNext::Await(stage), Input::Replied(reply)) => {
                laws::failures_end_events(
                    pass.before[i],
                    stage,
                    reply,
                    pass.times[i],
                    pass.after[i],
                    step,
                );
            },
            _ => {},
        }
    }
    if i + 1 < pass.steps.len() {
        assert(pass.goes_on(i + 1));
    }
}

/// A pass that meets no event changes nothing but what was left noted before it, where the host
/// leaves the state alone.
pub proof fn empty_pass_changes_nothing(
    first: App,
    second: App,
    begun: PassStep,
    now: u128,
    third: App,
    ended: PassStep,
)
    requires
        pass_begun(first, second, begun),
        received(second, None, now, third, ended),
    ensures
        third == (App { poll: PollResult::empty_poll(), ..first }),
        first.poll == PollResult::empty_poll() ==> third == first,
        begun.effects@.len() == 0 && ended.effects@.len() == 0,
        ended.next == PassNext::Finish(PollResult::empty_poll()),
{
}

} // verus!
