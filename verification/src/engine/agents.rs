//! Sub-agents: their start, their progress, their end and their list.

use vstd::prelude::*;

use crate::engine::stream;
use crate::engine::stream::{finish, wait};
use crate::engine::types::{EngineEffect, EngineStage, EngineStep};
use crate::notices::Notice;
use crate::state;
use crate::state::{time_since, Agents, App, Screen, SubAgent};
use crate::step::{one, two};
use crate::text::{join, same};

verus! {

/// When the sub-agents' activity began: at `now` where none was under way.
pub open spec fn activity_start(agents: Agents, now: u128) -> Option<u128> {
    match agents.agent_activity_started_at {
        Some(started) => Some(started),
        None => Some(now),
    }
}

// A sub-agent starts.

pub open spec fn spawn_summarized(
    pre: App,
    id: String,
    summary: String,
    now: u128,
    post: App,
    step: EngineStep,
) -> bool {
    &&& post.agents.agent_progress@ == pre.agents.agent_progress@.insert(
        id@,
        "starting: "@ + summary@,
    )
    &&& post == App {
        agents: Agents {
            agent_progress: post.agents.agent_progress,
            agent_activity_started_at: activity_start(pre.agents, now),
            ..pre.agents
        },
        status_message: Some(Notice::AgentStarting { id, summary }),
        ..pre
    }
    &&& stream::finishes(step, seq![EngineEffect::ListSubAgents])
}

pub fn on_spawn_summarized(app: &mut App, id: String, summary: String, now: u128) -> (step:
    EngineStep)
    ensures
        spawn_summarized(*old(app), id, summary, now, *final(app), step),
{
    app.agents.agent_progress.insert(id.as_str(), join("starting: ", summary.as_str()));
    if app.agents.agent_activity_started_at.is_none() {
        app.agents.agent_activity_started_at = Some(now);
    }
    app.status_message = Some(Notice::AgentStarting { id, summary });
    finish(one(EngineEffect::ListSubAgents))
}

// A sub-agent reports progress. Progress that says nothing new never replaces what is shown.

pub open spec fn progress_noisy(
    pre: App,
    id: String,
    display: String,
    noisy: bool,
    now: u128,
    post: App,
    step: EngineStep,
) -> bool {
    let shown = pre.agents.agent_progress@;
    &&& post.agents.agent_progress@ == if noisy && shown.contains_key(id@) {
        shown
    } else {
        shown.insert(id@, display@)
    }
    &&& post == App {
        agents: Agents {
            agent_progress: post.agents.agent_progress,
            agent_activity_started_at: activity_start(pre.agents, now),
            ..pre.agents
        },
        status_message: Some(Notice::AgentProgress { id, display }),
        ..pre
    }
    &&& stream::finishes(step, seq![])
}

pub fn on_progress_noisy(app: &mut App, id: String, display: String, noisy: bool, now: u128) -> (step:
    EngineStep)
    ensures
        progress_noisy(*old(app), id, display, noisy, now, *final(app), step),
{
    if noisy {
        app.agents.agent_progress.insert_if_absent(id.as_str(), display.clone());
    } else {
        app.agents.agent_progress.insert(id.as_str(), display.clone());
    }
    if app.agents.agent_activity_started_at.is_none() {
        app.agents.agent_activity_started_at = Some(now);
    }
    app.status_message = Some(Notice::AgentProgress { id, display });
    finish(Vec::new())
}

// A sub-agent is done. When it was the last one the user is told, and the terminal is captured
// again, since sub-agents may have left it in another state.

/// Whether `agents` holds a running agent other than `id`.
pub open spec fn another_runs(agents: Seq<SubAgent>, id: Seq<char>) -> bool {
    exists|i: int| #![trigger agents[i]]
        0 <= i < agents.len() && agents[i].agent_id@ != id && agents[i].running
}

/// Whether an agent other than `id` is at work, as far as the client knows.
pub open spec fn others_at_work(agents: Agents, id: Seq<char>) -> bool {
    ||| exists|other: Seq<char>| #[trigger]
        agents.agent_progress@.contains_key(other) && other != id
    ||| another_runs(agents.subagent_cache@, id)
}

/// How long the sub-agents were at work: since they began, or since the turn began.
pub open spec fn agents_elapsed(app: App, now: u128) -> u128 {
    match app.agents.agent_activity_started_at {
        Some(started) => state::elapsed(started, now),
        None => state::elapsed_since(app.turn.turn_started_at, now),
    }
}

pub open spec fn agent_complete(
    pre: App,
    id: String,
    result: String,
    now: u128,
    post: App,
    step: EngineStep,
) -> bool {
    &&& post.agents.agent_progress@ == pre.agents.agent_progress@.remove(id@)
    &&& post == App {
        agents: Agents { agent_progress: post.agents.agent_progress, ..pre.agents },
        ..pre
    }
    &&& stream::awaits(
        step,
        seq![EngineEffect::Summarize(result)],
        EngineStage::AgentSummarized {
            id,
            result,
            elapsed: agents_elapsed(pre, now),
            others: others_at_work(pre.agents, id@),
        },
    )
}

pub open spec fn agent_summarized(
    pre: App,
    id: String,
    result: String,
    elapsed: u128,
    others: bool,
    summary: String,
    post: App,
    step: EngineStep,
) -> bool {
    &&& post == pre.with_status(Notice::AgentCompleted { id, summary })
    &&& if others {
        stream::finishes(step, seq![EngineEffect::ListSubAgents])
    } else {
        stream::awaits(
            step,
            seq![EngineEffect::AskNotifications],
            EngineStage::AgentNotify { id, result, elapsed },
        )
    }
}

pub open spec fn agent_notify(
    pre: App,
    id: String,
    result: String,
    elapsed: u128,
    configured: bool,
    post: App,
    step: EngineStep,
) -> bool {
    let notified = if configured {
        seq![EngineEffect::NotifyAgentDone { id, result, elapsed }]
    } else {
        seq![]
    };
    &&& post == pre
    &&& if pre.screen.use_alt_screen {
        stream::awaits(
            step,
            notified + seq![EngineEffect::ResumeTerminal],
            EngineStage::AgentRecaptured,
        )
    } else {
        stream::finishes(step, notified + seq![EngineEffect::ListSubAgents])
    }
}

pub open spec fn agent_recaptured(pre: App, post: App, step: EngineStep) -> bool {
    &&& post == App {
        screen: Screen { terminal_paused_at: None, needs_redraw: true, ..pre.screen },
        ..pre
    }
    &&& stream::finishes(step, seq![EngineEffect::ResumeBroker, EngineEffect::ListSubAgents])
}

/// Whether `agents` holds a running agent other than `id`.
fn another_is_running(agents: &Vec<SubAgent>, id: &str) -> (b: bool)
    ensures
        b == another_runs(agents@, id@),
{
    let mut i: usize = 0;
    while i < agents.len()
        invariant
            i <= agents@.len(),
            forall|j: int| #![trigger agents@[j]]
                0 <= j < i ==> agents@[j].agent_id@ == id@ || !agents@[j].running,
        decreases agents@.len() - i,
    {
        if agents[i].running && !same(agents[i].agent_id.as_str(), id) {
            assert(agents@[i as int].running);
            return true;
        }
        i = i + 1;
    }
    false
}

pub fn on_agent_complete(app: &mut App, id: String, result: String, now: u128) -> (step: EngineStep)
    ensures
        agent_complete(*old(app), id, result, now, *final(app), step),
{
    let elapsed: u128 = match app.agents.agent_activity_started_at {
        Some(started) => time_since(Some(started), now),
        None => time_since(app.turn.turn_started_at, now),
    };
    let others = app.agents.agent_progress.has_other(id.as_str()) || another_is_running(
        &app.agents.subagent_cache,
        id.as_str(),
    );
    app.agents.agent_progress.remove(id.as_str());
    wait(
        one(EngineEffect::Summarize(result.clone())),
        EngineStage::AgentSummarized { id, result, elapsed, others },
    )
}

pub fn on_agent_summarized(
    app: &mut App,
    id: String,
    result: String,
    elapsed: u128,
    others: bool,
    summary: String,
) -> (step: EngineStep)
    ensures
        agent_summarized(*old(app), id, result, elapsed, others, summary, *final(app), step),
{
    app.status_message = Some(Notice::AgentCompleted { id: id.clone(), summary });
    if others {
        finish(one(EngineEffect::ListSubAgents))
    } else {
        wait(
            one(EngineEffect::AskNotifications),
            EngineStage::AgentNotify { id, result, elapsed },
        )
    }
}

pub fn on_agent_notify(
    app: &mut App,
    id: String,
    result: String,
    elapsed: u128,
    configured: bool,
) -> (step: EngineStep)
    ensures
        agent_notify(*old(app), id, result, elapsed, configured, *final(app), step),
{
    let mut effects: Vec<EngineEffect> = Vec::new();
    if configured {
        effects.push(EngineEffect::NotifyAgentDone { id, result, elapsed });
    }
    if app.screen.use_alt_screen {
        effects.push(EngineEffect::ResumeTerminal);
        wait(effects, EngineStage::AgentRecaptured)
    } else {
        effects.push(EngineEffect::ListSubAgents);
        finish(effects)
    }
}

pub fn on_agent_recaptured(app: &mut App) -> (step: EngineStep)
    ensures
        agent_recaptured(*old(app), *final(app), step),
{
    app.screen.terminal_paused_at = None;
    app.screen.needs_redraw = true;
    finish(two(EngineEffect::ResumeBroker, EngineEffect::ListSubAgents))
}

// The list of sub-agents: those of earlier sessions are left out.

/// The agents of this session.
pub open spec fn current_agents(agents: Seq<SubAgent>) -> Seq<SubAgent> {
    agents.filter(|a: SubAgent| !a.from_prior_session)
}

pub open spec fn agents_sorted(pre: App, sorted: Seq<SubAgent>, post: App, step: EngineStep) -> bool {
    let shown = current_agents(sorted);
    &&& post.agents.subagent_cache@ == shown
    &&& post == App {
        agents: Agents { subagent_cache: post.agents.subagent_cache, ..pre.agents },
        ..pre
    }
    &&& step.effects@.len() == 2
    &&& step.effects@[0] == EngineEffect::ReconcileAgents
    &&& step.effects@[1] matches EngineEffect::BuildAgentView(view) && view@ == shown
    &&& stream::awaits(step, step.effects@, EngineStage::AgentsViewed)
}

pub open spec fn agents_updated(
    pre: App,
    count: usize,
    updated: bool,
    post: App,
    step: EngineStep,
) -> bool {
    &&& post == if updated {
        pre.with_status(Notice::AgentTotal(count as u64))
    } else {
        pre
    }
    &&& stream::finishes(step, seq![])
}

/// The agents of this session.
fn keep_current(agents: &Vec<SubAgent>) -> (kept: Vec<SubAgent>)
    ensures
        kept@ == current_agents(agents@),
{
    let mut kept: Vec<SubAgent> = Vec::new();
    let mut i: usize = 0;
    while i < agents.len()
        invariant
            i <= agents@.len(),
            kept@ == current_agents(agents@.take(i as int)),
        decreases agents@.len() - i,
    {
        proof {
            reveal(Seq::filter);
            let next = agents@.take(i + 1);
            assert(next.drop_last() =~= agents@.take(i as int));
            assert(next.last() == agents@[i as int]);
        }
        if !agents[i].from_prior_session {
            kept.push(agents[i].duplicate());
        }
        i = i + 1;
    }
    proof {
        assert(agents@.take(i as int) =~= agents@);
    }
    kept
}

pub fn on_agents_sorted(app: &mut App, sorted: Vec<SubAgent>) -> (step: EngineStep)
    ensures
        agents_sorted(*old(app), sorted@, *final(app), step),
{
    app.agents.subagent_cache = keep_current(&sorted);
    wait(
        two(EngineEffect::ReconcileAgents, EngineEffect::BuildAgentView(keep_current(&sorted))),
        EngineStage::AgentsViewed,
    )
}

pub fn on_agents_updated(app: &mut App, count: usize, updated: bool) -> (step: EngineStep)
    ensures
        agents_updated(*old(app), count, updated, *final(app), step),
{
    if updated {
        app.status_message = Some(Notice::AgentTotal(count as u64));
    }
    finish(Vec::new())
}

} // verus!
