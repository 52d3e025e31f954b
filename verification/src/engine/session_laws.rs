//! What holds of the session and its sub-agents, whatever the host answers on the way.

use vstd::prelude::*;

use crate::engine::runs;
use crate::engine::runs::Run;
use crate::engine::types::{EngineEffect, EngineEvent};
use crate::notices::Notice;
use crate::state::{App, Session, SubAgent, Turn};
use crate::step::Reply;

verus! {

/// A sub-agent that starts is shown as starting, with a summary of its task, and beside those that
/// are shown already; the time of the sub-agents runs from the first of them.
pub proof fn spawned_agent_is_shown(run: Run)
    requires
        run.complete(),
        run.event is AgentSpawned,
    ensures
        run.event matches EngineEvent::AgentSpawned { id, prompt } ==> {
            let (pre, post) = (run.before[1], run.outcome());
            &&& run.steps.len() == 2
            &&& run.effects(0) == seq![EngineEffect::Summarize(prompt)]
            &&& run.after[0] == run.before[0]
            &&& run.effects(1) == seq![EngineEffect::ListSubAgents]
            &&& run.replies[1] matches Reply::Text(summary) && {
                &&& post.agents.agent_progress@.contains_key(id@)
                &&& post.agents.agent_progress@[id@] == "starting: "@ + summary@
                &&& post.status_message == Some(Notice::AgentStarting { id, summary })
            }
            &&& post.agents.agent_progress@.remove(id@) == pre.agents.agent_progress@.remove(id@)
            &&& post.agents.subagent_cache == pre.agents.subagent_cache
            &&& activity_kept(pre, run.times[1], post)
        },
{
    runs::first_step(run);
    runs::later_step(run, 1);
    if run.steps.len() > 2 {
        runs::later_step(run, 2);
    }
    if let EngineEvent::AgentSpawned { id, prompt } = run.event {
        assert(run.outcome().agents.agent_progress@.remove(id@)
            =~= run.before[1].agents.agent_progress@.remove(id@));
    }
}

/// Whether the sub-agents' activity goes on from when it began, or begins now.
pub open spec fn activity_kept(pre: App, now: u128, post: App) -> bool {
    &&& pre.agents.agent_activity_started_at is Some ==> post.agents.agent_activity_started_at
        == pre.agents.agent_activity_started_at
    &&& pre.agents.agent_activity_started_at is None ==> post.agents.agent_activity_started_at
        == Some(now)
}

/// What a sub-agent reports is shown as the host words it, and stands in the status line; but what
/// is mere noise never replaces what is shown of the agent. The others are left alone.
pub proof fn progress_is_shown(run: Run)
    requires
        run.complete(),
        run.event is AgentProgress,
    ensures
        run.event matches EngineEvent::AgentProgress { id, status } ==> {
            let (pre, post) = (run.before[2], run.outcome());
            let shown = pre.agents.agent_progress@;
            &&& run.steps.len() == 3
            &&& run.effects(0) == seq![EngineEffect::FriendlyProgress { id, status }]
            &&& run.effects(1) == seq![EngineEffect::AskNoisyProgress(status)]
            &&& run.effects(2).len() == 0
            &&& run.after[0] == run.before[0]
            &&& run.after[1] == run.before[1]
            &&& run.replies[1] matches Reply::Text(display) && {
                &&& post.status_message == Some(Notice::AgentProgress { id, display })
                &&& post.agents.agent_progress@.contains_key(id@)
                &&& run.replies[2] == Reply::Flag(false) ==> post.agents.agent_progress@[id@]
                    == display@
                &&& run.replies[2] == Reply::Flag(true) ==> post.agents.agent_progress@[id@] == if
                shown.contains_key(id@) {
                    shown[id@]
                } else {
                    display@
                }
            }
            &&& post.agents.agent_progress@.remove(id@) == shown.remove(id@)
            &&& post.agents.subagent_cache == pre.agents.subagent_cache
            &&& activity_kept(pre, run.times[2], post)
        },
{
    runs::first_step(run);
    runs::later_step(run, 1);
    runs::later_step(run, 2);
    if run.steps.len() > 3 {
        runs::later_step(run, 3);
    }
    if let EngineEvent::AgentProgress { id, status } = run.event {
        assert(run.outcome().agents.agent_progress@.remove(id@)
            =~= run.before[2].agents.agent_progress@.remove(id@));
    }
}

/// Whether another sub-agent than `id` is at work: one that is shown, or one that runs by the list.
pub open spec fn another_works(app: App, id: Seq<char>) -> bool {
    ||| exists|other: Seq<char>| #[trigger]
        app.agents.agent_progress@.contains_key(other) && other != id
    ||| exists|i: int| #![trigger app.agents.subagent_cache@[i]]
        0 <= i < app.agents.subagent_cache@.len() && app.agents.subagent_cache@[i].running
            && app.agents.subagent_cache@[i].agent_id@ != id
}

/// How long the sub-agents were at work when the event came: since they began, or since the turn
/// began where that is not known.
pub open spec fn work_time(app: App, now: u128) -> int {
    let since = match app.agents.agent_activity_started_at {
        Some(started) => Some(started),
        None => app.turn.turn_started_at,
    };
    match since {
        Some(since) if since <= now => now - since,
        _ => 0,
    }
}

/// A sub-agent that is done is shown no longer, and the others as before. The user is told, and the
/// terminal taken back on the alternate screen, exactly where no other sub-agent is at work; the
/// sub-agents are listed anew in every case.
pub proof fn done_agent_goes(run: Run)
    requires
        run.complete(),
        run.event is AgentComplete,
    ensures
        run.event matches EngineEvent::AgentComplete { id, result } ==> {
            let last = run.steps.len() - 1;
            &&& run.effects(0) == seq![EngineEffect::Summarize(result)]
            &&& run.after[0].agents.agent_progress@ == run.before[0].agents.agent_progress@.remove(
                id@,
            )
            &&& run.after[0].agents.subagent_cache == run.before[0].agents.subagent_cache
            &&& run.replies[1] matches Reply::Text(summary) && run.after[1]
                == run.before[1].with_status(Notice::AgentCompleted { id, summary })
            &&& run.effects(last).last() == EngineEffect::ListSubAgents
            &&& another_works(run.before[0], id@) ==> last == 1 && run.effects(1).len() == 1
            &&& !another_works(run.before[0], id@) ==> {
                let told = run.replies[2] == Reply::Flag(true);
                let recaptured = run.before[2].screen.use_alt_screen;
                let start = if told {
                    1int
                } else {
                    0
                };
                &&& run.effects(1) == seq![EngineEffect::AskNotifications]
                &&& run.after[2] == run.before[2]
                &&& told ==> (run.effects(2)[0] matches EngineEffect::NotifyAgentDone {
                    id: i,
                    result: r,
                    elapsed,
                } && i == id && r == result && elapsed == work_time(run.before[0], run.times[0]))
                &&& run.effects(2).len() == start + 1
                &&& recaptured ==> {
                    &&& last == 3
                    &&& run.effects(2).last() == EngineEffect::ResumeTerminal
                    &&& run.effects(3) == seq![
                        EngineEffect::ResumeBroker,
                        EngineEffect::ListSubAgents,
                    ]
                    &&& run.outcome().screen.terminal_paused_at is None
                    &&& run.outcome().screen.needs_redraw
                }
                &&& !recaptured ==> last == 2
            }
        },
{
    runs::first_step(run);
    runs::later_step(run, 1);
    if run.steps.len() > 2 {
        runs::later_step(run, 2);
        if run.steps.len() > 3 {
            runs::later_step(run, 3);
            if run.steps.len() > 4 {
                runs::later_step(run, 4);
            }
        }
    }
}

/// The list of sub-agents is kept as the host has sorted it, without those of earlier sessions; the
/// same list is shown, and the status line tells their number where a view took it over.
pub proof fn agent_list_is_this_sessions(run: Run)
    requires
        run.complete(),
        run.event is AgentList,
    ensures
        run.event matches EngineEvent::AgentList { agents } ==> {
            &&& run.steps.len() == 4
            &&& run.effects(0) == seq![EngineEffect::SortAgents(agents)]
            &&& run.after[0] == run.before[0]
            &&& run.replies[1] matches Reply::Agents(sorted) && {
                let kept = run.after[1].agents.subagent_cache@;
                &&& kept == sorted@.filter(|agent: SubAgent| !agent.from_prior_session)
                &&& run.effects(1).len() == 2
                &&& run.effects(1)[0] == EngineEffect::ReconcileAgents
                &&& run.effects(1)[1] matches EngineEffect::BuildAgentView(view) && view@ == kept
                &&& run.after[1].agents.agent_progress == run.before[1].agents.agent_progress
            }
            &&& run.effects(2) == seq![EngineEffect::UpdateAgentView]
            &&& run.after[2] == run.before[2]
            &&& run.effects(3).len() == 0
            &&& run.replies[2] matches Reply::Count(count) && run.outcome() == if run.replies[3]
                == Reply::Flag(true) {
                run.before[3].with_status(Notice::AgentTotal(count as u64))
            } else {
                run.before[3]
            }
        },
{
    runs::first_step(run);
    runs::later_step(run, 1);
    runs::later_step(run, 2);
    runs::later_step(run, 3);
    if run.steps.len() > 4 {
        runs::later_step(run, 4);
    }
    if let Reply::Agents(sorted) = run.replies[1] {
        assert(run.after[1].agents.subagent_cache@ =~= sorted@.filter(
            |agent: SubAgent| !agent.from_prior_session,
        ));
    }
}

/// Whether the event is one of those that a single step handles.
pub open spec fn is_short(event: EngineEvent) -> bool {
    ||| event is Error
    ||| event is Status
    ||| event is CompactionStarted
    ||| event is CompactionCompleted
    ||| event is CompactionFailed
    ||| event is CoherenceState
    ||| event is PrefixCacheChange
    ||| event is CapacityDecision
    ||| event is CapacityIntervention
    ||| event is CapacityMemoryPersistFailed
    ||| event is SubAgentMailbox
}

/// What the status line says after an event that a single step handles.
pub open spec fn short_notice(event: EngineEvent, shown: Option<Notice>) -> Option<Notice> {
    match event {
        EngineEvent::Status { message } => Some(Notice::Message(message)),
        EngineEvent::CompactionStarted { message } => Some(Notice::Message(message)),
        EngineEvent::CompactionCompleted { message } => Some(Notice::Message(message)),
        EngineEvent::CompactionFailed { message } => Some(Notice::Message(message)),
        EngineEvent::CapacityIntervention { action, before_prompt_tokens, after_prompt_tokens } =>
            Some(
            Notice::CapacityIntervention {
                action,
                before: before_prompt_tokens,
                after: after_prompt_tokens,
            },
        ),
        EngineEvent::CapacityMemoryPersistFailed { action, error } => Some(
            Notice::CapacityMemoryPersistFailed { action, error },
        ),
        _ => shown,
    }
}

/// What the engine says stands in the status line; what it decides without doing anything replaces
/// nothing. The client knows that the engine compacts from its start on, and until it is completed
/// or has failed. An error, a state of coherence and a message of a sub-agent are handed on.
pub proof fn short_events_are_told(run: Run)
    requires
        run.well_formed(),
        is_short(run.event),
    ensures
        ({
            let (pre, post) = (run.before[0], run.after[0]);
            &&& run.steps.len() == 1
            &&& run.effects(0) == match run.event {
                EngineEvent::Error => seq![EngineEffect::ApplyEngineError],
                EngineEvent::CoherenceState => seq![EngineEffect::SetCoherence],
                EngineEvent::SubAgentMailbox => seq![EngineEffect::HandleMailbox],
                _ => seq![],
            }
            &&& post.status_message == short_notice(run.event, pre.status_message)
            &&& post.turn == (Turn {
                is_compacting: match run.event {
                    EngineEvent::CompactionStarted { .. } => true,
                    EngineEvent::CompactionCompleted { .. } => false,
                    EngineEvent::CompactionFailed { .. } => false,
                    _ => pre.turn.is_compacting,
                },
                ..pre.turn
            })
            &&& post.poll.transcript_batch_updated == (run.event is SubAgentMailbox
                || pre.poll.transcript_batch_updated)
            &&& !(run.event is PrefixCacheChange) ==> post.prefix == pre.prefix
            &&& post.session == pre.session
            &&& post.stream == pre.stream
            &&& post.tools == pre.tools
            &&& post.queue == pre.queue
            &&& post.agents == pre.agents
            &&& post.screen == pre.screen
        }),
{
    runs::first_step(run);
    if run.steps.len() > 1 {
        runs::later_step(run, 1);
    }
}

/// Every check of the prompt prefix is counted, and every change of it among them; the last change
/// that was described is kept, and the last pinned prefix, where one is pinned.
pub proof fn prefix_checks_are_counted(run: Run)
    requires
        run.well_formed(),
        run.event is PrefixCacheChange,
    ensures
        run.event matches EngineEvent::PrefixCacheChange {
            description,
            stability_pct,
            changed,
            pinned_combined_hash,
        } ==> {
            let (pre, post) = (run.before[0].prefix, run.after[0].prefix);
            &&& post.prefix_checks_total == pre.prefix_checks_total.saturating_add(1)
            &&& changed ==> post.prefix_change_count == pre.prefix_change_count.saturating_add(1)
            &&& !changed ==> post.prefix_change_count == pre.prefix_change_count
            &&& post.prefix_stability_pct == Some(stability_pct)
            &&& pinned_combined_hash@.len() > 0 ==> post.last_pinned_prefix_hash == Some(
                pinned_combined_hash,
            )
            &&& pinned_combined_hash@.len() == 0 ==> post.last_pinned_prefix_hash is None
            &&& changed && description@.len() > 0 ==> post.last_prefix_change_desc == Some(
                description,
            )
            &&& !changed || description@.len() == 0 ==> post.last_prefix_change_desc
                == pre.last_prefix_change_desc
        },
{
    runs::first_step(run);
}

/// A new context cycle is counted and marked in the transcript before the status line tells of it.
pub proof fn cycle_is_marked(run: Run)
    requires
        run.complete(),
        run.event is CycleAdvanced,
    ensures
        run.event matches EngineEvent::CycleAdvanced { from, to, briefing_tokens } ==> {
            &&& run.steps.len() == 2
            &&& run.effects(0) == seq![
                EngineEffect::RecordBriefing,
                EngineEffect::AddSystemMessage(
                    Notice::CycleSeparator { from, to, briefing_tokens },
                ),
            ]
            &&& run.after[0] == (App {
                session: Session { cycle_count: to, ..run.before[0].session },
                ..run.before[0]
            })
            &&& run.effects(1).len() == 0
            &&& run.outcome() == run.before[1].with_status(
                Notice::ContextRefreshed { from, to, briefing_tokens },
            )
        },
{
    runs::first_step(run);
    runs::later_step(run, 1);
    if run.steps.len() > 2 {
        runs::later_step(run, 2);
    }
}

/// The terminal is handed over where it is not already, and the time of it kept; a handover is
/// acknowledged where the engine waits for that, whether it was needed or not.
pub proof fn terminal_is_handed_over(run: Run)
    requires
        run.complete(),
        run.event is PauseEvents,
    ensures
        run.event matches EngineEvent::PauseEvents { ack } ==> {
            let acknowledged = if ack {
                seq![EngineEffect::Acknowledge]
            } else {
                seq![]
            };
            &&& run.effects(0) == seq![EngineEffect::AskPaused]
            &&& run.after[0] == run.before[0]
            &&& run.after[1] == run.before[1]
            &&& run.replies[1] == Reply::Flag(true) ==> {
                &&& run.steps.len() == 2
                &&& run.effects(1) == acknowledged
            }
            &&& run.replies[1] == Reply::Flag(false) ==> {
                &&& run.steps.len() == 3
                &&& run.effects(1) == seq![EngineEffect::PauseTerminal]
                &&& run.effects(2) == seq![EngineEffect::PauseBroker] + acknowledged
                &&& run.outcome().screen.terminal_paused_at == Some(run.times[2])
            }
        },
{
    runs::first_step(run);
    runs::later_step(run, 1);
    if run.steps.len() > 2 {
        runs::later_step(run, 2);
        if run.steps.len() > 3 {
            runs::later_step(run, 3);
        }
    }
}

/// The terminal is taken back where it was handed over, and otherwise left alone.
pub proof fn terminal_is_taken_back(run: Run)
    requires
        run.complete(),
        run.event is ResumeEvents,
    ensures
        run.effects(0) == seq![EngineEffect::AskPaused],
        run.after[0] == run.before[0],
        run.after[1] == run.before[1],
        run.replies[1] == Reply::Flag(false) ==> run.steps.len() == 2 && run.effects(1).len() == 0,
        run.replies[1] == Reply::Flag(true) ==> {
            &&& run.steps.len() == 3
            &&& run.effects(1) == seq![EngineEffect::ResumeTerminal]
            &&& run.effects(2) == seq![EngineEffect::ResumeBroker]
            &&& run.outcome().screen.terminal_paused_at is None
        },
{
    runs::first_step(run);
    runs::later_step(run, 1);
    if run.steps.len() > 2 {
        runs::later_step(run, 2);
        if run.steps.len() > 3 {
            runs::later_step(run, 3);
        }
    }
}

/// Whether work is under way when the engine's view of the session has been taken over.
pub open spec fn under_way(run: Run) -> bool {
    run.before[1].turn.is_loading || run.before[1].turn.is_compacting
}

/// The engine's view of the session is taken over: its id, its messages and its workspace; its
/// model becomes the chosen one, except in the automatic choice, where it is only kept as the last
/// one.
pub proof fn session_is_taken_over(run: Run)
    requires
        run.complete(),
        run.event is SessionUpdated,
    ensures
        run.event matches EngineEvent::SessionUpdated { session_id, model } ==> {
            let (pre, post, effects) = (run.before[0], run.after[0], run.effects(0));
            &&& run.steps.len() > 1
            &&& post.session.current_session_id == Some(session_id)
            &&& post.session.session_title == pre.session.session_title
            &&& post.turn == pre.turn
            &&& effects[0] == EngineEffect::InstallMessages
            &&& effects.last() == EngineEffect::InstallWorkspace
            &&& pre.session.auto_model ==> {
                &&& post.session.last_effective_model == Some(model)
                &&& effects.len() == 3
                &&& effects[1] == EngineEffect::UpdateCompactionBudget
            }
            &&& !pre.session.auto_model ==> {
                &&& post.session.last_effective_model == pre.session.last_effective_model
                &&& effects.len() == 4
                &&& effects[1] == EngineEffect::SetModelSelection(model)
                &&& effects[2] == EngineEffect::UpdateCompactionBudget
            }
        },
{
    runs::first_step(run);
}

/// While work is under way and the store can be opened, the session is written to the crash
/// checkpoint, and its title is the snapshot's. Otherwise nothing is written, and a title that the
/// session has stays; one that has none gets that of its saved file, or else one made from its
/// messages.
pub proof fn session_is_titled(run: Run)
    requires
        run.complete(),
        run.event is SessionUpdated,
    ensures
        ({
            let stored = under_way(run) && run.replies[2] == Reply::Flag(true);
            let i = if under_way(run) {
                2int
            } else {
                1
            };
            let last = run.steps.len() - 1;
            &&& under_way(run) ==> run.effects(1) == seq![EngineEffect::OpenSessionStore]
                && run.after[1] == run.before[1]
            &&& stored ==> {
                &&& last == 3
                &&& run.effects(2) == seq![EngineEffect::BuildSnapshot]
                &&& run.effects(3) == seq![EngineEffect::PersistCheckpoint]
                &&& run.replies[3] matches Reply::Snapshot { title, .. }
                    && run.outcome().session.session_title == Some(title)
            }
            &&& !stored && run.before[i].session.session_title is Some ==> {
                &&& last == i
                &&& run.effects(i).len() == 0
                &&& run.outcome() == run.before[i]
            }
            &&& !stored && run.before[i].session.session_title is None ==> {
                &&& run.after[i] == run.before[i]
                &&& run.before[i].session.current_session_id matches Some(id) ==> {
                    &&& run.effects(i) == seq![EngineEffect::LoadSavedTitle(id)]
                    &&& run.replies[i + 1] matches Reply::Maybe(saved) && match saved {
                        Some(title) => {
                            &&& last == i + 1
                            &&& run.outcome().session.session_title == Some(title)
                            &&& run.effects(last).len() == 0
                        },
                        None => {
                            &&& last == i + 2
                            &&& run.effects(i + 1) == seq![EngineEffect::DeriveTitle]
                            &&& run.replies[last] == Reply::Maybe(
                                run.outcome().session.session_title,
                            )
                            &&& run.effects(last).len() == 0
                        },
                    }
                }
                &&& run.before[i].session.current_session_id is None ==> {
                    &&& last == i + 1
                    &&& run.effects(i) == seq![EngineEffect::DeriveTitle]
                    &&& run.replies[last] == Reply::Maybe(run.outcome().session.session_title)
                    &&& run.effects(last).len() == 0
                }
            }
        }),
{
    runs::first_step(run);
    runs::later_step(run, 1);
    if run.steps.len() > 2 {
        runs::later_step(run, 2);
        if run.steps.len() > 3 {
            runs::later_step(run, 3);
            if run.steps.len() > 4 {
                runs::later_step(run, 4);
                if run.steps.len() > 5 {
                    runs::later_step(run, 5);
                }
            }
        }
    }
}

} // verus!
