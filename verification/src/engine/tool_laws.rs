//! What holds of tool calls, whatever the host answers on the way.

use vstd::prelude::*;

use crate::engine::runs;
use crate::engine::runs::Run;
use crate::engine::tools;
use crate::engine::types::{
    ApprovalPrompt, AuditRecord, EngineEffect, EngineEvent, EngineStage, ToolInput,
};
use crate::notices::Notice;
use crate::state::{ApprovalMode, ToolUse};
use crate::step::Reply;

verus! {

/// Whether call `i` is the first of the pending ones with this id.
pub open spec fn first_call(uses: Seq<ToolUse>, id: Seq<char>, i: int) -> bool {
    &&& 0 <= i < uses.len()
    &&& uses[i].id@ == id
    &&& forall|j: int| #![trigger uses[j]] 0 <= j < i ==> uses[j].id@ != id
}

/// Whether none of the pending calls has this id.
pub open spec fn unknown_call(uses: Seq<ToolUse>, id: Seq<char>) -> bool {
    forall|j: int| #![trigger uses[j]] 0 <= j < uses.len() ==> uses[j].id@ != id
}

/// Whether the input is the one that belongs to the call with this id: that of the first pending
/// call of this id, and an empty object where there is none.
pub open spec fn input_of_call(uses: Seq<ToolUse>, id: Seq<char>, input: ToolInput) -> bool {
    match input {
        ToolInput::Given(value) => exists|i: int| #[trigger]
            first_call(uses, id, i) && uses[i].input == value,
        ToolInput::EmptyObject => unknown_call(uses, id),
    }
}

proof fn found_input_is_the_calls(uses: Seq<ToolUse>, id: Seq<char>)
    ensures
        match tools::pending_input(uses, id) {
            Some(value) => exists|i: int| #[trigger]
                first_call(uses, id, i) && uses[i].input == value,
            None => unknown_call(uses, id),
        },
    decreases uses.len(),
{
    if uses.len() > 0 {
        if uses[0].id@ == id {
            assert(first_call(uses, id, 0));
        } else {
            let rest = uses.skip(1);
            found_input_is_the_calls(rest, id);
            assert forall|j: int| #![trigger uses[j]] 0 < j < uses.len() implies uses[j] == rest[j
                - 1] by {}
            match tools::pending_input(rest, id) {
                Some(value) => {
                    let i = choose|i: int| #[trigger]
                        first_call(rest, id, i) && rest[i].input == value;
                    assert(uses[i + 1] == rest[i]);
                    assert forall|j: int| #![trigger uses[j]] 0 <= j < i + 1 implies uses[j].id@
                        != id by {
                        if j > 0 {
                            assert(uses[j] == rest[j - 1]);
                        }
                    }
                    assert(first_call(uses, id, i + 1));
                },
                None => {
                    assert forall|j: int| #![trigger uses[j]] 0 <= j < uses.len() implies uses[j].id@
                        != id by {
                        if j > 0 {
                            assert(uses[j] == rest[j - 1]);
                        }
                    }
                },
            }
        }
    }
}

/// The input that the user is shown for a call is the call's own: that of the first pending call
/// with its id, whatever other calls are pending, and an empty object where no pending call has it.
pub proof fn shown_input_is_the_calls(uses: Seq<ToolUse>, id: Seq<char>, i: int)
    ensures
        input_of_call(uses, id, tools::shown_input(uses, id)),
        first_call(uses, id, i) ==> tools::shown_input(uses, id) == ToolInput::Given(uses[i].input),
        unknown_call(uses, id) ==> tools::shown_input(uses, id) == ToolInput::EmptyObject,
{
    found_input_is_the_calls(uses, id);
    if first_call(uses, id, i) {
        match tools::pending_input(uses, id) {
            Some(value) => {
                let k = choose|k: int| #[trigger]
                    first_call(uses, id, k) && uses[k].input == value;
                assert(uses[k].id@ == id && uses[i].id@ == id);
                assert(k == i);
            },
            None => {
                assert(uses[i].id@ != id);
            },
        }
    } else if unknown_call(uses, id) {
        if let Some(value) = tools::pending_input(uses, id) {
            let k = choose|k: int| #[trigger] first_call(uses, id, k) && uses[k].input == value;
            assert(uses[k].id@ != id);
        }
    }
}

/// Whether the call was denied for the whole session.
pub open spec fn is_denied_for_session(run: Run) -> bool {
    run.replies[2] == Reply::Flag(true)
}

/// Whether the session's approvals or the automatic mode let the call run.
pub open spec fn is_approved(run: Run) -> bool {
    &&& !is_denied_for_session(run)
    &&& run.replies[1] == Reply::Flag(true) || run.before[2].tools.approval_mode
        == ApprovalMode::Auto
}

/// Whether the approval mode denies the call.
pub open spec fn is_denied_by_mode(run: Run) -> bool {
    &&& !is_denied_for_session(run)
    &&& !is_approved(run)
    &&& run.before[2].tools.approval_mode == ApprovalMode::Never
}

/// Whether the user decides.
pub open spec fn is_left_to_user(run: Run) -> bool {
    &&& !is_denied_for_session(run)
    &&& !is_approved(run)
    &&& !is_denied_by_mode(run)
}

proof fn approval_stages(run: Run)
    requires
        run.well_formed(),
        run.event is ApprovalRequired,
    ensures
        run.event matches EngineEvent::ApprovalRequired {
            id,
            tool_name,
            description,
            approval_key,
            approval_grouping_key,
        } ==> {
            let prompt = ApprovalPrompt { id, tool_name, description, approval_key };
            &&& run.steps[0].next is Await
            &&& run.after[0] == run.before[0]
            &&& run.effects(0) == seq![
                EngineEffect::AskSessionApproved { tool_name, approval_grouping_key },
            ]
            &&& run.stage(0) == (EngineStage::ApprovalSession { prompt })
            &&& run.steps.len() > 1 ==> {
                &&& run.steps[1].next is Await
                &&& run.after[1] == run.before[1]
                &&& run.effects(1) == seq![EngineEffect::AskSessionDenied { approval_key }]
                &&& run.replies[1] matches Reply::Flag(approved) && run.stage(1)
                    == (EngineStage::ApprovalDenied { prompt, session_approved: approved })
            }
        },
{
    runs::first_step(run);
    if run.steps.len() > 1 {
        runs::later_step(run, 1);
    }
}

/// The host is asked first whether the user has approved such calls for the session, then whether
/// they have denied this one; nothing else is done before both are known.
pub proof fn approval_asks_the_session_first(run: Run)
    requires
        run.complete(),
        run.event is ApprovalRequired,
    ensures
        run.steps.len() > 2,
        run.event matches EngineEvent::ApprovalRequired {
            tool_name,
            approval_key,
            approval_grouping_key,
            ..
        } ==> {
            &&& run.effects(0) == seq![
                EngineEffect::AskSessionApproved { tool_name, approval_grouping_key },
            ]
            &&& run.effects(1) == seq![EngineEffect::AskSessionDenied { approval_key }]
            &&& run.after[0] == run.before[0]
            &&& run.after[1] == run.before[1]
        },
{
    approval_stages(run);
}

/// A call that was denied for the session is denied, in every mode and whatever was approved; one
/// that was approved, or any in the automatic mode, runs; in the mode that never asks all others
/// are denied. Each of these is logged with the call's name and answered with the call's id.
pub proof fn approval_is_answered(run: Run)
    requires
        run.complete(),
        run.event is ApprovalRequired,
        !is_left_to_user(run),
    ensures
        run.steps.len() == 3,
        run.event matches EngineEvent::ApprovalRequired { id, tool_name, approval_key, .. } ==> {
            let (pre, post) = (run.before[2], run.after[2]);
            let session_id = pre.session.current_session_id;
            let mode = pre.session.mode;
            &&& run.effects(2).len() == 2
            &&& is_denied_for_session(run) ==> {
                &&& run.effects(2)[0] == EngineEffect::Audit(
                    AuditRecord::AutoDenySession { tool_name, approval_key, session_id },
                )
                &&& run.effects(2)[1] == EngineEffect::DenyToolCall(id)
                &&& post == pre
            }
            &&& is_approved(run) ==> {
                &&& run.effects(2)[0] == EngineEffect::Audit(
                    AuditRecord::AutoApprove { tool_name, approval_key, session_id, mode },
                )
                &&& run.effects(2)[1] == EngineEffect::ApproveToolCall(id)
                &&& post == pre
            }
            &&& is_denied_by_mode(run) ==> {
                &&& run.effects(2)[0] == EngineEffect::Audit(
                    AuditRecord::AutoDeny { tool_name, session_id, mode },
                )
                &&& run.effects(2)[1] == EngineEffect::DenyToolCall(id)
                &&& post == pre.with_status(Notice::ToolBlocked(tool_name))
            }
        },
{
    approval_stages(run);
    runs::later_step(run, 2);
    if run.steps.len() > 3 {
        runs::later_step(run, 3);
    }
}

/// Where neither the session nor the mode decides, the user is asked once, with the call's own id,
/// name, description, key and input; a patch is shown as a preview first, with the same input. The
/// call is neither approved nor denied meanwhile.
pub proof fn user_is_asked_about_the_call(run: Run)
    requires
        run.complete(),
        run.event is ApprovalRequired,
        is_left_to_user(run),
    ensures
        run.event matches EngineEvent::ApprovalRequired {
            id,
            tool_name,
            description,
            approval_key,
            ..
        } ==> {
            let patch = tool_name@ == "apply_patch"@;
            let last = run.steps.len() - 1;
            let effects = run.effects(last);
            &&& last == if patch {
                3int
            } else {
                2
            }
            &&& effects.len() == 2
            &&& effects[0] matches EngineEffect::Audit(
                AuditRecord::Prompted { tool_name: t, description: d, session_id, mode },
            ) && t == tool_name && d == description && session_id
                == run.before[last].session.current_session_id && mode
                == run.before[last].session.mode
            &&& effects[1] matches EngineEffect::ShowApproval {
                id: i,
                tool_name: t,
                description: d,
                input,
                approval_key: k,
            } && i == id && t == tool_name && d == description && k == approval_key
                && input_of_call(run.before[2].tools.pending_tool_uses@, id@, input)
            &&& patch ==> run.effects(2) == seq![
                EngineEffect::AddPatchPreview(effects[1]->ShowApproval_input),
            ] && run.after[2] == run.before[2]
            &&& run.outcome() == run.before[last].with_status(
                Notice::ApprovalRequired { tool: tool_name, description },
            )
        },
{
    approval_stages(run);
    runs::later_step(run, 2);
    if let EngineEvent::ApprovalRequired { id, .. } = run.event {
        shown_input_is_the_calls(run.before[2].tools.pending_tool_uses@, id@, 0);
    }
    if run.steps.len() > 3 {
        runs::later_step(run, 3);
        if run.steps.len() > 4 {
            runs::later_step(run, 4);
        }
    }
}

/// A call that the sandbox has blocked runs again without it in the automatic approval mode alone,
/// the same call and with a message that says so; in every other mode it does not, and the user is
/// shown the command, or the tool's name where there is none, with the reason and what was blocked.
pub proof fn blocked_call_is_elevated_or_shown(run: Run)
    requires
        run.well_formed(),
        run.event is ElevationRequired,
    ensures
        run.steps.len() == 1,
        run.event matches EngineEvent::ElevationRequired {
            tool_id,
            tool_name,
            command,
            denial_reason,
            blocked_network,
            blocked_write,
        } ==> {
            let (pre, post, effects) = (run.before[0], run.after[0], run.effects(0));
            let session_id = pre.session.current_session_id;
            &&& pre.tools.approval_mode == ApprovalMode::Auto ==> {
                &&& effects == seq![
                    EngineEffect::Audit(
                        AuditRecord::AutoElevate {
                            tool_name,
                            tool_id,
                            reason: denial_reason,
                            session_id,
                        },
                    ),
                    EngineEffect::AddSystemMessage(
                        Notice::AutoElevating { tool: tool_name, reason: denial_reason },
                    ),
                    EngineEffect::RetryWithFullAccess(tool_id),
                ]
                &&& post == pre
            }
            &&& pre.tools.approval_mode != ApprovalMode::Auto ==> {
                &&& effects.len() == 2
                &&& effects[0] == EngineEffect::Audit(
                    AuditRecord::PromptElevation {
                        tool_name,
                        tool_id,
                        reason: denial_reason,
                        session_id,
                    },
                )
                &&& effects[1] matches EngineEffect::ShowElevation {
                    tool_id: i,
                    command: c,
                    denial_reason: r,
                    blocked_network: n,
                    blocked_write: w,
                } && i == tool_id && r == denial_reason && n == blocked_network && w
                    == blocked_write && c == match command {
                    Some(command) => command,
                    None => tool_name,
                }
                &&& post == pre.with_status(
                    Notice::SandboxBlocked { tool: tool_name, reason: denial_reason },
                )
            }
        },
{
    runs::first_step(run);
    if run.steps.len() > 1 {
        runs::later_step(run, 1);
    }
}

/// The names of the tools that hand work to several sub-agents at once.
pub open spec fn fanout_tools() -> Seq<Seq<char>> {
    seq!["rlm"@, "rlm_eval"@, "rlm_open"@]
}

/// The names of the tools that hand work to one sub-agent.
pub open spec fn delegating_tools() -> Seq<Seq<char>> {
    seq!["delegate"@, "agent_spawn"@, "agent_open"@]
}

/// The names of the tools after which the task panel is refreshed.
pub open spec fn task_tools() -> Seq<Seq<char>> {
    seq![
        "exec_shell"@,
        "task_shell_start"@,
        "todo_write"@,
        "agent_cancel"@,
        "agent_close"@,
        "agent_spawn"@,
        "agent_open"@,
    ]
}

/// The names of the tools after which the sub-agents are listed anew.
pub open spec fn agent_tools() -> Seq<Seq<char>> {
    seq![
        "agent_status"@,
        "agent_result"@,
        "agent_wait"@,
        "agent_cancel"@,
        "agent_close"@,
        "agent_eval"@,
        "agent_open"@,
    ]
}

proof fn tool_lists(name: Seq<char>)
    ensures
        tools::fans_out(name) == fanout_tools().contains(name),
        tools::dispatches(name) == (fanout_tools().contains(name) || delegating_tools().contains(
            name,
        )),
        tools::changes_tasks(name) == task_tools().contains(name),
        tools::changes_agents(name) == agent_tools().contains(name),
{
    let (f, d, t, a) = (fanout_tools(), delegating_tools(), task_tools(), agent_tools());
    assert(f[0] == "rlm"@ && f[1] == "rlm_eval"@ && f[2] == "rlm_open"@);
    assert(d[0] == "delegate"@ && d[1] == "agent_spawn"@ && d[2] == "agent_open"@);
    assert(t[0] == "exec_shell"@ && t[1] == "task_shell_start"@ && t[2] == "todo_write"@ && t[3]
        == "agent_cancel"@ && t[4] == "agent_close"@ && t[5] == "agent_spawn"@ && t[6]
        == "agent_open"@);
    assert(a[0] == "agent_status"@ && a[1] == "agent_result"@ && a[2] == "agent_wait"@ && a[3]
        == "agent_cancel"@ && a[4] == "agent_close"@ && a[5] == "agent_eval"@ && a[6]
        == "agent_open"@);
}

/// A call that starts is pending behind those that are, with its own id, name and input, until its
/// message goes out. A tool that hands work on is remembered for the next sub-agent, and one that
/// hands it to several starts a new card; no other tool changes either.
pub proof fn started_call_is_pending(run: Run)
    requires
        run.well_formed(),
        run.event is ToolCallStarted,
    ensures
        run.steps.len() == 1,
        run.event matches EngineEvent::ToolCallStarted { id, name, input } ==> {
            let (pre, post) = (run.before[0], run.after[0]);
            let uses = post.tools.pending_tool_uses@;
            &&& run.effects(0) == seq![EngineEffect::HandleToolCallStarted { id, name, input }]
            &&& uses.len() == pre.tools.pending_tool_uses@.len() + 1
            &&& uses.drop_last() == pre.tools.pending_tool_uses@
            &&& uses.last().id == id
            &&& uses.last().name == name
            &&& uses.last().input == input
            &&& post.tools.pending_subagent_dispatch == if fanout_tools().contains(name@)
                || delegating_tools().contains(name@) {
                Some(name)
            } else {
                pre.tools.pending_subagent_dispatch
            }
            &&& post.tools.last_fanout_card_index == if fanout_tools().contains(name@) {
                None
            } else {
                pre.tools.last_fanout_card_index
            }
            &&& post.tools.approval_mode == pre.tools.approval_mode
            &&& post.turn == pre.turn
            &&& post.stream == pre.stream
            &&& post.status_message == pre.status_message
        },
{
    runs::first_step(run);
    if let EngineEvent::ToolCallStarted { id, name, input } = run.event {
        tool_lists(name@);
        assert(run.after[0].tools.pending_tool_uses@.drop_last()
            =~= run.before[0].tools.pending_tool_uses@);
    }
    if run.steps.len() > 1 {
        runs::later_step(run, 1);
    }
}

/// What is asked for once the text for the model is ready: it goes to the model under the call's
/// id, and the panels that the tool may have changed are refreshed.
pub open spec fn result_effects(id: String, name: String, content: String) -> Seq<EngineEffect> {
    seq![
        EngineEffect::PushToolResult { tool_use_id: id, content },
        EngineEffect::HandleToolCallComplete { id, name },
    ] + if task_tools().contains(name@) {
        seq![EngineEffect::RefreshTaskPanel]
    } else {
        seq![]
    } + if agent_tools().contains(name@) {
        seq![EngineEffect::ListSubAgents]
    } else {
        seq![]
    }
}

/// The step by which the text for the model was sanitized.
pub open spec fn sanitizing(run: Run) -> int {
    if run.event->ToolCallComplete_error is Some {
        0
    } else {
        1
    }
}

/// A call that is complete gives the model one text, under the call's id: its output as the host
/// has made it short, or its error as one, and either as the host has sanitized it. The panels that
/// the tool may have changed are refreshed, and no others. Only a tool that updates the plan makes
/// the turn one that has made a plan.
pub proof fn complete_call_goes_to_the_model(run: Run)
    requires
        run.complete(),
        run.event is ToolCallComplete,
    ensures
        run.event matches EngineEvent::ToolCallComplete { id, name, error } ==> {
            let i = sanitizing(run);
            &&& run.steps.len() > i + 1
            &&& run.after[0].turn.plan_tool_used_in_turn
                == (run.before[0].turn.plan_tool_used_in_turn || name@ == "update_plan"@)
            &&& error is None ==> run.effects(0) == seq![
                EngineEffect::CompactToolResult { model: run.before[0].session.model, name },
            ]
            &&& run.effects(i).len() == 1
            &&& run.effects(i)[0] matches EngineEffect::Sanitize(text) && match error {
                Some(error) => text@ == "Error: "@ + error@,
                None => run.replies[1] == Reply::Text(text),
            }
            &&& run.replies[i + 1] matches Reply::Text(content)
                && run.asked(run.steps.len() as int).skip(i + 1) == result_effects(
                id,
                name,
                content,
            )
            &&& run.steps.len() == i + 2 + if task_tools().contains(name@) {
                1int
            } else {
                0
            }
            &&& task_tools().contains(name@) ==> run.outcome().screen.last_task_refresh
                == run.times[i + 2]
        },
{
    let i = sanitizing(run);
    runs::first_step(run);
    if let EngineEvent::ToolCallComplete { id, name, error } = run.event {
        tool_lists(name@);
        runs::later_step(run, 1);
        if i == 1 {
            runs::later_step(run, 2);
        }
        if run.steps.len() > i + 2 {
            runs::later_step(run, i + 2);
            if run.steps.len() > i + 3 {
                runs::later_step(run, i + 3);
            }
        }
        reveal_with_fuel(Run::asked, 5);
        if let Reply::Text(content) = run.replies[i + 1] {
            assert(run.asked(run.steps.len() as int).skip(i + 1) =~= result_effects(
                id,
                name,
                content,
            ));
        }
    }
}

/// A question of the engine is shown under its id, and what a running tool reports stands in the
/// status line as the host has summarized it.
pub proof fn questions_and_reports_are_shown(run: Run)
    requires
        run.complete(),
        run.event is UserInputRequired || run.event is ToolCallProgress,
    ensures
        run.event matches EngineEvent::UserInputRequired { id } ==> {
            &&& run.journal() == seq![EngineEffect::ShowUserInput { id }]
            &&& run.outcome() == run.before[0].with_status(Notice::InputRequired)
        },
        run.event matches EngineEvent::ToolCallProgress { id, output } ==> {
            &&& run.steps.len() == 2
            &&& run.journal() == seq![EngineEffect::Summarize(output)]
            &&& run.replies[1] matches Reply::Text(summary) && run.outcome()
                == run.before[1].with_status(Notice::ToolProgress { id, summary })
        },
{
    runs::first_step(run);
    if run.steps.len() > 1 {
        runs::later_step(run, 1);
        if run.steps.len() > 2 {
            runs::later_step(run, 2);
        }
    }
    reveal_with_fuel(Run::asked, 4);
    if let EngineEvent::UserInputRequired { id } = run.event {
        assert(run.journal() =~= seq![EngineEffect::ShowUserInput { id }]);
    }
    if let EngineEvent::ToolCallProgress { id, output } = run.event {
        assert(run.journal() =~= seq![EngineEffect::Summarize(output)]);
    }
}

} // verus!
