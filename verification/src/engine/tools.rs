//! Tool calls: their start and end, and what the user is asked about them.

use vstd::prelude::*;

use crate::engine::stream;
use crate::engine::stream::{finish, wait};
use crate::engine::types::{
    ApprovalPrompt, AuditRecord, EngineEffect, EngineStage, EngineStep, ToolInput,
};
use crate::notices::Notice;
use crate::state::{App, ApprovalMode, Screen, ToolUse, Tools, Turn};
use crate::step::{one, three, two};
use crate::text::{join, same};

verus! {

/// `Clone::clone` of `serde_json::Value`: the copy is the same document.
pub assume_specification[ <serde_json::Value as Clone>::clone ](
    value: &serde_json::Value,
) -> (copy: serde_json::Value)
    ensures
        copy == *value,
;

/// The tools that hand work to a sub-agent.
pub open spec fn dispatches(name: Seq<char>) -> bool {
    ||| name == "agent_open"@
    ||| name == "agent_spawn"@
    ||| name == "delegate"@
    ||| fans_out(name)
}

/// The tools that hand work to several sub-agents at once.
pub open spec fn fans_out(name: Seq<char>) -> bool {
    ||| name == "rlm_open"@
    ||| name == "rlm_eval"@
    ||| name == "rlm"@
}

/// The tools that change what the task panel shows.
pub open spec fn changes_tasks(name: Seq<char>) -> bool {
    ||| name == "agent_open"@
    ||| name == "agent_spawn"@
    ||| name == "agent_close"@
    ||| name == "agent_cancel"@
    ||| name == "todo_write"@
    ||| name == "task_shell_start"@
    ||| name == "exec_shell"@
}

/// The tools that change the list of sub-agents.
pub open spec fn changes_agents(name: Seq<char>) -> bool {
    ||| name == "agent_open"@
    ||| name == "agent_eval"@
    ||| name == "agent_close"@
    ||| name == "agent_cancel"@
    ||| name == "agent_wait"@
    ||| name == "agent_result"@
    ||| name == "agent_status"@
}

/// Whether the tool hands work to several sub-agents at once.
pub fn is_fanout(name: &str) -> (b: bool)
    ensures
        b == fans_out(name@),
{
    same(name, "rlm_open") || same(name, "rlm_eval") || same(name, "rlm")
}

/// Whether the tool hands work to a sub-agent.
pub fn is_dispatch(name: &str) -> (b: bool)
    ensures
        b == dispatches(name@),
{
    same(name, "agent_open") || same(name, "agent_spawn") || same(name, "delegate") || is_fanout(
        name,
    )
}

/// Whether the tool changes what the task panel shows.
pub fn is_task_change(name: &str) -> (b: bool)
    ensures
        b == changes_tasks(name@),
{
    same(name, "agent_open") || same(name, "agent_spawn") || same(name, "agent_close") || same(
        name,
        "agent_cancel",
    ) || same(name, "todo_write") || same(name, "task_shell_start") || same(name, "exec_shell")
}

/// Whether the tool changes the list of sub-agents.
pub fn is_agent_change(name: &str) -> (b: bool)
    ensures
        b == changes_agents(name@),
{
    same(name, "agent_open") || same(name, "agent_eval") || same(name, "agent_close") || same(
        name,
        "agent_cancel",
    ) || same(name, "agent_wait") || same(name, "agent_result") || same(name, "agent_status")
}

// A tool call starts: it is pending from then on, and a call that hands work to sub-agents decides
// which card the next one of them lands on.

pub open spec fn tool_call_started(
    pre: App,
    id: String,
    name: String,
    input: serde_json::Value,
    post: App,
    step: EngineStep,
) -> bool {
    &&& post.tools.pending_tool_uses@ == pre.tools.pending_tool_uses@.push(
        ToolUse { id, name, input },
    )
    &&& post == App {
        tools: Tools {
            pending_tool_uses: post.tools.pending_tool_uses,
            pending_subagent_dispatch: if dispatches(name@) {
                Some(name)
            } else {
                pre.tools.pending_subagent_dispatch
            },
            last_fanout_card_index: if fans_out(name@) {
                None
            } else {
                pre.tools.last_fanout_card_index
            },
            ..pre.tools
        },
        ..pre
    }
    &&& stream::finishes(step, seq![EngineEffect::HandleToolCallStarted { id, name, input }])
}

pub fn on_tool_call_started(
    app: &mut App,
    id: String,
    name: String,
    input: serde_json::Value,
) -> (step: EngineStep)
    ensures
        tool_call_started(*old(app), id, name, input, *final(app), step),
{
    app.tools.pending_tool_uses.push(
        ToolUse { id: id.clone(), name: name.clone(), input: input.clone() },
    );
    if is_dispatch(name.as_str()) {
        app.tools.pending_subagent_dispatch = Some(name.clone());
        if is_fanout(name.as_str()) {
            app.tools.last_fanout_card_index = None;
        }
    }
    finish(one(EngineEffect::HandleToolCallStarted { id, name, input }))
}

// A tool call is complete: its output, or its error, goes to the model as the user's message.

/// The text that the model is shown for a tool's error.
pub open spec fn tool_error(error: Seq<char>) -> Seq<char> {
    "Error: "@ + error
}

/// The text that the model is shown for a tool's error.
pub fn tool_error_text(error: &str) -> (s: String)
    ensures
        s@ == tool_error(error@),
{
    join("Error: ", error)
}

pub open spec fn tool_call_complete(
    pre: App,
    id: String,
    name: String,
    error: Option<String>,
    post: App,
    step: EngineStep,
) -> bool {
    &&& post == App {
        turn: Turn {
            plan_tool_used_in_turn: name@ == "update_plan"@ || pre.turn.plan_tool_used_in_turn,
            ..pre.turn
        },
        ..pre
    }
    &&& match error {
        None => stream::awaits(
            step,
            seq![EngineEffect::CompactToolResult { model: pre.session.model, name }],
            EngineStage::ToolCompacted { id, name },
        ),
        Some(error) => {
            &&& step.effects@.len() == 1
            &&& step.effects@[0] matches EngineEffect::Sanitize(text) && text@ == tool_error(error@)
            &&& stream::awaits(step, step.effects@, EngineStage::ToolSanitized { id, name })
        },
    }
}

pub open spec fn tool_compacted(
    pre: App,
    id: String,
    name: String,
    compacted: String,
    post: App,
    step: EngineStep,
) -> bool {
    &&& post == pre
    &&& stream::awaits(
        step,
        seq![EngineEffect::Sanitize(compacted)],
        EngineStage::ToolSanitized { id, name },
    )
}

/// The request for the engine's sub-agents, after a tool that changed them.
pub open spec fn agent_refresh(name: Seq<char>) -> Seq<EngineEffect> {
    if changes_agents(name) {
        seq![EngineEffect::ListSubAgents]
    } else {
        seq![]
    }
}

pub open spec fn tool_sanitized(
    pre: App,
    id: String,
    name: String,
    content: String,
    post: App,
    step: EngineStep,
) -> bool {
    let handled = seq![
        EngineEffect::PushToolResult { tool_use_id: id, content },
        EngineEffect::HandleToolCallComplete { id, name },
    ];
    &&& post == pre
    &&& if changes_tasks(name@) {
        stream::awaits(
            step,
            handled + seq![EngineEffect::RefreshTaskPanel],
            EngineStage::ToolRefreshed { name },
        )
    } else {
        stream::finishes(step, handled + agent_refresh(name@))
    }
}

pub open spec fn tool_refreshed(
    pre: App,
    name: String,
    now: u128,
    post: App,
    step: EngineStep,
) -> bool {
    &&& post == App { screen: Screen { last_task_refresh: now, ..pre.screen }, ..pre }
    &&& stream::finishes(step, agent_refresh(name@))
}

pub fn on_tool_call_complete(app: &mut App, id: String, name: String, error: Option<String>) -> (step:
    EngineStep)
    ensures
        tool_call_complete(*old(app), id, name, error, *final(app), step),
{
    if same(name.as_str(), "update_plan") {
        app.turn.plan_tool_used_in_turn = true;
    }
    match error {
        None => wait(
            one(
                EngineEffect::CompactToolResult {
                    model: app.session.model.clone(),
                    name: name.clone(),
                },
            ),
            EngineStage::ToolCompacted { id, name },
        ),
        Some(error) => wait(
            one(EngineEffect::Sanitize(tool_error_text(error.as_str()))),
            EngineStage::ToolSanitized { id, name },
        ),
    }
}

pub fn on_tool_sanitized(app: &mut App, id: String, name: String, content: String) -> (step:
    EngineStep)
    ensures
        tool_sanitized(*old(app), id, name, content, *final(app), step),
{
    let mut effects = two(
        EngineEffect::PushToolResult { tool_use_id: id.clone(), content },
        EngineEffect::HandleToolCallComplete { id, name: name.clone() },
    );
    if is_task_change(name.as_str()) {
        effects.push(EngineEffect::RefreshTaskPanel);
        return wait(effects, EngineStage::ToolRefreshed { name });
    }
    if is_agent_change(name.as_str()) {
        effects.push(EngineEffect::ListSubAgents);
    }
    finish(effects)
}

pub fn on_tool_refreshed(app: &mut App, name: String, now: u128) -> (step: EngineStep)
    ensures
        tool_refreshed(*old(app), name, now, *final(app), step),
{
    app.screen.last_task_refresh = now;
    if is_agent_change(name.as_str()) {
        finish(one(EngineEffect::ListSubAgents))
    } else {
        finish(Vec::new())
    }
}

// A tool call needs approval. What the user has denied for the session stays denied, whatever else
// holds; otherwise the session's approvals and the approval mode decide, and the user is asked
// where neither does.

/// What becomes of a tool call that needs approval.
#[derive(Debug, Clone, Copy, PartialEq, Eq, Structural)]
pub enum ApprovalVerdict {
    /// Denied, since the user has denied it for the session.
    DenySession,
    Approve,
    /// Denied, since the approval mode denies all.
    Deny,
    Ask,
}

/// The verdict on a tool call.
pub open spec fn approval_verdict(
    denied: bool,
    approved: bool,
    mode: ApprovalMode,
) -> ApprovalVerdict {
    if denied {
        ApprovalVerdict::DenySession
    } else if approved || mode == ApprovalMode::Auto {
        ApprovalVerdict::Approve
    } else if mode == ApprovalMode::Never {
        ApprovalVerdict::Deny
    } else {
        ApprovalVerdict::Ask
    }
}

/// The verdict on a tool call.
pub fn decide_approval(denied: bool, approved: bool, mode: ApprovalMode) -> (v: ApprovalVerdict)
    ensures
        v == approval_verdict(denied, approved, mode),
{
    if denied {
        ApprovalVerdict::DenySession
    } else if approved || mode == ApprovalMode::Auto {
        ApprovalVerdict::Approve
    } else if mode == ApprovalMode::Never {
        ApprovalVerdict::Deny
    } else {
        ApprovalVerdict::Ask
    }
}

/// The input of the first pending call with the id `id`.
pub open spec fn pending_input(uses: Seq<ToolUse>, id: Seq<char>) -> Option<serde_json::Value>
    decreases uses.len(),
{
    if uses.len() == 0 {
        None
    } else if uses[0].id@ == id {
        Some(uses[0].input)
    } else {
        pending_input(uses.skip(1), id)
    }
}

/// The input of the first pending call with the id `id`.
pub fn find_pending_input(uses: &Vec<ToolUse>, id: &str) -> (input: Option<serde_json::Value>)
    ensures
        input == pending_input(uses@, id@),
{
    let mut i: usize = 0;
    proof {
        assert(uses@.skip(0) =~= uses@);
    }
    while i < uses.len()
        invariant
            i <= uses@.len(),
            pending_input(uses@, id@) == pending_input(uses@.skip(i as int), id@),
        decreases uses@.len() - i,
    {
        proof {
            assert(uses@.skip(i as int)[0] == uses@[i as int]);
            assert(uses@.skip(i as int).skip(1) =~= uses@.skip(i + 1));
        }
        if same(uses[i].id.as_str(), id) {
            return Some(uses[i].input.clone());
        }
        i = i + 1;
    }
    None
}

/// The input that the user is shown for the call with the id `id`: that of the pending call, and an
/// empty object where none is pending.
pub open spec fn shown_input(uses: Seq<ToolUse>, id: Seq<char>) -> ToolInput {
    match pending_input(uses, id) {
        Some(input) => ToolInput::Given(input),
        None => ToolInput::EmptyObject,
    }
}

/// The input that the user is shown for the call with the id `id`.
pub fn find_shown_input(uses: &Vec<ToolUse>, id: &str) -> (input: ToolInput)
    ensures
        input == shown_input(uses@, id@),
{
    match find_pending_input(uses, id) {
        Some(input) => ToolInput::Given(input),
        None => ToolInput::EmptyObject,
    }
}

pub open spec fn approval_required(
    pre: App,
    prompt: ApprovalPrompt,
    approval_grouping_key: String,
    post: App,
    step: EngineStep,
) -> bool {
    &&& post == pre
    &&& stream::awaits(
        step,
        seq![
            EngineEffect::AskSessionApproved { tool_name: prompt.tool_name, approval_grouping_key },
        ],
        EngineStage::ApprovalSession { prompt },
    )
}

pub open spec fn approval_session(
    pre: App,
    prompt: ApprovalPrompt,
    session_approved: bool,
    post: App,
    step: EngineStep,
) -> bool {
    &&& post == pre
    &&& stream::awaits(
        step,
        seq![EngineEffect::AskSessionDenied { approval_key: prompt.approval_key }],
        EngineStage::ApprovalDenied { prompt, session_approved },
    )
}

pub open spec fn approval_denied(
    pre: App,
    prompt: ApprovalPrompt,
    session_approved: bool,
    session_denied: bool,
    post: App,
    step: EngineStep,
) -> bool {
    let session_id = pre.session.current_session_id;
    let mode = pre.session.mode;
    match approval_verdict(session_denied, session_approved, pre.tools.approval_mode) {
        ApprovalVerdict::DenySession => {
            &&& post == pre
            &&& stream::finishes(
                step,
                seq![
                    EngineEffect::Audit(
                        AuditRecord::AutoDenySession {
                            tool_name: prompt.tool_name,
                            approval_key: prompt.approval_key,
                            session_id,
                        },
                    ),
                    EngineEffect::DenyToolCall(prompt.id),
                ],
            )
        },
        ApprovalVerdict::Approve => {
            &&& post == pre
            &&& stream::finishes(
                step,
                seq![
                    EngineEffect::Audit(
                        AuditRecord::AutoApprove {
                            tool_name: prompt.tool_name,
                            approval_key: prompt.approval_key,
                            session_id,
                            mode,
                        },
                    ),
                    EngineEffect::ApproveToolCall(prompt.id),
                ],
            )
        },
        ApprovalVerdict::Deny => {
            &&& post == pre.with_status(Notice::ToolBlocked(prompt.tool_name))
            &&& stream::finishes(
                step,
                seq![
                    EngineEffect::Audit(
                        AuditRecord::AutoDeny { tool_name: prompt.tool_name, session_id, mode },
                    ),
                    EngineEffect::DenyToolCall(prompt.id),
                ],
            )
        },
        ApprovalVerdict::Ask => {
            let input = shown_input(pre.tools.pending_tool_uses@, prompt.id@);
            if prompt.tool_name@ == "apply_patch"@ {
                &&& post == pre
                &&& stream::awaits(
                    step,
                    seq![EngineEffect::AddPatchPreview(input)],
                    EngineStage::ApprovalPreview { prompt, input },
                )
            } else {
                approval_shown(pre, prompt, input, post, step)
            }
        },
    }
}

pub open spec fn approval_shown(
    pre: App,
    prompt: ApprovalPrompt,
    input: ToolInput,
    post: App,
    step: EngineStep,
) -> bool {
    &&& post == pre.with_status(
        Notice::ApprovalRequired { tool: prompt.tool_name, description: prompt.description },
    )
    &&& stream::finishes(
        step,
        seq![
            EngineEffect::Audit(
                AuditRecord::Prompted {
                    tool_name: prompt.tool_name,
                    description: prompt.description,
                    session_id: pre.session.current_session_id,
                    mode: pre.session.mode,
                },
            ),
            EngineEffect::ShowApproval {
                id: prompt.id,
                tool_name: prompt.tool_name,
                description: prompt.description,
                input,
                approval_key: prompt.approval_key,
            },
        ],
    )
}

pub fn on_approval_denied(
    app: &mut App,
    prompt: ApprovalPrompt,
    session_approved: bool,
    session_denied: bool,
) -> (step: EngineStep)
    ensures
        approval_denied(
            *old(app),
            prompt,
            session_approved,
            session_denied,
            *final(app),
            step,
        ),
{
    let session_id = app.session.current_session_id.clone();
    let mode = app.session.mode;
    match decide_approval(session_denied, session_approved, app.tools.approval_mode) {
        ApprovalVerdict::DenySession => {
            finish(
                two(
                    EngineEffect::Audit(
                        AuditRecord::AutoDenySession {
                            tool_name: prompt.tool_name,
                            approval_key: prompt.approval_key,
                            session_id,
                        },
                    ),
                    EngineEffect::DenyToolCall(prompt.id),
                ),
            )
        },
        ApprovalVerdict::Approve => {
            finish(
                two(
                    EngineEffect::Audit(
                        AuditRecord::AutoApprove {
                            tool_name: prompt.tool_name,
                            approval_key: prompt.approval_key,
                            session_id,
                            mode,
                        },
                    ),
                    EngineEffect::ApproveToolCall(prompt.id),
                ),
            )
        },
        ApprovalVerdict::Deny => {
            app.status_message = Some(Notice::ToolBlocked(prompt.tool_name.clone()));
            finish(
                two(
                    EngineEffect::Audit(
                        AuditRecord::AutoDeny { tool_name: prompt.tool_name, session_id, mode },
                    ),
                    EngineEffect::DenyToolCall(prompt.id),
                ),
            )
        },
        ApprovalVerdict::Ask => {
            let input = find_shown_input(&app.tools.pending_tool_uses, prompt.id.as_str());
            if same(prompt.tool_name.as_str(), "apply_patch") {
                wait(
                    one(EngineEffect::AddPatchPreview(clone_input(&input))),
                    EngineStage::ApprovalPreview { prompt, input },
                )
            } else {
                on_approval_shown(app, prompt, input)
            }
        },
    }
}

/// The same input again.
fn clone_input(input: &ToolInput) -> (copy: ToolInput)
    ensures
        copy == *input,
{
    match input {
        ToolInput::Given(value) => ToolInput::Given(value.clone()),
        ToolInput::EmptyObject => ToolInput::EmptyObject,
    }
}

pub fn on_approval_shown(
    app: &mut App,
    prompt: ApprovalPrompt,
    input: ToolInput,
) -> (step: EngineStep)
    ensures
        approval_shown(*old(app), prompt, input, *final(app), step),
{
    app.status_message = Some(
        Notice::ApprovalRequired {
            tool: prompt.tool_name.clone(),
            description: prompt.description.clone(),
        },
    );
    let record = AuditRecord::Prompted {
        tool_name: prompt.tool_name.clone(),
        description: prompt.description.clone(),
        session_id: app.session.current_session_id.clone(),
        mode: app.session.mode,
    };
    finish(
        two(
            EngineEffect::Audit(record),
            EngineEffect::ShowApproval {
                id: prompt.id,
                tool_name: prompt.tool_name,
                description: prompt.description,
                input,
                approval_key: prompt.approval_key,
            },
        ),
    )
}

// The sandbox has denied a tool call: without asking, the call runs again with full access in the
// automatic approval mode only.

pub open spec fn elevation_required(
    pre: App,
    tool_id: String,
    tool_name: String,
    command: Option<String>,
    denial_reason: String,
    blocked_network: bool,
    blocked_write: bool,
    post: App,
    step: EngineStep,
) -> bool {
    let session_id = pre.session.current_session_id;
    if pre.tools.approval_mode == ApprovalMode::Auto {
        &&& post == pre
        &&& stream::finishes(
            step,
            seq![
                EngineEffect::Audit(
                    AuditRecord::AutoElevate {
                        tool_name,
                        tool_id,
                        reason: denial_reason,
                        session_id,
                    },
                ),
                EngineEffect::AddSystemMessage(
                    Notice::AutoElevating { tool: tool_name, reason: denial_reason },
                ),
                EngineEffect::RetryWithFullAccess(tool_id),
            ],
        )
    } else {
        &&& post == pre.with_status(
            Notice::SandboxBlocked { tool: tool_name, reason: denial_reason },
        )
        &&& stream::finishes(
            step,
            seq![
                EngineEffect::Audit(
                    AuditRecord::PromptElevation {
                        tool_name,
                        tool_id,
                        reason: denial_reason,
                        session_id,
                    },
                ),
                EngineEffect::ShowElevation {
                    tool_id,
                    command: match command {
                        Some(command) => command,
                        None => tool_name,
                    },
                    denial_reason,
                    blocked_network,
                    blocked_write,
                },
            ],
        )
    }
}

pub fn on_elevation_required(
    app: &mut App,
    tool_id: String,
    tool_name: String,
    command: Option<String>,
    denial_reason: String,
    blocked_network: bool,
    blocked_write: bool,
) -> (step: EngineStep)
    ensures
        elevation_required(
            *old(app),
            tool_id,
            tool_name,
            command,
            denial_reason,
            blocked_network,
            blocked_write,
            *final(app),
            step,
        ),
{
    let session_id = app.session.current_session_id.clone();
    if app.tools.approval_mode == ApprovalMode::Auto {
        finish(
            three(
                EngineEffect::Audit(
                    AuditRecord::AutoElevate {
                        tool_name: tool_name.clone(),
                        tool_id: tool_id.clone(),
                        reason: denial_reason.clone(),
                        session_id,
                    },
                ),
                EngineEffect::AddSystemMessage(
                    Notice::AutoElevating { tool: tool_name, reason: denial_reason },
                ),
                EngineEffect::RetryWithFullAccess(tool_id),
            ),
        )
    } else {
        app.status_message = Some(
            Notice::SandboxBlocked { tool: tool_name.clone(), reason: denial_reason.clone() },
        );
        let record = AuditRecord::PromptElevation {
            tool_name: tool_name.clone(),
            tool_id: tool_id.clone(),
            reason: denial_reason.clone(),
            session_id,
        };
        finish(
            two(
                EngineEffect::Audit(record),
                EngineEffect::ShowElevation {
                    tool_id,
                    command: match command {
                        Some(command) => command,
                        None => tool_name,
                    },
                    denial_reason,
                    blocked_network,
                    blocked_write,
                },
            ),
        )
    }
}

// The user is asked a question, and a running tool reports.

pub open spec fn user_input_required(pre: App, id: String, post: App, step: EngineStep) -> bool {
    &&& post == pre.with_status(Notice::InputRequired)
    &&& stream::finishes(step, seq![EngineEffect::ShowUserInput { id }])
}

pub open spec fn tool_call_progress(
    pre: App,
    id: String,
    output: String,
    post: App,
    step: EngineStep,
) -> bool {
    &&& post == pre
    &&& stream::awaits(
        step,
        seq![EngineEffect::Summarize(output)],
        EngineStage::ProgressSummarized { id },
    )
}

pub open spec fn progress_summarized(
    pre: App,
    id: String,
    summary: String,
    post: App,
    step: EngineStep,
) -> bool {
    &&& post == pre.with_status(Notice::ToolProgress { id, summary })
    &&& stream::finishes(step, seq![])
}

pub fn on_user_input_required(app: &mut App, id: String) -> (step: EngineStep)
    ensures
        user_input_required(*old(app), id, *final(app), step),
{
    app.status_message = Some(Notice::InputRequired);
    finish(one(EngineEffect::ShowUserInput { id }))
}

pub fn on_progress_summarized(app: &mut App, id: String, summary: String) -> (step: EngineStep)
    ensures
        progress_summarized(*old(app), id, summary, *final(app), step),
{
    app.status_message = Some(Notice::ToolProgress { id, summary });
    finish(Vec::new())
}

} // verus!
