//! What the engine reports of the session as a whole.

use vstd::prelude::*;
use vstd::string::StringExecFns;

use crate::engine::stream;
use crate::engine::stream::{finish, wait};
use crate::engine::types::{EngineEffect, EngineStage, EngineStep};
use crate::notices::Notice;
use crate::state::{App, PrefixCache, Screen, Session, Turn};
use crate::step::{one, three, two};

verus! {

// The engine's view of the session is taken over. While work is under way it is also written to the
// crash checkpoint, whose title becomes the session's; otherwise a session without a title gets
// that of its saved file, or one made from its messages.

pub open spec fn session_updated(
    pre: App,
    session_id: String,
    model: String,
    post: App,
    step: EngineStep,
) -> bool {
    &&& post == App {
        session: Session {
            current_session_id: Some(session_id),
            last_effective_model: if pre.session.auto_model {
                Some(model)
            } else {
                pre.session.last_effective_model
            },
            ..pre.session
        },
        ..pre
    }
    &&& stream::awaits(
        step,
        if pre.session.auto_model {
            seq![
                EngineEffect::InstallMessages,
                EngineEffect::UpdateCompactionBudget,
                EngineEffect::InstallWorkspace,
            ]
        } else {
            seq![EngineEffect::InstallMessages, EngineEffect::SetModelSelection(model)] + seq![
                EngineEffect::UpdateCompactionBudget,
                EngineEffect::InstallWorkspace,
            ]
        },
        EngineStage::SessionModel,
    )
}

pub open spec fn session_model(pre: App, post: App, step: EngineStep) -> bool {
    if pre.turn.is_loading || pre.turn.is_compacting {
        post == pre && stream::awaits(
            step,
            seq![EngineEffect::OpenSessionStore],
            EngineStage::SessionStore,
        )
    } else {
        session_title(pre, post, step)
    }
}

pub open spec fn session_title(pre: App, post: App, step: EngineStep) -> bool {
    &&& post == pre
    &&& match (pre.session.session_title, pre.session.current_session_id) {
        (Some(_), _) => stream::finishes(step, seq![]),
        (None, Some(id)) => stream::awaits(
            step,
            seq![EngineEffect::LoadSavedTitle(id)],
            EngineStage::SessionSaved,
        ),
        (None, None) => stream::awaits(
            step,
            seq![EngineEffect::DeriveTitle],
            EngineStage::SessionDerived,
        ),
    }
}

pub open spec fn session_store(pre: App, opened: bool, post: App, step: EngineStep) -> bool {
    if opened {
        post == pre && stream::awaits(
            step,
            seq![EngineEffect::BuildSnapshot],
            EngineStage::SessionSnapshot,
        )
    } else {
        session_title(pre, post, step)
    }
}

pub open spec fn session_snapshot(pre: App, title: String, post: App, step: EngineStep) -> bool {
    &&& post == App { session: Session { session_title: Some(title), ..pre.session }, ..pre }
    &&& stream::finishes(step, seq![EngineEffect::PersistCheckpoint])
}

pub open spec fn session_saved(
    pre: App,
    saved: Option<String>,
    post: App,
    step: EngineStep,
) -> bool {
    match saved {
        Some(title) => session_derived(pre, Some(title), post, step),
        None => post == pre && stream::awaits(
            step,
            seq![EngineEffect::DeriveTitle],
            EngineStage::SessionDerived,
        ),
    }
}

pub open spec fn session_derived(
    pre: App,
    title: Option<String>,
    post: App,
    step: EngineStep,
) -> bool {
    &&& post == App { session: Session { session_title: title, ..pre.session }, ..pre }
    &&& stream::finishes(step, seq![])
}

pub fn on_session_updated(app: &mut App, session_id: String, model: String) -> (step: EngineStep)
    ensures
        session_updated(*old(app), session_id, model, *final(app), step),
{
    app.session.current_session_id = Some(session_id);
    if app.session.auto_model {
        app.session.last_effective_model = Some(model);
        wait(
            three(
                EngineEffect::InstallMessages,
                EngineEffect::UpdateCompactionBudget,
                EngineEffect::InstallWorkspace,
            ),
            EngineStage::SessionModel,
        )
    } else {
        let mut effects = two(
            EngineEffect::InstallMessages,
            EngineEffect::SetModelSelection(model),
        );
        effects.push(EngineEffect::UpdateCompactionBudget);
        effects.push(EngineEffect::InstallWorkspace);
        wait(effects, EngineStage::SessionModel)
    }
}

pub fn on_session_model(app: &mut App) -> (step: EngineStep)
    ensures
        session_model(*old(app), *final(app), step),
{
    if app.turn.is_loading || app.turn.is_compacting {
        wait(one(EngineEffect::OpenSessionStore), EngineStage::SessionStore)
    } else {
        on_session_title(app)
    }
}

pub fn on_session_title(app: &mut App) -> (step: EngineStep)
    ensures
        session_title(*old(app), *final(app), step),
{
    if app.session.session_title.is_some() {
        finish(Vec::new())
    } else {
        match &app.session.current_session_id {
            Some(id) => wait(
                one(EngineEffect::LoadSavedTitle(id.clone())),
                EngineStage::SessionSaved,
            ),
            None => wait(one(EngineEffect::DeriveTitle), EngineStage::SessionDerived),
        }
    }
}

pub fn on_session_store(app: &mut App, opened: bool) -> (step: EngineStep)
    ensures
        session_store(*old(app), opened, *final(app), step),
{
    if opened {
        wait(one(EngineEffect::BuildSnapshot), EngineStage::SessionSnapshot)
    } else {
        on_session_title(app)
    }
}

pub fn on_session_snapshot(app: &mut App, title: String) -> (step: EngineStep)
    ensures
        session_snapshot(*old(app), title, *final(app), step),
{
    app.session.session_title = Some(title);
    finish(one(EngineEffect::PersistCheckpoint))
}

pub fn on_session_saved(app: &mut App, saved: Option<String>) -> (step: EngineStep)
    ensures
        session_saved(*old(app), saved, *final(app), step),
{
    match saved {
        Some(title) => on_session_derived(app, Some(title)),
        None => wait(one(EngineEffect::DeriveTitle), EngineStage::SessionDerived),
    }
}

pub fn on_session_derived(app: &mut App, title: Option<String>) -> (step: EngineStep)
    ensures
        session_derived(*old(app), title, *final(app), step),
{
    app.session.session_title = title;
    finish(Vec::new())
}

// The status line shows what the engine says, and whether it compacts.

pub open spec fn status(pre: App, notice: Notice, post: App, step: EngineStep) -> bool {
    &&& post == pre.with_status(notice)
    &&& stream::finishes(step, seq![])
}

pub open spec fn compaction(
    pre: App,
    running: bool,
    message: String,
    post: App,
    step: EngineStep,
) -> bool {
    status(
        App { turn: Turn { is_compacting: running, ..pre.turn }, ..pre },
        Notice::Message(message),
        post,
        step,
    )
}

pub fn on_status(app: &mut App, notice: Notice) -> (step: EngineStep)
    ensures
        status(*old(app), notice, *final(app), step),
{
    app.status_message = Some(notice);
    finish(Vec::new())
}

pub fn on_compaction(app: &mut App, running: bool, message: String) -> (step: EngineStep)
    ensures
        compaction(*old(app), running, message, *final(app), step),
{
    app.turn.is_compacting = running;
    on_status(app, Notice::Message(message))
}

// A new context cycle begins: the transcript marks it, then the status line tells.

pub open spec fn cycle_advanced(
    pre: App,
    from: u32,
    to: u32,
    briefing_tokens: u64,
    post: App,
    step: EngineStep,
) -> bool {
    &&& post == App { session: Session { cycle_count: to, ..pre.session }, ..pre }
    &&& stream::awaits(
        step,
        seq![
            EngineEffect::RecordBriefing,
            EngineEffect::AddSystemMessage(Notice::CycleSeparator { from, to, briefing_tokens }),
        ],
        EngineStage::CycleNoted { from, to, briefing_tokens },
    )
}

pub fn on_cycle_advanced(app: &mut App, from: u32, to: u32, briefing_tokens: u64) -> (step:
    EngineStep)
    ensures
        cycle_advanced(*old(app), from, to, briefing_tokens, *final(app), step),
{
    app.session.cycle_count = to;
    wait(
        two(
            EngineEffect::RecordBriefing,
            EngineEffect::AddSystemMessage(Notice::CycleSeparator { from, to, briefing_tokens }),
        ),
        EngineStage::CycleNoted { from, to, briefing_tokens },
    )
}

// The prompt prefix was checked against the pinned one.

pub open spec fn prefix_checked(
    prefix: PrefixCache,
    description: String,
    stability_pct: u8,
    changed: bool,
    pinned_combined_hash: String,
) -> PrefixCache {
    PrefixCache {
        prefix_checks_total: prefix.prefix_checks_total.saturating_add(1),
        prefix_stability_pct: Some(stability_pct),
        last_pinned_prefix_hash: if pinned_combined_hash@.len() > 0 {
            Some(pinned_combined_hash)
        } else {
            None
        },
        prefix_change_count: if changed {
            prefix.prefix_change_count.saturating_add(1)
        } else {
            prefix.prefix_change_count
        },
        last_prefix_change_desc: if changed && description@.len() > 0 {
            Some(description)
        } else {
            prefix.last_prefix_change_desc
        },
    }
}

pub open spec fn prefix_cache_change(
    pre: App,
    description: String,
    stability_pct: u8,
    changed: bool,
    pinned_combined_hash: String,
    post: App,
    step: EngineStep,
) -> bool {
    &&& post == App {
        prefix: prefix_checked(
            pre.prefix,
            description,
            stability_pct,
            changed,
            pinned_combined_hash,
        ),
        ..pre
    }
    &&& stream::finishes(step, seq![])
}

pub fn on_prefix_cache_change(
    app: &mut App,
    description: String,
    stability_pct: u8,
    changed: bool,
    pinned_combined_hash: String,
) -> (step: EngineStep)
    ensures
        prefix_cache_change(
            *old(app),
            description,
            stability_pct,
            changed,
            pinned_combined_hash,
            *final(app),
            step,
        ),
{
    app.prefix.prefix_checks_total = app.prefix.prefix_checks_total.saturating_add(1);
    app.prefix.prefix_stability_pct = Some(stability_pct);
    app.prefix.last_pinned_prefix_hash = if pinned_combined_hash.as_str().unicode_len() > 0 {
        Some(pinned_combined_hash)
    } else {
        None
    };
    if changed {
        app.prefix.prefix_change_count = app.prefix.prefix_change_count.saturating_add(1);
        if description.as_str().unicode_len() > 0 {
            app.prefix.last_prefix_change_desc = Some(description);
        }
    }
    finish(Vec::new())
}

// The terminal is handed to a tool and taken back; doing either twice changes nothing.

pub open spec fn acknowledged(ack: bool) -> Seq<EngineEffect> {
    if ack {
        seq![EngineEffect::Acknowledge]
    } else {
        seq![]
    }
}

pub open spec fn pause_asked(
    pre: App,
    ack: bool,
    paused: bool,
    post: App,
    step: EngineStep,
) -> bool {
    &&& post == pre
    &&& if paused {
        stream::finishes(step, acknowledged(ack))
    } else {
        stream::awaits(
            step,
            seq![EngineEffect::PauseTerminal],
            EngineStage::PauseDone { ack },
        )
    }
}

pub open spec fn pause_done(pre: App, ack: bool, now: u128, post: App, step: EngineStep) -> bool {
    &&& post == App { screen: Screen { terminal_paused_at: Some(now), ..pre.screen }, ..pre }
    &&& stream::finishes(step, seq![EngineEffect::PauseBroker] + acknowledged(ack))
}

pub open spec fn resume_asked(pre: App, paused: bool, post: App, step: EngineStep) -> bool {
    &&& post == pre
    &&& if paused {
        stream::awaits(step, seq![EngineEffect::ResumeTerminal], EngineStage::ResumeDone)
    } else {
        stream::finishes(step, seq![])
    }
}

pub open spec fn resume_done(pre: App, post: App, step: EngineStep) -> bool {
    &&& post == App { screen: Screen { terminal_paused_at: None, ..pre.screen }, ..pre }
    &&& stream::finishes(step, seq![EngineEffect::ResumeBroker])
}

fn acknowledge(ack: bool) -> (effects: Vec<EngineEffect>)
    ensures
        effects@ == acknowledged(ack),
{
    if ack {
        one(EngineEffect::Acknowledge)
    } else {
        Vec::new()
    }
}

pub fn on_pause_asked(app: &mut App, ack: bool, paused: bool) -> (step: EngineStep)
    ensures
        pause_asked(*old(app), ack, paused, *final(app), step),
{
    if paused {
        finish(acknowledge(ack))
    } else {
        wait(one(EngineEffect::PauseTerminal), EngineStage::PauseDone { ack })
    }
}

pub fn on_pause_done(app: &mut App, ack: bool, now: u128) -> (step: EngineStep)
    ensures
        pause_done(*old(app), ack, now, *final(app), step),
{
    app.screen.terminal_paused_at = Some(now);
    let mut effects = one(EngineEffect::PauseBroker);
    if ack {
        effects.push(EngineEffect::Acknowledge);
    }
    finish(effects)
}

pub fn on_resume_asked(app: &mut App, paused: bool) -> (step: EngineStep)
    ensures
        resume_asked(*old(app), paused, *final(app), step),
{
    if paused {
        wait(one(EngineEffect::ResumeTerminal), EngineStage::ResumeDone)
    } else {
        finish(Vec::new())
    }
}

pub fn on_resume_done(app: &mut App) -> (step: EngineStep)
    ensures
        resume_done(*old(app), *final(app), step),
{
    app.screen.terminal_paused_at = None;
    finish(one(EngineEffect::ResumeBroker))
}

} // verus!
