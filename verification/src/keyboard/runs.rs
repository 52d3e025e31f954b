//! The run of a key: its steps with the host's answers, from the one that looks its binding up to
//! the last, and the way there.

use vstd::prelude::*;

use crate::keyboard::bindings;
use crate::keyboard::dispatch;
use crate::keyboard::front;
use crate::keyboard::types::{KeyEffect, KeyEventAction, KeyNext, KeyStage, KeyStep, Menus};
use crate::keys::{Key, KeyCode};
use crate::state::{App, Composer};
use crate::step::Reply;

verus! {

/// The steps of a key from the one that looks its binding up, with the menus that are open. Between
/// two of them the host may change the state as it likes; at each stage it hands back what the
/// stage waits for.
pub struct Run {
    pub key: Key,
    pub menus: Menus,
    pub before: Seq<App>,
    pub after: Seq<App>,
    pub replies: Seq<Reply>,
    pub steps: Seq<KeyStep>,
}

impl Run {
    /// Whether the first step looks the binding up.
    #[verifier::opaque]
    pub open spec fn starts(self) -> bool {
        bindings::key_bound(self.before[0], self.key, self.menus, self.after[0], self.steps[0])
    }

    /// Whether step `i` goes on where the step before it waits, with what is waited for there.
    #[verifier::opaque]
    pub open spec fn goes_on(self, i: int) -> bool {
        self.steps[i - 1].next matches KeyNext::Await(stage) && stage.accepts(self.replies[i])
            && dispatch::key_resumed(
            self.before[i],
            stage,
            self.replies[i],
            self.after[i],
            self.steps[i],
        )
    }

    /// Whether the steps are those of the key.
    pub open spec fn well_formed(self) -> bool {
        &&& self.steps.len() > 0
        &&& self.starts()
        &&& forall|i: int| 0 < i < self.steps.len() ==> #[trigger] self.goes_on(i)
    }

    /// Whether the steps are all those of the key, and it did not fail.
    pub open spec fn complete(self) -> bool {
        self.well_formed() && self.steps.last().next is Finish
    }

    /// What step `i` asks for.
    pub open spec fn effects(self, i: int) -> Seq<KeyEffect> {
        self.steps[i].effects@
    }

    /// The stage that step `i` waits in.
    pub open spec fn stage(self, i: int) -> KeyStage {
        self.steps[i].next->Await_0
    }

    /// Whether step `i` is the last, ends with `action` and asks for `effects`.
    pub open spec fn ends(self, i: int, effects: Seq<KeyEffect>, action: KeyEventAction) -> bool {
        &&& i == self.steps.len() - 1
        &&& self.effects(i) == effects
        &&& self.steps[i].next == KeyNext::Finish(action)
    }

    /// Whether the key ends as handled with step `i`, which asks for nothing more.
    pub open spec fn is_done(self, i: int) -> bool {
        self.ends(i, seq![], KeyEventAction::Handled)
    }
}

/// What the first step does.
pub proof fn first_step(run: Run)
    requires
        run.well_formed(),
    ensures
        bindings::key_bound(run.before[0], run.key, run.menus, run.after[0], run.steps[0]),
{
    reveal(Run::starts);
}

/// What a later step does.
pub proof fn later_step(run: Run, i: int)
    requires
        run.well_formed(),
        0 < i < run.steps.len(),
    ensures
        run.steps[i - 1].next is Await,
        run.stage(i - 1).accepts(run.replies[i]),
        dispatch::key_resumed(
            run.before[i],
            run.stage(i - 1),
            run.replies[i],
            run.after[i],
            run.steps[i],
        ),
{
    assert(run.goes_on(i));
    reveal(Run::goes_on);
}

/// A step behind which there is another one waits.
pub proof fn steps_wait(run: Run, i: int)
    requires
        run.well_formed(),
        0 <= i < run.steps.len() - 1,
    ensures
        run.steps[i].next is Await,
{
    later_step(run, i + 1);
}

/// Whether the key is one that pasted text may be made of.
pub open spec fn may_be_pasted(key: Key) -> bool {
    ||| key.code == KeyCode::Enter
    ||| key.code is Char && key.plain_char()
}

/// The way of a key to its binding. Pasted text that is due is put into the composer first. A key
/// that may be part of pasted text is looked at as such, and ends there if it is one; any other
/// puts text that was held back into the composer, where there is any. Then both menus are counted,
/// their selections kept within their entries, and the binding looked up.
pub proof fn keys_reach_their_binding(
    pre: App,
    stage: KeyStage,
    reply: Reply,
    post: App,
    step: KeyStep,
)
    requires
        dispatch::key_resumed(pre, stage, reply, post, step),
        stage.accepts(reply),
    ensures
        stage matches KeyStage::BurstFlushed { key, now } ==> {
            &&& post == pre
            &&& key.traits.option_v ==> step.effects@ == seq![KeyEffect::OpenToolDetails]
                && step.next == KeyNext::Finish(KeyEventAction::Handled)
            &&& !key.traits.option_v && may_be_pasted(key) ==> step.effects@ == seq![
                KeyEffect::BurstKey { key, now },
            ] && step.next == KeyNext::Await(KeyStage::BurstKeyed { key })
            &&& !key.traits.option_v && !may_be_pasted(key) ==> step.effects@ == seq![
                KeyEffect::FlushBeforeModified,
            ] && step.next == KeyNext::Await(KeyStage::PendingFlushed { key })
        },
        stage matches KeyStage::BurstKeyed { key } ==> {
            &&& post == pre
            &&& reply == Reply::Flag(true) ==> step.effects@.len() == 0 && step.next
                == KeyNext::Finish(KeyEventAction::Handled)
            &&& reply == Reply::Flag(false) ==> step.effects@ == seq![KeyEffect::CountSlashMenu]
                && step.next == KeyNext::Await(KeyStage::SlashCounted { key })
        },
        stage matches KeyStage::PendingFlushed { key } ==> {
            &&& post == pre
            &&& step.next == KeyNext::Await(KeyStage::SlashCounted { key })
            &&& reply matches Reply::Maybe(pending) && step.effects@ == match pending {
                Some(text) => seq![KeyEffect::InsertText(text), KeyEffect::CountSlashMenu],
                None => seq![KeyEffect::CountSlashMenu],
            }
        },
        stage matches KeyStage::SlashCounted { key } ==> {
            &&& step.effects@ == seq![KeyEffect::CountMentionMenu]
            &&& reply matches Reply::Count(entries) && step.next == KeyNext::Await(
                KeyStage::MentionCounted { key, slash: entries },
            ) && (entries > 0 ==> post.composer.slash_menu_selected < entries) && (
            entries == 0 || pre.composer.slash_menu_selected < entries ==> post == pre)
            &&& post == (App {
                composer: Composer {
                    slash_menu_selected: post.composer.slash_menu_selected,
                    ..pre.composer
                },
                ..pre
            })
            &&& post.composer.slash_menu_selected <= pre.composer.slash_menu_selected
        },
        stage matches KeyStage::MentionCounted { key, slash } ==> {
            reply matches Reply::Count(mention) && exists|app: App| #[trigger]
                selects_within(pre, mention, app) && bindings::key_bound(
                app,
                key,
                Menus { slash, mention },
                post,
                step,
            )
        },
{
    if let (KeyStage::MentionCounted { key, slash }, Reply::Count(mention)) = (stage, reply) {
        let app = App {
            composer: Composer {
                mention_menu_selected: front::clamped(
                    pre.composer.mention_menu_selected,
                    mention,
                ),
                ..pre.composer
            },
            ..pre
        };
        assert(selects_within(pre, mention, app));
    }
}

/// Whether `app` is the state with the selection of a mention menu kept within its entries: the
/// last of them where it would lie beyond.
pub open spec fn selects_within(pre: App, entries: usize, app: App) -> bool {
    &&& app == (App {
        composer: Composer {
            mention_menu_selected: app.composer.mention_menu_selected,
            ..pre.composer
        },
        ..pre
    })
    &&& entries == 0 || pre.composer.mention_menu_selected < entries ==> app == pre
    &&& entries > 0 && pre.composer.mention_menu_selected >= entries
        ==> app.composer.mention_menu_selected == entries - 1
}

} // verus!
