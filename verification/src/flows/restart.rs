//! Recovering the mobile connection after the physical network has changed.

use crate::connection_intent::{
    decided_all, later_decisions_do_not_revive_old_work, permits, turn, wants_connection,
};
use crate::effect::{
    check_manager, fail, finish, finish_as, manager_refusal, out_of_turn, refuse, succeed, Effect,
    EffectView, InstanceCall, Reply,
};
use crate::error::GuiError;
use crate::storage::a_tun_network_is_any_that_is_one;
use crate::world::{World, WorldView};
use vstd::prelude::*;

verus! {

/// The request to rebuild the running network with a TUN device. It remembers,
/// as `token`, the decision under which it was made.
#[derive(Debug)]
pub enum RestartMobileNetwork {
    Start,
    Locking { token: u64 },
    Opening { token: u64 },
    Finding { token: u64, id: u128 },
    /// Changes of the instances are being waited for.
    Queueing { token: u64, id: u128 },
    Inspecting { token: u64, id: u128 },
    Stopping { token: u64, id: u128 },
    Starting { id: u128 },
    Completing,
    Over,
}

impl RestartMobileNetwork {
    /// The step in which the network is chosen: any enabled one with a TUN device.
    pub open spec fn chooses_in(
        self,
        world: WorldView,
        after: RestartMobileNetwork,
        effect: EffectView,
    ) -> bool
        recommends
            self is Opening,
    {
        if world.storage.has_tun(false) {
            exists|id: u128| #[trigger]
                world.storage.is_tun(false, id) && (after, effect) == (
                    RestartMobileNetwork::Finding { token: self->Opening_token, id },
                    EffectView::Perform(Effect::FindInstances),
                )
        } else {
            (after, effect) == (RestartMobileNetwork::Over, succeed())
        }
    }

    /// Every other step. After each wait the request is given up, as a success,
    /// unless the decision under which it was made still stands.
    pub open spec fn next(self, world: WorldView, reply: Reply) -> (
        RestartMobileNetwork,
        EffectView,
    ) {
        match (self, reply) {
            (RestartMobileNetwork::Start, Reply::Done) => (
                RestartMobileNetwork::Locking { token: world.intent },
                EffectView::Perform(Effect::LockControl),
            ),
            (RestartMobileNetwork::Locking { token }, Reply::Done) => if permits(
                world.intent,
                token,
            ) {
                (
                    RestartMobileNetwork::Opening { token },
                    EffectView::Perform(Effect::OpenManager),
                )
            } else {
                (RestartMobileNetwork::Over, succeed())
            },
            (RestartMobileNetwork::Opening { .. }, Reply::Answer(locked)) => match manager_refusal(
                world,
                locked,
            ) {
                Some(error) => (RestartMobileNetwork::Over, refuse(error)),
                None => (RestartMobileNetwork::Over, out_of_turn()),
            },
            (RestartMobileNetwork::Finding { token, id }, Reply::Answer(found)) => if found {
                (
                    RestartMobileNetwork::Queueing { token, id },
                    EffectView::Perform(Effect::LockMutation),
                )
            } else {
                (RestartMobileNetwork::Over, refuse(GuiError::LocalInstancesUnavailable))
            },
            (RestartMobileNetwork::Queueing { token, id }, Reply::Done) => if permits(
                world.intent,
                token,
            ) {
                (
                    RestartMobileNetwork::Inspecting { token, id },
                    EffectView::Perform(Effect::SnapshotInstance(id)),
                )
            } else {
                (RestartMobileNetwork::Over, succeed())
            },
            (
                RestartMobileNetwork::Inspecting { token, id },
                Reply::Snapshot { config, control },
            ) => if !config {
                (RestartMobileNetwork::Over, refuse(GuiError::RecoveryInstanceUnavailable))
            } else if !control {
                (RestartMobileNetwork::Over, refuse(GuiError::RecoveryControlUnavailable))
            } else {
                (
                    RestartMobileNetwork::Stopping { token, id },
                    EffectView::Instances(InstanceCall::Delete, seq![id]),
                )
            },
            (RestartMobileNetwork::Stopping { token, id }, Reply::Outcome(Ok(()))) => if permits(
                world.intent,
                token,
            ) {
                (
                    RestartMobileNetwork::Starting { id },
                    EffectView::Perform(Effect::RerunInstance(id)),
                )
            } else {
                (RestartMobileNetwork::Over, succeed())
            },
            (RestartMobileNetwork::Starting { id }, Reply::Outcome(Ok(()))) => (
                RestartMobileNetwork::Completing,
                EffectView::Perform(Effect::PostRun(id)),
            ),
            (RestartMobileNetwork::Completing, Reply::Outcome(outcome)) => (
                RestartMobileNetwork::Over,
                finish_as(outcome),
            ),
            (
                RestartMobileNetwork::Stopping { .. } | RestartMobileNetwork::Starting { .. },
                Reply::Outcome(Err(words)),
            ) => (RestartMobileNetwork::Over, EffectView::Finish(Err(words@))),
            _ => (RestartMobileNetwork::Over, out_of_turn()),
        }
    }

    /// Whether the next step is the one in which the network is chosen.
    pub open spec fn is_choosing(self, world: WorldView, reply: Reply) -> bool {
        self is Opening && (reply matches Reply::Answer(locked) && manager_refusal(world, locked)
            is None)
    }

    /// Whether a step leads from this flow to `after`, with `effect`.
    pub open spec fn leads_to(
        self,
        world: WorldView,
        reply: Reply,
        after: RestartMobileNetwork,
        effect: EffectView,
    ) -> bool {
        if self.is_choosing(world, reply) {
            self.chooses_in(world, after, effect)
        } else {
            (after, effect) == self.next(world, reply)
        }
    }

    pub fn new() -> (r: RestartMobileNetwork)
        ensures
            r is Start,
    {
        RestartMobileNetwork::Start
    }

    /// Takes the next step.
    pub fn step(self, world: &World, reply: Reply) -> (r: (RestartMobileNetwork, Effect))
        ensures
            self.leads_to(world@, reply, r.0, r.1@),
    {
        match (self, reply) {
            (RestartMobileNetwork::Start, Reply::Done) => (
                RestartMobileNetwork::Locking { token: world.intent.token() },
                Effect::LockControl,
            ),
            (RestartMobileNetwork::Locking { token }, Reply::Done) => if world.intent.allows(
                token,
            ) {
                (RestartMobileNetwork::Opening { token }, Effect::OpenManager)
            } else {
                (RestartMobileNetwork::Over, Effect::Finish(Ok(())))
            },
            (RestartMobileNetwork::Opening { token }, Reply::Answer(locked)) => {
                if let Some(error) = check_manager(world, locked) {
                    return (RestartMobileNetwork::Over, Effect::Finish(Err(error)));
                }
                match world.manager.first_tun_instance() {
                    Some(id) => {
                        assert(world@.storage.is_tun(false, id));
                        (RestartMobileNetwork::Finding { token, id }, Effect::FindInstances)
                    },
                    None => (RestartMobileNetwork::Over, Effect::Finish(Ok(()))),
                }
            },
            (RestartMobileNetwork::Finding { token, id }, Reply::Answer(found)) => if found {
                (RestartMobileNetwork::Queueing { token, id }, Effect::LockMutation)
            } else {
                (
                    RestartMobileNetwork::Over,
                    Effect::Finish(Err(GuiError::LocalInstancesUnavailable)),
                )
            },
            (RestartMobileNetwork::Queueing { token, id }, Reply::Done) => if world.intent.allows(
                token,
            ) {
                (RestartMobileNetwork::Inspecting { token, id }, Effect::SnapshotInstance(id))
            } else {
                (RestartMobileNetwork::Over, Effect::Finish(Ok(())))
            },
            (
                RestartMobileNetwork::Inspecting { token, id },
                Reply::Snapshot { config, control },
            ) => {
                if !config {
                    return (
                        RestartMobileNetwork::Over,
                        Effect::Finish(Err(GuiError::RecoveryInstanceUnavailable)),
                    );
                }
                if !control {
                    return (
                        RestartMobileNetwork::Over,
                        Effect::Finish(Err(GuiError::RecoveryControlUnavailable)),
                    );
                }
                let ids: Vec<u128> = vec![id];
                assert(ids@ =~= seq![id]);
                (
                    RestartMobileNetwork::Stopping { token, id },
                    Effect::Instances { call: InstanceCall::Delete, ids },
                )
            },
            (RestartMobileNetwork::Stopping { token, id }, Reply::Outcome(Ok(()))) => {
                if world.intent.allows(token) {
                    (RestartMobileNetwork::Starting { id }, Effect::RerunInstance(id))
                } else {
                    (RestartMobileNetwork::Over, Effect::Finish(Ok(())))
                }
            },
            (RestartMobileNetwork::Starting { id }, Reply::Outcome(Ok(()))) => (
                RestartMobileNetwork::Completing,
                Effect::PostRun(id),
            ),
            (RestartMobileNetwork::Completing, Reply::Outcome(outcome)) => (
                RestartMobileNetwork::Over,
                finish(outcome),
            ),
            (
                RestartMobileNetwork::Stopping { .. } | RestartMobileNetwork::Starting { .. },
                Reply::Outcome(Err(words)),
            ) => (RestartMobileNetwork::Over, fail(words)),
            _ => (RestartMobileNetwork::Over, Effect::Finish(Err(GuiError::UnexpectedReply))),
        }
    }
}

/// A run of a recovery, step by step: the flow before step `i`, the state that the
/// step finds, the reply that it gets and the effect that it asks for. Between two
/// steps other requests may change the state in any way.
pub struct RestartTrace {
    pub flows: Seq<RestartMobileNetwork>,
    pub worlds: Seq<WorldView>,
    pub replies: Seq<Reply>,
    pub effects: Seq<EffectView>,
}

impl RestartTrace {
    /// Whether step `i` is one that the recovery can take.
    pub open spec fn steps(self, i: int) -> bool {
        self.flows[i].leads_to(
            self.worlds[i],
            self.replies[i],
            self.flows[i + 1],
            self.effects[i],
        )
    }

    /// Whether these are the first steps of a recovery.
    pub open spec fn recovers(self) -> bool {
        &&& self.worlds.len() == self.effects.len()
        &&& self.replies.len() == self.effects.len()
        &&& self.flows.len() == self.effects.len() + 1
        &&& self.flows[0] is Start
        &&& forall|i: int| 0 <= i < self.effects.len() ==> #[trigger] self.steps(i)
    }

    /// What is known before step `i`: the recovery remembers the decision under
    /// which it began.
    spec fn on_the_way(self, i: int) -> bool {
        let began = self.worlds[0].intent;
        match self.flows[i] {
            RestartMobileNetwork::Start => i == 0,
            RestartMobileNetwork::Locking { token } | RestartMobileNetwork::Opening { token }
            | RestartMobileNetwork::Finding { token, .. }
            | RestartMobileNetwork::Queueing { token, .. }
            | RestartMobileNetwork::Inspecting { token, .. } => i > 0 && token == began,
            RestartMobileNetwork::Stopping { token, id } => i > 0 && token == began
                && self.effects[i - 1] == EffectView::Instances(InstanceCall::Delete, seq![id]),
            RestartMobileNetwork::Starting { .. }
            | RestartMobileNetwork::Completing
            | RestartMobileNetwork::Over => i > 0,
        }
    }
}

/// The recovery stays on the way.
proof fn lemma_on_the_way(t: RestartTrace, i: int)
    requires
        t.recovers(),
        0 <= i <= t.effects.len(),
        t.effects.len() > 0,
    ensures
        t.on_the_way(i),
    decreases i,
{
    if i > 0 {
        lemma_on_the_way(t, i - 1);
        assert(t.steps(i - 1));
    }
}

/// A recovery runs a network again only after the core has deleted it, and only
/// while the decision under which the recovery was asked for still stands,
/// whatever happened meanwhile.
pub proof fn recovery_keeps_to_its_decision(t: RestartTrace, k: int, id: u128)
    requires
        t.recovers(),
        0 <= k < t.effects.len(),
        t.effects[k] == EffectView::Perform(Effect::RerunInstance(id)),
    ensures
        permits(t.worlds[k].intent, t.worlds[0].intent),
        k > 0 && t.effects[k - 1] == EffectView::Instances(InstanceCall::Delete, seq![id]),
        t.replies[k] matches Reply::Outcome(Ok(())),
{
    lemma_on_the_way(t, k);
    assert(t.steps(k));
}

/// Once the user has taken a new decision, a stop and a restart included, a
/// recovery that was asked for before runs nothing. (The number of decisions is
/// below that after which the decision counter starts over.)
pub proof fn recovery_is_given_up_after_a_new_decision(
    t: RestartTrace,
    k: int,
    id: u128,
    decisions: Seq<bool>,
)
    requires
        t.recovers(),
        0 <= k < t.effects.len(),
        t.worlds[k].intent == decided_all(t.worlds[0].intent, decisions),
        0 < decisions.len() < turn(),
    ensures
        t.effects[k] != EffectView::Perform(Effect::RerunInstance(id)),
{
    later_decisions_do_not_revive_old_work(t.worlds[0].intent, decisions);
    if t.effects[k] == EffectView::Perform(Effect::RerunInstance(id)) {
        recovery_keeps_to_its_decision(t, k, id);
    }
}

/// How a recovery begins: it remembers the decision of the moment, and once it has
/// the control lock goes on exactly where that decision stands and is one to be
/// connected; where there is nothing to recover, or the decision has changed, it
/// succeeds with nothing done.
pub proof fn a_recovery_begins(
    w0: WorldView,
    w1: WorldView,
    w2: WorldView,
    locked: bool,
    after: RestartMobileNetwork,
    effect: EffectView,
)
    ensures
        ({
            let s0 = RestartMobileNetwork::Start.next(w0, Reply::Done);
            let s1 = s0.0.next(w1, Reply::Done);
            let stands = w1.intent == w0.intent && wants_connection(w0.intent);
            &&& s0.1 == EffectView::Perform(Effect::LockControl)
            &&& s1.1 == EffectView::Perform(Effect::OpenManager) <==> stands
            &&& s1.1 == succeed() <==> !stands
            &&& stands && s1.0.leads_to(w2, Reply::Answer(locked), after, effect) ==> {
                &&& !locked ==> effect == refuse(GuiError::ManagerBusy)
                &&& locked && !w2.connected ==> effect == refuse(GuiError::ManagerMissing)
                &&& locked && w2.connected && !(exists|id: u128| w2.storage.is_tun(false, id))
                    ==> effect == succeed()
                &&& locked && w2.connected && (exists|id: u128| w2.storage.is_tun(false, id))
                    ==> effect == EffectView::Perform(Effect::FindInstances) && (after
                    matches RestartMobileNetwork::Finding { token, id } && token == w0.intent
                    && w2.storage.is_tun(false, id))
            }
        }),
{
    a_tun_network_is_any_that_is_one(w2.storage, false);
}

/// How a recovery of the network `id` goes on, where it began under the decision
/// `token`. After each wait it goes on exactly where that decision stands and is
/// one to be connected, and otherwise succeeds with nothing more done. It takes the
/// network down, deletes it, runs it again and completes its run. What is missing
/// or fails on the way ends it.
pub proof fn a_recovery_goes_through(token: u64, id: u128, words: String, w: Seq<WorldView>)
    requires
        w.len() == 6,
    ensures
        ({
            let s0 = (RestartMobileNetwork::Finding { token, id }).next(w[0], Reply::Answer(true));
            let s1 = s0.0.next(w[1], Reply::Done);
            let s2 = s1.0.next(w[2], Reply::Snapshot { config: true, control: true });
            let s3 = s2.0.next(w[3], Reply::Outcome(Ok(())));
            let s4 = s3.0.next(w[4], Reply::Outcome(Ok(())));
            let failed = Reply::Outcome(Err(words));
            let over = EffectView::Finish(Err(words@));
            let stood = w[1].intent == token && wants_connection(token);
            let stands = w[3].intent == token && wants_connection(token);
            &&& (RestartMobileNetwork::Finding { token, id }).next(w[0], Reply::Answer(false)).1
                == refuse(GuiError::LocalInstancesUnavailable)
            &&& s0.1 == EffectView::Perform(Effect::LockMutation)
            &&& s1.1 == EffectView::Perform(Effect::SnapshotInstance(id)) <==> stood
            &&& s1.1 == succeed() <==> !stood
            &&& stood ==> {
                &&& forall|control: bool|
                    (#[trigger] s1.0.next(w[2], Reply::Snapshot { config: false, control })).1
                        == refuse(GuiError::RecoveryInstanceUnavailable)
                &&& s1.0.next(w[2], Reply::Snapshot { config: true, control: false }).1 == refuse(
                    GuiError::RecoveryControlUnavailable,
                )
                &&& s2.1 == EffectView::Instances(InstanceCall::Delete, seq![id])
                &&& s2.0.next(w[3], failed).1 == over
                &&& s3.1 == EffectView::Perform(Effect::RerunInstance(id)) <==> stands
                &&& s3.1 == succeed() <==> !stands
                &&& stands ==> {
                    &&& s3.0.next(w[4], failed).1 == over
                    &&& s4.1 == EffectView::Perform(Effect::PostRun(id))
                    &&& s4.0.next(w[5], Reply::Outcome(Ok(()))).1 == succeed()
                    &&& s4.0.next(w[5], failed).1 == over
                }
            }
        }),
{
}

} // verus!
