//! The user's decision to start or stop the mobile connection.

use crate::connection_intent::{
    decided, every_decision_is_a_new_one, permits, wants_connection,
};
use crate::effect::{
    check_manager, fail, finish, finish_as, manager_refusal, notify_vpn_stop_if_no_tun,
    out_of_turn, refuse, stop_vpn_or_succeed, succeed, Effect, EffectView, GuiEvent, Reply,
};
use crate::error::GuiError;
use crate::storage::a_tun_network_is_any_that_is_one;
use crate::world::{next_epoch, GuiHooks, World, WorldView};
use vstd::prelude::*;

verus! {

/// The request to start or stop the mobile connection.
#[derive(Debug)]
pub enum SetMobileConnection {
    Start { enabled: bool },
    Locking { enabled: bool },
    /// The connection to the configuration server is being closed.
    Closing,
    Opening,
    /// The networks with a TUN device are being stopped.
    Disabling,
    /// The VPN service is being told to stop.
    Notifying,
    Over,
}

impl SetMobileConnection {
    /// The next step. The decision is taken before any waiting, so that a start
    /// under way sees a stop at once. A stop closes the connection to the
    /// configuration server and, on Android, stops all networks with a TUN device.
    pub open spec fn next(self, world: WorldView, reply: Reply) -> (
        SetMobileConnection,
        WorldView,
        EffectView,
    ) {
        match (self, reply) {
            (SetMobileConnection::Start { enabled }, Reply::Done) => (
                SetMobileConnection::Locking { enabled },
                WorldView { intent: decided(world.intent, enabled), ..world },
                EffectView::Perform(Effect::LockControl),
            ),
            (SetMobileConnection::Locking { enabled }, Reply::Done) => if enabled {
                (SetMobileConnection::Over, world, succeed())
            } else {
                (
                    SetMobileConnection::Closing,
                    WorldView { epoch: next_epoch(world.epoch), ..world },
                    EffectView::Perform(Effect::CloseWebClient),
                )
            },
            (SetMobileConnection::Closing, Reply::Done) => if world.platform is Android {
                (SetMobileConnection::Opening, world, EffectView::Perform(Effect::OpenManager))
            } else {
                (SetMobileConnection::Over, world, succeed())
            },
            (
                SetMobileConnection::Opening,
                Reply::Answer(locked),
            ) => match manager_refusal(world, locked) {
                Some(error) => (SetMobileConnection::Over, world, refuse(error)),
                None => (
                    SetMobileConnection::Disabling,
                    world,
                    EffectView::Perform(Effect::DisableTun { web_only: false }),
                ),
            },
            (SetMobileConnection::Disabling, Reply::Outcome(Ok(()))) => (
                if world.storage.has_tun(false) {
                    SetMobileConnection::Over
                } else {
                    SetMobileConnection::Notifying
                },
                world,
                stop_vpn_or_succeed(world),
            ),
            (SetMobileConnection::Disabling, Reply::Outcome(Err(words))) => (
                SetMobileConnection::Over,
                world,
                EffectView::Finish(Err(words@)),
            ),
            (SetMobileConnection::Notifying, Reply::Outcome(outcome)) => (
                SetMobileConnection::Over,
                world,
                finish_as(outcome),
            ),
            _ => (SetMobileConnection::Over, world, out_of_turn()),
        }
    }

    pub fn new(enabled: bool) -> (r: SetMobileConnection)
        ensures
            r == (SetMobileConnection::Start { enabled }),
    {
        SetMobileConnection::Start { enabled }
    }

    /// Takes the next step.
    pub fn step(self, world: &mut World, reply: Reply) -> (r: (SetMobileConnection, Effect))
        ensures
            (r.0, final(world)@, r.1@) == self.next(old(world)@, reply),
    {
        match (self, reply) {
            (SetMobileConnection::Start { enabled }, Reply::Done) => {
                world.intent.set_enabled(enabled);
                (SetMobileConnection::Locking { enabled }, Effect::LockControl)
            },
            (SetMobileConnection::Locking { enabled }, Reply::Done) => {
                if enabled {
                    return (SetMobileConnection::Over, Effect::Finish(Ok(())));
                }
                world.epoch.advance();
                (SetMobileConnection::Closing, Effect::CloseWebClient)
            },
            (SetMobileConnection::Closing, Reply::Done) => if world.platform.is_android() {
                (SetMobileConnection::Opening, Effect::OpenManager)
            } else {
                (SetMobileConnection::Over, Effect::Finish(Ok(())))
            },
            (SetMobileConnection::Opening, Reply::Answer(locked)) => match check_manager(
                world,
                locked,
            ) {
                Some(error) => (SetMobileConnection::Over, Effect::Finish(Err(error))),
                None => (SetMobileConnection::Disabling, Effect::DisableTun { web_only: false }),
            },
            (SetMobileConnection::Disabling, Reply::Outcome(Ok(()))) => {
                let effect = notify_vpn_stop_if_no_tun(world);
                if let Effect::Finish(_) = effect {
                    (SetMobileConnection::Over, effect)
                } else {
                    (SetMobileConnection::Notifying, effect)
                }
            },
            (SetMobileConnection::Disabling, Reply::Outcome(Err(words))) => (
                SetMobileConnection::Over,
                fail(words),
            ),
            (SetMobileConnection::Notifying, Reply::Outcome(outcome)) => (
                SetMobileConnection::Over,
                finish(outcome),
            ),
            _ => (SetMobileConnection::Over, Effect::Finish(Err(GuiError::UnexpectedReply))),
        }
    }
}

/// A stop takes hold before anything is waited for: from the first step on, no
/// work that was started under any decision may go on, and on Android the
/// callbacks of no connection to the configuration server are current.
pub proof fn a_stop_takes_hold_at_once(world: WorldView, token: u64, hooks: GuiHooks)
    ensures
        ({
            let stopped = (SetMobileConnection::Start { enabled: false }).next(
                world,
                Reply::Done,
            ).1;
            &&& !wants_connection(stopped.intent)
            &&& !permits(stopped.intent, token)
            &&& world.platform is Android ==> !hooks.current_in(stopped)
        }),
{
}

/// Once a stop has got the control lock, the callbacks of the connection to the
/// configuration server that was current are not current any more, on any platform.
pub proof fn a_stop_outdates_the_connection(world: WorldView, hooks: GuiHooks)
    requires
        hooks.current_in(world),
    ensures
        ({
            let (_, closed, effect) = (SetMobileConnection::Locking { enabled: false }).next(
                world,
                Reply::Done,
            );
            &&& effect == EffectView::Perform(Effect::CloseWebClient)
            &&& !hooks.current_in(closed)
        }),
{
}

/// A run of a request to stop, step by step: the flow before step `i`, the state
/// that the step finds, the reply that it gets and the effect that it asks for.
/// Between two steps other requests may change the state in any way.
pub struct StopTrace {
    pub flows: Seq<SetMobileConnection>,
    pub worlds: Seq<WorldView>,
    pub replies: Seq<Reply>,
    pub effects: Seq<EffectView>,
}

impl StopTrace {
    /// Whether step `i` is one that the request can take.
    pub open spec fn steps(self, i: int) -> bool {
        let (after, _, effect) = self.flows[i].next(self.worlds[i], self.replies[i]);
        self.flows[i + 1] == after && self.effects[i] == effect
    }

    /// Whether these are the first steps of a request to stop.
    pub open spec fn stops(self) -> bool {
        &&& self.worlds.len() == self.effects.len()
        &&& self.replies.len() == self.effects.len()
        &&& self.flows.len() == self.effects.len() + 1
        &&& self.flows[0] == (SetMobileConnection::Start { enabled: false })
        &&& forall|i: int| 0 <= i < self.effects.len() ==> #[trigger] self.steps(i)
    }

    /// Whether step `j` asks for the connection to the configuration server to be closed.
    pub open spec fn closes(self, j: int) -> bool {
        self.effects[j] == EffectView::Perform(Effect::CloseWebClient)
    }

    /// Whether a step before step `i` asks for the connection to the configuration
    /// server to be closed.
    pub open spec fn has_closed(self, i: int) -> bool {
        exists|j: int| 0 <= j < i && #[trigger] self.closes(j)
    }

    /// Whether step `j` asks for all networks with a TUN device to be stopped.
    pub open spec fn disables(self, j: int) -> bool {
        self.effects[j] == EffectView::Perform(Effect::DisableTun { web_only: false })
    }

    /// Whether a step up to step `i` learns that all networks with a TUN device
    /// have been stopped.
    pub open spec fn has_disabled(self, i: int) -> bool {
        exists|j: int|
            0 <= j < i && #[trigger] self.disables(j) && (self.replies[j + 1]
                matches Reply::Outcome(Ok(())))
    }

    /// What is known before step `i`.
    spec fn on_the_way(self, i: int) -> bool {
        match self.flows[i] {
            SetMobileConnection::Start { enabled } => !enabled,
            SetMobileConnection::Locking { enabled } => !enabled,
            SetMobileConnection::Closing | SetMobileConnection::Opening => self.has_closed(i),
            SetMobileConnection::Disabling => i > 0 && self.disables(i - 1) && self.has_closed(i),
            SetMobileConnection::Notifying => self.has_disabled(i) && self.has_closed(i),
            SetMobileConnection::Over => true,
        }
    }
}

/// The request stays on the way.
proof fn lemma_on_the_way(t: StopTrace, i: int)
    requires
        t.stops(),
        0 <= i <= t.effects.len(),
    ensures
        t.on_the_way(i),
    decreases i,
{
    if i > 0 {
        lemma_on_the_way(t, i - 1);
        assert(t.steps(i - 1));
        if t.has_closed(i - 1) {
            let j = choose|j: int| 0 <= j < i - 1 && #[trigger] t.closes(j);
            assert(t.closes(j));
            assert(t.has_closed(i));
        }
        if t.has_disabled(i - 1) {
            let j = choose|j: int|
                0 <= j < i - 1 && #[trigger] t.disables(j) && (t.replies[j + 1]
                    matches Reply::Outcome(Ok(())));
            assert(t.disables(j));
            assert(t.has_disabled(i));
        }
        match t.flows[i] {
            SetMobileConnection::Closing => {
                assert(t.closes(i - 1));
            },
            SetMobileConnection::Notifying => {
                assert(t.disables(i - 2));
                assert(t.has_disabled(i));
            },
            _ => {},
        }
    }
}

/// A stop succeeds only after the connection to the configuration server was
/// asked to be closed and, on Android, only after all networks with a TUN device
/// have been stopped.
pub proof fn a_stop_reaches_every_network(t: StopTrace, k: int)
    requires
        t.stops(),
        0 <= k < t.effects.len(),
        t.effects[k] == succeed(),
        forall|i: int| 0 <= i < t.worlds.len() ==> #[trigger] t.worlds[i].platform
            == t.worlds[0].platform,
    ensures
        t.has_closed(k),
        t.worlds[0].platform is Android ==> t.has_disabled(k),
{
    lemma_on_the_way(t, k);
    assert(t.steps(k));
    assert(t.worlds[k].platform == t.worlds[0].platform);
    if t.flows[k] is Disabling {
        assert(t.disables(k - 1));
        assert(t.has_disabled(k));
    }
}

/// What the request does with each answer. The decision is taken with the first
/// step, whatever the platform. A start does nothing else. A stop closes the
/// connection to the configuration server, and moves the count of connections on;
/// only on Android it then stops the networks with a TUN device, and tells the VPN
/// service to stop exactly where none is left. What fails ends it with its words.
pub proof fn a_decision_goes_through(enabled: bool, words: String, w: Seq<WorldView>)
    requires
        w.len() == 6,
    ensures
        ({
            let s0 = (SetMobileConnection::Start { enabled }).next(w[0], Reply::Done);
            let s1 = s0.0.next(w[1], Reply::Done);
            let s2 = s1.0.next(w[2], Reply::Done);
            let s3 = s2.0.next(w[3], Reply::Answer(true));
            let s4 = s3.0.next(w[4], Reply::Outcome(Ok(())));
            let s5 = s4.0.next(w[5], Reply::Outcome(Ok(())));
            let failed = Reply::Outcome(Err(words));
            &&& s0.2 == EffectView::Perform(Effect::LockControl)
            &&& wants_connection(s0.1.intent) == enabled && s0.1.intent != w[0].intent
            &&& s0.1 == (WorldView { intent: s0.1.intent, ..w[0] })
            &&& enabled ==> s1.2 == succeed() && s1.1 == w[1]
            &&& !enabled ==> {
                &&& s1.2 == EffectView::Perform(Effect::CloseWebClient)
                &&& s1.1.epoch != w[1].epoch && s1.1 == (WorldView { epoch: s1.1.epoch, ..w[1] })
                &&& s2.1 == w[2]
                &&& !(w[2].platform is Android) ==> s2.2 == succeed()
                &&& w[2].platform is Android ==> {
                    &&& s2.2 == EffectView::Perform(Effect::OpenManager)
                    &&& s2.0.next(w[3], Reply::Answer(false)).2 == refuse(GuiError::ManagerBusy)
                    &&& !w[3].connected ==> s3.2 == refuse(GuiError::ManagerMissing)
                    &&& w[3].connected ==> {
                        &&& s3.2 == EffectView::Perform(Effect::DisableTun { web_only: false })
                        &&& s3.0.next(w[4], failed).2 == EffectView::Finish(Err(words@))
                        &&& (exists|id: u128| w[4].storage.is_tun(false, id)) ==> s4.2 == succeed()
                        &&& !(exists|id: u128| w[4].storage.is_tun(false, id)) ==> {
                            &&& s4.2 == EffectView::Perform(Effect::Emit(GuiEvent::VpnServiceStop))
                            &&& s5.2 == succeed()
                            &&& s4.0.next(w[5], failed).2 == EffectView::Finish(Err(words@))
                        }
                        &&& s3.1 == w[3] && s4.1 == w[4] && s5.1 == w[5]
                    }
                }
            }
        }),
{
    every_decision_is_a_new_one(w[0].intent, enabled);
    a_tun_network_is_any_that_is_one(w[4].storage, false);
}

} // verus!
