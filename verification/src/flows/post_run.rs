//! What comes after a network has been run: it is recorded as enabled and
//! announced, unless the user has stopped the mobile connection meanwhile.

use crate::connection_intent::wants_connection;
use crate::effect::{
    fail, finish, finish_as, out_of_turn, refuse, succeed, Effect, EffectView, GuiEvent, Reply,
};
use crate::error::GuiError;
use crate::world::{World, WorldView};
use vstd::prelude::*;

verus! {

/// What is done after the network `id` has been run.
#[derive(Debug)]
pub enum PostRun {
    Start { id: u128 },
    /// The instance is being deleted, as the connection has been stopped.
    Dropping,
    /// The events of the instance are being subscribed to.
    Watching { id: u128 },
    /// The network is being announced.
    Announcing,
    Over,
}

/// Whether the network `id` runs although the user has stopped the mobile
/// connection: on Android, if it is stored as one with a TUN device.
pub open spec fn runs_while_stopped(world: WorldView, id: u128) -> bool {
    &&& world.platform is Android
    &&& !wants_connection(world.intent)
    &&& world.storage.configs.dom().contains(id)
    &&& !world.storage.configs[id].config.no_tun
}

impl PostRun {
    /// Records and announces the network `id`.
    pub open spec fn announce(world: WorldView, id: u128) -> (PostRun, WorldView, EffectView) {
        (
            PostRun::Announcing,
            WorldView { storage: world.storage.switched(id, false), ..world },
            EffectView::Perform(Effect::Emit(GuiEvent::PostRunNetworkInstance(id))),
        )
    }

    /// The next step.
    pub open spec fn next(self, world: WorldView, reply: Reply) -> (
        PostRun,
        WorldView,
        EffectView,
    ) {
        match (self, reply) {
            (PostRun::Start { id }, Reply::Done) => if runs_while_stopped(world, id) {
                (PostRun::Dropping, world, EffectView::Perform(Effect::DropInstance(id)))
            } else if world.platform is Android {
                (PostRun::Watching { id }, world, EffectView::Perform(Effect::WatchInstance(id)))
            } else {
                PostRun::announce(world, id)
            },
            (PostRun::Dropping, Reply::Outcome(Ok(()))) => (
                PostRun::Over,
                world,
                refuse(GuiError::MobileConnectionStopped),
            ),
            (PostRun::Dropping, Reply::Outcome(Err(words))) => (
                PostRun::Over,
                world,
                EffectView::Finish(Err(words@)),
            ),
            (PostRun::Watching { id }, Reply::Done) => PostRun::announce(world, id),
            (PostRun::Announcing, Reply::Outcome(outcome)) => (
                PostRun::Over,
                world,
                finish_as(outcome),
            ),
            _ => (PostRun::Over, world, out_of_turn()),
        }
    }

    /// What is to be done after the network `id` has been run.
    pub fn new(id: u128) -> (r: PostRun)
        ensures
            r == (PostRun::Start { id }),
    {
        PostRun::Start { id }
    }

    /// Takes the next step.
    pub fn step(self, world: &mut World, reply: Reply) -> (r: (PostRun, Effect))
        ensures
            (r.0, final(world)@, r.1@) == self.next(old(world)@, reply),
    {
        match (self, reply) {
            (PostRun::Start { id }, Reply::Done) => {
                if world.platform.is_android() && !world.intent.enabled() {
                    if let Some(config) = world.manager.storage.config(id) {
                        if !config.no_tun() {
                            return (PostRun::Dropping, Effect::DropInstance(id));
                        }
                    }
                }
                if world.platform.is_android() {
                    return (PostRun::Watching { id }, Effect::WatchInstance(id));
                }
                world.manager.storage.switch_network(id, false);
                (PostRun::Announcing, Effect::Emit(GuiEvent::PostRunNetworkInstance(id)))
            },
            (PostRun::Dropping, Reply::Outcome(Ok(()))) => (
                PostRun::Over,
                Effect::Finish(Err(GuiError::MobileConnectionStopped)),
            ),
            (PostRun::Dropping, Reply::Outcome(Err(words))) => (PostRun::Over, fail(words)),
            (PostRun::Watching { id }, Reply::Done) => {
                world.manager.storage.switch_network(id, false);
                (PostRun::Announcing, Effect::Emit(GuiEvent::PostRunNetworkInstance(id)))
            },
            (PostRun::Announcing, Reply::Outcome(outcome)) => (PostRun::Over, finish(outcome)),
            _ => (PostRun::Over, Effect::Finish(Err(GuiError::UnexpectedReply))),
        }
    }
}

/// A network that was run although the user has stopped the mobile connection is
/// deleted again, whatever the core says to that: it is not recorded as enabled,
/// and the request fails.
pub proof fn stopped_networks_are_dropped(
    world: WorldView,
    id: u128,
    later: WorldView,
    reply: Reply,
)
    requires
        runs_while_stopped(world, id),
    ensures
        (PostRun::Start { id }).next(world, Reply::Done) == (
            PostRun::Dropping,
            world,
            EffectView::Perform(Effect::DropInstance(id)),
        ),
        PostRun::Dropping.next(later, reply).0 is Over,
        PostRun::Dropping.next(later, reply).1 == later,
        PostRun::Dropping.next(later, reply).2 matches EffectView::Finish(Err(_)),
{
}

/// A network is enabled before it is announced as run, and no other network and
/// no configuration changes with it.
pub proof fn announced_networks_are_enabled(
    flow: PostRun,
    world: WorldView,
    reply: Reply,
    id: u128,
)
    requires
        flow.next(world, reply).2 == EffectView::Perform(
            Effect::Emit(GuiEvent::PostRunNetworkInstance(id)),
        ),
    ensures
        flow.next(world, reply).1.storage.enabled == world.storage.enabled.insert(id),
        flow.next(world, reply).1.storage.configs == world.storage.configs,
{
}

/// What comes after a run is decided like this: on Android, a stored network with a
/// TUN device is deleted again exactly where the user has stopped the mobile
/// connection; any other network is watched on Android, then enabled and
/// announced, and elsewhere enabled and announced at once. Nothing else that is
/// stored changes. What fails ends the request with its words.
pub proof fn a_run_is_completed_like_this(
    id: u128,
    words: String,
    w0: WorldView,
    w1: WorldView,
    w2: WorldView,
)
    ensures
        ({
            let s0 = (PostRun::Start { id }).next(w0, Reply::Done);
            let done = Reply::Outcome(Ok(()));
            let failed = Reply::Outcome(Err(words));
            let announced = EffectView::Perform(Effect::Emit(GuiEvent::PostRunNetworkInstance(id)));
            let unwanted = w0.platform is Android && !wants_connection(w0.intent)
                && w0.storage.configs.dom().contains(id) && !w0.storage.configs[id].config.no_tun;
            &&& unwanted ==> {
                &&& s0.1 == w0 && s0.2 == EffectView::Perform(Effect::DropInstance(id))
                &&& s0.0.next(w1, done).2 == refuse(GuiError::MobileConnectionStopped)
                &&& s0.0.next(w1, failed).2 == EffectView::Finish(Err(words@))
                &&& s0.0.next(w1, done).1 == w1 && s0.0.next(w1, failed).1 == w1
            }
            &&& !unwanted && w0.platform is Android ==> {
                let s1 = s0.0.next(w1, Reply::Done);
                &&& s0.1 == w0 && s0.2 == EffectView::Perform(Effect::WatchInstance(id))
                &&& s1.2 == announced
                &&& s1.1.storage.enabled == w1.storage.enabled.insert(id)
                &&& s1.1 == (WorldView { storage: s1.1.storage, ..w1 })
                &&& s1.1.storage.configs == w1.storage.configs
                &&& s1.0.next(w2, done).2 == succeed() && s1.0.next(w2, done).1 == w2
                &&& s1.0.next(w2, failed).2 == EffectView::Finish(Err(words@))
            }
            &&& !(w0.platform is Android) ==> {
                &&& s0.2 == announced
                &&& s0.1.storage.enabled == w0.storage.enabled.insert(id)
                &&& s0.1 == (WorldView { storage: s0.1.storage, ..w0 })
                &&& s0.1.storage.configs == w0.storage.configs
                &&& s0.0.next(w1, done).2 == succeed() && s0.0.next(w1, done).1 == w1
                &&& s0.0.next(w1, failed).2 == EffectView::Finish(Err(words@))
            }
        }),
{
}

} // verus!
