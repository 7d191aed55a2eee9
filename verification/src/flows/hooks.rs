//! What a connection to the configuration server calls back for.

use crate::config::{persisted, ConfigSource, PersistedConfigSource, TomlConfig};
use crate::effect::{
    check_manager, fail, finish, finish_as, manager_refusal, notify_vpn_stop_if_no_tun,
    out_of_turn, refuse, stop_vpn_or_succeed, succeed, Effect, EffectView, GuiEvent, Reply,
    RunOrigin,
};
use crate::error::GuiError;
use crate::storage::{a_tun_network_is_any_that_is_one, deleted_networks_are_gone};
use crate::world::{GuiHooks, World, WorldView};
use vstd::prelude::*;

verus! {

/// The configuration server is about to run the network `toml`.
#[derive(Debug)]
pub enum PreRunHook {
    Start { hooks: GuiHooks, toml: TomlConfig, source: ConfigSource },
    Opening { hooks: GuiHooks, toml: TomlConfig, source: ConfigSource },
    Preparing { hooks: GuiHooks },
    Over,
}

impl PreRunHook {
    /// The next step. A connection that is no longer current may not run anything;
    /// nor may one that stops being current while the network is prepared.
    pub open spec fn next(self, world: WorldView, reply: Reply) -> (PreRunHook, EffectView) {
        match (self, reply) {
            (PreRunHook::Start { hooks, toml, source }, Reply::Done) => if hooks.current_in(
                world,
            ) {
                (
                    PreRunHook::Opening { hooks, toml, source },
                    EffectView::Perform(Effect::OpenManager),
                )
            } else {
                (PreRunHook::Over, refuse(GuiError::HooksStale))
            },
            (
                PreRunHook::Opening { hooks, toml, source },
                Reply::Answer(locked),
            ) => match manager_refusal(world, locked) {
                Some(error) => (PreRunHook::Over, refuse(error)),
                None => (
                    PreRunHook::Preparing { hooks },
                    EffectView::Perform(
                        Effect::PreRun {
                            toml,
                            source: persisted(source),
                            origin: RunOrigin::ConfigServer,
                        },
                    ),
                ),
            },
            (PreRunHook::Preparing { hooks }, Reply::Outcome(Ok(()))) => if hooks.current_in(
                world,
            ) {
                (PreRunHook::Over, succeed())
            } else {
                (PreRunHook::Over, refuse(GuiError::HooksStale))
            },
            (PreRunHook::Preparing { .. }, Reply::Outcome(Err(words))) => (
                PreRunHook::Over,
                EffectView::Finish(Err(words@)),
            ),
            _ => (PreRunHook::Over, out_of_turn()),
        }
    }

    pub fn new(hooks: GuiHooks, toml: TomlConfig, source: ConfigSource) -> (r: PreRunHook)
        ensures
            r == (PreRunHook::Start { hooks, toml, source }),
    {
        PreRunHook::Start { hooks, toml, source }
    }

    /// Takes the next step.
    pub fn step(self, world: &World, reply: Reply) -> (r: (PreRunHook, Effect))
        ensures
            (r.0, r.1@) == self.next(world@, reply),
    {
        match (self, reply) {
            (PreRunHook::Start { hooks, toml, source }, Reply::Done) => {
                if hooks.is_current(world) {
                    (PreRunHook::Opening { hooks, toml, source }, Effect::OpenManager)
                } else {
                    (PreRunHook::Over, Effect::Finish(Err(GuiError::HooksStale)))
                }
            },
            (PreRunHook::Opening { hooks, toml, source }, Reply::Answer(locked)) => {
                match check_manager(world, locked) {
                    Some(error) => (PreRunHook::Over, Effect::Finish(Err(error))),
                    None => (
                        PreRunHook::Preparing { hooks },
                        Effect::PreRun {
                            toml,
                            source: PersistedConfigSource::from_runtime_source(source),
                            origin: RunOrigin::ConfigServer,
                        },
                    ),
                }
            },
            (PreRunHook::Preparing { hooks }, Reply::Outcome(Ok(()))) => {
                if hooks.is_current(world) {
                    (PreRunHook::Over, Effect::Finish(Ok(())))
                } else {
                    (PreRunHook::Over, Effect::Finish(Err(GuiError::HooksStale)))
                }
            },
            (PreRunHook::Preparing { .. }, Reply::Outcome(Err(words))) => (
                PreRunHook::Over,
                fail(words),
            ),
            _ => (PreRunHook::Over, Effect::Finish(Err(GuiError::UnexpectedReply))),
        }
    }
}

/// The configuration server has run the network `id`.
#[derive(Debug)]
pub enum PostRunHook {
    Start { hooks: GuiHooks, id: u128 },
    /// The instance is being deleted, as the connection is no longer current.
    Dropping,
    Opening { id: u128 },
    Completing,
    Over,
}

impl PostRunHook {
    /// The next step. What a connection that is no longer current has run is
    /// deleted again.
    pub open spec fn next(self, world: WorldView, reply: Reply) -> (PostRunHook, EffectView) {
        match (self, reply) {
            (PostRunHook::Start { hooks, id }, Reply::Done) => if hooks.current_in(world) {
                (PostRunHook::Opening { id }, EffectView::Perform(Effect::OpenManager))
            } else {
                (PostRunHook::Dropping, EffectView::Perform(Effect::DropInstance(id)))
            },
            (PostRunHook::Dropping, Reply::Outcome(Ok(()))) => (
                PostRunHook::Over,
                refuse(GuiError::HooksStale),
            ),
            (PostRunHook::Dropping, Reply::Outcome(Err(words))) => (
                PostRunHook::Over,
                EffectView::Finish(Err(words@)),
            ),
            (PostRunHook::Opening { id }, Reply::Answer(locked)) => match manager_refusal(
                world,
                locked,
            ) {
                Some(error) => (PostRunHook::Over, refuse(error)),
                None => (PostRunHook::Completing, EffectView::Perform(Effect::PostRun(id))),
            },
            (PostRunHook::Completing, Reply::Outcome(outcome)) => (
                PostRunHook::Over,
                finish_as(outcome),
            ),
            _ => (PostRunHook::Over, out_of_turn()),
        }
    }

    pub fn new(hooks: GuiHooks, id: u128) -> (r: PostRunHook)
        ensures
            r == (PostRunHook::Start { hooks, id }),
    {
        PostRunHook::Start { hooks, id }
    }

    /// Takes the next step.
    pub fn step(self, world: &World, reply: Reply) -> (r: (PostRunHook, Effect))
        ensures
            (r.0, r.1@) == self.next(world@, reply),
    {
        match (self, reply) {
            (PostRunHook::Start { hooks, id }, Reply::Done) => {
                if hooks.is_current(world) {
                    (PostRunHook::Opening { id }, Effect::OpenManager)
                } else {
                    (PostRunHook::Dropping, Effect::DropInstance(id))
                }
            },
            (PostRunHook::Dropping, Reply::Outcome(Ok(()))) => (
                PostRunHook::Over,
                Effect::Finish(Err(GuiError::HooksStale)),
            ),
            (PostRunHook::Dropping, Reply::Outcome(Err(words))) => (
                PostRunHook::Over,
                fail(words),
            ),
            (PostRunHook::Opening { id }, Reply::Answer(locked)) => match check_manager(
                world,
                locked,
            ) {
                Some(error) => (PostRunHook::Over, Effect::Finish(Err(error))),
                None => (PostRunHook::Completing, Effect::PostRun(id)),
            },
            (PostRunHook::Completing, Reply::Outcome(outcome)) => (
                PostRunHook::Over,
                finish(outcome),
            ),
            _ => (PostRunHook::Over, Effect::Finish(Err(GuiError::UnexpectedReply))),
        }
    }
}

/// The configuration server has removed the networks `ids`.
#[derive(Debug)]
pub enum PostRemoveHook {
    Start { hooks: GuiHooks, ids: Vec<u128> },
    Opening { ids: Vec<u128> },
    /// The configurations that are left are being saved.
    SavingConfigs,
    /// The set of enabled networks is being saved.
    SavingEnabled,
    /// The VPN service is being told to stop.
    Notifying,
    Over,
}

/// What a [`PostRemoveHook`] holds.
pub enum PostRemoveHookView {
    Start { hooks: GuiHooks, ids: Seq<u128> },
    Opening { ids: Seq<u128> },
    SavingConfigs,
    SavingEnabled,
    Notifying,
    Over,
}

impl View for PostRemoveHook {
    type V = PostRemoveHookView;

    open spec fn view(&self) -> PostRemoveHookView {
        match *self {
            PostRemoveHook::Start { hooks, ids } => PostRemoveHookView::Start { hooks, ids: ids@ },
            PostRemoveHook::Opening { ids } => PostRemoveHookView::Opening { ids: ids@ },
            PostRemoveHook::SavingConfigs => PostRemoveHookView::SavingConfigs,
            PostRemoveHook::SavingEnabled => PostRemoveHookView::SavingEnabled,
            PostRemoveHook::Notifying => PostRemoveHookView::Notifying,
            PostRemoveHook::Over => PostRemoveHookView::Over,
        }
    }
}

impl PostRemoveHookView {
    /// The next step. What a connection that is no longer current has removed
    /// stays stored.
    pub open spec fn next(self, world: WorldView, reply: Reply) -> (
        PostRemoveHookView,
        WorldView,
        EffectView,
    ) {
        match (self, reply) {
            (PostRemoveHookView::Start { hooks, ids }, Reply::Done) => if hooks.current_in(
                world,
            ) {
                (
                    PostRemoveHookView::Opening { ids },
                    world,
                    EffectView::Perform(Effect::OpenManager),
                )
            } else {
                (PostRemoveHookView::Over, world, succeed())
            },
            (
                PostRemoveHookView::Opening { ids },
                Reply::Answer(locked),
            ) => match manager_refusal(world, locked) {
                Some(error) => (PostRemoveHookView::Over, world, refuse(error)),
                None => (
                    PostRemoveHookView::SavingConfigs,
                    WorldView { storage: world.storage.deleted(ids.to_set()), ..world },
                    EffectView::Perform(Effect::Emit(GuiEvent::SaveConfigs)),
                ),
            },
            (PostRemoveHookView::SavingConfigs, Reply::Outcome(Ok(()))) => (
                PostRemoveHookView::SavingEnabled,
                world,
                EffectView::Perform(Effect::Emit(GuiEvent::SaveEnabledNetworks)),
            ),
            (PostRemoveHookView::SavingEnabled, Reply::Outcome(Ok(()))) => (
                if world.storage.has_tun(false) {
                    PostRemoveHookView::Over
                } else {
                    PostRemoveHookView::Notifying
                },
                world,
                stop_vpn_or_succeed(world),
            ),
            (PostRemoveHookView::Notifying, Reply::Outcome(outcome)) => (
                PostRemoveHookView::Over,
                world,
                finish_as(outcome),
            ),
            (
                PostRemoveHookView::SavingConfigs | PostRemoveHookView::SavingEnabled,
                Reply::Outcome(Err(words)),
            ) => (PostRemoveHookView::Over, world, EffectView::Finish(Err(words@))),
            _ => (PostRemoveHookView::Over, world, out_of_turn()),
        }
    }
}

impl PostRemoveHook {
    pub fn new(hooks: GuiHooks, ids: Vec<u128>) -> (r: PostRemoveHook)
        ensures
            r@ == (PostRemoveHookView::Start { hooks, ids: ids@ }),
    {
        PostRemoveHook::Start { hooks, ids }
    }

    /// Takes the next step.
    pub fn step(self, world: &mut World, reply: Reply) -> (r: (PostRemoveHook, Effect))
        ensures
            (r.0@, final(world)@, r.1@) == self@.next(old(world)@, reply),
    {
        match (self, reply) {
            (PostRemoveHook::Start { hooks, ids }, Reply::Done) => {
                if hooks.is_current(world) {
                    (PostRemoveHook::Opening { ids }, Effect::OpenManager)
                } else {
                    (PostRemoveHook::Over, Effect::Finish(Ok(())))
                }
            },
            (PostRemoveHook::Opening { ids }, Reply::Answer(locked)) => {
                if let Some(error) = check_manager(world, locked) {
                    return (PostRemoveHook::Over, Effect::Finish(Err(error)));
                }
                world.manager.storage.delete_networks(&ids);
                (PostRemoveHook::SavingConfigs, Effect::Emit(GuiEvent::SaveConfigs))
            },
            (PostRemoveHook::SavingConfigs, Reply::Outcome(Ok(()))) => (
                PostRemoveHook::SavingEnabled,
                Effect::Emit(GuiEvent::SaveEnabledNetworks),
            ),
            (PostRemoveHook::SavingEnabled, Reply::Outcome(Ok(()))) => {
                let effect = notify_vpn_stop_if_no_tun(world);
                if let Effect::Finish(_) = effect {
                    (PostRemoveHook::Over, effect)
                } else {
                    (PostRemoveHook::Notifying, effect)
                }
            },
            (PostRemoveHook::Notifying, Reply::Outcome(outcome)) => (
                PostRemoveHook::Over,
                finish(outcome),
            ),
            (
                PostRemoveHook::SavingConfigs | PostRemoveHook::SavingEnabled,
                Reply::Outcome(Err(words)),
            ) => (PostRemoveHook::Over, fail(words)),
            _ => (PostRemoveHook::Over, Effect::Finish(Err(GuiError::UnexpectedReply))),
        }
    }
}

/// A connection that is not current prepares no network.
pub proof fn stale_connections_prepare_nothing(
    hooks: GuiHooks,
    world: WorldView,
    toml: TomlConfig,
    source: ConfigSource,
)
    requires
        !hooks.current_in(world),
    ensures
        (PreRunHook::Start { hooks, toml, source }).next(world, Reply::Done) == (
            PreRunHook::Over,
            refuse(GuiError::HooksStale),
        ),
        (PreRunHook::Preparing { hooks }).next(world, Reply::Outcome(Ok(()))) == (
            PreRunHook::Over,
            refuse(GuiError::HooksStale),
        ),
{
}

/// The configuration server is told to go ahead only by a connection that is
/// current at that very moment.
pub proof fn only_current_connections_go_ahead(flow: PreRunHook, world: WorldView, reply: Reply)
    requires
        flow.next(world, reply).1 == succeed(),
    ensures
        flow is Preparing && flow->Preparing_hooks.current_in(world),
        reply matches Reply::Outcome(Ok(())),
{
}

/// A network that a connection has run that is not current is deleted, whatever
/// the core says to that, and the request fails.
pub proof fn stale_connections_keep_nothing(
    hooks: GuiHooks,
    world: WorldView,
    id: u128,
    later: WorldView,
    reply: Reply,
)
    requires
        !hooks.current_in(world),
    ensures
        (PostRunHook::Start { hooks, id }).next(world, Reply::Done) == (
            PostRunHook::Dropping,
            EffectView::Perform(Effect::DropInstance(id)),
        ),
        PostRunHook::Dropping.next(later, reply).0 is Over,
        PostRunHook::Dropping.next(later, reply).1 matches EffectView::Finish(Err(_)),
{
}

/// What a connection says it has removed stays stored where the connection is not
/// current.
pub proof fn stale_connections_remove_nothing(hooks: GuiHooks, world: WorldView, ids: Seq<u128>)
    requires
        !hooks.current_in(world),
    ensures
        (PostRemoveHookView::Start { hooks, ids }).next(world, Reply::Done) == (
            PostRemoveHookView::Over,
            world,
            succeed(),
        ),
{
}

/// A current connection has the network prepared with the source it reports, as
/// from the configuration server, and goes ahead exactly where that succeeds and
/// the connection is still current. What fails ends the request with its words.
pub proof fn a_current_connection_prepares(
    hooks: GuiHooks,
    toml: TomlConfig,
    source: ConfigSource,
    words: String,
    w0: WorldView,
    w1: WorldView,
    w2: WorldView,
)
    requires
        hooks.current_in(w0),
    ensures
        ({
            let s0 = (PreRunHook::Start { hooks, toml, source }).next(w0, Reply::Done);
            let s1 = s0.0.next(w1, Reply::Answer(true));
            let s2 = s1.0.next(w2, Reply::Outcome(Ok(())));
            &&& s0.1 == EffectView::Perform(Effect::OpenManager)
            &&& s0.0.next(w1, Reply::Answer(false)).1 == refuse(GuiError::ManagerBusy)
            &&& !w1.connected ==> s1.1 == refuse(GuiError::ManagerMissing)
            &&& w1.connected ==> {
                &&& s1.1 matches EffectView::Perform(
                    Effect::PreRun { toml: prepared, source: stored, origin },
                ) && prepared == toml && origin is ConfigServer && (stored is Web <==> source
                    is Web) && (stored is User <==> source is User)
                &&& s2.1 == succeed() <==> hooks.current_in(w2)
                &&& s2.1 == refuse(GuiError::HooksStale) <==> !hooks.current_in(w2)
                &&& s1.0.next(w2, Reply::Outcome(Err(words))).1 == EffectView::Finish(Err(words@))
            }
        }),
{
}

/// What a current connection has run is completed, and what that fails with is the
/// failure of the request.
pub proof fn a_current_connection_completes(
    hooks: GuiHooks,
    id: u128,
    words: String,
    w0: WorldView,
    w1: WorldView,
    w2: WorldView,
)
    requires
        hooks.current_in(w0),
    ensures
        ({
            let s0 = (PostRunHook::Start { hooks, id }).next(w0, Reply::Done);
            let s1 = s0.0.next(w1, Reply::Answer(true));
            &&& s0.1 == EffectView::Perform(Effect::OpenManager)
            &&& s0.0.next(w1, Reply::Answer(false)).1 == refuse(GuiError::ManagerBusy)
            &&& !w1.connected ==> s1.1 == refuse(GuiError::ManagerMissing)
            &&& w1.connected ==> {
                &&& s1.1 == EffectView::Perform(Effect::PostRun(id))
                &&& s1.0.next(w2, Reply::Outcome(Ok(()))).1 == succeed()
                &&& s1.0.next(w2, Reply::Outcome(Err(words))).1 == EffectView::Finish(Err(words@))
            }
        }),
{
}

/// What a stale connection has run is deleted, and the request fails: with the
/// words of the core where that failed, else because the connection is stale.
pub proof fn a_stale_connection_is_told_why(
    hooks: GuiHooks,
    id: u128,
    words: String,
    w0: WorldView,
    w1: WorldView,
)
    requires
        !hooks.current_in(w0),
    ensures
        ({
            let s0 = (PostRunHook::Start { hooks, id }).next(w0, Reply::Done);
            &&& s0.1 == EffectView::Perform(Effect::DropInstance(id))
            &&& s0.0.next(w1, Reply::Outcome(Ok(()))).1 == refuse(GuiError::HooksStale)
            &&& s0.0.next(w1, Reply::Outcome(Err(words))).1 == EffectView::Finish(Err(words@))
        }),
{
}

/// What a current connection has removed is neither stored nor enabled afterwards,
/// and nothing else changes; both are saved, and the VPN service is told to stop
/// exactly where no enabled network with a TUN device is left. What fails ends the
/// request with its words.
pub proof fn a_current_connection_removes(
    hooks: GuiHooks,
    ids: Seq<u128>,
    id: u128,
    words: String,
    w: Seq<WorldView>,
)
    requires
        w.len() == 5,
        hooks.current_in(w[0]),
    ensures
        ({
            let s0 = (PostRemoveHookView::Start { hooks, ids }).next(w[0], Reply::Done);
            let s1 = s0.0.next(w[1], Reply::Answer(true));
            let s2 = s1.0.next(w[2], Reply::Outcome(Ok(())));
            let s3 = s2.0.next(w[3], Reply::Outcome(Ok(())));
            let s4 = s3.0.next(w[4], Reply::Outcome(Ok(())));
            let failed = Reply::Outcome(Err(words));
            &&& s0.1 == w[0] && s0.2 == EffectView::Perform(Effect::OpenManager)
            &&& s0.0.next(w[1], Reply::Answer(false)).2 == refuse(GuiError::ManagerBusy)
            &&& s0.0.next(w[1], Reply::Answer(false)).1 == w[1]
            &&& !w[1].connected ==> s1.2 == refuse(GuiError::ManagerMissing) && s1.1 == w[1]
            &&& w[1].connected ==> {
                let before = w[1].storage;
                let after = s1.1.storage;
                &&& s1.2 == EffectView::Perform(Effect::Emit(GuiEvent::SaveConfigs))
                &&& s1.1 == (WorldView { storage: after, ..w[1] })
                &&& after.configs.dom().contains(id) <==> before.configs.dom().contains(id)
                    && !ids.contains(id)
                &&& after.enabled.contains(id) <==> before.enabled.contains(id) && !ids.contains(id)
                &&& after.configs.dom().contains(id) ==> after.configs[id] == before.configs[id]
                &&& s2.2 == EffectView::Perform(Effect::Emit(GuiEvent::SaveEnabledNetworks))
                &&& s1.0.next(w[2], failed).2 == EffectView::Finish(Err(words@))
                &&& s2.0.next(w[3], failed).2 == EffectView::Finish(Err(words@))
                &&& (exists|tun: u128| w[3].storage.is_tun(false, tun)) ==> s3.2 == succeed()
                &&& !(exists|tun: u128| w[3].storage.is_tun(false, tun)) ==> {
                    &&& s3.2 == EffectView::Perform(Effect::Emit(GuiEvent::VpnServiceStop))
                    &&& s4.2 == succeed()
                    &&& s3.0.next(w[4], failed).2 == EffectView::Finish(Err(words@))
                }
                &&& s2.1 == w[2] && s3.1 == w[3] && s4.1 == w[4]
            }
        }),
{
    a_tun_network_is_any_that_is_one(w[3].storage, false);
    deleted_networks_are_gone(w[1].storage, ids.to_set(), id);
    assert(ids.to_set().contains(id) <==> ids.contains(id));
}

} // verus!
