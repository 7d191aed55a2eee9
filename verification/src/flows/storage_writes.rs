//! What the management of the core has the client store.

use crate::config::{persisted, ConfigSource, NetworkConfig, PersistedConfigSource};
use crate::effect::{
    fail, finish, finish_as, out_of_turn, Effect, EffectView, GuiEvent, Reply,
};
use crate::error::GuiError;
use crate::storage::deleted_networks_are_gone;
use crate::world::{World, WorldView};
use vstd::prelude::*;

verus! {

/// Stores the configuration of a network, and enables it.
#[derive(Debug)]
pub enum InsertOrUpdateUserNetworkConfig {
    Start { network_inst_id: u128, network_config: NetworkConfig, source: ConfigSource },
    /// The configuration has been stored, and is being saved.
    SavingConfigs { network_inst_id: u128 },
    /// The set of enabled networks is being saved.
    SavingEnabled,
    Over,
}

impl InsertOrUpdateUserNetworkConfig {
    /// The next step. The network is enabled once its configuration has been saved.
    /// A network that is stored already keeps its owner where it is reported as the
    /// user's; a request of the user to save it changes that afterwards.
    pub open spec fn next(self, world: WorldView, reply: Reply) -> (
        InsertOrUpdateUserNetworkConfig,
        WorldView,
        EffectView,
    ) {
        match (self, reply) {
            (
                InsertOrUpdateUserNetworkConfig::Start { network_inst_id, network_config, source },
                Reply::Done,
            ) => (
                InsertOrUpdateUserNetworkConfig::SavingConfigs { network_inst_id },
                WorldView {
                    storage: world.storage.saved(
                        network_inst_id,
                        network_config,
                        persisted(source),
                    ),
                    ..world
                },
                EffectView::Perform(Effect::Emit(GuiEvent::SaveConfigs)),
            ),
            (
                InsertOrUpdateUserNetworkConfig::SavingConfigs { network_inst_id },
                Reply::Outcome(Ok(())),
            ) => (
                InsertOrUpdateUserNetworkConfig::SavingEnabled,
                WorldView { storage: world.storage.switched(network_inst_id, false), ..world },
                EffectView::Perform(Effect::Emit(GuiEvent::SaveEnabledNetworks)),
            ),
            (
                InsertOrUpdateUserNetworkConfig::SavingConfigs { .. },
                Reply::Outcome(Err(words)),
            ) => (
                InsertOrUpdateUserNetworkConfig::Over,
                world,
                EffectView::Finish(Err(words@)),
            ),
            (InsertOrUpdateUserNetworkConfig::SavingEnabled, Reply::Outcome(outcome)) => (
                InsertOrUpdateUserNetworkConfig::Over,
                world,
                finish_as(outcome),
            ),
            _ => (InsertOrUpdateUserNetworkConfig::Over, world, out_of_turn()),
        }
    }

    pub fn new(network_inst_id: u128, network_config: NetworkConfig, source: ConfigSource) -> (r:
        InsertOrUpdateUserNetworkConfig)
        ensures
            r == (InsertOrUpdateUserNetworkConfig::Start {
                network_inst_id,
                network_config,
                source,
            }),
    {
        InsertOrUpdateUserNetworkConfig::Start { network_inst_id, network_config, source }
    }

    /// Takes the next step.
    pub fn step(self, world: &mut World, reply: Reply) -> (r: (
        InsertOrUpdateUserNetworkConfig,
        Effect,
    ))
        ensures
            (r.0, final(world)@, r.1@) == self.next(old(world)@, reply),
    {
        match (self, reply) {
            (
                InsertOrUpdateUserNetworkConfig::Start { network_inst_id, network_config, source },
                Reply::Done,
            ) => {
                world.manager.storage.save_config(
                    network_inst_id,
                    network_config,
                    PersistedConfigSource::from_runtime_source(source),
                );
                (
                    InsertOrUpdateUserNetworkConfig::SavingConfigs { network_inst_id },
                    Effect::Emit(GuiEvent::SaveConfigs),
                )
            },
            (
                InsertOrUpdateUserNetworkConfig::SavingConfigs { network_inst_id },
                Reply::Outcome(Ok(())),
            ) => {
                world.manager.storage.switch_network(network_inst_id, false);
                (
                    InsertOrUpdateUserNetworkConfig::SavingEnabled,
                    Effect::Emit(GuiEvent::SaveEnabledNetworks),
                )
            },
            (
                InsertOrUpdateUserNetworkConfig::SavingConfigs { .. },
                Reply::Outcome(Err(words)),
            ) => (InsertOrUpdateUserNetworkConfig::Over, fail(words)),
            (InsertOrUpdateUserNetworkConfig::SavingEnabled, Reply::Outcome(outcome)) => (
                InsertOrUpdateUserNetworkConfig::Over,
                finish(outcome),
            ),
            _ => (
                InsertOrUpdateUserNetworkConfig::Over,
                Effect::Finish(Err(GuiError::UnexpectedReply)),
            ),
        }
    }
}

/// Deletes the configurations of a number of networks, and disables them.
#[derive(Debug)]
pub enum DeleteNetworkConfigs {
    Start { network_inst_ids: Vec<u128> },
    /// The configurations that are left are being saved.
    SavingConfigs,
    /// The set of enabled networks is being saved.
    SavingEnabled,
    Over,
}

/// What a [`DeleteNetworkConfigs`] holds.
pub enum DeleteNetworkConfigsView {
    Start { network_inst_ids: Seq<u128> },
    SavingConfigs,
    SavingEnabled,
    Over,
}

impl View for DeleteNetworkConfigs {
    type V = DeleteNetworkConfigsView;

    open spec fn view(&self) -> DeleteNetworkConfigsView {
        match *self {
            DeleteNetworkConfigs::Start { network_inst_ids } => DeleteNetworkConfigsView::Start {
                network_inst_ids: network_inst_ids@,
            },
            DeleteNetworkConfigs::SavingConfigs => DeleteNetworkConfigsView::SavingConfigs,
            DeleteNetworkConfigs::SavingEnabled => DeleteNetworkConfigsView::SavingEnabled,
            DeleteNetworkConfigs::Over => DeleteNetworkConfigsView::Over,
        }
    }
}

impl DeleteNetworkConfigsView {
    /// The next step.
    pub open spec fn next(self, world: WorldView, reply: Reply) -> (
        DeleteNetworkConfigsView,
        WorldView,
        EffectView,
    ) {
        match (self, reply) {
            (DeleteNetworkConfigsView::Start { network_inst_ids }, Reply::Done) => (
                DeleteNetworkConfigsView::SavingConfigs,
                WorldView { storage: world.storage.deleted(network_inst_ids.to_set()), ..world },
                EffectView::Perform(Effect::Emit(GuiEvent::SaveConfigs)),
            ),
            (DeleteNetworkConfigsView::SavingConfigs, Reply::Outcome(Ok(()))) => (
                DeleteNetworkConfigsView::SavingEnabled,
                world,
                EffectView::Perform(Effect::Emit(GuiEvent::SaveEnabledNetworks)),
            ),
            (DeleteNetworkConfigsView::SavingConfigs, Reply::Outcome(Err(words))) => (
                DeleteNetworkConfigsView::Over,
                world,
                EffectView::Finish(Err(words@)),
            ),
            (DeleteNetworkConfigsView::SavingEnabled, Reply::Outcome(outcome)) => (
                DeleteNetworkConfigsView::Over,
                world,
                finish_as(outcome),
            ),
            _ => (DeleteNetworkConfigsView::Over, world, out_of_turn()),
        }
    }
}

impl DeleteNetworkConfigs {
    pub fn new(network_inst_ids: Vec<u128>) -> (r: DeleteNetworkConfigs)
        ensures
            r@ == (DeleteNetworkConfigsView::Start { network_inst_ids: network_inst_ids@ }),
    {
        DeleteNetworkConfigs::Start { network_inst_ids }
    }

    /// Takes the next step.
    pub fn step(self, world: &mut World, reply: Reply) -> (r: (DeleteNetworkConfigs, Effect))
        ensures
            (r.0@, final(world)@, r.1@) == self@.next(old(world)@, reply),
    {
        match (self, reply) {
            (DeleteNetworkConfigs::Start { network_inst_ids }, Reply::Done) => {
                world.manager.storage.delete_networks(&network_inst_ids);
                (DeleteNetworkConfigs::SavingConfigs, Effect::Emit(GuiEvent::SaveConfigs))
            },
            (DeleteNetworkConfigs::SavingConfigs, Reply::Outcome(Ok(()))) => (
                DeleteNetworkConfigs::SavingEnabled,
                Effect::Emit(GuiEvent::SaveEnabledNetworks),
            ),
            (DeleteNetworkConfigs::SavingConfigs, Reply::Outcome(Err(words))) => (
                DeleteNetworkConfigs::Over,
                fail(words),
            ),
            (DeleteNetworkConfigs::SavingEnabled, Reply::Outcome(outcome)) => (
                DeleteNetworkConfigs::Over,
                finish(outcome),
            ),
            _ => (DeleteNetworkConfigs::Over, Effect::Finish(Err(GuiError::UnexpectedReply))),
        }
    }
}

/// Records whether a network is enabled.
#[derive(Debug)]
pub enum RecordNetworkConfigState {
    Start { network_inst_id: u128, disabled: bool },
    /// The set of enabled networks is being saved.
    SavingEnabled,
    Over,
}

impl RecordNetworkConfigState {
    /// The next step.
    pub open spec fn next(self, world: WorldView, reply: Reply) -> (
        RecordNetworkConfigState,
        WorldView,
        EffectView,
    ) {
        match (self, reply) {
            (RecordNetworkConfigState::Start { network_inst_id, disabled }, Reply::Done) => (
                RecordNetworkConfigState::SavingEnabled,
                WorldView { storage: world.storage.switched(network_inst_id, disabled), ..world },
                EffectView::Perform(Effect::Emit(GuiEvent::SaveEnabledNetworks)),
            ),
            (RecordNetworkConfigState::SavingEnabled, Reply::Outcome(outcome)) => (
                RecordNetworkConfigState::Over,
                world,
                finish_as(outcome),
            ),
            _ => (RecordNetworkConfigState::Over, world, out_of_turn()),
        }
    }

    pub fn new(network_inst_id: u128, disabled: bool) -> (r: RecordNetworkConfigState)
        ensures
            r == (RecordNetworkConfigState::Start { network_inst_id, disabled }),
    {
        RecordNetworkConfigState::Start { network_inst_id, disabled }
    }

    /// Takes the next step.
    pub fn step(self, world: &mut World, reply: Reply) -> (r: (RecordNetworkConfigState, Effect))
        ensures
            (r.0, final(world)@, r.1@) == self.next(old(world)@, reply),
    {
        match (self, reply) {
            (RecordNetworkConfigState::Start { network_inst_id, disabled }, Reply::Done) => {
                world.manager.storage.switch_network(network_inst_id, disabled);
                (
                    RecordNetworkConfigState::SavingEnabled,
                    Effect::Emit(GuiEvent::SaveEnabledNetworks),
                )
            },
            (RecordNetworkConfigState::SavingEnabled, Reply::Outcome(outcome)) => (
                RecordNetworkConfigState::Over,
                finish(outcome),
            ),
            _ => (
                RecordNetworkConfigState::Over,
                Effect::Finish(Err(GuiError::UnexpectedReply)),
            ),
        }
    }
}

/// The configuration that the management hands over is stored under its id and
/// saved, and then the network is enabled and that is saved; where saving fails,
/// the network is not enabled. Nothing else that is stored changes.
pub proof fn a_network_is_stored_and_enabled(
    network_inst_id: u128,
    network_config: NetworkConfig,
    source: ConfigSource,
    words: String,
    w0: WorldView,
    w1: WorldView,
    w2: WorldView,
)
    ensures
        ({
            let s0 = (InsertOrUpdateUserNetworkConfig::Start {
                network_inst_id,
                network_config,
                source,
            }).next(w0, Reply::Done);
            let s1 = s0.0.next(w1, Reply::Outcome(Ok(())));
            let failed = Reply::Outcome(Err(words));
            let before = w0.storage;
            let after = s0.1.storage;
            &&& s0.2 == EffectView::Perform(Effect::Emit(GuiEvent::SaveConfigs))
            &&& s0.1 == (WorldView { storage: after, ..w0 })
            &&& after.enabled == before.enabled
            &&& after.configs.dom() == before.configs.dom().insert(network_inst_id)
            &&& after.configs[network_inst_id].config == network_config
            &&& source is Web ==> after.configs[network_inst_id].source is Web
            &&& source is User && !before.configs.dom().contains(network_inst_id)
                ==> after.configs[network_inst_id].source is User
            &&& source is User && before.configs.dom().contains(network_inst_id)
                ==> after.configs[network_inst_id].source
                == before.configs[network_inst_id].source
            &&& forall|other: u128|
                other != network_inst_id && #[trigger] before.configs.dom().contains(other)
                    ==> after.configs[other] == before.configs[other]
            &&& s1.2 == EffectView::Perform(Effect::Emit(GuiEvent::SaveEnabledNetworks))
            &&& s1.1.storage.enabled == w1.storage.enabled.insert(network_inst_id)
            &&& s1.1.storage.configs == w1.storage.configs
            &&& s1.1 == (WorldView { storage: s1.1.storage, ..w1 })
            &&& s0.0.next(w1, failed).2 == EffectView::Finish(Err(words@))
            &&& s0.0.next(w1, failed).1 == w1
            &&& s1.0.next(w2, Reply::Outcome(Ok(()))).2 == EffectView::Finish(Ok(()))
            &&& s1.0.next(w2, Reply::Outcome(Ok(()))).1 == w2
            &&& s1.0.next(w2, failed).2 == EffectView::Finish(Err(words@))
        }),
{
    let s0 = (InsertOrUpdateUserNetworkConfig::Start { network_inst_id, network_config, source })
        .next(w0, Reply::Done);
    assert(s0.1.storage.configs.dom() =~= w0.storage.configs.dom().insert(network_inst_id));
}

/// The networks that the management names are neither stored nor enabled
/// afterwards, and nothing else changes; both are saved. What fails ends the
/// request with its words.
pub proof fn the_named_networks_are_deleted(
    ids: Seq<u128>,
    id: u128,
    words: String,
    w0: WorldView,
    w1: WorldView,
    w2: WorldView,
)
    ensures
        ({
            let s0 = (DeleteNetworkConfigsView::Start { network_inst_ids: ids }).next(
                w0,
                Reply::Done,
            );
            let s1 = s0.0.next(w1, Reply::Outcome(Ok(())));
            let failed = Reply::Outcome(Err(words));
            let before = w0.storage;
            let after = s0.1.storage;
            &&& s0.2 == EffectView::Perform(Effect::Emit(GuiEvent::SaveConfigs))
            &&& s0.1 == (WorldView { storage: after, ..w0 })
            &&& after.configs.dom().contains(id) <==> before.configs.dom().contains(id)
                && !ids.contains(id)
            &&& after.enabled.contains(id) <==> before.enabled.contains(id) && !ids.contains(id)
            &&& after.configs.dom().contains(id) ==> after.configs[id] == before.configs[id]
            &&& s1.2 == EffectView::Perform(Effect::Emit(GuiEvent::SaveEnabledNetworks))
            &&& s1.1 == w1
            &&& s0.0.next(w1, failed).2 == EffectView::Finish(Err(words@))
            &&& s1.0.next(w2, Reply::Outcome(Ok(()))).2 == EffectView::Finish(Ok(()))
            &&& s1.0.next(w2, Reply::Outcome(Ok(()))).1 == w2
            &&& s1.0.next(w2, failed).2 == EffectView::Finish(Err(words@))
        }),
{
    deleted_networks_are_gone(w0.storage, ids.to_set(), id);
    assert(ids.to_set().contains(id) <==> ids.contains(id));
}

/// The network that the management names, and no other, is enabled or disabled as
/// it says, and that is saved.
pub proof fn the_state_is_recorded(
    network_inst_id: u128,
    disabled: bool,
    other: u128,
    words: String,
    w0: WorldView,
    w1: WorldView,
)
    requires
        other != network_inst_id,
    ensures
        ({
            let s0 = (RecordNetworkConfigState::Start { network_inst_id, disabled }).next(
                w0,
                Reply::Done,
            );
            &&& s0.2 == EffectView::Perform(Effect::Emit(GuiEvent::SaveEnabledNetworks))
            &&& s0.1 == (WorldView { storage: s0.1.storage, ..w0 })
            &&& s0.1.storage.configs == w0.storage.configs
            &&& s0.1.storage.enabled.contains(network_inst_id) <==> !disabled
            &&& s0.1.storage.enabled.contains(other) <==> w0.storage.enabled.contains(other)
            &&& s0.0.next(w1, Reply::Outcome(Ok(()))).2 == EffectView::Finish(Ok(()))
            &&& s0.0.next(w1, Reply::Outcome(Ok(()))).1 == w1
            &&& s0.0.next(w1, Reply::Outcome(Err(words))).2 == EffectView::Finish(Err(words@))
        }),
{
}

} // verus!
