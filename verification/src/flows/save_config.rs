//! Saving a configuration at the user's request.

use crate::config::NetworkConfig;
use crate::effect::{
    check_manager, fail, finish, finish_as, manager_refusal, out_of_turn, refuse, succeed, Effect,
    EffectView, GuiEvent, Reply,
};
use crate::error::{parse_instance_id, GuiError};
use crate::instance_id::parsed_uuid;
use crate::world::{World, WorldView};
use vstd::prelude::*;

verus! {

/// The request of the user to save the configuration `cfg`.
#[derive(Debug)]
pub enum SaveNetworkConfig {
    Start { cfg: NetworkConfig },
    Opening { id: u128, cfg: NetworkConfig },
    /// The management of the core is saving the configuration.
    Saving { id: u128 },
    /// The network has been made the user's own, which is being recorded.
    Recording,
    Over,
}

impl SaveNetworkConfig {
    /// The next step. What the management saves it reports as the user's, which does
    /// not change who owns a stored network. Here the user is known to have asked for
    /// it, so that the network becomes the user's own once it is saved.
    pub open spec fn next(self, world: WorldView, reply: Reply) -> (
        SaveNetworkConfig,
        WorldView,
        EffectView,
    ) {
        match (self, reply) {
            (SaveNetworkConfig::Start { cfg }, Reply::Done) => match parsed_uuid(
                cfg.instance_id@,
            ) {
                Ok(id) => (
                    SaveNetworkConfig::Opening { id, cfg },
                    world,
                    EffectView::Perform(Effect::OpenManager),
                ),
                Err(words) => (SaveNetworkConfig::Over, world, EffectView::Finish(Err(words))),
            },
            (
                SaveNetworkConfig::Opening { id, cfg },
                Reply::Answer(locked),
            ) => match manager_refusal(world, locked) {
                Some(error) => (SaveNetworkConfig::Over, world, refuse(error)),
                None => (
                    SaveNetworkConfig::Saving { id },
                    world,
                    EffectView::Perform(Effect::SaveConfig { id, config: cfg }),
                ),
            },
            (SaveNetworkConfig::Saving { id }, Reply::Outcome(Ok(()))) => (
                SaveNetworkConfig::Recording,
                WorldView { storage: world.storage.claimed(id), ..world },
                EffectView::Perform(Effect::Emit(GuiEvent::SaveConfigs)),
            ),
            (SaveNetworkConfig::Saving { .. }, Reply::Outcome(Err(words))) => (
                SaveNetworkConfig::Over,
                world,
                EffectView::Finish(Err(words@)),
            ),
            (SaveNetworkConfig::Recording, Reply::Outcome(outcome)) => (
                SaveNetworkConfig::Over,
                world,
                finish_as(outcome),
            ),
            _ => (SaveNetworkConfig::Over, world, out_of_turn()),
        }
    }

    pub fn new(cfg: NetworkConfig) -> (r: SaveNetworkConfig)
        ensures
            r == (SaveNetworkConfig::Start { cfg }),
    {
        SaveNetworkConfig::Start { cfg }
    }

    /// Takes the next step.
    pub fn step(self, world: &mut World, reply: Reply) -> (r: (SaveNetworkConfig, Effect))
        ensures
            (r.0, final(world)@, r.1@) == self.next(old(world)@, reply),
    {
        match (self, reply) {
            (SaveNetworkConfig::Start { cfg }, Reply::Done) => {
                match parse_instance_id(cfg.instance_id.as_str()) {
                    Ok(id) => (SaveNetworkConfig::Opening { id, cfg }, Effect::OpenManager),
                    Err(error) => (SaveNetworkConfig::Over, Effect::Finish(Err(error))),
                }
            },
            (SaveNetworkConfig::Opening { id, cfg }, Reply::Answer(locked)) => {
                match check_manager(world, locked) {
                    Some(error) => (SaveNetworkConfig::Over, Effect::Finish(Err(error))),
                    None => (
                        SaveNetworkConfig::Saving { id },
                        Effect::SaveConfig { id, config: cfg },
                    ),
                }
            },
            (SaveNetworkConfig::Saving { id }, Reply::Outcome(Ok(()))) => {
                world.manager.storage.claim_for_user(id);
                (SaveNetworkConfig::Recording, Effect::Emit(GuiEvent::SaveConfigs))
            },
            (SaveNetworkConfig::Saving { .. }, Reply::Outcome(Err(words))) => (
                SaveNetworkConfig::Over,
                fail(words),
            ),
            (SaveNetworkConfig::Recording, Reply::Outcome(outcome)) => (
                SaveNetworkConfig::Over,
                finish(outcome),
            ),
            _ => (SaveNetworkConfig::Over, Effect::Finish(Err(GuiError::UnexpectedReply))),
        }
    }
}

/// A run of a request to save, step by step: the flow before step `i`, the state
/// that the step finds, the reply that it gets and the effect that it asks for.
pub struct SaveTrace {
    pub flows: Seq<SaveNetworkConfig>,
    pub worlds: Seq<WorldView>,
    pub replies: Seq<Reply>,
    pub effects: Seq<EffectView>,
}

impl SaveTrace {
    /// Whether step `i` is one that the request can take.
    pub open spec fn steps(self, i: int) -> bool {
        let (after, _, effect) = self.flows[i].next(self.worlds[i], self.replies[i]);
        self.flows[i + 1] == after && self.effects[i] == effect
    }

    /// Whether step `i + 1` finds stored what step `i` left. While the management
    /// saves the configuration, it may store anything.
    pub open spec fn hands_on(self, i: int) -> bool {
        !(self.effects[i] matches EffectView::Perform(Effect::SaveConfig { .. }))
            ==> self.worlds[i + 1].storage == self.flows[i].next(
            self.worlds[i],
            self.replies[i],
        ).1.storage
    }

    /// Whether these are the first steps of saving `cfg`, with nothing stored meanwhile
    /// but by the management while it saves.
    pub open spec fn saves(self, cfg: NetworkConfig) -> bool {
        &&& self.worlds.len() == self.effects.len()
        &&& self.replies.len() == self.effects.len()
        &&& self.flows.len() == self.effects.len() + 1
        &&& self.flows[0] == (SaveNetworkConfig::Start { cfg })
        &&& forall|i: int| 0 <= i < self.effects.len() ==> #[trigger] self.steps(i)
        &&& forall|i: int| 0 <= i && i + 1 < self.effects.len() ==> #[trigger] self.hands_on(i)
    }

    /// What is known before step `i`.
    spec fn on_the_way(self, i: int, cfg: NetworkConfig) -> bool {
        let id = parsed_uuid(cfg.instance_id@);
        match self.flows[i] {
            SaveNetworkConfig::Start { cfg: c } => c == cfg,
            SaveNetworkConfig::Opening { id: found, cfg: c } => c == cfg && id is Ok && found
                == id->Ok_0,
            SaveNetworkConfig::Saving { id: found } => {
                &&& id is Ok && found == id->Ok_0
                &&& i > 0 && self.effects[i - 1] == EffectView::Perform(
                    Effect::SaveConfig { id: found, config: cfg },
                )
            },
            SaveNetworkConfig::Recording => {
                &&& id is Ok
                &&& i > 1 && self.effects[i - 2] == EffectView::Perform(
                    Effect::SaveConfig { id: id->Ok_0, config: cfg },
                )
                &&& (self.replies[i - 1] matches Reply::Outcome(Ok(())))
                &&& self.worlds[i].storage == self.worlds[i - 1].storage.claimed(id->Ok_0)
            },
            SaveNetworkConfig::Over => true,
        }
    }
}

/// The request stays on the way.
proof fn lemma_on_the_way(t: SaveTrace, cfg: NetworkConfig, i: int)
    requires
        t.saves(cfg),
        0 <= i < t.effects.len(),
    ensures
        t.on_the_way(i, cfg),
    decreases i,
{
    if i > 0 {
        lemma_on_the_way(t, cfg, i - 1);
        assert(t.steps(i - 1));
        assert(t.hands_on(i - 1));
    }
}

/// Once the user has saved a configuration, the network is the user's own, whoever
/// owned it before, and otherwise as the management has stored it. The request
/// succeeds only once the management has saved that very configuration.
pub proof fn a_saved_network_is_the_users(t: SaveTrace, cfg: NetworkConfig, k: int)
    requires
        t.saves(cfg),
        0 <= k < t.effects.len(),
        t.effects[k] == succeed(),
    ensures
        parsed_uuid(cfg.instance_id@) is Ok,
        ({
            let id = parsed_uuid(cfg.instance_id@)->Ok_0;
            &&& t.worlds[k].storage.configs.dom().contains(id)
                ==> t.worlds[k].storage.configs[id].source is User
            &&& k > 1 && t.effects[k - 2] == EffectView::Perform(
                Effect::SaveConfig { id, config: cfg },
            )
            &&& (t.replies[k - 1] matches Reply::Outcome(Ok(())))
            &&& t.worlds[k].storage == t.worlds[k - 1].storage.claimed(id)
        }),
{
    lemma_on_the_way(t, cfg, k);
    assert(t.steps(k));
}

/// A request to save that the management refuses, or that ends before, leaves what
/// is stored as it finds it: only a save that succeeded changes the owner.
pub proof fn only_a_save_changes_the_owner(flow: SaveNetworkConfig, world: WorldView, reply: Reply)
    ensures
        ({
            let after = flow.next(world, reply).1;
            let saved = flow is Saving && (reply matches Reply::Outcome(Ok(())));
            &&& !saved ==> after == world
            &&& saved ==> after == (WorldView {
                storage: world.storage.claimed(flow->Saving_id),
                ..world
            })
        }),
{
}

/// A configuration that spells an id is handed to the management as it is, and
/// what the management or the user interface fails with ends the request with its
/// words; otherwise the request succeeds, with the configurations saved again.
pub proof fn a_save_goes_through(cfg: NetworkConfig, words: String, w: Seq<WorldView>)
    requires
        w.len() == 4,
    ensures
        ({
            let s0 = (SaveNetworkConfig::Start { cfg }).next(w[0], Reply::Done);
            let s1 = s0.0.next(w[1], Reply::Answer(true));
            let s2 = s1.0.next(w[2], Reply::Outcome(Ok(())));
            let failed = Reply::Outcome(Err(words));
            match parsed_uuid(cfg.instance_id@) {
                Err(said) => s0.2 == EffectView::Finish(Err(said)),
                Ok(id) => {
                    &&& s0.2 == EffectView::Perform(Effect::OpenManager)
                    &&& s0.0.next(w[1], Reply::Answer(false)).2 == refuse(GuiError::ManagerBusy)
                    &&& !w[1].connected ==> s1.2 == refuse(GuiError::ManagerMissing)
                    &&& w[1].connected ==> {
                        &&& s1.2 == EffectView::Perform(Effect::SaveConfig { id, config: cfg })
                        &&& s1.0.next(w[2], failed).2 == EffectView::Finish(Err(words@))
                        &&& s1.0.next(w[2], failed).1 == w[2]
                        &&& s2.2 == EffectView::Perform(Effect::Emit(GuiEvent::SaveConfigs))
                        &&& w[2].storage.configs.dom().contains(id)
                            ==> s2.1.storage.configs[id].source is User
                        &&& s2.1.storage.enabled == w[2].storage.enabled
                        &&& s2.0.next(w[3], Reply::Outcome(Ok(()))).2 == succeed()
                        &&& s2.0.next(w[3], failed).2 == EffectView::Finish(Err(words@))
                    }
                },
            }
        }),
{
}

} // verus!
