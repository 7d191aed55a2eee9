//! What comes before a network is run: on Android the other networks with a TUN
//! device are stopped; then the configuration is stored and announced.

use crate::config::{NetworkConfig, PersistedConfigSource, TomlConfig};
use crate::connection_intent::wants_connection;
use crate::effect::{
    fail, finish, finish_as, out_of_turn, refuse, succeed, Effect, EffectView, GuiEvent,
    InstanceCall, Reply, RunOrigin,
};
use crate::error::GuiError;
use crate::instance_id::{hyphenated, parsed_uuid};
use crate::manager::{copy_ids, GUIClientManager};
use crate::storage::{lemma_take_set, tun_listings_are_complete, StorageView};
use crate::world::{World, WorldView};
use vstd::prelude::*;

verus! {

/// The preparation of a network that is to be run.
#[derive(Debug)]
pub enum PreRun {
    Start { config: TomlConfig, source: PersistedConfigSource, origin: RunOrigin },
    /// It is being found out whether the networks `other` may be stopped.
    Inspecting { config: TomlConfig, source: PersistedConfigSource, other: Vec<u128> },
    /// The networks `other` are being deleted in the core.
    Deleting { config: TomlConfig, source: PersistedConfigSource, other: Vec<u128> },
    /// It is being recorded that networks were stopped.
    Recording { config: TomlConfig, source: PersistedConfigSource },
    /// The network `other[next]` is being stopped.
    Stopping {
        config: TomlConfig,
        source: PersistedConfigSource,
        other: Vec<u128>,
        next: usize,
    },
    /// The configuration is being read.
    Reading { id: u128, source: PersistedConfigSource },
    /// The configuration has been stored, and is being saved.
    Saving { id: u128 },
    /// The network is being announced.
    Announcing,
    Over,
}

/// What a [`PreRun`] holds.
pub enum PreRunView {
    Start { config: TomlConfig, source: PersistedConfigSource, origin: RunOrigin },
    Inspecting { config: TomlConfig, source: PersistedConfigSource, other: Seq<u128> },
    Deleting { config: TomlConfig, source: PersistedConfigSource, other: Seq<u128> },
    Recording { config: TomlConfig, source: PersistedConfigSource },
    Stopping {
        config: TomlConfig,
        source: PersistedConfigSource,
        other: Seq<u128>,
        next: int,
    },
    Reading { id: u128, source: PersistedConfigSource },
    Saving { id: u128 },
    Announcing,
    Over,
}

impl View for PreRun {
    type V = PreRunView;

    open spec fn view(&self) -> PreRunView {
        match *self {
            PreRun::Start { config, source, origin } => PreRunView::Start {
                config,
                source,
                origin,
            },
            PreRun::Inspecting { config, source, other } => PreRunView::Inspecting {
                config,
                source,
                other: other@,
            },
            PreRun::Deleting { config, source, other } => PreRunView::Deleting {
                config,
                source,
                other: other@,
            },
            PreRun::Recording { config, source } => PreRunView::Recording { config, source },
            PreRun::Stopping { config, source, other, next } => PreRunView::Stopping {
                config,
                source,
                other: other@,
                next: next as int,
            },
            PreRun::Reading { id, source } => PreRunView::Reading { id, source },
            PreRun::Saving { id } => PreRunView::Saving { id },
            PreRun::Announcing => PreRunView::Announcing,
            PreRun::Over => PreRunView::Over,
        }
    }
}

/// Whether an instance may be stopped: one without a record of who controls it may.
pub open spec fn may_stop(deletable: Option<bool>) -> bool {
    deletable != Some(false)
}

/// The first position, from `from` on, at which `records` holds an instance that
/// may not be stopped; their number where there is none.
pub open spec fn first_fixed(records: Seq<Option<bool>>, from: int) -> int
    decreases records.len() - from,
{
    if 0 <= from < records.len() && may_stop(records[from]) {
        first_fixed(records, from + 1)
    } else {
        from
    }
}

/// Whether one of the networks `active` is stored as something other than a
/// network of the configuration server.
pub open spec fn user_owned_among(storage: StorageView, active: Seq<u128>) -> bool {
    exists|i: int|
        0 <= i < active.len() && storage.configs.dom().contains(#[trigger] active[i]) && !(
        storage.configs[active[i]].source is Web)
}

/// Being another network than `id`.
pub open spec fn other_than(id: u128) -> spec_fn(u128) -> bool {
    |other: u128| other != id
}

/// The networks of `active` other than `id`.
pub open spec fn others(active: Seq<u128>, id: u128) -> Seq<u128> {
    active.filter(other_than(id))
}

/// Goes on to read the configuration.
pub open spec fn read_config(config: TomlConfig, source: PersistedConfigSource) -> (
    PreRunView,
    EffectView,
) {
    (
        PreRunView::Reading { id: config.id, source },
        EffectView::Perform(Effect::ReadConfig(config)),
    )
}

/// Makes way for a network with a TUN device, where `active` are the enabled
/// networks with one: the configuration server may not replace a network that is
/// not its own; any network may replace the others.
pub open spec fn make_way(
    config: TomlConfig,
    source: PersistedConfigSource,
    origin: RunOrigin,
    storage: StorageView,
    active: Seq<u128>,
) -> (PreRunView, EffectView) {
    let other = others(active, config.id);
    if source is Web && user_owned_among(storage, active) {
        (PreRunView::Over, refuse(GuiError::UserVpnActive))
    } else if other.len() == 0 {
        read_config(config, source)
    } else if origin is ConfigServer {
        (
            PreRunView::Inspecting { config, source, other },
            EffectView::Instances(InstanceCall::Inspect, other),
        )
    } else {
        (
            PreRunView::Stopping { config, source, other, next: 0 },
            EffectView::Perform(Effect::SetNetworkState { id: other[0], disabled: true }),
        )
    }
}

impl PreRunView {
    /// The first step. Where the user has stopped the mobile connection, no
    /// network with a TUN device is run on Android; and there it has to be the
    /// only one.
    pub open spec fn begins(self, world: WorldView, after: PreRunView, effect: EffectView) -> bool
        recommends
            self is Start,
    {
        let config = self->Start_config;
        let source = self->Start_source;
        let origin = self->Start_origin;
        if world.platform is Android && !config.no_tun {
            if !wants_connection(world.intent) {
                (after, effect) == (PreRunView::Over, refuse(GuiError::MobileConnectionStopped))
            } else {
                exists|active: Seq<u128>| #[trigger]
                    world.storage.lists_tun(false, active) && (after, effect) == make_way(
                        config,
                        source,
                        origin,
                        world.storage,
                        active,
                    )
            }
        } else {
            (after, effect) == read_config(config, source)
        }
    }

    /// Every later step.
    pub open spec fn next(self, world: WorldView, reply: Reply) -> (
        PreRunView,
        WorldView,
        EffectView,
    ) {
        match (self, reply) {
            (PreRunView::Inspecting { .. }, Reply::Deletable(None)) => (
                PreRunView::Over,
                world,
                refuse(GuiError::LocalInstancesUnavailable),
            ),
            (
                PreRunView::Inspecting { config, source, other },
                Reply::Deletable(Some(records)),
            ) => if records@.len() != other.len() {
                (PreRunView::Over, world, out_of_turn())
            } else if first_fixed(records@, 0) < records@.len() {
                (
                    PreRunView::Over,
                    world,
                    refuse(GuiError::CannotStop(other[first_fixed(records@, 0)])),
                )
            } else {
                (
                    PreRunView::Deleting { config, source, other },
                    world,
                    EffectView::Instances(InstanceCall::Delete, other),
                )
            },
            (PreRunView::Deleting { config, source, other }, Reply::Outcome(Ok(()))) => (
                PreRunView::Recording { config, source },
                WorldView { storage: world.storage.disabled(other.to_set()), ..world },
                EffectView::Perform(Effect::Emit(GuiEvent::SaveEnabledNetworks)),
            ),
            (PreRunView::Recording { config, source }, Reply::Outcome(Ok(()))) => {
                let (after, effect) = read_config(config, source);
                (after, world, effect)
            },
            (
                PreRunView::Stopping { config, source, other, next },
                Reply::Outcome(Ok(())),
            ) => if next + 1 < other.len() {
                (
                    PreRunView::Stopping { config, source, other, next: next + 1 },
                    world,
                    EffectView::Perform(
                        Effect::SetNetworkState { id: other[next + 1], disabled: true },
                    ),
                )
            } else {
                let (after, effect) = read_config(config, source);
                (after, world, effect)
            },
            (PreRunView::Reading { id, source }, Reply::Config(Ok(config))) => (
                PreRunView::Saving { id },
                WorldView { storage: world.storage.saved(id, config, source), ..world },
                EffectView::Perform(Effect::Emit(GuiEvent::SaveConfigs)),
            ),
            (PreRunView::Reading { .. }, Reply::Config(Err(words))) => (
                PreRunView::Over,
                world,
                EffectView::Finish(Err(words@)),
            ),
            (PreRunView::Saving { id }, Reply::Outcome(Ok(()))) => (
                PreRunView::Announcing,
                world,
                EffectView::Perform(Effect::Emit(GuiEvent::PreRunNetworkInstance(id))),
            ),
            (PreRunView::Announcing, Reply::Outcome(outcome)) => (
                PreRunView::Over,
                world,
                finish_as(outcome),
            ),
            (
                PreRunView::Deleting { .. }
                | PreRunView::Recording { .. }
                | PreRunView::Stopping { .. }
                | PreRunView::Saving { .. },
                Reply::Outcome(Err(words)),
            ) => (PreRunView::Over, world, EffectView::Finish(Err(words@))),
            _ => (PreRunView::Over, world, out_of_turn()),
        }
    }
}

/// Whether one of the networks `active` is stored as something other than a
/// network of the configuration server.
fn any_user_owned(manager: &GUIClientManager, active: &Vec<u128>) -> (r: bool)
    ensures
        r == user_owned_among(manager@, active@),
{
    for i in 0..active.len()
        invariant
            forall|k: int|
                0 <= k < i ==> !(manager@.configs.dom().contains(#[trigger] active@[k]) && !(
                manager@.configs[active@[k]].source is Web)),
    {
        if let Some(config) = manager.storage.config(active[i]) {
            if !config.source().is_web_like() {
                assert(manager@.configs.dom().contains(active@[i as int]));
                return true;
            }
        }
    }
    false
}

/// The networks of `active` other than `id`.
fn without(active: &Vec<u128>, id: u128) -> (r: Vec<u128>)
    ensures
        r@ == others(active@, id),
{
    let mut other: Vec<u128> = Vec::new();
    proof {
        reveal(Seq::filter);
        assert(active@.take(0).filter(other_than(id)) =~= Seq::empty());
    }
    for i in 0..active.len()
        invariant
            other@ == active@.take(i as int).filter(other_than(id)),
    {
        proof {
            reveal(Seq::filter);
            assert(active@.take(i + 1).drop_last() =~= active@.take(i as int));
        }
        if active[i] != id {
            other.push(active[i]);
        }
    }
    assert(active@.take(active@.len() as int) =~= active@);
    other
}

/// Whether an instance may be stopped.
fn is_stoppable(deletable: Option<bool>) -> (r: bool)
    ensures
        r == may_stop(deletable),
{
    match deletable {
        Some(deletable) => deletable,
        None => true,
    }
}

/// The first position at which `records` holds an instance that may not be
/// stopped; their number where there is none.
fn find_fixed(records: &Vec<Option<bool>>) -> (r: usize)
    ensures
        r == first_fixed(records@, 0),
        r <= records@.len(),
{
    let mut i: usize = 0;
    while i < records.len() && is_stoppable(records[i])
        invariant
            i <= records@.len(),
            first_fixed(records@, 0) == first_fixed(records@, i as int),
        decreases records@.len() - i,
    {
        i = i + 1;
    }
    i
}

impl PreRun {
    /// The preparation of the network `config`.
    pub fn new(config: TomlConfig, source: PersistedConfigSource, origin: RunOrigin) -> (r: PreRun)
        ensures
            r@ == (PreRunView::Start { config, source, origin }),
    {
        PreRun::Start { config, source, origin }
    }

    /// Takes the next step.
    pub fn step(self, world: &mut World, reply: Reply) -> (r: (PreRun, Effect))
        ensures
            self@ is Start && reply is Done ==> final(world)@ == old(world)@ && self@.begins(
                old(world)@,
                r.0@,
                r.1@,
            ),
            !(self@ is Start && reply is Done) ==> (r.0@, final(world)@, r.1@) == self@.next(
                old(world)@,
                reply,
            ),
    {
        match (self, reply) {
            (PreRun::Start { config, source, origin }, Reply::Done) => {
                if !world.platform.is_android() || config.no_tun {
                    let id = config.id;
                    return (PreRun::Reading { id, source }, Effect::ReadConfig(config));
                }
                if !world.intent.enabled() {
                    return (
                        PreRun::Over,
                        Effect::Finish(Err(GuiError::MobileConnectionStopped)),
                    );
                }
                let active = world.manager.get_enabled_instances_with_tun_ids();
                if source.is_web_like() && any_user_owned(&world.manager, &active) {
                    return (PreRun::Over, Effect::Finish(Err(GuiError::UserVpnActive)));
                }
                let other = without(&active, config.id);
                if other.len() == 0 {
                    let id = config.id;
                    return (PreRun::Reading { id, source }, Effect::ReadConfig(config));
                }
                match origin {
                    RunOrigin::ConfigServer => {
                        let ids = copy_ids(&other);
                        (
                            PreRun::Inspecting { config, source, other },
                            Effect::Instances { call: InstanceCall::Inspect, ids },
                        )
                    },
                    RunOrigin::Local => {
                        let id = other[0];
                        (
                            PreRun::Stopping { config, source, other, next: 0 },
                            Effect::SetNetworkState { id, disabled: true },
                        )
                    },
                }
            },
            (PreRun::Inspecting { .. }, Reply::Deletable(None)) => (
                PreRun::Over,
                Effect::Finish(Err(GuiError::LocalInstancesUnavailable)),
            ),
            (PreRun::Inspecting { config, source, other }, Reply::Deletable(Some(records))) => {
                if records.len() != other.len() {
                    return (PreRun::Over, Effect::Finish(Err(GuiError::UnexpectedReply)));
                }
                let fixed = find_fixed(&records);
                if fixed < records.len() {
                    return (
                        PreRun::Over,
                        Effect::Finish(Err(GuiError::CannotStop(other[fixed]))),
                    );
                }
                let ids = copy_ids(&other);
                (
                    PreRun::Deleting { config, source, other },
                    Effect::Instances { call: InstanceCall::Delete, ids },
                )
            },
            (PreRun::Deleting { config, source, other }, Reply::Outcome(Ok(()))) => {
                world.manager.storage.disable_networks(&other);
                (PreRun::Recording { config, source }, Effect::Emit(GuiEvent::SaveEnabledNetworks))
            },
            (PreRun::Recording { config, source }, Reply::Outcome(Ok(()))) => {
                let id = config.id;
                (PreRun::Reading { id, source }, Effect::ReadConfig(config))
            },
            (PreRun::Stopping { config, source, other, next }, Reply::Outcome(Ok(()))) => {
                if next < other.len() && next + 1 < other.len() {
                    let id = other[next + 1];
                    (
                        PreRun::Stopping { config, source, other, next: next + 1 },
                        Effect::SetNetworkState { id, disabled: true },
                    )
                } else {
                    let id = config.id;
                    (PreRun::Reading { id, source }, Effect::ReadConfig(config))
                }
            },
            (PreRun::Reading { id, source }, Reply::Config(Ok(config))) => {
                world.manager.storage.save_config(id, config, source);
                (PreRun::Saving { id }, Effect::Emit(GuiEvent::SaveConfigs))
            },
            (PreRun::Reading { .. }, Reply::Config(Err(words))) => (PreRun::Over, fail(words)),
            (PreRun::Saving { id }, Reply::Outcome(Ok(()))) => (
                PreRun::Announcing,
                Effect::Emit(GuiEvent::PreRunNetworkInstance(id)),
            ),
            (PreRun::Announcing, Reply::Outcome(outcome)) => (PreRun::Over, finish(outcome)),
            (
                PreRun::Deleting { .. }
                | PreRun::Recording { .. }
                | PreRun::Stopping { .. }
                | PreRun::Saving { .. },
                Reply::Outcome(Err(words)),
            ) => (PreRun::Over, fail(words)),
            _ => (PreRun::Over, Effect::Finish(Err(GuiError::UnexpectedReply))),
        }
    }
}

/// A run of the preparation of a network, step by step. `worlds[i]` is the state
/// that step `i` finds, `replies[i]` the reply that it gets and `effects[i]` the
/// effect that it asks for; `flows[i]` is the preparation before step `i`. Between
/// two steps other requests may change the state in any way.
pub struct PreRunTrace {
    pub flows: Seq<PreRunView>,
    pub worlds: Seq<WorldView>,
    pub replies: Seq<Reply>,
    pub effects: Seq<EffectView>,
}

impl PreRunTrace {
    /// Whether step `i` is one that the preparation can take.
    pub open spec fn steps(self, i: int) -> bool {
        if self.flows[i] is Start && self.replies[i] is Done {
            self.flows[i].begins(self.worlds[i], self.flows[i + 1], self.effects[i])
        } else {
            let (after, _, effect) = self.flows[i].next(self.worlds[i], self.replies[i]);
            self.flows[i + 1] == after && self.effects[i] == effect
        }
    }

    /// Whether these are the first steps of the preparation of the network `config`.
    pub open spec fn prepares(
        self,
        config: TomlConfig,
        source: PersistedConfigSource,
        origin: RunOrigin,
    ) -> bool {
        &&& self.worlds.len() == self.effects.len()
        &&& self.replies.len() == self.effects.len()
        &&& self.flows.len() == self.effects.len() + 1
        &&& self.flows[0] == (PreRunView::Start { config, source, origin })
        &&& forall|i: int| 0 <= i < self.effects.len() ==> #[trigger] self.steps(i)
    }

    /// Whether step `j` asks for the network `id` to be stopped.
    pub open spec fn asks_to_stop(self, j: int, id: u128) -> bool {
        ||| self.effects[j] == EffectView::Perform(Effect::SetNetworkState { id, disabled: true })
        ||| (self.effects[j] matches EffectView::Instances(InstanceCall::Delete, ids)
            && ids.contains(id))
    }

    /// Whether a step before step `i` learns that the network `id` has been stopped.
    pub open spec fn has_stopped(self, i: int, id: u128) -> bool {
        exists|j: int|
            0 <= j && j + 1 < i && #[trigger] self.asks_to_stop(j, id) && (self.replies[j + 1]
                matches Reply::Outcome(Ok(())))
    }

    /// Whether all of `ids` have been stopped before step `i`.
    pub open spec fn has_stopped_all(self, i: int, ids: Seq<u128>) -> bool {
        forall|id: u128| #[trigger] ids.contains(id) ==> self.has_stopped(i, id)
    }

    /// What is known before step `i`, where `other` are the networks to be stopped.
    spec fn on_the_way(self, i: int, other: Seq<u128>) -> bool {
        match self.flows[i] {
            PreRunView::Start { .. } => false,
            PreRunView::Inspecting { other: o, .. } => o == other,
            PreRunView::Deleting { other: o, .. } => o == other && self.effects[i - 1]
                == EffectView::Instances(InstanceCall::Delete, other),
            PreRunView::Stopping { other: o, next, .. } => {
                &&& o == other
                &&& 0 <= next < other.len()
                &&& self.effects[i - 1] == EffectView::Perform(
                    Effect::SetNetworkState { id: other[next], disabled: true },
                )
                &&& forall|k: int| 0 <= k < next ==> #[trigger] self.has_stopped(i, other[k])
            },
            PreRunView::Recording { .. }
            | PreRunView::Reading { .. }
            | PreRunView::Saving { .. }
            | PreRunView::Announcing => self.has_stopped_all(i, other),
            PreRunView::Over => self.effects[i - 1] == succeed() ==> self.has_stopped_all(
                i,
                other,
            ),
        }
    }
}

/// What has been stopped before one step has been stopped before the next.
proof fn lemma_stopped_stays_stopped(t: PreRunTrace, i: int, id: u128)
    requires
        t.has_stopped(i, id),
    ensures
        t.has_stopped(i + 1, id),
{
    let j = choose|j: int|
        0 <= j && j + 1 < i && #[trigger] t.asks_to_stop(j, id) && (t.replies[j + 1]
            matches Reply::Outcome(Ok(())));
    assert(t.asks_to_stop(j, id));
}

/// One step further on the way.
proof fn lemma_one_step_on(t: PreRunTrace, i: int, other: Seq<u128>)
    requires
        1 <= i < t.effects.len(),
        t.flows.len() == t.effects.len() + 1,
        t.steps(i),
        t.on_the_way(i, other),
    ensures
        t.on_the_way(i + 1, other),
{
    assert forall|id: u128| t.has_stopped(i, id) implies #[trigger] t.has_stopped(i + 1, id) by {
        lemma_stopped_stays_stopped(t, i, id);
    }
    match (t.flows[i], t.replies[i]) {
        (PreRunView::Deleting { .. }, Reply::Outcome(Ok(()))) => {
            assert forall|id: u128| #[trigger] other.contains(id) implies t.has_stopped(
                i + 1,
                id,
            ) by {
                assert(t.asks_to_stop(i - 1, id));
            }
        },
        (PreRunView::Stopping { next, .. }, Reply::Outcome(Ok(()))) => {
            assert(t.asks_to_stop(i - 1, other[next]));
            assert(t.has_stopped(i + 1, other[next]));
            if next + 1 >= other.len() {
                assert forall|id: u128| #[trigger] other.contains(id) implies t.has_stopped(
                    i + 1,
                    id,
                ) by {
                    let k = choose|k: int| 0 <= k < other.len() && other[k] == id;
                    if k < next {
                        assert(t.has_stopped(i, other[k]));
                    }
                }
            }
        },
        _ => {},
    }
}

/// The networks other than `id` are those of `active` that differ from it.
proof fn lemma_others(active: Seq<u128>, id: u128, other: u128)
    ensures
        others(active, id).contains(other) <==> active.contains(other) && other != id,
{
    let rest = others(active, id);
    if rest.contains(other) {
        active.lemma_filter_contains_rev(other_than(id), other);
        let k = choose|k: int| 0 <= k < rest.len() && rest[k] == other;
        active.lemma_filter_pred(other_than(id), k);
    }
    if active.contains(other) && other != id {
        let k = choose|k: int| 0 <= k < active.len() && active[k] == other;
        active.lemma_filter_contains(other_than(id), k);
    }
}

/// On Android a network with a TUN device is announced, its configuration is
/// stored and its preparation succeeds only after every other enabled network
/// with a TUN device has been stopped: the core has deleted it, or the client
/// manager has disabled it. This holds whatever other requests do meanwhile.
pub proof fn other_networks_are_stopped_first(
    t: PreRunTrace,
    config: TomlConfig,
    source: PersistedConfigSource,
    origin: RunOrigin,
    k: int,
    other: u128,
)
    requires
        t.prepares(config, source, origin),
        t.worlds.len() > 0 && t.replies[0] is Done,
        t.worlds[0].platform is Android && !config.no_tun,
        t.worlds[0].storage.is_tun(false, other) && other != config.id,
        0 <= k < t.effects.len(),
        t.effects[k] == succeed() || t.effects[k] == EffectView::Perform(Effect::ReadConfig(config))
            || t.effects[k] == EffectView::Perform(Effect::Emit(GuiEvent::SaveConfigs))
            || t.effects[k] == EffectView::Perform(
            Effect::Emit(GuiEvent::PreRunNetworkInstance(config.id)),
        ),
    ensures
        t.has_stopped(k + 1, other),
{
    assert(t.steps(0));
    let storage = t.worlds[0].storage;
    let rest = if wants_connection(t.worlds[0].intent) {
        let active = choose|active: Seq<u128>| #[trigger]
            storage.lists_tun(false, active) && (t.flows[1], t.effects[0]) == make_way(
                config,
                source,
                origin,
                storage,
                active,
            );
        tun_listings_are_complete(storage, false, active);
        assert(active.contains(other));
        lemma_others(active, config.id, other);
        others(active, config.id)
    } else {
        seq![other]
    };
    assert(rest.contains(other)) by {
        assert(seq![other][0] == other);
    }
    assert(t.on_the_way(1, rest));
    lemma_on_the_way(t, config, source, origin, rest, k + 1);
    assert(t.steps(k));
}

/// The preparation stays on the way.
proof fn lemma_on_the_way(
    t: PreRunTrace,
    config: TomlConfig,
    source: PersistedConfigSource,
    origin: RunOrigin,
    other: Seq<u128>,
    i: int,
)
    requires
        t.prepares(config, source, origin),
        1 <= i <= t.effects.len(),
        t.on_the_way(1, other),
    ensures
        t.on_the_way(i, other),
    decreases i,
{
    if i > 1 {
        lemma_on_the_way(t, config, source, origin, other, i - 1);
        assert(t.steps(i - 1));
        lemma_one_step_on(t, i - 1, other);
    }
}

/// While the user has stopped the mobile connection, preparing a network with a
/// TUN device on Android does nothing but fail.
pub proof fn stopped_networks_are_not_prepared(
    flow: PreRunView,
    world: WorldView,
    after: PreRunView,
    effect: EffectView,
)
    requires
        flow is Start,
        flow.begins(world, after, effect),
        world.platform is Android && !flow->Start_config.no_tun,
        !wants_connection(world.intent),
    ensures
        after is Over,
        effect == refuse(GuiError::MobileConnectionStopped),
{
}

/// The configuration server does not take the place of a VPN that is not its own:
/// where one is enabled on Android, the same network even, preparing a network
/// with a TUN device for the server does nothing but fail.
pub proof fn user_networks_are_not_replaced(
    flow: PreRunView,
    world: WorldView,
    after: PreRunView,
    effect: EffectView,
    owned: u128,
)
    requires
        flow is Start,
        flow.begins(world, after, effect),
        world.platform is Android && !flow->Start_config.no_tun,
        wants_connection(world.intent),
        flow->Start_source is Web,
        world.storage.is_tun(false, owned),
        world.storage.configs.dom().contains(owned),
        !(world.storage.configs[owned].source is Web),
    ensures
        after is Over,
        effect == refuse(GuiError::UserVpnActive),
{
    let active = choose|active: Seq<u128>| #[trigger]
        world.storage.lists_tun(false, active) && (after, effect) == make_way(
            flow->Start_config,
            flow->Start_source,
            flow->Start_origin,
            world.storage,
            active,
        );
    tun_listings_are_complete(world.storage, false, active);
    assert(active.contains(owned));
    let k = choose|k: int| 0 <= k < active.len() && active[k] == owned;
    assert(world.storage.configs.dom().contains(active[k]));
}

impl PreRunTrace {
    /// What is stored when step `i` is done.
    pub open spec fn leaves(self, i: int) -> StorageView {
        if self.flows[i] is Start && self.replies[i] is Done {
            self.worlds[i].storage
        } else {
            self.flows[i].next(self.worlds[i], self.replies[i]).1.storage
        }
    }

    /// Whether step `i + 1` finds stored what step `i` left, with the network disabled
    /// that was stopped between them.
    pub open spec fn hands_on(self, i: int) -> bool {
        match self.effects[i] {
            EffectView::Perform(Effect::SetNetworkState { id, disabled: true }) => (
            self.replies[i + 1] matches Reply::Outcome(Ok(()))) ==> self.worlds[i + 1].storage
                == self.leaves(i).switched(id, true),
            _ => self.worlds[i + 1].storage == self.leaves(i),
        }
    }

    /// Whether nothing else is stored while the network is being prepared.
    pub open spec fn undisturbed(self) -> bool {
        forall|i: int| 0 <= i && i + 1 < self.effects.len() ==> #[trigger] self.hands_on(i)
    }

    /// Whether a step before step `i` gets the configuration `config`.
    pub open spec fn has_read(self, i: int, config: NetworkConfig) -> bool {
        exists|j: int| 0 <= j < i && #[trigger] self.replies[j] == Reply::Config(Ok(config))
    }

    /// Whether the steps before step `i` have led from what was stored at first to
    /// `storage`: the networks `other` are disabled, and a configuration that was
    /// read is saved.
    pub open spec fn has_saved(
        self,
        i: int,
        storage: StorageView,
        id: u128,
        source: PersistedConfigSource,
        other: Seq<u128>,
    ) -> bool {
        exists|config: NetworkConfig| #[trigger]
            self.has_read(i, config) && storage == self.worlds[0].storage.disabled(
                other.to_set(),
            ).saved(id, config, source)
    }

    /// What step `i` finds stored, where `other` are the networks to be stopped.
    spec fn finds(
        self,
        i: int,
        config: TomlConfig,
        source: PersistedConfigSource,
        other: Seq<u128>,
    ) -> bool {
        let first = self.worlds[0].storage;
        let now = self.worlds[i].storage;
        match self.flows[i] {
            PreRunView::Start { .. } => false,
            PreRunView::Inspecting { config: c, source: s, other: o }
            | PreRunView::Deleting { config: c, source: s, other: o } => {
                &&& c == config && s == source && o == other
                &&& now == first
            },
            PreRunView::Recording { config: c, source: s } => {
                &&& c == config && s == source
                &&& now == first.disabled(other.to_set())
            },
            PreRunView::Stopping { config: c, source: s, other: o, next } => {
                &&& c == config && s == source && o == other
                &&& 0 <= next < other.len()
                &&& (self.replies[i] matches Reply::Outcome(Ok(()))) ==> now == first.disabled(
                    other.take(next + 1).to_set(),
                )
            },
            PreRunView::Reading { id, source: s } => {
                &&& id == config.id && s == source
                &&& now == first.disabled(other.to_set())
            },
            PreRunView::Saving { id } => id == config.id && self.has_saved(
                i,
                now,
                config.id,
                source,
                other,
            ),
            PreRunView::Announcing => self.has_saved(i, now, config.id, source, other),
            PreRunView::Over => true,
        }
    }
}

/// What the next step finds stored.
proof fn lemma_next_finds(
    t: PreRunTrace,
    config: TomlConfig,
    source: PersistedConfigSource,
    other: Seq<u128>,
    i: int,
)
    requires
        1 <= i,
        i + 1 < t.effects.len(),
        t.flows.len() == t.effects.len() + 1,
        t.steps(i),
        t.hands_on(i),
        t.finds(i, config, source, other),
    ensures
        t.finds(i + 1, config, source, other),
{
    let first = t.worlds[0].storage;
    match (t.flows[i], t.replies[i]) {
        (PreRunView::Stopping { next, .. }, Reply::Outcome(Ok(()))) => {
            assert(other.take(other.len() as int) =~= other);
            if next + 1 < other.len() {
                lemma_take_set(other, next + 1);
                assert(first.disabled(other.take(next + 1).to_set()).switched(
                    other[next + 1],
                    true,
                ) =~= first.disabled(other.take(next + 2).to_set()));
            }
        },
        (PreRunView::Reading { .. }, Reply::Config(Ok(read))) => {
            assert(t.replies[i] == Reply::Config(Ok(read)));
            assert(t.has_read(i + 1, read));
        },
        (PreRunView::Saving { .. }, Reply::Outcome(Ok(()))) => {
            let read = choose|read: NetworkConfig| #[trigger]
                t.has_read(i, read) && t.worlds[i].storage == first.disabled(
                    other.to_set(),
                ).saved(config.id, read, source);
            assert(t.has_read(i + 1, read)) by {
                let j = choose|j: int|
                    0 <= j < i && #[trigger] t.replies[j] == Reply::Config(Ok(read));
                assert(t.replies[j] == Reply::Config(Ok(read)));
            }
        },
        _ => {},
    }
}

/// What every step finds stored.
proof fn lemma_finds(
    t: PreRunTrace,
    config: TomlConfig,
    source: PersistedConfigSource,
    origin: RunOrigin,
    other: Seq<u128>,
    i: int,
)
    requires
        t.prepares(config, source, origin),
        t.undisturbed(),
        1 <= i < t.effects.len(),
        t.finds(1, config, source, other),
    ensures
        t.finds(i, config, source, other),
    decreases i,
{
    if i > 1 {
        lemma_finds(t, config, source, origin, other, i - 1);
        assert(t.steps(i - 1));
        assert(t.hands_on(i - 1));
        lemma_next_finds(t, config, source, other, i - 1);
    }
}

/// What the second step finds stored, where the first one goes on with `other`.
proof fn lemma_first_finds(
    t: PreRunTrace,
    config: TomlConfig,
    source: PersistedConfigSource,
    origin: RunOrigin,
    other: Seq<u128>,
)
    requires
        t.prepares(config, source, origin),
        t.undisturbed(),
        t.effects.len() > 1,
        t.replies[0] is Done,
        (t.flows[1], t.effects[0]) == read_config(config, source) && other.len() == 0
            || t.flows[1] is Over || (exists|active: Seq<u128>|
            (t.flows[1], t.effects[0]) == #[trigger] make_way(
                config,
                source,
                origin,
                t.worlds[0].storage,
                active,
            ) && other == others(active, config.id)),
    ensures
        t.finds(1, config, source, other),
{
    let first = t.worlds[0].storage;
    assert(t.hands_on(0));
    if other.len() == 0 {
        assert(first.disabled(other.to_set()) =~= first);
    } else {
        assert(other.take(0).to_set() =~= Set::empty());
        lemma_take_set(other, 0);
        assert(first.switched(other[0], true) =~= first.disabled(other.take(1).to_set()));
    }
}

/// Off Android, or without a TUN device, preparing a network stores the
/// configuration that was read, and changes nothing else that is stored. This
/// holds where nothing else is stored meanwhile.
pub proof fn a_prepared_network_is_stored(
    t: PreRunTrace,
    config: TomlConfig,
    source: PersistedConfigSource,
    origin: RunOrigin,
    k: int,
)
    requires
        t.prepares(config, source, origin),
        t.undisturbed(),
        0 <= k < t.effects.len(),
        t.replies[0] is Done,
        !(t.worlds[0].platform is Android) || config.no_tun,
        t.effects[k] == succeed(),
    ensures
        exists|read: NetworkConfig| #[trigger]
            t.has_read(k, read) && t.worlds[k].storage == t.worlds[0].storage.saved(
                config.id,
                read,
                source,
            ),
{
    assert(t.steps(0));
    assert(t.steps(k));
    let none = Seq::<u128>::empty();
    lemma_first_finds(t, config, source, origin, none);
    lemma_finds(t, config, source, origin, none, k);
    assert(t.worlds[0].storage.disabled(none.to_set()) =~= t.worlds[0].storage);
    assert(t.has_saved(k, t.worlds[k].storage, config.id, source, none));
}

/// On Android, once a network with a TUN device has been prepared, no other
/// network with one is enabled, and every network without one is enabled as
/// before. This holds where nothing else is stored meanwhile, every network is
/// stored under the id that it spells, and the configuration that was read spells
/// the id of the network.
pub proof fn only_the_prepared_network_has_a_device(
    t: PreRunTrace,
    config: TomlConfig,
    source: PersistedConfigSource,
    origin: RunOrigin,
    k: int,
)
    requires
        t.prepares(config, source, origin),
        t.undisturbed(),
        0 <= k < t.effects.len(),
        t.replies[0] is Done,
        t.worlds[0].platform is Android && !config.no_tun,
        t.worlds[0].storage.spells_its_ids(),
        forall|read: NetworkConfig| #[trigger]
            t.has_read(k, read) ==> parsed_uuid(read.instance_id@) == Ok::<u128, Seq<char>>(
                config.id,
            ),
        t.effects[k] == succeed(),
    ensures
        forall|id: u128| #[trigger] t.worlds[k].storage.is_tun(false, id) ==> id == config.id,
        forall|key: u128| #[trigger]
            t.worlds[0].storage.configs.dom().contains(key) && t.worlds[0].storage.enabled.contains(
                key,
            ) && t.worlds[0].storage.configs[key].config.no_tun
                ==> t.worlds[k].storage.enabled.contains(key),
        t.worlds[k].storage.configs.dom() == t.worlds[0].storage.configs.dom().insert(config.id),
        t.worlds[k].storage.spells_its_ids(),
{
    let first = t.worlds[0].storage;
    let last = t.worlds[k].storage;
    assert(t.steps(0));
    assert(t.steps(k));
    let active = choose|active: Seq<u128>| #[trigger]
        first.lists_tun(false, active) && (t.flows[1], t.effects[0]) == make_way(
            config,
            source,
            origin,
            first,
            active,
        );
    let other = others(active, config.id);
    if !wants_connection(t.worlds[0].intent) {
        lemma_over_stays_over(t, config, source, origin, k);
    }
    tun_listings_are_complete(first, false, active);
    lemma_first_finds(t, config, source, origin, other);
    lemma_finds(t, config, source, origin, other, k);
    assert(t.has_saved(k, last, config.id, source, other));
    let read = choose|read: NetworkConfig| #[trigger]
        t.has_read(k, read) && last == first.disabled(other.to_set()).saved(
            config.id,
            read,
            source,
        );
    assert(last.configs.dom() =~= first.configs.dom().insert(config.id));
    assert forall|key: u128| #[trigger] last.configs.dom().contains(key) implies last.spells(
        key,
    ) by {
        if key != config.id {
            assert(first.configs.dom().contains(key));
            assert(first.spells(key));
        }
    }
    assert forall|id: u128| #[trigger] last.is_tun(false, id) implies id == config.id by {
        let key = choose|key: u128| #[trigger]
            last.configs.dom().contains(key) && last.tun_id(key, false) == Some(id);
        assert(last.spells(key));
        if key != config.id {
            assert(first.configs.dom().contains(key));
            assert(first.spells(key));
            assert(first.tun_id(key, false) == Some(key));
            assert(first.is_tun(false, key));
            assert(active.contains(key));
            lemma_others(active, config.id, key);
            assert(other.to_set().contains(key));
        }
    }
    assert forall|key: u128| #[trigger]
        first.configs.dom().contains(key) && first.enabled.contains(key)
            && first.configs[key].config.no_tun implies last.enabled.contains(key) by {
        assert(first.spells(key));
        if other.contains(key) {
            lemma_others(active, config.id, key);
            assert(active.contains(key));
            assert(first.is_tun(false, key));
            let at = choose|at: u128| #[trigger]
                first.configs.dom().contains(at) && first.tun_id(at, false) == Some(key);
            assert(first.spells(at));
        }
    }
}

/// A preparation that has ended does not succeed any more.
proof fn lemma_over_stays_over(
    t: PreRunTrace,
    config: TomlConfig,
    source: PersistedConfigSource,
    origin: RunOrigin,
    i: int,
)
    requires
        t.prepares(config, source, origin),
        1 <= i < t.effects.len(),
        t.flows[1] is Over,
    ensures
        t.flows[i] is Over,
        t.effects[i] == out_of_turn(),
    decreases i,
{
    assert(t.steps(i));
    if i > 1 {
        lemma_over_stays_over(t, config, source, origin, i - 1);
        assert(t.steps(i - 1));
    }
}

/// How a preparation begins. It is refused in two cases and no other: on Android a
/// network with a TUN device is, where the user has stopped the mobile connection;
/// and there, where the connection is wanted, one of the configuration server is,
/// where an enabled network with a TUN device is stored as someone else's. So one
/// that the user runs is never refused for another network. Otherwise the
/// configuration is read at once where no other enabled network has a TUN device,
/// or none plays a part; else the others, and only they, are inspected for the
/// configuration server, or stopped one by one.
pub proof fn only_the_server_makes_way_for_the_user(
    config: TomlConfig,
    source: PersistedConfigSource,
    origin: RunOrigin,
    world: WorldView,
    after: PreRunView,
    effect: EffectView,
)
    requires
        (PreRunView::Start { config, source, origin }).begins(world, after, effect),
    ensures
        ({
            let storage = world.storage;
            let device = world.platform is Android && !config.no_tun;
            let stopped = device && !wants_connection(world.intent);
            let owned = device && source is Web && exists|id: u128| #[trigger]
                storage.is_tun(false, id) && storage.configs.dom().contains(id) && !(
                storage.configs[id].source is Web);
            let busy = device && exists|id: u128| #[trigger]
                storage.is_tun(false, id) && id != config.id;
            let exactly_the_others = |ids: Seq<u128>|
                forall|id: u128| #[trigger]
                    ids.contains(id) <==> storage.is_tun(false, id) && id != config.id;
            &&& stopped ==> effect == refuse(GuiError::MobileConnectionStopped)
            &&& !stopped && owned ==> effect == refuse(GuiError::UserVpnActive)
            &&& effect is Finish <==> stopped || owned
            &&& !stopped && !owned && !busy ==> {
                &&& effect == EffectView::Perform(Effect::ReadConfig(config))
                &&& after == (PreRunView::Reading { id: config.id, source })
            }
            &&& !stopped && !owned && busy && origin is ConfigServer ==> {
                &&& (effect matches EffectView::Instances(InstanceCall::Inspect, ids) && after == (
                PreRunView::Inspecting { config, source, other: ids }) && exactly_the_others(ids))
            }
            &&& !stopped && !owned && busy && origin is Local ==> {
                &&& (after matches PreRunView::Stopping { config: c, source: s, other, next } && c
                    == config && s == source && next == 0 && exactly_the_others(other) && effect
                    == EffectView::Perform(
                    Effect::SetNetworkState { id: other[0], disabled: true },
                ))
            }
        }),
{
    let storage = world.storage;
    if world.platform is Android && !config.no_tun && wants_connection(world.intent) {
        let active = choose|active: Seq<u128>| #[trigger]
            storage.lists_tun(false, active) && (after, effect) == make_way(
                config,
                source,
                origin,
                storage,
                active,
            );
        let other = others(active, config.id);
        tun_listings_are_complete(storage, false, active);
        assert forall|id: u128| #[trigger] other.contains(id) <==> storage.is_tun(false, id) && id
            != config.id by {
            lemma_others(active, config.id, id);
            assert(active.contains(id) <==> storage.is_tun(false, id));
        }
        if other.len() > 0 {
            assert(other.contains(other[0]));
            assert(storage.is_tun(false, other[0]));
        }
        assert forall|id: u128| #[trigger] storage.is_tun(false, id) && id
            != config.id implies other.len() > 0 by {
            assert(other.contains(id));
        }
        if user_owned_among(storage, active) {
            let i = choose|i: int|
                0 <= i < active.len() && storage.configs.dom().contains(#[trigger] active[i]) && !(
                storage.configs[active[i]].source is Web);
            assert(active.contains(active[i]));
            assert(storage.is_tun(false, active[i]));
        }
        assert forall|id: u128| #[trigger]
            storage.is_tun(false, id) && storage.configs.dom().contains(id) && !(
            storage.configs[id].source is Web) implies user_owned_among(storage, active) by {
            assert(active.contains(id));
            let i = choose|i: int| 0 <= i < active.len() && active[i] == id;
            assert(storage.configs.dom().contains(active[i]));
        }
    }
}

/// The position that [`first_fixed`] finds.
proof fn lemma_first_fixed(records: Seq<Option<bool>>, from: int)
    requires
        0 <= from <= records.len(),
    ensures
        from <= first_fixed(records, from) <= records.len(),
        forall|k: int| from <= k < first_fixed(records, from) ==> #[trigger] records[k] != Some(
            false,
        ),
        first_fixed(records, from) < records.len() ==> records[first_fixed(records, from)] == Some(
            false,
        ),
    decreases records.len() - from,
{
    if from < records.len() && may_stop(records[from]) {
        lemma_first_fixed(records, from + 1);
    }
}

/// For the configuration server the other networks are stopped together. The
/// preparation ends, with nothing stopped, where the core holds no instances, or at
/// the first network that may not be stopped; otherwise all of them are deleted, and
/// when they are, just they are no longer enabled, this is made known, and the
/// configuration is read. What fails on the way ends it with its words.
pub proof fn the_server_stops_the_others_together(
    config: TomlConfig,
    source: PersistedConfigSource,
    other: Seq<u128>,
    records: Vec<Option<bool>>,
    fixed: int,
    words: String,
    w: Seq<WorldView>,
)
    requires
        w.len() == 3,
        records@.len() == other.len(),
    ensures
        ({
            let inspecting = PreRunView::Inspecting { config, source, other };
            let s0 = inspecting.next(w[0], Reply::Deletable(Some(records)));
            let s1 = s0.0.next(w[1], Reply::Outcome(Ok(())));
            let s2 = s1.0.next(w[2], Reply::Outcome(Ok(())));
            let failed = Reply::Outcome(Err(words));
            let over = EffectView::Finish(Err(words@));
            &&& inspecting.next(w[0], Reply::Deletable(None)).2 == refuse(
                GuiError::LocalInstancesUnavailable,
            )
            &&& s0.1 == w[0]
            &&& 0 <= fixed < other.len() && records@[fixed] == Some(false) && (forall|k: int|
                0 <= k < fixed ==> #[trigger] records@[k] != Some(false)) ==> s0.2 == refuse(
                GuiError::CannotStop(other[fixed]),
            )
            &&& (forall|k: int| 0 <= k < other.len() ==> #[trigger] records@[k] != Some(false))
                ==> {
                &&& s0.2 == EffectView::Instances(InstanceCall::Delete, other)
                &&& s0.0.next(w[1], failed).2 == over && s0.0.next(w[1], failed).1 == w[1]
                &&& forall|id: u128| #[trigger]
                    s1.1.storage.enabled.contains(id) <==> w[1].storage.enabled.contains(id)
                        && !other.contains(id)
                &&& s1.1.storage.configs == w[1].storage.configs
                &&& s1.1 == (WorldView { storage: s1.1.storage, ..w[1] })
                &&& s1.2 == EffectView::Perform(Effect::Emit(GuiEvent::SaveEnabledNetworks))
                &&& s1.0.next(w[2], failed).2 == over
                &&& s2.1 == w[2] && s2.2 == EffectView::Perform(Effect::ReadConfig(config))
                &&& s2.0 == (PreRunView::Reading { id: config.id, source })
            }
        }),
{
    lemma_first_fixed(records@, 0);
    let first = first_fixed(records@, 0);
    if first < records@.len() {
        assert(records@[first] == Some(false));
    }
    assert forall|id: u128| #[trigger] other.to_set().contains(id) <==> other.contains(id) by {}
}

/// Otherwise the other networks are stopped one by one, in the order of the list, to
/// the last of them; then the configuration is read. One that cannot be stopped ends
/// the preparation with its words, and the rest of the list is left alone.
pub proof fn the_others_are_stopped_one_by_one(
    config: TomlConfig,
    source: PersistedConfigSource,
    other: Seq<u128>,
    next: int,
    words: String,
    world: WorldView,
)
    requires
        0 <= next < other.len(),
    ensures
        ({
            let stopping = PreRunView::Stopping { config, source, other, next };
            let s = stopping.next(world, Reply::Outcome(Ok(())));
            let failed = stopping.next(world, Reply::Outcome(Err(words)));
            &&& s.1 == world && failed.1 == world
            &&& failed.2 == EffectView::Finish(Err(words@))
            &&& next + 1 < other.len() ==> {
                &&& s.2 == EffectView::Perform(
                    Effect::SetNetworkState { id: other[next + 1], disabled: true },
                )
                &&& s.0 == (PreRunView::Stopping { config, source, other, next: next + 1 })
            }
            &&& next + 1 == other.len() ==> {
                &&& s.2 == EffectView::Perform(Effect::ReadConfig(config))
                &&& s.0 == (PreRunView::Reading { id: config.id, source })
            }
        }),
{
}

/// How a preparation ends: the configuration that was read is stored under the id of
/// the network, in the name of whoever prepares it, but with its owner kept where it
/// was stored and is prepared as the user's; nothing else that is stored changes, nor
/// does what is enabled. This is made known, and then the network is announced. What
/// fails ends it with its words.
pub proof fn a_preparation_ends_like_this(
    id: u128,
    source: PersistedConfigSource,
    read: NetworkConfig,
    words: String,
    w0: WorldView,
    w1: WorldView,
    w2: WorldView,
)
    ensures
        ({
            let reading = PreRunView::Reading { id, source };
            let done = Reply::Outcome(Ok(()));
            let failed = Reply::Outcome(Err(words));
            let over = EffectView::Finish(Err(words@));
            let s0 = reading.next(w0, Reply::Config(Ok(read)));
            let s1 = s0.0.next(w1, done);
            let s2 = s1.0.next(w2, done);
            &&& reading.next(w0, Reply::Config(Err(words))).2 == over
            &&& reading.next(w0, Reply::Config(Err(words))).1 == w0
            &&& s0.2 == EffectView::Perform(Effect::Emit(GuiEvent::SaveConfigs))
            &&& s0.1 == (WorldView { storage: s0.1.storage, ..w0 })
            &&& s0.1.storage.enabled == w0.storage.enabled
            &&& s0.1.storage.configs.dom() == w0.storage.configs.dom().insert(id)
            &&& s0.1.storage.configs[id].config == read
            &&& s0.1.storage.configs[id].inst_id == hyphenated(id)
            &&& s0.1.storage.configs[id].source == if w0.storage.configs.dom().contains(id)
                && source is User {
                w0.storage.configs[id].source
            } else {
                source
            }
            &&& forall|key: u128|
                key != id && w0.storage.configs.dom().contains(key)
                    ==> #[trigger] s0.1.storage.configs[key] == w0.storage.configs[key]
            &&& s0.0.next(w1, failed).2 == over
            &&& s1.1 == w1
            &&& s1.2 == EffectView::Perform(Effect::Emit(GuiEvent::PreRunNetworkInstance(id)))
            &&& s1.0.next(w2, failed).2 == over
            &&& s2.1 == w2 && s2.2 == succeed()
        }),
{
}

} // verus!
