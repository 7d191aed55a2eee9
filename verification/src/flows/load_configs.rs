//! Loading what was saved, and running the networks that were enabled.

use crate::config::{
    runtime, GUIConfig, GUIConfigView, NetworkConfig, PersistedConfigSource, StoredGuiConfig,
    TomlConfig,
};
use crate::effect::{
    check_manager, fail, manager_refusal, out_of_turn, refuse, succeed, Effect, EffectView, Reply,
    RunOrigin,
};
use crate::error::{parse_instance_id, GuiError};
use crate::instance_id::parsed_uuid;
use crate::manager::GUIClientManager;
use crate::storage::StorageView;
use crate::world::{World, WorldView};
use vstd::prelude::*;

verus! {

/// The request to load `configs`, and to run those that `enabled_networks` names.
#[derive(Debug)]
pub enum LoadConfigs {
    Start { configs: Vec<StoredGuiConfig>, enabled_networks: Vec<String> },
    Opening { configs: Vec<StoredGuiConfig>, enabled_networks: Vec<String> },
    Connecting { enabled_networks: Vec<String> },
    /// A network is being run; those from `enabled_networks[next]` on come after it.
    Generating {
        enabled_networks: Vec<String>,
        next: usize,
        id: u128,
        config: NetworkConfig,
        source: PersistedConfigSource,
    },
    Preparing {
        enabled_networks: Vec<String>,
        next: usize,
        id: u128,
        config: NetworkConfig,
        source: PersistedConfigSource,
    },
    Running { enabled_networks: Vec<String>, next: usize, id: u128 },
    Completing { enabled_networks: Vec<String>, next: usize },
    Over,
}

/// What a [`LoadConfigs`] holds.
pub enum LoadConfigsView {
    Start { configs: Seq<StoredGuiConfig>, enabled_networks: Seq<String> },
    Opening { configs: Seq<StoredGuiConfig>, enabled_networks: Seq<String> },
    Connecting { enabled_networks: Seq<String> },
    Generating {
        enabled_networks: Seq<String>,
        next: int,
        id: u128,
        config: NetworkConfig,
        source: PersistedConfigSource,
    },
    Preparing {
        enabled_networks: Seq<String>,
        next: int,
        id: u128,
        config: NetworkConfig,
        source: PersistedConfigSource,
    },
    Running { enabled_networks: Seq<String>, next: int, id: u128 },
    Completing { enabled_networks: Seq<String>, next: int },
    Over,
}

impl View for LoadConfigs {
    type V = LoadConfigsView;

    open spec fn view(&self) -> LoadConfigsView {
        match *self {
            LoadConfigs::Start { configs, enabled_networks } => LoadConfigsView::Start {
                configs: configs@,
                enabled_networks: enabled_networks@,
            },
            LoadConfigs::Opening { configs, enabled_networks } => LoadConfigsView::Opening {
                configs: configs@,
                enabled_networks: enabled_networks@,
            },
            LoadConfigs::Connecting { enabled_networks } => LoadConfigsView::Connecting {
                enabled_networks: enabled_networks@,
            },
            LoadConfigs::Generating { enabled_networks, next, id, config, source } =>
                LoadConfigsView::Generating {
                enabled_networks: enabled_networks@,
                next: next as int,
                id,
                config,
                source,
            },
            LoadConfigs::Preparing { enabled_networks, next, id, config, source } =>
                LoadConfigsView::Preparing {
                enabled_networks: enabled_networks@,
                next: next as int,
                id,
                config,
                source,
            },
            LoadConfigs::Running { enabled_networks, next, id } => LoadConfigsView::Running {
                enabled_networks: enabled_networks@,
                next: next as int,
                id,
            },
            LoadConfigs::Completing { enabled_networks, next } => LoadConfigsView::Completing {
                enabled_networks: enabled_networks@,
                next: next as int,
            },
            LoadConfigs::Over => LoadConfigsView::Over,
        }
    }
}

/// The id that a saved configuration spells, or why it spells none.
pub open spec fn spelled_id(stored: StoredGuiConfig) -> Result<u128, Seq<char>> {
    parsed_uuid(stored.config.instance_id@)
}

/// The first position, from `from` on, at which `configs` holds a configuration
/// that spells no id; their number where there is none.
pub open spec fn first_without_id(configs: Seq<StoredGuiConfig>, from: int) -> int
    decreases configs.len() - from,
{
    if 0 <= from < configs.len() && spelled_id(configs[from]) is Ok {
        first_without_id(configs, from + 1)
    } else {
        from
    }
}

/// What is stored once `configs`, which all spell an id, have been loaded in
/// order: each under the id that it spells, a later one in place of an earlier one.
pub open spec fn loaded(configs: Seq<StoredGuiConfig>) -> Map<u128, GUIConfigView>
    decreases configs.len(),
{
    if configs.len() == 0 {
        Map::empty()
    } else {
        let last = configs.last();
        loaded(configs.drop_last()).insert(
            spelled_id(last)->Ok_0,
            GUIConfigView {
                inst_id: last.config.instance_id@,
                config: last.config,
                source: last.source,
            },
        )
    }
}

/// Whether `text` names a network that is to be run: one that is stored, and not
/// enabled yet.
pub open spec fn to_be_run(storage: StorageView, text: Seq<char>) -> bool {
    parsed_uuid(text) matches Ok(id) && !storage.enabled.contains(id)
        && storage.configs.dom().contains(id)
}

/// The first position, from `from` on, at which `texts` names a network that is
/// to be run; their number where there is none.
pub open spec fn first_to_be_run(storage: StorageView, texts: Seq<String>, from: int) -> int
    decreases texts.len() - from,
{
    if 0 <= from < texts.len() && !to_be_run(storage, texts[from]@) {
        first_to_be_run(storage, texts, from + 1)
    } else {
        from
    }
}

impl LoadConfigsView {
    /// Goes on to the next network that is to be run, from `texts[from]` on.
    pub open spec fn advance(storage: StorageView, texts: Seq<String>, from: int) -> (
        LoadConfigsView,
        EffectView,
    ) {
        let at = first_to_be_run(storage, texts, from);
        if at < texts.len() {
            let id = parsed_uuid(texts[at]@)->Ok_0;
            let config = storage.configs[id].config;
            (
                LoadConfigsView::Generating {
                    enabled_networks: texts,
                    next: at + 1,
                    id,
                    config,
                    source: storage.configs[id].source,
                },
                EffectView::Perform(Effect::GenerateConfig(config)),
            )
        } else {
            (LoadConfigsView::Over, succeed())
        }
    }

    /// The next step. Loading stops at the first configuration that spells no id,
    /// with what was enabled before still enabled. Otherwise no network is enabled
    /// until it has been run.
    pub open spec fn next(self, world: WorldView, reply: Reply) -> (
        LoadConfigsView,
        WorldView,
        EffectView,
    ) {
        match (self, reply) {
            (LoadConfigsView::Start { configs, enabled_networks }, Reply::Done) => (
                LoadConfigsView::Opening { configs, enabled_networks },
                world,
                EffectView::Perform(Effect::OpenManager),
            ),
            (
                LoadConfigsView::Opening { configs, enabled_networks },
                Reply::Answer(locked),
            ) => match manager_refusal(world, locked) {
                Some(error) => (LoadConfigsView::Over, world, refuse(error)),
                None => {
                    let bad = first_without_id(configs, 0);
                    if bad < configs.len() {
                        (
                            LoadConfigsView::Over,
                            WorldView {
                                storage: StorageView {
                                    configs: loaded(configs.take(bad)),
                                    enabled: world.storage.enabled,
                                },
                                ..world
                            },
                            EffectView::Finish(Err(spelled_id(configs[bad])->Err_0)),
                        )
                    } else {
                        (
                            LoadConfigsView::Connecting { enabled_networks },
                            WorldView {
                                storage: StorageView {
                                    configs: loaded(configs),
                                    enabled: Set::empty(),
                                },
                                ..world
                            },
                            EffectView::Perform(Effect::OpenRpcClient),
                        )
                    }
                },
            },
            (
                LoadConfigsView::Connecting { enabled_networks },
                Reply::Answer(found),
            ) => if found {
                let (after, effect) = LoadConfigsView::advance(world.storage, enabled_networks, 0);
                (after, world, effect)
            } else {
                (LoadConfigsView::Over, world, refuse(GuiError::RpcClientMissing))
            },
            (
                LoadConfigsView::Generating { enabled_networks, next, id, config, source },
                Reply::Generated(Ok(toml)),
            ) => (
                LoadConfigsView::Preparing { enabled_networks, next, id, config, source },
                world,
                EffectView::Perform(Effect::PreRun { toml, source, origin: RunOrigin::Local }),
            ),
            (LoadConfigsView::Generating { .. }, Reply::Generated(Err(words))) => (
                LoadConfigsView::Over,
                world,
                EffectView::Finish(Err(words@)),
            ),
            (
                LoadConfigsView::Preparing { enabled_networks, next, id, config, source },
                Reply::Outcome(Ok(())),
            ) => (
                LoadConfigsView::Running { enabled_networks, next, id },
                world,
                EffectView::Perform(
                    Effect::RunStored {
                        config,
                        reported: runtime(source),
                        inst_id: None,
                        overwrite: false,
                    },
                ),
            ),
            (
                LoadConfigsView::Running { enabled_networks, next, id },
                Reply::Outcome(Ok(())),
            ) => (
                LoadConfigsView::Completing { enabled_networks, next },
                world,
                EffectView::Perform(Effect::PostRun(id)),
            ),
            (
                LoadConfigsView::Completing { enabled_networks, next },
                Reply::Outcome(Ok(())),
            ) => {
                let (after, effect) = LoadConfigsView::advance(
                    world.storage,
                    enabled_networks,
                    next,
                );
                (after, world, effect)
            },
            (
                LoadConfigsView::Preparing { .. }
                | LoadConfigsView::Running { .. }
                | LoadConfigsView::Completing { .. },
                Reply::Outcome(Err(words)),
            ) => (LoadConfigsView::Over, world, EffectView::Finish(Err(words@))),
            _ => (LoadConfigsView::Over, world, out_of_turn()),
        }
    }
}

/// Forgets what is stored, and stores `configs` instead, up to the first that
/// spells no id. The result tells why that one spells none.
fn store_all(manager: &mut GUIClientManager, configs: Vec<StoredGuiConfig>) -> (r: Option<
    GuiError,
>)
    ensures
        final(manager)@ == (StorageView {
            configs: loaded(configs@.take(first_without_id(configs@, 0))),
            enabled: old(manager)@.enabled,
        }),
        0 <= first_without_id(configs@, 0) <= configs@.len(),
        r is None <==> first_without_id(configs@, 0) == configs@.len(),
        r matches Some(error) ==> error.words() == spelled_id(
            configs@[first_without_id(configs@, 0)],
        )->Err_0,
{
    manager.storage.forget_configs();
    let mut i: usize = 0;
    while i < configs.len()
        invariant
            i <= configs@.len(),
            first_without_id(configs@, 0) == first_without_id(configs@, i as int),
            manager@ == (StorageView {
                configs: loaded(configs@.take(i as int)),
                enabled: old(manager)@.enabled,
            }),
        decreases configs@.len() - i,
    {
        let stored = &configs[i];
        let id = match parse_instance_id(stored.config.instance_id.as_str()) {
            Ok(id) => id,
            Err(error) => return Some(error),
        };
        manager.storage.restore_config(
            id,
            GUIConfig::new(
                stored.config.instance_id.clone(),
                stored.config.clone(),
                stored.source,
            ),
        );
        assert(configs@.take(i + 1).drop_last() =~= configs@.take(i as int));
        i = i + 1;
    }
    None
}

/// The next network to be run: its id, its configuration, its source and its
/// position among `texts`.
struct Candidate {
    at: usize,
    id: u128,
    config: NetworkConfig,
    source: PersistedConfigSource,
}

/// Finds the next network to be run, from `texts[from]` on.
fn find_to_be_run(manager: &GUIClientManager, texts: &Vec<String>, from: usize) -> (r: Option<
    Candidate,
>)
    ensures
        r is None <==> first_to_be_run(manager@, texts@, from as int) >= texts@.len(),
        r matches Some(found) ==> {
            &&& found.at == first_to_be_run(manager@, texts@, from as int)
            &&& found.at < texts@.len()
            &&& found.id == parsed_uuid(texts@[found.at as int]@)->Ok_0
            &&& found.config == manager@.configs[found.id].config
            &&& found.source == manager@.configs[found.id].source
        },
{
    let mut at: usize = from;
    while at < texts.len()
        invariant
            first_to_be_run(manager@, texts@, from as int) == first_to_be_run(
                manager@,
                texts@,
                at as int,
            ),
        decreases texts@.len() - at,
    {
        if let Ok(id) = parse_instance_id(texts[at].as_str()) {
            if !manager.storage.is_enabled(id) {
                if let Some(stored) = manager.storage.config(id) {
                    return Some(
                        Candidate {
                            at,
                            id,
                            config: stored.get_network_config(),
                            source: stored.source(),
                        },
                    );
                }
            }
        }
        at = at + 1;
    }
    None
}

/// Goes on to the next network that is to be run, from `enabled_networks[from]` on.
fn go_on(world: &World, enabled_networks: Vec<String>, from: usize) -> (r: (LoadConfigs, Effect))
    ensures
        (r.0@, r.1@) == LoadConfigsView::advance(
            world@.storage,
            enabled_networks@,
            from as int,
        ),
{
    match find_to_be_run(&world.manager, &enabled_networks, from) {
        Some(Candidate { at, id, config, source }) => {
            assert(at < enabled_networks.len());
            let generated = config.clone();
            (
                LoadConfigs::Generating { enabled_networks, next: at + 1, id, config, source },
                Effect::GenerateConfig(generated),
            )
        },
        None => (LoadConfigs::Over, Effect::Finish(Ok(()))),
    }
}

impl LoadConfigs {
    pub fn new(configs: Vec<StoredGuiConfig>, enabled_networks: Vec<String>) -> (r: LoadConfigs)
        ensures
            r@ == (LoadConfigsView::Start {
                configs: configs@,
                enabled_networks: enabled_networks@,
            }),
    {
        LoadConfigs::Start { configs, enabled_networks }
    }

    /// Takes the next step.
    pub fn step(self, world: &mut World, reply: Reply) -> (r: (LoadConfigs, Effect))
        ensures
            (r.0@, final(world)@, r.1@) == self@.next(old(world)@, reply),
    {
        match (self, reply) {
            (LoadConfigs::Start { configs, enabled_networks }, Reply::Done) => (
                LoadConfigs::Opening { configs, enabled_networks },
                Effect::OpenManager,
            ),
            (LoadConfigs::Opening { configs, enabled_networks }, Reply::Answer(locked)) => {
                if let Some(error) = check_manager(world, locked) {
                    return (LoadConfigs::Over, Effect::Finish(Err(error)));
                }
                let ghost all = configs@;
                if let Some(error) = store_all(&mut world.manager, configs) {
                    return (LoadConfigs::Over, Effect::Finish(Err(error)));
                }
                assert(all.take(all.len() as int) =~= all);
                world.manager.storage.disable_all();
                (LoadConfigs::Connecting { enabled_networks }, Effect::OpenRpcClient)
            },
            (LoadConfigs::Connecting { enabled_networks }, Reply::Answer(found)) => {
                if !found {
                    return (LoadConfigs::Over, Effect::Finish(Err(GuiError::RpcClientMissing)));
                }
                go_on(world, enabled_networks, 0)
            },
            (
                LoadConfigs::Generating { enabled_networks, next, id, config, source },
                Reply::Generated(Ok(toml)),
            ) => (
                LoadConfigs::Preparing { enabled_networks, next, id, config, source },
                Effect::PreRun { toml, source, origin: RunOrigin::Local },
            ),
            (LoadConfigs::Generating { .. }, Reply::Generated(Err(words))) => (
                LoadConfigs::Over,
                fail(words),
            ),
            (
                LoadConfigs::Preparing { enabled_networks, next, id, config, source },
                Reply::Outcome(Ok(())),
            ) => (
                LoadConfigs::Running { enabled_networks, next, id },
                Effect::RunStored {
                    config,
                    reported: source.to_runtime_source(),
                    inst_id: None,
                    overwrite: false,
                },
            ),
            (LoadConfigs::Running { enabled_networks, next, id }, Reply::Outcome(Ok(()))) => (
                LoadConfigs::Completing { enabled_networks, next },
                Effect::PostRun(id),
            ),
            (LoadConfigs::Completing { enabled_networks, next }, Reply::Outcome(Ok(()))) => {
                go_on(world, enabled_networks, next)
            },
            (
                LoadConfigs::Preparing { .. }
                | LoadConfigs::Running { .. }
                | LoadConfigs::Completing { .. },
                Reply::Outcome(Err(words)),
            ) => (LoadConfigs::Over, fail(words)),
            _ => (LoadConfigs::Over, Effect::Finish(Err(GuiError::UnexpectedReply))),
        }
    }
}

/// A position that [`first_without_id`] names holds no id, and all before it do.
pub proof fn loading_stops_at_the_first_without_id(configs: Seq<StoredGuiConfig>)
    ensures
        0 <= first_without_id(configs, 0) <= configs.len(),
        first_without_id(configs, 0) < configs.len() ==> spelled_id(
            configs[first_without_id(configs, 0)],
        ) is Err,
        forall|i: int|
            0 <= i < first_without_id(configs, 0) ==> spelled_id(#[trigger] configs[i]) is Ok,
{
    lemma_first_without_id(configs, 0);
}

proof fn lemma_first_without_id(configs: Seq<StoredGuiConfig>, from: int)
    requires
        0 <= from <= configs.len(),
    ensures
        from <= first_without_id(configs, from) <= configs.len(),
        first_without_id(configs, from) < configs.len() ==> spelled_id(
            configs[first_without_id(configs, from)],
        ) is Err,
        forall|i: int|
            from <= i < first_without_id(configs, from) ==> spelled_id(#[trigger] configs[i])
                is Ok,
    decreases configs.len() - from,
{
    if from < configs.len() && spelled_id(configs[from]) is Ok {
        lemma_first_without_id(configs, from + 1);
    }
}

/// A configuration that is loaded is stored under the id that it spells; where
/// several spell the same id, the last of them is.
pub proof fn the_last_of_each_id_is_loaded(configs: Seq<StoredGuiConfig>, i: int)
    requires
        forall|j: int| 0 <= j < configs.len() ==> spelled_id(#[trigger] configs[j]) is Ok,
        0 <= i < configs.len(),
        forall|j: int| i < j < configs.len() ==> spelled_id(#[trigger] configs[j]) != spelled_id(
            configs[i],
        ),
    ensures
        loaded(configs).dom().contains(spelled_id(configs[i])->Ok_0),
        loaded(configs)[spelled_id(configs[i])->Ok_0] == (GUIConfigView {
            inst_id: configs[i].config.instance_id@,
            config: configs[i].config,
            source: configs[i].source,
        }),
    decreases configs.len(),
{
    let rest = configs.drop_last();
    assert(configs[configs.len() - 1] == configs.last());
    if i < configs.len() - 1 {
        assert forall|j: int| 0 <= j < rest.len() implies #[trigger] rest[j] == configs[j] by {}
        the_last_of_each_id_is_loaded(rest, i);
    }
}

/// Nothing is stored by loading but under an id that some configuration spells.
pub proof fn nothing_else_is_loaded(configs: Seq<StoredGuiConfig>, id: u128)
    requires
        loaded(configs).dom().contains(id),
    ensures
        exists|i: int| 0 <= i < configs.len() && spelled_id(#[trigger] configs[i])->Ok_0 == id,
    decreases configs.len(),
{
    let rest = configs.drop_last();
    if spelled_id(configs.last())->Ok_0 == id {
        assert(configs[configs.len() - 1] == configs.last());
    } else {
        nothing_else_is_loaded(rest, id);
        let i = choose|i: int| 0 <= i < rest.len() && spelled_id(#[trigger] rest[i])->Ok_0 == id;
        assert(configs[i] == rest[i]);
    }
}

/// After loading, every network is stored under the id that it spells itself, so
/// that disabling the networks listed with a TUN device reaches all of them.
pub proof fn loaded_networks_spell_their_ids(configs: Seq<StoredGuiConfig>, enabled: Set<u128>)
    requires
        forall|i: int| 0 <= i < configs.len() ==> spelled_id(#[trigger] configs[i]) is Ok,
    ensures
        (StorageView { configs: loaded(configs), enabled }).spells_its_ids(),
    decreases configs.len(),
{
    if configs.len() > 0 {
        let rest = configs.drop_last();
        assert forall|i: int| 0 <= i < rest.len() implies spelled_id(#[trigger] rest[i]) is Ok by {
            assert(rest[i] == configs[i]);
        }
        loaded_networks_spell_their_ids(rest, enabled);
        assert(configs[configs.len() - 1] == configs.last());
        let before = StorageView { configs: loaded(rest), enabled };
        let after = StorageView { configs: loaded(configs), enabled };
        assert forall|key: u128| #[trigger] after.configs.dom().contains(
            key,
        ) implies after.spells(key) by {
            if key != spelled_id(configs.last())->Ok_0 {
                assert(before.configs.dom().contains(key));
            }
        }
    }
}

/// What was saved is loaded back: where every network is stored under the id that
/// it spells, saving all of them in any order and loading the result stores the
/// same configurations with the same sources under the same ids.
pub proof fn saved_networks_are_loaded_back(storage: StorageView, keys: Seq<u128>, key: u128)
    requires
        storage.spells_its_ids(),
        storage.orders(keys),
    ensures
        first_without_id(keys.map_values(storage.stored_forms()), 0) == keys.len(),
        loaded(keys.map_values(storage.stored_forms())).dom().contains(key)
            <==> storage.configs.dom().contains(key),
        storage.configs.dom().contains(key) ==> {
            let back = loaded(keys.map_values(storage.stored_forms()))[key];
            back.config == storage.configs[key].config && back.source
                == storage.configs[key].source
        },
{
    let saved = keys.map_values(storage.stored_forms());
    assert forall|i: int| 0 <= i < saved.len() implies spelled_id(#[trigger] saved[i]) == Ok::<
        u128,
        Seq<char>,
    >(keys[i]) by {
        assert(keys.to_set().contains(keys[i]));
        assert(storage.configs.dom().contains(keys[i]));
        assert(storage.spells(keys[i]));
    }
    loading_stops_at_the_first_without_id(saved);
    if storage.configs.dom().contains(key) {
        assert(keys.to_set().contains(key));
        let i = choose|i: int| 0 <= i < keys.len() && keys[i] == key;
        assert forall|j: int| i < j < saved.len() implies spelled_id(#[trigger] saved[j])
            != spelled_id(saved[i]) by {
            assert(keys[j] != keys[i]);
        }
        the_last_of_each_id_is_loaded(saved, i);
    }
    if loaded(saved).dom().contains(key) {
        nothing_else_is_loaded(saved, key);
        let i = choose|i: int| 0 <= i < saved.len() && spelled_id(#[trigger] saved[i])->Ok_0 == key;
        assert(keys.to_set().contains(keys[i]));
    }
}

/// The network that is run next is the first one, from a position on, that is
/// named, stored and not enabled yet; those before it are passed over.
pub proof fn the_next_network_is_the_first_to_be_run(
    storage: StorageView,
    texts: Seq<String>,
    from: int,
)
    requires
        0 <= from <= texts.len(),
    ensures
        from <= first_to_be_run(storage, texts, from) <= texts.len(),
        first_to_be_run(storage, texts, from) < texts.len() ==> to_be_run(
            storage,
            texts[first_to_be_run(storage, texts, from)]@,
        ),
        forall|i: int|
            from <= i < first_to_be_run(storage, texts, from) ==> !to_be_run(
                storage,
                (#[trigger] texts[i])@,
            ),
    decreases texts.len() - from,
{
    if from < texts.len() && !to_be_run(storage, texts[from]@) {
        the_next_network_is_the_first_to_be_run(storage, texts, from + 1);
    }
}

/// How loading begins. Where every configuration spells an id, nothing is enabled
/// afterwards, and the core is asked for. Where one does not, the request ends with
/// the words for that one, and what was enabled stays so. Nothing changes but what
/// is stored.
pub proof fn loading_begins_like_this(
    configs: Seq<StoredGuiConfig>,
    texts: Seq<String>,
    bad: int,
    w0: WorldView,
    w1: WorldView,
)
    requires
        0 <= bad <= configs.len(),
        forall|i: int|
            0 <= i < bad ==> parsed_uuid((#[trigger] configs[i]).config.instance_id@) is Ok,
        bad < configs.len() ==> parsed_uuid(configs[bad].config.instance_id@) is Err,
    ensures
        ({
            let s0 = (LoadConfigsView::Start { configs, enabled_networks: texts }).next(
                w0,
                Reply::Done,
            );
            let busy = s0.0.next(w1, Reply::Answer(false));
            let s1 = s0.0.next(w1, Reply::Answer(true));
            let stored = s1.1.storage;
            &&& s0.2 == EffectView::Perform(Effect::OpenManager) && s0.1 == w0
            &&& busy.2 == refuse(GuiError::ManagerBusy) && busy.1 == w1
            &&& !w1.connected ==> s1.2 == refuse(GuiError::ManagerMissing) && s1.1 == w1
            &&& w1.connected ==> s1.1 == (WorldView { storage: stored, ..w1 })
            &&& w1.connected && bad < configs.len() ==> {
                &&& s1.2 == EffectView::Finish(
                    Err(parsed_uuid(configs[bad].config.instance_id@)->Err_0),
                )
                &&& stored.enabled == w1.storage.enabled
            }
            &&& w1.connected && bad == configs.len() ==> {
                &&& s1.2 == EffectView::Perform(Effect::OpenRpcClient)
                &&& stored.enabled == Set::<u128>::empty()
                &&& s1.0 == (LoadConfigsView::Connecting { enabled_networks: texts })
            }
        }),
{
    lemma_bad_is_first(configs, bad);
}

/// The position before which all spell an id, and at which none is spelled, is the
/// one at which loading stops.
proof fn lemma_bad_is_first(configs: Seq<StoredGuiConfig>, bad: int)
    requires
        0 <= bad <= configs.len(),
        forall|i: int|
            0 <= i < bad ==> parsed_uuid((#[trigger] configs[i]).config.instance_id@) is Ok,
        bad < configs.len() ==> parsed_uuid(configs[bad].config.instance_id@) is Err,
    ensures
        first_without_id(configs, 0) == bad,
        bad == configs.len() ==> configs.take(bad) == configs,
{
    loading_stops_at_the_first_without_id(configs);
    let first = first_without_id(configs, 0);
    if first < bad {
        assert(spelled_id(configs[first]) is Err);
        assert(parsed_uuid(configs[first].config.instance_id@) is Ok);
    }
    if bad < first {
        assert(spelled_id(configs[bad]) is Ok);
    }
    if bad == configs.len() {
        assert(configs.take(bad) =~= configs);
    }
}

/// Whether one of the first `n` of `configs` spells the id `id`.
pub open spec fn one_spells(configs: Seq<StoredGuiConfig>, n: int, id: u128) -> bool {
    exists|i: int|
        0 <= i < n && parsed_uuid((#[trigger] configs[i]).config.instance_id@) == Ok::<
            u128,
            Seq<char>,
        >(id)
}

/// What loading stores: a network is stored exactly where one of the configurations
/// up to the first that spells no id spells its id, and the last of those is what is
/// stored for it, with its source and its text of the id.
pub proof fn what_was_saved_is_stored(
    configs: Seq<StoredGuiConfig>,
    texts: Seq<String>,
    bad: int,
    w0: WorldView,
    w1: WorldView,
    id: u128,
    i: int,
)
    requires
        0 <= bad <= configs.len(),
        forall|j: int|
            0 <= j < bad ==> parsed_uuid((#[trigger] configs[j]).config.instance_id@) is Ok,
        bad < configs.len() ==> parsed_uuid(configs[bad].config.instance_id@) is Err,
        w1.connected,
    ensures
        ({
            let s0 = (LoadConfigsView::Start { configs, enabled_networks: texts }).next(
                w0,
                Reply::Done,
            );
            let stored = s0.0.next(w1, Reply::Answer(true)).1.storage;
            &&& stored.configs.dom().contains(id) <==> one_spells(configs, bad, id)
            &&& 0 <= i < bad && parsed_uuid(configs[i].config.instance_id@) == Ok::<
                u128,
                Seq<char>,
            >(id) && (forall|j: int|
                i < j < bad ==> parsed_uuid((#[trigger] configs[j]).config.instance_id@) != Ok::<
                    u128,
                    Seq<char>,
                >(id)) ==> {
                &&& stored.configs[id].config == configs[i].config
                &&& stored.configs[id].source == configs[i].source
                &&& stored.configs[id].inst_id == configs[i].config.instance_id@
            }
        }),
{
    lemma_bad_is_first(configs, bad);
    let some = configs.take(bad);
    assert forall|j: int| 0 <= j < some.len() implies spelled_id(#[trigger] some[j]) is Ok by {
        assert(some[j] == configs[j]);
    }
    if loaded(some).dom().contains(id) {
        nothing_else_is_loaded(some, id);
        let j = choose|j: int| 0 <= j < some.len() && spelled_id(#[trigger] some[j])->Ok_0 == id;
        assert(some[j] == configs[j]);
        assert(spelled_id(some[j]) is Ok);
    }
    if one_spells(configs, bad, id) {
        let j = choose|j: int|
            0 <= j < bad && parsed_uuid((#[trigger] configs[j]).config.instance_id@) == Ok::<
                u128,
                Seq<char>,
            >(id);
        assert(some[j] == configs[j]);
        lemma_loaded_has(some, j);
    }
    if 0 <= i < bad && parsed_uuid(configs[i].config.instance_id@) == Ok::<u128, Seq<char>>(id)
        && (forall|j: int|
        i < j < bad ==> parsed_uuid((#[trigger] configs[j]).config.instance_id@) != Ok::<
            u128,
            Seq<char>,
        >(id)) {
        assert(some[i] == configs[i]);
        assert forall|j: int| i < j < some.len() implies spelled_id(#[trigger] some[j])
            != spelled_id(some[i]) by {
            assert(some[j] == configs[j]);
        }
        the_last_of_each_id_is_loaded(some, i);
    }
}

/// What a configuration spells is stored when it is loaded.
proof fn lemma_loaded_has(configs: Seq<StoredGuiConfig>, i: int)
    requires
        0 <= i < configs.len(),
    ensures
        loaded(configs).dom().contains(spelled_id(configs[i])->Ok_0),
    decreases configs.len(),
{
    if i < configs.len() - 1 {
        lemma_loaded_has(configs.drop_last(), i);
    }
}

/// Which network is run next, and how. It is the first one from a position on that
/// is named by its id, stored and not enabled; the request succeeds exactly where
/// there is none. It is generated, prepared as whose it is stored, run as that, never
/// over an instance that runs already, and its run completed; then the request goes
/// on after it. Neither the platform nor the user's decision plays a part in this.
/// What fails on the way ends it with its words.
pub proof fn the_next_network_is_run(
    texts: Seq<String>,
    from: int,
    at: int,
    toml: TomlConfig,
    words: String,
    w: Seq<WorldView>,
)
    requires
        w.len() == 5,
        0 <= from <= at <= texts.len(),
        forall|i: int|
            from <= i < at ==> (parsed_uuid((#[trigger] texts[i])@) matches Ok(id) ==> {
                ||| w[0].storage.enabled.contains(id)
                ||| !w[0].storage.configs.dom().contains(id)
            }),
        at < texts.len() ==> (parsed_uuid(texts[at]@) matches Ok(id)
            && !w[0].storage.enabled.contains(id) && w[0].storage.configs.dom().contains(id)),
    ensures
        ({
            let done = Reply::Outcome(Ok(()));
            let failed = Reply::Outcome(Err(words));
            let over = EffectView::Finish(Err(words@));
            let connecting = LoadConfigsView::Connecting { enabled_networks: texts };
            let completing = LoadConfigsView::Completing { enabled_networks: texts, next: from };
            let s0 = completing.next(w[0], done);
            let s1 = s0.0.next(w[1], Reply::Generated(Ok(toml)));
            let s2 = s1.0.next(w[2], done);
            let s3 = s2.0.next(w[3], done);
            &&& connecting.next(w[0], Reply::Answer(false)).2 == refuse(GuiError::RpcClientMissing)
            &&& from == 0 ==> connecting.next(w[0], Reply::Answer(true)) == s0
            &&& completing.next(w[0], failed).2 == over
            &&& s0.1 == w[0]
            &&& at == texts.len() ==> s0.2 == succeed()
            &&& at < texts.len() ==> {
                let id = parsed_uuid(texts[at]@)->Ok_0;
                let config = w[0].storage.configs[id].config;
                let source = w[0].storage.configs[id].source;
                &&& s0.2 == EffectView::Perform(Effect::GenerateConfig(config))
                &&& s0.0.next(w[1], Reply::Generated(Err(words))).2 == over
                &&& s1.1 == w[1]
                &&& s1.2 == EffectView::Perform(
                    Effect::PreRun { toml, source, origin: RunOrigin::Local },
                )
                &&& s1.0.next(w[2], failed).2 == over
                &&& s2.1 == w[2]
                &&& (s2.2 matches EffectView::Perform(
                    Effect::RunStored { config: run, reported, inst_id, overwrite },
                ) && run == config && (reported is Web <==> source is Web) && inst_id is None
                    && !overwrite)
                &&& s2.0.next(w[3], failed).2 == over
                &&& s3.1 == w[3] && s3.2 == EffectView::Perform(Effect::PostRun(id))
                &&& s3.0 == (LoadConfigsView::Completing { enabled_networks: texts, next: at + 1 })
            }
        }),
{
    let storage = w[0].storage;
    the_next_network_is_the_first_to_be_run(storage, texts, from);
    let first = first_to_be_run(storage, texts, from);
    if first < at {
        assert(to_be_run(storage, texts[first]@));
        assert(parsed_uuid(texts[first]@) is Ok);
    }
    if at < first {
        assert(!to_be_run(storage, texts[at]@));
    }
}

} // verus!
