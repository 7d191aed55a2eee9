//! What the client stores: the network configurations by instance id, and which
//! of the networks are enabled.

use crate::config::{
    merged, persisted, ConfigSource, GUIConfig, GUIConfigView, NetworkConfig,
    PersistedConfigSource, StoredGuiConfig,
};
use crate::instance_id::{hyphenated, parse_uuid, parsed_uuid, uuid_text};
use dashmap::{DashMap, DashSet};
use vstd::prelude::*;

verus! {

/// Declares `dashmap::DashMap`.
#[verifier::external_type_specification]
#[verifier::external_body]
#[verifier::reject_recursive_types(K)]
#[verifier::reject_recursive_types(V)]
#[verifier::reject_recursive_types(S)]
pub struct ExDashMap<K, V, S>(DashMap<K, V, S>);

/// Declares `dashmap::DashSet`.
#[verifier::external_type_specification]
#[verifier::external_body]
#[verifier::reject_recursive_types(K)]
#[verifier::reject_recursive_types(S)]
pub struct ExDashSet<K, S>(DashSet<K, S>);

/// What a map of configurations holds.
pub uninterp spec fn configs_of(map: DashMap<u128, GUIConfig>) -> Map<u128, GUIConfigView>;

/// What a set of instance ids holds.
pub uninterp spec fn ids_of(set: DashSet<u128>) -> Set<u128>;

/// `DashMap::new` gives an empty map.
#[verifier::external_body]
fn new_configs() -> (r: DashMap<u128, GUIConfig>)
    ensures
        configs_of(r) == StorageView::fresh().configs,
{
    DashMap::new()
}

/// `DashMap::insert` puts the value under the key, in place of any value before it.
#[verifier::external_body]
fn insert_config(map: &mut DashMap<u128, GUIConfig>, id: u128, config: GUIConfig)
    ensures
        configs_of(*final(map)) == configs_of(*old(map)).insert(id, config@),
{
    map.insert(id, config);
}

/// `DashMap::remove` takes the key and its value out, if they are there.
#[verifier::external_body]
fn remove_config(map: &mut DashMap<u128, GUIConfig>, id: u128)
    ensures
        configs_of(*final(map)) == configs_of(*old(map)).remove(id),
{
    map.remove(&id);
}

/// `DashMap::clear` leaves the map empty.
#[verifier::external_body]
fn clear_configs(map: &mut DashMap<u128, GUIConfig>)
    ensures
        configs_of(*final(map)) == StorageView::fresh().configs,
{
    map.clear();
}

/// `DashMap::get` finds the value under a key; it is copied out of the map.
#[verifier::external_body]
fn find_config(map: &DashMap<u128, GUIConfig>, id: u128) -> (r: Option<GUIConfig>)
    ensures
        r is Some == configs_of(*map).dom().contains(id),
        r is Some ==> r->0@ == configs_of(*map)[id],
{
    map.get(&id).map(|entry| entry.value().clone())
}

/// `DashMap::iter` visits every key once, in an order that is left open.
#[verifier::external_body]
fn config_ids(map: &DashMap<u128, GUIConfig>) -> (r: Vec<u128>)
    ensures
        r@.no_duplicates(),
        r@.to_set() == configs_of(*map).dom(),
{
    map.iter().map(|entry| *entry.key()).collect()
}

/// `DashSet::new` gives an empty set.
#[verifier::external_body]
fn new_ids() -> (r: DashSet<u128>)
    ensures
        ids_of(r) == StorageView::fresh().enabled,
{
    DashSet::new()
}

/// `DashSet::insert` puts the id in.
#[verifier::external_body]
fn insert_id(set: &mut DashSet<u128>, id: u128)
    ensures
        ids_of(*final(set)) == ids_of(*old(set)).insert(id),
{
    set.insert(id);
}

/// `DashSet::remove` takes the id out, if it is there.
#[verifier::external_body]
fn remove_id(set: &mut DashSet<u128>, id: u128)
    ensures
        ids_of(*final(set)) == ids_of(*old(set)).remove(id),
{
    set.remove(&id);
}

/// `DashSet::clear` leaves the set empty.
#[verifier::external_body]
fn clear_ids(set: &mut DashSet<u128>)
    ensures
        ids_of(*final(set)) == StorageView::fresh().enabled,
{
    set.clear();
}

/// `DashSet::contains` says whether the id is in the set.
#[verifier::external_body]
fn has_id(set: &DashSet<u128>, id: u128) -> (r: bool)
    ensures
        r == ids_of(*set).contains(id),
{
    set.contains(&id)
}

/// `DashSet::iter` visits every id once, in an order that is left open.
#[verifier::external_body]
fn all_ids(set: &DashSet<u128>) -> (r: Vec<u128>)
    ensures
        r@.no_duplicates(),
        r@.to_set() == ids_of(*set),
{
    set.iter().map(|entry| *entry.key()).collect()
}

/// Which of the stored configurations to list.
#[derive(Debug, Clone, Copy, PartialEq, Eq, Structural)]
pub enum ListNetworkProps {
    All,
    EnabledOnly,
    DisabledOnly,
}

/// What the storage holds.
#[verifier::ext_equal]
pub struct StorageView {
    pub configs: Map<u128, GUIConfigView>,
    pub enabled: Set<u128>,
}

impl StorageView {
    /// A storage with nothing in it.
    pub open spec fn fresh() -> StorageView {
        StorageView { configs: Map::empty(), enabled: Set::empty() }
    }

    /// Whether `keys` names every stored configuration once, in some order.
    pub open spec fn orders(self, keys: Seq<u128>) -> bool {
        keys.no_duplicates() && keys.to_set() == self.configs.dom()
    }

    /// Whether `ids` names every enabled network once, in some order.
    pub open spec fn orders_enabled(self, ids: Seq<u128>) -> bool {
        ids.no_duplicates() && ids.to_set() == self.enabled
    }

    /// The source under which a configuration that arrives with `source` is stored.
    pub open spec fn stored_source(
        self,
        id: u128,
        source: PersistedConfigSource,
    ) -> PersistedConfigSource {
        if self.configs.dom().contains(id) {
            merged(self.configs[id].source, source)
        } else {
            source
        }
    }

    /// The storage after `config` is saved for the instance `id`.
    pub open spec fn saved(
        self,
        id: u128,
        config: NetworkConfig,
        source: PersistedConfigSource,
    ) -> StorageView {
        StorageView {
            configs: self.configs.insert(
                id,
                GUIConfigView {
                    inst_id: hyphenated(id),
                    config,
                    source: self.stored_source(id, source),
                },
            ),
            ..self
        }
    }

    /// The storage after the user has made the network `id` the user's own, where it
    /// is stored.
    pub open spec fn claimed(self, id: u128) -> StorageView {
        if self.configs.dom().contains(id) {
            StorageView {
                configs: self.configs.insert(
                    id,
                    GUIConfigView { source: PersistedConfigSource::User, ..self.configs[id] },
                ),
                ..self
            }
        } else {
            self
        }
    }

    /// The storage after the configurations `ids` are deleted.
    pub open spec fn deleted(self, ids: Set<u128>) -> StorageView {
        StorageView {
            configs: self.configs.remove_keys(ids),
            enabled: self.enabled.difference(ids),
        }
    }

    /// The storage after the network `id` is enabled or disabled.
    pub open spec fn switched(self, id: u128, disabled: bool) -> StorageView {
        StorageView {
            enabled: if disabled {
                self.enabled.remove(id)
            } else {
                self.enabled.insert(id)
            },
            ..self
        }
    }

    /// The storage after all of `ids` are disabled.
    pub open spec fn disabled(self, ids: Set<u128>) -> StorageView {
        StorageView { enabled: self.enabled.difference(ids), ..self }
    }

    /// Whether the configuration stored under `key` belongs to a listing by `props`.
    pub open spec fn listed(self, props: ListNetworkProps, key: u128) -> bool {
        match props {
            ListNetworkProps::All => true,
            ListNetworkProps::EnabledOnly => self.enabled.contains(key),
            ListNetworkProps::DisabledOnly => !self.enabled.contains(key),
        }
    }

    /// A stored configuration as it is saved, by its key.
    pub open spec fn stored_forms(self) -> spec_fn(u128) -> StoredGuiConfig {
        |key: u128|
            StoredGuiConfig {
                config: self.configs[key].config,
                source: self.configs[key].source,
            }
    }

    /// The configuration under a key, where a listing by `props` shows it.
    pub open spec fn listed_forms(self, props: ListNetworkProps) -> spec_fn(u128) -> Option<
        GUIConfigView,
    > {
        |key: u128|
            if self.listed(props, key) {
                Some(self.configs[key])
            } else {
                None
            }
    }

    /// Whether `listing` is what a listing by `props` shows: the configurations that
    /// belong to it, taken from the stored ones in some order.
    pub open spec fn lists(self, props: ListNetworkProps, listing: Seq<GUIConfigView>) -> bool {
        exists|keys: Seq<u128>| #[trigger]
            self.orders(keys) && listing == keys.filter_map(self.listed_forms(props))
    }

    /// Having `value` stored, and belonging to a listing by `props`.
    pub open spec fn holds(self, props: ListNetworkProps, value: GUIConfigView) -> spec_fn(
        u128,
    ) -> bool {
        |key: u128| self.configs[key] == value && self.listed(props, key)
    }

    /// The keys under which `value` is stored and belongs to a listing by `props`.
    pub open spec fn keys_of(self, props: ListNetworkProps, value: GUIConfigView) -> Set<u128> {
        self.configs.dom().filter(self.holds(props, value))
    }

    /// The instance id that the configuration stored under `key` contributes to
    /// the enabled networks with a TUN device: the one that the configuration
    /// itself spells, where it is enabled, has a device and spells an id. With
    /// `web_only`, only a configuration of the configuration server contributes.
    pub open spec fn tun_id(self, key: u128, web_only: bool) -> Option<u128> {
        let stored = self.configs[key];
        if self.enabled.contains(key) && !stored.config.no_tun && (web_only ==> stored.source
            is Web) {
            match parsed_uuid(stored.config.instance_id@) {
                Ok(id) => Some(id),
                Err(_) => None,
            }
        } else {
            None
        }
    }

    /// [`StorageView::tun_id`] as a function of the key.
    pub open spec fn tun_ids(self, web_only: bool) -> spec_fn(u128) -> Option<u128> {
        |key: u128| self.tun_id(key, web_only)
    }

    /// Whether `ids` are the enabled networks with a TUN device, taken from the
    /// stored configurations in some order.
    pub open spec fn lists_tun(self, web_only: bool, ids: Seq<u128>) -> bool {
        exists|keys: Seq<u128>| #[trigger]
            self.orders(keys) && ids == keys.filter_map(self.tun_ids(web_only))
    }

    /// Whether some stored configuration makes `id` an enabled network with a TUN device.
    pub open spec fn is_tun(self, web_only: bool, id: u128) -> bool {
        exists|key: u128| #[trigger]
            self.configs.dom().contains(key) && self.tun_id(key, web_only) == Some(id)
    }

    /// Whether the configuration stored under `key` spells that very id.
    pub open spec fn spells(self, key: u128) -> bool {
        parsed_uuid(self.configs[key].config.instance_id@) == Ok::<u128, Seq<char>>(key)
    }

    /// Whether every configuration is stored under the id that it spells itself.
    pub open spec fn spells_its_ids(self) -> bool {
        forall|key: u128| #[trigger] self.configs.dom().contains(key) ==> self.spells(key)
    }

    /// Whether there is any enabled network with a TUN device.
    pub open spec fn has_tun(self, web_only: bool) -> bool {
        exists|key: u128| #[trigger]
            self.configs.dom().contains(key) && self.tun_id(key, web_only) is Some
    }
}

/// The client's storage.
pub struct GUIStorage {
    network_configs: DashMap<u128, GUIConfig>,
    enabled_networks: DashSet<u128>,
}

impl View for GUIStorage {
    type V = StorageView;

    closed spec fn view(&self) -> StorageView {
        StorageView {
            configs: configs_of(self.network_configs),
            enabled: ids_of(self.enabled_networks),
        }
    }
}

impl GUIStorage {
    pub fn new() -> (r: Self)
        ensures
            r@ == StorageView::fresh(),
    {
        GUIStorage { network_configs: new_configs(), enabled_networks: new_ids() }
    }

    /// What to hand out when the configurations are to be saved: all of them, in
    /// an order that is left open.
    pub fn save_configs(&self) -> (r: Vec<StoredGuiConfig>)
        ensures
            exists|keys: Seq<u128>| #[trigger]
                self@.orders(keys) && r@ == keys.map_values(self@.stored_forms()),
    {
        let keys = config_ids(&self.network_configs);
        let mut payload: Vec<StoredGuiConfig> = Vec::new();
        assert(self@.orders(keys@));
        for i in 0..keys.len()
            invariant
                self@.orders(keys@),
                payload@ == keys@.take(i as int).map_values(self@.stored_forms()),
        {
            proof {
                assert(keys@.to_set().contains(keys@[i as int]));
                assert(keys@.take(i + 1) =~= keys@.take(i as int).push(keys@[i as int]));
            }
            if let Some(config) = find_config(&self.network_configs, keys[i]) {
                payload.push(config.into_stored());
            }
        }
        assert(keys@.take(keys@.len() as int) =~= keys@);
        payload
    }

    /// What to hand out when the enabled networks are to be saved: the texts of
    /// their ids, in an order that is left open.
    pub fn save_enabled_networks(&self) -> (r: Vec<String>)
        ensures
            exists|ids: Seq<u128>| #[trigger]
                self@.orders_enabled(ids) && r@.map_values(|text: String| text@)
                    == ids.map_values(|id: u128| hyphenated(id)),
            forall|i: int|
                0 <= i < r@.len() ==> (parsed_uuid((#[trigger] r@[i])@) matches Ok(id)
                    && self@.enabled.contains(id)),
    {
        let ids = all_ids(&self.enabled_networks);
        let mut payload: Vec<String> = Vec::new();
        assert(self@.orders_enabled(ids@));
        for i in 0..ids.len()
            invariant
                self@.orders_enabled(ids@),
                payload@.map_values(|text: String| text@) == ids@.take(i as int).map_values(
                    |id: u128| hyphenated(id),
                ),
                forall|k: int|
                    0 <= k < payload@.len() ==> (parsed_uuid((#[trigger] payload@[k])@) matches Ok(
                        id,
                    ) && self@.enabled.contains(id)),
        {
            assert(ids@.to_set().contains(ids@[i as int]));
            let text = uuid_text(ids[i]);
            let ghost before = payload@;
            payload.push(text);
            proof {
                assert(ids@.take(i + 1) =~= ids@.take(i as int).push(ids@[i as int]));
                assert(payload@.map_values(|text: String| text@) =~= before.map_values(
                    |text: String| text@,
                ).push(text@));
                assert(ids@.take(i + 1).map_values(|id: u128| hyphenated(id)) =~= ids@.take(
                    i as int,
                ).map_values(|id: u128| hyphenated(id)).push(hyphenated(ids@[i as int])));
            }
        }
        assert(ids@.take(ids@.len() as int) =~= ids@);
        payload
    }

    /// Stores a configuration, together with the text of its instance id. Where
    /// one is stored for the instance already, the sources are merged.
    pub fn save_config(
        &mut self,
        inst_id: u128,
        cfg: NetworkConfig,
        source: PersistedConfigSource,
    )
        ensures
            final(self)@ == old(self)@.saved(inst_id, cfg, source),
            parsed_uuid(final(self)@.configs[inst_id].inst_id) is Ok,
            parsed_uuid(final(self)@.configs[inst_id].inst_id)->Ok_0 == inst_id,
    {
        let source = match find_config(&self.network_configs, inst_id) {
            Some(existing) => existing.source().merge_persisted(source),
            None => source,
        };
        let config = GUIConfig::new(uuid_text(inst_id), cfg, source);
        insert_config(&mut self.network_configs, inst_id, config);
        assert(self@ =~= old(self)@.saved(inst_id, cfg, source));
    }

    /// Makes a stored network the user's own.
    pub fn claim_for_user(&mut self, inst_id: u128)
        ensures
            final(self)@ == old(self)@.claimed(inst_id),
    {
        if let Some(existing) = find_config(&self.network_configs, inst_id) {
            let config = GUIConfig::new(
                existing.get_network_inst_id().to_string(),
                existing.get_network_config(),
                PersistedConfigSource::User,
            );
            insert_config(&mut self.network_configs, inst_id, config);
        }
    }

    /// Stores a configuration that was read back from where it had been saved.
    pub(crate) fn restore_config(&mut self, id: u128, config: GUIConfig)
        ensures
            final(self)@ == (StorageView {
                configs: old(self)@.configs.insert(id, config@),
                ..old(self)@
            }),
    {
        insert_config(&mut self.network_configs, id, config);
    }

    /// Forgets all configurations.
    pub(crate) fn forget_configs(&mut self)
        ensures
            final(self)@ == (StorageView { configs: Map::empty(), ..old(self)@ }),
    {
        clear_configs(&mut self.network_configs);
    }

    /// Disables all networks.
    pub(crate) fn disable_all(&mut self)
        ensures
            final(self)@ == (StorageView { enabled: Set::empty(), ..old(self)@ }),
    {
        clear_ids(&mut self.enabled_networks);
    }

    /// Enables or disables a network.
    pub fn switch_network(&mut self, network_inst_id: u128, disabled: bool)
        ensures
            final(self)@ == old(self)@.switched(network_inst_id, disabled),
    {
        if disabled {
            remove_id(&mut self.enabled_networks, network_inst_id);
        } else {
            insert_id(&mut self.enabled_networks, network_inst_id);
        }
    }

    /// Disables the networks `ids`.
    pub(crate) fn disable_networks(&mut self, ids: &Vec<u128>)
        ensures
            final(self)@ == old(self)@.disabled(ids@.to_set()),
    {
        assert(self@.disabled(ids@.take(0).to_set()) =~= self@);
        for i in 0..ids.len()
            invariant
                self@ == old(self)@.disabled(ids@.take(i as int).to_set()),
        {
            remove_id(&mut self.enabled_networks, ids[i]);
            proof {
                lemma_take_set(ids@, i as int);
                assert(self@ =~= old(self)@.disabled(ids@.take(i + 1).to_set()));
            }
        }
        assert(ids@.take(ids@.len() as int) =~= ids@);
    }

    /// Deletes the configurations of the networks `network_inst_ids`, and
    /// disables them.
    pub fn delete_networks(&mut self, network_inst_ids: &Vec<u128>)
        ensures
            final(self)@ == old(self)@.deleted(network_inst_ids@.to_set()),
    {
        assert(self@.deleted(network_inst_ids@.take(0).to_set()) =~= self@);
        for i in 0..network_inst_ids.len()
            invariant
                self@ == old(self)@.deleted(network_inst_ids@.take(i as int).to_set()),
        {
            remove_config(&mut self.network_configs, network_inst_ids[i]);
            remove_id(&mut self.enabled_networks, network_inst_ids[i]);
            proof {
                lemma_take_set(network_inst_ids@, i as int);
                assert(self@ =~= old(self)@.deleted(network_inst_ids@.take(i + 1).to_set()));
            }
        }
        assert(network_inst_ids@.take(network_inst_ids@.len() as int) =~= network_inst_ids@);
    }

    /// The stored configurations that `props` selects, in an order that is left open.
    pub fn list_network_configs(&self, props: ListNetworkProps) -> (r: Vec<GUIConfig>)
        ensures
            self@.lists(props, r@.map_values(|config: GUIConfig| config@)),
    {
        let keys = config_ids(&self.network_configs);
        let mut listed: Vec<GUIConfig> = Vec::new();
        assert(self@.orders(keys@));
        for i in 0..keys.len()
            invariant
                self@.orders(keys@),
                listed@.map_values(|config: GUIConfig| config@) == keys@.take(
                    i as int,
                ).filter_map(self@.listed_forms(props)),
        {
            let id = keys[i];
            let wanted = match props {
                ListNetworkProps::All => true,
                ListNetworkProps::EnabledOnly => has_id(&self.enabled_networks, id),
                ListNetworkProps::DisabledOnly => !has_id(&self.enabled_networks, id),
            };
            proof {
                assert(keys@.to_set().contains(id));
                keys@.lemma_filter_map_take_succ(self@.listed_forms(props), i as int);
            }
            if wanted {
                if let Some(config) = find_config(&self.network_configs, id) {
                    let ghost before = listed@;
                    listed.push(config);
                    assert(listed@.map_values(|config: GUIConfig| config@) =~= before.map_values(
                        |config: GUIConfig| config@,
                    ).push(config@));
                }
            }
        }
        assert(keys@.take(keys@.len() as int) =~= keys@);
        listed
    }

    /// The configuration of the network whose id is written `network_inst_id`.
    /// Text that is no id is refused with the parser's words.
    pub fn get_network_config(&self, network_inst_id: &str) -> (r: Result<
        Option<GUIConfig>,
        String,
    >)
        ensures
            match parsed_uuid(network_inst_id@) {
                Ok(id) => {
                    &&& r is Ok
                    &&& r->Ok_0 is Some == self@.configs.dom().contains(id)
                    &&& r->Ok_0 matches Some(config) ==> config@ == self@.configs[id]
                },
                Err(text) => r is Err && r->Err_0@ == text,
            },
    {
        match parse_uuid(network_inst_id) {
            Ok(id) => Ok(find_config(&self.network_configs, id)),
            Err(e) => Err(e),
        }
    }

    /// The configuration stored for the instance `id`.
    pub fn config(&self, id: u128) -> (r: Option<GUIConfig>)
        ensures
            r is Some == self@.configs.dom().contains(id),
            r matches Some(config) ==> config@ == self@.configs[id],
    {
        find_config(&self.network_configs, id)
    }

    /// Whether the network `id` is enabled.
    pub fn is_enabled(&self, id: u128) -> (r: bool)
        ensures
            r == self@.enabled.contains(id),
    {
        has_id(&self.enabled_networks, id)
    }

    /// The ids that the enabled networks with a TUN device spell, in an order
    /// that is left open; with `web_only`, of those that the configuration server
    /// manages.
    pub(crate) fn list_tun(&self, web_only: bool) -> (r: Vec<u128>)
        ensures
            self@.lists_tun(web_only, r@),
    {
        let keys = config_ids(&self.network_configs);
        let mut ids: Vec<u128> = Vec::new();
        assert(self@.orders(keys@));
        for i in 0..keys.len()
            invariant
                self@.orders(keys@),
                ids@ == keys@.take(i as int).filter_map(self@.tun_ids(web_only)),
        {
            let key = keys[i];
            proof {
                assert(keys@.to_set().contains(key));
                keys@.lemma_filter_map_take_succ(self@.tun_ids(web_only), i as int);
            }
            if let Some(stored) = find_config(&self.network_configs, key) {
                if has_id(&self.enabled_networks, key) && !stored.no_tun() && (!web_only
                    || stored.source().is_web_like()) {
                    if let Ok(id) = parse_uuid(stored.instance_id()) {
                        ids.push(id);
                    }
                }
            }
        }
        assert(keys@.take(keys@.len() as int) =~= keys@);
        ids
    }
}

/// What the first `i + 1` elements of a sequence hold: what the first `i` hold,
/// and the next one.
pub(crate) proof fn lemma_take_set(s: Seq<u128>, i: int)
    requires
        0 <= i < s.len(),
    ensures
        s.take(i + 1).to_set() == s.take(i).to_set().insert(s[i]),
{
    assert(s.take(i + 1) =~= s.take(i).push(s[i]));
    assert forall|x: u128| s.take(i + 1).to_set().contains(x) <==> s.take(i).to_set().insert(
        s[i],
    ).contains(x) by {
        if s.take(i).contains(x) {
            let k = choose|k: int| 0 <= k < i && s.take(i)[k] == x;
            assert(s.take(i + 1)[k] == x);
        }
        assert(s.take(i + 1)[i] == s[i]);
    }
    assert(s.take(i + 1).to_set() =~= s.take(i).to_set().insert(s[i]));
}

/// A listing of the enabled networks with a TUN device names exactly those, and
/// is empty exactly where there is none.
pub proof fn tun_listings_are_complete(storage: StorageView, web_only: bool, ids: Seq<u128>)
    requires
        storage.lists_tun(web_only, ids),
    ensures
        forall|id: u128| #[trigger] ids.contains(id) <==> storage.is_tun(web_only, id),
        ids.len() > 0 <==> storage.has_tun(web_only),
{
    let f = storage.tun_ids(web_only);
    let keys = choose|keys: Seq<u128>| #[trigger]
        storage.orders(keys) && ids == keys.filter_map(f);
    assert forall|id: u128| #[trigger] ids.contains(id) <==> storage.is_tun(web_only, id) by {
        if ids.contains(id) {
            keys.lemma_filter_map_contains(f, id);
            let k = choose|t: u128| #[trigger] keys.contains(t) && f(t) == Some(id);
            assert(keys.to_set().contains(k));
            assert(storage.configs.dom().contains(k));
        }
        if storage.is_tun(web_only, id) {
            let k = choose|k: u128| #[trigger]
                storage.configs.dom().contains(k) && storage.tun_id(k, web_only) == Some(id);
            assert(keys.to_set().contains(k));
            lemma_filter_map_has(keys, f, k, id);
        }
    }
    if ids.len() > 0 {
        assert(ids.contains(ids[0]));
        assert(storage.is_tun(web_only, ids[0]));
    }
    if storage.has_tun(web_only) {
        let k = choose|k: u128| #[trigger]
            storage.configs.dom().contains(k) && storage.tun_id(k, web_only) is Some;
        let id = storage.tun_id(k, web_only)->0;
        assert(storage.is_tun(web_only, id));
        assert(ids.contains(id));
    }
}

/// What the function keeps of an element stands in the result.
proof fn lemma_filter_map_has(s: Seq<u128>, f: spec_fn(u128) -> Option<u128>, key: u128, id: u128)
    requires
        s.contains(key),
        f(key) == Some(id),
    ensures
        s.filter_map(f).contains(id),
    decreases s.len(),
{
    reveal(Seq::filter_map);
    let i = choose|i: int| 0 <= i < s.len() && s[i] == key;
    s.lemma_filter_map_take_succ(f, s.len() - 1);
    assert(s.take(s.len() as int) =~= s);
    let head = s.take(s.len() - 1);
    if i == s.len() - 1 {
        assert(s.filter_map(f).last() == id);
    } else {
        assert(head[i] == key);
        lemma_filter_map_has(head, f, key, id);
        let j = choose|j: int| 0 <= j < head.filter_map(f).len() && head.filter_map(f)[j] == id;
        assert(s.filter_map(f)[j] == id);
    }
}

/// A configuration that is saved is found again under its id, with the text of
/// the id and the merged source; nothing else changes.
pub proof fn saved_configurations_are_found(
    storage: StorageView,
    id: u128,
    config: NetworkConfig,
    source: PersistedConfigSource,
    other: u128,
)
    requires
        other != id,
    ensures
        ({
            let after = storage.saved(id, config, source);
            &&& after.configs.dom() == storage.configs.dom().insert(id)
            &&& after.configs[id].config == config
            &&& after.configs[id].inst_id == hyphenated(id)
            &&& after.configs[id].source == storage.stored_source(id, source)
            &&& storage.configs.dom().contains(other) ==> after.configs[other]
                == storage.configs[other]
            &&& after.enabled == storage.enabled
        }),
{
    let after = storage.saved(id, config, source);
    assert(after.configs.dom() =~= storage.configs.dom().insert(id));
}

/// Saving twice is saving the last configuration, with the sources merged in the
/// order in which they came.
pub proof fn the_last_save_counts(
    storage: StorageView,
    id: u128,
    first: NetworkConfig,
    first_source: PersistedConfigSource,
    last: NetworkConfig,
    last_source: PersistedConfigSource,
)
    ensures
        storage.saved(id, first, first_source).saved(id, last, last_source) == storage.saved(
            id,
            last,
            merged(first_source, last_source),
        ),
{
    assert(storage.saved(id, first, first_source).saved(id, last, last_source).configs
        =~= storage.saved(id, last, merged(first_source, last_source)).configs);
}

/// A network of the configuration server, or of an unrecorded owner, is not taken
/// over by an ambiguous report: it keeps its owner when it is reported as the user's.
pub proof fn ambiguous_reports_keep_the_owner(
    storage: StorageView,
    id: u128,
    config: NetworkConfig,
)
    requires
        storage.configs.dom().contains(id),
    ensures
        storage.saved(id, config, PersistedConfigSource::User).configs[id].source
            == storage.configs[id].source,
{
}

/// A network that the user claims is the user's, whoever owned it before and
/// whatever was reported of it; nothing else of it, and no other network, changes.
pub proof fn claimed_networks_are_the_users(storage: StorageView, id: u128, other: u128)
    requires
        other != id,
    ensures
        ({
            let after = storage.claimed(id);
            &&& after.configs.dom() == storage.configs.dom()
            &&& storage.configs.dom().contains(id) ==> {
                &&& after.configs[id].source is User
                &&& after.configs[id].config == storage.configs[id].config
                &&& after.configs[id].inst_id == storage.configs[id].inst_id
            }
            &&& storage.configs.dom().contains(other) ==> after.configs[other]
                == storage.configs[other]
            &&& after.enabled == storage.enabled
        }),
{
    assert(storage.claimed(id).configs.dom() =~= storage.configs.dom());
}

/// A configuration that is saved and claimed is stored as the user's, whatever was
/// stored before and with whatever source it was reported.
pub proof fn a_claim_repairs_the_owner(
    storage: StorageView,
    id: u128,
    config: NetworkConfig,
    source: PersistedConfigSource,
)
    ensures
        storage.saved(id, config, source).claimed(id).configs[id] == (GUIConfigView {
            inst_id: hyphenated(id),
            config,
            source: PersistedConfigSource::User,
        }),
{
}

/// A network that is deleted is neither stored nor enabled; nothing else changes.
pub proof fn deleted_networks_are_gone(storage: StorageView, ids: Set<u128>, id: u128)
    ensures
        ({
            let after = storage.deleted(ids);
            &&& ids.contains(id) ==> !after.configs.dom().contains(id) && !after.enabled.contains(
                id,
            )
            &&& !ids.contains(id) ==> {
                &&& after.configs.dom().contains(id) == storage.configs.dom().contains(id)
                &&& after.configs.dom().contains(id) ==> after.configs[id] == storage.configs[id]
                &&& after.enabled.contains(id) == storage.enabled.contains(id)
            }
        }),
{
}

/// A network is enabled exactly if it was enabled last; switching one leaves the
/// others and all configurations as they were.
pub proof fn the_last_switch_counts(
    storage: StorageView,
    id: u128,
    first: bool,
    last: bool,
    other: u128,
)
    requires
        other != id,
    ensures
        storage.switched(id, first).switched(id, last) == storage.switched(id, last),
        storage.switched(id, last).enabled.contains(id) == !last,
        storage.switched(id, last).enabled.contains(other) == storage.enabled.contains(other),
        storage.switched(id, last).configs == storage.configs,
{
    assert(storage.switched(id, first).switched(id, last).enabled =~= storage.switched(
        id,
        last,
    ).enabled);
}

/// How often a value stands in a listing, for the first of the keys.
proof fn lemma_listed_count(
    storage: StorageView,
    props: ListNetworkProps,
    keys: Seq<u128>,
    value: GUIConfigView,
)
    requires
        keys.no_duplicates(),
    ensures
        keys.filter_map(storage.listed_forms(props)).to_multiset().count(value)
            == keys.to_set().filter(storage.holds(props, value)).len(),
        keys.to_set().finite(),
    decreases keys.len(),
{
    broadcast use vstd::multiset::group_multiset_axioms;
    broadcast use vstd::seq_lib::group_to_multiset_ensures;

    reveal(Seq::filter_map);
    let forms = storage.listed_forms(props);
    let holds = storage.holds(props, value);
    if keys.len() == 0 {
        assert(keys.to_set() =~= Set::empty());
        assert(keys.to_set().filter(holds) =~= Set::empty());
        assert(keys.filter_map(forms) =~= Seq::empty());
    } else {
        let rest = keys.drop_last();
        let last = keys.last();
        lemma_listed_count(storage, props, rest, value);
        lemma_take_set(keys, keys.len() - 1);
        assert(keys.take(keys.len() - 1) =~= rest);
        assert(keys.take(keys.len() as int) =~= keys);
        assert(!rest.to_set().contains(last));
        let before = rest.to_set().filter(holds);
        if forms(last) is Some {
            assert(keys.filter_map(forms) =~= rest.filter_map(forms).push(storage.configs[last]));
        } else {
            assert(keys.filter_map(forms) =~= rest.filter_map(forms));
        }
        rest.to_set().lemma_len_filter(holds);
        if holds(last) {
            assert(keys.to_set().filter(holds) =~= before.insert(last));
        } else {
            assert(keys.to_set().filter(holds) =~= before);
        }
    }
}

/// A listing shows each value as often as there are keys that hold it and belong
/// to the listing, whatever the order in which it was made.
pub proof fn listings_count_their_keys(
    storage: StorageView,
    props: ListNetworkProps,
    listing: Seq<GUIConfigView>,
    value: GUIConfigView,
)
    requires
        storage.lists(props, listing),
    ensures
        listing.to_multiset().count(value) == storage.keys_of(props, value).len(),
        storage.keys_of(props, value).finite(),
        listing.contains(value) <==> exists|key: u128| #[trigger]
            storage.keys_of(props, value).contains(key),
{
    broadcast use vstd::seq_lib::group_to_multiset_ensures;

    let keys = choose|keys: Seq<u128>| #[trigger]
        storage.orders(keys) && listing == keys.filter_map(storage.listed_forms(props));
    lemma_listed_count(storage, props, keys, value);
    keys.to_set().lemma_len_filter(storage.holds(props, value));
    let found = storage.keys_of(props, value);
    if found.len() > 0 {
        assert(found.contains(found.choose()));
    }
    if exists|key: u128| #[trigger] found.contains(key) {
        let key = choose|key: u128| #[trigger] found.contains(key);
        if found.len() == 0 {
            assert(found =~= Set::empty());
        }
    }
}

/// Two listings of the same storage by the same choice are permutations of each
/// other.
pub proof fn listings_are_permutations(
    storage: StorageView,
    props: ListNetworkProps,
    one: Seq<GUIConfigView>,
    other: Seq<GUIConfigView>,
)
    requires
        storage.lists(props, one),
        storage.lists(props, other),
    ensures
        one.to_multiset() == other.to_multiset(),
{
    assert forall|value: GUIConfigView| #[trigger]
        one.to_multiset().count(value) == other.to_multiset().count(value) by {
        listings_count_their_keys(storage, props, one, value);
        listings_count_their_keys(storage, props, other, value);
    }
    assert(one.to_multiset() =~= other.to_multiset());
}

/// Listings from different calls agree: the listing of all shows every stored
/// configuration, the enabled and the disabled ones together are a permutation of
/// it, and a configuration is listed as enabled exactly if a key that holds it is
/// enabled. What is enabled without being stored is listed nowhere.
pub proof fn listings_are_complete(
    storage: StorageView,
    all: Seq<GUIConfigView>,
    on: Seq<GUIConfigView>,
    off: Seq<GUIConfigView>,
)
    requires
        storage.lists(ListNetworkProps::All, all),
        storage.lists(ListNetworkProps::EnabledOnly, on),
        storage.lists(ListNetworkProps::DisabledOnly, off),
    ensures
        all.len() == storage.configs.dom().len(),
        forall|value: GUIConfigView| #[trigger]
            all.to_multiset().count(value) == storage.keys_of(ListNetworkProps::All, value).len(),
        all.to_multiset() == on.to_multiset().add(off.to_multiset()),
        forall|value: GUIConfigView| #[trigger]
            all.contains(value) <==> exists|key: u128| #[trigger]
                storage.configs.dom().contains(key) && storage.configs[key] == value,
        forall|value: GUIConfigView| #[trigger]
            on.contains(value) <==> exists|key: u128| #[trigger]
                storage.configs.dom().contains(key) && storage.configs[key] == value
                    && storage.enabled.contains(key),
        forall|value: GUIConfigView| #[trigger]
            off.contains(value) <==> exists|key: u128| #[trigger]
                storage.configs.dom().contains(key) && storage.configs[key] == value
                    && !storage.enabled.contains(key),
{
    broadcast use vstd::multiset::group_multiset_axioms;

    assert forall|value: GUIConfigView| #[trigger]
        all.to_multiset().count(value) == on.to_multiset().count(value)
            + off.to_multiset().count(value) && all.to_multiset().count(value) == storage.keys_of(
        ListNetworkProps::All,
        value,
    ).len() by {
        listings_count_their_keys(storage, ListNetworkProps::All, all, value);
        listings_count_their_keys(storage, ListNetworkProps::EnabledOnly, on, value);
        listings_count_their_keys(storage, ListNetworkProps::DisabledOnly, off, value);
        let enabled = storage.keys_of(ListNetworkProps::EnabledOnly, value);
        let disabled = storage.keys_of(ListNetworkProps::DisabledOnly, value);
        assert(storage.keys_of(ListNetworkProps::All, value) =~= enabled + disabled);
        vstd::set_lib::lemma_set_disjoint_lens(enabled, disabled);
    }
    assert(all.to_multiset() =~= on.to_multiset().add(off.to_multiset()));
    lemma_members(storage, ListNetworkProps::All, all);
    lemma_members(storage, ListNetworkProps::EnabledOnly, on);
    lemma_members(storage, ListNetworkProps::DisabledOnly, off);
    let keys = choose|keys: Seq<u128>| #[trigger]
        storage.orders(keys) && all == keys.filter_map(
            storage.listed_forms(ListNetworkProps::All),
        );
    lemma_all_are_listed(storage, keys);
    keys.unique_seq_to_set();
}

/// The values that a listing shows.
proof fn lemma_members(storage: StorageView, props: ListNetworkProps, listing: Seq<GUIConfigView>)
    requires
        storage.lists(props, listing),
    ensures
        forall|value: GUIConfigView| #[trigger]
            listing.contains(value) <==> exists|key: u128| #[trigger]
                storage.configs.dom().contains(key) && storage.configs[key] == value
                    && storage.listed(props, key),
{
    assert forall|value: GUIConfigView| #[trigger]
        listing.contains(value) <==> exists|key: u128| #[trigger]
            storage.configs.dom().contains(key) && storage.configs[key] == value
                && storage.listed(props, key) by {
        listings_count_their_keys(storage, props, listing, value);
        if listing.contains(value) {
            let key = choose|key: u128| #[trigger] storage.keys_of(props, value).contains(key);
            assert(storage.configs.dom().contains(key));
        }
        if exists|key: u128| #[trigger]
            storage.configs.dom().contains(key) && storage.configs[key] == value && storage.listed(
                props,
                key,
            ) {
            let key = choose|key: u128| #[trigger]
                storage.configs.dom().contains(key) && storage.configs[key] == value
                    && storage.listed(props, key);
            assert(storage.keys_of(props, value).contains(key));
        }
    }
}

/// The listing of all is as long as the keys.
proof fn lemma_all_are_listed(storage: StorageView, keys: Seq<u128>)
    ensures
        keys.filter_map(storage.listed_forms(ListNetworkProps::All)).len() == keys.len(),
    decreases keys.len(),
{
    reveal(Seq::filter_map);
    if keys.len() > 0 {
        lemma_all_are_listed(storage, keys.drop_last());
    }
}

/// Disabling all networks that a listing names leaves no enabled network with a
/// TUN device, where every network is stored under the id that it spells.
pub proof fn disabling_the_listed_leaves_none(storage: StorageView, web_only: bool, ids: Seq<u128>)
    requires
        storage.spells_its_ids(),
        storage.lists_tun(web_only, ids),
    ensures
        !storage.disabled(ids.to_set()).has_tun(web_only),
{
    tun_listings_are_complete(storage, web_only, ids);
    let after = storage.disabled(ids.to_set());
    assert forall|key: u128| #[trigger] after.configs.dom().contains(key) implies after.tun_id(
        key,
        web_only,
    ) is None by {
        if storage.tun_id(key, web_only) is Some {
            assert(storage.configs.dom().contains(key));
            assert(storage.spells(key));
            assert(storage.is_tun(web_only, key));
            assert(ids.contains(key));
            assert(ids.to_set().contains(key));
        }
    }
}

/// An enabled network with a TUN device is one that is stored, enabled under the
/// key it is stored under, and has a device; it goes by the id that its own
/// configuration spells. Of those, the configuration server manages the ones that
/// are stored as its own.
pub proof fn a_tun_network_is_stored_and_enabled(storage: StorageView, web_only: bool, id: u128)
    ensures
        storage.is_tun(web_only, id) <==> exists|key: u128|
            {
                &&& #[trigger] storage.configs.dom().contains(key)
                &&& storage.enabled.contains(key)
                &&& !storage.configs[key].config.no_tun
                &&& parsed_uuid(storage.configs[key].config.instance_id@) == Ok::<u128, Seq<char>>(
                    id,
                )
                &&& web_only ==> storage.configs[key].source is Web
            },
{
    if storage.is_tun(web_only, id) {
        let key = choose|key: u128| #[trigger]
            storage.configs.dom().contains(key) && storage.tun_id(key, web_only) == Some(id);
        assert(storage.configs.dom().contains(key));
    }
    if exists|key: u128|
        {
            &&& #[trigger] storage.configs.dom().contains(key)
            &&& storage.enabled.contains(key)
            &&& !storage.configs[key].config.no_tun
            &&& parsed_uuid(storage.configs[key].config.instance_id@) == Ok::<u128, Seq<char>>(id)
            &&& web_only ==> storage.configs[key].source is Web
        } {
        let key = choose|key: u128|
            {
                &&& #[trigger] storage.configs.dom().contains(key)
                &&& storage.enabled.contains(key)
                &&& !storage.configs[key].config.no_tun
                &&& parsed_uuid(storage.configs[key].config.instance_id@) == Ok::<u128, Seq<char>>(
                    id,
                )
                &&& web_only ==> storage.configs[key].source is Web
            };
        assert(storage.tun_id(key, web_only) == Some(id));
    }
}

/// There is an enabled network with a TUN device exactly if some id is one.
pub proof fn a_tun_network_is_any_that_is_one(storage: StorageView, web_only: bool)
    ensures
        storage.has_tun(web_only) <==> exists|id: u128| storage.is_tun(web_only, id),
{
    if storage.has_tun(web_only) {
        let key = choose|key: u128| #[trigger]
            storage.configs.dom().contains(key) && storage.tun_id(key, web_only) is Some;
        assert(storage.is_tun(web_only, storage.tun_id(key, web_only)->0));
    }
    if exists|id: u128| storage.is_tun(web_only, id) {
        let id = choose|id: u128| storage.is_tun(web_only, id);
        let key = choose|key: u128| #[trigger]
            storage.configs.dom().contains(key) && storage.tun_id(key, web_only) == Some(id);
        assert(storage.configs.dom().contains(key));
    }
}

/// A network that was not stored gets the owner it is reported with. One that was
/// keeps its owner where it is reported as the user's, and otherwise gets the owner
/// it is reported with.
pub proof fn reports_decide_the_owner(
    storage: StorageView,
    id: u128,
    config: NetworkConfig,
    source: PersistedConfigSource,
)
    ensures
        ({
            let owner = storage.saved(id, config, source).configs[id].source;
            &&& !storage.configs.dom().contains(id) ==> owner == source
            &&& storage.configs.dom().contains(id) && source is User ==> owner
                == storage.configs[id].source
            &&& storage.configs.dom().contains(id) && !(source is User) ==> owner == source
        }),
{
}

/// Disabling networks takes them out of the enabled ones, and changes nothing else.
pub proof fn disabled_networks_are_not_enabled(storage: StorageView, ids: Set<u128>, id: u128)
    ensures
        storage.disabled(ids).enabled.contains(id) <==> storage.enabled.contains(id)
            && !ids.contains(id),
        storage.disabled(ids).configs == storage.configs,
        !StorageView::fresh().enabled.contains(id),
        !StorageView::fresh().configs.dom().contains(id),
{
}

/// What is handed out to be saved leaves nothing out, names nothing twice and adds
/// nothing: neither of the enabled networks nor of the stored ones.
pub proof fn everything_is_handed_out_once(
    storage: StorageView,
    ids: Seq<u128>,
    keys: Seq<u128>,
    id: u128,
)
    requires
        storage.orders_enabled(ids),
        storage.orders(keys),
    ensures
        ids.contains(id) <==> storage.enabled.contains(id),
        keys.contains(id) <==> storage.configs.dom().contains(id),
        forall|i: int, j: int|
            0 <= i < j < ids.len() ==> #[trigger] ids[i] != #[trigger] ids[j],
        forall|i: int, j: int|
            0 <= i < j < keys.len() ==> #[trigger] keys[i] != #[trigger] keys[j],
        ids.len() == storage.enabled.len(),
        keys.len() == storage.configs.dom().len(),
{
    assert(ids.to_set().contains(id) <==> ids.contains(id));
    assert(keys.to_set().contains(id) <==> keys.contains(id));
    ids.unique_seq_to_set();
    keys.unique_seq_to_set();
}

} // verus!
