//! Network configurations as the client keeps them, and where they came from.

use crate::text::same_text;
use vstd::prelude::*;

verus! {

/// Where the core says that a running configuration came from.
#[derive(Debug, Clone, Copy, PartialEq, Eq, Structural)]
pub enum ConfigSource {
    User,
    Web,
}

/// Where a stored configuration came from. `Legacy` is a configuration stored
/// before sources were recorded.
#[derive(Debug, Clone, Copy, PartialEq, Eq, Structural)]
pub enum PersistedConfigSource {
    User,
    Web,
    Legacy,
}

impl Default for PersistedConfigSource {
    fn default() -> (r: Self)
        ensures
            r == PersistedConfigSource::Legacy,
    {
        PersistedConfigSource::Legacy
    }
}

/// The source to store for `source`, the source the core reports.
pub open spec fn persisted(source: ConfigSource) -> PersistedConfigSource {
    match source {
        ConfigSource::User => PersistedConfigSource::User,
        ConfigSource::Web => PersistedConfigSource::Web,
    }
}

/// The source to report to the core for the stored `source`.
pub open spec fn runtime(source: PersistedConfigSource) -> ConfigSource {
    if source is Web {
        ConfigSource::Web
    } else {
        ConfigSource::User
    }
}

/// The source to store when `incoming` arrives for a configuration stored
/// with `existing`: an incoming `User` never replaces another source.
pub open spec fn merged(
    existing: PersistedConfigSource,
    incoming: PersistedConfigSource,
) -> PersistedConfigSource {
    if incoming is User {
        existing
    } else {
        incoming
    }
}

/// The name under which `source` is stored.
pub open spec fn source_name(source: PersistedConfigSource) -> Seq<char> {
    match source {
        PersistedConfigSource::User => "user"@,
        PersistedConfigSource::Web => "web"@,
        PersistedConfigSource::Legacy => "legacy"@,
    }
}

/// The source that a stored name stands for. A missing name and a name that is
/// not known stand for `Legacy`.
pub open spec fn named_source(name: Option<Seq<char>>) -> PersistedConfigSource {
    match name {
        Some(n) => if n == "user"@ {
            PersistedConfigSource::User
        } else if n == "web"@ || n == "webhook"@ {
            PersistedConfigSource::Web
        } else {
            PersistedConfigSource::Legacy
        },
        None => PersistedConfigSource::Legacy,
    }
}

impl PersistedConfigSource {
    /// The source to store for a source that the core reports.
    pub fn from_runtime_source(source: ConfigSource) -> (r: Self)
        ensures
            r == persisted(source),
    {
        match source {
            ConfigSource::User => PersistedConfigSource::User,
            ConfigSource::Web => PersistedConfigSource::Web,
        }
    }

    /// The source to store when `incoming` arrives for a configuration that is
    /// stored with this source. Older runtimes report a missing source as
    /// `User`, so that one does not weaken the stored ownership, until the
    /// configuration server reports its own or the user saves the configuration.
    pub fn merge_persisted(self, incoming: Self) -> (r: Self)
        ensures
            r == merged(self, incoming),
    {
        match (self, incoming) {
            (PersistedConfigSource::Web, PersistedConfigSource::User)
            | (PersistedConfigSource::Legacy, PersistedConfigSource::User) => self,
            (_, next) => next,
        }
    }

    /// The source to report to the core.
    pub fn to_runtime_source(self) -> (r: ConfigSource)
        ensures
            r == runtime(self),
    {
        match self {
            PersistedConfigSource::User | PersistedConfigSource::Legacy => ConfigSource::User,
            PersistedConfigSource::Web => ConfigSource::Web,
        }
    }

    /// Whether the configuration is managed by the configuration server.
    pub fn is_web_like(self) -> (r: bool)
        ensures
            r == (self is Web),
    {
        matches!(self, PersistedConfigSource::Web)
    }

    /// The name under which this source is stored.
    pub fn stored_name(self) -> (r: String)
        ensures
            r@ == source_name(self),
    {
        match self {
            PersistedConfigSource::User => "user".to_string(),
            PersistedConfigSource::Web => "web".to_string(),
            PersistedConfigSource::Legacy => "legacy".to_string(),
        }
    }

    /// The source that a stored name stands for.
    pub fn from_stored_name(name: Option<&str>) -> (r: Self)
        ensures
            r == named_source(
                match name {
                    Some(n) => Some(n@),
                    None => None,
                },
            ),
    {
        match name {
            Some(n) => if same_text(n, "user") {
                PersistedConfigSource::User
            } else if same_text(n, "web") || same_text(n, "webhook") {
                PersistedConfigSource::Web
            } else {
                PersistedConfigSource::Legacy
            },
            None => PersistedConfigSource::Legacy,
        }
    }
}

/// A network configuration: what the client itself reads of it, and the whole of
/// it in the form in which it is handed on.
#[derive(Debug)]
pub struct NetworkConfig {
    /// The instance id as the configuration spells it.
    pub instance_id: String,
    /// Whether the network runs without a TUN device.
    pub no_tun: bool,
    /// The complete configuration, encoded.
    pub encoded: String,
}

impl Clone for NetworkConfig {
    fn clone(&self) -> (r: Self)
        ensures
            r == *self,
    {
        NetworkConfig {
            instance_id: self.instance_id.clone(),
            no_tun: self.no_tun,
            encoded: self.encoded.clone(),
        }
    }
}

/// A configuration that the core can load: what the client reads of it, and its text.
#[derive(Debug)]
pub struct TomlConfig {
    pub id: u128,
    pub no_tun: bool,
    pub text: String,
}

/// A stored network configuration, without the id under which it is found.
#[derive(Debug)]
pub struct StoredGuiConfig {
    pub config: NetworkConfig,
    pub source: PersistedConfigSource,
}

/// A network configuration in the client's storage.
#[derive(Debug)]
pub struct GUIConfig {
    inst_id: String,
    config: NetworkConfig,
    source: PersistedConfigSource,
}

/// What a [`GUIConfig`] holds.
pub struct GUIConfigView {
    pub inst_id: Seq<char>,
    pub config: NetworkConfig,
    pub source: PersistedConfigSource,
}

impl View for GUIConfig {
    type V = GUIConfigView;

    closed spec fn view(&self) -> GUIConfigView {
        GUIConfigView { inst_id: self.inst_id@, config: self.config, source: self.source }
    }
}

impl Clone for GUIConfig {
    fn clone(&self) -> (r: Self)
        ensures
            r@ == self@,
    {
        GUIConfig {
            inst_id: self.inst_id.clone(),
            config: self.config.clone(),
            source: self.source,
        }
    }
}

impl GUIConfig {
    pub fn new(inst_id: String, config: NetworkConfig, source: PersistedConfigSource) -> (r: Self)
        ensures
            r@ == (GUIConfigView { inst_id: inst_id@, config, source }),
    {
        GUIConfig { inst_id, config, source }
    }

    /// The configuration as it is saved.
    pub fn into_stored(self) -> (r: StoredGuiConfig)
        ensures
            r.config == self@.config,
            r.source == self@.source,
    {
        StoredGuiConfig { config: self.config, source: self.source }
    }

    /// The text of the instance id under which the configuration is stored.
    pub fn get_network_inst_id(&self) -> (r: &str)
        ensures
            r@ == self@.inst_id,
    {
        self.inst_id.as_str()
    }

    /// A copy of the network configuration.
    pub fn get_network_config(&self) -> (r: NetworkConfig)
        ensures
            r == self@.config,
    {
        self.config.clone()
    }

    /// The source to report to the core.
    pub fn get_network_config_source(&self) -> (r: ConfigSource)
        ensures
            r == runtime(self@.source),
    {
        self.source.to_runtime_source()
    }

    /// The source with which the configuration is stored.
    pub fn source(&self) -> (r: PersistedConfigSource)
        ensures
            r == self@.source,
    {
        self.source
    }

    /// Whether the network runs without a TUN device.
    pub fn no_tun(&self) -> (r: bool)
        ensures
            r == self@.config.no_tun,
    {
        self.config.no_tun
    }

    /// The instance id as the network configuration spells it.
    pub fn instance_id(&self) -> (r: &str)
        ensures
            r@ == self@.config.instance_id@,
    {
        self.config.instance_id.as_str()
    }
}

/// Merging yields `User` only where both sources are `User`: ownership by the
/// configuration server, or by an unrecorded owner, is never lost to an
/// ambiguous report, and a definite report always takes hold.
pub proof fn ambiguous_reports_do_not_take_ownership(
    existing: PersistedConfigSource,
    incoming: PersistedConfigSource,
)
    ensures
        merged(existing, incoming) is User <==> existing is User && incoming is User,
        incoming is User ==> merged(existing, incoming) == existing,
        !(incoming is User) ==> merged(existing, incoming) == incoming,
        merged(existing, existing) == existing,
{
}

/// Merging may be grouped in any way: what is stored depends only on the order
/// in which the reports arrive.
pub proof fn merging_is_associative(
    a: PersistedConfigSource,
    b: PersistedConfigSource,
    c: PersistedConfigSource,
)
    ensures
        merged(merged(a, b), c) == merged(a, merged(b, c)),
{
}

/// A source that the core reports survives being stored and reported again. Only
/// what is stored as the configuration server's is reported as such.
pub proof fn runtime_sources_survive_storage(source: ConfigSource)
    ensures
        runtime(persisted(source)) == source,
        persisted(source) is User <==> source is User,
        persisted(source) is Web <==> source is Web,
        forall|stored: PersistedConfigSource| #[trigger] runtime(stored) is Web <==> stored is Web,
{
}

/// Every source is found again under the name it is stored under.
pub proof fn stored_names_are_read_back(source: PersistedConfigSource)
    ensures
        named_source(Some(source_name(source))) == source,
{
    reveal_strlit("user");
    reveal_strlit("web");
    reveal_strlit("webhook");
    reveal_strlit("legacy");
    assert("user"@[0] == 'u' && "web"@[0] == 'w' && "webhook"@[0] == 'w' && "legacy"@[0] == 'l');
}

/// A name stands for the user or for the configuration server only where it is
/// written in just these letters; any other, and none at all, leaves the owner
/// unrecorded.
pub proof fn few_names_stand_for_an_owner(name: Seq<char>)
    ensures
        named_source(Some(name)) is User <==> name == seq!['u', 's', 'e', 'r'],
        named_source(Some(name)) is Web <==> name == seq!['w', 'e', 'b'] || name == seq![
            'w',
            'e',
            'b',
            'h',
            'o',
            'o',
            'k',
        ],
        named_source(None) is Legacy,
        source_name(PersistedConfigSource::Web) == seq!['w', 'e', 'b'],
{
    reveal_strlit("user");
    reveal_strlit("web");
    reveal_strlit("webhook");
    assert("user"@ =~= seq!['u', 's', 'e', 'r']);
    assert("web"@ =~= seq!['w', 'e', 'b']);
    assert("webhook"@ =~= seq!['w', 'e', 'b', 'h', 'o', 'o', 'k']);
    assert(name == "user"@ ==> name[0] == 'u');
}

} // verus!
