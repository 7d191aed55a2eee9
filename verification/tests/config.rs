use easytier_gui::config::{
    ConfigSource, GUIConfig, NetworkConfig, PersistedConfigSource, StoredGuiConfig,
};

const USER: PersistedConfigSource = PersistedConfigSource::User;
const WEB: PersistedConfigSource = PersistedConfigSource::Web;
const LEGACY: PersistedConfigSource = PersistedConfigSource::Legacy;

fn network(no_tun: bool) -> NetworkConfig {
    NetworkConfig {
        instance_id: "01234567-89ab-cdef-0123-456789abcdef".to_string(),
        no_tun,
        encoded: "{}".to_string(),
    }
}

/// Reads a stored configuration the way the client does.
fn read_stored(text: &str) -> StoredGuiConfig {
    let value: serde_json::Value = serde_json::from_str(text).unwrap();
    let source = value.get("source").and_then(|source| source.as_str());
    StoredGuiConfig {
        config: NetworkConfig {
            instance_id: String::new(),
            no_tun: false,
            encoded: value.get("config").unwrap().to_string(),
        },
        source: PersistedConfigSource::from_stored_name(source),
    }
}

#[test]
fn stored_gui_config_defaults_missing_source_to_legacy() {
    let stored = read_stored("{\"config\": {}}");
    assert_eq!(stored.source, PersistedConfigSource::Legacy);
}

#[test]
fn stored_gui_config_deserializes_webhook_source_as_web() {
    let stored = read_stored("{\"config\": {}, \"source\": \"webhook\"}");
    assert_eq!(stored.source, PersistedConfigSource::Web);
}

#[test]
fn stored_gui_config_defaults_unknown_source_to_legacy() {
    let stored = read_stored("{\"config\": {}, \"source\": \"unknown\"}");
    assert_eq!(stored.source, PersistedConfigSource::Legacy);
}

#[test]
fn persisted_source_merge_keeps_legacy_and_web_over_ambiguous_user() {
    assert_eq!(
        PersistedConfigSource::Legacy.merge_persisted(PersistedConfigSource::User),
        PersistedConfigSource::Legacy
    );
    assert_eq!(
        PersistedConfigSource::Web.merge_persisted(PersistedConfigSource::User),
        PersistedConfigSource::Web
    );
    assert_eq!(
        PersistedConfigSource::Legacy.merge_persisted(PersistedConfigSource::Web),
        PersistedConfigSource::Web
    );
}

#[test]
fn only_web_configs_are_web_like() {
    assert!(!PersistedConfigSource::Legacy.is_web_like());
    assert!(!PersistedConfigSource::User.is_web_like());
    assert!(PersistedConfigSource::Web.is_web_like());
}

#[test]
fn merging_covers_every_pair() {
    let merged = vec![
        (USER, USER, USER),
        (USER, WEB, WEB),
        (USER, LEGACY, LEGACY),
        (WEB, USER, WEB),
        (WEB, WEB, WEB),
        (WEB, LEGACY, LEGACY),
        (LEGACY, USER, LEGACY),
        (LEGACY, WEB, WEB),
        (LEGACY, LEGACY, LEGACY),
    ];
    for (existing, incoming, expected) in merged {
        assert_eq!(existing.merge_persisted(incoming), expected);
    }
}

#[test]
fn merging_is_associative_on_all_sources() {
    for a in vec![USER, WEB, LEGACY] {
        for b in vec![USER, WEB, LEGACY] {
            for c in vec![USER, WEB, LEGACY] {
                assert_eq!(
                    a.merge_persisted(b).merge_persisted(c),
                    a.merge_persisted(b.merge_persisted(c))
                );
            }
        }
    }
}

#[test]
fn runtime_sources_survive_being_stored() {
    for source in vec![ConfigSource::User, ConfigSource::Web] {
        let stored = PersistedConfigSource::from_runtime_source(source);
        assert_eq!(stored.to_runtime_source(), source);
    }
    assert_eq!(
        PersistedConfigSource::Legacy.to_runtime_source(),
        ConfigSource::User
    );
}

#[test]
fn stored_names_are_those_of_the_files() {
    assert_eq!(PersistedConfigSource::User.stored_name(), "user");
    assert_eq!(PersistedConfigSource::Web.stored_name(), "web");
    assert_eq!(PersistedConfigSource::Legacy.stored_name(), "legacy");
    for source in vec![
        PersistedConfigSource::User,
        PersistedConfigSource::Web,
        PersistedConfigSource::Legacy,
    ] {
        let name = source.stored_name();
        assert_eq!(
            PersistedConfigSource::from_stored_name(Some(name.as_str())),
            source
        );
    }
    assert_eq!(
        PersistedConfigSource::from_stored_name(Some("User")),
        PersistedConfigSource::Legacy
    );
    assert_eq!(
        PersistedConfigSource::default(),
        PersistedConfigSource::Legacy
    );
}

#[test]
fn a_stored_configuration_keeps_what_it_was_made_of() {
    let config = GUIConfig::new("id".to_string(), network(true), PersistedConfigSource::Web);
    assert_eq!(config.get_network_inst_id(), "id");
    assert_eq!(config.get_network_config_source(), ConfigSource::Web);
    assert_eq!(config.source(), PersistedConfigSource::Web);
    assert!(config.no_tun());
    assert_eq!(config.instance_id(), "01234567-89ab-cdef-0123-456789abcdef");
    assert_eq!(config.get_network_config().encoded, "{}");
    let copy = config.clone();
    assert_eq!(copy.get_network_inst_id(), "id");
    let stored = config.into_stored();
    assert_eq!(stored.source, PersistedConfigSource::Web);
    assert!(stored.config.no_tun);
}
