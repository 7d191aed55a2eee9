use easytier_gui::config::{NetworkConfig, PersistedConfigSource};
use easytier_gui::storage::{GUIStorage, ListNetworkProps};

const A: u128 = 0x01234567_89ab_cdef_0123_456789abcdef;
const A_TEXT: &str = "01234567-89ab-cdef-0123-456789abcdef";
const B: u128 = 0xfedcba98_7654_3210_fedc_ba9876543210;
const B_TEXT: &str = "fedcba98-7654-3210-fedc-ba9876543210";

fn network(instance_id: &str, encoded: &str) -> NetworkConfig {
    NetworkConfig {
        instance_id: instance_id.to_string(),
        no_tun: false,
        encoded: encoded.to_string(),
    }
}

#[test]
fn a_saved_configuration_is_found_under_its_id() {
    let mut storage = GUIStorage::new();
    storage.save_config(A, network(A_TEXT, "first"), PersistedConfigSource::User);
    let found = storage.get_network_config(A_TEXT).unwrap().unwrap();
    assert_eq!(found.get_network_inst_id(), A_TEXT);
    assert_eq!(found.get_network_config().encoded, "first");
    assert_eq!(found.source(), PersistedConfigSource::User);
    assert!(storage.config(B).is_none());
    assert!(!storage.is_enabled(A));
}

#[test]
fn an_id_is_read_in_any_of_its_spellings() {
    let mut storage = GUIStorage::new();
    storage.save_config(A, network(A_TEXT, "first"), PersistedConfigSource::User);
    let plain = storage.get_network_config("0123456789ABCDEF0123456789ABCDEF");
    assert!(plain.unwrap().is_some());
    assert!(storage.get_network_config(B_TEXT).unwrap().is_none());
}

#[test]
fn text_that_is_no_id_is_refused_with_the_words_of_the_parser() {
    let storage = GUIStorage::new();
    let refusal = storage.get_network_config("not-an-id").unwrap_err();
    let words = uuid::Uuid::parse_str("not-an-id").unwrap_err().to_string();
    assert_eq!(refusal, words);
    assert!(!refusal.is_empty());
}

#[test]
fn saving_again_replaces_the_configuration_and_merges_the_source() {
    let mut storage = GUIStorage::new();
    storage.save_config(A, network(A_TEXT, "first"), PersistedConfigSource::Web);
    storage.save_config(A, network(A_TEXT, "second"), PersistedConfigSource::User);
    let found = storage.config(A).unwrap();
    assert_eq!(found.get_network_config().encoded, "second");
    assert_eq!(found.source(), PersistedConfigSource::Web);
    assert_eq!(storage.save_configs().len(), 1);
    storage.save_config(A, network(A_TEXT, "third"), PersistedConfigSource::Legacy);
    assert_eq!(
        storage.config(A).unwrap().source(),
        PersistedConfigSource::Legacy
    );
}

#[test]
fn deleting_forgets_and_disables() {
    let mut storage = GUIStorage::new();
    storage.save_config(A, network(A_TEXT, "a"), PersistedConfigSource::User);
    storage.save_config(B, network(B_TEXT, "b"), PersistedConfigSource::User);
    storage.switch_network(A, false);
    storage.switch_network(B, false);
    storage.delete_networks(&vec![A]);
    assert!(storage.config(A).is_none());
    assert!(!storage.is_enabled(A));
    assert!(storage.config(B).is_some());
    assert!(storage.is_enabled(B));
    storage.delete_networks(&vec![A, B, B]);
    assert!(storage.config(B).is_none());
    assert!(storage.save_enabled_networks().is_empty());
}

#[test]
fn the_last_switch_decides() {
    let mut storage = GUIStorage::new();
    storage.switch_network(A, false);
    storage.switch_network(A, false);
    assert_eq!(storage.save_enabled_networks(), vec![A_TEXT.to_string()]);
    storage.switch_network(A, true);
    assert!(!storage.is_enabled(A));
    storage.switch_network(A, true);
    assert!(storage.save_enabled_networks().is_empty());
}

#[test]
fn listings_split_into_enabled_and_disabled() {
    let mut storage = GUIStorage::new();
    storage.save_config(A, network(A_TEXT, "a"), PersistedConfigSource::User);
    storage.save_config(B, network(B_TEXT, "b"), PersistedConfigSource::Web);
    storage.switch_network(B, false);
    let all = storage.list_network_configs(ListNetworkProps::All);
    assert_eq!(all.len(), 2);
    let enabled = storage.list_network_configs(ListNetworkProps::EnabledOnly);
    assert_eq!(enabled.len(), 1);
    assert_eq!(enabled[0].get_network_inst_id(), B_TEXT);
    let disabled = storage.list_network_configs(ListNetworkProps::DisabledOnly);
    assert_eq!(disabled.len(), 1);
    assert_eq!(disabled[0].get_network_inst_id(), A_TEXT);
}

#[test]
fn what_is_handed_out_to_be_saved_is_what_is_stored() {
    let mut storage = GUIStorage::new();
    storage.save_config(A, network(A_TEXT, "a"), PersistedConfigSource::User);
    storage.save_config(B, network(B_TEXT, "b"), PersistedConfigSource::Web);
    storage.switch_network(A, false);
    storage.switch_network(B, false);
    let mut configs: Vec<String> = storage
        .save_configs()
        .iter()
        .map(|stored| format!("{} {:?}", stored.config.encoded, stored.source))
        .collect();
    configs.sort();
    assert_eq!(configs, vec!["a User".to_string(), "b Web".to_string()]);
    let mut enabled = storage.save_enabled_networks();
    enabled.sort();
    assert_eq!(enabled, vec![A_TEXT.to_string(), B_TEXT.to_string()]);
}

#[test]
fn listings_from_different_calls_agree() {
    let mut storage = GUIStorage::new();
    for id in 1..20u128 {
        storage.save_config(id, network("x", &id.to_string()), PersistedConfigSource::User);
        if id % 3 == 0 {
            storage.switch_network(id, false);
        }
    }
    storage.switch_network(B, false);
    let names = |props: ListNetworkProps| -> Vec<String> {
        storage
            .list_network_configs(props)
            .iter()
            .map(|config| config.get_network_config().encoded)
            .collect()
    };
    let mut all = names(ListNetworkProps::All);
    let on = names(ListNetworkProps::EnabledOnly);
    let mut both = names(ListNetworkProps::DisabledOnly);
    assert_eq!(on.len(), 6);
    assert!(on.iter().all(|name| name.parse::<u128>().unwrap() % 3 == 0));
    both.extend(on);
    all.sort();
    both.sort();
    assert_eq!(all.len(), 19);
    assert_eq!(all, both);
}
