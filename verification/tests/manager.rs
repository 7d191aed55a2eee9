use easytier_gui::config::{NetworkConfig, PersistedConfigSource};
use easytier_gui::manager::GUIClientManager;

const A: u128 = 0x01234567_89ab_cdef_0123_456789abcdef;
const A_TEXT: &str = "01234567-89ab-cdef-0123-456789abcdef";
const B: u128 = 0xfedcba98_7654_3210_fedc_ba9876543210;
const B_TEXT: &str = "fedcba98-7654-3210-fedc-ba9876543210";
const C: u128 = 7;
const C_TEXT: &str = "00000000-0000-0000-0000-000000000007";

fn network(instance_id: &str, no_tun: bool) -> NetworkConfig {
    NetworkConfig {
        instance_id: instance_id.to_string(),
        no_tun,
        encoded: "{}".to_string(),
    }
}

fn manager() -> GUIClientManager {
    let mut manager = GUIClientManager::new();
    let storage = &mut manager.storage;
    storage.save_config(A, network(A_TEXT, false), PersistedConfigSource::User);
    storage.save_config(B, network(B_TEXT, false), PersistedConfigSource::Web);
    storage.save_config(C, network(C_TEXT, true), PersistedConfigSource::Web);
    manager
}

#[test]
fn only_enabled_networks_with_a_device_are_listed() {
    let mut manager = manager();
    assert!(manager.get_enabled_instances_with_tun_ids().is_empty());
    assert!(manager.has_no_tun());
    assert!(manager.first_tun_instance().is_none());
    manager.storage.switch_network(A, false);
    manager.storage.switch_network(B, false);
    manager.storage.switch_network(C, false);
    let mut ids = manager.get_enabled_instances_with_tun_ids();
    ids.sort();
    assert_eq!(ids, vec![A, B]);
    assert_eq!(manager.get_enabled_instances_with_web_like_tun_ids(), vec![B]);
    assert!(manager.is_tun_instance(A));
    assert!(!manager.is_tun_instance(C));
    assert!(!manager.has_no_tun());
    manager.storage.switch_network(B, true);
    assert_eq!(manager.first_tun_instance(), Some(A));
    assert!(manager.get_enabled_instances_with_web_like_tun_ids().is_empty());
}

#[test]
fn a_network_counts_under_the_id_that_it_spells() {
    let mut manager = GUIClientManager::new();
    let storage = &mut manager.storage;
    storage.save_config(A, network(B_TEXT, false), PersistedConfigSource::User);
    storage.save_config(C, network("nothing", false), PersistedConfigSource::User);
    storage.switch_network(A, false);
    storage.switch_network(C, false);
    assert_eq!(manager.get_enabled_instances_with_tun_ids(), vec![B]);
    assert!(!manager.is_tun_instance(A));
    assert!(!manager.is_tun_instance(C));
}

#[test]
fn an_enabled_network_that_is_not_stored_does_not_count() {
    let mut manager = GUIClientManager::new();
    manager.storage.switch_network(A, false);
    assert!(manager.has_no_tun());
}
