use easytier_gui::config::{ConfigSource, NetworkConfig, PersistedConfigSource, TomlConfig};
use easytier_gui::effect::{Effect, GuiEvent, InstanceCall, Reply, RunOrigin};
use easytier_gui::flows::disable_tun::DisableTun;
use easytier_gui::flows::post_run::PostRun;
use easytier_gui::flows::pre_run::PreRun;
use easytier_gui::flows::remove_instance::RemoveNetworkInstance;
use easytier_gui::flows::run_instance::RunNetworkInstance;
use easytier_gui::flows::update_state::UpdateNetworkConfigState;
use easytier_gui::platform::Platform;
use easytier_gui::world::World;

const A: u128 = 0x01234567_89ab_cdef_0123_456789abcdef;
const A_TEXT: &str = "01234567-89ab-cdef-0123-456789abcdef";
const B: u128 = 0xfedcba98_7654_3210_fedc_ba9876543210;
const B_TEXT: &str = "fedcba98-7654-3210-fedc-ba9876543210";

fn network(instance_id: &str, no_tun: bool) -> NetworkConfig {
    NetworkConfig {
        instance_id: instance_id.to_string(),
        no_tun,
        encoded: "{}".to_string(),
    }
}

fn toml(id: u128, no_tun: bool) -> TomlConfig {
    TomlConfig {
        id,
        no_tun,
        text: "toml".to_string(),
    }
}

fn connected(platform: Platform) -> World {
    let mut world = World::new(platform);
    world.connected = true;
    world
}

/// A phone whose user wants to be connected, with the network `B` running.
fn phone(source: PersistedConfigSource) -> World {
    let mut world = connected(Platform::Android);
    world.intent.set_enabled(true);
    world.manager.storage.save_config(B, network(B_TEXT, false), source);
    world.manager.storage.switch_network(B, false);
    world
}

fn ok() -> Reply {
    Reply::Outcome(Ok(()))
}

fn failed() -> Reply {
    Reply::Outcome(Err("broken".to_string()))
}

fn refusal(effect: Effect) -> String {
    match effect {
        Effect::Finish(Err(error)) => error.text(),
        other => panic!("no refusal: {:?}", other),
    }
}

fn succeeded(effect: &Effect) -> bool {
    matches!(effect, Effect::Finish(Ok(())))
}

#[test]
fn a_stopped_phone_prepares_no_vpn() {
    let mut world = connected(Platform::Android);
    let flow = PreRun::new(toml(A, false), PersistedConfigSource::User, RunOrigin::Local);
    let (_, effect) = flow.step(&mut world, Reply::Done);
    assert_eq!(refusal(effect), "mobile_connection_stopped");
    let flow = PreRun::new(toml(A, true), PersistedConfigSource::User, RunOrigin::Local);
    let (_, effect) = flow.step(&mut world, Reply::Done);
    assert!(matches!(effect, Effect::ReadConfig(_)));
}

#[test]
fn a_user_network_stops_the_others_first() {
    let mut world = phone(PersistedConfigSource::Web);
    let flow = PreRun::new(toml(A, false), PersistedConfigSource::User, RunOrigin::Local);
    let (flow, effect) = flow.step(&mut world, Reply::Done);
    assert!(matches!(effect, Effect::SetNetworkState { id: B, disabled: true }));
    let (flow, effect) = flow.step(&mut world, ok());
    assert!(matches!(effect, Effect::ReadConfig(TomlConfig { id: A, .. })));
    assert!(world.manager.storage.config(A).is_none());
    let (flow, effect) = flow.step(&mut world, Reply::Config(Ok(network(A_TEXT, false))));
    assert!(matches!(effect, Effect::Emit(GuiEvent::SaveConfigs)));
    assert!(world.manager.storage.config(A).is_some());
    assert!(!world.manager.storage.is_enabled(A));
    let (flow, effect) = flow.step(&mut world, ok());
    assert!(matches!(effect, Effect::Emit(GuiEvent::PreRunNetworkInstance(A))));
    let (_, effect) = flow.step(&mut world, ok());
    assert!(succeeded(&effect));
}

#[test]
fn a_network_that_cannot_be_stopped_ends_the_preparation() {
    let mut world = phone(PersistedConfigSource::Web);
    let flow = PreRun::new(toml(A, false), PersistedConfigSource::User, RunOrigin::Local);
    let (flow, _) = flow.step(&mut world, Reply::Done);
    let (flow, effect) = flow.step(&mut world, failed());
    assert_eq!(refusal(effect), "broken");
    assert!(world.manager.storage.config(A).is_none());
    let (_, effect) = flow.step(&mut world, ok());
    assert_eq!(refusal(effect), "unexpected reply");
}

#[test]
fn the_server_does_not_replace_a_network_of_the_user() {
    for source in vec![PersistedConfigSource::User, PersistedConfigSource::Legacy] {
        for id in vec![A, B] {
            let mut world = phone(source);
            let web = PersistedConfigSource::Web;
            let flow = PreRun::new(toml(id, false), web, RunOrigin::ConfigServer);
            let (_, effect) = flow.step(&mut world, Reply::Done);
            assert_eq!(
                refusal(effect),
                "Android only supports one active TUN network; user-managed VPN remains active"
            );
            assert!(world.manager.storage.is_enabled(B));
        }
    }
}

#[test]
fn the_server_replaces_its_own_network() {
    let mut world = phone(PersistedConfigSource::Web);
    let web = PersistedConfigSource::Web;
    let flow = PreRun::new(toml(A, false), web, RunOrigin::ConfigServer);
    let (flow, effect) = flow.step(&mut world, Reply::Done);
    match effect {
        Effect::Instances { call, ids } => {
            assert_eq!(call, InstanceCall::Inspect);
            assert_eq!(ids, vec![B]);
        }
        other => panic!("{:?}", other),
    }
    let (flow, effect) = flow.step(&mut world, Reply::Deletable(Some(vec![Some(true)])));
    match effect {
        Effect::Instances { call, ids } => {
            assert_eq!(call, InstanceCall::Delete);
            assert_eq!(ids, vec![B]);
        }
        other => panic!("{:?}", other),
    }
    assert!(world.manager.storage.is_enabled(B));
    let (flow, effect) = flow.step(&mut world, ok());
    assert!(matches!(effect, Effect::Emit(GuiEvent::SaveEnabledNetworks)));
    assert!(!world.manager.storage.is_enabled(B));
    let (flow, effect) = flow.step(&mut world, ok());
    assert!(matches!(effect, Effect::ReadConfig(_)));
    let (_, effect) = flow.step(&mut world, Reply::Config(Err("unreadable".to_string())));
    assert_eq!(refusal(effect), "unreadable");
}

#[test]
fn a_network_that_may_not_be_stopped_keeps_the_server_out() {
    let mut world = phone(PersistedConfigSource::Web);
    let web = PersistedConfigSource::Web;
    let flow = PreRun::new(toml(A, false), web, RunOrigin::ConfigServer);
    let (flow, _) = flow.step(&mut world, Reply::Done);
    let (_, effect) = flow.step(&mut world, Reply::Deletable(Some(vec![Some(false)])));
    assert_eq!(
        refusal(effect),
        "TUN instance fedcba98-7654-3210-fedc-ba9876543210 cannot be stopped"
    );
    let flow = PreRun::new(toml(A, false), web, RunOrigin::ConfigServer);
    let (flow, _) = flow.step(&mut world, Reply::Done);
    let (_, effect) = flow.step(&mut world, Reply::Deletable(None));
    assert_eq!(refusal(effect), "Local instance manager unavailable");
    let flow = PreRun::new(toml(A, false), web, RunOrigin::ConfigServer);
    let (flow, _) = flow.step(&mut world, Reply::Done);
    let (_, effect) = flow.step(&mut world, Reply::Deletable(Some(vec![None])));
    assert!(matches!(effect, Effect::Instances { call: InstanceCall::Delete, .. }));
    let flow = PreRun::new(toml(A, false), web, RunOrigin::ConfigServer);
    let (flow, _) = flow.step(&mut world, Reply::Done);
    let (_, effect) = flow.step(&mut world, Reply::Deletable(Some(vec![])));
    assert_eq!(refusal(effect), "unexpected reply");
}

#[test]
fn a_network_makes_no_way_for_itself() {
    let mut world = phone(PersistedConfigSource::User);
    let flow = PreRun::new(toml(B, false), PersistedConfigSource::User, RunOrigin::Local);
    let (_, effect) = flow.step(&mut world, Reply::Done);
    assert!(matches!(effect, Effect::ReadConfig(_)));
}

#[test]
fn a_desktop_runs_networks_side_by_side() {
    let mut world = connected(Platform::Other);
    world.manager.storage.save_config(B, network(B_TEXT, false), PersistedConfigSource::User);
    world.manager.storage.switch_network(B, false);
    let flow = PreRun::new(toml(A, false), PersistedConfigSource::Web, RunOrigin::ConfigServer);
    let (_, effect) = flow.step(&mut world, Reply::Done);
    assert!(matches!(effect, Effect::ReadConfig(_)));
}

#[test]
fn what_was_run_while_stopped_is_deleted() {
    let mut world = phone(PersistedConfigSource::User);
    world.manager.storage.switch_network(B, true);
    world.intent.set_enabled(false);
    let (flow, effect) = PostRun::new(B).step(&mut world, Reply::Done);
    assert!(matches!(effect, Effect::DropInstance(B)));
    let (_, effect) = flow.step(&mut world, ok());
    assert_eq!(refusal(effect), "mobile_connection_stopped");
    assert!(!world.manager.storage.is_enabled(B));
    let (flow, _) = PostRun::new(B).step(&mut world, Reply::Done);
    let (_, effect) = flow.step(&mut world, failed());
    assert_eq!(refusal(effect), "broken");
    assert!(!world.manager.storage.is_enabled(B));
}

#[test]
fn what_was_run_is_enabled_and_announced() {
    let mut world = phone(PersistedConfigSource::User);
    let (flow, effect) = PostRun::new(A).step(&mut world, Reply::Done);
    assert!(matches!(effect, Effect::WatchInstance(A)));
    assert!(!world.manager.storage.is_enabled(A));
    let (flow, effect) = flow.step(&mut world, Reply::Done);
    assert!(matches!(effect, Effect::Emit(GuiEvent::PostRunNetworkInstance(A))));
    assert!(world.manager.storage.is_enabled(A));
    let (_, effect) = flow.step(&mut world, ok());
    assert!(succeeded(&effect));
    let mut world = connected(Platform::Other);
    let (flow, effect) = PostRun::new(A).step(&mut world, Reply::Done);
    assert!(matches!(effect, Effect::Emit(GuiEvent::PostRunNetworkInstance(A))));
    let (_, effect) = flow.step(&mut world, failed());
    assert_eq!(refusal(effect), "broken");
}

#[test]
fn every_network_with_a_device_is_disabled() {
    let mut world = phone(PersistedConfigSource::Web);
    world.manager.storage.save_config(A, network(A_TEXT, false), PersistedConfigSource::User);
    world.manager.storage.switch_network(A, false);
    let (flow, effect) = DisableTun::new(false).step(&world, Reply::Done);
    let first = match effect {
        Effect::SetNetworkState { id, disabled: true } => id,
        other => panic!("{:?}", other),
    };
    world.manager.storage.switch_network(first, true);
    let (flow, effect) = flow.step(&world, ok());
    let second = match effect {
        Effect::SetNetworkState { id, disabled: true } => id,
        other => panic!("{:?}", other),
    };
    world.manager.storage.switch_network(second, true);
    let mut both = vec![first, second];
    both.sort();
    assert_eq!(both, vec![A, B]);
    let (_, effect) = flow.step(&world, ok());
    assert!(succeeded(&effect));
    assert!(world.manager.has_no_tun());
}

#[test]
fn the_networks_of_the_server_can_be_disabled_alone() {
    let mut world = phone(PersistedConfigSource::Web);
    world.manager.storage.save_config(A, network(A_TEXT, false), PersistedConfigSource::User);
    world.manager.storage.switch_network(A, false);
    let (flow, effect) = DisableTun::new(true).step(&world, Reply::Done);
    assert!(matches!(effect, Effect::SetNetworkState { id: B, disabled: true }));
    let (_, effect) = flow.step(&world, failed());
    assert_eq!(refusal(effect), "broken");
    let (_, effect) = DisableTun::new(true).step(&connected(Platform::Android), Reply::Done);
    assert!(succeeded(&effect));
}

#[test]
fn a_network_is_prepared_run_and_completed() {
    let mut world = connected(Platform::Android);
    world.intent.set_enabled(true);
    let flow = RunNetworkInstance::new(network(A_TEXT, false), true);
    let (flow, effect) = flow.step(&world, Reply::Done);
    assert!(matches!(effect, Effect::LockControl));
    let (flow, effect) = flow.step(&world, Reply::Done);
    assert!(matches!(effect, Effect::OpenManager));
    let (flow, effect) = flow.step(&world, Reply::Answer(true));
    assert!(matches!(effect, Effect::GenerateConfig(_)));
    let (flow, effect) = flow.step(&world, Reply::Generated(Ok(toml(A, false))));
    match effect {
        Effect::PreRun { toml, source, origin } => {
            assert_eq!(toml.id, A);
            assert_eq!(source, PersistedConfigSource::User);
            assert_eq!(origin, RunOrigin::Local);
        }
        other => panic!("{:?}", other),
    }
    let (flow, effect) = flow.step(&world, ok());
    assert!(matches!(effect, Effect::RunInstance { save: true, .. }));
    let (flow, effect) = flow.step(&world, ok());
    assert!(matches!(effect, Effect::PostRun(A)));
    let (_, effect) = flow.step(&world, ok());
    assert!(succeeded(&effect));
}

#[test]
fn a_run_ends_where_it_fails() {
    let mut world = connected(Platform::Android);
    let (flow, _) = RunNetworkInstance::new(network(A_TEXT, false), true).step(&world, Reply::Done);
    let (_, effect) = flow.step(&world, Reply::Done);
    assert_eq!(refusal(effect), "mobile_connection_stopped");
    world.intent.set_enabled(true);
    for (answer, manager, words) in vec![
        (false, true, "Failed to acquire read lock for client manager"),
        (true, false, "RPC connection not initialized"),
    ] {
        world.connected = manager;
        let flow = RunNetworkInstance::new(network(A_TEXT, false), true);
        let (flow, _) = flow.step(&world, Reply::Done);
        let (flow, _) = flow.step(&world, Reply::Done);
        let (_, effect) = flow.step(&world, Reply::Answer(answer));
        assert_eq!(refusal(effect), words);
    }
    world.connected = true;
    let (flow, _) = RunNetworkInstance::new(network(A_TEXT, false), true).step(&world, Reply::Done);
    let (flow, _) = flow.step(&world, Reply::Done);
    let (flow, _) = flow.step(&world, Reply::Answer(true));
    let (_, effect) = flow.step(&world, Reply::Generated(Err("bad port".to_string())));
    assert_eq!(refusal(effect), "bad port");
}

#[test]
fn stopping_a_vpn_on_a_phone_stops_the_connection() {
    let mut world = phone(PersistedConfigSource::User);
    let token = world.intent.token();
    let flow = UpdateNetworkConfigState::new(B_TEXT.to_string(), true);
    let (flow, effect) = flow.step(&mut world, Reply::Done);
    assert!(matches!(effect, Effect::OpenManager));
    let (flow, effect) = flow.step(&mut world, Reply::Answer(true));
    assert!(matches!(effect, Effect::GetConfig(B)));
    let (flow, effect) = flow.step(&mut world, Reply::Config(Ok(network(B_TEXT, false))));
    assert!(matches!(effect, Effect::CloseWebClient));
    assert!(!world.intent.enabled());
    assert!(!world.intent.allows(token));
    assert_eq!(world.epoch.current(), 1);
    let (flow, effect) = flow.step(&mut world, Reply::Done);
    assert!(matches!(effect, Effect::LockControl));
    let (flow, effect) = flow.step(&mut world, Reply::Done);
    assert!(matches!(effect, Effect::OpenManager));
    let (flow, effect) = flow.step(&mut world, Reply::Answer(true));
    assert!(matches!(effect, Effect::SetNetworkState { id: B, disabled: true }));
    world.manager.storage.switch_network(B, true);
    let (flow, effect) = flow.step(&mut world, ok());
    assert!(matches!(effect, Effect::Emit(GuiEvent::VpnServiceStop)));
    let (_, effect) = flow.step(&mut world, ok());
    assert!(succeeded(&effect));
}

#[test]
fn a_stopped_phone_starts_no_stored_vpn() {
    let mut world = phone(PersistedConfigSource::User);
    world.intent.set_enabled(false);
    let flow = UpdateNetworkConfigState::new(B_TEXT.to_string(), false);
    let (flow, _) = flow.step(&mut world, Reply::Done);
    let (flow, _) = flow.step(&mut world, Reply::Answer(true));
    let (_, effect) = flow.step(&mut world, Reply::Config(Ok(network(B_TEXT, false))));
    assert_eq!(refusal(effect), "mobile_connection_stopped");
}

#[test]
fn a_stored_network_starts_as_what_it_is() {
    let mut world = connected(Platform::Other);
    let flow = UpdateNetworkConfigState::new(A_TEXT.to_string(), false);
    let (flow, effect) = flow.step(&mut world, Reply::Done);
    assert!(matches!(effect, Effect::LockControl));
    let (flow, _) = flow.step(&mut world, Reply::Done);
    let (flow, effect) = flow.step(&mut world, Reply::Answer(true));
    assert!(matches!(effect, Effect::GetConfigWithSource(A)));
    let found = (network(A_TEXT, false), ConfigSource::Web);
    let (flow, effect) = flow.step(&mut world, Reply::SourcedConfig(Ok(found)));
    assert!(matches!(effect, Effect::GenerateConfig(_)));
    let (flow, effect) = flow.step(&mut world, Reply::Generated(Ok(toml(A, false))));
    match effect {
        Effect::PreRun { source, origin, .. } => {
            assert_eq!(source, PersistedConfigSource::Web);
            assert_eq!(origin, RunOrigin::Local);
        }
        other => panic!("{:?}", other),
    }
    let (flow, effect) = flow.step(&mut world, ok());
    assert!(matches!(effect, Effect::SetNetworkState { id: A, disabled: false }));
    let (flow, effect) = flow.step(&mut world, ok());
    assert!(matches!(effect, Effect::PostRun(A)));
    let (_, effect) = flow.step(&mut world, failed());
    assert_eq!(refusal(effect), "broken");
}

#[test]
fn a_bad_id_is_refused_once_the_lock_is_held() {
    let mut world = connected(Platform::Other);
    let flow = UpdateNetworkConfigState::new("x".to_string(), false);
    let (flow, effect) = flow.step(&mut world, Reply::Done);
    assert!(matches!(effect, Effect::LockControl));
    let (_, effect) = flow.step(&mut world, Reply::Done);
    assert_eq!(refusal(effect), uuid::Uuid::parse_str("x").unwrap_err().to_string());
}

#[test]
fn removing_the_last_vpn_stops_the_service() {
    let mut world = phone(PersistedConfigSource::User);
    let flow = RemoveNetworkInstance::new(B_TEXT.to_string());
    let (flow, effect) = flow.step(&world, Reply::Done);
    assert!(matches!(effect, Effect::OpenManager));
    let (flow, effect) = flow.step(&world, Reply::Answer(true));
    match effect {
        Effect::Instances { call, ids } => {
            assert_eq!(call, InstanceCall::Remove);
            assert_eq!(ids, vec![B]);
        }
        other => panic!("{:?}", other),
    }
    world.manager.storage.delete_networks(&vec![B]);
    let (flow, effect) = flow.step(&world, ok());
    assert!(matches!(effect, Effect::Emit(GuiEvent::VpnServiceStop)));
    let (_, effect) = flow.step(&world, ok());
    assert!(succeeded(&effect));
}

#[test]
fn removing_one_of_two_vpns_leaves_the_service() {
    let world = phone(PersistedConfigSource::User);
    let (flow, _) = RemoveNetworkInstance::new(A_TEXT.to_string()).step(&world, Reply::Done);
    let (flow, _) = flow.step(&world, Reply::Answer(true));
    let (_, effect) = flow.step(&world, ok());
    assert!(succeeded(&effect));
    let (_, effect) = RemoveNetworkInstance::new("x".to_string()).step(&world, Reply::Done);
    assert_eq!(refusal(effect), uuid::Uuid::parse_str("x").unwrap_err().to_string());
}
