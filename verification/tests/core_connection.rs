use easytier_gui::config::{
    ConfigSource, NetworkConfig, PersistedConfigSource, StoredGuiConfig, TomlConfig,
};
use easytier_gui::effect::{ConnectOutcome, Effect, GuiEvent, Reply, RunOrigin};
use easytier_gui::flows::load_configs::LoadConfigs;
use easytier_gui::flows::rpc_connection::InitRpcConnection;
use easytier_gui::flows::save_config::SaveNetworkConfig;
use easytier_gui::flows::storage_writes::{
    DeleteNetworkConfigs, InsertOrUpdateUserNetworkConfig, RecordNetworkConfigState,
};
use easytier_gui::platform::Platform;
use easytier_gui::requests::{open_manager, open_manager_for};
use easytier_gui::world::{RpcServerKind, World};

const A: u128 = 0x01234567_89ab_cdef_0123_456789abcdef;
const A_TEXT: &str = "01234567-89ab-cdef-0123-456789abcdef";
const B: u128 = 0xfedcba98_7654_3210_fedc_ba9876543210;
const B_TEXT: &str = "fedcba98-7654-3210-fedc-ba9876543210";

fn network(instance_id: &str, encoded: &str) -> NetworkConfig {
    NetworkConfig {
        instance_id: instance_id.to_string(),
        no_tun: false,
        encoded: encoded.to_string(),
    }
}

fn stored(instance_id: &str, encoded: &str, source: PersistedConfigSource) -> StoredGuiConfig {
    StoredGuiConfig {
        config: network(instance_id, encoded),
        source,
    }
}

fn connected() -> World {
    let mut world = World::new(Platform::Other);
    world.connected = true;
    world
}

fn ok() -> Reply {
    Reply::Outcome(Ok(()))
}

fn failed() -> Reply {
    Reply::Outcome(Err("broken".to_string()))
}

fn refusal(effect: Effect) -> String {
    match effect {
        Effect::Finish(Err(error)) => error.text(),
        other => panic!("no refusal: {:?}", other),
    }
}

fn succeeded(effect: &Effect) -> bool {
    matches!(effect, Effect::Finish(Ok(())))
}

/// Claims all that a request to connect needs.
fn claimed(world: &mut World, is_normal_mode: bool, url: Option<&str>) -> (InitRpcConnection, Effect) {
    let url = url.map(|url| url.to_string());
    let (flow, effect) = InitRpcConnection::new(is_normal_mode, url).step(world, Reply::Done);
    assert!(matches!(effect, Effect::ClaimManager));
    let (flow, effect) = flow.step(world, Reply::Answer(true));
    assert!(matches!(effect, Effect::ClaimInstances));
    let (flow, effect) = flow.step(world, Reply::Answer(true));
    assert!(matches!(effect, Effect::ClaimRpcServer));
    flow.step(world, Reply::Answer(true))
}

#[test]
fn without_a_portal_the_core_is_reached_inside_the_process() {
    for url in vec![None, Some(""), Some(" \t\u{3000}\n")] {
        let mut world = World::new(Platform::Other);
        let (flow, effect) = claimed(&mut world, true, url);
        assert!(matches!(effect, Effect::TakeInstances));
        let (flow, effect) = flow.step(&mut world, Reply::Done);
        assert!(matches!(effect, Effect::StopRpcServer));
        let (flow, effect) = flow.step(&mut world, Reply::Done);
        assert!(matches!(effect, Effect::ServeRing));
        let (flow, effect) = flow.step(&mut world, ok());
        assert!(matches!(effect, Effect::RestoreInstances));
        let server = world.rpc_server.as_ref().unwrap();
        assert_eq!(server.kind, RpcServerKind::Ring);
        assert!(server.bind_url.is_none());
        let (flow, effect) = flow.step(&mut world, Reply::Done);
        assert!(matches!(effect, Effect::ConnectRing));
        assert!(!world.connected);
        let made = Reply::Connection(ConnectOutcome::Made);
        let (_, effect) = flow.step(&mut world, made);
        assert!(succeeded(&effect));
        assert!(world.connected);
    }
}

#[test]
fn a_portal_is_offered_and_reached() {
    let mut world = World::new(Platform::Other);
    let (flow, _) = claimed(&mut world, true, Some("  tcp://0.0.0.0:15888\n"));
    let (flow, effect) = flow.step(&mut world, Reply::Done);
    assert!(matches!(effect, Effect::StopRpcServer));
    let (flow, effect) = flow.step(&mut world, Reply::Done);
    match effect {
        Effect::LookupHost { host, port } => {
            assert_eq!(host, "0.0.0.0");
            assert_eq!(port, 15888);
        }
        other => panic!("{:?}", other),
    }
    let found = Reply::Addresses(Ok(Some("0.0.0.0:15888".to_string())));
    let (flow, effect) = flow.step(&mut world, found);
    assert!(matches!(effect, Effect::ServeTcp(address) if address == "0.0.0.0:15888"));
    let (flow, effect) = flow.step(&mut world, ok());
    assert!(matches!(effect, Effect::RestoreInstances));
    let (flow, effect) = flow.step(&mut world, Reply::Done);
    assert!(matches!(effect, Effect::DialRemote(url) if url == "tcp://127.0.0.1:15888"));
    let made = Reply::Connection(ConnectOutcome::Made);
    let (_, effect) = flow.step(&mut world, made);
    assert!(succeeded(&effect));

    let (flow, _) = claimed(&mut world, true, Some("tcp://0.0.0.0:15888"));
    let (_, effect) = flow.step(&mut world, Reply::Done);
    assert!(matches!(effect, Effect::RestoreInstances));
    let (flow, _) = claimed(&mut world, true, Some("tcp://0.0.0.0:15889"));
    let (_, effect) = flow.step(&mut world, Reply::Done);
    assert!(matches!(effect, Effect::StopRpcServer));
    assert!(world.rpc_server.is_none());
}

#[test]
fn a_bad_portal_is_refused() {
    let mut world = World::new(Platform::Other);
    let (flow, _) = claimed(&mut world, true, Some("15888"));
    let (_, effect) = flow.step(&mut world, Reply::Done);
    let words = url::Url::parse("15888").unwrap_err().to_string();
    assert_eq!(refusal(effect), format!("invalid rpc portal: {}", words));
    for (portal, words) in vec![
        ("udp://host:1", "RPC portal requires tcp URL: udp://host:1"),
        ("tcp:nowhere", "RPC portal has no host: tcp:nowhere"),
    ] {
        let (flow, _) = claimed(&mut world, true, Some(portal));
        let (flow, _) = flow.step(&mut world, Reply::Done);
        let (_, effect) = flow.step(&mut world, Reply::Done);
        assert_eq!(refusal(effect), words);
    }
    for (found, words) in vec![
        (Ok(None), "RPC portal has no resolved address: tcp://host:1"),
        (
            Err("unknown".to_string()),
            "failed to resolve RPC portal tcp://host:1: unknown",
        ),
    ] {
        let (flow, _) = claimed(&mut world, true, Some("tcp://host:1"));
        let (flow, _) = flow.step(&mut world, Reply::Done);
        let (flow, _) = flow.step(&mut world, Reply::Done);
        let (_, effect) = flow.step(&mut world, Reply::Addresses(found));
        assert_eq!(refusal(effect), words);
    }
}

#[test]
fn another_core_takes_the_place_of_the_local_one() {
    let mut world = connected();
    world.manager.storage.switch_network(A, false);
    let (flow, effect) = claimed(&mut world, false, Some(" tcp://host:1"));
    assert!(matches!(effect, Effect::StopRpcServer));
    let (flow, effect) = flow.step(&mut world, Reply::Done);
    assert!(matches!(effect, Effect::DialRemote(url) if url == " tcp://host:1"));
    let made = Reply::Connection(ConnectOutcome::Made);
    let (flow, effect) = flow.step(&mut world, made);
    assert!(matches!(effect, Effect::CloseWebClient));
    assert!(!world.manager.storage.is_enabled(A));
    assert_eq!(world.epoch.current(), 0);
    let (flow, effect) = flow.step(&mut world, Reply::Done);
    assert!(matches!(effect, Effect::RetireInstances));
    let (_, effect) = flow.step(&mut world, ok());
    assert!(succeeded(&effect));
    let (flow, _) = claimed(&mut world, false, None);
    let (_, effect) = flow.step(&mut world, Reply::Done);
    assert_eq!(
        refusal(effect),
        "Failed to connect remote rpc: local RPC requires a core process runtime"
    );
}

#[test]
fn a_failed_attempt_keeps_the_manager() {
    let mut world = connected();
    world.manager.storage.switch_network(A, false);
    for (outcome, words) in vec![
        (ConnectOutcome::TimedOut, "connect remote rpc timed out"),
        (
            ConnectOutcome::Failed("refused".to_string()),
            "Failed to connect remote rpc: refused",
        ),
    ] {
        let (flow, _) = claimed(&mut world, false, Some("tcp://host:1"));
        let (flow, _) = flow.step(&mut world, Reply::Done);
        let (_, effect) = flow.step(&mut world, Reply::Connection(outcome));
        assert_eq!(refusal(effect), words);
        assert!(world.connected);
        assert!(world.manager.storage.is_enabled(A));
    }
    let (flow, _) = claimed(&mut world, true, None);
    let (flow, _) = flow.step(&mut world, Reply::Done);
    let (flow, _) = flow.step(&mut world, Reply::Done);
    let (_, effect) = flow.step(&mut world, failed());
    assert_eq!(refusal(effect), "broken");
    assert!(world.rpc_server.is_none());
}

#[test]
fn what_is_busy_is_named() {
    let mut world = connected();
    let answers = vec![
        (0, "Failed to acquire write lock for client manager"),
        (1, "Failed to acquire write lock for instance manager"),
        (2, "Failed to acquire lock for rpc server"),
    ];
    for (claims, words) in answers {
        let (mut flow, _) = InitRpcConnection::new(true, None).step(&mut world, Reply::Done);
        for _ in 0..claims {
            flow = flow.step(&mut world, Reply::Answer(true)).0;
        }
        let (_, effect) = flow.step(&mut world, Reply::Answer(false));
        assert_eq!(refusal(effect), words);
    }
}

#[test]
fn what_was_saved_is_loaded_and_run() {
    let mut world = connected();
    world.manager.storage.switch_network(A, false);
    let configs = vec![
        stored(A_TEXT, "old", PersistedConfigSource::User),
        stored(B_TEXT, "b", PersistedConfigSource::Web),
        stored(A_TEXT, "new", PersistedConfigSource::Legacy),
    ];
    let enabled = vec![
        "nothing".to_string(),
        "00000000-0000-0000-0000-000000000001".to_string(),
        B_TEXT.to_string(),
        B_TEXT.to_string(),
    ];
    let (flow, effect) = LoadConfigs::new(configs, enabled).step(&mut world, Reply::Done);
    assert!(matches!(effect, Effect::OpenManager));
    let (flow, effect) = flow.step(&mut world, Reply::Answer(true));
    assert!(matches!(effect, Effect::OpenRpcClient));
    assert!(!world.manager.storage.is_enabled(A));
    let a = world.manager.storage.config(A).unwrap();
    assert_eq!(a.get_network_config().encoded, "new");
    assert_eq!(a.source(), PersistedConfigSource::Legacy);
    let (flow, effect) = flow.step(&mut world, Reply::Answer(true));
    assert!(matches!(effect, Effect::GenerateConfig(config) if config.encoded == "b"));
    let toml = TomlConfig { id: B, no_tun: false, text: String::new() };
    let (flow, effect) = flow.step(&mut world, Reply::Generated(Ok(toml)));
    match effect {
        Effect::PreRun { source, origin, .. } => {
            assert_eq!(source, PersistedConfigSource::Web);
            assert_eq!(origin, RunOrigin::Local);
        }
        other => panic!("{:?}", other),
    }
    let (flow, effect) = flow.step(&mut world, ok());
    match effect {
        Effect::RunStored { config, reported, inst_id, overwrite } => {
            assert_eq!(inst_id, None);
            assert!(!overwrite);
            assert_eq!(config.encoded, "b");
            assert_eq!(reported, ConfigSource::Web);
        }
        other => panic!("{:?}", other),
    }
    let (flow, effect) = flow.step(&mut world, ok());
    assert!(matches!(effect, Effect::PostRun(B)));
    world.manager.storage.switch_network(B, false);
    let (_, effect) = flow.step(&mut world, ok());
    assert!(succeeded(&effect));
}

#[test]
fn loading_stops_at_a_configuration_without_an_id() {
    let mut world = connected();
    world.manager.storage.save_config(B, network(B_TEXT, "b"), PersistedConfigSource::User);
    world.manager.storage.switch_network(B, false);
    let configs = vec![
        stored(A_TEXT, "a", PersistedConfigSource::User),
        stored("nothing", "c", PersistedConfigSource::User),
    ];
    let (flow, _) = LoadConfigs::new(configs, vec![]).step(&mut world, Reply::Done);
    let (_, effect) = flow.step(&mut world, Reply::Answer(true));
    let words = uuid::Uuid::parse_str("nothing").unwrap_err().to_string();
    assert_eq!(refusal(effect), words);
    assert!(world.manager.storage.config(A).is_some());
    assert!(world.manager.storage.config(B).is_none());
    assert!(world.manager.storage.is_enabled(B));
}

#[test]
fn loading_reports_what_went_wrong() {
    let mut world = connected();
    let (flow, _) = LoadConfigs::new(vec![], vec![]).step(&mut world, Reply::Done);
    let (flow, _) = flow.step(&mut world, Reply::Answer(true));
    let (_, effect) = flow.step(&mut world, Reply::Answer(false));
    assert_eq!(refusal(effect), "RPC client not found");
    let configs = vec![stored(A_TEXT, "a", PersistedConfigSource::User)];
    let (flow, _) = LoadConfigs::new(configs, vec![A_TEXT.to_string()]).step(&mut world, Reply::Done);
    let (flow, _) = flow.step(&mut world, Reply::Answer(true));
    let (flow, _) = flow.step(&mut world, Reply::Answer(true));
    let (_, effect) = flow.step(&mut world, Reply::Generated(Err("bad port".to_string())));
    assert_eq!(refusal(effect), "bad port");
}

#[test]
fn what_was_handed_out_to_be_saved_is_loaded_back() {
    let mut world = connected();
    world.manager.storage.save_config(A, network(A_TEXT, "a"), PersistedConfigSource::Legacy);
    world.manager.storage.save_config(B, network(B_TEXT, "b"), PersistedConfigSource::Web);
    let configs = world.manager.storage.save_configs();
    let mut fresh = connected();
    let (flow, _) = LoadConfigs::new(configs, vec![]).step(&mut fresh, Reply::Done);
    let (_, effect) = flow.step(&mut fresh, Reply::Answer(true));
    assert!(matches!(effect, Effect::OpenRpcClient));
    for id in vec![A, B] {
        let before = world.manager.storage.config(id).unwrap();
        let after = fresh.manager.storage.config(id).unwrap();
        assert_eq!(after.get_network_config().encoded, before.get_network_config().encoded);
        assert_eq!(after.source(), before.source());
        assert_eq!(after.get_network_inst_id(), before.get_network_inst_id());
    }
}

#[test]
fn a_network_of_the_management_is_stored_then_enabled() {
    let mut world = connected();
    let flow = InsertOrUpdateUserNetworkConfig::new(A, network(A_TEXT, "a"), ConfigSource::Web);
    let (flow, effect) = flow.step(&mut world, Reply::Done);
    assert!(matches!(effect, Effect::Emit(GuiEvent::SaveConfigs)));
    assert_eq!(
        world.manager.storage.config(A).unwrap().source(),
        PersistedConfigSource::Web
    );
    assert!(!world.manager.storage.is_enabled(A));
    let (flow, effect) = flow.step(&mut world, ok());
    assert!(matches!(effect, Effect::Emit(GuiEvent::SaveEnabledNetworks)));
    assert!(world.manager.storage.is_enabled(A));
    let (_, effect) = flow.step(&mut world, ok());
    assert!(succeeded(&effect));
    let flow = InsertOrUpdateUserNetworkConfig::new(B, network(B_TEXT, "b"), ConfigSource::User);
    let (flow, _) = flow.step(&mut world, Reply::Done);
    let (_, effect) = flow.step(&mut world, failed());
    assert_eq!(refusal(effect), "broken");
    assert!(world.manager.storage.config(B).is_some());
    assert!(!world.manager.storage.is_enabled(B));
}

#[test]
fn the_management_deletes_and_switches_networks() {
    let mut world = connected();
    world.manager.storage.save_config(A, network(A_TEXT, "a"), PersistedConfigSource::User);
    let (flow, effect) = RecordNetworkConfigState::new(A, false).step(&mut world, Reply::Done);
    assert!(matches!(effect, Effect::Emit(GuiEvent::SaveEnabledNetworks)));
    assert!(world.manager.storage.is_enabled(A));
    let (_, effect) = flow.step(&mut world, ok());
    assert!(succeeded(&effect));
    let (flow, _) = RecordNetworkConfigState::new(A, true).step(&mut world, Reply::Done);
    assert!(!world.manager.storage.is_enabled(A));
    let (_, effect) = flow.step(&mut world, failed());
    assert_eq!(refusal(effect), "broken");
    let (flow, effect) = DeleteNetworkConfigs::new(vec![A]).step(&mut world, Reply::Done);
    assert!(matches!(effect, Effect::Emit(GuiEvent::SaveConfigs)));
    assert!(world.manager.storage.config(A).is_none());
    let (flow, effect) = flow.step(&mut world, ok());
    assert!(matches!(effect, Effect::Emit(GuiEvent::SaveEnabledNetworks)));
    let (_, effect) = flow.step(&mut world, ok());
    assert!(succeeded(&effect));
}

#[test]
fn a_request_needs_the_manager_and_an_id() {
    let world = connected();
    assert!(open_manager(&world, true).is_ok());
    assert_eq!(open_manager_for(&world, true, A_TEXT).unwrap(), A);
    assert_eq!(
        open_manager(&world, false).unwrap_err().text(),
        "Failed to acquire read lock for client manager"
    );
    let world = World::new(Platform::Other);
    assert_eq!(
        open_manager_for(&world, true, A_TEXT).unwrap_err().text(),
        "RPC connection not initialized"
    );
    let words = uuid::Uuid::parse_str("x").unwrap_err().to_string();
    assert_eq!(open_manager_for(&world, false, "x").unwrap_err().text(), words);
}

/// Has a configuration saved the way the management saves it.
fn save_through_management(world: &mut World, config: NetworkConfig) {
    let flow = InsertOrUpdateUserNetworkConfig::new(A, config, ConfigSource::User);
    let (flow, _) = flow.step(world, Reply::Done);
    let (flow, _) = flow.step(world, ok());
    let (_, effect) = flow.step(world, ok());
    assert!(succeeded(&effect));
}

#[test]
fn an_explicit_save_makes_the_network_the_users() {
    for source in vec![
        PersistedConfigSource::Legacy,
        PersistedConfigSource::Web,
        PersistedConfigSource::User,
    ] {
        let mut world = connected();
        world.manager.storage.save_config(A, network(A_TEXT, "old"), source);
        world.manager.storage.save_config(B, network(B_TEXT, "b"), PersistedConfigSource::Web);
        let flow = SaveNetworkConfig::new(network(A_TEXT, "new"));
        let (flow, effect) = flow.step(&mut world, Reply::Done);
        assert!(matches!(effect, Effect::OpenManager));
        let (flow, effect) = flow.step(&mut world, Reply::Answer(true));
        match effect {
            Effect::SaveConfig { id, config } => {
                assert_eq!(id, A);
                save_through_management(&mut world, config);
            }
            other => panic!("{:?}", other),
        }
        assert_eq!(world.manager.storage.config(A).unwrap().source(), source);
        let (flow, effect) = flow.step(&mut world, ok());
        assert!(matches!(effect, Effect::Emit(GuiEvent::SaveConfigs)));
        let (_, effect) = flow.step(&mut world, ok());
        assert!(succeeded(&effect));
        let saved = world.manager.storage.config(A).unwrap();
        assert_eq!(saved.source(), PersistedConfigSource::User);
        assert_eq!(saved.get_network_config().encoded, "new");
        assert_eq!(saved.get_network_inst_id(), A_TEXT);
        assert!(world.manager.storage.is_enabled(A));
        assert_eq!(
            world.manager.storage.config(B).unwrap().source(),
            PersistedConfigSource::Web
        );
    }
}

#[test]
fn a_save_that_fails_changes_no_owner() {
    let mut world = connected();
    world.manager.storage.save_config(A, network(A_TEXT, "old"), PersistedConfigSource::Web);
    let (flow, _) = SaveNetworkConfig::new(network(A_TEXT, "new")).step(&mut world, Reply::Done);
    let (flow, _) = flow.step(&mut world, Reply::Answer(true));
    let (_, effect) = flow.step(&mut world, failed());
    assert_eq!(refusal(effect), "broken");
    assert_eq!(
        world.manager.storage.config(A).unwrap().source(),
        PersistedConfigSource::Web
    );
    let (_, effect) = SaveNetworkConfig::new(network("x", "new")).step(&mut world, Reply::Done);
    assert_eq!(refusal(effect), uuid::Uuid::parse_str("x").unwrap_err().to_string());
    let (flow, _) = SaveNetworkConfig::new(network(A_TEXT, "new")).step(&mut world, Reply::Done);
    let (_, effect) = flow.step(&mut world, Reply::Answer(false));
    assert_eq!(refusal(effect), "Failed to acquire read lock for client manager");
}

#[test]
fn a_network_that_is_not_stored_cannot_be_claimed() {
    let mut world = connected();
    world.manager.storage.claim_for_user(A);
    assert!(world.manager.storage.config(A).is_none());
}
