use easytier_gui::config::{ConfigSource, NetworkConfig, PersistedConfigSource, TomlConfig};
use easytier_gui::effect::{Effect, GuiEvent, InstanceCall, Reply, RunOrigin, TunEvent};
use easytier_gui::flows::hooks::{PostRemoveHook, PostRunHook, PreRunHook};
use easytier_gui::flows::mobile_connection::SetMobileConnection;
use easytier_gui::flows::restart::RestartMobileNetwork;
use easytier_gui::flows::tun_fd::SetTunFd;
use easytier_gui::flows::web_client::InitWebClient;
use easytier_gui::platform::Platform;
use easytier_gui::world::{GuiHooks, World};

const B: u128 = 0xfedcba98_7654_3210_fedc_ba9876543210;
const B_TEXT: &str = "fedcba98-7654-3210-fedc-ba9876543210";

fn network() -> NetworkConfig {
    NetworkConfig {
        instance_id: B_TEXT.to_string(),
        no_tun: false,
        encoded: "{}".to_string(),
    }
}

fn toml() -> TomlConfig {
    TomlConfig {
        id: B,
        no_tun: false,
        text: "toml".to_string(),
    }
}

/// A connected client whose user wants to be connected, with the network `B` running.
fn client(platform: Platform) -> World {
    let mut world = World::new(platform);
    world.connected = true;
    world.intent.set_enabled(true);
    world.manager.storage.save_config(B, network(), PersistedConfigSource::User);
    world.manager.storage.switch_network(B, false);
    world
}

fn hooks(world: &World) -> GuiHooks {
    GuiHooks {
        epoch: world.epoch.current(),
        intent: world.intent.token(),
    }
}

fn ok() -> Reply {
    Reply::Outcome(Ok(()))
}

fn failed() -> Reply {
    Reply::Outcome(Err("broken".to_string()))
}

fn refusal(effect: Effect) -> String {
    match effect {
        Effect::Finish(Err(error)) => error.text(),
        other => panic!("no refusal: {:?}", other),
    }
}

fn succeeded(effect: &Effect) -> bool {
    matches!(effect, Effect::Finish(Ok(())))
}

#[test]
fn a_stop_closes_everything() {
    let mut world = client(Platform::Android);
    let old = hooks(&world);
    assert!(old.is_current(&world));
    let (flow, effect) = SetMobileConnection::new(false).step(&mut world, Reply::Done);
    assert!(matches!(effect, Effect::LockControl));
    assert!(!world.intent.enabled());
    assert!(!old.is_current(&world));
    let (flow, effect) = flow.step(&mut world, Reply::Done);
    assert!(matches!(effect, Effect::CloseWebClient));
    assert_eq!(world.epoch.current(), 1);
    let (flow, effect) = flow.step(&mut world, Reply::Done);
    assert!(matches!(effect, Effect::OpenManager));
    let (flow, effect) = flow.step(&mut world, Reply::Answer(true));
    assert!(matches!(effect, Effect::DisableTun { web_only: false }));
    world.manager.storage.switch_network(B, true);
    let (flow, effect) = flow.step(&mut world, ok());
    assert!(matches!(effect, Effect::Emit(GuiEvent::VpnServiceStop)));
    let (_, effect) = flow.step(&mut world, ok());
    assert!(succeeded(&effect));
}

#[test]
fn a_start_only_records_the_decision() {
    let mut world = World::new(Platform::Android);
    let (flow, effect) = SetMobileConnection::new(true).step(&mut world, Reply::Done);
    assert!(matches!(effect, Effect::LockControl));
    assert!(world.intent.enabled());
    let (_, effect) = flow.step(&mut world, Reply::Done);
    assert!(succeeded(&effect));
    assert_eq!(world.epoch.current(), 0);
}

#[test]
fn a_stop_on_a_desktop_leaves_the_networks() {
    let mut world = client(Platform::Other);
    let (flow, _) = SetMobileConnection::new(false).step(&mut world, Reply::Done);
    let (flow, effect) = flow.step(&mut world, Reply::Done);
    assert!(matches!(effect, Effect::CloseWebClient));
    let (_, effect) = flow.step(&mut world, Reply::Done);
    assert!(succeeded(&effect));
    assert!(world.manager.storage.is_enabled(B));
}

#[test]
fn a_stop_that_reaches_a_network_in_vain_fails() {
    let mut world = client(Platform::Android);
    let (flow, _) = SetMobileConnection::new(false).step(&mut world, Reply::Done);
    let (flow, _) = flow.step(&mut world, Reply::Done);
    let (flow, _) = flow.step(&mut world, Reply::Done);
    let (flow, _) = flow.step(&mut world, Reply::Answer(true));
    let (_, effect) = flow.step(&mut world, failed());
    assert_eq!(refusal(effect), "broken");
    assert!(!world.intent.enabled());
}

#[test]
fn recovery_runs_the_network_again() {
    let world = client(Platform::Android);
    let (flow, effect) = RestartMobileNetwork::new().step(&world, Reply::Done);
    assert!(matches!(effect, Effect::LockControl));
    let (flow, effect) = flow.step(&world, Reply::Done);
    assert!(matches!(effect, Effect::OpenManager));
    let (flow, effect) = flow.step(&world, Reply::Answer(true));
    assert!(matches!(effect, Effect::FindInstances));
    let (flow, effect) = flow.step(&world, Reply::Answer(true));
    assert!(matches!(effect, Effect::LockMutation));
    let (flow, effect) = flow.step(&world, Reply::Done);
    assert!(matches!(effect, Effect::SnapshotInstance(B)));
    let snapshot = Reply::Snapshot { config: true, control: true };
    let (flow, effect) = flow.step(&world, snapshot);
    match effect {
        Effect::Instances { call, ids } => {
            assert_eq!(call, InstanceCall::Delete);
            assert_eq!(ids, vec![B]);
        }
        other => panic!("{:?}", other),
    }
    let (flow, effect) = flow.step(&world, ok());
    assert!(matches!(effect, Effect::RerunInstance(B)));
    let (flow, effect) = flow.step(&world, ok());
    assert!(matches!(effect, Effect::PostRun(B)));
    let (_, effect) = flow.step(&world, ok());
    assert!(succeeded(&effect));
}

#[test]
fn recovery_is_given_up_at_every_wait() {
    for wait in 0..3 {
        let mut world = client(Platform::Android);
        let (flow, _) = RestartMobileNetwork::new().step(&world, Reply::Done);
        if wait == 0 {
            world.intent.set_enabled(false);
            world.intent.set_enabled(true);
            let (_, effect) = flow.step(&world, Reply::Done);
            assert!(succeeded(&effect));
            continue;
        }
        let (flow, _) = flow.step(&world, Reply::Done);
        let (flow, _) = flow.step(&world, Reply::Answer(true));
        let (flow, _) = flow.step(&world, Reply::Answer(true));
        if wait == 1 {
            world.intent.set_enabled(false);
            let (_, effect) = flow.step(&world, Reply::Done);
            assert!(succeeded(&effect));
            continue;
        }
        let (flow, _) = flow.step(&world, Reply::Done);
        let snapshot = Reply::Snapshot { config: true, control: true };
        let (flow, _) = flow.step(&world, snapshot);
        world.intent.set_enabled(false);
        world.intent.set_enabled(true);
        let (_, effect) = flow.step(&world, ok());
        assert!(succeeded(&effect));
    }
}

#[test]
fn recovery_needs_something_to_recover() {
    let mut world = client(Platform::Android);
    for (config, control, words) in vec![
        (false, false, "Recovery instance unavailable"),
        (false, true, "Recovery instance unavailable"),
        (true, false, "Recovery config control unavailable"),
    ] {
        let (flow, _) = RestartMobileNetwork::new().step(&world, Reply::Done);
        let (flow, _) = flow.step(&world, Reply::Done);
        let (flow, _) = flow.step(&world, Reply::Answer(true));
        let (flow, _) = flow.step(&world, Reply::Answer(true));
        let (flow, _) = flow.step(&world, Reply::Done);
        let (_, effect) = flow.step(&world, Reply::Snapshot { config, control });
        assert_eq!(refusal(effect), words);
    }
    let (flow, _) = RestartMobileNetwork::new().step(&world, Reply::Done);
    let (flow, _) = flow.step(&world, Reply::Done);
    let (flow, _) = flow.step(&world, Reply::Answer(true));
    let (_, effect) = flow.step(&world, Reply::Answer(false));
    assert_eq!(refusal(effect), "Local instance manager unavailable");
    world.manager.storage.switch_network(B, true);
    let (flow, _) = RestartMobileNetwork::new().step(&world, Reply::Done);
    let (flow, _) = flow.step(&world, Reply::Done);
    let (_, effect) = flow.step(&world, Reply::Answer(true));
    assert!(succeeded(&effect));
}

#[test]
fn a_device_counts_once_the_core_has_opened_it() {
    let world = client(Platform::Android);
    let (flow, effect) = SetTunFd::new(42, Some(B_TEXT.to_string())).step(&world, Reply::Done);
    assert!(matches!(effect, Effect::FindInstances));
    let (flow, effect) = flow.step(&world, Reply::Answer(true));
    assert!(matches!(effect, Effect::OpenManager));
    let (flow, effect) = flow.step(&world, Reply::Answer(true));
    assert!(matches!(effect, Effect::SubscribeEvents(B)));
    let (flow, effect) = flow.step(&world, Reply::Answer(true));
    assert!(matches!(effect, Effect::AttachTun { id: B, fd: 42 }));
    let (flow, effect) = flow.step(&world, ok());
    assert!(matches!(effect, Effect::AwaitTunEvent));
    for event in vec![
        TunEvent::Other,
        TunEvent::Ready("tunfd_4".to_string()),
        TunEvent::Ready("tunfd_420".to_string()),
    ] {
        let (_, effect) = SetTunFd::Waiting { fd: 42 }.step(&world, Reply::Tun(event));
        assert!(matches!(effect, Effect::AwaitTunEvent));
    }
    let ready = TunEvent::Ready("tunfd_42".to_string());
    let (_, effect) = flow.step(&world, Reply::Tun(ready));
    assert!(succeeded(&effect));
}

#[test]
fn a_device_that_is_not_opened_is_a_failure() {
    let world = client(Platform::Android);
    for (event, words) in vec![
        (TunEvent::Failed("no such device".to_string()), "no such device"),
        (TunEvent::Closed("channel closed".to_string()), "channel closed"),
        (
            TunEvent::TimedOut,
            "Timed out attaching the VPN interface to the core",
        ),
    ] {
        let (_, effect) = SetTunFd::Waiting { fd: 42 }.step(&world, Reply::Tun(event));
        assert_eq!(refusal(effect), words);
    }
}

#[test]
fn a_device_is_handed_to_an_enabled_network_only() {
    let mut world = client(Platform::Android);
    let refused = |world: &World, fd: i32, id: Option<&str>| -> String {
        let id = id.map(|id| id.to_string());
        let (flow, _) = SetTunFd::new(fd, id).step(world, Reply::Done);
        let (flow, _) = flow.step(world, Reply::Answer(true));
        let (_, effect) = flow.step(world, Reply::Answer(true));
        refusal(effect)
    };
    assert_eq!(refused(&world, -1, None), "Invalid TUN file descriptor");
    assert_eq!(refused(&world, -1, Some(B_TEXT)), "Invalid TUN file descriptor");
    let other = "00000000-0000-0000-0000-000000000001";
    assert_eq!(refused(&world, 3, Some(other)), "VPN instance is no longer enabled");
    let words = uuid::Uuid::parse_str("x").unwrap_err().to_string();
    assert_eq!(refused(&world, 3, Some("x")), words);
    world.manager.storage.switch_network(B, true);
    assert_eq!(refused(&world, 3, None), "No enabled VPN instance");
    let (flow, _) = SetTunFd::new(3, None).step(&world, Reply::Done);
    let (_, effect) = flow.step(&world, Reply::Answer(false));
    assert_eq!(refusal(effect), "set_tun_fd is not supported in remote mode");
    let (_, effect) = SetTunFd::Subscribing { fd: 3, id: B }.step(&world, Reply::Answer(false));
    assert_eq!(refusal(effect), "VPN instance event stream is unavailable");
}

#[test]
fn elsewhere_a_device_counts_once_it_is_handed_over() {
    let world = client(Platform::Other);
    let (flow, _) = SetTunFd::new(0, None).step(&world, Reply::Done);
    let (flow, _) = flow.step(&world, Reply::Answer(true));
    let (flow, effect) = flow.step(&world, Reply::Answer(true));
    assert!(matches!(effect, Effect::AttachTun { id: B, fd: 0 }));
    let (_, effect) = flow.step(&world, ok());
    assert!(succeeded(&effect));
    let (_, effect) = SetTunFd::Attaching { fd: 0 }.step(&world, failed());
    assert_eq!(refusal(effect), "broken");
}

/// Takes a request to connect as far as the connection itself.
fn connecting(world: &mut World) -> InitWebClient {
    let flow = InitWebClient::new(Some("udp://server".to_string()));
    let (flow, effect) = flow.step(world, Reply::Done);
    assert!(matches!(effect, Effect::CloseWebClient));
    let (flow, effect) = flow.step(world, Reply::Done);
    assert!(matches!(effect, Effect::TryFindInstances));
    let (flow, effect) = flow.step(world, Reply::TryFound(Some(true)));
    assert!(matches!(effect, Effect::ResolveStateDirectory));
    let (flow, effect) = flow.step(world, ok());
    match effect {
        Effect::StartWebClient { url, hooks } => {
            assert_eq!(url, "udp://server");
            assert!(hooks.is_current(world));
        }
        other => panic!("{:?}", other),
    }
    flow
}

#[test]
fn a_wanted_connection_is_kept() {
    for platform in vec![Platform::Android, Platform::Other] {
        let mut world = client(platform);
        let flow = connecting(&mut world);
        let (flow, effect) = flow.step(&mut world, ok());
        assert!(matches!(effect, Effect::KeepWebClient));
        let (_, effect) = flow.step(&mut world, Reply::Done);
        assert!(succeeded(&effect));
    }
}

#[test]
fn a_connection_that_came_too_late_is_dropped() {
    let mut world = client(Platform::Other);
    let flow = connecting(&mut world);
    world.epoch.advance();
    let (_, effect) = flow.step(&mut world, ok());
    assert!(succeeded(&effect));
    let mut world = client(Platform::Android);
    let flow = connecting(&mut world);
    world.intent.set_enabled(false);
    let (_, effect) = flow.step(&mut world, ok());
    assert!(succeeded(&effect));
}

#[test]
fn connecting_to_no_server_only_closes_the_old_connection() {
    let mut world = client(Platform::Other);
    let (flow, effect) = InitWebClient::new(None).step(&mut world, Reply::Done);
    assert!(matches!(effect, Effect::CloseWebClient));
    assert_eq!(world.epoch.current(), 1);
    let (_, effect) = flow.step(&mut world, Reply::Done);
    assert!(succeeded(&effect));
    let mut world = World::new(Platform::Android);
    let flow = InitWebClient::new(Some("udp://server".to_string()));
    let (flow, _) = flow.step(&mut world, Reply::Done);
    let (_, effect) = flow.step(&mut world, Reply::Done);
    assert!(succeeded(&effect));
}

#[test]
fn connecting_reports_what_went_wrong() {
    let mut world = client(Platform::Other);
    for (found, words) in vec![
        (None, "Failed to acquire read lock for instance manager"),
        (Some(false), "Instance manager is not available"),
    ] {
        let flow = InitWebClient::new(Some("udp://server".to_string()));
        let (flow, _) = flow.step(&mut world, Reply::Done);
        let (flow, _) = flow.step(&mut world, Reply::Done);
        let (_, effect) = flow.step(&mut world, Reply::TryFound(found));
        assert_eq!(refusal(effect), words);
    }
    let flow = InitWebClient::new(Some("udp://server".to_string()));
    let (flow, _) = flow.step(&mut world, Reply::Done);
    let (flow, _) = flow.step(&mut world, Reply::Done);
    let (flow, _) = flow.step(&mut world, Reply::TryFound(Some(true)));
    let (_, effect) = flow.step(&mut world, failed());
    assert_eq!(
        refusal(effect),
        "Failed to resolve machine id state directory: broken"
    );
    let flow = connecting(&mut world);
    let (_, effect) = flow.step(&mut world, failed());
    assert_eq!(refusal(effect), "Failed to initialize web client: broken");
}

#[test]
fn a_current_connection_prepares_networks() {
    let world = client(Platform::Android);
    let flow = PreRunHook::new(hooks(&world), toml(), ConfigSource::Web);
    let (flow, effect) = flow.step(&world, Reply::Done);
    assert!(matches!(effect, Effect::OpenManager));
    let (flow, effect) = flow.step(&world, Reply::Answer(true));
    match effect {
        Effect::PreRun { source, origin, .. } => {
            assert_eq!(source, PersistedConfigSource::Web);
            assert_eq!(origin, RunOrigin::ConfigServer);
        }
        other => panic!("{:?}", other),
    }
    let (_, effect) = flow.step(&world, ok());
    assert!(succeeded(&effect));
}

#[test]
fn a_stale_connection_prepares_nothing() {
    let stale = "Configuration connection was stopped or replaced";
    let mut world = client(Platform::Android);
    let old = hooks(&world);
    assert!(old.skip_unchanged_config(&world));
    let (flow, _) = PreRunHook::new(old, toml(), ConfigSource::Web).step(&world, Reply::Done);
    let (flow, _) = flow.step(&world, Reply::Answer(true));
    world.intent.set_enabled(false);
    world.intent.set_enabled(true);
    let (_, effect) = flow.step(&world, ok());
    assert_eq!(refusal(effect), stale);
    assert!(!old.skip_unchanged_config(&world));
    let (_, effect) = PreRunHook::new(old, toml(), ConfigSource::Web).step(&world, Reply::Done);
    assert_eq!(refusal(effect), stale);
    let mut world = client(Platform::Other);
    let old = hooks(&world);
    assert!(!old.skip_unchanged_config(&world));
    world.intent.set_enabled(false);
    assert!(old.is_current(&world));
    world.epoch.advance();
    let (_, effect) = PreRunHook::new(old, toml(), ConfigSource::Web).step(&world, Reply::Done);
    assert_eq!(refusal(effect), stale);
}

#[test]
fn what_a_stale_connection_has_run_is_deleted() {
    let mut world = client(Platform::Other);
    let old = hooks(&world);
    let (flow, effect) = PostRunHook::new(old, B).step(&world, Reply::Done);
    assert!(matches!(effect, Effect::OpenManager));
    let (flow, effect) = flow.step(&world, Reply::Answer(true));
    assert!(matches!(effect, Effect::PostRun(B)));
    let (_, effect) = flow.step(&world, ok());
    assert!(succeeded(&effect));
    world.epoch.advance();
    for (reply, words) in vec![
        (ok(), "Configuration connection was stopped or replaced"),
        (failed(), "broken"),
    ] {
        let (flow, effect) = PostRunHook::new(old, B).step(&world, Reply::Done);
        assert!(matches!(effect, Effect::DropInstance(B)));
        let (_, effect) = flow.step(&world, reply);
        assert_eq!(refusal(effect), words);
    }
}

#[test]
fn what_the_server_removes_is_forgotten() {
    let mut world = client(Platform::Android);
    let current = hooks(&world);
    let (flow, effect) = PostRemoveHook::new(current, vec![B]).step(&mut world, Reply::Done);
    assert!(matches!(effect, Effect::OpenManager));
    let (flow, effect) = flow.step(&mut world, Reply::Answer(true));
    assert!(matches!(effect, Effect::Emit(GuiEvent::SaveConfigs)));
    assert!(world.manager.storage.config(B).is_none());
    assert!(!world.manager.storage.is_enabled(B));
    let (flow, effect) = flow.step(&mut world, ok());
    assert!(matches!(effect, Effect::Emit(GuiEvent::SaveEnabledNetworks)));
    let (flow, effect) = flow.step(&mut world, ok());
    assert!(matches!(effect, Effect::Emit(GuiEvent::VpnServiceStop)));
    let (_, effect) = flow.step(&mut world, ok());
    assert!(succeeded(&effect));
}

#[test]
fn what_a_stale_connection_removes_stays() {
    let mut world = client(Platform::Android);
    let old = hooks(&world);
    world.epoch.advance();
    let (_, effect) = PostRemoveHook::new(old, vec![B]).step(&mut world, Reply::Done);
    assert!(succeeded(&effect));
    assert!(world.manager.storage.config(B).is_some());
}
