use easytier_gui::config::{NetworkConfig, PersistedConfigSource, StoredGuiConfig, TomlConfig};
use easytier_gui::effect::{Effect, Reply, RunOrigin};
use easytier_gui::flows::load_configs::LoadConfigs;
use easytier_gui::flows::post_run::PostRun;
use easytier_gui::flows::pre_run::PreRun;
use easytier_gui::platform::Platform;
use easytier_gui::world::World;

fn text(id: u128) -> String {
    uuid::Uuid::from_u128(id).to_string()
}

fn network(id: u128, no_tun: bool) -> NetworkConfig {
    NetworkConfig {
        instance_id: text(id),
        no_tun,
        encoded: text(id),
    }
}

/// Prepares a network, with everything succeeding.
fn prepare(world: &mut World, flow: PreRun) {
    let mut flow = flow;
    let mut reply = Reply::Done;
    loop {
        let (next, effect) = flow.step(world, reply);
        flow = next;
        reply = match effect {
            Effect::Finish(outcome) => return outcome.unwrap(),
            Effect::ReadConfig(toml) => Reply::Config(Ok(network(toml.id, toml.no_tun))),
            Effect::Instances { ids, .. } if matches!(flow, PreRun::Inspecting { .. }) => {
                Reply::Deletable(Some(vec![None; ids.len()]))
            }
            Effect::SetNetworkState { id, disabled } => {
                world.manager.storage.switch_network(id, disabled);
                Reply::Outcome(Ok(()))
            }
            _ => Reply::Outcome(Ok(())),
        };
    }
}

/// Completes the run of a network, with everything succeeding.
fn complete(world: &mut World, id: u128) {
    let (flow, _) = PostRun::new(id).step(world, Reply::Done);
    let (_, effect) = flow.step(world, Reply::Outcome(Ok(())));
    assert!(matches!(effect, Effect::Finish(Ok(()))));
}

#[test]
fn a_prepared_vpn_is_the_only_one() {
    for origin in vec![RunOrigin::Local, RunOrigin::ConfigServer] {
        let mut world = World::new(Platform::Android);
        world.connected = true;
        world.intent.set_enabled(true);
        for id in 1..6u128 {
            let config = network(id, id == 4);
            world.manager.storage.save_config(id, config, PersistedConfigSource::Web);
            world.manager.storage.switch_network(id, false);
        }
        let toml = TomlConfig {
            id: 2,
            no_tun: false,
            text: String::new(),
        };
        prepare(&mut world, PreRun::new(toml, PersistedConfigSource::Web, origin));
        assert_eq!(world.manager.get_enabled_instances_with_tun_ids(), vec![2]);
        assert!(world.manager.storage.is_enabled(4));
        assert_eq!(world.manager.storage.save_configs().len(), 5);
    }
}

#[test]
fn a_preparation_on_a_desktop_only_stores() {
    let mut world = World::new(Platform::Other);
    world.manager.storage.save_config(1, network(1, false), PersistedConfigSource::User);
    world.manager.storage.switch_network(1, false);
    let toml = TomlConfig {
        id: 2,
        no_tun: false,
        text: String::new(),
    };
    let flow = PreRun::new(toml, PersistedConfigSource::Web, RunOrigin::Local);
    prepare(&mut world, flow);
    assert!(world.manager.storage.is_enabled(1));
    assert!(!world.manager.storage.is_enabled(2));
    let stored = world.manager.storage.config(2).unwrap();
    assert_eq!(stored.source(), PersistedConfigSource::Web);
}

#[test]
fn loading_runs_each_enabled_network_once() {
    let mut world = World::new(Platform::Other);
    world.connected = true;
    let sources = vec![
        PersistedConfigSource::User,
        PersistedConfigSource::Web,
        PersistedConfigSource::Legacy,
    ];
    let mut configs = Vec::new();
    for id in 1..4u128 {
        configs.push(StoredGuiConfig {
            config: network(id, false),
            source: sources[id as usize - 1],
        });
    }
    let enabled = vec![text(3), "nothing".to_string(), text(1), text(9), text(3), text(1)];
    let mut flow = LoadConfigs::new(configs, enabled);
    let mut reply = Reply::Done;
    let mut run = Vec::new();
    loop {
        let (next, effect) = flow.step(&mut world, reply);
        flow = next;
        reply = match effect {
            Effect::Finish(outcome) => {
                outcome.unwrap();
                break;
            }
            Effect::OpenManager | Effect::OpenRpcClient => Reply::Answer(true),
            Effect::GenerateConfig(config) => {
                let id = uuid::Uuid::parse_str(&config.instance_id).unwrap().as_u128();
                Reply::Generated(Ok(TomlConfig {
                    id,
                    no_tun: config.no_tun,
                    text: String::new(),
                }))
            }
            Effect::PreRun { toml, source, origin } => {
                prepare(&mut world, PreRun::new(toml, source, origin));
                Reply::Outcome(Ok(()))
            }
            Effect::RunStored { config, .. } => {
                run.push(config.encoded);
                Reply::Outcome(Ok(()))
            }
            Effect::PostRun(id) => {
                complete(&mut world, id);
                Reply::Outcome(Ok(()))
            }
            other => panic!("{:?}", other),
        };
    }
    assert_eq!(run, vec![text(3), text(1)]);
    let mut ids = world.manager.storage.save_enabled_networks();
    ids.sort();
    assert_eq!(ids, vec![text(1), text(3)]);
    for id in 1..4u128 {
        let stored = world.manager.storage.config(id).unwrap();
        assert_eq!(stored.source(), sources[id as usize - 1]);
    }
    assert_eq!(world.manager.storage.save_configs().len(), 3);
}
