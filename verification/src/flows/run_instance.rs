//! Running a network that the user has configured.

use crate::config::{NetworkConfig, PersistedConfigSource, TomlConfig};
use crate::connection_intent::wants_connection;
use crate::effect::{
    check_manager, fail, finish, finish_as, manager_refusal, out_of_turn, refuse, succeed, Effect,
    EffectView, Reply, RunOrigin,
};
use crate::error::GuiError;
use crate::world::{World, WorldView};
use vstd::prelude::*;

verus! {

/// The request to run the network `cfg`, and to save it if `save` says so.
#[derive(Debug)]
pub enum RunNetworkInstance {
    Start { cfg: NetworkConfig, save: bool },
    Locking { cfg: NetworkConfig, save: bool },
    Opening { cfg: NetworkConfig, save: bool },
    Generating { cfg: NetworkConfig, save: bool },
    Preparing { cfg: NetworkConfig, save: bool, id: u128 },
    Running { id: u128 },
    Completing,
    Over,
}

impl RunNetworkInstance {
    /// The next step. No network with a TUN device is run on Android while the
    /// user has stopped the mobile connection.
    pub open spec fn next(self, world: WorldView, reply: Reply) -> (
        RunNetworkInstance,
        EffectView,
    ) {
        match (self, reply) {
            (RunNetworkInstance::Start { cfg, save }, Reply::Done) => (
                RunNetworkInstance::Locking { cfg, save },
                EffectView::Perform(Effect::LockControl),
            ),
            (RunNetworkInstance::Locking { cfg, save }, Reply::Done) => if world.platform
                is Android && !cfg.no_tun && !wants_connection(world.intent) {
                (RunNetworkInstance::Over, refuse(GuiError::MobileConnectionStopped))
            } else {
                (
                    RunNetworkInstance::Opening { cfg, save },
                    EffectView::Perform(Effect::OpenManager),
                )
            },
            (
                RunNetworkInstance::Opening { cfg, save },
                Reply::Answer(locked),
            ) => match manager_refusal(world, locked) {
                Some(error) => (RunNetworkInstance::Over, refuse(error)),
                None => (
                    RunNetworkInstance::Generating { cfg, save },
                    EffectView::Perform(Effect::GenerateConfig(cfg)),
                ),
            },
            (RunNetworkInstance::Generating { cfg, save }, Reply::Generated(Ok(toml))) => (
                RunNetworkInstance::Preparing { cfg, save, id: toml.id },
                EffectView::Perform(
                    Effect::PreRun {
                        toml,
                        source: PersistedConfigSource::User,
                        origin: RunOrigin::Local,
                    },
                ),
            ),
            (RunNetworkInstance::Generating { .. }, Reply::Generated(Err(words))) => (
                RunNetworkInstance::Over,
                EffectView::Finish(Err(words@)),
            ),
            (RunNetworkInstance::Preparing { cfg, save, id }, Reply::Outcome(Ok(()))) => (
                RunNetworkInstance::Running { id },
                EffectView::Perform(Effect::RunInstance { config: cfg, save }),
            ),
            (RunNetworkInstance::Running { id }, Reply::Outcome(Ok(()))) => (
                RunNetworkInstance::Completing,
                EffectView::Perform(Effect::PostRun(id)),
            ),
            (RunNetworkInstance::Completing, Reply::Outcome(outcome)) => (
                RunNetworkInstance::Over,
                finish_as(outcome),
            ),
            (
                RunNetworkInstance::Preparing { .. } | RunNetworkInstance::Running { .. },
                Reply::Outcome(Err(words)),
            ) => (RunNetworkInstance::Over, EffectView::Finish(Err(words@))),
            _ => (RunNetworkInstance::Over, out_of_turn()),
        }
    }

    pub fn new(cfg: NetworkConfig, save: bool) -> (r: RunNetworkInstance)
        ensures
            r == (RunNetworkInstance::Start { cfg, save }),
    {
        RunNetworkInstance::Start { cfg, save }
    }

    /// Takes the next step.
    pub fn step(self, world: &World, reply: Reply) -> (r: (RunNetworkInstance, Effect))
        ensures
            (r.0, r.1@) == self.next(world@, reply),
    {
        match (self, reply) {
            (RunNetworkInstance::Start { cfg, save }, Reply::Done) => (
                RunNetworkInstance::Locking { cfg, save },
                Effect::LockControl,
            ),
            (RunNetworkInstance::Locking { cfg, save }, Reply::Done) => {
                if world.platform.is_android() && !cfg.no_tun && !world.intent.enabled() {
                    return (
                        RunNetworkInstance::Over,
                        Effect::Finish(Err(GuiError::MobileConnectionStopped)),
                    );
                }
                (RunNetworkInstance::Opening { cfg, save }, Effect::OpenManager)
            },
            (RunNetworkInstance::Opening { cfg, save }, Reply::Answer(locked)) => {
                match check_manager(world, locked) {
                    Some(error) => (RunNetworkInstance::Over, Effect::Finish(Err(error))),
                    None => {
                        let config = cfg.clone();
                        (
                            RunNetworkInstance::Generating { cfg, save },
                            Effect::GenerateConfig(config),
                        )
                    },
                }
            },
            (RunNetworkInstance::Generating { cfg, save }, Reply::Generated(Ok(toml))) => {
                let id = toml.id;
                (
                    RunNetworkInstance::Preparing { cfg, save, id },
                    Effect::PreRun {
                        toml,
                        source: PersistedConfigSource::User,
                        origin: RunOrigin::Local,
                    },
                )
            },
            (RunNetworkInstance::Generating { .. }, Reply::Generated(Err(words))) => (
                RunNetworkInstance::Over,
                fail(words),
            ),
            (RunNetworkInstance::Preparing { cfg, save, id }, Reply::Outcome(Ok(()))) => (
                RunNetworkInstance::Running { id },
                Effect::RunInstance { config: cfg, save },
            ),
            (RunNetworkInstance::Running { id }, Reply::Outcome(Ok(()))) => (
                RunNetworkInstance::Completing,
                Effect::PostRun(id),
            ),
            (RunNetworkInstance::Completing, Reply::Outcome(outcome)) => (
                RunNetworkInstance::Over,
                finish(outcome),
            ),
            (
                RunNetworkInstance::Preparing { .. } | RunNetworkInstance::Running { .. },
                Reply::Outcome(Err(words)),
            ) => (RunNetworkInstance::Over, fail(words)),
            _ => (RunNetworkInstance::Over, Effect::Finish(Err(GuiError::UnexpectedReply))),
        }
    }
}

/// On Android a network with a TUN device is not run while the user has stopped
/// the mobile connection: the request ends as soon as it has the control lock.
pub proof fn stopped_networks_are_not_run(world: WorldView, cfg: NetworkConfig, save: bool)
    requires
        world.platform is Android && !cfg.no_tun,
        !wants_connection(world.intent),
    ensures
        (RunNetworkInstance::Locking { cfg, save }).next(world, Reply::Done) == (
            RunNetworkInstance::Over,
            refuse(GuiError::MobileConnectionStopped),
        ),
{
}

/// A network is run only once its preparation has succeeded, and is called run
/// only once the core has run it.
pub proof fn networks_are_prepared_before_they_run(
    flow: RunNetworkInstance,
    world: WorldView,
    reply: Reply,
    config: NetworkConfig,
    save: bool,
    id: u128,
)
    ensures
        flow.next(world, reply).1 == EffectView::Perform(Effect::RunInstance { config, save })
            ==> flow is Preparing && (reply matches Reply::Outcome(Ok(()))),
        flow.next(world, reply).1 == EffectView::Perform(Effect::PostRun(id)) ==> flow is Running
            && (reply matches Reply::Outcome(Ok(()))),
        flow.next(world, reply).0 is Preparing ==> (flow.next(world, reply).1
            matches EffectView::Perform(Effect::PreRun { .. })),
{
}

/// Once the control lock is held, the request goes on in every state but one: on
/// Android, a network with a TUN device is refused where the user has stopped the
/// mobile connection. Off Android, and without a TUN device, the decision plays no
/// part.
pub proof fn only_a_stopped_phone_refuses_to_run(
    cfg: NetworkConfig,
    save: bool,
    w0: WorldView,
    w1: WorldView,
)
    ensures
        ({
            let s0 = (RunNetworkInstance::Start { cfg, save }).next(w0, Reply::Done);
            let s1 = s0.0.next(w1, Reply::Done);
            let refused = w1.platform is Android && !cfg.no_tun && !wants_connection(w1.intent);
            &&& s0.1 == EffectView::Perform(Effect::LockControl)
            &&& s1.1 == refuse(GuiError::MobileConnectionStopped) <==> refused
            &&& s1.1 == EffectView::Perform(Effect::OpenManager) <==> !refused
        }),
{
}

/// A request that is not refused runs the network: it is generated from what the
/// user configured, prepared as the user's, run and saved as asked, and completed
/// under the id that was generated. What fails on the way ends it with its words.
pub proof fn a_run_goes_through(
    cfg: NetworkConfig,
    save: bool,
    toml: TomlConfig,
    words: String,
    w: Seq<WorldView>,
)
    requires
        w.len() == 7,
        w[1].platform is Android ==> cfg.no_tun || wants_connection(w[1].intent),
    ensures
        ({
            let s0 = (RunNetworkInstance::Start { cfg, save }).next(w[0], Reply::Done);
            let s1 = s0.0.next(w[1], Reply::Done);
            let s2 = s1.0.next(w[2], Reply::Answer(true));
            let s3 = s2.0.next(w[3], Reply::Generated(Ok(toml)));
            let s4 = s3.0.next(w[4], Reply::Outcome(Ok(())));
            let s5 = s4.0.next(w[5], Reply::Outcome(Ok(())));
            let s6 = s5.0.next(w[6], Reply::Outcome(Ok(())));
            let failed = Reply::Outcome(Err(words));
            &&& s1.0.next(w[2], Reply::Answer(false)).1 == refuse(GuiError::ManagerBusy)
            &&& !w[2].connected ==> s2.1 == refuse(GuiError::ManagerMissing)
            &&& w[2].connected ==> {
                &&& s2.1 == EffectView::Perform(Effect::GenerateConfig(cfg))
                &&& s3.1 == EffectView::Perform(
                    Effect::PreRun {
                        toml,
                        source: PersistedConfigSource::User,
                        origin: RunOrigin::Local,
                    },
                )
                &&& s4.1 == EffectView::Perform(Effect::RunInstance { config: cfg, save })
                &&& s5.1 == EffectView::Perform(Effect::PostRun(toml.id))
                &&& s6.1 == succeed()
                &&& s2.0.next(w[3], Reply::Generated(Err(words))).1 == EffectView::Finish(
                    Err(words@),
                )
                &&& s3.0.next(w[4], failed).1 == EffectView::Finish(Err(words@))
                &&& s4.0.next(w[5], failed).1 == EffectView::Finish(Err(words@))
                &&& s5.0.next(w[6], failed).1 == EffectView::Finish(Err(words@))
            }
        }),
{
}

} // verus!
