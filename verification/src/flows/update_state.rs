//! Starting or stopping a stored network.

use crate::config::{
    persisted, ConfigSource, NetworkConfig, PersistedConfigSource, TomlConfig,
};
use crate::connection_intent::{
    decided, every_decision_is_a_new_one, permits, wants_connection,
};
use crate::effect::{
    check_manager, fail, finish, finish_as, manager_refusal, notify_vpn_stop_if_no_tun,
    out_of_turn, refuse, stop_vpn_or_succeed, succeed, Effect, EffectView, GuiEvent, Reply,
    RunOrigin,
};
use crate::error::{parse_instance_id, GuiError};
use crate::instance_id::parsed_uuid;
use crate::storage::a_tun_network_is_any_that_is_one;
use crate::world::{next_epoch, GuiHooks, World, WorldView};
use vstd::prelude::*;

verus! {

/// The request to start or stop the network whose id is written `instance_id`.
#[derive(Debug)]
pub enum UpdateNetworkConfigState {
    Start { instance_id: String, disabled: bool },
    /// Android: the manager is being taken hold of, to look the network up.
    Consulting { instance_id: String, disabled: bool },
    /// Android: the network is being looked up.
    Checking { instance_id: String, disabled: bool },
    /// Android: the connection to the configuration server is being closed.
    Closing { instance_id: String, disabled: bool },
    Locking { instance_id: String, disabled: bool },
    Opening { id: u128, disabled: bool },
    Loading { id: u128 },
    Generating { id: u128, source: ConfigSource },
    Preparing { id: u128 },
    Switching { id: u128, disabled: bool },
    /// What comes after the network has been started or stopped is being done.
    Completing,
    Over,
}

impl UpdateNetworkConfigState {
    /// The next step. On Android, stopping a network with a TUN device is a
    /// decision to stop the mobile connection, and starting one is refused while
    /// such a decision stands.
    pub open spec fn next(self, world: WorldView, reply: Reply) -> (
        UpdateNetworkConfigState,
        WorldView,
        EffectView,
    ) {
        match (self, reply) {
            (
                UpdateNetworkConfigState::Start { instance_id, disabled },
                Reply::Done,
            ) => if world.platform is Android {
                (
                    UpdateNetworkConfigState::Consulting { instance_id, disabled },
                    world,
                    EffectView::Perform(Effect::OpenManager),
                )
            } else {
                (
                    UpdateNetworkConfigState::Locking { instance_id, disabled },
                    world,
                    EffectView::Perform(Effect::LockControl),
                )
            },
            (
                UpdateNetworkConfigState::Consulting { instance_id, disabled },
                Reply::Answer(locked),
            ) => match (manager_refusal(world, locked), parsed_uuid(instance_id@)) {
                (Some(error), _) => (UpdateNetworkConfigState::Over, world, refuse(error)),
                (None, Err(words)) => (
                    UpdateNetworkConfigState::Over,
                    world,
                    EffectView::Finish(Err(words)),
                ),
                (None, Ok(id)) => (
                    UpdateNetworkConfigState::Checking { instance_id, disabled },
                    world,
                    EffectView::Perform(Effect::GetConfig(id)),
                ),
            },
            (
                UpdateNetworkConfigState::Checking { instance_id, disabled },
                Reply::Config(Ok(config)),
            ) => if !config.no_tun && disabled {
                (
                    UpdateNetworkConfigState::Closing { instance_id, disabled },
                    WorldView {
                        intent: decided(world.intent, false),
                        epoch: next_epoch(world.epoch),
                        ..world
                    },
                    EffectView::Perform(Effect::CloseWebClient),
                )
            } else if !config.no_tun && !wants_connection(world.intent) {
                (
                    UpdateNetworkConfigState::Over,
                    world,
                    refuse(GuiError::MobileConnectionStopped),
                )
            } else {
                (
                    UpdateNetworkConfigState::Locking { instance_id, disabled },
                    world,
                    EffectView::Perform(Effect::LockControl),
                )
            },
            (UpdateNetworkConfigState::Checking { .. }, Reply::Config(Err(words))) => (
                UpdateNetworkConfigState::Over,
                world,
                EffectView::Finish(Err(words@)),
            ),
            (UpdateNetworkConfigState::Closing { instance_id, disabled }, Reply::Done) => (
                UpdateNetworkConfigState::Locking { instance_id, disabled },
                world,
                EffectView::Perform(Effect::LockControl),
            ),
            (
                UpdateNetworkConfigState::Locking { instance_id, disabled },
                Reply::Done,
            ) => match parsed_uuid(instance_id@) {
                Ok(id) => (
                    UpdateNetworkConfigState::Opening { id, disabled },
                    world,
                    EffectView::Perform(Effect::OpenManager),
                ),
                Err(words) => (
                    UpdateNetworkConfigState::Over,
                    world,
                    EffectView::Finish(Err(words)),
                ),
            },
            (
                UpdateNetworkConfigState::Opening { id, disabled },
                Reply::Answer(locked),
            ) => match manager_refusal(world, locked) {
                Some(error) => (UpdateNetworkConfigState::Over, world, refuse(error)),
                None => if disabled {
                    (
                        UpdateNetworkConfigState::Switching { id, disabled },
                        world,
                        EffectView::Perform(Effect::SetNetworkState { id, disabled }),
                    )
                } else {
                    (
                        UpdateNetworkConfigState::Loading { id },
                        world,
                        EffectView::Perform(Effect::GetConfigWithSource(id)),
                    )
                },
            },
            (
                UpdateNetworkConfigState::Loading { id },
                Reply::SourcedConfig(Ok((config, source))),
            ) => (
                UpdateNetworkConfigState::Generating { id, source },
                world,
                EffectView::Perform(Effect::GenerateConfig(config)),
            ),
            (UpdateNetworkConfigState::Loading { .. }, Reply::SourcedConfig(Err(words))) => (
                UpdateNetworkConfigState::Over,
                world,
                EffectView::Finish(Err(words@)),
            ),
            (UpdateNetworkConfigState::Generating { id, source }, Reply::Generated(Ok(toml))) => (
                UpdateNetworkConfigState::Preparing { id },
                world,
                EffectView::Perform(
                    Effect::PreRun { toml, source: persisted(source), origin: RunOrigin::Local },
                ),
            ),
            (UpdateNetworkConfigState::Generating { .. }, Reply::Generated(Err(words))) => (
                UpdateNetworkConfigState::Over,
                world,
                EffectView::Finish(Err(words@)),
            ),
            (UpdateNetworkConfigState::Preparing { id }, Reply::Outcome(Ok(()))) => (
                UpdateNetworkConfigState::Switching { id, disabled: false },
                world,
                EffectView::Perform(Effect::SetNetworkState { id, disabled: false }),
            ),
            (
                UpdateNetworkConfigState::Switching { id, disabled },
                Reply::Outcome(Ok(())),
            ) => if disabled {
                (
                    if world.storage.has_tun(false) {
                        UpdateNetworkConfigState::Over
                    } else {
                        UpdateNetworkConfigState::Completing
                    },
                    world,
                    stop_vpn_or_succeed(world),
                )
            } else {
                (
                    UpdateNetworkConfigState::Completing,
                    world,
                    EffectView::Perform(Effect::PostRun(id)),
                )
            },
            (UpdateNetworkConfigState::Completing, Reply::Outcome(outcome)) => (
                UpdateNetworkConfigState::Over,
                world,
                finish_as(outcome),
            ),
            (
                UpdateNetworkConfigState::Preparing { .. }
                | UpdateNetworkConfigState::Switching { .. },
                Reply::Outcome(Err(words)),
            ) => (UpdateNetworkConfigState::Over, world, EffectView::Finish(Err(words@))),
            _ => (UpdateNetworkConfigState::Over, world, out_of_turn()),
        }
    }

    pub fn new(instance_id: String, disabled: bool) -> (r: UpdateNetworkConfigState)
        ensures
            r == (UpdateNetworkConfigState::Start { instance_id, disabled }),
    {
        UpdateNetworkConfigState::Start { instance_id, disabled }
    }

    /// Takes the next step.
    pub fn step(self, world: &mut World, reply: Reply) -> (r: (UpdateNetworkConfigState, Effect))
        ensures
            (r.0, final(world)@, r.1@) == self.next(old(world)@, reply),
    {
        match (self, reply) {
            (UpdateNetworkConfigState::Start { instance_id, disabled }, Reply::Done) => {
                if world.platform.is_android() {
                    (
                        UpdateNetworkConfigState::Consulting { instance_id, disabled },
                        Effect::OpenManager,
                    )
                } else {
                    (
                        UpdateNetworkConfigState::Locking { instance_id, disabled },
                        Effect::LockControl,
                    )
                }
            },
            (
                UpdateNetworkConfigState::Consulting { instance_id, disabled },
                Reply::Answer(locked),
            ) => {
                if let Some(error) = check_manager(world, locked) {
                    return (UpdateNetworkConfigState::Over, Effect::Finish(Err(error)));
                }
                match parse_instance_id(instance_id.as_str()) {
                    Ok(id) => (
                        UpdateNetworkConfigState::Checking { instance_id, disabled },
                        Effect::GetConfig(id),
                    ),
                    Err(error) => (UpdateNetworkConfigState::Over, Effect::Finish(Err(error))),
                }
            },
            (
                UpdateNetworkConfigState::Checking { instance_id, disabled },
                Reply::Config(Ok(config)),
            ) => {
                if !config.no_tun {
                    if disabled {
                        world.intent.set_enabled(false);
                        world.epoch.advance();
                        return (
                            UpdateNetworkConfigState::Closing { instance_id, disabled },
                            Effect::CloseWebClient,
                        );
                    } else if !world.intent.enabled() {
                        return (
                            UpdateNetworkConfigState::Over,
                            Effect::Finish(Err(GuiError::MobileConnectionStopped)),
                        );
                    }
                }
                (UpdateNetworkConfigState::Locking { instance_id, disabled }, Effect::LockControl)
            },
            (UpdateNetworkConfigState::Checking { .. }, Reply::Config(Err(words))) => (
                UpdateNetworkConfigState::Over,
                fail(words),
            ),
            (UpdateNetworkConfigState::Closing { instance_id, disabled }, Reply::Done) => (
                UpdateNetworkConfigState::Locking { instance_id, disabled },
                Effect::LockControl,
            ),
            (UpdateNetworkConfigState::Locking { instance_id, disabled }, Reply::Done) => {
                match parse_instance_id(instance_id.as_str()) {
                    Ok(id) => (
                        UpdateNetworkConfigState::Opening { id, disabled },
                        Effect::OpenManager,
                    ),
                    Err(error) => (UpdateNetworkConfigState::Over, Effect::Finish(Err(error))),
                }
            },
            (UpdateNetworkConfigState::Opening { id, disabled }, Reply::Answer(locked)) => {
                if let Some(error) = check_manager(world, locked) {
                    return (UpdateNetworkConfigState::Over, Effect::Finish(Err(error)));
                }
                if disabled {
                    (
                        UpdateNetworkConfigState::Switching { id, disabled },
                        Effect::SetNetworkState { id, disabled },
                    )
                } else {
                    (
                        UpdateNetworkConfigState::Loading { id },
                        Effect::GetConfigWithSource(id),
                    )
                }
            },
            (
                UpdateNetworkConfigState::Loading { id },
                Reply::SourcedConfig(Ok((config, source))),
            ) => (
                UpdateNetworkConfigState::Generating { id, source },
                Effect::GenerateConfig(config),
            ),
            (UpdateNetworkConfigState::Loading { .. }, Reply::SourcedConfig(Err(words))) => (
                UpdateNetworkConfigState::Over,
                fail(words),
            ),
            (UpdateNetworkConfigState::Generating { id, source }, Reply::Generated(Ok(toml))) => (
                UpdateNetworkConfigState::Preparing { id },
                Effect::PreRun {
                    toml,
                    source: PersistedConfigSource::from_runtime_source(source),
                    origin: RunOrigin::Local,
                },
            ),
            (UpdateNetworkConfigState::Generating { .. }, Reply::Generated(Err(words))) => (
                UpdateNetworkConfigState::Over,
                fail(words),
            ),
            (UpdateNetworkConfigState::Preparing { id }, Reply::Outcome(Ok(()))) => (
                UpdateNetworkConfigState::Switching { id, disabled: false },
                Effect::SetNetworkState { id, disabled: false },
            ),
            (UpdateNetworkConfigState::Switching { id, disabled }, Reply::Outcome(Ok(()))) => {
                if disabled {
                    let effect = notify_vpn_stop_if_no_tun(world);
                    if let Effect::Finish(_) = effect {
                        (UpdateNetworkConfigState::Over, effect)
                    } else {
                        (UpdateNetworkConfigState::Completing, effect)
                    }
                } else {
                    (UpdateNetworkConfigState::Completing, Effect::PostRun(id))
                }
            },
            (UpdateNetworkConfigState::Completing, Reply::Outcome(outcome)) => (
                UpdateNetworkConfigState::Over,
                finish(outcome),
            ),
            (
                UpdateNetworkConfigState::Preparing { .. }
                | UpdateNetworkConfigState::Switching { .. },
                Reply::Outcome(Err(words)),
            ) => (UpdateNetworkConfigState::Over, fail(words)),
            _ => (UpdateNetworkConfigState::Over, Effect::Finish(Err(GuiError::UnexpectedReply))),
        }
    }
}

/// The request changes the user's decision only where it stops a network with a
/// TUN device on Android, and there it is the decision to stop: no work that was
/// started under any decision may then go on, and no callbacks of a connection to
/// the configuration server are current.
pub proof fn stopping_a_vpn_is_a_decision_to_stop(
    flow: UpdateNetworkConfigState,
    world: WorldView,
    reply: Reply,
    token: u64,
    hooks: GuiHooks,
)
    ensures
        ({
            let after = flow.next(world, reply).1;
            let stops = flow is Checking && flow->Checking_disabled && (reply matches Reply::Config(
                Ok(config),
            ) && !config.no_tun);
            &&& !stops ==> after == world
            &&& stops ==> !permits(after.intent, token)
            &&& stops && world.platform is Android ==> !hooks.current_in(after)
        }),
{
}

/// On Android a network with a TUN device is not started while the user has
/// stopped the mobile connection: the request ends before it has locked or run
/// anything.
pub proof fn stopped_networks_are_not_started(
    world: WorldView,
    instance_id: String,
    config: NetworkConfig,
)
    requires
        !config.no_tun,
        !wants_connection(world.intent),
    ensures
        (UpdateNetworkConfigState::Checking { instance_id, disabled: false }).next(
            world,
            Reply::Config(Ok(config)),
        ) == (
            UpdateNetworkConfigState::Over,
            world,
            refuse(GuiError::MobileConnectionStopped),
        ),
{
}

/// A network is started only once its preparation has succeeded, and is called
/// started only once the management of the core has started it.
pub proof fn networks_are_prepared_before_they_start(
    flow: UpdateNetworkConfigState,
    world: WorldView,
    reply: Reply,
    id: u128,
)
    ensures
        flow.next(world, reply).2 == EffectView::Perform(
            Effect::SetNetworkState { id, disabled: false },
        ) ==> flow is Preparing && (reply matches Reply::Outcome(Ok(()))),
        flow.next(world, reply).2 == EffectView::Perform(Effect::PostRun(id)) ==> flow
            is Switching && !flow->Switching_disabled && (reply matches Reply::Outcome(Ok(()))),
        flow.next(world, reply).0 is Preparing ==> (flow.next(world, reply).2
            matches EffectView::Perform(Effect::PreRun { .. })),
{
}

/// How the request comes to ask for the control lock. Off Android it does so at
/// once. On Android the network is looked up first: stopping one with a TUN device
/// is a decision to stop, which also closes the connection to the configuration
/// server; starting one is refused exactly where the user has stopped the mobile
/// connection; nothing else is changed. In every case it is the same network, and
/// the same wish to start or stop it, that the request goes on with.
pub proof fn the_lock_is_asked_for_with_the_same_wish(
    instance_id: String,
    disabled: bool,
    config: NetworkConfig,
    words: String,
    w: Seq<WorldView>,
)
    requires
        w.len() == 4,
    ensures
        ({
            let s0 = (UpdateNetworkConfigState::Start { instance_id, disabled }).next(
                w[0],
                Reply::Done,
            );
            let s1 = s0.0.next(w[1], Reply::Answer(true));
            let s2 = s1.0.next(w[2], Reply::Config(Ok(config)));
            let s3 = s2.0.next(w[3], Reply::Done);
            let locking = UpdateNetworkConfigState::Locking { instance_id, disabled };
            let lock = EffectView::Perform(Effect::LockControl);
            &&& s0.1 == w[0]
            &&& !(w[0].platform is Android) ==> s0.0 == locking && s0.2 == lock
            &&& w[0].platform is Android ==> {
                &&& s0.2 == EffectView::Perform(Effect::OpenManager)
                &&& s0.0.next(w[1], Reply::Answer(false)).2 == refuse(GuiError::ManagerBusy)
                &&& !w[1].connected ==> s1.2 == refuse(GuiError::ManagerMissing)
                &&& w[1].connected ==> match parsed_uuid(instance_id@) {
                    Err(said) => s1.2 == EffectView::Finish(Err(said)),
                    Ok(id) => {
                        &&& s1.2 == EffectView::Perform(Effect::GetConfig(id)) && s1.1 == w[1]
                        &&& s1.0.next(w[2], Reply::Config(Err(words))).2 == EffectView::Finish(
                            Err(words@),
                        )
                        &&& !config.no_tun && disabled ==> {
                            &&& s2.2 == EffectView::Perform(Effect::CloseWebClient)
                            &&& !wants_connection(s2.1.intent) && s2.1.intent != w[2].intent
                            &&& s2.1.epoch != w[2].epoch
                            &&& s2.1 == (WorldView {
                                intent: s2.1.intent,
                                epoch: s2.1.epoch,
                                ..w[2]
                            })
                            &&& s3.0 == locking && s3.2 == lock && s3.1 == w[3]
                        }
                        &&& !config.no_tun && !disabled && !wants_connection(w[2].intent)
                            ==> s2.2 == refuse(GuiError::MobileConnectionStopped) && s2.1 == w[2]
                        &&& config.no_tun || (!disabled && wants_connection(w[2].intent))
                            ==> s2.0 == locking && s2.2 == lock && s2.1 == w[2]
                    },
                }
            }
        }),
{
    every_decision_is_a_new_one(w[2].intent, false);
}

/// What the request does once it holds the control lock. Stopping has the network
/// stopped, and tells the VPN service to stop exactly where no enabled network with
/// a TUN device is left. Starting loads the network with its source, generates and
/// prepares it with that source, starts it and completes its run. Nothing that is
/// shared is changed. What fails on the way ends the request with its words.
pub proof fn the_network_is_started_or_stopped(
    instance_id: String,
    config: NetworkConfig,
    source: ConfigSource,
    toml: TomlConfig,
    words: String,
    w: Seq<WorldView>,
)
    requires
        w.len() == 7,
    ensures
        ({
            let done = Reply::Outcome(Ok(()));
            let failed = Reply::Outcome(Err(words));
            let over = EffectView::Finish(Err(words@));
            let stop = UpdateNetworkConfigState::Locking { instance_id, disabled: true };
            let start = UpdateNetworkConfigState::Locking { instance_id, disabled: false };
            let t0 = stop.next(w[0], Reply::Done);
            let t1 = t0.0.next(w[1], Reply::Answer(true));
            let t2 = t1.0.next(w[2], done);
            let t3 = t2.0.next(w[3], done);
            let s0 = start.next(w[0], Reply::Done);
            let s1 = s0.0.next(w[1], Reply::Answer(true));
            let s2 = s1.0.next(w[2], Reply::SourcedConfig(Ok((config, source))));
            let s3 = s2.0.next(w[3], Reply::Generated(Ok(toml)));
            let s4 = s3.0.next(w[4], done);
            let s5 = s4.0.next(w[5], done);
            let s6 = s5.0.next(w[6], done);
            match parsed_uuid(instance_id@) {
                Err(said) => t0.2 == EffectView::Finish(Err(said)) && s0.2 == EffectView::Finish(
                    Err(said),
                ),
                Ok(id) => {
                    &&& t0.2 == EffectView::Perform(Effect::OpenManager) && t0.2 == s0.2
                    &&& t0.0.next(w[1], Reply::Answer(false)).2 == refuse(GuiError::ManagerBusy)
                    &&& s0.0.next(w[1], Reply::Answer(false)).2 == refuse(GuiError::ManagerBusy)
                    &&& !w[1].connected ==> t1.2 == refuse(GuiError::ManagerMissing) && s1.2
                        == refuse(GuiError::ManagerMissing)
                    &&& w[1].connected ==> {
                        &&& t1.2 == EffectView::Perform(
                            Effect::SetNetworkState { id, disabled: true },
                        )
                        &&& t1.0.next(w[2], failed).2 == over
                        &&& (exists|tun: u128| w[2].storage.is_tun(false, tun)) ==> t2.2
                            == succeed()
                        &&& !(exists|tun: u128| w[2].storage.is_tun(false, tun)) ==> {
                            &&& t2.2 == EffectView::Perform(Effect::Emit(GuiEvent::VpnServiceStop))
                            &&& t3.2 == succeed()
                            &&& t2.0.next(w[3], failed).2 == over
                        }
                        &&& s1.2 == EffectView::Perform(Effect::GetConfigWithSource(id))
                        &&& s1.0.next(w[2], Reply::SourcedConfig(Err(words))).2 == over
                        &&& s2.2 == EffectView::Perform(Effect::GenerateConfig(config))
                        &&& s2.0.next(w[3], Reply::Generated(Err(words))).2 == over
                        &&& s3.2 matches EffectView::Perform(
                            Effect::PreRun { toml: prepared, source: stored, origin },
                        ) && prepared == toml && origin is Local && (stored is Web <==> source
                            is Web) && (stored is User <==> source is User)
                        &&& s3.0.next(w[4], failed).2 == over
                        &&& s4.2 == EffectView::Perform(
                            Effect::SetNetworkState { id, disabled: false },
                        )
                        &&& s4.0.next(w[5], failed).2 == over
                        &&& s5.2 == EffectView::Perform(Effect::PostRun(id))
                        &&& s5.0.next(w[6], failed).2 == over
                        &&& s6.2 == succeed()
                    }
                },
            }
        }),
{
    a_tun_network_is_any_that_is_one(w[2].storage, false);
}

/// A run of a request to start or stop a network, step by step: the flow before
/// step `i`, the state that the step finds, the reply that it gets and the effect
/// that it asks for. Between two steps other requests may change the state in any
/// way.
pub struct UpdateTrace {
    pub flows: Seq<UpdateNetworkConfigState>,
    pub worlds: Seq<WorldView>,
    pub replies: Seq<Reply>,
    pub effects: Seq<EffectView>,
}

impl UpdateTrace {
    /// Whether step `i` is one that the request can take.
    pub open spec fn steps(self, i: int) -> bool {
        let (after, _, effect) = self.flows[i].next(self.worlds[i], self.replies[i]);
        self.flows[i + 1] == after && self.effects[i] == effect
    }

    /// Whether these are the first steps of a request.
    pub open spec fn updates(self, instance_id: String, disabled: bool) -> bool {
        &&& self.worlds.len() == self.effects.len()
        &&& self.replies.len() == self.effects.len()
        &&& self.flows.len() == self.effects.len() + 1
        &&& self.flows[0] == (UpdateNetworkConfigState::Start { instance_id, disabled })
        &&& forall|i: int| 0 <= i < self.effects.len() ==> #[trigger] self.steps(i)
    }

    /// Whether step `j` asks for the network `id` to be started or stopped, and the
    /// next step learns that it has been.
    pub open spec fn has_set(self, j: int, id: u128, disabled: bool) -> bool {
        &&& 0 <= j
        &&& self.effects[j] == EffectView::Perform(Effect::SetNetworkState { id, disabled })
        &&& (self.replies[j + 1] matches Reply::Outcome(Ok(())))
    }

    /// What is known before step `i`.
    spec fn on_the_way(self, i: int, instance_id: String, disabled: bool) -> bool {
        let spelled = parsed_uuid(instance_id@);
        let id = spelled->Ok_0;
        match self.flows[i] {
            UpdateNetworkConfigState::Start { instance_id: a, disabled: d }
            | UpdateNetworkConfigState::Consulting { instance_id: a, disabled: d }
            | UpdateNetworkConfigState::Checking { instance_id: a, disabled: d }
            | UpdateNetworkConfigState::Closing { instance_id: a, disabled: d }
            | UpdateNetworkConfigState::Locking { instance_id: a, disabled: d } => a == instance_id
                && d == disabled,
            UpdateNetworkConfigState::Opening { id: n, disabled: d } => spelled is Ok && n == id
                && d == disabled,
            UpdateNetworkConfigState::Loading { id: n }
            | UpdateNetworkConfigState::Generating { id: n, .. }
            | UpdateNetworkConfigState::Preparing { id: n } => spelled is Ok && n == id
                && !disabled,
            UpdateNetworkConfigState::Switching { id: n, disabled: d } => {
                &&& spelled is Ok && n == id && d == disabled
                &&& i > 0 && self.effects[i - 1] == EffectView::Perform(
                    Effect::SetNetworkState { id, disabled },
                )
            },
            UpdateNetworkConfigState::Completing => {
                &&& spelled is Ok && i > 1 && self.has_set(i - 2, id, disabled)
                &&& !disabled ==> self.effects[i - 1] == EffectView::Perform(Effect::PostRun(id))
            },
            UpdateNetworkConfigState::Over => true,
        }
    }
}

/// The request stays on the way.
proof fn lemma_on_the_way(t: UpdateTrace, instance_id: String, disabled: bool, i: int)
    requires
        t.updates(instance_id, disabled),
        0 <= i <= t.effects.len(),
    ensures
        t.on_the_way(i, instance_id, disabled),
    decreases i,
{
    if i > 0 {
        lemma_on_the_way(t, instance_id, disabled, i - 1);
        assert(t.steps(i - 1));
    }
}

/// A request keeps to what it was made for: it never has any network started or
/// stopped but the one that was written, and never in the other direction.
pub proof fn a_request_keeps_its_direction(
    t: UpdateTrace,
    instance_id: String,
    disabled: bool,
    k: int,
    id: u128,
    asked: bool,
)
    requires
        t.updates(instance_id, disabled),
        0 <= k < t.effects.len(),
        t.effects[k] == EffectView::Perform(Effect::SetNetworkState { id, disabled: asked }),
    ensures
        asked == disabled,
        parsed_uuid(instance_id@) == Ok::<u128, Seq<char>>(id),
{
    lemma_on_the_way(t, instance_id, disabled, k);
    assert(t.steps(k));
}

/// A request to start a network succeeds only after it has been started and its run
/// has been completed; a request to stop one, only after it has been stopped.
pub proof fn a_request_succeeds_once_it_is_met(
    t: UpdateTrace,
    instance_id: String,
    disabled: bool,
    k: int,
)
    requires
        t.updates(instance_id, disabled),
        0 <= k < t.effects.len(),
        t.effects[k] == succeed(),
    ensures
        parsed_uuid(instance_id@) is Ok,
        ({
            let id = parsed_uuid(instance_id@)->Ok_0;
            &&& !disabled ==> t.has_set(k - 2, id, false) && t.effects[k - 1]
                == EffectView::Perform(Effect::PostRun(id)) && (t.replies[k]
                matches Reply::Outcome(Ok(())))
            &&& disabled ==> t.has_set(k - 1, id, true) || t.has_set(k - 2, id, true)
        }),
{
    lemma_on_the_way(t, instance_id, disabled, k);
    assert(t.steps(k));
}

} // verus!
