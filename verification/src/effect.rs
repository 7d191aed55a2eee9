//! What a request asks of the world around the client, and what it is told back.
//!
//! A request is a flow: a value with a `step` function. Each step decides, from
//! the reply to the previous effect and from the shared state, how the state
//! changes and which effect comes next. The last effect is
//! [`Effect::Finish`]. A flow starts with the reply [`Reply::Done`]; a reply to
//! something that was not asked ends it.

use crate::config::{ConfigSource, NetworkConfig, PersistedConfigSource, TomlConfig};
use crate::error::GuiError;
use crate::instance_id::{hyphenated, uuid_text};
use crate::storage::a_tun_network_is_any_that_is_one;
use crate::world::{GuiHooks, World, WorldView};
use vstd::prelude::*;

verus! {

/// Who asks for a network to be run.
#[derive(Debug, Clone, Copy, PartialEq, Eq, Structural)]
pub enum RunOrigin {
    /// The user interface.
    Local,
    /// The configuration server. It holds the lock under which instances change.
    ConfigServer,
}

/// What to do with a number of instances at once.
#[derive(Debug, Clone, Copy, PartialEq, Eq, Structural)]
pub enum InstanceCall {
    /// Find out which of them may be deleted; answered by [`Reply::Deletable`].
    Inspect,
    /// Delete them in the core, waiting until they are gone.
    Delete,
    /// Remove them through the management RPC.
    Remove,
}

/// An event for the user interface.
#[derive(Debug, Clone, Copy, PartialEq, Eq, Structural)]
pub enum GuiEvent {
    /// The stored configurations have changed.
    SaveConfigs,
    /// The set of enabled networks has changed.
    SaveEnabledNetworks,
    PreRunNetworkInstance(u128),
    PostRunNetworkInstance(u128),
    /// No network is left that needs the VPN service.
    VpnServiceStop,
}

impl GuiEvent {
    /// The name under which the event is emitted.
    pub open spec fn event_name(self) -> Seq<char> {
        match self {
            GuiEvent::SaveConfigs => "save_configs"@,
            GuiEvent::SaveEnabledNetworks => "save_enabled_networks"@,
            GuiEvent::PreRunNetworkInstance(_) => "pre_run_network_instance"@,
            GuiEvent::PostRunNetworkInstance(_) => "post_run_network_instance"@,
            GuiEvent::VpnServiceStop => "vpn_service_stop"@,
        }
    }

    /// The name under which the event is emitted.
    pub fn name(&self) -> (r: &'static str)
        ensures
            r@ == self.event_name(),
    {
        match self {
            GuiEvent::SaveConfigs => "save_configs",
            GuiEvent::SaveEnabledNetworks => "save_enabled_networks",
            GuiEvent::PreRunNetworkInstance(_) => "pre_run_network_instance",
            GuiEvent::PostRunNetworkInstance(_) => "post_run_network_instance",
            GuiEvent::VpnServiceStop => "vpn_service_stop",
        }
    }

    /// The text that the event carries: the id of the instance it is about, if it
    /// is about one. The two events about what is stored carry what the storage
    /// hands out to be saved, and no text.
    pub fn text(&self) -> (r: Option<String>)
        ensures
            match self {
                GuiEvent::SaveConfigs | GuiEvent::SaveEnabledNetworks => r is None,
                GuiEvent::PreRunNetworkInstance(id) | GuiEvent::PostRunNetworkInstance(id) => r
                    matches Some(text) && text@ == hyphenated(*id),
                GuiEvent::VpnServiceStop => r matches Some(text) && text@ == ""@,
            },
    {
        match self {
            GuiEvent::SaveConfigs | GuiEvent::SaveEnabledNetworks => None,
            GuiEvent::PreRunNetworkInstance(id) | GuiEvent::PostRunNetworkInstance(id) => Some(
                uuid_text(*id),
            ),
            GuiEvent::VpnServiceStop => Some("".to_string()),
        }
    }
}

/// What a flow asks for.
#[derive(Debug)]
pub enum Effect {
    /// The request is over.
    Finish(Result<(), GuiError>),
    /// Deal with a number of instances at once.
    Instances { call: InstanceCall, ids: Vec<u128> },
    /// Wait for the lock under which the mobile connection is controlled.
    LockControl,
    /// Take hold of the client manager, if that is possible without waiting.
    OpenManager,
    /// Turn a network configuration into one that the core can load.
    GenerateConfig(NetworkConfig),
    /// Turn a configuration that the core can load into a network configuration.
    ReadConfig(TomlConfig),
    /// Ask the client manager for a stored configuration.
    GetConfig(u128),
    /// Ask the client manager for a stored configuration and its source.
    GetConfigWithSource(u128),
    /// Do what comes before a network is run.
    PreRun { toml: TomlConfig, source: PersistedConfigSource, origin: RunOrigin },
    /// Do what comes after a network has been run.
    PostRun(u128),
    /// Have the management of the core save a configuration.
    SaveConfig { id: u128, config: NetworkConfig },
    /// Run a network, and save it if asked to.
    RunInstance { config: NetworkConfig, save: bool },
    /// Run a stored network, reporting its source: under `inst_id`, or the id that it
    /// spells itself, and in place of a running instance only where `overwrite` says so.
    RunStored {
        config: NetworkConfig,
        reported: ConfigSource,
        inst_id: Option<u128>,
        overwrite: bool,
    },
    /// Start or stop a stored network, and record it.
    SetNetworkState { id: u128, disabled: bool },
    /// Stop every enabled network with a TUN device.
    DisableTun { web_only: bool },
    /// Delete an instance in the core, if there is a local core.
    DropInstance(u128),
    /// Pass the events of an instance on to the user interface.
    WatchInstance(u128),
    /// Emit an event to the user interface.
    Emit(GuiEvent),
    /// Close the connection to the configuration server.
    CloseWebClient,
    /// Find out, waiting if need be, whether there is a local core.
    FindInstances,
    /// Find out, without waiting, whether there is a local core.
    TryFindInstances,
    /// Listen to the events of an instance.
    SubscribeEvents(u128),
    /// Hand a TUN device to an instance.
    AttachTun { id: u128, fd: i32 },
    /// Wait for the next event of the instance that is listened to.
    AwaitTunEvent,
    /// Wait for the lock under which instances change.
    LockMutation,
    /// Take down the configuration of a running instance and the right to control it.
    SnapshotInstance(u128),
    /// Run an instance again, from what was taken down of it.
    RerunInstance(u128),
    /// Get at the management RPC of the core.
    OpenRpcClient,
    /// Find the directory in which the machine id is kept.
    ResolveStateDirectory,
    /// Open a connection to the configuration server.
    StartWebClient { url: String, hooks: GuiHooks },
    /// Keep the connection that was just opened.
    KeepWebClient,
    /// Take hold of the place of the client manager, to fill it.
    ClaimManager,
    /// Take hold of the place of the local core, to fill it.
    ClaimInstances,
    /// Take hold of the place of the management RPC, to fill it.
    ClaimRpcServer,
    /// Take the local core out of its place, making a new one if there is none.
    TakeInstances,
    /// Stop offering the management RPC.
    StopRpcServer,
    /// Offer the management RPC inside the process.
    ServeRing,
    /// Look up the addresses of a host.
    LookupHost { host: String, port: u16 },
    /// Offer the management RPC on an address.
    ServeTcp(String),
    /// Put the local core back in its place.
    RestoreInstances,
    /// Connect to the management RPC of another process.
    DialRemote(String),
    /// Connect to the management RPC of this process.
    ConnectRing,
    /// Stop all instances of the local core, and give it up.
    RetireInstances,
}

impl Effect {
    /// How many milliseconds the effect may take, where there is a limit; all
    /// waits for the events of one hand-over of a TUN device count as one.
    pub open spec fn limit(self) -> Option<u64> {
        match self {
            Effect::AwaitTunEvent | Effect::ClaimManager => Some(5000),
            Effect::DialRemote(_) | Effect::ConnectRing => Some(1000),
            _ => None,
        }
    }

    /// How many milliseconds the effect may take, where there is a limit.
    pub fn time_limit_ms(&self) -> (r: Option<u64>)
        ensures
            r == self.limit(),
    {
        match self {
            Effect::AwaitTunEvent | Effect::ClaimManager => Some(5000),
            Effect::DialRemote(_) | Effect::ConnectRing => Some(1000),
            _ => None,
        }
    }
}

/// What an [`Effect`] asks for.
pub enum EffectView {
    /// The request is over; a failure is told by its words.
    Finish(Result<(), Seq<char>>),
    Instances(InstanceCall, Seq<u128>),
    LookupHost(Seq<char>, u16),
    DialRemote(Seq<char>),
    /// Any other effect.
    Perform(Effect),
}

impl View for Effect {
    type V = EffectView;

    open spec fn view(&self) -> EffectView {
        match self {
            Effect::Finish(Ok(())) => EffectView::Finish(Ok(())),
            Effect::Finish(Err(e)) => EffectView::Finish(Err(e.words())),
            Effect::Instances { call, ids } => EffectView::Instances(*call, ids@),
            Effect::LookupHost { host, port } => EffectView::LookupHost(host@, *port),
            Effect::DialRemote(url) => EffectView::DialRemote(url@),
            _ => EffectView::Perform(*self),
        }
    }
}

/// What an instance reports while a TUN device is being handed to it.
#[derive(Debug)]
pub enum TunEvent {
    /// A device with this name is ready.
    Ready(String),
    /// The device could not be opened.
    Failed(String),
    /// Something else happened.
    Other,
    /// No more events will come.
    Closed(String),
    /// The time for handing over the device is up.
    TimedOut,
}

/// How an attempt to connect to the core ended.
#[derive(Debug)]
pub enum ConnectOutcome {
    Made,
    TimedOut,
    Failed(String),
}

/// What a flow is told. A failure is told in words.
#[derive(Debug)]
pub enum Reply {
    Done,
    Answer(bool),
    Outcome(Result<(), String>),
    Generated(Result<TomlConfig, String>),
    Config(Result<NetworkConfig, String>),
    SourcedConfig(Result<(NetworkConfig, ConfigSource), String>),
    /// Whether each of the instances asked about may be deleted, where there is a
    /// record of who controls it; nothing at all where there is no local core.
    Deletable(Option<Vec<Option<bool>>>),
    /// Whether there is a local core; nothing where that could not be seen.
    TryFound(Option<bool>),
    /// Whether the configuration of an instance, and the right to control it,
    /// could be taken down.
    Snapshot { config: bool, control: bool },
    Tun(TunEvent),
    /// The first of the addresses of a host.
    Addresses(Result<Option<String>, String>),
    Connection(ConnectOutcome),
}

/// Ends a request the way an outside call ended.
pub open spec fn finish_as(outcome: Result<(), String>) -> EffectView {
    EffectView::Finish(
        match outcome {
            Ok(()) => Ok(()),
            Err(words) => Err(words@),
        },
    )
}

/// Ends a request with a failure.
pub open spec fn refuse(error: GuiError) -> EffectView {
    EffectView::Finish(Err(error.words()))
}

/// Ends a request with success.
pub open spec fn succeed() -> EffectView {
    EffectView::Finish(Ok(()))
}

/// Ends a request the way an outside call ended.
pub(crate) fn finish(outcome: Result<(), String>) -> (r: Effect)
    ensures
        r@ == finish_as(outcome),
{
    match outcome {
        Ok(()) => Effect::Finish(Ok(())),
        Err(words) => Effect::Finish(Err(GuiError::Outside(words))),
    }
}

/// Ends a request with the words of an outside call that failed.
pub(crate) fn fail(words: String) -> (r: Effect)
    ensures
        r@ == EffectView::Finish(Err(words@)),
{
    Effect::Finish(Err(GuiError::Outside(words)))
}

/// Ends a request that was told something it had not asked for.
pub open spec fn out_of_turn() -> EffectView {
    refuse(GuiError::UnexpectedReply)
}

/// Why the client manager cannot be used: it is being replaced, or there is none.
pub open spec fn manager_refusal(world: WorldView, locked: bool) -> Option<GuiError> {
    if !locked {
        Some(GuiError::ManagerBusy)
    } else if !world.connected {
        Some(GuiError::ManagerMissing)
    } else {
        None
    }
}

/// Why the client manager cannot be used, where `locked` tells whether it could
/// be taken hold of.
pub(crate) fn check_manager(world: &World, locked: bool) -> (r: Option<GuiError>)
    ensures
        r == manager_refusal(world@, locked),
{
    if !locked {
        Some(GuiError::ManagerBusy)
    } else if !world.connected {
        Some(GuiError::ManagerMissing)
    } else {
        None
    }
}

/// The end of a request that may have stopped networks: where no enabled network
/// with a TUN device is left, the VPN service is told to stop.
pub open spec fn stop_vpn_or_succeed(world: WorldView) -> EffectView {
    if world.storage.has_tun(false) {
        succeed()
    } else {
        EffectView::Perform(Effect::Emit(GuiEvent::VpnServiceStop))
    }
}

/// The effect with which a request that may have stopped networks goes on.
pub(crate) fn notify_vpn_stop_if_no_tun(world: &World) -> (r: Effect)
    ensures
        r@ == stop_vpn_or_succeed(world@),
{
    if world.manager.has_no_tun() {
        Effect::Emit(GuiEvent::VpnServiceStop)
    } else {
        Effect::Finish(Ok(()))
    }
}

/// The client manager is refused exactly where it cannot be taken hold of, or where
/// no connection to the core has been made; the former comes first.
pub proof fn a_manager_is_refused_for_these_reasons(world: WorldView, locked: bool)
    ensures
        manager_refusal(world, locked) is None <==> locked && world.connected,
        manager_refusal(world, locked) == Some(GuiError::ManagerBusy) <==> !locked,
        manager_refusal(world, locked) == Some(GuiError::ManagerMissing) <==> locked
            && !world.connected,
{
}

/// The VPN service is told to stop exactly where no enabled network with a TUN
/// device is left.
pub proof fn the_service_stops_with_the_last_network(world: WorldView)
    ensures
        stop_vpn_or_succeed(world) == EffectView::Perform(Effect::Emit(GuiEvent::VpnServiceStop))
            <==> forall|id: u128| !world.storage.is_tun(false, id),
        stop_vpn_or_succeed(world) == succeed() <==> exists|id: u128|
            world.storage.is_tun(false, id),
{
    a_tun_network_is_any_that_is_one(world.storage, false);
}

/// Waiting for the events of a TUN device, claiming the place of the manager and
/// connecting to the core are limited in time; nothing else is.
pub proof fn few_effects_are_limited(effect: Effect)
    ensures
        effect.limit() == Some(5000u64) <==> effect is AwaitTunEvent || effect is ClaimManager,
        effect.limit() == Some(1000u64) <==> effect is DialRemote || effect is ConnectRing,
        effect.limit() is None <==> !(effect is AwaitTunEvent || effect is ClaimManager || effect
            is DialRemote || effect is ConnectRing),
{
}

/// A request ends the way the last thing that it waited for ended, with the same
/// words.
pub proof fn a_request_ends_as_its_last_wait(words: String, error: GuiError)
    ensures
        finish_as(Ok(())) == EffectView::Finish(Ok(())) && succeed() == finish_as(Ok(())),
        finish_as(Err(words)) == EffectView::Finish(Err(words@)),
        refuse(error) == EffectView::Finish(Err(error.words())),
        refuse(error) != succeed(),
        refuse(GuiError::Outside(words)) == finish_as(Err(words)),
{
}

} // verus!
