//! The state that all requests to the client share.

use crate::connection_intent::{permits, wants_connection, ConnectionIntent};
use crate::manager::GUIClientManager;
use crate::platform::Platform;
use crate::rpc_portal::{RpcUrl, RpcUrlView};
use crate::storage::StorageView;
use vstd::prelude::*;

verus! {

/// The counter value after `epoch`.
pub open spec fn next_epoch(epoch: u64) -> u64 {
    ((epoch + 1) % 0x1_0000_0000_0000_0000) as u64
}

/// The counter value `n` steps after `epoch`.
pub open spec fn epoch_after(epoch: u64, n: nat) -> u64
    decreases n,
{
    if n == 0 {
        epoch
    } else {
        next_epoch(epoch_after(epoch, (n - 1) as nat))
    }
}

/// Counts the connections to the configuration server: closing one, and opening
/// a new one, moves the counter on.
#[derive(Debug, Clone, Copy)]
pub struct WebClientEpoch(u64);

impl View for WebClientEpoch {
    type V = u64;

    closed spec fn view(&self) -> u64 {
        self.0
    }
}

impl Default for WebClientEpoch {
    fn default() -> (r: Self)
        ensures
            r@ == 0,
    {
        WebClientEpoch(0)
    }
}

impl WebClientEpoch {
    /// Moves the counter on, and gives its new value.
    pub fn advance(&mut self) -> (r: u64)
        ensures
            final(self)@ == next_epoch(old(self)@),
            r == final(self)@,
    {
        self.0 = self.0.wrapping_add(1);
        self.0
    }

    pub fn current(&self) -> (r: u64)
        ensures
            r == self@,
    {
        self.0
    }
}

/// What the callbacks of one connection to the configuration server remember of
/// the moment at which it was opened.
#[derive(Debug, Clone, Copy, PartialEq, Eq, Structural)]
pub struct GuiHooks {
    pub epoch: u64,
    pub intent: u64,
}

impl GuiHooks {
    /// Whether the connection is still the one the user wants: no other has been
    /// opened or closed since, and on Android the decision under which it was
    /// opened still stands.
    pub open spec fn current_in(self, world: WorldView) -> bool {
        self.epoch == world.epoch && (world.platform is Android ==> permits(
            world.intent,
            self.intent,
        ))
    }

    /// Whether the connection is still the one the user wants.
    pub fn is_current(&self, world: &World) -> (r: bool)
        ensures
            r == self.current_in(world@),
    {
        self.epoch == world.epoch.current() && (!world.platform.is_android()
            || world.intent.allows(self.intent))
    }

    /// Whether a configuration that has not changed need not be applied again: on
    /// Android, while the connection is the one the user wants.
    pub open spec fn skips_unchanged(self, world: WorldView) -> bool {
        world.platform is Android && self.current_in(world)
    }

    /// Whether a configuration that has not changed need not be applied again.
    pub fn skip_unchanged_config(&self, world: &World) -> (r: bool)
        ensures
            r == self.skips_unchanged(world@),
    {
        world.platform.is_android() && self.is_current(world)
    }
}

/// How the management RPC of the core is offered.
#[derive(Debug, Clone, Copy, PartialEq, Eq, Structural)]
pub enum RpcServerKind {
    /// Inside the process.
    Ring,
    /// On a TCP port.
    Tcp,
}

/// The management RPC as it is being offered.
#[derive(Debug)]
pub struct RpcServer {
    pub kind: RpcServerKind,
    pub bind_url: Option<RpcUrl>,
}

/// What the client knows of an [`RpcServer`]: two URLs are the same where they
/// are written the same.
pub struct RpcServerView {
    pub kind: RpcServerKind,
    pub bind_href: Option<Seq<char>>,
}

impl View for RpcServer {
    type V = RpcServerView;

    open spec fn view(&self) -> RpcServerView {
        RpcServerView {
            kind: self.kind,
            bind_href: match self.bind_url {
                Some(url) => Some(url@.href),
                None => None,
            },
        }
    }
}

/// The state that all requests share.
pub struct World {
    pub platform: Platform,
    /// The user's decision whether the mobile connection should be up.
    pub intent: ConnectionIntent,
    /// Counts the connections to the configuration server.
    pub epoch: WebClientEpoch,
    /// Whether a connection to the core has been made.
    pub connected: bool,
    /// The manager of that connection.
    pub manager: GUIClientManager,
    /// The management RPC, while it is offered.
    pub rpc_server: Option<RpcServer>,
}

/// What a [`World`] holds.
#[verifier::ext_equal]
pub struct WorldView {
    pub platform: Platform,
    pub intent: u64,
    pub epoch: u64,
    pub connected: bool,
    pub storage: StorageView,
    pub rpc_server: Option<RpcServerView>,
}

impl View for World {
    type V = WorldView;

    open spec fn view(&self) -> WorldView {
        WorldView {
            platform: self.platform,
            intent: self.intent@,
            epoch: self.epoch@,
            connected: self.connected,
            storage: self.manager@,
            rpc_server: match self.rpc_server {
                Some(server) => Some(server@),
                None => None,
            },
        }
    }
}

impl World {
    /// The state at the start: stopped, not connected, with nothing stored.
    pub fn new(platform: Platform) -> (r: World)
        ensures
            r@ == (WorldView {
                platform,
                intent: 0,
                epoch: 0,
                connected: false,
                storage: StorageView::fresh(),
                rpc_server: None,
            }),
    {
        World {
            platform,
            intent: ConnectionIntent::default(),
            epoch: WebClientEpoch::default(),
            connected: false,
            manager: GUIClientManager::new(),
            rpc_server: None,
        }
    }
}

/// After `n` steps the counter is back where it was only if the steps went round
/// the whole of it.
pub proof fn epochs_return_after_a_full_turn(epoch: u64, n: nat)
    ensures
        epoch_after(epoch, n) == (epoch + n) % 0x1_0000_0000_0000_0000,
        epoch_after(epoch, n) == epoch <==> (n as int) % 0x1_0000_0000_0000_0000 == 0,
    decreases n,
{
    if n > 0 {
        epochs_return_after_a_full_turn(epoch, (n - 1) as nat);
    }
}

/// Once another connection to the configuration server has been opened or closed,
/// the callbacks of this one are no longer current, until the counter has gone
/// round the whole of it.
pub proof fn replaced_connections_are_stale(hooks: GuiHooks, world: WorldView, n: nat)
    requires
        world.epoch == epoch_after(hooks.epoch, n),
    ensures
        hooks.current_in(world) ==> (n as int) % 0x1_0000_0000_0000_0000 == 0,
        0 < n < 0x1_0000_0000_0000_0000 ==> !hooks.current_in(world),
{
    epochs_return_after_a_full_turn(hooks.epoch, n);
}

/// Off Android, callbacks are current exactly as long as no other connection has
/// been opened or closed; the user's decision plays no part.
pub proof fn off_android_only_another_connection_outdates(hooks: GuiHooks, world: WorldView)
    requires
        !(world.platform is Android),
    ensures
        hooks.current_in(world) <==> hooks.epoch == world.epoch,
{
}

/// On Android, callbacks are current exactly as long as no other connection has
/// been opened or closed and the decision stands under which their own was opened,
/// which is one to be connected.
pub proof fn on_android_a_new_decision_outdates_too(hooks: GuiHooks, world: WorldView)
    requires
        world.platform is Android,
    ensures
        hooks.current_in(world) <==> hooks.epoch == world.epoch && hooks.intent == world.intent
            && wants_connection(world.intent),
{
}

/// A configuration that has not changed is applied again off Android, and wherever
/// the connection that brought it is outdated; nowhere else.
pub proof fn unchanged_configurations_are_skipped_like_this(hooks: GuiHooks, world: WorldView)
    ensures
        hooks.skips_unchanged(world) <==> world.platform is Android && hooks.epoch == world.epoch
            && hooks.intent == world.intent && wants_connection(world.intent),
{
}

} // verus!
