//! Connecting to the core: to the one of this process, or to another.

use crate::effect::{
    fail, finish, finish_as, out_of_turn, refuse, succeed, ConnectOutcome, Effect, EffectView,
    Reply,
};
use crate::error::GuiError;
use crate::manager::GUIClientManager;
use crate::rpc_portal::{
    choose_rpc_address, only_too_long_portals_are_unreachable, optional_text, parsed_url,
    portals_are_reached_on_one_address, reachable, reached_at, resolve_rpc_bind_url,
    try_normalize_rpc_portal, RpcUrl, RpcUrlView, DEFAULT_RPC_PORT,
};
use crate::storage::StorageView;
use crate::text::{
    is_white_space, same_text, trim, trimmed, trimming_leaves_what_stands_between,
};
use crate::world::{RpcServer, RpcServerKind, RpcServerView, World, WorldView};
use vstd::prelude::*;

verus! {

/// The request to connect to the core. In normal mode that is the core of this
/// process, and `url` is where its management RPC is offered; otherwise it is
/// another core, whose management RPC is at `url`.
#[derive(Debug)]
pub enum InitRpcConnection {
    Start { is_normal_mode: bool, url: Option<String> },
    ClaimingManager { is_normal_mode: bool, url: Option<String> },
    ClaimingInstances { is_normal_mode: bool, url: Option<String> },
    ClaimingServer { is_normal_mode: bool, url: Option<String> },
    /// Normal mode: the local core is being taken out of its place.
    Taking { url: Option<String> },
    /// Normal mode: the management RPC is no longer offered as it was.
    Restarting { bind: Option<RpcUrl>, connect: Option<String> },
    /// Normal mode: the host of the portal is being looked up.
    Looking { portal: RpcUrl, connect: Option<String> },
    /// Normal mode: the management RPC is being offered.
    Serving { bind: Option<RpcUrl>, connect: Option<String> },
    /// Normal mode: the local core is being put back in its place.
    Restoring { connect: Option<String> },
    /// Remote mode: the management RPC is no longer offered.
    Withdrawing { url: Option<String> },
    Connecting { is_normal_mode: bool },
    /// Remote mode: the connection to the configuration server is being closed.
    Closing,
    /// Remote mode: the local core is being given up.
    Retiring,
    Over,
}

/// What an [`InitRpcConnection`] holds.
pub enum InitRpcConnectionView {
    Start { is_normal_mode: bool, url: Option<Seq<char>> },
    ClaimingManager { is_normal_mode: bool, url: Option<Seq<char>> },
    ClaimingInstances { is_normal_mode: bool, url: Option<Seq<char>> },
    ClaimingServer { is_normal_mode: bool, url: Option<Seq<char>> },
    Taking { url: Option<Seq<char>> },
    Restarting { bind: Option<RpcUrlView>, connect: Option<Seq<char>> },
    Looking { portal: RpcUrlView, connect: Option<Seq<char>> },
    Serving { bind: Option<RpcUrlView>, connect: Option<Seq<char>> },
    Restoring { connect: Option<Seq<char>> },
    Withdrawing { url: Option<Seq<char>> },
    Connecting { is_normal_mode: bool },
    Closing,
    Retiring,
    Over,
}

/// A URL that may be missing.
pub open spec fn optional_url(url: Option<RpcUrl>) -> Option<RpcUrlView> {
    match url {
        Some(url) => Some(url@),
        None => None,
    }
}

impl View for InitRpcConnection {
    type V = InitRpcConnectionView;

    open spec fn view(&self) -> InitRpcConnectionView {
        match *self {
            InitRpcConnection::Start { is_normal_mode, url } => InitRpcConnectionView::Start {
                is_normal_mode,
                url: optional_text(url),
            },
            InitRpcConnection::ClaimingManager { is_normal_mode, url } =>
                InitRpcConnectionView::ClaimingManager { is_normal_mode, url: optional_text(url) },
            InitRpcConnection::ClaimingInstances { is_normal_mode, url } =>
                InitRpcConnectionView::ClaimingInstances {
                is_normal_mode,
                url: optional_text(url),
            },
            InitRpcConnection::ClaimingServer { is_normal_mode, url } =>
                InitRpcConnectionView::ClaimingServer { is_normal_mode, url: optional_text(url) },
            InitRpcConnection::Taking { url } => InitRpcConnectionView::Taking {
                url: optional_text(url),
            },
            InitRpcConnection::Restarting { bind, connect } => InitRpcConnectionView::Restarting {
                bind: optional_url(bind),
                connect: optional_text(connect),
            },
            InitRpcConnection::Looking { portal, connect } => InitRpcConnectionView::Looking {
                portal: portal@,
                connect: optional_text(connect),
            },
            InitRpcConnection::Serving { bind, connect } => InitRpcConnectionView::Serving {
                bind: optional_url(bind),
                connect: optional_text(connect),
            },
            InitRpcConnection::Restoring { connect } => InitRpcConnectionView::Restoring {
                connect: optional_text(connect),
            },
            InitRpcConnection::Withdrawing { url } => InitRpcConnectionView::Withdrawing {
                url: optional_text(url),
            },
            InitRpcConnection::Connecting { is_normal_mode } => InitRpcConnectionView::Connecting {
                is_normal_mode,
            },
            InitRpcConnection::Closing => InitRpcConnectionView::Closing,
            InitRpcConnection::Retiring => InitRpcConnectionView::Retiring,
            InitRpcConnection::Over => InitRpcConnectionView::Over,
        }
    }
}

/// The portal that a text asks for: none where the text is missing or blank.
pub open spec fn wanted_portal(url: Option<Seq<char>>) -> Option<Seq<char>> {
    match url {
        Some(text) => if trimmed(text).len() > 0 {
            Some(trimmed(text))
        } else {
            None
        },
        None => None,
    }
}

/// The management RPC as it is offered under `bind`, or inside the process.
pub open spec fn offered(bind: Option<RpcUrlView>) -> RpcServerView {
    match bind {
        Some(url) => RpcServerView { kind: RpcServerKind::Tcp, bind_href: Some(url.href) },
        None => RpcServerView { kind: RpcServerKind::Ring, bind_href: None },
    }
}

impl InitRpcConnectionView {
    /// Has the management RPC offered under `bind`, where it is not so offered
    /// already; `connect` is the URL under which it is then reached.
    pub open spec fn offer(
        world: WorldView,
        bind: Option<RpcUrlView>,
        connect: Option<Seq<char>>,
    ) -> (InitRpcConnectionView, WorldView, EffectView) {
        if world.rpc_server == Some(offered(bind)) {
            (
                InitRpcConnectionView::Restoring { connect },
                world,
                EffectView::Perform(Effect::RestoreInstances),
            )
        } else {
            (
                InitRpcConnectionView::Restarting { bind, connect },
                WorldView { rpc_server: None, ..world },
                EffectView::Perform(Effect::StopRpcServer),
            )
        }
    }

    /// The next step. The client manager is replaced once a connection has been
    /// made; a request that fails leaves the one before it.
    pub open spec fn next(self, world: WorldView, reply: Reply) -> (
        InitRpcConnectionView,
        WorldView,
        EffectView,
    ) {
        match (self, reply) {
            (InitRpcConnectionView::Start { is_normal_mode, url }, Reply::Done) => (
                InitRpcConnectionView::ClaimingManager { is_normal_mode, url },
                world,
                EffectView::Perform(Effect::ClaimManager),
            ),
            (
                InitRpcConnectionView::ClaimingManager { is_normal_mode, url },
                Reply::Answer(claimed),
            ) => if claimed {
                (
                    InitRpcConnectionView::ClaimingInstances { is_normal_mode, url },
                    world,
                    EffectView::Perform(Effect::ClaimInstances),
                )
            } else {
                (InitRpcConnectionView::Over, world, refuse(GuiError::ManagerWriteBusy))
            },
            (
                InitRpcConnectionView::ClaimingInstances { is_normal_mode, url },
                Reply::Answer(claimed),
            ) => if claimed {
                (
                    InitRpcConnectionView::ClaimingServer { is_normal_mode, url },
                    world,
                    EffectView::Perform(Effect::ClaimRpcServer),
                )
            } else {
                (InitRpcConnectionView::Over, world, refuse(GuiError::InstancesWriteBusy))
            },
            (
                InitRpcConnectionView::ClaimingServer { is_normal_mode, url },
                Reply::Answer(claimed),
            ) => if !claimed {
                (InitRpcConnectionView::Over, world, refuse(GuiError::RpcServerBusy))
            } else if is_normal_mode {
                (
                    InitRpcConnectionView::Taking { url },
                    world,
                    EffectView::Perform(Effect::TakeInstances),
                )
            } else {
                (
                    InitRpcConnectionView::Withdrawing { url },
                    WorldView { rpc_server: None, ..world },
                    EffectView::Perform(Effect::StopRpcServer),
                )
            },
            (InitRpcConnectionView::Taking { url }, Reply::Done) => match wanted_portal(url) {
                None => InitRpcConnectionView::offer(world, None, None),
                Some(portal) => match parsed_url(portal) {
                    Ok(bind) => if reachable(bind) {
                        InitRpcConnectionView::offer(
                            world,
                            Some(bind),
                            Some(reached_at(bind).href),
                        )
                    } else {
                        (InitRpcConnectionView::Over, world, refuse(GuiError::PortalTooLong))
                    },
                    Err(words) => (
                        InitRpcConnectionView::Over,
                        world,
                        EffectView::Finish(Err("invalid rpc portal: "@ + words)),
                    ),
                },
            },
            (InitRpcConnectionView::Restarting { bind, connect }, Reply::Done) => match bind {
                None => (
                    InitRpcConnectionView::Serving { bind, connect },
                    world,
                    EffectView::Perform(Effect::ServeRing),
                ),
                Some(url) => if url.scheme != "tcp"@ {
                    (
                        InitRpcConnectionView::Over,
                        world,
                        EffectView::Finish(Err("RPC portal requires tcp URL: "@ + url.href)),
                    )
                } else {
                    match url.host {
                        None => (
                            InitRpcConnectionView::Over,
                            world,
                            EffectView::Finish(Err("RPC portal has no host: "@ + url.href)),
                        ),
                        Some(host) => (
                            InitRpcConnectionView::Looking { portal: url, connect },
                            world,
                            EffectView::LookupHost(
                                host,
                                match url.port {
                                    Some(port) => port,
                                    None => DEFAULT_RPC_PORT,
                                },
                            ),
                        ),
                    }
                },
            },
            (
                InitRpcConnectionView::Looking { portal, connect },
                Reply::Addresses(found),
            ) => match found {
                Ok(Some(address)) => (
                    InitRpcConnectionView::Serving { bind: Some(portal), connect },
                    world,
                    EffectView::Perform(Effect::ServeTcp(address)),
                ),
                Ok(None) => (
                    InitRpcConnectionView::Over,
                    world,
                    EffectView::Finish(Err("RPC portal has no resolved address: "@ + portal.href)),
                ),
                Err(words) => (
                    InitRpcConnectionView::Over,
                    world,
                    EffectView::Finish(
                        Err("failed to resolve RPC portal "@ + portal.href + ": "@ + words@),
                    ),
                ),
            },
            (InitRpcConnectionView::Serving { bind, connect }, Reply::Outcome(Ok(()))) => (
                InitRpcConnectionView::Restoring { connect },
                WorldView { rpc_server: Some(offered(bind)), ..world },
                EffectView::Perform(Effect::RestoreInstances),
            ),
            (InitRpcConnectionView::Serving { .. }, Reply::Outcome(Err(words))) => (
                InitRpcConnectionView::Over,
                world,
                EffectView::Finish(Err(words@)),
            ),
            (InitRpcConnectionView::Restoring { connect }, Reply::Done) => (
                InitRpcConnectionView::Connecting { is_normal_mode: true },
                world,
                match connect {
                    Some(url) => EffectView::DialRemote(url),
                    None => EffectView::Perform(Effect::ConnectRing),
                },
            ),
            (InitRpcConnectionView::Withdrawing { url }, Reply::Done) => match url {
                Some(url) => (
                    InitRpcConnectionView::Connecting { is_normal_mode: false },
                    world,
                    EffectView::DialRemote(url),
                ),
                None => (InitRpcConnectionView::Over, world, refuse(GuiError::NoLocalRuntime)),
            },
            (
                InitRpcConnectionView::Connecting { is_normal_mode },
                Reply::Connection(outcome),
            ) => match outcome {
                ConnectOutcome::Made => {
                    let world = WorldView {
                        connected: true,
                        storage: StorageView::fresh(),
                        ..world
                    };
                    if is_normal_mode {
                        (InitRpcConnectionView::Over, world, succeed())
                    } else {
                        (
                            InitRpcConnectionView::Closing,
                            world,
                            EffectView::Perform(Effect::CloseWebClient),
                        )
                    }
                },
                ConnectOutcome::TimedOut => (
                    InitRpcConnectionView::Over,
                    world,
                    refuse(GuiError::ConnectTimedOut),
                ),
                ConnectOutcome::Failed(words) => (
                    InitRpcConnectionView::Over,
                    world,
                    refuse(GuiError::ConnectFailed(words)),
                ),
            },
            (InitRpcConnectionView::Closing, Reply::Done) => (
                InitRpcConnectionView::Retiring,
                world,
                EffectView::Perform(Effect::RetireInstances),
            ),
            (InitRpcConnectionView::Retiring, Reply::Outcome(outcome)) => (
                InitRpcConnectionView::Over,
                world,
                finish_as(outcome),
            ),
            _ => (InitRpcConnectionView::Over, world, out_of_turn()),
        }
    }
}

/// The portal that a text asks for.
fn read_portal(url: &Option<String>) -> (r: Option<String>)
    ensures
        optional_text(r) == wanted_portal(optional_text(*url)),
{
    match url {
        Some(text) => {
            let portal = trim(text.as_str());
            if same_text(portal.as_str(), "") {
                proof {
                    reveal_strlit("");
                }
                None
            } else {
                proof {
                    reveal_strlit("");
                    if portal@.len() == 0 {
                        assert(portal@ =~= ""@);
                    }
                }
                Some(portal)
            }
        },
        None => None,
    }
}

/// Whether the management RPC is offered under `bind` already.
fn is_offered(server: &Option<RpcServer>, bind: &Option<RpcUrl>) -> (r: bool)
    ensures
        r == (match *server {
            Some(server) => server@ == offered(optional_url(*bind)),
            None => false,
        }),
{
    match server {
        Some(server) => match (&server.bind_url, bind) {
            (Some(now), Some(then)) => {
                server.kind == RpcServerKind::Tcp && same_text(
                    now.href.as_str(),
                    then.href.as_str(),
                )
            },
            (None, None) => server.kind == RpcServerKind::Ring,
            _ => false,
        },
        None => false,
    }
}

/// Has the management RPC offered under `bind`, where it is not already.
fn offer_rpc(world: &mut World, bind: Option<RpcUrl>, connect: Option<String>) -> (r: (
    InitRpcConnection,
    Effect,
))
    ensures
        (r.0@, final(world)@, r.1@) == InitRpcConnectionView::offer(
            old(world)@,
            optional_url(bind),
            optional_text(connect),
        ),
{
    if is_offered(&world.rpc_server, &bind) {
        (InitRpcConnection::Restoring { connect }, Effect::RestoreInstances)
    } else {
        world.rpc_server = None;
        (InitRpcConnection::Restarting { bind, connect }, Effect::StopRpcServer)
    }
}

impl InitRpcConnection {
    pub fn new(is_normal_mode: bool, url: Option<String>) -> (r: InitRpcConnection)
        ensures
            r@ == (InitRpcConnectionView::Start { is_normal_mode, url: optional_text(url) }),
    {
        InitRpcConnection::Start { is_normal_mode, url }
    }

    /// Takes the next step.
    pub fn step(self, world: &mut World, reply: Reply) -> (r: (InitRpcConnection, Effect))
        ensures
            (r.0@, final(world)@, r.1@) == self@.next(old(world)@, reply),
    {
        match (self, reply) {
            (InitRpcConnection::Start { is_normal_mode, url }, Reply::Done) => (
                InitRpcConnection::ClaimingManager { is_normal_mode, url },
                Effect::ClaimManager,
            ),
            (
                InitRpcConnection::ClaimingManager { is_normal_mode, url },
                Reply::Answer(claimed),
            ) => if claimed {
                (
                    InitRpcConnection::ClaimingInstances { is_normal_mode, url },
                    Effect::ClaimInstances,
                )
            } else {
                (InitRpcConnection::Over, Effect::Finish(Err(GuiError::ManagerWriteBusy)))
            },
            (
                InitRpcConnection::ClaimingInstances { is_normal_mode, url },
                Reply::Answer(claimed),
            ) => if claimed {
                (
                    InitRpcConnection::ClaimingServer { is_normal_mode, url },
                    Effect::ClaimRpcServer,
                )
            } else {
                (InitRpcConnection::Over, Effect::Finish(Err(GuiError::InstancesWriteBusy)))
            },
            (
                InitRpcConnection::ClaimingServer { is_normal_mode, url },
                Reply::Answer(claimed),
            ) => {
                if !claimed {
                    return (
                        InitRpcConnection::Over,
                        Effect::Finish(Err(GuiError::RpcServerBusy)),
                    );
                }
                if is_normal_mode {
                    return (InitRpcConnection::Taking { url }, Effect::TakeInstances);
                }
                world.rpc_server = None;
                (InitRpcConnection::Withdrawing { url }, Effect::StopRpcServer)
            },
            (InitRpcConnection::Taking { url }, Reply::Done) => {
                let portal = match read_portal(&url) {
                    Some(portal) => portal,
                    None => return offer_rpc(world, None, None),
                };
                match try_normalize_rpc_portal(portal.as_str()) {
                    Some(Ok((bind_url, connect_url))) => offer_rpc(
                        world,
                        Some(bind_url),
                        Some(connect_url.href),
                    ),
                    Some(Err(error)) => (InitRpcConnection::Over, Effect::Finish(Err(error))),
                    None => (
                        InitRpcConnection::Over,
                        Effect::Finish(Err(GuiError::PortalTooLong)),
                    ),
                }
            },
            (InitRpcConnection::Restarting { bind, connect }, Reply::Done) => {
                let url = match bind {
                    Some(url) => url,
                    None => return (
                        InitRpcConnection::Serving { bind: None, connect },
                        Effect::ServeRing,
                    ),
                };
                match resolve_rpc_bind_url(&url) {
                    Ok((host, port)) => (
                        InitRpcConnection::Looking { portal: url, connect },
                        Effect::LookupHost { host, port },
                    ),
                    Err(error) => (InitRpcConnection::Over, Effect::Finish(Err(error))),
                }
            },
            (InitRpcConnection::Looking { portal, connect }, Reply::Addresses(found)) => {
                match choose_rpc_address(&portal, found) {
                    Ok(address) => (
                        InitRpcConnection::Serving { bind: Some(portal), connect },
                        Effect::ServeTcp(address),
                    ),
                    Err(error) => (InitRpcConnection::Over, Effect::Finish(Err(error))),
                }
            },
            (InitRpcConnection::Serving { bind, connect }, Reply::Outcome(Ok(()))) => {
                let kind = match &bind {
                    Some(_) => RpcServerKind::Tcp,
                    None => RpcServerKind::Ring,
                };
                world.rpc_server = Some(RpcServer { kind, bind_url: bind });
                (InitRpcConnection::Restoring { connect }, Effect::RestoreInstances)
            },
            (InitRpcConnection::Serving { .. }, Reply::Outcome(Err(words))) => (
                InitRpcConnection::Over,
                fail(words),
            ),
            (InitRpcConnection::Restoring { connect }, Reply::Done) => (
                InitRpcConnection::Connecting { is_normal_mode: true },
                match connect {
                    Some(url) => Effect::DialRemote(url),
                    None => Effect::ConnectRing,
                },
            ),
            (InitRpcConnection::Withdrawing { url }, Reply::Done) => match url {
                Some(url) => (
                    InitRpcConnection::Connecting { is_normal_mode: false },
                    Effect::DialRemote(url),
                ),
                None => (InitRpcConnection::Over, Effect::Finish(Err(GuiError::NoLocalRuntime))),
            },
            (InitRpcConnection::Connecting { is_normal_mode }, Reply::Connection(outcome)) => {
                match outcome {
                    ConnectOutcome::Made => {
                        world.manager = GUIClientManager::new();
                        world.connected = true;
                        if is_normal_mode {
                            (InitRpcConnection::Over, Effect::Finish(Ok(())))
                        } else {
                            (InitRpcConnection::Closing, Effect::CloseWebClient)
                        }
                    },
                    ConnectOutcome::TimedOut => (
                        InitRpcConnection::Over,
                        Effect::Finish(Err(GuiError::ConnectTimedOut)),
                    ),
                    ConnectOutcome::Failed(words) => (
                        InitRpcConnection::Over,
                        Effect::Finish(Err(GuiError::ConnectFailed(words))),
                    ),
                }
            },
            (InitRpcConnection::Closing, Reply::Done) => (
                InitRpcConnection::Retiring,
                Effect::RetireInstances,
            ),
            (InitRpcConnection::Retiring, Reply::Outcome(outcome)) => (
                InitRpcConnection::Over,
                finish(outcome),
            ),
            _ => (InitRpcConnection::Over, Effect::Finish(Err(GuiError::UnexpectedReply))),
        }
    }
}

/// The client manager, with all that it stores, is replaced only when a
/// connection has been made; no other step changes it.
pub proof fn only_a_made_connection_replaces_the_manager(
    flow: InitRpcConnectionView,
    world: WorldView,
    reply: Reply,
)
    ensures
        ({
            let after = flow.next(world, reply).1;
            let made = flow is Connecting && (reply matches Reply::Connection(
                ConnectOutcome::Made,
            ));
            &&& made ==> after.connected && after.storage == StorageView::fresh()
            &&& !made ==> after.connected == world.connected && after.storage == world.storage
        }),
{
}

/// The request succeeds in normal mode only with a connection that was just made,
/// and in remote mode only once the local core has been given up as well.
pub proof fn connecting_needs_a_connection(
    flow: InitRpcConnectionView,
    world: WorldView,
    reply: Reply,
)
    requires
        flow.next(world, reply).2 == succeed(),
    ensures
        match flow {
            InitRpcConnectionView::Connecting { is_normal_mode } => is_normal_mode && (
            reply matches Reply::Connection(ConnectOutcome::Made)),
            InitRpcConnectionView::Retiring => reply matches Reply::Outcome(Ok(())),
            _ => false,
        },
{
}

/// The management RPC is offered anew only where it is not offered as wanted
/// already: asking for the same portal again leaves it alone.
pub proof fn the_same_portal_is_not_offered_anew(
    world: WorldView,
    url: Option<Seq<char>>,
    bind: Option<RpcUrlView>,
)
    requires
        wanted_portal(url) is None ==> bind is None,
        wanted_portal(url) matches Some(portal) ==> (parsed_url(portal) matches Ok(parsed) && bind
            == Some(parsed) && reachable(parsed)),
        world.rpc_server == Some(offered(bind)),
    ensures
        (InitRpcConnectionView::Taking { url }).next(world, Reply::Done).1 == world,
        (InitRpcConnectionView::Taking { url }).next(world, Reply::Done).2 == EffectView::Perform(
            Effect::RestoreInstances,
        ),
{
}

/// How the request begins: it claims the client manager, the instances and the
/// management RPC in turn, and ends at the first that it cannot have. In normal mode
/// the local core is then taken out of its place, with the management RPC left as it
/// is; in remote mode the management RPC is withdrawn, and the other core is dialled
/// under just the URL that was given, where one was.
pub proof fn everything_is_claimed_first(
    is_normal_mode: bool,
    url: Option<Seq<char>>,
    w: Seq<WorldView>,
)
    requires
        w.len() == 5,
    ensures
        ({
            let s0 = (InitRpcConnectionView::Start { is_normal_mode, url }).next(w[0], Reply::Done);
            let s1 = s0.0.next(w[1], Reply::Answer(true));
            let s2 = s1.0.next(w[2], Reply::Answer(true));
            let s3 = s2.0.next(w[3], Reply::Answer(true));
            let s4 = s3.0.next(w[4], Reply::Done);
            let no = Reply::Answer(false);
            &&& s0.2 == EffectView::Perform(Effect::ClaimManager) && s0.1 == w[0]
            &&& s0.0.next(w[1], no).2 == refuse(GuiError::ManagerWriteBusy)
            &&& s0.0.next(w[1], no).1 == w[1]
            &&& s1.2 == EffectView::Perform(Effect::ClaimInstances) && s1.1 == w[1]
            &&& s1.0.next(w[2], no).2 == refuse(GuiError::InstancesWriteBusy)
            &&& s1.0.next(w[2], no).1 == w[2]
            &&& s2.2 == EffectView::Perform(Effect::ClaimRpcServer) && s2.1 == w[2]
            &&& s2.0.next(w[3], no).2 == refuse(GuiError::RpcServerBusy)
            &&& s2.0.next(w[3], no).1 == w[3]
            &&& is_normal_mode ==> {
                &&& s3.2 == EffectView::Perform(Effect::TakeInstances) && s3.1 == w[3]
                &&& s3.0 == (InitRpcConnectionView::Taking { url })
            }
            &&& !is_normal_mode ==> {
                &&& s3.2 == EffectView::Perform(Effect::StopRpcServer)
                &&& s3.1 == (WorldView { rpc_server: None, ..w[3] })
                &&& s4.1 == w[4]
                &&& url is None ==> s4.2 == refuse(GuiError::NoLocalRuntime)
                &&& url matches Some(text) ==> {
                    &&& s4.2 == EffectView::DialRemote(text)
                    &&& s4.0 == (InitRpcConnectionView::Connecting { is_normal_mode: false })
                }
            }
        }),
{
}

/// In normal mode, without a URL or with a blank one, the management RPC is offered
/// inside the process: it is left alone exactly where it is so offered already, and
/// whatever else is offered is stopped first. Then the core is put back and reached
/// inside the process.
pub proof fn without_a_portal_the_process_is_used(
    url: Option<Seq<char>>,
    words: String,
    w: Seq<WorldView>,
)
    requires
        w.len() == 4,
        url matches Some(text) ==> forall|i: int|
            0 <= i < text.len() ==> is_white_space(#[trigger] text[i]),
    ensures
        ({
            let inside = RpcServerView { kind: RpcServerKind::Ring, bind_href: None };
            let restore = EffectView::Perform(Effect::RestoreInstances);
            let connecting = InitRpcConnectionView::Connecting { is_normal_mode: true };
            let ring = EffectView::Perform(Effect::ConnectRing);
            let s0 = (InitRpcConnectionView::Taking { url }).next(w[0], Reply::Done);
            let kept = s0.0.next(w[1], Reply::Done);
            let s2 = kept.0.next(w[2], Reply::Outcome(Ok(())));
            let s3 = s2.0.next(w[3], Reply::Done);
            &&& w[0].rpc_server == Some(inside) ==> {
                &&& s0.2 == restore && s0.1 == w[0]
                &&& kept.2 == ring && kept.1 == w[1] && kept.0 == connecting
            }
            &&& w[0].rpc_server != Some(inside) ==> {
                &&& s0.2 == EffectView::Perform(Effect::StopRpcServer)
                &&& s0.1 == (WorldView { rpc_server: None, ..w[0] })
                &&& kept.2 == EffectView::Perform(Effect::ServeRing) && kept.1 == w[1]
                &&& kept.0.next(w[2], Reply::Outcome(Err(words))).2 == EffectView::Finish(
                    Err(words@),
                )
                &&& kept.0.next(w[2], Reply::Outcome(Err(words))).1 == w[2]
                &&& s2.2 == restore
                &&& s2.1 == (WorldView { rpc_server: Some(inside), ..w[2] })
                &&& s3.2 == ring && s3.1 == w[3] && s3.0 == connecting
            }
        }),
{
    if let Some(text) = url {
        let none = Seq::<char>::empty();
        assert(text + none + none =~= text);
        trimming_leaves_what_stands_between(text, none, none);
    }
}

/// In normal mode, with a portal, white space round it or not, the management RPC is
/// offered under that portal: it is left alone exactly where it is offered under the
/// same URL already, and whatever else is offered is stopped first. Then the core is
/// put back and reached under the portal, on the loopback address where the portal
/// is on all addresses. A portal that is no URL, or too long, changes nothing.
pub proof fn a_portal_is_offered_and_dialled(
    before: Seq<char>,
    portal: Seq<char>,
    after: Seq<char>,
    w0: WorldView,
    w1: WorldView,
)
    requires
        forall|i: int| 0 <= i < before.len() ==> is_white_space(#[trigger] before[i]),
        forall|i: int| 0 <= i < after.len() ==> is_white_space(#[trigger] after[i]),
        portal.len() > 0 && !is_white_space(portal.first()) && !is_white_space(portal.last()),
    ensures
        ({
            let taking = InitRpcConnectionView::Taking { url: Some(before + portal + after) };
            let s0 = taking.next(w0, Reply::Done);
            let s1 = s0.0.next(w1, Reply::Done);
            match parsed_url(portal) {
                Err(said) => s0.1 == w0 && s0.2 == EffectView::Finish(
                    Err("invalid rpc portal: "@ + said),
                ),
                Ok(bind) => {
                    let everywhere = bind.host == Some("0.0.0.0"@);
                    let too_long = everywhere && bind.before_host.len() + 9 + bind.after_host.len()
                        > 0xffff_ffff;
                    let connect = if everywhere {
                        bind.before_host + "127.0.0.1"@ + bind.after_host
                    } else {
                        bind.href
                    };
                    let wanted = RpcServerView {
                        kind: RpcServerKind::Tcp,
                        bind_href: Some(bind.href),
                    };
                    &&& too_long ==> s0.1 == w0 && s0.2 == refuse(GuiError::PortalTooLong)
                    &&& !too_long && w0.rpc_server == Some(wanted) ==> {
                        &&& s0.1 == w0 && s0.2 == EffectView::Perform(Effect::RestoreInstances)
                        &&& s1.1 == w1 && s1.2 == EffectView::DialRemote(connect)
                        &&& s1.0 == (InitRpcConnectionView::Connecting { is_normal_mode: true })
                    }
                    &&& !too_long && w0.rpc_server != Some(wanted) ==> {
                        &&& s0.1 == (WorldView { rpc_server: None, ..w0 })
                        &&& s0.2 == EffectView::Perform(Effect::StopRpcServer)
                        &&& s0.0 == (InitRpcConnectionView::Restarting {
                            bind: Some(bind),
                            connect: Some(connect),
                        })
                    }
                },
            }
        }),
{
    trimming_leaves_what_stands_between(before, portal, after);
    if let Ok(bind) = parsed_url(portal) {
        only_too_long_portals_are_unreachable(bind);
        portals_are_reached_on_one_address(bind);
    }
}

/// How a portal comes to be offered, once nothing else is. Only a TCP URL with a host
/// will do: that host is looked up, with the port of the URL, or with a default port.
/// The management RPC is offered on the first address that is found, and is then the
/// one of this URL; then the core is put back and dialled. What fails on the way is
/// told with the URL, and leaves nothing offered.
pub proof fn a_portal_comes_to_be_offered(
    bind: RpcUrlView,
    connect: Seq<char>,
    address: String,
    words: String,
    w: Seq<WorldView>,
)
    requires
        w.len() == 4,
    ensures
        ({
            let restarting = InitRpcConnectionView::Restarting {
                bind: Some(bind),
                connect: Some(connect),
            };
            let s0 = restarting.next(w[0], Reply::Done);
            let s1 = s0.0.next(w[1], Reply::Addresses(Ok(Some(address))));
            let s2 = s1.0.next(w[2], Reply::Outcome(Ok(())));
            let s3 = s2.0.next(w[3], Reply::Done);
            let ends = |text: Seq<char>| EffectView::Finish(Err(text));
            &&& s0.1 == w[0]
            &&& bind.scheme != "tcp"@ ==> s0.2 == ends("RPC portal requires tcp URL: "@ + bind.href)
            &&& bind.scheme == "tcp"@ && bind.host is None ==> s0.2 == ends(
                "RPC portal has no host: "@ + bind.href,
            )
            &&& bind.scheme == "tcp"@ ==> (bind.host matches Some(host) ==> {
                &&& bind.port matches Some(port) ==> s0.2 == EffectView::LookupHost(host, port)
                &&& bind.port is None ==> s0.2 == EffectView::LookupHost(host, 11010)
                &&& s0.0.next(w[1], Reply::Addresses(Ok(None))).2 == ends(
                    "RPC portal has no resolved address: "@ + bind.href,
                )
                &&& s0.0.next(w[1], Reply::Addresses(Ok(None))).1 == w[1]
                &&& s0.0.next(w[1], Reply::Addresses(Err(words))).2 == ends(
                    "failed to resolve RPC portal "@ + bind.href + ": "@ + words@,
                )
                &&& s0.0.next(w[1], Reply::Addresses(Err(words))).1 == w[1]
                &&& s1.2 == EffectView::Perform(Effect::ServeTcp(address)) && s1.1 == w[1]
                &&& s1.0.next(w[2], Reply::Outcome(Err(words))).2 == ends(words@)
                &&& s1.0.next(w[2], Reply::Outcome(Err(words))).1 == w[2]
                &&& s2.2 == EffectView::Perform(Effect::RestoreInstances)
                &&& s2.1 == (WorldView {
                    rpc_server: Some(
                        RpcServerView { kind: RpcServerKind::Tcp, bind_href: Some(bind.href) },
                    ),
                    ..w[2]
                })
                &&& s3.2 == EffectView::DialRemote(connect) && s3.1 == w[3]
                &&& s3.0 == (InitRpcConnectionView::Connecting { is_normal_mode: true })
            })
        }),
{
}

/// How the request ends. A connection that is made comes with a client manager that
/// stores nothing; in normal mode that is success, and in remote mode the connection
/// to the configuration server is closed and the local core given up first. A
/// connection that is not made leaves everything as it is, and is told.
pub proof fn a_connection_is_made_like_this(
    is_normal_mode: bool,
    words: String,
    w0: WorldView,
    w1: WorldView,
    w2: WorldView,
)
    ensures
        ({
            let connecting = InitRpcConnectionView::Connecting { is_normal_mode };
            let s0 = connecting.next(w0, Reply::Connection(ConnectOutcome::Made));
            let late = connecting.next(w0, Reply::Connection(ConnectOutcome::TimedOut));
            let failed = connecting.next(w0, Reply::Connection(ConnectOutcome::Failed(words)));
            let s1 = s0.0.next(w1, Reply::Done);
            &&& late.1 == w0 && late.2 == refuse(GuiError::ConnectTimedOut)
            &&& failed.1 == w0 && failed.2 == refuse(GuiError::ConnectFailed(words))
            &&& s0.1 == (WorldView {
                connected: true,
                storage: StorageView { configs: Map::empty(), enabled: Set::empty() },
                ..w0
            })
            &&& is_normal_mode ==> s0.2 == succeed()
            &&& !is_normal_mode ==> {
                &&& s0.2 == EffectView::Perform(Effect::CloseWebClient)
                &&& s1.2 == EffectView::Perform(Effect::RetireInstances) && s1.1 == w1
                &&& s1.0.next(w2, Reply::Outcome(Ok(()))).2 == succeed()
                &&& s1.0.next(w2, Reply::Outcome(Err(words))).2 == EffectView::Finish(Err(words@))
                &&& s1.0.next(w2, Reply::Outcome(Ok(()))).1 == w2
                &&& s1.0.next(w2, Reply::Outcome(Err(words))).1 == w2
            }
        }),
{
}

/// A run of a request to connect, step by step: the flow before step `i`, the state
/// that the step finds, the reply that it gets and the effect that it asks for.
/// Between two steps other requests may change the state in any way.
pub struct InitRpcConnectionTrace {
    pub flows: Seq<InitRpcConnectionView>,
    pub worlds: Seq<WorldView>,
    pub replies: Seq<Reply>,
    pub effects: Seq<EffectView>,
}

impl InitRpcConnectionTrace {
    /// Whether step `i` is one that the request can take.
    pub open spec fn steps(self, i: int) -> bool {
        let (after, _, effect) = self.flows[i].next(self.worlds[i], self.replies[i]);
        self.flows[i + 1] == after && self.effects[i] == effect
    }

    /// Whether these are the first steps of a request.
    pub open spec fn connects(self, is_normal_mode: bool, url: Option<Seq<char>>) -> bool {
        &&& self.worlds.len() == self.effects.len()
        &&& self.replies.len() == self.effects.len()
        &&& self.flows.len() == self.effects.len() + 1
        &&& self.flows[0] == (InitRpcConnectionView::Start { is_normal_mode, url })
        &&& forall|i: int| 0 <= i < self.effects.len() ==> #[trigger] self.steps(i)
    }

    /// What is offered as the management RPC when step `i` is done.
    pub open spec fn leaves_offered(self, i: int) -> Option<RpcServerView> {
        self.flows[i].next(self.worlds[i], self.replies[i]).1.rpc_server
    }

    /// What is known before step `i` of a request for `url`.
    spec fn on_the_way(self, i: int, is_normal_mode: bool, url: Option<Seq<char>>) -> bool {
        let is_wanted = |bind: Option<RpcUrlView>|
            match wanted_portal(url) {
                None => bind is None,
                Some(portal) => parsed_url(portal) matches Ok(parsed) && bind == Some(parsed),
            };
        match self.flows[i] {
            InitRpcConnectionView::Start { is_normal_mode: n, url: u }
            | InitRpcConnectionView::ClaimingManager { is_normal_mode: n, url: u }
            | InitRpcConnectionView::ClaimingInstances { is_normal_mode: n, url: u }
            | InitRpcConnectionView::ClaimingServer { is_normal_mode: n, url: u } => n
                == is_normal_mode && u == url,
            InitRpcConnectionView::Taking { url: u } => is_normal_mode && u == url,
            InitRpcConnectionView::Restarting { bind, .. }
            | InitRpcConnectionView::Serving { bind, .. } => is_normal_mode && is_wanted(bind),
            InitRpcConnectionView::Looking { portal, .. } => is_normal_mode && is_wanted(
                Some(portal),
            ),
            InitRpcConnectionView::Restoring { .. } => is_normal_mode,
            InitRpcConnectionView::Withdrawing { .. }
            | InitRpcConnectionView::Closing
            | InitRpcConnectionView::Retiring => !is_normal_mode,
            InitRpcConnectionView::Connecting { is_normal_mode: n } => n == is_normal_mode,
            InitRpcConnectionView::Over => true,
        }
    }
}

/// The request stays on the way.
proof fn lemma_on_the_way(
    t: InitRpcConnectionTrace,
    is_normal_mode: bool,
    url: Option<Seq<char>>,
    i: int,
)
    requires
        t.connects(is_normal_mode, url),
        0 <= i <= t.effects.len(),
    ensures
        t.on_the_way(i, is_normal_mode, url),
    decreases i,
{
    if i > 0 {
        lemma_on_the_way(t, is_normal_mode, url, i - 1);
        assert(t.steps(i - 1));
    }
}

/// The local core is put back only in normal mode, and only where the management RPC
/// is the one that was asked for: under the portal that the URL names, or inside the
/// process where it names none. A management RPC of another kind, or under another
/// URL, never takes its place. This holds whatever other requests do meanwhile.
pub proof fn the_core_is_put_back_under_the_wanted_portal(
    t: InitRpcConnectionTrace,
    is_normal_mode: bool,
    url: Option<Seq<char>>,
    k: int,
)
    requires
        t.connects(is_normal_mode, url),
        0 <= k < t.effects.len(),
        t.effects[k] == EffectView::Perform(Effect::RestoreInstances),
    ensures
        is_normal_mode,
        wanted_portal(url) is None ==> t.leaves_offered(k) == Some(
            RpcServerView { kind: RpcServerKind::Ring, bind_href: None },
        ),
        wanted_portal(url) matches Some(portal) ==> (parsed_url(portal) matches Ok(bind)
            && t.leaves_offered(k) == Some(
            RpcServerView { kind: RpcServerKind::Tcp, bind_href: Some(bind.href) },
        )),
{
    lemma_on_the_way(t, is_normal_mode, url, k);
    assert(t.steps(k));
}

} // verus!
