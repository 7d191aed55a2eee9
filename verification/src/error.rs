//! Why a request to the client fails, and the words in which it says so.

use crate::instance_id::{hyphenated, parse_uuid, parsed_uuid, uuid_text};
use crate::text::join;
use vstd::prelude::*;

verus! {

/// One of the directories that the service is given.
#[derive(Debug, Clone, Copy, PartialEq, Eq, Structural)]
pub enum ServiceDirectory {
    ConfigDir,
    FileLogDir,
}

/// Why a request fails. The texts that some variants hold are the words of the
/// component that failed.
#[derive(Debug)]
pub enum GuiError {
    /// The user has decided to stop the mobile connection.
    MobileConnectionStopped,
    /// The client manager is being replaced.
    ManagerBusy,
    /// There is no client manager yet.
    ManagerMissing,
    /// Text that should be an instance id is none.
    InvalidInstanceId(String),
    /// Something outside the client failed.
    Outside(String),
    /// A network of the configuration server would replace the user's own VPN.
    UserVpnActive,
    LocalInstancesUnavailable,
    /// The running instance may not be stopped.
    CannotStop(u128),
    RemoteMode,
    VpnNotEnabled,
    NoEnabledVpn,
    InvalidTunFd,
    EventStreamUnavailable,
    TunTimedOut,
    RecoveryInstanceUnavailable,
    RecoveryControlUnavailable,
    RpcClientMissing,
    InstancesBusy,
    InstancesMissing,
    /// The connection to the configuration server is no longer the current one.
    HooksStale,
    ManagerWriteBusy,
    InstancesWriteBusy,
    RpcServerBusy,
    InvalidPortal(String),
    /// The URL under which to reach the portal would be too long to be one.
    PortalTooLong,
    PortalNotTcp(String),
    PortalWithoutHost(String),
    PortalUnresolved { url: String, error: String },
    PortalWithoutAddress(String),
    ConnectTimedOut,
    ConnectFailed(String),
    /// The manager was to be reached inside the process, which runs no core.
    NoLocalRuntime,
    StateDirectory(String),
    WebClientFailed(String),
    InvalidPatchAction(String),
    NotADirectory(ServiceDirectory),
    ServiceNotInstalled,
    ServiceInstall(String),
    ServiceStart(String),
    ServiceStop(String),
    LogDirectory(String),
    /// A request was told something that it had not asked for.
    UnexpectedReply,
}

impl GuiError {
    /// The words in which the failure is reported.
    pub open spec fn words(self) -> Seq<char> {
        match self {
            GuiError::MobileConnectionStopped => "mobile_connection_stopped"@,
            GuiError::ManagerBusy => "Failed to acquire read lock for client manager"@,
            GuiError::ManagerMissing => "RPC connection not initialized"@,
            GuiError::InvalidInstanceId(text) => text@,
            GuiError::Outside(text) => text@,
            GuiError::UserVpnActive =>
                "Android only supports one active TUN network; user-managed VPN remains active"@,
            GuiError::LocalInstancesUnavailable => "Local instance manager unavailable"@,
            GuiError::CannotStop(id) => "TUN instance "@ + hyphenated(id) + " cannot be stopped"@,
            GuiError::RemoteMode => "set_tun_fd is not supported in remote mode"@,
            GuiError::VpnNotEnabled => "VPN instance is no longer enabled"@,
            GuiError::NoEnabledVpn => "No enabled VPN instance"@,
            GuiError::InvalidTunFd => "Invalid TUN file descriptor"@,
            GuiError::EventStreamUnavailable => "VPN instance event stream is unavailable"@,
            GuiError::TunTimedOut => "Timed out attaching the VPN interface to the core"@,
            GuiError::RecoveryInstanceUnavailable => "Recovery instance unavailable"@,
            GuiError::RecoveryControlUnavailable => "Recovery config control unavailable"@,
            GuiError::RpcClientMissing => "RPC client not found"@,
            GuiError::InstancesBusy => "Failed to acquire read lock for instance manager"@,
            GuiError::InstancesMissing => "Instance manager is not available"@,
            GuiError::HooksStale => "Configuration connection was stopped or replaced"@,
            GuiError::ManagerWriteBusy => "Failed to acquire write lock for client manager"@,
            GuiError::InstancesWriteBusy => "Failed to acquire write lock for instance manager"@,
            GuiError::RpcServerBusy => "Failed to acquire lock for rpc server"@,
            GuiError::InvalidPortal(text) => "invalid rpc portal: "@ + text@,
            GuiError::PortalTooLong => "RPC portal is too long"@,
            GuiError::PortalNotTcp(url) => "RPC portal requires tcp URL: "@ + url@,
            GuiError::PortalWithoutHost(url) => "RPC portal has no host: "@ + url@,
            GuiError::PortalUnresolved { url, error } => "failed to resolve RPC portal "@ + url@
                + ": "@ + error@,
            GuiError::PortalWithoutAddress(url) => "RPC portal has no resolved address: "@ + url@,
            GuiError::ConnectTimedOut => "connect remote rpc timed out"@,
            GuiError::ConnectFailed(text) => "Failed to connect remote rpc: "@ + text@,
            GuiError::NoLocalRuntime =>
                "Failed to connect remote rpc: local RPC requires a core process runtime"@,
            GuiError::StateDirectory(text) => "Failed to resolve machine id state directory: "@
                + text@,
            GuiError::WebClientFailed(text) => "Failed to initialize web client: "@ + text@,
            GuiError::InvalidPatchAction(action) => "invalid vpn portal client patch action: "@
                + action@,
            GuiError::NotADirectory(ServiceDirectory::ConfigDir) =>
                "config_dir exists but is not a directory"@,
            GuiError::NotADirectory(ServiceDirectory::FileLogDir) =>
                "file_log_dir exists but is not a directory"@,
            GuiError::ServiceNotInstalled => "Service not installed"@,
            GuiError::ServiceInstall(text) => "Failed to install service: "@ + text@,
            GuiError::ServiceStart(text) => "Failed to start service: "@ + text@,
            GuiError::ServiceStop(text) => "Failed to stop service: "@ + text@,
            GuiError::LogDirectory(text) => "Failed to get log directory: "@ + text@,
            GuiError::UnexpectedReply => "unexpected reply"@,
        }
    }

    /// The words in which the failure is reported.
    pub fn text(&self) -> (r: String)
        ensures
            r@ == self.words(),
    {
        match self {
            GuiError::MobileConnectionStopped => "mobile_connection_stopped".to_string(),
            GuiError::ManagerBusy => "Failed to acquire read lock for client manager".to_string(),
            GuiError::ManagerMissing => "RPC connection not initialized".to_string(),
            GuiError::InvalidInstanceId(text) => text.clone(),
            GuiError::Outside(text) => text.clone(),
            GuiError::UserVpnActive =>
                "Android only supports one active TUN network; user-managed VPN remains active".to_string(),
            GuiError::LocalInstancesUnavailable =>
                "Local instance manager unavailable".to_string(),
            GuiError::CannotStop(id) => join(
                join("TUN instance ", uuid_text(*id).as_str()).as_str(),
                " cannot be stopped",
            ),
            GuiError::RemoteMode => "set_tun_fd is not supported in remote mode".to_string(),
            GuiError::VpnNotEnabled => "VPN instance is no longer enabled".to_string(),
            GuiError::NoEnabledVpn => "No enabled VPN instance".to_string(),
            GuiError::InvalidTunFd => "Invalid TUN file descriptor".to_string(),
            GuiError::EventStreamUnavailable =>
                "VPN instance event stream is unavailable".to_string(),
            GuiError::TunTimedOut =>
                "Timed out attaching the VPN interface to the core".to_string(),
            GuiError::RecoveryInstanceUnavailable => "Recovery instance unavailable".to_string(),
            GuiError::RecoveryControlUnavailable =>
                "Recovery config control unavailable".to_string(),
            GuiError::RpcClientMissing => "RPC client not found".to_string(),
            GuiError::InstancesBusy =>
                "Failed to acquire read lock for instance manager".to_string(),
            GuiError::InstancesMissing => "Instance manager is not available".to_string(),
            GuiError::HooksStale =>
                "Configuration connection was stopped or replaced".to_string(),
            GuiError::ManagerWriteBusy =>
                "Failed to acquire write lock for client manager".to_string(),
            GuiError::InstancesWriteBusy =>
                "Failed to acquire write lock for instance manager".to_string(),
            GuiError::RpcServerBusy => "Failed to acquire lock for rpc server".to_string(),
            GuiError::InvalidPortal(text) => join("invalid rpc portal: ", text.as_str()),
            GuiError::PortalTooLong => "RPC portal is too long".to_string(),
            GuiError::PortalNotTcp(url) => join("RPC portal requires tcp URL: ", url.as_str()),
            GuiError::PortalWithoutHost(url) => join("RPC portal has no host: ", url.as_str()),
            GuiError::PortalUnresolved { url, error } => join(
                join(join("failed to resolve RPC portal ", url.as_str()).as_str(), ": ").as_str(),
                error.as_str(),
            ),
            GuiError::PortalWithoutAddress(url) => join(
                "RPC portal has no resolved address: ",
                url.as_str(),
            ),
            GuiError::ConnectTimedOut => "connect remote rpc timed out".to_string(),
            GuiError::ConnectFailed(text) => join("Failed to connect remote rpc: ", text.as_str()),
            GuiError::NoLocalRuntime =>
                "Failed to connect remote rpc: local RPC requires a core process runtime".to_string(),
            GuiError::StateDirectory(text) => join(
                "Failed to resolve machine id state directory: ",
                text.as_str(),
            ),
            GuiError::WebClientFailed(text) => join(
                "Failed to initialize web client: ",
                text.as_str(),
            ),
            GuiError::InvalidPatchAction(action) => join(
                "invalid vpn portal client patch action: ",
                action.as_str(),
            ),
            GuiError::NotADirectory(ServiceDirectory::ConfigDir) =>
                "config_dir exists but is not a directory".to_string(),
            GuiError::NotADirectory(ServiceDirectory::FileLogDir) =>
                "file_log_dir exists but is not a directory".to_string(),
            GuiError::ServiceNotInstalled => "Service not installed".to_string(),
            GuiError::ServiceInstall(text) => join("Failed to install service: ", text.as_str()),
            GuiError::ServiceStart(text) => join("Failed to start service: ", text.as_str()),
            GuiError::ServiceStop(text) => join("Failed to stop service: ", text.as_str()),
            GuiError::LogDirectory(text) => join("Failed to get log directory: ", text.as_str()),
            GuiError::UnexpectedReply => "unexpected reply".to_string(),
        }
    }
}

/// Reads an instance id. Text that is none is refused with the parser's words.
pub fn parse_instance_id(text: &str) -> (r: Result<u128, GuiError>)
    ensures
        match parsed_uuid(text@) {
            Ok(id) => r matches Ok(found) && found == id,
            Err(words) => r matches Err(GuiError::InvalidInstanceId(said)) && said@ == words,
        },
{
    match parse_uuid(text) {
        Ok(id) => Ok(id),
        Err(e) => Err(GuiError::InvalidInstanceId(e)),
    }
}

/// A failure of something outside the client is told with the words of what failed,
/// at the end, in every case; the words of a text that is no id, and of a call that
/// is passed on, are all that is told.
pub proof fn failures_are_told_in_the_words_of_what_failed(words: String, url: String)
    ensures
        ({
            let ends = |error: GuiError| words@.is_suffix_of(error.words());
            &&& GuiError::InvalidInstanceId(words).words() == words@
            &&& GuiError::Outside(words).words() == words@
            &&& ends(GuiError::InvalidPortal(words)) && ends(GuiError::PortalNotTcp(words))
            &&& ends(GuiError::PortalWithoutHost(words))
            &&& ends(GuiError::PortalWithoutAddress(words))
            &&& ends(GuiError::PortalUnresolved { url, error: words })
            &&& ends(GuiError::ConnectFailed(words)) && ends(GuiError::StateDirectory(words))
            &&& ends(GuiError::WebClientFailed(words)) && ends(GuiError::InvalidPatchAction(words))
            &&& ends(GuiError::ServiceInstall(words)) && ends(GuiError::ServiceStart(words))
            &&& ends(GuiError::ServiceStop(words)) && ends(GuiError::LogDirectory(words))
            &&& GuiError::PortalUnresolved { url, error: words }.words()
                == "failed to resolve RPC portal "@ + (url@ + (": "@ + words@))
        }),
{
    lemma_ends("invalid rpc portal: "@, words@);
    lemma_ends("RPC portal requires tcp URL: "@, words@);
    lemma_ends("RPC portal has no host: "@, words@);
    lemma_ends("RPC portal has no resolved address: "@, words@);
    lemma_ends("failed to resolve RPC portal "@ + url@ + ": "@, words@);
    lemma_ends("Failed to connect remote rpc: "@, words@);
    lemma_ends("Failed to resolve machine id state directory: "@, words@);
    lemma_ends("Failed to initialize web client: "@, words@);
    lemma_ends("invalid vpn portal client patch action: "@, words@);
    lemma_ends("Failed to install service: "@, words@);
    lemma_ends("Failed to start service: "@, words@);
    lemma_ends("Failed to stop service: "@, words@);
    lemma_ends("Failed to get log directory: "@, words@);
    assert("failed to resolve RPC portal "@ + url@ + ": "@ + words@
        =~= "failed to resolve RPC portal "@ + (url@ + (": "@ + words@)));
}

/// A text ends with what was put after another.
proof fn lemma_ends(before: Seq<char>, after: Seq<char>)
    ensures
        after.is_suffix_of(before + after),
{
    assert((before + after).subrange(
        (before + after).len() - after.len(),
        (before + after).len() as int,
    ) =~= after);
}

} // verus!
