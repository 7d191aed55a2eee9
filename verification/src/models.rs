//! What is exchanged with the VPN service of the platform.

use vstd::prelude::*;

verus! {

#[derive(Debug)]
pub struct PingRequest {
    pub value: Option<String>,
}

#[derive(Debug, Clone)]
pub struct PingResponse {
    pub value: Option<String>,
}

#[derive(Debug)]
pub struct VoidRequest {}

/// The request to start the VPN service.
#[derive(Debug)]
pub struct StartVpnRequest {
    pub request_id: Option<String>,
    pub ipv4_addr: Option<String>,
    pub routes: Option<Vec<String>>,
    pub dns: Option<String>,
    pub disallowed_applications: Option<Vec<String>>,
    pub mtu: Option<u32>,
}

/// Whether the user has granted what was asked for.
#[derive(Debug, Clone)]
pub struct Status {
    pub error_msg: Option<String>,
    pub granted: Option<bool>,
}

/// What the VPN service reports of itself.
#[derive(Debug, Clone)]
pub struct VpnStatus {
    pub running: bool,
    pub fd: Option<i32>,
    pub request_id: Option<String>,
    pub error_msg: Option<String>,
    pub network_available: Option<bool>,
    pub network_id: Option<String>,
    pub ipv4_addr: Option<String>,
    pub routes: Option<Vec<String>>,
    pub dns: Option<String>,
}

/// What the user has asked for through the quick settings tile.
#[derive(Debug, Clone)]
pub struct VpnTileActionResponse {
    pub action: Option<String>,
    pub launch_requested: Option<bool>,
}

impl Default for PingResponse {
    fn default() -> (r: Self)
        ensures
            r.value is None,
    {
        PingResponse { value: None }
    }
}

impl Default for Status {
    fn default() -> (r: Self)
        ensures
            r.error_msg is None,
            r.granted is None,
    {
        Status { error_msg: None, granted: None }
    }
}

impl Default for VpnStatus {
    fn default() -> (r: Self)
        ensures
            !r.running,
            r.fd is None,
            r.request_id is None,
            r.error_msg is None,
            r.network_available is None,
            r.network_id is None,
            r.ipv4_addr is None,
            r.routes is None,
            r.dns is None,
    {
        VpnStatus {
            running: false,
            fd: None,
            request_id: None,
            error_msg: None,
            network_available: None,
            network_id: None,
            ipv4_addr: None,
            routes: None,
            dns: None,
        }
    }
}

impl Default for VpnTileActionResponse {
    fn default() -> (r: Self)
        ensures
            r.action is None,
            r.launch_requested is None,
    {
        VpnTileActionResponse { action: None, launch_requested: None }
    }
}

} // verus!
