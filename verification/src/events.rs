//! Passing the events of an instance on to the user interface.

use vstd::prelude::*;

verus! {

/// What comes from the events of an instance.
#[derive(Debug, Clone, Copy, PartialEq, Eq, Structural)]
pub enum CoreEvent {
    /// The address that the instance was given has changed.
    DhcpIpv4Changed,
    /// The networks that are reached through other nodes have changed.
    ProxyCidrsUpdated,
    /// Something else happened.
    Other,
    /// Some events were missed.
    Lagged,
    /// No more events will come.
    Closed,
}

/// How listening goes on.
#[derive(Debug, Clone, Copy, PartialEq, Eq, Structural)]
pub enum Listening {
    GoOn,
    /// Listen anew, from the next event on.
    Resubscribe,
    Stop,
}

/// The name of the event that the user interface gets for `event`, if it gets one.
pub open spec fn relayed_name(event: CoreEvent) -> Option<Seq<char>> {
    match event {
        CoreEvent::DhcpIpv4Changed => Some("dhcp_ip_changed"@),
        CoreEvent::ProxyCidrsUpdated => Some("proxy_cidrs_updated"@),
        CoreEvent::Lagged => Some("event_lagged"@),
        CoreEvent::Other | CoreEvent::Closed => None,
    }
}

/// What the user interface is told of an event of an instance, and how listening
/// goes on. A failure to tell it is of no account.
pub fn relay_core_event(event: CoreEvent) -> (r: (Option<&'static str>, Listening))
    ensures
        match relayed_name(event) {
            Some(name) => r.0 matches Some(told) && told@ == name,
            None => r.0 is None,
        },
        r.1 is Stop <==> event is Closed,
        r.1 is Resubscribe <==> event is Lagged,
{
    match event {
        CoreEvent::DhcpIpv4Changed => (Some("dhcp_ip_changed"), Listening::GoOn),
        CoreEvent::ProxyCidrsUpdated => (Some("proxy_cidrs_updated"), Listening::GoOn),
        CoreEvent::Other => (None, Listening::GoOn),
        CoreEvent::Lagged => (Some("event_lagged"), Listening::Resubscribe),
        CoreEvent::Closed => (None, Listening::Stop),
    }
}

} // verus!
