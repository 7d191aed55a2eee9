//! The URL under which the management RPC of the core is offered and reached.

use crate::error::GuiError;
use crate::text::same_text;
use vstd::prelude::*;

verus! {

/// How long a URL can be for its host to be replaced: the positions of its parts
/// are kept in 32 bits.
pub const MAX_URL_CHARS: usize = 0xffff_ffff;

/// The port of a portal that names none.
pub const DEFAULT_RPC_PORT: u16 = 11010;

/// What the client reads of a URL.
#[derive(Debug)]
pub struct RpcUrl {
    /// The whole URL, as it is written out.
    pub href: String,
    pub scheme: String,
    pub host: Option<String>,
    pub port: Option<u16>,
    /// What stands before the host.
    pub before_host: String,
    /// What stands after the host.
    pub after_host: String,
}

/// What an [`RpcUrl`] holds.
pub struct RpcUrlView {
    pub href: Seq<char>,
    pub scheme: Seq<char>,
    pub host: Option<Seq<char>>,
    pub port: Option<u16>,
    pub before_host: Seq<char>,
    pub after_host: Seq<char>,
}

/// A text that may be missing.
pub open spec fn optional_text(text: Option<String>) -> Option<Seq<char>> {
    match text {
        Some(t) => Some(t@),
        None => None,
    }
}

impl View for RpcUrl {
    type V = RpcUrlView;

    open spec fn view(&self) -> RpcUrlView {
        RpcUrlView {
            href: self.href@,
            scheme: self.scheme@,
            host: optional_text(self.host),
            port: self.port,
            before_host: self.before_host@,
            after_host: self.after_host@,
        }
    }
}

impl RpcUrlView {
    /// The URL with `host` in place of its own host.
    pub open spec fn with_host(self, host: Seq<char>) -> RpcUrlView {
        RpcUrlView {
            href: self.before_host + host + self.after_host,
            host: Some(host),
            ..self
        }
    }
}

/// What parsing `text` as a URL gives: the URL, or the text of the error.
pub uninterp spec fn parsed_url(text: Seq<char>) -> Result<RpcUrlView, Seq<char>>;

/// A parse result, with texts as sequences of characters.
pub open spec fn url_view(r: Result<RpcUrl, String>) -> Result<RpcUrlView, Seq<char>> {
    match r {
        Ok(url) => Ok(url@),
        Err(e) => Err(e@),
    }
}

/// Parses a URL with `url::Url::parse`, and reads of it what an [`RpcUrl`] holds.
/// The result is a function of the text.
#[verifier::external_body]
fn parse_url(text: &str) -> (r: Result<RpcUrl, String>)
    ensures
        url_view(r) == parsed_url(text@),
{
    match url::Url::parse(text) {
        Ok(url) => Ok(
            RpcUrl {
                href: url.as_str().to_string(),
                scheme: url.scheme().to_string(),
                host: url.host_str().map(|host| host.to_string()),
                port: url.port(),
                before_host: url[..url::Position::BeforeHost].to_string(),
                after_host: url[url::Position::AfterHost..].to_string(),
            },
        ),
        Err(e) => Err(format!("{:#}", e)),
    }
}

/// Parses a URL that has a host, and puts the loopback address in its place with
/// `url::Url::set_host`. Everything before and after the host stays as it was. A
/// URL is written in ASCII, so that its length is also that of its encoding.
#[verifier::external_body]
fn parse_url_with_host(text: &str, host: &str) -> (r: RpcUrl)
    requires
        host@ == "127.0.0.1"@,
        parsed_url(text@) matches Ok(url) && url.host is Some && url.with_host(host@).href.len()
            <= MAX_URL_CHARS,
    ensures
        r@ == parsed_url(text@)->Ok_0.with_host(host@),
{
    let mut url = url::Url::parse(text).unwrap();
    url.set_host(Some(host)).unwrap();
    RpcUrl {
        href: url.as_str().to_string(),
        scheme: url.scheme().to_string(),
        host: url.host_str().map(|host| host.to_string()),
        port: url.port(),
        before_host: url[..url::Position::BeforeHost].to_string(),
        after_host: url[url::Position::AfterHost..].to_string(),
    }
}

/// The URL under which to reach a portal that is offered under `bind`: on all
/// addresses means on the loopback address too.
pub open spec fn reached_at(bind: RpcUrlView) -> RpcUrlView {
    if bind.host == Some("0.0.0.0"@) {
        bind.with_host("127.0.0.1"@)
    } else {
        bind
    }
}

/// Whether the URL under which to reach a portal is not too long.
pub open spec fn reachable(bind: RpcUrlView) -> bool {
    bind.host == Some("0.0.0.0"@) ==> reached_at(bind).href.len() <= MAX_URL_CHARS
}

/// Whether a URL names all addresses.
fn is_on_all_addresses(url: &RpcUrl) -> (r: bool)
    ensures
        r == (url@.host == Some("0.0.0.0"@)),
{
    match &url.host {
        Some(host) => same_text(host.as_str(), "0.0.0.0"),
        None => false,
    }
}

/// Whether the URL under which to reach a portal is not too long.
fn is_reachable(bind: &RpcUrl) -> (r: bool)
    ensures
        r == reachable(bind@),
{
    proof {
        reveal_strlit("127.0.0.1");
    }
    if !is_on_all_addresses(bind) {
        return true;
    }
    let before: u128 = bind.before_host.as_str().unicode_len() as u128;
    let after: u128 = bind.after_host.as_str().unicode_len() as u128;
    before + 9 + after <= MAX_URL_CHARS as u128
}

/// The URLs under which a portal is offered and under which it is reached. The
/// two differ only where the portal is offered on all addresses.
pub fn normalize_normal_mode_rpc_portal(portal: &str) -> (r: Result<(RpcUrl, RpcUrl), GuiError>)
    requires
        parsed_url(portal@) matches Ok(url) ==> reachable(url),
    ensures
        match parsed_url(portal@) {
            Ok(url) => {
                &&& r is Ok
                &&& r->Ok_0.0@ == url
                &&& r->Ok_0.1@ == reached_at(url)
            },
            Err(words) => r matches Err(GuiError::InvalidPortal(said)) && said@ == words,
        },
{
    let bind_url = match parse_url(portal) {
        Ok(url) => url,
        Err(e) => return Err(GuiError::InvalidPortal(e)),
    };
    let connect_url = if is_on_all_addresses(&bind_url) {
        parse_url_with_host(portal, "127.0.0.1")
    } else {
        copy_url(&bind_url)
    };
    Ok((bind_url, connect_url))
}

/// The URLs under which a portal is offered and under which it is reached; nothing
/// where the latter would be too long.
pub fn try_normalize_rpc_portal(portal: &str) -> (r: Option<Result<(RpcUrl, RpcUrl), GuiError>>)
    ensures
        match parsed_url(portal@) {
            Ok(url) => if reachable(url) {
                &&& r is Some && r->0 is Ok
                &&& r->0->Ok_0.0@ == url
                &&& r->0->Ok_0.1@ == reached_at(url)
            } else {
                r is None
            },
            Err(words) => r matches Some(Err(GuiError::InvalidPortal(said))) && said@ == words,
        },
{
    if let Ok(url) = parse_url(portal) {
        if !is_reachable(&url) {
            return None;
        }
    }
    Some(normalize_normal_mode_rpc_portal(portal))
}

/// A copy of a URL.
fn copy_url(url: &RpcUrl) -> (r: RpcUrl)
    ensures
        r@ == url@,
{
    RpcUrl {
        href: url.href.clone(),
        scheme: url.scheme.clone(),
        host: match &url.host {
            Some(host) => Some(host.clone()),
            None => None,
        },
        port: url.port,
        before_host: url.before_host.clone(),
        after_host: url.after_host.clone(),
    }
}

/// The host and port to look up before a portal can be offered under `url`. Only
/// a TCP URL with a host will do.
pub fn resolve_rpc_bind_url(url: &RpcUrl) -> (r: Result<(String, u16), GuiError>)
    ensures
        url@.scheme != "tcp"@ ==> (r matches Err(GuiError::PortalNotTcp(said)) && said@
            == url@.href),
        url@.scheme == "tcp"@ && url@.host is None ==> (r matches Err(
            GuiError::PortalWithoutHost(said),
        ) && said@ == url@.href),
        url@.scheme == "tcp"@ ==> (url@.host matches Some(host) ==> {
            &&& r is Ok
            &&& r->Ok_0.0@ == host
            &&& r->Ok_0.1 == match url@.port {
                Some(port) => port,
                None => DEFAULT_RPC_PORT,
            }
        }),
{
    if !same_text(url.scheme.as_str(), "tcp") {
        return Err(GuiError::PortalNotTcp(url.href.clone()));
    }
    match &url.host {
        Some(host) => Ok((host.clone(), url.port.unwrap_or(DEFAULT_RPC_PORT))),
        None => Err(GuiError::PortalWithoutHost(url.href.clone())),
    }
}

/// The address to offer a portal on: the first of those that were found for it.
pub fn choose_rpc_address(url: &RpcUrl, found: Result<Option<String>, String>) -> (r: Result<
    String,
    GuiError,
>)
    ensures
        match found {
            Ok(Some(address)) => r matches Ok(chosen) && chosen == address,
            Ok(None) => r matches Err(GuiError::PortalWithoutAddress(said)) && said@ == url@.href,
            Err(words) => r matches Err(GuiError::PortalUnresolved { url: said, error }) && said@
                == url@.href && error == words,
        },
{
    match found {
        Ok(Some(address)) => Ok(address),
        Ok(None) => Err(GuiError::PortalWithoutAddress(url.href.clone())),
        Err(error) => Err(GuiError::PortalUnresolved { url: url.href.clone(), error }),
    }
}

/// A portal is never reached on all addresses; and under the URL under which it is
/// offered where that names a single one.
pub proof fn portals_are_reached_on_one_address(bind: RpcUrlView)
    ensures
        reached_at(bind).host != Some("0.0.0.0"@),
        reached_at(bind).scheme == bind.scheme,
        reached_at(bind).port == bind.port,
        reached_at(bind).before_host == bind.before_host,
        reached_at(bind).after_host == bind.after_host,
        bind.host != Some("0.0.0.0"@) ==> reached_at(bind) == bind,
        bind.host == Some("0.0.0.0"@) ==> {
            &&& reached_at(bind).host == Some("127.0.0.1"@)
            &&& reached_at(bind).href == bind.before_host + "127.0.0.1"@ + bind.after_host
        },
        reached_at(reached_at(bind)) == reached_at(bind),
{
    reveal_strlit("0.0.0.0");
    reveal_strlit("127.0.0.1");
    assert("0.0.0.0"@.len() != "127.0.0.1"@.len());
}

/// A portal on all addresses cannot be reached exactly where its URL, with the
/// loopback address in it, is longer than a URL can be; any other portal can.
pub proof fn only_too_long_portals_are_unreachable(bind: RpcUrlView)
    ensures
        bind.host != Some("0.0.0.0"@) ==> reachable(bind),
        bind.host == Some("0.0.0.0"@) ==> (reachable(bind) <==> bind.before_host.len() + 9
            + bind.after_host.len() <= 0xffff_ffff),
{
    reveal_strlit("127.0.0.1");
}

} // verus!
