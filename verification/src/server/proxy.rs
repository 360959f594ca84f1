use vstd::prelude::*;

use crate::cmd::parser::Gateway;

verus! {

/// How many candidates the load balancer may look at before it gives up
/// finding a healthy upstream for one request.
pub const MAX_SELECTION_ITERATIONS: usize = 256;

/// Per-request context of the proxy; it carries no state.
#[derive(Debug, Clone, Copy, PartialEq, Eq)]
pub struct Ctx();

/// How the connection to the selected upstream is made.
#[derive(Debug, Clone, PartialEq, Eq)]
pub struct PeerSettings {
    /// Whether the upstream connection uses TLS.
    pub tls: bool,
    /// Server name sent in the TLS handshake.
    pub sni: String,
    /// Highest HTTP version offered to the upstream.
    pub max_http_version: u8,
    /// Lowest HTTP version accepted from the upstream.
    pub min_http_version: u8,
    /// Idle timeout of pooled upstream connections, in seconds, when one is set.
    pub idle_timeout_secs: Option<u64>,
}

/// A header that replaces, in the request sent upstream, every header of the same name.
#[derive(Debug, Clone, PartialEq, Eq)]
pub struct HeaderOverride {
    pub name: String,
    pub value: String,
}

/// The HTTP versions (highest, lowest) offered upstream: HTTP/2 with a
/// fallback to HTTP/1.1 when HTTP/2 is enabled, HTTP/1.1 alone otherwise.
pub open spec fn http_versions(enable_h2: bool) -> (u8, u8) {
    if enable_h2 {
        (2, 1)
    } else {
        (1, 1)
    }
}

/// An idle timeout of zero seconds stands for "no timeout configured".
pub open spec fn idle_timeout_setting(secs: u64) -> Option<u64> {
    if secs == 0 {
        None
    } else {
        Some(secs)
    }
}

impl Gateway {
    /// A fresh context for a new request.
    pub fn new_ctx(&self) -> (ctx: Ctx)
        ensures
            ctx == Ctx(),
    {
        Ctx()
    }

    /// Whether the proxy answers the request itself. It never does: every
    /// request is forwarded to an upstream.
    pub fn request_filter(&self) -> (handled: bool)
        ensures
            !handled,
    {
        false
    }

    /// How the proxy connects to whichever upstream the load balancer
    /// selects for a request: TLS and SNI as configured, HTTP/2 offered only
    /// when enabled, and the configured idle timeout when it is positive.
    pub fn upstream_peer(&self) -> (settings: PeerSettings)
        ensures
            settings.tls == self.tls,
            settings.sni@ == self.sni@,
            (settings.max_http_version, settings.min_http_version) == http_versions(self.enable_h2),
            settings.idle_timeout_secs == idle_timeout_setting(self.idle_timeout),
            self.idle_timeout == 0 ==> settings.idle_timeout_secs is None,
            self.idle_timeout > 0 ==> settings.idle_timeout_secs == Some(self.idle_timeout),
            self.enable_h2 ==> settings.max_http_version == 2,
            !self.enable_h2 ==> settings.max_http_version == 1,
            settings.min_http_version == 1,
    {
        let (max_http_version, min_http_version): (u8, u8) = if self.enable_h2 {
            (2, 1)
        } else {
            (1, 1)
        };
        let idle_timeout_secs = if self.idle_timeout == 0 {
            None
        } else {
            Some(self.idle_timeout)
        };
        PeerSettings {
            tls: self.tls,
            sni: self.sni.clone(),
            max_http_version,
            min_http_version,
            idle_timeout_secs,
        }
    }

    /// The header written into each request before it goes upstream: the
    /// configured host as `Host`, replacing whatever `Host` the client sent,
    /// or nothing when no host is configured, in which case the client's own
    /// `Host` header is kept.
    pub fn upstream_request_filter(&self) -> (over: Option<HeaderOverride>)
        ensures
            over is None <==> self.host@.len() == 0,
            over matches Some(h) ==> h.name@ == "Host"@ && h.value@ == self.host@,
    {
        if self.host.as_str().is_empty() {
            None
        } else {
            Some(HeaderOverride { name: String::from_str("Host"), value: self.host.clone() })
        }
    }
}

/// Law: the upstream connection keeps pooled connections idle for exactly
/// the configured number of seconds, neither shortened nor lengthened, and
/// sets no idle timeout only when none (zero) is configured.
pub proof fn law_idle_timeout_is_configured_seconds(g: Gateway, settings: PeerSettings)
    requires
        call_ensures(Gateway::upstream_peer, (&g,), settings),
    ensures
        forall|t: u64| t > 0 && g.idle_timeout == t ==> settings.idle_timeout_secs == Some(t),
        settings.idle_timeout_secs is None <==> g.idle_timeout == 0,
        settings.idle_timeout_secs matches Some(t) ==> t == g.idle_timeout,
{
}

/// Law: HTTP/2 is offered to the upstream exactly when it is enabled, and
/// HTTP/1.1 is always accepted from it.
pub proof fn law_http2_only_when_enabled(g: Gateway, settings: PeerSettings)
    requires
        call_ensures(Gateway::upstream_peer, (&g,), settings),
    ensures
        settings.max_http_version == 2 <==> g.enable_h2,
        settings.max_http_version == 1 <==> !g.enable_h2,
        settings.min_http_version == 1,
        settings.tls == g.tls,
        settings.sni@ == g.sni@,
{
}

} // verus!
