use vstd::prelude::*;

verus! {

/// The whole command line of the proxy: where it listens, the optional
/// certificate and key of its own TLS listener, and the gateway settings.
#[derive(Debug, Clone, PartialEq, Eq)]
pub struct App {
    /// Bind address
    pub bind_addr: String,
    /// Certificate file path (empty: plain TCP listener)
    pub cert_path: String,
    /// Key file path
    pub key_path: String,
    /// Settings of the upstream side
    pub gateway: Gateway,
}

/// Settings that decide how requests are forwarded upstream.
#[derive(Debug, Clone, PartialEq, Eq)]
pub struct Gateway {
    /// Upstream addresses (at least one is given on the command line)
    pub upstreams: Vec<String>,
    /// TLS for upstream
    pub tls: bool,
    /// SNI for upstream
    pub sni: String,
    /// Health check frequency in seconds (0: no periodic health check)
    pub hc_freq: u64,
    /// Request host written into every upstream request (empty: keep the client's)
    pub host: String,
    /// Upstream idle timeout in seconds (0: no timeout is set)
    pub idle_timeout: u64,
    /// Enable HTTP/2 for upstream connections
    pub enable_h2: bool,
}

} // verus!
