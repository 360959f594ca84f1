use vstd::prelude::*;

use crate::cmd::parser::{App, Gateway};

verus! {

/// The listener the proxy accepts client connections on.
#[derive(Debug, Clone, PartialEq, Eq)]
pub enum Listener {
    /// Plain TCP on the bind address.
    Tcp { addr: String },
    /// TLS on the bind address, with the given certificate and key files.
    Tls { addr: String, cert_path: String, key_path: String },
}

impl App {
    /// A TLS listener when a certificate path is given, plain TCP otherwise;
    /// both on the bind address.
    pub fn listener(&self) -> (l: Listener)
        ensures
            self.cert_path@.len() == 0 ==> l == (Listener::Tcp { addr: self.bind_addr }),
            self.cert_path@.len() != 0 ==> l == (Listener::Tls {
                addr: self.bind_addr,
                cert_path: self.cert_path,
                key_path: self.key_path,
            }),
    {
        if self.cert_path.as_str().is_empty() {
            Listener::Tcp { addr: self.bind_addr.clone() }
        } else {
            Listener::Tls {
                addr: self.bind_addr.clone(),
                cert_path: self.cert_path.clone(),
                key_path: self.key_path.clone(),
            }
        }
    }
}

impl Gateway {
    /// The period, in seconds, of the background health check of the
    /// upstreams, when there is one: only a positive frequency starts it.
    pub fn health_check_frequency(&self) -> (freq: Option<u64>)
        ensures
            freq == (if self.hc_freq > 0 { Some(self.hc_freq) } else { None::<u64> }),
    {
        if self.hc_freq > 0 {
            Some(self.hc_freq)
        } else {
            None
        }
    }
}

} // verus!
