//! What the proxy decides per request and at start-up.

pub mod proxy;
pub mod setup;
