//! Command-line configuration of the proxy.

pub mod parser;
