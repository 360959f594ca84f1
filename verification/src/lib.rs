//! Configuration and per-request decisions of a small HTTP reverse proxy.
//!
//! `cmd` holds the command-line configuration, `server` the decisions the
//! proxy takes for each request and when it starts up.

pub mod cmd;
pub mod server;

pub use cmd::parser::{App, Gateway};
pub use server::proxy::{Ctx, HeaderOverride, PeerSettings, MAX_SELECTION_ITERATIONS};
pub use server::setup::Listener;
