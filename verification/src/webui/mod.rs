//! The web interface: its events, its access check and its asset types.
pub mod server;
