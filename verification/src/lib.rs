//! Verified core of the rs-rok command-line client: profile settings,
//! Cloudflare credentials, saved tunnels and the state machine of the
//! interactive terminal interface.

pub mod text;
pub mod config;
pub mod cloudflare_config;
pub mod tunnel;
pub mod saved_tunnels;
pub mod tui;
pub mod cli;
