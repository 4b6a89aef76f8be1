//! The command line: subcommands and options as plain values (the
//! argument parser builds them), and the decisions the entry point makes
//! from them.

use vstd::prelude::*;
use crate::config::{opt_view, Settings, SettingsView, with_token_and_endpoint};

verus! {

/// Options and subcommand of one invocation.
#[derive(Debug)]
pub struct Cli {
    /// Path to the settings file (default `~/.rs-rok/settings.json`).
    pub config_path: Option<String>,
    /// Log level: trace, debug, info, warn, error.
    pub log_level: String,
    /// Profile to use instead of the active one.
    pub profile: Option<String>,
    pub command: Option<Command>,
}

/// A subcommand.
#[derive(Debug)]
pub enum Command {
    /// Expose a local HTTP service.
    Http { port: u16, name: Option<String>, host: String },
    /// Expose a local HTTPS service (TLS terminated at the edge).
    Https { port: u16, name: Option<String>, host: String },
    /// Expose a local TCP service.
    Tcp { port: u16, name: Option<String>, host: String },
    /// Connect to a TCP tunnel as a client.
    Connect { slug: String, token: String, port: u16, host: String },
    /// Deploy the worker to Cloudflare.
    Deploy { account_id: Option<String>, api_token: Option<String>, name: String },
    /// Manage configuration.
    Config { action: ConfigAction },
}

/// A `config` subcommand.
#[derive(Debug)]
pub enum ConfigAction {
    /// Store an authentication token.
    AddToken { token: String },
    /// Print the current configuration.
    Show,
    /// Set the worker endpoint URL.
    SetEndpoint { url: String },
    /// Store Cloudflare credentials.
    SetCfCredentials { account_id: String, api_token: String },
}

/// What the program does with an invocation.
#[derive(Debug, Clone, Copy, PartialEq, Eq, Structural)]
pub enum RunMode {
    /// Start the interactive interface.
    Interactive,
    /// Print the help text.
    Help,
    /// Run the subcommand.
    Subcommand,
}

impl Cli {
    /// Without a subcommand the interactive interface starts when standard
    /// output is a terminal, and the help is printed otherwise; with one,
    /// it runs.
    pub fn run_mode(&self, stdout_is_terminal: bool) -> (res: RunMode)
        ensures
            res == if self.command is Some {
                RunMode::Subcommand
            } else if stdout_is_terminal {
                RunMode::Interactive
            } else {
                RunMode::Help
            },
    {
        match &self.command {
            Some(_) => RunMode::Subcommand,
            None => if stdout_is_terminal {
                RunMode::Interactive
            } else {
                RunMode::Help
            },
        }
    }
}

impl Settings {
    /// Applies a `config` subcommand that edits the active profile: a token
    /// becomes its auth token, a URL its endpoint. Returns whether the
    /// settings changed (and are to be saved); other subcommands change
    /// nothing here.
    pub fn apply_config_action(&mut self, action: ConfigAction) -> (changed: bool)
        requires
            old(self)@.wf(),
        ensures
            changed == (action is AddToken || action is SetEndpoint),
            final(self)@ == match action {
                ConfigAction::AddToken { token } => SettingsView {
                    profiles: old(self)@.profiles.update(
                        old(self)@.active_idx as int,
                        with_token_and_endpoint(old(self)@.active(), Some(token@), None),
                    ),
                    ..old(self)@
                },
                ConfigAction::SetEndpoint { url } => SettingsView {
                    profiles: old(self)@.profiles.update(
                        old(self)@.active_idx as int,
                        with_token_and_endpoint(old(self)@.active(), None, Some(url@)),
                    ),
                    ..old(self)@
                },
                _ => old(self)@,
            },
    {
        match action {
            ConfigAction::AddToken { token } => {
                self.update_active(Some(token), None);
                true
            },
            ConfigAction::SetEndpoint { url } => {
                self.update_active(None, Some(url));
                true
            },
            _ => false,
        }
    }
}

impl Command {
    /// A TCP tunnel needs a name, which its clients connect to; this is an
    /// unnamed `tcp` subcommand, which is refused.
    pub fn lacks_tcp_name(&self) -> (res: bool)
        ensures
            res == (self matches Command::Tcp { name: None, .. }),
    {
        match self {
            Command::Tcp { name: None, .. } => true,
            _ => false,
        }
    }
}

} // verus!
