//! Tunnels remembered between sessions of the terminal interface.
//!
//! Each entry names the profile whose endpoint and auth token it uses, so
//! that a restored tunnel follows later changes to that profile. Reading
//! and writing the list happen outside this module; where the list lives
//! is decided here.

use vstd::prelude::*;
use vstd::std_specs::convert::FromSpecImpl;
use crate::config::{has_named, is_first_named, lemma_first_named_unique, opt_view, position_by_name, ProfileView, Settings};
use crate::tunnel::{local_addr, local_addr_view, token_or_empty, TunnelConfig, TunnelConfigView, TunnelType};

verus! {

/// What `std::path::Path::parent` gives for a path written as text, under
/// the path rules of the platform the library is built for: the path
/// without its last component, or `None` for a root or an empty path.
pub uninterp spec fn path_parent(path: Seq<char>) -> Option<Seq<char>>;

/// What `std::path::Path::join` gives for a directory and a relative name,
/// written as text, under the path rules of the platform the library is
/// built for.
pub uninterp spec fn path_join(dir: Seq<char>, name: Seq<char>) -> Seq<char>;

/// Calls `std::path::Path::parent` on `path`; the result, as text, is
/// [`path_parent`] of the argument.
#[verifier::external_body]
fn parent_of(path: &str) -> (res: Option<String>)
    ensures
        opt_view(res) == path_parent(path@),
{
    std::path::Path::new(path).parent().map(|d| d.to_string_lossy().into_owned())
}

/// Calls `std::path::Path::join`; the result, as text, is [`path_join`] of
/// the arguments.
#[verifier::external_body]
fn joined(dir: &str, name: &str) -> (res: String)
    ensures
        res@ == path_join(dir@, name@),
{
    std::path::Path::new(dir).join(name).to_string_lossy().into_owned()
}

/// The name of the file that holds the saved tunnels.
pub open spec fn tunnels_file_name() -> Seq<char> {
    seq!['t', 'u', 'n', 'n', 'e', 'l', 's', '.', 'j', 's', 'o', 'n']
}

/// The directory named by the parent of a path: the parent, or `.` where
/// the path has none.
pub open spec fn dir_of_parent(parent: Option<Seq<char>>) -> Seq<char> {
    match parent {
        Some(d) => d,
        None => seq!['.'],
    }
}

/// The directory that holds a settings file.
pub open spec fn settings_dir(settings_path: Seq<char>) -> Seq<char> {
    dir_of_parent(path_parent(settings_path))
}

/// The directory for the parent of a path, `.` where there is none.
pub fn dir_or_current(parent: Option<String>) -> (res: String)
    ensures
        res@ == dir_of_parent(opt_view(parent)),
{
    proof {
        reveal_strlit(".");
    }
    match parent {
        Some(d) => d,
        None => {
            let dot = crate::text::owned(".");
            assert(dot@ =~= seq!['.']);
            dot
        },
    }
}

/// Where the saved tunnels live: `tunnels.json` beside the settings file.
pub fn config_path(settings_path: &str) -> (res: String)
    ensures
        res@ == path_join(settings_dir(settings_path@), tunnels_file_name()),
{
    proof {
        reveal_strlit("tunnels.json");
    }
    let dir = dir_or_current(parent_of(settings_path));
    let name = crate::text::owned("tunnels.json");
    assert(name@ == tunnels_file_name());
    joined(dir.as_str(), name.as_str())
}

/// Tunnel type as stored in the session file.
#[derive(Debug, Clone, Copy, PartialEq, Eq, Structural)]
pub enum SavedTunnelType {
    Http,
    Https,
    Tcp,
}

/// The stored type of a tunnel type.
pub open spec fn saved_type_of(t: TunnelType) -> SavedTunnelType {
    match t {
        TunnelType::Http => SavedTunnelType::Http,
        TunnelType::Https => SavedTunnelType::Https,
        TunnelType::Tcp => SavedTunnelType::Tcp,
    }
}

/// The tunnel type of a stored type.
pub open spec fn tunnel_type_of(t: SavedTunnelType) -> TunnelType {
    match t {
        SavedTunnelType::Http => TunnelType::Http,
        SavedTunnelType::Https => TunnelType::Https,
        SavedTunnelType::Tcp => TunnelType::Tcp,
    }
}

impl From<TunnelType> for SavedTunnelType {
    fn from(t: TunnelType) -> (res: Self) {
        match t {
            TunnelType::Http => SavedTunnelType::Http,
            TunnelType::Https => SavedTunnelType::Https,
            TunnelType::Tcp => SavedTunnelType::Tcp,
        }
    }
}

impl FromSpecImpl<TunnelType> for SavedTunnelType {
    open spec fn obeys_from_spec() -> bool {
        true
    }

    open spec fn from_spec(t: TunnelType) -> Self {
        saved_type_of(t)
    }
}

impl From<SavedTunnelType> for TunnelType {
    fn from(t: SavedTunnelType) -> (res: Self) {
        match t {
            SavedTunnelType::Http => TunnelType::Http,
            SavedTunnelType::Https => TunnelType::Https,
            SavedTunnelType::Tcp => TunnelType::Tcp,
        }
    }
}

impl FromSpecImpl<SavedTunnelType> for TunnelType {
    open spec fn obeys_from_spec() -> bool {
        true
    }

    open spec fn from_spec(t: SavedTunnelType) -> Self {
        tunnel_type_of(t)
    }
}

/// Whether the tunnel was running when the session ended.
#[derive(Debug, Clone, Copy, PartialEq, Eq, Structural)]
pub enum SavedTunnelState {
    Running,
    Stopped,
}

impl Default for SavedTunnelState {
    fn default() -> (res: Self)
        ensures
            res == SavedTunnelState::Running,
    {
        SavedTunnelState::Running
    }
}

/// One remembered tunnel.
#[derive(Debug)]
pub struct SavedTunnel {
    /// Name of the settings profile whose endpoint and auth token are used.
    pub profile: String,
    pub tunnel_type: SavedTunnelType,
    /// Local hostname, e.g. `localhost`.
    pub host: String,
    /// Local port.
    pub port: u16,
    /// Running or stopped when the session ended.
    pub state: SavedTunnelState,
    /// Optional URL slug / display name.
    pub name: Option<String>,
    /// For TCP tunnels: the token clients use to connect.
    pub tcp_token: Option<String>,
}

/// The mathematical content of a [`SavedTunnel`].
pub struct SavedTunnelView {
    pub profile: Seq<char>,
    pub tunnel_type: SavedTunnelType,
    pub host: Seq<char>,
    pub port: u16,
    pub state: SavedTunnelState,
    pub name: Option<Seq<char>>,
    pub tcp_token: Option<Seq<char>>,
}

impl View for SavedTunnel {
    type V = SavedTunnelView;

    open spec fn view(&self) -> SavedTunnelView {
        SavedTunnelView {
            profile: self.profile@,
            tunnel_type: self.tunnel_type,
            host: self.host@,
            port: self.port,
            state: self.state,
            name: opt_view(self.name),
            tcp_token: opt_view(self.tcp_token),
        }
    }
}

/// The configuration a saved tunnel gets through the first profile named
/// in it: that profile's endpoint and auth token (empty when it has none)
/// with the stored type, address, name and token; `None` when no profile
/// has the name.
pub open spec fn saved_config(profiles: Seq<ProfileView>, e: SavedTunnelView) -> Option<TunnelConfigView> {
    if has_named(profiles, e.profile) {
        let p = profiles[choose|i: int| is_first_named(profiles, e.profile, i)];
        Some(
            TunnelConfigView {
                endpoint: p.endpoint,
                auth_token: token_or_empty(p.auth_token),
                tunnel_type: tunnel_type_of(e.tunnel_type),
                local_addr: local_addr_view(e.host, e.port),
                name: e.name,
                tcp_token: e.tcp_token,
            },
        )
    } else {
        None
    }
}

impl SavedTunnel {
    /// The configuration of this tunnel through the first profile of
    /// `settings` with the stored profile name; `None` when no profile has
    /// that name any more.
    pub fn to_tunnel_config(&self, settings: &Settings) -> (res: Option<TunnelConfig>)
        ensures
            match res {
                Some(c) => saved_config(settings@.profiles, self@) == Some(c@),
                None => saved_config(settings@.profiles, self@) is None,
            },
    {
        match position_by_name(&settings.profiles, self.profile.as_str()) {
            None => None,
            Some(i) => {
                let profile = &settings.profiles[i];
                let res = TunnelConfig {
                    endpoint: profile.endpoint.clone(),
                    auth_token: match &profile.auth_token {
                        Some(t) => t.clone(),
                        None => String::new(),
                    },
                    tunnel_type: TunnelType::from(self.tunnel_type),
                    local_addr: local_addr(self.host.as_str(), self.port),
                    name: crate::config::clone_opt(&self.name),
                    tcp_token: crate::config::clone_opt(&self.tcp_token),
                };
                assert(settings@.profiles[i as int] == profile@);
                proof {
                    let k = choose|k: int| is_first_named(settings@.profiles, self@.profile, k);
                    lemma_first_named_unique(settings@.profiles, self@.profile, i as int, k);
                }
                Some(res)
            },
        }
    }
}

} // verus!

verus! {

/// Storing a tunnel type and reading it back gives the same type, and the
/// other way round.
pub proof fn lemma_type_round_trip(t: TunnelType, s: SavedTunnelType)
    ensures
        tunnel_type_of(saved_type_of(t)) == t,
        saved_type_of(tunnel_type_of(s)) == s,
{
}

} // verus!
