//! What a tunnel needs to start: its type, the worker endpoint, the auth
//! token and the local address it forwards to.

use vstd::prelude::*;
use vstd::string::StringExecFns;
use crate::config::{opt_view, Profile, ProfileView};
use crate::text::{decimal, hex_bytes, hex_encode, owned, string_push, u64_to_decimal};

verus! {

/// Kind of traffic a tunnel carries.
#[derive(Debug, Clone, Copy, PartialEq, Eq, Structural)]
pub enum TunnelType {
    Http,
    Https,
    Tcp,
}

/// Everything needed to start (or restart) one tunnel.
#[derive(Debug)]
pub struct TunnelConfig {
    pub endpoint: String,
    pub auth_token: String,
    pub tunnel_type: TunnelType,
    /// `host:port` of the local service.
    pub local_addr: String,
    /// Stable tunnel name (URL slug), if any.
    pub name: Option<String>,
    /// For TCP tunnels: the token that clients present.
    pub tcp_token: Option<String>,
}

/// The mathematical content of a [`TunnelConfig`].
pub struct TunnelConfigView {
    pub endpoint: Seq<char>,
    pub auth_token: Seq<char>,
    pub tunnel_type: TunnelType,
    pub local_addr: Seq<char>,
    pub name: Option<Seq<char>>,
    pub tcp_token: Option<Seq<char>>,
}

impl View for TunnelConfig {
    type V = TunnelConfigView;

    open spec fn view(&self) -> TunnelConfigView {
        TunnelConfigView {
            endpoint: self.endpoint@,
            auth_token: self.auth_token@,
            tunnel_type: self.tunnel_type,
            local_addr: self.local_addr@,
            name: opt_view(self.name),
            tcp_token: opt_view(self.tcp_token),
        }
    }
}

impl DeepView for TunnelConfig {
    type V = TunnelConfigView;

    open spec fn deep_view(&self) -> TunnelConfigView {
        self@
    }
}

impl Clone for TunnelConfig {
    fn clone(&self) -> (res: Self)
        ensures
            res@ == self@,
    {
        TunnelConfig {
            endpoint: self.endpoint.clone(),
            auth_token: self.auth_token.clone(),
            tunnel_type: self.tunnel_type,
            local_addr: self.local_addr.clone(),
            name: crate::config::clone_opt(&self.name),
            tcp_token: crate::config::clone_opt(&self.tcp_token),
        }
    }
}

/// `host:port`.
pub open spec fn local_addr_view(host: Seq<char>, port: u16) -> Seq<char> {
    host + seq![':'] + decimal(port as nat)
}

/// The local address `host:port`.
pub fn local_addr(host: &str, port: u16) -> (res: String)
    ensures
        res@ == local_addr_view(host@, port),
{
    let mut s = owned(host);
    string_push(&mut s, ':');
    let digits = u64_to_decimal(port as u64);
    s.append(digits.as_str());
    s
}

/// The auth token of a profile, empty when it has none.
pub open spec fn token_or_empty(t: Option<Seq<char>>) -> Seq<char> {
    match t {
        Some(t) => t,
        None => Seq::empty(),
    }
}

/// The tunnel configuration that a profile gives for a local service.
pub open spec fn profile_tunnel_view(
    p: ProfileView,
    tunnel_type: TunnelType,
    host: Seq<char>,
    port: u16,
    name: Option<Seq<char>>,
    tcp_token: Option<Seq<char>>,
) -> TunnelConfigView {
    TunnelConfigView {
        endpoint: p.endpoint,
        auth_token: token_or_empty(p.auth_token),
        tunnel_type,
        local_addr: local_addr_view(host, port),
        name,
        tcp_token,
    }
}

impl TunnelConfig {
    /// A tunnel to `host:port` through the endpoint of `profile`, with its
    /// auth token (or an empty one).
    pub fn for_profile(
        profile: &Profile,
        tunnel_type: TunnelType,
        host: &str,
        port: u16,
        name: Option<String>,
        tcp_token: Option<String>,
    ) -> (res: TunnelConfig)
        ensures
            res@ == profile_tunnel_view(
                profile@,
                tunnel_type,
                host@,
                port,
                opt_view(name),
                opt_view(tcp_token),
            ),
    {
        TunnelConfig {
            endpoint: profile.endpoint.clone(),
            auth_token: match &profile.auth_token {
                Some(t) => t.clone(),
                None => String::new(),
            },
            tunnel_type,
            local_addr: local_addr(host, port),
            name,
            tcp_token,
        }
    }
}

/// A token for TCP clients: the lowercase hexadecimal form of 16 bytes.
pub open spec fn is_tcp_token(t: Seq<char>) -> bool {
    exists|bs: Seq<u8>| bs.len() == 16 && t == hex_bytes(bs)
}

/// Sixteen random bytes from the thread-local generator (`rand::random`).
/// Nothing is stated of their values.
#[verifier::external_body]
fn random_token_bytes() -> [u8; 16] {
    rand::random()
}

/// A fresh random TCP token: 16 random bytes in lowercase hexadecimal.
pub fn generate_tcp_token() -> (res: String)
    ensures
        is_tcp_token(res@),
{
    let bytes = random_token_bytes();
    let res = hex_encode(bytes.as_slice());
    assert(bytes@.len() == 16);
    res
}

} // verus!

verus! {

/// A lowercase hexadecimal digit.
pub open spec fn is_lower_hex(c: char) -> bool {
    ('0' <= c && c <= '9') || ('a' <= c && c <= 'f')
}

/// The hexadecimal form of `bs` has two lowercase hexadecimal digits per
/// byte.
proof fn lemma_hex_bytes_shape(bs: Seq<u8>)
    ensures
        hex_bytes(bs).len() == 2 * bs.len(),
        forall|i: int| 0 <= i < hex_bytes(bs).len() ==> is_lower_hex(#[trigger] hex_bytes(bs)[i]),
    decreases bs.len(),
{
    if bs.len() > 0 {
        lemma_hex_bytes_shape(bs.drop_last());
        let pre = hex_bytes(bs.drop_last());
        let b = bs.last();
        assert(b / 16 < 16 && b % 16 < 16);
        let h = hex_bytes(bs);
        assert forall|i: int| 0 <= i < h.len() implies is_lower_hex(#[trigger] h[i]) by {
            if i < pre.len() {
                assert(h[i] == pre[i]);
            }
        }
    }
}

/// A TCP token is 32 lowercase hexadecimal digits.
pub proof fn lemma_tcp_token_shape(t: Seq<char>)
    requires
        is_tcp_token(t),
    ensures
        t.len() == 32,
        forall|i: int| 0 <= i < t.len() ==> is_lower_hex(#[trigger] t[i]),
{
    let bs = choose|bs: Seq<u8>| bs.len() == 16 && t == hex_bytes(bs);
    lemma_hex_bytes_shape(bs);
}

} // verus!
