//! Remembering tunnels between sessions: which entries the tunnel list
//! leaves behind, and how a remembered list comes back. Running tunnels
//! reconnect; stopped ones come back stopped.

use vstd::prelude::*;
use crate::config::{is_first_named, lemma_first_named_unique, opt_view, ProfileView, SettingsView};
use crate::saved_tunnels::{
    saved_config, saved_type_of, SavedTunnel, SavedTunnelState, SavedTunnelType, SavedTunnelView,
};
use crate::text::{
    all_digits, chars_of, decimal, lemma_decimal_digits, lemma_parse_decimal_round_trip,
    parse_u16, parse_u16_str, string_of_chars,
};
use crate::tunnel::{local_addr_view, profile_tunnel_view, TunnelConfigView, TunnelType};
use super::app::{
    after_last_colon, new_handle_view, port_part, App, AppView, TunnelHandle, TunnelHandleView,
    TunnelStatus,
};

verus! {

// -- Local addresses --

/// The host and port of a local address `host:port`: the text before its
/// last `:` and the text after it read as a 16-bit number; `None` without
/// a `:` or without a number after it.
pub open spec fn split_addr(s: Seq<char>) -> Option<(Seq<char>, u16)> {
    let port_text = after_last_colon(s);
    if port_text.len() >= s.len() {
        None
    } else {
        match parse_u16(port_text) {
            Some(p) => Some((s.subrange(0, s.len() - port_text.len() - 1), p)),
            None => None,
        }
    }
}

/// What follows the last `:` is a suffix of the text, and it is shorter
/// exactly when there is a `:`, which then stands just before it.
proof fn lemma_after_last_colon_suffix(s: Seq<char>)
    ensures
        after_last_colon(s).len() <= s.len(),
        after_last_colon(s) == s.subrange(s.len() - after_last_colon(s).len(), s.len() as int),
        after_last_colon(s).len() < s.len() ==> s[s.len() - after_last_colon(s).len() - 1] == ':',
    decreases s.len(),
{
    if s.len() > 0 && s.last() != ':' {
        lemma_after_last_colon_suffix(s.drop_last());
        let a = after_last_colon(s.drop_last());
        assert(after_last_colon(s) =~= s.subrange(s.len() - a.len() - 1, s.len() as int));
    } else if s.len() > 0 {
        assert(s.subrange(s.len() as int, s.len() as int) =~= Seq::<char>::empty());
    } else {
        assert(s.subrange(0, 0) =~= s);
    }
}

/// After a `:`, text without `:` is all that follows the last `:`.
proof fn lemma_after_colon_of_append(x: Seq<char>, d: Seq<char>)
    requires
        x.len() > 0,
        x.last() == ':',
        forall|k: int| 0 <= k < d.len() ==> #[trigger] d[k] != ':',
    ensures
        after_last_colon(x + d) == d,
    decreases d.len(),
{
    if d.len() == 0 {
        assert(x + d =~= x);
    } else {
        assert((x + d).drop_last() =~= x + d.drop_last());
        assert((x + d).last() == d.last());
        lemma_after_colon_of_append(x, d.drop_last());
        assert(d.drop_last().push(d.last()) =~= d);
    }
}

/// A local address written from a host and a port splits back into them.
pub proof fn lemma_split_local_addr(host: Seq<char>, port: u16)
    ensures
        split_addr(local_addr_view(host, port)) == Some((host, port)),
{
    let d = decimal(port as nat);
    lemma_decimal_digits(port as nat);
    assert forall|k: int| 0 <= k < d.len() implies #[trigger] d[k] != ':' by {
        assert(all_digits(d));
    }
    let x = host + seq![':'];
    let s = local_addr_view(host, port);
    assert(s =~= x + d);
    lemma_after_colon_of_append(x, d);
    lemma_parse_decimal_round_trip(port);
    assert(s.subrange(0, s.len() - d.len() - 1) =~= host);
}

/// Splits a local address `host:port` at its last `:`.
pub fn split_local_addr(s: &str) -> (res: Option<(String, u16)>)
    ensures
        match res {
            Some((h, p)) => split_addr(s@) == Some((h@, p)),
            None => split_addr(s@) is None,
        },
{
    let port_text = port_part(s);
    let cs = chars_of(s);
    let n = cs.len();
    let m = chars_of(port_text.as_str()).len();
    proof {
        lemma_after_last_colon_suffix(s@);
    }
    if m >= n {
        return None;
    }
    match parse_u16_str(port_text.as_str()) {
        None => None,
        Some(p) => {
            let host = string_of_chars(&cs.as_slice()[0..n - m - 1]);
            assert(host@ =~= s@.subrange(0, s@.len() - after_last_colon(s@).len() - 1));
            Some((host, p))
        },
    }
}

// -- Saving --

/// The entry a tunnel leaves in the session file: its profile, type,
/// address, name and token, running unless it was stopped; none for a
/// tunnel without a profile or whose address does not split.
pub open spec fn saved_of(t: TunnelHandleView) -> Option<SavedTunnelView> {
    match t.profile_name {
        None => None,
        Some(profile) => match split_addr(t.base_config.local_addr) {
            None => None,
            Some((host, port)) => Some(
                SavedTunnelView {
                    profile,
                    tunnel_type: saved_type_of(t.base_config.tunnel_type),
                    host,
                    port,
                    state: if t.status == TunnelStatus::Stopped {
                        SavedTunnelState::Stopped
                    } else {
                        SavedTunnelState::Running
                    },
                    name: t.base_config.name,
                    tcp_token: t.base_config.tcp_token,
                },
            ),
        },
    }
}

/// The entries of a tunnel list, in order, skipping tunnels that leave none.
pub open spec fn saved_list(ts: Seq<TunnelHandleView>) -> Seq<SavedTunnelView>
    decreases ts.len(),
{
    if ts.len() == 0 {
        Seq::empty()
    } else {
        let pre = saved_list(ts.drop_last());
        match saved_of(ts.last()) {
            Some(e) => pre.push(e),
            None => pre,
        }
    }
}

/// The views of a list of saved tunnels.
pub open spec fn saved_views(v: Seq<SavedTunnel>) -> Seq<SavedTunnelView> {
    v.map_values(|e: SavedTunnel| e@)
}

impl TunnelHandle {
    /// The entry this tunnel leaves in the session file, if any.
    pub fn to_saved(&self) -> (res: Option<SavedTunnel>)
        ensures
            match res {
                Some(e) => saved_of(self@) == Some(e@),
                None => saved_of(self@) is None,
            },
    {
        let profile = match &self.profile_name {
            None => return None,
            Some(p) => p.clone(),
        };
        let (host, port) = match split_local_addr(self.base_config.local_addr.as_str()) {
            None => return None,
            Some(hp) => hp,
        };
        let state = match self.status {
            TunnelStatus::Stopped => SavedTunnelState::Stopped,
            _ => SavedTunnelState::Running,
        };
        Some(
            SavedTunnel {
                profile,
                tunnel_type: SavedTunnelType::from(self.base_config.tunnel_type),
                host,
                port,
                state,
                name: crate::config::clone_opt(&self.base_config.name),
                tcp_token: crate::config::clone_opt(&self.base_config.tcp_token),
            },
        )
    }
}

impl App {
    /// The entries the tunnel list leaves in the session file.
    pub fn tunnels_to_save(&self) -> (res: Vec<SavedTunnel>)
        ensures
            saved_views(res@) == saved_list(self@.tunnels),
    {
        let mut res: Vec<SavedTunnel> = Vec::new();
        let mut i: usize = 0;
        while i < self.tunnels.len()
            invariant
                i <= self.tunnels.len(),
                saved_views(res@) == saved_list(self@.tunnels.subrange(0, i as int)),
            decreases self.tunnels.len() - i,
        {
            let ghost pre = res@;
            let entry = self.tunnels[i].to_saved();
            let ghost ts = self@.tunnels.subrange(0, i as int + 1);
            assert(ts.drop_last() =~= self@.tunnels.subrange(0, i as int));
            assert(ts.last() == self.tunnels@[i as int]@);
            match entry {
                Some(e) => {
                    res.push(e);
                    assert(saved_views(res@) =~= saved_views(pre).push(e@));
                },
                None => {},
            }
            i = i + 1;
        }
        assert(self@.tunnels.subrange(0, self.tunnels.len() as int) =~= self@.tunnels);
        res
    }
}

// -- Restoring --

/// The interface after bringing back one remembered tunnel: nothing when
/// no profile has its name any more; else a new tunnel that is connecting
/// and selected if it was running, or stopped (the selection kept).
pub open spec fn restore_step(a: AppView, e: SavedTunnelView) -> AppView {
    match saved_config(a.settings.profiles, e) {
        None => a,
        Some(c) => if e.state == SavedTunnelState::Running {
            AppView {
                tunnels: a.tunnels.push(new_handle_view(c, TunnelStatus::Connecting, Some(e.profile))),
                selected_tunnel: a.tunnels.len(),
                ..a
            }
        } else {
            AppView {
                tunnels: a.tunnels.push(new_handle_view(c, TunnelStatus::Stopped, Some(e.profile))),
                ..a
            }
        },
    }
}

/// The interface after bringing back remembered tunnels in order.
pub open spec fn restored(a: AppView, es: Seq<SavedTunnelView>) -> AppView
    decreases es.len(),
{
    if es.len() == 0 {
        a
    } else {
        restore_step(restored(a, es.drop_last()), es.last())
    }
}

impl App {
    /// Brings back the tunnels of an earlier session, in order: running
    /// ones reconnect, stopped ones are listed stopped, and entries whose
    /// profile is gone are skipped.
    pub fn restore_tunnels(&mut self, saved: &Vec<SavedTunnel>)
        requires
            old(self)@.wf(),
        ensures
            final(self)@ == restored(old(self)@, saved_views(saved@)),
            final(self)@.wf(),
    {
        let mut i: usize = 0;
        while i < saved.len()
            invariant
                i <= saved.len(),
                self@.wf(),
                self@ == restored(old(self)@, saved_views(saved@.subrange(0, i as int))),
            decreases saved.len() - i,
        {
            let ghost before = self@;
            let entry = &saved[i];
            let ghost es = saved_views(saved@.subrange(0, i as int + 1));
            assert(es.drop_last() =~= saved_views(saved@.subrange(0, i as int)));
            assert(es.last() == entry@);
            match entry.to_tunnel_config(&self.settings) {
                None => {},
                Some(config) => {
                    let profile = entry.profile.clone();
                    match entry.state {
                        SavedTunnelState::Running => self.spawn_tunnel(config, Some(profile)),
                        SavedTunnelState::Stopped => self.add_stopped_tunnel(config, Some(profile)),
                    }
                },
            }
            assert(self@ == restore_step(before, entry@));
            i = i + 1;
        }
        assert(saved@.subrange(0, saved.len() as int) =~= saved@);
    }
}

// -- Laws --

/// A tunnel made from the first profile with its name comes back from the
/// session file with the same configuration, under the same profile, and
/// connecting unless it was stopped.
pub proof fn lemma_save_restore_round_trip(
    t: TunnelHandleView,
    profiles: Seq<ProfileView>,
    i: int,
    host: Seq<char>,
    port: u16,
)
    requires
        is_first_named(profiles, profiles[i].name, i),
        t.profile_name == Some(profiles[i].name),
        t.base_config == profile_tunnel_view(
            profiles[i],
            t.base_config.tunnel_type,
            host,
            port,
            t.base_config.name,
            t.base_config.tcp_token,
        ),
    ensures
        saved_of(t) is Some,
        saved_config(profiles, saved_of(t)->0) == Some(t.base_config),
        saved_of(t)->0.profile == profiles[i].name,
        (saved_of(t)->0.state == SavedTunnelState::Running) == (t.status != TunnelStatus::Stopped),
{
    lemma_split_local_addr(host, port);
    let e = saved_of(t)->0;
    assert(crate::config::has_named(profiles, e.profile));
    let k = choose|k: int| is_first_named(profiles, e.profile, k);
    lemma_first_named_unique(profiles, e.profile, i, k);
    crate::saved_tunnels::lemma_type_round_trip(t.base_config.tunnel_type, e.tunnel_type);
}

/// Restoring keeps the tunnels already listed and adds at most one tunnel
/// per remembered entry, so a wrong entry never removes or changes a tunnel.
pub proof fn lemma_restore_keeps_listed(a: AppView, es: Seq<SavedTunnelView>)
    ensures
        a.tunnels.len() <= restored(a, es).tunnels.len() <= a.tunnels.len() + es.len(),
        restored(a, es).tunnels.subrange(0, a.tunnels.len() as int) == a.tunnels,
        restored(a, es).settings == a.settings,
    decreases es.len(),
{
    if es.len() > 0 {
        lemma_restore_keeps_listed(a, es.drop_last());
        let b = restored(a, es.drop_last());
        let c = restore_step(b, es.last());
        assert(c.tunnels.subrange(0, a.tunnels.len() as int) =~= b.tunnels.subrange(0, a.tunnels.len() as int));
    }
}

} // verus!
