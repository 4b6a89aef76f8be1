//! Events from the tunnels, keys from the terminal, and the actions that a
//! key asks of the event loop.

use vstd::prelude::*;
use crate::cloudflare_config::{CfAccount, CfAccountView};
use crate::config::{
    default_endpoint, default_endpoint_view, has_named, new_profile_view, opt_view, position_by_name,
    Profile, ProfileView, Settings, SettingsView,
};
use crate::text::{is_digit, parse_u16};
use crate::tunnel::{
    is_tcp_token, local_addr_view, token_or_empty, TunnelConfig, TunnelConfigView, TunnelType,
};
use super::app::{
    account_at, new_tunnel_form_view, next_index, prev_index, settings_form_view, App, AppView,
    DeployForm, DeployFormView, FieldsView, Focus, NewTunnelForm, NewTunnelFormView, Overlay,
    SettingsForm, TunnelHandleView, TunnelStatus, option_tunnel_type, type_next, type_prev,
    TunnelTypeOption, SettingsFormView, profile_fields_view, cf_fields_view, profile_applied,
    account_from_fields, EndpointTestFormView, method_name, HTTP_METHOD_COUNT,
};

verus! {

/// What a running tunnel reports.
#[derive(Debug)]
pub enum TunnelEvent {
    Connected { url: String },
    Request { method: String, path: String, status: u16, latency_ms: u64 },
    Disconnected { reason: String },
    Error(String),
    TestResult { status: u16, latency_ms: u64, body_snippet: String },
}

/// The mathematical content of a [`TunnelEvent`].
pub enum TunnelEventView {
    Connected { url: Seq<char> },
    Request { method: Seq<char>, path: Seq<char>, status: u16, latency_ms: u64 },
    Disconnected { reason: Seq<char> },
    Error(Seq<char>),
    TestResult { status: u16, latency_ms: u64, body_snippet: Seq<char> },
}

impl View for TunnelEvent {
    type V = TunnelEventView;

    open spec fn view(&self) -> TunnelEventView {
        match self {
            TunnelEvent::Connected { url } => TunnelEventView::Connected { url: url@ },
            TunnelEvent::Request { method, path, status, latency_ms } => TunnelEventView::Request {
                method: method@,
                path: path@,
                status: *status,
                latency_ms: *latency_ms,
            },
            TunnelEvent::Disconnected { reason } => TunnelEventView::Disconnected { reason: reason@ },
            TunnelEvent::Error(m) => TunnelEventView::Error(m@),
            TunnelEvent::TestResult { status, latency_ms, body_snippet } => TunnelEventView::TestResult {
                status: *status,
                latency_ms: *latency_ms,
                body_snippet: body_snippet@,
            },
        }
    }
}

/// The key codes the interface reacts to; every other key is `Other`.
#[derive(Debug, Clone, Copy, PartialEq, Eq, Structural)]
pub enum Key {
    Char(char),
    Esc,
    Enter,
    Tab,
    Backspace,
    Delete,
    Up,
    Down,
    Left,
    Right,
    PageUp,
    PageDown,
    Other,
}

/// What the event loop is asked to do after a key.
#[derive(Debug)]
pub enum Action {
    /// Nothing to do.
    Nothing,
    Quit,
    OpenOverlay(Overlay),
    CloseOverlay,
    /// Start a tunnel; the string is the name of the profile it uses.
    SpawnTunnel(TunnelConfig, String),
    StopTunnel(usize),
    StartTunnel(usize),
    DeleteTunnel(usize),
    SaveSettings,
    SaveCfAccounts,
    SwitchProfile(usize),
    DeployWorker { worker_name: String, account_id: String, api_token: String, auth_token: Option<String> },
    OpenEndpointTest(usize),
    RunEndpointTest {
        tunnel_idx: usize,
        method: String,
        path: String,
        body: String,
        headers: Vec<(String, String)>,
    },
}

/// The mathematical content of an [`Action`].
pub enum ActionView {
    Nothing,
    Quit,
    OpenOverlay(Overlay),
    CloseOverlay,
    SpawnTunnel(TunnelConfigView, Seq<char>),
    StopTunnel(nat),
    StartTunnel(nat),
    DeleteTunnel(nat),
    SaveSettings,
    SaveCfAccounts,
    SwitchProfile(nat),
    DeployWorker {
        worker_name: Seq<char>,
        account_id: Seq<char>,
        api_token: Seq<char>,
        auth_token: Option<Seq<char>>,
    },
    OpenEndpointTest(nat),
    RunEndpointTest {
        tunnel_idx: nat,
        method: Seq<char>,
        path: Seq<char>,
        body: Seq<char>,
        headers: FieldsView,
    },
}

impl View for Action {
    type V = ActionView;

    open spec fn view(&self) -> ActionView {
        match self {
            Action::Nothing => ActionView::Nothing,
            Action::Quit => ActionView::Quit,
            Action::OpenOverlay(o) => ActionView::OpenOverlay(*o),
            Action::CloseOverlay => ActionView::CloseOverlay,
            Action::SpawnTunnel(c, p) => ActionView::SpawnTunnel(c@, p@),
            Action::StopTunnel(i) => ActionView::StopTunnel(*i as nat),
            Action::StartTunnel(i) => ActionView::StartTunnel(*i as nat),
            Action::DeleteTunnel(i) => ActionView::DeleteTunnel(*i as nat),
            Action::SaveSettings => ActionView::SaveSettings,
            Action::SaveCfAccounts => ActionView::SaveCfAccounts,
            Action::SwitchProfile(i) => ActionView::SwitchProfile(*i as nat),
            Action::DeployWorker { worker_name, account_id, api_token, auth_token } => ActionView::DeployWorker {
                worker_name: worker_name@,
                account_id: account_id@,
                api_token: api_token@,
                auth_token: opt_view(*auth_token),
            },
            Action::OpenEndpointTest(i) => ActionView::OpenEndpointTest(*i as nat),
            Action::RunEndpointTest { tunnel_idx, method, path, body, headers } => ActionView::RunEndpointTest {
                tunnel_idx: *tunnel_idx as nat,
                method: method@,
                path: path@,
                body: body@,
                headers: headers.deep_view(),
            },
        }
    }
}

} // verus!

verus! {

/// Whether an action can be carried out on the state: an overlay it opens
/// has its form in range.
pub open spec fn action_fits(app: AppView, a: ActionView) -> bool {
    match a {
        ActionView::OpenOverlay(o) => app.overlay_ready(o),
        _ => true,
    }
}

/// The state with the tunnel at `i` replaced.
pub open spec fn with_tunnel(pre: AppView, i: int, t: TunnelHandleView) -> AppView {
    AppView { tunnels: pre.tunnels.update(i, t), ..pre }
}

/// The selected tunnel's log scrolled to `offset` by hand (no following).
pub open spec fn scrolled(pre: AppView, offset: u16) -> AppView {
    with_tunnel(
        pre,
        pre.selected_tunnel as int,
        TunnelHandleView {
            auto_scroll: false,
            scroll_offset: offset,
            ..pre.tunnels[pre.selected_tunnel as int]
        },
    )
}

/// `j` or Down in the main view: scroll the log down a line when the log
/// is focused, else select the next tunnel.
pub open spec fn key_down(pre: AppView) -> AppView {
    if pre.focus == Focus::Logs {
        if pre.selected_tunnel < pre.tunnels.len() {
            scrolled(pre, pre.tunnels[pre.selected_tunnel as int].scroll_offset.saturating_add(1))
        } else {
            pre
        }
    } else {
        AppView { selected_tunnel: next_index(pre.selected_tunnel, pre.tunnels.len()), ..pre }
    }
}

/// `k` or Up in the main view: scroll the log up a line when the log is
/// focused, else select the previous tunnel.
pub open spec fn key_up(pre: AppView) -> AppView {
    if pre.focus == Focus::Logs {
        if pre.selected_tunnel < pre.tunnels.len() {
            scrolled(pre, pre.tunnels[pre.selected_tunnel as int].scroll_offset.saturating_sub(1))
        } else {
            pre
        }
    } else {
        AppView { selected_tunnel: prev_index(pre.selected_tunnel, pre.tunnels.len()), ..pre }
    }
}

/// The effect of a key in the main view (no overlay open); `cf` are the
/// stored Cloudflare accounts.
pub open spec fn main_key(pre: AppView, key: Key, cf: Seq<CfAccountView>) -> (AppView, ActionView) {
    let sel = pre.selected_tunnel;
    let n = pre.tunnels.len();
    let t = pre.tunnels[sel as int];
    match key {
        Key::Char(c) => if c == 'q' {
            (pre, ActionView::Quit)
        } else if c == 'n' {
            (
                AppView { new_tunnel_form: new_tunnel_form_view(pre.settings.active_idx), ..pre },
                ActionView::OpenOverlay(Overlay::NewTunnel),
            )
        } else if c == 's' {
            (
                AppView {
                    settings_form: Some(
                        settings_form_view(pre.settings.profiles, pre.settings.active_idx, cf),
                    ),
                    ..pre
                },
                ActionView::OpenOverlay(Overlay::Settings),
            )
        } else if c == 'p' {
            (
                AppView {
                    profiles_selected: pre.settings.active_idx,
                    new_profile_input: None,
                    ..pre
                },
                ActionView::OpenOverlay(Overlay::Profiles),
            )
        } else if c == 'm' {
            (
                AppView {
                    tunnel_manager_selected: if n == 0 {
                        0
                    } else if sel < (n - 1) as nat {
                        sel
                    } else {
                        (n - 1) as nat
                    },
                    ..pre
                },
                ActionView::OpenOverlay(Overlay::TunnelManager),
            )
        } else if c == 'd' {
            (pre, if n > 0 { ActionView::StopTunnel(sel) } else { ActionView::Nothing })
        } else if c == 'r' {
            (
                pre,
                if sel < n && t.status == TunnelStatus::Stopped {
                    ActionView::StartTunnel(sel)
                } else {
                    ActionView::Nothing
                },
            )
        } else if c == 'x' {
            (pre, if n > 0 { ActionView::DeleteTunnel(sel) } else { ActionView::Nothing })
        } else if c == 'D' {
            (
                AppView {
                    deploy_form: Some(
                        DeployFormView {
                            worker_name: Seq::empty(),
                            cf_accounts: cf,
                            selected_account: 0,
                            status_message: None,
                            focused_field: 0,
                            auth_token: token_or_empty(pre.settings.active().auth_token),
                        },
                    ),
                    ..pre
                },
                ActionView::OpenOverlay(Overlay::Deploy),
            )
        } else if c == 't' {
            (
                pre,
                if sel < n && t.status == TunnelStatus::Active && t.public_url is Some
                    && t.tunnel_type != TunnelType::Tcp {
                    ActionView::OpenEndpointTest(sel)
                } else {
                    ActionView::Nothing
                },
            )
        } else if c == 'j' {
            (key_down(pre), ActionView::Nothing)
        } else if c == 'k' {
            (key_up(pre), ActionView::Nothing)
        } else if c == 'g' {
            (if sel < n { scrolled(pre, 0) } else { pre }, ActionView::Nothing)
        } else if c == 'G' {
            (
                if sel < n {
                    with_tunnel(
                        pre,
                        sel as int,
                        TunnelHandleView {
                            scroll_offset: if t.logs.len() == 0 {
                                0
                            } else {
                                (t.logs.len() - 1) as u16
                            },
                            auto_scroll: true,
                            ..t
                        },
                    )
                } else {
                    pre
                },
                ActionView::Nothing,
            )
        } else {
            (pre, ActionView::Nothing)
        },
        Key::Tab => (
            AppView {
                focus: if pre.focus == Focus::List {
                    Focus::Logs
                } else {
                    Focus::List
                },
                ..pre
            },
            ActionView::Nothing,
        ),
        Key::Down => (key_down(pre), ActionView::Nothing),
        Key::Up => (key_up(pre), ActionView::Nothing),
        Key::PageUp => (
            if sel < n { scrolled(pre, t.scroll_offset.saturating_sub(20)) } else { pre },
            ActionView::Nothing,
        ),
        Key::PageDown => (
            if sel < n { scrolled(pre, t.scroll_offset.saturating_add(20)) } else { pre },
            ActionView::Nothing,
        ),
        _ => (pre, ActionView::Nothing),
    }
}

/// Copies of the accounts.
fn clone_accounts(v: &Vec<CfAccount>) -> (res: Vec<CfAccount>)
    ensures
        res.deep_view() == v.deep_view(),
{
    let mut r: Vec<CfAccount> = Vec::new();
    let mut i: usize = 0;
    while i < v.len()
        invariant
            i <= v.len(),
            r.deep_view() =~= v.deep_view().subrange(0, i as int),
        decreases v.len() - i,
    {
        let c = v[i].clone();
        let ghost before = r.deep_view();
        r.push(c);
        assert(r.deep_view() =~= before.push(c@));
        assert(v.deep_view().subrange(0, i as int + 1) =~= v.deep_view().subrange(0, i as int).push(
            v.deep_view()[i as int],
        ));
        i = i + 1;
    }
    assert(v.deep_view().subrange(0, v.len() as int) =~= v.deep_view());
    r
}

/// Scrolls the selected tunnel's log to `offset`, turning following off.
fn scroll_selected(app: &mut App, offset: u16)
    requires
        old(app)@.wf(),
        old(app)@.selected_tunnel < old(app)@.tunnels.len(),
    ensures
        final(app)@ == scrolled(old(app)@, offset),
        final(app)@.wf(),
{
    let ghost pre = app@;
    let t = &mut app.tunnels[app.selected_tunnel];
    t.auto_scroll = false;
    t.scroll_offset = offset;
    assert(app@.tunnels =~= scrolled(pre, offset).tunnels);
}

/// Handles a key in the main view.
fn handle_main_key(app: &mut App, key: Key, cf_accounts: &Vec<CfAccount>) -> (res: Action)
    requires
        old(app)@.wf(),
    ensures
        (final(app)@, res@) == main_key(old(app)@, key, cf_accounts.deep_view()),
        final(app)@.wf(),
        action_fits(final(app)@, res@),
{
    let ghost pre = app@;
    let sel = app.selected_tunnel;
    let n = app.tunnels.len();
    match key {
        Key::Char('q') => Action::Quit,
        Key::Char('n') => {
            app.new_tunnel_form = NewTunnelForm::new(app.settings.active_idx);
            Action::OpenOverlay(Overlay::NewTunnel)
        },
        Key::Char('s') => {
            let form = SettingsForm::new(&app.settings.profiles, app.settings.active_idx, clone_accounts(cf_accounts));
            app.settings_form = Some(form);
            Action::OpenOverlay(Overlay::Settings)
        },
        Key::Char('p') => {
            app.profiles_selected = app.settings.active_idx;
            app.new_profile_input = None;
            Action::OpenOverlay(Overlay::Profiles)
        },
        Key::Char('m') => {
            let last = n.saturating_sub(1);
            app.tunnel_manager_selected = if sel < last { sel } else { last };
            Action::OpenOverlay(Overlay::TunnelManager)
        },
        Key::Char('d') => {
            if n > 0 {
                Action::StopTunnel(sel)
            } else {
                Action::Nothing
            }
        },
        Key::Char('r') => {
            if sel < n && app.tunnels[sel].status == TunnelStatus::Stopped {
                Action::StartTunnel(sel)
            } else {
                Action::Nothing
            }
        },
        Key::Char('x') => {
            if n > 0 {
                Action::DeleteTunnel(sel)
            } else {
                Action::Nothing
            }
        },
        Key::Char('D') => {
            let token = match &app.settings.active_profile().auth_token {
                Some(t) => t.clone(),
                None => String::new(),
            };
            app.deploy_form = Some(DeployForm::new(token, clone_accounts(cf_accounts)));
            Action::OpenOverlay(Overlay::Deploy)
        },
        Key::Char('t') => {
            if sel < n && app.tunnels[sel].status == TunnelStatus::Active
                && app.tunnels[sel].public_url.is_some()
                && app.tunnels[sel].tunnel_type != TunnelType::Tcp {
                Action::OpenEndpointTest(sel)
            } else {
                Action::Nothing
            }
        },
        Key::Tab => {
            app.focus = match app.focus {
                Focus::List => Focus::Logs,
                Focus::Logs => Focus::List,
            };
            Action::Nothing
        },
        Key::Char('j') | Key::Down => {
            if app.focus == Focus::Logs {
                if sel < n {
                    let off = app.tunnels[sel].scroll_offset.saturating_add(1);
                    scroll_selected(app, off);
                }
            } else {
                app.next_tunnel();
            }
            Action::Nothing
        },
        Key::Char('k') | Key::Up => {
            if app.focus == Focus::Logs {
                if sel < n {
                    let off = app.tunnels[sel].scroll_offset.saturating_sub(1);
                    scroll_selected(app, off);
                }
            } else {
                app.prev_tunnel();
            }
            Action::Nothing
        },
        Key::Char('g') => {
            if sel < n {
                scroll_selected(app, 0);
            }
            Action::Nothing
        },
        Key::Char('G') => {
            if sel < n {
                let len = app.tunnels[sel].logs.len();
                assert(app@.tunnels[sel as int].logs.len() <= 1000);
                let off: u16 = if len == 0 { 0 } else { (len - 1) as u16 };
                let t = &mut app.tunnels[sel];
                t.scroll_offset = off;
                t.auto_scroll = true;
                assert(app@.tunnels =~= main_key(pre, key, cf_accounts.deep_view()).0.tunnels);
            }
            Action::Nothing
        },
        Key::PageUp => {
            if sel < n {
                let off = app.tunnels[sel].scroll_offset.saturating_sub(20);
                scroll_selected(app, off);
            }
            Action::Nothing
        },
        Key::PageDown => {
            if sel < n {
                let off = app.tunnels[sel].scroll_offset.saturating_add(20);
                scroll_selected(app, off);
            }
            Action::Nothing
        },
        _ => Action::Nothing,
    }
}

} // verus!

verus! {

/// The effect of a key in the tunnel manager.
pub open spec fn tunnel_manager_key(pre: AppView, key: Key) -> (AppView, ActionView) {
    let n = pre.tunnels.len();
    let m = pre.tunnel_manager_selected;
    if n == 0 {
        (pre, if key == Key::Esc { ActionView::CloseOverlay } else { ActionView::Nothing })
    } else {
        match key {
            Key::Esc => (pre, ActionView::CloseOverlay),
            Key::Up => (
                AppView { tunnel_manager_selected: if m > 0 { (m - 1) as nat } else { m }, ..pre },
                ActionView::Nothing,
            ),
            Key::Down => (
                AppView { tunnel_manager_selected: if m + 1 < n { m + 1 } else { m }, ..pre },
                ActionView::Nothing,
            ),
            Key::Delete => (pre, ActionView::DeleteTunnel(m)),
            Key::Char(c) => if c == 'k' {
                (
                    AppView { tunnel_manager_selected: if m > 0 { (m - 1) as nat } else { m }, ..pre },
                    ActionView::Nothing,
                )
            } else if c == 'j' {
                (
                    AppView { tunnel_manager_selected: if m + 1 < n { m + 1 } else { m }, ..pre },
                    ActionView::Nothing,
                )
            } else if c == 'x' {
                (pre, ActionView::DeleteTunnel(m))
            } else if c == 'r' {
                (
                    pre,
                    if m < n && pre.tunnels[m as int].status == TunnelStatus::Stopped {
                        ActionView::StartTunnel(m)
                    } else {
                        ActionView::Nothing
                    },
                )
            } else {
                (pre, ActionView::Nothing)
            },
            _ => (pre, ActionView::Nothing),
        }
    }
}

/// Handles a key in the tunnel manager.
fn handle_tunnel_manager_key(app: &mut App, key: Key) -> (res: Action)
    requires
        old(app)@.wf(),
    ensures
        (final(app)@, res@) == tunnel_manager_key(old(app)@, key),
        final(app)@.wf(),
        action_fits(final(app)@, res@),
{
    let n = app.tunnels.len();
    if n == 0 {
        return if key == Key::Esc { Action::CloseOverlay } else { Action::Nothing };
    }
    match key {
        Key::Esc => Action::CloseOverlay,
        Key::Up | Key::Char('k') => {
            if app.tunnel_manager_selected > 0 {
                app.tunnel_manager_selected = app.tunnel_manager_selected - 1;
            }
            Action::Nothing
        },
        Key::Down | Key::Char('j') => {
            if app.tunnel_manager_selected + 1 < n {
                app.tunnel_manager_selected = app.tunnel_manager_selected + 1;
            }
            Action::Nothing
        },
        Key::Char('x') | Key::Delete => Action::DeleteTunnel(app.tunnel_manager_selected),
        Key::Char('r') => {
            let m = app.tunnel_manager_selected;
            if m < n && app.tunnels[m].status == TunnelStatus::Stopped {
                Action::StartTunnel(m)
            } else {
                Action::Nothing
            }
        },
        _ => Action::Nothing,
    }
}

/// The status shown when the deploy form has no worker name.
pub open spec fn msg_name_required() -> Seq<char> {
    "Worker name is required"@
}

/// The status shown when no account can be used.
pub open spec fn msg_no_account() -> Seq<char> {
    "No CF account configured -- add to cloudflare.json"@
}

/// The deploy form as it is in the state (an arbitrary form when there
/// is none).
pub open spec fn deploy_form_of(pre: AppView) -> DeployFormView {
    pre.deploy_form->Some_0
}

/// The state with the deploy form replaced.
pub open spec fn with_deploy_form(pre: AppView, f: DeployFormView) -> AppView {
    AppView { deploy_form: Some(f), ..pre }
}

/// The effect of a key in the deploy overlay.
pub open spec fn deploy_key(pre: AppView, key: Key) -> (AppView, ActionView) {
    if pre.deploy_in_progress {
        if key == Key::Esc {
            (AppView { deploy_in_progress: false, ..pre }, ActionView::CloseOverlay)
        } else {
            (pre, ActionView::Nothing)
        }
    } else if pre.deploy_form is None {
        (pre, ActionView::CloseOverlay)
    } else {
        let f = deploy_form_of(pre);
        let n = f.cf_accounts.len();
        match key {
            Key::Esc => (pre, ActionView::CloseOverlay),
            Key::Tab | Key::Down | Key::Up => (
                with_deploy_form(pre, DeployFormView { focused_field: (f.focused_field + 1) % 2, ..f }),
                ActionView::Nothing,
            ),
            Key::Left => (
                if f.focused_field == 0 && n > 0 {
                    with_deploy_form(
                        pre,
                        DeployFormView {
                            selected_account: ((f.selected_account + n - 1) % (n as int)) as nat,
                            ..f
                        },
                    )
                } else {
                    pre
                },
                ActionView::Nothing,
            ),
            Key::Right => (
                if f.focused_field == 0 && n > 0 {
                    with_deploy_form(pre, DeployFormView { selected_account: (f.selected_account + 1) % n, ..f })
                } else {
                    pre
                },
                ActionView::Nothing,
            ),
            Key::Char(c) => (
                with_deploy_form(
                    pre,
                    if f.focused_field == 0 {
                        DeployFormView { worker_name: f.worker_name.push(c), ..f }
                    } else {
                        DeployFormView { auth_token: f.auth_token.push(c), ..f }
                    },
                ),
                ActionView::Nothing,
            ),
            Key::Backspace => (
                with_deploy_form(
                    pre,
                    if f.focused_field == 0 {
                        DeployFormView { worker_name: drop_last_char(f.worker_name), ..f }
                    } else {
                        DeployFormView { auth_token: drop_last_char(f.auth_token), ..f }
                    },
                ),
                ActionView::Nothing,
            ),
            Key::Enter => if f.worker_name.len() == 0 {
                (
                    with_deploy_form(pre, DeployFormView { status_message: Some(msg_name_required()), ..f }),
                    ActionView::Nothing,
                )
            } else {
                match account_at(f.cf_accounts, f.selected_account as int) {
                    None => (
                        with_deploy_form(pre, DeployFormView { status_message: Some(msg_no_account()), ..f }),
                        ActionView::Nothing,
                    ),
                    Some(a) => (
                        pre,
                        ActionView::DeployWorker {
                            worker_name: f.worker_name,
                            account_id: a.account_id,
                            api_token: a.api_token,
                            auth_token: if f.auth_token.len() == 0 {
                                None
                            } else {
                                Some(f.auth_token)
                            },
                        },
                    ),
                }
            },
            _ => (pre, ActionView::Nothing),
        }
    }
}

/// A string without its last character (unchanged when empty).
pub open spec fn drop_last_char(s: Seq<char>) -> Seq<char> {
    if s.len() == 0 {
        s
    } else {
        s.drop_last()
    }
}

/// Removes the last character of a string, if any.
fn pop_char(s: &mut String)
    ensures
        final(s)@ == drop_last_char(old(s)@),
{
    let _ = crate::text::string_pop(s);
}

/// Handles a key in the deploy overlay.
fn handle_deploy_key(app: &mut App, key: Key) -> (res: Action)
    requires
        old(app)@.wf(),
    ensures
        (final(app)@, res@) == deploy_key(old(app)@, key),
        final(app)@.wf(),
        action_fits(final(app)@, res@),
{
    if app.deploy_in_progress {
        if key == Key::Esc {
            app.deploy_in_progress = false;
            return Action::CloseOverlay;
        }
        return Action::Nothing;
    }
    let ghost pre = app@;
    match &mut app.deploy_form {
        None => Action::CloseOverlay,
        Some(form) => {
            let n = form.cf_accounts.len();
            match key {
                Key::Esc => Action::CloseOverlay,
                Key::Tab | Key::Down | Key::Up => {
                    form.focused_field = (form.focused_field + 1) % 2;
                    Action::Nothing
                },
                Key::Left => {
                    if form.focused_field == 0 && n > 0 {
                        form.selected_account = crate::text::wrap_prev(form.selected_account, n);
                    }
                    Action::Nothing
                },
                Key::Right => {
                    if form.focused_field == 0 && n > 0 {
                        form.selected_account = crate::text::wrap_next(form.selected_account, n);
                    }
                    Action::Nothing
                },
                Key::Char(c) => {
                    if form.focused_field == 0 {
                        crate::text::string_push(&mut form.worker_name, c);
                    } else {
                        crate::text::string_push(&mut form.auth_token, c);
                    }
                    Action::Nothing
                },
                Key::Backspace => {
                    if form.focused_field == 0 {
                        pop_char(&mut form.worker_name);
                    } else {
                        pop_char(&mut form.auth_token);
                    }
                    Action::Nothing
                },
                Key::Enter => {
                    if crate::text::is_empty_string(&form.worker_name) {
                        form.status_message = Some(crate::text::owned("Worker name is required"));
                        return Action::Nothing;
                    }
                    let account = match form.active_account() {
                        Some(a) => a.clone(),
                        None => {
                            form.status_message = Some(
                                crate::text::owned("No CF account configured -- add to cloudflare.json"),
                            );
                            return Action::Nothing;
                        },
                    };
                    let auth_token = if crate::text::is_empty_string(&form.auth_token) {
                        None
                    } else {
                        Some(form.auth_token.clone())
                    };
                    Action::DeployWorker {
                        worker_name: form.worker_name.clone(),
                        account_id: account.account_id,
                        api_token: account.api_token,
                        auth_token,
                    }
                },
                _ => Action::Nothing,
            }
        },
    }
}

} // verus!

verus! {

/// The state with the new-tunnel form replaced.
pub open spec fn with_new_tunnel_form(pre: AppView, f: NewTunnelFormView) -> AppView {
    AppView { new_tunnel_form: f, ..pre }
}

/// The tunnel that the new-tunnel form describes, on port `port`: through
/// the selected profile, to the given host (`localhost` when empty), named
/// when a name was typed, with `token` for a TCP tunnel.
pub open spec fn form_tunnel_view(pre: AppView, port: u16, token: Seq<char>) -> TunnelConfigView {
    let f = pre.new_tunnel_form;
    let p = pre.settings.profiles[f.profile_idx as int];
    TunnelConfigView {
        endpoint: p.endpoint,
        auth_token: token_or_empty(p.auth_token),
        tunnel_type: option_tunnel_type(f.tunnel_type),
        local_addr: local_addr_view(if f.host.len() == 0 { "localhost"@ } else { f.host }, port),
        name: if f.name.len() == 0 { None } else { Some(f.name) },
        tcp_token: if f.tunnel_type == TunnelTypeOption::Tcp { Some(token) } else { None },
    }
}

/// The effect of a key in the new-tunnel form; `token` is the random token
/// a TCP tunnel gets.
pub open spec fn new_tunnel_key(pre: AppView, key: Key, token: Seq<char>) -> (AppView, ActionView) {
    let f = pre.new_tunnel_form;
    let count = pre.settings.profiles.len();
    match key {
        Key::Esc => (pre, ActionView::CloseOverlay),
        Key::Down => (
            with_new_tunnel_form(pre, NewTunnelFormView { focused_field: (f.focused_field + 1) % 5, ..f }),
            ActionView::Nothing,
        ),
        Key::Up => (
            with_new_tunnel_form(pre, NewTunnelFormView { focused_field: (f.focused_field + 4) % 5, ..f }),
            ActionView::Nothing,
        ),
        Key::Left => (
            if f.focused_field == 0 {
                with_new_tunnel_form(
                    pre,
                    NewTunnelFormView {
                        profile_idx: ((f.profile_idx + count - 1) % (count as int)) as nat,
                        ..f
                    },
                )
            } else if f.focused_field == 1 {
                with_new_tunnel_form(pre, NewTunnelFormView { tunnel_type: type_prev(f.tunnel_type), ..f })
            } else {
                pre
            },
            ActionView::Nothing,
        ),
        Key::Right => (
            if f.focused_field == 0 {
                with_new_tunnel_form(pre, NewTunnelFormView { profile_idx: (f.profile_idx + 1) % count, ..f })
            } else if f.focused_field == 1 {
                with_new_tunnel_form(pre, NewTunnelFormView { tunnel_type: type_next(f.tunnel_type), ..f })
            } else {
                pre
            },
            ActionView::Nothing,
        ),
        Key::Char(c) => (
            if f.focused_field == 2 && is_digit(c) {
                with_new_tunnel_form(pre, NewTunnelFormView { port: f.port.push(c), ..f })
            } else if f.focused_field == 3 && c != '/' {
                with_new_tunnel_form(pre, NewTunnelFormView { name: f.name.push(c), ..f })
            } else if f.focused_field == 4 {
                with_new_tunnel_form(pre, NewTunnelFormView { host: f.host.push(c), ..f })
            } else {
                pre
            },
            ActionView::Nothing,
        ),
        Key::Backspace => (
            if f.focused_field == 2 {
                with_new_tunnel_form(pre, NewTunnelFormView { port: drop_last_char(f.port), ..f })
            } else if f.focused_field == 3 {
                with_new_tunnel_form(pre, NewTunnelFormView { name: drop_last_char(f.name), ..f })
            } else if f.focused_field == 4 {
                with_new_tunnel_form(pre, NewTunnelFormView { host: drop_last_char(f.host), ..f })
            } else {
                pre
            },
            ActionView::Nothing,
        ),
        Key::Enter => match parse_u16(f.port) {
            Some(port) => if port > 0 {
                (
                    pre,
                    ActionView::SpawnTunnel(
                        form_tunnel_view(pre, port, token),
                        pre.settings.profiles[f.profile_idx as int].name,
                    ),
                )
            } else {
                (pre, ActionView::Nothing)
            },
            None => (pre, ActionView::Nothing),
        },
        _ => (pre, ActionView::Nothing),
    }
}

/// Some TCP token exists (the one of sixteen zero bytes).
proof fn lemma_token_exists() -> (t: Seq<char>)
    ensures
        is_tcp_token(t),
{
    let bs = Seq::new(16, |i: int| 0u8);
    let t = crate::text::hex_bytes(bs);
    assert(bs.len() == 16 && t == crate::text::hex_bytes(bs));
    t
}

/// Handles a key in the new-tunnel form.
fn handle_new_tunnel_key(app: &mut App, key: Key) -> (res: Action)
    requires
        old(app)@.wf(),
        old(app)@.overlay_ready(Overlay::NewTunnel),
    ensures
        exists|token: Seq<char>|
            is_tcp_token(token) && (final(app)@, res@) == new_tunnel_key(old(app)@, key, token),
        final(app)@.wf(),
        action_fits(final(app)@, res@),
{
    let ghost pre = app@;
    let ghost mut token = lemma_token_exists();
    let profile_count = app.settings.profiles.len();
    let form = &mut app.new_tunnel_form;
    let res = match key {
        Key::Esc => Action::CloseOverlay,
        Key::Down => {
            form.focus_next();
            Action::Nothing
        },
        Key::Up => {
            form.focus_prev();
            Action::Nothing
        },
        Key::Left => {
            if form.focused_field == 0 {
                form.profile_idx = crate::text::wrap_prev(form.profile_idx, profile_count);
            } else if form.focused_field == 1 {
                form.tunnel_type = form.tunnel_type.prev();
            }
            Action::Nothing
        },
        Key::Right => {
            if form.focused_field == 0 {
                form.profile_idx = crate::text::wrap_next(form.profile_idx, profile_count);
            } else if form.focused_field == 1 {
                form.tunnel_type = form.tunnel_type.next();
            }
            Action::Nothing
        },
        Key::Char(c) => {
            if form.focused_field == 2 {
                if crate::text::char_is_digit(c) {
                    crate::text::string_push(&mut form.port, c);
                }
            } else if form.focused_field == 3 {
                if c != '/' {
                    crate::text::string_push(&mut form.name, c);
                }
            } else if form.focused_field == 4 {
                crate::text::string_push(&mut form.host, c);
            }
            Action::Nothing
        },
        Key::Backspace => {
            if form.focused_field == 2 {
                pop_char(&mut form.port);
            } else if form.focused_field == 3 {
                pop_char(&mut form.name);
            } else if form.focused_field == 4 {
                pop_char(&mut form.host);
            }
            Action::Nothing
        },
        Key::Enter => {
            let port = match crate::text::parse_u16_str(form.port.as_str()) {
                Some(p) => p,
                None => {
                    return Action::Nothing;
                },
            };
            if port == 0 {
                return Action::Nothing;
            }
            let host = if crate::text::is_empty_string(&form.host) {
                crate::text::owned("localhost")
            } else {
                form.host.clone()
            };
            let name = if crate::text::is_empty_string(&form.name) {
                None
            } else {
                Some(form.name.clone())
            };
            let tcp_token = if form.tunnel_type == TunnelTypeOption::Tcp {
                let t = crate::tunnel::generate_tcp_token();
                proof {
                    token = t@;
                }
                Some(t)
            } else {
                None
            };
            let tunnel_type = form.tunnel_type.tunnel_type();
            let profile = &app.settings.profiles[app.new_tunnel_form.profile_idx];
            let config = TunnelConfig::for_profile(profile, tunnel_type, host.as_str(), port, name, tcp_token);
            Action::SpawnTunnel(config, profile.name.clone())
        },
        _ => Action::Nothing,
    };
    assert(is_tcp_token(token) && (app@, res@) == new_tunnel_key(pre, key, token));
    res
}

} // verus!

verus! {

/// The state with the settings form replaced.
pub open spec fn with_settings_form(pre: AppView, f: SettingsFormView) -> AppView {
    AppView { settings_form: Some(f), ..pre }
}

/// Field `idx` of `fields` with its value changed by `g` (no change when
/// there is no such field).
pub open spec fn edit_field(fields: FieldsView, idx: int, v: Seq<char>) -> FieldsView {
    if 0 <= idx < fields.len() {
        fields.update(idx, (fields[idx].0, v))
    } else {
        fields
    }
}

/// The value of field `idx`, or empty.
pub open spec fn value_at(fields: FieldsView, idx: int) -> Seq<char> {
    if 0 <= idx < fields.len() {
        fields[idx].1
    } else {
        Seq::empty()
    }
}

/// The settings form after typing `c` (or, with `c` absent, a backspace)
/// in the focused field.
pub open spec fn settings_typed(f: SettingsFormView, c: Option<char>) -> SettingsFormView {
    let edit = |v: Seq<char>|
        match c {
            Some(c) => v.push(c),
            None => drop_last_char(v),
        };
    if 1 <= f.focused_field < 5 {
        let i = f.focused_field - 1;
        SettingsFormView {
            profile_fields: edit_field(f.profile_fields, i, edit(value_at(f.profile_fields, i))),
            ..f
        }
    } else if 6 <= f.focused_field < 9 {
        let i = f.focused_field - 6;
        SettingsFormView { cf_fields: edit_field(f.cf_fields, i, edit(value_at(f.cf_fields, i))), ..f }
    } else {
        f
    }
}

/// The settings form showing profile `pi`, which becomes the active one.
pub open spec fn settings_on_profile(pre: AppView, f: SettingsFormView, pi: nat) -> AppView {
    AppView {
        settings_form: Some(
            SettingsFormView {
                profile_idx: pi,
                profile_fields: profile_fields_view(pre.settings.profiles[pi as int]),
                ..f
            },
        ),
        settings: SettingsView { active_idx: pi, ..pre.settings },
        ..pre
    }
}

/// The settings form showing account `ci`.
pub open spec fn settings_on_account(f: SettingsFormView, ci: nat) -> SettingsFormView {
    SettingsFormView {
        cf_account_idx: ci,
        cf_fields: cf_fields_view(account_at(f.cf_accounts, ci as int)),
        ..f
    }
}

/// The accounts of the form after confirming the account fields: the
/// described account replaces the selected one, or is added (and
/// selected) when the index is past the end.
pub open spec fn settings_cf_saved(f: SettingsFormView) -> SettingsFormView {
    match account_from_fields(f.cf_accounts, f.cf_fields) {
        Some(a) => if f.cf_account_idx < f.cf_accounts.len() {
            SettingsFormView { cf_accounts: f.cf_accounts.update(f.cf_account_idx as int, a), ..f }
        } else {
            SettingsFormView {
                cf_accounts: f.cf_accounts.push(a),
                cf_account_idx: f.cf_accounts.len(),
                ..f
            }
        },
        None => f,
    }
}

/// The effect of a key in the settings overlay.
pub open spec fn settings_key(pre: AppView, key: Key) -> (AppView, ActionView) {
    if pre.settings_form is None {
        (pre, ActionView::CloseOverlay)
    } else {
        let f = pre.settings_form->Some_0;
        let count = pre.settings.profiles.len();
        let n = f.cf_accounts.len();
        let ff = f.focused_field;
        let on_field = (1 <= ff < 5) || (6 <= ff < 9);
        match key {
            Key::Esc => if f.editing {
                (with_settings_form(pre, SettingsFormView { editing: false, ..f }), ActionView::Nothing)
            } else {
                (AppView { settings_form: None, ..pre }, ActionView::CloseOverlay)
            },
            Key::Down => if f.editing {
                (pre, ActionView::Nothing)
            } else {
                (with_settings_form(pre, SettingsFormView { focused_field: (ff + 1) % 9, ..f }), ActionView::Nothing)
            },
            Key::Up => if f.editing {
                (pre, ActionView::Nothing)
            } else {
                (with_settings_form(pre, SettingsFormView { focused_field: (ff + 8) % 9, ..f }), ActionView::Nothing)
            },
            Key::Left => if f.editing {
                (pre, ActionView::Nothing)
            } else if ff == 0 {
                (
                    settings_on_profile(pre, f, ((f.profile_idx + count - 1) % (count as int)) as nat),
                    ActionView::SaveSettings,
                )
            } else if ff == 5 && n > 0 {
                (
                    with_settings_form(pre, settings_on_account(f, ((f.cf_account_idx + n - 1) % (n as int)) as nat)),
                    ActionView::Nothing,
                )
            } else {
                (pre, ActionView::Nothing)
            },
            Key::Right => if f.editing {
                (pre, ActionView::Nothing)
            } else if ff == 0 {
                (settings_on_profile(pre, f, (f.profile_idx + 1) % count), ActionView::SaveSettings)
            } else if ff == 5 && n > 0 {
                (
                    with_settings_form(pre, settings_on_account(f, (f.cf_account_idx + 1) % n)),
                    ActionView::Nothing,
                )
            } else {
                (pre, ActionView::Nothing)
            },
            Key::Enter => if f.editing {
                let f1 = SettingsFormView { editing: false, ..f };
                if 1 <= ff < 5 {
                    (
                        AppView {
                            settings_form: Some(f1),
                            settings: SettingsView {
                                profiles: pre.settings.profiles.update(
                                    f.profile_idx as int,
                                    profile_applied(f.profile_fields, pre.settings.profiles[f.profile_idx as int]),
                                ),
                                ..pre.settings
                            },
                            ..pre
                        },
                        ActionView::SaveSettings,
                    )
                } else if 6 <= ff < 9 {
                    (with_settings_form(pre, settings_cf_saved(f1)), ActionView::SaveCfAccounts)
                } else {
                    (with_settings_form(pre, f1), ActionView::Nothing)
                }
            } else if on_field {
                (with_settings_form(pre, SettingsFormView { editing: true, ..f }), ActionView::Nothing)
            } else {
                (pre, ActionView::Nothing)
            },
            Key::Char(c) => if f.editing {
                (with_settings_form(pre, settings_typed(f, Some(c))), ActionView::Nothing)
            } else {
                (pre, ActionView::Nothing)
            },
            Key::Backspace => if f.editing {
                (with_settings_form(pre, settings_typed(f, None)), ActionView::Nothing)
            } else {
                (pre, ActionView::Nothing)
            },
            _ => (pre, ActionView::Nothing),
        }
    }
}

/// Types `c` (or, with `c` absent, deletes a character) in field `idx`.
fn edit_field_at(fields: &mut Vec<(String, String)>, idx: usize, c: Option<char>)
    ensures
        final(fields).deep_view() == edit_field(
            old(fields).deep_view(),
            idx as int,
            match c {
                Some(c) => value_at(old(fields).deep_view(), idx as int).push(c),
                None => drop_last_char(value_at(old(fields).deep_view(), idx as int)),
            },
        ),
{
    if idx < fields.len() {
        let ghost pre = fields.deep_view();
        let pair = &mut fields[idx];
        match c {
            Some(c) => crate::text::string_push(&mut pair.1, c),
            None => pop_char(&mut pair.1),
        }
        assert(fields.deep_view() =~= edit_field(
            pre,
            idx as int,
            match c {
                Some(c) => value_at(pre, idx as int).push(c),
                None => drop_last_char(value_at(pre, idx as int)),
            },
        ));
    }
}

/// Writes the form's profile fields into the profile it shows.
fn apply_form_to_profile(form: &SettingsForm, settings: &mut Settings)
    requires
        form.profile_idx < old(settings).profiles.len(),
    ensures
        final(settings)@ == (SettingsView {
            profiles: old(settings)@.profiles.update(
                form.profile_idx as int,
                profile_applied(form@.profile_fields, old(settings)@.profiles[form.profile_idx as int]),
            ),
            ..old(settings)@
        }),
{
    let ghost pre = settings@;
    let pi = form.profile_idx;
    form.apply_to_profile(&mut settings.profiles[pi]);
    assert(settings@.profiles =~= pre.profiles.update(
        pi as int,
        profile_applied(form@.profile_fields, pre.profiles[pi as int]),
    ));
}

/// Confirms the account fields into the form's account list.
fn save_cf_fields(form: &mut SettingsForm)
    requires
        old(form).cf_account_idx <= old(form).cf_accounts.len(),
    ensures
        final(form)@ == settings_cf_saved(old(form)@),
{
    let ghost pre = form@;
    if let Some(updated) = form.apply_to_cf_account() {
        if form.cf_account_idx < form.cf_accounts.len() {
            form.cf_accounts.set(form.cf_account_idx, updated);
            assert(form@.cf_accounts =~= pre.cf_accounts.update(pre.cf_account_idx as int, updated@));
        } else {
            form.cf_accounts.push(updated);
            form.cf_account_idx = form.cf_accounts.len() - 1;
            assert(form@.cf_accounts =~= pre.cf_accounts.push(updated@));
        }
    }
}

/// Handles a key in the settings overlay.
fn handle_settings_key(app: &mut App, key: Key) -> (res: Action)
    requires
        old(app)@.wf(),
        old(app)@.overlay_ready(Overlay::Settings),
    ensures
        (final(app)@, res@) == settings_key(old(app)@, key),
        final(app)@.wf(),
        action_fits(final(app)@, res@),
{
    let ghost pre = app@;
    let count = app.settings.profiles.len();
    match &mut app.settings_form {
        None => Action::CloseOverlay,
        Some(form) => {
            let n = form.cf_accounts.len();
            match key {
                Key::Esc => {
                    if form.editing {
                        form.editing = false;
                        Action::Nothing
                    } else {
                        app.settings_form = None;
                        Action::CloseOverlay
                    }
                },
                Key::Down => {
                    if !form.editing {
                        form.focus_next();
                    }
                    Action::Nothing
                },
                Key::Up => {
                    if !form.editing {
                        form.focus_prev();
                    }
                    Action::Nothing
                },
                Key::Left => {
                    if form.editing {
                        Action::Nothing
                    } else if form.on_profile_selector() {
                        form.profile_idx = crate::text::wrap_prev(form.profile_idx, count);
                        form.load_profile(&app.settings.profiles[form.profile_idx]);
                        app.settings.switch_active(form.profile_idx);
                        Action::SaveSettings
                    } else if form.on_cf_selector() && n > 0 {
                        form.cf_account_idx = crate::text::wrap_prev(form.cf_account_idx, n);
                        form.load_cf_account();
                        Action::Nothing
                    } else {
                        Action::Nothing
                    }
                },
                Key::Right => {
                    if form.editing {
                        Action::Nothing
                    } else if form.on_profile_selector() {
                        form.profile_idx = crate::text::wrap_next(form.profile_idx, count);
                        form.load_profile(&app.settings.profiles[form.profile_idx]);
                        app.settings.switch_active(form.profile_idx);
                        Action::SaveSettings
                    } else if form.on_cf_selector() && n > 0 {
                        form.cf_account_idx = crate::text::wrap_next(form.cf_account_idx, n);
                        form.load_cf_account();
                        Action::Nothing
                    } else {
                        Action::Nothing
                    }
                },
                Key::Enter => {
                    if form.editing {
                        form.editing = false;
                        if form.on_profile_field() {
                            apply_form_to_profile(form, &mut app.settings);
                            Action::SaveSettings
                        } else if form.on_cf_field() {
                            save_cf_fields(form);
                            Action::SaveCfAccounts
                        } else {
                            Action::Nothing
                        }
                    } else if form.on_profile_field() || form.on_cf_field() {
                        form.editing = true;
                        Action::Nothing
                    } else {
                        Action::Nothing
                    }
                },
                Key::Char(c) => {
                    if form.editing {
                        if form.on_profile_field() {
                            let idx = form.profile_field_idx();
                            edit_field_at(&mut form.profile_fields, idx, Some(c));
                        } else if form.on_cf_field() {
                            let idx = form.cf_field_idx();
                            edit_field_at(&mut form.cf_fields, idx, Some(c));
                        }
                    }
                    Action::Nothing
                },
                Key::Backspace => {
                    if form.editing {
                        if form.on_profile_field() {
                            let idx = form.profile_field_idx();
                            edit_field_at(&mut form.profile_fields, idx, None);
                        } else if form.on_cf_field() {
                            let idx = form.cf_field_idx();
                            edit_field_at(&mut form.cf_fields, idx, None);
                        }
                    }
                    Action::Nothing
                },
                _ => Action::Nothing,
            }
        },
    }
}

} // verus!

verus! {

/// The active index after removing profile `removed`: the first profile
/// when the active one was removed, else the same profile.
pub open spec fn active_after_removal(active: nat, removed: nat) -> nat {
    if removed == active {
        0
    } else if active > removed {
        (active - 1) as nat
    } else {
        active
    }
}

/// The effect of a key in the profiles overlay.
pub open spec fn profiles_key(pre: AppView, key: Key) -> (AppView, ActionView) {
    let ps = pre.settings.profiles;
    let sel = pre.profiles_selected;
    match pre.new_profile_input {
        Some(input) => match key {
            Key::Esc => (AppView { new_profile_input: None, ..pre }, ActionView::Nothing),
            Key::Char(c) => (AppView { new_profile_input: Some(input.push(c)), ..pre }, ActionView::Nothing),
            Key::Backspace => (
                AppView { new_profile_input: Some(drop_last_char(input)), ..pre },
                ActionView::Nothing,
            ),
            Key::Enter => if input.len() > 0 && !has_named(ps, input) {
                (
                    AppView {
                        new_profile_input: None,
                        settings: SettingsView {
                            profiles: ps.push(new_profile_view(input, default_endpoint_view())),
                            ..pre.settings
                        },
                        profiles_selected: ps.len(),
                        ..pre
                    },
                    ActionView::SaveSettings,
                )
            } else {
                (AppView { new_profile_input: None, ..pre }, ActionView::Nothing)
            },
            _ => (pre, ActionView::Nothing),
        },
        None => match key {
            Key::Esc => (pre, ActionView::CloseOverlay),
            Key::Down => (AppView { profiles_selected: next_index(sel, ps.len()), ..pre }, ActionView::Nothing),
            Key::Up => (AppView { profiles_selected: prev_index(sel, ps.len()), ..pre }, ActionView::Nothing),
            Key::Enter => (pre, ActionView::SwitchProfile(sel)),
            Key::Char(c) => if c == 'j' {
                (AppView { profiles_selected: next_index(sel, ps.len()), ..pre }, ActionView::Nothing)
            } else if c == 'k' {
                (AppView { profiles_selected: prev_index(sel, ps.len()), ..pre }, ActionView::Nothing)
            } else if c == 'n' {
                (AppView { new_profile_input: Some(Seq::empty()), ..pre }, ActionView::Nothing)
            } else if c == 'd' {
                if ps.len() > 1 {
                    let new_len = (ps.len() - 1) as nat;
                    (
                        AppView {
                            settings: SettingsView {
                                profiles: ps.remove(sel as int),
                                active_idx: active_after_removal(pre.settings.active_idx, sel),
                            },
                            profiles_selected: if sel >= new_len { (new_len - 1) as nat } else { sel },
                            ..pre
                        },
                        ActionView::SaveSettings,
                    )
                } else {
                    (pre, ActionView::Nothing)
                }
            } else {
                (pre, ActionView::Nothing)
            },
            _ => (pre, ActionView::Nothing),
        },
    }
}

/// Handles a key in the profiles overlay. Where a profile is added or
/// removed, the action asks for the settings to be saved.
fn handle_profiles_key(app: &mut App, key: Key) -> (res: Action)
    requires
        old(app)@.wf(),
        old(app)@.overlay == Some(Overlay::Profiles),
    ensures
        (final(app)@, res@) == profiles_key(old(app)@, key),
        final(app)@.wf(),
        final(app)@.overlay_ready(Overlay::Profiles),
        action_fits(final(app)@, res@),
{
    let ghost pre = app@;
    let n = app.settings.profiles.len();
    if app.new_profile_input.is_some() {
        match key {
            Key::Esc => {
                app.new_profile_input = None;
                Action::Nothing
            },
            Key::Char(c) => {
                if let Some(input) = &mut app.new_profile_input {
                    crate::text::string_push(input, c);
                }
                Action::Nothing
            },
            Key::Backspace => {
                if let Some(input) = &mut app.new_profile_input {
                    pop_char(input);
                }
                Action::Nothing
            },
            Key::Enter => {
                let name = match app.new_profile_input.take() {
                    Some(s) => s,
                    None => String::new(),
                };
                if !crate::text::is_empty_string(&name)
                    && position_by_name(&app.settings.profiles, name.as_str()).is_none() {
                    let endpoint = default_endpoint();
                    app.settings.profiles.push(Profile::new(name.as_str(), endpoint.as_str()));
                    app.profiles_selected = app.settings.profiles.len() - 1;
                    assert(app@.settings.profiles =~= pre.settings.profiles.push(
                        new_profile_view(pre.new_profile_input->Some_0, default_endpoint_view()),
                    ));
                    Action::SaveSettings
                } else {
                    Action::Nothing
                }
            },
            _ => Action::Nothing,
        }
    } else {
        match key {
            Key::Esc => Action::CloseOverlay,
            Key::Down | Key::Char('j') => {
                app.profiles_selected = crate::text::wrap_next(app.profiles_selected, n);
                Action::Nothing
            },
            Key::Up | Key::Char('k') => {
                app.profiles_selected = crate::text::wrap_prev(app.profiles_selected, n);
                Action::Nothing
            },
            Key::Enter => Action::SwitchProfile(app.profiles_selected),
            Key::Char('n') => {
                app.new_profile_input = Some(String::new());
                Action::Nothing
            },
            Key::Char('d') => {
                if n > 1 {
                    let removed_idx = app.profiles_selected;
                    app.settings.profiles.remove(removed_idx);
                    if app.profiles_selected >= app.settings.profiles.len() {
                        app.profiles_selected = app.settings.profiles.len() - 1;
                    }
                    if removed_idx == app.settings.active_idx {
                        app.settings.active_idx = 0;
                    } else if app.settings.active_idx > removed_idx {
                        app.settings.active_idx = app.settings.active_idx - 1;
                    }
                    assert(app@.settings.profiles =~= pre.settings.profiles.remove(removed_idx as int));
                    Action::SaveSettings
                } else {
                    Action::Nothing
                }
            },
            _ => Action::Nothing,
        }
    }
}

/// A header slot that has a name.
pub open spec fn named_header(h: (Seq<char>, Seq<char>)) -> bool {
    h.0.len() > 0
}

/// The state with the endpoint test form replaced.
pub open spec fn with_test_form(pre: AppView, f: EndpointTestFormView) -> AppView {
    AppView { endpoint_test_form: Some(f), ..pre }
}

/// The endpoint test form after typing `c` (or, with `c` absent, a
/// backspace) in the focused cell.
pub open spec fn test_typed(f: EndpointTestFormView, c: Option<char>) -> EndpointTestFormView {
    let edit = |v: Seq<char>|
        match c {
            Some(c) => v.push(c),
            None => drop_last_char(v),
        };
    match f.header_at_focus() {
        Some((h, on_value)) => if h < f.headers.len() {
            let pair = f.headers[h as int];
            EndpointTestFormView {
                headers: f.headers.update(
                    h as int,
                    if on_value { (pair.0, edit(pair.1)) } else { (edit(pair.0), pair.1) },
                ),
                ..f
            }
        } else {
            f
        },
        None => if f.focused_field == 1 {
            EndpointTestFormView { path: edit(f.path), ..f }
        } else if f.focused_field == 2 {
            EndpointTestFormView { body: edit(f.body), ..f }
        } else {
            f
        },
    }
}

/// The effect of a key in the endpoint test overlay.
pub open spec fn endpoint_test_key(pre: AppView, key: Key) -> (AppView, ActionView) {
    if pre.endpoint_test_form is None {
        (pre, ActionView::CloseOverlay)
    } else {
        let f = pre.endpoint_test_form->Some_0;
        let ff = f.focused_field;
        if f.is_running {
            if key == Key::Esc {
                (AppView { endpoint_test_form: None, ..pre }, ActionView::CloseOverlay)
            } else {
                (pre, ActionView::Nothing)
            }
        } else {
            match key {
                Key::Esc => (AppView { endpoint_test_form: None, ..pre }, ActionView::CloseOverlay),
                Key::Down => (
                    with_test_form(pre, EndpointTestFormView { focused_field: (ff + 1) % f.total(), ..f }),
                    ActionView::Nothing,
                ),
                Key::Up => (
                    with_test_form(
                        pre,
                        EndpointTestFormView {
                            focused_field: ((ff + f.total() - 1) % (f.total() as int)) as nat,
                            ..f
                        },
                    ),
                    ActionView::Nothing,
                ),
                Key::Left => (
                    if ff == 0 {
                        with_test_form(
                            pre,
                            EndpointTestFormView { http_method_idx: (f.http_method_idx + 4) % 5, ..f },
                        )
                    } else {
                        pre
                    },
                    ActionView::Nothing,
                ),
                Key::Right => (
                    if ff == 0 {
                        with_test_form(
                            pre,
                            EndpointTestFormView { http_method_idx: (f.http_method_idx + 1) % 5, ..f },
                        )
                    } else {
                        pre
                    },
                    ActionView::Nothing,
                ),
                Key::Char(c) => (
                    if ff != 0 { with_test_form(pre, test_typed(f, Some(c))) } else { pre },
                    ActionView::Nothing,
                ),
                Key::Backspace => (
                    if ff != 0 { with_test_form(pre, test_typed(f, None)) } else { pre },
                    ActionView::Nothing,
                ),
                Key::Enter => (
                    with_test_form(pre, EndpointTestFormView { is_running: true, ..f }),
                    ActionView::RunEndpointTest {
                        tunnel_idx: pre.selected_tunnel,
                        method: method_name(f.http_method_idx),
                        path: f.path,
                        body: f.body,
                        headers: f.headers.filter(|h: (Seq<char>, Seq<char>)| named_header(h)),
                    },
                ),
                _ => (pre, ActionView::Nothing),
            }
        }
    }
}

/// The header slots that have a name, in order.
fn named_headers(headers: &Vec<(String, String)>) -> (res: Vec<(String, String)>)
    ensures
        res.deep_view() == headers.deep_view().filter(|h: (Seq<char>, Seq<char>)| named_header(h)),
{
    let ghost pred = |h: (Seq<char>, Seq<char>)| named_header(h);
    let mut res: Vec<(String, String)> = Vec::new();
    let mut i: usize = 0;
    while i < headers.len()
        invariant
            i <= headers.len(),
            pred == (|h: (Seq<char>, Seq<char>)| named_header(h)),
            res.deep_view() == headers.deep_view().take(i as int).filter(pred),
        decreases headers.len() - i,
    {
        let ghost before = res.deep_view();
        let ghost hv = headers.deep_view();
        let pair = &headers[i];
        if !crate::text::is_empty_string(&pair.0) {
            res.push((pair.0.clone(), pair.1.clone()));
        }
        proof {
            reveal_with_fuel(Seq::filter, 1);
            let t1 = hv.take(i as int + 1);
            assert(t1.drop_last() =~= hv.take(i as int));
            assert(t1.last() == hv[i as int]);
            assert(t1.len() > 0);
            assert(t1.filter(pred) == (if pred(t1.last()) {
                t1.drop_last().filter(pred).push(t1.last())
            } else {
                t1.drop_last().filter(pred)
            }));
            if named_header(hv[i as int]) {
                assert(res.deep_view() =~= before.push(hv[i as int]));
            } else {
                assert(res.deep_view() =~= before);
            }
        }
        i = i + 1;
    }
    assert(headers.deep_view().take(headers.len() as int) =~= headers.deep_view());
    res
}

/// Edits the header cell or text field under the focus.
fn test_type(form: &mut crate::tui::app::EndpointTestForm, c: Option<char>)
    ensures
        final(form)@ == test_typed(old(form)@, c),
{
    let ghost pre = form@;
    match form.focused_header() {
        Some((h, on_value)) => {
            if h < form.headers.len() {
                let pair = &mut form.headers[h];
                if on_value {
                    match c {
                        Some(c) => crate::text::string_push(&mut pair.1, c),
                        None => pop_char(&mut pair.1),
                    }
                } else {
                    match c {
                        Some(c) => crate::text::string_push(&mut pair.0, c),
                        None => pop_char(&mut pair.0),
                    }
                }
                assert(form@.headers =~= test_typed(pre, c).headers);
            }
        },
        None => {
            if form.focused_field == 1 {
                match c {
                    Some(c) => crate::text::string_push(&mut form.path, c),
                    None => pop_char(&mut form.path),
                }
            } else if form.focused_field == 2 {
                match c {
                    Some(c) => crate::text::string_push(&mut form.body, c),
                    None => pop_char(&mut form.body),
                }
            }
        },
    }
}

/// Handles a key in the endpoint test overlay.
fn handle_endpoint_test_key(app: &mut App, key: Key) -> (res: Action)
    requires
        old(app)@.wf(),
    ensures
        (final(app)@, res@) == endpoint_test_key(old(app)@, key),
        final(app)@.wf(),
        action_fits(final(app)@, res@),
{
    let sel = app.selected_tunnel;
    match &mut app.endpoint_test_form {
        None => Action::CloseOverlay,
        Some(form) => {
            if form.is_running {
                if key == Key::Esc {
                    app.endpoint_test_form = None;
                    return Action::CloseOverlay;
                }
                return Action::Nothing;
            }
            match key {
                Key::Esc => {
                    app.endpoint_test_form = None;
                    Action::CloseOverlay
                },
                Key::Down => {
                    form.focus_next();
                    Action::Nothing
                },
                Key::Up => {
                    form.focus_prev();
                    Action::Nothing
                },
                Key::Left => {
                    if form.focused_field == 0 {
                        form.http_method_idx = crate::text::wrap_prev(form.http_method_idx, HTTP_METHOD_COUNT);
                    }
                    Action::Nothing
                },
                Key::Right => {
                    if form.focused_field == 0 {
                        form.http_method_idx = crate::text::wrap_next(form.http_method_idx, HTTP_METHOD_COUNT);
                    }
                    Action::Nothing
                },
                Key::Char(c) => {
                    if form.focused_field != 0 {
                        test_type(form, Some(c));
                    }
                    Action::Nothing
                },
                Key::Backspace => {
                    if form.focused_field != 0 {
                        test_type(form, None);
                    }
                    Action::Nothing
                },
                Key::Enter => {
                    let method = crate::text::owned(form.method());
                    let path = form.path.clone();
                    let body = form.body.clone();
                    let headers = named_headers(&form.headers);
                    form.is_running = true;
                    Action::RunEndpointTest { tunnel_idx: sel, method, path, body, headers }
                },
                _ => Action::Nothing,
            }
        },
    }
}

} // verus!

verus! {

/// The effect of a key: the open overlay's handler, or the main view's.
/// `cf` are the stored Cloudflare accounts; `token` is the random token a
/// new TCP tunnel gets.
pub open spec fn key_step(pre: AppView, key: Key, cf: Seq<CfAccountView>, token: Seq<char>) -> (
    AppView,
    ActionView,
) {
    match pre.overlay {
        Some(Overlay::NewTunnel) => new_tunnel_key(pre, key, token),
        Some(Overlay::Settings) => settings_key(pre, key),
        Some(Overlay::Profiles) => profiles_key(pre, key),
        Some(Overlay::Deploy) => deploy_key(pre, key),
        Some(Overlay::EndpointTest) => endpoint_test_key(pre, key),
        Some(Overlay::TunnelManager) => tunnel_manager_key(pre, key),
        None => main_key(pre, key, cf),
    }
}

/// Handles one key: the open overlay gets it, else the main view. The
/// state keeps its invariant and the returned action can be carried out.
/// `cf_accounts` are the stored Cloudflare accounts, which the settings and
/// deploy overlays show.
pub fn handle_key(app: &mut App, key: Key, cf_accounts: &Vec<CfAccount>) -> (res: Action)
    requires
        old(app)@.wf(),
    ensures
        final(app)@.wf(),
        action_fits(final(app)@, res@),
        exists|token: Seq<char>|
            is_tcp_token(token) && (final(app)@, res@) == key_step(
                old(app)@,
                key,
                cf_accounts.deep_view(),
                token,
            ),
{
    let ghost pre = app@;
    let ghost w = lemma_token_exists();
    match app.overlay {
        Some(Overlay::NewTunnel) => handle_new_tunnel_key(app, key),
        Some(Overlay::Settings) => {
            let r = handle_settings_key(app, key);
            assert(is_tcp_token(w) && (app@, r@) == key_step(pre, key, cf_accounts.deep_view(), w));
            r
        },
        Some(Overlay::Profiles) => {
            let r = handle_profiles_key(app, key);
            assert(is_tcp_token(w) && (app@, r@) == key_step(pre, key, cf_accounts.deep_view(), w));
            r
        },
        Some(Overlay::Deploy) => {
            let r = handle_deploy_key(app, key);
            assert(is_tcp_token(w) && (app@, r@) == key_step(pre, key, cf_accounts.deep_view(), w));
            r
        },
        Some(Overlay::EndpointTest) => {
            let r = handle_endpoint_test_key(app, key);
            assert(is_tcp_token(w) && (app@, r@) == key_step(pre, key, cf_accounts.deep_view(), w));
            r
        },
        Some(Overlay::TunnelManager) => {
            let r = handle_tunnel_manager_key(app, key);
            assert(is_tcp_token(w) && (app@, r@) == key_step(pre, key, cf_accounts.deep_view(), w));
            r
        },
        None => {
            let r = handle_main_key(app, key, cf_accounts);
            assert(is_tcp_token(w) && (app@, r@) == key_step(pre, key, cf_accounts.deep_view(), w));
            r
        },
    }
}

} // verus!

verus! {

/// Removing a profile other than the active one keeps the same profile
/// active; removing the active one makes the first remaining profile
/// active. Either way the active index stays in range.
pub proof fn lemma_profile_removal_keeps_active(ps: Seq<ProfileView>, active: nat, removed: nat)
    requires
        active < ps.len(),
        removed < ps.len(),
        ps.len() > 1,
    ensures
        active_after_removal(active, removed) < ps.remove(removed as int).len(),
        removed != active ==> ps.remove(removed as int)[active_after_removal(active, removed) as int]
            == ps[active as int],
        removed == active ==> active_after_removal(active, removed) == 0,
{
}

/// `d` in the profiles overlay (no name being typed): with one profile
/// nothing changes; otherwise the selected profile is removed, the same
/// profile stays active unless it was the removed one (then the first is),
/// the selection stays in range, and the settings are to be saved. The
/// interface's key handler does exactly this while the overlay is open.
pub proof fn lemma_profile_delete_key(
    pre: AppView,
    cf: Seq<CfAccountView>,
    token: Seq<char>,
)
    requires
        pre.settings.wf(),
        pre.new_profile_input is None,
        pre.profiles_selected < pre.settings.profiles.len(),
    ensures
        ({
            let (post, a) = profiles_key(pre, Key::Char('d'));
            let ps = pre.settings.profiles;
            let n = ps.len();
            let i = pre.profiles_selected;
            let act = pre.settings.active_idx;
            &&& n == 1 ==> post == pre && a == ActionView::Nothing
            &&& n > 1 ==> {
                &&& post == (AppView {
                    settings: SettingsView {
                        profiles: ps.remove(i as int),
                        active_idx: active_after_removal(act, i),
                    },
                    profiles_selected: if i < n - 1 { i } else { (n - 2) as nat },
                    ..pre
                })
                &&& a == ActionView::SaveSettings
                &&& post.settings.wf()
                &&& post.profiles_selected < post.settings.profiles.len()
                &&& i != act ==> post.settings.active() == pre.settings.active()
            }
        }),
        pre.overlay == Some(Overlay::Profiles) ==> key_step(pre, Key::Char('d'), cf, token)
            == profiles_key(pre, Key::Char('d')),
{
    let ps = pre.settings.profiles;
    if ps.len() > 1 {
        lemma_profile_removal_keeps_active(ps, pre.settings.active_idx, pre.profiles_selected);
    }
}

/// What the event loop does with a key event before handling it.
#[derive(Debug, Clone, Copy, PartialEq, Eq, Structural)]
pub enum KeyVerdict {
    /// Drop it: a release or repeat, or the same key again too soon.
    Ignore,
    /// Ctrl+C: leave at once.
    Quit,
    /// Pass it to [`handle_key`].
    Handle,
}

/// Within this many milliseconds the same key again counts as a ghost repeat.
pub const KEY_DEBOUNCE_MS: u64 = 30;

/// The verdict on a key event: only presses count; the same key as the
/// last handled one within [`KEY_DEBOUNCE_MS`] is dropped; Ctrl+C quits.
pub open spec fn key_verdict_view(is_press: bool, same_key_after_ms: Option<u64>, ctrl_c: bool) -> KeyVerdict {
    if !is_press {
        KeyVerdict::Ignore
    } else if same_key_after_ms is Some && same_key_after_ms->0 < KEY_DEBOUNCE_MS {
        KeyVerdict::Ignore
    } else if ctrl_c {
        KeyVerdict::Quit
    } else {
        KeyVerdict::Handle
    }
}

/// Decides what to do with a key event. `same_key_after_ms` is, when the
/// key equals the last one handled, the milliseconds since it was.
pub fn key_verdict(is_press: bool, same_key_after_ms: Option<u64>, ctrl_c: bool) -> (res: KeyVerdict)
    ensures
        res == key_verdict_view(is_press, same_key_after_ms, ctrl_c),
{
    if !is_press {
        return KeyVerdict::Ignore;
    }
    match same_key_after_ms {
        Some(ms) => {
            if ms < KEY_DEBOUNCE_MS {
                return KeyVerdict::Ignore;
            }
        },
        None => {},
    }
    if ctrl_c {
        KeyVerdict::Quit
    } else {
        KeyVerdict::Handle
    }
}

/// Enter on the new-tunnel form with a valid port (a number from 1 to
/// 65535) starts a tunnel of the type the form shows (HTTP, HTTPS or TCP)
/// to `host:port` (`localhost` when no host is typed), through the chosen
/// profile's endpoint and auth token, under that profile's name; only a
/// TCP tunnel gets the token. The form and the rest of the state are kept.
pub proof fn lemma_new_tunnel_enter(
    pre: AppView,
    cf: Seq<CfAccountView>,
    token: Seq<char>,
    port: u16,
)
    requires
        pre.overlay == Some(Overlay::NewTunnel),
        pre.new_tunnel_form.profile_idx < pre.settings.profiles.len(),
        parse_u16(pre.new_tunnel_form.port) == Some(port),
        port > 0,
    ensures
        ({
            let (post, a) = key_step(pre, Key::Enter, cf, token);
            let f = pre.new_tunnel_form;
            let p = pre.settings.profiles[f.profile_idx as int];
            &&& post == pre
            &&& a is SpawnTunnel
            &&& a->SpawnTunnel_1 == p.name
            &&& {
                let c = a->SpawnTunnel_0;
                &&& (f.tunnel_type == TunnelTypeOption::Http ==> c.tunnel_type == TunnelType::Http)
                &&& (f.tunnel_type == TunnelTypeOption::Https ==> c.tunnel_type == TunnelType::Https)
                &&& (f.tunnel_type == TunnelTypeOption::Tcp ==> c.tunnel_type == TunnelType::Tcp)
                &&& c.tcp_token == (if f.tunnel_type == TunnelTypeOption::Tcp { Some(token) } else { None })
                &&& c.endpoint == p.endpoint
                &&& c.auth_token == (match p.auth_token { Some(t) => t, None => Seq::empty() })
                &&& c.local_addr == (if f.host.len() == 0 { "localhost"@ } else { f.host }) + seq![':']
                    + crate::text::decimal(port as nat)
                &&& c.name == (if f.name.len() == 0 { None } else { Some(f.name) })
            }
        }),
{
}

/// Confirming an edited account field in the settings overlay while the
/// form's account index names an existing account replaces exactly that
/// account with the one the fields describe (name, id, token from the three
/// fields), keeps the number of accounts and the index, and asks for the
/// accounts to be saved.
pub proof fn lemma_settings_account_replaced(
    pre: AppView,
    cf: Seq<CfAccountView>,
    token: Seq<char>,
)
    requires
        pre.overlay == Some(Overlay::Settings),
        pre.settings_form is Some,
        pre.settings_form->Some_0.editing,
        6 <= pre.settings_form->Some_0.focused_field < 9,
        pre.settings_form->Some_0.cf_account_idx < pre.settings_form->Some_0.cf_accounts.len(),
    ensures
        ({
            let (post, a) = key_step(pre, Key::Enter, cf, token);
            let f = pre.settings_form->Some_0;
            let idx = f.cf_account_idx as int;
            let g = post.settings_form->Some_0;
            &&& a == ActionView::SaveCfAccounts
            &&& post.settings_form is Some
            &&& !g.editing
            &&& g.cf_account_idx == f.cf_account_idx
            &&& g.cf_accounts.len() == f.cf_accounts.len()
            &&& g.cf_accounts[idx] == (CfAccountView {
                name: crate::tui::app::field_value(f.cf_fields, 0),
                account_id: crate::tui::app::field_value(f.cf_fields, 1),
                api_token: crate::tui::app::field_value(f.cf_fields, 2),
            })
            &&& forall|j: int| 0 <= j < f.cf_accounts.len() && j != idx ==> #[trigger] g.cf_accounts[j]
                == f.cf_accounts[j]
            &&& post.settings == pre.settings
        }),
{
}

/// Enter in the deploy overlay, with a worker name typed and the selected
/// index naming an account, deploys that worker with the selected account's
/// id and API token, and the typed auth token (none when empty).
pub proof fn lemma_deploy_uses_selected_account(
    pre: AppView,
    cf: Seq<CfAccountView>,
    token: Seq<char>,
)
    requires
        pre.overlay == Some(Overlay::Deploy),
        !pre.deploy_in_progress,
        pre.deploy_form is Some,
        pre.deploy_form->Some_0.worker_name.len() > 0,
        pre.deploy_form->Some_0.selected_account < pre.deploy_form->Some_0.cf_accounts.len(),
    ensures
        ({
            let (post, a) = key_step(pre, Key::Enter, cf, token);
            let f = pre.deploy_form->Some_0;
            let acc = f.cf_accounts[f.selected_account as int];
            &&& post == pre
            &&& a == ActionView::DeployWorker {
                worker_name: f.worker_name,
                account_id: acc.account_id,
                api_token: acc.api_token,
                auth_token: if f.auth_token.len() == 0 { None } else { Some(f.auth_token) },
            }
        }),
{
}

/// Enter in the endpoint test overlay (no request running) sends the
/// form's method, path and body for the selected tunnel, with only header
/// slots that have a name, and marks the form as running; nothing else of
/// the form changes.
pub proof fn lemma_endpoint_test_sends_form(
    pre: AppView,
    cf: Seq<CfAccountView>,
    token: Seq<char>,
)
    requires
        pre.overlay == Some(Overlay::EndpointTest),
        pre.endpoint_test_form is Some,
        !pre.endpoint_test_form->Some_0.is_running,
    ensures
        ({
            let (post, a) = key_step(pre, Key::Enter, cf, token);
            let f = pre.endpoint_test_form->Some_0;
            &&& a is RunEndpointTest
            &&& a->RunEndpointTest_tunnel_idx == pre.selected_tunnel
            &&& a->RunEndpointTest_method == method_name(f.http_method_idx)
            &&& a->RunEndpointTest_path == f.path
            &&& a->RunEndpointTest_body == f.body
            &&& forall|i: int| 0 <= i < a->RunEndpointTest_headers.len()
                ==> (#[trigger] a->RunEndpointTest_headers[i]).0.len() > 0
            &&& forall|i: int| 0 <= i < f.headers.len() && (#[trigger] f.headers[i]).0.len() > 0
                ==> a->RunEndpointTest_headers.contains(f.headers[i])
            &&& post.endpoint_test_form == Some(EndpointTestFormView { is_running: true, ..f })
        }),
{
    let f = pre.endpoint_test_form->Some_0;
    let pred = |h: (Seq<char>, Seq<char>)| named_header(h);
    let hs = f.headers.filter(pred);
    assert forall|i: int| 0 <= i < hs.len() implies (#[trigger] hs[i]).0.len() > 0 by {
        f.headers.lemma_filter_contains_rev(pred, hs[i]);
    }
    assert forall|i: int| 0 <= i < f.headers.len() && (#[trigger] f.headers[i]).0.len() > 0 implies hs.contains(
        f.headers[i],
    ) by {
        f.headers.lemma_filter_contains(pred, i);
    }
}

/// In the tunnel manager (with at least one tunnel), `x` and Delete remove
/// the tunnel the manager highlights, whatever the main list selects, and
/// change nothing else.
pub proof fn lemma_manager_deletes_highlighted(
    pre: AppView,
    cf: Seq<CfAccountView>,
    token: Seq<char>,
)
    requires
        pre.overlay == Some(Overlay::TunnelManager),
        pre.tunnels.len() > 0,
    ensures
        key_step(pre, Key::Char('x'), cf, token) == (pre, ActionView::DeleteTunnel(pre.tunnel_manager_selected)),
        key_step(pre, Key::Delete, cf, token) == (pre, ActionView::DeleteTunnel(pre.tunnel_manager_selected)),
{
}

} // verus!
