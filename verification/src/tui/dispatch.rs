//! The decisions of the event loop: what an action does to the state and
//! which outside work (tasks, files, requests) it asks for, and what the
//! result of a deploy does.

use vstd::prelude::*;
use vstd::string::StringExecFns;
use crate::cloudflare_config::{CfAccount, CfAccountView};
use crate::config::{opt_view, with_token_and_endpoint, SettingsView};
use crate::text::owned;
use super::app::{
    clock_view, endpoint_test_form_view, is_clock, new_handle_view, restarted, selection_after_removal,
    stopped, App, AppView, DeployFormView, EndpointTestForm, FieldsView, Overlay, TunnelHandleView,
    TunnelStatus,
};
use super::events::{action_fits, with_tunnel, Action, ActionView};

verus! {

/// Outside work that the event loop carries out after an action.
#[derive(Debug)]
pub enum Effect {
    /// Nothing to do.
    Nothing,
    Quit,
    /// Start the task of the tunnel at this index (just added).
    StartTask(usize),
    /// Abort the task of the tunnel at this index and start it again.
    RestartTask(usize),
    /// Abort the task of the tunnel at this index.
    StopTask(usize),
    /// Abort the task of the tunnel at this index and forget it.
    RemoveTask(usize),
    /// Write the settings file.
    SaveSettings,
    /// Write the accounts file with these accounts.
    SaveCfAccounts(Vec<CfAccount>),
    /// Deploy the worker in the background.
    StartDeploy { account: CfAccount, worker_name: String, auth_token: Option<String> },
    /// Send a test request through the tunnel at `tunnel_idx`, whose public
    /// URL is `base_url`, and report the outcome on its event channel.
    SendTestRequest {
        tunnel_idx: usize,
        base_url: String,
        method: String,
        path: String,
        body: String,
        headers: Vec<(String, String)>,
    },
}

/// The mathematical content of an [`Effect`].
pub enum EffectView {
    Nothing,
    Quit,
    StartTask(nat),
    RestartTask(nat),
    StopTask(nat),
    RemoveTask(nat),
    SaveSettings,
    SaveCfAccounts(Seq<CfAccountView>),
    StartDeploy { account: CfAccountView, worker_name: Seq<char>, auth_token: Option<Seq<char>> },
    SendTestRequest {
        tunnel_idx: nat,
        base_url: Seq<char>,
        method: Seq<char>,
        path: Seq<char>,
        body: Seq<char>,
        headers: FieldsView,
    },
}

impl View for Effect {
    type V = EffectView;

    open spec fn view(&self) -> EffectView {
        match self {
            Effect::Nothing => EffectView::Nothing,
            Effect::Quit => EffectView::Quit,
            Effect::StartTask(i) => EffectView::StartTask(*i as nat),
            Effect::RestartTask(i) => EffectView::RestartTask(*i as nat),
            Effect::StopTask(i) => EffectView::StopTask(*i as nat),
            Effect::RemoveTask(i) => EffectView::RemoveTask(*i as nat),
            Effect::SaveSettings => EffectView::SaveSettings,
            Effect::SaveCfAccounts(a) => EffectView::SaveCfAccounts(a.deep_view()),
            Effect::StartDeploy { account, worker_name, auth_token } => EffectView::StartDeploy {
                account: account@,
                worker_name: worker_name@,
                auth_token: opt_view(*auth_token),
            },
            Effect::SendTestRequest { tunnel_idx, base_url, method, path, body, headers } => EffectView::SendTestRequest {
                tunnel_idx: *tunnel_idx as nat,
                base_url: base_url@,
                method: method@,
                path: path@,
                body: body@,
                headers: headers.deep_view(),
            },
        }
    }
}

/// The status shown while a deploy runs.
pub open spec fn msg_deploying() -> Seq<char> {
    "Deploying..."@
}

/// What an action does, with tunnel lifecycle lines logged at `now`.
pub open spec fn action_step(pre: AppView, a: ActionView, now: Seq<char>) -> (AppView, EffectView) {
    let n = pre.tunnels.len();
    match a {
        ActionView::Nothing => (pre, EffectView::Nothing),
        ActionView::Quit => (pre, EffectView::Quit),
        ActionView::OpenOverlay(o) => (AppView { overlay: Some(o), ..pre }, EffectView::Nothing),
        ActionView::CloseOverlay => (AppView { overlay: None, ..pre }, EffectView::Nothing),
        ActionView::SpawnTunnel(c, profile) => (
            AppView {
                tunnels: pre.tunnels.push(new_handle_view(c, TunnelStatus::Connecting, Some(profile))),
                selected_tunnel: n,
                overlay: None,
                ..pre
            },
            EffectView::StartTask(n),
        ),
        ActionView::StopTunnel(i) => if i < n {
            (with_tunnel(pre, i as int, stopped(pre.tunnels[i as int], now)), EffectView::StopTask(i))
        } else {
            (pre, EffectView::Nothing)
        },
        ActionView::StartTunnel(i) => if i < n {
            (with_tunnel(pre, i as int, restarted(pre.tunnels[i as int], now)), EffectView::RestartTask(i))
        } else {
            (pre, EffectView::Nothing)
        },
        ActionView::DeleteTunnel(i) => if i < n {
            (
                AppView {
                    tunnels: pre.tunnels.remove(i as int),
                    selected_tunnel: selection_after_removal(pre.selected_tunnel, (n - 1) as nat),
                    ..pre
                },
                EffectView::RemoveTask(i),
            )
        } else {
            (pre, EffectView::Nothing)
        },
        ActionView::SaveSettings => (pre, EffectView::SaveSettings),
        ActionView::SaveCfAccounts => match pre.settings_form {
            Some(f) => (pre, EffectView::SaveCfAccounts(f.cf_accounts)),
            None => (pre, EffectView::Nothing),
        },
        ActionView::SwitchProfile(i) => (
            AppView {
                settings: SettingsView {
                    active_idx: if i < pre.settings.profiles.len() {
                        i
                    } else {
                        pre.settings.active_idx
                    },
                    ..pre.settings
                },
                overlay: None,
                ..pre
            },
            EffectView::SaveSettings,
        ),
        ActionView::OpenEndpointTest(i) => (
            AppView {
                tunnels: if i < n {
                    pre.tunnels.update(i as int, TunnelHandleView { test_result: None, ..pre.tunnels[i as int] })
                } else {
                    pre.tunnels
                },
                endpoint_test_form: Some(endpoint_test_form_view()),
                overlay: Some(Overlay::EndpointTest),
                ..pre
            },
            EffectView::Nothing,
        ),
        ActionView::DeployWorker { worker_name, account_id, api_token, auth_token } => {
            let acc = CfAccountView { name: Seq::empty(), account_id, api_token };
            (
                AppView {
                    deploy_in_progress: true,
                    deploy_cf_account: Some(acc),
                    deploy_form: match pre.deploy_form {
                        Some(f) => Some(DeployFormView { status_message: Some(msg_deploying()), ..f }),
                        None => None,
                    },
                    ..pre
                },
                EffectView::StartDeploy { account: acc, worker_name, auth_token },
            )
        },
        ActionView::RunEndpointTest { tunnel_idx, method, path, body, headers } => if tunnel_idx < n
            && pre.tunnels[tunnel_idx as int].public_url is Some {
            (
                pre,
                EffectView::SendTestRequest {
                    tunnel_idx,
                    base_url: pre.tunnels[tunnel_idx as int].public_url->Some_0,
                    method,
                    path,
                    body,
                    headers,
                },
            )
        } else {
            (pre, EffectView::Nothing)
        },
    }
}

/// Some time of day can be shown (midnight).
proof fn lemma_clock_exists() -> (t: Seq<char>)
    ensures
        is_clock(t),
{
    let t = clock_view(0);
    assert(t == clock_view(0));
    t
}

/// Copies of the accounts.
fn clone_accounts(v: &Vec<CfAccount>) -> (res: Vec<CfAccount>)
    ensures
        res.deep_view() == v.deep_view(),
{
    let mut r: Vec<CfAccount> = Vec::new();
    let mut i: usize = 0;
    while i < v.len()
        invariant
            i <= v.len(),
            r.deep_view() =~= v.deep_view().subrange(0, i as int),
        decreases v.len() - i,
    {
        let c = v[i].clone();
        let ghost before = r.deep_view();
        r.push(c);
        assert(r.deep_view() =~= before.push(c@));
        assert(v.deep_view().subrange(0, i as int + 1) =~= v.deep_view().subrange(0, i as int).push(
            v.deep_view()[i as int],
        ));
        i = i + 1;
    }
    assert(v.deep_view().subrange(0, v.len() as int) =~= v.deep_view());
    r
}

impl App {
    /// Carries out the state part of an action and returns the outside
    /// work it needs. Lifecycle lines are logged with the current time.
    pub fn apply_action(&mut self, action: Action) -> (res: Effect)
        requires
            old(self)@.wf(),
            action_fits(old(self)@, action@),
        ensures
            final(self)@.wf(),
            exists|now: Seq<char>|
                is_clock(now) && (final(self)@, res@) == action_step(old(self)@, action@, now),
    {
        let ghost pre = self@;
        let ghost av = action@;
        let ghost mut now = lemma_clock_exists();
        let n = self.tunnels.len();
        let res = match action {
            Action::Nothing => Effect::Nothing,
            Action::Quit => Effect::Quit,
            Action::OpenOverlay(o) => {
                self.overlay = Some(o);
                Effect::Nothing
            },
            Action::CloseOverlay => {
                self.overlay = None;
                Effect::Nothing
            },
            Action::SpawnTunnel(config, profile) => {
                self.spawn_tunnel(config, Some(profile));
                self.overlay = None;
                Effect::StartTask(n)
            },
            Action::StopTunnel(i) => {
                if i < n {
                    self.stop_tunnel(i);
                    proof {
                        now = choose|t: Seq<char>|
                            is_clock(t) && self@ == (AppView {
                                tunnels: pre.tunnels.update(i as int, stopped(pre.tunnels[i as int], t)),
                                ..pre
                            });
                    }
                    Effect::StopTask(i)
                } else {
                    Effect::Nothing
                }
            },
            Action::StartTunnel(i) => {
                if i < n {
                    self.restart_tunnel(i);
                    proof {
                        now = choose|t: Seq<char>|
                            is_clock(t) && self@ == (AppView {
                                tunnels: pre.tunnels.update(i as int, restarted(pre.tunnels[i as int], t)),
                                ..pre
                            });
                    }
                    Effect::RestartTask(i)
                } else {
                    Effect::Nothing
                }
            },
            Action::DeleteTunnel(i) => {
                if i < n {
                    self.delete_tunnel(i);
                    Effect::RemoveTask(i)
                } else {
                    Effect::Nothing
                }
            },
            Action::SaveSettings => Effect::SaveSettings,
            Action::SaveCfAccounts => match &self.settings_form {
                Some(f) => Effect::SaveCfAccounts(clone_accounts(&f.cf_accounts)),
                None => Effect::Nothing,
            },
            Action::SwitchProfile(i) => {
                self.switch_profile(i);
                self.overlay = None;
                Effect::SaveSettings
            },
            Action::OpenEndpointTest(i) => {
                if i < n {
                    let t = &mut self.tunnels[i];
                    t.test_result = None;
                    assert(self@.tunnels =~= pre.tunnels.update(
                        i as int,
                        TunnelHandleView { test_result: None, ..pre.tunnels[i as int] },
                    ));
                }
                self.endpoint_test_form = Some(EndpointTestForm::new());
                self.overlay = Some(Overlay::EndpointTest);
                Effect::Nothing
            },
            Action::DeployWorker { worker_name, account_id, api_token, auth_token } => {
                let account = CfAccount { name: String::new(), account_id, api_token };
                self.deploy_in_progress = true;
                self.deploy_cf_account = Some(account.clone());
                if let Some(form) = &mut self.deploy_form {
                    form.status_message = Some(owned("Deploying..."));
                }
                Effect::StartDeploy { account, worker_name, auth_token }
            },
            Action::RunEndpointTest { tunnel_idx, method, path, body, headers } => {
                if tunnel_idx < n {
                    match &self.tunnels[tunnel_idx].public_url {
                        Some(url) => Effect::SendTestRequest {
                            tunnel_idx,
                            base_url: url.clone(),
                            method,
                            path,
                            body,
                            headers,
                        },
                        None => Effect::Nothing,
                    }
                } else {
                    Effect::Nothing
                }
            },
        };
        assert(is_clock(now) && (self@, res@) == action_step(pre, av, now));
        res
    }
}

/// How a deploy ended.
#[derive(Debug)]
pub enum DeployOutcome {
    /// Deployed; the worker's public URL.
    Deployed(String),
    /// Failed with this message.
    Failed(String),
    /// The deploy task went away without a result.
    Lost,
}

/// The mathematical content of a [`DeployOutcome`].
pub enum DeployOutcomeView {
    Deployed(Seq<char>),
    Failed(Seq<char>),
    Lost,
}

impl View for DeployOutcome {
    type V = DeployOutcomeView;

    open spec fn view(&self) -> DeployOutcomeView {
        match self {
            DeployOutcome::Deployed(u) => DeployOutcomeView::Deployed(u@),
            DeployOutcome::Failed(m) => DeployOutcomeView::Failed(m@),
            DeployOutcome::Lost => DeployOutcomeView::Lost,
        }
    }
}

/// Outside work after a deploy ended.
#[derive(Debug)]
pub struct DeployFollowUp {
    /// Write the settings file.
    pub save_settings: bool,
    /// Merge this account into the accounts file (`upsert_account`).
    pub upsert_account: Option<CfAccount>,
}

/// The auth token typed in the deploy form, if any.
pub open spec fn deploy_form_token(pre: AppView) -> Option<Seq<char>> {
    match pre.deploy_form {
        Some(f) => if f.auth_token.len() == 0 {
            None
        } else {
            Some(f.auth_token)
        },
        None => None,
    }
}

/// What the end of a deploy does: on success the active profile points at
/// the worker (and takes the typed auth token), the settings are saved,
/// the account used is merged into the accounts file and the overlay
/// closes; on failure the form shows the message.
pub open spec fn deploy_finished(pre: AppView, o: DeployOutcomeView) -> (AppView, Option<CfAccountView>, bool) {
    match o {
        DeployOutcomeView::Deployed(url) => (
            AppView {
                settings: SettingsView {
                    profiles: pre.settings.profiles.update(
                        pre.settings.active_idx as int,
                        with_token_and_endpoint(pre.settings.active(), deploy_form_token(pre), Some(url)),
                    ),
                    ..pre.settings
                },
                deploy_cf_account: None,
                deploy_in_progress: false,
                overlay: None,
                ..pre
            },
            pre.deploy_cf_account,
            true,
        ),
        DeployOutcomeView::Failed(msg) => (
            AppView {
                deploy_form: match pre.deploy_form {
                    Some(f) => Some(DeployFormView { status_message: Some("Deploy failed: "@ + msg), ..f }),
                    None => None,
                },
                deploy_in_progress: false,
                ..pre
            },
            None,
            false,
        ),
        DeployOutcomeView::Lost => (AppView { deploy_in_progress: false, ..pre }, None, false),
    }
}

impl App {
    /// Takes in the end of a deploy and returns the outside work it needs.
    pub fn finish_deploy(&mut self, outcome: DeployOutcome) -> (res: DeployFollowUp)
        requires
            old(self)@.wf(),
        ensures
            final(self)@.wf(),
            ({
                let (post, acc, save) = deploy_finished(old(self)@, outcome@);
                &&& final(self)@ == post
                &&& res.save_settings == save
                &&& match res.upsert_account {
                    Some(a) => acc == Some(a@),
                    None => acc is None,
                }
            }),
    {
        match outcome {
            DeployOutcome::Deployed(url) => {
                let token = match &self.deploy_form {
                    Some(f) => if crate::text::is_empty_string(&f.auth_token) {
                        None
                    } else {
                        Some(f.auth_token.clone())
                    },
                    None => None,
                };
                self.settings.apply_deploy_result(url, token);
                let acc = self.deploy_cf_account.take();
                self.deploy_in_progress = false;
                self.overlay = None;
                DeployFollowUp { save_settings: true, upsert_account: acc }
            },
            DeployOutcome::Failed(msg) => {
                if let Some(form) = &mut self.deploy_form {
                    let mut m = owned("Deploy failed: ");
                    m.append(msg.as_str());
                    form.status_message = Some(m);
                }
                self.deploy_in_progress = false;
                DeployFollowUp { save_settings: false, upsert_account: None }
            },
            DeployOutcome::Lost => {
                self.deploy_in_progress = false;
                DeployFollowUp { save_settings: false, upsert_account: None }
            },
        }
    }

    /// While the endpoint test is open, a result for the selected tunnel
    /// ends the running state of the form.
    pub fn refresh_endpoint_test(&mut self)
        requires
            old(self)@.wf(),
        ensures
            final(self)@.wf(),
            final(self)@ == if old(self)@.overlay == Some(Overlay::EndpointTest)
                && old(self)@.selected_tunnel < old(self)@.tunnels.len()
                && old(self)@.tunnels[old(self)@.selected_tunnel as int].test_result is Some
                && old(self)@.endpoint_test_form is Some {
                AppView {
                    endpoint_test_form: Some(
                        crate::tui::app::EndpointTestFormView {
                            is_running: false,
                            ..old(self)@.endpoint_test_form->Some_0
                        },
                    ),
                    ..old(self)@
                }
            } else {
                old(self)@
            },
    {
        if self.overlay == Some(Overlay::EndpointTest) {
            let idx = self.selected_tunnel;
            if idx < self.tunnels.len() && self.tunnels[idx].test_result.is_some() {
                if let Some(form) = &mut self.endpoint_test_form {
                    form.is_running = false;
                }
            }
        }
    }
}

} // verus!
