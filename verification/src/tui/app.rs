//! The state of the terminal interface: tunnels with their logs, the open
//! overlay and the forms of the overlays.

use vstd::prelude::*;
use vstd::string::StringExecFns;
use crate::cloudflare_config::{CfAccount, CfAccountView};
use crate::config::{opt_view, Profile, ProfileView, Settings, SettingsView};
use crate::text::{
    decimal, is_empty_string, owned, pad_right, push_two_digits, two_digits,
};
use crate::tunnel::{token_or_empty, TunnelConfig, TunnelConfigView, TunnelType};

verus! {

/// Most log lines kept per tunnel; older lines are dropped first.
pub const MAX_LOG_LINES: usize = 1000;

/// Which panel has the keyboard.
#[derive(Debug, Clone, Copy, PartialEq, Eq, Structural)]
pub enum Focus {
    List,
    Logs,
}

/// A popup drawn over the panels.
#[derive(Debug, Clone, Copy, PartialEq, Eq, Structural)]
pub enum Overlay {
    NewTunnel,
    Settings,
    Profiles,
    Deploy,
    EndpointTest,
    TunnelManager,
}

/// Lifecycle of a tunnel.
#[derive(Debug, Clone, Copy, PartialEq, Eq, Structural)]
pub enum TunnelStatus {
    Connecting,
    Active,
    Stopped,
}

/// How a log line is decorated.
#[derive(Debug, Clone, Copy, PartialEq, Eq, Structural)]
pub enum LogStyle {
    /// Response coming back in.
    In,
    /// Request going out to the local service.
    Out,
    /// Error response.
    OutError,
    /// Information and lifecycle.
    System,
    /// Fatal error.
    Error,
}

/// One line of a tunnel's log.
#[derive(Debug)]
pub struct LogLine {
    pub timestamp: String,
    pub text: String,
    pub style: LogStyle,
}

/// The mathematical content of a [`LogLine`].
pub struct LogLineView {
    pub timestamp: Seq<char>,
    pub text: Seq<char>,
    pub style: LogStyle,
}

impl View for LogLine {
    type V = LogLineView;

    open spec fn view(&self) -> LogLineView {
        LogLineView { timestamp: self.timestamp@, text: self.text@, style: self.style }
    }
}

impl DeepView for LogLine {
    type V = LogLineView;

    open spec fn deep_view(&self) -> LogLineView {
        self@
    }
}

/// Tunnel type as chosen in the new-tunnel form.
#[derive(Debug, Clone, Copy, PartialEq, Eq, Structural)]
pub enum TunnelTypeOption {
    Http,
    Https,
    Tcp,
}

/// The label shown for a tunnel type.
pub open spec fn type_label(t: TunnelTypeOption) -> Seq<char> {
    match t {
        TunnelTypeOption::Http => "HTTP"@,
        TunnelTypeOption::Https => "HTTPS"@,
        TunnelTypeOption::Tcp => "TCP"@,
    }
}

/// The following option, cyclically: HTTP, HTTPS, TCP.
pub open spec fn type_next(t: TunnelTypeOption) -> TunnelTypeOption {
    match t {
        TunnelTypeOption::Http => TunnelTypeOption::Https,
        TunnelTypeOption::Https => TunnelTypeOption::Tcp,
        TunnelTypeOption::Tcp => TunnelTypeOption::Http,
    }
}

/// The preceding option, cyclically.
pub open spec fn type_prev(t: TunnelTypeOption) -> TunnelTypeOption {
    match t {
        TunnelTypeOption::Http => TunnelTypeOption::Tcp,
        TunnelTypeOption::Https => TunnelTypeOption::Http,
        TunnelTypeOption::Tcp => TunnelTypeOption::Https,
    }
}

/// The tunnel type an option stands for.
pub open spec fn option_tunnel_type(t: TunnelTypeOption) -> TunnelType {
    match t {
        TunnelTypeOption::Http => TunnelType::Http,
        TunnelTypeOption::Https => TunnelType::Https,
        TunnelTypeOption::Tcp => TunnelType::Tcp,
    }
}

impl TunnelTypeOption {
    /// `HTTP`, `HTTPS` or `TCP`.
    pub fn label(&self) -> (res: &'static str)
        ensures
            res@ == type_label(*self),
    {
        match self {
            TunnelTypeOption::Http => "HTTP",
            TunnelTypeOption::Https => "HTTPS",
            TunnelTypeOption::Tcp => "TCP",
        }
    }

    /// The next option, wrapping from TCP to HTTP.
    pub fn next(&self) -> (res: Self)
        ensures
            res == type_next(*self),
    {
        match self {
            TunnelTypeOption::Http => TunnelTypeOption::Https,
            TunnelTypeOption::Https => TunnelTypeOption::Tcp,
            TunnelTypeOption::Tcp => TunnelTypeOption::Http,
        }
    }

    /// The previous option, wrapping from HTTP to TCP.
    pub fn prev(&self) -> (res: Self)
        ensures
            res == type_prev(*self),
    {
        match self {
            TunnelTypeOption::Http => TunnelTypeOption::Tcp,
            TunnelTypeOption::Https => TunnelTypeOption::Http,
            TunnelTypeOption::Tcp => TunnelTypeOption::Https,
        }
    }

    /// The tunnel type this option stands for.
    pub fn tunnel_type(&self) -> (res: TunnelType)
        ensures
            res == option_tunnel_type(*self),
    {
        match self {
            TunnelTypeOption::Http => TunnelType::Http,
            TunnelTypeOption::Https => TunnelType::Https,
            TunnelTypeOption::Tcp => TunnelType::Tcp,
        }
    }
}

// -- New tunnel form --

/// Number of rows of the new-tunnel form: profile, type, port, name, host.
pub const NEW_TUNNEL_FIELD_COUNT: usize = 5;

/// The new-tunnel form.
#[derive(Debug)]
pub struct NewTunnelForm {
    /// Index into the settings' profiles.
    pub profile_idx: usize,
    pub tunnel_type: TunnelTypeOption,
    pub port: String,
    pub name: String,
    pub host: String,
    /// 0 profile, 1 type, 2 port, 3 name, 4 host.
    pub focused_field: usize,
}

/// The mathematical content of a [`NewTunnelForm`].
pub struct NewTunnelFormView {
    pub profile_idx: nat,
    pub tunnel_type: TunnelTypeOption,
    pub port: Seq<char>,
    pub name: Seq<char>,
    pub host: Seq<char>,
    pub focused_field: nat,
}

impl View for NewTunnelForm {
    type V = NewTunnelFormView;

    open spec fn view(&self) -> NewTunnelFormView {
        NewTunnelFormView {
            profile_idx: self.profile_idx as nat,
            tunnel_type: self.tunnel_type,
            port: self.port@,
            name: self.name@,
            host: self.host@,
            focused_field: self.focused_field as nat,
        }
    }
}

/// A fresh new-tunnel form on the given profile.
pub open spec fn new_tunnel_form_view(profile_idx: nat) -> NewTunnelFormView {
    NewTunnelFormView {
        profile_idx,
        tunnel_type: TunnelTypeOption::Http,
        port: Seq::empty(),
        name: Seq::empty(),
        host: "localhost"@,
        focused_field: 0,
    }
}

impl NewTunnelForm {
    /// An empty form on profile `active_idx`, type HTTP, host `localhost`,
    /// focus on the profile selector.
    pub fn new(active_idx: usize) -> (res: Self)
        ensures
            res@ == new_tunnel_form_view(active_idx as nat),
    {
        NewTunnelForm {
            profile_idx: active_idx,
            tunnel_type: TunnelTypeOption::Http,
            port: String::new(),
            name: String::new(),
            host: owned("localhost"),
            focused_field: 0,
        }
    }

    /// Moves the focus to the next row, wrapping to the first.
    pub fn focus_next(&mut self)
        ensures
            final(self)@ == (NewTunnelFormView {
                focused_field: ((old(self).focused_field + 1) % 5) as nat,
                ..old(self)@
            }),
    {
        self.focused_field = crate::text::wrap_next(self.focused_field, NEW_TUNNEL_FIELD_COUNT);
    }

    /// Moves the focus to the previous row, wrapping to the last.
    pub fn focus_prev(&mut self)
        ensures
            final(self)@ == (NewTunnelFormView {
                focused_field: ((old(self).focused_field + 4) % 5) as nat,
                ..old(self)@
            }),
    {
        self.focused_field = crate::text::wrap_prev(self.focused_field, NEW_TUNNEL_FIELD_COUNT);
    }
}

// -- Settings form --

/// Row of the Cloudflare account selector in the settings form.
pub const CF_SELECTOR_ROW: usize = 5;

/// First row of the Cloudflare account fields.
pub const CF_FIELDS_START: usize = 6;

/// Number of rows of the settings form: profile selector, four profile
/// fields, account selector, three account fields.
pub const SETTINGS_ROWS: usize = 9;

/// Labelled text fields, as `(label, value)`.
pub type FieldsView = Seq<(Seq<char>, Seq<char>)>;

/// The settings form: one profile and one Cloudflare account at a time.
#[derive(Debug)]
pub struct SettingsForm {
    pub profile_idx: usize,
    pub profile_fields: Vec<(String, String)>,
    pub cf_account_idx: usize,
    pub cf_accounts: Vec<CfAccount>,
    pub cf_fields: Vec<(String, String)>,
    pub focused_field: usize,
    pub editing: bool,
}

/// The mathematical content of a [`SettingsForm`].
pub struct SettingsFormView {
    pub profile_idx: nat,
    pub profile_fields: FieldsView,
    pub cf_account_idx: nat,
    pub cf_accounts: Seq<CfAccountView>,
    pub cf_fields: FieldsView,
    pub focused_field: nat,
    pub editing: bool,
}

impl View for SettingsForm {
    type V = SettingsFormView;

    open spec fn view(&self) -> SettingsFormView {
        SettingsFormView {
            profile_idx: self.profile_idx as nat,
            profile_fields: self.profile_fields.deep_view(),
            cf_account_idx: self.cf_account_idx as nat,
            cf_accounts: self.cf_accounts.deep_view(),
            cf_fields: self.cf_fields.deep_view(),
            focused_field: self.focused_field as nat,
            editing: self.editing,
        }
    }
}

impl DeepView for SettingsForm {
    type V = SettingsFormView;

    open spec fn deep_view(&self) -> SettingsFormView {
        self@
    }
}

/// The editable fields of a profile: name, endpoint, auth token, region.
pub open spec fn profile_fields_view(p: ProfileView) -> FieldsView {
    seq![
        ("Name"@, p.name),
        ("Endpoint"@, p.endpoint),
        ("Auth Token"@, token_or_empty(p.auth_token)),
        ("Region"@, p.default_region),
    ]
}

/// The editable fields of an account (all empty without one).
pub open spec fn cf_fields_view(a: Option<CfAccountView>) -> FieldsView {
    match a {
        Some(a) => seq![("Name"@, a.name), ("Account ID"@, a.account_id), ("API Token"@, a.api_token)],
        None => seq![
            ("Name"@, Seq::<char>::empty()),
            ("Account ID"@, Seq::<char>::empty()),
            ("API Token"@, Seq::<char>::empty()),
        ],
    }
}

/// The account at `i`, if there is one.
pub open spec fn account_at(accs: Seq<CfAccountView>, i: int) -> Option<CfAccountView> {
    if 0 <= i < accs.len() {
        Some(accs[i])
    } else {
        None
    }
}

/// The value of field `i`, or empty.
pub open spec fn field_value(fields: FieldsView, i: int) -> Seq<char> {
    if 0 <= i < fields.len() {
        fields[i].1
    } else {
        Seq::empty()
    }
}

/// A profile with the form's fields written into it: name, endpoint, auth
/// token (none when empty) and region, each only if the form has that field.
pub open spec fn profile_applied(fields: FieldsView, p: ProfileView) -> ProfileView {
    ProfileView {
        name: if fields.len() > 0 { fields[0].1 } else { p.name },
        endpoint: if fields.len() > 1 { fields[1].1 } else { p.endpoint },
        auth_token: if fields.len() > 2 {
            if fields[2].1.len() == 0 { None } else { Some(fields[2].1) }
        } else {
            p.auth_token
        },
        default_region: if fields.len() > 3 { fields[3].1 } else { p.default_region },
        ..p
    }
}

/// The account that the form's fields describe; none when there are no
/// accounts and every field is empty.
pub open spec fn account_from_fields(
    accs: Seq<CfAccountView>,
    fields: FieldsView,
) -> Option<CfAccountView> {
    if accs.len() == 0 && (forall|i: int| 0 <= i < fields.len() ==> (#[trigger] fields[i]).1.len() == 0) {
        None
    } else {
        Some(
            CfAccountView {
                name: field_value(fields, 0),
                account_id: field_value(fields, 1),
                api_token: field_value(fields, 2),
            },
        )
    }
}

/// A fresh settings form on profile `active` of `profiles`.
pub open spec fn settings_form_view(
    profiles: Seq<ProfileView>,
    active: nat,
    accs: Seq<CfAccountView>,
) -> SettingsFormView {
    SettingsFormView {
        profile_idx: active,
        profile_fields: profile_fields_view(profiles[active as int]),
        cf_account_idx: 0,
        cf_accounts: accs,
        cf_fields: cf_fields_view(account_at(accs, 0)),
        focused_field: 0,
        editing: false,
    }
}

/// A labelled field.
fn field(label: &str, value: String) -> (res: (String, String))
    ensures
        res.0@ == label@,
        res.1@ == value@,
{
    (owned(label), value)
}

impl SettingsForm {
    /// Row of the Cloudflare account selector.
    pub fn cf_selector_idx(&self) -> (res: usize)
        ensures
            res == CF_SELECTOR_ROW,
    {
        CF_SELECTOR_ROW
    }

    /// First row of an editable Cloudflare field.
    pub fn cf_fields_start(&self) -> (res: usize)
        ensures
            res == CF_FIELDS_START,
    {
        self.cf_selector_idx() + 1
    }

    /// Number of navigable rows.
    pub fn total_rows(&self) -> (res: usize)
        ensures
            res == SETTINGS_ROWS,
    {
        SETTINGS_ROWS
    }

    /// The focus is on the profile selector.
    pub fn on_profile_selector(&self) -> (res: bool)
        ensures
            res == (self.focused_field == 0),
    {
        self.focused_field == 0
    }

    /// The focus is on the account selector.
    pub fn on_cf_selector(&self) -> (res: bool)
        ensures
            res == (self.focused_field == CF_SELECTOR_ROW),
    {
        self.focused_field == self.cf_selector_idx()
    }

    /// The focus is on an editable profile field.
    pub fn on_profile_field(&self) -> (res: bool)
        ensures
            res == (1 <= self.focused_field < CF_SELECTOR_ROW),
    {
        self.focused_field >= 1 && self.focused_field < self.cf_selector_idx()
    }

    /// The focus is on an editable account field.
    pub fn on_cf_field(&self) -> (res: bool)
        ensures
            res == (CF_FIELDS_START <= self.focused_field < SETTINGS_ROWS),
    {
        let start = self.cf_fields_start();
        self.focused_field >= start && self.focused_field < start + 3
    }

    /// Index into `profile_fields` of the focused profile field.
    pub fn profile_field_idx(&self) -> (res: usize)
        requires
            self.focused_field >= 1,
        ensures
            res == self.focused_field - 1,
    {
        self.focused_field - 1
    }

    /// Index into `cf_fields` of the focused account field.
    pub fn cf_field_idx(&self) -> (res: usize)
        requires
            self.focused_field >= CF_FIELDS_START,
        ensures
            res == self.focused_field - CF_FIELDS_START,
    {
        self.focused_field - self.cf_fields_start()
    }

    /// A form on profile `active_idx` of `profiles` and the first of
    /// `cf_accounts`, focus on the profile selector, not editing.
    pub fn new(profiles: &Vec<Profile>, active_idx: usize, cf_accounts: Vec<CfAccount>) -> (res: Self)
        requires
            active_idx < profiles.len(),
        ensures
            res@ == settings_form_view(profiles.deep_view(), active_idx as nat, cf_accounts.deep_view()),
    {
        let profile_fields = Self::build_profile_fields(&profiles[active_idx]);
        let first = if cf_accounts.len() > 0 { Some(&cf_accounts[0]) } else { None };
        let cf_fields = Self::build_cf_fields(first);
        SettingsForm {
            profile_idx: active_idx,
            profile_fields,
            cf_account_idx: 0,
            cf_accounts,
            cf_fields,
            focused_field: 0,
            editing: false,
        }
    }

    fn build_profile_fields(profile: &Profile) -> (res: Vec<(String, String)>)
        ensures
            res.deep_view() == profile_fields_view(profile@),
    {
        let mut v = Vec::new();
        v.push(field("Name", profile.name.clone()));
        v.push(field("Endpoint", profile.endpoint.clone()));
        v.push(
            field(
                "Auth Token",
                match &profile.auth_token {
                    Some(t) => t.clone(),
                    None => String::new(),
                },
            ),
        );
        v.push(field("Region", profile.default_region.clone()));
        assert(v.deep_view() =~= profile_fields_view(profile@));
        v
    }

    fn build_cf_fields(account: Option<&CfAccount>) -> (res: Vec<(String, String)>)
        ensures
            res.deep_view() == cf_fields_view(
                match account {
                    Some(a) => Some(a@),
                    None => None,
                },
            ),
    {
        let mut v = Vec::new();
        match account {
            Some(a) => {
                v.push(field("Name", a.name.clone()));
                v.push(field("Account ID", a.account_id.clone()));
                v.push(field("API Token", a.api_token.clone()));
            },
            None => {
                v.push(field("Name", String::new()));
                v.push(field("Account ID", String::new()));
                v.push(field("API Token", String::new()));
            },
        }
        assert(v.deep_view() =~= cf_fields_view(
            match account {
                Some(a) => Some(a@),
                None => None,
            },
        ));
        v
    }

    /// Reloads the profile fields from `profile`.
    pub fn load_profile(&mut self, profile: &Profile)
        ensures
            final(self)@ == (SettingsFormView { profile_fields: profile_fields_view(profile@), ..old(self)@ }),
    {
        self.profile_fields = Self::build_profile_fields(profile);
    }

    /// Reloads the account fields from the selected account (empty fields
    /// when the index names none).
    pub fn load_cf_account(&mut self)
        ensures
            final(self)@ == (SettingsFormView {
                cf_fields: cf_fields_view(
                    account_at(old(self)@.cf_accounts, old(self)@.cf_account_idx as int),
                ),
                ..old(self)@
            }),
    {
        let fields = if self.cf_account_idx < self.cf_accounts.len() {
            Self::build_cf_fields(Some(&self.cf_accounts[self.cf_account_idx]))
        } else {
            Self::build_cf_fields(None)
        };
        self.cf_fields = fields;
    }

    /// Writes the profile fields into `profile`.
    pub fn apply_to_profile(&self, profile: &mut Profile)
        ensures
            final(profile)@ == profile_applied(self@.profile_fields, old(profile)@),
    {
        let n = self.profile_fields.len();
        if n > 0 {
            profile.name = self.profile_fields[0].1.clone();
        }
        if n > 1 {
            profile.endpoint = self.profile_fields[1].1.clone();
        }
        if n > 2 {
            let v = &self.profile_fields[2].1;
            profile.auth_token = if is_empty_string(v) { None } else { Some(v.clone()) };
        }
        if n > 3 {
            profile.default_region = self.profile_fields[3].1.clone();
        }
    }

    /// The account described by the account fields; none when there are no
    /// accounts and every field is empty.
    pub fn apply_to_cf_account(&self) -> (res: Option<CfAccount>)
        ensures
            match res {
                Some(a) => account_from_fields(self@.cf_accounts, self@.cf_fields) == Some(a@),
                None => account_from_fields(self@.cf_accounts, self@.cf_fields) is None,
            },
    {
        if self.cf_accounts.len() == 0 {
            let mut all_empty = true;
            let mut i: usize = 0;
            while i < self.cf_fields.len()
                invariant
                    i <= self.cf_fields@.len(),
                    all_empty == forall|j: int| 0 <= j < i ==> (#[trigger] self@.cf_fields[j]).1.len() == 0,
                decreases self.cf_fields@.len() - i,
            {
                assert(self@.cf_fields[i as int].1 == self.cf_fields@[i as int].1@);
                if !is_empty_string(&self.cf_fields[i].1) {
                    all_empty = false;
                }
                i = i + 1;
            }
            if all_empty {
                return None;
            }
        }
        Some(CfAccount {
            name: self.field_or_empty(0),
            account_id: self.field_or_empty(1),
            api_token: self.field_or_empty(2),
        })
    }

    fn field_or_empty(&self, i: usize) -> (res: String)
        ensures
            res@ == field_value(self@.cf_fields, i as int),
    {
        if i < self.cf_fields.len() {
            self.cf_fields[i].1.clone()
        } else {
            String::new()
        }
    }

    /// Moves the focus to the next row, wrapping to the first.
    pub fn focus_next(&mut self)
        ensures
            final(self)@ == (SettingsFormView {
                focused_field: ((old(self).focused_field + 1) % 9) as nat,
                ..old(self)@
            }),
    {
        self.focused_field = crate::text::wrap_next(self.focused_field, self.total_rows());
    }

    /// Moves the focus to the previous row, wrapping to the last.
    pub fn focus_prev(&mut self)
        ensures
            final(self)@ == (SettingsFormView {
                focused_field: ((old(self).focused_field + 8) % 9) as nat,
                ..old(self)@
            }),
    {
        self.focused_field = crate::text::wrap_prev(self.focused_field, self.total_rows());
    }
}

} // verus!

verus! {

// -- Deploy form --

/// The deploy form: worker name, account and auth token.
#[derive(Debug)]
pub struct DeployForm {
    pub worker_name: String,
    pub cf_accounts: Vec<CfAccount>,
    pub selected_account: usize,
    pub status_message: Option<String>,
    /// 0 worker name, 1 auth token.
    pub focused_field: usize,
    pub auth_token: String,
}

/// The mathematical content of a [`DeployForm`].
pub struct DeployFormView {
    pub worker_name: Seq<char>,
    pub cf_accounts: Seq<CfAccountView>,
    pub selected_account: nat,
    pub status_message: Option<Seq<char>>,
    pub focused_field: nat,
    pub auth_token: Seq<char>,
}

impl View for DeployForm {
    type V = DeployFormView;

    open spec fn view(&self) -> DeployFormView {
        DeployFormView {
            worker_name: self.worker_name@,
            cf_accounts: self.cf_accounts.deep_view(),
            selected_account: self.selected_account as nat,
            status_message: opt_view(self.status_message),
            focused_field: self.focused_field as nat,
            auth_token: self.auth_token@,
        }
    }
}

impl DeployForm {
    /// A deploy form with the given accounts (the first selected) and auth
    /// token, an empty worker name and no status.
    pub fn new(auth_token: String, cf_accounts: Vec<CfAccount>) -> (res: Self)
        ensures
            res@ == (DeployFormView {
                worker_name: Seq::empty(),
                cf_accounts: cf_accounts.deep_view(),
                selected_account: 0,
                status_message: None,
                focused_field: 0,
                auth_token: auth_token@,
            }),
    {
        DeployForm {
            worker_name: String::new(),
            cf_accounts,
            selected_account: 0,
            status_message: None,
            focused_field: 0,
            auth_token,
        }
    }

    /// The selected account, if the index names one.
    pub fn active_account(&self) -> (res: Option<&CfAccount>)
        ensures
            match res {
                Some(a) => account_at(self@.cf_accounts, self@.selected_account as int) == Some(a@),
                None => account_at(self@.cf_accounts, self@.selected_account as int) is None,
            },
    {
        if self.selected_account < self.cf_accounts.len() {
            Some(&self.cf_accounts[self.selected_account])
        } else {
            None
        }
    }
}

// -- Endpoint test form --

/// Number of HTTP methods the endpoint test offers.
pub const HTTP_METHOD_COUNT: usize = 5;

/// The HTTP method at an index: GET, POST, PUT, DELETE, PATCH.
pub open spec fn method_name(i: nat) -> Seq<char> {
    if i == 0 {
        "GET"@
    } else if i == 1 {
        "POST"@
    } else if i == 2 {
        "PUT"@
    } else if i == 3 {
        "DELETE"@
    } else {
        "PATCH"@
    }
}

/// Outcome of a request sent by the endpoint test.
#[derive(Debug)]
pub struct EndpointTestResult {
    pub status: u16,
    pub latency_ms: u64,
    pub body_snippet: String,
}

/// The mathematical content of an [`EndpointTestResult`].
pub struct EndpointTestResultView {
    pub status: u16,
    pub latency_ms: u64,
    pub body_snippet: Seq<char>,
}

impl View for EndpointTestResult {
    type V = EndpointTestResultView;

    open spec fn view(&self) -> EndpointTestResultView {
        EndpointTestResultView {
            status: self.status,
            latency_ms: self.latency_ms,
            body_snippet: self.body_snippet@,
        }
    }
}

impl DeepView for EndpointTestResult {
    type V = EndpointTestResultView;

    open spec fn deep_view(&self) -> EndpointTestResultView {
        self@
    }
}

/// The endpoint test form.
#[derive(Debug)]
pub struct EndpointTestForm {
    pub http_method_idx: usize,
    pub path: String,
    pub body: String,
    /// Custom request headers as (name, value) pairs.
    pub headers: Vec<(String, String)>,
    /// 0 method, 1 path, 2 body, 3 + 2i name of header i, 4 + 2i its value.
    pub focused_field: usize,
    pub is_running: bool,
}

/// The mathematical content of an [`EndpointTestForm`].
pub struct EndpointTestFormView {
    pub http_method_idx: nat,
    pub path: Seq<char>,
    pub body: Seq<char>,
    pub headers: FieldsView,
    pub focused_field: nat,
    pub is_running: bool,
}

impl View for EndpointTestForm {
    type V = EndpointTestFormView;

    open spec fn view(&self) -> EndpointTestFormView {
        EndpointTestFormView {
            http_method_idx: self.http_method_idx as nat,
            path: self.path@,
            body: self.body@,
            headers: self.headers.deep_view(),
            focused_field: self.focused_field as nat,
            is_running: self.is_running,
        }
    }
}

impl DeepView for EndpointTestForm {
    type V = EndpointTestFormView;

    open spec fn deep_view(&self) -> EndpointTestFormView {
        self@
    }
}

/// A fresh endpoint test form: GET `/`, empty body, three empty header
/// slots, focus on the path.
pub open spec fn endpoint_test_form_view() -> EndpointTestFormView {
    EndpointTestFormView {
        http_method_idx: 0,
        path: "/"@,
        body: Seq::empty(),
        headers: seq![
            (Seq::<char>::empty(), Seq::<char>::empty()),
            (Seq::<char>::empty(), Seq::<char>::empty()),
            (Seq::<char>::empty(), Seq::<char>::empty()),
        ],
        focused_field: 1,
        is_running: false,
    }
}

impl EndpointTestFormView {
    /// Number of rows: method, path, body and two per header.
    pub open spec fn total(self) -> nat {
        3 + self.headers.len() * 2
    }

    /// The header cell under the focus, as (header index, on its value).
    pub open spec fn header_at_focus(self) -> Option<(nat, bool)> {
        if self.focused_field < 3 {
            None
        } else {
            Some((((self.focused_field - 3) / 2) as nat, (self.focused_field - 3) % 2 == 1))
        }
    }
}

impl EndpointTestForm {
    /// A fresh form: GET `/`, empty body, three empty header slots, focus
    /// on the path, not running.
    pub fn new() -> (res: Self)
        ensures
            res@ == endpoint_test_form_view(),
    {
        let mut headers = Vec::new();
        headers.push((String::new(), String::new()));
        headers.push((String::new(), String::new()));
        headers.push((String::new(), String::new()));
        let res = EndpointTestForm {
            http_method_idx: 0,
            path: owned("/"),
            body: String::new(),
            headers,
            focused_field: 1,
            is_running: false,
        };
        assert(res@.headers =~= endpoint_test_form_view().headers);
        res
    }

    /// The selected HTTP method.
    pub fn method(&self) -> (res: &'static str)
        requires
            self.http_method_idx < HTTP_METHOD_COUNT,
        ensures
            res@ == method_name(self.http_method_idx as nat),
    {
        if self.http_method_idx == 0 {
            "GET"
        } else if self.http_method_idx == 1 {
            "POST"
        } else if self.http_method_idx == 2 {
            "PUT"
        } else if self.http_method_idx == 3 {
            "DELETE"
        } else {
            "PATCH"
        }
    }

    /// Number of navigable rows.
    pub fn total_fields(&self) -> (res: usize)
        requires
            3 + self.headers.len() * 2 <= usize::MAX,
        ensures
            res == self@.total(),
    {
        3 + self.headers.len() * 2
    }

    /// Moves the focus to the next row, wrapping to the first.
    pub fn focus_next(&mut self)
        requires
            3 + old(self).headers.len() * 2 <= usize::MAX,
        ensures
            final(self)@ == (EndpointTestFormView {
                focused_field: (old(self)@.focused_field + 1) % old(self)@.total(),
                ..old(self)@
            }),
    {
        let total = self.total_fields();
        if total > 0 {
            self.focused_field = crate::text::wrap_next(self.focused_field, total);
        }
    }

    /// Moves the focus to the previous row, wrapping to the last.
    pub fn focus_prev(&mut self)
        requires
            3 + old(self).headers.len() * 2 <= usize::MAX,
        ensures
            final(self)@ == (EndpointTestFormView {
                focused_field: ((old(self)@.focused_field + old(self)@.total() - 1) % (old(
                    self,
                )@.total() as int)) as nat,
                ..old(self)@
            }),
    {
        let total = self.total_fields();
        if total > 0 {
            self.focused_field = crate::text::wrap_prev(self.focused_field, total);
        }
    }

    /// When the focus is on a header cell: its header index and whether it
    /// is the value (rather than the name).
    pub fn focused_header(&self) -> (res: Option<(usize, bool)>)
        ensures
            match res {
                Some((i, v)) => self@.header_at_focus() == Some((i as nat, v)),
                None => self@.header_at_focus() is None,
            },
    {
        if self.focused_field < 3 {
            return None;
        }
        let rel = self.focused_field - 3;
        Some((rel / 2, rel % 2 == 1))
    }
}

// -- Clock --

/// `HH:MM:SS` of a Unix time, in UTC.
pub open spec fn clock_view(secs: nat) -> Seq<char> {
    two_digits((secs / 3600) % 24) + seq![':'] + two_digits((secs / 60) % 60) + seq![':'] + two_digits(
        secs % 60,
    )
}

/// A wall-clock time of day as `HH:MM:SS`.
pub open spec fn is_clock(t: Seq<char>) -> bool {
    exists|secs: nat| t == clock_view(secs)
}

#[verifier::external_type_specification]
#[verifier::external_body]
pub struct ExSystemTime(std::time::SystemTime);

/// `SystemTime::now`: the current system time. Nothing is stated of it.
#[verifier::external_body]
fn system_time_now() -> std::time::SystemTime {
    std::time::SystemTime::now()
}

/// `SystemTime::duration_since(UNIX_EPOCH)`: the time since the Unix epoch,
/// `None` for a time before it. Nothing is stated of the value.
#[verifier::external_body]
fn duration_since_epoch(t: &std::time::SystemTime) -> Option<std::time::Duration> {
    t.duration_since(std::time::UNIX_EPOCH).ok()
}

/// `Duration::as_secs`: the whole seconds of a duration. Nothing is stated
/// of the value.
#[verifier::external_body]
fn duration_secs(d: &std::time::Duration) -> u64 {
    d.as_secs()
}

/// The time of day of a Unix time, as `HH:MM:SS` in UTC.
pub fn clock_text(secs: u64) -> (res: String)
    ensures
        res@ == clock_view(secs as nat),
{
    let mut s = String::new();
    push_two_digits(&mut s, (secs / 3600) % 24);
    crate::text::string_push(&mut s, ':');
    push_two_digits(&mut s, (secs / 60) % 60);
    crate::text::string_push(&mut s, ':');
    push_two_digits(&mut s, secs % 60);
    s
}

/// The current time of day as `HH:MM:SS` (UTC).
pub fn chrono_now() -> (res: String)
    ensures
        is_clock(res@),
{
    let now = system_time_now();
    // A clock set before the epoch reads as midnight.
    let secs = match duration_since_epoch(&now) {
        Some(d) => duration_secs(&d),
        None => 0,
    };
    let res = clock_text(secs);
    assert(res@ == clock_view(secs as nat));
    res
}

} // verus!

verus! {

// -- Tunnels --

/// The interface's record of one tunnel (the running task and its channels
/// are kept by the event loop).
#[derive(Debug)]
pub struct TunnelHandle {
    pub name: String,
    pub config_summary: String,
    pub status: TunnelStatus,
    pub tunnel_type: TunnelType,
    pub logs: std::collections::VecDeque<LogLine>,
    pub scroll_offset: u16,
    pub auto_scroll: bool,
    pub public_url: Option<String>,
    pub test_result: Option<EndpointTestResult>,
    /// Configuration used to restart this tunnel.
    pub base_config: TunnelConfig,
    /// The profile the tunnel was made from, remembered between sessions.
    pub profile_name: Option<String>,
}

/// The mathematical content of a [`TunnelHandle`].
pub struct TunnelHandleView {
    pub name: Seq<char>,
    pub config_summary: Seq<char>,
    pub status: TunnelStatus,
    pub tunnel_type: TunnelType,
    pub logs: Seq<LogLineView>,
    pub scroll_offset: u16,
    pub auto_scroll: bool,
    pub public_url: Option<Seq<char>>,
    pub test_result: Option<EndpointTestResultView>,
    pub base_config: TunnelConfigView,
    pub profile_name: Option<Seq<char>>,
}

impl View for TunnelHandle {
    type V = TunnelHandleView;

    open spec fn view(&self) -> TunnelHandleView {
        TunnelHandleView {
            name: self.name@,
            config_summary: self.config_summary@,
            status: self.status,
            tunnel_type: self.tunnel_type,
            logs: self.logs.deep_view(),
            scroll_offset: self.scroll_offset,
            auto_scroll: self.auto_scroll,
            public_url: opt_view(self.public_url),
            test_result: self.test_result.deep_view(),
            base_config: self.base_config@,
            profile_name: opt_view(self.profile_name),
        }
    }
}

impl DeepView for TunnelHandle {
    type V = TunnelHandleView;

    open spec fn deep_view(&self) -> TunnelHandleView {
        self@
    }
}

/// The log after appending a line: when it already holds
/// [`MAX_LOG_LINES`] lines, the oldest is dropped.
pub open spec fn bounded_push(logs: Seq<LogLineView>, l: LogLineView) -> Seq<LogLineView> {
    if logs.len() >= MAX_LOG_LINES {
        logs.drop_first().push(l)
    } else {
        logs.push(l)
    }
}

/// The style of a response line: error from status 400 on.
pub open spec fn status_style(status: u16) -> LogStyle {
    if status >= 400 {
        LogStyle::OutError
    } else {
        LogStyle::In
    }
}

/// `<status>  <latency>ms`.
pub open spec fn response_text(status: u16, latency_ms: u64) -> Seq<char> {
    decimal(status as nat) + "  "@ + decimal(latency_ms as nat) + "ms"@
}

/// A tunnel after one of its events, logged at time `now`.
pub open spec fn event_applied(
    t: TunnelHandleView,
    e: crate::tui::events::TunnelEventView,
    now: Seq<char>,
) -> TunnelHandleView {
    match e {
        crate::tui::events::TunnelEventView::Connected { url } => TunnelHandleView {
            status: TunnelStatus::Active,
            public_url: Some(url),
            logs: bounded_push(
                t.logs,
                LogLineView { timestamp: now, text: "Connected: "@ + url, style: LogStyle::System },
            ),
            ..t
        },
        crate::tui::events::TunnelEventView::Request { method, path, status, latency_ms } => {
            let out = LogLineView {
                timestamp: now,
                text: pad_right(method, 6) + " "@ + path,
                style: LogStyle::Out,
            };
            let back = LogLineView {
                timestamp: now,
                text: response_text(status, latency_ms),
                style: status_style(status),
            };
            TunnelHandleView { logs: bounded_push(bounded_push(t.logs, out), back), ..t }
        },
        crate::tui::events::TunnelEventView::Disconnected { reason } => TunnelHandleView {
            status: TunnelStatus::Stopped,
            logs: bounded_push(
                t.logs,
                LogLineView { timestamp: now, text: "Disconnected: "@ + reason, style: LogStyle::System },
            ),
            ..t
        },
        crate::tui::events::TunnelEventView::Error(msg) => TunnelHandleView {
            status: TunnelStatus::Stopped,
            logs: bounded_push(
                t.logs,
                LogLineView { timestamp: now, text: "Error: "@ + msg, style: LogStyle::Error },
            ),
            ..t
        },
        crate::tui::events::TunnelEventView::TestResult { status, latency_ms, body_snippet } => TunnelHandleView {
            test_result: Some(EndpointTestResultView { status, latency_ms, body_snippet }),
            logs: bounded_push(
                t.logs,
                LogLineView {
                    timestamp: now,
                    text: "TEST "@ + response_text(status, latency_ms) + "  "@ + body_snippet,
                    style: status_style(status),
                },
            ),
            ..t
        },
    }
}

/// A string made of a prefix and a suffix.
fn concat(prefix: &str, suffix: &str) -> (res: String)
    ensures
        res@ == prefix@ + suffix@,
{
    let mut s = owned(prefix);
    s.append(suffix);
    s
}

/// `<status>  <latency>ms`.
fn response_line(status: u16, latency_ms: u64) -> (res: String)
    ensures
        res@ == response_text(status, latency_ms),
{
    let mut s = crate::text::u64_to_decimal(status as u64);
    s.append("  ");
    let l = crate::text::u64_to_decimal(latency_ms);
    s.append(l.as_str());
    s.append("ms");
    s
}

impl TunnelHandle {
    /// Appends a log line, dropping the oldest when the log is full.
    pub(crate) fn push_log(&mut self, line: LogLine)
        ensures
            final(self)@ == (TunnelHandleView { logs: bounded_push(old(self)@.logs, line@), ..old(self)@ }),
    {
        let ghost pre = self.logs.deep_view();
        if self.logs.len() >= MAX_LOG_LINES {
            self.logs.pop_front();
        }
        self.logs.push_back(line);
        assert(self.logs.deep_view() =~= bounded_push(pre, line@));
    }

    /// Records one event of this tunnel, logged at time `now`.
    pub fn record_event(&mut self, event: crate::tui::events::TunnelEvent, now: String)
        ensures
            final(self)@ == event_applied(old(self)@, event@, now@),
    {
        match event {
            crate::tui::events::TunnelEvent::Connected { url } => {
                self.status = TunnelStatus::Active;
                let text = concat("Connected: ", url.as_str());
                self.public_url = Some(url);
                self.push_log(LogLine { timestamp: now, text, style: LogStyle::System });
            },
            crate::tui::events::TunnelEvent::Request { method, path, status, latency_ms } => {
                let mut text = crate::text::padded_right(method.as_str(), 6);
                text.append(" ");
                text.append(path.as_str());
                self.push_log(LogLine { timestamp: now.clone(), text, style: LogStyle::Out });
                let style = if status >= 400 { LogStyle::OutError } else { LogStyle::In };
                self.push_log(LogLine { timestamp: now, text: response_line(status, latency_ms), style });
            },
            crate::tui::events::TunnelEvent::Disconnected { reason } => {
                self.status = TunnelStatus::Stopped;
                let text = concat("Disconnected: ", reason.as_str());
                self.push_log(LogLine { timestamp: now, text, style: LogStyle::System });
            },
            crate::tui::events::TunnelEvent::Error(msg) => {
                self.status = TunnelStatus::Stopped;
                let text = concat("Error: ", msg.as_str());
                self.push_log(LogLine { timestamp: now, text, style: LogStyle::Error });
            },
            crate::tui::events::TunnelEvent::TestResult { status, latency_ms, body_snippet } => {
                let style = if status >= 400 { LogStyle::OutError } else { LogStyle::In };
                let mut text = owned("TEST ");
                let r = response_line(status, latency_ms);
                text.append(r.as_str());
                text.append("  ");
                text.append(body_snippet.as_str());
                self.test_result = Some(EndpointTestResult { status, latency_ms, body_snippet });
                self.push_log(LogLine { timestamp: now, text, style });
            },
        }
    }
}

} // verus!

verus! {

/// The part of a string after its last `:` (all of it when it has none).
pub open spec fn after_last_colon(s: Seq<char>) -> Seq<char>
    decreases s.len(),
{
    if s.len() == 0 {
        s
    } else if s.last() == ':' {
        Seq::empty()
    } else {
        after_last_colon(s.drop_last()).push(s.last())
    }
}

/// The label of a tunnel type in the tunnel list.
pub open spec fn tunnel_type_label(t: TunnelType) -> Seq<char> {
    match t {
        TunnelType::Http => "HTTP"@,
        TunnelType::Https => "HTTPS"@,
        TunnelType::Tcp => "TCP"@,
    }
}

/// The name shown for a tunnel: its configured name, else `:` and the port
/// part of its local address.
pub open spec fn display_name(c: TunnelConfigView) -> Seq<char> {
    match c.name {
        Some(n) => n,
        None => ":"@ + after_last_colon(c.local_addr),
    }
}

/// A new tunnel record for a configuration made from profile `profile`,
/// with an empty log.
pub open spec fn new_handle_view(
    c: TunnelConfigView,
    status: TunnelStatus,
    profile: Option<Seq<char>>,
) -> TunnelHandleView {
    TunnelHandleView {
        name: display_name(c),
        config_summary: tunnel_type_label(c.tunnel_type) + " "@ + c.local_addr,
        status,
        tunnel_type: c.tunnel_type,
        logs: Seq::empty(),
        scroll_offset: 0,
        auto_scroll: true,
        public_url: None,
        test_result: None,
        base_config: c,
        profile_name: profile,
    }
}

/// The part of `s` after its last `:`.
pub(crate) fn port_part(s: &str) -> (res: String)
    ensures
        res@ == after_last_colon(s@),
{
    let cs = crate::text::chars_of(s);
    let n = cs.len();
    let mut k: usize = n;
    assert(s@.subrange(0, n as int) =~= s@);
    assert(s@.subrange(n as int, n as int) =~= Seq::<char>::empty());
    assert(after_last_colon(s@) =~= after_last_colon(s@.subrange(0, n as int)) + s@.subrange(n as int, n as int));
    while k > 0 && cs[k - 1] != ':'
        invariant
            cs@ == s@,
            n == cs@.len(),
            k <= n,
            after_last_colon(s@) == after_last_colon(s@.subrange(0, k as int)) + s@.subrange(
                k as int,
                n as int,
            ),
        decreases k,
    {
        let ghost pre = s@.subrange(0, k as int);
        assert(pre.drop_last() =~= s@.subrange(0, k - 1));
        assert(s@.subrange(k - 1, n as int) =~= seq![pre.last()] + s@.subrange(k as int, n as int));
        assert(after_last_colon(pre) == after_last_colon(pre.drop_last()).push(pre.last()));
        assert(after_last_colon(pre.drop_last()).push(pre.last()) + s@.subrange(k as int, n as int)
            =~= after_last_colon(s@.subrange(0, k - 1)) + s@.subrange(k - 1, n as int));
        k = k - 1;
    }
    proof {
        if k > 0 {
            let pre = s@.subrange(0, k as int);
            assert(pre.last() == ':');
            assert(after_last_colon(pre) =~= Seq::empty());
        } else {
            assert(s@.subrange(0, 0) =~= Seq::<char>::empty());
        }
        assert(after_last_colon(s@) =~= s@.subrange(k as int, n as int));
    }
    crate::text::string_of_chars(&cs.as_slice()[k..n])
}

impl TunnelHandle {
    /// A new tunnel record for `config`, made from profile `profile_name`,
    /// in the given state, with an empty log that follows new lines.
    pub fn new(config: TunnelConfig, status: TunnelStatus, profile_name: Option<String>) -> (res: Self)
        ensures
            res@ == new_handle_view(config@, status, opt_view(profile_name)),
    {
        let name = match &config.name {
            Some(n) => n.clone(),
            None => {
                let p = port_part(config.local_addr.as_str());
                concat(":", p.as_str())
            },
        };
        let label = match config.tunnel_type {
            TunnelType::Http => "HTTP",
            TunnelType::Https => "HTTPS",
            TunnelType::Tcp => "TCP",
        };
        let mut summary = concat(label, " ");
        summary.append(config.local_addr.as_str());
        let res = TunnelHandle {
            name,
            config_summary: summary,
            status,
            tunnel_type: config.tunnel_type,
            logs: std::collections::VecDeque::new(),
            scroll_offset: 0,
            auto_scroll: true,
            public_url: None,
            test_result: None,
            base_config: config,
            profile_name,
        };
        assert(res@.logs =~= Seq::<LogLineView>::empty());
        res
    }
}

// -- The whole interface --

/// The state of the interface (the event loop keeps, beside it, the
/// settings path and the tasks and channels of the tunnels).
#[derive(Debug)]
pub struct App {
    pub settings: Settings,
    pub tunnels: Vec<TunnelHandle>,
    pub selected_tunnel: usize,
    pub focus: Focus,
    pub overlay: Option<Overlay>,
    pub new_tunnel_form: NewTunnelForm,
    pub settings_form: Option<SettingsForm>,
    pub deploy_form: Option<DeployForm>,
    pub profiles_selected: usize,
    pub new_profile_input: Option<String>,
    pub endpoint_test_form: Option<EndpointTestForm>,
    pub tunnel_manager_selected: usize,
    /// A deploy has been started and its result has not arrived.
    pub deploy_in_progress: bool,
    /// The account used by the deploy in progress.
    pub deploy_cf_account: Option<CfAccount>,
}

/// The mathematical content of an [`App`].
pub struct AppView {
    pub settings: SettingsView,
    pub tunnels: Seq<TunnelHandleView>,
    pub selected_tunnel: nat,
    pub focus: Focus,
    pub overlay: Option<Overlay>,
    pub new_tunnel_form: NewTunnelFormView,
    pub settings_form: Option<SettingsFormView>,
    pub deploy_form: Option<DeployFormView>,
    pub profiles_selected: nat,
    pub new_profile_input: Option<Seq<char>>,
    pub endpoint_test_form: Option<EndpointTestFormView>,
    pub tunnel_manager_selected: nat,
    pub deploy_in_progress: bool,
    pub deploy_cf_account: Option<CfAccountView>,
}

impl View for App {
    type V = AppView;

    open spec fn view(&self) -> AppView {
        AppView {
            settings: self.settings@,
            tunnels: self.tunnels.deep_view(),
            selected_tunnel: self.selected_tunnel as nat,
            focus: self.focus,
            overlay: self.overlay,
            new_tunnel_form: self.new_tunnel_form@,
            settings_form: self.settings_form.deep_view(),
            deploy_form: match self.deploy_form {
                Some(f) => Some(f@),
                None => None,
            },
            profiles_selected: self.profiles_selected as nat,
            new_profile_input: opt_view(self.new_profile_input),
            endpoint_test_form: self.endpoint_test_form.deep_view(),
            tunnel_manager_selected: self.tunnel_manager_selected as nat,
            deploy_in_progress: self.deploy_in_progress,
            deploy_cf_account: self.deploy_cf_account.deep_view(),
        }
    }
}

/// The selection points at a tunnel, or is 0 when there is none.
pub open spec fn selection_ok(sel: nat, len: nat) -> bool {
    if len == 0 {
        sel == 0
    } else {
        sel < len
    }
}

/// A settings form whose indices are in range.
pub open spec fn settings_form_ok(f: SettingsFormView, profile_count: nat) -> bool {
    &&& f.profile_idx < profile_count
    &&& f.focused_field < SETTINGS_ROWS
    &&& f.cf_account_idx <= f.cf_accounts.len()
}

impl AppView {
    /// The form of overlay `o` can be shown: its indices are in range.
    pub open spec fn overlay_ready(self, o: Overlay) -> bool {
        match o {
            Overlay::NewTunnel => {
                &&& self.new_tunnel_form.profile_idx < self.settings.profiles.len()
                &&& self.new_tunnel_form.focused_field < NEW_TUNNEL_FIELD_COUNT
            },
            Overlay::Settings => match self.settings_form {
                Some(f) => settings_form_ok(f, self.settings.profiles.len()),
                None => true,
            },
            Overlay::Profiles => self.profiles_selected < self.settings.profiles.len(),
            _ => true,
        }
    }

    /// What every state of the interface satisfies: valid settings, a
    /// selection in range, bounded logs, and the indices of the open
    /// overlay's form in range.
    pub open spec fn wf(self) -> bool {
        &&& self.settings.wf()
        &&& selection_ok(self.selected_tunnel, self.tunnels.len())
        &&& forall|i: int| 0 <= i < self.tunnels.len() ==> (#[trigger] self.tunnels[i]).logs.len()
            <= MAX_LOG_LINES
        &&& match self.overlay {
            Some(o) => self.overlay_ready(o),
            None => true,
        }
        &&& match self.deploy_form {
            Some(f) => {
                &&& f.focused_field < 2
                &&& f.selected_account <= f.cf_accounts.len()
            },
            None => true,
        }
        &&& match self.endpoint_test_form {
            Some(f) => {
                &&& f.http_method_idx < HTTP_METHOD_COUNT
                &&& f.headers.len() == 3
                &&& f.focused_field < f.total()
            },
            None => true,
        }
        &&& self.tunnel_manager_selected < usize::MAX
    }
}

/// The interface as it starts: no tunnels, list focused, no overlay.
pub open spec fn initial_app_view(s: SettingsView) -> AppView {
    AppView {
        settings: s,
        tunnels: Seq::empty(),
        selected_tunnel: 0,
        focus: Focus::List,
        overlay: None,
        new_tunnel_form: new_tunnel_form_view(0),
        settings_form: None,
        deploy_form: None,
        profiles_selected: 0,
        new_profile_input: None,
        endpoint_test_form: None,
        tunnel_manager_selected: 0,
        deploy_in_progress: false,
        deploy_cf_account: None,
    }
}

/// The index of the tunnel after `sel`, cyclically.
pub open spec fn next_index(sel: nat, len: nat) -> nat {
    if len == 0 {
        sel
    } else {
        (sel + 1) % len
    }
}

/// The index of the tunnel before `sel`, cyclically.
pub open spec fn prev_index(sel: nat, len: nat) -> nat {
    if len == 0 {
        sel
    } else {
        ((sel + len - 1) % (len as int)) as nat
    }
}

/// The selection after removing the tunnel at some index: kept if still in
/// range, else the last tunnel, or 0 when none is left.
pub open spec fn selection_after_removal(sel: nat, new_len: nat) -> nat {
    if new_len == 0 {
        0
    } else if sel >= new_len {
        (new_len - 1) as nat
    } else {
        sel
    }
}

impl App {
    /// The interface with the given settings, no tunnels, the list focused
    /// and no overlay.
    pub fn new(settings: Settings) -> (res: Self)
        requires
            settings@.wf(),
        ensures
            res@ == initial_app_view(settings@),
            res@.wf(),
    {
        let res = App {
            settings,
            tunnels: Vec::new(),
            selected_tunnel: 0,
            focus: Focus::List,
            overlay: None,
            new_tunnel_form: NewTunnelForm::new(0),
            settings_form: None,
            deploy_form: None,
            profiles_selected: 0,
            new_profile_input: None,
            endpoint_test_form: None,
            tunnel_manager_selected: 0,
            deploy_in_progress: false,
            deploy_cf_account: None,
        };
        assert(res@.tunnels =~= Seq::<TunnelHandleView>::empty());
        res
    }

    /// Selects the next tunnel, wrapping to the first.
    pub fn next_tunnel(&mut self)
        requires
            old(self)@.wf(),
        ensures
            final(self)@ == (AppView {
                selected_tunnel: next_index(old(self)@.selected_tunnel, old(self)@.tunnels.len()),
                ..old(self)@
            }),
            final(self)@.wf(),
    {
        if self.tunnels.len() > 0 {
            self.selected_tunnel = (self.selected_tunnel + 1) % self.tunnels.len();
        }
    }

    /// Selects the previous tunnel, wrapping to the last.
    pub fn prev_tunnel(&mut self)
        requires
            old(self)@.wf(),
        ensures
            final(self)@ == (AppView {
                selected_tunnel: prev_index(old(self)@.selected_tunnel, old(self)@.tunnels.len()),
                ..old(self)@
            }),
            final(self)@.wf(),
    {
        if self.tunnels.len() > 0 {
            self.selected_tunnel = crate::text::wrap_prev(self.selected_tunnel, self.tunnels.len());
        }
    }

    /// Adds a connecting tunnel for `config`, made from profile
    /// `profile_name`, and selects it.
    pub fn spawn_tunnel(&mut self, config: TunnelConfig, profile_name: Option<String>)
        requires
            old(self)@.wf(),
        ensures
            final(self)@ == (AppView {
                tunnels: old(self)@.tunnels.push(new_handle_view(config@, TunnelStatus::Connecting, opt_view(profile_name))),
                selected_tunnel: old(self)@.tunnels.len(),
                ..old(self)@
            }),
            final(self)@.wf(),
    {
        let h = TunnelHandle::new(config, TunnelStatus::Connecting, profile_name);
        self.tunnels.push(h);
        self.selected_tunnel = self.tunnels.len() - 1;
        assert(self@.tunnels =~= old(self)@.tunnels.push(new_handle_view(config@, TunnelStatus::Connecting, opt_view(profile_name))));
    }

    /// Adds a stopped tunnel for `config`, made from profile `profile_name`
    /// (a remembered tunnel that was not running), leaving the selection as
    /// it is.
    pub fn add_stopped_tunnel(&mut self, config: TunnelConfig, profile_name: Option<String>)
        requires
            old(self)@.wf(),
        ensures
            final(self)@ == (AppView {
                tunnels: old(self)@.tunnels.push(new_handle_view(config@, TunnelStatus::Stopped, opt_view(profile_name))),
                ..old(self)@
            }),
            final(self)@.wf(),
    {
        let h = TunnelHandle::new(config, TunnelStatus::Stopped, profile_name);
        self.tunnels.push(h);
        assert(self@.tunnels =~= old(self)@.tunnels.push(new_handle_view(config@, TunnelStatus::Stopped, opt_view(profile_name))));
    }
}

} // verus!

verus! {

/// A tunnel after a restart: connecting again, without public URL or test
/// result, with a `Tunnel restarted` line logged at `now`.
pub open spec fn restarted(t: TunnelHandleView, now: Seq<char>) -> TunnelHandleView {
    TunnelHandleView {
        status: TunnelStatus::Connecting,
        public_url: None,
        test_result: None,
        logs: bounded_push(
            t.logs,
            LogLineView { timestamp: now, text: "Tunnel restarted"@, style: LogStyle::System },
        ),
        ..t
    }
}

/// A tunnel after a stop: stopped, with a `Tunnel stopped` line logged at `now`.
pub open spec fn stopped(t: TunnelHandleView, now: Seq<char>) -> TunnelHandleView {
    TunnelHandleView {
        status: TunnelStatus::Stopped,
        logs: bounded_push(
            t.logs,
            LogLineView { timestamp: now, text: "Tunnel stopped"@, style: LogStyle::System },
        ),
        ..t
    }
}

/// Appending to a log of at most [`MAX_LOG_LINES`] lines keeps it so.
pub proof fn lemma_bounded_push_len(logs: Seq<LogLineView>, l: LogLineView)
    requires
        logs.len() <= MAX_LOG_LINES,
    ensures
        bounded_push(logs, l).len() <= MAX_LOG_LINES,
        bounded_push(logs, l).last() == l,
{
}

impl App {
    /// Restarts the tunnel at `idx` (if there is one): it is connecting
    /// again, its public URL and test result are cleared and the restart
    /// is logged with the current time.
    pub fn restart_tunnel(&mut self, idx: usize)
        requires
            old(self)@.wf(),
        ensures
            final(self)@.wf(),
            idx >= old(self)@.tunnels.len() ==> final(self)@ == old(self)@,
            idx < old(self)@.tunnels.len() ==> exists|now: Seq<char>|
                is_clock(now) && final(self)@ == (AppView {
                    tunnels: old(self)@.tunnels.update(
                        idx as int,
                        restarted(old(self)@.tunnels[idx as int], now),
                    ),
                    ..old(self)@
                }),
    {
        if idx < self.tunnels.len() {
            let now = chrono_now();
            let ghost pre = self@;
            let t = &mut self.tunnels[idx];
            t.status = TunnelStatus::Connecting;
            t.public_url = None;
            t.test_result = None;
            t.push_log(LogLine { timestamp: now, text: owned("Tunnel restarted"), style: LogStyle::System });
            proof {
                lemma_bounded_push_len(pre.tunnels[idx as int].logs, self@.tunnels[idx as int].logs.last());
                assert(self@.tunnels =~= pre.tunnels.update(idx as int, restarted(pre.tunnels[idx as int], now@)));
            }
        }
    }

    /// Stops the tunnel at `idx` (if there is one) and logs it with the
    /// current time.
    pub fn stop_tunnel(&mut self, idx: usize)
        requires
            old(self)@.wf(),
        ensures
            final(self)@.wf(),
            idx >= old(self)@.tunnels.len() ==> final(self)@ == old(self)@,
            idx < old(self)@.tunnels.len() ==> exists|now: Seq<char>|
                is_clock(now) && final(self)@ == (AppView {
                    tunnels: old(self)@.tunnels.update(
                        idx as int,
                        stopped(old(self)@.tunnels[idx as int], now),
                    ),
                    ..old(self)@
                }),
    {
        if idx < self.tunnels.len() {
            let now = chrono_now();
            let ghost pre = self@;
            let t = &mut self.tunnels[idx];
            t.status = TunnelStatus::Stopped;
            t.push_log(LogLine { timestamp: now, text: owned("Tunnel stopped"), style: LogStyle::System });
            proof {
                lemma_bounded_push_len(pre.tunnels[idx as int].logs, self@.tunnels[idx as int].logs.last());
                assert(self@.tunnels =~= pre.tunnels.update(idx as int, stopped(pre.tunnels[idx as int], now@)));
            }
        }
    }

    /// Marks every tunnel stopped.
    pub fn stop_all_tunnels(&mut self)
        requires
            old(self)@.wf(),
        ensures
            final(self)@.wf(),
            final(self)@ == (AppView {
                tunnels: Seq::new(
                    old(self)@.tunnels.len(),
                    |i: int|
                        TunnelHandleView {
                            status: TunnelStatus::Stopped,
                            ..old(self)@.tunnels[i]
                        },
                ),
                ..old(self)@
            }),
    {
        let ghost pre = self@;
        let mut i: usize = 0;
        while i < self.tunnels.len()
            invariant
                i <= self@.tunnels.len(),
                self@.tunnels.len() == pre.tunnels.len(),
                self@ == (AppView { tunnels: self@.tunnels, ..pre }),
                forall|j: int|
                    0 <= j < i ==> #[trigger] self@.tunnels[j] == (TunnelHandleView {
                        status: TunnelStatus::Stopped,
                        ..pre.tunnels[j]
                    }),
                forall|j: int| i <= j < self@.tunnels.len() ==> #[trigger] self@.tunnels[j] == pre.tunnels[j],
            decreases pre.tunnels.len() - i,
        {
            let ghost before = self@.tunnels;
            let t = &mut self.tunnels[i];
            t.status = TunnelStatus::Stopped;
            assert(self@.tunnels =~= before.update(
                i as int,
                TunnelHandleView { status: TunnelStatus::Stopped, ..before[i as int] },
            ));
            i = i + 1;
        }
        assert(self@.tunnels =~= Seq::new(
            pre.tunnels.len(),
            |i: int| TunnelHandleView { status: TunnelStatus::Stopped, ..pre.tunnels[i] },
        ));
    }

    /// Removes the tunnel at `idx` (if there is one), keeping the selection
    /// in range.
    pub fn delete_tunnel(&mut self, idx: usize)
        requires
            old(self)@.wf(),
        ensures
            final(self)@.wf(),
            idx >= old(self)@.tunnels.len() ==> final(self)@ == old(self)@,
            idx < old(self)@.tunnels.len() ==> final(self)@ == (AppView {
                tunnels: old(self)@.tunnels.remove(idx as int),
                selected_tunnel: selection_after_removal(
                    old(self)@.selected_tunnel,
                    (old(self)@.tunnels.len() - 1) as nat,
                ),
                ..old(self)@
            }),
    {
        if idx < self.tunnels.len() {
            let ghost pre = self@;
            self.tunnels.remove(idx);
            if self.tunnels.len() == 0 {
                self.selected_tunnel = 0;
            } else if self.selected_tunnel >= self.tunnels.len() {
                self.selected_tunnel = self.tunnels.len() - 1;
            }
            assert(self@.tunnels =~= pre.tunnels.remove(idx as int));
            assert forall|j: int| 0 <= j < self@.tunnels.len() implies (#[trigger] self@.tunnels[j]).logs.len()
                <= MAX_LOG_LINES by {
                if j < idx {
                    assert(self@.tunnels[j] == pre.tunnels[j]);
                } else {
                    assert(self@.tunnels[j] == pre.tunnels[j + 1]);
                }
            }
        }
    }

    /// Records an event of the tunnel at `idx` (if there is one), logged
    /// with the current time.
    pub fn record_tunnel_event(&mut self, idx: usize, event: crate::tui::events::TunnelEvent)
        requires
            old(self)@.wf(),
        ensures
            final(self)@.wf(),
            idx >= old(self)@.tunnels.len() ==> final(self)@ == old(self)@,
            idx < old(self)@.tunnels.len() ==> exists|now: Seq<char>|
                is_clock(now) && final(self)@ == (AppView {
                    tunnels: old(self)@.tunnels.update(
                        idx as int,
                        event_applied(old(self)@.tunnels[idx as int], event@, now),
                    ),
                    ..old(self)@
                }),
    {
        if idx < self.tunnels.len() {
            let now = chrono_now();
            let ghost pre = self@;
            let ghost nv = now@;
            let ghost ev = event@;
            self.tunnels[idx].record_event(event, now);
            proof {
                let t0 = pre.tunnels[idx as int];
                let t1 = self@.tunnels[idx as int];
                assert(t1 == event_applied(t0, ev, nv));
                assert(t1.logs.len() <= MAX_LOG_LINES) by {
                    let l0 = t0.logs;
                    assert(l0.len() <= MAX_LOG_LINES);
                    match ev {
                        crate::tui::events::TunnelEventView::Request { method, path, status, latency_ms } => {
                            let out = LogLineView {
                                timestamp: nv,
                                text: pad_right(method, 6) + " "@ + path,
                                style: LogStyle::Out,
                            };
                            lemma_bounded_push_len(l0, out);
                            lemma_bounded_push_len(
                                bounded_push(l0, out),
                                LogLineView {
                                    timestamp: nv,
                                    text: response_text(status, latency_ms),
                                    style: status_style(status),
                                },
                            );
                        },
                        _ => {
                            lemma_bounded_push_len(l0, t1.logs.last());
                        },
                    }
                }
                assert(self@.tunnels =~= pre.tunnels.update(idx as int, event_applied(t0, ev, nv)));
            }
        }
    }

    /// Switches the active profile to `idx` if it names one.
    pub fn switch_profile(&mut self, idx: usize)
        requires
            old(self)@.wf(),
        ensures
            final(self)@.wf(),
            final(self)@ == (AppView {
                settings: SettingsView {
                    active_idx: if idx < old(self)@.settings.profiles.len() {
                        idx as nat
                    } else {
                        old(self)@.settings.active_idx
                    },
                    ..old(self)@.settings
                },
                ..old(self)@
            }),
    {
        self.settings.switch_active(idx);
    }
}

} // verus!

verus! {

/// Stepping the tunnel type forward and back (or back and forward) returns
/// to where it was, and three steps make a full cycle.
pub proof fn lemma_type_option_cycle(t: TunnelTypeOption)
    ensures
        type_prev(type_next(t)) == t,
        type_next(type_prev(t)) == t,
        type_next(type_next(type_next(t))) == t,
{
}

/// Selecting the next tunnel and then the previous one (or the other way
/// round) returns to the same tunnel.
pub proof fn lemma_selection_round_trip(sel: nat, len: nat)
    requires
        sel < len,
    ensures
        prev_index(next_index(sel, len), len) == sel,
        next_index(prev_index(sel, len), len) == sel,
{
    if sel + 1 < len {
        assert((sel + 1) % len == sel + 1) by {
            vstd::arithmetic::div_mod::lemma_small_mod((sel + 1) as nat, len);
        }
        assert(((sel + 1 + len - 1) as int) % (len as int) == sel) by {
            vstd::arithmetic::div_mod::lemma_mod_add_multiples_vanish(sel as int, len as int);
            vstd::arithmetic::div_mod::lemma_small_mod(sel, len);
        }
    } else {
        assert((sel + 1) % len == 0) by {
            vstd::arithmetic::div_mod::lemma_mod_self_0(len as int);
        }
        assert(((0 + len - 1) as int) % (len as int) == sel) by {
            vstd::arithmetic::div_mod::lemma_small_mod((len - 1) as nat, len);
        }
    }
    if sel > 0 {
        assert(((sel + len - 1) as int) % (len as int) == sel - 1) by {
            vstd::arithmetic::div_mod::lemma_mod_add_multiples_vanish(sel - 1, len as int);
            vstd::arithmetic::div_mod::lemma_small_mod((sel - 1) as nat, len);
        }
        assert((sel as int - 1 + 1) % (len as int) == sel) by {
            vstd::arithmetic::div_mod::lemma_small_mod(sel, len);
        }
    } else {
        assert(((0 + len - 1) as int) % (len as int) == len - 1) by {
            vstd::arithmetic::div_mod::lemma_small_mod((len - 1) as nat, len);
        }
        assert((len as int - 1 + 1) % (len as int) == 0) by {
            vstd::arithmetic::div_mod::lemma_mod_self_0(len as int);
        }
    }
}

/// A log keeps the newest lines: after appending to a log of at most
/// [`MAX_LOG_LINES`] lines it holds the last (at most [`MAX_LOG_LINES`])
/// lines of the old log followed by the new one.
pub proof fn lemma_log_keeps_newest(logs: Seq<LogLineView>, l: LogLineView)
    requires
        logs.len() <= MAX_LOG_LINES,
    ensures
        bounded_push(logs, l) == logs.push(l).subrange(
            logs.len() + 1 - bounded_push(logs, l).len(),
            logs.len() + 1 as int,
        ),
        bounded_push(logs, l).len() == if logs.len() < MAX_LOG_LINES {
            logs.len() + 1 as int
        } else {
            MAX_LOG_LINES as int
        },
{
    if logs.len() >= MAX_LOG_LINES {
        assert(bounded_push(logs, l) =~= logs.push(l).subrange(1, logs.len() + 1 as int));
    } else {
        assert(bounded_push(logs, l) =~= logs.push(l).subrange(0, logs.len() + 1 as int));
    }
}

/// The clock text is eight characters `HH:MM:SS`, with hours below 24 and
/// minutes and seconds below 60.
pub proof fn lemma_clock_shape(secs: nat)
    ensures
        clock_view(secs).len() == 8,
        clock_view(secs)[2] == ':',
        clock_view(secs)[5] == ':',
{
}

/// Loading a profile into the form and applying the form back to the same
/// profile leaves it unchanged, unless its auth token is present but empty
/// (the form cannot tell an empty token from none).
pub proof fn lemma_profile_form_round_trip(p: ProfileView)
    requires
        p.auth_token != Some(Seq::<char>::empty()),
    ensures
        profile_applied(profile_fields_view(p), p) == p,
{
    if p.auth_token is Some {
        assert(p.auth_token->0.len() != 0) by {
            if p.auth_token->0.len() == 0 {
                assert(p.auth_token->0 =~= Seq::<char>::empty());
            }
        }
    }
}

/// Loading an account into the form and reading the form back gives the
/// same account.
pub proof fn lemma_account_form_round_trip(accs: Seq<CfAccountView>, i: int)
    requires
        0 <= i < accs.len(),
    ensures
        account_from_fields(accs, cf_fields_view(account_at(accs, i))) == Some(accs[i]),
{
}

} // verus!
