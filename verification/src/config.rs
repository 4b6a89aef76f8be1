//! Named profiles (endpoint, auth token, region, optional Cloudflare
//! credentials) and the settings that hold them with an active index.
//!
//! On disk the settings file is a JSON array of profiles; two older
//! layouts are still read and rewritten as an array. Reading and writing
//! the file happens outside this module: here the parsed content is turned
//! into [`Settings`] and environment overrides are applied.

use vstd::prelude::*;
use crate::text::{char_is_white_space, chars_of, is_white_space, owned, str_eq, trim_ws_start};

verus! {

/// Endpoint of a locally running worker, used when nothing else is configured.
pub open spec fn default_endpoint_view() -> Seq<char> {
    seq!['h', 't', 't', 'p', ':', '/', '/', 'l', 'o', 'c', 'a', 'l', 'h', 'o', 's', 't', ':', '8', '7', '8', '7']
}

/// Region used when a profile names none.
pub open spec fn default_region_view() -> Seq<char> {
    seq!['a', 'u', 't', 'o']
}

/// Name of the profile created from defaults or from the flat layout.
pub open spec fn default_name_view() -> Seq<char> {
    seq!['d', 'e', 'f', 'a', 'u', 'l', 't']
}

/// The view of an optional string.
pub open spec fn opt_view(o: Option<String>) -> Option<Seq<char>> {
    match o {
        Some(s) => Some(s@),
        None => None,
    }
}

/// A copy of an optional string.
pub fn clone_opt(o: &Option<String>) -> (res: Option<String>)
    ensures
        opt_view(res) == opt_view(*o),
{
    match o {
        Some(s) => Some(s.clone()),
        None => None,
    }
}

/// `http://localhost:8787`.
pub fn default_endpoint() -> (res: String)
    ensures
        res@ == default_endpoint_view(),
{
    let s = owned("http://localhost:8787");
    proof {
        reveal_strlit("http://localhost:8787");
    }
    assert(s@ =~= default_endpoint_view());
    s
}

/// `auto`.
pub fn default_region() -> (res: String)
    ensures
        res@ == default_region_view(),
{
    let s = owned("auto");
    proof {
        reveal_strlit("auto");
    }
    assert(s@ =~= default_region_view());
    s
}

/// `default`.
fn default_name() -> (res: String)
    ensures
        res@ == default_name_view(),
{
    let s = owned("default");
    proof {
        reveal_strlit("default");
    }
    assert(s@ =~= default_name_view());
    s
}

/// A single named profile.
#[derive(Debug)]
pub struct Profile {
    pub name: String,
    pub endpoint: String,
    pub auth_token: Option<String>,
    pub default_region: String,
    /// Cloudflare account id for deploys, if this profile has its own.
    pub cf_account_id: Option<String>,
    /// Cloudflare API token for deploys, if this profile has its own.
    pub cf_api_token: Option<String>,
}

/// The mathematical content of a [`Profile`].
pub struct ProfileView {
    pub name: Seq<char>,
    pub endpoint: Seq<char>,
    pub auth_token: Option<Seq<char>>,
    pub default_region: Seq<char>,
    pub cf_account_id: Option<Seq<char>>,
    pub cf_api_token: Option<Seq<char>>,
}

impl View for Profile {
    type V = ProfileView;

    open spec fn view(&self) -> ProfileView {
        ProfileView {
            name: self.name@,
            endpoint: self.endpoint@,
            auth_token: opt_view(self.auth_token),
            default_region: self.default_region@,
            cf_account_id: opt_view(self.cf_account_id),
            cf_api_token: opt_view(self.cf_api_token),
        }
    }
}

impl DeepView for Profile {
    type V = ProfileView;

    open spec fn deep_view(&self) -> ProfileView {
        self@
    }
}

impl Clone for Profile {
    fn clone(&self) -> (res: Self)
        ensures
            res@ == self@,
    {
        Profile {
            name: self.name.clone(),
            endpoint: self.endpoint.clone(),
            auth_token: clone_opt(&self.auth_token),
            default_region: self.default_region.clone(),
            cf_account_id: clone_opt(&self.cf_account_id),
            cf_api_token: clone_opt(&self.cf_api_token),
        }
    }
}

/// A profile with the given name and endpoint and default everything else.
pub open spec fn new_profile_view(name: Seq<char>, endpoint: Seq<char>) -> ProfileView {
    ProfileView {
        name,
        endpoint,
        auth_token: None,
        default_region: default_region_view(),
        cf_account_id: None,
        cf_api_token: None,
    }
}

impl Profile {
    /// A profile with the given name and endpoint, no token, region `auto`
    /// and no Cloudflare credentials.
    pub fn new(name: &str, endpoint: &str) -> (res: Self)
        ensures
            res@ == new_profile_view(name@, endpoint@),
    {
        Profile {
            name: owned(name),
            endpoint: owned(endpoint),
            auth_token: None,
            default_region: default_region(),
            cf_account_id: None,
            cf_api_token: None,
        }
    }

    /// The profile named `default` pointing at `http://localhost:8787`.
    pub fn default_profile() -> (res: Self)
        ensures
            res@ == new_profile_view(default_name_view(), default_endpoint_view()),
    {
        let name = default_name();
        let endpoint = default_endpoint();
        Profile::new(name.as_str(), endpoint.as_str())
    }
}

/// Index of the first profile with the given name.
pub open spec fn is_first_named(ps: Seq<ProfileView>, name: Seq<char>, i: int) -> bool {
    &&& 0 <= i < ps.len()
    &&& ps[i].name == name
    &&& forall|j: int| 0 <= j < i ==> (#[trigger] ps[j]).name != name
}

/// Some profile has the given name.
pub open spec fn has_named(ps: Seq<ProfileView>, name: Seq<char>) -> bool {
    exists|i: int| 0 <= i < ps.len() && (#[trigger] ps[i]).name == name
}

/// At most one index is the first with a given name.
pub proof fn lemma_first_named_unique(ps: Seq<ProfileView>, name: Seq<char>, i: int, k: int)
    requires
        is_first_named(ps, name, i),
        is_first_named(ps, name, k),
    ensures
        i == k,
{
    if i < k {
        assert(ps[i].name == name);
    } else if k < i {
        assert(ps[k].name == name);
    }
}

/// Index of the first profile named `name`, if any.
pub fn position_by_name(profiles: &Vec<Profile>, name: &str) -> (res: Option<usize>)
    ensures
        match res {
            Some(i) => is_first_named(profiles.deep_view(), name@, i as int),
            None => !has_named(profiles.deep_view(), name@),
        },
{
    let mut i: usize = 0;
    while i < profiles.len()
        invariant
            i <= profiles.len(),
            forall|j: int| 0 <= j < i ==> (#[trigger] profiles.deep_view()[j]).name != name@,
        decreases profiles.len() - i,
    {
        if str_eq(profiles[i].name.as_str(), name) {
            return Some(i);
        }
        i = i + 1;
    }
    None
}

/// In-memory settings: the profiles and the index of the active one.
#[derive(Debug)]
pub struct Settings {
    pub profiles: Vec<Profile>,
    /// Index into `profiles` of the active profile.
    pub active_idx: usize,
}

/// The mathematical content of [`Settings`].
pub struct SettingsView {
    pub profiles: Seq<ProfileView>,
    pub active_idx: nat,
}

impl View for Settings {
    type V = SettingsView;

    open spec fn view(&self) -> SettingsView {
        SettingsView { profiles: self.profiles.deep_view(), active_idx: self.active_idx as nat }
    }
}

impl SettingsView {
    /// There is at least one profile and the active index points at one.
    pub open spec fn wf(self) -> bool {
        self.profiles.len() > 0 && self.active_idx < self.profiles.len()
    }

    /// The active profile.
    pub open spec fn active(self) -> ProfileView {
        self.profiles[self.active_idx as int]
    }
}

/// A profile with its auth token replaced by `token` and its endpoint by
/// `endpoint`, each only when given.
pub open spec fn with_token_and_endpoint(
    p: ProfileView,
    token: Option<Seq<char>>,
    endpoint: Option<Seq<char>>,
) -> ProfileView {
    ProfileView {
        auth_token: match token {
            Some(t) => Some(t),
            None => p.auth_token,
        },
        endpoint: match endpoint {
            Some(e) => e,
            None => p.endpoint,
        },
        ..p
    }
}

/// The settings holding just the default profile.
pub open spec fn default_settings_view() -> SettingsView {
    SettingsView {
        profiles: seq![new_profile_view(default_name_view(), default_endpoint_view())],
        active_idx: 0,
    }
}

impl Default for Settings {
    fn default() -> (res: Self)
        ensures
            res@ == default_settings_view(),
    {
        let mut profiles = Vec::new();
        profiles.push(Profile::default_profile());
        let res = Settings { profiles, active_idx: 0 };
        assert(res@.profiles =~= default_settings_view().profiles);
        res
    }
}

impl Settings {
    /// The active profile.
    pub fn active_profile(&self) -> (res: &Profile)
        requires
            self.active_idx < self.profiles.len(),
        ensures
            res@ == self@.active(),
    {
        &self.profiles[self.active_idx]
    }

    /// The active profile, for modification.
    pub fn active_profile_mut(&mut self) -> (res: &mut Profile)
        requires
            old(self).active_idx < old(self).profiles.len(),
        ensures
            *res == old(self).profiles@[old(self).active_idx as int],
            final(self).active_idx == old(self).active_idx,
            final(self).profiles@ == old(self).profiles@.update(
                old(self).active_idx as int,
                *final(res),
            ),
    {
        &mut self.profiles[self.active_idx]
    }

    /// Updates the active profile: a token given replaces its auth token,
    /// an endpoint given its endpoint. This is how the `RS_ROK_TOKEN` and
    /// `RS_ROK_ENDPOINT` environment variables apply after loading.
    pub fn update_active(&mut self, token: Option<String>, endpoint: Option<String>)
        requires
            old(self)@.wf(),
        ensures
            final(self)@ == (SettingsView {
                profiles: old(self)@.profiles.update(
                    old(self)@.active_idx as int,
                    with_token_and_endpoint(old(self)@.active(), opt_view(token), opt_view(endpoint)),
                ),
                ..old(self)@
            }),
    {
        let ghost pre = self@;
        let p = self.active_profile_mut();
        if let Some(t) = token {
            p.auth_token = Some(t);
        }
        if let Some(e) = endpoint {
            p.endpoint = e;
        }
        assert(self@.profiles =~= pre.profiles.update(
            pre.active_idx as int,
            with_token_and_endpoint(pre.active(), opt_view(token), opt_view(endpoint)),
        ));
    }

    /// Points the active profile at a freshly deployed worker: its endpoint
    /// becomes `url` and, when the deploy was given an auth token, its auth
    /// token becomes that token.
    pub fn apply_deploy_result(&mut self, url: String, auth_token: Option<String>)
        requires
            old(self)@.wf(),
        ensures
            final(self)@ == (SettingsView {
                profiles: old(self)@.profiles.update(
                    old(self)@.active_idx as int,
                    with_token_and_endpoint(old(self)@.active(), opt_view(auth_token), Some(url@)),
                ),
                ..old(self)@
            }),
    {
        self.update_active(auth_token, Some(url));
    }

    /// Switches the active profile to `idx` if it names a profile; otherwise
    /// leaves the settings unchanged.
    pub fn switch_active(&mut self, idx: usize)
        ensures
            final(self)@.profiles == old(self)@.profiles,
            final(self)@.active_idx == if idx < old(self)@.profiles.len() {
                idx as nat
            } else {
                old(self)@.active_idx
            },
    {
        if idx < self.profiles.len() {
            self.active_idx = idx;
        }
    }

    /// Switches to the first profile named `name`. Returns whether one was
    /// found; if none was, the settings are unchanged.
    pub fn switch_active_by_name(&mut self, name: &str) -> (found: bool)
        ensures
            final(self)@.profiles == old(self)@.profiles,
            found == has_named(old(self)@.profiles, name@),
            found ==> is_first_named(old(self)@.profiles, name@, final(self)@.active_idx as int),
            !found ==> final(self)@.active_idx == old(self)@.active_idx,
    {
        match position_by_name(&self.profiles, name) {
            Some(idx) => {
                self.active_idx = idx;
                true
            },
            None => false,
        }
    }
}

} // verus!

verus! {

/// What the settings file held, as read and decoded by the caller. The
/// layouts are tried in the order of the variants.
pub enum ParsedSettings {
    /// No file, or one that is empty or blank.
    Absent,
    /// The current layout: a JSON array of profiles.
    Profiles(Vec<Profile>),
    /// The older wrapped layout `{ "active_profile": .., "profiles": [..] }`.
    Wrapped { active_profile: String, profiles: Vec<Profile> },
    /// The oldest flat layout `{ "endpoint": .., "auth_token": .., "default_region": .. }`.
    Flat { auth_token: Option<String>, endpoint: Option<String>, default_region: Option<String> },
    /// Text that none of the layouts accepts (including a malformed array).
    Unrecognized,
}

/// The settings made from a settings file, and what the loader does next.
pub struct LoadedSettings {
    pub settings: Settings,
    /// The file was in an older layout and is to be written back as an array.
    pub rewrite: bool,
    /// The environment overrides (`RS_ROK_TOKEN`, `RS_ROK_ENDPOINT`) are to
    /// be applied; they always are, whatever the file held, an absent file
    /// included.
    pub env_overrides: bool,
}

/// The profile that the flat layout describes.
pub open spec fn flat_profile_view(
    auth_token: Option<Seq<char>>,
    endpoint: Option<Seq<char>>,
    default_region: Option<Seq<char>>,
) -> ProfileView {
    ProfileView {
        name: default_name_view(),
        endpoint: match endpoint {
            Some(e) => e,
            None => default_endpoint_view(),
        },
        auth_token,
        default_region: match default_region {
            Some(r) => r,
            None => default_region_view(),
        },
        cf_account_id: None,
        cf_api_token: None,
    }
}

/// Index of the active profile named by the wrapped layout: the first
/// profile with that name, or the first profile.
pub open spec fn wrapped_active(ps: Seq<ProfileView>, name: Seq<char>, idx: nat) -> bool {
    if has_named(ps, name) {
        is_first_named(ps, name, idx as int)
    } else {
        idx == 0
    }
}

impl Settings {
    /// Turns the decoded settings file into settings.
    ///
    /// An array gives its profiles with the first active (an empty array
    /// gives the defaults); the wrapped layout gives its profiles with the
    /// named one active (or the first), and the defaults when it has none;
    /// the flat layout gives one profile named `default`. The two older
    /// layouts are to be rewritten. An absent file and unrecognized text
    /// give the defaults. The environment overrides apply in every case.
    pub fn from_parsed(parsed: ParsedSettings) -> (res: LoadedSettings)
        ensures
            res.settings@.wf(),
            res.env_overrides == true,
            res.rewrite == (parsed is Wrapped || parsed is Flat),
            match parsed {
                ParsedSettings::Absent => res.settings@ == default_settings_view(),
                ParsedSettings::Unrecognized => res.settings@ == default_settings_view(),
                ParsedSettings::Profiles(ps) => if ps@.len() == 0 {
                    res.settings@ == default_settings_view()
                } else {
                    res.settings@ == (SettingsView { profiles: ps.deep_view(), active_idx: 0 })
                },
                ParsedSettings::Wrapped { active_profile, profiles } => if profiles@.len() == 0 {
                    res.settings@ == default_settings_view()
                } else {
                    &&& res.settings@.profiles == profiles.deep_view()
                    &&& wrapped_active(profiles.deep_view(), active_profile@, res.settings@.active_idx)
                },
                ParsedSettings::Flat { auth_token, endpoint, default_region } => res.settings@
                    == (SettingsView {
                    profiles: seq![
                        flat_profile_view(
                            opt_view(auth_token),
                            opt_view(endpoint),
                            opt_view(default_region),
                        ),
                    ],
                    active_idx: 0,
                }),
            },
    {
        match parsed {
            ParsedSettings::Absent => LoadedSettings {
                settings: Settings::default(),
                rewrite: false,
                env_overrides: true,
            },
            ParsedSettings::Unrecognized => LoadedSettings {
                settings: Settings::default(),
                rewrite: false,
                env_overrides: true,
            },
            ParsedSettings::Profiles(profiles) => {
                if profiles.len() == 0 {
                    LoadedSettings { settings: Settings::default(), rewrite: false, env_overrides: true }
                } else {
                    LoadedSettings {
                        settings: Settings { profiles, active_idx: 0 },
                        rewrite: false,
                        env_overrides: true,
                    }
                }
            },
            ParsedSettings::Wrapped { active_profile, profiles } => {
                if profiles.len() == 0 {
                    LoadedSettings { settings: Settings::default(), rewrite: true, env_overrides: true }
                } else {
                    let active_idx = match position_by_name(&profiles, active_profile.as_str()) {
                        Some(i) => i,
                        None => 0,
                    };
                    LoadedSettings {
                        settings: Settings { profiles, active_idx },
                        rewrite: true,
                        env_overrides: true,
                    }
                }
            },
            ParsedSettings::Flat { auth_token, endpoint, default_region } => {
                let profile = Profile {
                    name: default_name(),
                    endpoint: match endpoint {
                        Some(e) => e,
                        None => self::default_endpoint(),
                    },
                    auth_token,
                    default_region: match default_region {
                        Some(r) => r,
                        None => self::default_region(),
                    },
                    cf_account_id: None,
                    cf_api_token: None,
                };
                let mut profiles = Vec::new();
                profiles.push(profile);
                let settings = Settings { profiles, active_idx: 0 };
                assert(settings@.profiles =~= seq![
                    flat_profile_view(opt_view(auth_token), opt_view(endpoint), opt_view(default_region)),
                ]);
                LoadedSettings { settings, rewrite: true, env_overrides: true }
            },
        }
    }
}

/// What a configuration file's text looks like once leading and trailing
/// white space is trimmed: nothing, a JSON array, or something else.
#[derive(Debug, Clone, Copy, PartialEq, Eq, Structural)]
pub enum TextShape {
    Blank,
    Array,
    Other,
}

/// The shape of a file's text: blank when it is all white space, an array
/// when its first other character is `[`.
pub open spec fn text_shape_view(s: Seq<char>) -> TextShape {
    let t = trim_ws_start(s);
    if t.len() == 0 {
        TextShape::Blank
    } else if t[0] == '[' {
        TextShape::Array
    } else {
        TextShape::Other
    }
}

/// Tells which layouts to try on a file's text: a blank file counts as
/// absent, an array is read as a list and nothing else, anything else is
/// read as one of the object layouts.
pub fn text_shape(text: &str) -> (res: TextShape)
    ensures
        res == text_shape_view(text@),
{
    let cs = chars_of(text);
    let n = cs.len();
    let mut i: usize = 0;
    assert(text@.subrange(0, n as int) =~= text@);
    while i < n && char_is_white_space(cs[i])
        invariant
            cs@ == text@,
            n == cs@.len(),
            i <= n,
            trim_ws_start(text@) == trim_ws_start(text@.subrange(i as int, n as int)),
        decreases n - i,
    {
        let ghost rest = text@.subrange(i as int, n as int);
        assert(rest[0] == cs@[i as int]);
        assert(rest.drop_first() =~= text@.subrange(i + 1, n as int));
        i = i + 1;
    }
    let ghost rest = text@.subrange(i as int, n as int);
    if i == n {
        assert(rest.len() == 0);
        TextShape::Blank
    } else {
        assert(rest[0] == cs@[i as int]);
        assert(!is_white_space(rest[0]));
        assert(trim_ws_start(rest) == rest);
        if cs[i] == '[' {
            TextShape::Array
        } else {
            TextShape::Other
        }
    }
}

} // verus!
