//! Configuration: profiles, preferences and settings.

use vstd::prelude::*;

use crate::netbox::auth::AuthScheme;
use crate::text::{copy_opt, opt_str, opt_text, Text};

pub mod document;
pub mod open;
pub mod profile;
pub mod token;
pub mod toml;

verus! {

/// The version of the configuration format.
pub const CONFIG_VERSION: u32 = 1;

/// The configuration that a new installation starts with.
pub const INIT_TEMPLATE: &'static str = "# nbox configuration
# Tokens can be stored in this user-only config file (`token = \"...\"`) or kept
# outside it with `token_env` / NBOX_TOKEN. Env vars override config tokens.

config_version = 1

active_profile = \"default\"

[ui]
theme = \"default\"
confirm_writes = true
open_browser_command = \"\"

[profiles.default]
url = \"https://netbox.example.com\"
token_env = \"NETBOX_TOKEN\"
auth_scheme = \"auto\"        # auto | bearer | token
verify_tls = true
timeout_secs = 15
page_size = 100
exclude_config_context = true

# REST is the canonical backend. GraphQL is an opt-in per-surface accelerator;
# uncomment to route a read surface through it (falls back to REST if the
# instance's GraphQL schema doesn't support that surface). Search is always REST.
# [profiles.default.api]
# vrf = \"graphql\"           # rest | graphql
# route_target = \"graphql\"  # rest | graphql
";

// ===== Backends ==========================================================

/// The interface a read goes through. REST covers everything; GraphQL is opt-in.
#[derive(Debug, Clone, Copy, PartialEq, Eq, Structural)]
pub enum BackendPreference {
    Rest,
    Graphql,
}

/// The backend that a connection's cached values come from.
pub type BackendKind = BackendPreference;

impl BackendPreference {
    /// How a backend is written.
    pub open spec fn name(self) -> Text {
        match self {
            BackendPreference::Rest => "rest"@,
            BackendPreference::Graphql => "graphql"@,
        }
    }

    /// The name a backend goes by in the configuration.
    pub fn as_str(self) -> (r: &'static str)
        ensures
            r@ == self.name(),
    {
        match self {
            BackendPreference::Rest => "rest",
            BackendPreference::Graphql => "graphql",
        }
    }
}

/// A kind of read whose backend is chosen on its own.
#[derive(Debug, Clone, Copy, PartialEq, Eq, Structural)]
pub enum ApiSurface {
    Search,
    Vrf,
    RouteTarget,
}

impl ApiSurface {
    /// How a surface is written.
    pub open spec fn name(self) -> Text {
        match self {
            ApiSurface::Search => "search"@,
            ApiSurface::Vrf => "vrf"@,
            ApiSurface::RouteTarget => "route_target"@,
        }
    }

    /// The key a surface is configured under.
    pub fn key(self) -> (r: &'static str)
        ensures
            r@ == self.name(),
    {
        match self {
            ApiSurface::Search => "search",
            ApiSurface::Vrf => "vrf",
            ApiSurface::RouteTarget => "route_target",
        }
    }
}

/// The backends chosen per surface.
#[derive(Debug, Clone, Copy)]
pub struct ApiConfig {
    pub search: Option<BackendPreference>,
    pub vrf: Option<BackendPreference>,
    pub route_target: Option<BackendPreference>,
}

impl ApiConfig {
    /// The backend chosen for a surface.
    pub open spec fn chosen(self, surface: ApiSurface) -> Option<BackendPreference> {
        match surface {
            ApiSurface::Search => self.search,
            ApiSurface::Vrf => self.vrf,
            ApiSurface::RouteTarget => self.route_target,
        }
    }
}

// ===== Profiles ==========================================================

/// A token kept in the configuration.
pub struct ConfigToken(pub String);

impl ConfigToken {
    /// Holds a token.
    pub fn new(token: String) -> (r: Self)
        ensures
            r.0 == token,
    {
        ConfigToken(token)
    }

    /// The token itself.
    pub fn expose(&self) -> (r: &str)
        ensures
            r@ == self.0@,
    {
        self.0.as_str()
    }

    /// What stands in for a token where it is shown.
    pub fn redacted() -> (r: Self)
        ensures
            r.0@ == "<redacted>"@,
    {
        ConfigToken("<redacted>".to_owned())
    }
}

/// The text of an optional token.
pub open spec fn token_text(token: Option<ConfigToken>) -> Option<Text> {
    match token {
        Some(t) => Some(t.0@),
        None => None,
    }
}

/// A connection to one server. `backend` holds the value of a key that is no
/// longer accepted.
pub struct ProfileConfig {
    pub url: String,
    pub token_env: Option<String>,
    pub token: Option<ConfigToken>,
    pub auth_scheme: Option<AuthScheme>,
    pub api: Option<ApiConfig>,
    pub backend: Option<String>,
    pub verify_tls: Option<bool>,
    pub timeout_secs: Option<u64>,
    pub page_size: Option<u64>,
    pub exclude_config_context: Option<bool>,
}

impl Default for ProfileConfig {
    fn default() -> (r: Self)
        ensures
            r.url@.len() == 0,
            r.token_env is None,
            r.token is None,
            r.auth_scheme is None,
            r.api is None,
            r.backend is None,
            r.verify_tls is None,
            r.timeout_secs is None,
            r.page_size is None,
            r.exclude_config_context is None,
    {
        ProfileConfig {
            url: String::new(),
            token_env: None,
            token: None,
            auth_scheme: None,
            api: None,
            backend: None,
            verify_tls: None,
            timeout_secs: None,
            page_size: None,
            exclude_config_context: None,
        }
    }
}

impl ProfileConfig {
    /// The backend of a surface: the chosen one, else REST.
    pub open spec fn backend_of(self, surface: ApiSurface) -> BackendPreference {
        match self.api {
            Some(a) => match a.chosen(surface) {
                Some(p) => p,
                None => BackendPreference::Rest,
            },
            None => BackendPreference::Rest,
        }
    }

    /// The backend of a surface.
    pub fn api_preference(&self, surface: ApiSurface) -> (r: BackendPreference)
        ensures
            r == self.backend_of(surface),
    {
        match &self.api {
            Some(a) => {
                let chosen = match surface {
                    ApiSurface::Search => a.search,
                    ApiSurface::Vrf => a.vrf,
                    ApiSurface::RouteTarget => a.route_target,
                };
                match chosen {
                    Some(p) => p,
                    None => BackendPreference::Rest,
                }
            },
            None => BackendPreference::Rest,
        }
    }
}

// ===== Settings ==========================================================

/// Settings of the server mode.
pub struct ServeConfig {
    pub http: Option<String>,
    pub http_token: Option<String>,
    pub oidc_issuer: Option<String>,
    pub audience: Option<String>,
    pub jwks_url: Option<String>,
    pub allowed_hosts: Vec<String>,
    pub rate_limit: Option<u32>,
}

impl Default for ServeConfig {
    fn default() -> (r: Self)
        ensures
            r.http is None,
            r.http_token is None,
            r.oidc_issuer is None,
            r.audience is None,
            r.jwks_url is None,
            r.allowed_hosts@.len() == 0,
            r.rate_limit is None,
    {
        ServeConfig {
            http: None,
            http_token: None,
            oidc_issuer: None,
            audience: None,
            jwks_url: None,
            allowed_hosts: Vec::new(),
            rate_limit: None,
        }
    }
}

/// Preferences of the terminal interface.
#[derive(Debug)]
pub struct UiConfig {
    pub theme: String,
    pub confirm_writes: bool,
    pub open_browser_command: String,
    pub refresh_secs: Option<u64>,
    pub last_browsed: Option<String>,
}

impl Default for UiConfig {
    fn default() -> (r: Self)
        ensures
            r.theme@ == "default"@,
            r.confirm_writes,
            r.open_browser_command@.len() == 0,
            r.refresh_secs is None,
            r.last_browsed is None,
    {
        UiConfig {
            theme: "default".to_owned(),
            confirm_writes: true,
            open_browser_command: String::new(),
            refresh_secs: None,
            last_browsed: None,
        }
    }
}

/// Settings of the read cache.
#[derive(Debug)]
pub struct CacheSettings {
    pub enabled: bool,
    pub ttl_secs: u64,
    pub path: Option<String>,
}

impl Default for CacheSettings {
    fn default() -> (r: Self)
        ensures
            r.enabled,
            r.ttl_secs == 30,
            r.path is None,
    {
        CacheSettings { enabled: true, ttl_secs: 30, path: None }
    }
}

/// The settings that logging needs.
#[derive(Debug)]
pub struct LoggingConfig {
    pub log_file: Option<String>,
    pub log_level: Option<String>,
}

impl Default for LoggingConfig {
    fn default() -> (r: Self)
        ensures
            r.log_file is None,
            r.log_level is None,
    {
        LoggingConfig { log_file: None, log_level: None }
    }
}

// ===== The whole configuration ===========================================

/// `indexmap::IndexMap`, carried as it is.
#[verifier::external_type_specification]
#[verifier::external_body]
#[verifier::reject_recursive_types(K)]
#[verifier::reject_recursive_types(V)]
#[verifier::reject_recursive_types(S)]
pub struct ExIndexMap<K, V, S>(indexmap::IndexMap<K, V, S>);

/// Profiles by name, in the order of the file.
pub type Profiles = indexmap::IndexMap<String, ProfileConfig>;

/// The profiles of a map, in order.
pub uninterp spec fn profile_list(profiles: Profiles) -> Seq<(Seq<char>, ProfileConfig)>;

/// `IndexMap::new`: no profiles.
#[verifier::external_body]
fn no_profiles() -> (r: Profiles)
    ensures
        profile_list(r).len() == 0,
{
    indexmap::IndexMap::new()
}

/// `IndexMap::len`.
#[verifier::external_body]
pub(crate) fn profile_count(profiles: &Profiles) -> (r: usize)
    ensures
        r == profile_list(*profiles).len(),
{
    profiles.len()
}

/// `IndexMap::get_index_of`: the position of a name. A name occurs only once.
#[verifier::external_body]
pub(crate) fn profile_index(profiles: &Profiles, name: &str) -> (r: Option<usize>)
    ensures
        match r {
            Some(i) => {
                &&& i < profile_list(*profiles).len()
                &&& profile_list(*profiles)[i as int].0 == name@
                &&& forall|j: int|
                    0 <= j < profile_list(*profiles).len() && j != i ==> (
                    #[trigger] profile_list(*profiles)[j]).0 != name@
            },
            None => forall|j: int|
                0 <= j < profile_list(*profiles).len() ==> (
                #[trigger] profile_list(*profiles)[j]).0 != name@,
        },
{
    profiles.get_index_of(name)
}

/// `IndexMap::get_index`: the name and profile at a position.
#[verifier::external_body]
pub(crate) fn profile_at(profiles: &Profiles, i: usize) -> (r: Option<(&String, &ProfileConfig)>)
    ensures
        match r {
            Some((name, profile)) => {
                &&& i < profile_list(*profiles).len()
                &&& profile_list(*profiles)[i as int] == (name@, *profile)
            },
            None => i >= profile_list(*profiles).len(),
        },
{
    profiles.get_index(i)
}

/// `IndexMap::get_index_mut`: the profile at a position, to change. Names and other
/// profiles stay.
#[verifier::external_body]
pub(crate) fn profile_at_mut(profiles: &mut Profiles, i: usize) -> (r: Option<&mut ProfileConfig>)
    ensures
        match r {
            Some(profile) => {
                &&& i < profile_list(*old(profiles)).len()
                &&& *profile == profile_list(*old(profiles))[i as int].1
                &&& profile_list(*final(profiles)) == profile_list(*old(profiles)).update(
                    i as int,
                    (profile_list(*old(profiles))[i as int].0, *final(profile)),
                )
            },
            None => i >= profile_list(*old(profiles)).len() && *final(profiles) == *old(profiles),
        },
{
    profiles.get_index_mut(i).map(|(_, profile)| profile)
}

/// The configuration.
pub struct Config {
    pub config_version: Option<u32>,
    pub active_profile: Option<String>,
    pub log_file: Option<String>,
    pub log_level: Option<String>,
    pub ui: UiConfig,
    pub cache: CacheSettings,
    pub serve: ServeConfig,
    pub profiles: indexmap::IndexMap<String, ProfileConfig>,
}

impl Default for Config {
    fn default() -> (r: Self)
        ensures
            r.config_version is None,
            r.active_profile is None,
            r.log_file is None,
            r.log_level is None,
            r.ui.theme@ == "default"@,
            r.ui.confirm_writes,
            r.ui.open_browser_command@.len() == 0,
            r.ui.refresh_secs is None,
            r.ui.last_browsed is None,
            r.cache.enabled,
            r.cache.ttl_secs == 30,
            r.cache.path is None,
            r.serve.http is None,
            r.serve.http_token is None,
            r.serve.oidc_issuer is None,
            r.serve.audience is None,
            r.serve.jwks_url is None,
            r.serve.allowed_hosts@.len() == 0,
            r.serve.rate_limit is None,
            profile_list(r.profiles).len() == 0,
    {
        Config {
            config_version: None,
            active_profile: None,
            log_file: None,
            log_level: None,
            ui: UiConfig::default(),
            cache: CacheSettings::default(),
            serve: ServeConfig::default(),
            profiles: no_profiles(),
        }
    }
}

/// Whether a profile of a name exists.
pub open spec fn has_profile(list: Seq<(Text, ProfileConfig)>, name: Text) -> bool {
    exists|i: int| 0 <= i < list.len() && (#[trigger] list[i]).0 == name
}

impl Config {
    /// Its profiles, in the order of the file.
    pub open spec fn profile_seq(self) -> Seq<(Text, ProfileConfig)> {
        profile_list(self.profiles)
    }

    /// Whether a profile of a name exists.
    pub fn knows(&self, name: &str) -> (r: bool)
        ensures
            r == has_profile(self.profile_seq(), name@),
    {
        profile_index(&self.profiles, name).is_some()
    }
}

/// Whether the first-run setup is needed: there is no profile, or none that the
/// command line or the configuration names exists.
pub open spec fn onboarding_needed(
    list: Seq<(Text, ProfileConfig)>,
    explicit: Option<Text>,
    active: Option<Text>,
) -> bool {
    if list.len() == 0 {
        true
    } else {
        match explicit {
            Some(name) => !has_profile(list, name),
            None => match active {
                Some(name) => !has_profile(list, name),
                None => true,
            },
        }
    }
}

/// Whether the first-run setup is needed.
pub fn needs_onboarding_for(cfg: &Config, explicit_profile: Option<&str>) -> (r: bool)
    ensures
        r == onboarding_needed(
            cfg.profile_seq(),
            opt_str(explicit_profile),
            opt_text(cfg.active_profile),
        ),
{
    if profile_count(&cfg.profiles) == 0 {
        return true;
    }
    if let Some(name) = explicit_profile {
        return !cfg.knows(name);
    }
    match &cfg.active_profile {
        Some(name) => !cfg.knows(name.as_str()),
        None => true,
    }
}

/// What a look at the configuration file gave.
pub enum ConfigFile {
    /// There is no file, or none whose text can be read.
    Absent,
    /// Its text is no configuration.
    Unreadable,
    /// It is this configuration.
    Read(Config),
}

/// Whether the first-run setup is needed, given the file. A text that is no
/// configuration is the user's to mend, and needs no setup.
pub fn needs_onboarding(file: &ConfigFile, explicit_profile: Option<&str>) -> (r: bool)
    ensures
        r == match *file {
            ConfigFile::Absent => true,
            ConfigFile::Unreadable => false,
            ConfigFile::Read(cfg) => onboarding_needed(
                cfg.profile_seq(),
                opt_str(explicit_profile),
                opt_text(cfg.active_profile),
            ),
        },
{
    match file {
        ConfigFile::Absent => true,
        ConfigFile::Unreadable => false,
        ConfigFile::Read(cfg) => needs_onboarding_for(cfg, explicit_profile),
    }
}

/// The version of a configuration that is newer than this one understands.
pub fn newer_version(cfg: &Config) -> (r: Option<u32>)
    ensures
        r == match cfg.config_version {
            Some(v) => if v > CONFIG_VERSION {
                Some(v)
            } else {
                None
            },
            None => None,
        },
{
    match cfg.config_version {
        Some(v) => if v > CONFIG_VERSION {
            Some(v)
        } else {
            None
        },
        None => None,
    }
}

/// The message that rejects the removed `backend` key.
pub open spec fn removed_backend_text(name: Text) -> Text {
    "profile `"@ + name
        + "`: the `backend` key was removed — set the backend per surface under `[profiles."@ + name
        + ".api]` instead, e.g. `search = \"graphql\"` (and/or `vrf = \"graphql\"`)"@
}

/// The position of the first profile with the removed key, or the length.
pub open spec fn first_removed(list: Seq<(Text, ProfileConfig)>) -> nat
    decreases list.len(),
{
    if list.len() == 0 || list[0].1.backend is Some {
        0
    } else {
        first_removed(list.skip(1)) + 1
    }
}

/// Rejects a configuration in which a profile has the removed `backend` key.
pub fn reject_removed_backend(cfg: &Config) -> (r: Result<(), String>)
    ensures
        ({
            let n = first_removed(cfg.profile_seq());
            if n < cfg.profile_seq().len() {
                r is Err && r->Err_0@ == removed_backend_text(cfg.profile_seq()[n as int].0)
            } else {
                r is Ok
            }
        }),
{
    let ghost list = cfg.profile_seq();
    let n: usize = profile_count(&cfg.profiles);
    let mut i: usize = 0;
    proof {
        assert(list.skip(0) =~= list);
    }
    while i < n
        invariant
            i <= n,
            n == list.len(),
            list == profile_list(cfg.profiles),
            first_removed(list) == i + first_removed(list.skip(i as int)),
        decreases n - i,
    {
        proof {
            assert(list.skip(i as int)[0] == list[i as int]);
            assert(list.skip(i as int).skip(1) =~= list.skip(i as int + 1));
        }
        if let Some((name, profile)) = profile_at(&cfg.profiles, i) {
            if profile.backend.is_some() {
                return Err(
                    crate::text::cat5(
                        "profile `",
                        name.as_str(),
                        "`: the `backend` key was removed — set the backend per surface under `[profiles.",
                        name.as_str(),
                        ".api]` instead, e.g. `search = \"graphql\"` (and/or `vrf = \"graphql\"`)",
                    ),
                );
            }
        }
        i = i + 1;
    }
    Ok(())
}

// ===== Secrets ===========================================================

/// Whether a profile is another with its token blotted out.
pub open spec fn blotted_profile(before: ProfileConfig, after: ProfileConfig) -> bool {
    &&& after.url == before.url
    &&& after.token_env == before.token_env
    &&& match before.token {
        Some(_) => token_text(after.token) == Some("<redacted>"@),
        None => after.token is None,
    }
    &&& after.auth_scheme == before.auth_scheme
    &&& after.api == before.api
    &&& after.backend == before.backend
    &&& after.verify_tls == before.verify_tls
    &&& after.timeout_secs == before.timeout_secs
    &&& after.page_size == before.page_size
    &&& after.exclude_config_context == before.exclude_config_context
}

/// A profile with its token blotted out, so that it can be shown.
pub fn redacted_profile(profile: &ProfileConfig) -> (r: ProfileConfig)
    ensures
        blotted_profile(*profile, r),
{
    ProfileConfig {
        url: profile.url.clone(),
        token_env: copy_opt(&profile.token_env),
        token: match &profile.token {
            Some(_) => Some(ConfigToken::redacted()),
            None => None,
        },
        auth_scheme: profile.auth_scheme,
        api: profile.api,
        backend: copy_opt(&profile.backend),
        verify_tls: profile.verify_tls,
        timeout_secs: profile.timeout_secs,
        page_size: profile.page_size,
        exclude_config_context: profile.exclude_config_context,
    }
}

/// Whether a configuration is another with every secret blotted out and nothing
/// else changed.
pub open spec fn blotted(before: Config, after: Config) -> bool {
    &&& after.config_version == before.config_version
    &&& after.active_profile == before.active_profile
    &&& after.log_file == before.log_file
    &&& after.log_level == before.log_level
    &&& after.ui == before.ui
    &&& after.cache == before.cache
    &&& after.serve.http == before.serve.http
    &&& match before.serve.http_token {
        Some(_) => opt_text(after.serve.http_token) == Some("<redacted>"@),
        None => after.serve.http_token is None,
    }
    &&& after.serve.oidc_issuer == before.serve.oidc_issuer
    &&& after.serve.audience == before.serve.audience
    &&& after.serve.jwks_url == before.serve.jwks_url
    &&& after.serve.allowed_hosts == before.serve.allowed_hosts
    &&& after.serve.rate_limit == before.serve.rate_limit
    &&& after.profile_seq().len() == before.profile_seq().len()
    &&& forall|i: int|
        0 <= i < before.profile_seq().len() ==> (#[trigger] after.profile_seq()[i]).0
            == before.profile_seq()[i].0 && blotted_profile(
            before.profile_seq()[i].1,
            after.profile_seq()[i].1,
        )
}

/// Blots out every secret, so that the configuration can be shown.
pub fn redact_secrets(cfg: &mut Config)
    ensures
        blotted(*old(cfg), *final(cfg)),
{
    let ghost before = *cfg;
    if cfg.serve.http_token.is_some() {
        cfg.serve.http_token = Some("<redacted>".to_owned());
    }
    let n: usize = profile_count(&cfg.profiles);
    let mut i: usize = 0;
    while i < n
        invariant
            i <= n,
            n == before.profile_seq().len(),
            cfg.profile_seq().len() == n,
            cfg.config_version == before.config_version,
            cfg.active_profile == before.active_profile,
            cfg.log_file == before.log_file,
            cfg.log_level == before.log_level,
            cfg.ui == before.ui,
            cfg.cache == before.cache,
            cfg.serve.http == before.serve.http,
            match before.serve.http_token {
                Some(_) => opt_text(cfg.serve.http_token) == Some("<redacted>"@),
                None => cfg.serve.http_token is None,
            },
            cfg.serve.oidc_issuer == before.serve.oidc_issuer,
            cfg.serve.audience == before.serve.audience,
            cfg.serve.jwks_url == before.serve.jwks_url,
            cfg.serve.allowed_hosts == before.serve.allowed_hosts,
            cfg.serve.rate_limit == before.serve.rate_limit,
            forall|j: int|
                0 <= j < i ==> (#[trigger] cfg.profile_seq()[j]).0 == before.profile_seq()[j].0
                    && blotted_profile(before.profile_seq()[j].1, cfg.profile_seq()[j].1),
            forall|j: int|
                i <= j < n ==> #[trigger] cfg.profile_seq()[j] == before.profile_seq()[j],
        decreases n - i,
    {
        redact_profile(&mut cfg.profiles, i);
        i = i + 1;
    }
}

fn redact_profile(profiles: &mut Profiles, i: usize)
    requires
        i < profile_list(*old(profiles)).len(),
    ensures
        profile_list(*final(profiles)).len() == profile_list(*old(profiles)).len(),
        forall|j: int|
            0 <= j < profile_list(*old(profiles)).len() && j != i ==> #[trigger] profile_list(
                *final(profiles),
            )[j] == profile_list(*old(profiles))[j],
        profile_list(*final(profiles))[i as int].0 == profile_list(*old(profiles))[i as int].0,
        blotted_profile(
            profile_list(*old(profiles))[i as int].1,
            profile_list(*final(profiles))[i as int].1,
        ),
{
    if let Some(profile) = profile_at_mut(profiles, i) {
        if profile.token.is_some() {
            profile.token = Some(ConfigToken::redacted());
        }
    }
}

// ===== Laws ==============================================================

/// Each surface has its own name and reads its own setting: the three do not stand in for
/// one another, and a surface that is not set is read over REST.
pub proof fn surfaces_read_their_own_setting(p: ProfileConfig, a: ApiConfig)
    ensures
        ApiSurface::Search.name() == "search"@,
        ApiSurface::Vrf.name() == "vrf"@,
        ApiSurface::RouteTarget.name() == "route_target"@,
        BackendPreference::Rest.name() == "rest"@,
        BackendPreference::Graphql.name() == "graphql"@,
        a.chosen(ApiSurface::Search) == a.search,
        a.chosen(ApiSurface::Vrf) == a.vrf,
        a.chosen(ApiSurface::RouteTarget) == a.route_target,
        p.api is None ==> forall|s: ApiSurface| #[trigger]
            p.backend_of(s) == BackendPreference::Rest,
        p.api is Some && p.api->0.search is Some ==> p.backend_of(ApiSurface::Search)
            == p.api->0.search->0,
        p.api is Some && p.api->0.vrf is Some ==> p.backend_of(ApiSurface::Vrf)
            == p.api->0.vrf->0,
        p.api is Some && p.api->0.route_target is Some ==> p.backend_of(ApiSurface::RouteTarget)
            == p.api->0.route_target->0,
        p.api is Some && p.api->0.search is None ==> p.backend_of(ApiSurface::Search)
            == BackendPreference::Rest,
        p.api is Some && p.api->0.vrf is None ==> p.backend_of(ApiSurface::Vrf)
            == BackendPreference::Rest,
        p.api is Some && p.api->0.route_target is None ==> p.backend_of(ApiSurface::RouteTarget)
            == BackendPreference::Rest,
{
}

/// A profile has to be set up first exactly when the one that is asked for, or else the
/// active one, is not among those that are configured.
pub proof fn onboarding_waits_for_a_profile(
    list: Seq<(Text, ProfileConfig)>,
    explicit: Option<Text>,
    active: Option<Text>,
    i: int,
)
    ensures
        list.len() == 0 ==> onboarding_needed(list, explicit, active),
        explicit is None && active is None ==> onboarding_needed(list, explicit, active),
        0 <= i < list.len() && explicit == Some(list[i].0) ==> !onboarding_needed(
            list,
            explicit,
            active,
        ),
        0 <= i < list.len() && explicit is None && active == Some(list[i].0) ==> !onboarding_needed(
            list,
            explicit,
            active,
        ),
        explicit is Some && (forall|k: int|
            0 <= k < list.len() ==> (#[trigger] list[k]).0 != explicit->0) ==> onboarding_needed(
            list,
            explicit,
            active,
        ),
        explicit is None && active is Some && (forall|k: int|
            0 <= k < list.len() ==> (#[trigger] list[k]).0 != active->0) ==> onboarding_needed(
            list,
            explicit,
            active,
        ),
{
}

/// The profile that is named for a removed key is the first that has it.
pub proof fn the_first_removed_key_is_named(list: Seq<(Text, ProfileConfig)>)
    ensures
        first_removed(list) <= list.len(),
        forall|i: int| 0 <= i < first_removed(list) ==> (#[trigger] list[i]).1.backend is None,
        first_removed(list) < list.len() ==> list[first_removed(list) as int].1.backend is Some,
    decreases list.len(),
{
    if list.len() > 0 && list[0].1.backend is None {
        let rest = list.skip(1);
        the_first_removed_key_is_named(rest);
        assert forall|i: int| 0 <= i < first_removed(list) implies (
        #[trigger] list[i]).1.backend is None by {
            if i > 0 {
                assert(rest[i - 1] == list[i]);
            }
        }
        if first_removed(list) < list.len() {
            assert(rest[first_removed(rest) as int] == list[first_removed(list) as int]);
        }
    }
}

/// A blotted configuration tells no token and is otherwise the same.
pub proof fn blotting_hides_tokens_only(before: Config, after: Config, i: int)
    requires
        blotted(before, after),
        0 <= i < before.profile_seq().len(),
    ensures
        ({
            let (name, p) = before.profile_seq()[i];
            let (name_too, q) = after.profile_seq()[i];
            &&& name_too == name
            &&& p.token is Some ==> token_text(q.token) == Some("<redacted>"@)
            &&& p.token is None ==> q.token is None
            &&& q.url == p.url && q.token_env == p.token_env && q.auth_scheme == p.auth_scheme
            &&& q.api == p.api && q.verify_tls == p.verify_tls && q.timeout_secs == p.timeout_secs
            &&& q.page_size == p.page_size && q.exclude_config_context == p.exclude_config_context
        }),
        before.serve.http_token is Some ==> after.serve.http_token is Some
            && after.serve.http_token->0@ == "<redacted>"@,
        before.serve.http_token is None ==> after.serve.http_token is None,
        after.active_profile == before.active_profile && after.ui == before.ui && after.cache
            == before.cache && after.log_file == before.log_file && after.log_level
            == before.log_level,
        after.serve.http == before.serve.http && after.serve.oidc_issuer
            == before.serve.oidc_issuer && after.serve.audience == before.serve.audience
            && after.serve.jwks_url == before.serve.jwks_url && after.serve.allowed_hosts
            == before.serve.allowed_hosts && after.serve.rate_limit == before.serve.rate_limit,
{
    assert(after.profile_seq()[i].0 == before.profile_seq()[i].0);
}

/// A profile that still has the removed key is told where its backend is set now.
pub proof fn removed_keys_are_explained(name: Text)
    ensures
        removed_backend_text(name) == "profile `"@ + name
            + "`: the `backend` key was removed — set the backend per surface under `[profiles."@
            + name
            + ".api]` instead, e.g. `search = \"graphql\"` (and/or `vrf = \"graphql\"`)"@,
{
}

} // verus!
