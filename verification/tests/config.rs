//! Configuration: profiles, tokens, edits that keep a file's formatting.

use nbox::config::document::{
    remove_profile, set_active_profile, set_profile_api_backend, set_profile_auth_scheme,
    set_profile_exclude_config_context, set_profile_page_size, set_profile_timeout_secs,
    set_profile_token, set_profile_token_env, set_profile_verify_tls, set_setting_field,
    set_top_string, set_ui_field, set_ui_theme, upsert_profile, ConfigError, SettingField, UiField,
};
use nbox::config::open::build_open_argv;
use nbox::config::profile::{
    list_profiles, load_doc_or_new, run_profile, save_active_profile, save_setting_fields,
    save_ui_field, save_ui_fields, save_ui_theme, show_profile, shown_profile, write_doc, ProfileCommand,
};
use nbox::config::token::{
    normalize_token, resolve_probe_token, resolve_token, resolve_token_source, select_env_token,
    token_profile_name, TokenSource,
};
use nbox::config::{
    needs_onboarding, needs_onboarding_for, newer_version, redact_secrets, reject_removed_backend,
    ApiConfig, ApiSurface, BackendPreference, Config, ConfigFile, ConfigToken, ProfileConfig,
    CONFIG_VERSION, INIT_TEMPLATE,
};
use nbox::netbox::auth::AuthScheme;
use toml_edit::DocumentMut;

const SAMPLE: &str = r#"
active_profile = "work"

[ui]
theme = "nord"

[profiles.work]
url = "https://netbox.example.com"
token_env = "NETBOX_TOKEN"
auth_scheme = "bearer"
page_size = 250

[profiles.work.api]
search = "graphql"
"#;

// ===== Reading a configuration =====

fn text_at(t: &toml::Table, key: &str) -> Option<String> {
    t.get(key).and_then(|v| v.as_str()).map(str::to_string)
}

fn number_at(t: &toml::Table, key: &str) -> Option<u64> {
    t.get(key).and_then(|v| v.as_integer()).map(|n| n as u64)
}

fn flag_at(t: &toml::Table, key: &str) -> Option<bool> {
    t.get(key).and_then(|v| v.as_bool())
}

fn table_at<'a>(t: &'a toml::Table, key: &str) -> Option<&'a toml::Table> {
    t.get(key).and_then(|v| v.as_table())
}

fn preference(t: &toml::Table, key: &str) -> Option<BackendPreference> {
    match text_at(t, key).as_deref() {
        Some("graphql") => Some(BackendPreference::Graphql),
        Some("rest") => Some(BackendPreference::Rest),
        _ => None,
    }
}

fn profile(t: &toml::Table) -> ProfileConfig {
    ProfileConfig {
        url: text_at(t, "url").unwrap(),
        token_env: text_at(t, "token_env"),
        token: text_at(t, "token").map(ConfigToken::new),
        auth_scheme: match text_at(t, "auth_scheme").as_deref() {
            Some("auto") => Some(AuthScheme::Auto),
            Some("bearer") => Some(AuthScheme::Bearer),
            Some("token") => Some(AuthScheme::Token),
            _ => None,
        },
        api: table_at(t, "api").map(|a| ApiConfig {
            search: preference(a, "search"),
            vrf: preference(a, "vrf"),
            route_target: preference(a, "route_target"),
        }),
        backend: text_at(t, "backend"),
        verify_tls: flag_at(t, "verify_tls"),
        timeout_secs: number_at(t, "timeout_secs"),
        page_size: number_at(t, "page_size"),
        exclude_config_context: flag_at(t, "exclude_config_context"),
    }
}

fn parse(text: &str) -> toml::Table {
    text.parse::<toml::Table>().unwrap()
}

fn config(text: &str) -> Config {
    let t = parse(text);
    let mut cfg = Config::default();
    cfg.config_version = number_at(&t, "config_version").map(|n| n as u32);
    cfg.active_profile = text_at(&t, "active_profile");
    cfg.log_file = text_at(&t, "log_file");
    cfg.log_level = text_at(&t, "log_level");
    if let Some(ui) = table_at(&t, "ui") {
        cfg.ui.theme = text_at(ui, "theme").unwrap_or(cfg.ui.theme);
        cfg.ui.refresh_secs = number_at(ui, "refresh_secs");
        cfg.ui.last_browsed = text_at(ui, "last_browsed");
        if let Some(command) = text_at(ui, "open_browser_command") {
            cfg.ui.open_browser_command = command;
        }
    }
    if let Some(cache) = table_at(&t, "cache") {
        cfg.cache.enabled = flag_at(cache, "enabled").unwrap_or(cfg.cache.enabled);
        cfg.cache.ttl_secs = number_at(cache, "ttl_secs").unwrap_or(cfg.cache.ttl_secs);
    }
    if let Some(serve) = table_at(&t, "serve") {
        cfg.serve.http = text_at(serve, "http");
        cfg.serve.http_token = text_at(serve, "http_token");
    }
    // `toml_edit` keeps the order of the document.
    let doc = text.parse::<DocumentMut>().unwrap();
    if let Some(profiles) = doc.get("profiles").and_then(|p| p.as_table_like()) {
        let all = table_at(&t, "profiles").unwrap();
        for (name, _) in profiles.iter() {
            cfg.profiles.insert(name.to_string(), profile(table_at(all, name).unwrap()));
        }
    }
    cfg
}

fn bare(url: &str) -> ProfileConfig {
    ProfileConfig { url: url.to_string(), ..Default::default() }
}

#[test]
fn profiles_preserve_config_file_order_not_alphabetical() {
    // Declared out of alphabetical order on purpose: the `IndexMap` must keep
    // TOML document order so the TUI switcher (`P`/`Ctrl+P`) cycles in file
    // order. A `BTreeMap` would re-sort these to alpha and break that.
    let cfg = config("[profiles.zebra]\nurl = \"https://z\"\n\
         [profiles.alpha]\nurl = \"https://a\"\n\
         [profiles.mike]\nurl = \"https://m\"\n");
    let order: Vec<&str> = cfg.profiles.keys().map(String::as_str).collect();
    assert_eq!(order, ["zebra", "alpha", "mike"]);
}

#[test]
fn env_token_prefers_token_env_over_nbox_token() {
    // Reversed precedence (Phase A): the profile's `token_env` wins over
    // `NBOX_TOKEN`. Env always still beats the config token (layered on later).
    assert_eq!(
        select_env_token(Some("from-token-env".into()), Some("from-nbox".into())),
        Some("from-token-env".into())
    );
    // Falls back to NBOX_TOKEN when token_env is absent.
    assert_eq!(
        select_env_token(None, Some("from-nbox".into())),
        Some("from-nbox".into())
    );
    // An empty token_env value is skipped, falling through to NBOX_TOKEN.
    assert_eq!(
        select_env_token(Some(String::new()), Some("from-nbox".into())),
        Some("from-nbox".into())
    );
    // An empty NBOX_TOKEN with no token_env yields None (→ config tier).
    assert_eq!(select_env_token(None, Some(String::new())), None);
    // Neither env source set → None (→ config tier, then no token).
    assert_eq!(select_env_token(None, None), None);
}

#[test]
fn normalize_token_strips_scheme_prefix_and_whitespace() {
    // NetBox's copy button hands you "Bearer nbt_…"; pasting it verbatim must
    // still yield a bare key. Case-insensitive; stray whitespace is trimmed.
    assert_eq!(
        normalize_token("  nbt_abc.def  ").as_deref(),
        Some("nbt_abc.def")
    );
    assert_eq!(
        normalize_token("Bearer nbt_abc.def").as_deref(),
        Some("nbt_abc.def")
    );
    assert_eq!(
        normalize_token("bearer  nbt_abc.def").as_deref(),
        Some("nbt_abc.def")
    );
    assert_eq!(
        normalize_token("Token 0123abcd").as_deref(),
        Some("0123abcd")
    );
    assert_eq!(
        normalize_token("Bearer nbt_abc.def\n").as_deref(),
        Some("nbt_abc.def")
    );
    assert_eq!(normalize_token("   "), None);
    assert_eq!(normalize_token("Bearer   "), None);
}

#[test]
fn upsert_and_activate_round_trip() {
    let mut doc = DocumentMut::new();
    upsert_profile(&mut doc, "lab", "https://nb.lab", Some("NETBOX_LAB_TOKEN")).unwrap();
    set_active_profile(&mut doc, "lab");

    let cfg = config(&doc.to_string());
    assert_eq!(cfg.active_profile.as_deref(), Some("lab"));
    let lab = &cfg.profiles["lab"];
    assert_eq!(lab.url, "https://nb.lab");
    assert_eq!(lab.token_env.as_deref(), Some("NETBOX_LAB_TOKEN"));
}

#[test]
fn set_ui_theme_round_trips_and_preserves_comments() {
    let original = "# notes\n[ui]\ntheme = \"default\"\nwide = false\n";
    let mut doc = original.parse::<DocumentMut>().unwrap();
    set_ui_theme(&mut doc, "nord");
    let out = doc.to_string();
    assert!(out.contains("# notes"), "comment should survive");
    assert!(out.contains("wide = false"), "other ui keys preserved");

    let cfg = config(&out);
    assert_eq!(cfg.ui.theme, "nord");
}

#[test]
fn set_ui_theme_creates_ui_table_when_absent() {
    let mut doc = DocumentMut::new();
    set_ui_theme(&mut doc, "matrix");
    let cfg = config(&doc.to_string());
    assert_eq!(cfg.ui.theme, "matrix");
}

#[test]
fn upsert_preserves_existing_comments() {
    let original = "# my notes\nactive_profile = \"a\"\n\n[profiles.a]\nurl = \"https://a\"\n";
    let mut doc = original.parse::<DocumentMut>().unwrap();
    upsert_profile(&mut doc, "b", "https://b", None).unwrap();
    let out = doc.to_string();
    assert!(out.contains("# my notes"), "comment should survive edit");
    assert!(out.contains("[profiles.b]"));
}

#[test]
fn remove_profile_preserves_comments_and_other_keys() {
    // Removing one profile must leave the file's comments, top-level keys, and
    // the *other* profile entirely intact (format-preserving round-trip).
    let original = "\
# keep me
active_profile = \"a\"

[ui]
theme = \"nord\"  # inline note

[profiles.a]
url = \"https://a\"
token_env = \"A_TOKEN\"

[profiles.b]
url = \"https://b\"
";
    let mut doc = original.parse::<DocumentMut>().unwrap();
    assert!(remove_profile(&mut doc, "a").unwrap(), "a was removed");
    let out = doc.to_string();
    // Comments and unrelated keys survive.
    assert!(out.contains("# keep me"), "top comment preserved");
    assert!(out.contains("theme = \"nord\""), "ui section preserved");
    assert!(out.contains("# inline note"), "inline comment preserved");
    assert!(
        out.contains("active_profile = \"a\""),
        "other keys preserved"
    );
    // The removed profile is gone; the sibling stays.
    let cfg = config(&out);
    assert!(!cfg.profiles.contains_key("a"), "a removed");
    assert!(cfg.profiles.contains_key("b"), "b kept");
    assert_eq!(cfg.profiles["b"].url, "https://b");
    // Removing a non-existent profile is a no-op returning false.
    assert!(!remove_profile(&mut doc, "nope").unwrap());
    // Removing on a doc with no `profiles` table is also a clean false.
    let mut empty = DocumentMut::new();
    assert!(!remove_profile(&mut empty, "x").unwrap());
}

#[test]
fn set_ui_field_round_trips_and_preserves_comments_and_other_keys() {
    // A realistic file: a top comment, an inline comment, other [ui] keys, and
    // a profile. Setting each ui field must touch only that key.
    let original = "\
# keep me
active_profile = \"a\"

[ui]
theme = \"default\"
wide = false  # kept untouched

[profiles.a]
url = \"https://a\"
";
    let mut doc = original.parse::<DocumentMut>().unwrap();
    set_ui_field(&mut doc, &UiField::Theme("nord".into()));
    set_ui_field(&mut doc, &UiField::RefreshSecs(Some(30)));
    set_ui_field(
        &mut doc,
        &UiField::OpenBrowserCommand("firefox --new-tab".into()),
    );
    set_ui_field(&mut doc, &UiField::LastBrowsed(Some("vrf".into())));
    let out = doc.to_string();
    // Comments and unrelated keys/sections survive. (An inline comment on a key
    // that *isn't* changed is preserved; overwriting a value replaces its own
    // line, same as `set_ui_theme`.)
    assert!(out.contains("# keep me"), "top comment preserved");
    assert!(
        out.contains("# kept untouched"),
        "inline comment on an unchanged key preserved"
    );
    assert!(out.contains("wide = false"), "other [ui] key preserved");
    assert!(out.contains("[profiles.a]"), "profile section preserved");
    assert!(out.contains("active_profile = \"a\""), "top key preserved");

    let cfg = config(&out);
    assert_eq!(cfg.ui.theme, "nord");
    assert_eq!(cfg.ui.refresh_secs, Some(30));
    assert_eq!(cfg.ui.open_browser_command, "firefox --new-tab");
    assert_eq!(cfg.ui.last_browsed.as_deref(), Some("vrf"));

    // `LastBrowsed(None)` removes the key (e.g. a session that ends on Recent).
    set_ui_field(&mut doc, &UiField::LastBrowsed(None));
    assert!(
        !doc.to_string().contains("last_browsed"),
        "None clears the key"
    );
}

#[test]
fn set_ui_field_refresh_secs_zero_or_none_clears_the_key() {
    // Start with a refresh interval set, then clear it two ways.
    let mut doc = "[ui]\nrefresh_secs = 15\n".parse::<DocumentMut>().unwrap();
    set_ui_field(&mut doc, &UiField::RefreshSecs(Some(0)));
    assert!(
        !doc.to_string().contains("refresh_secs"),
        "0 clears the key (auto-refresh off)"
    );
    let mut doc2 = "[ui]\nrefresh_secs = 15\n".parse::<DocumentMut>().unwrap();
    set_ui_field(&mut doc2, &UiField::RefreshSecs(None));
    let cfg = config(&doc2.to_string());
    assert_eq!(cfg.ui.refresh_secs, None, "None clears refresh_secs");
}

#[test]
fn set_ui_field_creates_ui_table_when_absent() {
    let mut doc = DocumentMut::new();
    set_ui_field(&mut doc, &UiField::OpenBrowserCommand("xdg-open".into()));
    let cfg = config(&doc.to_string());
    assert_eq!(cfg.ui.open_browser_command, "xdg-open");
}

#[test]
fn build_open_argv_splits_command_and_appends_url() {
    // A set command splits into program + args, with the URL as the final arg.
    let argv = build_open_argv("firefox --new-tab", "https://nb/dcim/devices/1/").unwrap();
    assert_eq!(
        argv,
        vec![
            "firefox".to_string(),
            "--new-tab".to_string(),
            "https://nb/dcim/devices/1/".to_string(),
        ]
    );
    // A bare program still gets the URL appended.
    assert_eq!(
        build_open_argv("xdg-open", "https://x").unwrap(),
        vec!["xdg-open".to_string(), "https://x".to_string()]
    );
}

#[test]
fn build_open_argv_blank_command_is_none_for_os_default() {
    // Empty / whitespace-only command ⇒ None ⇒ caller falls back to open::that.
    assert_eq!(build_open_argv("", "https://x"), None);
    assert_eq!(build_open_argv("   ", "https://x"), None);
}

#[test]
fn build_open_argv_does_not_interpolate_the_url() {
    // A URL with shell metacharacters is passed as a single, literal final
    // argument — never spliced into the command string — so it can't inject.
    let nasty = "https://nb/?q=a;rm -rf /&x=`whoami`";
    let argv = build_open_argv("open -a Safari", nasty).unwrap();
    assert_eq!(argv.first().unwrap(), "open");
    assert_eq!(argv.last().unwrap(), nasty, "URL is one literal arg");
    // The program/args never absorb any part of the URL.
    assert_eq!(argv.len(), 4); // open, -a, Safari, <url>
}

#[test]
fn profile_field_setters_round_trip_and_clear() {
    let mut doc = DocumentMut::new();
    upsert_profile(&mut doc, "lab", "https://nb.lab", None).unwrap();
    set_profile_auth_scheme(&mut doc, "lab", Some(AuthScheme::Bearer)).unwrap();
    set_profile_verify_tls(&mut doc, "lab", Some(false)).unwrap();
    set_profile_token_env(&mut doc, "lab", Some("LAB_TOKEN")).unwrap();

    let cfg = config(&doc.to_string());
    let lab = &cfg.profiles["lab"];
    assert_eq!(lab.auth_scheme, Some(AuthScheme::Bearer));
    assert_eq!(lab.verify_tls, Some(false));
    assert_eq!(lab.token_env.as_deref(), Some("LAB_TOKEN"));

    // Clearing drops the keys (back to the implicit defaults), and `auto`
    // writes nothing (it's the default).
    set_profile_auth_scheme(&mut doc, "lab", Some(AuthScheme::Auto)).unwrap();
    set_profile_verify_tls(&mut doc, "lab", None).unwrap();
    set_profile_token_env(&mut doc, "lab", None).unwrap();
    let out = doc.to_string();
    assert!(!out.contains("auth_scheme"), "auto clears the key");
    assert!(!out.contains("verify_tls"), "None clears verify_tls");
    assert!(!out.contains("token_env"), "None clears token_env");
    let cfg2 = config(&out);
    let lab2 = &cfg2.profiles["lab"];
    assert_eq!(lab2.auth_scheme, None);
    assert_eq!(lab2.verify_tls, None);
    assert_eq!(lab2.token_env, None);
}

#[test]
fn profile_numeric_and_bool_setters_round_trip_and_clear() {
    // A realistic file: a comment and a sibling key on the same profile, so the
    // setters must touch only their own key.
    let original = "\
# keep me
[profiles.lab]
url = \"https://nb.lab\"  # keep inline
token_env = \"LAB_TOKEN\"
";
    let mut doc = original.parse::<DocumentMut>().unwrap();
    set_profile_timeout_secs(&mut doc, "lab", Some(30)).unwrap();
    set_profile_page_size(&mut doc, "lab", Some(250)).unwrap();
    set_profile_exclude_config_context(&mut doc, "lab", Some(true)).unwrap();

    let out = doc.to_string();
    assert!(out.contains("# keep me"), "top comment preserved: {out}");
    assert!(out.contains("# keep inline"), "inline comment preserved");
    assert!(
        out.contains("token_env = \"LAB_TOKEN\""),
        "sibling key kept"
    );

    let cfg = config(&out);
    let lab = &cfg.profiles["lab"];
    assert_eq!(lab.timeout_secs, Some(30));
    assert_eq!(lab.page_size, Some(250));
    assert_eq!(lab.exclude_config_context, Some(true));

    // Clearing each (None) drops the key back to the implicit default.
    set_profile_timeout_secs(&mut doc, "lab", None).unwrap();
    set_profile_page_size(&mut doc, "lab", None).unwrap();
    set_profile_exclude_config_context(&mut doc, "lab", None).unwrap();
    let out = doc.to_string();
    assert!(!out.contains("timeout_secs"), "None clears timeout_secs");
    assert!(!out.contains("page_size"), "None clears page_size");
    assert!(
        !out.contains("exclude_config_context"),
        "None clears exclude_config_context"
    );
    // The sibling key and comments are still there.
    assert!(out.contains("token_env = \"LAB_TOKEN\""));
    let cfg2 = config(&out);
    let lab2 = &cfg2.profiles["lab"];
    assert_eq!(lab2.timeout_secs, None);
    assert_eq!(lab2.page_size, None);
    assert_eq!(lab2.exclude_config_context, None);
}

#[test]
fn set_profile_api_backend_writes_graphql_and_clears_to_rest() {
    let mut doc = DocumentMut::new();
    upsert_profile(&mut doc, "lab", "https://nb.lab", None).unwrap();
    // GraphQL on two surfaces writes the `[api]` table with both keys.
    set_profile_api_backend(&mut doc, "lab", ApiSurface::Vrf, BackendPreference::Graphql)
        .unwrap();
    set_profile_api_backend(
        &mut doc,
        "lab",
        ApiSurface::RouteTarget,
        BackendPreference::Graphql,
    )
    .unwrap();
    let out = doc.to_string();
    assert!(
        out.contains("[profiles.lab.api]"),
        "api table written: {out}"
    );
    assert!(out.contains("vrf = \"graphql\""));
    assert!(out.contains("route_target = \"graphql\""));
    let cfg = config(&out);
    assert_eq!(
        cfg.profiles["lab"].api_preference(ApiSurface::Vrf),
        BackendPreference::Graphql
    );
    assert_eq!(
        cfg.profiles["lab"].api_preference(ApiSurface::RouteTarget),
        BackendPreference::Graphql
    );

    // Clearing one surface back to REST removes just that key; the table stays
    // for the other GraphQL surface.
    set_profile_api_backend(&mut doc, "lab", ApiSurface::Vrf, BackendPreference::Rest).unwrap();
    let out = doc.to_string();
    assert!(!out.contains("vrf = "), "vrf key removed: {out}");
    assert!(
        out.contains("route_target = \"graphql\""),
        "other surface kept"
    );
    assert!(
        out.contains("[profiles.lab.api]"),
        "table kept while non-empty"
    );

    // Clearing the last GraphQL surface drops the whole `[api]` table.
    set_profile_api_backend(
        &mut doc,
        "lab",
        ApiSurface::RouteTarget,
        BackendPreference::Rest,
    )
    .unwrap();
    let out = doc.to_string();
    assert!(
        !out.contains("[profiles.lab.api]"),
        "empty api table removed: {out}"
    );
    let cfg2 = config(&out);
    assert_eq!(
        cfg2.profiles["lab"].api_preference(ApiSurface::Vrf),
        BackendPreference::Rest
    );
    assert_eq!(
        cfg2.profiles["lab"].api_preference(ApiSurface::RouteTarget),
        BackendPreference::Rest
    );
}

#[test]
fn set_profile_api_backend_rest_on_a_profile_with_no_api_table_is_a_noop() {
    // Setting REST (the default) where there is no `[api]` table must not create
    // one — a REST-everywhere profile stays clean.
    let mut doc = DocumentMut::new();
    upsert_profile(&mut doc, "lab", "https://nb.lab", None).unwrap();
    set_profile_api_backend(&mut doc, "lab", ApiSurface::Vrf, BackendPreference::Rest).unwrap();
    let out = doc.to_string();
    assert!(
        !out.contains("[profiles.lab.api]"),
        "no api table created: {out}"
    );
}

#[test]
fn select_env_token_precedence_and_empty_skip() {
    // token_env wins over NBOX_TOKEN; empty values are skipped at each tier; the
    // config token is tried only after this returns None (see resolve_token).
    assert_eq!(
        select_env_token(Some("env".into()), Some("nbox".into())),
        Some("env".into()),
        "token_env beats NBOX_TOKEN"
    );
    assert_eq!(
        select_env_token(Some(String::new()), Some("nbox".into())),
        Some("nbox".into()),
        "empty token_env falls through to NBOX_TOKEN"
    );
    assert_eq!(
        select_env_token(None, Some("nbox".into())),
        Some("nbox".into())
    );
    assert_eq!(
        select_env_token(Some(String::new()), Some(String::new())),
        None,
        "both empty ⇒ None (the config token is tried next)"
    );
    assert_eq!(select_env_token(None, None), None);
}

#[test]
fn needs_onboarding_predicate_cases() {
    // No profiles at all ⇒ onboard.
    assert!(needs_onboarding_for(&Config::default(), None));

    let with_active = config("active_profile = \"work\"\n[profiles.work]\nurl = \"u\"\n");
    // A resolvable active profile ⇒ normal launch.
    assert!(!needs_onboarding_for(&with_active, None));
    // `--profile` naming an existing profile ⇒ normal launch …
    assert!(!needs_onboarding_for(&with_active, Some("work")));
    // … naming a missing one ⇒ onboard.
    assert!(needs_onboarding_for(&with_active, Some("nope")));

    // Profiles exist but no active set ⇒ onboard.
    let no_active = config("[profiles.work]\nurl = \"u\"\n");
    assert!(needs_onboarding_for(&no_active, None));

    // Active names a profile that no longer exists ⇒ onboard.
    let dangling = config("active_profile = \"gone\"\n[profiles.work]\nurl = \"u\"\n");
    assert!(needs_onboarding_for(&dangling, None));
}

#[test]
fn edits_preserve_comments_and_unrelated_keys() {
    let original = r#"# nbox config — hand-written
config_version = 1
active_profile = "work"  # the prod box
log_level = "info"

[ui]
theme = "nord"  # favorite
refresh_secs = 30

[profiles.work]
url = "https://nb.example"  # keep me
token_env = "NB_TOKEN"
"#;
    let mut doc: DocumentMut = original.parse().unwrap();
    // A spread of edits across [ui], a profile field, and a top-level key.
    set_ui_field(&mut doc, &UiField::Theme("gruvbox".to_string()));
    set_profile_token_env(&mut doc, "work", Some("PROD_TOKEN")).unwrap();
    set_top_string(&mut doc, "log_level", Some("debug"));
    let out = doc.to_string();

    // Comments + unrelated keys survive verbatim.
    assert!(out.contains("# nbox config — hand-written"), "{out}");
    assert!(out.contains("# the prod box"), "{out}");
    assert!(out.contains("# keep me"), "{out}");
    assert!(
        out.contains("refresh_secs = 30"),
        "untouched key kept: {out}"
    );
    assert!(out.contains("config_version = 1"));
    // Targeted values changed.
    assert!(out.contains("theme = \"gruvbox\""), "{out}");
    assert!(out.contains("token_env = \"PROD_TOKEN\""), "{out}");
    assert!(out.contains("log_level = \"debug\""), "{out}");
    // And it still parses to the expected typed values.
    let cfg = config(&out);
    assert_eq!(cfg.ui.theme, "gruvbox");
    assert_eq!(
        cfg.profiles["work"].token_env.as_deref(),
        Some("PROD_TOKEN")
    );
    assert_eq!(cfg.log_level.as_deref(), Some("debug"));
}

#[test]
fn api_preference_defaults_to_rest() {
    let profile = profile(&parse("url = \"https://nb.example\""));
    assert_eq!(profile.api_preference(ApiSurface::Search), BackendPreference::Rest);
    assert_eq!(profile.api_preference(ApiSurface::Vrf), BackendPreference::Rest);
    assert_eq!(profile.api_preference(ApiSurface::RouteTarget), BackendPreference::Rest);
}

#[test]
fn api_surface_preferences_parse() {
    let profile = profile(&parse(
        "url = \"https://nb.example\"\n[api]\nsearch = \"graphql\"\nvrf = \"rest\"\nroute_target = \"graphql\"\n",
    ));
    assert_eq!(profile.api_preference(ApiSurface::Search), BackendPreference::Graphql);
    assert_eq!(profile.api_preference(ApiSurface::Vrf), BackendPreference::Rest);
    assert_eq!(profile.api_preference(ApiSurface::RouteTarget), BackendPreference::Graphql);
}

#[test]
fn removed_backend_key_is_rejected_with_pointer() {
    let cfg = config("[profiles.work]\nurl = \"https://nb.example\"\nbackend = \"graphql\"\n");
    let msg = reject_removed_backend(&cfg).unwrap_err();
    assert!(msg.contains("`backend`"), "got: {msg}");
    assert!(msg.contains("[profiles.work.api]"), "got: {msg}");
    assert!(reject_removed_backend(&config(SAMPLE)).is_ok());
}

#[test]
fn config_show_redacts_http_token_in_toml_and_json() {
    let mut cfg =
        config("[serve]\nhttp = \"127.0.0.1:8080\"\nhttp_token = \"super-secret-value\"\n");
    redact_secrets(&mut cfg);
    assert_eq!(cfg.serve.http_token.as_deref(), Some("<redacted>"));
    assert_eq!(cfg.serve.http.as_deref(), Some("127.0.0.1:8080"));
    // An absent token stays None.
    let mut none = config("[serve]\nhttp = \"127.0.0.1:8080\"\n");
    redact_secrets(&mut none);
    assert_eq!(none.serve.http_token, None);
}

#[test]
fn config_token_debug_and_redaction_do_not_expose_secret() {
    let mut cfg = Config::default();
    cfg.profiles.insert(
        "work".to_string(),
        ProfileConfig {
            url: "https://nb.example".to_string(),
            token: Some(ConfigToken::new("nbt_supersecret.value".to_string())),
            ..Default::default()
        },
    );
    cfg.profiles.insert("lab".to_string(), bare("https://lab.example"));
    redact_secrets(&mut cfg);
    assert_eq!(cfg.profiles["work"].token.as_ref().unwrap().expose(), "<redacted>");
    assert_eq!(cfg.profiles["work"].url, "https://nb.example");
    assert!(cfg.profiles["lab"].token.is_none());
}

#[test]
fn a_newer_file_version_is_reported() {
    assert_eq!(newer_version(&config("config_version = 9\nfuture_knob = true\n")), Some(9));
    assert_eq!(newer_version(&config(&format!("config_version = {CONFIG_VERSION}\n"))), None);
    assert_eq!(newer_version(&config(SAMPLE)), None);
    assert!(INIT_TEMPLATE.parse::<toml::Table>().is_ok());
}

// ===== Tokens =====

#[test]
fn resolve_token_falls_through_to_none() {
    let profile = ProfileConfig {
        url: "https://nb.example".into(),
        token_env: Some("NBOX_TEST_DEFINITELY_UNSET_VAR_XYZ".into()),
        ..Default::default()
    };
    assert_eq!(resolve_token(&profile, None, None), None);
    assert!(matches!(resolve_token_source(&profile, None, None), TokenSource::Missing));
}

#[test]
fn config_token_is_resolved_after_env() {
    let profile = ProfileConfig {
        url: "https://nb.example".into(),
        token_env: Some("NBOX_TEST_DEFINITELY_UNSET_VAR_XYZ".into()),
        token: Some(ConfigToken::new("config-secret".into())),
        ..Default::default()
    };
    assert_eq!(resolve_token(&profile, None, None).as_deref(), Some("config-secret"));
    assert!(matches!(resolve_token_source(&profile, None, None), TokenSource::Config));
    assert_eq!(
        resolve_token(&profile, Some("env".into()), Some("nbox".into())).as_deref(),
        Some("env")
    );
    assert_eq!(resolve_token(&profile, None, Some("nbox".into())).as_deref(), Some("nbox"));
    assert!(matches!(
        resolve_token_source(&profile, None, Some("nbox")),
        TokenSource::NboxToken
    ));
}

#[test]
fn resolve_probe_token_normalizes_each_tier() {
    assert_eq!(
        resolve_probe_token(Some("Bearer nbt_typed.tok"), None, None, None).as_deref(),
        Some("nbt_typed.tok")
    );
    // A typed token that normalizes to nothing falls through to the config token,
    // which is itself normalized.
    assert_eq!(
        resolve_probe_token(Some("Bearer "), None, None, Some("Token nbt_cfg.tok")).as_deref(),
        Some("nbt_cfg.tok")
    );
    // Nothing anywhere ⇒ None.
    assert_eq!(resolve_probe_token(None, None, None, None), None);
}

#[test]
fn resolve_token_strips_a_bearer_prefix_from_the_config_token() {
    let profile = ProfileConfig {
        url: "https://nb.example".into(),
        token: Some(ConfigToken::new("Bearer nbt_abc.def".into())),
        ..Default::default()
    };
    assert_eq!(resolve_token(&profile, None, None).as_deref(), Some("nbt_abc.def"));
}

#[test]
fn token_status_label_maps_each_source() {
    let label = |s: &TokenSource| s.label();
    assert_eq!(label(&TokenSource::TokenEnv("NETBOX_TOKEN".into())), "token_env NETBOX_TOKEN");
    assert_eq!(label(&TokenSource::NboxToken), "NBOX_TOKEN");
    assert_eq!(label(&TokenSource::Config), "config");
    assert_eq!(label(&TokenSource::Missing), "none");
    // No label ever contains a token value — only the source / env-var name.
    for s in [
        TokenSource::TokenEnv("X".into()),
        TokenSource::NboxToken,
        TokenSource::Config,
        TokenSource::Missing,
    ] {
        assert!(!label(&s).contains("secret"));
    }
}

#[test]
fn nbox_token_normalizing_to_empty_falls_through_to_config() {
    assert_eq!(
        select_env_token(None, Some("Bearer ".into())),
        None,
        "a scheme-prefix-only NBOX_TOKEN normalizes to nothing and is skipped"
    );
    let profile = ProfileConfig {
        url: "https://nb.example".into(),
        token: Some(ConfigToken::new("nbt_real.token".into())),
        ..Default::default()
    };
    let resolved = resolve_token(&profile, None, Some("Bearer ".into()));
    let source = resolve_token_source(&profile, None, Some("Bearer "));
    assert_eq!(resolved.as_deref(), Some("nbt_real.token"));
    assert!(matches!(source, TokenSource::Config));
}

#[test]
fn resolve_token_source_reports_token_env_when_present() {
    let var = "NBOX_TEST_TOKENENV_SOURCE_VAR";
    let profile = ProfileConfig {
        url: "https://nb.example".into(),
        token_env: Some(var.to_string()),
        ..Default::default()
    };
    match resolve_token_source(&profile, Some("secret-value"), None) {
        TokenSource::TokenEnv(name) => assert_eq!(name, var),
        other => panic!("{}", other.label()),
    }
}

#[test]
fn a_token_belongs_to_the_named_or_the_active_profile() {
    assert_eq!(token_profile_name(Some("lab"), &Some("work".to_string())), "lab");
    assert_eq!(token_profile_name(None, &Some("work".to_string())), "work");
    assert_eq!(token_profile_name(None, &None), "default");
}

// ===== First run =====

#[test]
fn needs_onboarding_truth_table() {
    // No config file at the path ⇒ first-run.
    assert!(needs_onboarding(&ConfigFile::Absent, None));
    assert!(needs_onboarding(&ConfigFile::Absent, Some("anything")));

    // Parsed config with no profiles ⇒ first-run (regardless of --profile).
    let empty = config("config_version = 1\n");
    assert!(needs_onboarding_for(&empty, None));
    assert!(needs_onboarding_for(&empty, Some("work")));

    // Profiles exist but no active profile and no --profile ⇒ first-run.
    let no_active = config("[profiles.work]\nurl = \"https://nb.example\"\n");
    assert!(no_active.active_profile.is_none());
    assert!(!no_active.profiles.is_empty());
    assert!(needs_onboarding_for(&no_active, None));

    // …but `--profile work` names an existing profile ⇒ normal launch.
    assert!(!needs_onboarding_for(&no_active, Some("work")));
    // `--profile bogus` names a missing profile ⇒ first-run.
    assert!(needs_onboarding_for(&no_active, Some("bogus")));

    // A valid active profile that exists ⇒ normal launch.
    let valid = config(SAMPLE);
    assert_eq!(valid.active_profile.as_deref(), Some("work"));
    assert!(valid.profiles.contains_key("work"));
    assert!(!needs_onboarding_for(&valid, None));
    // An explicit, existing --profile also short-circuits to normal launch.
    assert!(!needs_onboarding_for(&valid, Some("work")));

    // An active_profile naming a profile that doesn't exist ⇒ first-run.
    let dangling =
        config("active_profile = \"gone\"\n\n[profiles.work]\nurl = \"https://nb.example\"\n");
    assert!(needs_onboarding_for(&dangling, None));
    assert!(needs_onboarding(&ConfigFile::Read(dangling), None));
}

#[test]
fn needs_onboarding_ignores_an_unparseable_file() {
    assert!(!needs_onboarding(&ConfigFile::Unreadable, None));
}

// ===== Profile commands =====

fn add(name: &str, url: &str) -> ProfileCommand {
    ProfileCommand::Add { name: name.to_string(), url: url.to_string(), token_env: None }
}

fn remove(name: &str) -> ProfileCommand {
    ProfileCommand::Remove { name: name.to_string() }
}

#[test]
fn profile_remove_drops_a_non_active_profile() {
    // The first add becomes active; the second is just a peer.
    let (text, said) = run_profile(None, &add("work", "https://netbox.example.com")).unwrap();
    assert_eq!(said, "added profile 'work' (https://netbox.example.com)");
    let (text, _) = run_profile(Some(&text), &add("lab", "https://lab.example.com")).unwrap();
    let (text, said) = run_profile(Some(&text), &remove("lab")).unwrap();
    assert_eq!(said, "removed profile 'lab'");
    let cfg = config(&text);
    assert!(cfg.profiles.contains_key("work"));
    assert!(!cfg.profiles.contains_key("lab"));
    assert_eq!(cfg.active_profile.as_deref(), Some("work"));
}

#[test]
fn profile_remove_refuses_missing_active_and_only() {
    let (text, _) = run_profile(None, &add("work", "https://netbox.example.com")).unwrap();
    // Unknown profile name.
    let err = run_profile(Some(&text), &remove("nope")).unwrap_err();
    assert!(matches!(&err, ConfigError::NoProfile(name) if name == "nope"));
    // Removing the only profile would strand the config.
    let err = run_profile(Some(&text), &remove("work")).unwrap_err();
    assert!(matches!(&err, ConfigError::OnlyProfile(name) if name == "work"));
    // With a peer present, the active profile is still protected.
    let (text, _) = run_profile(Some(&text), &add("lab", "https://lab.example.com")).unwrap();
    let err = run_profile(Some(&text), &remove("work")).unwrap_err();
    assert!(err.message().contains("active profile"));
    // Nothing was removed by the refused calls.
    assert_eq!(config(&text).profiles.len(), 2);
}

#[test]
fn profile_use_switches_to_a_known_profile() {
    let (text, _) = run_profile(None, &add("work", "https://netbox.example.com")).unwrap();
    let (text, _) = run_profile(Some(&text), &add("lab", "https://lab.example.com")).unwrap();
    let (text, said) =
        run_profile(Some(&text), &ProfileCommand::Use { name: "lab".to_string() }).unwrap();
    assert_eq!(said, "active profile set to 'lab'");
    assert_eq!(config(&text).active_profile.as_deref(), Some("lab"));
    let err = run_profile(Some(&text), &ProfileCommand::Use { name: "x".to_string() }).unwrap_err();
    assert_eq!(err.message(), "no profile named 'x'");
}

#[test]
fn profiles_are_listed_and_shown() {
    let cfg = config(
        "active_profile = \"b\"\n[profiles.a]\nurl = \"https://a\"\n[profiles.b]\nurl = \"https://b\"\n",
    );
    assert_eq!(list_profiles(&cfg), vec!["  a", "* b"]);
    assert_eq!(show_profile(&cfg, None).unwrap(), 1);
    assert_eq!(show_profile(&cfg, Some("a")).unwrap(), 0);
    assert!(matches!(show_profile(&cfg, Some("c")).unwrap_err(), ConfigError::NoProfile(_)));
    assert!(matches!(
        show_profile(&Config::default(), None).unwrap_err(),
        ConfigError::NoneNamed
    ));
}

// ===== Edits of a file's text =====

#[test]
fn save_ui_fields_writes_all_changes_in_one_pass() {
    let out = save_ui_fields(
        Some("# notes\n[ui]\ntheme = \"default\"\nwide = false\n"),
        &vec![
            UiField::Theme("nord".into()),
            UiField::RefreshSecs(Some(20)),
            UiField::OpenBrowserCommand("firefox".into()),
        ],
    )
    .unwrap();
    assert!(out.contains("# notes"), "comment preserved");
    assert!(out.contains("wide = false"), "other key preserved");
    let cfg = config(&out);
    assert_eq!(cfg.ui.theme, "nord");
    assert_eq!(cfg.ui.refresh_secs, Some(20));
    assert_eq!(cfg.ui.open_browser_command, "firefox");
}

#[test]
fn save_setting_fields_preserves_comments_unknown_keys_and_writes_log_fields() {
    let out = save_setting_fields(
        Some(
            "# my notes\n\
             active_profile = \"a\"\n\
             future_key = \"keep\"  # unknown to this build\n\
             \n\
             [ui]\n\
             theme = \"default\"\n\
             \n\
             [profiles.a]\n\
             url = \"https://a\"\n",
        ),
        &vec![
            SettingField::Ui(UiField::Theme("nord".into())),
            SettingField::LogLevel(Some("debug".into())),
            SettingField::LogFile(Some("/tmp/nbox.log".into())),
        ],
    )
    .unwrap();
    assert!(out.contains("# my notes"), "top comment preserved");
    assert!(out.contains("# unknown to this build"), "inline comment preserved");
    assert!(
        out.contains("future_key = \"keep\""),
        "unknown/future key preserved across the save"
    );
    assert!(out.contains("[profiles.a]"), "profile section preserved");
    let cfg = config(&out);
    assert_eq!(cfg.ui.theme, "nord");
    assert_eq!(cfg.log_level.as_deref(), Some("debug"));
    assert_eq!(cfg.log_file.as_deref(), Some("/tmp/nbox.log"));
    // Clearing a log field removes just that key; the other stays.
    let out2 = save_setting_fields(Some(&out), &vec![SettingField::LogLevel(None)]).unwrap();
    assert!(!out2.contains("log_level"), "None clears the key");
    assert!(out2.contains("log_file"), "the other log key is untouched");
}

#[test]
fn save_setting_fields_is_atomic_and_preserves_the_file() {
    let out = save_setting_fields(
        Some("# keep\n[ui]\ntheme = \"nord\"\n\n[profiles.work]\nurl = \"u\"\n"),
        &vec![
            SettingField::Ui(UiField::RefreshSecs(Some(60))),
            SettingField::LogLevel(Some("nbox=debug".to_string())),
            SettingField::CacheTtl(45),
        ],
    )
    .unwrap();
    assert!(out.contains("# keep"), "comment survives: {out}");
    assert!(out.contains("url = \"u\""), "profile survives: {out}");
    let cfg = config(&out);
    assert_eq!(cfg.ui.refresh_secs, Some(60));
    assert_eq!(cfg.log_level.as_deref(), Some("nbox=debug"));
    assert_eq!(cfg.cache.ttl_secs, 45);

    // A cleared optional field removes the key rather than writing 0.
    let out2 =
        save_setting_fields(Some(&out), &vec![SettingField::Ui(UiField::RefreshSecs(None))])
            .unwrap();
    assert!(!out2.contains("refresh_secs"), "None clears the key: {out2}");
}

#[test]
fn a_text_that_is_no_toml_is_refused() {
    let bad = Some("this is = = not valid toml [[[");
    assert!(matches!(save_ui_theme(bad, "nord").unwrap_err(), ConfigError::Unparsable(_)));
    assert!(matches!(
        save_ui_field(bad, &UiField::LastBrowsed(None)).unwrap_err(),
        ConfigError::Unparsable(_)
    ));
    assert!(matches!(save_active_profile(bad, "a").unwrap_err(), ConfigError::Unparsable(_)));
    assert!(matches!(run_profile(bad, &remove("a")).unwrap_err(), ConfigError::Unparsable(_)));
    assert!(load_doc_or_new(bad).is_err());
}

#[test]
fn an_absent_file_is_an_empty_document() {
    assert_eq!(write_doc(&load_doc_or_new(None).unwrap()), "");
    assert_eq!(
        config(&save_active_profile(None, "work").unwrap()).active_profile.as_deref(),
        Some("work")
    );
    assert_eq!(config(&save_ui_theme(None, "nord").unwrap()).ui.theme, "nord");
}

#[test]
fn a_value_in_the_place_of_a_table_is_refused() {
    let mut doc = "profiles = 3\n".parse::<DocumentMut>().unwrap();
    let err = upsert_profile(&mut doc, "a", "https://a", None).unwrap_err();
    assert!(matches!(err, ConfigError::ProfilesNotATable));
    assert_eq!(err.message(), "`profiles` is not a table");
    assert!(remove_profile(&mut doc, "a").is_err());

    let mut doc = "[profiles]\na = 3\n".parse::<DocumentMut>().unwrap();
    let err = set_profile_token_env(&mut doc, "a", Some("X")).unwrap_err();
    assert_eq!(err.message(), "`profiles.a` is not a table");
    assert_eq!(doc.to_string(), "[profiles]\na = 3\n");

    let mut doc = "[profiles.a]\napi = 3\n".parse::<DocumentMut>().unwrap();
    let err =
        set_profile_api_backend(&mut doc, "a", ApiSurface::Vrf, BackendPreference::Graphql)
            .unwrap_err();
    assert_eq!(err.message(), "`profiles.a.api` is not a table");
}

#[test]
fn a_token_is_written_to_its_profile_and_dropped_again() {
    let mut doc = DocumentMut::new();
    upsert_profile(&mut doc, "lab", "https://nb.lab", None).unwrap();
    set_profile_token(&mut doc, "lab", Some("nbt_secret.value")).unwrap();
    assert!(doc.to_string().contains("token = \"nbt_secret.value\""));
    set_profile_token(&mut doc, "lab", None).unwrap();
    assert!(!doc.to_string().contains("token"));
}

#[test]
fn cache_settings_are_written_under_their_table() {
    let mut doc = DocumentMut::new();
    set_setting_field(&mut doc, &SettingField::CacheEnabled(false));
    set_setting_field(&mut doc, &SettingField::CacheTtl(90));
    let cfg = config(&doc.to_string());
    assert!(!cfg.cache.enabled);
    assert_eq!(cfg.cache.ttl_secs, 90);
}

#[test]
fn edits_leave_the_order_and_the_comments_of_other_keys() {
    let before = "# one\nb = 1\n\n# two\n[profiles.x]\nurl = \"u\"  # in line\n# three\ntoken_env = \"T\"\n\n# four\n[a]\nk = 2\n# end\n";
    let mut doc = before.parse::<DocumentMut>().unwrap();
    set_profile_token_env(&mut doc, "x", Some("S")).unwrap();
    assert_eq!(doc.to_string(), before.replace("\"T\"", "\"S\""));
    set_profile_verify_tls(&mut doc, "x", Some(true)).unwrap();
    set_profile_verify_tls(&mut doc, "x", None).unwrap();
    set_profile_token_env(&mut doc, "x", Some("T")).unwrap();
    assert_eq!(doc.to_string(), before);
}

#[test]
fn a_new_profiles_table_has_no_header_of_its_own() {
    let mut doc = DocumentMut::new();
    upsert_profile(&mut doc, "lab", "https://nb.lab", None).unwrap();
    assert_eq!(doc.to_string(), "[profiles.lab]\nurl = \"https://nb.lab\"\n");
}

#[test]
fn a_profile_is_shown_without_its_token() {
    let cfg = config(
        "active_profile = \"a\"\n[profiles.a]\nurl = \"https://a\"\ntoken = \"nbt_secret.value\"\n[profiles.b]\nurl = \"https://b\"\n",
    );
    let shown = shown_profile(&cfg, None).unwrap_or_else(|e| panic!("{e:?}"));
    assert_eq!(shown.url, "https://a");
    assert_eq!(shown.token.as_ref().unwrap().expose(), "<redacted>");
    let shown = shown_profile(&cfg, Some("b")).unwrap_or_else(|e| panic!("{e:?}"));
    assert_eq!(shown.url, "https://b");
    assert!(shown.token.is_none());
    assert!(matches!(shown_profile(&cfg, Some("c")), Err(ConfigError::NoProfile(n)) if n == "c"));
    assert!(matches!(shown_profile(&Config::default(), None), Err(ConfigError::NoneNamed)));
}

#[test]
fn the_theme_is_saved_alike_in_every_way() {
    for text in ["", "# c\n[ui]\ntheme = \"default\"  # d\nwide = false\n", "ui = 3\n"] {
        let one = save_ui_theme(Some(text), "nord").unwrap();
        let field = UiField::Theme("nord".into());
        assert_eq!(save_ui_field(Some(text), &field).unwrap(), one);
        assert_eq!(save_ui_fields(Some(text), &vec![field]).unwrap(), one);
        let setting = SettingField::Ui(UiField::Theme("nord".into()));
        assert_eq!(save_setting_fields(Some(text), &vec![setting]).unwrap(), one);
    }
    let bad = Some("theme = = 3\n");
    let field = UiField::Theme("nord".into());
    let err = save_ui_theme(bad, "nord").unwrap_err().message();
    assert_eq!(save_ui_field(bad, &field).unwrap_err().message(), err);
    assert_eq!(save_ui_fields(bad, &vec![field]).unwrap_err().message(), err);
    let setting = SettingField::Ui(UiField::Theme("nord".into()));
    assert_eq!(save_setting_fields(bad, &vec![setting]).unwrap_err().message(), err);
}

#[test]
fn choosing_rest_leaves_the_other_surfaces() {
    let mut doc = "[profiles.lab]\nurl = \"u\"\n\n[profiles.lab.api]\nvrf = \"graphql\"  # keep\nsearch = \"graphql\"\n"
        .parse::<DocumentMut>()
        .unwrap();
    set_profile_api_backend(&mut doc, "lab", ApiSurface::Search, BackendPreference::Rest).unwrap();
    let cfg = config(&doc.to_string());
    assert_eq!(cfg.profiles["lab"].api_preference(ApiSurface::Vrf), BackendPreference::Graphql);
    assert_eq!(cfg.profiles["lab"].api_preference(ApiSurface::Search), BackendPreference::Rest);
    assert!(doc.to_string().contains("# keep"));
}
