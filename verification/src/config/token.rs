//! Finding the token of a connection, and saying where it came from.

use vstd::prelude::*;

use crate::config::{token_text, ProfileConfig};
use crate::text::{
    cat2,
    chars_of,
    is_white,
    opt_str,
    opt_text,
    same_folded,
    same_ignoring_case,
    string_of,
    trim,
    trimmed,
    white,
    Text,
};

verus! {

/// What follows a scheme word at the start of a text. The word ends the text or
/// is followed by whitespace; its case does not matter.
pub open spec fn after_scheme(s: Text, scheme: Text) -> Option<Text> {
    if s.len() >= scheme.len() && same_folded(s.take(scheme.len() as int), scheme) && (s.len()
        == scheme.len() || is_white(s[scheme.len() as int])) {
        Some(s.skip(scheme.len() as int))
    } else {
        None
    }
}

/// A token without the whitespace and the scheme word that may have been pasted
/// with it.
pub open spec fn bare_token(raw: Text) -> Text {
    let s = trim(raw);
    match after_scheme(s, "Bearer"@) {
        Some(rest) => trim(rest),
        None => match after_scheme(s, "Token"@) {
            Some(rest) => trim(rest),
            None => s,
        },
    }
}

/// The usable token in a text.
pub open spec fn token_in(raw: Text) -> Option<Text> {
    if bare_token(raw).len() == 0 {
        None
    } else {
        Some(bare_token(raw))
    }
}

/// The usable token in an optional text.
pub open spec fn opt_token(raw: Option<Text>) -> Option<Text> {
    match raw {
        Some(s) => token_in(s),
        None => None,
    }
}

fn strip_scheme(s: &str, scheme: &str) -> (r: Option<String>)
    ensures
        opt_text(r) == after_scheme(s@, scheme@),
{
    let cs = chars_of(s);
    let n: usize = chars_of(scheme).len();
    if cs.len() < n {
        return None;
    }
    let head = string_of(&cs, 0, n);
    proof {
        assert(cs@.subrange(0, n as int) =~= cs@.take(n as int));
        assert(cs@.subrange(n as int, cs@.len() as int) =~= cs@.skip(n as int));
    }
    if same_ignoring_case(head.as_str(), scheme) && (cs.len() == n || white(cs[n])) {
        Some(string_of(&cs, n, cs.len()))
    } else {
        None
    }
}

/// Takes a pasted token apart; `None` when nothing usable is left.
pub fn normalize_token(raw: &str) -> (r: Option<String>)
    ensures
        opt_text(r) == token_in(raw@),
{
    let s = trimmed(raw);
    let value = match strip_scheme(s.as_str(), "Bearer") {
        Some(rest) => trimmed(rest.as_str()),
        None => match strip_scheme(s.as_str(), "Token") {
            Some(rest) => trimmed(rest.as_str()),
            None => s,
        },
    };
    if value.as_str().is_empty() {
        None
    } else {
        Some(value)
    }
}

fn normalize_opt(raw: Option<&str>) -> (r: Option<String>)
    ensures
        opt_text(r) == opt_token(opt_str(raw)),
{
    match raw {
        Some(s) => normalize_token(s),
        None => None,
    }
}

/// The first of several that is there.
pub open spec fn first_of(a: Option<Text>, b: Option<Text>) -> Option<Text> {
    match a {
        Some(x) => Some(x),
        None => b,
    }
}

/// The token from the environment: the profile's own variable, else the general
/// one. A value with nothing usable in it is passed over.
pub fn select_env_token(token_env: Option<String>, nbox_token: Option<String>) -> (r: Option<String>)
    ensures
        opt_text(r) == first_of(opt_token(opt_text(token_env)), opt_token(opt_text(nbox_token))),
{
    let own = normalize_opt(crate::text::as_opt_str(&token_env));
    match own {
        Some(t) => Some(t),
        None => normalize_opt(crate::text::as_opt_str(&nbox_token)),
    }
}

/// The text of a profile's own token.
pub open spec fn config_token(profile: ProfileConfig) -> Option<Text> {
    token_text(profile.token)
}

fn config_token_str(profile: &ProfileConfig) -> (r: Option<&str>)
    ensures
        opt_str(r) == config_token(*profile),
{
    match &profile.token {
        Some(t) => Some(t.expose()),
        None => None,
    }
}

/// The token of a profile: from its own variable, from the general one, from the
/// configuration, in this order. `token_env` and `nbox_token` are the values of
/// the two variables.
pub fn resolve_token(
    profile: &ProfileConfig,
    token_env: Option<String>,
    nbox_token: Option<String>,
) -> (r: Option<String>)
    ensures
        opt_text(r) == first_of(
            first_of(opt_token(opt_text(token_env)), opt_token(opt_text(nbox_token))),
            opt_token(config_token(*profile)),
        ),
{
    match select_env_token(token_env, nbox_token) {
        Some(t) => Some(t),
        None => normalize_opt(config_token_str(profile)),
    }
}

/// The token to try a connection with: the one just typed, else the one that the
/// profile would use.
pub fn resolve_probe_token(
    typed: Option<&str>,
    token_env: Option<&str>,
    nbox_token: Option<&str>,
    config_token: Option<&str>,
) -> (r: Option<String>)
    ensures
        opt_text(r) == first_of(
            opt_token(opt_str(typed)),
            first_of(
                opt_token(opt_str(token_env)),
                first_of(opt_token(opt_str(nbox_token)), opt_token(opt_str(config_token))),
            ),
        ),
{
    let first = normalize_opt(typed);
    if first.is_some() {
        return first;
    }
    let second = normalize_opt(token_env);
    if second.is_some() {
        return second;
    }
    let third = normalize_opt(nbox_token);
    if third.is_some() {
        return third;
    }
    normalize_opt(config_token)
}

/// Where a token came from.
#[derive(Debug, PartialEq, Eq)]
pub enum TokenSource {
    /// The profile's own variable.
    TokenEnv(String),
    /// The general variable.
    NboxToken,
    /// The configuration.
    Config,
    /// Nowhere.
    Missing,
}

/// Whether a source is where the token of a profile comes from. The profile's own
/// variable counts only when the profile names one.
pub open spec fn is_source(
    r: TokenSource,
    profile: ProfileConfig,
    token_env: Option<Text>,
    nbox_token: Option<Text>,
) -> bool {
    if profile.token_env is Some && opt_token(token_env) is Some {
        r is TokenEnv && r->TokenEnv_0@ == profile.token_env->0@
    } else if opt_token(nbox_token) is Some {
        r is NboxToken
    } else if opt_token(config_token(profile)) is Some {
        r is Config
    } else {
        r is Missing
    }
}

/// Where the token of a profile comes from, without giving it away. `token_env`
/// and `nbox_token` are the values of the two variables.
pub fn resolve_token_source(
    profile: &ProfileConfig,
    token_env: Option<&str>,
    nbox_token: Option<&str>,
) -> (r: TokenSource)
    ensures
        is_source(r, *profile, opt_str(token_env), opt_str(nbox_token)),
{
    if let Some(name) = &profile.token_env {
        if normalize_opt(token_env).is_some() {
            return TokenSource::TokenEnv(name.clone());
        }
    }
    if normalize_opt(nbox_token).is_some() {
        return TokenSource::NboxToken;
    }
    if normalize_opt(config_token_str(profile)).is_some() {
        return TokenSource::Config;
    }
    TokenSource::Missing
}

impl TokenSource {
    /// How a source is reported.
    pub open spec fn label_text(self) -> Text {
        match self {
            TokenSource::TokenEnv(var) => "token_env "@ + var@,
            TokenSource::NboxToken => "NBOX_TOKEN"@,
            TokenSource::Config => "config"@,
            TokenSource::Missing => "none"@,
        }
    }

    /// Reports a source.
    pub fn label(&self) -> (r: String)
        ensures
            r@ == self.label_text(),
    {
        match self {
            TokenSource::TokenEnv(var) => cat2("token_env ", var.as_str()),
            TokenSource::NboxToken => "NBOX_TOKEN".to_owned(),
            TokenSource::Config => "config".to_owned(),
            TokenSource::Missing => "none".to_owned(),
        }
    }

    /// The name of a source, without the variable.
    pub fn name(&self) -> (r: &'static str)
        ensures
            r@ == match *self {
                TokenSource::TokenEnv(_) => "token_env"@,
                TokenSource::NboxToken => "NBOX_TOKEN"@,
                TokenSource::Config => "config"@,
                TokenSource::Missing => "none"@,
            },
    {
        match self {
            TokenSource::TokenEnv(_) => "token_env",
            TokenSource::NboxToken => "NBOX_TOKEN",
            TokenSource::Config => "config",
            TokenSource::Missing => "none",
        }
    }
}

/// The profile that a token command is about: the one named, else the active one,
/// else `default`.
pub fn token_profile_name(profile: Option<&str>, active: &Option<String>) -> (r: String)
    ensures
        r@ == match first_of(opt_str(profile), opt_text(*active)) {
            Some(name) => name,
            None => "default"@,
        },
{
    match profile {
        Some(name) => name.to_owned(),
        None => match active {
            Some(name) => name.clone(),
            None => "default".to_owned(),
        },
    }
}

// ===== Laws ==============================================================

/// The reported source is that of the token in use: there is a token exactly when
/// the source is not missing, and it is the source's own. The profile's variable
/// has a value only if the profile names one.
pub proof fn source_matches_token(
    profile: ProfileConfig,
    token_env: Option<Text>,
    nbox_token: Option<Text>,
    source: TokenSource,
)
    requires
        is_source(source, profile, token_env, nbox_token),
        token_env is Some ==> profile.token_env is Some,
    ensures
        first_of(
            first_of(opt_token(token_env), opt_token(nbox_token)),
            opt_token(config_token(profile)),
        ) == match source {
            TokenSource::TokenEnv(_) => opt_token(token_env),
            TokenSource::NboxToken => opt_token(nbox_token),
            TokenSource::Config => opt_token(config_token(profile)),
            TokenSource::Missing => None,
        },
        source is Missing <==> first_of(
            first_of(opt_token(token_env), opt_token(nbox_token)),
            opt_token(config_token(profile)),
        ) is None,
{
}

/// A variable that is set but holds nothing usable never hides a usable token
/// further down.
pub proof fn blank_values_hide_nothing(blank: Text, other: Option<Text>)
    requires
        token_in(blank) is None,
    ensures
        first_of(opt_token(Some(blank)), other) == other,
{
}

/// Whitespace around a token makes no difference.
pub proof fn tokens_ignore_surroundings(front: Text, raw: Text, back: Text)
    requires
        crate::text::all_white(front),
        crate::text::all_white(back),
    ensures
        token_in(front + raw + back) == token_in(raw),
{
    crate::text::trim_ignores_surroundings(front, raw, back);
}

/// A scheme in front of a token is dropped, in any case, when blanks follow it; a word
/// that only starts like a scheme is part of the token.
pub proof fn schemes_are_dropped(scheme: Text, blank: char, token: Text)
    requires
        same_folded(scheme, "Bearer"@) || same_folded(scheme, "Token"@),
        is_white(blank),
        token.len() > 0,
        !is_white(token[0]),
        !is_white(token.last()),
    ensures
        token_in(scheme + seq![blank] + token) == Some(token),
        token_in(scheme) is None,
        after_scheme(token, "Bearer"@) is None && after_scheme(token, "Token"@) is None ==> token_in(
            token,
        ) == Some(token),
        token_in(Seq::<char>::empty()) is None,
{
    reveal_strlit("Bearer");
    reveal_strlit("Token");
    let s = scheme + seq![blank] + token;
    let empty = Seq::<char>::empty();
    whole_is_kept(token);
    assert(scheme.len() == 5 || scheme.len() == 6);
    letters_are_no_blanks(scheme);
    whole_is_kept(scheme);
    assert(s.last() == token.last());
    assert(s[0] == scheme[0]);
    whole_is_kept(s);
    assert(s.take(scheme.len() as int) =~= scheme);
    assert(scheme.take(scheme.len() as int) =~= scheme);
    assert(scheme.skip(scheme.len() as int) =~= empty);
    assert(s.skip(scheme.len() as int) =~= seq![blank] + token);
    assert(crate::text::all_white(seq![blank]));
    assert(crate::text::all_white(empty));
    crate::text::trim_ignores_surroundings(seq![blank], token, empty);
    assert(seq![blank] + token + empty =~= seq![blank] + token);
    assert(trim(empty) =~= empty);
    if same_folded(scheme, "Token"@) {
        assert(scheme.len() == 5);
        assert(after_scheme(s, "Bearer"@) is None) by {
            assert(s.take(6)[0] == scheme[0]);
            crate::text::only_letters_fold(scheme[0], 'B');
            crate::text::only_letters_fold(scheme[0], 'T');
            assert("Bearer"@[0] == 'B' && "Token"@[0] == 'T');
        }
        assert(after_scheme(scheme, "Bearer"@) is None);
    }
}

proof fn whole_is_kept(s: Text)
    requires
        s.len() > 0,
        !is_white(s[0]),
        !is_white(s.last()),
    ensures
        trim(s) == s,
{
    assert(crate::text::trim_start(s) == s);
    assert(crate::text::trim_end(s) == s);
}

proof fn letters_are_no_blanks(scheme: Text)
    requires
        same_folded(scheme, "Bearer"@) || same_folded(scheme, "Token"@),
    ensures
        scheme.len() > 0,
        !is_white(scheme[0]),
        !is_white(scheme.last()),
{
    reveal_strlit("Bearer");
    reveal_strlit("Token");
    let n = scheme.len() - 1;
    if same_folded(scheme, "Bearer"@) {
        crate::text::only_letters_fold(scheme[0], 'B');
        crate::text::only_letters_fold(scheme[5], 'r');
        assert(crate::text::folded(scheme[0]) == crate::text::folded("Bearer"@[0]));
        assert(crate::text::folded(scheme[5]) == crate::text::folded("Bearer"@[5]));
    } else {
        crate::text::only_letters_fold(scheme[0], 'T');
        crate::text::only_letters_fold(scheme[4], 'n');
        assert(crate::text::folded(scheme[0]) == crate::text::folded("Token"@[0]));
        assert(crate::text::folded(scheme[4]) == crate::text::folded("Token"@[4]));
    }
    crate::text::whitespace_is_blank(scheme[0]);
    crate::text::whitespace_is_blank(scheme.last());
}

/// The profile's own variable comes first, then the shared one, then the file; a place
/// without a token is passed over, and each source is called by its name.
pub proof fn sources_are_asked_in_order(
    r: TokenSource,
    profile: ProfileConfig,
    token_env: Option<Text>,
    nbox_token: Option<Text>,
)
    requires
        is_source(r, profile, token_env, nbox_token),
    ensures
        r is TokenEnv <==> profile.token_env is Some && token_env is Some && token_in(
            token_env->0,
        ) is Some,
        r is TokenEnv ==> r.label_text() == "token_env "@ + profile.token_env->0@,
        r is NboxToken ==> r.label_text() == "NBOX_TOKEN"@ && nbox_token is Some && token_in(
            nbox_token->0,
        ) is Some,
        r is Config ==> r.label_text() == "config"@ && opt_token(token_text(profile.token)) is Some,
        r is Missing ==> r.label_text() == "none"@,
        !(r is TokenEnv) && nbox_token is Some && token_in(nbox_token->0) is Some
            ==> r is NboxToken,
        !(r is TokenEnv) && !(r is NboxToken) && opt_token(token_text(profile.token)) is Some ==> r is Config,
{
}

} // verus!
