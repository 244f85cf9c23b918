//! Editing the configuration file, keeping everything else in it as it is.

use vstd::prelude::*;

use crate::config::toml::{
    as_table_mut,
    counted_keys,
    document_view,
    entry_or,
    flag_item,
    flag_leaf,
    get_mut,
    int_item,
    int_leaf,
    item_view,
    len,
    new_table,
    node_flag,
    node_int,
    node_text,
    real_keys,
    remove,
    root_item_mut,
    set_implicit,
    set_item,
    table_view,
    text_item,
    text_leaf,
    without_appended,
    without_twice,
    Document,
    Items,
    KeyForm,
    Node,
};
use crate::config::{ApiSurface, BackendPreference};
use crate::netbox::auth::AuthScheme;
use crate::text::{cat3, opt_str, opt_text, trim, trimmed, Text};

verus! {

// ===== The shape of a document ===========================================

/// Whether a document can be edited: its root is a table.
pub open spec fn editable(doc: Document) -> bool {
    doc.root is Table
}

/// The items at the top of a document.
pub open spec fn top_items(doc: Document) -> Items {
    doc.root->Table_0
}

/// Whether a key holds a table, or nothing at all.
pub open spec fn open_to_table(items: Items, key: Text) -> bool {
    !items.contains_key(key) || items[key] is Table
}

/// Whether a key holds a table.
pub open spec fn holds_table(items: Items, key: Text) -> bool {
    items.contains_key(key) && items[key] is Table
}

/// The items of the table under a key; those of a new table when there is none.
/// `implicit` says whether a new one goes unprinted while it has no values of its
/// own.
pub open spec fn items_under(items: Items, key: Text, implicit: bool) -> Items {
    if holds_table(items, key) {
        items[key]->Table_0
    } else {
        Items::empty(implicit)
    }
}

/// Whether two tables differ at most under one key. All other keys have the same
/// items, in the same order, behind the same comments.
pub open spec fn same_but(before: Items, after: Items, key: Text) -> bool {
    after.remove(key) == before.remove(key)
}

/// With a table under a key.
pub open spec fn with_table(items: Items, key: Text, table: Items) -> Items {
    items.insert(key, Node::Table(table))
}

/// A document with other items at its top.
pub open spec fn with_top(doc: Document, top: Items) -> Document {
    Document { root: Node::Table(top), tail: doc.tail }
}

/// A document with another table under a key at its top.
pub open spec fn with_section(doc: Document, section: Text, table: Items) -> Document {
    with_top(doc, with_table(top_items(doc), section, table))
}

/// The string under a key.
pub open spec fn text_under(items: Items, key: Text) -> Option<Text> {
    if items.contains_key(key) {
        node_text(items[key])
    } else {
        None
    }
}

/// Whether a key now holds a new string, or nothing, and all else is as before.
pub open spec fn text_set(before: Items, after: Items, key: Text, value: Option<Text>) -> bool {
    match value {
        Some(v) => {
            &&& after == before.insert(key, Node::Leaf(text_leaf(v)))
            &&& text_under(after, key) == Some(v)
        },
        None => after == before.remove(key),
    }
}

/// Whether a key now holds a new whole number, or nothing, and all else is as before.
pub open spec fn int_set(before: Items, after: Items, key: Text, value: Option<i64>) -> bool {
    match value {
        Some(n) => {
            &&& after == before.insert(key, Node::Leaf(int_leaf(n)))
            &&& node_int(after[key]) == Some(n)
        },
        None => after == before.remove(key),
    }
}

/// Whether a key now holds a new truth value, or nothing, and all else is as before.
pub open spec fn flag_set(before: Items, after: Items, key: Text, value: Option<bool>) -> bool {
    match value {
        Some(b) => {
            &&& after == before.insert(key, Node::Leaf(flag_leaf(b)))
            &&& node_flag(after[key]) == Some(b)
        },
        None => after == before.remove(key),
    }
}

/// A number as the file holds it; one beyond its range is held as the greatest.
pub open spec fn file_int(n: u64) -> i64 {
    if n <= i64::MAX {
        n as i64
    } else {
        i64::MAX
    }
}

/// An optional number as the file holds it.
pub open spec fn opt_file_int(n: Option<u64>) -> Option<i64> {
    match n {
        Some(n) => Some(file_int(n)),
        None => None,
    }
}

fn to_int(n: u64) -> (r: i64)
    ensures
        r == file_int(n),
{
    if n <= 0x7fff_ffff_ffff_ffff {
        n as i64
    } else {
        i64::MAX
    }
}

// ===== Editing one table =================================================

/// Putting an item under a key changes nothing under other keys; putting back the
/// item that was there changes nothing at all.
proof fn insertion_stays_local(items: Items, key: Text)
    ensures
        forall|x: Node| #[trigger] items.insert(key, x).remove(key) == items.remove(key),
        forall|x: Node|
            (#[trigger] items.insert(key, x))[key] == x && items.insert(key, x).contains_key(key),
        items.contains_key(key) ==> items.insert(key, items[key]) == items,
        items.remove(key).remove(key) == items.remove(key),
{
    assert forall|x: Node| #[trigger] items.insert(key, x).remove(key) == items.remove(
        key,
    ) by {
        without_appended(items.layout, key, KeyForm::unset());
        assert(items.insert(key, x).remove(key).held =~= items.remove(key).held);
    }
    if items.contains_key(key) {
        assert(items.insert(key, items[key]).held =~= items.held);
    }
    without_twice(items.layout, key);
    assert(items.remove(key).remove(key).held =~= items.remove(key).held);
}

fn put_text(table: &mut toml_edit::Table, key: &str, value: Option<&str>)
    ensures
        text_set(table_view(*old(table)), table_view(*final(table)), key@, opt_str(value)),
{
    proof {
        insertion_stays_local(table_view(*table), key@);
    }
    match value {
        Some(v) => set_item(table, key, text_item(v)),
        None => {
            let _ = remove(table, key);
        },
    }
}

fn put_int(table: &mut toml_edit::Table, key: &str, value: Option<u64>)
    ensures
        int_set(table_view(*old(table)), table_view(*final(table)), key@, opt_file_int(value)),
{
    proof {
        insertion_stays_local(table_view(*table), key@);
    }
    match value {
        Some(n) => set_item(table, key, int_item(to_int(n))),
        None => {
            let _ = remove(table, key);
        },
    }
}

fn put_flag(table: &mut toml_edit::Table, key: &str, value: Option<bool>)
    ensures
        flag_set(table_view(*old(table)), table_view(*final(table)), key@, value),
{
    proof {
        insertion_stays_local(table_view(*table), key@);
    }
    match value {
        Some(b) => set_item(table, key, flag_item(b)),
        None => {
            let _ = remove(table, key);
        },
    }
}

fn fresh_table(implicit: bool) -> (r: toml_edit::Item)
    ensures
        item_view(r) == Node::Table(Items::empty(implicit)),
{
    let mut item = new_table();
    if implicit {
        if let Some(t) = as_table_mut(&mut item) {
            set_implicit(t, true);
        }
    }
    item
}

/// The table under a key, made when there is none. `implicit` says whether one
/// that is made stays unprinted while it has no values of its own.
fn table_under<'a>(table: &'a mut toml_edit::Table, key: &str, implicit: bool) -> (r: Option<
    &'a mut toml_edit::Table,
>)
    ensures
        match r {
            Some(t) => {
                &&& open_to_table(table_view(*old(table)), key@)
                &&& table_view(*t) == items_under(table_view(*old(table)), key@, implicit)
                &&& table_view(*final(table)) == with_table(
                    table_view(*old(table)),
                    key@,
                    table_view(*final(t)),
                )
            },
            None => {
                &&& !open_to_table(table_view(*old(table)), key@)
                &&& table_view(*final(table)) == table_view(*old(table))
            },
        },
{
    proof {
        insertion_stays_local(table_view(*table), key@);
    }
    let fresh = fresh_table(implicit);
    let item = entry_or(table, key, fresh);
    as_table_mut(item)
}

fn top_table<'a>(doc: &'a mut toml_edit::DocumentMut) -> (r: Option<&'a mut toml_edit::Table>)
    requires
        editable(document_view(*old(doc))),
    ensures
        r is Some,
        table_view(*r->0) == top_items(document_view(*old(doc))),
        document_view(*final(doc)) == with_top(document_view(*old(doc)), table_view(*final(r->0))),
{
    as_table_mut(root_item_mut(doc))
}

// ===== Errors ============================================================

/// Why the configuration was not changed.
#[derive(Debug)]
pub enum ConfigError {
    /// `profiles` is no table.
    ProfilesNotATable,
    /// The profile of this name is no table.
    ProfileNotATable(String),
    /// The backends of the profile of this name are no table.
    ApiNotATable(String),
    /// There is no profile of this name.
    NoProfile(String),
    /// This is the only profile.
    OnlyProfile(String),
    /// This is the active profile.
    ActiveProfile(String),
    /// No profile was named, and none is active.
    NoneNamed,
    /// The file cannot be read as a document.
    Unparsable(String),
}

impl ConfigError {
    /// What the error says.
    pub open spec fn message_text(self) -> Text {
        match self {
            ConfigError::ProfilesNotATable => "`profiles` is not a table"@,
            ConfigError::ProfileNotATable(name) => "`profiles."@ + name@ + "` is not a table"@,
            ConfigError::ApiNotATable(name) => "`profiles."@ + name@ + ".api` is not a table"@,
            ConfigError::NoProfile(name) => "no profile named '"@ + name@ + "'"@,
            ConfigError::OnlyProfile(name) => "can't remove the only profile '"@ + name@ + "'"@,
            ConfigError::ActiveProfile(name) => "can't remove the active profile '"@ + name@
                + "' — switch with `nbox profile use <other>` first"@,
            ConfigError::NoneNamed => "no profile specified and no active profile set"@,
            ConfigError::Unparsable(e) => e@,
        }
    }

    /// Writes the error out.
    pub fn message(&self) -> (r: String)
        ensures
            r@ == self.message_text(),
    {
        match self {
            ConfigError::ProfilesNotATable => "`profiles` is not a table".to_owned(),
            ConfigError::ProfileNotATable(name) => cat3(
                "`profiles.",
                name.as_str(),
                "` is not a table",
            ),
            ConfigError::ApiNotATable(name) => cat3(
                "`profiles.",
                name.as_str(),
                ".api` is not a table",
            ),
            ConfigError::NoProfile(name) => cat3("no profile named '", name.as_str(), "'"),
            ConfigError::OnlyProfile(name) => cat3(
                "can't remove the only profile '",
                name.as_str(),
                "'",
            ),
            ConfigError::ActiveProfile(name) => cat3(
                "can't remove the active profile '",
                name.as_str(),
                "' — switch with `nbox profile use <other>` first",
            ),
            ConfigError::NoneNamed => "no profile specified and no active profile set".to_owned(),
            ConfigError::Unparsable(e) => e.clone(),
        }
    }
}

// ===== Profiles ==========================================================

/// The items of the profiles table.
pub open spec fn profiles_items(doc: Document) -> Items {
    items_under(top_items(doc), "profiles"@, true)
}

/// The items of a profile.
pub open spec fn profile_items(doc: Document, name: Text) -> Items {
    items_under(profiles_items(doc), name, false)
}

/// Whether a profile can be edited: neither it nor the profiles are anything but
/// tables.
pub open spec fn profile_open(doc: Document, name: Text) -> bool {
    open_to_table(top_items(doc), "profiles"@) && open_to_table(profiles_items(doc), name)
}

/// A document with other items in a profile, which it has then.
pub open spec fn with_profile(doc: Document, name: Text, profile: Items) -> Document {
    with_section(doc, "profiles"@, with_table(profiles_items(doc), name, profile))
}

/// Whether a document differs from another at most in one profile, which it has.
pub open spec fn only_profile_changed(before: Document, after: Document, name: Text) -> bool {
    after == with_profile(before, name, profile_items(after, name))
}

/// A document whose one changed profile is as before is as before.
proof fn same_profile_same_document(before: Document, after: Document, name: Text)
    requires
        editable(before),
        only_profile_changed(before, after, name),
        holds_table(profiles_items(before), name),
        profile_items(after, name) == profile_items(before, name),
    ensures
        after == before,
{
    insertion_stays_local(top_items(before), "profiles"@);
    insertion_stays_local(profiles_items(before), name);
    assert(profiles_items(after)[name] == profiles_items(before)[name]);
    assert(top_items(after)["profiles"@] == top_items(before)["profiles"@]);
}

/// Whether an edit was refused because something is no table, and changed nothing.
pub open spec fn refused(
    before: Document,
    after: Document,
    name: Text,
    e: ConfigError,
) -> bool {
    &&& after == before
    &&& if open_to_table(top_items(before), "profiles"@) {
        e is ProfileNotATable && e->ProfileNotATable_0@ == name
    } else {
        e is ProfilesNotATable
    }
}

/// The table of a profile, made when there is none.
fn profile_table_mut<'a>(doc: &'a mut toml_edit::DocumentMut, name: &str) -> (r: Result<
    &'a mut toml_edit::Table,
    ConfigError,
>)
    requires
        editable(document_view(*old(doc))),
    ensures
        match r {
            Ok(t) => {
                &&& profile_open(document_view(*old(doc)), name@)
                &&& table_view(*t) == profile_items(document_view(*old(doc)), name@)
                &&& only_profile_changed(
                    document_view(*old(doc)),
                    document_view(*final(doc)),
                    name@,
                )
                &&& profile_items(document_view(*final(doc)), name@) == table_view(*final(t))
            },
            Err(e) => {
                &&& !profile_open(document_view(*old(doc)), name@)
                &&& refused(document_view(*old(doc)), document_view(*final(doc)), name@, e)
            },
        },
{
    proof {
        insertion_stays_local(top_items(document_view(*doc)), "profiles"@);
    }
    match top_table(doc) {
        Some(top) => {
            match table_under(top, "profiles", true) {
                Some(profiles) => match table_under(profiles, name, false) {
                    Some(t) => Ok(t),
                    None => Err(ConfigError::ProfileNotATable(name.to_owned())),
                },
                None => Err(ConfigError::ProfilesNotATable),
            }
        },
        None => Err(ConfigError::ProfilesNotATable),
    }
}

/// Inserts or updates a profile. A variable that is not given is left as it is.
pub fn upsert_profile(
    doc: &mut toml_edit::DocumentMut,
    name: &str,
    url: &str,
    token_env: Option<&str>,
) -> (r: Result<(), ConfigError>)
    requires
        editable(document_view(*old(doc))),
    ensures
        match r {
            Ok(_) => {
                &&& profile_open(document_view(*old(doc)), name@)
                &&& only_profile_changed(
                    document_view(*old(doc)),
                    document_view(*final(doc)),
                    name@,
                )
                &&& upserted(
                    profile_items(document_view(*old(doc)), name@),
                    profile_items(document_view(*final(doc)), name@),
                    url@,
                    opt_str(token_env),
                )
            },
            Err(e) => !profile_open(document_view(*old(doc)), name@) && refused(
                document_view(*old(doc)),
                document_view(*final(doc)),
                name@,
                e,
            ),
        },
{
    let prof = profile_table_mut(doc, name)?;
    put_text(prof, "url", Some(url));
    if token_env.is_some() {
        put_text(prof, "token_env", token_env);
    }
    Ok(())
}

/// Whether a profile has its URL, and its variable when one was given, and is
/// otherwise as before.
pub open spec fn upserted(before: Items, after: Items, url: Text, token_env: Option<Text>) -> bool {
    match token_env {
        Some(env) => exists|mid: Items|
            text_set(before, mid, "url"@, Some(url)) && #[trigger] text_set(
                mid,
                after,
                "token_env"@,
                Some(env),
            ),
        None => text_set(before, after, "url"@, Some(url)),
    }
}

/// A text that is given and not empty.
pub open spec fn given(value: Option<Text>) -> Option<Text> {
    match value {
        Some(v) => if v.len() == 0 {
            None
        } else {
            Some(v)
        },
        None => None,
    }
}

fn non_empty(value: Option<&str>) -> (r: Option<&str>)
    ensures
        opt_str(r) == given(opt_str(value)),
{
    match value {
        Some(v) => if v.is_empty() {
            None
        } else {
            Some(v)
        },
        None => None,
    }
}

/// Whether a string of a profile was set or removed, or the edit was refused.
pub open spec fn profile_text_set(
    r: Result<(), ConfigError>,
    before: Document,
    after: Document,
    name: Text,
    key: Text,
    value: Option<Text>,
) -> bool {
    match r {
        Ok(_) => {
            &&& profile_open(before, name)
            &&& only_profile_changed(before, after, name)
            &&& text_set(profile_items(before, name), profile_items(after, name), key, value)
        },
        Err(e) => !profile_open(before, name) && refused(before, after, name, e),
    }
}

/// Whether a number of a profile was set or removed, or the edit was refused.
pub open spec fn profile_int_set(
    r: Result<(), ConfigError>,
    before: Document,
    after: Document,
    name: Text,
    key: Text,
    value: Option<i64>,
) -> bool {
    match r {
        Ok(_) => {
            &&& profile_open(before, name)
            &&& only_profile_changed(before, after, name)
            &&& int_set(profile_items(before, name), profile_items(after, name), key, value)
        },
        Err(e) => !profile_open(before, name) && refused(before, after, name, e),
    }
}

/// Whether a truth value of a profile was set or removed, or the edit was refused.
pub open spec fn profile_flag_set(
    r: Result<(), ConfigError>,
    before: Document,
    after: Document,
    name: Text,
    key: Text,
    value: Option<bool>,
) -> bool {
    match r {
        Ok(_) => {
            &&& profile_open(before, name)
            &&& only_profile_changed(before, after, name)
            &&& flag_set(profile_items(before, name), profile_items(after, name), key, value)
        },
        Err(e) => !profile_open(before, name) && refused(before, after, name, e),
    }
}

/// Sets the variable that a profile's token comes from; an empty one removes it.
pub fn set_profile_token_env(
    doc: &mut toml_edit::DocumentMut,
    name: &str,
    token_env: Option<&str>,
) -> (r: Result<(), ConfigError>)
    requires
        editable(document_view(*old(doc))),
    ensures
        profile_text_set(
            r,
            document_view(*old(doc)),
            document_view(*final(doc)),
            name@,
            "token_env"@,
            given(opt_str(token_env)),
        ),
{
    let prof = profile_table_mut(doc, name)?;
    put_text(prof, "token_env", non_empty(token_env));
    Ok(())
}

/// Sets the token of a profile; an empty one removes it.
pub fn set_profile_token(doc: &mut toml_edit::DocumentMut, name: &str, token: Option<&str>) -> (r:
    Result<(), ConfigError>)
    requires
        editable(document_view(*old(doc))),
    ensures
        profile_text_set(
            r,
            document_view(*old(doc)),
            document_view(*final(doc)),
            name@,
            "token"@,
            given(opt_str(token)),
        ),
{
    let prof = profile_table_mut(doc, name)?;
    put_text(prof, "token", non_empty(token));
    Ok(())
}

/// How a scheme is written; the automatic one is left out.
pub open spec fn scheme_text(scheme: Option<AuthScheme>) -> Option<Text> {
    match scheme {
        Some(AuthScheme::Bearer) => Some("bearer"@),
        Some(AuthScheme::Token) => Some("token"@),
        Some(AuthScheme::Auto) => None,
        None => None,
    }
}

/// Sets the scheme of a profile; the automatic one removes it.
pub fn set_profile_auth_scheme(
    doc: &mut toml_edit::DocumentMut,
    name: &str,
    scheme: Option<AuthScheme>,
) -> (r: Result<(), ConfigError>)
    requires
        editable(document_view(*old(doc))),
    ensures
        profile_text_set(
            r,
            document_view(*old(doc)),
            document_view(*final(doc)),
            name@,
            "auth_scheme"@,
            scheme_text(scheme),
        ),
{
    let prof = profile_table_mut(doc, name)?;
    let value: Option<&str> = match scheme {
        Some(AuthScheme::Bearer) => Some("bearer"),
        Some(AuthScheme::Token) => Some("token"),
        Some(AuthScheme::Auto) => None,
        None => None,
    };
    put_text(prof, "auth_scheme", value);
    Ok(())
}

/// Sets whether a profile checks certificates.
pub fn set_profile_verify_tls(
    doc: &mut toml_edit::DocumentMut,
    name: &str,
    verify: Option<bool>,
) -> (r: Result<(), ConfigError>)
    requires
        editable(document_view(*old(doc))),
    ensures
        profile_flag_set(
            r,
            document_view(*old(doc)),
            document_view(*final(doc)),
            name@,
            "verify_tls"@,
            verify,
        ),
{
    let prof = profile_table_mut(doc, name)?;
    put_flag(prof, "verify_tls", verify);
    Ok(())
}

/// Sets the time limit of a profile.
pub fn set_profile_timeout_secs(
    doc: &mut toml_edit::DocumentMut,
    name: &str,
    timeout_secs: Option<u64>,
) -> (r: Result<(), ConfigError>)
    requires
        editable(document_view(*old(doc))),
    ensures
        profile_int_set(
            r,
            document_view(*old(doc)),
            document_view(*final(doc)),
            name@,
            "timeout_secs"@,
            opt_file_int(timeout_secs),
        ),
{
    let prof = profile_table_mut(doc, name)?;
    put_int(prof, "timeout_secs", timeout_secs);
    Ok(())
}

/// Sets the page size of a profile.
pub fn set_profile_page_size(
    doc: &mut toml_edit::DocumentMut,
    name: &str,
    page_size: Option<u64>,
) -> (r: Result<(), ConfigError>)
    requires
        editable(document_view(*old(doc))),
    ensures
        profile_int_set(
            r,
            document_view(*old(doc)),
            document_view(*final(doc)),
            name@,
            "page_size"@,
            opt_file_int(page_size),
        ),
{
    let prof = profile_table_mut(doc, name)?;
    put_int(prof, "page_size", page_size);
    Ok(())
}

/// Sets whether a profile leaves out configuration contexts.
pub fn set_profile_exclude_config_context(
    doc: &mut toml_edit::DocumentMut,
    name: &str,
    exclude: Option<bool>,
) -> (r: Result<(), ConfigError>)
    requires
        editable(document_view(*old(doc))),
    ensures
        profile_flag_set(
            r,
            document_view(*old(doc)),
            document_view(*final(doc)),
            name@,
            "exclude_config_context"@,
            exclude,
        ),
{
    let prof = profile_table_mut(doc, name)?;
    put_flag(prof, "exclude_config_context", exclude);
    Ok(())
}

// ===== Backends of a profile =============================================

/// Whether a profile's backends are a table that can be read.
pub open spec fn has_api(items: Items) -> bool {
    holds_table(items, "api"@)
}

/// A profile's items after a surface went back to REST: the surface's key is gone,
/// and so is the whole table once nothing is left in it.
pub open spec fn rest_chosen(before: Items, after: Items, surface: ApiSurface) -> bool {
    if has_api(before) {
        let left = items_under(before, "api"@, false).remove(surface.name());
        if real_keys(left) == Set::<Text>::empty() {
            after == before.remove("api"@)
        } else {
            after == with_table(before, "api"@, left)
        }
    } else {
        after == before
    }
}

/// A profile's items after a surface went to GraphQL.
pub open spec fn graphql_chosen(before: Items, after: Items, surface: ApiSurface) -> bool {
    &&& after == with_table(before, "api"@, items_under(after, "api"@, false))
    &&& text_set(
        items_under(before, "api"@, false),
        items_under(after, "api"@, false),
        surface.name(),
        Some("graphql"@),
    )
}

/// Whether a profile's backends can be edited.
pub open spec fn api_open(doc: Document, name: Text) -> bool {
    open_to_table(profile_items(doc, name), "api"@)
}

fn choose_graphql(profile: &mut toml_edit::Table, surface: ApiSurface) -> (r: bool)
    ensures
        r == open_to_table(table_view(*old(profile)), "api"@),
        r ==> graphql_chosen(table_view(*old(profile)), table_view(*final(profile)), surface),
        !r ==> table_view(*final(profile)) == table_view(*old(profile)),
{
    match table_under(profile, "api", false) {
        Some(api) => {
            put_text(api, surface.key(), Some("graphql"));
            true
        },
        None => false,
    }
}

fn choose_rest(profile: &mut toml_edit::Table, surface: ApiSurface)
    ensures
        rest_chosen(table_view(*old(profile)), table_view(*final(profile)), surface),
{
    proof {
        insertion_stays_local(table_view(*profile), "api"@);
    }
    let mut emptied = false;
    if let Some(item) = get_mut(profile, "api") {
        if let Some(api) = as_table_mut(item) {
            let _ = remove(api, surface.key());
            let left: usize = len(api);
            proof {
                counted_keys(table_view(*api), left as nat);
            }
            emptied = left == 0;
        }
    }
    if emptied {
        let _ = remove(profile, "api");
    }
}

/// Chooses the backend of a surface. REST is the default and leaves no key.
pub fn set_profile_api_backend(
    doc: &mut toml_edit::DocumentMut,
    name: &str,
    surface: ApiSurface,
    pref: BackendPreference,
) -> (r: Result<(), ConfigError>)
    requires
        editable(document_view(*old(doc))),
    ensures
        match r {
            Ok(_) => {
                &&& profile_open(document_view(*old(doc)), name@)
                &&& only_profile_changed(
                    document_view(*old(doc)),
                    document_view(*final(doc)),
                    name@,
                )
                &&& pref == BackendPreference::Graphql ==> api_open(document_view(*old(doc)), name@)
                    && graphql_chosen(
                    profile_items(document_view(*old(doc)), name@),
                    profile_items(document_view(*final(doc)), name@),
                    surface,
                )
                &&& pref == BackendPreference::Rest ==> rest_chosen(
                    profile_items(document_view(*old(doc)), name@),
                    profile_items(document_view(*final(doc)), name@),
                    surface,
                )
            },
            Err(e) => if profile_open(document_view(*old(doc)), name@) {
                &&& pref == BackendPreference::Graphql
                &&& !api_open(document_view(*old(doc)), name@)
                &&& e is ApiNotATable
                &&& e->ApiNotATable_0@ == name@
                &&& document_view(*final(doc)) == document_view(*old(doc))
            } else {
                refused(document_view(*old(doc)), document_view(*final(doc)), name@, e)
            },
        },
{
    let ghost before = document_view(*doc);
    let profile = profile_table_mut(doc, name)?;
    match pref {
        BackendPreference::Graphql => {
            if choose_graphql(profile, surface) {
                Ok(())
            } else {
                proof {
                    same_profile_same_document(before, document_view(*doc), name@);
                }
                Err(ConfigError::ApiNotATable(name.to_owned()))
            }
        },
        BackendPreference::Rest => {
            choose_rest(profile, surface);
            Ok(())
        },
    }
}

// ===== Removing and activating a profile =================================

/// Whether a profile was there.
pub open spec fn profile_present(doc: Document, name: Text) -> bool {
    profiles_items(doc).contains_key(name)
}

/// Whether the profiles are something, and no table.
pub open spec fn profiles_misshapen(doc: Document) -> bool {
    &&& top_items(doc).contains_key("profiles"@)
    &&& !(top_items(doc)["profiles"@] is Nothing)
    &&& !(top_items(doc)["profiles"@] is Table)
}

/// Whether there are profiles that can be read.
pub open spec fn profiles_readable(doc: Document) -> bool {
    holds_table(top_items(doc), "profiles"@)
}

/// A document without a profile.
pub open spec fn without_profile(doc: Document, name: Text) -> Document {
    with_section(doc, "profiles"@, profiles_items(doc).remove(name))
}

/// Takes a profile out. Says whether there was one.
pub fn remove_profile(doc: &mut toml_edit::DocumentMut, name: &str) -> (r: Result<
    bool,
    ConfigError,
>)
    requires
        editable(document_view(*old(doc))),
    ensures
        match r {
            Ok(found) => {
                &&& !profiles_misshapen(document_view(*old(doc)))
                &&& found == (profiles_readable(document_view(*old(doc))) && profile_present(
                    document_view(*old(doc)),
                    name@,
                ))
                &&& document_view(*final(doc)) == if profiles_readable(document_view(*old(doc))) {
                    without_profile(document_view(*old(doc)), name@)
                } else {
                    document_view(*old(doc))
                }
            },
            Err(e) => {
                &&& profiles_misshapen(document_view(*old(doc)))
                &&& e is ProfilesNotATable
                &&& document_view(*final(doc)) == document_view(*old(doc))
            },
        },
{
    proof {
        insertion_stays_local(top_items(document_view(*doc)), "profiles"@);
    }
    match top_table(doc) {
        Some(top) => match get_mut(top, "profiles") {
            Some(item) => match as_table_mut(item) {
                Some(profiles) => Ok(remove(profiles, name).is_some()),
                None => Err(ConfigError::ProfilesNotATable),
            },
            None => Ok(false),
        },
        None => Ok(false),
    }
}

/// Whether a string at the top was set or removed.
pub open spec fn top_text_set(
    before: Document,
    after: Document,
    key: Text,
    value: Option<Text>,
) -> bool {
    &&& after == with_top(before, top_items(after))
    &&& text_set(top_items(before), top_items(after), key, value)
}

/// Makes a profile the active one.
pub fn set_active_profile(doc: &mut toml_edit::DocumentMut, name: &str)
    requires
        editable(document_view(*old(doc))),
    ensures
        top_text_set(
            document_view(*old(doc)),
            document_view(*final(doc)),
            "active_profile"@,
            Some(name@),
        ),
{
    if let Some(top) = top_table(doc) {
        put_text(top, "active_profile", Some(name));
    }
}

/// A text that is given and not blank, without whitespace around it.
pub open spec fn given_trimmed(value: Option<Text>) -> Option<Text> {
    match value {
        Some(v) => given(Some(trim(v))),
        None => None,
    }
}

/// Sets a string at the top; a blank one removes it.
pub fn set_top_string(doc: &mut toml_edit::DocumentMut, key: &str, val: Option<&str>)
    requires
        editable(document_view(*old(doc))),
    ensures
        top_text_set(
            document_view(*old(doc)),
            document_view(*final(doc)),
            key@,
            given_trimmed(opt_str(val)),
        ),
{
    if let Some(top) = top_table(doc) {
        match val {
            Some(v) => {
                let t = trimmed(v);
                put_text(top, key, non_empty(Some(t.as_str())));
            },
            None => put_text(top, key, None),
        }
    }
}

// ===== Sections ==========================================================

/// The items of a section.
pub open spec fn section_items(doc: Document, section: Text) -> Items {
    items_under(top_items(doc), section, false)
}

/// Whether a document differs from another at most in one section, which it has;
/// or is the same, where the section's name is taken by something else.
pub open spec fn only_section_changed(
    before: Document,
    after: Document,
    section: Text,
) -> bool {
    after == if open_to_table(top_items(before), section) {
        with_section(before, section, section_items(after, section))
    } else {
        before
    }
}

/// The table of a section, made when there is none.
fn section_table<'a>(doc: &'a mut toml_edit::DocumentMut, section: &str) -> (r: Option<
    &'a mut toml_edit::Table,
>)
    requires
        editable(document_view(*old(doc))),
    ensures
        only_section_changed(document_view(*old(doc)), document_view(*final(doc)), section@),
        match r {
            Some(t) => {
                &&& open_to_table(top_items(document_view(*old(doc))), section@)
                &&& table_view(*t) == section_items(document_view(*old(doc)), section@)
                &&& section_items(document_view(*final(doc)), section@) == table_view(*final(t))
            },
            None => !open_to_table(top_items(document_view(*old(doc))), section@),
        },
{
    match top_table(doc) {
        Some(top) => table_under(top, section, false),
        None => None,
    }
}

/// A field of the `ui` section with its new value.
#[derive(Debug)]
pub enum UiField {
    Theme(String),
    RefreshSecs(Option<u64>),
    OpenBrowserCommand(String),
    LastBrowsed(Option<String>),
}

/// A number of seconds that is not zero.
pub open spec fn real_secs(secs: Option<u64>) -> Option<u64> {
    crate::domain::util::kept_count(secs)
}

/// Whether a table differs from another in one field of the `ui` section.
pub open spec fn ui_field_set(before: Items, after: Items, field: UiField) -> bool {
    match field {
        UiField::Theme(theme) => text_set(before, after, "theme"@, Some(theme@)),
        UiField::RefreshSecs(secs) => int_set(
            before,
            after,
            "refresh_secs"@,
            opt_file_int(real_secs(secs)),
        ),
        UiField::OpenBrowserCommand(command) => text_set(
            before,
            after,
            "open_browser_command"@,
            Some(command@),
        ),
        UiField::LastBrowsed(slug) => text_set(before, after, "last_browsed"@, opt_text(slug)),
    }
}

/// Whether a document differs from another in one field of the `ui` section.
pub open spec fn ui_edited(
    before: Document,
    after: Document,
    field: UiField,
) -> bool {
    &&& only_section_changed(before, after, "ui"@)
    &&& open_to_table(top_items(before), "ui"@) ==> ui_field_set(
        section_items(before, "ui"@),
        section_items(after, "ui"@),
        field,
    )
}

/// Sets a field of the `ui` section. No refresh interval is kept as none or zero.
pub fn set_ui_field(doc: &mut toml_edit::DocumentMut, field: &UiField)
    requires
        editable(document_view(*old(doc))),
    ensures
        ui_edited(document_view(*old(doc)), document_view(*final(doc)), *field),
{
    if let Some(table) = section_table(doc, "ui") {
        match field {
            UiField::Theme(theme) => put_text(table, "theme", Some(theme.as_str())),
            UiField::OpenBrowserCommand(command) => put_text(
                table,
                "open_browser_command",
                Some(command.as_str()),
            ),
            UiField::RefreshSecs(secs) => put_int(
                table,
                "refresh_secs",
                crate::domain::util::non_zero(*secs),
            ),
            UiField::LastBrowsed(slug) => put_text(
                table,
                "last_browsed",
                crate::text::as_opt_str(slug),
            ),
        }
    }
}

/// Whether a document differs from another in its theme.
pub open spec fn theme_edited(
    before: Document,
    after: Document,
    theme: Text,
) -> bool {
    &&& only_section_changed(before, after, "ui"@)
    &&& open_to_table(top_items(before), "ui"@) ==> text_set(
        section_items(before, "ui"@),
        section_items(after, "ui"@),
        "theme"@,
        Some(theme),
    )
}

/// Sets the theme.
pub fn set_ui_theme(doc: &mut toml_edit::DocumentMut, theme: &str)
    requires
        editable(document_view(*old(doc))),
    ensures
        theme_edited(document_view(*old(doc)), document_view(*final(doc)), theme@),
{
    if let Some(table) = section_table(doc, "ui") {
        put_text(table, "theme", Some(theme));
    }
}

/// A setting with its new value.
#[derive(Debug)]
pub enum SettingField {
    Ui(UiField),
    LogLevel(Option<String>),
    LogFile(Option<String>),
    CacheEnabled(bool),
    CacheTtl(u64),
}

/// Whether a document differs from another in one setting.
pub open spec fn setting_edited(
    before: Document,
    after: Document,
    field: SettingField,
) -> bool {
    match field {
        SettingField::Ui(f) => ui_edited(before, after, f),
        SettingField::LogLevel(v) => top_text_set(
            before,
            after,
            "log_level"@,
            given_trimmed(opt_text(v)),
        ),
        SettingField::LogFile(v) => top_text_set(
            before,
            after,
            "log_file"@,
            given_trimmed(opt_text(v)),
        ),
        SettingField::CacheEnabled(on) => {
            &&& only_section_changed(before, after, "cache"@)
            &&& open_to_table(top_items(before), "cache"@) ==> flag_set(
                section_items(before, "cache"@),
                section_items(after, "cache"@),
                "enabled"@,
                Some(on),
            )
        },
        SettingField::CacheTtl(secs) => {
            &&& only_section_changed(before, after, "cache"@)
            &&& open_to_table(top_items(before), "cache"@) ==> int_set(
                section_items(before, "cache"@),
                section_items(after, "cache"@),
                "ttl_secs"@,
                Some(file_int(secs)),
            )
        },
    }
}

/// Sets a setting.
pub fn set_setting_field(doc: &mut toml_edit::DocumentMut, field: &SettingField)
    requires
        editable(document_view(*old(doc))),
    ensures
        setting_edited(document_view(*old(doc)), document_view(*final(doc)), *field),
{
    match field {
        SettingField::Ui(f) => set_ui_field(doc, f),
        SettingField::LogLevel(v) => set_top_string(doc, "log_level", crate::text::as_opt_str(v)),
        SettingField::LogFile(v) => set_top_string(doc, "log_file", crate::text::as_opt_str(v)),
        SettingField::CacheEnabled(on) => {
            if let Some(table) = section_table(doc, "cache") {
                put_flag(table, "enabled", Some(*on));
            }
        },
        SettingField::CacheTtl(secs) => {
            if let Some(table) = section_table(doc, "cache") {
                put_int(table, "ttl_secs", Some(*secs));
            }
        },
    }
}

/// What is blank is not given, and what is given is taken without the blanks around it.
/// A scheme that is worked out automatically is not written. A number beyond what the
/// file can hold is held as the greatest.
pub proof fn blanks_are_not_given(s: Text, n: u64)
    ensures
        given(None) is None && given_trimmed(None) is None,
        given(Some(s)) is Some <==> s.len() > 0,
        s.len() > 0 ==> given(Some(s)) == Some(s),
        given_trimmed(Some(s)) is Some <==> trim(s).len() > 0,
        trim(s).len() > 0 ==> given_trimmed(Some(s)) == Some(trim(s)),
        scheme_text(Some(AuthScheme::Bearer)) == Some("bearer"@),
        scheme_text(Some(AuthScheme::Token)) == Some("token"@),
        scheme_text(Some(AuthScheme::Auto)) is None && scheme_text(None) is None,
        n <= i64::MAX ==> opt_file_int(Some(n)) == Some(n as i64),
        n > i64::MAX ==> opt_file_int(Some(n)) == Some(i64::MAX),
        opt_file_int(None) is None,
        real_secs(Some(n)) is Some <==> n > 0,
        n > 0 ==> real_secs(Some(n)) == Some(n),
{
}

/// Every refusal says in words what it refuses, and names the profile it is about.
pub proof fn refusals_say_what_they_refuse(e: ConfigError)
    ensures
        e is ProfilesNotATable ==> e.message_text() == "`profiles` is not a table"@,
        e is ProfileNotATable ==> e.message_text() == "`profiles."@ + e->ProfileNotATable_0@
            + "` is not a table"@,
        e is ApiNotATable ==> e.message_text() == "`profiles."@ + e->ApiNotATable_0@
            + ".api` is not a table"@,
        e is NoProfile ==> e.message_text() == "no profile named '"@ + e->NoProfile_0@ + "'"@,
        e is OnlyProfile ==> e.message_text() == "can't remove the only profile '"@
            + e->OnlyProfile_0@ + "'"@,
        e is ActiveProfile ==> e.message_text() == "can't remove the active profile '"@
            + e->ActiveProfile_0@ + "' — switch with `nbox profile use <other>` first"@,
        e is NoneNamed ==> e.message_text() == "no profile specified and no active profile set"@,
        e is Unparsable ==> e.message_text() == e->Unparsable_0@,
{
}

/// Each setting is written under its own key in its own table, and what is set there
/// reads back; the other tables stay as they are.
pub proof fn settings_go_to_their_keys(
    before: Document,
    after: Document,
    field: SettingField,
    key: Text,
)
    requires
        setting_edited(before, after, field),
        editable(before),
    ensures
        field is LogLevel ==> text_under(top_items(after), "log_level"@) == given_trimmed(
            opt_text(field->LogLevel_0),
        ),
        field is LogFile ==> text_under(top_items(after), "log_file"@) == given_trimmed(
            opt_text(field->LogFile_0),
        ),
        field is CacheEnabled && open_to_table(top_items(before), "cache"@) ==> node_flag(
            section_items(after, "cache"@)["enabled"@],
        ) == Some(field->CacheEnabled_0),
        field is CacheTtl && open_to_table(top_items(before), "cache"@) ==> node_int(
            section_items(after, "cache"@)["ttl_secs"@],
        ) == Some(file_int(field->CacheTtl_0)),
        field is Ui && field->Ui_0 is Theme && open_to_table(top_items(before), "ui"@)
            ==> text_under(section_items(after, "ui"@), "theme"@) == Some(
            field->Ui_0->Theme_0@,
        ),
        field is Ui && field->Ui_0 is OpenBrowserCommand && open_to_table(top_items(before), "ui"@)
            ==> text_under(section_items(after, "ui"@), "open_browser_command"@) == Some(
            field->Ui_0->OpenBrowserCommand_0@,
        ),
        field is Ui && field->Ui_0 is LastBrowsed && open_to_table(top_items(before), "ui"@)
            ==> text_under(section_items(after, "ui"@), "last_browsed"@) == opt_text(
            field->Ui_0->LastBrowsed_0,
        ),
        field is Ui && field->Ui_0 is RefreshSecs && field->Ui_0->RefreshSecs_0 is Some
            && field->Ui_0->RefreshSecs_0->0 > 0 && open_to_table(top_items(before), "ui"@)
            ==> node_int(section_items(after, "ui"@)["refresh_secs"@]) == Some(
            file_int(field->Ui_0->RefreshSecs_0->0),
        ),
        field is Ui && key != "ui"@ ==> top_items(after).contains_key(key) == top_items(
            before,
        ).contains_key(key) && (top_items(before).contains_key(key) ==> top_items(after)[key]
            == top_items(before)[key]),
        (field is CacheEnabled || field is CacheTtl) && key != "cache"@ ==> top_items(
            after,
        ).contains_key(key) == top_items(before).contains_key(key) && (top_items(
            before,
        ).contains_key(key) ==> top_items(after)[key] == top_items(before)[key]),
        field is LogLevel && key != "log_level"@ ==> top_items(after).contains_key(key)
            == top_items(before).contains_key(key) && (top_items(before).contains_key(key)
            ==> top_items(after)[key] == top_items(before)[key]),
        field is LogFile && key != "log_file"@ ==> top_items(after).contains_key(key)
            == top_items(before).contains_key(key) && (top_items(before).contains_key(key)
            ==> top_items(after)[key] == top_items(before)[key]),
{
}

} // verus!
