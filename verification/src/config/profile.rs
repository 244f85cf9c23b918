//! Managing profiles, and saving edits of the configuration file.

use vstd::prelude::*;

use crate::config::document::{
    editable,
    graphql_chosen,
    has_api,
    items_under,
    only_profile_changed,
    open_to_table,
    profile_items,
    profile_open,
    profile_present,
    profiles_items,
    profiles_readable,
    refused,
    remove_profile,
    rest_chosen,
    same_but,
    section_items,
    set_active_profile,
    set_setting_field,
    set_ui_field,
    set_ui_theme,
    setting_edited,
    text_set,
    text_under,
    theme_edited,
    top_items,
    top_text_set,
    ui_edited,
    upsert_profile,
    upserted,
    without_profile,
    ConfigError,
    SettingField,
    UiField,
};
use crate::config::toml::{
    as_str,
    as_table,
    counted_keys,
    document_view,
    get,
    item_view,
    len,
    new_document,
    node_text,
    parse_document,
    parsed,
    print_document,
    printed,
    real_keys,
    root_item,
    table_view,
    without,
    without_appended,
    without_twice,
    Document,
    Items,
    KeyForm,
};
use crate::config::{
    blotted_profile,
    profile_at,
    profile_count,
    profile_index,
    redacted_profile,
    ApiSurface,
    BackendPreference,
    Config,
    ProfileConfig,
};
use crate::text::{as_opt_str, cat2, cat3, cat5, opt_str, opt_text, same, texts, Text};

verus! {

// ===== Reading and printing ==============================================

/// The document to edit: the file's, or an empty one when there is no file; or what
/// is wrong with the file.
pub open spec fn opened(text: Option<Text>) -> Result<Document, Text> {
    match text {
        Some(t) => parsed(t),
        None => Ok(Document::empty()),
    }
}

/// Whether an error says why a file cannot be edited.
pub open spec fn is_syntax_error(e: ConfigError, text: Option<Text>) -> bool {
    &&& opened(text) is Err
    &&& e is Unparsable
    &&& e->Unparsable_0@ == opened(text)->Err_0
}

/// The document to edit.
pub fn load_doc_or_new(text: Option<&str>) -> (r: Result<toml_edit::DocumentMut, ConfigError>)
    ensures
        match r {
            Ok(doc) => {
                &&& opened(opt_str(text)) == Ok::<Document, Text>(document_view(doc))
                &&& editable(document_view(doc))
            },
            Err(e) => is_syntax_error(e, opt_str(text)),
        },
{
    match text {
        Some(t) => match parse_document(t) {
            Ok(doc) => Ok(doc),
            Err(e) => Err(ConfigError::Unparsable(e)),
        },
        None => Ok(new_document()),
    }
}

/// The text of an edited document.
pub fn write_doc(doc: &toml_edit::DocumentMut) -> (r: String)
    requires
        editable(document_view(*doc)),
    ensures
        r@ == printed(document_view(*doc)),
{
    print_document(doc)
}

// ===== Saving settings ===================================================

/// Whether a document comes from another by setting fields one after another.
pub open spec fn ui_fields_edited(
    before: Document,
    after: Document,
    fields: Seq<UiField>,
) -> bool
    decreases fields.len(),
{
    if fields.len() == 0 {
        after == before
    } else {
        exists|mid: Document|
            ui_fields_edited(before, mid, fields.drop_last()) && #[trigger] ui_edited(
                mid,
                after,
                fields.last(),
            )
    }
}

/// Whether a document comes from another by setting settings one after another.
pub open spec fn settings_edited(
    before: Document,
    after: Document,
    fields: Seq<SettingField>,
) -> bool
    decreases fields.len(),
{
    if fields.len() == 0 {
        after == before
    } else {
        exists|mid: Document|
            settings_edited(before, mid, fields.drop_last()) && #[trigger] setting_edited(
                mid,
                after,
                fields.last(),
            )
    }
}

/// Whether a save gave the text of the file with one field set, or the file
/// cannot be read and the error says why.
pub open spec fn ui_field_saved(
    r: Result<String, ConfigError>,
    text: Option<Text>,
    field: UiField,
) -> bool {
    match opened(text) {
        Ok(doc) => r is Ok && exists|b: Document| #[trigger]
            ui_edited(doc, b, field) && r->Ok_0@ == printed(b),
        Err(_) => r is Err && is_syntax_error(r->Err_0, text),
    }
}

/// Sets one field of the `ui` section in a file.
pub fn save_ui_field(text: Option<&str>, field: &UiField) -> (r: Result<String, ConfigError>)
    ensures
        ui_field_saved(r, opt_str(text), *field),
{
    let mut doc = load_doc_or_new(text)?;
    let ghost before = opened(opt_str(text))->Ok_0;
    set_ui_field(&mut doc, field);
    proof {
        assert(ui_edited(before, document_view(doc), *field));
    }
    Ok(write_doc(&doc))
}

/// Whether a save gave the text of the file with several fields set, or the file
/// cannot be read and the error says why.
pub open spec fn ui_fields_saved(
    r: Result<String, ConfigError>,
    text: Option<Text>,
    fields: Seq<UiField>,
) -> bool {
    match opened(text) {
        Ok(doc) => r is Ok && exists|b: Document| #[trigger]
            ui_fields_edited(doc, b, fields) && r->Ok_0@ == printed(b),
        Err(_) => r is Err && is_syntax_error(r->Err_0, text),
    }
}

/// Sets several fields of the `ui` section in a file, all in one write.
pub fn save_ui_fields(text: Option<&str>, fields: &Vec<UiField>) -> (r: Result<
    String,
    ConfigError,
>)
    ensures
        ui_fields_saved(r, opt_str(text), fields@),
{
    let mut doc = load_doc_or_new(text)?;
    let ghost before = opened(opt_str(text))->Ok_0;
    let mut i: usize = 0;
    proof {
        assert(fields@.take(0) =~= Seq::empty());
    }
    while i < fields.len()
        invariant
            i <= fields.len(),
            editable(document_view(doc)),
            ui_fields_edited(before, document_view(doc), fields@.take(i as int)),
        decreases fields.len() - i,
    {
        let ghost mid = document_view(doc);
        set_ui_field(&mut doc, &fields[i]);
        proof {
            assert(fields@.take(i as int + 1).drop_last() =~= fields@.take(i as int));
            assert(ui_edited(mid, document_view(doc), fields@.take(i as int + 1).last()));
        }
        i = i + 1;
    }
    proof {
        assert(fields@.take(i as int) =~= fields@);
    }
    Ok(write_doc(&doc))
}

/// Whether a save gave the text of the file with several settings set, or the file
/// cannot be read and the error says why.
pub open spec fn settings_saved(
    r: Result<String, ConfigError>,
    text: Option<Text>,
    fields: Seq<SettingField>,
) -> bool {
    match opened(text) {
        Ok(doc) => r is Ok && exists|b: Document| #[trigger]
            settings_edited(doc, b, fields) && r->Ok_0@ == printed(b),
        Err(_) => r is Err && is_syntax_error(r->Err_0, text),
    }
}

/// Sets several settings in a file, all in one write.
pub fn save_setting_fields(text: Option<&str>, fields: &Vec<SettingField>) -> (r: Result<
    String,
    ConfigError,
>)
    ensures
        settings_saved(r, opt_str(text), fields@),
{
    let mut doc = load_doc_or_new(text)?;
    let ghost before = opened(opt_str(text))->Ok_0;
    let mut i: usize = 0;
    proof {
        assert(fields@.take(0) =~= Seq::empty());
    }
    while i < fields.len()
        invariant
            i <= fields.len(),
            editable(document_view(doc)),
            settings_edited(before, document_view(doc), fields@.take(i as int)),
        decreases fields.len() - i,
    {
        let ghost mid = document_view(doc);
        set_setting_field(&mut doc, &fields[i]);
        proof {
            assert(fields@.take(i as int + 1).drop_last() =~= fields@.take(i as int));
            assert(setting_edited(mid, document_view(doc), fields@.take(i as int + 1).last()));
        }
        i = i + 1;
    }
    proof {
        assert(fields@.take(i as int) =~= fields@);
    }
    Ok(write_doc(&doc))
}

/// Whether a save gave the text of the file with the theme set, or the file
/// cannot be read and the error says why.
pub open spec fn theme_saved(
    r: Result<String, ConfigError>,
    text: Option<Text>,
    theme: Text,
) -> bool {
    match opened(text) {
        Ok(doc) => r is Ok && exists|b: Document| #[trigger]
            theme_edited(doc, b, theme) && r->Ok_0@ == printed(b),
        Err(_) => r is Err && is_syntax_error(r->Err_0, text),
    }
}

/// Sets the theme in a file.
pub fn save_ui_theme(text: Option<&str>, theme: &str) -> (r: Result<String, ConfigError>)
    ensures
        theme_saved(r, opt_str(text), theme@),
{
    let mut doc = load_doc_or_new(text)?;
    let ghost before = opened(opt_str(text))->Ok_0;
    set_ui_theme(&mut doc, theme);
    proof {
        assert(theme_edited(before, document_view(doc), theme@));
    }
    Ok(write_doc(&doc))
}

/// Makes a profile the active one in a file.
pub fn save_active_profile(text: Option<&str>, name: &str) -> (r: Result<String, ConfigError>)
    ensures
        match opened(opt_str(text)) {
            Ok(doc) => r is Ok && exists|b: Document| #[trigger]
                top_text_set(doc, b, "active_profile"@, Some(name@)) && r->Ok_0@ == printed(b),
            Err(_) => r is Err && is_syntax_error(r->Err_0, opt_str(text)),
        },
{
    let mut doc = load_doc_or_new(text)?;
    let ghost before = opened(opt_str(text))->Ok_0;
    set_active_profile(&mut doc, name);
    proof {
        assert(top_text_set(before, document_view(doc), "active_profile"@, Some(name@)));
    }
    Ok(write_doc(&doc))
}

// ===== Commands on profiles ==============================================

/// A command on profiles.
#[derive(Debug)]
pub enum ProfileCommand {
    Add { name: String, url: String, token_env: Option<String> },
    Use { name: String },
    Remove { name: String },
    List,
    Show { name: Option<String> },
}

/// Whether a profile exists.
pub open spec fn profile_known(doc: Document, name: Text) -> bool {
    &&& profiles_readable(doc)
    &&& profile_present(doc, name)
    &&& !(profiles_items(doc)[name] is Nothing)
}

/// Whether an item at the top is something.
pub open spec fn top_present(doc: Document, key: Text) -> bool {
    top_items(doc).contains_key(key) && !(top_items(doc)[key] is Nothing)
}

/// Whether a profile is the active one.
pub open spec fn profile_active(doc: Document, name: Text) -> bool {
    top_present(doc, "active_profile"@) && text_under(top_items(doc), "active_profile"@) == Some(
        name,
    )
}

/// How many profiles there are.
pub open spec fn known_count(doc: Document) -> nat {
    real_keys(profiles_items(doc)).len()
}

fn read_top<'a>(doc: &'a toml_edit::DocumentMut, key: &str) -> (r: Option<&'a toml_edit::Item>)
    requires
        editable(document_view(*doc)),
    ensures
        match r {
            Some(i) => {
                &&& top_present(document_view(*doc), key@)
                &&& top_items(document_view(*doc))[key@] == item_view(*i)
            },
            None => !top_present(document_view(*doc), key@),
        },
{
    match as_table(root_item(doc)) {
        Some(top) => get(top, key),
        None => None,
    }
}

fn read_profiles(doc: &toml_edit::DocumentMut) -> (r: Option<&toml_edit::Table>)
    requires
        editable(document_view(*doc)),
    ensures
        match r {
            Some(t) => {
                &&& profiles_readable(document_view(*doc))
                &&& table_view(*t) == profiles_items(document_view(*doc))
            },
            None => !profiles_readable(document_view(*doc)),
        },
{
    match read_top(doc, "profiles") {
        Some(item) => as_table(item),
        None => None,
    }
}

fn is_known(doc: &toml_edit::DocumentMut, name: &str) -> (r: bool)
    requires
        editable(document_view(*doc)),
    ensures
        r == profile_known(document_view(*doc), name@),
{
    match read_profiles(doc) {
        Some(t) => get(t, name).is_some(),
        None => false,
    }
}

fn is_active(doc: &toml_edit::DocumentMut, name: &str) -> (r: bool)
    requires
        editable(document_view(*doc)),
    ensures
        r == profile_active(document_view(*doc), name@),
{
    match read_top(doc, "active_profile") {
        Some(item) => match as_str(item) {
            Some(s) => same(s, name),
            None => false,
        },
        None => false,
    }
}

/// Whether a document comes from another by adding a profile, which becomes the
/// active one when none was.
pub open spec fn profile_added(
    before: Document,
    after: Document,
    name: Text,
    url: Text,
    token_env: Option<Text>,
) -> bool {
    exists|mid: Document|
        {
            &&& #[trigger] only_profile_changed(before, mid, name)
            &&& upserted(profile_items(before, name), profile_items(mid, name), url, token_env)
            &&& if top_present(mid, "active_profile"@) {
                after == mid
            } else {
                top_text_set(mid, after, "active_profile"@, Some(name))
            }
        }
}

/// Adds a profile.
pub fn add_profile(
    doc: &mut toml_edit::DocumentMut,
    name: &str,
    url: &str,
    token_env: Option<&str>,
) -> (r: Result<(), ConfigError>)
    requires
        editable(document_view(*old(doc))),
    ensures
        match r {
            Ok(_) => profile_open(document_view(*old(doc)), name@) && profile_added(
                document_view(*old(doc)),
                document_view(*final(doc)),
                name@,
                url@,
                opt_str(token_env),
            ),
            Err(e) => !profile_open(document_view(*old(doc)), name@) && refused(
                document_view(*old(doc)),
                document_view(*final(doc)),
                name@,
                e,
            ),
        },
        editable(document_view(*final(doc))),
{
    upsert_profile(doc, name, url, token_env)?;
    let ghost mid = document_view(*doc);
    if read_top(doc, "active_profile").is_none() {
        set_active_profile(doc, name);
    }
    proof {
        assert(only_profile_changed(document_view(*old(doc)), mid, name@));
    }
    Ok(())
}

/// Makes an existing profile the active one.
pub fn use_profile(doc: &mut toml_edit::DocumentMut, name: &str) -> (r: Result<(), ConfigError>)
    requires
        editable(document_view(*old(doc))),
    ensures
        match r {
            Ok(_) => profile_known(document_view(*old(doc)), name@) && top_text_set(
                document_view(*old(doc)),
                document_view(*final(doc)),
                "active_profile"@,
                Some(name@),
            ),
            Err(e) => {
                &&& !profile_known(document_view(*old(doc)), name@)
                &&& e is NoProfile
                &&& e->NoProfile_0@ == name@
                &&& document_view(*final(doc)) == document_view(*old(doc))
            },
        },
        editable(document_view(*final(doc))),
{
    if !is_known(doc, name) {
        return Err(ConfigError::NoProfile(name.to_owned()));
    }
    set_active_profile(doc, name);
    Ok(())
}

/// Removes a profile, unless it does not exist, is the only one, or is the active
/// one.
pub fn drop_profile(doc: &mut toml_edit::DocumentMut, name: &str) -> (r: Result<(), ConfigError>)
    requires
        editable(document_view(*old(doc))),
    ensures
        match r {
            Ok(_) => {
                &&& profile_known(document_view(*old(doc)), name@)
                &&& real_keys(profiles_items(document_view(*old(doc)))).finite()
                &&& known_count(document_view(*old(doc))) > 1
                &&& !profile_active(document_view(*old(doc)), name@)
                &&& document_view(*final(doc)) == without_profile(
                    document_view(*old(doc)),
                    name@,
                )
            },
            Err(e) => {
                &&& document_view(*final(doc)) == document_view(*old(doc))
                &&& if !profile_known(document_view(*old(doc)), name@) {
                    e is NoProfile && e->NoProfile_0@ == name@
                } else if known_count(document_view(*old(doc))) <= 1 {
                    e is OnlyProfile && e->OnlyProfile_0@ == name@
                } else {
                    &&& profile_active(document_view(*old(doc)), name@)
                    &&& e is ActiveProfile
                    &&& e->ActiveProfile_0@ == name@
                }
            },
        },
        editable(document_view(*final(doc))),
{
    if !is_known(doc, name) {
        return Err(ConfigError::NoProfile(name.to_owned()));
    }
    let only = match read_profiles(doc) {
        Some(t) => {
            let n: usize = len(t);
            proof {
                counted_keys(table_view(*t), n as nat);
            }
            n <= 1
        },
        None => false,
    };
    if only {
        return Err(ConfigError::OnlyProfile(name.to_owned()));
    }
    if is_active(doc, name) {
        return Err(ConfigError::ActiveProfile(name.to_owned()));
    }
    let _ = remove_profile(doc, name)?;
    Ok(())
}

/// Whether a document comes from another by a command.
pub open spec fn command_done(
    before: Document,
    after: Document,
    cmd: ProfileCommand,
) -> bool {
    match cmd {
        ProfileCommand::Add { name, url, token_env } => {
            &&& profile_open(before, name@)
            &&& profile_added(before, after, name@, url@, opt_text(token_env))
        },
        ProfileCommand::Use { name } => {
            &&& profile_known(before, name@)
            &&& top_text_set(before, after, "active_profile"@, Some(name@))
        },
        ProfileCommand::Remove { name } => {
            &&& profile_known(before, name@)
            &&& real_keys(profiles_items(before)).finite()
            &&& known_count(before) > 1
            &&& !profile_active(before, name@)
            &&& after == without_profile(before, name@)
        },
        _ => after == before,
    }
}

/// Whether a command can be carried out on a document.
pub open spec fn command_allowed(doc: Document, cmd: ProfileCommand) -> bool {
    match cmd {
        ProfileCommand::Add { name, url, token_env } => profile_open(doc, name@),
        ProfileCommand::Use { name } => profile_known(doc, name@),
        ProfileCommand::Remove { name } => profile_known(doc, name@) && known_count(doc) > 1
            && !profile_active(doc, name@),
        _ => true,
    }
}

/// Whether an error says why a command cannot be carried out on a document.
pub open spec fn is_command_error(
    e: ConfigError,
    doc: Document,
    cmd: ProfileCommand,
) -> bool {
    match cmd {
        ProfileCommand::Add { name, url, token_env } => {
            &&& !profile_open(doc, name@)
            &&& if open_to_table(top_items(doc), "profiles"@) {
                e is ProfileNotATable && e->ProfileNotATable_0@ == name@
            } else {
                e is ProfilesNotATable
            }
        },
        ProfileCommand::Use { name } => {
            &&& !profile_known(doc, name@)
            &&& e is NoProfile
            &&& e->NoProfile_0@ == name@
        },
        ProfileCommand::Remove { name } => if !profile_known(doc, name@) {
            e is NoProfile && e->NoProfile_0@ == name@
        } else if known_count(doc) <= 1 {
            e is OnlyProfile && e->OnlyProfile_0@ == name@
        } else {
            profile_active(doc, name@) && e is ActiveProfile && e->ActiveProfile_0@ == name@
        },
        _ => false,
    }
}

/// What is said when a command was carried out.
pub open spec fn notice_text(cmd: ProfileCommand) -> Text {
    match cmd {
        ProfileCommand::Add { name, url, token_env } => "added profile '"@ + name@ + "' ("@ + url@
            + ")"@,
        ProfileCommand::Use { name } => "active profile set to '"@ + name@ + "'"@,
        ProfileCommand::Remove { name } => "removed profile '"@ + name@ + "'"@,
        _ => Seq::empty(),
    }
}

/// Carries out a command on the file: the new text of the file, and what to say.
/// A command that only reads changes nothing.
pub fn run_profile(text: Option<&str>, cmd: &ProfileCommand) -> (r: Result<
    (String, String),
    ConfigError,
>)
    ensures
        match opened(opt_str(text)) {
            Ok(doc) => match r {
                Ok((out, notice)) => {
                    &&& command_allowed(doc, *cmd)
                    &&& exists|b: Document| #[trigger]
                        command_done(doc, b, *cmd) && out@ == printed(b)
                    &&& notice@ == notice_text(*cmd)
                },
                Err(e) => is_command_error(e, doc, *cmd),
            },
            Err(_) => r is Err && is_syntax_error(r->Err_0, opt_str(text)),
        },
{
    let mut doc = load_doc_or_new(text)?;
    let ghost before = opened(opt_str(text))->Ok_0;
    let done = match cmd {
        ProfileCommand::Add { name, url, token_env } => add_profile(
            &mut doc,
            name.as_str(),
            url.as_str(),
            as_opt_str(token_env),
        ),
        ProfileCommand::Use { name } => use_profile(&mut doc, name.as_str()),
        ProfileCommand::Remove { name } => drop_profile(&mut doc, name.as_str()),
        _ => Ok(()),
    };
    match done {
        Ok(_) => {},
        Err(e) => {
            proof {
                assert(is_command_error(e, before, *cmd));
            }
            return Err(e);
        },
    }
    proof {
        assert(command_done(before, document_view(doc), *cmd));
    }
    let notice = match cmd {
        ProfileCommand::Add { name, url, token_env: _ } => cat5(
            "added profile '",
            name.as_str(),
            "' (",
            url.as_str(),
            ")",
        ),
        ProfileCommand::Use { name } => cat3("active profile set to '", name.as_str(), "'"),
        ProfileCommand::Remove { name } => cat3("removed profile '", name.as_str(), "'"),
        _ => String::new(),
    };
    Ok((write_doc(&doc), notice))
}

// ===== Listing and showing ===============================================

/// The line of a profile in a listing: a star marks the active one.
pub open spec fn listing_line(name: Text, active: Option<Text>) -> Text {
    if active == Some(name) {
        "* "@ + name
    } else {
        "  "@ + name
    }
}

/// The listing of the profiles, in the order of the file.
pub open spec fn listing(list: Seq<(Text, ProfileConfig)>, active: Option<Text>) -> Seq<Text> {
    Seq::new(list.len(), |i: int| listing_line(list[i].0, active))
}

/// Lists the profiles.
pub fn list_profiles(cfg: &Config) -> (r: Vec<String>)
    ensures
        texts(r@) == listing(cfg.profile_seq(), opt_text(cfg.active_profile)),
{
    let n: usize = profile_count(&cfg.profiles);
    let mut out: Vec<String> = Vec::new();
    let mut i: usize = 0;
    while i < n
        invariant
            i <= n,
            n == cfg.profile_seq().len(),
            out.len() == i,
            forall|j: int|
                0 <= j < i ==> (#[trigger] out@[j])@ == listing_line(
                    cfg.profile_seq()[j].0,
                    opt_text(cfg.active_profile),
                ),
        decreases n - i,
    {
        if let Some((name, _)) = profile_at(&cfg.profiles, i) {
            let active = match &cfg.active_profile {
                Some(a) => same(a.as_str(), name.as_str()),
                None => false,
            };
            out.push(
                if active {
                    cat2("* ", name.as_str())
                } else {
                    cat2("  ", name.as_str())
                },
            );
        }
        i = i + 1;
    }
    proof {
        assert(texts(out@) =~= listing(cfg.profile_seq(), opt_text(cfg.active_profile)));
    }
    out
}

/// The profile to show: the one named, else the active one.
pub open spec fn shown_name(name: Option<Text>, active: Option<Text>) -> Option<Text> {
    match name {
        Some(n) => Some(n),
        None => active,
    }
}

/// The position of the profile to show.
pub fn show_profile(cfg: &Config, name: Option<&str>) -> (r: Result<usize, ConfigError>)
    ensures
        match shown_name(opt_str(name), opt_text(cfg.active_profile)) {
            Some(wanted) => match r {
                Ok(i) => i < cfg.profile_seq().len() && cfg.profile_seq()[i as int].0 == wanted,
                Err(e) => {
                    &&& !crate::config::has_profile(cfg.profile_seq(), wanted)
                    &&& e is NoProfile
                    &&& e->NoProfile_0@ == wanted
                },
            },
            None => r is Err && r->Err_0 is NoneNamed,
        },
{
    let wanted: &str = match name {
        Some(n) => n,
        None => match &cfg.active_profile {
            Some(a) => a.as_str(),
            None => return Err(ConfigError::NoneNamed),
        },
    };
    match profile_index(&cfg.profiles, wanted) {
        Some(i) => Ok(i),
        None => Err(ConfigError::NoProfile(wanted.to_owned())),
    }
}

/// The profile to show, without its token.
pub fn shown_profile(cfg: &Config, name: Option<&str>) -> (r: Result<ProfileConfig, ConfigError>)
    ensures
        match shown_name(opt_str(name), opt_text(cfg.active_profile)) {
            Some(wanted) => match r {
                Ok(p) => exists|i: int|
                    0 <= i < cfg.profile_seq().len() && (#[trigger] cfg.profile_seq()[i]).0
                        == wanted && blotted_profile(cfg.profile_seq()[i].1, p),
                Err(e) => {
                    &&& !crate::config::has_profile(cfg.profile_seq(), wanted)
                    &&& e is NoProfile
                    &&& e->NoProfile_0@ == wanted
                },
            },
            None => r is Err && r->Err_0 is NoneNamed,
        },
{
    let i: usize = show_profile(cfg, name)?;
    match profile_at(&cfg.profiles, i) {
        Some((_, profile)) => {
            let shown = redacted_profile(profile);
            proof {
                assert(blotted_profile(cfg.profile_seq()[i as int].1, shown));
            }
            Ok(shown)
        },
        None => Err(ConfigError::NoneNamed),
    }
}

// ===== Laws ==============================================================

/// Setting fields of the `ui` section one after another has one outcome.
pub proof fn ui_edits_have_one_outcome(
    before: Document,
    one: Document,
    other: Document,
    fields: Seq<UiField>,
)
    requires
        ui_fields_edited(before, one, fields),
        ui_fields_edited(before, other, fields),
    ensures
        one == other,
    decreases fields.len(),
{
    if fields.len() > 0 {
        let rest = fields.drop_last();
        let a = choose|mid: Document|
            ui_fields_edited(before, mid, rest) && #[trigger] ui_edited(mid, one, fields.last());
        let b = choose|mid: Document|
            ui_fields_edited(before, mid, rest) && #[trigger] ui_edited(mid, other, fields.last());
        ui_edits_have_one_outcome(before, a, b, rest);
    }
}

/// Setting settings one after another has one outcome.
pub proof fn settings_have_one_outcome(
    before: Document,
    one: Document,
    other: Document,
    fields: Seq<SettingField>,
)
    requires
        settings_edited(before, one, fields),
        settings_edited(before, other, fields),
    ensures
        one == other,
    decreases fields.len(),
{
    if fields.len() > 0 {
        let rest = fields.drop_last();
        let a = choose|mid: Document|
            settings_edited(before, mid, rest) && #[trigger] setting_edited(
                mid,
                one,
                fields.last(),
            );
        let b = choose|mid: Document|
            settings_edited(before, mid, rest) && #[trigger] setting_edited(
                mid,
                other,
                fields.last(),
            );
        settings_have_one_outcome(before, a, b, rest);
    }
}

/// Saving the theme by itself, as a field, as a list of fields or as a setting fails
/// each time with the same message, or gives the same text each time, of a document
/// in which the theme reads back.
pub proof fn themes_are_saved_alike(
    text: Option<Text>,
    theme: String,
    alone: Result<String, ConfigError>,
    field: Result<String, ConfigError>,
    listed: Result<String, ConfigError>,
    setting: Result<String, ConfigError>,
)
    ensures
        ({
            &&& theme_saved(alone, text, theme@)
            &&& ui_field_saved(field, text, UiField::Theme(theme))
            &&& ui_fields_saved(listed, text, seq![UiField::Theme(theme)])
            &&& settings_saved(setting, text, seq![SettingField::Ui(UiField::Theme(theme))])
        }) ==> match alone {
            Ok(out) => {
                &&& field is Ok && field->Ok_0@ == out@
                &&& listed is Ok && listed->Ok_0@ == out@
                &&& setting is Ok && setting->Ok_0@ == out@
                &&& open_to_table(top_items(opened(text)->Ok_0), "ui"@) ==> exists|b: Document|
                    out@ == #[trigger] printed(b) && text_under(section_items(b, "ui"@), "theme"@)
                        == Some(theme@)
            },
            Err(e) => {
                &&& field is Err && field->Err_0.message_text() == e.message_text()
                &&& listed is Err && listed->Err_0.message_text() == e.message_text()
                &&& setting is Err && setting->Err_0.message_text() == e.message_text()
            },
        },
{
    reveal_with_fuel(ui_fields_edited, 2);
    reveal_with_fuel(settings_edited, 2);
    let f = UiField::Theme(theme);
    let fields = seq![f];
    assert(fields.drop_last() =~= Seq::<UiField>::empty());
    assert(fields.last() == f);
    let s = SettingField::Ui(f);
    let settings = seq![s];
    assert(settings.drop_last() =~= Seq::<SettingField>::empty());
    assert(settings.last() == s);
    if opened(text) is Ok {
        let doc = opened(text)->Ok_0;
        assert forall|b: Document, c: Document| #[trigger]
            theme_edited(doc, b, theme@) && #[trigger] ui_edited(doc, c, f) implies b == c by {}
        assert forall|c: Document| #[trigger] ui_fields_edited(doc, c, fields) implies ui_edited(
            doc,
            c,
            f,
        ) by {}
        assert forall|c: Document| #[trigger] settings_edited(doc, c, settings) implies ui_edited(
            doc,
            c,
            f,
        ) by {}
    }
}

/// A command on profiles has one outcome.
pub proof fn commands_have_one_outcome(
    before: Document,
    one: Document,
    other: Document,
    cmd: ProfileCommand,
)
    requires
        command_done(before, one, cmd),
        command_done(before, other, cmd),
    ensures
        one == other,
{
    if let ProfileCommand::Add { name, url, token_env } = cmd {
        let a = choose|mid: Document|
            {
                &&& #[trigger] only_profile_changed(before, mid, name@)
                &&& upserted(
                    profile_items(before, name@),
                    profile_items(mid, name@),
                    url@,
                    opt_text(token_env),
                )
                &&& if top_present(mid, "active_profile"@) {
                    one == mid
                } else {
                    top_text_set(mid, one, "active_profile"@, Some(name@))
                }
            };
        let b = choose|mid: Document|
            {
                &&& #[trigger] only_profile_changed(before, mid, name@)
                &&& upserted(
                    profile_items(before, name@),
                    profile_items(mid, name@),
                    url@,
                    opt_text(token_env),
                )
                &&& if top_present(mid, "active_profile"@) {
                    other == mid
                } else {
                    top_text_set(mid, other, "active_profile"@, Some(name@))
                }
            };
        assert(profile_items(a, name@) == profile_items(b, name@));
        assert(a == b);
    }
}

/// The string read under a key; an item that is nothing counts as absent.
pub open spec fn text_read(items: Items, key: Text) -> Option<Text> {
    if items.contains_key(key) && !(items[key] is Nothing) {
        node_text(items[key])
    } else {
        None
    }
}

/// The backend that a profile names for a surface; REST when it names none.
pub open spec fn preference_read(profile: Items, surface: ApiSurface) -> BackendPreference {
    if has_api(profile) && text_read(items_under(profile, "api"@, false), surface.name()) == Some(
        "graphql"@,
    ) {
        BackendPreference::Graphql
    } else {
        BackendPreference::Rest
    }
}

/// The backend chosen for a surface reads back, and every other surface keeps its
/// own. REST leaves no key, and no table once nothing else is in it. All other
/// items of the profile, their order and their comments stay.
pub proof fn backends_read_back(
    before: Items,
    after: Items,
    surface: ApiSurface,
    pref: BackendPreference,
    other: ApiSurface,
)
    requires
        before.contains_key("api"@) ==> has_api(before),
        pref == BackendPreference::Graphql ==> graphql_chosen(before, after, surface),
        pref == BackendPreference::Rest ==> rest_chosen(before, after, surface),
    ensures
        preference_read(after, surface) == pref,
        other != surface ==> preference_read(after, other) == preference_read(before, other),
        pref == BackendPreference::Rest ==> !items_under(after, "api"@, false).contains_key(
            surface.name(),
        ),
        pref == BackendPreference::Rest && after.contains_key("api"@) ==> real_keys(
            items_under(after, "api"@, false),
        ) != Set::<Text>::empty(),
        same_but(before, after, "api"@),
{
    reveal_strlit("search");
    reveal_strlit("vrf");
    reveal_strlit("route_target");
    assert("search"@.len() == 6 && "vrf"@.len() == 3 && "route_target"@.len() == 12);
    assert(other != surface ==> other.name() != surface.name());
    let api = items_under(before, "api"@, false);
    without_appended(before.layout, "api"@, KeyForm::unset());
    without_twice(before.layout, "api"@);
    if pref == BackendPreference::Graphql {
        assert(after.remove("api"@).held =~= before.remove("api"@).held);
    } else if has_api(before) {
        let left = api.remove(surface.name());
        assert(after.remove("api"@).held =~= before.remove("api"@).held);
        if real_keys(left) == Set::<Text>::empty() && other != surface {
            assert(!real_keys(left).contains(other.name()));
        }
    }
}

/// A command is refused exactly when it is not allowed.
pub proof fn refusals_are_justified(e: ConfigError, doc: Document, cmd: ProfileCommand)
    requires
        is_command_error(e, doc, cmd),
    ensures
        !command_allowed(doc, cmd),
{
}

/// Removing a profile leaves every other profile and every comment outside of it,
/// and never removes the last one.
pub proof fn removal_keeps_the_rest(
    before: Document,
    after: Document,
    name: String,
    other: Text,
)
    requires
        command_done(before, after, (ProfileCommand::Remove { name })),
        other != name@,
    ensures
        profiles_items(after).contains_key(other) == profiles_items(before).contains_key(other),
        profiles_items(before).contains_key(other) ==> profiles_items(after)[other]
            == profiles_items(before)[other],
        !profiles_items(after).contains_key(name@),
        profiles_items(after).layout == without(profiles_items(before).layout, name@),
        profiles_items(after).heading == profiles_items(before).heading,
        top_items(after).layout == top_items(before).layout,
        top_items(after).heading == top_items(before).heading,
        after.tail == before.tail,
        exists|kept: Text| kept != name@ && #[trigger] profile_known(before, kept),
{
    let keys = real_keys(profiles_items(before));
    assert(keys.contains(name@));
    let rest = keys.remove(name@);
    assert(rest.len() >= 1);
    let kept = rest.choose();
    assert(rest.contains(kept));
    assert(profile_known(before, kept));
}

/// Editing one profile leaves every other profile and everything else in the file.
pub proof fn edits_stay_in_their_profile(
    before: Document,
    after: Document,
    name: Text,
    other: Text,
    key: Text,
)
    requires
        only_profile_changed(before, after, name),
        other != name,
        key != "profiles"@,
    ensures
        profiles_items(after).contains_key(other) == profiles_items(before).contains_key(other),
        profiles_items(before).contains_key(other) ==> profiles_items(after)[other]
            == profiles_items(before)[other],
        top_items(after).contains_key(key) == top_items(before).contains_key(key),
        top_items(before).contains_key(key) ==> top_items(after)[key] == top_items(before)[key],
{
    let a = profiles_items(after);
    let b = profiles_items(before);
    assert(a.remove(name).contains_key(other) == b.remove(name).contains_key(other));
    assert(a.remove(name)[other] == b.remove(name)[other]);
    let p = top_items(after);
    let q = top_items(before);
    assert(p.remove("profiles"@).contains_key(key) == q.remove("profiles"@).contains_key(key));
    assert(p.remove("profiles"@)[key] == q.remove("profiles"@)[key]);
}

/// Editing a profile leaves the order of all other keys and the comments in front
/// of them; a profile that is there keeps its own place and comments too.
pub proof fn edits_keep_comments(
    before: Document,
    after: Document,
    name: Text,
)
    requires
        only_profile_changed(before, after, name),
    ensures
        after.tail == before.tail,
        top_items(after).heading == top_items(before).heading,
        without(top_items(after).layout, "profiles"@) == without(
            top_items(before).layout,
            "profiles"@,
        ),
        top_items(before).contains_key("profiles"@) ==> top_items(after).layout == top_items(
            before,
        ).layout,
        profiles_items(after).heading == profiles_items(before).heading,
        without(profiles_items(after).layout, name) == without(profiles_items(before).layout, name),
        profiles_items(before).contains_key(name) ==> profiles_items(after).layout
            == profiles_items(before).layout,
{
    without_appended(top_items(before).layout, "profiles"@, KeyForm::unset());
    without_appended(profiles_items(before).layout, name, KeyForm::unset());
}

/// Setting or removing a value leaves the order of all other keys and the comments
/// in front of them; a key that stays keeps its own place and comments too.
pub proof fn settings_keep_comments(before: Items, after: Items, key: Text, value: Option<Text>)
    requires
        text_set(before, after, key, value),
    ensures
        after.heading == before.heading,
        without(after.layout, key) == without(before.layout, key),
        before.contains_key(key) && after.contains_key(key) ==> after.layout == before.layout,
{
    without_appended(before.layout, key, KeyForm::unset());
    without_twice(before.layout, key);
}

/// What was set is what is read back, and removing gives nothing back.
pub proof fn settings_read_back(before: Items, after: Items, key: Text, value: Option<Text>)
    requires
        text_set(before, after, key, value),
    ensures
        text_under(after, key) == value,
{
}

/// Profiles are listed one to a line, in the order of the file, the active one behind a
/// star; what is shown is the profile that is named, else the active one.
pub proof fn listings_mark_the_active_profile(
    list: Seq<(Text, ProfileConfig)>,
    active: Option<Text>,
    i: int,
)
    ensures
        listing(list, active).len() == list.len(),
        0 <= i < list.len() && active == Some(list[i].0) ==> listing(list, active)[i] == "* "@
            + list[i].0,
        0 <= i < list.len() && active != Some(list[i].0) ==> listing(list, active)[i] == "  "@
            + list[i].0,
        0 <= i < list.len() ==> shown_name(Some(list[i].0), active) == Some(list[i].0),
        shown_name(None, active) == active,
{
}

/// What was done to a profile is told by what was done and the profile's name.
pub proof fn notices_tell_what_was_done(cmd: ProfileCommand)
    ensures
        cmd is Add ==> notice_text(cmd) == "added profile '"@ + cmd->Add_name@ + "' ("@
            + cmd->url@ + ")"@,
        cmd is Use ==> notice_text(cmd) == "active profile set to '"@ + cmd->Use_name@ + "'"@,
        cmd is Remove ==> notice_text(cmd) == "removed profile '"@ + cmd->Remove_name@ + "'"@,
{
}

/// A profile that is added holds its URL and, where one is named, its variable; and it
/// becomes the active one only when none was.
pub proof fn added_profiles_read_back(
    before: Document,
    after: Document,
    name: String,
    url: String,
    token_env: Option<String>,
)
    requires
        editable(before),
        command_done(before, after, (ProfileCommand::Add { name, url, token_env })),
    ensures
        text_under(profile_items(after, name@), "url"@) == Some(url@),
        token_env is Some ==> text_under(profile_items(after, name@), "token_env"@) == Some(
            token_env->0@,
        ),
        !top_present(before, "active_profile"@) ==> text_under(
            top_items(after),
            "active_profile"@,
        ) == Some(name@),
        top_present(before, "active_profile"@) ==> top_items(after)["active_profile"@]
            == top_items(before)["active_profile"@],
{
    reveal_strlit("url");
    reveal_strlit("token_env");
    reveal_strlit("profiles");
    reveal_strlit("active_profile");
    assert("url"@.len() != "token_env"@.len());
    assert("profiles"@.len() != "active_profile"@.len());
}

/// Choosing a profile makes it the active one and changes nothing else at the top.
pub proof fn chosen_profiles_are_active(before: Document, after: Document, name: String, key: Text)
    requires
        command_done(before, after, (ProfileCommand::Use { name })),
        key != "active_profile"@,
    ensures
        text_under(top_items(after), "active_profile"@) == Some(name@),
        top_items(after).contains_key(key) == top_items(before).contains_key(key),
        top_items(before).contains_key(key) ==> top_items(after)[key] == top_items(before)[key],
        after.tail == before.tail,
{
}

/// A profile is refused for the first reason there is: one that is unknown cannot be
/// chosen or removed, the only one cannot be removed, nor can the active one.
pub proof fn refusals_name_their_reason(e: ConfigError, doc: Document, name: String)
    ensures
        is_command_error(e, doc, (ProfileCommand::Use { name })) ==> e is NoProfile
            && e->NoProfile_0@ == name@,
        is_command_error(e, doc, (ProfileCommand::Remove { name })) && !profile_known(doc, name@)
            ==> e is NoProfile && e->NoProfile_0@ == name@,
        is_command_error(e, doc, (ProfileCommand::Remove { name })) && profile_known(doc, name@)
            && real_keys(profiles_items(doc)).len() <= 1 ==> e is OnlyProfile
            && e->OnlyProfile_0@ == name@,
        is_command_error(e, doc, (ProfileCommand::Remove { name })) && profile_known(doc, name@)
            && real_keys(profiles_items(doc)).len() > 1 ==> e is ActiveProfile
            && e->ActiveProfile_0@ == name@ && text_under(
            top_items(doc),
            "active_profile"@,
        ) == Some(name@),
        !is_command_error(e, doc, ProfileCommand::List),
{
}

} // verus!
