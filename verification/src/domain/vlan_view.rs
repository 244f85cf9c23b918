//! VLAN view, with the prefixes that refer to it.

use vstd::prelude::*;
use vstd::string::StringExecFns;

use crate::domain::custom::{append, field_rows, fields, shown_fields};
use crate::domain::prefix_view::{cidrs, cidrs_of};
use crate::domain::util::{keep_text, kept_text, section, section_text};
use crate::json::Member;
use crate::netbox::models::{
    label_of,
    opt_label,
    opt_value,
    slugs,
    slugs_of,
    value_of,
    Prefix,
    Vlan,
    VlanGroup,
};
use crate::netbox::query::{opt_scope_name, scope_name_of};
use crate::number::{decimal, decimal_text};
use crate::output::{list_row, no_rows, opt_row, rendered, row, KeyValues, Row};
use crate::text::{opt_text, texts, Text};

verus! {

/// A VLAN with the prefixes that refer to it.
#[derive(Debug)]
pub struct VlanView {
    pub vid: u16,
    pub name: String,
    pub status: Option<String>,
    pub group: Option<String>,
    pub scope: Option<String>,
    pub scope_type: Option<String>,
    pub group_scope: Option<String>,
    pub group_scope_type: Option<String>,
    pub tenant: Option<String>,
    pub role: Option<String>,
    pub description: Option<String>,
    pub tags: Vec<String>,
    pub custom_fields: Vec<Member>,
    pub prefixes: Vec<String>,
}

/// The scope shown of a VLAN: its own, else the site it is assigned to.
pub open spec fn vlan_scope(v: Vlan) -> Option<Text> {
    if v.scope is Some {
        opt_label(v.scope)
    } else {
        opt_label(v.site)
    }
}

/// What the scope shown is.
pub open spec fn vlan_scope_type(v: Vlan) -> Option<Text> {
    if v.scope is Some {
        opt_scope_name(v.scope_type)
    } else if v.site is Some {
        Some("site"@)
    } else {
        None
    }
}

/// The scope of a VLAN's group.
pub open spec fn group_scope_label(group: Option<VlanGroup>) -> Option<Text> {
    match group {
        Some(g) => opt_label(g.scope),
        None => None,
    }
}

/// What the scope of a VLAN's group is; nothing when the group has none.
pub open spec fn group_scope_name(group: Option<VlanGroup>) -> Option<Text> {
    match group {
        Some(g) => if g.scope is Some {
            opt_scope_name(g.scope_type)
        } else {
            None
        },
        None => None,
    }
}

impl VlanView {
    /// Flattens a VLAN with the prefixes that refer to it and its group.
    pub fn build(v: Vlan, prefixes: Vec<Prefix>, group: Option<VlanGroup>) -> (r: Self)
        ensures
            r.vid == v.vid,
            r.name == v.name,
            opt_text(r.status) == opt_value(v.status),
            opt_text(r.group) == opt_label(v.group),
            opt_text(r.scope) == vlan_scope(v),
            opt_text(r.scope_type) == vlan_scope_type(v),
            opt_text(r.group_scope) == group_scope_label(group),
            opt_text(r.group_scope_type) == group_scope_name(group),
            opt_text(r.tenant) == opt_label(v.tenant),
            opt_text(r.role) == opt_label(v.role),
            opt_text(r.description) == kept_text(v.description),
            texts(r.tags@) == slugs(v.tags@),
            r.custom_fields@ == shown_fields(v.custom_fields),
            texts(r.prefixes@) == cidrs(prefixes@),
            r.rows() == Self::rows_of(v, group),
    {
        proof {
            reveal(VlanView::rows);
            reveal(VlanView::rows_of);
        }
        let (scope, scope_type) = match &v.scope {
            Some(b) => (Some(b.label()), scope_name_of(&v.scope_type)),
            None => match &v.site {
                Some(s) => (Some(s.label()), Some("site".to_owned())),
                None => (None, None),
            },
        };
        let (group_scope, group_scope_type) = match &group {
            Some(g) => match &g.scope {
                Some(b) => (Some(b.label()), scope_name_of(&g.scope_type)),
                None => (None, None),
            },
            None => (None, None),
        };
        VlanView {
            vid: v.vid,
            name: v.name,
            status: value_of(&v.status),
            group: label_of(&v.group),
            scope,
            scope_type,
            group_scope,
            group_scope_type,
            tenant: label_of(&v.tenant),
            role: label_of(&v.role),
            description: keep_text(v.description),
            tags: slugs_of(&v.tags),
            custom_fields: fields(v.custom_fields),
            prefixes: cidrs_of(prefixes),
        }
    }

    /// The header rows shown, in order.
    #[verifier::opaque]
    pub open spec fn rows(self) -> Seq<Row> {
        no_rows()
            + row("vid"@, decimal_text(self.vid as nat))
            + row("name"@, self.name@)
            + opt_row("status"@, opt_text(self.status))
            + opt_row("group"@, opt_text(self.group))
            + opt_row("scope"@, opt_text(self.scope))
            + opt_row("scope_type"@, opt_text(self.scope_type))
            + opt_row("group_scope"@, opt_text(self.group_scope))
            + opt_row("group_scope_type"@, opt_text(self.group_scope_type))
            + opt_row("tenant"@, opt_text(self.tenant))
            + opt_row("role"@, opt_text(self.role))
            + opt_row("description"@, opt_text(self.description))
            + list_row("tags"@, texts(self.tags@))
            + field_rows(self.custom_fields@)
    }

    /// The header rows shown of a VLAN and its group.
    #[verifier::opaque]
    pub open spec fn rows_of(v: Vlan, group: Option<VlanGroup>) -> Seq<Row> {
        no_rows()
            + row("vid"@, decimal_text(v.vid as nat))
            + row("name"@, v.name@)
            + opt_row("status"@, opt_value(v.status))
            + opt_row("group"@, opt_label(v.group))
            + opt_row("scope"@, vlan_scope(v))
            + opt_row("scope_type"@, vlan_scope_type(v))
            + opt_row("group_scope"@, group_scope_label(group))
            + opt_row("group_scope_type"@, group_scope_name(group))
            + opt_row("tenant"@, opt_label(v.tenant))
            + opt_row("role"@, opt_label(v.role))
            + opt_row("description"@, kept_text(v.description))
            + list_row("tags"@, slugs(v.tags@))
            + field_rows(shown_fields(v.custom_fields))
    }

    fn header(&self) -> (r: KeyValues)
        ensures
            r@ == self.rows(),
    {
        proof {
            reveal(VlanView::rows);
        }
        let mut kv = KeyValues::new();
        let vid = decimal(self.vid as u64);
        kv.push("vid", vid.as_str());
        kv.push("name", self.name.as_str());
        kv.push_opt("status", &self.status);
        kv.push_opt("group", &self.group);
        kv.push_opt("scope", &self.scope);
        kv.push_opt("scope_type", &self.scope_type);
        kv.push_opt("group_scope", &self.group_scope);
        kv.push_opt("group_scope_type", &self.group_scope_type);
        kv.push_opt("tenant", &self.tenant);
        kv.push_opt("role", &self.role);
        kv.push_opt("description", &self.description);
        kv.push_list("tags", &self.tags);
        append(&mut kv, &self.custom_fields);
        kv
    }

    /// Renders the header alone.
    pub fn to_detail_header(&self) -> (r: String)
        ensures
            r@ == rendered(self.rows()),
    {
        let kv = self.header();
        kv.render()
    }

    /// The text shown: the header, then the prefixes.
    pub open spec fn plain(self) -> Text {
        rendered(self.rows()) + section_text("Prefixes"@, texts(self.prefixes@))
    }

    /// Renders the header and the prefixes.
    pub fn to_plain(&self) -> (r: String)
        ensures
            r@ == self.plain(),
    {
        let mut out = self.to_detail_header();
        let prefixes = section("Prefixes", &self.prefixes);
        out.append(prefixes.as_str());
        out
    }
}

/// The rows of a VLAN: each field that is set is shown under its own key and with
/// its own value, and nothing else is shown.
pub proof fn vlan_rows_show_the_fields(object: Vlan, group: Option<VlanGroup>, k: Text, v: Text)
    ensures
        VlanView::rows_of(object, group).contains((k, v)) <==> {
            ||| (k == "vid"@ && v == decimal_text(object.vid as nat))
            ||| (k == "name"@ && v == object.name@)
            ||| (object.status is Some && k == "status"@ && v == object.status->0.value@)
            ||| (object.group is Some && k == "group"@ && v == object.group->0.label_text())
            ||| (vlan_scope(object) is Some && k == "scope"@ && v == vlan_scope(object)->0)
            ||| (vlan_scope_type(object) is Some && k == "scope_type"@
                && v == vlan_scope_type(object)->0)
            ||| (group_scope_label(group) is Some && k == "group_scope"@
                && v == group_scope_label(group)->0)
            ||| (group_scope_name(group) is Some && k == "group_scope_type"@
                && v == group_scope_name(group)->0)
            ||| (object.tenant is Some && k == "tenant"@ && v == object.tenant->0.label_text())
            ||| (object.role is Some && k == "role"@ && v == object.role->0.label_text())
            ||| (object.description is Some && object.description->0@.len() > 0
                && k == "description"@ && v == object.description->0@)
            ||| (slugs(object.tags@).len() > 0 && k == "tags"@
                && v == crate::text::joined(slugs(object.tags@), ", "@))
            ||| {
                &&& object.custom_fields is Object
                &&& exists|m: crate::json::Member|
                    {
                        &&& #[trigger] object.custom_fields->members@.contains(m)
                        &&& !(m.value is Null)
                        &&& !(m.value is Text && m.value->Text_0@.len() == 0)
                        &&& k == "cf."@ + m.name@
                        &&& v == crate::domain::custom::shown_value(m.value)
                    }
            }
        },
{
    reveal(VlanView::rows_of);
    crate::output::rows_are_found_where_they_were_put();
    crate::domain::custom::custom_fields_have_rows(object.custom_fields, k, v);
}

/// A VLAN's own scope comes before its site, and the scope of its group is named only
/// where the group has one.
pub proof fn vlan_scopes_come_from_their_fields(v: Vlan, group: Option<VlanGroup>)
    ensures
        v.scope is Some ==> vlan_scope(v) == Some(v.scope->0.label_text()),
        v.scope is None && v.site is Some ==> vlan_scope(v) == Some(v.site->0.label_text())
            && vlan_scope_type(v) == Some("site"@),
        v.scope is None && v.site is None ==> vlan_scope(v) is None && vlan_scope_type(v) is None,
        v.scope is Some ==> vlan_scope_type(v) == opt_scope_name(v.scope_type),
        group is None || group->0.scope is None ==> group_scope_label(group) is None
            && group_scope_name(group) is None,
        group is Some && group->0.scope is Some ==> group_scope_label(group) == Some(
            group->0.scope->0.label_text(),
        ) && group_scope_name(group) == opt_scope_name(group->0.scope_type),
{
}

} // verus!
