//! Cluster view: the fields shown and the rows they make.

use vstd::prelude::*;

use crate::domain::custom::{append, field_rows, fields, shown_fields};
use crate::domain::util::{keep_text, kept_count, kept_text, non_zero};
use crate::json::Member;
use crate::netbox::models::{label_of, opt_label, opt_value, slugs, slugs_of, value_of, Cluster};
use crate::netbox::query::{opt_scope_name, scope_name_of};
use crate::output::{count_row, list_row, no_rows, opt_row, row, KeyValues, Row};
use crate::text::{opt_text, texts, Text};

verus! {

/// A cluster, flattened for display.
#[derive(Debug)]
pub struct ClusterView {
    pub id: u64,
    pub name: String,
    pub type_: Option<String>,
    pub group: Option<String>,
    pub status: Option<String>,
    pub tenant: Option<String>,
    pub scope: Option<String>,
    pub scope_type: Option<String>,
    pub description: Option<String>,
    pub device_count: Option<u64>,
    pub virtualmachine_count: Option<u64>,
    pub tags: Vec<String>,
    pub custom_fields: Vec<Member>,
}

impl ClusterView {
    /// Flattens a cluster.
    pub fn from_model(c: Cluster) -> (r: Self)
        ensures
            r.id == c.id,
            r.name == c.name,
            opt_text(r.type_) == opt_label(c.type_),
            opt_text(r.group) == opt_label(c.group),
            opt_text(r.status) == opt_value(c.status),
            opt_text(r.tenant) == opt_label(c.tenant),
            opt_text(r.scope) == opt_label(c.scope),
            opt_text(r.scope_type) == opt_scope_name(c.scope_type),
            opt_text(r.description) == kept_text(c.description),
            r.device_count == kept_count(c.device_count),
            r.virtualmachine_count == kept_count(c.virtualmachine_count),
            texts(r.tags@) == slugs(c.tags@),
            r.custom_fields@ == shown_fields(c.custom_fields),
            r.rows() == Self::rows_of(c),
    {
        proof {
            reveal(ClusterView::rows);
            reveal(ClusterView::rows_of);
        }
        ClusterView {
            id: c.id,
            name: c.name,
            type_: label_of(&c.type_),
            group: label_of(&c.group),
            status: value_of(&c.status),
            tenant: label_of(&c.tenant),
            scope: label_of(&c.scope),
            scope_type: scope_name_of(&c.scope_type),
            description: keep_text(c.description),
            device_count: non_zero(c.device_count),
            virtualmachine_count: non_zero(c.virtualmachine_count),
            tags: slugs_of(&c.tags),
            custom_fields: fields(c.custom_fields),
        }
    }

    /// The rows shown, in order.
    #[verifier::opaque]
    pub open spec fn rows(self) -> Seq<Row> {
        no_rows()
            + row("name"@, self.name@)
            + opt_row("type"@, opt_text(self.type_))
            + opt_row("group"@, opt_text(self.group))
            + opt_row("status"@, opt_text(self.status))
            + opt_row("tenant"@, opt_text(self.tenant))
            + opt_row("scope"@, opt_text(self.scope))
            + opt_row("scope_type"@, opt_text(self.scope_type))
            + opt_row("description"@, opt_text(self.description))
            + count_row("device_count"@, self.device_count)
            + count_row("virtualmachine_count"@, self.virtualmachine_count)
            + list_row("tags"@, texts(self.tags@))
            + field_rows(self.custom_fields@)
    }

    /// The rows shown of a cluster.
    #[verifier::opaque]
    pub open spec fn rows_of(c: Cluster) -> Seq<Row> {
        no_rows()
            + row("name"@, c.name@)
            + opt_row("type"@, opt_label(c.type_))
            + opt_row("group"@, opt_label(c.group))
            + opt_row("status"@, opt_value(c.status))
            + opt_row("tenant"@, opt_label(c.tenant))
            + opt_row("scope"@, opt_label(c.scope))
            + opt_row("scope_type"@, opt_scope_name(c.scope_type))
            + opt_row("description"@, kept_text(c.description))
            + count_row("device_count"@, kept_count(c.device_count))
            + count_row("virtualmachine_count"@, kept_count(c.virtualmachine_count))
            + list_row("tags"@, slugs(c.tags@))
            + field_rows(shown_fields(c.custom_fields))
    }

    /// Renders the view as rows.
    pub fn to_key_values(&self) -> (r: KeyValues)
        ensures
            r@ == self.rows(),
    {
        proof {
            reveal(ClusterView::rows);
        }
        let mut kv = KeyValues::new();
        kv.push("name", self.name.as_str());
        kv.push_opt("type", &self.type_);
        kv.push_opt("group", &self.group);
        kv.push_opt("status", &self.status);
        kv.push_opt("tenant", &self.tenant);
        kv.push_opt("scope", &self.scope);
        kv.push_opt("scope_type", &self.scope_type);
        kv.push_opt("description", &self.description);
        kv.push_count("device_count", self.device_count);
        kv.push_count("virtualmachine_count", self.virtualmachine_count);
        kv.push_list("tags", &self.tags);
        append(&mut kv, &self.custom_fields);
        kv
    }
}

/// The rows of a cluster: each field that is set is shown under its own key and with
/// its own value, and nothing else is shown.
pub proof fn cluster_rows_show_the_fields(c: Cluster, k: Text, v: Text)
    ensures
        ClusterView::rows_of(c).contains((k, v)) <==> {
            ||| (k == "name"@ && v == c.name@)
            ||| (c.type_ is Some && k == "type"@ && v == c.type_->0.label_text())
            ||| (c.group is Some && k == "group"@ && v == c.group->0.label_text())
            ||| (c.status is Some && k == "status"@ && v == c.status->0.value@)
            ||| (c.tenant is Some && k == "tenant"@ && v == c.tenant->0.label_text())
            ||| (c.scope is Some && k == "scope"@ && v == c.scope->0.label_text())
            ||| (opt_scope_name(c.scope_type) is Some && k == "scope_type"@
                && v == opt_scope_name(c.scope_type)->0)
            ||| (c.description is Some && c.description->0@.len() > 0 && k == "description"@
                && v == c.description->0@)
            ||| (c.device_count is Some && c.device_count->0 > 0 && k == "device_count"@
                && v == crate::number::decimal_text(c.device_count->0 as nat))
            ||| (c.virtualmachine_count is Some && c.virtualmachine_count->0 > 0
                && k == "virtualmachine_count"@
                && v == crate::number::decimal_text(c.virtualmachine_count->0 as nat))
            ||| (slugs(c.tags@).len() > 0 && k == "tags"@
                && v == crate::text::joined(slugs(c.tags@), ", "@))
            ||| {
                &&& c.custom_fields is Object
                &&& exists|m: crate::json::Member|
                    {
                        &&& #[trigger] c.custom_fields->members@.contains(m)
                        &&& !(m.value is Null)
                        &&& !(m.value is Text && m.value->Text_0@.len() == 0)
                        &&& k == "cf."@ + m.name@
                        &&& v == crate::domain::custom::shown_value(m.value)
                    }
            }
        },
{
    reveal(ClusterView::rows_of);
    crate::output::rows_are_found_where_they_were_put();
    crate::domain::custom::custom_fields_have_rows(c.custom_fields, k, v);
}

} // verus!
