//! Tenant view: the fields shown and the rows they make.

use vstd::prelude::*;

use crate::domain::custom::{append, field_rows, fields, shown_fields};
use crate::domain::util::{keep_text, kept_count, kept_text, non_zero};
use crate::json::Member;
use crate::netbox::models::{label_of, opt_label, slugs, slugs_of, Tenant};
use crate::output::{count_row, list_row, no_rows, opt_row, row, KeyValues, Row};
use crate::text::{opt_text, texts, Text};

verus! {

/// A tenant, flattened for display.
#[derive(Debug)]
pub struct TenantView {
    pub id: u64,
    pub name: String,
    pub slug: String,
    pub group: Option<String>,
    pub description: Option<String>,
    pub circuit_count: Option<u64>,
    pub device_count: Option<u64>,
    pub ipaddress_count: Option<u64>,
    pub prefix_count: Option<u64>,
    pub rack_count: Option<u64>,
    pub site_count: Option<u64>,
    pub vlan_count: Option<u64>,
    pub vrf_count: Option<u64>,
    pub virtualmachine_count: Option<u64>,
    pub owner: Option<String>,
    pub tags: Vec<String>,
    pub custom_fields: Vec<Member>,
}

impl TenantView {
    /// Flattens a tenant.
    pub fn from_model(t: Tenant) -> (r: Self)
        ensures
            r.id == t.id,
            r.name == t.name,
            r.slug == t.slug,
            opt_text(r.group) == opt_label(t.group),
            opt_text(r.description) == kept_text(t.description),
            r.circuit_count == kept_count(t.circuit_count),
            r.device_count == kept_count(t.device_count),
            r.ipaddress_count == kept_count(t.ipaddress_count),
            r.prefix_count == kept_count(t.prefix_count),
            r.rack_count == kept_count(t.rack_count),
            r.site_count == kept_count(t.site_count),
            r.vlan_count == kept_count(t.vlan_count),
            r.vrf_count == kept_count(t.vrf_count),
            r.virtualmachine_count == kept_count(t.virtualmachine_count),
            opt_text(r.owner) == opt_label(t.owner),
            texts(r.tags@) == slugs(t.tags@),
            r.custom_fields@ == shown_fields(t.custom_fields),
            r.rows() == Self::rows_of(t),
    {
        proof {
            reveal(TenantView::rows);
            reveal(TenantView::rows_of);
        }
        TenantView {
            id: t.id,
            name: t.name,
            slug: t.slug,
            group: label_of(&t.group),
            description: keep_text(t.description),
            circuit_count: non_zero(t.circuit_count),
            device_count: non_zero(t.device_count),
            ipaddress_count: non_zero(t.ipaddress_count),
            prefix_count: non_zero(t.prefix_count),
            rack_count: non_zero(t.rack_count),
            site_count: non_zero(t.site_count),
            vlan_count: non_zero(t.vlan_count),
            vrf_count: non_zero(t.vrf_count),
            virtualmachine_count: non_zero(t.virtualmachine_count),
            owner: label_of(&t.owner),
            tags: slugs_of(&t.tags),
            custom_fields: fields(t.custom_fields),
        }
    }

    /// The rows shown, in order.
    #[verifier::opaque]
    pub open spec fn rows(self) -> Seq<Row> {
        no_rows()
            + row("name"@, self.name@)
            + row("slug"@, self.slug@)
            + opt_row("group"@, opt_text(self.group))
            + opt_row("description"@, opt_text(self.description))
            + count_row("circuit_count"@, self.circuit_count)
            + count_row("device_count"@, self.device_count)
            + count_row("ipaddress_count"@, self.ipaddress_count)
            + count_row("prefix_count"@, self.prefix_count)
            + count_row("rack_count"@, self.rack_count)
            + count_row("site_count"@, self.site_count)
            + count_row("vlan_count"@, self.vlan_count)
            + count_row("vrf_count"@, self.vrf_count)
            + count_row("virtualmachine_count"@, self.virtualmachine_count)
            + list_row("tags"@, texts(self.tags@))
            + opt_row("owner"@, opt_text(self.owner))
            + field_rows(self.custom_fields@)
    }

    /// The rows shown of a tenant.
    #[verifier::opaque]
    pub open spec fn rows_of(t: Tenant) -> Seq<Row> {
        no_rows()
            + row("name"@, t.name@)
            + row("slug"@, t.slug@)
            + opt_row("group"@, opt_label(t.group))
            + opt_row("description"@, kept_text(t.description))
            + count_row("circuit_count"@, kept_count(t.circuit_count))
            + count_row("device_count"@, kept_count(t.device_count))
            + count_row("ipaddress_count"@, kept_count(t.ipaddress_count))
            + count_row("prefix_count"@, kept_count(t.prefix_count))
            + count_row("rack_count"@, kept_count(t.rack_count))
            + count_row("site_count"@, kept_count(t.site_count))
            + count_row("vlan_count"@, kept_count(t.vlan_count))
            + count_row("vrf_count"@, kept_count(t.vrf_count))
            + count_row("virtualmachine_count"@, kept_count(t.virtualmachine_count))
            + list_row("tags"@, slugs(t.tags@))
            + opt_row("owner"@, opt_label(t.owner))
            + field_rows(shown_fields(t.custom_fields))
    }

    /// Renders the view as rows.
    pub fn to_key_values(&self) -> (r: KeyValues)
        ensures
            r@ == self.rows(),
    {
        proof {
            reveal(TenantView::rows);
        }
        let mut kv = KeyValues::new();
        kv.push("name", self.name.as_str());
        kv.push("slug", self.slug.as_str());
        kv.push_opt("group", &self.group);
        kv.push_opt("description", &self.description);
        kv.push_count("circuit_count", self.circuit_count);
        kv.push_count("device_count", self.device_count);
        kv.push_count("ipaddress_count", self.ipaddress_count);
        kv.push_count("prefix_count", self.prefix_count);
        kv.push_count("rack_count", self.rack_count);
        kv.push_count("site_count", self.site_count);
        kv.push_count("vlan_count", self.vlan_count);
        kv.push_count("vrf_count", self.vrf_count);
        kv.push_count("virtualmachine_count", self.virtualmachine_count);
        kv.push_list("tags", &self.tags);
        kv.push_opt("owner", &self.owner);
        append(&mut kv, &self.custom_fields);
        kv
    }
}

/// The rows of a tenant: each field that is set is shown under its own key and with
/// its own value, and nothing else is shown.
pub proof fn tenant_rows_show_the_fields(t: Tenant, k: Text, v: Text)
    ensures
        TenantView::rows_of(t).contains((k, v)) <==> {
            ||| (k == "name"@ && v == t.name@)
            ||| (k == "slug"@ && v == t.slug@)
            ||| (t.group is Some && k == "group"@ && v == t.group->0.label_text())
            ||| (t.description is Some && t.description->0@.len() > 0 && k == "description"@
                && v == t.description->0@)
            ||| (t.circuit_count is Some && t.circuit_count->0 > 0 && k == "circuit_count"@
                && v == crate::number::decimal_text(t.circuit_count->0 as nat))
            ||| (t.device_count is Some && t.device_count->0 > 0 && k == "device_count"@
                && v == crate::number::decimal_text(t.device_count->0 as nat))
            ||| (t.ipaddress_count is Some && t.ipaddress_count->0 > 0 && k == "ipaddress_count"@
                && v == crate::number::decimal_text(t.ipaddress_count->0 as nat))
            ||| (t.prefix_count is Some && t.prefix_count->0 > 0 && k == "prefix_count"@
                && v == crate::number::decimal_text(t.prefix_count->0 as nat))
            ||| (t.rack_count is Some && t.rack_count->0 > 0 && k == "rack_count"@
                && v == crate::number::decimal_text(t.rack_count->0 as nat))
            ||| (t.site_count is Some && t.site_count->0 > 0 && k == "site_count"@
                && v == crate::number::decimal_text(t.site_count->0 as nat))
            ||| (t.vlan_count is Some && t.vlan_count->0 > 0 && k == "vlan_count"@
                && v == crate::number::decimal_text(t.vlan_count->0 as nat))
            ||| (t.vrf_count is Some && t.vrf_count->0 > 0 && k == "vrf_count"@
                && v == crate::number::decimal_text(t.vrf_count->0 as nat))
            ||| (t.virtualmachine_count is Some && t.virtualmachine_count->0 > 0
                && k == "virtualmachine_count"@
                && v == crate::number::decimal_text(t.virtualmachine_count->0 as nat))
            ||| (slugs(t.tags@).len() > 0 && k == "tags"@
                && v == crate::text::joined(slugs(t.tags@), ", "@))
            ||| (t.owner is Some && k == "owner"@ && v == t.owner->0.label_text())
            ||| {
                &&& t.custom_fields is Object
                &&& exists|m: crate::json::Member|
                    {
                        &&& #[trigger] t.custom_fields->members@.contains(m)
                        &&& !(m.value is Null)
                        &&& !(m.value is Text && m.value->Text_0@.len() == 0)
                        &&& k == "cf."@ + m.name@
                        &&& v == crate::domain::custom::shown_value(m.value)
                    }
            }
        },
{
    reveal(TenantView::rows_of);
    crate::output::rows_are_found_where_they_were_put();
    crate::domain::custom::custom_fields_have_rows(t.custom_fields, k, v);
}

} // verus!
