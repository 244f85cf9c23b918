//! Virtual machine view: the fields shown and the rows they make.

use vstd::prelude::*;

use crate::domain::custom::{append, field_rows, fields, shown_fields};
use crate::domain::util::{keep_text, kept_text};
use crate::json::Member;
use crate::netbox::models::{label_of, opt_label, opt_value, slugs, slugs_of, value_of, VirtualMachine};
use crate::output::{count_row, list_row, no_rows, opt_row, row, KeyValues, Row};
use crate::text::{opt_text, texts, Text};

verus! {

/// A virtual machine, flattened for display.
#[derive(Debug)]
pub struct VmView {
    pub id: u64,
    pub name: String,
    pub status: Option<String>,
    pub role: Option<String>,
    pub cluster: Option<String>,
    pub device: Option<String>,
    pub platform: Option<String>,
    pub site: Option<String>,
    pub tenant: Option<String>,
    pub primary_ip4: Option<String>,
    pub primary_ip6: Option<String>,
    pub vcpus: Option<String>,
    pub memory: Option<u64>,
    pub disk: Option<u64>,
    pub description: Option<String>,
    pub tags: Vec<String>,
    pub custom_fields: Vec<Member>,
}

impl VmView {
    /// Flattens a virtual machine.
    pub fn from_model(m: VirtualMachine) -> (r: Self)
        ensures
            r.id == m.id,
            r.name == m.name,
            opt_text(r.status) == opt_value(m.status),
            opt_text(r.role) == opt_label(m.role),
            opt_text(r.cluster) == opt_label(m.cluster),
            opt_text(r.device) == opt_label(m.device),
            opt_text(r.platform) == opt_label(m.platform),
            opt_text(r.site) == opt_label(m.site),
            opt_text(r.tenant) == opt_label(m.tenant),
            opt_text(r.primary_ip4) == opt_label(m.primary_ip4),
            opt_text(r.primary_ip6) == opt_label(m.primary_ip6),
            r.vcpus == m.vcpus,
            r.memory == m.memory,
            r.disk == m.disk,
            opt_text(r.description) == kept_text(m.description),
            texts(r.tags@) == slugs(m.tags@),
            r.custom_fields@ == shown_fields(m.custom_fields),
            r.rows() == Self::rows_of(m),
    {
        proof {
            reveal(VmView::rows);
            reveal(VmView::rows_of);
        }
        VmView {
            id: m.id,
            name: m.name,
            status: value_of(&m.status),
            role: label_of(&m.role),
            cluster: label_of(&m.cluster),
            device: label_of(&m.device),
            platform: label_of(&m.platform),
            site: label_of(&m.site),
            tenant: label_of(&m.tenant),
            primary_ip4: label_of(&m.primary_ip4),
            primary_ip6: label_of(&m.primary_ip6),
            vcpus: m.vcpus,
            memory: m.memory,
            disk: m.disk,
            description: keep_text(m.description),
            tags: slugs_of(&m.tags),
            custom_fields: fields(m.custom_fields),
        }
    }

    /// The rows shown, in order.
    #[verifier::opaque]
    pub open spec fn rows(self) -> Seq<Row> {
        no_rows()
            + row("name"@, self.name@)
            + opt_row("status"@, opt_text(self.status))
            + opt_row("role"@, opt_text(self.role))
            + opt_row("cluster"@, opt_text(self.cluster))
            + opt_row("device"@, opt_text(self.device))
            + opt_row("platform"@, opt_text(self.platform))
            + opt_row("site"@, opt_text(self.site))
            + opt_row("tenant"@, opt_text(self.tenant))
            + opt_row("primary_ip4"@, opt_text(self.primary_ip4))
            + opt_row("primary_ip6"@, opt_text(self.primary_ip6))
            + opt_row("vcpus"@, opt_text(self.vcpus))
            + count_row("memory"@, self.memory)
            + count_row("disk"@, self.disk)
            + opt_row("description"@, opt_text(self.description))
            + list_row("tags"@, texts(self.tags@))
            + field_rows(self.custom_fields@)
    }

    /// The rows shown of a virtual machine.
    #[verifier::opaque]
    pub open spec fn rows_of(m: VirtualMachine) -> Seq<Row> {
        no_rows()
            + row("name"@, m.name@)
            + opt_row("status"@, opt_value(m.status))
            + opt_row("role"@, opt_label(m.role))
            + opt_row("cluster"@, opt_label(m.cluster))
            + opt_row("device"@, opt_label(m.device))
            + opt_row("platform"@, opt_label(m.platform))
            + opt_row("site"@, opt_label(m.site))
            + opt_row("tenant"@, opt_label(m.tenant))
            + opt_row("primary_ip4"@, opt_label(m.primary_ip4))
            + opt_row("primary_ip6"@, opt_label(m.primary_ip6))
            + opt_row("vcpus"@, opt_text(m.vcpus))
            + count_row("memory"@, m.memory)
            + count_row("disk"@, m.disk)
            + opt_row("description"@, kept_text(m.description))
            + list_row("tags"@, slugs(m.tags@))
            + field_rows(shown_fields(m.custom_fields))
    }

    /// Renders the view as rows.
    pub fn to_key_values(&self) -> (r: KeyValues)
        ensures
            r@ == self.rows(),
    {
        proof {
            reveal(VmView::rows);
        }
        let mut kv = KeyValues::new();
        kv.push("name", self.name.as_str());
        kv.push_opt("status", &self.status);
        kv.push_opt("role", &self.role);
        kv.push_opt("cluster", &self.cluster);
        kv.push_opt("device", &self.device);
        kv.push_opt("platform", &self.platform);
        kv.push_opt("site", &self.site);
        kv.push_opt("tenant", &self.tenant);
        kv.push_opt("primary_ip4", &self.primary_ip4);
        kv.push_opt("primary_ip6", &self.primary_ip6);
        kv.push_opt("vcpus", &self.vcpus);
        kv.push_count("memory", self.memory);
        kv.push_count("disk", self.disk);
        kv.push_opt("description", &self.description);
        kv.push_list("tags", &self.tags);
        append(&mut kv, &self.custom_fields);
        kv
    }
}

/// The rows of a virtual machine: each field that is set is shown under its own key and with
/// its own value, and nothing else is shown.
pub proof fn vm_rows_show_the_fields(m: VirtualMachine, k: Text, v: Text)
    ensures
        VmView::rows_of(m).contains((k, v)) <==> {
            ||| (k == "name"@ && v == m.name@)
            ||| (m.status is Some && k == "status"@ && v == m.status->0.value@)
            ||| (m.role is Some && k == "role"@ && v == m.role->0.label_text())
            ||| (m.cluster is Some && k == "cluster"@ && v == m.cluster->0.label_text())
            ||| (m.device is Some && k == "device"@ && v == m.device->0.label_text())
            ||| (m.platform is Some && k == "platform"@ && v == m.platform->0.label_text())
            ||| (m.site is Some && k == "site"@ && v == m.site->0.label_text())
            ||| (m.tenant is Some && k == "tenant"@ && v == m.tenant->0.label_text())
            ||| (m.primary_ip4 is Some && k == "primary_ip4"@ && v == m.primary_ip4->0.label_text())
            ||| (m.primary_ip6 is Some && k == "primary_ip6"@ && v == m.primary_ip6->0.label_text())
            ||| (m.vcpus is Some && k == "vcpus"@ && v == m.vcpus->0@)
            ||| (m.memory is Some && k == "memory"@
                && v == crate::number::decimal_text(m.memory->0 as nat))
            ||| (m.disk is Some && k == "disk"@
                && v == crate::number::decimal_text(m.disk->0 as nat))
            ||| (m.description is Some && m.description->0@.len() > 0 && k == "description"@
                && v == m.description->0@)
            ||| (slugs(m.tags@).len() > 0 && k == "tags"@
                && v == crate::text::joined(slugs(m.tags@), ", "@))
            ||| {
                &&& m.custom_fields is Object
                &&& exists|field: crate::json::Member|
                    {
                        &&& #[trigger] m.custom_fields->members@.contains(field)
                        &&& !(field.value is Null)
                        &&& !(field.value is Text && field.value->Text_0@.len() == 0)
                        &&& k == "cf."@ + field.name@
                        &&& v == crate::domain::custom::shown_value(field.value)
                    }
            }
        },
{
    reveal(VmView::rows_of);
    crate::output::rows_are_found_where_they_were_put();
    crate::domain::custom::custom_fields_have_rows(m.custom_fields, k, v);
}

} // verus!
