//! Device view: the fields shown and the rows they make.

use vstd::prelude::*;

use crate::domain::custom::{append, field_rows, fields, shown_fields};
use crate::domain::util::{keep_text, kept_text};
use crate::json::Member;
use crate::netbox::models::{label_of, opt_label, opt_value, slugs, slugs_of, value_of, Device};
use crate::output::{list_row, no_rows, opt_row, row, KeyValues, Row};
use crate::text::{opt_text, texts, Text};

verus! {

/// A device, flattened for display.
#[derive(Debug)]
pub struct DeviceView {
    pub id: u64,
    pub name: String,
    pub status: Option<String>,
    pub role: Option<String>,
    pub site: Option<String>,
    pub rack: Option<String>,
    pub platform: Option<String>,
    pub tenant: Option<String>,
    pub primary_ip4: Option<String>,
    pub primary_ip6: Option<String>,
    pub serial: Option<String>,
    pub description: Option<String>,
    pub tags: Vec<String>,
    pub custom_fields: Vec<Member>,
}

impl DeviceView {
    /// Whether this view shows a device.
    pub open spec fn is_of(self, d: Device) -> bool {
        &&& self.id == d.id
        &&& self.name == d.name
        &&& opt_text(self.status) == opt_value(d.status)
        &&& opt_text(self.role) == opt_label(d.role)
        &&& opt_text(self.site) == opt_label(d.site)
        &&& opt_text(self.rack) == opt_label(d.rack)
        &&& opt_text(self.platform) == opt_label(d.platform)
        &&& opt_text(self.tenant) == opt_label(d.tenant)
        &&& opt_text(self.primary_ip4) == opt_label(d.primary_ip4)
        &&& opt_text(self.primary_ip6) == opt_label(d.primary_ip6)
        &&& opt_text(self.serial) == kept_text(d.serial)
        &&& opt_text(self.description) == kept_text(d.description)
        &&& texts(self.tags@) == slugs(d.tags@)
        &&& self.custom_fields@ == shown_fields(d.custom_fields)
    }

    /// Flattens a device.
    pub fn from_model(d: Device) -> (r: Self)
        ensures
            r.is_of(d),
            r.rows() == Self::rows_of(d),
    {
        proof {
            reveal(DeviceView::rows);
            reveal(DeviceView::rows_of);
        }
        DeviceView {
            id: d.id,
            name: d.name,
            status: value_of(&d.status),
            role: label_of(&d.role),
            site: label_of(&d.site),
            rack: label_of(&d.rack),
            platform: label_of(&d.platform),
            tenant: label_of(&d.tenant),
            primary_ip4: label_of(&d.primary_ip4),
            primary_ip6: label_of(&d.primary_ip6),
            serial: keep_text(d.serial),
            description: keep_text(d.description),
            tags: slugs_of(&d.tags),
            custom_fields: fields(d.custom_fields),
        }
    }

    /// The rows shown, in order.
    #[verifier::opaque]
    pub open spec fn rows(self) -> Seq<Row> {
        no_rows()
            + row("name"@, self.name@)
            + opt_row("status"@, opt_text(self.status))
            + opt_row("site"@, opt_text(self.site))
            + opt_row("rack"@, opt_text(self.rack))
            + opt_row("role"@, opt_text(self.role))
            + opt_row("platform"@, opt_text(self.platform))
            + opt_row("tenant"@, opt_text(self.tenant))
            + opt_row("primary_ip4"@, opt_text(self.primary_ip4))
            + opt_row("primary_ip6"@, opt_text(self.primary_ip6))
            + opt_row("serial"@, opt_text(self.serial))
            + opt_row("description"@, opt_text(self.description))
            + list_row("tags"@, texts(self.tags@))
            + field_rows(self.custom_fields@)
    }

    /// The rows shown of a device.
    #[verifier::opaque]
    pub open spec fn rows_of(d: Device) -> Seq<Row> {
        no_rows()
            + row("name"@, d.name@)
            + opt_row("status"@, opt_value(d.status))
            + opt_row("site"@, opt_label(d.site))
            + opt_row("rack"@, opt_label(d.rack))
            + opt_row("role"@, opt_label(d.role))
            + opt_row("platform"@, opt_label(d.platform))
            + opt_row("tenant"@, opt_label(d.tenant))
            + opt_row("primary_ip4"@, opt_label(d.primary_ip4))
            + opt_row("primary_ip6"@, opt_label(d.primary_ip6))
            + opt_row("serial"@, kept_text(d.serial))
            + opt_row("description"@, kept_text(d.description))
            + list_row("tags"@, slugs(d.tags@))
            + field_rows(shown_fields(d.custom_fields))
    }

    /// Renders the view as rows.
    pub fn to_key_values(&self) -> (r: KeyValues)
        ensures
            r@ == self.rows(),
    {
        proof {
            reveal(DeviceView::rows);
        }
        let mut kv = KeyValues::new();
        kv.push("name", self.name.as_str());
        kv.push_opt("status", &self.status);
        kv.push_opt("site", &self.site);
        kv.push_opt("rack", &self.rack);
        kv.push_opt("role", &self.role);
        kv.push_opt("platform", &self.platform);
        kv.push_opt("tenant", &self.tenant);
        kv.push_opt("primary_ip4", &self.primary_ip4);
        kv.push_opt("primary_ip6", &self.primary_ip6);
        kv.push_opt("serial", &self.serial);
        kv.push_opt("description", &self.description);
        kv.push_list("tags", &self.tags);
        append(&mut kv, &self.custom_fields);
        kv
    }
}

/// The rows of a device: each field that is set is shown under its own key and with
/// its own value, and nothing else is shown.
pub proof fn device_rows_show_the_fields(d: Device, k: Text, v: Text)
    ensures
        DeviceView::rows_of(d).contains((k, v)) <==> {
            ||| (k == "name"@ && v == d.name@)
            ||| (d.status is Some && k == "status"@ && v == d.status->0.value@)
            ||| (d.site is Some && k == "site"@ && v == d.site->0.label_text())
            ||| (d.rack is Some && k == "rack"@ && v == d.rack->0.label_text())
            ||| (d.role is Some && k == "role"@ && v == d.role->0.label_text())
            ||| (d.platform is Some && k == "platform"@ && v == d.platform->0.label_text())
            ||| (d.tenant is Some && k == "tenant"@ && v == d.tenant->0.label_text())
            ||| (d.primary_ip4 is Some && k == "primary_ip4"@ && v == d.primary_ip4->0.label_text())
            ||| (d.primary_ip6 is Some && k == "primary_ip6"@ && v == d.primary_ip6->0.label_text())
            ||| (d.serial is Some && d.serial->0@.len() > 0 && k == "serial"@ && v == d.serial->0@)
            ||| (d.description is Some && d.description->0@.len() > 0 && k == "description"@
                && v == d.description->0@)
            ||| (slugs(d.tags@).len() > 0 && k == "tags"@
                && v == crate::text::joined(slugs(d.tags@), ", "@))
            ||| {
                &&& d.custom_fields is Object
                &&& exists|m: crate::json::Member|
                    {
                        &&& #[trigger] d.custom_fields->members@.contains(m)
                        &&& !(m.value is Null)
                        &&& !(m.value is Text && m.value->Text_0@.len() == 0)
                        &&& k == "cf."@ + m.name@
                        &&& v == crate::domain::custom::shown_value(m.value)
                    }
            }
        },
{
    reveal(DeviceView::rows_of);
    crate::output::rows_are_found_where_they_were_put();
    crate::domain::custom::custom_fields_have_rows(d.custom_fields, k, v);
}

} // verus!
