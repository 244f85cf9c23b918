//! Rack view: the fields shown and the rows they make.

use vstd::prelude::*;

use crate::domain::custom::{append, field_rows, fields, shown_fields};
use crate::domain::util::{keep_text, kept_text, widen, widened};
use crate::json::Member;
use crate::netbox::models::{label_of, opt_label, opt_value, slugs, slugs_of, value_of, Rack};
use crate::output::{count_row, list_row, no_rows, opt_row, row, KeyValues, Row};
use crate::text::{opt_text, texts, Text};

verus! {

/// A rack, flattened for display.
#[derive(Debug)]
pub struct RackView {
    pub id: u64,
    pub name: String,
    pub status: Option<String>,
    pub site: Option<String>,
    pub location: Option<String>,
    pub role: Option<String>,
    pub tenant: Option<String>,
    pub u_height: Option<u32>,
    pub serial: Option<String>,
    pub asset_tag: Option<String>,
    pub description: Option<String>,
    pub tags: Vec<String>,
    pub custom_fields: Vec<Member>,
}

impl RackView {
    /// Flattens a rack.
    pub fn from_model(k: Rack) -> (r: Self)
        ensures
            r.id == k.id,
            r.name == k.name,
            opt_text(r.status) == opt_value(k.status),
            opt_text(r.site) == opt_label(k.site),
            opt_text(r.location) == opt_label(k.location),
            opt_text(r.role) == opt_label(k.role),
            opt_text(r.tenant) == opt_label(k.tenant),
            r.u_height == k.u_height,
            opt_text(r.serial) == kept_text(k.serial),
            opt_text(r.asset_tag) == kept_text(k.asset_tag),
            opt_text(r.description) == kept_text(k.description),
            texts(r.tags@) == slugs(k.tags@),
            r.custom_fields@ == shown_fields(k.custom_fields),
            r.rows() == Self::rows_of(k),
    {
        proof {
            reveal(RackView::rows);
            reveal(RackView::rows_of);
        }
        RackView {
            id: k.id,
            name: k.name,
            status: value_of(&k.status),
            site: label_of(&k.site),
            location: label_of(&k.location),
            role: label_of(&k.role),
            tenant: label_of(&k.tenant),
            u_height: k.u_height,
            serial: keep_text(k.serial),
            asset_tag: keep_text(k.asset_tag),
            description: keep_text(k.description),
            tags: slugs_of(&k.tags),
            custom_fields: fields(k.custom_fields),
        }
    }

    /// The rows shown, in order.
    #[verifier::opaque]
    pub open spec fn rows(self) -> Seq<Row> {
        no_rows()
            + row("name"@, self.name@)
            + opt_row("status"@, opt_text(self.status))
            + opt_row("site"@, opt_text(self.site))
            + opt_row("location"@, opt_text(self.location))
            + opt_row("role"@, opt_text(self.role))
            + opt_row("tenant"@, opt_text(self.tenant))
            + count_row("u_height"@, widened(self.u_height))
            + opt_row("serial"@, opt_text(self.serial))
            + opt_row("asset_tag"@, opt_text(self.asset_tag))
            + opt_row("description"@, opt_text(self.description))
            + list_row("tags"@, texts(self.tags@))
            + field_rows(self.custom_fields@)
    }

    /// The rows shown of a rack.
    #[verifier::opaque]
    pub open spec fn rows_of(k: Rack) -> Seq<Row> {
        no_rows()
            + row("name"@, k.name@)
            + opt_row("status"@, opt_value(k.status))
            + opt_row("site"@, opt_label(k.site))
            + opt_row("location"@, opt_label(k.location))
            + opt_row("role"@, opt_label(k.role))
            + opt_row("tenant"@, opt_label(k.tenant))
            + count_row("u_height"@, widened(k.u_height))
            + opt_row("serial"@, kept_text(k.serial))
            + opt_row("asset_tag"@, kept_text(k.asset_tag))
            + opt_row("description"@, kept_text(k.description))
            + list_row("tags"@, slugs(k.tags@))
            + field_rows(shown_fields(k.custom_fields))
    }

    /// Renders the view as rows.
    pub fn to_key_values(&self) -> (r: KeyValues)
        ensures
            r@ == self.rows(),
    {
        proof {
            reveal(RackView::rows);
        }
        let mut kv = KeyValues::new();
        kv.push("name", self.name.as_str());
        kv.push_opt("status", &self.status);
        kv.push_opt("site", &self.site);
        kv.push_opt("location", &self.location);
        kv.push_opt("role", &self.role);
        kv.push_opt("tenant", &self.tenant);
        kv.push_count("u_height", widen(self.u_height));
        kv.push_opt("serial", &self.serial);
        kv.push_opt("asset_tag", &self.asset_tag);
        kv.push_opt("description", &self.description);
        kv.push_list("tags", &self.tags);
        append(&mut kv, &self.custom_fields);
        kv
    }
}

/// The rows of a rack: each field that is set is shown under its own key and with
/// its own value, and nothing else is shown.
pub proof fn rack_rows_show_the_fields(object: Rack, k: Text, v: Text)
    ensures
        RackView::rows_of(object).contains((k, v)) <==> {
            ||| (k == "name"@ && v == object.name@)
            ||| (object.status is Some && k == "status"@ && v == object.status->0.value@)
            ||| (object.site is Some && k == "site"@ && v == object.site->0.label_text())
            ||| (object.location is Some && k == "location"@
                && v == object.location->0.label_text())
            ||| (object.role is Some && k == "role"@ && v == object.role->0.label_text())
            ||| (object.tenant is Some && k == "tenant"@ && v == object.tenant->0.label_text())
            ||| (object.u_height is Some && k == "u_height"@
                && v == crate::number::decimal_text(object.u_height->0 as nat))
            ||| (object.serial is Some && object.serial->0@.len() > 0 && k == "serial"@
                && v == object.serial->0@)
            ||| (object.asset_tag is Some && object.asset_tag->0@.len() > 0 && k == "asset_tag"@
                && v == object.asset_tag->0@)
            ||| (object.description is Some && object.description->0@.len() > 0
                && k == "description"@ && v == object.description->0@)
            ||| (slugs(object.tags@).len() > 0 && k == "tags"@
                && v == crate::text::joined(slugs(object.tags@), ", "@))
            ||| {
                &&& object.custom_fields is Object
                &&& exists|m: crate::json::Member|
                    {
                        &&& #[trigger] object.custom_fields->members@.contains(m)
                        &&& !(m.value is Null)
                        &&& !(m.value is Text && m.value->Text_0@.len() == 0)
                        &&& k == "cf."@ + m.name@
                        &&& v == crate::domain::custom::shown_value(m.value)
                    }
            }
        },
{
    reveal(RackView::rows_of);
    crate::output::rows_are_found_where_they_were_put();
    crate::domain::custom::custom_fields_have_rows(object.custom_fields, k, v);
}

} // verus!
