//! MAC-address view: which interface carries an address.

use vstd::prelude::*;

use crate::domain::custom::{fields, shown_fields};
use crate::domain::ip_view::{behind, name_of, parent_name, parent_of, put_behind, shown_name};
use crate::domain::util::{keep_text, kept_text};
use crate::json::{get_str_either, string_at_either, Json, Member};
use crate::netbox::models::{label_of, opt_label, slugs, slugs_of, MacAddress};
use crate::output::{list_row, no_rows, opt_row, row, KeyValues, Row};
use crate::text::{opt_text, texts, Text};

verus! {

/// A MAC address and what it is assigned to.
#[derive(Debug)]
pub struct MacView {
    pub id: u64,
    pub mac_address: String,
    pub assigned_object_type: Option<String>,
    pub assigned: Option<String>,
    pub device: Option<String>,
    pub description: Option<String>,
    pub owner: Option<String>,
    pub tags: Vec<String>,
    pub custom_fields: Vec<Member>,
}

/// The name of what carries an interface: the device of a physical one, else the
/// machine of a virtual one.
pub open spec fn carrier_name(v: Json) -> Option<Text> {
    match v.at("device"@) {
        Some(d) => string_at_either(d, "display"@, "name"@),
        None => parent_name(v, "virtual_machine"@),
    }
}

/// The interface that carries a MAC address, behind its device or machine.
pub open spec fn carried_by(v: Json) -> Option<Text> {
    match shown_name(v) {
        Some(name) => Some(behind(carrier_name(v), name)),
        None => None,
    }
}

/// What carries a MAC address, when it is assigned.
pub open spec fn opt_carried_by(o: Option<Json>) -> Option<Text> {
    match o {
        Some(v) => carried_by(v),
        None => None,
    }
}

/// The device of an optional assignment.
pub open spec fn carrying_device(o: Option<Json>) -> Option<Text> {
    match o {
        Some(v) => parent_name(v, "device"@),
        None => None,
    }
}

/// The interface that carries a MAC address, behind its device or machine.
pub fn assigned_label(v: &Json) -> (r: Option<String>)
    ensures
        opt_text(r) == carried_by(*v),
{
    match name_of(v) {
        Some(name) => {
            let carrier = match v.get("device") {
                Some(d) => get_str_either(d, "display", "name"),
                None => parent_of(v, "virtual_machine"),
            };
            Some(put_behind(carrier, name))
        },
        None => None,
    }
}

/// An optional assignment's label.
pub fn assigned_of(o: &Option<Json>) -> (r: Option<String>)
    ensures
        opt_text(r) == opt_carried_by(*o),
{
    match o {
        Some(v) => assigned_label(v),
        None => None,
    }
}

fn device_of(o: &Option<Json>) -> (r: Option<String>)
    ensures
        opt_text(r) == carrying_device(*o),
{
    match o {
        Some(v) => match parent_of(v, "device") {
            Some(s) => Some(s.to_owned()),
            None => None,
        },
        None => None,
    }
}

impl MacView {
    /// Flattens a MAC address.
    pub fn from_model(m: MacAddress) -> (r: Self)
        ensures
            r.id == m.id,
            r.mac_address == m.mac_address,
            r.assigned_object_type == m.assigned_object_type,
            opt_text(r.assigned) == opt_carried_by(m.assigned_object),
            opt_text(r.device) == carrying_device(m.assigned_object),
            opt_text(r.description) == kept_text(m.description),
            opt_text(r.owner) == opt_label(m.owner),
            texts(r.tags@) == slugs(m.tags@),
            r.custom_fields@ == shown_fields(m.custom_fields),
            r.rows() == Self::rows_of(m),
    {
        proof {
            reveal(MacView::rows);
            reveal(MacView::rows_of);
        }
        MacView {
            id: m.id,
            mac_address: m.mac_address,
            assigned_object_type: m.assigned_object_type,
            assigned: assigned_of(&m.assigned_object),
            device: device_of(&m.assigned_object),
            description: keep_text(m.description),
            owner: label_of(&m.owner),
            tags: slugs_of(&m.tags),
            custom_fields: fields(m.custom_fields),
        }
    }

    /// The rows shown, in order.
    #[verifier::opaque]
    pub open spec fn rows(self) -> Seq<Row> {
        no_rows()
            + row("mac"@, self.mac_address@)
            + opt_row("assigned_object_type"@, opt_text(self.assigned_object_type))
            + opt_row("assigned"@, opt_text(self.assigned))
            + opt_row("device"@, opt_text(self.device))
            + opt_row("description"@, opt_text(self.description))
            + opt_row("owner"@, opt_text(self.owner))
            + list_row("tags"@, texts(self.tags@))
    }

    /// The rows shown of a MAC address.
    #[verifier::opaque]
    pub open spec fn rows_of(m: MacAddress) -> Seq<Row> {
        no_rows()
            + row("mac"@, m.mac_address@)
            + opt_row("assigned_object_type"@, opt_text(m.assigned_object_type))
            + opt_row("assigned"@, opt_carried_by(m.assigned_object))
            + opt_row("device"@, carrying_device(m.assigned_object))
            + opt_row("description"@, kept_text(m.description))
            + opt_row("owner"@, opt_label(m.owner))
            + list_row("tags"@, slugs(m.tags@))
    }

    /// Renders the view as rows.
    pub fn to_key_values(&self) -> (r: KeyValues)
        ensures
            r@ == self.rows(),
    {
        proof {
            reveal(MacView::rows);
        }
        let mut kv = KeyValues::new();
        kv.push("mac", self.mac_address.as_str());
        kv.push_opt("assigned_object_type", &self.assigned_object_type);
        kv.push_opt("assigned", &self.assigned);
        kv.push_opt("device", &self.device);
        kv.push_opt("description", &self.description);
        kv.push_opt("owner", &self.owner);
        kv.push_list("tags", &self.tags);
        kv
    }
}

/// The rows of an MAC address: each field that is set is shown under its own key and with
/// its own value, and nothing else is shown.
pub proof fn mac_rows_show_the_fields(m: MacAddress, k: Text, v: Text)
    ensures
        MacView::rows_of(m).contains((k, v)) <==> {
            ||| (k == "mac"@ && v == m.mac_address@)
            ||| (m.assigned_object_type is Some && k == "assigned_object_type"@
                && v == m.assigned_object_type->0@)
            ||| (opt_carried_by(m.assigned_object) is Some && k == "assigned"@
                && v == opt_carried_by(m.assigned_object)->0)
            ||| (carrying_device(m.assigned_object) is Some && k == "device"@
                && v == carrying_device(m.assigned_object)->0)
            ||| (m.description is Some && m.description->0@.len() > 0 && k == "description"@
                && v == m.description->0@)
            ||| (m.owner is Some && k == "owner"@ && v == m.owner->0.label_text())
            ||| (slugs(m.tags@).len() > 0 && k == "tags"@
                && v == crate::text::joined(slugs(m.tags@), ", "@))
        },
{
    reveal(MacView::rows_of);
    crate::output::rows_are_found_where_they_were_put();
}

/// A MAC address is carried by what its assigned object is called, with its device in
/// front, and with its virtual machine where there is no device.
pub proof fn carriers_are_devices_or_machines(v: Json)
    ensures
        shown_name(v) is None <==> opt_carried_by(Some(v)) is None,
        opt_carried_by(None) is None && carrying_device(None) is None,
        shown_name(v) is Some && v.at("device"@) is None && v.at("virtual_machine"@) is None
            ==> opt_carried_by(Some(v)) == shown_name(v),
        shown_name(v) is Some && v.at("device"@) is Some && string_at_either(
            v.at("device"@)->0,
            "display"@,
            "name"@,
        ) is Some ==> opt_carried_by(Some(v)) == Some(
            string_at_either(v.at("device"@)->0, "display"@, "name"@)->0 + " "@ + shown_name(v)->0,
        ) && carrying_device(Some(v)) == string_at_either(
            v.at("device"@)->0,
            "display"@,
            "name"@,
        ),
        shown_name(v) is Some && v.at("device"@) is None && v.at("virtual_machine"@) is Some
            && string_at_either(v.at("virtual_machine"@)->0, "display"@, "name"@) is Some
            ==> opt_carried_by(Some(v)) == Some(
            string_at_either(v.at("virtual_machine"@)->0, "display"@, "name"@)->0 + " "@
                + shown_name(v)->0,
        ) && carrying_device(Some(v)) is None,
{
}

} // verus!
