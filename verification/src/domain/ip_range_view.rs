//! IP range view: the fields shown and the rows they make.

use vstd::prelude::*;

use crate::domain::custom::{append, field_rows, fields, shown_fields};
use crate::domain::util::{keep_text, kept_text};
use crate::json::Member;
use crate::netbox::models::{label_of, opt_label, opt_value, value_of, IpRange};
use crate::output::{count_row, no_rows, opt_row, row, KeyValues, Row};
use crate::text::{opt_text, Text};

verus! {

/// An IP range, flattened for display.
#[derive(Debug)]
pub struct IpRangeView {
    pub start_address: String,
    pub end_address: String,
    pub size: Option<u64>,
    pub status: Option<String>,
    pub vrf: Option<String>,
    pub tenant: Option<String>,
    pub role: Option<String>,
    pub description: Option<String>,
    pub custom_fields: Vec<Member>,
}

impl IpRangeView {
    /// Flattens an IP range.
    pub fn from_model(p: IpRange) -> (r: Self)
        ensures
            r.start_address == p.start_address,
            r.end_address == p.end_address,
            r.size == p.size,
            opt_text(r.status) == opt_value(p.status),
            opt_text(r.vrf) == opt_label(p.vrf),
            opt_text(r.tenant) == opt_label(p.tenant),
            opt_text(r.role) == opt_label(p.role),
            opt_text(r.description) == kept_text(p.description),
            r.custom_fields@ == shown_fields(p.custom_fields),
            r.rows() == Self::rows_of(p),
    {
        proof {
            reveal(IpRangeView::rows);
            reveal(IpRangeView::rows_of);
        }
        IpRangeView {
            start_address: p.start_address,
            end_address: p.end_address,
            size: p.size,
            status: value_of(&p.status),
            vrf: label_of(&p.vrf),
            tenant: label_of(&p.tenant),
            role: label_of(&p.role),
            description: keep_text(p.description),
            custom_fields: fields(p.custom_fields),
        }
    }

    /// The rows shown, in order.
    #[verifier::opaque]
    pub open spec fn rows(self) -> Seq<Row> {
        no_rows()
            + row("start_address"@, self.start_address@)
            + row("end_address"@, self.end_address@)
            + count_row("size"@, self.size)
            + opt_row("status"@, opt_text(self.status))
            + opt_row("vrf"@, opt_text(self.vrf))
            + opt_row("tenant"@, opt_text(self.tenant))
            + opt_row("role"@, opt_text(self.role))
            + opt_row("description"@, opt_text(self.description))
            + field_rows(self.custom_fields@)
    }

    /// The rows shown of an IP range.
    #[verifier::opaque]
    pub open spec fn rows_of(p: IpRange) -> Seq<Row> {
        no_rows()
            + row("start_address"@, p.start_address@)
            + row("end_address"@, p.end_address@)
            + count_row("size"@, p.size)
            + opt_row("status"@, opt_value(p.status))
            + opt_row("vrf"@, opt_label(p.vrf))
            + opt_row("tenant"@, opt_label(p.tenant))
            + opt_row("role"@, opt_label(p.role))
            + opt_row("description"@, kept_text(p.description))
            + field_rows(shown_fields(p.custom_fields))
    }

    /// Renders the view as rows.
    pub fn to_key_values(&self) -> (r: KeyValues)
        ensures
            r@ == self.rows(),
    {
        proof {
            reveal(IpRangeView::rows);
        }
        let mut kv = KeyValues::new();
        kv.push("start_address", self.start_address.as_str());
        kv.push("end_address", self.end_address.as_str());
        kv.push_count("size", self.size);
        kv.push_opt("status", &self.status);
        kv.push_opt("vrf", &self.vrf);
        kv.push_opt("tenant", &self.tenant);
        kv.push_opt("role", &self.role);
        kv.push_opt("description", &self.description);
        append(&mut kv, &self.custom_fields);
        kv
    }
}

/// The rows of a range: each field that is set is shown under its own key and with
/// its own value, and nothing else is shown.
pub proof fn ip_range_rows_show_the_fields(p: IpRange, k: Text, v: Text)
    ensures
        IpRangeView::rows_of(p).contains((k, v)) <==> {
            ||| (k == "start_address"@ && v == p.start_address@)
            ||| (k == "end_address"@ && v == p.end_address@)
            ||| (p.size is Some && k == "size"@
                && v == crate::number::decimal_text(p.size->0 as nat))
            ||| (p.status is Some && k == "status"@ && v == p.status->0.value@)
            ||| (p.vrf is Some && k == "vrf"@ && v == p.vrf->0.label_text())
            ||| (p.tenant is Some && k == "tenant"@ && v == p.tenant->0.label_text())
            ||| (p.role is Some && k == "role"@ && v == p.role->0.label_text())
            ||| (p.description is Some && p.description->0@.len() > 0 && k == "description"@
                && v == p.description->0@)
            ||| {
                &&& p.custom_fields is Object
                &&& exists|m: crate::json::Member|
                    {
                        &&& #[trigger] p.custom_fields->members@.contains(m)
                        &&& !(m.value is Null)
                        &&& !(m.value is Text && m.value->Text_0@.len() == 0)
                        &&& k == "cf."@ + m.name@
                        &&& v == crate::domain::custom::shown_value(m.value)
                    }
            }
        },
{
    reveal(IpRangeView::rows_of);
    crate::output::rows_are_found_where_they_were_put();
    crate::domain::custom::custom_fields_have_rows(p.custom_fields, k, v);
}

} // verus!
