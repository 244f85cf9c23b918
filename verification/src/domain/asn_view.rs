//! AS number view: the fields shown and the rows they make.

use vstd::prelude::*;

use crate::domain::custom::{append, field_rows, fields, shown_fields};
use crate::domain::util::{keep_text, kept_text};
use crate::json::Member;
use crate::netbox::models::{label_of, opt_label, Asn};
use crate::number::{decimal, decimal_text};
use crate::output::{no_rows, opt_row, row, KeyValues, Row};
use crate::text::{opt_text, Text};

verus! {

/// An AS number, flattened for display.
#[derive(Debug)]
pub struct AsnView {
    pub asn: u32,
    pub rir: Option<String>,
    pub tenant: Option<String>,
    pub description: Option<String>,
    pub custom_fields: Vec<Member>,
}

impl AsnView {
    /// Flattens an AS number.
    pub fn from_model(a: Asn) -> (r: Self)
        ensures
            r.asn == a.asn,
            opt_text(r.rir) == opt_label(a.rir),
            opt_text(r.tenant) == opt_label(a.tenant),
            opt_text(r.description) == kept_text(a.description),
            r.custom_fields@ == shown_fields(a.custom_fields),
            r.rows() == Self::rows_of(a),
    {
        proof {
            reveal(AsnView::rows);
            reveal(AsnView::rows_of);
        }
        AsnView {
            asn: a.asn,
            rir: label_of(&a.rir),
            tenant: label_of(&a.tenant),
            description: keep_text(a.description),
            custom_fields: fields(a.custom_fields),
        }
    }

    /// The rows shown, in order.
    #[verifier::opaque]
    pub open spec fn rows(self) -> Seq<Row> {
        no_rows()
            + row("asn"@, decimal_text(self.asn as nat))
            + opt_row("rir"@, opt_text(self.rir))
            + opt_row("tenant"@, opt_text(self.tenant))
            + opt_row("description"@, opt_text(self.description))
            + field_rows(self.custom_fields@)
    }

    /// The rows shown of an AS number.
    #[verifier::opaque]
    pub open spec fn rows_of(a: Asn) -> Seq<Row> {
        no_rows()
            + row("asn"@, decimal_text(a.asn as nat))
            + opt_row("rir"@, opt_label(a.rir))
            + opt_row("tenant"@, opt_label(a.tenant))
            + opt_row("description"@, kept_text(a.description))
            + field_rows(shown_fields(a.custom_fields))
    }

    /// Renders the view as rows.
    pub fn to_key_values(&self) -> (r: KeyValues)
        ensures
            r@ == self.rows(),
    {
        proof {
            reveal(AsnView::rows);
        }
        let mut kv = KeyValues::new();
        let asn = decimal(self.asn as u64);
        kv.push("asn", asn.as_str());
        kv.push_opt("rir", &self.rir);
        kv.push_opt("tenant", &self.tenant);
        kv.push_opt("description", &self.description);
        append(&mut kv, &self.custom_fields);
        kv
    }
}

/// The rows of an asn: each field that is set is shown under its own key and with
/// its own value, and nothing else is shown.
pub proof fn asn_rows_show_the_fields(a: Asn, k: Text, v: Text)
    ensures
        AsnView::rows_of(a).contains((k, v)) <==> {
            ||| (k == "asn"@ && v == decimal_text(a.asn as nat))
            ||| (a.rir is Some && k == "rir"@ && v == a.rir->0.label_text())
            ||| (a.tenant is Some && k == "tenant"@ && v == a.tenant->0.label_text())
            ||| (a.description is Some && a.description->0@.len() > 0 && k == "description"@
                && v == a.description->0@)
            ||| {
                &&& a.custom_fields is Object
                &&& exists|m: crate::json::Member|
                    {
                        &&& #[trigger] a.custom_fields->members@.contains(m)
                        &&& !(m.value is Null)
                        &&& !(m.value is Text && m.value->Text_0@.len() == 0)
                        &&& k == "cf."@ + m.name@
                        &&& v == crate::domain::custom::shown_value(m.value)
                    }
            }
        },
{
    reveal(AsnView::rows_of);
    crate::output::rows_are_found_where_they_were_put();
    crate::domain::custom::custom_fields_have_rows(a.custom_fields, k, v);
}

} // verus!
