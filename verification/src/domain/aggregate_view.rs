//! Aggregate view: the fields shown and the rows they make.

use vstd::prelude::*;

use crate::domain::custom::{append, field_rows, fields, shown_fields};
use crate::domain::util::{keep_text, kept_text};
use crate::json::Member;
use crate::netbox::models::{label_of, opt_label, Aggregate};
use crate::output::{no_rows, opt_row, row, KeyValues, Row};
use crate::text::{opt_text, Text};

verus! {

/// An aggregate, flattened for display.
#[derive(Debug)]
pub struct AggregateView {
    pub prefix: String,
    pub rir: Option<String>,
    pub tenant: Option<String>,
    pub date_added: Option<String>,
    pub description: Option<String>,
    pub custom_fields: Vec<Member>,
}

impl AggregateView {
    /// Flattens an aggregate.
    pub fn from_model(a: Aggregate) -> (r: Self)
        ensures
            r.prefix == a.prefix,
            opt_text(r.rir) == opt_label(a.rir),
            opt_text(r.tenant) == opt_label(a.tenant),
            opt_text(r.date_added) == kept_text(a.date_added),
            opt_text(r.description) == kept_text(a.description),
            r.custom_fields@ == shown_fields(a.custom_fields),
            r.rows() == Self::rows_of(a),
    {
        proof {
            reveal(AggregateView::rows);
            reveal(AggregateView::rows_of);
        }
        AggregateView {
            prefix: a.prefix,
            rir: label_of(&a.rir),
            tenant: label_of(&a.tenant),
            date_added: keep_text(a.date_added),
            description: keep_text(a.description),
            custom_fields: fields(a.custom_fields),
        }
    }

    /// The rows shown, in order.
    #[verifier::opaque]
    pub open spec fn rows(self) -> Seq<Row> {
        no_rows()
            + row("prefix"@, self.prefix@)
            + opt_row("rir"@, opt_text(self.rir))
            + opt_row("tenant"@, opt_text(self.tenant))
            + opt_row("date_added"@, opt_text(self.date_added))
            + opt_row("description"@, opt_text(self.description))
            + field_rows(self.custom_fields@)
    }

    /// The rows shown of an aggregate.
    #[verifier::opaque]
    pub open spec fn rows_of(a: Aggregate) -> Seq<Row> {
        no_rows()
            + row("prefix"@, a.prefix@)
            + opt_row("rir"@, opt_label(a.rir))
            + opt_row("tenant"@, opt_label(a.tenant))
            + opt_row("date_added"@, kept_text(a.date_added))
            + opt_row("description"@, kept_text(a.description))
            + field_rows(shown_fields(a.custom_fields))
    }

    /// Renders the view as rows.
    pub fn to_key_values(&self) -> (r: KeyValues)
        ensures
            r@ == self.rows(),
    {
        proof {
            reveal(AggregateView::rows);
        }
        let mut kv = KeyValues::new();
        kv.push("prefix", self.prefix.as_str());
        kv.push_opt("rir", &self.rir);
        kv.push_opt("tenant", &self.tenant);
        kv.push_opt("date_added", &self.date_added);
        kv.push_opt("description", &self.description);
        append(&mut kv, &self.custom_fields);
        kv
    }
}

/// The rows of an aggregate: each field that is set is shown under its own key and with
/// its own value, and nothing else is shown.
pub proof fn aggregate_rows_show_the_fields(a: Aggregate, k: Text, v: Text)
    ensures
        AggregateView::rows_of(a).contains((k, v)) <==> {
            ||| (k == "prefix"@ && v == a.prefix@)
            ||| (a.rir is Some && k == "rir"@ && v == a.rir->0.label_text())
            ||| (a.tenant is Some && k == "tenant"@ && v == a.tenant->0.label_text())
            ||| (a.date_added is Some && a.date_added->0@.len() > 0 && k == "date_added"@
                && v == a.date_added->0@)
            ||| (a.description is Some && a.description->0@.len() > 0 && k == "description"@
                && v == a.description->0@)
            ||| {
                &&& a.custom_fields is Object
                &&& exists|m: crate::json::Member|
                    {
                        &&& #[trigger] a.custom_fields->members@.contains(m)
                        &&& !(m.value is Null)
                        &&& !(m.value is Text && m.value->Text_0@.len() == 0)
                        &&& k == "cf."@ + m.name@
                        &&& v == crate::domain::custom::shown_value(m.value)
                    }
            }
        },
{
    reveal(AggregateView::rows_of);
    crate::output::rows_are_found_where_they_were_put();
    crate::domain::custom::custom_fields_have_rows(a.custom_fields, k, v);
}

} // verus!
