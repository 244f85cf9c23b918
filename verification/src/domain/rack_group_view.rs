//! Rack group view: the fields shown and the rows they make.

use vstd::prelude::*;

use crate::domain::custom::{append, field_rows, fields, shown_fields};
use crate::domain::util::{keep_text, kept_count, kept_text, non_zero};
use crate::json::Member;
use crate::netbox::models::{label_of, opt_label, slugs, slugs_of, RackGroup};
use crate::output::{count_row, list_row, no_rows, opt_row, row, KeyValues, Row};
use crate::text::{opt_text, texts, Text};

verus! {

/// A rack group, flattened for display.
#[derive(Debug)]
pub struct RackGroupView {
    pub id: u64,
    pub name: String,
    pub slug: String,
    pub description: Option<String>,
    pub owner: Option<String>,
    pub rack_count: Option<u64>,
    pub tags: Vec<String>,
    pub custom_fields: Vec<Member>,
}

impl RackGroupView {
    /// Flattens a rack group.
    pub fn from_model(g: RackGroup) -> (r: Self)
        ensures
            r.id == g.id,
            r.name == g.name,
            r.slug == g.slug,
            opt_text(r.description) == kept_text(g.description),
            opt_text(r.owner) == opt_label(g.owner),
            r.rack_count == kept_count(g.rack_count),
            texts(r.tags@) == slugs(g.tags@),
            r.custom_fields@ == shown_fields(g.custom_fields),
            r.rows() == Self::rows_of(g),
    {
        proof {
            reveal(RackGroupView::rows);
            reveal(RackGroupView::rows_of);
        }
        RackGroupView {
            id: g.id,
            name: g.name,
            slug: g.slug,
            description: keep_text(g.description),
            owner: label_of(&g.owner),
            rack_count: non_zero(g.rack_count),
            tags: slugs_of(&g.tags),
            custom_fields: fields(g.custom_fields),
        }
    }

    /// The rows shown, in order.
    #[verifier::opaque]
    pub open spec fn rows(self) -> Seq<Row> {
        no_rows()
            + row("name"@, self.name@)
            + row("slug"@, self.slug@)
            + opt_row("description"@, opt_text(self.description))
            + opt_row("owner"@, opt_text(self.owner))
            + count_row("rack_count"@, self.rack_count)
            + list_row("tags"@, texts(self.tags@))
            + field_rows(self.custom_fields@)
    }

    /// The rows shown of a rack group.
    #[verifier::opaque]
    pub open spec fn rows_of(g: RackGroup) -> Seq<Row> {
        no_rows()
            + row("name"@, g.name@)
            + row("slug"@, g.slug@)
            + opt_row("description"@, kept_text(g.description))
            + opt_row("owner"@, opt_label(g.owner))
            + count_row("rack_count"@, kept_count(g.rack_count))
            + list_row("tags"@, slugs(g.tags@))
            + field_rows(shown_fields(g.custom_fields))
    }

    /// Renders the view as rows.
    pub fn to_key_values(&self) -> (r: KeyValues)
        ensures
            r@ == self.rows(),
    {
        proof {
            reveal(RackGroupView::rows);
        }
        let mut kv = KeyValues::new();
        kv.push("name", self.name.as_str());
        kv.push("slug", self.slug.as_str());
        kv.push_opt("description", &self.description);
        kv.push_opt("owner", &self.owner);
        kv.push_count("rack_count", self.rack_count);
        kv.push_list("tags", &self.tags);
        append(&mut kv, &self.custom_fields);
        kv
    }
}

/// The rows of a rack group: each field that is set is shown under its own key and with
/// its own value, and nothing else is shown.
pub proof fn rack_group_rows_show_the_fields(g: RackGroup, k: Text, v: Text)
    ensures
        RackGroupView::rows_of(g).contains((k, v)) <==> {
            ||| (k == "name"@ && v == g.name@)
            ||| (k == "slug"@ && v == g.slug@)
            ||| (g.description is Some && g.description->0@.len() > 0 && k == "description"@
                && v == g.description->0@)
            ||| (g.owner is Some && k == "owner"@ && v == g.owner->0.label_text())
            ||| (g.rack_count is Some && g.rack_count->0 > 0 && k == "rack_count"@
                && v == crate::number::decimal_text(g.rack_count->0 as nat))
            ||| (slugs(g.tags@).len() > 0 && k == "tags"@
                && v == crate::text::joined(slugs(g.tags@), ", "@))
            ||| {
                &&& g.custom_fields is Object
                &&& exists|m: crate::json::Member|
                    {
                        &&& #[trigger] g.custom_fields->members@.contains(m)
                        &&& !(m.value is Null)
                        &&& !(m.value is Text && m.value->Text_0@.len() == 0)
                        &&& k == "cf."@ + m.name@
                        &&& v == crate::domain::custom::shown_value(m.value)
                    }
            }
        },
{
    reveal(RackGroupView::rows_of);
    crate::output::rows_are_found_where_they_were_put();
    crate::domain::custom::custom_fields_have_rows(g.custom_fields, k, v);
}

} // verus!
