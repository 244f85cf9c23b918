//! Site view: the fields shown and the rows they make.

use vstd::prelude::*;

use crate::domain::util::{keep_text, kept_text};
use crate::netbox::models::{label_of, opt_label, opt_value, value_of, Site};
use crate::output::{no_rows, opt_row, row, KeyValues, Row};
use crate::text::{opt_text, Text};

verus! {

/// A site, flattened for display.
#[derive(Debug)]
pub struct SiteView {
    pub id: u64,
    pub name: String,
    pub slug: String,
    pub status: Option<String>,
    pub region: Option<String>,
    pub group: Option<String>,
    pub tenant: Option<String>,
    pub facility: Option<String>,
    pub description: Option<String>,
}

impl SiteView {
    /// Flattens a site.
    pub fn from_model(s: Site) -> (r: Self)
        ensures
            r.id == s.id,
            r.name == s.name,
            r.slug == s.slug,
            opt_text(r.status) == opt_value(s.status),
            opt_text(r.region) == opt_label(s.region),
            opt_text(r.group) == opt_label(s.group),
            opt_text(r.tenant) == opt_label(s.tenant),
            opt_text(r.facility) == kept_text(s.facility),
            opt_text(r.description) == kept_text(s.description),
            r.rows() == Self::rows_of(s),
    {
        proof {
            reveal(SiteView::rows);
            reveal(SiteView::rows_of);
        }
        SiteView {
            id: s.id,
            name: s.name,
            slug: s.slug,
            status: value_of(&s.status),
            region: label_of(&s.region),
            group: label_of(&s.group),
            tenant: label_of(&s.tenant),
            facility: keep_text(s.facility),
            description: keep_text(s.description),
        }
    }

    /// The rows shown, in order.
    #[verifier::opaque]
    pub open spec fn rows(self) -> Seq<Row> {
        no_rows()
            + row("name"@, self.name@)
            + row("slug"@, self.slug@)
            + opt_row("status"@, opt_text(self.status))
            + opt_row("region"@, opt_text(self.region))
            + opt_row("group"@, opt_text(self.group))
            + opt_row("tenant"@, opt_text(self.tenant))
            + opt_row("facility"@, opt_text(self.facility))
            + opt_row("description"@, opt_text(self.description))
    }

    /// The rows shown of a site.
    #[verifier::opaque]
    pub open spec fn rows_of(s: Site) -> Seq<Row> {
        no_rows()
            + row("name"@, s.name@)
            + row("slug"@, s.slug@)
            + opt_row("status"@, opt_value(s.status))
            + opt_row("region"@, opt_label(s.region))
            + opt_row("group"@, opt_label(s.group))
            + opt_row("tenant"@, opt_label(s.tenant))
            + opt_row("facility"@, kept_text(s.facility))
            + opt_row("description"@, kept_text(s.description))
    }

    /// Renders the view as rows.
    pub fn to_key_values(&self) -> (r: KeyValues)
        ensures
            r@ == self.rows(),
    {
        proof {
            reveal(SiteView::rows);
        }
        let mut kv = KeyValues::new();
        kv.push("name", self.name.as_str());
        kv.push("slug", self.slug.as_str());
        kv.push_opt("status", &self.status);
        kv.push_opt("region", &self.region);
        kv.push_opt("group", &self.group);
        kv.push_opt("tenant", &self.tenant);
        kv.push_opt("facility", &self.facility);
        kv.push_opt("description", &self.description);
        kv
    }
}

/// The rows of a site: each field that is set is shown under its own key and with
/// its own value, and nothing else is shown.
pub proof fn site_rows_show_the_fields(s: Site, k: Text, v: Text)
    ensures
        SiteView::rows_of(s).contains((k, v)) <==> {
            ||| (k == "name"@ && v == s.name@)
            ||| (k == "slug"@ && v == s.slug@)
            ||| (s.status is Some && k == "status"@ && v == s.status->0.value@)
            ||| (s.region is Some && k == "region"@ && v == s.region->0.label_text())
            ||| (s.group is Some && k == "group"@ && v == s.group->0.label_text())
            ||| (s.tenant is Some && k == "tenant"@ && v == s.tenant->0.label_text())
            ||| (s.facility is Some && s.facility->0@.len() > 0 && k == "facility"@
                && v == s.facility->0@)
            ||| (s.description is Some && s.description->0@.len() > 0 && k == "description"@
                && v == s.description->0@)
        },
{
    reveal(SiteView::rows_of);
    crate::output::rows_are_found_where_they_were_put();
}

} // verus!
