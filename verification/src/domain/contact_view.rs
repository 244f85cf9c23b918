//! Contact view: the fields shown and the rows they make.

use vstd::prelude::*;

use crate::domain::custom::{append, field_rows, fields, shown_fields};
use crate::domain::util::{keep_text, kept_text};
use crate::json::Member;
use crate::netbox::models::{label_of, opt_label, slugs, slugs_of, Contact};
use crate::output::{list_row, no_rows, opt_row, row, KeyValues, Row};
use crate::text::{opt_text, texts, Text};

verus! {

/// A contact, flattened for display.
#[derive(Debug)]
pub struct ContactView {
    pub id: u64,
    pub name: String,
    pub title: Option<String>,
    pub phone: Option<String>,
    pub email: Option<String>,
    pub address: Option<String>,
    pub link: Option<String>,
    pub group: Option<String>,
    pub description: Option<String>,
    pub tags: Vec<String>,
    pub custom_fields: Vec<Member>,
}

impl ContactView {
    /// Flattens a contact.
    pub fn from_model(c: Contact) -> (r: Self)
        ensures
            r.id == c.id,
            r.name == c.name,
            opt_text(r.title) == kept_text(c.title),
            opt_text(r.phone) == kept_text(c.phone),
            opt_text(r.email) == kept_text(c.email),
            opt_text(r.address) == kept_text(c.address),
            opt_text(r.link) == kept_text(c.link),
            opt_text(r.group) == opt_label(c.group),
            opt_text(r.description) == kept_text(c.description),
            texts(r.tags@) == slugs(c.tags@),
            r.custom_fields@ == shown_fields(c.custom_fields),
            r.rows() == Self::rows_of(c),
    {
        proof {
            reveal(ContactView::rows);
            reveal(ContactView::rows_of);
        }
        ContactView {
            id: c.id,
            name: c.name,
            title: keep_text(c.title),
            phone: keep_text(c.phone),
            email: keep_text(c.email),
            address: keep_text(c.address),
            link: keep_text(c.link),
            group: label_of(&c.group),
            description: keep_text(c.description),
            tags: slugs_of(&c.tags),
            custom_fields: fields(c.custom_fields),
        }
    }

    /// The rows shown, in order.
    #[verifier::opaque]
    pub open spec fn rows(self) -> Seq<Row> {
        no_rows()
            + row("name"@, self.name@)
            + opt_row("title"@, opt_text(self.title))
            + opt_row("phone"@, opt_text(self.phone))
            + opt_row("email"@, opt_text(self.email))
            + opt_row("address"@, opt_text(self.address))
            + opt_row("link"@, opt_text(self.link))
            + opt_row("group"@, opt_text(self.group))
            + opt_row("description"@, opt_text(self.description))
            + list_row("tags"@, texts(self.tags@))
            + field_rows(self.custom_fields@)
    }

    /// The rows shown of a contact.
    #[verifier::opaque]
    pub open spec fn rows_of(c: Contact) -> Seq<Row> {
        no_rows()
            + row("name"@, c.name@)
            + opt_row("title"@, kept_text(c.title))
            + opt_row("phone"@, kept_text(c.phone))
            + opt_row("email"@, kept_text(c.email))
            + opt_row("address"@, kept_text(c.address))
            + opt_row("link"@, kept_text(c.link))
            + opt_row("group"@, opt_label(c.group))
            + opt_row("description"@, kept_text(c.description))
            + list_row("tags"@, slugs(c.tags@))
            + field_rows(shown_fields(c.custom_fields))
    }

    /// Renders the view as rows.
    pub fn to_key_values(&self) -> (r: KeyValues)
        ensures
            r@ == self.rows(),
    {
        proof {
            reveal(ContactView::rows);
        }
        let mut kv = KeyValues::new();
        kv.push("name", self.name.as_str());
        kv.push_opt("title", &self.title);
        kv.push_opt("phone", &self.phone);
        kv.push_opt("email", &self.email);
        kv.push_opt("address", &self.address);
        kv.push_opt("link", &self.link);
        kv.push_opt("group", &self.group);
        kv.push_opt("description", &self.description);
        kv.push_list("tags", &self.tags);
        append(&mut kv, &self.custom_fields);
        kv
    }
}

/// The rows of a contact: each field that is set is shown under its own key and with
/// its own value, and nothing else is shown.
pub proof fn contact_rows_show_the_fields(c: Contact, k: Text, v: Text)
    ensures
        ContactView::rows_of(c).contains((k, v)) <==> {
            ||| (k == "name"@ && v == c.name@)
            ||| (c.title is Some && c.title->0@.len() > 0 && k == "title"@ && v == c.title->0@)
            ||| (c.phone is Some && c.phone->0@.len() > 0 && k == "phone"@ && v == c.phone->0@)
            ||| (c.email is Some && c.email->0@.len() > 0 && k == "email"@ && v == c.email->0@)
            ||| (c.address is Some && c.address->0@.len() > 0 && k == "address"@
                && v == c.address->0@)
            ||| (c.link is Some && c.link->0@.len() > 0 && k == "link"@ && v == c.link->0@)
            ||| (c.group is Some && k == "group"@ && v == c.group->0.label_text())
            ||| (c.description is Some && c.description->0@.len() > 0 && k == "description"@
                && v == c.description->0@)
            ||| (slugs(c.tags@).len() > 0 && k == "tags"@
                && v == crate::text::joined(slugs(c.tags@), ", "@))
            ||| {
                &&& c.custom_fields is Object
                &&& exists|m: crate::json::Member|
                    {
                        &&& #[trigger] c.custom_fields->members@.contains(m)
                        &&& !(m.value is Null)
                        &&& !(m.value is Text && m.value->Text_0@.len() == 0)
                        &&& k == "cf."@ + m.name@
                        &&& v == crate::domain::custom::shown_value(m.value)
                    }
            }
        },
{
    reveal(ContactView::rows_of);
    crate::output::rows_are_found_where_they_were_put();
    crate::domain::custom::custom_fields_have_rows(c.custom_fields, k, v);
}

} // verus!
