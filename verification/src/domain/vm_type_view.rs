//! Virtual machine type view: the fields shown and the rows they make.

use vstd::prelude::*;

use crate::domain::custom::{append, field_rows, fields, shown_fields};
use crate::domain::util::{keep_text, kept_count, kept_text, non_zero};
use crate::json::Member;
use crate::netbox::models::{label_of, opt_label, slugs, slugs_of, VirtualMachineType};
use crate::output::{count_row, list_row, no_rows, opt_row, row, KeyValues, Row};
use crate::text::{opt_text, texts, Text};

verus! {

/// A virtual machine type, flattened for display.
#[derive(Debug)]
pub struct VirtualMachineTypeView {
    pub id: u64,
    pub name: String,
    pub slug: String,
    pub default_platform: Option<String>,
    pub default_vcpus: Option<String>,
    pub default_memory: Option<u64>,
    pub description: Option<String>,
    pub owner: Option<String>,
    pub virtual_machine_count: Option<u64>,
    pub tags: Vec<String>,
    pub custom_fields: Vec<Member>,
}

impl VirtualMachineTypeView {
    /// Flattens a virtual machine type.
    pub fn from_model(t: VirtualMachineType) -> (r: Self)
        ensures
            r.id == t.id,
            r.name == t.name,
            r.slug == t.slug,
            opt_text(r.default_platform) == opt_label(t.default_platform),
            r.default_vcpus == t.default_vcpus,
            r.default_memory == t.default_memory,
            opt_text(r.description) == kept_text(t.description),
            opt_text(r.owner) == opt_label(t.owner),
            r.virtual_machine_count == kept_count(t.virtual_machine_count),
            texts(r.tags@) == slugs(t.tags@),
            r.custom_fields@ == shown_fields(t.custom_fields),
            r.rows() == Self::rows_of(t),
    {
        proof {
            reveal(VirtualMachineTypeView::rows);
            reveal(VirtualMachineTypeView::rows_of);
        }
        VirtualMachineTypeView {
            id: t.id,
            name: t.name,
            slug: t.slug,
            default_platform: label_of(&t.default_platform),
            default_vcpus: t.default_vcpus,
            default_memory: t.default_memory,
            description: keep_text(t.description),
            owner: label_of(&t.owner),
            virtual_machine_count: non_zero(t.virtual_machine_count),
            tags: slugs_of(&t.tags),
            custom_fields: fields(t.custom_fields),
        }
    }

    /// The rows shown, in order.
    #[verifier::opaque]
    pub open spec fn rows(self) -> Seq<Row> {
        no_rows()
            + row("name"@, self.name@)
            + row("slug"@, self.slug@)
            + opt_row("default_platform"@, opt_text(self.default_platform))
            + opt_row("default_vcpus"@, opt_text(self.default_vcpus))
            + count_row("default_memory"@, self.default_memory)
            + opt_row("description"@, opt_text(self.description))
            + opt_row("owner"@, opt_text(self.owner))
            + count_row("virtual_machine_count"@, self.virtual_machine_count)
            + list_row("tags"@, texts(self.tags@))
            + field_rows(self.custom_fields@)
    }

    /// The rows shown of a virtual machine type.
    #[verifier::opaque]
    pub open spec fn rows_of(t: VirtualMachineType) -> Seq<Row> {
        no_rows()
            + row("name"@, t.name@)
            + row("slug"@, t.slug@)
            + opt_row("default_platform"@, opt_label(t.default_platform))
            + opt_row("default_vcpus"@, opt_text(t.default_vcpus))
            + count_row("default_memory"@, t.default_memory)
            + opt_row("description"@, kept_text(t.description))
            + opt_row("owner"@, opt_label(t.owner))
            + count_row("virtual_machine_count"@, kept_count(t.virtual_machine_count))
            + list_row("tags"@, slugs(t.tags@))
            + field_rows(shown_fields(t.custom_fields))
    }

    /// Renders the view as rows.
    pub fn to_key_values(&self) -> (r: KeyValues)
        ensures
            r@ == self.rows(),
    {
        proof {
            reveal(VirtualMachineTypeView::rows);
        }
        let mut kv = KeyValues::new();
        kv.push("name", self.name.as_str());
        kv.push("slug", self.slug.as_str());
        kv.push_opt("default_platform", &self.default_platform);
        kv.push_opt("default_vcpus", &self.default_vcpus);
        kv.push_count("default_memory", self.default_memory);
        kv.push_opt("description", &self.description);
        kv.push_opt("owner", &self.owner);
        kv.push_count("virtual_machine_count", self.virtual_machine_count);
        kv.push_list("tags", &self.tags);
        append(&mut kv, &self.custom_fields);
        kv
    }
}

/// The rows of a virtual machine type: each field that is set is shown under its own key and with
/// its own value, and nothing else is shown.
pub proof fn vm_type_rows_show_the_fields(t: VirtualMachineType, k: Text, v: Text)
    ensures
        VirtualMachineTypeView::rows_of(t).contains((k, v)) <==> {
            ||| (k == "name"@ && v == t.name@)
            ||| (k == "slug"@ && v == t.slug@)
            ||| (t.default_platform is Some && k == "default_platform"@
                && v == t.default_platform->0.label_text())
            ||| (t.default_vcpus is Some && k == "default_vcpus"@ && v == t.default_vcpus->0@)
            ||| (t.default_memory is Some && k == "default_memory"@
                && v == crate::number::decimal_text(t.default_memory->0 as nat))
            ||| (t.description is Some && t.description->0@.len() > 0 && k == "description"@
                && v == t.description->0@)
            ||| (t.owner is Some && k == "owner"@ && v == t.owner->0.label_text())
            ||| (t.virtual_machine_count is Some && t.virtual_machine_count->0 > 0
                && k == "virtual_machine_count"@
                && v == crate::number::decimal_text(t.virtual_machine_count->0 as nat))
            ||| (slugs(t.tags@).len() > 0 && k == "tags"@
                && v == crate::text::joined(slugs(t.tags@), ", "@))
            ||| {
                &&& t.custom_fields is Object
                &&& exists|m: crate::json::Member|
                    {
                        &&& #[trigger] t.custom_fields->members@.contains(m)
                        &&& !(m.value is Null)
                        &&& !(m.value is Text && m.value->Text_0@.len() == 0)
                        &&& k == "cf."@ + m.name@
                        &&& v == crate::domain::custom::shown_value(m.value)
                    }
            }
        },
{
    reveal(VirtualMachineTypeView::rows_of);
    crate::output::rows_are_found_where_they_were_put();
    crate::domain::custom::custom_fields_have_rows(t.custom_fields, k, v);
}

} // verus!
