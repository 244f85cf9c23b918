//! Objects that carry a tag.

use vstd::prelude::*;

use crate::domain::util::{non_empty, text_if_any};
use crate::netbox::models::{TagInfo, TaggedObject};
use crate::number::{decimal, decimal_text};
use crate::output::{no_rows, opt_row, row, KeyValues, Row};
use crate::split::{after_last, tail_after};
use crate::text::{same, Text};

verus! {

/// One object that carries a tag.
#[derive(Debug)]
pub struct TaggedObjectView {
    pub kind: String,
    pub object_type: String,
    pub id: u64,
    pub display: String,
    pub url: String,
}

/// A tag and the objects that carry it.
#[derive(Debug)]
pub struct TaggedReport {
    pub tag: ResolvedTag,
    pub results: Vec<TaggedObjectView>,
}

/// The tag that a reference resolved to.
#[derive(Debug)]
pub struct ResolvedTag {
    pub id: u64,
    pub name: String,
    pub slug: String,
}

/// The label of an object: that of its reference, else the row's own display
/// text, else nothing.
pub open spec fn tagged_display(row: TaggedObject) -> Text {
    match row.object {
        Some(b) => b.label_text(),
        None => match row.display {
            Some(d) => d@,
            None => Seq::empty(),
        },
    }
}

/// The URL of an object: that of its reference, else the row's own, else nothing.
pub open spec fn tagged_url(row: TaggedObject) -> Text {
    if row.object is Some && row.object->0.url is Some {
        row.object->0.url->0@
    } else {
        match row.url {
            Some(u) => u@,
            None => Seq::empty(),
        }
    }
}

impl TaggedObjectView {
    /// Flattens a row of the listing.
    pub fn from_model(row: TaggedObject) -> (r: Self)
        ensures
            r.kind@ == kind_name(row.object_type@),
            r.object_type == row.object_type,
            r.id == row.object_id,
            r.display@ == tagged_display(row),
            r.url@ == tagged_url(row),
    {
        let kind = kind_label(row.object_type.as_str());
        let display = match &row.object {
            Some(b) => b.label(),
            None => match &row.display {
                Some(d) => d.clone(),
                None => String::new(),
            },
        };
        let from_object = match &row.object {
            Some(b) => crate::text::copy_opt(&b.url),
            None => None,
        };
        let url = match from_object {
            Some(u) => u,
            None => match &row.url {
                Some(u) => u.clone(),
                None => String::new(),
            },
        };
        TaggedObjectView { kind, object_type: row.object_type, id: row.object_id, display, url }
    }

    /// The rows shown, in order.
    #[verifier::opaque]
    pub open spec fn rows(self) -> Seq<Row> {
        no_rows()
            + row("kind"@, self.kind@)
            + row("object_type"@, self.object_type@)
            + row("id"@, decimal_text(self.id as nat))
            + row("display"@, self.display@)
            + opt_row("url"@, text_if_any(self.url@))
    }

    /// Renders the view as rows.
    pub fn to_key_values(&self) -> (r: KeyValues)
        ensures
            r@ == self.rows(),
    {
        proof {
            reveal(TaggedObjectView::rows);
        }
        let mut kv = KeyValues::new();
        kv.push("kind", self.kind.as_str());
        kv.push("object_type", self.object_type.as_str());
        let id = decimal(self.id);
        kv.push("id", id.as_str());
        kv.push("display", self.display.as_str());
        let url = non_empty(self.url.clone());
        kv.push_opt("url", &url);
        kv
    }
}

impl ResolvedTag {
    /// The identity of a tag.
    pub fn from_info(t: TagInfo) -> (r: Self)
        ensures
            r.id == t.id,
            r.name == t.name,
            r.slug == t.slug,
    {
        ResolvedTag { id: t.id, name: t.name, slug: t.slug }
    }
}

/// The content types with a name of their own, and that name.
pub open spec fn known_kinds() -> Seq<(Text, Text)> {
    seq![
        ("dcim.device"@, "device"@),
        ("dcim.site"@, "site"@),
        ("dcim.rack"@, "rack"@),
        ("dcim.interface"@, "interface"@),
        ("dcim.macaddress"@, "mac"@),
        ("ipam.ipaddress"@, "ip"@),
        ("ipam.prefix"@, "prefix"@),
        ("ipam.vlan"@, "vlan"@),
        ("ipam.aggregate"@, "aggregate"@),
        ("ipam.asn"@, "asn"@),
        ("ipam.iprange"@, "ip-range"@),
        ("ipam.vrf"@, "vrf"@),
        ("ipam.routetarget"@, "route-target"@),
        ("tenancy.tenant"@, "tenant"@),
        ("tenancy.contact"@, "contact"@),
        ("circuits.circuit"@, "circuit"@),
        ("circuits.provider"@, "provider"@),
        ("virtualization.virtualmachine"@, "vm"@),
        ("virtualization.cluster"@, "cluster"@),
    ]
}

/// The name that a table gives a content type.
pub open spec fn name_in(table: Seq<(Text, Text)>, object_type: Text) -> Option<Text>
    decreases table.len(),
{
    if table.len() == 0 {
        None
    } else if table[0].0 == object_type {
        Some(table[0].1)
    } else {
        name_in(table.skip(1), object_type)
    }
}

/// The name of a content type: the known one, else its last segment.
pub open spec fn kind_name(object_type: Text) -> Text {
    match name_in(known_kinds(), object_type) {
        Some(name) => name,
        None => after_last(object_type, '.'),
    }
}

/// The name of a content type.
pub fn kind_label(object_type: &str) -> (r: String)
    ensures
        r@ == kind_name(object_type@),
{
    let table: Vec<(&str, &str)> = vec![
        ("dcim.device", "device"),
        ("dcim.site", "site"),
        ("dcim.rack", "rack"),
        ("dcim.interface", "interface"),
        ("dcim.macaddress", "mac"),
        ("ipam.ipaddress", "ip"),
        ("ipam.prefix", "prefix"),
        ("ipam.vlan", "vlan"),
        ("ipam.aggregate", "aggregate"),
        ("ipam.asn", "asn"),
        ("ipam.iprange", "ip-range"),
        ("ipam.vrf", "vrf"),
        ("ipam.routetarget", "route-target"),
        ("tenancy.tenant", "tenant"),
        ("tenancy.contact", "contact"),
        ("circuits.circuit", "circuit"),
        ("circuits.provider", "provider"),
        ("virtualization.virtualmachine", "vm"),
        ("virtualization.cluster", "cluster"),
    ];
    let ghost known = known_kinds();
    let mut i: usize = 0;
    proof {
        assert(table@.len() == known.len());
        assert(forall|j: int|
            0 <= j < known.len() ==> (#[trigger] table@[j]).0@ == known[j].0 && table@[j].1@
                == known[j].1);
        assert(known.skip(0) =~= known);
    }
    while i < table.len()
        invariant
            i <= table.len(),
            known == known_kinds(),
            table@.len() == known.len(),
            forall|j: int|
                0 <= j < known.len() ==> (#[trigger] table@[j]).0@ == known[j].0 && table@[j].1@
                    == known[j].1,
            name_in(known, object_type@) == name_in(known.skip(i as int), object_type@),
        decreases table.len() - i,
    {
        if same(table[i].0, object_type) {
            return table[i].1.to_owned();
        }
        proof {
            assert(known.skip(i as int).skip(1) =~= known.skip(i as int + 1));
        }
        i = i + 1;
    }
    tail_after(object_type, '.')
}

/// The rows of a tagged object: each field that is set is shown under its own key and with
/// its own value, and nothing else is shown.
pub proof fn tagged_rows_show_the_fields(summary: TaggedObjectView, k: Text, v: Text)
    ensures
        summary.rows().contains((k, v)) <==> {
            ||| (k == "kind"@ && v == summary.kind@)
            ||| (k == "object_type"@ && v == summary.object_type@)
            ||| (k == "id"@ && v == decimal_text(summary.id as nat))
            ||| (k == "display"@ && v == summary.display@)
            ||| (text_if_any(summary.url@) is Some && k == "url"@
                && v == text_if_any(summary.url@)->0)
        },
{
    reveal(TaggedObjectView::rows);
    crate::output::rows_are_found_where_they_were_put();
}

/// A tagged object is shown by the label of what it refers to, and by its own display
/// text only where it refers to nothing; its address is that of what it refers to, else
/// its own.
pub proof fn tagged_objects_show_what_they_refer_to(row: TaggedObject)
    ensures
        row.object is Some ==> tagged_display(row) == row.object->0.label_text(),
        row.object is None && row.display is Some ==> tagged_display(row) == row.display->0@,
        row.object is None && row.display is None ==> tagged_display(row).len() == 0,
        row.object is Some && row.object->0.url is Some ==> tagged_url(row)
            == row.object->0.url->0@,
        (row.object is None || row.object->0.url is None) && row.url is Some ==> tagged_url(row)
            == row.url->0@,
        (row.object is None || row.object->0.url is None) && row.url is None ==> tagged_url(
            row,
        ).len() == 0,
{
}

proof fn names_are_found(table: Seq<(Text, Text)>, i: int)
    requires
        0 <= i < table.len(),
        forall|j: int| 0 <= j < i ==> (#[trigger] table[j]).0 != table[i].0,
    ensures
        name_in(table, table[i].0) == Some(table[i].1),
    decreases table.len(),
{
    if i > 0 {
        assert(table[0].0 != table[i].0);
        let rest = table.skip(1);
        assert(rest[i - 1] == table[i]);
        assert forall|j: int| 0 <= j < i - 1 implies (#[trigger] rest[j]).0 != rest[i - 1].0 by {
            assert(rest[j] == table[j + 1]);
        }
        names_are_found(rest, i - 1);
    }
}

proof fn names_are_missing(table: Seq<(Text, Text)>, object_type: Text)
    requires
        forall|j: int| 0 <= j < table.len() ==> (#[trigger] table[j]).0 != object_type,
    ensures
        name_in(table, object_type) is None,
    decreases table.len(),
{
    if table.len() > 0 {
        assert(table[0].0 != object_type);
        let rest = table.skip(1);
        assert forall|j: int| 0 <= j < rest.len() implies (#[trigger] rest[j]).0 != object_type by {
            assert(rest[j] == table[j + 1]);
        }
        names_are_missing(rest, object_type);
    }
}

/// A kind of object goes by the name under which it can be looked up; one that has none
/// goes by the last part of its type.
pub proof fn tagged_kinds_go_by_their_names(object_type: Text)
    ensures
        kind_name("dcim.device"@) == "device"@,
        kind_name("dcim.site"@) == "site"@,
        kind_name("dcim.rack"@) == "rack"@,
        kind_name("dcim.interface"@) == "interface"@,
        kind_name("dcim.macaddress"@) == "mac"@,
        kind_name("ipam.ipaddress"@) == "ip"@,
        kind_name("ipam.prefix"@) == "prefix"@,
        kind_name("ipam.vlan"@) == "vlan"@,
        kind_name("ipam.aggregate"@) == "aggregate"@,
        kind_name("ipam.asn"@) == "asn"@,
        kind_name("ipam.iprange"@) == "ip-range"@,
        kind_name("ipam.vrf"@) == "vrf"@,
        kind_name("ipam.routetarget"@) == "route-target"@,
        kind_name("tenancy.tenant"@) == "tenant"@,
        kind_name("tenancy.contact"@) == "contact"@,
        kind_name("circuits.circuit"@) == "circuit"@,
        kind_name("circuits.provider"@) == "provider"@,
        kind_name("virtualization.virtualmachine"@) == "vm"@,
        kind_name("virtualization.cluster"@) == "cluster"@,
        (forall|j: int| 0 <= j < known_kinds().len() ==> (#[trigger] known_kinds()[j]).0 != object_type)
            ==> kind_name(object_type) == after_last(object_type, '.'),
{
    reveal_strlit("dcim.device");
    reveal_strlit("dcim.site");
    reveal_strlit("dcim.rack");
    reveal_strlit("dcim.interface");
    reveal_strlit("dcim.macaddress");
    reveal_strlit("ipam.ipaddress");
    reveal_strlit("ipam.prefix");
    reveal_strlit("ipam.vlan");
    reveal_strlit("ipam.aggregate");
    reveal_strlit("ipam.asn");
    reveal_strlit("ipam.iprange");
    reveal_strlit("ipam.vrf");
    reveal_strlit("ipam.routetarget");
    reveal_strlit("tenancy.tenant");
    reveal_strlit("tenancy.contact");
    reveal_strlit("circuits.circuit");
    reveal_strlit("circuits.provider");
    reveal_strlit("virtualization.virtualmachine");
    reveal_strlit("virtualization.cluster");
    let table = known_kinds();
    assert forall|i: int| 0 <= i < table.len() implies name_in(table, (#[trigger] table[i]).0) == Some(
        table[i].1,
    ) by {
        assert forall|j: int| 0 <= j < i implies (#[trigger] table[j]).0 != table[i].0 by {
            kinds_are_distinct(j, i);
        }
        names_are_found(table, i);
    }
    assert(name_in(table, table[0].0) == Some(table[0].1));
    assert(name_in(table, table[1].0) == Some(table[1].1));
    assert(name_in(table, table[2].0) == Some(table[2].1));
    assert(name_in(table, table[3].0) == Some(table[3].1));
    assert(name_in(table, table[4].0) == Some(table[4].1));
    assert(name_in(table, table[5].0) == Some(table[5].1));
    assert(name_in(table, table[6].0) == Some(table[6].1));
    assert(name_in(table, table[7].0) == Some(table[7].1));
    assert(name_in(table, table[8].0) == Some(table[8].1));
    assert(name_in(table, table[9].0) == Some(table[9].1));
    assert(name_in(table, table[10].0) == Some(table[10].1));
    assert(name_in(table, table[11].0) == Some(table[11].1));
    assert(name_in(table, table[12].0) == Some(table[12].1));
    assert(name_in(table, table[13].0) == Some(table[13].1));
    assert(name_in(table, table[14].0) == Some(table[14].1));
    assert(name_in(table, table[15].0) == Some(table[15].1));
    assert(name_in(table, table[16].0) == Some(table[16].1));
    assert(name_in(table, table[17].0) == Some(table[17].1));
    assert(name_in(table, table[18].0) == Some(table[18].1));
    if forall|j: int| 0 <= j < known_kinds().len() ==> (#[trigger] known_kinds()[j]).0 != object_type {
        names_are_missing(table, object_type);
    }
}

proof fn kinds_are_distinct(i: int, j: int)
    requires
        0 <= i < j < known_kinds().len(),
    ensures
        known_kinds()[i].0 != known_kinds()[j].0,
{
    reveal_strlit("dcim.device");
    reveal_strlit("dcim.site");
    reveal_strlit("dcim.rack");
    reveal_strlit("dcim.interface");
    reveal_strlit("dcim.macaddress");
    reveal_strlit("ipam.ipaddress");
    reveal_strlit("ipam.prefix");
    reveal_strlit("ipam.vlan");
    reveal_strlit("ipam.aggregate");
    reveal_strlit("ipam.asn");
    reveal_strlit("ipam.iprange");
    reveal_strlit("ipam.vrf");
    reveal_strlit("ipam.routetarget");
    reveal_strlit("tenancy.tenant");
    reveal_strlit("tenancy.contact");
    reveal_strlit("circuits.circuit");
    reveal_strlit("circuits.provider");
    reveal_strlit("virtualization.virtualmachine");
    reveal_strlit("virtualization.cluster");
    let a = known_kinds()[i].0;
    let b = known_kinds()[j].0;
    assert(a.len() != b.len() || a[5] != b[5] || a[0] != b[0] || a[6] != b[6] || a[7] != b[7]);
}

} // verus!
