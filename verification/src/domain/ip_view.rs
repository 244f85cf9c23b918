//! IP-address view, with the most specific prefix that contains the address.

use vstd::prelude::*;

use crate::domain::custom::{append, field_rows, fields, shown_fields};
use crate::domain::util::{keep_text, kept_text};
use crate::json::{get_str, get_str_either, string_at, string_at_either, Json, Member};
use crate::netbox::models::{
    label_of,
    labels,
    labels_of,
    opt_label,
    opt_value,
    slugs,
    slugs_of,
    value_of,
    IpAddress,
    Prefix,
};
use crate::netbox::query::{opt_scope_name, scope_name_of};
use crate::output::{list_row, no_rows, opt_row, row, KeyValues, Row};
use crate::text::{cat3, opt_text, texts, Text};

verus! {

/// An IP address with the context of its parent prefix.
#[derive(Debug)]
pub struct IpView {
    pub address: String,
    pub status: Option<String>,
    pub dns_name: Option<String>,
    pub vrf: Option<String>,
    pub tenant: Option<String>,
    pub assigned: Option<String>,
    pub parent_prefix: Option<String>,
    pub vlan: Option<String>,
    pub scope: Option<String>,
    pub scope_type: Option<String>,
    pub nat_inside: Option<String>,
    pub nat_outside: Vec<String>,
    pub tags: Vec<String>,
    pub custom_fields: Vec<Member>,
}

// ===== What an address is assigned to ====================================

/// The string under `display`, else the one under `name`.
pub open spec fn shown_name(v: Json) -> Option<Text> {
    if string_at(v, "display"@) is Some {
        string_at(v, "display"@)
    } else {
        string_at(v, "name"@)
    }
}

/// The name of the object under a key.
pub open spec fn parent_name(v: Json, key: Text) -> Option<Text> {
    match v.at(key) {
        Some(d) => string_at_either(d, "display"@, "name"@),
        None => None,
    }
}

/// A name behind the name of its parent, when there is one.
pub open spec fn behind(parent: Option<Text>, name: Text) -> Text {
    match parent {
        Some(p) => p + " "@ + name,
        None => name,
    }
}

/// The interface an address is assigned to, behind its device.
pub open spec fn assigned_text(v: Json) -> Option<Text> {
    match shown_name(v) {
        Some(name) => Some(behind(parent_name(v, "device"@), name)),
        None => None,
    }
}

/// What an optional assignment reads.
pub open spec fn opt_assigned(o: Option<Json>) -> Option<Text> {
    match o {
        Some(v) => assigned_text(v),
        None => None,
    }
}

/// Reads the string under `display`, else the one under `name`.
pub fn name_of(v: &Json) -> (r: Option<&str>)
    ensures
        crate::text::opt_str(r) == shown_name(*v),
{
    match get_str(v, "display") {
        Some(s) => Some(s),
        None => get_str(v, "name"),
    }
}

/// Reads the name of the object under a key.
pub fn parent_of<'a>(v: &'a Json, key: &str) -> (r: Option<&'a str>)
    ensures
        crate::text::opt_str(r) == parent_name(*v, key@),
{
    match v.get(key) {
        Some(d) => get_str_either(d, "display", "name"),
        None => None,
    }
}

/// Puts a name behind the name of its parent.
pub fn put_behind(parent: Option<&str>, name: &str) -> (r: String)
    ensures
        r@ == behind(crate::text::opt_str(parent), name@),
{
    match parent {
        Some(p) => cat3(p, " ", name),
        None => name.to_owned(),
    }
}

/// The interface an address is assigned to, behind its device.
pub fn assigned_label(v: &Json) -> (r: Option<String>)
    ensures
        opt_text(r) == assigned_text(*v),
{
    match name_of(v) {
        Some(name) => Some(put_behind(parent_of(v, "device"), name)),
        None => None,
    }
}

/// What an optional assignment reads.
pub fn assigned_of(o: &Option<Json>) -> (r: Option<String>)
    ensures
        opt_text(r) == opt_assigned(*o),
{
    match o {
        Some(v) => assigned_label(v),
        None => None,
    }
}

// ===== The most specific prefix ==========================================

/// The prefix length of the network that a text spells, as `ipnet` reads it;
/// `None` when it spells none.
pub uninterp spec fn network_len(cidr: Seq<char>) -> Option<u8>;

/// `ipnet`: reads an `IpNet` with `from_str` and takes its `prefix_len`. The
/// result depends on the text alone.
#[verifier::external_body]
fn parse_network_len(cidr: &str) -> (r: Option<u8>)
    ensures
        r == network_len(cidr@),
{
    cidr.parse::<ipnet::IpNet>().ok().map(|net| net.prefix_len())
}

/// Whether position `i` holds the greatest length, and is the last to hold it.
pub open spec fn is_longest(lens: Seq<Option<u8>>, i: int) -> bool {
    &&& 0 <= i < lens.len()
    &&& lens[i] is Some
    &&& forall|j: int| 0 <= j < lens.len() && (#[trigger] lens[j]) is Some ==> lens[j]->0 <= lens[i]->0
    &&& forall|j: int| i < j < lens.len() && (#[trigger] lens[j]) is Some ==> lens[j]->0 < lens[i]->0
}

/// The last position with the greatest length; `None` when no position has one.
pub fn longest(lens: &Vec<Option<u8>>) -> (r: Option<usize>)
    ensures
        match r {
            Some(i) => is_longest(lens@, i as int),
            None => forall|j: int| 0 <= j < lens@.len() ==> (#[trigger] lens@[j]) is None,
        },
{
    let mut best: Option<usize> = None;
    let mut i: usize = 0;
    while i < lens.len()
        invariant
            i <= lens.len(),
            match best {
                Some(b) => is_longest(lens@.take(i as int), b as int),
                None => forall|j: int| 0 <= j < i ==> (#[trigger] lens@[j]) is None,
            },
        decreases lens.len() - i,
    {
        let ghost taken = lens@.take(i as int + 1);
        let ghost before = lens@.take(i as int);
        if let Some(n) = lens[i] {
            let take = match best {
                Some(b) => {
                    proof {
                        assert(before[b as int] == lens@[b as int]);
                    }
                    match lens[b] {
                        Some(m) => m <= n,
                        None => true,
                    }
                },
                None => true,
            };
            proof {
                assert(taken[i as int] == lens@[i as int]);
                assert forall|j: int| 0 <= j < i && (#[trigger] taken[j]) is Some implies best is Some
                    && taken[j]->0 <= lens@[best->0 as int]->0 by {
                    assert(taken[j] == before[j]);
                    assert(taken[j] == lens@[j]);
                }
            }
            if take {
                best = Some(i);
                proof {
                    assert(is_longest(taken, i as int));
                }
            } else {
                proof {
                    let b = best->0 as int;
                    assert(taken[b] == before[b]);
                    assert forall|j: int| b < j < taken.len() && (#[trigger] taken[j]) is Some implies taken[j]->0
                        < taken[b]->0 by {
                        if j < i {
                            assert(taken[j] == before[j]);
                        }
                    }
                    assert(is_longest(taken, b));
                }
            }
        } else {
            proof {
                if best is Some {
                    let b = best->0 as int;
                    assert(taken[b] == before[b]);
                    assert forall|j: int| 0 <= j < taken.len() && (#[trigger] taken[j]) is Some implies taken[j]
                        == before[j] by {}
                    assert(is_longest(taken, b));
                }
            }
        }
        i = i + 1;
    }
    proof {
        assert(lens@.take(i as int) =~= lens@);
    }
    best
}

/// The network lengths of a list of prefixes.
pub open spec fn network_lens(prefixes: Seq<Prefix>) -> Seq<Option<u8>> {
    Seq::new(prefixes.len(), |i: int| network_len(prefixes[i].prefix@))
}

/// Whether a prefix is the most specific of a list: the one of greatest length
/// among those that spell a network, the last of several.
pub open spec fn is_most_specific(r: Option<Prefix>, prefixes: Seq<Prefix>) -> bool {
    match r {
        Some(p) => exists|i: int| #[trigger]
            is_longest(network_lens(prefixes), i) && prefixes[i] == p,
        None => forall|j: int|
            0 <= j < prefixes.len() ==> network_len((#[trigger] prefixes[j]).prefix@) is None,
    }
}

/// The most specific prefix of a list.
pub fn most_specific(prefixes: Vec<Prefix>) -> (r: Option<Prefix>)
    ensures
        is_most_specific(r, prefixes@),
{
    let mut lens: Vec<Option<u8>> = Vec::new();
    let mut i: usize = 0;
    while i < prefixes.len()
        invariant
            i <= prefixes.len(),
            lens@ == network_lens(prefixes@).take(i as int),
        decreases prefixes.len() - i,
    {
        lens.push(parse_network_len(prefixes[i].prefix.as_str()));
        proof {
            assert(network_lens(prefixes@).take(i as int + 1) =~= network_lens(prefixes@).take(
                i as int,
            ).push(network_len(prefixes@[i as int].prefix@)));
        }
        i = i + 1;
    }
    proof {
        assert(network_lens(prefixes@).take(i as int) =~= network_lens(prefixes@));
    }
    match longest(&lens) {
        Some(at) => {
            let mut rest = prefixes;
            let p = rest.swap_remove(at);
            proof {
                assert(is_longest(network_lens(prefixes@), at as int) && prefixes@[at as int] == p);
            }
            Some(p)
        },
        None => {
            proof {
                assert forall|j: int| 0 <= j < prefixes@.len() implies network_len(
                    (#[trigger] prefixes@[j]).prefix@,
                ) is None by {
                    assert(lens@[j] is None);
                }
            }
            None
        },
    }
}

// ===== The view ==========================================================

/// The text of the parent prefix.
pub open spec fn parent_text(parent: Option<Prefix>) -> Option<Text> {
    match parent {
        Some(p) => Some(p.prefix@),
        None => None,
    }
}

/// The VLAN of the parent prefix.
pub open spec fn parent_vlan(parent: Option<Prefix>) -> Option<Text> {
    match parent {
        Some(p) => opt_label(p.vlan),
        None => None,
    }
}

/// The scope of the parent prefix.
pub open spec fn parent_scope(parent: Option<Prefix>) -> Option<Text> {
    match parent {
        Some(p) => opt_label(p.scope),
        None => None,
    }
}

/// The kind of scope of the parent prefix.
pub open spec fn parent_scope_type(parent: Option<Prefix>) -> Option<Text> {
    match parent {
        Some(p) => opt_scope_name(p.scope_type),
        None => None,
    }
}

impl IpView {
    /// Flattens an address, with the context of its parent prefix.
    pub fn build(ip: IpAddress, parent: Option<Prefix>) -> (r: Self)
        ensures
            r.address == ip.address,
            opt_text(r.status) == opt_value(ip.status),
            opt_text(r.dns_name) == kept_text(ip.dns_name),
            opt_text(r.vrf) == opt_label(ip.vrf),
            opt_text(r.tenant) == opt_label(ip.tenant),
            opt_text(r.assigned) == opt_assigned(ip.assigned_object),
            opt_text(r.parent_prefix) == parent_text(parent),
            opt_text(r.vlan) == parent_vlan(parent),
            opt_text(r.scope) == parent_scope(parent),
            opt_text(r.scope_type) == parent_scope_type(parent),
            opt_text(r.nat_inside) == opt_label(ip.nat_inside),
            texts(r.nat_outside@) == labels(ip.nat_outside@),
            texts(r.tags@) == slugs(ip.tags@),
            r.custom_fields@ == shown_fields(ip.custom_fields),
            r.rows() == Self::rows_of(ip, parent),
    {
        proof {
            reveal(IpView::rows);
            reveal(IpView::rows_of);
        }
        let (parent_prefix, vlan, scope, scope_type) = match parent {
            Some(p) => {
                let vlan = label_of(&p.vlan);
                let scope = label_of(&p.scope);
                let scope_type = scope_name_of(&p.scope_type);
                (Some(p.prefix), vlan, scope, scope_type)
            },
            None => (None, None, None, None),
        };
        IpView {
            address: ip.address,
            status: value_of(&ip.status),
            dns_name: keep_text(ip.dns_name),
            vrf: label_of(&ip.vrf),
            tenant: label_of(&ip.tenant),
            assigned: assigned_of(&ip.assigned_object),
            parent_prefix,
            vlan,
            scope,
            scope_type,
            nat_inside: label_of(&ip.nat_inside),
            nat_outside: labels_of(&ip.nat_outside),
            tags: slugs_of(&ip.tags),
            custom_fields: fields(ip.custom_fields),
        }
    }

    /// The rows shown, in order.
    #[verifier::opaque]
    pub open spec fn rows(self) -> Seq<Row> {
        no_rows()
            + row("address"@, self.address@)
            + opt_row("status"@, opt_text(self.status))
            + opt_row("dns"@, opt_text(self.dns_name))
            + opt_row("vrf"@, opt_text(self.vrf))
            + opt_row("tenant"@, opt_text(self.tenant))
            + opt_row("assigned"@, opt_text(self.assigned))
            + opt_row("parent_prefix"@, opt_text(self.parent_prefix))
            + opt_row("vlan"@, opt_text(self.vlan))
            + opt_row("scope"@, opt_text(self.scope))
            + opt_row("scope_type"@, opt_text(self.scope_type))
            + opt_row("nat_inside"@, opt_text(self.nat_inside))
            + list_row("nat_outside"@, texts(self.nat_outside@))
            + list_row("tags"@, texts(self.tags@))
            + field_rows(self.custom_fields@)
    }

    /// The rows shown of an address and its parent prefix.
    #[verifier::opaque]
    pub open spec fn rows_of(ip: IpAddress, parent: Option<Prefix>) -> Seq<Row> {
        no_rows()
            + row("address"@, ip.address@)
            + opt_row("status"@, opt_value(ip.status))
            + opt_row("dns"@, kept_text(ip.dns_name))
            + opt_row("vrf"@, opt_label(ip.vrf))
            + opt_row("tenant"@, opt_label(ip.tenant))
            + opt_row("assigned"@, opt_assigned(ip.assigned_object))
            + opt_row("parent_prefix"@, parent_text(parent))
            + opt_row("vlan"@, parent_vlan(parent))
            + opt_row("scope"@, parent_scope(parent))
            + opt_row("scope_type"@, parent_scope_type(parent))
            + opt_row("nat_inside"@, opt_label(ip.nat_inside))
            + list_row("nat_outside"@, labels(ip.nat_outside@))
            + list_row("tags"@, slugs(ip.tags@))
            + field_rows(shown_fields(ip.custom_fields))
    }

    /// Renders the view as rows.
    pub fn to_key_values(&self) -> (r: KeyValues)
        ensures
            r@ == self.rows(),
    {
        proof {
            reveal(IpView::rows);
        }
        let mut kv = KeyValues::new();
        kv.push("address", self.address.as_str());
        kv.push_opt("status", &self.status);
        kv.push_opt("dns", &self.dns_name);
        kv.push_opt("vrf", &self.vrf);
        kv.push_opt("tenant", &self.tenant);
        kv.push_opt("assigned", &self.assigned);
        kv.push_opt("parent_prefix", &self.parent_prefix);
        kv.push_opt("vlan", &self.vlan);
        kv.push_opt("scope", &self.scope);
        kv.push_opt("scope_type", &self.scope_type);
        kv.push_opt("nat_inside", &self.nat_inside);
        kv.push_list("nat_outside", &self.nat_outside);
        kv.push_list("tags", &self.tags);
        append(&mut kv, &self.custom_fields);
        kv
    }
}

/// The rows of an address: each field that is set is shown under its own key and with
/// its own value, and nothing else is shown.
pub proof fn ip_rows_show_the_fields(ip: IpAddress, parent: Option<Prefix>, k: Text, v: Text)
    ensures
        IpView::rows_of(ip, parent).contains((k, v)) <==> {
            ||| (k == "address"@ && v == ip.address@)
            ||| (ip.status is Some && k == "status"@ && v == ip.status->0.value@)
            ||| (ip.dns_name is Some && ip.dns_name->0@.len() > 0 && k == "dns"@
                && v == ip.dns_name->0@)
            ||| (ip.vrf is Some && k == "vrf"@ && v == ip.vrf->0.label_text())
            ||| (ip.tenant is Some && k == "tenant"@ && v == ip.tenant->0.label_text())
            ||| (opt_assigned(ip.assigned_object) is Some && k == "assigned"@
                && v == opt_assigned(ip.assigned_object)->0)
            ||| (parent_text(parent) is Some && k == "parent_prefix"@
                && v == parent_text(parent)->0)
            ||| (parent_vlan(parent) is Some && k == "vlan"@ && v == parent_vlan(parent)->0)
            ||| (parent_scope(parent) is Some && k == "scope"@ && v == parent_scope(parent)->0)
            ||| (parent_scope_type(parent) is Some && k == "scope_type"@
                && v == parent_scope_type(parent)->0)
            ||| (ip.nat_inside is Some && k == "nat_inside"@ && v == ip.nat_inside->0.label_text())
            ||| (labels(ip.nat_outside@).len() > 0 && k == "nat_outside"@
                && v == crate::text::joined(labels(ip.nat_outside@), ", "@))
            ||| (slugs(ip.tags@).len() > 0 && k == "tags"@
                && v == crate::text::joined(slugs(ip.tags@), ", "@))
            ||| {
                &&& ip.custom_fields is Object
                &&& exists|m: crate::json::Member|
                    {
                        &&& #[trigger] ip.custom_fields->members@.contains(m)
                        &&& !(m.value is Null)
                        &&& !(m.value is Text && m.value->Text_0@.len() == 0)
                        &&& k == "cf."@ + m.name@
                        &&& v == crate::domain::custom::shown_value(m.value)
                    }
            }
        },
{
    reveal(IpView::rows_of);
    crate::output::rows_are_found_where_they_were_put();
    crate::domain::custom::custom_fields_have_rows(ip.custom_fields, k, v);
}

/// What an address is assigned to goes by its display text, else by its name; its device
/// stands in front when that has a name.
pub proof fn assignments_name_the_holder(v: Json)
    ensures
        ({
            let display = string_at(v, "display"@);
            let name = string_at(v, "name"@);
            &&& display is None && name is None ==> opt_assigned(Some(v)) is None
            &&& display is Some || name is Some ==> opt_assigned(Some(v)) is Some
            &&& display is Some && v.at("device"@) is None ==> opt_assigned(Some(v)) == display
            &&& display is None && name is Some && v.at("device"@) is None ==> opt_assigned(Some(v))
                == name
            &&& display is Some && v.at("device"@) is Some && string_at(
                v.at("device"@)->0,
                "display"@,
            ) is Some ==> opt_assigned(Some(v)) == Some(
                string_at(v.at("device"@)->0, "display"@)->0 + " "@ + display->0,
            )
            &&& display is None && name is Some && v.at("device"@) is Some && string_at(
                v.at("device"@)->0,
                "display"@,
            ) is Some ==> opt_assigned(Some(v)) == Some(
                string_at(v.at("device"@)->0, "display"@)->0 + " "@ + name->0,
            )
            &&& display is Some && v.at("device"@) is Some && v.at("device"@)->0.at(
                "display"@,
            ) is None && string_at(v.at("device"@)->0, "name"@) is Some ==> opt_assigned(Some(v))
                == Some(string_at(v.at("device"@)->0, "name"@)->0 + " "@ + display->0)
            &&& display is Some && v.at("device"@) is Some && v.at("device"@)->0.at(
                "display"@,
            ) is None && string_at(v.at("device"@)->0, "name"@) is None ==> opt_assigned(Some(v))
                == display
        }),
        opt_assigned(None) is None,
{
}

/// The prefix an address lies in is the longest of those that contain it, and of equals
/// the last; there is none only where none can be read.
pub proof fn the_longest_prefix_is_taken(r: Option<Prefix>, prefixes: Seq<Prefix>, j: int)
    requires
        is_most_specific(r, prefixes),
        0 <= j < prefixes.len(),
        network_len(prefixes[j].prefix@) is Some,
    ensures
        r is Some,
        prefixes.contains(r->0),
        network_len(r->0.prefix@) is Some,
        network_len(prefixes[j].prefix@)->0 <= network_len(r->0.prefix@)->0,
        (forall|k: int|
            0 <= k < prefixes.len() && k != j && network_len(
                (#[trigger] prefixes[k]).prefix@,
            ) is Some ==> network_len(prefixes[k].prefix@)->0 < network_len(
                prefixes[j].prefix@,
            )->0) ==> r == Some(prefixes[j]),
        (j == prefixes.len() - 1 && forall|k: int|
            0 <= k < prefixes.len() && network_len((#[trigger] prefixes[k]).prefix@) is Some
                ==> network_len(prefixes[k].prefix@)->0 <= network_len(prefixes[j].prefix@)->0)
            ==> r == Some(prefixes[j]),
{
    let lens = network_lens(prefixes);
    assert(lens[j] == network_len(prefixes[j].prefix@));
    let i = choose|i: int| #[trigger] is_longest(network_lens(prefixes), i) && prefixes[i] == r->0;
    assert(lens[i] == network_len(prefixes[i].prefix@));
}

/// What an address takes from the prefix it lies in is that prefix's text, its VLAN, and
/// its scope with its kind; without a prefix there is none of it.
pub proof fn parents_lend_their_fields(p: Prefix)
    ensures
        parent_text(Some(p)) == Some(p.prefix@),
        parent_vlan(Some(p)) is Some <==> p.vlan is Some,
        p.vlan is Some ==> parent_vlan(Some(p)) == Some(p.vlan->0.label_text()),
        parent_scope(Some(p)) is Some <==> p.scope is Some,
        p.scope is Some ==> parent_scope(Some(p)) == Some(p.scope->0.label_text()),
        parent_scope_type(Some(p)) == opt_scope_name(p.scope_type),
        parent_text(None) is None && parent_vlan(None) is None && parent_scope(None) is None
            && parent_scope_type(None) is None,
{
}

} // verus!
