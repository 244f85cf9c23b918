//! Labels that tell candidates of a lookup apart.

use vstd::prelude::*;

use crate::netbox::models::{BriefObject, IpAddress, Prefix, Vlan};
use crate::number::{decimal, decimal_text};
use crate::split::{after_last, tail_after};
use crate::text::{cat4, cat5, opt_text, same, Text};

verus! {

/// A scope's content type as a short name: `dcim.sitegroup` reads `site-group`,
/// any other type its last segment.
pub open spec fn scope_name(content_type: Text) -> Text {
    if content_type == "dcim.sitegroup"@ {
        "site-group"@
    } else {
        after_last(content_type, '.')
    }
}

/// The short name of a scope's content type.
pub fn friendly_scope_type(content_type: &str) -> (r: String)
    ensures
        r@ == scope_name(content_type@),
{
    if same(content_type, "dcim.sitegroup") {
        "site-group".to_owned()
    } else {
        tail_after(content_type, '.')
    }
}

/// The short name of an optional content type.
pub open spec fn opt_scope_name(content_type: Option<String>) -> Option<Text> {
    match content_type {
        Some(t) => Some(scope_name(t@)),
        None => None,
    }
}

/// Shortens an optional content type.
pub fn scope_name_of(content_type: &Option<String>) -> (r: Option<String>)
    ensures
        opt_text(r) == opt_scope_name(*content_type),
{
    match content_type {
        Some(t) => Some(friendly_scope_type(t.as_str())),
        None => None,
    }
}

/// The VRF a candidate lives in.
pub open spec fn table_name(vrf: Option<BriefObject>) -> Text {
    match vrf {
        Some(b) => b.label_text(),
        None => "global"@,
    }
}

fn table_of(vrf: &Option<BriefObject>) -> (r: String)
    ensures
        r@ == table_name(*vrf),
{
    match vrf {
        Some(b) => b.label(),
        None => "global".to_owned(),
    }
}

/// An address with the VRF it lives in.
pub open spec fn address_in_table(ip: IpAddress) -> Text {
    ip.address@ + " ("@ + table_name(ip.vrf) + ")"@
}

/// Labels an address with the VRF it lives in.
pub fn ip_scope_label(ip: &IpAddress) -> (r: String)
    ensures
        r@ == address_in_table(*ip),
{
    let table = table_of(&ip.vrf);
    cat4(ip.address.as_str(), " (", table.as_str(), ")")
}

/// A prefix with the VRF it lives in.
pub open spec fn prefix_in_table(p: Prefix) -> Text {
    p.prefix@ + " ("@ + table_name(p.vrf) + ")"@
}

/// Labels a prefix with the VRF it lives in.
pub fn prefix_scope_label(p: &Prefix) -> (r: String)
    ensures
        r@ == prefix_in_table(*p),
{
    let table = table_of(&p.vrf);
    cat4(p.prefix.as_str(), " (", table.as_str(), ")")
}

/// Where a VLAN lives: its site, else its group.
pub open spec fn vlan_place(v: Vlan) -> Text {
    match v.site {
        Some(b) => b.label_text(),
        None => match v.group {
            Some(b) => b.label_text(),
            None => "global"@,
        },
    }
}

/// A VLAN with its number and the place it lives in.
pub open spec fn vlan_in_place(v: Vlan) -> Text {
    decimal_text(v.vid as nat) + " "@ + v.name@ + " ("@ + vlan_place(v) + ")"@
}

/// Labels a VLAN with its number and the place it lives in.
pub fn vlan_scope_label(v: &Vlan) -> (r: String)
    ensures
        r@ == vlan_in_place(*v),
{
    let place = match &v.site {
        Some(b) => b.label(),
        None => table_of(&v.group),
    };
    let vid = decimal(v.vid as u64);
    let mut s = cat5(vid.as_str(), " ", v.name.as_str(), " (", place.as_str());
    vstd::string::StringExecFns::append(&mut s, ")");
    s
}

// ===== Laws ==============================================================

/// A candidate is told apart by what it is and where it lives: an address and a prefix
/// by their VRF, a VLAN by its number, its name and its site, or its group when it has
/// no site; `global` is what lives nowhere in particular.
pub proof fn candidates_are_told_apart(ip: IpAddress, p: Prefix, v: Vlan)
    ensures
        ip.vrf is Some ==> address_in_table(ip) == ip.address@ + " ("@ + ip.vrf->0.label_text()
            + ")"@,
        ip.vrf is None ==> address_in_table(ip) == ip.address@ + " ("@ + "global"@ + ")"@,
        p.vrf is Some ==> prefix_in_table(p) == p.prefix@ + " ("@ + p.vrf->0.label_text() + ")"@,
        p.vrf is None ==> prefix_in_table(p) == p.prefix@ + " ("@ + "global"@ + ")"@,
        v.site is Some ==> vlan_in_place(v) == decimal_text(v.vid as nat) + " "@ + v.name@ + " ("@
            + v.site->0.label_text() + ")"@,
        v.site is None && v.group is Some ==> vlan_in_place(v) == decimal_text(v.vid as nat) + " "@
            + v.name@ + " ("@ + v.group->0.label_text() + ")"@,
        v.site is None && v.group is None ==> vlan_in_place(v) == decimal_text(v.vid as nat) + " "@
            + v.name@ + " ("@ + "global"@ + ")"@,
{
}

/// The short name of a content type is what is behind its last dot, but for the site
/// groups, which read with a hyphen.
pub proof fn content_types_are_shortened(app: Text, model: Text)
    requires
        !model.contains('.'),
    ensures
        scope_name("dcim.sitegroup"@) == "site-group"@,
        app + "."@ + model != "dcim.sitegroup"@ ==> scope_name(app + "."@ + model) == model,
        model != "dcim.sitegroup"@ ==> scope_name(model) == model,
{
    reveal_strlit(".");
    let whole = app + "."@ + model;
    crate::split::tails_are_behind_the_last(whole, '.');
    crate::split::tails_are_behind_the_last(model, '.');
    let n = crate::split::after_last_index(whole, '.') as int;
    let tail = after_last(whole, '.');
    let at = app.len() as int;
    assert(whole[at] == '.');
    if n <= at {
        assert(tail[at - n] == '.');
        assert(tail.contains('.'));
    }
    if n > at + 1 {
        assert(whole[n - 1] == model[n - 1 - at - 1]);
        assert(model.contains('.'));
    }
    assert(whole.skip(at + 1) =~= model);
    let m = crate::split::after_last_index(model, '.') as int;
    if m > 0 {
        assert(model[m - 1] == '.');
        assert(model.contains('.'));
    }
    assert(model.skip(0) =~= model);
}

} // verus!
