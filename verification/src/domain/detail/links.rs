//! Links from an object to related ones. Only relations whose target has a
//! detail screen are linked.

use vstd::prelude::*;

use crate::domain::circuit_view::{side_name, PathHop, ResolvedTermination};
use crate::domain::detail::view::{links_of, Link, ObjectLink};
use crate::netbox::models::{
    opt_is,
    BriefObject,
    Circuit,
    Device,
    Interface,
    IpAddress,
    Prefix,
    Rack,
    RouteTarget,
    Site,
    Vlan,
    Vrf,
};
use crate::netbox::search::ObjectKind;
use crate::text::{cat2, opt_text, Text};

verus! {

/// The link to an optional related object.
pub open spec fn link_to(relation: Text, kind: ObjectKind, obj: Option<BriefObject>) -> Seq<Link> {
    match obj {
        Some(o) => seq![Link { kind, id: o.id, relation, label: o.label_text() }],
        None => Seq::empty(),
    }
}

/// Adds a link.
pub fn add_link(links: &mut Vec<ObjectLink>, link: ObjectLink)
    ensures
        links_of(final(links)@) == links_of(old(links)@).push(link@),
{
    let ghost before = links_of(links@);
    links.push(link);
    proof {
        assert(links_of(links@) =~= before.push(link@));
    }
}

/// No links.
pub fn no_links() -> (r: Vec<ObjectLink>)
    ensures
        links_of(r@) == Seq::<Link>::empty(),
{
    let r: Vec<ObjectLink> = Vec::new();
    proof {
        assert(links_of(r@) =~= Seq::empty());
    }
    r
}

/// Adds the link to an optional related object.
pub fn push_link(
    links: &mut Vec<ObjectLink>,
    relation: &str,
    kind: ObjectKind,
    obj: &Option<BriefObject>,
)
    ensures
        links_of(final(links)@) == links_of(old(links)@) + link_to(relation@, kind, *obj),
{
    let ghost before = links_of(links@);
    if let Some(o) = obj {
        links.push(ObjectLink { kind, id: o.id, relation: relation.to_owned(), label: o.label() });
    }
    proof {
        assert(links_of(links@) =~= before + link_to(relation@, kind, *obj));
    }
}

/// The links of a device.
pub open spec fn device_link_list(d: Device) -> Seq<Link> {
    Seq::<Link>::empty()
        + link_to("site"@, ObjectKind::Site, d.site)
        + link_to("rack"@, ObjectKind::Rack, d.rack)
        + link_to("tenant"@, ObjectKind::Tenant, d.tenant)
        + link_to("primary IPv4"@, ObjectKind::IpAddress, d.primary_ip4)
        + link_to("primary IPv6"@, ObjectKind::IpAddress, d.primary_ip6)
}

/// The links of a device.
pub fn device_links(d: &Device) -> (r: Vec<ObjectLink>)
    ensures
        links_of(r@) == device_link_list(*d),
{
    let mut l = no_links();
    push_link(&mut l, "site", ObjectKind::Site, &d.site);
    push_link(&mut l, "rack", ObjectKind::Rack, &d.rack);
    push_link(&mut l, "tenant", ObjectKind::Tenant, &d.tenant);
    push_link(&mut l, "primary IPv4", ObjectKind::IpAddress, &d.primary_ip4);
    push_link(&mut l, "primary IPv6", ObjectKind::IpAddress, &d.primary_ip6);
    l
}

/// The link to a tenant alone.
pub open spec fn tenant_link_list(tenant: Option<BriefObject>) -> Seq<Link> {
    Seq::<Link>::empty() + link_to("tenant"@, ObjectKind::Tenant, tenant)
}

fn tenant_links(tenant: &Option<BriefObject>) -> (r: Vec<ObjectLink>)
    ensures
        links_of(r@) == tenant_link_list(*tenant),
{
    let mut l = no_links();
    push_link(&mut l, "tenant", ObjectKind::Tenant, tenant);
    l
}

/// The links of a site.
pub fn site_links(s: &Site) -> (r: Vec<ObjectLink>)
    ensures
        links_of(r@) == tenant_link_list(s.tenant),
{
    tenant_links(&s.tenant)
}

/// The links of a VRF.
pub fn vrf_links(v: &Vrf) -> (r: Vec<ObjectLink>)
    ensures
        links_of(r@) == tenant_link_list(v.tenant),
{
    tenant_links(&v.tenant)
}

/// The links of a route target.
pub fn route_target_links(t: &RouteTarget) -> (r: Vec<ObjectLink>)
    ensures
        links_of(r@) == tenant_link_list(t.tenant),
{
    tenant_links(&t.tenant)
}

/// The links to a site and a tenant.
pub open spec fn site_tenant_link_list(
    site: Option<BriefObject>,
    tenant: Option<BriefObject>,
) -> Seq<Link> {
    Seq::<Link>::empty() + link_to("site"@, ObjectKind::Site, site) + link_to(
        "tenant"@,
        ObjectKind::Tenant,
        tenant,
    )
}

fn site_tenant_links(site: &Option<BriefObject>, tenant: &Option<BriefObject>) -> (r: Vec<
    ObjectLink,
>)
    ensures
        links_of(r@) == site_tenant_link_list(*site, *tenant),
{
    let mut l = no_links();
    push_link(&mut l, "site", ObjectKind::Site, site);
    push_link(&mut l, "tenant", ObjectKind::Tenant, tenant);
    l
}

/// The links of a rack.
pub fn rack_links(k: &Rack) -> (r: Vec<ObjectLink>)
    ensures
        links_of(r@) == site_tenant_link_list(k.site, k.tenant),
{
    site_tenant_links(&k.site, &k.tenant)
}

/// The links of a VLAN.
pub fn vlan_links(v: &Vlan) -> (r: Vec<ObjectLink>)
    ensures
        links_of(r@) == site_tenant_link_list(v.site, v.tenant),
{
    site_tenant_links(&v.site, &v.tenant)
}

/// The links of a prefix. Its scope is linked only when that is a site.
pub open spec fn prefix_link_list(p: Prefix) -> Seq<Link> {
    Seq::<Link>::empty() + if opt_text(p.scope_type) == Some("dcim.site"@) {
        link_to("site"@, ObjectKind::Site, p.scope)
    } else {
        Seq::empty()
    } + link_to("vlan"@, ObjectKind::Vlan, p.vlan) + link_to(
        "tenant"@,
        ObjectKind::Tenant,
        p.tenant,
    )
}

/// The links of a prefix.
pub fn prefix_links(p: &Prefix) -> (r: Vec<ObjectLink>)
    ensures
        links_of(r@) == prefix_link_list(*p),
{
    let mut l = no_links();
    if opt_is(&p.scope_type, "dcim.site") {
        push_link(&mut l, "site", ObjectKind::Site, &p.scope);
    } else {
        proof {
            assert(links_of(l@) =~= links_of(l@) + Seq::empty());
        }
    }
    push_link(&mut l, "vlan", ObjectKind::Vlan, &p.vlan);
    push_link(&mut l, "tenant", ObjectKind::Tenant, &p.tenant);
    l
}

/// The links of an address: its parent prefix and its tenant.
pub open spec fn ip_link_list(ip: IpAddress, parent: Option<Prefix>) -> Seq<Link> {
    Seq::<Link>::empty() + match parent {
        Some(p) => seq![
            Link {
                kind: ObjectKind::Prefix,
                id: p.id,
                relation: "parent prefix"@,
                label: p.prefix@,
            },
        ],
        None => Seq::empty(),
    } + link_to("tenant"@, ObjectKind::Tenant, ip.tenant)
}

/// The links of an address.
pub fn ip_links(ip: &IpAddress, parent: Option<&Prefix>) -> (r: Vec<ObjectLink>)
    ensures
        links_of(r@) == ip_link_list(
            *ip,
            match parent {
                Some(p) => Some(*p),
                None => None,
            },
        ),
{
    let mut l = no_links();
    if let Some(p) = parent {
        add_link(
            &mut l,
            ObjectLink {
                kind: ObjectKind::Prefix,
                id: p.id,
                relation: "parent prefix".to_owned(),
                label: p.prefix.clone(),
            },
        );
        proof {
            assert(links_of(l@) =~= Seq::<Link>::empty() + seq![
                Link {
                    kind: ObjectKind::Prefix,
                    id: p.id,
                    relation: "parent prefix"@,
                    label: p.prefix@,
                },
            ]);
        }
    } else {
        proof {
            assert(links_of(l@) =~= Seq::<Link>::empty() + Seq::<Link>::empty());
        }
    }
    push_link(&mut l, "tenant", ObjectKind::Tenant, &ip.tenant);
    l
}

/// The link from an interface to its device.
pub fn interface_links(i: &Interface) -> (r: Vec<ObjectLink>)
    ensures
        links_of(r@) == Seq::<Link>::empty() + link_to("device"@, ObjectKind::Device, i.device),
{
    let mut l = no_links();
    push_link(&mut l, "device", ObjectKind::Device, &i.device);
    l
}

// ===== Circuits ==========================================================

/// Whether a device is linked already.
pub open spec fn links_device(links: Seq<Link>, id: u64) -> bool {
    exists|i: int|
        0 <= i < links.len() && (#[trigger] links[i]).kind == ObjectKind::Device && links[i].id
            == id
}

/// Links with the device of a hop added, unless it is linked already.
pub open spec fn with_hop(links: Seq<Link>, side: Text, hop: PathHop) -> Seq<Link> {
    match hop.device {
        Some(d) => if links_device(links, d.id) {
            links
        } else {
            links.push(
                Link {
                    kind: ObjectKind::Device,
                    id: d.id,
                    relation: side + "-side device"@,
                    label: d.name@,
                },
            )
        },
        None => links,
    }
}

/// Links, with one to each device on a path that is not linked yet.
pub open spec fn with_path(links: Seq<Link>, side: Text, path: Seq<PathHop>) -> Seq<Link>
    decreases path.len(),
{
    if path.len() == 0 {
        links
    } else {
        with_hop(with_path(links, side, path.drop_last()), side, path.last())
    }
}

/// The link to the site a termination lands on; none when it lands on anything
/// else.
pub open spec fn side_site(rt: ResolvedTermination) -> Seq<Link> {
    if opt_text(rt.termination.termination_type) == Some("dcim.site"@) {
        link_to(
            side_name(rt.termination) + "-side site"@,
            ObjectKind::Site,
            rt.termination.termination,
        )
    } else {
        Seq::empty()
    }
}

/// Links with those of the terminations added, side by side.
pub open spec fn with_terminations(
    links: Seq<Link>,
    terminations: Seq<ResolvedTermination>,
) -> Seq<Link>
    decreases terminations.len(),
{
    if terminations.len() == 0 {
        links
    } else {
        let before = with_terminations(links, terminations.drop_last());
        let rt = terminations.last();
        with_path(before + side_site(rt), side_name(rt.termination), rt.path@)
    }
}

/// The links of a circuit: its provider and tenant, the sites it lands on, and
/// the devices on its path, each once.
pub open spec fn circuit_link_list(c: Circuit, terminations: Seq<ResolvedTermination>) -> Seq<
    Link,
> {
    with_terminations(
        Seq::<Link>::empty() + link_to("provider"@, ObjectKind::Provider, c.provider) + link_to(
            "tenant"@,
            ObjectKind::Tenant,
            c.tenant,
        ),
        terminations,
    )
}

fn has_device(links: &Vec<ObjectLink>, id: u64) -> (r: bool)
    ensures
        r == links_device(links_of(links@), id),
{
    let mut i: usize = 0;
    while i < links.len()
        invariant
            i <= links.len(),
            forall|j: int|
                0 <= j < i ==> !((#[trigger] links_of(links@)[j]).kind == ObjectKind::Device
                    && links_of(links@)[j].id == id),
        decreases links.len() - i,
    {
        if links[i].kind == ObjectKind::Device && links[i].id == id {
            proof {
                assert(links_of(links@)[i as int].kind == ObjectKind::Device);
            }
            return true;
        }
        i = i + 1;
    }
    false
}

fn push_path(links: &mut Vec<ObjectLink>, side: &str, path: &Vec<PathHop>)
    ensures
        links_of(final(links)@) == with_path(links_of(old(links)@), side@, path@),
{
    let ghost before = links_of(links@);
    let mut i: usize = 0;
    proof {
        assert(path@.take(0) =~= Seq::empty());
    }
    while i < path.len()
        invariant
            i <= path.len(),
            links_of(links@) == with_path(before, side@, path@.take(i as int)),
        decreases path.len() - i,
    {
        proof {
            assert(path@.take(i as int + 1).drop_last() =~= path@.take(i as int));
        }
        if let Some(d) = &path[i].device {
            if !has_device(links, d.id) {
                add_link(
                    links,
                    ObjectLink {
                        kind: ObjectKind::Device,
                        id: d.id,
                        relation: cat2(side, "-side device"),
                        label: d.name.clone(),
                    },
                );
            }
        }
        i = i + 1;
    }
    proof {
        assert(path@.take(i as int) =~= path@);
    }
}

/// The links of a circuit.
pub fn circuit_links(c: &Circuit, terminations: &Vec<ResolvedTermination>) -> (r: Vec<ObjectLink>)
    ensures
        links_of(r@) == circuit_link_list(*c, terminations@),
{
    let mut l = no_links();
    push_link(&mut l, "provider", ObjectKind::Provider, &c.provider);
    push_link(&mut l, "tenant", ObjectKind::Tenant, &c.tenant);
    let ghost start = links_of(l@);
    let mut i: usize = 0;
    proof {
        assert(terminations@.take(0) =~= Seq::empty());
    }
    while i < terminations.len()
        invariant
            i <= terminations.len(),
            links_of(l@) == with_terminations(start, terminations@.take(i as int)),
        decreases terminations.len() - i,
    {
        let rt = &terminations[i];
        proof {
            assert(terminations@.take(i as int + 1).drop_last() =~= terminations@.take(i as int));
        }
        let side = match &rt.termination.term_side {
            Some(s) => s.clone(),
            None => "?".to_owned(),
        };
        if opt_is(&rt.termination.termination_type, "dcim.site") {
            let relation = cat2(side.as_str(), "-side site");
            push_link(&mut l, relation.as_str(), ObjectKind::Site, &rt.termination.termination);
        } else {
            proof {
                assert(links_of(l@) =~= links_of(l@) + Seq::empty());
            }
        }
        push_path(&mut l, side.as_str(), &rt.path);
        i = i + 1;
    }
    proof {
        assert(terminations@.take(i as int) =~= terminations@);
    }
    l
}

// ===== Laws ==============================================================

/// Whether no device is linked twice.
pub open spec fn devices_distinct(links: Seq<Link>) -> bool {
    forall|i: int, j: int|
        #![trigger links[i], links[j]]
        0 <= i < j < links.len() && links[i].kind == ObjectKind::Device && links[j].kind
            == ObjectKind::Device ==> links[i].id != links[j].id
}

proof fn path_keeps_distinct(links: Seq<Link>, side: Text, path: Seq<PathHop>)
    requires
        devices_distinct(links),
    ensures
        devices_distinct(with_path(links, side, path)),
    decreases path.len(),
{
    if path.len() > 0 {
        path_keeps_distinct(links, side, path.drop_last());
        let before = with_path(links, side, path.drop_last());
        let after = with_hop(before, side, path.last());
        assert forall|i: int, j: int|
            #![trigger after[i], after[j]]
            0 <= i < j < after.len() && after[i].kind == ObjectKind::Device && after[j].kind
                == ObjectKind::Device implies after[i].id != after[j].id by {
            assert(after[i] == before[i]);
            if j < before.len() {
                assert(after[j] == before[j]);
            } else if before[i].id == after[j].id {
                assert(links_device(before, after[j].id));
            }
        }
    }
}

proof fn terminations_keep_distinct(links: Seq<Link>, terminations: Seq<ResolvedTermination>)
    requires
        devices_distinct(links),
    ensures
        devices_distinct(with_terminations(links, terminations)),
    decreases terminations.len(),
{
    if terminations.len() > 0 {
        let front = terminations.drop_last();
        let rt = terminations.last();
        terminations_keep_distinct(links, front);
        let before = with_terminations(links, front);
        let wide = before + side_site(rt);
        assert forall|i: int, j: int|
            #![trigger wide[i], wide[j]]
            0 <= i < j < wide.len() && wide[i].kind == ObjectKind::Device && wide[j].kind
                == ObjectKind::Device implies wide[i].id != wide[j].id by {
            if j < before.len() {
                assert(wide[i] == before[i] && wide[j] == before[j]);
            } else {
                assert(wide[j] == side_site(rt)[j - before.len()]);
            }
        }
        path_keeps_distinct(wide, side_name(rt.termination), rt.path@);
    }
}

/// A circuit links no device twice, however often its path crosses it.
pub proof fn circuit_links_each_device_once(c: Circuit, terminations: Seq<ResolvedTermination>)
    ensures
        devices_distinct(circuit_link_list(c, terminations)),
{
    terminations_keep_distinct(
        Seq::<Link>::empty() + link_to("provider"@, ObjectKind::Provider, c.provider) + link_to(
            "tenant"@,
            ObjectKind::Tenant,
            c.tenant,
        ),
        terminations,
    );
}

// ===== Laws ==============================================================

proof fn links_are_found_where_they_were_put()
    ensures
        forall|a: Seq<Link>, b: Seq<Link>, x: Link| #[trigger]
            (a + b).contains(x) <==> a.contains(x) || b.contains(x),
        forall|relation: Text, kind: ObjectKind, o: Option<BriefObject>, x: Link| #[trigger]
            link_to(relation, kind, o).contains(x) <==> o is Some && x.kind == kind && x.id == o->0.id
                && x.relation == relation && x.label == o->0.label_text(),
{
    assert forall|a: Seq<Link>, b: Seq<Link>, x: Link| #[trigger] (a + b).contains(x)
        <==> a.contains(x) || b.contains(x) by {
        let c = a + b;
        if c.contains(x) {
            let i = choose|i: int| 0 <= i < c.len() && c[i] == x;
            if i < a.len() {
                assert(a[i] == x);
            } else {
                assert(b[i - a.len()] == x);
            }
        }
        if a.contains(x) {
            let i = choose|i: int| 0 <= i < a.len() && a[i] == x;
            assert(c[i] == x);
        }
        if b.contains(x) {
            let i = choose|i: int| 0 <= i < b.len() && b[i] == x;
            assert(c[a.len() + i] == x);
        }
    }
    assert forall|relation: Text, kind: ObjectKind, o: Option<BriefObject>, x: Link| #[trigger]
        link_to(relation, kind, o).contains(x) <==> o is Some && x.kind == kind && x.id == o->0.id
            && x.relation == relation && x.label == o->0.label_text() by {
        if o is Some {
            let l = Link { kind, id: o->0.id, relation, label: o->0.label_text() };
            assert(seq![l][0] == l);
        }
    }
}

/// A device links to its own site, rack, tenant and primary addresses, each by its id
/// and under its own relation, and to nothing else.
pub proof fn device_links_open_what_it_names(d: Device, l: Link)
    ensures
        device_link_list(d).contains(l) <==> {
            ||| (d.site is Some && l.kind == ObjectKind::Site && l.id == d.site->0.id && l.relation
                == "site"@ && l.label == d.site->0.label_text())
            ||| (d.rack is Some && l.kind == ObjectKind::Rack && l.id == d.rack->0.id && l.relation
                == "rack"@ && l.label == d.rack->0.label_text())
            ||| (d.tenant is Some && l.kind == ObjectKind::Tenant && l.id == d.tenant->0.id
                && l.relation == "tenant"@ && l.label == d.tenant->0.label_text())
            ||| (d.primary_ip4 is Some && l.kind == ObjectKind::IpAddress && l.id
                == d.primary_ip4->0.id && l.relation == "primary IPv4"@ && l.label
                == d.primary_ip4->0.label_text())
            ||| (d.primary_ip6 is Some && l.kind == ObjectKind::IpAddress && l.id
                == d.primary_ip6->0.id && l.relation == "primary IPv6"@ && l.label
                == d.primary_ip6->0.label_text())
        },
{
    links_are_found_where_they_were_put();
}

/// Sites, VRFs and route targets link to their tenant; racks and VLANs to their site
/// and their tenant; and to nothing else.
pub proof fn sites_and_tenants_are_linked(
    site: Option<BriefObject>,
    tenant: Option<BriefObject>,
    l: Link,
)
    ensures
        tenant_link_list(tenant).contains(l) <==> tenant is Some && l.kind == ObjectKind::Tenant
            && l.id == tenant->0.id && l.relation == "tenant"@ && l.label == tenant->0.label_text(),
        site_tenant_link_list(site, tenant).contains(l) <==> {
            ||| (site is Some && l.kind == ObjectKind::Site && l.id == site->0.id && l.relation
                == "site"@ && l.label == site->0.label_text())
            ||| (tenant is Some && l.kind == ObjectKind::Tenant && l.id == tenant->0.id
                && l.relation == "tenant"@ && l.label == tenant->0.label_text())
        },
{
    links_are_found_where_they_were_put();
}

/// A prefix links to its scope when that is a site, to its VLAN and to its tenant; an
/// address to the prefix it lies in and to its tenant; and to nothing else.
pub proof fn prefixes_and_addresses_are_linked(
    p: Prefix,
    ip: IpAddress,
    parent: Option<Prefix>,
    l: Link,
)
    ensures
        prefix_link_list(p).contains(l) <==> {
            ||| (p.scope is Some && p.scope_type is Some && p.scope_type->0@ == "dcim.site"@
                && l.kind == ObjectKind::Site && l.id == p.scope->0.id && l.relation == "site"@
                && l.label == p.scope->0.label_text())
            ||| (p.vlan is Some && l.kind == ObjectKind::Vlan && l.id == p.vlan->0.id && l.relation
                == "vlan"@ && l.label == p.vlan->0.label_text())
            ||| (p.tenant is Some && l.kind == ObjectKind::Tenant && l.id == p.tenant->0.id
                && l.relation == "tenant"@ && l.label == p.tenant->0.label_text())
        },
        ip_link_list(ip, parent).contains(l) <==> {
            ||| (parent is Some && l.kind == ObjectKind::Prefix && l.id == parent->0.id
                && l.relation == "parent prefix"@ && l.label == parent->0.prefix@)
            ||| (ip.tenant is Some && l.kind == ObjectKind::Tenant && l.id == ip.tenant->0.id
                && l.relation == "tenant"@ && l.label == ip.tenant->0.label_text())
        },
{
    links_are_found_where_they_were_put();
    if parent is Some {
        let up = Link {
            kind: ObjectKind::Prefix,
            id: parent->0.id,
            relation: "parent prefix"@,
            label: parent->0.prefix@,
        };
        assert(seq![up][0] == up);
        assert(seq![up].contains(l) <==> l == up);
    }
}

proof fn path_links_are(links: Seq<Link>, side: Text, path: Seq<PathHop>)
    ensures
        forall|l: Link| links.contains(l) ==> #[trigger] with_path(links, side, path).contains(l),
        forall|l: Link| #[trigger]
            with_path(links, side, path).contains(l) ==> links.contains(l) || (l.kind
                == ObjectKind::Device && l.relation == side + "-side device"@ && exists|k: int|
                0 <= k < path.len() && (#[trigger] path[k]).device is Some && path[k].device->0.id
                    == l.id && path[k].device->0.name@ == l.label),
        forall|k: int|
            0 <= k < path.len() && (#[trigger] path[k]).device is Some ==> links_device(
                with_path(links, side, path),
                path[k].device->0.id,
            ),
    decreases path.len(),
{
    if path.len() > 0 {
        let front = path.drop_last();
        let before = with_path(links, side, front);
        let after = with_path(links, side, path);
        path_links_are(links, side, front);
        assert forall|l: Link| links.contains(l) implies #[trigger] after.contains(l) by {
            assert(before.contains(l));
            let i = choose|i: int| 0 <= i < before.len() && before[i] == l;
            assert(after[i] == l);
        }
        assert forall|l: Link| #[trigger] after.contains(l) implies links.contains(l) || (l.kind
            == ObjectKind::Device && l.relation == side + "-side device"@ && exists|k: int|
            0 <= k < path.len() && (#[trigger] path[k]).device is Some && path[k].device->0.id
                == l.id && path[k].device->0.name@ == l.label) by {
            let i = choose|i: int| 0 <= i < after.len() && after[i] == l;
            if i < before.len() {
                assert(before[i] == l);
                assert(before.contains(l));
                if !links.contains(l) {
                    let k = choose|k: int|
                        0 <= k < front.len() && (#[trigger] front[k]).device is Some
                            && front[k].device->0.id == l.id && front[k].device->0.name@ == l.label;
                    assert(path[k] == front[k]);
                }
            } else {
                assert(path[path.len() - 1] == path.last());
            }
        }
        assert forall|k: int| 0 <= k < path.len() && (
        #[trigger] path[k]).device is Some implies links_device(after, path[k].device->0.id) by {
            if k < front.len() {
                assert(front[k] == path[k]);
                assert(links_device(before, path[k].device->0.id));
                let i = choose|i: int|
                    0 <= i < before.len() && (#[trigger] before[i]).kind == ObjectKind::Device
                        && before[i].id == path[k].device->0.id;
                assert(after[i] == before[i]);
            } else {
                if links_device(before, path[k].device->0.id) {
                    assert(after == before);
                } else {
                    assert(after[before.len() as int].kind == ObjectKind::Device);
                }
            }
        }
    }
}

proof fn termination_links_are(links: Seq<Link>, ts: Seq<ResolvedTermination>)
    ensures
        forall|l: Link| links.contains(l) ==> #[trigger] with_terminations(links, ts).contains(l),
        forall|i: int, l: Link|
            0 <= i < ts.len() && side_site(ts[i]).contains(l) ==> #[trigger] with_terminations(
                links,
                ts,
            ).contains(l) || !(#[trigger] side_site(ts[i]).contains(l)),
        forall|i: int, k: int|
            0 <= i < ts.len() && 0 <= k < ts[i].path@.len() && (
            #[trigger] ts[i].path@[k]).device is Some ==> links_device(
                with_terminations(links, ts),
                ts[i].path@[k].device->0.id,
            ),
        forall|l: Link| #[trigger]
            with_terminations(links, ts).contains(l) ==> links.contains(l) || exists|i: int|
                0 <= i < ts.len() && link_is_of(l, #[trigger] ts[i]),
    decreases ts.len(),
{
    if ts.len() > 0 {
        let front = ts.drop_last();
        let rt = ts.last();
        let before = with_terminations(links, front);
        let mid = before + side_site(rt);
        let after = with_terminations(links, ts);
        termination_links_are(links, front);
        links_are_found_where_they_were_put();
        path_links_are(mid, side_name(rt.termination), rt.path@);
        assert forall|l: Link| before.contains(l) implies after.contains(l) by {
            assert(mid.contains(l));
        }
        assert forall|i: int, l: Link|
            0 <= i < ts.len() && #[trigger] side_site(ts[i]).contains(l) implies after.contains(
            l,
        ) by {
            if i < front.len() {
                assert(front[i] == ts[i]);
                assert(side_site(front[i]).contains(l));
                assert(before.contains(l));
            } else {
                assert(mid.contains(l));
            }
        }
        assert forall|i: int, k: int|
            0 <= i < ts.len() && 0 <= k < ts[i].path@.len() && (
            #[trigger] ts[i].path@[k]).device is Some implies links_device(
            after,
            ts[i].path@[k].device->0.id,
        ) by {
            if i < front.len() {
                assert(front[i] == ts[i]);
                assert(front[i].path@[k].device is Some);
                assert(links_device(before, ts[i].path@[k].device->0.id));
                let n = choose|n: int|
                    0 <= n < before.len() && (#[trigger] before[n]).kind == ObjectKind::Device
                        && before[n].id == ts[i].path@[k].device->0.id;
                let l = before[n];
                assert(before.contains(l));
                assert(after.contains(l));
                let m = choose|m: int| 0 <= m < after.len() && after[m] == l;
                assert(after[m].kind == ObjectKind::Device);
            } else {
                assert(rt.path@[k].device is Some);
            }
        }
        assert forall|l: Link| #[trigger] after.contains(l) implies links.contains(l) || exists|i: int|
            0 <= i < ts.len() && link_is_of(l, #[trigger] ts[i]) by {
            if mid.contains(l) {
                if before.contains(l) {
                    if !links.contains(l) {
                        let i = choose|i: int|
                            0 <= i < front.len() && link_is_of(l, #[trigger] front[i]);
                        assert(link_is_of(l, ts[i]));
                    }
                } else {
                    assert(side_site(rt).contains(l));
                    assert(link_is_of(l, ts[ts.len() - 1]));
                }
            } else {
                assert(link_is_of(l, ts[ts.len() - 1]));
            }
        }
    }
}

/// Whether a link is one that a termination has: to the site it ends at, or to a device
/// on its path.
pub open spec fn link_is_of(l: Link, rt: ResolvedTermination) -> bool {
    ||| {
        &&& rt.termination.termination_type is Some
        &&& rt.termination.termination_type->0@ == "dcim.site"@
        &&& rt.termination.termination is Some
        &&& l.kind == ObjectKind::Site
        &&& l.id == rt.termination.termination->0.id
        &&& l.relation == side_name(rt.termination) + "-side site"@
        &&& l.label == rt.termination.termination->0.label_text()
    }
    ||| {
        &&& l.kind == ObjectKind::Device
        &&& l.relation == side_name(rt.termination) + "-side device"@
        &&& exists|k: int|
            0 <= k < rt.path@.len() && (#[trigger] rt.path@[k]).device is Some
                && rt.path@[k].device->0.id == l.id && rt.path@[k].device->0.name@ == l.label
    }
}

/// A circuit links to its provider and its tenant, to the site that a side ends at, and
/// to every device on the path of a side, each of them once; and to nothing else.
pub proof fn circuit_links_open_what_it_reaches(c: Circuit, ts: Seq<ResolvedTermination>, l: Link)
    ensures
        c.provider is Some && l.kind == ObjectKind::Provider && l.id == c.provider->0.id
            && l.relation == "provider"@ && l.label == c.provider->0.label_text()
            ==> circuit_link_list(c, ts).contains(l),
        c.tenant is Some && l.kind == ObjectKind::Tenant && l.id == c.tenant->0.id && l.relation
            == "tenant"@ && l.label == c.tenant->0.label_text() ==> circuit_link_list(
            c,
            ts,
        ).contains(l),
        forall|i: int|
            {
                &&& 0 <= i < ts.len()
                &&& (#[trigger] ts[i]).termination.termination_type is Some
                &&& ts[i].termination.termination_type->0@ == "dcim.site"@
                &&& ts[i].termination.termination is Some
                &&& l.kind == ObjectKind::Site
                &&& l.id == ts[i].termination.termination->0.id
                &&& l.relation == side_name(ts[i].termination) + "-side site"@
                &&& l.label == ts[i].termination.termination->0.label_text()
            } ==> circuit_link_list(c, ts).contains(l),
        forall|i: int, k: int|
            0 <= i < ts.len() && 0 <= k < ts[i].path@.len() && (
            #[trigger] ts[i].path@[k]).device is Some ==> links_device(
                circuit_link_list(c, ts),
                ts[i].path@[k].device->0.id,
            ),
        circuit_link_list(c, ts).contains(l) ==> {
            ||| (c.provider is Some && l.kind == ObjectKind::Provider && l.id == c.provider->0.id)
            ||| (c.tenant is Some && l.kind == ObjectKind::Tenant && l.id == c.tenant->0.id)
            ||| exists|i: int| 0 <= i < ts.len() && link_is_of(l, #[trigger] ts[i])
        },
{
    links_are_found_where_they_were_put();
    let start = Seq::<Link>::empty() + link_to("provider"@, ObjectKind::Provider, c.provider)
        + link_to("tenant"@, ObjectKind::Tenant, c.tenant);
    termination_links_are(start, ts);
    assert(circuit_link_list(c, ts) == with_terminations(start, ts));
    assert forall|i: int|
        {
            &&& 0 <= i < ts.len()
            &&& (#[trigger] ts[i]).termination.termination_type is Some
            &&& ts[i].termination.termination_type->0@ == "dcim.site"@
            &&& ts[i].termination.termination is Some
            &&& l.kind == ObjectKind::Site
            &&& l.id == ts[i].termination.termination->0.id
            &&& l.relation == side_name(ts[i].termination) + "-side site"@
            &&& l.label == ts[i].termination.termination->0.label_text()
        } implies circuit_link_list(c, ts).contains(l) by {
        assert(side_site(ts[i]).contains(l));
    }
}

} // verus!
