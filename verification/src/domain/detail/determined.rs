//! A screen depends on nothing but what was read for it.

use vstd::prelude::*;

use crate::domain::detail::load::{
    device_tabs,
    is_address_screen,
    is_device_screen,
    is_screen_of,
    section_rows,
    Loaded,
};
use crate::domain::detail::routing::{
    header_parts,
    route_target_screen,
    row_is_address,
    row_is_node,
    target_detail_is_of,
    target_header,
    vrf_detail_is_of,
    vrf_header,
    vrf_screen,
};
use crate::domain::detail::rows::{
    cable_row_lines,
    iface_row_lines,
    ip_row_lines,
    target_lines,
    vlan_row_lines,
    vrf_address_lines,
    vrf_prefix_lines,
};
use crate::domain::detail::view::{Link, Screen};
use crate::domain::device_detail::{
    cable_lines,
    cable_row_is_of,
    cabled,
    iface_lines,
    iface_row_is_of,
    ip_lines,
    ip_row_is_of,
    vlan_lines,
    CableRow,
    DeviceDetail,
    IfaceRow,
    IpRow,
};
use crate::domain::ip_view::{is_longest, is_most_specific, network_lens};
use crate::domain::route_target_view::RouteTargetDetail;
use crate::domain::vrf_view::{refer_to, RouteTargetRef, VrfDetail};
use crate::netbox::models::{
    BriefObject,
    Device,
    Interface,
    IpAddress,
    Prefix,
    RouteTarget,
    Vrf,
};
use crate::domain::detail::routing::PrefixNode;
use crate::domain::route_target_view::VrfRef;
use crate::text::{opt_text, texts};

verus! {

/// The most specific prefix of a list is one prefix.
pub proof fn most_specific_is_one(a: Option<Prefix>, b: Option<Prefix>, prefixes: Seq<Prefix>)
    requires
        is_most_specific(a, prefixes),
        is_most_specific(b, prefixes),
    ensures
        a == b,
{
    let lens = network_lens(prefixes);
    if a is Some && b is Some {
        let i = choose|i: int| #[trigger] is_longest(lens, i) && prefixes[i] == a->0;
        let j = choose|j: int| #[trigger] is_longest(lens, j) && prefixes[j] == b->0;
        assert(lens[i] is Some && lens[j] is Some);
    } else if a is Some {
        let i = choose|i: int| #[trigger] is_longest(lens, i) && prefixes[i] == a->0;
        assert(lens[i] is Some);
        assert(crate::domain::ip_view::network_len(prefixes[i].prefix@) is None);
    } else if b is Some {
        let j = choose|j: int| #[trigger] is_longest(lens, j) && prefixes[j] == b->0;
        assert(lens[j] is Some);
        assert(crate::domain::ip_view::network_len(prefixes[j].prefix@) is None);
    }
}

proof fn iface_line_is_one(a: IfaceRow, b: IfaceRow, i: Interface)
    requires
        iface_row_is_of(a, i),
        iface_row_is_of(b, i),
    ensures
        a.line() == b.line(),
        a.id == b.id,
{
    assert(opt_text(a.type_) == opt_text(b.type_));
}

proof fn ip_line_is_one(a: IpRow, b: IpRow, ip: IpAddress)
    requires
        ip_row_is_of(a, ip),
        ip_row_is_of(b, ip),
    ensures
        a.line() == b.line(),
        a.id == b.id,
{
    assert(opt_text(a.interface) == opt_text(b.interface));
}

proof fn cable_line_is_one(a: CableRow, b: CableRow, i: Interface)
    requires
        cable_row_is_of(a, i),
        cable_row_is_of(b, i),
    ensures
        a.line(" -> "@) == b.line(" -> "@),
        a.line(" → "@) == b.line(" → "@),
        a.id == b.id,
{
    assert(texts(a.connected_to@).len() == texts(b.connected_to@).len());
    assert(opt_text(a.cable) == opt_text(b.cable));
}

/// The tabs of a device depend on nothing but what was read for it.
pub proof fn device_tabs_are_one(
    a: DeviceDetail,
    b: DeviceDetail,
    device: Device,
    interfaces: Seq<Interface>,
    ips: Seq<IpAddress>,
)
    requires
        a.is_of(device, interfaces, ips),
        b.is_of(device, interfaces, ips),
    ensures
        device_tabs(a) == device_tabs(b),
{
    assert forall|i: int| 0 <= i < interfaces.len() implies (#[trigger] a.interfaces@[i]).line()
        == b.interfaces@[i].line() && a.interfaces@[i].id == b.interfaces@[i].id by {
        iface_line_is_one(a.interfaces@[i], b.interfaces@[i], interfaces[i]);
    }
    assert(iface_lines(a.interfaces@) =~= iface_lines(b.interfaces@));
    assert(iface_row_lines(a.interfaces@) =~= iface_row_lines(b.interfaces@));
    assert forall|i: int| 0 <= i < ips.len() implies (#[trigger] a.ip_addresses@[i]).line()
        == b.ip_addresses@[i].line() && a.ip_addresses@[i].id == b.ip_addresses@[i].id by {
        ip_line_is_one(a.ip_addresses@[i], b.ip_addresses@[i], ips[i]);
    }
    assert(ip_lines(a.ip_addresses@) =~= ip_lines(b.ip_addresses@));
    assert(ip_row_lines(a.ip_addresses@) =~= ip_row_lines(b.ip_addresses@));
    let wired = cabled(interfaces);
    assert forall|i: int| 0 <= i < wired.len() implies (#[trigger] a.cables@[i]).line(" -> "@)
        == b.cables@[i].line(" -> "@) && a.cables@[i].line(" → "@) == b.cables@[i].line(" → "@)
        && a.cables@[i].id == b.cables@[i].id by {
        cable_line_is_one(a.cables@[i], b.cables@[i], wired[i]);
    }
    assert(cable_lines(a.cables@) =~= cable_lines(b.cables@));
    assert(cable_row_lines(a.cables@) =~= cable_row_lines(b.cables@));
    assert(vlan_lines(a.vlans@) =~= vlan_lines(b.vlans@));
    assert(vlan_row_lines(a.vlans@) =~= vlan_row_lines(b.vlans@));
    reveal(DeviceDetail::section_list);
    assert(a.section_list() == b.section_list());
    assert forall|key: char| #[trigger] section_rows(a, key) == section_rows(b, key) by {}
    assert(device_tabs(a) =~= device_tabs(b));
}

proof fn target_lines_are_one(
    a: Seq<RouteTargetRef>,
    b: Seq<RouteTargetRef>,
    targets: Seq<BriefObject>,
)
    requires
        refer_to(a, targets),
        refer_to(b, targets),
    ensures
        a.len() == b.len(),
        target_lines(a) == target_lines(b),
{
    assert(target_lines(a) =~= target_lines(b));
}

/// The screen of a VRF depends on nothing but what was read for it.
pub proof fn vrf_screen_is_one(
    links: Seq<Link>,
    a: VrfDetail,
    b: VrfDetail,
    vrf: Vrf,
    read: u64,
    nodes: Seq<PrefixNode>,
    ips: Seq<IpAddress>,
)
    requires
        vrf_detail_is_of(a, vrf, read, nodes, ips),
        vrf_detail_is_of(b, vrf, read, nodes, ips),
    ensures
        vrf_screen(links, a) == vrf_screen(links, b),
{
    assert forall|i: int| 0 <= i < nodes.len() implies (#[trigger] a.prefixes@[i]).line()
        == b.prefixes@[i].line() && a.prefixes@[i].id == b.prefixes@[i].id by {
        assert(row_is_node(a.prefixes@[i], nodes[i]) && row_is_node(b.prefixes@[i], nodes[i]));
    }
    assert(vrf_prefix_lines(a.prefixes@, a.prefix_total) =~= vrf_prefix_lines(
        b.prefixes@,
        b.prefix_total,
    ));
    assert forall|i: int| 0 <= i < ips.len() implies (#[trigger] a.addresses@[i]).line()
        == b.addresses@[i].line() && a.addresses@[i].id == b.addresses@[i].id by {
        assert(row_is_address(a.addresses@[i], ips[i]) && row_is_address(b.addresses@[i], ips[i]));
        assert(opt_text(a.addresses@[i].dns_name) == opt_text(b.addresses@[i].dns_name));
        assert(opt_text(a.addresses@[i].status) == opt_text(b.addresses@[i].status));
    }
    assert(vrf_address_lines(a.addresses@, a.address_total) =~= vrf_address_lines(
        b.addresses@,
        b.address_total,
    ));
    target_lines_are_one(a.summary.import_targets@, b.summary.import_targets@, vrf.import_targets@);
    target_lines_are_one(a.summary.export_targets@, b.summary.export_targets@, vrf.export_targets@);
    assert(opt_text(a.summary.rd) == opt_text(b.summary.rd));
    assert(opt_text(a.summary.tenant) == opt_text(b.summary.tenant));
    assert(opt_text(a.summary.description) == opt_text(b.summary.description));
    assert(header_parts(a.summary) == header_parts(b.summary));
    assert(vrf_header(a.summary) == vrf_header(b.summary));
}

/// The screen of a route target depends on nothing but what was read for it.
pub proof fn route_target_screen_is_one(
    links: Seq<Link>,
    a: RouteTargetDetail,
    b: RouteTargetDetail,
    target: RouteTarget,
    importing: Seq<VrfRef>,
    exporting: Seq<VrfRef>,
)
    requires
        target_detail_is_of(a, target, importing, exporting),
        target_detail_is_of(b, target, importing, exporting),
    ensures
        route_target_screen(links, a) == route_target_screen(links, b),
{
    assert(opt_text(a.summary.tenant) == opt_text(b.summary.tenant));
    assert(opt_text(a.summary.description) == opt_text(b.summary.description));
    assert(target_header(a.summary) == target_header(b.summary));
}

/// Two screens of the same object with the same parts are the same screen.
pub proof fn same_parts_same_screen(a: Screen, b: Screen, id: u64, loaded: Loaded)
    requires
        is_screen_of(a, id, loaded),
        is_screen_of(b, id, loaded),
    ensures
        a == b,
{
    match loaded {
        Loaded::Device { device, interfaces, ips } => {
            assert(is_device_screen(a, id, device, interfaces@, ips@));
            assert(is_device_screen(b, id, device, interfaces@, ips@));
            let x = choose|x: DeviceDetail| #[trigger]
                x.is_of(device, interfaces@, ips@) && a.tabs == device_tabs(x);
            let y = choose|y: DeviceDetail| #[trigger]
                y.is_of(device, interfaces@, ips@) && b.tabs == device_tabs(y);
            device_tabs_are_one(x, y, device, interfaces@, ips@);
        },
        Loaded::IpAddress { ip, containing } => {
            assert(is_address_screen(a, id, ip, containing@));
            assert(is_address_screen(b, id, ip, containing@));
            assert forall|p: Option<Prefix>, q: Option<Prefix>|
                #![trigger is_most_specific(p, containing@), is_most_specific(q, containing@)]
                is_most_specific(p, containing@) && is_most_specific(q, containing@) implies p
                == q by {
                most_specific_is_one(p, q, containing@);
            }
        },
        Loaded::Vrf { vrf, read, nodes, ips } => {
            let links = a.links;
            let x = choose|x: VrfDetail| #[trigger]
                vrf_detail_is_of(x, vrf, read, nodes@, ips@) && a == vrf_screen(links, x);
            let y = choose|y: VrfDetail| #[trigger]
                vrf_detail_is_of(y, vrf, read, nodes@, ips@) && b == vrf_screen(b.links, y);
            vrf_screen_is_one(links, x, y, vrf, read, nodes@, ips@);
        },
        Loaded::RouteTarget { target, importing, exporting } => {
            let links = a.links;
            let x = choose|x: RouteTargetDetail| #[trigger]
                target_detail_is_of(x, target, importing@, exporting@) && a
                    == route_target_screen(links, x);
            let y = choose|y: RouteTargetDetail| #[trigger]
                target_detail_is_of(y, target, importing@, exporting@) && b
                    == route_target_screen(b.links, y);
            route_target_screen_is_one(links, x, y, target, importing@, exporting@);
        },
        _ => {},
    }
}

} // verus!
