//! Rows of the sections of a detail screen.

use vstd::prelude::*;

use crate::domain::detail::view::{
    lines_of,
    link_line,
    plain_line,
    push_row,
    row_tab,
    single_row,
    DetailRow,
    DetailTab,
    Line,
};
use crate::domain::device_detail::{CableRow, IfaceRow, IpRow, VlanRow};
use crate::domain::ip_view::{assigned_of, opt_assigned};
use crate::domain::prefix_view::address_line;
use crate::domain::route_target_view::VrfRef;
use crate::domain::vrf_view::{RouteTargetRef, VrfAddressRow, VrfPrefixRow};
use crate::netbox::models::{Device, IpAddress, Prefix, Rack};
use crate::netbox::search::ObjectKind;
use crate::number::{decimal, decimal_len, decimal_text};
use crate::text::{cat2, cat3, Text};

verus! {

/// Lines, or a placeholder when there are none.
pub open spec fn or_placeholder(lines: Seq<Line>, empty: Text) -> Seq<Line> {
    if lines.len() == 0 {
        seq![plain_line(empty)]
    } else {
        lines
    }
}

// ===== Devices ===========================================================

/// The addresses of a device, each with a link.
pub open spec fn ip_row_lines(ips: Seq<IpRow>) -> Seq<Line> {
    Seq::new(ips.len(), |i: int| link_line(ips[i].line(), ObjectKind::IpAddress, ips[i].id))
}

/// The addresses of a device; each opens the address.
pub fn device_ip_rows(ips: &Vec<IpRow>) -> (r: Vec<DetailRow>)
    ensures
        lines_of(r@) == ip_row_lines(ips@),
{
    let mut rows: Vec<DetailRow> = Vec::new();
    let mut i: usize = 0;
    while i < ips.len()
        invariant
            i <= ips.len(),
            rows.len() == i,
            forall|j: int| 0 <= j < i ==> (#[trigger] rows@[j])@ == ip_row_lines(ips@)[j],
        decreases ips.len() - i,
    {
        rows.push(DetailRow::link(ips[i].text(), ObjectKind::IpAddress, ips[i].id));
        i = i + 1;
    }
    proof {
        assert(lines_of(rows@) =~= ip_row_lines(ips@));
    }
    rows
}

/// The VLANs of a device, each with a link.
pub open spec fn vlan_row_lines(vlans: Seq<VlanRow>) -> Seq<Line> {
    Seq::new(vlans.len(), |i: int| link_line(vlans[i].vlan@, ObjectKind::Vlan, vlans[i].id))
}

/// The VLANs of a device; each opens the VLAN.
pub fn device_vlan_rows(vlans: &Vec<VlanRow>) -> (r: Vec<DetailRow>)
    ensures
        lines_of(r@) == vlan_row_lines(vlans@),
{
    let mut rows: Vec<DetailRow> = Vec::new();
    let mut i: usize = 0;
    while i < vlans.len()
        invariant
            i <= vlans.len(),
            rows.len() == i,
            forall|j: int| 0 <= j < i ==> (#[trigger] rows@[j])@ == vlan_row_lines(vlans@)[j],
        decreases vlans.len() - i,
    {
        rows.push(DetailRow::link(vlans[i].vlan.clone(), ObjectKind::Vlan, vlans[i].id));
        i = i + 1;
    }
    proof {
        assert(lines_of(rows@) =~= vlan_row_lines(vlans@));
    }
    rows
}

/// The interfaces of a device, each with a link.
pub open spec fn iface_row_lines(ifaces: Seq<IfaceRow>) -> Seq<Line> {
    Seq::new(
        ifaces.len(),
        |i: int| link_line(ifaces[i].line(), ObjectKind::Interface, ifaces[i].id),
    )
}

/// The interfaces of a device; each opens the interface.
pub fn device_interface_rows(ifaces: &Vec<IfaceRow>) -> (r: Vec<DetailRow>)
    ensures
        lines_of(r@) == iface_row_lines(ifaces@),
{
    let mut rows: Vec<DetailRow> = Vec::new();
    let mut i: usize = 0;
    while i < ifaces.len()
        invariant
            i <= ifaces.len(),
            rows.len() == i,
            forall|j: int| 0 <= j < i ==> (#[trigger] rows@[j])@ == iface_row_lines(ifaces@)[j],
        decreases ifaces.len() - i,
    {
        rows.push(DetailRow::link(ifaces[i].text(), ObjectKind::Interface, ifaces[i].id));
        i = i + 1;
    }
    proof {
        assert(lines_of(rows@) =~= iface_row_lines(ifaces@));
    }
    rows
}

/// The cabled interfaces of a device, each with a link.
pub open spec fn cable_row_lines(cables: Seq<CableRow>) -> Seq<Line> {
    Seq::new(
        cables.len(),
        |i: int| link_line(cables[i].line(" → "@), ObjectKind::Interface, cables[i].id),
    )
}

/// The cabled interfaces of a device; each opens the local interface.
pub fn device_cable_rows(cables: &Vec<CableRow>) -> (r: Vec<DetailRow>)
    ensures
        lines_of(r@) == cable_row_lines(cables@),
{
    let mut rows: Vec<DetailRow> = Vec::new();
    let mut i: usize = 0;
    while i < cables.len()
        invariant
            i <= cables.len(),
            rows.len() == i,
            forall|j: int| 0 <= j < i ==> (#[trigger] rows@[j])@ == cable_row_lines(cables@)[j],
        decreases cables.len() - i,
    {
        rows.push(DetailRow::link(cables[i].text(" → "), ObjectKind::Interface, cables[i].id));
        i = i + 1;
    }
    proof {
        assert(lines_of(rows@) =~= cable_row_lines(cables@));
    }
    rows
}

/// A list of devices, each with a link.
pub open spec fn device_lines(devices: Seq<Device>) -> Seq<Line> {
    or_placeholder(
        Seq::new(
            devices.len(),
            |i: int| link_line(devices[i].name@, ObjectKind::Device, devices[i].id),
        ),
        "(no devices)"@,
    )
}

/// A list of devices; each opens the device.
pub fn device_link_rows(devices: &Vec<Device>) -> (r: Vec<DetailRow>)
    ensures
        lines_of(r@) == device_lines(devices@),
{
    if devices.is_empty() {
        return single_row(DetailRow::plain("(no devices)".to_owned()));
    }
    let mut rows: Vec<DetailRow> = Vec::new();
    let mut i: usize = 0;
    while i < devices.len()
        invariant
            0 < devices.len(),
            i <= devices.len(),
            rows.len() == i,
            forall|j: int| 0 <= j < i ==> (#[trigger] rows@[j])@ == device_lines(devices@)[j],
        decreases devices.len() - i,
    {
        rows.push(DetailRow::link(devices[i].name.clone(), ObjectKind::Device, devices[i].id));
        i = i + 1;
    }
    proof {
        assert(lines_of(rows@) =~= device_lines(devices@));
    }
    rows
}

/// A list of racks, each with a link.
pub open spec fn rack_lines(racks: Seq<Rack>) -> Seq<Line> {
    or_placeholder(
        Seq::new(racks.len(), |i: int| link_line(racks[i].name@, ObjectKind::Rack, racks[i].id)),
        "(no racks)"@,
    )
}

/// A list of racks; each opens the rack.
pub fn rack_link_rows(racks: &Vec<Rack>) -> (r: Vec<DetailRow>)
    ensures
        lines_of(r@) == rack_lines(racks@),
{
    if racks.is_empty() {
        return single_row(DetailRow::plain("(no racks)".to_owned()));
    }
    let mut rows: Vec<DetailRow> = Vec::new();
    let mut i: usize = 0;
    while i < racks.len()
        invariant
            0 < racks.len(),
            i <= racks.len(),
            rows.len() == i,
            forall|j: int| 0 <= j < i ==> (#[trigger] rows@[j])@ == rack_lines(racks@)[j],
        decreases racks.len() - i,
    {
        rows.push(DetailRow::link(racks[i].name.clone(), ObjectKind::Rack, racks[i].id));
        i = i + 1;
    }
    proof {
        assert(lines_of(rows@) =~= rack_lines(racks@));
    }
    rows
}

// ===== Prefixes and addresses ============================================

/// A list of prefixes, each with a link.
pub open spec fn prefix_lines(prefixes: Seq<Prefix>, empty: Text) -> Seq<Line> {
    or_placeholder(
        Seq::new(
            prefixes.len(),
            |i: int| link_line(prefixes[i].prefix@, ObjectKind::Prefix, prefixes[i].id),
        ),
        empty,
    )
}

/// A list of prefixes; each opens the prefix.
pub fn prefix_link_rows(prefixes: &Vec<Prefix>, empty: &str) -> (r: Vec<DetailRow>)
    ensures
        lines_of(r@) == prefix_lines(prefixes@, empty@),
{
    if prefixes.is_empty() {
        return single_row(DetailRow::plain(empty.to_owned()));
    }
    let mut rows: Vec<DetailRow> = Vec::new();
    let mut i: usize = 0;
    while i < prefixes.len()
        invariant
            0 < prefixes.len(),
            i <= prefixes.len(),
            rows.len() == i,
            forall|j: int|
                0 <= j < i ==> (#[trigger] rows@[j])@ == prefix_lines(prefixes@, empty@)[j],
        decreases prefixes.len() - i,
    {
        rows.push(DetailRow::link(prefixes[i].prefix.clone(), ObjectKind::Prefix, prefixes[i].id));
        i = i + 1;
    }
    proof {
        assert(lines_of(rows@) =~= prefix_lines(prefixes@, empty@));
    }
    rows
}

/// The addresses in a prefix, each with a link.
pub open spec fn contained_lines(ips: Seq<IpAddress>) -> Seq<Line> {
    or_placeholder(
        Seq::new(
            ips.len(),
            |i: int|
                link_line(
                    address_line(ips[i].address@, opt_assigned(ips[i].assigned_object)),
                    ObjectKind::IpAddress,
                    ips[i].id,
                ),
        ),
        "(no addresses)"@,
    )
}

/// The addresses in a prefix; each opens the address.
pub fn prefix_ip_rows(ips: &Vec<IpAddress>) -> (r: Vec<DetailRow>)
    ensures
        lines_of(r@) == contained_lines(ips@),
{
    if ips.is_empty() {
        return single_row(DetailRow::plain("(no addresses)".to_owned()));
    }
    let mut rows: Vec<DetailRow> = Vec::new();
    let mut i: usize = 0;
    while i < ips.len()
        invariant
            0 < ips.len(),
            i <= ips.len(),
            rows.len() == i,
            forall|j: int| 0 <= j < i ==> (#[trigger] rows@[j])@ == contained_lines(ips@)[j],
        decreases ips.len() - i,
    {
        let text = match assigned_of(&ips[i].assigned_object) {
            Some(a) => cat3(ips[i].address.as_str(), "  ", a.as_str()),
            None => ips[i].address.clone(),
        };
        rows.push(DetailRow::link(text, ObjectKind::IpAddress, ips[i].id));
        i = i + 1;
    }
    proof {
        assert(lines_of(rows@) =~= contained_lines(ips@));
    }
    rows
}

/// A label with a count behind it, `children·2`.
pub open spec fn counted(label: Text, n: nat) -> Text {
    label + "·"@ + decimal_text(n)
}

/// Writes a label with a count behind it.
pub fn count_label(label: &str, n: usize) -> (r: String)
    ensures
        r@ == counted(label@, n as nat),
{
    let count = decimal_len(n);
    cat3(label, "·", count.as_str())
}

/// Writes a label with a total behind it.
pub fn total_label(label: &str, n: u64) -> (r: String)
    ensures
        r@ == counted(label@, n as nat),
{
    let count = decimal(n);
    cat3(label, "·", count.as_str())
}

/// The prefixes that refer to a VLAN, as a tab.
pub fn vlan_prefixes_tab(prefixes: &Vec<Prefix>) -> (r: DetailTab)
    ensures
        r@ == row_tab(
            'p',
            counted("prefixes"@, prefixes@.len()),
            prefix_lines(prefixes@, "(no prefixes)"@),
        ),
{
    let rows = prefix_link_rows(prefixes, "(no prefixes)");
    DetailTab::of_rows('p', count_label("prefixes", prefixes.len()), rows)
}

// ===== VRFs and route targets ============================================

/// A list of route targets, each with a link.
pub open spec fn target_lines(refs: Seq<RouteTargetRef>) -> Seq<Line> {
    Seq::new(
        refs.len(),
        |i: int| link_line("  "@ + refs[i].name@, ObjectKind::RouteTarget, refs[i].id),
    )
}

/// The route targets of a VRF, under their directions.
pub open spec fn vrf_target_lines(
    import: Seq<RouteTargetRef>,
    export: Seq<RouteTargetRef>,
) -> Seq<Line> {
    if import.len() == 0 && export.len() == 0 {
        seq![plain_line("(no route targets)"@)]
    } else {
        seq![plain_line("Import ("@ + decimal_text(import.len()) + ")"@)] + target_lines(import)
            + seq![plain_line("Export ("@ + decimal_text(export.len()) + ")"@)] + target_lines(
            export,
        )
    }
}

fn push_targets(rows: &mut Vec<DetailRow>, title: &str, refs: &Vec<RouteTargetRef>)
    ensures
        lines_of(final(rows)@) == lines_of(old(rows)@) + seq![
            plain_line(title@ + " ("@ + decimal_text(refs@.len()) + ")"@),
        ] + target_lines(refs@),
{
    let ghost before = lines_of(rows@);
    let n = decimal_len(refs.len());
    let heading = crate::text::cat4(title, " (", n.as_str(), ")");
    push_row(rows, DetailRow::plain(heading));
    let ghost head = lines_of(rows@);
    let mut i: usize = 0;
    proof {
        assert(head =~= before + seq![plain_line(heading@)]);
        assert(head + target_lines(refs@).take(0) =~= head);
    }
    while i < refs.len()
        invariant
            i <= refs.len(),
            lines_of(rows@) == head + target_lines(refs@).take(i as int),
        decreases refs.len() - i,
    {
        let text = cat2("  ", refs[i].name.as_str());
        push_row(rows, DetailRow::link(text, ObjectKind::RouteTarget, refs[i].id));
        proof {
            let all = target_lines(refs@);
            assert(all.take(i as int + 1) =~= all.take(i as int).push(all[i as int]));
            assert(head + all.take(i as int + 1) =~= (head + all.take(i as int)).push(
                all[i as int],
            ));
        }
        i = i + 1;
    }
    proof {
        assert(target_lines(refs@).take(i as int) =~= target_lines(refs@));
    }
}

/// The route targets of a VRF; each opens the target.
pub fn vrf_target_detail_rows(import: &Vec<RouteTargetRef>, export: &Vec<RouteTargetRef>) -> (r: Vec<
    DetailRow,
>)
    ensures
        lines_of(r@) == vrf_target_lines(import@, export@),
{
    if import.is_empty() && export.is_empty() {
        return single_row(DetailRow::plain("(no route targets)".to_owned()));
    }
    let mut rows: Vec<DetailRow> = Vec::new();
    push_targets(&mut rows, "Import", import);
    push_targets(&mut rows, "Export", export);
    proof {
        reveal_strlit("Import");
        reveal_strlit(" (");
        reveal_strlit("Import (");
        reveal_strlit("Export");
        reveal_strlit("Export (");
        assert("Import"@ + " ("@ =~= "Import ("@);
        assert("Export"@ + " ("@ =~= "Export ("@);
        assert(lines_of(rows@) =~= vrf_target_lines(import@, export@));
    }
    rows
}

/// A line saying how many more there are; none when all are listed.
pub open spec fn more_line(total: u64, listed: nat, tail: Text) -> Seq<Line> {
    if total > listed {
        seq![plain_line("… "@ + decimal_text((total - listed) as nat) + tail)]
    } else {
        Seq::empty()
    }
}

/// The prefixes of a VRF, with a note on those not listed.
pub open spec fn vrf_prefix_lines(rows: Seq<VrfPrefixRow>, total: u64) -> Seq<Line> {
    if rows.len() == 0 {
        seq![plain_line("(no prefixes in this VRF)"@)]
    } else {
        Seq::new(rows.len(), |i: int| link_line(rows[i].line(), ObjectKind::Prefix, rows[i].id))
            + more_line(total, rows.len(), " more (showing "@ + decimal_text(rows.len()) + ")"@)
    }
}

/// The prefixes of a VRF; each opens the prefix.
pub fn vrf_prefix_detail_rows(prefixes: &Vec<VrfPrefixRow>, total: u64) -> (r: Vec<DetailRow>)
    ensures
        lines_of(r@) == vrf_prefix_lines(prefixes@, total),
{
    if prefixes.is_empty() {
        return single_row(DetailRow::plain("(no prefixes in this VRF)".to_owned()));
    }
    let mut rows: Vec<DetailRow> = Vec::new();
    let mut i: usize = 0;
    while i < prefixes.len()
        invariant
            i <= prefixes.len(),
            rows.len() == i,
            forall|j: int|
                0 <= j < i ==> (#[trigger] rows@[j])@ == link_line(
                    prefixes@[j].line(),
                    ObjectKind::Prefix,
                    prefixes@[j].id,
                ),
        decreases prefixes.len() - i,
    {
        rows.push(
            DetailRow::link(prefixes[i].display_line(), ObjectKind::Prefix, prefixes[i].id),
        );
        i = i + 1;
    }
    let shown: u64 = prefixes.len() as u64;
    if total > shown {
        let rest = decimal(total - shown);
        let n = decimal_len(prefixes.len());
        let tail = cat3(" more (showing ", n.as_str(), ")");
        push_row(&mut rows, DetailRow::plain(cat3("… ", rest.as_str(), tail.as_str())));
    }
    proof {
        assert(lines_of(rows@) =~= vrf_prefix_lines(prefixes@, total));
    }
    rows
}

/// The addresses of a VRF, with a note on those not listed.
pub open spec fn vrf_address_lines(rows: Seq<VrfAddressRow>, total: u64) -> Seq<Line> {
    if rows.len() == 0 {
        seq![plain_line("(no addresses in this VRF)"@)]
    } else {
        Seq::new(rows.len(), |i: int| link_line(rows[i].line(), ObjectKind::IpAddress, rows[i].id))
            + more_line(total, rows.len(), " more"@)
    }
}

/// The addresses of a VRF; each opens the address.
pub fn vrf_address_detail_rows(addresses: &Vec<VrfAddressRow>, total: u64) -> (r: Vec<DetailRow>)
    ensures
        lines_of(r@) == vrf_address_lines(addresses@, total),
{
    if addresses.is_empty() {
        return single_row(DetailRow::plain("(no addresses in this VRF)".to_owned()));
    }
    let mut rows: Vec<DetailRow> = Vec::new();
    let mut i: usize = 0;
    while i < addresses.len()
        invariant
            i <= addresses.len(),
            rows.len() == i,
            forall|j: int|
                0 <= j < i ==> (#[trigger] rows@[j])@ == link_line(
                    addresses@[j].line(),
                    ObjectKind::IpAddress,
                    addresses@[j].id,
                ),
        decreases addresses.len() - i,
    {
        rows.push(
            DetailRow::link(addresses[i].display_line(), ObjectKind::IpAddress, addresses[i].id),
        );
        i = i + 1;
    }
    let shown: u64 = addresses.len() as u64;
    if total > shown {
        let rest = decimal(total - shown);
        push_row(&mut rows, DetailRow::plain(cat3("… ", rest.as_str(), " more")));
    }
    proof {
        assert(lines_of(rows@) =~= vrf_address_lines(addresses@, total));
    }
    rows
}

/// A list of VRFs, each with a link.
pub open spec fn vrf_ref_lines(vrfs: Seq<VrfRef>, empty: Text) -> Seq<Line> {
    or_placeholder(
        Seq::new(vrfs.len(), |i: int| link_line(vrfs[i].line(), ObjectKind::Vrf, vrfs[i].id)),
        empty,
    )
}

/// The VRFs of a route target; each opens the VRF.
pub fn route_target_vrf_rows(vrfs: &Vec<VrfRef>, empty: &str) -> (r: Vec<DetailRow>)
    ensures
        lines_of(r@) == vrf_ref_lines(vrfs@, empty@),
{
    if vrfs.is_empty() {
        return single_row(DetailRow::plain(empty.to_owned()));
    }
    let mut rows: Vec<DetailRow> = Vec::new();
    let mut i: usize = 0;
    while i < vrfs.len()
        invariant
            0 < vrfs.len(),
            i <= vrfs.len(),
            rows.len() == i,
            forall|j: int| 0 <= j < i ==> (#[trigger] rows@[j])@ == vrf_ref_lines(vrfs@, empty@)[j],
        decreases vrfs.len() - i,
    {
        rows.push(DetailRow::link(vrfs[i].display_line(), ObjectKind::Vrf, vrfs[i].id));
        i = i + 1;
    }
    proof {
        assert(lines_of(rows@) =~= vrf_ref_lines(vrfs@, empty@));
    }
    rows
}

// ===== Laws ==============================================================

/// The rows of a device's sections stand in the places of what they list, and each
/// opens that: an address, a VLAN, an interface, and for a cable its local interface.
pub proof fn device_rows_open_what_they_list(
    ips: Seq<IpRow>,
    vlans: Seq<VlanRow>,
    ifaces: Seq<IfaceRow>,
    cables: Seq<CableRow>,
    i: int,
)
    ensures
        ip_row_lines(ips).len() == ips.len(),
        0 <= i < ips.len() ==> ip_row_lines(ips)[i] == (
            ips[i].line(),
            Some((ObjectKind::IpAddress, ips[i].id)),
        ),
        vlan_row_lines(vlans).len() == vlans.len(),
        0 <= i < vlans.len() ==> vlan_row_lines(vlans)[i] == (
            vlans[i].vlan@,
            Some((ObjectKind::Vlan, vlans[i].id)),
        ),
        iface_row_lines(ifaces).len() == ifaces.len(),
        0 <= i < ifaces.len() ==> iface_row_lines(ifaces)[i] == (
            ifaces[i].line(),
            Some((ObjectKind::Interface, ifaces[i].id)),
        ),
        cable_row_lines(cables).len() == cables.len(),
        0 <= i < cables.len() ==> cable_row_lines(cables)[i] == (
            cables[i].line(" → "@),
            Some((ObjectKind::Interface, cables[i].id)),
        ),
{
}

/// A list of devices, racks, prefixes or addresses has one row for each, in order, which
/// opens it; an empty list has one row that says so and opens nothing.
pub proof fn listed_objects_open_themselves(
    devices: Seq<Device>,
    racks: Seq<Rack>,
    prefixes: Seq<Prefix>,
    ips: Seq<IpAddress>,
    empty: Text,
    i: int,
)
    ensures
        devices.len() == 0 ==> device_lines(devices) == seq![("(no devices)"@, None::<(ObjectKind, u64)>)],
        devices.len() > 0 ==> device_lines(devices).len() == devices.len(),
        0 <= i < devices.len() ==> device_lines(devices)[i] == (
            devices[i].name@,
            Some((ObjectKind::Device, devices[i].id)),
        ),
        racks.len() == 0 ==> rack_lines(racks) == seq![("(no racks)"@, None::<(ObjectKind, u64)>)],
        racks.len() > 0 ==> rack_lines(racks).len() == racks.len(),
        0 <= i < racks.len() ==> rack_lines(racks)[i] == (
            racks[i].name@,
            Some((ObjectKind::Rack, racks[i].id)),
        ),
        prefixes.len() == 0 ==> prefix_lines(prefixes, empty) == seq![(empty, None::<(ObjectKind, u64)>)],
        prefixes.len() > 0 ==> prefix_lines(prefixes, empty).len() == prefixes.len(),
        0 <= i < prefixes.len() ==> prefix_lines(prefixes, empty)[i] == (
            prefixes[i].prefix@,
            Some((ObjectKind::Prefix, prefixes[i].id)),
        ),
        ips.len() == 0 ==> contained_lines(ips) == seq![("(no addresses)"@, None::<(ObjectKind, u64)>)],
        ips.len() > 0 ==> contained_lines(ips).len() == ips.len(),
        0 <= i < ips.len() ==> contained_lines(ips)[i].1 == Some((ObjectKind::IpAddress, ips[i].id)),
        0 <= i < ips.len() ==> contained_lines(ips)[i].0 == match opt_assigned(
            ips[i].assigned_object,
        ) {
            Some(a) => ips[i].address@ + "  "@ + a,
            None => ips[i].address@,
        },
{
}

/// The rows of a VRF open its prefixes and addresses in order; when there are more than
/// are listed, one more row says how many.
pub proof fn vrf_rows_open_what_they_list(
    prefixes: Seq<VrfPrefixRow>,
    addresses: Seq<VrfAddressRow>,
    total: u64,
    i: int,
)
    ensures
        prefixes.len() == 0 ==> vrf_prefix_lines(prefixes, total) == seq![
            ("(no prefixes in this VRF)"@, None::<(ObjectKind, u64)>),
        ],
        0 <= i < prefixes.len() ==> vrf_prefix_lines(prefixes, total)[i] == (
            prefixes[i].line(),
            Some((ObjectKind::Prefix, prefixes[i].id)),
        ),
        0 < prefixes.len() && total <= prefixes.len() ==> vrf_prefix_lines(prefixes, total).len()
            == prefixes.len(),
        0 < prefixes.len() < total ==> {
            let lines = vrf_prefix_lines(prefixes, total);
            &&& lines.len() == prefixes.len() + 1
            &&& lines.last().1 is None
            &&& lines.last().0 == "… "@ + decimal_text((total - prefixes.len()) as nat) + (
            " more (showing "@ + decimal_text(prefixes.len()) + ")"@)
        },
        addresses.len() == 0 ==> vrf_address_lines(addresses, total) == seq![
            ("(no addresses in this VRF)"@, None::<(ObjectKind, u64)>),
        ],
        0 <= i < addresses.len() ==> vrf_address_lines(addresses, total)[i] == (
            addresses[i].line(),
            Some((ObjectKind::IpAddress, addresses[i].id)),
        ),
        0 < addresses.len() && total <= addresses.len() ==> vrf_address_lines(
            addresses,
            total,
        ).len() == addresses.len(),
        0 < addresses.len() < total ==> {
            let lines = vrf_address_lines(addresses, total);
            &&& lines.len() == addresses.len() + 1
            &&& lines.last().1 is None
            &&& lines.last().0 == "… "@ + decimal_text((total - addresses.len()) as nat) + " more"@
        },
{
}

/// The route targets of a VRF stand under their directions with their counts, imports
/// first, each opening its target; the VRFs of a route target each open their VRF.
pub proof fn route_targets_open_what_they_list(
    import: Seq<RouteTargetRef>,
    export: Seq<RouteTargetRef>,
    vrfs: Seq<VrfRef>,
    empty: Text,
    i: int,
)
    ensures
        import.len() == 0 && export.len() == 0 ==> vrf_target_lines(import, export) == seq![
            ("(no route targets)"@, None::<(ObjectKind, u64)>),
        ],
        import.len() + export.len() > 0 ==> {
            let lines = vrf_target_lines(import, export);
            &&& lines.len() == import.len() + export.len() + 2
            &&& lines[0] == ("Import ("@ + decimal_text(import.len()) + ")"@, None::<(ObjectKind, u64)>)
            &&& 0 <= i < import.len() ==> lines[i + 1] == (
                "  "@ + import[i].name@,
                Some((ObjectKind::RouteTarget, import[i].id)),
            )
            &&& lines[import.len() as int + 1] == (
                "Export ("@ + decimal_text(export.len()) + ")"@,
                None::<(ObjectKind, u64)>,
            )
            &&& 0 <= i < export.len() ==> lines[import.len() as int + 2 + i] == (
                "  "@ + export[i].name@,
                Some((ObjectKind::RouteTarget, export[i].id)),
            )
        },
        vrfs.len() == 0 ==> vrf_ref_lines(vrfs, empty) == seq![(empty, None::<(ObjectKind, u64)>)],
        vrfs.len() > 0 ==> vrf_ref_lines(vrfs, empty).len() == vrfs.len(),
        0 <= i < vrfs.len() ==> vrf_ref_lines(vrfs, empty)[i] == (
            vrfs[i].line(),
            Some((ObjectKind::Vrf, vrfs[i].id)),
        ),
        counted(empty, vrfs.len()) == empty + "·"@ + decimal_text(vrfs.len()),
{
}

} // verus!
