//! The details of VRFs and route targets.

use vstd::prelude::*;

use crate::domain::custom::shown_fields;
use crate::domain::detail::rows::{
    count_label,
    counted,
    route_target_vrf_rows,
    total_label,
    vrf_address_detail_rows,
    vrf_address_lines,
    vrf_prefix_detail_rows,
    vrf_prefix_lines,
    vrf_ref_lines,
    vrf_target_detail_rows,
    vrf_target_lines,
};
use crate::domain::detail::view::{
    lines_text,
    links_of,
    row_tab,
    rows_to_text,
    DetailTab,
    DetailView,
    Link,
    ObjectLink,
    Screen,
};
use crate::domain::route_target_view::{vrf_section, RouteTargetDetail, RouteTargetView, VrfRef};
use crate::domain::util::{keep_text, kept_text};
use crate::domain::vrf_view::{VrfAddressRow, VrfDetail, VrfPrefixRow, VrfView};
use crate::netbox::models::{
    opt_label,
    opt_value,
    slugs,
    value_of,
    IpAddress,
    Prefix,
    RouteTarget,
    Vrf,
};
use crate::netbox::search::ObjectKind;
use crate::number::{decimal_len, decimal_text, number_value, parse_u8};
use crate::order::{places_are_unique, sort_stable, sorting_forgets_order, stably_sorted, Ranked};
use crate::split::{before_first, head_before, split_first, split_once};
use crate::text::{cat2, cat5, join, joined, opt_text, texts, Text};

verus! {

// ===== Prefixes in tree order ============================================

/// An address as a number; `Unread` when the text is no address.
#[derive(Debug, Clone, Copy, PartialEq, Eq, Structural)]
pub enum ParsedAddress {
    V4(u32),
    V6(u128),
    Unread,
}

/// The place of a prefix in the tree: address family, network address, length.
#[derive(Debug, Clone, Copy, PartialEq, Eq, Structural)]
pub struct PrefixKey {
    pub family: u8,
    pub network: u128,
    pub len: u8,
}

/// The length that a prefix is written with; zero when there is none to read.
pub open spec fn written_len(cidr: Text) -> nat {
    match split_first(cidr, '/') {
        Some((addr, len)) => match number_value(len, u8::MAX as nat) {
            Some(n) => n,
            None => 0,
        },
        None => 0,
    }
}

/// The place of a prefix, given its address as a number. One that is no address
/// comes last.
pub open spec fn key_of(cidr: Text, address: ParsedAddress) -> PrefixKey {
    match address {
        ParsedAddress::V4(a) => PrefixKey {
            family: 0,
            network: a as u128,
            len: written_len(cidr) as u8,
        },
        ParsedAddress::V6(a) => PrefixKey { family: 1, network: a, len: written_len(cidr) as u8 },
        ParsedAddress::Unread => PrefixKey {
            family: 2,
            network: u128::MAX,
            len: written_len(cidr) as u8,
        },
    }
}

/// The address part of a prefix.
pub fn address_part(cidr: &str) -> (r: String)
    ensures
        r@ == before_first(cidr@, '/'),
{
    head_before(cidr, '/')
}

/// The place of a prefix in the tree.
pub fn prefix_sort_key(cidr: &str, address: ParsedAddress) -> (r: PrefixKey)
    ensures
        r == key_of(cidr@, address),
{
    let len: u8 = match split_once(cidr, '/') {
        Some((_, len)) => match parse_u8(len.as_str()) {
            Some(n) => n,
            None => 0,
        },
        None => 0,
    };
    match address {
        ParsedAddress::V4(a) => PrefixKey { family: 0, network: a as u128, len },
        ParsedAddress::V6(a) => PrefixKey { family: 1, network: a, len },
        ParsedAddress::Unread => PrefixKey {
            family: 2,
            network: 0xffff_ffff_ffff_ffff_ffff_ffff_ffff_ffff,
            len,
        },
    }
}

/// A prefix with its place in the tree.
#[derive(Debug)]
pub struct PlacedPrefix {
    pub key: PrefixKey,
    pub prefix: Prefix,
}

impl Ranked for PlacedPrefix {
    /// Prefixes are ordered by family, then network, then length, so that a
    /// container comes before what it contains.
    open spec fn ranks_le(&self, other: &Self) -> bool {
        if self.key.family != other.key.family {
            self.key.family < other.key.family
        } else if self.key.network != other.key.network {
            self.key.network < other.key.network
        } else {
            self.key.len <= other.key.len
        }
    }

    fn le(&self, other: &Self) -> (r: bool) {
        if self.key.family != other.key.family {
            self.key.family < other.key.family
        } else if self.key.network != other.key.network {
            self.key.network < other.key.network
        } else {
            self.key.len <= other.key.len
        }
    }

    proof fn rank_total(&self, other: &Self) {
    }

    proof fn rank_transitive(&self, mid: &Self, other: &Self) {
    }
}

/// Puts prefixes in tree order.
pub fn sort_prefixes(prefixes: Vec<PlacedPrefix>) -> (r: Vec<PlacedPrefix>)
    ensures
        r@ == stably_sorted(prefixes@),
{
    sort_stable(prefixes)
}

/// A container comes before the prefixes at the same address that are longer.
pub proof fn containers_come_first(container: PlacedPrefix, child: PlacedPrefix)
    requires
        container.key.family == child.key.family,
        container.key.network <= child.key.network,
        container.key.len < child.key.len,
    ensures
        container.ranks_le(&child),
        !child.ranks_le(&container),
{
}

// ===== The detail of a VRF ===============================================

/// A prefix placed in a VRF's tree.
#[derive(Debug)]
pub struct PrefixNode {
    pub id: u64,
    pub prefix: String,
    pub depth: u64,
    pub status: Option<String>,
    pub description: String,
    pub utilization: Option<u8>,
}

/// Whether a row shows a node of the tree.
pub open spec fn row_is_node(row: VrfPrefixRow, n: PrefixNode) -> bool {
    &&& row.id == n.id
    &&& row.prefix == n.prefix
    &&& row.depth == n.depth
    &&& row.status == n.status
    &&& row.description == n.description
    &&& row.utilization == n.utilization
}

/// Whether a row shows an address.
pub open spec fn row_is_address(row: VrfAddressRow, ip: IpAddress) -> bool {
    &&& row.id == ip.id
    &&& row.address == ip.address
    &&& opt_text(row.status) == opt_value(ip.status)
    &&& opt_text(row.dns_name) == kept_text(ip.dns_name)
}

/// How many there are: what the server counted, else how many were read.
pub open spec fn total_of(count: Option<u64>, read: nat) -> u64 {
    match count {
        Some(n) => n,
        None => read as u64,
    }
}

/// Where a VRF's prefixes and addresses come from.
#[derive(Debug)]
pub enum ChildrenSource {
    Graphql,
    /// From REST; holds the error of a GraphQL read that failed before.
    Rest { graphql_error: Option<String> },
}

/// Where to read first.
pub fn first_source(uses_graphql: bool) -> (r: ChildrenSource)
    ensures
        uses_graphql ==> r is Graphql,
        !uses_graphql ==> r is Rest && r->graphql_error is None,
{
    if uses_graphql {
        ChildrenSource::Graphql
    } else {
        ChildrenSource::Rest { graphql_error: None }
    }
}

/// Where to read after a GraphQL read failed: from REST.
pub fn after_graphql_error(error: String) -> (r: ChildrenSource)
    ensures
        r is Rest,
        r->graphql_error == Some(error),
{
    ChildrenSource::Rest { graphql_error: Some(error) }
}

/// The note on a REST read that failed after GraphQL had failed.
pub fn fallback_note(surface: &str, graphql_error: &str) -> (r: String)
    ensures
        r@ == "GraphQL "@ + surface@ + " bundle failed ("@ + graphql_error@
            + "); REST fallback also failed"@,
{
    cat5("GraphQL ", surface, " bundle failed (", graphql_error, "); REST fallback also failed")
}

/// Whether a detail shows a VRF with its tree and its addresses. `read` is how
/// many prefixes the tree was made of.
pub open spec fn vrf_detail_is_of(
    d: VrfDetail,
    vrf: Vrf,
    read: u64,
    nodes: Seq<PrefixNode>,
    ips: Seq<IpAddress>,
) -> bool {
    &&& d.summary.is_of(vrf)
    &&& d.prefixes@.len() == nodes.len()
    &&& forall|i: int| 0 <= i < nodes.len() ==> row_is_node(#[trigger] d.prefixes@[i], nodes[i])
    &&& d.addresses@.len() == ips.len()
    &&& forall|i: int| 0 <= i < ips.len() ==> row_is_address(#[trigger] d.addresses@[i], ips[i])
    &&& d.prefix_total == total_of(vrf.prefix_count, read as nat)
    &&& d.address_total == total_of(vrf.ipaddress_count, ips.len())
}

/// Composes the detail of a VRF from its tree and its addresses. `read` is how many
/// prefixes the tree was made of.
pub fn build_vrf_detail(
    vrf: Vrf,
    read: u64,
    nodes: Vec<PrefixNode>,
    ips: Vec<IpAddress>,
) -> (r: VrfDetail)
    ensures
        vrf_detail_is_of(r, vrf, read, nodes@, ips@),
{
    let summary = VrfView::from_model(vrf);
    let prefix_total: u64 = match summary.prefix_count {
        Some(n) => n,
        None => read,
    };
    let address_total: u64 = match summary.ipaddress_count {
        Some(n) => n,
        None => ips.len() as u64,
    };
    let ghost all = nodes@;
    let mut prefixes: Vec<VrfPrefixRow> = Vec::new();
    for n in it: nodes
        invariant
            it.seq() == all,
            prefixes@.len() == it.index(),
            forall|j: int|
                0 <= j < prefixes@.len() ==> row_is_node(#[trigger] prefixes@[j], all[j]),
    {
        prefixes.push(
            VrfPrefixRow {
                id: n.id,
                prefix: n.prefix,
                depth: n.depth,
                status: n.status,
                description: n.description,
                utilization: n.utilization,
            },
        );
    }
    let ghost all_ips = ips@;
    let mut addresses: Vec<VrfAddressRow> = Vec::new();
    for ip in it: ips
        invariant
            it.seq() == all_ips,
            addresses@.len() == it.index(),
            forall|j: int|
                0 <= j < addresses@.len() ==> row_is_address(#[trigger] addresses@[j], all_ips[j]),
    {
        let status = value_of(&ip.status);
        addresses.push(
            VrfAddressRow {
                id: ip.id,
                address: ip.address,
                status,
                dns_name: keep_text(ip.dns_name),
            },
        );
    }
    VrfDetail { summary, prefixes, addresses, prefix_total, address_total }
}

/// The parts of a VRF's header line.
pub open spec fn header_parts(v: VrfView) -> Seq<Text> {
    seq![
        "RD "@ + match v.rd {
            Some(rd) => rd@,
            None => "—"@,
        },
    ] + match v.tenant {
        Some(t) => seq!["Tenant "@ + t@],
        None => Seq::empty(),
    } + if v.import_targets@.len() == 0 && v.export_targets@.len() == 0 {
        Seq::empty()
    } else {
        seq![
            "RT ↓"@ + decimal_text(v.import_targets@.len()) + " ↑"@ + decimal_text(
                v.export_targets@.len(),
            ),
        ]
    } + match v.enforce_unique {
        Some(b) => seq![
            "enforce-uniq "@ + if b {
                "✓"@
            } else {
                "✗"@
            },
        ],
        None => Seq::empty(),
    }
}

/// The header of a VRF: a line of facts, and its description.
pub open spec fn vrf_header(v: VrfView) -> Seq<Text> {
    seq![joined(header_parts(v), "   "@)] + match v.description {
        Some(d) => seq![d@],
        None => Seq::empty(),
    }
}

/// Writes the header of a VRF.
pub fn vrf_header_lines(v: &VrfView) -> (r: Vec<String>)
    ensures
        texts(r@) == vrf_header(*v),
{
    let mut top: Vec<String> = Vec::new();
    let rd = match &v.rd {
        Some(rd) => cat2("RD ", rd.as_str()),
        None => cat2("RD ", "—"),
    };
    top.push(rd);
    if let Some(t) = &v.tenant {
        top.push(cat2("Tenant ", t.as_str()));
    }
    if !(v.import_targets.is_empty() && v.export_targets.is_empty()) {
        let down = decimal_len(v.import_targets.len());
        let up = decimal_len(v.export_targets.len());
        top.push(crate::text::cat4("RT ↓", down.as_str(), " ↑", up.as_str()));
    }
    if let Some(b) = v.enforce_unique {
        top.push(
            if b {
                cat2("enforce-uniq ", "✓")
            } else {
                cat2("enforce-uniq ", "✗")
            },
        );
    }
    proof {
        assert(texts(top@) =~= header_parts(*v));
    }
    let mut lines: Vec<String> = Vec::new();
    lines.push(join(&top, "   "));
    if let Some(d) = &v.description {
        lines.push(d.clone());
    }
    proof {
        assert(texts(lines@) =~= vrf_header(*v));
    }
    lines
}

/// The screen of a VRF: a header over its prefixes, with its addresses and its
/// route targets as tabs.
pub open spec fn vrf_screen(
    links: Seq<Link>,
    d: VrfDetail,
) -> Screen {
    let prefixes = vrf_prefix_lines(d.prefixes@, d.prefix_total);
    Screen {
        kind: ObjectKind::Vrf,
        id: d.summary.id,
        title: "vrf "@ + d.summary.name@,
        body: lines_text(prefixes),
        tabs: seq![
            row_tab(
                'a',
                counted("addresses"@, d.address_total as nat),
                vrf_address_lines(d.addresses@, d.address_total),
            ),
            row_tab(
                't',
                counted(
                    "targets"@,
                    d.summary.import_targets@.len() + d.summary.export_targets@.len(),
                ),
                vrf_target_lines(d.summary.import_targets@, d.summary.export_targets@),
            ),
        ],
        links,
        header: vrf_header(d.summary),
        summary_label: counted("prefixes"@, d.prefix_total as nat),
        summary_rows: prefixes,
    }
}

/// Lays a VRF out as a screen.
pub fn vrf_detail_view(links: Vec<ObjectLink>, detail: VrfDetail) -> (r: DetailView)
    requires
        detail.summary.import_targets@.len() + detail.summary.export_targets@.len() <= u64::MAX,
    ensures
        r@ == vrf_screen(links_of(links@), detail),
{
    let header = vrf_header_lines(&detail.summary);
    let targets: u64 = detail.summary.import_targets.len() as u64
        + detail.summary.export_targets.len() as u64;
    let target_rows = vrf_target_detail_rows(
        &detail.summary.import_targets,
        &detail.summary.export_targets,
    );
    let prefix_rows = vrf_prefix_detail_rows(&detail.prefixes, detail.prefix_total);
    let address_rows = vrf_address_detail_rows(&detail.addresses, detail.address_total);
    let mut tabs: Vec<DetailTab> = Vec::new();
    tabs.push(
        DetailTab::of_rows('a', total_label("addresses", detail.address_total), address_rows),
    );
    tabs.push(DetailTab::of_rows('t', total_label("targets", targets), target_rows));
    let title = cat2("vrf ", detail.summary.name.as_str());
    let body = rows_to_text(&prefix_rows);
    let summary_label = total_label("prefixes", detail.prefix_total);
    let r = DetailView::new(ObjectKind::Vrf, detail.summary.id, title, body).with_tabs(
        tabs,
    ).with_links(links).with_header(header).with_summary(summary_label, prefix_rows);
    proof {
        assert(r@.tabs =~= vrf_screen(links_of(links@), detail).tabs);
    }
    r
}

// ===== The detail of a route target ======================================

/// Puts references in the order of VRFs: by name, then route distinguisher.
pub fn sort_vrf_refs(refs: Vec<VrfRef>) -> (r: Vec<VrfRef>)
    ensures
        r@ == stably_sorted(refs@),
{
    sort_stable(refs)
}

/// Whether a detail shows a route target with the VRFs that use it, in order.
pub open spec fn target_detail_is_of(
    d: RouteTargetDetail,
    target: RouteTarget,
    importing: Seq<VrfRef>,
    exporting: Seq<VrfRef>,
) -> bool {
    &&& d.summary.id == target.id
    &&& d.summary.name == target.name
    &&& opt_text(d.summary.tenant) == opt_label(target.tenant)
    &&& opt_text(d.summary.description) == kept_text(target.description)
    &&& opt_text(d.summary.owner) == opt_label(target.owner)
    &&& texts(d.summary.tags@) == slugs(target.tags@)
    &&& d.summary.custom_fields@ == shown_fields(target.custom_fields)
    &&& d.importing_vrfs@ == stably_sorted(importing)
    &&& d.exporting_vrfs@ == stably_sorted(exporting)
}

/// Composes the detail of a route target. Both lists come out in order, however
/// they were read.
pub fn build_route_target_detail(
    target: RouteTarget,
    importing: Vec<VrfRef>,
    exporting: Vec<VrfRef>,
) -> (r: RouteTargetDetail)
    ensures
        target_detail_is_of(r, target, importing@, exporting@),
{
    RouteTargetDetail {
        summary: RouteTargetView::from_model(target),
        importing_vrfs: sort_vrf_refs(importing),
        exporting_vrfs: sort_vrf_refs(exporting),
    }
}

/// The detail of a route target does not depend on the order in which the VRFs
/// were read, nor on where from.
pub proof fn source_order_is_forgotten(
    d: RouteTargetDetail,
    e: RouteTargetDetail,
    target: RouteTarget,
    importing: Seq<VrfRef>,
    exporting: Seq<VrfRef>,
    importing_too: Seq<VrfRef>,
    exporting_too: Seq<VrfRef>,
)
    requires
        target_detail_is_of(d, target, importing, exporting),
        target_detail_is_of(e, target, importing_too, exporting_too),
        importing.to_multiset() == importing_too.to_multiset(),
        exporting.to_multiset() == exporting_too.to_multiset(),
        places_are_unique(importing),
        places_are_unique(exporting),
    ensures
        d.importing_vrfs@ == e.importing_vrfs@,
        d.exporting_vrfs@ == e.exporting_vrfs@,
        vrf_section("Importing VRFs"@, d.importing_vrfs@) == vrf_section(
            "Importing VRFs"@,
            e.importing_vrfs@,
        ),
        vrf_section("Exporting VRFs"@, d.exporting_vrfs@) == vrf_section(
            "Exporting VRFs"@,
            e.exporting_vrfs@,
        ),
{
    sorting_forgets_order(importing, importing_too);
    sorting_forgets_order(exporting, exporting_too);
}

/// The header of a route target: its tenant and its description.
pub open spec fn target_header(v: RouteTargetView) -> Seq<Text> {
    Seq::<Text>::empty() + match v.tenant {
        Some(t) => seq!["Tenant "@ + t@],
        None => Seq::empty(),
    } + match v.description {
        Some(d) => seq![d@],
        None => Seq::empty(),
    }
}

/// Writes the header of a route target.
pub fn route_target_header_lines(v: &RouteTargetView) -> (r: Vec<String>)
    ensures
        texts(r@) == target_header(*v),
{
    let mut lines: Vec<String> = Vec::new();
    if let Some(t) = &v.tenant {
        lines.push(cat2("Tenant ", t.as_str()));
    }
    if let Some(d) = &v.description {
        lines.push(d.clone());
    }
    proof {
        assert(texts(lines@) =~= target_header(*v));
    }
    lines
}

/// The screen of a route target: a header over the VRFs that import it, with
/// those that export it as a tab.
pub open spec fn route_target_screen(
    links: Seq<Link>,
    d: RouteTargetDetail,
) -> Screen {
    let importing = vrf_ref_lines(d.importing_vrfs@, "(no VRFs import this target)"@);
    Screen {
        kind: ObjectKind::RouteTarget,
        id: d.summary.id,
        title: "route-target "@ + d.summary.name@,
        body: lines_text(importing),
        tabs: seq![
            row_tab(
                'e',
                counted("exporting"@, d.exporting_vrfs@.len()),
                vrf_ref_lines(d.exporting_vrfs@, "(no VRFs export this target)"@),
            ),
        ],
        links,
        header: target_header(d.summary),
        summary_label: counted("importing"@, d.importing_vrfs@.len()),
        summary_rows: importing,
    }
}

/// Lays a route target out as a screen.
pub fn route_target_detail_view(links: Vec<ObjectLink>, detail: RouteTargetDetail) -> (r:
    DetailView)
    ensures
        r@ == route_target_screen(links_of(links@), detail),
{
    let header = route_target_header_lines(&detail.summary);
    let importing = route_target_vrf_rows(&detail.importing_vrfs, "(no VRFs import this target)");
    let exporting = route_target_vrf_rows(&detail.exporting_vrfs, "(no VRFs export this target)");
    let mut tabs: Vec<DetailTab> = Vec::new();
    tabs.push(
        DetailTab::of_rows(
            'e',
            count_label("exporting", detail.exporting_vrfs.len()),
            exporting,
        ),
    );
    let title = cat2("route-target ", detail.summary.name.as_str());
    let body = rows_to_text(&importing);
    let label = count_label("importing", detail.importing_vrfs.len());
    let r = DetailView::new(ObjectKind::RouteTarget, detail.summary.id, title, body).with_tabs(
        tabs,
    ).with_links(links).with_header(header).with_summary(label, importing);
    proof {
        assert(r@.tabs =~= route_target_screen(links_of(links@), detail).tabs);
    }
    r
}

/// Prefixes are ordered by family, the first version before the second and unreadable
/// ones last, then by network, then by the length that is written behind the slash.
pub proof fn prefixes_are_ordered_by_network(cidr: Text, len: nat, a: u32, b: u128)
    requires
        !cidr.contains('/'),
        len <= u8::MAX,
    ensures
        written_len(cidr + "/"@ + crate::number::decimal_text(len)) == len,
        written_len(cidr) == 0,
        key_of(cidr + "/"@ + crate::number::decimal_text(len), ParsedAddress::V4(a)) == (
        PrefixKey { family: 0, network: a as u128, len: len as u8 }),
        key_of(cidr + "/"@ + crate::number::decimal_text(len), ParsedAddress::V6(b)) == (
        PrefixKey { family: 1, network: b, len: len as u8 }),
        key_of(cidr + "/"@ + crate::number::decimal_text(len), ParsedAddress::Unread) == (
        PrefixKey { family: 2, network: u128::MAX, len: len as u8 }),
{
    let d = crate::number::decimal_text(len);
    let s = cidr + "/"@ + d;
    reveal_strlit("/");
    assert forall|i: int| 0 <= i < cidr.len() implies s[i] != '/' by {
        assert(cidr.contains(cidr[i]));
        assert(s[i] == cidr[i]);
    }
    crate::split::first_index_is(s, '/', cidr.len() as int);
    assert(s.skip(cidr.len() as int + 1) =~= d);
    crate::number::decimal_round_trip(len, u8::MAX as nat);
    assert forall|i: int| 0 <= i < cidr.len() implies cidr[i] != '/' by {
        assert(cidr.contains(cidr[i]));
    }
    crate::split::first_index_is(cidr, '/', cidr.len() as int);
}

/// One placed prefix stands before another exactly when its family, network and length,
/// taken in this order, are the smaller ones.
pub proof fn families_come_before_networks(a: PlacedPrefix, b: PlacedPrefix)
    ensures
        a.key.family < b.key.family ==> a.ranks_le(&b) && !b.ranks_le(&a),
        a.key.family == b.key.family && a.key.network < b.key.network ==> a.ranks_le(&b)
            && !b.ranks_le(&a),
        a.key.family == b.key.family && a.key.network == b.key.network && a.key.len < b.key.len
            ==> a.ranks_le(&b) && !b.ranks_le(&a),
        a.key.family == b.key.family && a.key.network == b.key.network && a.key.len == b.key.len
            ==> a.ranks_le(&b) && b.ranks_le(&a),
{
}

/// The rows of a VRF are its prefixes and addresses, position by position, and its totals
/// are those that the VRF itself counts; what it does not count is as many as was read.
pub proof fn vrf_details_hold_what_was_read(
    d: VrfDetail,
    vrf: Vrf,
    read: u64,
    nodes: Seq<PrefixNode>,
    ips: Seq<IpAddress>,
    i: int,
)
    requires
        vrf_detail_is_of(d, vrf, read, nodes, ips),
        ips.len() <= u64::MAX,
    ensures
        d.prefixes@.len() == nodes.len(),
        d.addresses@.len() == ips.len(),
        0 <= i < nodes.len() ==> d.prefixes@[i].id == nodes[i].id && d.prefixes@[i].prefix
            == nodes[i].prefix && d.prefixes@[i].depth == nodes[i].depth && d.prefixes@[i].status
            == nodes[i].status && d.prefixes@[i].description == nodes[i].description
            && d.prefixes@[i].utilization == nodes[i].utilization,
        0 <= i < ips.len() ==> {
            let row = d.addresses@[i];
            &&& row.id == ips[i].id && row.address == ips[i].address
            &&& row.status is Some <==> ips[i].status is Some
            &&& ips[i].status is Some ==> row.status->0@ == ips[i].status->0.value@
            &&& row.dns_name is Some <==> ips[i].dns_name is Some && ips[i].dns_name->0@.len() > 0
            &&& row.dns_name is Some ==> row.dns_name->0@ == ips[i].dns_name->0@
        },
        vrf.prefix_count is Some ==> d.prefix_total == vrf.prefix_count->0,
        vrf.prefix_count is None ==> d.prefix_total == read,
        vrf.ipaddress_count is Some ==> d.address_total == vrf.ipaddress_count->0,
        vrf.ipaddress_count is None ==> d.address_total == ips.len(),
        d.summary.id == vrf.id && d.summary.name@ == vrf.name@,
        d.summary.enforce_unique == vrf.enforce_unique,
{
}

/// The heading of a VRF tells its route distinguisher, its tenant, how many route targets
/// it has, whether it keeps addresses unique, and its description: each part only where
/// the VRF has it, except for the distinguisher.
pub proof fn vrf_headings_tell_what_is_set(v: VrfView)
    ensures
        header_parts(v).len() > 0,
        v.rd is Some ==> header_parts(v)[0] == "RD "@ + v.rd->0@,
        v.rd is None ==> header_parts(v)[0] == "RD "@ + "—"@,
        header_parts(v).len() == 1 + (if v.tenant is Some {
            1int
        } else {
            0
        }) + (if v.import_targets@.len() + v.export_targets@.len() > 0 {
            1int
        } else {
            0
        }) + (if v.enforce_unique is Some {
            1int
        } else {
            0
        }),
        v.tenant is Some ==> header_parts(v)[1] == "Tenant "@ + v.tenant->0@,
        v.enforce_unique == Some(true) ==> header_parts(v).last() == "enforce-uniq "@ + "✓"@,
        v.enforce_unique == Some(false) ==> header_parts(v).last() == "enforce-uniq "@ + "✗"@,
        v.import_targets@.len() + v.export_targets@.len() > 0 ==> header_parts(v).contains(
            "RT ↓"@ + decimal_text(v.import_targets@.len()) + " ↑"@ + decimal_text(
                v.export_targets@.len(),
            ),
        ),
        vrf_header(v)[0] == joined(header_parts(v), "   "@),
        vrf_header(v).len() == if v.description is Some {
            2int
        } else {
            1int
        },
        v.description is Some ==> vrf_header(v)[1] == v.description->0@,
{
    let at: int = if v.tenant is Some {
        2
    } else {
        1
    };
    if v.import_targets@.len() + v.export_targets@.len() > 0 {
        assert(header_parts(v)[at] == "RT ↓"@ + decimal_text(v.import_targets@.len()) + " ↑"@
            + decimal_text(v.export_targets@.len()));
    }
}

/// A VRF's screen lists its prefixes first and offers its addresses and route targets as
/// tabs, each with its count.
pub proof fn vrf_screens_list_their_parts(links: Seq<Link>, d: VrfDetail)
    ensures
        ({
            let s = vrf_screen(links, d);
            &&& s.kind == ObjectKind::Vrf && s.id == d.summary.id
            &&& s.title == "vrf "@ + d.summary.name@
            &&& s.links == links
            &&& s.summary_rows == vrf_prefix_lines(d.prefixes@, d.prefix_total)
            &&& s.summary_label == "prefixes"@ + "·"@ + decimal_text(d.prefix_total as nat)
            &&& s.body == lines_text(s.summary_rows)
            &&& s.tabs.len() == 2
            &&& s.tabs[0].key == 'a' && s.tabs[1].key == 't'
            &&& s.tabs[0].label == "addresses"@ + "·"@ + decimal_text(d.address_total as nat)
            &&& s.tabs[0].rows == vrf_address_lines(d.addresses@, d.address_total)
            &&& s.tabs[1].label == "targets"@ + "·"@ + decimal_text(
                d.summary.import_targets@.len() + d.summary.export_targets@.len(),
            )
            &&& s.tabs[1].rows == vrf_target_lines(
                d.summary.import_targets@,
                d.summary.export_targets@,
            )
            &&& s.header == vrf_header(d.summary)
        }),
{
}

/// A route target's screen lists the VRFs that import it and offers those that export it
/// as a tab, each with its count; its heading tells its tenant and description.
pub proof fn route_target_screens_list_both_sides(links: Seq<Link>, d: RouteTargetDetail)
    ensures
        ({
            let s = route_target_screen(links, d);
            &&& s.kind == ObjectKind::RouteTarget && s.id == d.summary.id
            &&& s.title == "route-target "@ + d.summary.name@
            &&& s.links == links
            &&& s.summary_rows == vrf_ref_lines(
                d.importing_vrfs@,
                "(no VRFs import this target)"@,
            )
            &&& s.summary_label == "importing"@ + "·"@ + decimal_text(d.importing_vrfs@.len())
            &&& s.body == lines_text(s.summary_rows)
            &&& s.tabs.len() == 1
            &&& s.tabs[0].key == 'e'
            &&& s.tabs[0].label == "exporting"@ + "·"@ + decimal_text(d.exporting_vrfs@.len())
            &&& s.tabs[0].rows == vrf_ref_lines(
                d.exporting_vrfs@,
                "(no VRFs export this target)"@,
            )
            &&& d.summary.tenant is Some ==> s.header.contains("Tenant "@ + d.summary.tenant->0@)
            &&& d.summary.description is Some ==> s.header.len() > 0 && s.header.last()
                == d.summary.description->0@
            &&& d.summary.tenant is None && d.summary.description is None ==> s.header.len() == 0
            &&& s.header.len() <= 2
        }),
{
    let s = route_target_screen(links, d);
    if d.summary.tenant is Some {
        assert(s.header[0] == "Tenant "@ + d.summary.tenant->0@);
    }
}

/// A route target's details keep its own fields, and the VRFs on each side are exactly
/// those that were read for that side.
pub proof fn route_target_details_keep_their_sides(
    d: RouteTargetDetail,
    target: RouteTarget,
    importing: Seq<VrfRef>,
    exporting: Seq<VrfRef>,
)
    requires
        target_detail_is_of(d, target, importing, exporting),
    ensures
        d.summary.id == target.id && d.summary.name@ == target.name@,
        d.importing_vrfs@.to_multiset() == importing.to_multiset(),
        d.exporting_vrfs@.to_multiset() == exporting.to_multiset(),
        crate::order::in_rank_order(d.importing_vrfs@),
        crate::order::in_rank_order(d.exporting_vrfs@),
        d.summary.tenant is Some <==> target.tenant is Some,
        target.tenant is Some ==> d.summary.tenant->0@ == target.tenant->0.label_text(),
        d.summary.description is Some <==> target.description is Some
            && target.description->0@.len() > 0,
        d.summary.description is Some ==> d.summary.description->0@ == target.description->0@,
        d.summary.owner is Some <==> target.owner is Some,
        target.owner is Some ==> d.summary.owner->0@ == target.owner->0.label_text(),
        texts(d.summary.tags@) == slugs(target.tags@),
        d.summary.custom_fields@ == shown_fields(target.custom_fields),
{
    crate::order::sorting_keeps_values(importing);
    crate::order::sorting_keeps_values(exporting);
    crate::order::sorting_orders(importing);
    crate::order::sorting_orders(exporting);
}

} // verus!
