//! Loading a detail screen: what to read for an object, and how to lay it out.

use vstd::prelude::*;

use crate::domain::aggregate_view::AggregateView;
use crate::domain::asn_view::AsnView;
use crate::domain::circuit_view::{
    circuit_middle,
    resolved_diagram,
    CircuitView,
    ResolvedTermination,
};
use crate::domain::cluster_view::ClusterView;
use crate::domain::contact_view::ContactView;
use crate::domain::detail::links::{
    circuit_link_list,
    circuit_links,
    device_link_list,
    device_links,
    interface_links,
    ip_link_list,
    ip_links,
    link_to,
    prefix_link_list,
    prefix_links,
    rack_links,
    route_target_links,
    site_links,
    site_tenant_link_list,
    tenant_link_list,
    vlan_links,
    vrf_links,
};
use crate::domain::detail::plan::{endpoint_of, object_endpoint};
use crate::domain::detail::resolve::{
    in_scope,
    labels_are_listed,
    lists_candidates,
    no_match_text,
    resolve_unique,
    retain_scope,
    retained,
    the_only_one_is_left,
    the_unscoped_are_dropped,
    tui_not_found,
    ScopeField,
};
use crate::domain::detail::routing::{
    build_route_target_detail,
    build_vrf_detail,
    route_target_detail_view,
    route_target_screen,
    target_detail_is_of,
    vrf_detail_is_of,
    vrf_detail_view,
    vrf_screen,
    PrefixNode,
};
use crate::domain::detail::rows::{
    cable_row_lines,
    contained_lines,
    count_label,
    counted,
    device_cable_rows,
    device_interface_rows,
    device_ip_rows,
    device_lines,
    device_link_rows,
    device_vlan_rows,
    iface_row_lines,
    ip_row_lines,
    prefix_ip_rows,
    prefix_lines,
    prefix_link_rows,
    rack_lines,
    rack_link_rows,
    vlan_prefixes_tab,
    vlan_row_lines,
};
use crate::domain::detail::view::{
    lines_of,
    links_of,
    plain_screen,
    push_tab,
    row_tab,
    tabs_of,
    text_tab,
    DetailRow,
    DetailTab,
    DetailView,
    Line,
    Link,
    ObjectLink,
    Screen,
    Tab,
};
use crate::domain::device_detail::{sections_view, DeviceDetail, Section};
use crate::domain::device_view::DeviceView;
use crate::domain::interface_view::{addresses, drawing, endpoint_labels, InterfaceView};
use crate::domain::ip_range_view::IpRangeView;
use crate::domain::ip_view::{is_most_specific, most_specific, IpView};
use crate::domain::mac_view::{assigned_of, carried_by, opt_carried_by, MacView};
use crate::domain::prefix_view::PrefixView;
use crate::domain::provider_view::ProviderView;
use crate::domain::rack_group_view::RackGroupView;
use crate::domain::rack_view::RackView;
use crate::domain::route_target_view::VrfRef;
use crate::domain::site_view::SiteView;
use crate::domain::tenant_view::TenantView;
use crate::domain::util::section_text;
use crate::domain::virtual_circuit_view::VirtualCircuitView;
use crate::domain::vlan_view::VlanView;
use crate::domain::vm_type_view::VirtualMachineTypeView;
use crate::domain::vm_view::VmView;
use crate::error::{ErrorChain, NboxError};
use crate::json::Json;
use crate::netbox::models::{
    labels,
    Aggregate,
    Asn,
    BriefObject,
    Circuit,
    Cluster,
    Contact,
    Device,
    Interface,
    IpAddress,
    IpRange,
    MacAddress,
    Prefix,
    Provider,
    Rack,
    RackGroup,
    RouteTarget,
    Site,
    Tenant,
    VirtualCircuit,
    VirtualCircuitTermination,
    VirtualMachine,
    VirtualMachineType,
    Vlan,
    VlanGroup,
    Vrf,
};
use crate::netbox::query::{
    address_in_table,
    ip_scope_label,
    prefix_in_table,
    prefix_scope_label,
    vlan_in_place,
    vlan_scope_label,
};
use crate::netbox::search::ObjectKind;
use crate::number::{decimal, decimal_text, number_value, parse_u16, parse_u64, read_u32, u32_error};
use crate::output::{rendered, Row};
use crate::split::{before_first, head_before};
use crate::text::{
    cat2,
    cat3,
    cat4,
    cat5,
    chars_of,
    join,
    joined,
    opt_str,
    string_of,
    texts,
    trim,
    trimmed,
    Text,
};

verus! {

/// How many rows one section of a screen reads.
pub const DETAIL_SECTION_CAP: usize = 200;

/// How many addresses the screen of a prefix reads.
pub const PREFIX_CONTAINED_IP_CAP: usize = 512;

/// How many front ports of a panel are read.
pub const PANEL_FRONT_PORT_CAP: usize = 1000;

/// How many journal entries a detail shows by default.
pub const JOURNAL_INLINE_MAX: usize = 5;

// ===== What to read first ================================================

/// A read of one object.
#[derive(Debug)]
pub struct ObjectRequest {
    pub path: String,
    /// Whether to leave out the rendered configuration context.
    pub exclude_config_context: bool,
}

/// The collection that a kind is kept in.
pub open spec fn collection(kind: ObjectKind) -> Text {
    match kind {
        ObjectKind::Device => "/api/dcim/devices/"@,
        ObjectKind::Site => "/api/dcim/sites/"@,
        ObjectKind::Rack => "/api/dcim/racks/"@,
        ObjectKind::RackGroup => "/api/dcim/rack-groups/"@,
        ObjectKind::Interface => "/api/dcim/interfaces/"@,
        ObjectKind::Mac => "/api/dcim/mac-addresses/"@,
        ObjectKind::IpAddress => "/api/ipam/ip-addresses/"@,
        ObjectKind::Prefix => "/api/ipam/prefixes/"@,
        ObjectKind::Vlan => "/api/ipam/vlans/"@,
        ObjectKind::Aggregate => "/api/ipam/aggregates/"@,
        ObjectKind::Asn => "/api/ipam/asns/"@,
        ObjectKind::IpRange => "/api/ipam/ip-ranges/"@,
        ObjectKind::Vrf => "/api/ipam/vrfs/"@,
        ObjectKind::RouteTarget => "/api/ipam/route-targets/"@,
        ObjectKind::Tenant => "/api/tenancy/tenants/"@,
        ObjectKind::Contact => "/api/tenancy/contacts/"@,
        ObjectKind::Circuit => "/api/circuits/circuits/"@,
        ObjectKind::Provider => "/api/circuits/providers/"@,
        ObjectKind::VirtualCircuit => "/api/circuits/virtual-circuits/"@,
        ObjectKind::Vm => "/api/virtualization/virtual-machines/"@,
        ObjectKind::VmType => "/api/virtualization/virtual-machine-types/"@,
        ObjectKind::Cluster => "/api/virtualization/clusters/"@,
    }
}

fn collection_of(kind: ObjectKind) -> (r: &'static str)
    ensures
        r@ == collection(kind),
{
    match kind {
        ObjectKind::Device => "/api/dcim/devices/",
        ObjectKind::Site => "/api/dcim/sites/",
        ObjectKind::Rack => "/api/dcim/racks/",
        ObjectKind::RackGroup => "/api/dcim/rack-groups/",
        ObjectKind::Interface => "/api/dcim/interfaces/",
        ObjectKind::Mac => "/api/dcim/mac-addresses/",
        ObjectKind::IpAddress => "/api/ipam/ip-addresses/",
        ObjectKind::Prefix => "/api/ipam/prefixes/",
        ObjectKind::Vlan => "/api/ipam/vlans/",
        ObjectKind::Aggregate => "/api/ipam/aggregates/",
        ObjectKind::Asn => "/api/ipam/asns/",
        ObjectKind::IpRange => "/api/ipam/ip-ranges/",
        ObjectKind::Vrf => "/api/ipam/vrfs/",
        ObjectKind::RouteTarget => "/api/ipam/route-targets/",
        ObjectKind::Tenant => "/api/tenancy/tenants/",
        ObjectKind::Contact => "/api/tenancy/contacts/",
        ObjectKind::Circuit => "/api/circuits/circuits/",
        ObjectKind::Provider => "/api/circuits/providers/",
        ObjectKind::VirtualCircuit => "/api/circuits/virtual-circuits/",
        ObjectKind::Vm => "/api/virtualization/virtual-machines/",
        ObjectKind::VmType => "/api/virtualization/virtual-machine-types/",
        ObjectKind::Cluster => "/api/virtualization/clusters/",
    }
}

/// The read of an object by kind and id. Devices and virtual machines come
/// without their configuration context.
pub fn object_request(kind: ObjectKind, id: u64) -> (r: ObjectRequest)
    ensures
        r.path@ == object_endpoint(collection(kind), id),
        r.exclude_config_context == (kind == ObjectKind::Device || kind == ObjectKind::Vm),
{
    ObjectRequest {
        path: endpoint_of(collection_of(kind), id),
        exclude_config_context: kind == ObjectKind::Device || kind == ObjectKind::Vm,
    }
}

// ===== Finding an object by reference ====================================

/// How to look an object up.
#[derive(Debug)]
pub enum Lookup {
    /// By its reference.
    Reference,
    /// All addresses that match, of which there must be one.
    Addresses,
    /// By AS number.
    AsNumber(u32),
    /// An interface by its id.
    InterfaceId(u64),
    /// All MAC addresses that match this one, of which there must be one.
    MacAddresses(String),
}

/// A text without its leading letters A and S, large or small.
pub open spec fn trim_as(s: Text) -> Text
    decreases s.len(),
{
    if s.len() > 0 && (s[0] == 'A' || s[0] == 'a' || s[0] == 'S' || s[0] == 's') {
        trim_as(s.skip(1))
    } else {
        s
    }
}

fn trimmed_as(s: &str) -> (r: String)
    ensures
        r@ == trim_as(s@),
{
    let cs = chars_of(s);
    let mut from: usize = 0;
    proof {
        assert(cs@.skip(0) =~= cs@);
    }
    while from < cs.len() && (cs[from] == 'A' || cs[from] == 'a' || cs[from] == 'S' || cs[from]
        == 's')
        invariant
            from <= cs.len(),
            cs@ == s@,
            trim_as(s@) == trim_as(cs@.skip(from as int)),
        decreases cs.len() - from,
    {
        proof {
            assert(cs@.skip(from as int).skip(1) =~= cs@.skip(from as int + 1));
        }
        from = from + 1;
    }
    proof {
        assert(cs@.skip(from as int) =~= cs@.subrange(from as int, cs@.len() as int));
    }
    string_of(&cs, from, cs.len())
}

/// The AS number that a reference spells: `65000`, `AS65000`.
pub open spec fn as_number(value: Text) -> Option<nat> {
    number_value(trim_as(trim(value)), u32::MAX as nat)
}

/// Whether `r` is how to look up an object of a kind by reference. `mac` is the
/// reference as a MAC address, when it is one.
pub open spec fn is_lookup_for(
    r: Result<Lookup, ErrorChain>,
    kind: ObjectKind,
    value: Text,
    mac: Option<String>,
) -> bool {
    match kind {
        ObjectKind::IpAddress => r == Ok::<Lookup, ErrorChain>(Lookup::Addresses),
        ObjectKind::Asn => match as_number(value) {
            Some(n) => r is Ok && r->Ok_0 is AsNumber && r->Ok_0->AsNumber_0 == n,
            None => r is Err && r->Err_0.says(
                seq![
                    "invalid AS number \""@ + value + "\""@,
                    u32_error(trim_as(trim(value)))->0,
                ],
            ),
        },
        ObjectKind::Interface => match number_value(trim(value), u64::MAX as nat) {
            Some(n) => r is Ok && r->Ok_0 is InterfaceId && r->Ok_0->InterfaceId_0 == n,
            None => is_no_match(r, "interface"@, value),
        },
        ObjectKind::Mac => match mac {
            Some(m) => r == Ok::<Lookup, ErrorChain>(Lookup::MacAddresses(m)),
            None => is_no_match(r, "MAC"@, value),
        },
        _ => r == Ok::<Lookup, ErrorChain>(Lookup::Reference),
    }
}

/// How to look up an object of a kind by reference. `mac` is the reference as a
/// MAC address, when it is one.
pub fn lookup_for(kind: ObjectKind, value: &str, mac: Option<String>) -> (r: Result<
    Lookup,
    ErrorChain,
>)
    ensures
        is_lookup_for(r, kind, value@, mac),
{
    match kind {
        ObjectKind::IpAddress => Ok(Lookup::Addresses),
        ObjectKind::Asn => {
            let text = trimmed(value);
            let digits = trimmed_as(text.as_str());
            match read_u32(digits.as_str()) {
                Ok(n) => Ok(Lookup::AsNumber(n)),
                Err(e) => {
                    let note = cat3("invalid AS number \"", value, "\"");
                    Err(ErrorChain::caused(note.as_str(), e))
                },
            }
        },
        ObjectKind::Interface => {
            let text = trimmed(value);
            match parse_u64(text.as_str()) {
                Some(n) => Ok(Lookup::InterfaceId(n)),
                None => Err(ErrorChain::typed(tui_not_found("interface", value))),
            }
        },
        ObjectKind::Mac => match mac {
            Some(m) => Ok(Lookup::MacAddresses(m)),
            None => Err(ErrorChain::typed(tui_not_found("MAC", value))),
        },
        _ => Ok(Lookup::Reference),
    }
}

/// Whether a lookup was refused as one that matches nothing.
pub open spec fn is_no_match(r: Result<Lookup, ErrorChain>, noun: Text, value: Text) -> bool {
    &&& r is Err
    &&& r->Err_0.is_bare()
    &&& r->Err_0.bare() is NotFound
    &&& r->Err_0.bare()->NotFound_0@ == no_match_text(noun, value)
}

/// What an object of a kind is called.
pub open spec fn kind_noun(kind: ObjectKind) -> Text {
    match kind {
        ObjectKind::Device => "device"@,
        ObjectKind::Site => "site"@,
        ObjectKind::Rack => "rack"@,
        ObjectKind::RackGroup => "rack group"@,
        ObjectKind::Interface => "interface"@,
        ObjectKind::Mac => "MAC"@,
        ObjectKind::IpAddress => "IP address"@,
        ObjectKind::Prefix => "prefix"@,
        ObjectKind::Vlan => "VLAN"@,
        ObjectKind::Aggregate => "aggregate"@,
        ObjectKind::Asn => "ASN"@,
        ObjectKind::IpRange => "IP range"@,
        ObjectKind::Vrf => "vrf"@,
        ObjectKind::RouteTarget => "route target"@,
        ObjectKind::Tenant => "tenant"@,
        ObjectKind::Contact => "contact"@,
        ObjectKind::Circuit => "circuit"@,
        ObjectKind::Provider => "provider"@,
        ObjectKind::VirtualCircuit => "virtual circuit"@,
        ObjectKind::Vm => "virtual machine"@,
        ObjectKind::VmType => "virtual machine type"@,
        ObjectKind::Cluster => "cluster"@,
    }
}

/// Names an object of a kind.
pub fn noun_of(kind: ObjectKind) -> (r: &'static str)
    ensures
        r@ == kind_noun(kind),
{
    match kind {
        ObjectKind::Device => "device",
        ObjectKind::Site => "site",
        ObjectKind::Rack => "rack",
        ObjectKind::RackGroup => "rack group",
        ObjectKind::Interface => "interface",
        ObjectKind::Mac => "MAC",
        ObjectKind::IpAddress => "IP address",
        ObjectKind::Prefix => "prefix",
        ObjectKind::Vlan => "VLAN",
        ObjectKind::Aggregate => "aggregate",
        ObjectKind::Asn => "ASN",
        ObjectKind::IpRange => "IP range",
        ObjectKind::Vrf => "vrf",
        ObjectKind::RouteTarget => "route target",
        ObjectKind::Tenant => "tenant",
        ObjectKind::Contact => "contact",
        ObjectKind::Circuit => "circuit",
        ObjectKind::Provider => "provider",
        ObjectKind::VirtualCircuit => "virtual circuit",
        ObjectKind::Vm => "virtual machine",
        ObjectKind::VmType => "virtual machine type",
        ObjectKind::Cluster => "cluster",
    }
}

/// What a lookup by reference found, or the note that it found nothing.
pub fn found_or_note<T>(kind: ObjectKind, value: &str, found: Option<T>) -> (r: Result<
    T,
    ErrorChain,
>)
    ensures
        match found {
            Some(t) => r == Ok::<T, ErrorChain>(t),
            None => r is Err && r->Err_0.says(seq![no_match_text(kind_noun(kind), value@)]),
        },
{
    match found {
        Some(t) => Ok(t),
        None => Err(ErrorChain::note(cat5("no ", noun_of(kind), " matched \"", value, "\""))),
    }
}

/// What the candidate addresses of a lookup are called.
pub open spec fn address_names(candidates: Seq<IpAddress>) -> Seq<Text> {
    Seq::new(candidates.len(), |i: int| address_in_table(candidates[i]))
}

/// The one address of a lookup, narrowed by a VRF.
pub fn resolve_ip<N: Fn(&str, &str) -> NboxError>(
    address: &str,
    candidates: Vec<IpAddress>,
    vrf: Option<&str>,
    not_found: N,
) -> (r: Result<IpAddress, NboxError>)
    requires
        call_requires(not_found, ("IP address", address)),
    ensures
        ({
            let left = retained(candidates@, opt_str(vrf), ScopeField::Vrf);
            &&& left.len() == 0 ==> r is Err && call_ensures(
                not_found,
                ("IP address", address),
                r->Err_0,
            )
            &&& left.len() == 1 ==> r == Ok::<IpAddress, NboxError>(left[0])
            &&& left.len() > 1 ==> r is Err && lists_candidates(
                r->Err_0,
                "IP address"@,
                address@,
                address_names(left),
            )
        }),
{
    let left = retain_scope(candidates, vrf, ScopeField::Vrf);
    let label = |ip: &IpAddress| -> (s: String)
        ensures
            s@ == address_in_table(*ip),
        { ip_scope_label(ip) };
    let ghost kept = left@;
    let r = resolve_unique("IP address", address, left, label, not_found);
    proof {
        if kept.len() > 1 {
            labels_are_listed(r->Err_0, "IP address"@, address@, label, kept, address_names(kept));
        }
    }
    r
}

/// What the candidate prefixes of a lookup are called.
pub open spec fn prefix_names(candidates: Seq<Prefix>) -> Seq<Text> {
    Seq::new(candidates.len(), |i: int| prefix_in_table(candidates[i]))
}

/// The one prefix of a lookup, narrowed by a VRF.
pub fn resolve_prefix<N: Fn(&str, &str) -> NboxError>(
    cidr: &str,
    candidates: Vec<Prefix>,
    vrf: Option<&str>,
    not_found: N,
) -> (r: Result<Prefix, NboxError>)
    requires
        call_requires(not_found, ("prefix", cidr)),
    ensures
        ({
            let left = retained(candidates@, opt_str(vrf), ScopeField::Vrf);
            &&& left.len() == 0 ==> r is Err && call_ensures(
                not_found,
                ("prefix", cidr),
                r->Err_0,
            )
            &&& left.len() == 1 ==> r == Ok::<Prefix, NboxError>(left[0])
            &&& left.len() > 1 ==> r is Err && lists_candidates(
                r->Err_0,
                "prefix"@,
                cidr@,
                prefix_names(left),
            )
        }),
{
    let left = retain_scope(candidates, vrf, ScopeField::Vrf);
    let label = |p: &Prefix| -> (s: String)
        ensures
            s@ == prefix_in_table(*p),
        { prefix_scope_label(p) };
    let ghost kept = left@;
    let r = resolve_unique("prefix", cidr, left, label, not_found);
    proof {
        if kept.len() > 1 {
            labels_are_listed(r->Err_0, "prefix"@, cidr@, label, kept, prefix_names(kept));
        }
    }
    r
}

/// Whether a VLAN reference is a number, and is looked up as one.
pub fn vlan_number(value: &str) -> (r: Option<u16>)
    ensures
        match r {
            Some(n) => number_value(value@, u16::MAX as nat) == Some(n as nat),
            None => number_value(value@, u16::MAX as nat) is None,
        },
{
    parse_u16(value)
}

/// What the candidate VLANs of a lookup are called.
pub open spec fn vlan_names(candidates: Seq<Vlan>) -> Seq<Text> {
    Seq::new(candidates.len(), |i: int| vlan_in_place(candidates[i]))
}

/// The one VLAN of a lookup by number, narrowed by a site and a group.
pub fn resolve_vlan<N: Fn(&str, &str) -> NboxError>(
    value: &str,
    candidates: Vec<Vlan>,
    site: Option<&str>,
    group: Option<&str>,
    not_found: N,
) -> (r: Result<Vlan, NboxError>)
    requires
        call_requires(not_found, ("VLAN", value)),
    ensures
        ({
            let left = retained(
                retained(candidates@, opt_str(site), ScopeField::Site),
                opt_str(group),
                ScopeField::Group,
            );
            &&& left.len() == 0 ==> r is Err && call_ensures(
                not_found,
                ("VLAN", value),
                r->Err_0,
            )
            &&& left.len() == 1 ==> r == Ok::<Vlan, NboxError>(left[0])
            &&& left.len() > 1 ==> r is Err && lists_candidates(
                r->Err_0,
                "VLAN"@,
                value@,
                vlan_names(left),
            )
        }),
{
    let by_site = retain_scope(candidates, site, ScopeField::Site);
    let left = retain_scope(by_site, group, ScopeField::Group);
    let label = |v: &Vlan| -> (s: String)
        ensures
            s@ == vlan_in_place(*v),
        { vlan_scope_label(v) };
    let ghost kept = left@;
    let r = resolve_unique("VLAN", value, left, label, not_found);
    proof {
        if kept.len() > 1 {
            labels_are_listed(r->Err_0, "VLAN"@, value@, label, kept, vlan_names(kept));
        }
    }
    r
}

/// A MAC address with what carries it.
pub open spec fn mac_label_text(m: MacAddress) -> Text {
    m.mac_address@ + " → "@ + match opt_carried_by(m.assigned_object) {
        Some(a) => a,
        None => "unassigned"@,
    }
}

/// Labels a MAC address with what carries it.
pub fn label_mac(m: &MacAddress) -> (r: String)
    ensures
        r@ == mac_label_text(*m),
{
    let assigned = match assigned_of(&m.assigned_object) {
        Some(a) => a,
        None => "unassigned".to_owned(),
    };
    cat3(m.mac_address.as_str(), " → ", assigned.as_str())
}

/// What the candidate MAC addresses of a lookup are called.
pub open spec fn mac_names(candidates: Seq<MacAddress>) -> Seq<Text> {
    Seq::new(candidates.len(), |i: int| mac_label_text(candidates[i]))
}

/// The one MAC address of a lookup.
pub fn resolve_mac<N: Fn(&str, &str) -> NboxError>(
    value: &str,
    candidates: Vec<MacAddress>,
    not_found: N,
) -> (r: Result<MacAddress, NboxError>)
    requires
        call_requires(not_found, ("MAC", value)),
    ensures
        candidates@.len() == 0 ==> r is Err && call_ensures(not_found, ("MAC", value), r->Err_0),
        candidates@.len() == 1 ==> r == Ok::<MacAddress, NboxError>(candidates@[0]),
        candidates@.len() > 1 ==> r is Err && lists_candidates(
            r->Err_0,
            "MAC"@,
            value@,
            mac_names(candidates@),
        ),
{
    let label = |m: &MacAddress| -> (s: String)
        ensures
            s@ == mac_label_text(*m),
        { label_mac(m) };
    let ghost all = candidates@;
    let r = resolve_unique("MAC", value, candidates, label, not_found);
    proof {
        if all.len() > 1 {
            labels_are_listed(r->Err_0, "MAC"@, value@, label, all, mac_names(all));
        }
    }
    r
}

// ===== What to read besides ==============================================

/// An object that was read.
#[derive(Debug)]
pub enum Object {
    Device(Device),
    Site(Site),
    Rack(Rack),
    RackGroup(RackGroup),
    Interface(Interface),
    Mac(MacAddress),
    IpAddress(IpAddress),
    Prefix(Prefix),
    Vlan(Vlan),
    Aggregate(Aggregate),
    Asn(Asn),
    IpRange(IpRange),
    Vrf(Vrf),
    RouteTarget(RouteTarget),
    Tenant(Tenant),
    Contact(Contact),
    Circuit(Circuit),
    Provider(Provider),
    VirtualCircuit(VirtualCircuit),
    Vm(VirtualMachine),
    VmType(VirtualMachineType),
    Cluster(Cluster),
}

/// What to read besides an object to show it.
#[derive(Debug)]
pub enum FollowUp {
    Nothing,
    /// A device's interfaces and addresses.
    DeviceParts { id: u64 },
    /// A site's devices and racks.
    SiteParts { id: u64 },
    /// A rack's devices, and its elevation when it has a height.
    RackParts { id: u64, height: Option<u32> },
    /// The prefixes that contain an address, in its VRF.
    Containing { host: String, vrf_id: Option<u64> },
    /// The children and addresses of a prefix, in its VRF.
    PrefixParts { cidr: String, vrf_id: Option<u64> },
    /// The prefixes that refer to a VLAN, and its group.
    VlanParts { id: u64, group_id: Option<u64> },
    /// A circuit's terminations.
    CircuitParts { id: u64 },
    /// A VRF's prefixes and addresses.
    VrfParts { id: u64 },
    /// The VRFs that import and export a route target.
    RouteTargetParts { id: u64 },
    /// An interface's addresses and cable trace.
    InterfaceParts { id: u64 },
    /// A virtual circuit's terminations.
    VirtualCircuitParts { id: u64 },
}

/// The id of an optional reference.
pub open spec fn opt_id(o: Option<BriefObject>) -> Option<u64> {
    match o {
        Some(b) => Some(b.id),
        None => None,
    }
}

fn id_of(o: &Option<BriefObject>) -> (r: Option<u64>)
    ensures
        r == opt_id(*o),
{
    match o {
        Some(b) => Some(b.id),
        None => None,
    }
}

/// A height that is not zero.
pub open spec fn real_height(h: Option<u32>) -> Option<u32> {
    match h {
        Some(n) => if n > 0 {
            Some(n)
        } else {
            None
        },
        None => None,
    }
}

fn height_of(h: Option<u32>) -> (r: Option<u32>)
    ensures
        r == real_height(h),
{
    match h {
        Some(n) => if n > 0 {
            Some(n)
        } else {
            None
        },
        None => None,
    }
}

/// Whether `r` is what to read besides an object to show it. `id` is the id it was
/// asked for by.
pub open spec fn is_follow_up(r: FollowUp, id: u64, object: Object) -> bool {
    match object {
        Object::Device(d) => r == (FollowUp::DeviceParts { id: d.id }),
        Object::Site(s) => r == (FollowUp::SiteParts { id }),
        Object::Rack(k) => r == (FollowUp::RackParts {
            id,
            height: real_height(k.u_height),
        }),
        Object::IpAddress(ip) => r is Containing && r->host@ == before_first(ip.address@, '/')
            && r->Containing_vrf_id == opt_id(ip.vrf),
        Object::Prefix(p) => r is PrefixParts && r->cidr@ == p.prefix@ && r->PrefixParts_vrf_id
            == opt_id(p.vrf),
        Object::Vlan(v) => r == (FollowUp::VlanParts { id: v.id, group_id: opt_id(v.group) }),
        Object::Circuit(c) => r == (FollowUp::CircuitParts { id: c.id }),
        Object::Vrf(v) => r == (FollowUp::VrfParts { id: v.id }),
        Object::RouteTarget(t) => r == (FollowUp::RouteTargetParts { id: t.id }),
        Object::Interface(i) => r == (FollowUp::InterfaceParts { id: i.id }),
        Object::VirtualCircuit(c) => r == (FollowUp::VirtualCircuitParts { id: c.id }),
        _ => r == FollowUp::Nothing,
    }
}

/// What to read besides an object to show it. `id` is the id it was asked for by.
pub fn follow_up(id: u64, object: &Object) -> (r: FollowUp)
    ensures
        is_follow_up(r, id, *object),
{
    match object {
        Object::Device(d) => FollowUp::DeviceParts { id: d.id },
        Object::Site(_) => FollowUp::SiteParts { id },
        Object::Rack(k) => FollowUp::RackParts { id, height: height_of(k.u_height) },
        Object::IpAddress(ip) => FollowUp::Containing {
            host: head_before(ip.address.as_str(), '/'),
            vrf_id: id_of(&ip.vrf),
        },
        Object::Prefix(p) => FollowUp::PrefixParts {
            cidr: p.prefix.clone(),
            vrf_id: id_of(&p.vrf),
        },
        Object::Vlan(v) => FollowUp::VlanParts { id: v.id, group_id: id_of(&v.group) },
        Object::Circuit(c) => FollowUp::CircuitParts { id: c.id },
        Object::Vrf(v) => FollowUp::VrfParts { id: v.id },
        Object::RouteTarget(t) => FollowUp::RouteTargetParts { id: t.id },
        Object::Interface(i) => FollowUp::InterfaceParts { id: i.id },
        Object::VirtualCircuit(c) => FollowUp::VirtualCircuitParts { id: c.id },
        _ => FollowUp::Nothing,
    }
}

// ===== Tabs ==============================================================

/// The tab of contained devices. A list that could not be read says so.
pub open spec fn devices_tab(devices: Result<Vec<Device>, String>) -> Tab {
    match devices {
        Ok(v) => row_tab('d', counted("devices"@, v@.len()), device_lines(v@)),
        Err(e) => text_tab('d', "devices"@, "(devices unavailable: "@ + e@ + ")"@),
    }
}

/// Lays out contained devices as a tab.
pub fn contained_devices_tab(devices: &Result<Vec<Device>, String>) -> (r: DetailTab)
    ensures
        r@ == devices_tab(*devices),
{
    match devices {
        Ok(v) => {
            let rows = device_link_rows(v);
            DetailTab::of_rows('d', count_label("devices", v.len()), rows)
        },
        Err(e) => DetailTab::of_text(
            'd',
            "devices".to_owned(),
            cat3("(devices unavailable: ", e.as_str(), ")"),
        ),
    }
}

/// The tab of a site's racks. A list that could not be read says so.
pub open spec fn racks_tab(racks: Result<Vec<Rack>, String>) -> Tab {
    match racks {
        Ok(v) => row_tab('r', counted("racks"@, v@.len()), rack_lines(v@)),
        Err(e) => text_tab('r', "racks"@, "(racks unavailable: "@ + e@ + ")"@),
    }
}

/// Lays out a site's racks as a tab.
pub fn site_racks_tab(racks: &Result<Vec<Rack>, String>) -> (r: DetailTab)
    ensures
        r@ == racks_tab(*racks),
{
    match racks {
        Ok(v) => {
            let rows = rack_link_rows(v);
            DetailTab::of_rows('r', count_label("racks", v.len()), rows)
        },
        Err(e) => DetailTab::of_text(
            'r',
            "racks".to_owned(),
            cat3("(racks unavailable: ", e.as_str(), ")"),
        ),
    }
}

/// The tab of a rack's elevation. One that could not be read says so.
pub open spec fn elevation_tab(elevation: Result<String, String>) -> Tab {
    text_tab(
        'e',
        "elevation"@,
        match elevation {
            Ok(s) => s@,
            Err(e) => "(elevation unavailable: "@ + e@ + ")"@,
        },
    )
}

/// Lays out a rack's elevation as a tab.
pub fn rack_elevation_tab(elevation: Result<String, String>) -> (r: DetailTab)
    ensures
        r@ == elevation_tab(elevation),
{
    let body = match elevation {
        Ok(s) => s,
        Err(e) => cat3("(elevation unavailable: ", e.as_str(), ")"),
    };
    DetailTab::of_text('e', "elevation".to_owned(), body)
}

/// A tab of lines of text, when there are any.
pub open spec fn diagram_tab(key: char, label: Text, lines: Seq<Text>) -> Seq<Tab> {
    if lines.len() == 0 {
        Seq::empty()
    } else {
        seq![text_tab(key, label, joined(lines, "\n"@))]
    }
}

fn diagram_tabs(key: char, label: &str, lines: &Vec<String>) -> (r: Vec<DetailTab>)
    ensures
        tabs_of(r@) == diagram_tab(key, label@, texts(lines@)),
{
    let mut tabs: Vec<DetailTab> = Vec::new();
    if !lines.is_empty() {
        tabs.push(DetailTab::of_text(key, label.to_owned(), join(lines, "\n")));
    }
    proof {
        assert(tabs_of(tabs@) =~= diagram_tab(key, label@, texts(lines@)));
    }
    tabs
}

/// The rows of a device's section. Only some sections have any.
pub open spec fn section_rows(detail: DeviceDetail, key: char) -> Seq<Line> {
    if key == 'i' {
        iface_row_lines(detail.interfaces@)
    } else if key == 'p' {
        ip_row_lines(detail.ip_addresses@)
    } else if key == 'c' {
        cable_row_lines(detail.cables@)
    } else if key == 'v' {
        vlan_row_lines(detail.vlans@)
    } else {
        Seq::empty()
    }
}

/// The tab of a device's section.
pub open spec fn section_tab(detail: DeviceDetail, s: Section) -> Tab {
    Tab { key: s.0, label: s.1, body: s.2, rows: section_rows(detail, s.0) }
}

/// The tabs of a device, one per section.
pub open spec fn device_tabs(detail: DeviceDetail) -> Seq<Tab> {
    Seq::new(
        detail.section_list().len(),
        |i: int| section_tab(detail, detail.section_list()[i]),
    )
}

fn rows_for(detail: &DeviceDetail, key: char) -> (r: Vec<DetailRow>)
    ensures
        lines_of(r@) == section_rows(*detail, key),
{
    if key == 'i' {
        device_interface_rows(&detail.interfaces)
    } else if key == 'p' {
        device_ip_rows(&detail.ip_addresses)
    } else if key == 'c' {
        device_cable_rows(&detail.cables)
    } else if key == 'v' {
        device_vlan_rows(&detail.vlans)
    } else {
        let rows: Vec<DetailRow> = Vec::new();
        proof {
            assert(lines_of(rows@) =~= Seq::empty());
        }
        rows
    }
}

/// Lays out a device's sections as tabs.
pub fn load_device_detail(detail: &DeviceDetail) -> (r: Vec<DetailTab>)
    ensures
        tabs_of(r@) == device_tabs(*detail),
{
    let sections = detail.sections();
    let ghost all = device_tabs(*detail);
    let mut tabs: Vec<DetailTab> = Vec::new();
    let mut i: usize = 0;
    proof {
        assert(sections_view(sections@).len() == sections@.len());
        assert(detail.section_list().len() == sections@.len());
        assert(all.len() == sections@.len());
        assert(tabs_of(tabs@) =~= all.take(0));
    }
    while i < sections.len()
        invariant
            i <= sections.len(),
            all.len() == sections@.len(),
            all == device_tabs(*detail),
            detail.section_list() == sections_view(sections@),
            tabs_of(tabs@) == all.take(i as int),
        decreases sections.len() - i,
    {
        let key: char = sections[i].0;
        let label = sections[i].1.to_owned();
        let body = sections[i].2.clone();
        let rows = rows_for(detail, key);
        let tab = DetailTab { key, label, body, rows };
        proof {
            assert(sections_view(sections@)[i as int] == (
                sections@[i as int].0,
                sections@[i as int].1@,
                sections@[i as int].2@,
            ));
            assert(tab@ == all[i as int]);
            assert(all.take(i as int + 1) =~= all.take(i as int).push(all[i as int]));
        }
        push_tab(&mut tabs, tab);
        i = i + 1;
    }
    proof {
        assert(all.take(i as int) =~= all);
    }
    tabs
}

// ===== Screens ===========================================================

/// An object with all that was read for it.
#[derive(Debug)]
pub enum Loaded {
    Device { device: Device, interfaces: Vec<Interface>, ips: Vec<IpAddress> },
    Site { site: Site, devices: Result<Vec<Device>, String>, racks: Result<Vec<Rack>, String> },
    Rack {
        rack: Rack,
        devices: Result<Vec<Device>, String>,
        /// What reading the elevation gave; used only for a rack with a height.
        elevation: Result<String, String>,
    },
    IpAddress { ip: IpAddress, containing: Vec<Prefix> },
    Prefix { prefix: Prefix, children: Vec<Prefix>, ips: Vec<IpAddress> },
    Vlan { vlan: Vlan, prefixes: Vec<Prefix>, group: Option<VlanGroup> },
    Circuit { circuit: Circuit, resolved: Vec<ResolvedTermination> },
    Vrf {
        vrf: Vrf,
        /// How many prefixes the tree was made of.
        read: u64,
        nodes: Vec<PrefixNode>,
        ips: Vec<IpAddress>,
    },
    RouteTarget { target: RouteTarget, importing: Vec<VrfRef>, exporting: Vec<VrfRef> },
    Interface { interface: Interface, ips: Vec<IpAddress>, trace: Vec<Json> },
    VirtualCircuit { virtual_circuit: VirtualCircuit, points: Vec<VirtualCircuitTermination> },
    Aggregate(Aggregate),
    Asn(Asn),
    IpRange(IpRange),
    Tenant(Tenant),
    Contact(Contact),
    Provider(Provider),
    Vm(VirtualMachine),
    VmType(VirtualMachineType),
    Cluster(Cluster),
    Mac(MacAddress),
    RackGroup(RackGroup),
}

/// A screen of rows, without tabs or links.
pub open spec fn row_screen(kind: ObjectKind, id: u64, title: Text, rows: Seq<Row>) -> Screen {
    plain_screen(kind, id, title, rendered(rows), Seq::empty(), Seq::empty())
}

/// The title of an interface: its name behind its device.
pub open spec fn interface_title(i: Interface) -> Text {
    match i.device {
        Some(d) => "interface "@ + d.name_text() + " "@ + i.name@,
        None => "interface "@ + i.name@,
    }
}

/// Whether a screen shows a device with its interfaces and addresses.
pub open spec fn is_device_screen(
    s: Screen,
    id: u64,
    device: Device,
    interfaces: Seq<Interface>,
    ips: Seq<IpAddress>,
) -> bool {
    exists|detail: DeviceDetail| #[trigger]
        detail.is_of(device, interfaces, ips) && s == plain_screen(
            ObjectKind::Device,
            id,
            "device "@ + device.name@,
            rendered(DeviceView::rows_of(device)),
            device_tabs(detail),
            device_link_list(device),
        )
}

/// Whether a screen shows an address with the most specific of the prefixes that
/// contain it.
pub open spec fn is_address_screen(
    s: Screen,
    id: u64,
    ip: IpAddress,
    containing: Seq<Prefix>,
) -> bool {
    exists|parent: Option<Prefix>| #[trigger]
        is_most_specific(parent, containing) && s == plain_screen(
            ObjectKind::IpAddress,
            id,
            "ip "@ + ip.address@,
            rendered(IpView::rows_of(ip, parent)),
            Seq::empty(),
            ip_link_list(ip, parent),
        )
}

/// Whether a screen shows an object with what was read for it.
pub open spec fn is_screen_of(s: Screen, id: u64, loaded: Loaded) -> bool {
    match loaded {
        Loaded::Device { device, interfaces, ips } => is_device_screen(
            s,
            id,
            device,
            interfaces@,
            ips@,
        ),
        Loaded::Site { site, devices, racks } => s == plain_screen(
            ObjectKind::Site,
            id,
            "site "@ + site.name@,
            rendered(SiteView::rows_of(site)),
            seq![devices_tab(devices), racks_tab(racks)],
            tenant_link_list(site.tenant),
        ),
        Loaded::Rack { rack, devices, elevation } => s == plain_screen(
            ObjectKind::Rack,
            id,
            "rack "@ + rack.name@,
            rendered(RackView::rows_of(rack)),
            if real_height(rack.u_height) is Some {
                seq![devices_tab(devices), elevation_tab(elevation)]
            } else {
                seq![devices_tab(devices)]
            },
            site_tenant_link_list(rack.site, rack.tenant),
        ),
        Loaded::IpAddress { ip, containing } => is_address_screen(s, id, ip, containing@),
        Loaded::Prefix { prefix, children, ips } => s == plain_screen(
            ObjectKind::Prefix,
            id,
            "prefix "@ + prefix.prefix@,
            rendered(PrefixView::rows_of(prefix)),
            prefix_tabs(children@, ips@),
            prefix_link_list(prefix),
        ),
        Loaded::Vlan { vlan, prefixes, group } => s == plain_screen(
            ObjectKind::Vlan,
            id,
            "vlan "@ + decimal_text(vlan.vid as nat),
            rendered(VlanView::rows_of(vlan, group)),
            seq![
                row_tab(
                    'p',
                    counted("prefixes"@, prefixes@.len()),
                    prefix_lines(prefixes@, "(no prefixes)"@),
                ),
            ],
            site_tenant_link_list(vlan.site, vlan.tenant),
        ),
        Loaded::Circuit { circuit, resolved } => s == plain_screen(
            ObjectKind::Circuit,
            circuit.id,
            "circuit "@ + circuit.cid@,
            rendered(CircuitView::rows_of(circuit)),
            diagram_tab(
                'p',
                "path"@,
                resolved_diagram(
                    circuit_middle(circuit),
                    crate::order::stably_sorted(resolved@),
                ),
            ),
            circuit_link_list(circuit, resolved@),
        ),
        Loaded::Vrf { vrf, read, nodes, ips } => exists|detail: crate::domain::vrf_view::VrfDetail|
            #[trigger] vrf_detail_is_of(detail, vrf, read, nodes@, ips@) && s == vrf_screen(
                tenant_link_list(vrf.tenant),
                detail,
            ),
        Loaded::RouteTarget { target, importing, exporting } => exists|detail:
            crate::domain::route_target_view::RouteTargetDetail| #[trigger]
            target_detail_is_of(detail, target, importing@, exporting@) && s
                == route_target_screen(tenant_link_list(target.tenant), detail),
        Loaded::Interface { interface, ips, trace } => s == plain_screen(
            ObjectKind::Interface,
            id,
            interface_title(interface),
            rendered(InterfaceView::rows_of(interface)) + section_text(
                "Tagged VLANs"@,
                labels(interface.tagged_vlans@),
            ) + section_text("Connected To"@, endpoint_labels(interface.connected_endpoints))
                + section_text("IP Addresses"@, addresses(ips@)),
            diagram_tab('c', "cable path"@, drawing(trace@).lines),
            Seq::<Link>::empty() + link_to("device"@, ObjectKind::Device, interface.device),
        ),
        Loaded::VirtualCircuit { virtual_circuit, points } => s == plain_screen(
            ObjectKind::VirtualCircuit,
            id,
            "virtual circuit "@ + virtual_circuit.cid@,
            VirtualCircuitView::plain_of(virtual_circuit, points@),
            Seq::empty(),
            Seq::empty(),
        ),
        Loaded::Aggregate(a) => s == row_screen(
            ObjectKind::Aggregate,
            id,
            "aggregate "@ + a.prefix@,
            AggregateView::rows_of(a),
        ),
        Loaded::Asn(a) => s == row_screen(
            ObjectKind::Asn,
            id,
            "asn "@ + decimal_text(a.asn as nat),
            AsnView::rows_of(a),
        ),
        Loaded::IpRange(p) => s == row_screen(
            ObjectKind::IpRange,
            id,
            "ip-range "@ + p.start_address@ + "-"@ + p.end_address@,
            IpRangeView::rows_of(p),
        ),
        Loaded::Tenant(t) => s == row_screen(
            ObjectKind::Tenant,
            id,
            "tenant "@ + t.name@,
            TenantView::rows_of(t),
        ),
        Loaded::Contact(c) => s == row_screen(
            ObjectKind::Contact,
            id,
            "contact "@ + c.name@,
            ContactView::rows_of(c),
        ),
        Loaded::Provider(p) => s == row_screen(
            ObjectKind::Provider,
            id,
            "provider "@ + p.name@,
            ProviderView::rows_of(p),
        ),
        Loaded::Vm(m) => s == row_screen(ObjectKind::Vm, id, "vm "@ + m.name@, VmView::rows_of(m)),
        Loaded::VmType(t) => s == row_screen(
            ObjectKind::VmType,
            id,
            "vm type "@ + t.name@,
            VirtualMachineTypeView::rows_of(t),
        ),
        Loaded::Cluster(c) => s == row_screen(
            ObjectKind::Cluster,
            id,
            "cluster "@ + c.name@,
            ClusterView::rows_of(c),
        ),
        Loaded::Mac(m) => s == row_screen(
            ObjectKind::Mac,
            id,
            "mac "@ + m.mac_address@,
            MacView::rows_of(m),
        ),
        Loaded::RackGroup(g) => s == row_screen(
            ObjectKind::RackGroup,
            id,
            "rack group "@ + g.name@,
            RackGroupView::rows_of(g),
        ),
    }
}

/// The tabs of a prefix: its children and its addresses.
pub open spec fn prefix_tabs(children: Seq<Prefix>, ips: Seq<IpAddress>) -> Seq<Tab> {
    seq![
        row_tab(
            'c',
            counted("children"@, children.len()),
            prefix_lines(children, "(no child prefixes)"@),
        ),
        row_tab('a', counted("addresses"@, ips.len()), contained_lines(ips)),
    ]
}

/// The title, body and tabs of a prefix.
pub fn prefix_detail_parts(p: Prefix, children: Vec<Prefix>, ips: Vec<IpAddress>) -> (r: (
    String,
    String,
    Vec<DetailTab>,
))
    ensures
        r.0@ == "prefix "@ + p.prefix@,
        r.1@ == rendered(PrefixView::rows_of(p)),
        tabs_of(r.2@) == prefix_tabs(children@, ips@),
{
    let child_rows = prefix_link_rows(&children, "(no child prefixes)");
    let ip_rows = prefix_ip_rows(&ips);
    let mut tabs: Vec<DetailTab> = Vec::new();
    tabs.push(DetailTab::of_rows('c', count_label("children", children.len()), child_rows));
    tabs.push(DetailTab::of_rows('a', count_label("addresses", ips.len()), ip_rows));
    proof {
        assert(tabs_of(tabs@) =~= prefix_tabs(children@, ips@));
    }
    let v = PrefixView::build(p, children, ips);
    let title = cat2("prefix ", v.prefix.as_str());
    (title, v.to_detail_header(), tabs)
}

fn plain_view(
    kind: ObjectKind,
    id: u64,
    title: String,
    body: String,
    tabs: Vec<DetailTab>,
    links: Vec<ObjectLink>,
) -> (r: DetailView)
    ensures
        r@ == plain_screen(kind, id, title@, body@, tabs_of(tabs@), links_of(links@)),
{
    DetailView::new(kind, id, title, body).with_tabs(tabs).with_links(links)
}

fn row_view(
    kind: ObjectKind,
    id: u64,
    title: String,
    kv: &crate::output::KeyValues,
) -> (r: DetailView)
    ensures
        r@ == row_screen(kind, id, title@, kv@),
{
    DetailView::new(kind, id, title, kv.render())
}

fn device_screen(id: u64, device: Device, interfaces: Vec<Interface>, ips: Vec<IpAddress>) -> (r:
    DetailView)
    ensures
        is_device_screen(r@, id, device, interfaces@, ips@),
{
    let links = device_links(&device);
    let title = cat2("device ", device.name.as_str());
    let detail = DeviceDetail::build(device, interfaces, ips);
    let tabs = load_device_detail(&detail);
    let body = detail.summary_plain();
    plain_view(ObjectKind::Device, id, title, body, tabs, links)
}

fn site_screen(
    id: u64,
    site: Site,
    devices: Result<Vec<Device>, String>,
    racks: Result<Vec<Rack>, String>,
) -> (r: DetailView)
    ensures
        is_screen_of(r@, id, (Loaded::Site { site, devices, racks })),
{
    let links = site_links(&site);
    let v = SiteView::from_model(site);
    let mut tabs: Vec<DetailTab> = Vec::new();
    tabs.push(contained_devices_tab(&devices));
    tabs.push(site_racks_tab(&racks));
    proof {
        assert(tabs_of(tabs@) =~= seq![devices_tab(devices), racks_tab(racks)]);
    }
    let title = cat2("site ", v.name.as_str());
    let kv = v.to_key_values();
    plain_view(ObjectKind::Site, id, title, kv.render(), tabs, links)
}

fn rack_screen(
    id: u64,
    rack: Rack,
    devices: Result<Vec<Device>, String>,
    elevation: Result<String, String>,
) -> (r: DetailView)
    ensures
        is_screen_of(r@, id, (Loaded::Rack { rack, devices, elevation })),
{
    let links = rack_links(&rack);
    let height = height_of(rack.u_height);
    let v = RackView::from_model(rack);
    let mut tabs: Vec<DetailTab> = Vec::new();
    tabs.push(contained_devices_tab(&devices));
    if height.is_some() {
        tabs.push(rack_elevation_tab(elevation));
    }
    proof {
        assert(tabs_of(tabs@) =~= if height is Some {
            seq![devices_tab(devices), elevation_tab(elevation)]
        } else {
            seq![devices_tab(devices)]
        });
    }
    let title = cat2("rack ", v.name.as_str());
    let kv = v.to_key_values();
    plain_view(ObjectKind::Rack, id, title, kv.render(), tabs, links)
}

fn address_screen(id: u64, ip: IpAddress, containing: Vec<Prefix>) -> (r: DetailView)
    ensures
        is_address_screen(r@, id, ip, containing@),
{
    let parent = most_specific(containing);
    let links = ip_links(&ip, parent.as_ref());
    let v = IpView::build(ip, parent);
    let title = cat2("ip ", v.address.as_str());
    let kv = v.to_key_values();
    let tabs: Vec<DetailTab> = Vec::new();
    proof {
        assert(tabs_of(tabs@) =~= Seq::empty());
        assert(is_most_specific(parent, containing@));
    }
    plain_view(ObjectKind::IpAddress, id, title, kv.render(), tabs, links)
}

fn vlan_screen(id: u64, vlan: Vlan, prefixes: Vec<Prefix>, group: Option<VlanGroup>) -> (r:
    DetailView)
    ensures
        is_screen_of(r@, id, (Loaded::Vlan { vlan, prefixes, group })),
{
    let links = vlan_links(&vlan);
    let mut tabs: Vec<DetailTab> = Vec::new();
    tabs.push(vlan_prefixes_tab(&prefixes));
    proof {
        assert(tabs_of(tabs@) =~= seq![
            row_tab(
                'p',
                counted("prefixes"@, prefixes@.len()),
                prefix_lines(prefixes@, "(no prefixes)"@),
            ),
        ]);
    }
    let v = VlanView::build(vlan, prefixes, group);
    let vid = decimal(v.vid as u64);
    let title = cat2("vlan ", vid.as_str());
    plain_view(ObjectKind::Vlan, id, title, v.to_detail_header(), tabs, links)
}

fn circuit_screen(id: u64, circuit: Circuit, resolved: Vec<ResolvedTermination>) -> (r:
    DetailView)
    ensures
        is_screen_of(r@, id, (Loaded::Circuit { circuit, resolved })),
{
    let own_id: u64 = circuit.id;
    let links = circuit_links(&circuit, &resolved);
    let v = CircuitView::build(circuit, resolved);
    let title = cat2("circuit ", v.cid.as_str());
    let tabs = diagram_tabs('p', "path", &v.diagram);
    let kv = v.to_key_values();
    plain_view(ObjectKind::Circuit, own_id, title, kv.render(), tabs, links)
}

fn interface_screen(id: u64, interface: Interface, ips: Vec<IpAddress>, trace: Vec<Json>) -> (r:
    DetailView)
    ensures
        is_screen_of(r@, id, (Loaded::Interface { interface, ips, trace })),
{
    let links = interface_links(&interface);
    let title = match &interface.device {
        Some(d) => {
            let dev = d.name_label();
            cat4("interface ", dev.as_str(), " ", interface.name.as_str())
        },
        None => cat2("interface ", interface.name.as_str()),
    };
    let v = InterfaceView::build(interface, ips, trace);
    let tabs = diagram_tabs('c', "cable path", &v.diagram);
    plain_view(ObjectKind::Interface, id, title, v.to_summary_plain(), tabs, links)
}

/// Lays out an object with what was read for it as a screen.
pub fn load_detail(id: u64, loaded: Loaded) -> (r: DetailView)
    requires
        loaded is Vrf ==> loaded->vrf.import_targets@.len() + loaded->vrf.export_targets@.len()
            <= u64::MAX,
    ensures
        is_screen_of(r@, id, loaded),
{
    match loaded {
        Loaded::Device { device, interfaces, ips } => device_screen(id, device, interfaces, ips),
        Loaded::Site { site, devices, racks } => site_screen(id, site, devices, racks),
        Loaded::Rack { rack, devices, elevation } => rack_screen(id, rack, devices, elevation),
        Loaded::IpAddress { ip, containing } => address_screen(id, ip, containing),
        Loaded::Prefix { prefix, children, ips } => {
            let links = prefix_links(&prefix);
            let (title, body, tabs) = prefix_detail_parts(prefix, children, ips);
            plain_view(ObjectKind::Prefix, id, title, body, tabs, links)
        },
        Loaded::Vlan { vlan, prefixes, group } => vlan_screen(id, vlan, prefixes, group),
        Loaded::Circuit { circuit, resolved } => circuit_screen(id, circuit, resolved),
        Loaded::Vrf { vrf, read, nodes, ips } => {
            let links = vrf_links(&vrf);
            let detail = build_vrf_detail(vrf, read, nodes, ips);
            vrf_detail_view(links, detail)
        },
        Loaded::RouteTarget { target, importing, exporting } => {
            let links = route_target_links(&target);
            let detail = build_route_target_detail(target, importing, exporting);
            route_target_detail_view(links, detail)
        },
        Loaded::Interface { interface, ips, trace } => interface_screen(id, interface, ips, trace),
        Loaded::VirtualCircuit { virtual_circuit, points } => {
            let v = VirtualCircuitView::build(virtual_circuit, points);
            let title = cat2("virtual circuit ", v.cid.as_str());
            DetailView::new(ObjectKind::VirtualCircuit, id, title, v.to_plain())
        },
        Loaded::Aggregate(a) => {
            let v = AggregateView::from_model(a);
            let title = cat2("aggregate ", v.prefix.as_str());
            row_view(ObjectKind::Aggregate, id, title, &v.to_key_values())
        },
        Loaded::Asn(a) => {
            let v = AsnView::from_model(a);
            let n = decimal(v.asn as u64);
            row_view(ObjectKind::Asn, id, cat2("asn ", n.as_str()), &v.to_key_values())
        },
        Loaded::IpRange(p) => {
            let v = IpRangeView::from_model(p);
            let title = cat4("ip-range ", v.start_address.as_str(), "-", v.end_address.as_str());
            row_view(ObjectKind::IpRange, id, title, &v.to_key_values())
        },
        Loaded::Tenant(t) => {
            let v = TenantView::from_model(t);
            let title = cat2("tenant ", v.name.as_str());
            row_view(ObjectKind::Tenant, id, title, &v.to_key_values())
        },
        Loaded::Contact(c) => {
            let v = ContactView::from_model(c);
            let title = cat2("contact ", v.name.as_str());
            row_view(ObjectKind::Contact, id, title, &v.to_key_values())
        },
        Loaded::Provider(p) => {
            let v = ProviderView::from_model(p);
            let title = cat2("provider ", v.name.as_str());
            row_view(ObjectKind::Provider, id, title, &v.to_key_values())
        },
        Loaded::Vm(m) => {
            let v = VmView::from_model(m);
            let title = cat2("vm ", v.name.as_str());
            row_view(ObjectKind::Vm, id, title, &v.to_key_values())
        },
        Loaded::VmType(t) => {
            let v = VirtualMachineTypeView::from_model(t);
            let title = cat2("vm type ", v.name.as_str());
            row_view(ObjectKind::VmType, id, title, &v.to_key_values())
        },
        Loaded::Cluster(c) => {
            let v = ClusterView::from_model(c);
            let title = cat2("cluster ", v.name.as_str());
            row_view(ObjectKind::Cluster, id, title, &v.to_key_values())
        },
        Loaded::Mac(m) => {
            let v = MacView::from_model(m);
            let title = cat2("mac ", v.mac_address.as_str());
            row_view(ObjectKind::Mac, id, title, &v.to_key_values())
        },
        Loaded::RackGroup(g) => {
            let v = RackGroupView::from_model(g);
            let title = cat2("rack group ", v.name.as_str());
            row_view(ObjectKind::RackGroup, id, title, &v.to_key_values())
        },
    }
}

// ===== Laws ==============================================================

/// A VLAN lookup that names a group, and no site, is decided by the groups of the
/// candidates alone: the one candidate whose group it names exactly is what it finds,
/// whatever the sites are; and one without a group is never found.
pub proof fn groups_decide_a_vlan(
    candidates: Seq<Vlan>,
    group: Text,
    r: Result<Vlan, NboxError>,
    i: int,
)
    requires
        ({
            let left = retained(
                retained(candidates, None, ScopeField::Site),
                Some(group),
                ScopeField::Group,
            );
            &&& left.len() == 0 ==> r is Err
            &&& left.len() == 1 ==> r == Ok::<Vlan, NboxError>(left[0])
            &&& left.len() > 1 ==> r is Err
        }),
    ensures
        r is Ok ==> r->Ok_0.group is Some && r->Ok_0.group->0.named_loosely(group)
            && candidates.contains(r->Ok_0),
        ({
            &&& 0 <= i < candidates.len()
            &&& candidates[i].group is Some
            &&& candidates[i].group->0.named_exactly(group)
            &&& forall|j: int|
                0 <= j < candidates.len() && j != i ==> {
                    ||| (#[trigger] candidates[j]).group is None
                    ||| !candidates[j].group->0.named_exactly(group)
                }
        }) ==> r == Ok::<Vlan, NboxError>(candidates[i]),
{
    let left = retained(candidates, Some(group), ScopeField::Group);
    if left.len() == 1 {
        assert(left[0] == left[0] && left.contains(left[0]));
        the_unscoped_are_dropped(candidates, group, ScopeField::Group, left[0]);
    }
    if {
        &&& 0 <= i < candidates.len()
        &&& candidates[i].group is Some
        &&& candidates[i].group->0.named_exactly(group)
        &&& forall|j: int|
            0 <= j < candidates.len() && j != i ==> {
                ||| (#[trigger] candidates[j]).group is None
                ||| !candidates[j].group->0.named_exactly(group)
            }
    } {
        assert(in_scope(candidates[i], ScopeField::Group, group, true));
        the_only_one_is_left(candidates, ScopeField::Group, group, true, i);
    }
}

/// A VLAN lookup that names a site, and no group, is decided by the sites of the
/// candidates alone: the one candidate whose site it names exactly is what it finds,
/// whatever the groups are; and one without a site is never found.
pub proof fn sites_decide_a_vlan(
    candidates: Seq<Vlan>,
    site: Text,
    r: Result<Vlan, NboxError>,
    i: int,
)
    requires
        ({
            let left = retained(
                retained(candidates, Some(site), ScopeField::Site),
                None,
                ScopeField::Group,
            );
            &&& left.len() == 0 ==> r is Err
            &&& left.len() == 1 ==> r == Ok::<Vlan, NboxError>(left[0])
            &&& left.len() > 1 ==> r is Err
        }),
    ensures
        r is Ok ==> r->Ok_0.site is Some && r->Ok_0.site->0.named_loosely(site)
            && candidates.contains(r->Ok_0),
        ({
            &&& 0 <= i < candidates.len()
            &&& candidates[i].site is Some
            &&& candidates[i].site->0.named_exactly(site)
            &&& forall|j: int|
                0 <= j < candidates.len() && j != i ==> {
                    ||| (#[trigger] candidates[j]).site is None
                    ||| !candidates[j].site->0.named_exactly(site)
                }
        }) ==> r == Ok::<Vlan, NboxError>(candidates[i]),
{
    let left = retained(candidates, Some(site), ScopeField::Site);
    if left.len() == 1 {
        assert(left.contains(left[0]));
        the_unscoped_are_dropped(candidates, site, ScopeField::Site, left[0]);
    }
    if {
        &&& 0 <= i < candidates.len()
        &&& candidates[i].site is Some
        &&& candidates[i].site->0.named_exactly(site)
        &&& forall|j: int|
            0 <= j < candidates.len() && j != i ==> {
                ||| (#[trigger] candidates[j]).site is None
                ||| !candidates[j].site->0.named_exactly(site)
            }
    } {
        assert(in_scope(candidates[i], ScopeField::Site, site, true));
        the_only_one_is_left(candidates, ScopeField::Site, site, true, i);
    }
}

/// An address lookup that names a VRF is decided by the VRFs of the candidates: the one
/// candidate whose VRF it names exactly is what it finds, and one of the global table
/// is never found. Without a VRF, the one candidate is found, and several are refused.
pub proof fn vrfs_decide_an_address(
    candidates: Seq<IpAddress>,
    vrf: Option<Text>,
    r: Result<IpAddress, NboxError>,
    i: int,
)
    requires
        ({
            let left = retained(candidates, vrf, ScopeField::Vrf);
            &&& left.len() == 0 ==> r is Err
            &&& left.len() == 1 ==> r == Ok::<IpAddress, NboxError>(left[0])
            &&& left.len() > 1 ==> r is Err
        }),
    ensures
        vrf is None ==> (r is Ok <==> candidates.len() == 1),
        vrf is None && r is Ok ==> r->Ok_0 == candidates[0],
        vrf is Some && r is Ok ==> r->Ok_0.vrf is Some && r->Ok_0.vrf->0.named_loosely(vrf->0)
            && candidates.contains(r->Ok_0),
        ({
            &&& vrf is Some
            &&& 0 <= i < candidates.len()
            &&& candidates[i].vrf is Some
            &&& candidates[i].vrf->0.named_exactly(vrf->0)
            &&& forall|j: int|
                0 <= j < candidates.len() && j != i ==> {
                    ||| (#[trigger] candidates[j]).vrf is None
                    ||| !candidates[j].vrf->0.named_exactly(vrf->0)
                }
        }) ==> r == Ok::<IpAddress, NboxError>(candidates[i]),
{
    let left = retained(candidates, vrf, ScopeField::Vrf);
    if vrf is Some {
        if left.len() == 1 {
            assert(left.contains(left[0]));
            the_unscoped_are_dropped(candidates, vrf->0, ScopeField::Vrf, left[0]);
        }
        if {
            &&& 0 <= i < candidates.len()
            &&& candidates[i].vrf is Some
            &&& candidates[i].vrf->0.named_exactly(vrf->0)
            &&& forall|j: int|
                0 <= j < candidates.len() && j != i ==> {
                    ||| (#[trigger] candidates[j]).vrf is None
                    ||| !candidates[j].vrf->0.named_exactly(vrf->0)
                }
        } {
            assert(in_scope(candidates[i], ScopeField::Vrf, vrf->0, true));
            the_only_one_is_left(candidates, ScopeField::Vrf, vrf->0, true, i);
        }
    }
}

/// A prefix lookup that names a VRF is decided by the VRFs of the candidates: the one
/// candidate whose VRF it names exactly is what it finds, and one of the global table
/// is never found. Without a VRF, the one candidate is found, and several are refused.
pub proof fn vrfs_decide_a_prefix(
    candidates: Seq<Prefix>,
    vrf: Option<Text>,
    r: Result<Prefix, NboxError>,
    i: int,
)
    requires
        ({
            let left = retained(candidates, vrf, ScopeField::Vrf);
            &&& left.len() == 0 ==> r is Err
            &&& left.len() == 1 ==> r == Ok::<Prefix, NboxError>(left[0])
            &&& left.len() > 1 ==> r is Err
        }),
    ensures
        vrf is None ==> (r is Ok <==> candidates.len() == 1),
        vrf is None && r is Ok ==> r->Ok_0 == candidates[0],
        vrf is Some && r is Ok ==> r->Ok_0.vrf is Some && r->Ok_0.vrf->0.named_loosely(vrf->0)
            && candidates.contains(r->Ok_0),
        ({
            &&& vrf is Some
            &&& 0 <= i < candidates.len()
            &&& candidates[i].vrf is Some
            &&& candidates[i].vrf->0.named_exactly(vrf->0)
            &&& forall|j: int|
                0 <= j < candidates.len() && j != i ==> {
                    ||| (#[trigger] candidates[j]).vrf is None
                    ||| !candidates[j].vrf->0.named_exactly(vrf->0)
                }
        }) ==> r == Ok::<Prefix, NboxError>(candidates[i]),
{
    let left = retained(candidates, vrf, ScopeField::Vrf);
    if vrf is Some {
        if left.len() == 1 {
            assert(left.contains(left[0]));
            the_unscoped_are_dropped(candidates, vrf->0, ScopeField::Vrf, left[0]);
        }
        if {
            &&& 0 <= i < candidates.len()
            &&& candidates[i].vrf is Some
            &&& candidates[i].vrf->0.named_exactly(vrf->0)
            &&& forall|j: int|
                0 <= j < candidates.len() && j != i ==> {
                    ||| (#[trigger] candidates[j]).vrf is None
                    ||| !candidates[j].vrf->0.named_exactly(vrf->0)
                }
        } {
            assert(in_scope(candidates[i], ScopeField::Vrf, vrf->0, true));
            the_only_one_is_left(candidates, ScopeField::Vrf, vrf->0, true, i);
        }
    }
}

/// Each kind is read from its own endpoint of the server, by its id.
pub proof fn kinds_are_read_from_their_endpoints(kind: ObjectKind, id: u64, r: ObjectRequest)
    requires
        r.path@ == object_endpoint(collection(kind), id),
    ensures
        kind == ObjectKind::Device ==> r.path@ == "/api/dcim/devices/"@
            + decimal_text(id as nat) + "/"@,
        kind == ObjectKind::Site ==> r.path@ == "/api/dcim/sites/"@
            + decimal_text(id as nat) + "/"@,
        kind == ObjectKind::Rack ==> r.path@ == "/api/dcim/racks/"@
            + decimal_text(id as nat) + "/"@,
        kind == ObjectKind::RackGroup ==> r.path@ == "/api/dcim/rack-groups/"@
            + decimal_text(id as nat) + "/"@,
        kind == ObjectKind::Interface ==> r.path@ == "/api/dcim/interfaces/"@
            + decimal_text(id as nat) + "/"@,
        kind == ObjectKind::Mac ==> r.path@ == "/api/dcim/mac-addresses/"@
            + decimal_text(id as nat) + "/"@,
        kind == ObjectKind::IpAddress ==> r.path@ == "/api/ipam/ip-addresses/"@
            + decimal_text(id as nat) + "/"@,
        kind == ObjectKind::Prefix ==> r.path@ == "/api/ipam/prefixes/"@
            + decimal_text(id as nat) + "/"@,
        kind == ObjectKind::Vlan ==> r.path@ == "/api/ipam/vlans/"@
            + decimal_text(id as nat) + "/"@,
        kind == ObjectKind::Aggregate ==> r.path@ == "/api/ipam/aggregates/"@
            + decimal_text(id as nat) + "/"@,
        kind == ObjectKind::Asn ==> r.path@ == "/api/ipam/asns/"@ + decimal_text(id as nat) + "/"@,
        kind == ObjectKind::IpRange ==> r.path@ == "/api/ipam/ip-ranges/"@
            + decimal_text(id as nat) + "/"@,
        kind == ObjectKind::Vrf ==> r.path@ == "/api/ipam/vrfs/"@ + decimal_text(id as nat) + "/"@,
        kind == ObjectKind::RouteTarget ==> r.path@ == "/api/ipam/route-targets/"@
            + decimal_text(id as nat) + "/"@,
        kind == ObjectKind::Tenant ==> r.path@ == "/api/tenancy/tenants/"@
            + decimal_text(id as nat) + "/"@,
        kind == ObjectKind::Contact ==> r.path@ == "/api/tenancy/contacts/"@
            + decimal_text(id as nat) + "/"@,
        kind == ObjectKind::Circuit ==> r.path@ == "/api/circuits/circuits/"@
            + decimal_text(id as nat) + "/"@,
        kind == ObjectKind::Provider ==> r.path@ == "/api/circuits/providers/"@
            + decimal_text(id as nat) + "/"@,
        kind == ObjectKind::VirtualCircuit ==> r.path@ == "/api/circuits/virtual-circuits/"@
            + decimal_text(id as nat) + "/"@,
        kind == ObjectKind::Vm ==> r.path@ == "/api/virtualization/virtual-machines/"@
            + decimal_text(id as nat) + "/"@,
        kind == ObjectKind::VmType ==> r.path@ == "/api/virtualization/virtual-machine-types/"@
            + decimal_text(id as nat) + "/"@,
        kind == ObjectKind::Cluster ==> r.path@ == "/api/virtualization/clusters/"@
            + decimal_text(id as nat) + "/"@,
{
}

/// No two reads share a path: the path tells the kind and the id.
pub proof fn paths_tell_kind_and_id(one: ObjectKind, i: u64, other: ObjectKind, j: u64)
    ensures
        object_endpoint(collection(one), i) == object_endpoint(collection(other), j) <==> (one
            == other && i == j),
{
    collections_are_distinct(one, other);
    let (a, b) = (collection(one), collection(other));
    let (x, y) = (decimal_text(i as nat), decimal_text(j as nat));
    crate::number::decimal_reads_back(i as nat);
    crate::number::decimal_reads_back(j as nat);
    if object_endpoint(a, i) == object_endpoint(b, j) {
        reveal_strlit("/");
        let p = a + x + "/"@;
        let q = b + y + "/"@;
        assert(p.len() == q.len());
        if a.len() < b.len() {
            assert(q[b.len() - 1] == '/');
            assert(p[b.len() - 1] == x[b.len() - 1 - a.len()]);
        }
        if b.len() < a.len() {
            assert(p[a.len() - 1] == '/');
            assert(q[a.len() - 1] == y[a.len() - 1 - b.len()]);
        }
        assert(a =~= p.take(a.len() as int));
        assert(b =~= q.take(b.len() as int));
        assert(x =~= p.subrange(a.len() as int, p.len() - 1));
        assert(y =~= q.subrange(b.len() as int, q.len() - 1));
        crate::number::decimal_is_injective(i as nat, j as nat);
    }
}

proof fn collections_are_distinct(one: ObjectKind, other: ObjectKind)
    ensures
        collection(one) == collection(other) ==> one == other,
        collection(one).len() > 0 && collection(one).last() == '/',
        collection(other).len() > 0 && collection(other).last() == '/',
{
    reveal_strlit("/api/dcim/devices/");
    reveal_strlit("/api/dcim/sites/");
    reveal_strlit("/api/dcim/racks/");
    reveal_strlit("/api/dcim/rack-groups/");
    reveal_strlit("/api/dcim/interfaces/");
    reveal_strlit("/api/dcim/mac-addresses/");
    reveal_strlit("/api/ipam/ip-addresses/");
    reveal_strlit("/api/ipam/prefixes/");
    reveal_strlit("/api/ipam/vlans/");
    reveal_strlit("/api/ipam/aggregates/");
    reveal_strlit("/api/ipam/asns/");
    reveal_strlit("/api/ipam/ip-ranges/");
    reveal_strlit("/api/ipam/vrfs/");
    reveal_strlit("/api/ipam/route-targets/");
    reveal_strlit("/api/tenancy/tenants/");
    reveal_strlit("/api/tenancy/contacts/");
    reveal_strlit("/api/circuits/circuits/");
    reveal_strlit("/api/circuits/providers/");
    reveal_strlit("/api/circuits/virtual-circuits/");
    reveal_strlit("/api/virtualization/virtual-machines/");
    reveal_strlit("/api/virtualization/virtual-machine-types/");
    reveal_strlit("/api/virtualization/clusters/");
    let (a, b) = (collection(one), collection(other));
    assert(a.len() > 11 && b.len() > 11);
    assert(a[a.len() - 1] == '/' && b[b.len() - 1] == '/');
    if a == b {
        assert(a.len() == b.len() && a[11] == b[11]);
    }
}

/// A lookup that finds nothing says so under the name of its kind.
pub proof fn kinds_are_called_by_name(kind: ObjectKind)
    ensures
        kind == ObjectKind::Device ==> kind_noun(kind) == "device"@,
        kind == ObjectKind::Site ==> kind_noun(kind) == "site"@,
        kind == ObjectKind::Rack ==> kind_noun(kind) == "rack"@,
        kind == ObjectKind::RackGroup ==> kind_noun(kind) == "rack group"@,
        kind == ObjectKind::Interface ==> kind_noun(kind) == "interface"@,
        kind == ObjectKind::Mac ==> kind_noun(kind) == "MAC"@,
        kind == ObjectKind::IpAddress ==> kind_noun(kind) == "IP address"@,
        kind == ObjectKind::Prefix ==> kind_noun(kind) == "prefix"@,
        kind == ObjectKind::Vlan ==> kind_noun(kind) == "VLAN"@,
        kind == ObjectKind::Aggregate ==> kind_noun(kind) == "aggregate"@,
        kind == ObjectKind::Asn ==> kind_noun(kind) == "ASN"@,
        kind == ObjectKind::IpRange ==> kind_noun(kind) == "IP range"@,
        kind == ObjectKind::Vrf ==> kind_noun(kind) == "vrf"@,
        kind == ObjectKind::RouteTarget ==> kind_noun(kind) == "route target"@,
        kind == ObjectKind::Tenant ==> kind_noun(kind) == "tenant"@,
        kind == ObjectKind::Contact ==> kind_noun(kind) == "contact"@,
        kind == ObjectKind::Circuit ==> kind_noun(kind) == "circuit"@,
        kind == ObjectKind::Provider ==> kind_noun(kind) == "provider"@,
        kind == ObjectKind::VirtualCircuit ==> kind_noun(kind) == "virtual circuit"@,
        kind == ObjectKind::Vm ==> kind_noun(kind) == "virtual machine"@,
        kind == ObjectKind::VmType ==> kind_noun(kind) == "virtual machine type"@,
        kind == ObjectKind::Cluster ==> kind_noun(kind) == "cluster"@,
{
}

/// What is still to be read for an object is asked by what the object itself says: its
/// id, the host part of its address, its CIDR, and the id of its own VRF or group. A
/// height of zero counts as none.
pub proof fn follow_ups_ask_about_the_object(r: FollowUp, id: u64, object: Object)
    requires
        is_follow_up(r, id, object),
    ensures
        object is Device ==> r == (FollowUp::DeviceParts { id: object->Device_0.id }),
        object is Site ==> r == (FollowUp::SiteParts { id }),
        object is Rack ==> r is RackParts && r->RackParts_id == id && r->height != Some(0u32) && (
        object->Rack_0.u_height != Some(0u32) ==> r->height == object->Rack_0.u_height),
        object is IpAddress ==> {
            let ip = object->IpAddress_0;
            &&& r is Containing
            &&& !r->host@.contains('/')
            &&& !ip.address@.contains('/') ==> r->host@ == ip.address@
            &&& ip.address@.contains('/') ==> exists|len: Text| #[trigger]
                (r->host@ + "/"@ + len) == ip.address@
            &&& r->Containing_vrf_id is Some <==> ip.vrf is Some
            &&& ip.vrf is Some ==> r->Containing_vrf_id == Some(ip.vrf->0.id)
        },
        object is Prefix ==> {
            let p = object->Prefix_0;
            &&& r is PrefixParts
            &&& r->cidr@ == p.prefix@
            &&& r->PrefixParts_vrf_id is Some <==> p.vrf is Some
            &&& p.vrf is Some ==> r->PrefixParts_vrf_id == Some(p.vrf->0.id)
        },
        object is Vlan ==> {
            let v = object->Vlan_0;
            &&& r is VlanParts
            &&& r->VlanParts_id == v.id
            &&& r->group_id is Some <==> v.group is Some
            &&& v.group is Some ==> r->group_id == Some(v.group->0.id)
        },
        object is Circuit ==> r == (FollowUp::CircuitParts { id: object->Circuit_0.id }),
        object is Vrf ==> r == (FollowUp::VrfParts { id: object->Vrf_0.id }),
        object is RouteTarget ==> r == (FollowUp::RouteTargetParts {
            id: object->RouteTarget_0.id,
        }),
        object is Interface ==> r == (FollowUp::InterfaceParts { id: object->Interface_0.id }),
        object is VirtualCircuit ==> r == (FollowUp::VirtualCircuitParts {
            id: object->VirtualCircuit_0.id,
        }),
        r is Nothing <==> (object is Aggregate || object is Asn || object is IpRange
            || object is Tenant || object is Contact || object is Provider || object is Vm
            || object is VmType || object is Cluster || object is Mac || object is RackGroup),
{
    if object is IpAddress {
        let s = object->IpAddress_0.address@;
        crate::split::first_index_is_least(s, '/');
        let n = crate::split::first_index(s, '/') as int;
        reveal_strlit("/");
        assert(!r->host@.contains('/')) by {
            if r->host@.contains('/') {
                let i = choose|i: int| 0 <= i < r->host@.len() && r->host@[i] == '/';
                assert(s[i] == '/');
            }
        }
        if s.contains('/') {
            let at = choose|i: int| 0 <= i < s.len() && s[i] == '/';
            assert(n < s.len());
            assert(r->host@ + "/"@ + s.skip(n + 1) =~= s);
        } else {
            if n < s.len() {
                assert(s.contains(s[n]));
            }
            assert(s.take(n) =~= s);
        }
    }
}

/// An AS number may be written with the letters of `AS` in front, in either case: they
/// are dropped, and nothing else is.
pub proof fn as_letters_are_dropped(s: Text, c: char)
    ensures
        c == 'A' || c == 'a' || c == 'S' || c == 's' ==> trim_as(seq![c] + s) == trim_as(s),
        c != 'A' && c != 'a' && c != 'S' && c != 's' ==> trim_as(seq![c] + s) == seq![c] + s,
        trim_as(Seq::<char>::empty()) == Seq::<char>::empty(),
{
    assert((seq![c] + s).skip(1) =~= s);
}

/// A value is looked up by what it names: an address as an address, a number as an AS
/// number or as an interface's id, a MAC in its canonical form, and anything else as a
/// reference. A number that cannot be read, or a MAC that is none, matches nothing.
pub proof fn lookups_go_by_kind(
    r: Result<Lookup, ErrorChain>,
    kind: ObjectKind,
    value: Text,
    mac: Option<String>,
)
    requires
        is_lookup_for(r, kind, value, mac),
    ensures
        kind == ObjectKind::IpAddress ==> r is Ok && r->Ok_0 is Addresses,
        kind == ObjectKind::Asn ==> (r is Ok <==> number_value(
            trim_as(trim(value)),
            u32::MAX as nat,
        ) is Some),
        kind == ObjectKind::Asn && r is Ok ==> r->Ok_0 is AsNumber && Some(
            r->Ok_0->AsNumber_0 as nat,
        ) == number_value(trim_as(trim(value)), u32::MAX as nat),
        kind == ObjectKind::Asn && r is Err ==> r->Err_0.says(
            seq![
                "invalid AS number \""@ + value + "\""@,
                u32_error(trim_as(trim(value)))->0,
            ],
        ),
        kind == ObjectKind::Interface ==> (r is Ok <==> number_value(
            trim(value),
            u64::MAX as nat,
        ) is Some),
        kind == ObjectKind::Interface && r is Ok ==> r->Ok_0 is InterfaceId && Some(
            r->Ok_0->InterfaceId_0 as nat,
        ) == number_value(trim(value), u64::MAX as nat),
        kind == ObjectKind::Interface && r is Err ==> r->Err_0.is_bare()
            && r->Err_0.bare() is NotFound && r->Err_0.bare()->NotFound_0@
            == "no "@ + "interface"@ + " matched \""@ + value + "\""@,
        kind == ObjectKind::Mac ==> (r is Ok <==> mac is Some),
        kind == ObjectKind::Mac && r is Ok ==> r->Ok_0 is MacAddresses
            && r->Ok_0->MacAddresses_0@ == mac->0@,
        kind == ObjectKind::Mac && r is Err ==> r->Err_0.is_bare() && r->Err_0.bare() is NotFound
            && r->Err_0.bare()->NotFound_0@ == "no "@ + "MAC"@ + " matched \""@ + value + "\""@,
        kind != ObjectKind::IpAddress && kind != ObjectKind::Asn && kind != ObjectKind::Interface
            && kind != ObjectKind::Mac ==> r is Ok && r->Ok_0 is Reference,
{
}

/// Candidates are named one by one, in their order, so that whoever chooses sees each of
/// them: an address and a prefix with their VRF, a VLAN with its number, name and
/// place, a MAC address with what carries it.
pub proof fn candidates_are_named_in_order(
    ips: Seq<IpAddress>,
    prefixes: Seq<Prefix>,
    vlans: Seq<Vlan>,
    macs: Seq<MacAddress>,
    i: int,
)
    ensures
        address_names(ips).len() == ips.len(),
        0 <= i < ips.len() ==> address_names(ips)[i] == ips[i].address@ + " ("@
            + match ips[i].vrf {
            Some(vrf) => vrf.label_text(),
            None => "global"@,
        } + ")"@,
        prefix_names(prefixes).len() == prefixes.len(),
        0 <= i < prefixes.len() ==> prefix_names(prefixes)[i] == prefixes[i].prefix@ + " ("@
            + match prefixes[i].vrf {
            Some(vrf) => vrf.label_text(),
            None => "global"@,
        } + ")"@,
        vlan_names(vlans).len() == vlans.len(),
        0 <= i < vlans.len() ==> vlan_names(vlans)[i] == decimal_text(vlans[i].vid as nat) + " "@
            + vlans[i].name@ + " ("@ + match vlans[i].site {
            Some(site) => site.label_text(),
            None => match vlans[i].group {
                Some(group) => group.label_text(),
                None => "global"@,
            },
        } + ")"@,
        mac_names(macs).len() == macs.len(),
        0 <= i < macs.len() && macs[i].assigned_object is None ==> mac_names(macs)[i]
            == macs[i].mac_address@ + " → "@ + "unassigned"@,
        0 <= i < macs.len() && macs[i].assigned_object is Some && carried_by(
            macs[i].assigned_object->0,
        ) is Some ==> mac_names(macs)[i] == macs[i].mac_address@ + " → "@ + carried_by(
            macs[i].assigned_object->0,
        )->0,
{
}

/// A screen is of the kind of what was loaded, bears the id it was asked by, and its
/// title names the object.
pub proof fn screens_name_their_object(s: Screen, id: u64, loaded: Loaded)
    requires
        is_screen_of(s, id, loaded),
    ensures
        loaded is Device ==> s.kind == ObjectKind::Device && s.id == id && s.title == "device "@
            + loaded->device.name@,
        loaded is Site ==> s.kind == ObjectKind::Site && s.id == id && s.title == "site "@
            + loaded->site.name@,
        loaded is Rack ==> s.kind == ObjectKind::Rack && s.id == id && s.title == "rack "@
            + loaded->rack.name@,
        loaded is IpAddress ==> s.kind == ObjectKind::IpAddress && s.id == id && s.title == "ip "@
            + loaded->ip.address@,
        loaded is Prefix ==> s.kind == ObjectKind::Prefix && s.id == id && s.title == "prefix "@
            + loaded->prefix.prefix@,
        loaded is Vlan ==> s.kind == ObjectKind::Vlan && s.id == id && s.title == "vlan "@
            + decimal_text(loaded->vlan.vid as nat),
        loaded is Circuit ==> s.kind == ObjectKind::Circuit && s.id == loaded->circuit.id
            && s.title == "circuit "@ + loaded->circuit.cid@,
        loaded is Vrf ==> s.kind == ObjectKind::Vrf && s.id == loaded->vrf.id && s.title == "vrf "@
            + loaded->vrf.name@,
        loaded is RouteTarget ==> s.kind == ObjectKind::RouteTarget && s.id == loaded->target.id
            && s.title == "route-target "@ + loaded->target.name@,
        loaded is Interface && loaded->interface.device is None ==> s.title == "interface "@
            + loaded->interface.name@,
        loaded is Interface && loaded->interface.device is Some ==> s.title == "interface "@
            + loaded->interface.device->0.name_text() + " "@ + loaded->interface.name@,
        loaded is Interface ==> s.kind == ObjectKind::Interface && s.id == id,
        loaded is VirtualCircuit ==> s.kind == ObjectKind::VirtualCircuit && s.id == id && s.title
            == "virtual circuit "@ + loaded->virtual_circuit.cid@,
        loaded is Aggregate ==> s.kind == ObjectKind::Aggregate && s.id == id && s.title
            == "aggregate "@ + loaded->Aggregate_0.prefix@,
        loaded is Asn ==> s.kind == ObjectKind::Asn && s.id == id && s.title == "asn "@
            + decimal_text(loaded->Asn_0.asn as nat),
        loaded is IpRange ==> s.kind == ObjectKind::IpRange && s.id == id && s.title
            == "ip-range "@ + loaded->IpRange_0.start_address@ + "-"@
            + loaded->IpRange_0.end_address@,
        loaded is Tenant ==> s.kind == ObjectKind::Tenant && s.id == id && s.title == "tenant "@
            + loaded->Tenant_0.name@,
        loaded is Contact ==> s.kind == ObjectKind::Contact && s.id == id && s.title == "contact "@
            + loaded->Contact_0.name@,
        loaded is Provider ==> s.kind == ObjectKind::Provider && s.id == id && s.title
            == "provider "@ + loaded->Provider_0.name@,
        loaded is Vm ==> s.kind == ObjectKind::Vm && s.id == id && s.title == "vm "@
            + loaded->Vm_0.name@,
        loaded is VmType ==> s.kind == ObjectKind::VmType && s.id == id && s.title == "vm type "@
            + loaded->VmType_0.name@,
        loaded is Cluster ==> s.kind == ObjectKind::Cluster && s.id == id && s.title == "cluster "@
            + loaded->Cluster_0.name@,
        loaded is Mac ==> s.kind == ObjectKind::Mac && s.id == id && s.title == "mac "@
            + loaded->Mac_0.mac_address@,
        loaded is RackGroup ==> s.kind == ObjectKind::RackGroup && s.id == id && s.title
            == "rack group "@ + loaded->RackGroup_0.name@,
{
}

/// The text of a screen is made of the rows of its object, and a screen offers the links
/// of its object.
pub proof fn screens_show_their_object(s: Screen, id: u64, loaded: Loaded)
    requires
        is_screen_of(s, id, loaded),
    ensures
        loaded is Device ==> s.body == rendered(DeviceView::rows_of(loaded->device)) && s.links
            == device_link_list(loaded->device),
        loaded is Site ==> s.body == rendered(SiteView::rows_of(loaded->site)) && s.links
            == tenant_link_list(loaded->site.tenant),
        loaded is Rack ==> s.body == rendered(RackView::rows_of(loaded->rack)) && s.links
            == site_tenant_link_list(loaded->rack.site, loaded->rack.tenant),
        loaded is IpAddress ==> exists|parent: Option<Prefix>| #[trigger]
            is_most_specific(parent, loaded->containing@) && s.body == rendered(
                IpView::rows_of(loaded->ip, parent),
            ) && s.links == ip_link_list(loaded->ip, parent),
        loaded is Prefix ==> s.body == rendered(PrefixView::rows_of(loaded->prefix)) && s.links
            == prefix_link_list(loaded->prefix),
        loaded is Vlan ==> s.body == rendered(VlanView::rows_of(loaded->vlan, loaded->group))
            && s.links == site_tenant_link_list(loaded->vlan.site, loaded->vlan.tenant),
        loaded is Circuit ==> s.body == rendered(CircuitView::rows_of(loaded->circuit))
            && s.links == circuit_link_list(loaded->circuit, loaded->resolved@),
        loaded is Vrf ==> s.links == tenant_link_list(loaded->vrf.tenant),
        loaded is RouteTarget ==> s.links == tenant_link_list(loaded->target.tenant),
        loaded is Interface && loaded->interface.device is None ==> s.links.len() == 0,
        loaded is Interface && loaded->interface.device is Some ==> s.links.len() == 1
            && s.links[0].kind == ObjectKind::Device && s.links[0].id
            == loaded->interface.device->0.id && s.links[0].relation == "device"@
            && s.links[0].label == loaded->interface.device->0.label_text(),
        loaded is Interface ==> s.body == rendered(InterfaceView::rows_of(loaded->interface))
            + section_text("Tagged VLANs"@, labels(loaded->interface.tagged_vlans@))
            + section_text(
            "Connected To"@,
            endpoint_labels(loaded->interface.connected_endpoints),
        ) + section_text("IP Addresses"@, addresses(loaded->Interface_ips@)),
        loaded is Aggregate ==> s.body == rendered(AggregateView::rows_of(loaded->Aggregate_0)),
        loaded is Asn ==> s.body == rendered(AsnView::rows_of(loaded->Asn_0)),
        loaded is IpRange ==> s.body == rendered(IpRangeView::rows_of(loaded->IpRange_0)),
        loaded is Tenant ==> s.body == rendered(TenantView::rows_of(loaded->Tenant_0)),
        loaded is Contact ==> s.body == rendered(ContactView::rows_of(loaded->Contact_0)),
        loaded is Provider ==> s.body == rendered(ProviderView::rows_of(loaded->Provider_0)),
        loaded is Vm ==> s.body == rendered(VmView::rows_of(loaded->Vm_0)),
        loaded is VmType ==> s.body == rendered(VirtualMachineTypeView::rows_of(loaded->VmType_0)),
        loaded is Cluster ==> s.body == rendered(ClusterView::rows_of(loaded->Cluster_0)),
        loaded is Mac ==> s.body == rendered(MacView::rows_of(loaded->Mac_0)),
        loaded is RackGroup ==> s.body == rendered(RackGroupView::rows_of(loaded->RackGroup_0)),
{
    if loaded is Interface {
        let b = loaded->interface.device;
        assert(s.links =~= link_to("device"@, ObjectKind::Device, b));
    }
}

/// The tabs of a screen list what was read along with the object, and each row opens
/// what it lists. What could not be read is said instead.
pub proof fn tabs_list_what_was_read(s: Screen, id: u64, loaded: Loaded, i: int)
    requires
        is_screen_of(s, id, loaded),
    ensures
        loaded is Site ==> {
            &&& s.tabs.len() == 2
            &&& s.tabs[0].key == 'd' && s.tabs[1].key == 'r'
            &&& loaded->Site_devices is Ok && 0 <= i < loaded->Site_devices->Ok_0@.len()
                ==> s.tabs[0].rows[i].1 == Some(
                (ObjectKind::Device, loaded->Site_devices->Ok_0@[i].id),
            )
            &&& loaded->Site_devices is Ok ==> s.tabs[0].label == "devices"@ + "·"@
                + decimal_text(loaded->Site_devices->Ok_0@.len())
            &&& loaded->Site_devices is Err ==> s.tabs[0].label == "devices"@ && s.tabs[0].body
                == "(devices unavailable: "@ + loaded->Site_devices->Err_0@ + ")"@
                && s.tabs[0].rows.len() == 0
            &&& loaded->racks is Ok && 0 <= i < loaded->racks->Ok_0@.len()
                ==> s.tabs[1].rows[i].1 == Some((ObjectKind::Rack, loaded->racks->Ok_0@[i].id))
            &&& loaded->racks is Ok ==> s.tabs[1].label == "racks"@ + "·"@ + decimal_text(
                loaded->racks->Ok_0@.len(),
            )
            &&& loaded->racks is Err ==> s.tabs[1].label == "racks"@ && s.tabs[1].body
                == "(racks unavailable: "@ + loaded->racks->Err_0@ + ")"@ && s.tabs[1].rows.len()
                == 0
        },
        loaded is Rack ==> {
            &&& s.tabs.len() == if loaded->rack.u_height is Some && loaded->rack.u_height->0 > 0 {
                2int
            } else {
                1int
            }
            &&& s.tabs[0].key == 'd'
            &&& loaded->Rack_devices is Ok && 0 <= i < loaded->Rack_devices->Ok_0@.len()
                ==> s.tabs[0].rows[i].1 == Some(
                (ObjectKind::Device, loaded->Rack_devices->Ok_0@[i].id),
            )
            &&& s.tabs.len() == 2 ==> s.tabs[1].key == 'e' && s.tabs[1].label == "elevation"@
            &&& s.tabs.len() == 2 && loaded->elevation is Ok ==> s.tabs[1].body
                == loaded->elevation->Ok_0@
            &&& s.tabs.len() == 2 && loaded->elevation is Err ==> s.tabs[1].body
                == "(elevation unavailable: "@ + loaded->elevation->Err_0@ + ")"@
        },
        loaded is Prefix ==> {
            &&& s.tabs.len() == 2
            &&& s.tabs[0].key == 'c' && s.tabs[1].key == 'a'
            &&& s.tabs[0].label == "children"@ + "·"@ + decimal_text(loaded->children@.len())
            &&& s.tabs[1].label == "addresses"@ + "·"@ + decimal_text(loaded->Prefix_ips@.len())
            &&& 0 <= i < loaded->children@.len() ==> s.tabs[0].rows[i] == (
                loaded->children@[i].prefix@,
                Some((ObjectKind::Prefix, loaded->children@[i].id)),
            )
            &&& loaded->children@.len() == 0 ==> s.tabs[0].rows[0].0 == "(no child prefixes)"@
            &&& 0 <= i < loaded->Prefix_ips@.len() ==> s.tabs[1].rows[i].1 == Some(
                (ObjectKind::IpAddress, loaded->Prefix_ips@[i].id),
            )
        },
        loaded is Vlan ==> {
            &&& s.tabs.len() == 1
            &&& s.tabs[0].key == 'p'
            &&& s.tabs[0].label == "prefixes"@ + "·"@ + decimal_text(loaded->prefixes@.len())
            &&& 0 <= i < loaded->prefixes@.len() ==> s.tabs[0].rows[i] == (
                loaded->prefixes@[i].prefix@,
                Some((ObjectKind::Prefix, loaded->prefixes@[i].id)),
            )
            &&& loaded->prefixes@.len() == 0 ==> s.tabs[0].rows[0].0 == "(no prefixes)"@
        },
        loaded is Circuit && loaded->resolved@.len() == 0 ==> s.tabs.len() == 0,
        loaded is Interface && loaded->trace@.len() == 0 ==> s.tabs.len() == 0,
        s.tabs.len() > 0 && loaded is Circuit ==> s.tabs.len() == 1 && s.tabs[0].key == 'p'
            && s.tabs[0].label == "path"@ && s.tabs[0].body == joined(
            resolved_diagram(
                circuit_middle(loaded->circuit),
                crate::order::stably_sorted(loaded->resolved@),
            ),
            "\n"@,
        ),
        s.tabs.len() > 0 && loaded is Interface ==> s.tabs.len() == 1 && s.tabs[0].key == 'c'
            && s.tabs[0].label == "cable path"@ && s.tabs[0].body == joined(
            drawing(loaded->trace@).lines,
            "\n"@,
        ),
        !(loaded is Device || loaded is Site || loaded is Rack || loaded is Prefix || loaded is Vlan
            || loaded is Circuit || loaded is Vrf || loaded is RouteTarget || loaded is Interface)
            ==> s.tabs.len() == 0,
{
    if loaded is Circuit {
        crate::order::sorting_keeps_values(loaded->resolved@);
    }
}

/// The sections of a device open what they list: interfaces, addresses, the interfaces
/// that have cables, and VLANs, each under its own key.
pub proof fn device_tabs_open_what_they_list(detail: DeviceDetail, t: int, i: int)
    requires
        0 <= t < detail.section_list().len(),
    ensures
        device_tabs(detail).len() == detail.section_list().len(),
        ({
            let (key, label, body) = detail.section_list()[t];
            let tab = device_tabs(detail)[t];
            &&& tab.key == key && tab.label == label && tab.body == body
            &&& key == 'i' ==> tab.rows.len() == detail.interfaces@.len() && (0 <= i
                < detail.interfaces@.len() ==> tab.rows[i].1 == Some(
                (ObjectKind::Interface, detail.interfaces@[i].id),
            ))
            &&& key == 'p' ==> tab.rows.len() == detail.ip_addresses@.len() && (0 <= i
                < detail.ip_addresses@.len() ==> tab.rows[i].1 == Some(
                (ObjectKind::IpAddress, detail.ip_addresses@[i].id),
            ))
            &&& key == 'c' ==> tab.rows.len() == detail.cables@.len() && (0 <= i
                < detail.cables@.len() ==> tab.rows[i].1 == Some(
                (ObjectKind::Interface, detail.cables@[i].id),
            ))
            &&& key == 'v' ==> tab.rows.len() == detail.vlans@.len() && (0 <= i
                < detail.vlans@.len() ==> tab.rows[i].1 == Some(
                (ObjectKind::Vlan, detail.vlans@[i].id),
            ))
        }),
{
}

} // verus!
