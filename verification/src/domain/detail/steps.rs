//! Loading a detail step by step. Each step says what to read next; what was read
//! leads to the next step.

use vstd::prelude::*;

use crate::domain::circuit_view::ResolvedTermination;
use crate::domain::detail::load::{
    address_names,
    follow_up,
    found_or_note,
    is_follow_up,
    is_lookup_for,
    is_screen_of,
    kind_noun,
    load_detail,
    lookup_for,
    mac_names,
    resolve_ip,
    resolve_mac,
    FollowUp,
    Loaded,
    Lookup,
    Object,
};
use crate::domain::detail::resolve::{
    lists_candidates,
    no_match_text,
    retained,
    tui_not_found,
    ScopeField,
};
use crate::domain::detail::routing::PrefixNode;
use crate::domain::detail::view::DetailView;
use crate::domain::route_target_view::VrfRef;
use crate::error::{ErrorChain, NboxError};
use crate::json::Json;
use crate::netbox::models::{
    Device,
    Interface,
    IpAddress,
    MacAddress,
    Prefix,
    Rack,
    VirtualCircuitTermination,
    VlanGroup,
};
use crate::netbox::search::ObjectKind;
use crate::text::Text;

verus! {

// ===== What was read =====================================================

/// What a lookup gave.
#[derive(Debug)]
pub enum Answer {
    /// The object that a reference names, when there is one.
    Object(Option<Object>),
    /// The object read under an id.
    UnderId { id: u64, object: Object },
    /// The addresses that match.
    Addresses(Vec<IpAddress>),
    /// The MAC addresses that match.
    Macs(Vec<MacAddress>),
}

/// What was read besides an object.
#[derive(Debug)]
pub enum Parts {
    Nothing,
    Device { interfaces: Vec<Interface>, ips: Vec<IpAddress> },
    Site { devices: Result<Vec<Device>, String>, racks: Result<Vec<Rack>, String> },
    Rack { devices: Result<Vec<Device>, String>, elevation: Result<String, String> },
    Containing(Vec<Prefix>),
    Prefix { children: Vec<Prefix>, ips: Vec<IpAddress> },
    Vlan { prefixes: Vec<Prefix>, group: Option<VlanGroup> },
    Circuit(Vec<ResolvedTermination>),
    Vrf { read: u64, nodes: Vec<PrefixNode>, ips: Vec<IpAddress> },
    RouteTarget { importing: Vec<VrfRef>, exporting: Vec<VrfRef> },
    Interface { ips: Vec<IpAddress>, trace: Vec<Json> },
    VirtualCircuit(Vec<VirtualCircuitTermination>),
}

/// An object with what was read for it, when the one fits the other.
pub open spec fn assembled(object: Object, parts: Parts) -> Option<Loaded> {
    match (object, parts) {
        (Object::Device(device), Parts::Device { interfaces, ips }) => Some(
            Loaded::Device { device, interfaces, ips },
        ),
        (Object::Site(site), Parts::Site { devices, racks }) => Some(
            Loaded::Site { site, devices, racks },
        ),
        (Object::Rack(rack), Parts::Rack { devices, elevation }) => Some(
            Loaded::Rack { rack, devices, elevation },
        ),
        (Object::IpAddress(ip), Parts::Containing(containing)) => Some(
            Loaded::IpAddress { ip, containing },
        ),
        (Object::Prefix(prefix), Parts::Prefix { children, ips }) => Some(
            Loaded::Prefix { prefix, children, ips },
        ),
        (Object::Vlan(vlan), Parts::Vlan { prefixes, group }) => Some(
            Loaded::Vlan { vlan, prefixes, group },
        ),
        (Object::Circuit(circuit), Parts::Circuit(resolved)) => Some(
            Loaded::Circuit { circuit, resolved },
        ),
        (Object::Vrf(vrf), Parts::Vrf { read, nodes, ips }) => Some(
            Loaded::Vrf { vrf, read, nodes, ips },
        ),
        (Object::RouteTarget(target), Parts::RouteTarget { importing, exporting }) => Some(
            Loaded::RouteTarget { target, importing, exporting },
        ),
        (Object::Interface(interface), Parts::Interface { ips, trace }) => Some(
            Loaded::Interface { interface, ips, trace },
        ),
        (Object::VirtualCircuit(virtual_circuit), Parts::VirtualCircuit(points)) => Some(
            Loaded::VirtualCircuit { virtual_circuit, points },
        ),
        (Object::Aggregate(o), Parts::Nothing) => Some(Loaded::Aggregate(o)),
        (Object::Asn(o), Parts::Nothing) => Some(Loaded::Asn(o)),
        (Object::IpRange(o), Parts::Nothing) => Some(Loaded::IpRange(o)),
        (Object::Tenant(o), Parts::Nothing) => Some(Loaded::Tenant(o)),
        (Object::Contact(o), Parts::Nothing) => Some(Loaded::Contact(o)),
        (Object::Provider(o), Parts::Nothing) => Some(Loaded::Provider(o)),
        (Object::Vm(o), Parts::Nothing) => Some(Loaded::Vm(o)),
        (Object::VmType(o), Parts::Nothing) => Some(Loaded::VmType(o)),
        (Object::Cluster(o), Parts::Nothing) => Some(Loaded::Cluster(o)),
        (Object::Mac(o), Parts::Nothing) => Some(Loaded::Mac(o)),
        (Object::RackGroup(o), Parts::Nothing) => Some(Loaded::RackGroup(o)),
        _ => None,
    }
}

/// Puts an object together with what was read for it. What does not fit gives the
/// object back.
pub fn assemble(object: Object, parts: Parts) -> (r: Result<Loaded, Object>)
    ensures
        match assembled(object, parts) {
            Some(loaded) => r == Ok::<Loaded, Object>(loaded),
            None => r == Err::<Loaded, Object>(object),
        },
{
    match (object, parts) {
        (Object::Device(device), Parts::Device { interfaces, ips }) => Ok(
            Loaded::Device { device, interfaces, ips },
        ),
        (Object::Site(site), Parts::Site { devices, racks }) => Ok(
            Loaded::Site { site, devices, racks },
        ),
        (Object::Rack(rack), Parts::Rack { devices, elevation }) => Ok(
            Loaded::Rack { rack, devices, elevation },
        ),
        (Object::IpAddress(ip), Parts::Containing(containing)) => Ok(
            Loaded::IpAddress { ip, containing },
        ),
        (Object::Prefix(prefix), Parts::Prefix { children, ips }) => Ok(
            Loaded::Prefix { prefix, children, ips },
        ),
        (Object::Vlan(vlan), Parts::Vlan { prefixes, group }) => Ok(
            Loaded::Vlan { vlan, prefixes, group },
        ),
        (Object::Circuit(circuit), Parts::Circuit(resolved)) => Ok(
            Loaded::Circuit { circuit, resolved },
        ),
        (Object::Vrf(vrf), Parts::Vrf { read, nodes, ips }) => Ok(
            Loaded::Vrf { vrf, read, nodes, ips },
        ),
        (Object::RouteTarget(target), Parts::RouteTarget { importing, exporting }) => Ok(
            Loaded::RouteTarget { target, importing, exporting },
        ),
        (Object::Interface(interface), Parts::Interface { ips, trace }) => Ok(
            Loaded::Interface { interface, ips, trace },
        ),
        (Object::VirtualCircuit(virtual_circuit), Parts::VirtualCircuit(points)) => Ok(
            Loaded::VirtualCircuit { virtual_circuit, points },
        ),
        (Object::Aggregate(o), Parts::Nothing) => Ok(Loaded::Aggregate(o)),
        (Object::Asn(o), Parts::Nothing) => Ok(Loaded::Asn(o)),
        (Object::IpRange(o), Parts::Nothing) => Ok(Loaded::IpRange(o)),
        (Object::Tenant(o), Parts::Nothing) => Ok(Loaded::Tenant(o)),
        (Object::Contact(o), Parts::Nothing) => Ok(Loaded::Contact(o)),
        (Object::Provider(o), Parts::Nothing) => Ok(Loaded::Provider(o)),
        (Object::Vm(o), Parts::Nothing) => Ok(Loaded::Vm(o)),
        (Object::VmType(o), Parts::Nothing) => Ok(Loaded::VmType(o)),
        (Object::Cluster(o), Parts::Nothing) => Ok(Loaded::Cluster(o)),
        (Object::Mac(o), Parts::Nothing) => Ok(Loaded::Mac(o)),
        (Object::RackGroup(o), Parts::Nothing) => Ok(Loaded::RackGroup(o)),
        (object, _) => Err(object),
    }
}

impl Object {
    /// Its id.
    pub open spec fn own_id(self) -> u64 {
        match self {
            Object::Device(o) => o.id,
            Object::Site(o) => o.id,
            Object::Rack(o) => o.id,
            Object::RackGroup(o) => o.id,
            Object::Interface(o) => o.id,
            Object::Mac(o) => o.id,
            Object::IpAddress(o) => o.id,
            Object::Prefix(o) => o.id,
            Object::Vlan(o) => o.id,
            Object::Aggregate(o) => o.id,
            Object::Asn(o) => o.id,
            Object::IpRange(o) => o.id,
            Object::Vrf(o) => o.id,
            Object::RouteTarget(o) => o.id,
            Object::Tenant(o) => o.id,
            Object::Contact(o) => o.id,
            Object::Circuit(o) => o.id,
            Object::Provider(o) => o.id,
            Object::VirtualCircuit(o) => o.id,
            Object::Vm(o) => o.id,
            Object::VmType(o) => o.id,
            Object::Cluster(o) => o.id,
        }
    }

    /// Its id.
    pub fn id(&self) -> (r: u64)
        ensures
            r == self.own_id(),
    {
        match self {
            Object::Device(o) => o.id,
            Object::Site(o) => o.id,
            Object::Rack(o) => o.id,
            Object::RackGroup(o) => o.id,
            Object::Interface(o) => o.id,
            Object::Mac(o) => o.id,
            Object::IpAddress(o) => o.id,
            Object::Prefix(o) => o.id,
            Object::Vlan(o) => o.id,
            Object::Aggregate(o) => o.id,
            Object::Asn(o) => o.id,
            Object::IpRange(o) => o.id,
            Object::Vrf(o) => o.id,
            Object::RouteTarget(o) => o.id,
            Object::Tenant(o) => o.id,
            Object::Contact(o) => o.id,
            Object::Circuit(o) => o.id,
            Object::Provider(o) => o.id,
            Object::VirtualCircuit(o) => o.id,
            Object::Vm(o) => o.id,
            Object::VmType(o) => o.id,
            Object::Cluster(o) => o.id,
        }
    }
}

// ===== Steps =============================================================

/// What to do next to show an object.
#[derive(Debug)]
pub enum DetailStep {
    /// Look the object up.
    Find(Lookup),
    /// Read what is shown besides the object, which was asked for by `id`.
    Read { id: u64, object: Object, wants: FollowUp },
    /// Show the screen.
    Show(DetailView),
    /// Report an error.
    Fail(ErrorChain),
}

/// Starts loading a detail by reference. `mac` is the reference as a MAC address,
/// when it is one.
pub fn load_detail_by_ref(kind: ObjectKind, value: &str, mac: Option<String>) -> (r: DetailStep)
    ensures
        match r {
            DetailStep::Find(lookup) => is_lookup_for(Ok(lookup), kind, value@, mac),
            DetailStep::Fail(e) => is_lookup_for(Err(e), kind, value@, mac),
            _ => false,
        },
{
    match lookup_for(kind, value, mac) {
        Ok(lookup) => DetailStep::Find(lookup),
        Err(e) => DetailStep::Fail(e),
    }
}

/// Whether a step shows an object with what was read for it, or asks for what is
/// missing. `id` is the id it was asked for by.
pub open spec fn goes_on(r: DetailStep, id: u64, object: Object, parts: Parts) -> bool {
    match assembled(object, parts) {
        Some(loaded) => r is Show && is_screen_of(r->Show_0@, id, loaded),
        None => {
            &&& r is Read
            &&& r->id == id
            &&& r->object == object
            &&& is_follow_up(r->wants, id, object)
        },
    }
}

/// Whether a step fails because nothing matches, by a typed error.
pub open spec fn fails_as_missing(r: DetailStep, noun: Text, value: Text) -> bool {
    &&& r is Fail
    &&& r->Fail_0.is_bare()
    &&& r->Fail_0.bare() is NotFound
    &&& r->Fail_0.bare()->NotFound_0@ == no_match_text(noun, value)
}

/// Whether a step fails because several candidates match.
pub open spec fn fails_as_ambiguous(
    r: DetailStep,
    noun: Text,
    value: Text,
    names: Seq<Text>,
) -> bool {
    &&& r is Fail
    &&& r->Fail_0.is_bare()
    &&& lists_candidates(r->Fail_0.bare(), noun, value, names)
}

/// Takes what a lookup gave. An object that a reference names is shown under its
/// own id, one read under an id under that id.
pub fn take_answer(kind: ObjectKind, value: &str, answer: Answer) -> (r: DetailStep)
    ensures
        match answer {
            Answer::Object(None) => r is Fail && r->Fail_0.says(
                seq![no_match_text(kind_noun(kind), value@)],
            ),
            Answer::Object(Some(object)) => goes_on(r, object.own_id(), object, Parts::Nothing),
            Answer::UnderId { id, object } => goes_on(r, id, object, Parts::Nothing),
            Answer::Addresses(v) => if v@.len() == 0 {
                fails_as_missing(r, "IP address"@, value@)
            } else if v@.len() == 1 {
                goes_on(r, v@[0].id, Object::IpAddress(v@[0]), Parts::Nothing)
            } else {
                fails_as_ambiguous(r, "IP address"@, value@, address_names(v@))
            },
            Answer::Macs(v) => if v@.len() == 0 {
                fails_as_missing(r, "MAC"@, value@)
            } else if v@.len() == 1 {
                goes_on(r, v@[0].id, Object::Mac(v@[0]), Parts::Nothing)
            } else {
                fails_as_ambiguous(r, "MAC"@, value@, mac_names(v@))
            },
        },
{
    let not_found = |noun: &str, value: &str| -> (e: NboxError)
        ensures
            e is NotFound,
            e->NotFound_0@ == no_match_text(noun@, value@),
        { tui_not_found(noun, value) };
    match answer {
        Answer::Object(found) => match found_or_note(kind, value, found) {
            Ok(object) => take_parts(object.id(), object, Parts::Nothing),
            Err(e) => DetailStep::Fail(e),
        },
        Answer::UnderId { id, object } => take_parts(id, object, Parts::Nothing),
        Answer::Addresses(v) => {
            proof {
                assert(retained(v@, None, ScopeField::Vrf) == v@);
            }
            match resolve_ip(value, v, None, not_found) {
                Ok(ip) => take_parts(ip.id, Object::IpAddress(ip), Parts::Nothing),
                Err(e) => DetailStep::Fail(ErrorChain::typed(e)),
            }
        },
        Answer::Macs(v) => match resolve_mac(value, v, not_found) {
            Ok(mac) => take_parts(mac.id, Object::Mac(mac), Parts::Nothing),
            Err(e) => DetailStep::Fail(ErrorChain::typed(e)),
        },
    }
}

/// Whether what was read is what was asked for.
pub open spec fn answers(wants: FollowUp, parts: Parts) -> bool {
    match wants {
        FollowUp::Nothing => parts is Nothing,
        FollowUp::DeviceParts { id: _ } => parts is Device,
        FollowUp::SiteParts { id: _ } => parts is Site,
        FollowUp::RackParts { id: _, height: _ } => parts is Rack,
        FollowUp::Containing { host: _, vrf_id: _ } => parts is Containing,
        FollowUp::PrefixParts { cidr: _, vrf_id: _ } => parts is Prefix,
        FollowUp::VlanParts { id: _, group_id: _ } => parts is Vlan,
        FollowUp::CircuitParts { id: _ } => parts is Circuit,
        FollowUp::VrfParts { id: _ } => parts is Vrf,
        FollowUp::RouteTargetParts { id: _ } => parts is RouteTarget,
        FollowUp::InterfaceParts { id: _ } => parts is Interface,
        FollowUp::VirtualCircuitParts { id: _ } => parts is VirtualCircuit,
    }
}

/// An object is shown exactly when what was read is what it wants: nothing is
/// asked for twice, and nothing is shown on other parts.
pub proof fn answers_complete_a_detail(id: u64, object: Object, wants: FollowUp, parts: Parts)
    requires
        is_follow_up(wants, id, object),
    ensures
        assembled(object, parts) is Some <==> answers(wants, parts),
{
}

/// Takes what was read besides an object that was asked for by `id`. With nothing
/// read yet, this starts loading a detail by id.
pub fn take_parts(id: u64, object: Object, parts: Parts) -> (r: DetailStep)
    requires
        object is Vrf && parts is Vrf ==> object->Vrf_0.import_targets@.len()
            + object->Vrf_0.export_targets@.len() <= u64::MAX,
    ensures
        goes_on(r, id, object, parts),
{
    match assemble(object, parts) {
        Ok(loaded) => DetailStep::Show(load_detail(id, loaded)),
        Err(object) => {
            let wants = follow_up(id, &object);
            DetailStep::Read { id, object, wants }
        },
    }
}

// ===== Laws ==============================================================

/// What is shown of an object holds that object and the very parts that were read for
/// it.
pub proof fn what_was_read_is_kept(object: Object, parts: Parts)
    requires
        assembled(object, parts) is Some,
    ensures
        ({
            let loaded = assembled(object, parts)->0;
            &&& object is Device <==> loaded is Device
            &&& object is Site <==> loaded is Site
            &&& object is Rack <==> loaded is Rack
            &&& object is IpAddress <==> loaded is IpAddress
            &&& object is Prefix <==> loaded is Prefix
            &&& object is Vlan <==> loaded is Vlan
            &&& object is Circuit <==> loaded is Circuit
            &&& object is Vrf <==> loaded is Vrf
            &&& object is RouteTarget <==> loaded is RouteTarget
            &&& object is Interface <==> loaded is Interface
            &&& object is VirtualCircuit <==> loaded is VirtualCircuit
            &&& object is Device ==> loaded->device == object->Device_0 && parts is Device
                && loaded->Device_interfaces == parts->Device_interfaces && loaded->Device_ips
                == parts->Device_ips
            &&& object is Site ==> loaded->site == object->Site_0 && parts is Site
                && loaded->Site_devices == parts->Site_devices && loaded->racks == parts->racks
            &&& object is Rack ==> loaded->rack == object->Rack_0 && parts is Rack
                && loaded->Rack_devices == parts->Rack_devices && loaded->elevation
                == parts->elevation
            &&& object is IpAddress ==> loaded->ip == object->IpAddress_0 && parts is Containing
                && loaded->containing == parts->Containing_0
            &&& object is Prefix ==> loaded->prefix == object->Prefix_0 && parts is Prefix
                && loaded->children == parts->children && loaded->Prefix_ips == parts->Prefix_ips
            &&& object is Vlan ==> loaded->vlan == object->Vlan_0 && parts is Vlan
                && loaded->prefixes == parts->prefixes && loaded->group == parts->group
            &&& object is Circuit ==> loaded->circuit == object->Circuit_0 && parts is Circuit
                && loaded->resolved == parts->Circuit_0
            &&& object is Vrf ==> loaded->vrf == object->Vrf_0 && parts is Vrf && loaded->read
                == parts->read && loaded->nodes == parts->nodes && loaded->Vrf_ips
                == parts->Vrf_ips
            &&& object is RouteTarget ==> loaded->target == object->RouteTarget_0
                && parts is RouteTarget && loaded->importing == parts->importing
                && loaded->exporting == parts->exporting
            &&& object is Interface ==> loaded->interface == object->Interface_0
                && parts is Interface && loaded->Interface_ips == parts->Interface_ips
                && loaded->trace == parts->trace
            &&& object is VirtualCircuit ==> loaded->virtual_circuit == object->VirtualCircuit_0
                && parts is VirtualCircuit && loaded->points == parts->VirtualCircuit_0
            &&& object is Aggregate ==> loaded == Loaded::Aggregate(object->Aggregate_0)
            &&& object is Asn ==> loaded == Loaded::Asn(object->Asn_0)
            &&& object is IpRange ==> loaded == Loaded::IpRange(object->IpRange_0)
            &&& object is Tenant ==> loaded == Loaded::Tenant(object->Tenant_0)
            &&& object is Contact ==> loaded == Loaded::Contact(object->Contact_0)
            &&& object is Provider ==> loaded == Loaded::Provider(object->Provider_0)
            &&& object is Vm ==> loaded == Loaded::Vm(object->Vm_0)
            &&& object is VmType ==> loaded == Loaded::VmType(object->VmType_0)
            &&& object is Cluster ==> loaded == Loaded::Cluster(object->Cluster_0)
            &&& object is Mac ==> loaded == Loaded::Mac(object->Mac_0)
            &&& object is RackGroup ==> loaded == Loaded::RackGroup(object->RackGroup_0)
        }),
{
}

/// An object's own id is the id that its record holds, whatever its kind.
pub proof fn objects_are_known_by_their_id(object: Object)
    ensures
        object is Device ==> object.own_id() == object->Device_0.id,
        object is Site ==> object.own_id() == object->Site_0.id,
        object is Rack ==> object.own_id() == object->Rack_0.id,
        object is RackGroup ==> object.own_id() == object->RackGroup_0.id,
        object is Interface ==> object.own_id() == object->Interface_0.id,
        object is Mac ==> object.own_id() == object->Mac_0.id,
        object is IpAddress ==> object.own_id() == object->IpAddress_0.id,
        object is Prefix ==> object.own_id() == object->Prefix_0.id,
        object is Vlan ==> object.own_id() == object->Vlan_0.id,
        object is Aggregate ==> object.own_id() == object->Aggregate_0.id,
        object is Asn ==> object.own_id() == object->Asn_0.id,
        object is IpRange ==> object.own_id() == object->IpRange_0.id,
        object is Vrf ==> object.own_id() == object->Vrf_0.id,
        object is RouteTarget ==> object.own_id() == object->RouteTarget_0.id,
        object is Tenant ==> object.own_id() == object->Tenant_0.id,
        object is Contact ==> object.own_id() == object->Contact_0.id,
        object is Circuit ==> object.own_id() == object->Circuit_0.id,
        object is Provider ==> object.own_id() == object->Provider_0.id,
        object is VirtualCircuit ==> object.own_id() == object->VirtualCircuit_0.id,
        object is Vm ==> object.own_id() == object->Vm_0.id,
        object is VmType ==> object.own_id() == object->VmType_0.id,
        object is Cluster ==> object.own_id() == object->Cluster_0.id,
{
}

/// A step shows the object once everything is there, and otherwise asks for what is
/// missing without losing what was read: the object and the id come back unchanged.
pub proof fn steps_lose_nothing(r: DetailStep, id: u64, object: Object, parts: Parts)
    requires
        goes_on(r, id, object, parts),
    ensures
        r is Show <==> assembled(object, parts) is Some,
        r is Show || r is Read,
        r is Show ==> is_screen_of(r->Show_0@, id, assembled(object, parts)->0),
        r is Read ==> r->id == id && r->object == object && is_follow_up(r->wants, id, object),
{
}

/// A failure says what was looked for and, where there are several, which ones there are.
pub proof fn failures_name_what_was_asked(
    r: DetailStep,
    noun: Text,
    value: Text,
    names: Seq<Text>,
)
    ensures
        fails_as_missing(r, noun, value) ==> r is Fail && r->Fail_0.is_bare()
            && r->Fail_0.bare() is NotFound && r->Fail_0.bare()->NotFound_0@ == "no "@ + noun
            + " matched \""@ + value + "\""@,
        fails_as_ambiguous(r, noun, value, names) ==> r is Fail && r->Fail_0.is_bare()
            && r->Fail_0.bare() is Ambiguous && r->Fail_0.bare()->Ambiguous_noun@ == noun
            && r->Fail_0.bare()->Ambiguous_value@ == value,
{
}

} // verus!
