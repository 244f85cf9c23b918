//! The kinds of object that have a detail view.

use vstd::prelude::*;

use crate::text::Text;

verus! {

/// The kinds of objects.
#[derive(Debug, Clone, Copy, PartialEq, Eq, Structural)]
pub enum ObjectKind {
    Device,
    Site,
    Rack,
    RackGroup,
    Interface,
    Mac,
    IpAddress,
    Prefix,
    Vlan,
    Aggregate,
    Asn,
    IpRange,
    Vrf,
    RouteTarget,
    Tenant,
    Contact,
    Circuit,
    Provider,
    VirtualCircuit,
    Vm,
    VmType,
    Cluster,
}

impl ObjectKind {
    /// The name a kind goes by in commands, keys and listings.
    pub open spec fn slug(self) -> Text {
        match self {
            ObjectKind::Device => "device"@,
            ObjectKind::Site => "site"@,
            ObjectKind::Rack => "rack"@,
            ObjectKind::RackGroup => "rack-group"@,
            ObjectKind::Interface => "interface"@,
            ObjectKind::Mac => "mac"@,
            ObjectKind::IpAddress => "ip"@,
            ObjectKind::Prefix => "prefix"@,
            ObjectKind::Vlan => "vlan"@,
            ObjectKind::Aggregate => "aggregate"@,
            ObjectKind::Asn => "asn"@,
            ObjectKind::IpRange => "ip-range"@,
            ObjectKind::Vrf => "vrf"@,
            ObjectKind::RouteTarget => "route-target"@,
            ObjectKind::Tenant => "tenant"@,
            ObjectKind::Contact => "contact"@,
            ObjectKind::Circuit => "circuit"@,
            ObjectKind::Provider => "provider"@,
            ObjectKind::VirtualCircuit => "virtual-circuit"@,
            ObjectKind::Vm => "vm"@,
            ObjectKind::VmType => "vm-type"@,
            ObjectKind::Cluster => "cluster"@,
        }
    }

    /// Names the kind.
    pub fn as_str(self) -> (r: &'static str)
        ensures
            r@ == self.slug(),
    {
        match self {
            ObjectKind::Device => "device",
            ObjectKind::Site => "site",
            ObjectKind::Rack => "rack",
            ObjectKind::RackGroup => "rack-group",
            ObjectKind::Interface => "interface",
            ObjectKind::Mac => "mac",
            ObjectKind::IpAddress => "ip",
            ObjectKind::Prefix => "prefix",
            ObjectKind::Vlan => "vlan",
            ObjectKind::Aggregate => "aggregate",
            ObjectKind::Asn => "asn",
            ObjectKind::IpRange => "ip-range",
            ObjectKind::Vrf => "vrf",
            ObjectKind::RouteTarget => "route-target",
            ObjectKind::Tenant => "tenant",
            ObjectKind::Contact => "contact",
            ObjectKind::Circuit => "circuit",
            ObjectKind::Provider => "provider",
            ObjectKind::VirtualCircuit => "virtual-circuit",
            ObjectKind::Vm => "vm",
            ObjectKind::VmType => "vm-type",
            ObjectKind::Cluster => "cluster",
        }
    }
}

/// Each kind goes by its own name in commands, keys and listings.
pub proof fn kinds_go_by_their_names(kind: ObjectKind)
    ensures
        kind == ObjectKind::Device ==> kind.slug() == "device"@,
        kind == ObjectKind::Site ==> kind.slug() == "site"@,
        kind == ObjectKind::Rack ==> kind.slug() == "rack"@,
        kind == ObjectKind::RackGroup ==> kind.slug() == "rack-group"@,
        kind == ObjectKind::Interface ==> kind.slug() == "interface"@,
        kind == ObjectKind::Mac ==> kind.slug() == "mac"@,
        kind == ObjectKind::IpAddress ==> kind.slug() == "ip"@,
        kind == ObjectKind::Prefix ==> kind.slug() == "prefix"@,
        kind == ObjectKind::Vlan ==> kind.slug() == "vlan"@,
        kind == ObjectKind::Aggregate ==> kind.slug() == "aggregate"@,
        kind == ObjectKind::Asn ==> kind.slug() == "asn"@,
        kind == ObjectKind::IpRange ==> kind.slug() == "ip-range"@,
        kind == ObjectKind::Vrf ==> kind.slug() == "vrf"@,
        kind == ObjectKind::RouteTarget ==> kind.slug() == "route-target"@,
        kind == ObjectKind::Tenant ==> kind.slug() == "tenant"@,
        kind == ObjectKind::Contact ==> kind.slug() == "contact"@,
        kind == ObjectKind::Circuit ==> kind.slug() == "circuit"@,
        kind == ObjectKind::Provider ==> kind.slug() == "provider"@,
        kind == ObjectKind::VirtualCircuit ==> kind.slug() == "virtual-circuit"@,
        kind == ObjectKind::Vm ==> kind.slug() == "vm"@,
        kind == ObjectKind::VmType ==> kind.slug() == "vm-type"@,
        kind == ObjectKind::Cluster ==> kind.slug() == "cluster"@,
{
}

} // verus!
