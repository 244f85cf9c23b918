//! Wire models: NetBox objects with the fields that the views read.

use vstd::prelude::*;

use crate::json::Json;
use crate::number::{decimal, decimal_text};
use crate::split::{contains, occurs};
use crate::text::{cat2, cat3, opt_text, same, texts, Text};

verus! {

// ===== Parts shared by all objects =======================================

/// A nested reference to another object.
#[derive(Debug)]
pub struct BriefObject {
    pub id: u64,
    pub url: Option<String>,
    pub display: Option<String>,
    pub name: Option<String>,
    pub slug: Option<String>,
    pub rd: Option<String>,
    pub device: Option<Box<BriefObject>>,
}

/// A choice field: its wire value and its human label.
#[derive(Debug)]
pub struct Choice {
    pub value: String,
    pub label: String,
}

/// A tag on an object.
#[derive(Debug)]
pub struct Tag {
    pub id: u64,
    pub name: String,
    pub slug: String,
}

/// `#<id>`, the label of something without a name.
pub open spec fn id_label(id: u64) -> Text {
    "#"@ + decimal_text(id as nat)
}

/// Writes an id as a label.
pub fn id_text(id: u64) -> (r: String)
    ensures
        r@ == id_label(id),
{
    let n = decimal(id);
    cat2("#", n.as_str())
}

impl BriefObject {
    /// The display text, else the name, else `#<id>`.
    pub open spec fn label_text(self) -> Text {
        match self.display {
            Some(d) => d@,
            None => match self.name {
                Some(n) => n@,
                None => id_label(self.id),
            },
        }
    }

    /// The bare name, else the display text, else `#<id>`.
    pub open spec fn name_text(self) -> Text {
        match self.name {
            Some(n) => n@,
            None => match self.display {
                Some(d) => d@,
                None => id_label(self.id),
            },
        }
    }

    /// The name, else `#<id>`.
    pub open spec fn name_or_id(self) -> Text {
        match self.name {
            Some(n) => n@,
            None => id_label(self.id),
        }
    }

    /// The label, after the name of the device that carries it.
    pub open spec fn endpoint_text(self) -> Text {
        match self.device {
            Some(d) => d.name_text() + " "@ + self.label_text(),
            None => self.label_text(),
        }
    }

    /// Whether a reference names this object exactly: by name, slug, route
    /// distinguisher or id.
    pub open spec fn named_exactly(self, query: Text) -> bool {
        ||| opt_text(self.name) == Some(query)
        ||| opt_text(self.slug) == Some(query)
        ||| opt_text(self.rd) == Some(query)
        ||| decimal_text(self.id as nat) == query
    }

    /// Whether a reference names this object exactly or occurs in its display
    /// text.
    pub open spec fn named_loosely(self, query: Text) -> bool {
        ||| self.named_exactly(query)
        ||| self.display is Some && occurs(self.display->0@, query)
    }

    /// Labels the object.
    pub fn label(&self) -> (r: String)
        ensures
            r@ == self.label_text(),
    {
        match &self.display {
            Some(d) => d.clone(),
            None => match &self.name {
                Some(n) => n.clone(),
                None => id_text(self.id),
            },
        }
    }

    /// The bare name, else the display text, else `#<id>`.
    pub fn name_label(&self) -> (r: String)
        ensures
            r@ == self.name_text(),
    {
        match &self.name {
            Some(n) => n.clone(),
            None => match &self.display {
                Some(d) => d.clone(),
                None => id_text(self.id),
            },
        }
    }

    /// The name, else `#<id>`.
    pub fn bare_name(&self) -> (r: String)
        ensures
            r@ == self.name_or_id(),
    {
        match &self.name {
            Some(n) => n.clone(),
            None => id_text(self.id),
        }
    }

    /// Labels the object behind the device that carries it.
    pub fn endpoint_label(&self) -> (r: String)
        ensures
            r@ == self.endpoint_text(),
    {
        match &self.device {
            Some(d) => {
                let dev = d.name_label();
                let own = self.label();
                cat3(dev.as_str(), " ", own.as_str())
            },
            None => self.label(),
        }
    }

    /// Tells whether a reference names this object exactly.
    pub fn matches_exact(&self, query: &str) -> (r: bool)
        ensures
            r == self.named_exactly(query@),
    {
        let id = decimal(self.id);
        opt_is(&self.name, query) || opt_is(&self.slug, query) || opt_is(&self.rd, query) || same(
            id.as_str(),
            query,
        )
    }

    /// Tells whether a reference names this object exactly or loosely.
    pub fn matches(&self, query: &str) -> (r: bool)
        ensures
            r == self.named_loosely(query@),
    {
        self.matches_exact(query) || match &self.display {
            Some(d) => contains(d.as_str(), query),
            None => false,
        }
    }
}

/// Whether an optional string holds exactly `query`.
pub fn opt_is(o: &Option<String>, query: &str) -> (r: bool)
    ensures
        r == (opt_text(*o) == Some(query@)),
{
    match o {
        Some(s) => same(s.as_str(), query),
        None => false,
    }
}

/// The label of an optional reference.
pub open spec fn opt_label(o: Option<BriefObject>) -> Option<Text> {
    match o {
        Some(b) => Some(b.label_text()),
        None => None,
    }
}

/// The label of an optional reference.
pub fn label_of(o: &Option<BriefObject>) -> (r: Option<String>)
    ensures
        opt_text(r) == opt_label(*o),
{
    match o {
        Some(b) => Some(b.label()),
        None => None,
    }
}

/// The labels of a list of references.
pub open spec fn labels(v: Seq<BriefObject>) -> Seq<Text> {
    Seq::new(v.len(), |i: int| v[i].label_text())
}

/// The labels of a list of references.
pub fn labels_of(v: &Vec<BriefObject>) -> (r: Vec<String>)
    ensures
        texts(r@) == labels(v@),
{
    let mut out: Vec<String> = Vec::new();
    let mut i: usize = 0;
    while i < v.len()
        invariant
            i <= v.len(),
            out.len() == i,
            forall|j: int| 0 <= j < i ==> (#[trigger] out@[j])@ == v@[j].label_text(),
        decreases v.len() - i,
    {
        out.push(v[i].label());
        i = i + 1;
    }
    proof {
        assert(texts(out@) =~= labels(v@));
    }
    out
}

/// The value of an optional choice.
pub open spec fn opt_value(o: Option<Choice>) -> Option<Text> {
    match o {
        Some(c) => Some(c.value@),
        None => None,
    }
}

/// The value of an optional choice.
pub fn value_of(o: &Option<Choice>) -> (r: Option<String>)
    ensures
        opt_text(r) == opt_value(*o),
{
    match o {
        Some(c) => Some(c.value.clone()),
        None => None,
    }
}

/// The human label of an optional choice.
pub open spec fn opt_choice_label(o: Option<Choice>) -> Option<Text> {
    match o {
        Some(c) => Some(c.label@),
        None => None,
    }
}

/// The human label of an optional choice.
pub fn choice_label_of(o: &Option<Choice>) -> (r: Option<String>)
    ensures
        opt_text(r) == opt_choice_label(*o),
{
    match o {
        Some(c) => Some(c.label.clone()),
        None => None,
    }
}

/// The slugs of a list of tags.
pub open spec fn slugs(tags: Seq<Tag>) -> Seq<Text> {
    Seq::new(tags.len(), |i: int| tags[i].slug@)
}

/// The slugs of a list of tags.
pub fn slugs_of(tags: &Vec<Tag>) -> (r: Vec<String>)
    ensures
        texts(r@) == slugs(tags@),
{
    let mut out: Vec<String> = Vec::new();
    let mut i: usize = 0;
    while i < tags.len()
        invariant
            i <= tags.len(),
            out.len() == i,
            forall|j: int| 0 <= j < i ==> (#[trigger] out@[j])@ == tags@[j].slug@,
        decreases tags.len() - i,
    {
        out.push(tags[i].slug.clone());
        i = i + 1;
    }
    proof {
        assert(texts(out@) =~= slugs(tags@));
    }
    out
}

// ===== Sites, racks, devices =============================================

/// A site.
#[derive(Debug)]
pub struct Site {
    pub id: u64,
    pub url: String,
    pub name: String,
    pub slug: String,
    pub status: Option<Choice>,
    pub region: Option<BriefObject>,
    pub group: Option<BriefObject>,
    pub tenant: Option<BriefObject>,
    pub facility: Option<String>,
    pub description: Option<String>,
}

/// A rack.
#[derive(Debug)]
pub struct Rack {
    pub id: u64,
    pub url: String,
    pub name: String,
    pub status: Option<Choice>,
    pub site: Option<BriefObject>,
    pub location: Option<BriefObject>,
    pub role: Option<BriefObject>,
    pub tenant: Option<BriefObject>,
    pub u_height: Option<u32>,
    pub serial: Option<String>,
    pub asset_tag: Option<String>,
    pub description: Option<String>,
    pub tags: Vec<Tag>,
    pub custom_fields: Json,
}

/// A group of racks.
#[derive(Debug)]
pub struct RackGroup {
    pub id: u64,
    pub url: String,
    pub name: String,
    pub slug: String,
    pub description: Option<String>,
    pub owner: Option<BriefObject>,
    pub rack_count: Option<u64>,
    pub tags: Vec<Tag>,
    pub custom_fields: Json,
}

/// A device.
#[derive(Debug)]
pub struct Device {
    pub id: u64,
    pub url: String,
    pub display: Option<String>,
    pub name: String,
    pub status: Option<Choice>,
    pub role: Option<BriefObject>,
    pub site: Option<BriefObject>,
    pub rack: Option<BriefObject>,
    pub platform: Option<BriefObject>,
    pub tenant: Option<BriefObject>,
    pub primary_ip4: Option<BriefObject>,
    pub primary_ip6: Option<BriefObject>,
    pub serial: Option<String>,
    pub description: Option<String>,
    pub last_updated: Option<String>,
    pub tags: Vec<Tag>,
    pub custom_fields: Json,
}

/// An interface of a device.
#[derive(Debug)]
pub struct Interface {
    pub id: u64,
    pub url: String,
    pub display: Option<String>,
    pub device: Option<BriefObject>,
    pub name: String,
    pub enabled: Option<bool>,
    pub type_: Option<Choice>,
    pub mtu: Option<u32>,
    pub mac_address: Option<String>,
    pub mode: Option<Choice>,
    pub untagged_vlan: Option<BriefObject>,
    pub tagged_vlans: Vec<BriefObject>,
    pub cable: Option<BriefObject>,
    pub connected_endpoints: Option<Vec<BriefObject>>,
    pub description: Option<String>,
    pub last_updated: Option<String>,
    pub tags: Vec<Tag>,
    pub custom_fields: Json,
}

/// A MAC address.
#[derive(Debug)]
pub struct MacAddress {
    pub id: u64,
    pub url: String,
    pub mac_address: String,
    pub assigned_object_type: Option<String>,
    pub assigned_object: Option<Json>,
    pub description: Option<String>,
    pub owner: Option<BriefObject>,
    pub tags: Vec<Tag>,
    pub custom_fields: Json,
}

// ===== Addressing ========================================================

/// An address.
#[derive(Debug)]
pub struct IpAddress {
    pub id: u64,
    pub url: String,
    pub address: String,
    pub status: Option<Choice>,
    pub role: Option<Choice>,
    pub vrf: Option<BriefObject>,
    pub tenant: Option<BriefObject>,
    pub assigned_object_type: Option<String>,
    pub assigned_object_id: Option<u64>,
    pub assigned_object: Option<Json>,
    pub dns_name: Option<String>,
    pub description: Option<String>,
    pub nat_inside: Option<BriefObject>,
    pub nat_outside: Vec<BriefObject>,
    pub owner: Option<BriefObject>,
    pub tags: Vec<Tag>,
    pub custom_fields: Json,
}

/// How full a prefix is: the percentage as a decimal, the same rounded to a whole
/// number, and how many cells of its bar are filled.
#[derive(Debug)]
pub struct Utilization {
    pub decimal: String,
    pub percent: String,
    pub filled: u64,
}

/// A prefix.
#[derive(Debug)]
pub struct Prefix {
    pub id: u64,
    pub url: String,
    pub prefix: String,
    pub status: Option<Choice>,
    pub vrf: Option<BriefObject>,
    pub vlan: Option<BriefObject>,
    pub scope_type: Option<String>,
    pub scope: Option<BriefObject>,
    pub tenant: Option<BriefObject>,
    pub role: Option<BriefObject>,
    pub children: Option<u64>,
    pub utilization: Option<Utilization>,
    pub description: Option<String>,
}

/// A VLAN.
#[derive(Debug)]
pub struct Vlan {
    pub id: u64,
    pub url: String,
    pub vid: u16,
    pub name: String,
    pub status: Option<Choice>,
    pub site: Option<BriefObject>,
    pub group: Option<BriefObject>,
    pub scope_type: Option<String>,
    pub scope: Option<BriefObject>,
    pub tenant: Option<BriefObject>,
    pub role: Option<BriefObject>,
    pub description: Option<String>,
    pub tags: Vec<Tag>,
    pub custom_fields: Json,
}

/// A group of VLANs.
#[derive(Debug)]
pub struct VlanGroup {
    pub id: u64,
    pub name: String,
    pub scope_type: Option<String>,
    pub scope: Option<BriefObject>,
}

/// A VRF.
#[derive(Debug)]
pub struct Vrf {
    pub id: u64,
    pub url: String,
    pub name: String,
    pub rd: Option<String>,
    pub tenant: Option<BriefObject>,
    pub enforce_unique: Option<bool>,
    pub import_targets: Vec<BriefObject>,
    pub export_targets: Vec<BriefObject>,
    pub prefix_count: Option<u64>,
    pub ipaddress_count: Option<u64>,
    pub description: Option<String>,
    pub tags: Vec<Tag>,
    pub custom_fields: Json,
}

/// A route target.
#[derive(Debug)]
pub struct RouteTarget {
    pub id: u64,
    pub url: String,
    pub name: String,
    pub tenant: Option<BriefObject>,
    pub description: Option<String>,
    pub owner: Option<BriefObject>,
    pub tags: Vec<Tag>,
    pub custom_fields: Json,
}

/// An aggregate.
#[derive(Debug)]
pub struct Aggregate {
    pub id: u64,
    pub url: String,
    pub prefix: String,
    pub rir: Option<BriefObject>,
    pub tenant: Option<BriefObject>,
    pub date_added: Option<String>,
    pub description: Option<String>,
    pub custom_fields: Json,
}

/// An AS number.
#[derive(Debug)]
pub struct Asn {
    pub id: u64,
    pub url: String,
    pub asn: u32,
    pub rir: Option<BriefObject>,
    pub tenant: Option<BriefObject>,
    pub description: Option<String>,
    pub custom_fields: Json,
}

/// A range of addresses.
#[derive(Debug)]
pub struct IpRange {
    pub id: u64,
    pub url: String,
    pub start_address: String,
    pub end_address: String,
    pub size: Option<u64>,
    pub status: Option<Choice>,
    pub vrf: Option<BriefObject>,
    pub tenant: Option<BriefObject>,
    pub role: Option<BriefObject>,
    pub description: Option<String>,
    pub custom_fields: Json,
}

// ===== Tenancy ===========================================================

/// A tenant.
#[derive(Debug)]
pub struct Tenant {
    pub id: u64,
    pub url: String,
    pub name: String,
    pub slug: String,
    pub group: Option<BriefObject>,
    pub description: Option<String>,
    pub circuit_count: Option<u64>,
    pub device_count: Option<u64>,
    pub ipaddress_count: Option<u64>,
    pub prefix_count: Option<u64>,
    pub rack_count: Option<u64>,
    pub site_count: Option<u64>,
    pub vlan_count: Option<u64>,
    pub vrf_count: Option<u64>,
    pub virtualmachine_count: Option<u64>,
    pub owner: Option<BriefObject>,
    pub tags: Vec<Tag>,
    pub custom_fields: Json,
}

/// A contact.
#[derive(Debug)]
pub struct Contact {
    pub id: u64,
    pub url: String,
    pub name: String,
    pub title: Option<String>,
    pub phone: Option<String>,
    pub email: Option<String>,
    pub address: Option<String>,
    pub link: Option<String>,
    pub group: Option<BriefObject>,
    pub description: Option<String>,
    pub tags: Vec<Tag>,
    pub custom_fields: Json,
}

// ===== Circuits ==========================================================

/// A circuit.
#[derive(Debug)]
pub struct Circuit {
    pub id: u64,
    pub url: String,
    pub cid: String,
    pub provider: Option<BriefObject>,
    pub type_: Option<BriefObject>,
    pub status: Option<Choice>,
    pub tenant: Option<BriefObject>,
    pub install_date: Option<String>,
    pub commit_rate: Option<u64>,
    pub description: Option<String>,
    pub tags: Vec<Tag>,
    pub custom_fields: Json,
}

/// One side of a circuit.
#[derive(Debug)]
pub struct CircuitTermination {
    pub id: u64,
    pub term_side: Option<String>,
    pub termination: Option<BriefObject>,
    pub termination_type: Option<String>,
    pub link_peers: Vec<BriefObject>,
    pub cable: Option<BriefObject>,
    pub xconnect_id: Option<String>,
    pub pp_info: Option<String>,
    pub port_speed: Option<u64>,
}

/// An AS number listed on a provider.
#[derive(Debug)]
pub struct ProviderAsn {
    pub id: u64,
    pub asn: u32,
}

/// An account held with a provider.
#[derive(Debug)]
pub struct ProviderAccount {
    pub id: u64,
    pub display: Option<String>,
    pub name: Option<String>,
    pub account: Option<String>,
}

impl ProviderAccount {
    /// The display text, else the name, else the account number, else `#<id>`;
    /// an empty one counts as missing.
    pub open spec fn label_text(self) -> Text {
        if crate::text::is_some_nonempty(opt_text(self.display)) {
            self.display->0@
        } else if crate::text::is_some_nonempty(opt_text(self.name)) {
            self.name->0@
        } else if crate::text::is_some_nonempty(opt_text(self.account)) {
            self.account->0@
        } else {
            id_label(self.id)
        }
    }

    /// Labels the account.
    pub fn label(&self) -> (r: String)
        ensures
            r@ == self.label_text(),
    {
        if let Some(d) = &self.display {
            if !d.as_str().is_empty() {
                return d.clone();
            }
        }
        if let Some(n) = &self.name {
            if !n.as_str().is_empty() {
                return n.clone();
            }
        }
        if let Some(a) = &self.account {
            if !a.as_str().is_empty() {
                return a.clone();
            }
        }
        id_text(self.id)
    }
}

/// A provider of circuits.
#[derive(Debug)]
pub struct Provider {
    pub id: u64,
    pub url: String,
    pub name: String,
    pub slug: String,
    pub asns: Vec<ProviderAsn>,
    pub accounts: Vec<ProviderAccount>,
    pub description: Option<String>,
    pub circuit_count: Option<u64>,
    pub tags: Vec<Tag>,
    pub custom_fields: Json,
}

/// A virtual circuit.
#[derive(Debug)]
pub struct VirtualCircuit {
    pub id: u64,
    pub url: String,
    pub cid: String,
    pub provider_network: Option<BriefObject>,
    pub provider_account: Option<BriefObject>,
    pub type_: Option<BriefObject>,
    pub status: Option<Choice>,
    pub tenant: Option<BriefObject>,
    pub owner: Option<BriefObject>,
    pub description: Option<String>,
    pub tags: Vec<Tag>,
    pub custom_fields: Json,
}

/// One end of a virtual circuit.
#[derive(Debug)]
pub struct VirtualCircuitTermination {
    pub id: u64,
    pub interface: Option<BriefObject>,
    pub role: Option<Choice>,
    pub description: Option<String>,
}

// ===== Virtualization ====================================================

/// A virtual machine. A fractional CPU count is held as its decimal text.
#[derive(Debug)]
pub struct VirtualMachine {
    pub id: u64,
    pub url: String,
    pub name: String,
    pub status: Option<Choice>,
    pub role: Option<BriefObject>,
    pub cluster: Option<BriefObject>,
    pub device: Option<BriefObject>,
    pub platform: Option<BriefObject>,
    pub site: Option<BriefObject>,
    pub tenant: Option<BriefObject>,
    pub primary_ip4: Option<BriefObject>,
    pub primary_ip6: Option<BriefObject>,
    pub vcpus: Option<String>,
    pub memory: Option<u64>,
    pub disk: Option<u64>,
    pub description: Option<String>,
    pub tags: Vec<Tag>,
    pub custom_fields: Json,
}

/// A virtual machine type. A fractional CPU count is held as its decimal text.
#[derive(Debug)]
pub struct VirtualMachineType {
    pub id: u64,
    pub url: String,
    pub name: String,
    pub slug: String,
    pub default_platform: Option<BriefObject>,
    pub default_vcpus: Option<String>,
    pub default_memory: Option<u64>,
    pub description: Option<String>,
    pub owner: Option<BriefObject>,
    pub virtual_machine_count: Option<u64>,
    pub tags: Vec<Tag>,
    pub custom_fields: Json,
}

/// A cluster of virtual machines.
#[derive(Debug)]
pub struct Cluster {
    pub id: u64,
    pub url: String,
    pub name: String,
    pub type_: Option<BriefObject>,
    pub group: Option<BriefObject>,
    pub status: Option<Choice>,
    pub tenant: Option<BriefObject>,
    pub scope_type: Option<String>,
    pub scope: Option<BriefObject>,
    pub description: Option<String>,
    pub device_count: Option<u64>,
    pub virtualmachine_count: Option<u64>,
    pub tags: Vec<Tag>,
    pub custom_fields: Json,
}

// ===== Extras ============================================================

/// An entry of an object's journal.
#[derive(Debug)]
pub struct JournalEntry {
    pub id: u64,
    pub created: Option<String>,
    pub kind: Option<Choice>,
    pub created_by: Option<Json>,
    pub comments: String,
}

/// A change payload: as it was received, and decoded.
#[derive(Debug)]
pub struct Payload {
    pub raw: serde_json::Value,
    pub value: Json,
}

/// A change to an object.
#[derive(Debug)]
pub struct ObjectChange {
    pub id: u64,
    pub time: Option<String>,
    pub action: Option<Choice>,
    pub user_name: Option<String>,
    pub user: Option<BriefObject>,
    pub object_repr: Option<String>,
    pub message: String,
    pub request_id: Option<String>,
    pub prechange_data: Option<Payload>,
    pub postchange_data: Option<Payload>,
}

/// A tag with its use.
#[derive(Debug)]
pub struct TagInfo {
    pub id: u64,
    pub name: String,
    pub slug: String,
    pub color: Option<String>,
    pub tagged_items: Option<u64>,
}

/// An object that carries a tag.
#[derive(Debug)]
pub struct TaggedObject {
    pub id: u64,
    pub url: Option<String>,
    pub display: Option<String>,
    pub object_type: String,
    pub object_id: u64,
    pub object: Option<BriefObject>,
}

// ===== Laws ==============================================================

/// A reference is labelled by its display text, else by its name, else by its id; and
/// named by its name, else by its display text, else by its id. Behind its device it is
/// the device's name, a blank, and its own label.
pub proof fn references_fall_back_in_order(b: BriefObject)
    ensures
        b.display is Some ==> b.label_text() == b.display->0@,
        b.display is None && b.name is Some ==> b.label_text() == b.name->0@,
        b.display is None && b.name is None ==> b.label_text() == "#"@ + decimal_text(b.id as nat),
        b.name is Some ==> b.name_text() == b.name->0@ && b.name_or_id() == b.name->0@,
        b.name is None && b.display is Some ==> b.name_text() == b.display->0@,
        b.name is None && b.display is None ==> b.name_text() == "#"@ + decimal_text(b.id as nat),
        b.name is None ==> b.name_or_id() == "#"@ + decimal_text(b.id as nat),
        b.device is None ==> b.endpoint_text() == b.label_text(),
        b.device is Some ==> b.endpoint_text() == b.device->0.name_text() + " "@ + b.label_text(),
{
}

/// A reference is named exactly by its name, its slug, its route distinguisher and its
/// id, and by nothing else; and loosely also by any part of its display text.
pub proof fn references_are_named(b: BriefObject, query: Text)
    ensures
        b.named_exactly(query) <==> {
            ||| (b.name is Some && b.name->0@ == query)
            ||| (b.slug is Some && b.slug->0@ == query)
            ||| (b.rd is Some && b.rd->0@ == query)
            ||| query == decimal_text(b.id as nat)
        },
        b.named_exactly(query) ==> b.named_loosely(query),
        b.named_loosely(query) && !b.named_exactly(query) <==> !b.named_exactly(query)
            && b.display is Some && occurs(b.display->0@, query),
{
}

/// What is read of an optional reference, choice or list of either is read of each: its
/// label, its value, its human label, its slug, in place.
pub proof fn parts_are_read_in_place(
    o: Option<BriefObject>,
    c: Option<Choice>,
    refs: Seq<BriefObject>,
    tags: Seq<Tag>,
    i: int,
)
    ensures
        o is Some ==> opt_label(o) == Some(o->0.label_text()),
        o is None ==> opt_label(o) is None,
        c is Some ==> opt_value(c) == Some(c->0.value@) && opt_choice_label(c) == Some(
            c->0.label@,
        ),
        c is None ==> opt_value(c) is None && opt_choice_label(c) is None,
        labels(refs).len() == refs.len(),
        0 <= i < refs.len() ==> labels(refs)[i] == refs[i].label_text(),
        slugs(tags).len() == tags.len(),
        0 <= i < tags.len() ==> slugs(tags)[i] == tags[i].slug@,
{
}

} // verus!
