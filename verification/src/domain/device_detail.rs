//! Device detail: the summary with interfaces, addresses, cables and VLANs.

use vstd::prelude::*;
use vstd::string::StringExecFns;

use crate::domain::device_view::DeviceView;
use crate::domain::interface_view::{endpoint_labels, endpoints_of};
use crate::domain::ip_view::{name_of, shown_name};
use crate::domain::util::{keep_text, kept_text};
use crate::json::Json;
use crate::netbox::models::{
    choice_label_of,
    opt_choice_label,
    BriefObject,
    Device,
    Interface,
    IpAddress,
};
use crate::output::rendered;
use crate::text::{cat2, cat3, cat4, join, joined, opt_text, texts, Text};

verus! {

/// One interface of a device.
#[derive(Debug)]
pub struct IfaceRow {
    pub id: u64,
    pub name: String,
    pub enabled: Option<bool>,
    pub type_: Option<String>,
    pub description: Option<String>,
}

/// One address of a device.
#[derive(Debug)]
pub struct IpRow {
    pub id: u64,
    pub address: String,
    pub interface: Option<String>,
}

/// One cabled interface of a device; the id is the interface's.
#[derive(Debug)]
pub struct CableRow {
    pub id: u64,
    pub interface: String,
    pub cable: Option<String>,
    pub connected_to: Vec<String>,
}

/// One VLAN seen on a device's interfaces.
#[derive(Debug)]
pub struct VlanRow {
    pub id: u64,
    pub vlan: String,
}

/// A device with its interfaces, addresses, cables and VLANs.
#[derive(Debug)]
pub struct DeviceDetail {
    pub summary: DeviceView,
    pub interfaces: Vec<IfaceRow>,
    pub ip_addresses: Vec<IpRow>,
    pub cables: Vec<CableRow>,
    pub vlans: Vec<VlanRow>,
}

// ===== VLANs =============================================================

/// The VLANs of an interface: the untagged one, then the tagged ones.
pub open spec fn vlans_on(i: Interface) -> Seq<BriefObject> {
    match i.untagged_vlan {
        Some(v) => seq![v] + i.tagged_vlans@,
        None => i.tagged_vlans@,
    }
}

/// The VLANs of all interfaces, one interface after another.
pub open spec fn all_vlans(interfaces: Seq<Interface>) -> Seq<BriefObject>
    decreases interfaces.len(),
{
    if interfaces.len() == 0 {
        Seq::empty()
    } else {
        all_vlans(interfaces.drop_last()) + vlans_on(interfaces.last())
    }
}

/// Whether an id occurs in a list.
pub open spec fn has_id(objects: Seq<BriefObject>, id: u64) -> bool {
    exists|i: int| 0 <= i < objects.len() && (#[trigger] objects[i]).id == id
}

/// The objects of a list, each id only where it first occurs.
pub open spec fn first_of_each(objects: Seq<BriefObject>) -> Seq<BriefObject>
    decreases objects.len(),
{
    if objects.len() == 0 {
        Seq::empty()
    } else {
        let rest = first_of_each(objects.drop_last());
        if has_id(rest, objects.last().id) {
            rest
        } else {
            rest.push(objects.last())
        }
    }
}

/// Whether rows list VLANs, one each.
pub open spec fn rows_list(rows: Seq<VlanRow>, vlans: Seq<BriefObject>) -> bool {
    rows.len() == vlans.len() && forall|i: int|
        0 <= i < rows.len() ==> (#[trigger] rows[i]).id == vlans[i].id && rows[i].vlan@
            == vlans[i].label_text()
}

/// No VLAN is listed twice, and every one that occurs is listed.
pub proof fn each_vlan_is_listed_once(objects: Seq<BriefObject>)
    ensures
        forall|i: int, j: int|
            #![trigger first_of_each(objects)[i], first_of_each(objects)[j]]
            0 <= i < j < first_of_each(objects).len() ==> first_of_each(objects)[i].id
                != first_of_each(objects)[j].id,
        forall|id: u64| #[trigger]
            has_id(first_of_each(objects), id) <==> has_id(objects, id),
    decreases objects.len(),
{
    if objects.len() == 0 {
        assert forall|id: u64| #[trigger] has_id(first_of_each(objects), id) <==> has_id(
            objects,
            id,
        ) by {}
    } else {
        let front = objects.drop_last();
        let last = objects.last();
        each_vlan_is_listed_once(front);
        let rest = first_of_each(front);
        let out = first_of_each(objects);
        assert forall|i: int, j: int|
            #![trigger out[i], out[j]]
            0 <= i < j < out.len() implies out[i].id != out[j].id by {
            if j < rest.len() {
                assert(out[i] == rest[i] && out[j] == rest[j]);
            } else {
                assert(out[i] == rest[i]);
                if rest[i].id == last.id {
                    assert(has_id(rest, last.id));
                }
            }
        }
        assert forall|id: u64| #[trigger] has_id(out, id) <==> has_id(objects, id) by {
            assert(has_id(rest, id) <==> has_id(front, id));
            if has_id(front, id) {
                let k = choose|k: int| 0 <= k < front.len() && (#[trigger] front[k]).id == id;
                assert(objects[k].id == id);
                let m = choose|m: int| 0 <= m < rest.len() && (#[trigger] rest[m]).id == id;
                assert(out[m].id == id);
            }
            if id == last.id {
                assert(objects[objects.len() - 1].id == id);
                if has_id(rest, last.id) {
                    let m = choose|m: int| 0 <= m < rest.len() && (#[trigger] rest[m]).id == id;
                    assert(out[m].id == id);
                } else {
                    assert(out[rest.len() as int].id == id);
                }
            }
            if has_id(out, id) && id != last.id {
                let m = choose|m: int| 0 <= m < out.len() && (#[trigger] out[m]).id == id;
                assert(rest[m].id == id);
            }
            if has_id(objects, id) && id != last.id {
                let k = choose|k: int| 0 <= k < objects.len() && (#[trigger] objects[k]).id == id;
                assert(front[k].id == id);
            }
        }
    }
}

fn add_vlan(rows: &mut Vec<VlanRow>, v: &BriefObject, Ghost(seen): Ghost<Seq<BriefObject>>)
    requires
        rows_list(old(rows)@, first_of_each(seen)),
    ensures
        rows_list(final(rows)@, first_of_each(seen.push(*v))),
{
    let ghost rest = first_of_each(seen);
    proof {
        assert(seen.push(*v).drop_last() =~= seen);
    }
    let mut i: usize = 0;
    while i < rows.len()
        invariant
            i <= rows.len(),
            rest == first_of_each(seen),
            seen.push(*v).drop_last() == seen,
            rows_list(rows@, rest),
            forall|j: int| 0 <= j < i ==> (#[trigger] rest[j]).id != v.id,
        decreases rows.len() - i,
    {
        if rows[i].id == v.id {
            proof {
                assert(rest[i as int].id == v.id);
                assert(has_id(rest, v.id));
            }
            return;
        }
        proof {
            assert(rest[i as int].id == rows@[i as int].id);
        }
        i = i + 1;
    }
    proof {
        assert(!has_id(rest, v.id));
    }
    rows.push(VlanRow { id: v.id, vlan: v.label() });
}

fn add_vlans(rows: &mut Vec<VlanRow>, i: &Interface, Ghost(seen): Ghost<Seq<BriefObject>>)
    requires
        rows_list(old(rows)@, first_of_each(seen)),
    ensures
        rows_list(final(rows)@, first_of_each(seen + vlans_on(*i))),
{
    let ghost mut so_far = seen;
    if let Some(v) = &i.untagged_vlan {
        add_vlan(rows, v, Ghost(so_far));
        proof {
            so_far = so_far.push(*v);
        }
    }
    let ghost head = so_far;
    let mut k: usize = 0;
    proof {
        assert(head + i.tagged_vlans@.take(0) =~= head);
    }
    while k < i.tagged_vlans.len()
        invariant
            k <= i.tagged_vlans.len(),
            so_far == head + i.tagged_vlans@.take(k as int),
            rows_list(rows@, first_of_each(so_far)),
        decreases i.tagged_vlans.len() - k,
    {
        add_vlan(rows, &i.tagged_vlans[k], Ghost(so_far));
        proof {
            assert(head + i.tagged_vlans@.take(k as int + 1) =~= so_far.push(
                i.tagged_vlans@[k as int],
            ));
            so_far = so_far.push(i.tagged_vlans@[k as int]);
        }
        k = k + 1;
    }
    proof {
        assert(i.tagged_vlans@.take(k as int) =~= i.tagged_vlans@);
        assert(so_far =~= seen + vlans_on(*i));
    }
}

// ===== Cables, interfaces, addresses =====================================

/// The interfaces with a cable, in order.
pub open spec fn cabled(interfaces: Seq<Interface>) -> Seq<Interface>
    decreases interfaces.len(),
{
    if interfaces.len() == 0 {
        Seq::empty()
    } else {
        let rest = cabled(interfaces.drop_last());
        if interfaces.last().cable is Some {
            rest.push(interfaces.last())
        } else {
            rest
        }
    }
}

/// Whether a row tells of a cabled interface.
pub open spec fn cable_row_is_of(row: CableRow, i: Interface) -> bool {
    &&& row.id == i.id
    &&& row.interface == i.name
    &&& i.cable is Some
    &&& opt_text(row.cable) == Some(i.cable->0.label_text())
    &&& texts(row.connected_to@) == endpoint_labels(i.connected_endpoints)
}

/// Whether rows tell of the cabled interfaces, one each.
pub open spec fn cable_rows_are_of(rows: Seq<CableRow>, cabled: Seq<Interface>) -> bool {
    rows.len() == cabled.len() && forall|i: int|
        0 <= i < rows.len() ==> cable_row_is_of(#[trigger] rows[i], cabled[i])
}

/// Whether a row tells of an interface.
pub open spec fn iface_row_is_of(row: IfaceRow, i: Interface) -> bool {
    &&& row.id == i.id
    &&& row.name == i.name
    &&& row.enabled == i.enabled
    &&& opt_text(row.type_) == opt_choice_label(i.type_)
    &&& opt_text(row.description) == kept_text(i.description)
}

/// The interface an address is on.
pub open spec fn address_interface(ip: IpAddress) -> Option<Text> {
    match ip.assigned_object {
        Some(v) => shown_name(v),
        None => None,
    }
}

/// Whether a row tells of an address.
pub open spec fn ip_row_is_of(row: IpRow, ip: IpAddress) -> bool {
    &&& row.id == ip.id
    &&& row.address == ip.address
    &&& opt_text(row.interface) == address_interface(ip)
}

fn iface_name(v: &Json) -> (r: Option<String>)
    ensures
        opt_text(r) == shown_name(*v),
{
    match name_of(v) {
        Some(s) => Some(s.to_owned()),
        None => None,
    }
}

// ===== Lines =============================================================

impl IfaceRow {
    /// The name, the type, and whether the interface is disabled.
    pub open spec fn line(self) -> Text {
        self.name@ + match self.type_ {
            Some(t) => "  "@ + t@,
            None => Seq::empty(),
        } + if self.enabled == Some(false) {
            "  (disabled)"@
        } else {
            Seq::empty()
        }
    }

    /// Renders the row.
    pub fn text(&self) -> (r: String)
        ensures
            r@ == self.line(),
    {
        let mut row = self.name.clone();
        let ghost so_far = row@;
        if let Some(t) = &self.type_ {
            let part = cat2("  ", t.as_str());
            row.append(part.as_str());
        }
        proof {
            if self.type_ is None {
                assert(row@ =~= so_far + Seq::empty());
            }
        }
        let ghost so_far = row@;
        let disabled = match self.enabled {
            Some(b) => !b,
            None => false,
        };
        if disabled {
            row.append("  (disabled)");
        }
        proof {
            if !disabled {
                assert(row@ =~= so_far + Seq::empty());
            }
        }
        row
    }
}

impl IpRow {
    /// The address, and the interface it is on.
    pub open spec fn line(self) -> Text {
        match self.interface {
            Some(name) => self.address@ + "  "@ + name@,
            None => self.address@,
        }
    }

    /// Renders the row.
    pub fn text(&self) -> (r: String)
        ensures
            r@ == self.line(),
    {
        match &self.interface {
            Some(name) => cat3(self.address.as_str(), "  ", name.as_str()),
            None => self.address.clone(),
        }
    }
}

impl CableRow {
    /// The interface and, behind an arrow, what it is connected to; its cable
    /// when that is unknown.
    pub open spec fn line(self, arrow: Text) -> Text {
        if self.connected_to@.len() == 0 {
            self.interface@ + "  "@ + match self.cable {
                Some(c) => c@,
                None => Seq::empty(),
            }
        } else {
            self.interface@ + arrow + joined(texts(self.connected_to@), ", "@)
        }
    }

    /// Renders the row.
    pub fn text(&self, arrow: &str) -> (r: String)
        ensures
            r@ == self.line(arrow@),
    {
        if self.connected_to.is_empty() {
            let cable = match &self.cable {
                Some(c) => c.clone(),
                None => String::new(),
            };
            cat3(self.interface.as_str(), "  ", cable.as_str())
        } else {
            let ends = join(&self.connected_to, ", ");
            cat3(self.interface.as_str(), arrow, ends.as_str())
        }
    }
}

/// The lines of the interfaces.
pub open spec fn iface_lines(rows: Seq<IfaceRow>) -> Seq<Text> {
    Seq::new(rows.len(), |i: int| "  "@ + rows[i].line())
}

/// The lines of the addresses.
pub open spec fn ip_lines(rows: Seq<IpRow>) -> Seq<Text> {
    Seq::new(rows.len(), |i: int| "  "@ + rows[i].line())
}

/// The lines of the cables.
pub open spec fn cable_lines(rows: Seq<CableRow>) -> Seq<Text> {
    Seq::new(rows.len(), |i: int| "  "@ + rows[i].line(" -> "@))
}

/// The lines of the VLANs.
pub open spec fn vlan_lines(rows: Seq<VlanRow>) -> Seq<Text> {
    Seq::new(rows.len(), |i: int| "  "@ + rows[i].vlan@)
}

/// A section: its key, its title and its text.
pub type Section = (char, Text, Text);

/// A section of lines, when there are any.
pub open spec fn lines_section(key: char, title: Text, lines: Seq<Text>) -> Seq<Section> {
    if lines.len() == 0 {
        Seq::empty()
    } else {
        seq![(key, title, joined(lines, "\n"@))]
    }
}

/// The views of sections.
pub open spec fn sections_view(v: Seq<(char, &'static str, String)>) -> Seq<Section> {
    Seq::new(v.len(), |i: int| (v[i].0, v[i].1@, v[i].2@))
}

/// The sections under their titles, each after a blank line.
pub open spec fn sections_text(sections: Seq<Section>) -> Text
    decreases sections.len(),
{
    if sections.len() == 0 {
        Seq::empty()
    } else {
        sections_text(sections.drop_last()) + ("\n\n"@ + sections.last().1 + "\n"@
            + sections.last().2)
    }
}

fn push_section(
    tabs: &mut Vec<(char, &'static str, String)>,
    key: char,
    title: &'static str,
    lines: &Vec<String>,
)
    ensures
        sections_view(final(tabs)@) == sections_view(old(tabs)@) + lines_section(
            key,
            title@,
            texts(lines@),
        ),
{
    let ghost before = sections_view(tabs@);
    if !lines.is_empty() {
        let body = join(lines, "\n");
        tabs.push((key, title, body));
    }
    proof {
        assert(sections_view(tabs@) =~= before + lines_section(key, title@, texts(lines@)));
    }
}

impl DeviceDetail {
    /// Whether this detail shows a device with its interfaces and addresses.
    pub open spec fn is_of(
        self,
        device: Device,
        interfaces: Seq<Interface>,
        ips: Seq<IpAddress>,
    ) -> bool {
        &&& self.summary.is_of(device)
        &&& self.summary.rows() == DeviceView::rows_of(device)
        &&& self.interfaces@.len() == interfaces.len()
        &&& forall|i: int|
            0 <= i < interfaces.len() ==> iface_row_is_of(
                #[trigger] self.interfaces@[i],
                interfaces[i],
            )
        &&& self.ip_addresses@.len() == ips.len()
        &&& forall|i: int|
            0 <= i < ips.len() ==> ip_row_is_of(#[trigger] self.ip_addresses@[i], ips[i])
        &&& cable_rows_are_of(self.cables@, cabled(interfaces))
        &&& rows_list(self.vlans@, first_of_each(all_vlans(interfaces)))
    }

    /// Composes a device with its interfaces and addresses. Cables and VLANs are
    /// read off the interfaces.
    pub fn build(device: Device, interfaces: Vec<Interface>, ips: Vec<IpAddress>) -> (r: Self)
        ensures
            r.is_of(device, interfaces@, ips@),
    {
        let mut vlans: Vec<VlanRow> = Vec::new();
        let mut cables: Vec<CableRow> = Vec::new();
        let mut k: usize = 0;
        proof {
            assert(interfaces@.take(0) =~= Seq::empty());
            reveal_with_fuel(all_vlans, 2);
            reveal_with_fuel(first_of_each, 2);
        }
        while k < interfaces.len()
            invariant
                k <= interfaces.len(),
                rows_list(vlans@, first_of_each(all_vlans(interfaces@.take(k as int)))),
                cable_rows_are_of(cables@, cabled(interfaces@.take(k as int))),
            decreases interfaces.len() - k,
        {
            let i = &interfaces[k];
            let ghost before = interfaces@.take(k as int);
            let ghost after = interfaces@.take(k as int + 1);
            proof {
                assert(after.drop_last() =~= before);
                assert(after.last() == *i);
            }
            add_vlans(&mut vlans, i, Ghost(all_vlans(before)));
            if let Some(cable) = &i.cable {
                cables.push(
                    CableRow {
                        id: i.id,
                        interface: i.name.clone(),
                        cable: Some(cable.label()),
                        connected_to: endpoints_of(&i.connected_endpoints),
                    },
                );
                proof {
                    assert forall|j: int| 0 <= j < cables@.len() implies cable_row_is_of(
                        #[trigger] cables@[j],
                        cabled(after)[j],
                    ) by {}
                }
            }
            k = k + 1;
        }
        proof {
            assert(interfaces@.take(k as int) =~= interfaces@);
        }
        let ghost all = interfaces@;
        let mut iface_rows: Vec<IfaceRow> = Vec::new();
        for i in it: interfaces
            invariant
                it.seq() == all,
                iface_rows@.len() == it.index(),
                forall|j: int|
                    0 <= j < iface_rows@.len() ==> iface_row_is_of(
                        #[trigger] iface_rows@[j],
                        all[j],
                    ),
        {
            let type_ = choice_label_of(&i.type_);
            iface_rows.push(
                IfaceRow {
                    id: i.id,
                    name: i.name,
                    enabled: i.enabled,
                    type_,
                    description: keep_text(i.description),
                },
            );
        }
        let ghost all_ips = ips@;
        let mut ip_rows: Vec<IpRow> = Vec::new();
        for ip in it: ips
            invariant
                it.seq() == all_ips,
                ip_rows@.len() == it.index(),
                forall|j: int|
                    0 <= j < ip_rows@.len() ==> ip_row_is_of(#[trigger] ip_rows@[j], all_ips[j]),
        {
            let interface = match &ip.assigned_object {
                Some(v) => iface_name(v),
                None => None,
            };
            ip_rows.push(IpRow { id: ip.id, address: ip.address, interface });
        }
        DeviceDetail {
            summary: DeviceView::from_model(device),
            interfaces: iface_rows,
            ip_addresses: ip_rows,
            cables,
            vlans,
        }
    }

    /// Renders the summary.
    pub fn summary_plain(&self) -> (r: String)
        ensures
            r@ == rendered(self.summary.rows()),
    {
        let kv = self.summary.to_key_values();
        kv.render()
    }

    /// The sections that have something to show.
    #[verifier::opaque]
    pub open spec fn section_list(self) -> Seq<Section> {
        Seq::<Section>::empty()
            + lines_section('i', "Interfaces"@, iface_lines(self.interfaces@))
            + lines_section('p', "IP Addresses"@, ip_lines(self.ip_addresses@))
            + lines_section('c', "Cables"@, cable_lines(self.cables@))
            + lines_section('v', "VLANs"@, vlan_lines(self.vlans@))
    }

    fn iface_texts(&self) -> (r: Vec<String>)
        ensures
            texts(r@) == iface_lines(self.interfaces@),
    {
        let mut out: Vec<String> = Vec::new();
        let mut i: usize = 0;
        while i < self.interfaces.len()
            invariant
                i <= self.interfaces.len(),
                out.len() == i,
                forall|j: int|
                    0 <= j < i ==> (#[trigger] out@[j])@ == "  "@ + self.interfaces@[j].line(),
            decreases self.interfaces.len() - i,
        {
            let line = self.interfaces[i].text();
            out.push(cat2("  ", line.as_str()));
            i = i + 1;
        }
        proof {
            assert(texts(out@) =~= iface_lines(self.interfaces@));
        }
        out
    }

    fn ip_texts(&self) -> (r: Vec<String>)
        ensures
            texts(r@) == ip_lines(self.ip_addresses@),
    {
        let mut out: Vec<String> = Vec::new();
        let mut i: usize = 0;
        while i < self.ip_addresses.len()
            invariant
                i <= self.ip_addresses.len(),
                out.len() == i,
                forall|j: int|
                    0 <= j < i ==> (#[trigger] out@[j])@ == "  "@ + self.ip_addresses@[j].line(),
            decreases self.ip_addresses.len() - i,
        {
            let line = self.ip_addresses[i].text();
            out.push(cat2("  ", line.as_str()));
            i = i + 1;
        }
        proof {
            assert(texts(out@) =~= ip_lines(self.ip_addresses@));
        }
        out
    }

    fn cable_texts(&self) -> (r: Vec<String>)
        ensures
            texts(r@) == cable_lines(self.cables@),
    {
        let mut out: Vec<String> = Vec::new();
        let mut i: usize = 0;
        while i < self.cables.len()
            invariant
                i <= self.cables.len(),
                out.len() == i,
                forall|j: int|
                    0 <= j < i ==> (#[trigger] out@[j])@ == "  "@ + self.cables@[j].line(" -> "@),
            decreases self.cables.len() - i,
        {
            let line = self.cables[i].text(" -> ");
            out.push(cat2("  ", line.as_str()));
            i = i + 1;
        }
        proof {
            assert(texts(out@) =~= cable_lines(self.cables@));
        }
        out
    }

    fn vlan_texts(&self) -> (r: Vec<String>)
        ensures
            texts(r@) == vlan_lines(self.vlans@),
    {
        let mut out: Vec<String> = Vec::new();
        let mut i: usize = 0;
        while i < self.vlans.len()
            invariant
                i <= self.vlans.len(),
                out.len() == i,
                forall|j: int| 0 <= j < i ==> (#[trigger] out@[j])@ == "  "@ + self.vlans@[j].vlan@,
            decreases self.vlans.len() - i,
        {
            out.push(cat2("  ", self.vlans[i].vlan.as_str()));
            i = i + 1;
        }
        proof {
            assert(texts(out@) =~= vlan_lines(self.vlans@));
        }
        out
    }

    /// Renders the sections that have something to show.
    pub fn sections(&self) -> (r: Vec<(char, &'static str, String)>)
        ensures
            sections_view(r@) == self.section_list(),
    {
        let mut tabs: Vec<(char, &'static str, String)> = Vec::new();
        proof {
            reveal(DeviceDetail::section_list);
            assert(sections_view(tabs@) =~= Seq::empty());
        }
        let ifaces = self.iface_texts();
        push_section(&mut tabs, 'i', "Interfaces", &ifaces);
        let ips = self.ip_texts();
        push_section(&mut tabs, 'p', "IP Addresses", &ips);
        let cables = self.cable_texts();
        push_section(&mut tabs, 'c', "Cables", &cables);
        let vlans = self.vlan_texts();
        push_section(&mut tabs, 'v', "VLANs", &vlans);
        tabs
    }

    /// Renders the summary and the sections.
    pub fn to_plain(&self) -> (r: String)
        ensures
            r@ == rendered(self.summary.rows()) + sections_text(self.section_list()),
    {
        let mut out = self.summary_plain();
        let sections = self.sections();
        let ghost head = out@;
        let ghost list = self.section_list();
        let mut i: usize = 0;
        proof {
            assert(list.take(0) =~= Seq::empty());
            assert(head + sections_text(list.take(0)) =~= head);
        }
        while i < sections.len()
            invariant
                i <= sections.len(),
                list == sections_view(sections@),
                out@ == head + sections_text(list.take(i as int)),
            decreases sections.len() - i,
        {
            let part = cat4("\n\n", sections[i].1, "\n", sections[i].2.as_str());
            out.append(part.as_str());
            proof {
                assert(list.take(i as int + 1).drop_last() =~= list.take(i as int));
                assert(list.take(i as int + 1).last() == list[i as int]);
                assert(head + sections_text(list.take(i as int)) + part@ =~= head + (sections_text(
                    list.take(i as int),
                ) + part@));
            }
            i = i + 1;
        }
        proof {
            assert(list.take(i as int) =~= list);
        }
        out
    }
}

// ===== Laws ==============================================================

/// The VLANs of some interfaces are gathered interface by interface: of each its untagged
/// VLAN first, then its tagged ones.
pub proof fn vlans_are_gathered_in_order(front: Seq<Interface>, back: Seq<Interface>, i: Interface)
    ensures
        all_vlans(front + back) == all_vlans(front) + all_vlans(back),
        i.untagged_vlan is None ==> all_vlans(seq![i]) == i.tagged_vlans@,
        i.untagged_vlan is Some ==> all_vlans(seq![i]) == seq![i.untagged_vlan->0]
            + i.tagged_vlans@,
    decreases back.len(),
{
    reveal_with_fuel(all_vlans, 2);
    assert(seq![i].drop_last() =~= Seq::<Interface>::empty());
    assert(Seq::<BriefObject>::empty() + vlans_on(i) =~= vlans_on(i));
    if back.len() == 0 {
        assert(front + back =~= front);
        assert(all_vlans(front) + all_vlans(back) =~= all_vlans(front));
    } else {
        assert((front + back).drop_last() =~= front + back.drop_last());
        vlans_are_gathered_in_order(front, back.drop_last(), i);
        assert((all_vlans(front) + all_vlans(back.drop_last())) + vlans_on(back.last())
            =~= all_vlans(front) + (all_vlans(back.drop_last()) + vlans_on(back.last())));
    }
}

/// Of several VLANs with one id the first stays, and the others keep their order.
pub proof fn the_first_of_each_stays(front: Seq<BriefObject>, x: BriefObject)
    ensures
        has_id(front, x.id) ==> first_of_each(front.push(x)) == first_of_each(front),
        !has_id(front, x.id) ==> first_of_each(front.push(x)) == first_of_each(front).push(x),
        first_of_each(Seq::<BriefObject>::empty()) == Seq::<BriefObject>::empty(),
        forall|v: BriefObject|
            first_of_each(front).contains(v) ==> #[trigger] front.contains(v),
    decreases front.len(),
{
    each_vlan_is_listed_once(front);
    assert(front.push(x).drop_last() =~= front);
    assert(front.push(x).last() == x);
    assert(has_id(first_of_each(front), x.id) <==> has_id(front, x.id));
    if front.len() > 0 {
        let rest = front.drop_last();
        the_first_of_each_stays(rest, x);
        assert forall|v: BriefObject| first_of_each(front).contains(v) implies #[trigger] front.contains(
            v,
        ) by {
            if first_of_each(rest).contains(v) {
                assert(rest.contains(v));
                let k = choose|k: int| 0 <= k < rest.len() && rest[k] == v;
                assert(front[k] == v);
            } else {
                let f = first_of_each(front);
                let k = choose|k: int| 0 <= k < f.len() && f[k] == v;
                if k < first_of_each(rest).len() {
                    assert(first_of_each(rest)[k] == v);
                }
                assert(v == front.last());
                assert(front[front.len() - 1] == v);
            }
        }
    }
}

/// The interfaces that have a cable are picked out one by one, in their order.
pub proof fn cabled_interfaces_are_picked(front: Seq<Interface>, back: Seq<Interface>, i: Interface)
    ensures
        cabled(front + back) == cabled(front) + cabled(back),
        i.cable is Some ==> cabled(seq![i]) == seq![i],
        i.cable is None ==> cabled(seq![i]) == Seq::<Interface>::empty(),
    decreases back.len(),
{
    reveal_with_fuel(cabled, 2);
    assert(seq![i].drop_last() =~= Seq::<Interface>::empty());
    assert(Seq::<Interface>::empty().push(i) =~= seq![i]);
    if back.len() == 0 {
        assert(front + back =~= front);
        assert(cabled(front) + cabled(back) =~= cabled(front));
    } else {
        assert((front + back).drop_last() =~= front + back.drop_last());
        cabled_interfaces_are_picked(front, back.drop_last(), i);
        assert((cabled(front) + cabled(back.drop_last())).push(back.last()) =~= cabled(front)
            + cabled(back.drop_last()).push(back.last()));
    }
}

/// The rows of a device's details hold what its interfaces and addresses say, in their
/// places.
pub proof fn device_details_hold_what_was_read(
    d: DeviceDetail,
    device: Device,
    interfaces: Seq<Interface>,
    ips: Seq<IpAddress>,
    i: int,
)
    requires
        d.is_of(device, interfaces, ips),
    ensures
        d.interfaces@.len() == interfaces.len() && d.ip_addresses@.len() == ips.len(),
        0 <= i < interfaces.len() ==> {
            let row = d.interfaces@[i];
            &&& row.id == interfaces[i].id && row.name == interfaces[i].name
            &&& row.enabled == interfaces[i].enabled
            &&& interfaces[i].type_ is None ==> row.type_ is None
            &&& row.description is Some <==> interfaces[i].description is Some
                && interfaces[i].description->0@.len() > 0
            &&& row.description is Some ==> row.description->0@ == interfaces[i].description->0@
        },
        0 <= i < ips.len() ==> {
            let row = d.ip_addresses@[i];
            &&& row.id == ips[i].id && row.address == ips[i].address
            &&& row.interface is Some <==> ips[i].assigned_object is Some && shown_name(
                ips[i].assigned_object->0,
            ) is Some
            &&& row.interface is Some ==> Some(row.interface->0@) == shown_name(
                ips[i].assigned_object->0,
            )
        },
        d.cables@.len() == cabled(interfaces).len(),
        0 <= i < cabled(interfaces).len() ==> {
            let from = cabled(interfaces)[i];
            &&& d.cables@[i].id == from.id && d.cables@[i].interface == from.name
            &&& d.cables@[i].cable is Some && d.cables@[i].cable->0@ == from.cable->0.label_text()
            &&& texts(d.cables@[i].connected_to@) == endpoint_labels(from.connected_endpoints)
        },
        d.vlans@.len() == first_of_each(all_vlans(interfaces)).len(),
        0 <= i < d.vlans@.len() ==> d.vlans@[i].id == first_of_each(all_vlans(interfaces))[i].id
            && d.vlans@[i].vlan@ == first_of_each(all_vlans(interfaces))[i].label_text(),
{
}

/// How a device's parts read: an interface with its type and whether it is disabled, an
/// address with its interface, a cable with the far ends it reaches or its own label.
pub proof fn device_parts_read_as_lines(iface: IfaceRow, ip: IpRow, cable: CableRow, arrow: Text)
    ensures
        iface.type_ is None && iface.enabled != Some(false) ==> iface.line() == iface.name@,
        iface.type_ is Some && iface.enabled != Some(false) ==> iface.line() == iface.name@ + "  "@
            + iface.type_->0@,
        iface.type_ is None && iface.enabled == Some(false) ==> iface.line() == iface.name@
            + "  (disabled)"@,
        iface.type_ is Some && iface.enabled == Some(false) ==> iface.line() == iface.name@ + "  "@
            + iface.type_->0@ + "  (disabled)"@,
        ip.interface is None ==> ip.line() == ip.address@,
        ip.interface is Some ==> ip.line() == ip.address@ + "  "@ + ip.interface->0@,
        cable.connected_to@.len() > 0 ==> cable.line(arrow) == cable.interface@ + arrow + joined(
            texts(cable.connected_to@),
            ", "@,
        ),
        cable.connected_to@.len() == 0 && cable.cable is Some ==> cable.line(arrow)
            == cable.interface@ + "  "@ + cable.cable->0@,
{
    assert(iface.name@ + Seq::<char>::empty() =~= iface.name@);
    if iface.type_ is Some {
        let t = iface.type_->0@;
        assert(iface.name@ + ("  "@ + t) =~= iface.name@ + "  "@ + t);
        assert(iface.name@ + "  "@ + t + Seq::<char>::empty() =~= iface.name@ + "  "@ + t);
    }
}

/// A device has a section for its interfaces, its addresses, its cables and its VLANs, in
/// this order, and none for what it has none of. A section has one line for each.
pub proof fn sections_are_those_that_are_filled(d: DeviceDetail, s: Section)
    ensures
        d.section_list().contains(s) <==> {
            let (key, title, body) = s;
            ||| (key == 'i' && title == "Interfaces"@ && d.interfaces@.len() > 0 && body == joined(
                Seq::new(d.interfaces@.len(), |i: int| "  "@ + d.interfaces@[i].line()),
                "\n"@,
            ))
            ||| (key == 'p' && title == "IP Addresses"@ && d.ip_addresses@.len() > 0 && body
                == joined(
                Seq::new(d.ip_addresses@.len(), |i: int| "  "@ + d.ip_addresses@[i].line()),
                "\n"@,
            ))
            ||| (key == 'c' && title == "Cables"@ && d.cables@.len() > 0 && body == joined(
                Seq::new(d.cables@.len(), |i: int| "  "@ + d.cables@[i].line(" -> "@)),
                "\n"@,
            ))
            ||| (key == 'v' && title == "VLANs"@ && d.vlans@.len() > 0 && body == joined(
                Seq::new(d.vlans@.len(), |i: int| "  "@ + d.vlans@[i].vlan@),
                "\n"@,
            ))
        },
        d.interfaces@.len() > 0 ==> d.section_list()[0].0 == 'i',
        d.vlans@.len() > 0 ==> d.section_list().last().0 == 'v',
        d.interfaces@.len() == 0 && d.ip_addresses@.len() > 0 ==> d.section_list()[0].0 == 'p',
        d.vlans@.len() == 0 && d.cables@.len() > 0 ==> d.section_list().last().0 == 'c',
{
    reveal(DeviceDetail::section_list);
    let a = lines_section('i', "Interfaces"@, iface_lines(d.interfaces@));
    let b = lines_section('p', "IP Addresses"@, ip_lines(d.ip_addresses@));
    let c = lines_section('c', "Cables"@, cable_lines(d.cables@));
    let e = lines_section('v', "VLANs"@, vlan_lines(d.vlans@));
    let all = d.section_list();
    assert(all =~= a + b + c + e);
    sections_are_found_where_they_were_put(a, b, s);
    sections_are_found_where_they_were_put(a + b, c, s);
    sections_are_found_where_they_were_put(a + b + c, e, s);
    one_section(a, s);
    one_section(b, s);
    one_section(c, s);
    one_section(e, s);
    assert(iface_lines(d.interfaces@) =~= Seq::new(
        d.interfaces@.len(),
        |i: int| "  "@ + d.interfaces@[i].line(),
    ));
    assert(ip_lines(d.ip_addresses@) =~= Seq::new(
        d.ip_addresses@.len(),
        |i: int| "  "@ + d.ip_addresses@[i].line(),
    ));
    assert(cable_lines(d.cables@) =~= Seq::new(
        d.cables@.len(),
        |i: int| "  "@ + d.cables@[i].line(" -> "@),
    ));
    assert(vlan_lines(d.vlans@) =~= Seq::new(d.vlans@.len(), |i: int| "  "@ + d.vlans@[i].vlan@));
}

proof fn sections_are_found_where_they_were_put(a: Seq<Section>, b: Seq<Section>, s: Section)
    ensures
        (a + b).contains(s) <==> a.contains(s) || b.contains(s),
{
    if a.contains(s) {
        let i = choose|i: int| 0 <= i < a.len() && a[i] == s;
        assert((a + b)[i] == s);
    }
    if b.contains(s) {
        let i = choose|i: int| 0 <= i < b.len() && b[i] == s;
        assert((a + b)[a.len() + i] == s);
    }
    if (a + b).contains(s) {
        let i = choose|i: int| 0 <= i < (a + b).len() && (a + b)[i] == s;
        if i < a.len() {
            assert(a[i] == s);
        } else {
            assert(b[i - a.len()] == s);
        }
    }
}

proof fn one_section(a: Seq<Section>, s: Section)
    requires
        a.len() <= 1,
    ensures
        a.contains(s) <==> a.len() == 1 && a[0] == s,
{
}

/// The sections of a device follow one another, each under its title behind a blank line.
pub proof fn sections_follow_one_another(front: Seq<Section>, s: Section)
    ensures
        sections_text(Seq::empty()).len() == 0,
        sections_text(front.push(s)) == sections_text(front) + ("\n\n"@ + s.1 + "\n"@ + s.2),
{
    assert(front.push(s).drop_last() =~= front);
}

} // verus!
