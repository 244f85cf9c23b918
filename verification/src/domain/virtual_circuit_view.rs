//! Virtual-circuit view: attributes and multi-point terminations.

use vstd::prelude::*;
use vstd::string::StringExecFns;

use crate::domain::custom::{append, field_rows, fields, shown_fields};
use crate::domain::util::{keep_text, kept_text};
use crate::json::Member;
use crate::netbox::models::{
    label_of,
    opt_label,
    opt_value,
    slugs,
    slugs_of,
    value_of,
    BriefObject,
    VirtualCircuit,
    VirtualCircuitTermination,
};
use crate::number::{decimal_len, decimal_text};
use crate::output::{list_row, no_rows, opt_row, rendered, row, KeyValues, Row};
use crate::text::{cat3, cat4, join, joined, opt_text, texts, Text};

verus! {

/// A reference to the device that carries something.
#[derive(Debug)]
pub struct DeviceRef {
    pub id: u64,
    pub name: String,
}

/// A reference to an interface.
#[derive(Debug)]
pub struct InterfaceRef {
    pub id: u64,
    pub name: String,
}

impl DeviceRef {
    /// The reference to a nested device, by its bare name.
    pub fn from_brief(b: &BriefObject) -> (r: Self)
        ensures
            r.id == b.id,
            r.name@ == b.name_text(),
    {
        DeviceRef { id: b.id, name: b.name_label() }
    }

    /// Copies the reference.
    pub fn copy(&self) -> (r: Self)
        ensures
            r == *self,
    {
        DeviceRef { id: self.id, name: self.name.clone() }
    }
}

/// One termination of a virtual circuit.
#[derive(Debug)]
pub struct VirtualCircuitTerminationView {
    pub endpoint: String,
    pub device: Option<DeviceRef>,
    pub interface: Option<InterfaceRef>,
    pub role: Option<String>,
    pub description: Option<String>,
}

/// Where a termination lands: the interface behind its device, or a placeholder.
pub open spec fn landing(interface: Option<BriefObject>) -> Text {
    match interface {
        Some(b) => match b.device {
            Some(d) => d.name_or_id() + " "@ + b.name_or_id(),
            None => b.name_or_id(),
        },
        None => "(unterminated)"@,
    }
}

/// Whether a reference is that of the device which carries an interface.
pub open spec fn refers_to_device(r: Option<DeviceRef>, interface: Option<BriefObject>) -> bool {
    if interface is Some && interface->0.device is Some {
        r is Some && r->0.id == interface->0.device->0.id && r->0.name@
            == interface->0.device->0.name_or_id()
    } else {
        r is None
    }
}

/// Whether a reference is that of an interface.
pub open spec fn refers_to_interface(
    r: Option<InterfaceRef>,
    interface: Option<BriefObject>,
) -> bool {
    match interface {
        Some(b) => r is Some && r->0.id == b.id && r->0.name@ == b.name_or_id(),
        None => r is None,
    }
}

/// Whether a view carries what a termination says.
pub open spec fn view_is_of(
    v: VirtualCircuitTerminationView,
    t: VirtualCircuitTermination,
) -> bool {
    &&& v.endpoint@ == landing(t.interface)
    &&& refers_to_device(v.device, t.interface)
    &&& refers_to_interface(v.interface, t.interface)
    &&& opt_text(v.role) == opt_value(t.role)
    &&& opt_text(v.description) == kept_text(t.description)
}

impl VirtualCircuitTerminationView {
    /// Flattens a termination.
    pub fn from_model(t: VirtualCircuitTermination) -> (r: Self)
        ensures
            view_is_of(r, t),
    {
        let (endpoint, device, interface) = match &t.interface {
            Some(b) => {
                let iface_name = b.bare_name();
                let (endpoint, device) = match &b.device {
                    Some(d) => {
                        let dev_name = d.bare_name();
                        let endpoint = cat3(dev_name.as_str(), " ", iface_name.as_str());
                        (endpoint, Some(DeviceRef { id: d.id, name: dev_name }))
                    },
                    None => (iface_name.clone(), None),
                };
                (endpoint, device, Some(InterfaceRef { id: b.id, name: iface_name }))
            },
            None => ("(unterminated)".to_owned(), None, None),
        };
        VirtualCircuitTerminationView {
            endpoint,
            device,
            interface,
            role: value_of(&t.role),
            description: keep_text(t.description),
        }
    }

    /// The numbered line of a termination.
    pub open spec fn line(self, number: nat) -> Text {
        "  "@ + decimal_text(number) + ". "@ + self.endpoint@ + match self.role {
            Some(r) => "  ·  "@ + r@,
            None => Seq::empty(),
        } + match self.description {
            Some(d) => "  ·  "@ + d@,
            None => Seq::empty(),
        }
    }

    fn render(&self, number: usize) -> (r: String)
        ensures
            r@ == self.line(number as nat),
    {
        let n = decimal_len(number);
        let mut line = cat4("  ", n.as_str(), ". ", self.endpoint.as_str());
        let ghost so_far = line@;
        if let Some(role) = &self.role {
            let part = crate::text::cat2("  ·  ", role.as_str());
            line.append(part.as_str());
        }
        proof {
            if self.role is None {
                assert(line@ =~= so_far + Seq::empty());
            }
        }
        let ghost so_far = line@;
        if let Some(d) = &self.description {
            let part = crate::text::cat2("  ·  ", d.as_str());
            line.append(part.as_str());
        }
        proof {
            if self.description is None {
                assert(line@ =~= so_far + Seq::empty());
            }
        }
        line
    }
}

/// A virtual circuit, flattened for display, with its terminations in the order
/// they were listed.
#[derive(Debug)]
pub struct VirtualCircuitView {
    pub cid: String,
    pub provider_network: Option<String>,
    pub provider_account: Option<String>,
    pub type_: Option<String>,
    pub status: Option<String>,
    pub tenant: Option<String>,
    pub owner: Option<String>,
    pub description: Option<String>,
    pub terminations: Vec<VirtualCircuitTerminationView>,
    pub tags: Vec<String>,
    pub custom_fields: Vec<Member>,
}

/// The numbered lines of a list of terminations.
pub open spec fn termination_lines(ts: Seq<VirtualCircuitTerminationView>) -> Seq<Text> {
    Seq::new(ts.len(), |i: int| ts[i].line((i + 1) as nat))
}

/// The numbered lines of a list of terminations, from the wire form.
pub open spec fn landing_lines(ts: Seq<VirtualCircuitTermination>) -> Seq<Text> {
    Seq::new(
        ts.len(),
        |i: int|
            "  "@ + decimal_text((i + 1) as nat) + ". "@ + landing(ts[i].interface) + match opt_value(
                ts[i].role,
            ) {
                Some(r) => "  ·  "@ + r,
                None => Seq::empty(),
            } + match kept_text(ts[i].description) {
                Some(d) => "  ·  "@ + d,
                None => Seq::empty(),
            },
    )
}

/// Terminations as a section of text.
pub open spec fn terminations_section(lines: Seq<Text>) -> Text {
    if lines.len() == 0 {
        Seq::empty()
    } else {
        "\n\nTerminations\n"@ + joined(lines, "\n"@)
    }
}

impl VirtualCircuitView {
    /// Flattens a virtual circuit without terminations.
    pub fn from_model(vc: VirtualCircuit) -> (r: Self)
        ensures
            r.cid == vc.cid,
            opt_text(r.provider_network) == opt_label(vc.provider_network),
            opt_text(r.provider_account) == opt_label(vc.provider_account),
            opt_text(r.type_) == opt_label(vc.type_),
            opt_text(r.status) == opt_value(vc.status),
            opt_text(r.tenant) == opt_label(vc.tenant),
            opt_text(r.owner) == opt_label(vc.owner),
            opt_text(r.description) == kept_text(vc.description),
            r.terminations@.len() == 0,
            texts(r.tags@) == slugs(vc.tags@),
            r.custom_fields@ == shown_fields(vc.custom_fields),
            r.rows() == Self::rows_of(vc),
    {
        Self::build(vc, Vec::new())
    }

    /// Flattens a virtual circuit and its terminations.
    pub fn build(vc: VirtualCircuit, terminations: Vec<VirtualCircuitTermination>) -> (r: Self)
        ensures
            r.cid == vc.cid,
            opt_text(r.provider_network) == opt_label(vc.provider_network),
            opt_text(r.provider_account) == opt_label(vc.provider_account),
            opt_text(r.type_) == opt_label(vc.type_),
            opt_text(r.status) == opt_value(vc.status),
            opt_text(r.tenant) == opt_label(vc.tenant),
            opt_text(r.owner) == opt_label(vc.owner),
            opt_text(r.description) == kept_text(vc.description),
            r.terminations@.len() == terminations@.len(),
            forall|i: int|
                0 <= i < terminations@.len() ==> view_is_of(
                    #[trigger] r.terminations@[i],
                    terminations@[i],
                ),
            texts(r.tags@) == slugs(vc.tags@),
            r.custom_fields@ == shown_fields(vc.custom_fields),
            r.rows() == Self::rows_of(vc),
            r.plain() == Self::plain_of(vc, terminations@),
    {
        proof {
            reveal(VirtualCircuitView::rows);
            reveal(VirtualCircuitView::rows_of);
        }
        let ghost all = terminations@;
        let mut views: Vec<VirtualCircuitTerminationView> = Vec::new();
        for t in it: terminations
            invariant
                it.seq() == all,
                views@.len() == it.index(),
                forall|j: int| 0 <= j < views@.len() ==> view_is_of(#[trigger] views@[j], all[j]),
        {
            views.push(VirtualCircuitTerminationView::from_model(t));
        }
        proof {
            assert(termination_lines(views@) =~= landing_lines(all)) by {
                assert forall|i: int| 0 <= i < all.len() implies termination_lines(views@)[i]
                    == landing_lines(all)[i] by {
                    assert(view_is_of(views@[i], all[i]));
                }
            }
        }
        VirtualCircuitView {
            cid: vc.cid,
            provider_network: label_of(&vc.provider_network),
            provider_account: label_of(&vc.provider_account),
            type_: label_of(&vc.type_),
            status: value_of(&vc.status),
            tenant: label_of(&vc.tenant),
            owner: label_of(&vc.owner),
            description: keep_text(vc.description),
            terminations: views,
            tags: slugs_of(&vc.tags),
            custom_fields: fields(vc.custom_fields),
        }
    }

    /// The attribute rows shown, in order.
    #[verifier::opaque]
    pub open spec fn rows(self) -> Seq<Row> {
        no_rows()
            + row("cid"@, self.cid@)
            + opt_row("provider_network"@, opt_text(self.provider_network))
            + opt_row("provider_account"@, opt_text(self.provider_account))
            + opt_row("type"@, opt_text(self.type_))
            + opt_row("status"@, opt_text(self.status))
            + opt_row("tenant"@, opt_text(self.tenant))
            + opt_row("owner"@, opt_text(self.owner))
            + opt_row("description"@, opt_text(self.description))
            + list_row("tags"@, texts(self.tags@))
            + field_rows(self.custom_fields@)
    }

    /// The attribute rows shown of a virtual circuit.
    #[verifier::opaque]
    pub open spec fn rows_of(vc: VirtualCircuit) -> Seq<Row> {
        no_rows()
            + row("cid"@, vc.cid@)
            + opt_row("provider_network"@, opt_label(vc.provider_network))
            + opt_row("provider_account"@, opt_label(vc.provider_account))
            + opt_row("type"@, opt_label(vc.type_))
            + opt_row("status"@, opt_value(vc.status))
            + opt_row("tenant"@, opt_label(vc.tenant))
            + opt_row("owner"@, opt_label(vc.owner))
            + opt_row("description"@, kept_text(vc.description))
            + list_row("tags"@, slugs(vc.tags@))
            + field_rows(shown_fields(vc.custom_fields))
    }

    /// Renders the attributes as rows.
    pub fn to_key_values(&self) -> (r: KeyValues)
        ensures
            r@ == self.rows(),
    {
        proof {
            reveal(VirtualCircuitView::rows);
        }
        let mut kv = KeyValues::new();
        kv.push("cid", self.cid.as_str());
        kv.push_opt("provider_network", &self.provider_network);
        kv.push_opt("provider_account", &self.provider_account);
        kv.push_opt("type", &self.type_);
        kv.push_opt("status", &self.status);
        kv.push_opt("tenant", &self.tenant);
        kv.push_opt("owner", &self.owner);
        kv.push_opt("description", &self.description);
        kv.push_list("tags", &self.tags);
        append(&mut kv, &self.custom_fields);
        kv
    }

    /// The text shown: the attributes, then the numbered terminations.
    pub open spec fn plain(self) -> Text {
        rendered(self.rows()) + terminations_section(termination_lines(self.terminations@))
    }

    /// The text shown of a virtual circuit and its terminations.
    pub open spec fn plain_of(vc: VirtualCircuit, ts: Seq<VirtualCircuitTermination>) -> Text {
        rendered(Self::rows_of(vc)) + terminations_section(landing_lines(ts))
    }

    /// Renders the whole view.
    pub fn to_plain(&self) -> (r: String)
        ensures
            r@ == self.plain(),
    {
        let kv = self.to_key_values();
        let mut out = kv.render();
        if self.terminations.is_empty() {
            proof {
                assert(termination_lines(self.terminations@).len() == 0);
                assert(out@ =~= out@ + Seq::empty());
            }
            return out;
        }
        let mut lines: Vec<String> = Vec::new();
        let mut i: usize = 0;
        while i < self.terminations.len()
            invariant
                i <= self.terminations.len(),
                lines.len() == i,
                forall|j: int|
                    0 <= j < i ==> (#[trigger] lines@[j])@ == self.terminations@[j].line(
                        (j + 1) as nat,
                    ),
            decreases self.terminations.len() - i,
        {
            lines.push(self.terminations[i].render(i + 1));
            i = i + 1;
        }
        proof {
            assert(texts(lines@) =~= termination_lines(self.terminations@));
        }
        let body = join(&lines, "\n");
        let section = crate::text::cat2("\n\nTerminations\n", body.as_str());
        out.append(section.as_str());
        out
    }
}

/// The rows of a virtual circuit: each field that is set is shown under its own key and with
/// its own value, and nothing else is shown.
pub proof fn virtual_circuit_rows_show_the_fields(vc: VirtualCircuit, k: Text, v: Text)
    ensures
        VirtualCircuitView::rows_of(vc).contains((k, v)) <==> {
            ||| (k == "cid"@ && v == vc.cid@)
            ||| (vc.provider_network is Some && k == "provider_network"@
                && v == vc.provider_network->0.label_text())
            ||| (vc.provider_account is Some && k == "provider_account"@
                && v == vc.provider_account->0.label_text())
            ||| (vc.type_ is Some && k == "type"@ && v == vc.type_->0.label_text())
            ||| (vc.status is Some && k == "status"@ && v == vc.status->0.value@)
            ||| (vc.tenant is Some && k == "tenant"@ && v == vc.tenant->0.label_text())
            ||| (vc.owner is Some && k == "owner"@ && v == vc.owner->0.label_text())
            ||| (vc.description is Some && vc.description->0@.len() > 0 && k == "description"@
                && v == vc.description->0@)
            ||| (slugs(vc.tags@).len() > 0 && k == "tags"@
                && v == crate::text::joined(slugs(vc.tags@), ", "@))
            ||| {
                &&& vc.custom_fields is Object
                &&& exists|m: crate::json::Member|
                    {
                        &&& #[trigger] vc.custom_fields->members@.contains(m)
                        &&& !(m.value is Null)
                        &&& !(m.value is Text && m.value->Text_0@.len() == 0)
                        &&& k == "cf."@ + m.name@
                        &&& v == crate::domain::custom::shown_value(m.value)
                    }
            }
        },
{
    reveal(VirtualCircuitView::rows_of);
    crate::output::rows_are_found_where_they_were_put();
    crate::domain::custom::custom_fields_have_rows(vc.custom_fields, k, v);
}

/// A virtual circuit lands where its interface is: the device in front of the interface
/// when it is known, and nowhere when there is no interface. What it refers to is just
/// that device and that interface.
pub proof fn landings_name_the_interface(
    v: VirtualCircuitTerminationView,
    t: VirtualCircuitTermination,
)
    requires
        view_is_of(v, t),
    ensures
        t.interface is None ==> v.endpoint@ == "(unterminated)"@ && v.interface is None
            && v.device is None,
        t.interface is Some ==> v.interface is Some && v.interface->0.id == t.interface->0.id
            && v.interface->0.name@ == t.interface->0.name_or_id(),
        t.interface is Some && t.interface->0.device is None ==> v.device is None && v.endpoint@
            == t.interface->0.name_or_id(),
        t.interface is Some && t.interface->0.device is Some ==> v.device is Some && v.device->0.id
            == t.interface->0.device->0.id && v.device->0.name@
            == t.interface->0.device->0.name_or_id() && v.endpoint@
            == t.interface->0.device->0.name_or_id() + " "@ + t.interface->0.name_or_id(),
        v.role is Some <==> t.role is Some,
        t.role is Some ==> v.role->0@ == t.role->0.value@,
        v.description is Some <==> t.description is Some && t.description->0@.len() > 0,
        v.description is Some ==> v.description->0@ == t.description->0@,
{
}

/// Terminations are numbered from one, in order, and tell their role and description
/// where they have them; without any there is no section.
pub proof fn terminations_are_numbered(ts: Seq<VirtualCircuitTermination>, i: int)
    requires
        0 <= i < ts.len(),
    ensures
        landing_lines(ts).len() == ts.len(),
        ({
            let start = "  "@ + decimal_text((i + 1) as nat) + ". "@ + landing(ts[i].interface);
            let role = ts[i].role;
            let d = ts[i].description;
            &&& role is None && d is None ==> landing_lines(ts)[i] == start
            &&& role is Some && d is None ==> landing_lines(ts)[i] == start + "  ·  "@
                + role->0.value@
            &&& role is None && d is Some && d->0@.len() > 0 ==> landing_lines(ts)[i] == start
                + "  ·  "@ + d->0@
            &&& role is Some && d is Some && d->0@.len() > 0 ==> landing_lines(ts)[i] == start
                + "  ·  "@ + role->0.value@ + "  ·  "@ + d->0@
        }),
        terminations_section(Seq::empty()).len() == 0,
        terminations_section(landing_lines(ts)) == "\n\nTerminations\n"@ + joined(
            landing_lines(ts),
            "\n"@,
        ),
{
    let start = "  "@ + decimal_text((i + 1) as nat) + ". "@ + landing(ts[i].interface);
    assert(start + Seq::<char>::empty() =~= start);
    if ts[i].role is Some {
        let r = ts[i].role->0.value@;
        assert(start + ("  ·  "@ + r) =~= start + "  ·  "@ + r);
        assert(start + "  ·  "@ + r + Seq::<char>::empty() =~= start + "  ·  "@ + r);
        if ts[i].description is Some {
            let d = ts[i].description->0@;
            assert(start + "  ·  "@ + r + ("  ·  "@ + d) =~= start + "  ·  "@ + r + "  ·  "@ + d);
        }
    } else if ts[i].description is Some {
        let d = ts[i].description->0@;
        assert(start + ("  ·  "@ + d) =~= start + "  ·  "@ + d);
    }
}

} // verus!
