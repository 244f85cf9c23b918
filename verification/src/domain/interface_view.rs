//! Interface view: attributes, addresses, and the cable path.

use vstd::prelude::*;
use vstd::string::StringExecFns;

use crate::domain::custom::{append, field_rows, fields, shown_fields};
use crate::domain::ip_view::{behind, parent_name, parent_of, put_behind};
use crate::domain::util::{
    keep_text,
    kept_text,
    section,
    section_text,
    text_if_any,
    widen,
    widened,
};
use crate::json::{get_str, get_str_either, string_at, string_at_either, Json, Member};
use crate::netbox::models::{
    choice_label_of,
    label_of as brief_label,
    labels,
    labels_of,
    opt_choice_label,
    opt_label,
    slugs,
    slugs_of,
    BriefObject,
    Interface,
    IpAddress,
};
use crate::output::{count_row, flag_row, list_row, no_rows, opt_row, rendered, row, KeyValues, Row};
use crate::text::{cat2, cat3, join, joined, opt_text, same, texts, trim, trimmed, Text};

verus! {

/// An interface, flattened for display, with its addresses and cable path.
#[derive(Debug)]
pub struct InterfaceView {
    pub device: Option<String>,
    pub name: String,
    pub enabled: Option<bool>,
    pub type_: Option<String>,
    pub mtu: Option<u32>,
    pub mac_address: Option<String>,
    pub mode: Option<String>,
    pub untagged_vlan: Option<String>,
    pub tagged_vlans: Vec<String>,
    pub cable: Option<String>,
    pub connected_to: Vec<String>,
    pub description: Option<String>,
    pub ip_addresses: Vec<String>,
    pub trace: Vec<String>,
    pub diagram: Vec<String>,
    pub tags: Vec<String>,
    pub custom_fields: Vec<Member>,
}

// ===== Labels in a trace =================================================

/// The texts that are there, in order.
pub open spec fn present(items: Seq<Option<Text>>) -> Seq<Text>
    decreases items.len(),
{
    if items.len() == 0 {
        Seq::empty()
    } else {
        match items.last() {
            Some(t) => present(items.drop_last()).push(t),
            None => present(items.drop_last()),
        }
    }
}

/// The label of a termination, behind its device.
pub open spec fn termination_name(v: Json) -> Option<Text> {
    match string_at_either(v, "display"@, "name"@) {
        Some(name) => Some(behind(parent_name(v, "device"@), name)),
        None => None,
    }
}

/// The names of the ends of a hop, where they have one.
pub open spec fn termination_names(items: Seq<Json>) -> Seq<Option<Text>> {
    Seq::new(items.len(), |i: int| termination_name(items[i]))
}

/// The labels at one end of a hop: those of a list, or that of a single object.
pub open spec fn end_labels(v: Option<Json>) -> Text {
    match v {
        Some(Json::Array { items, raw }) => joined(present(termination_names(items@)), ", "@),
        Some(other) => match termination_name(other) {
            Some(t) => t,
            None => Seq::empty(),
        },
        None => Seq::empty(),
    }
}

/// The label of a cable, when it has one.
pub open spec fn cable_name(v: Json) -> Option<Text> {
    match string_at_either(v, "display"@, "label"@) {
        Some(s) => text_if_any(s),
        None => None,
    }
}

/// An item of a list.
pub open spec fn item_at(items: Seq<Json>, i: int) -> Option<Json> {
    if 0 <= i < items.len() {
        Some(items[i])
    } else {
        None
    }
}

fn get_item(items: &Vec<Json>, i: usize) -> (r: Option<&Json>)
    ensures
        match r {
            Some(v) => item_at(items@, i as int) == Some(*v),
            None => item_at(items@, i as int) is None,
        },
{
    if i < items.len() {
        Some(&items[i])
    } else {
        None
    }
}

/// The view of an optional reference to a value.
pub open spec fn opt_json(o: Option<&Json>) -> Option<Json> {
    match o {
        Some(v) => Some(*v),
        None => None,
    }
}

fn label_of(v: &Json) -> (r: Option<String>)
    ensures
        opt_text(r) == termination_name(*v),
{
    match get_str_either(v, "display", "name") {
        Some(name) => Some(put_behind(parent_of(v, "device"), name)),
        None => None,
    }
}

fn labels_in(items: &Vec<Json>) -> (r: Vec<String>)
    ensures
        texts(r@) == present(termination_names(items@)),
{
    let ghost names = termination_names(items@);
    let mut out: Vec<String> = Vec::new();
    let mut i: usize = 0;
    proof {
        assert(names.take(0) =~= Seq::empty());
        assert(texts(out@) =~= present(names.take(0)));
    }
    while i < items.len()
        invariant
            i <= items.len(),
            names == termination_names(items@),
            texts(out@) == present(names.take(i as int)),
        decreases items.len() - i,
    {
        let ghost before = texts(out@);
        proof {
            assert(names.take(i as int + 1).drop_last() =~= names.take(i as int));
            assert(names.take(i as int + 1).last() == names[i as int]);
        }
        if let Some(s) = label_of(&items[i]) {
            out.push(s);
            proof {
                assert(texts(out@) =~= before.push(s@));
            }
        }
        i = i + 1;
    }
    proof {
        assert(names.take(i as int) =~= names);
    }
    out
}

fn termination_labels(v: Option<&Json>) -> (r: String)
    ensures
        r@ == end_labels(opt_json(v)),
{
    match v {
        Some(Json::Array { items, raw: _ }) => {
            let found = labels_in(items);
            join(&found, ", ")
        },
        Some(other) => match label_of(other) {
            Some(s) => s,
            None => String::new(),
        },
        None => String::new(),
    }
}

fn non_empty_str(s: &str) -> (r: Option<String>)
    ensures
        opt_text(r) == text_if_any(s@),
{
    if s.is_empty() {
        None
    } else {
        Some(s.to_owned())
    }
}

fn cable_label(v: &Json) -> (r: Option<String>)
    ensures
        opt_text(r) == cable_name(*v),
{
    match get_str_either(v, "display", "label") {
        Some(s) => non_empty_str(s),
        None => None,
    }
}

// ===== The trace as lines ================================================

/// What stands between the two ends of a hop.
pub open spec fn hop_middle(cable: Option<Json>) -> Text {
    match cable {
        Some(v) => match cable_name(v) {
            Some(c) => " --["@ + c + "]-- "@,
            None => " -- "@,
        },
        None => " -- "@,
    }
}

/// The line of a hop; none for one that is no list or has nothing at either end.
pub open spec fn hop_line(hop: Json) -> Option<Text> {
    match hop.array() {
        Some(items) => {
            let line = end_labels(item_at(items, 0)) + hop_middle(item_at(items, 1)) + end_labels(
                item_at(items, 2),
            );
            if trim(line) == "--"@ {
                None
            } else {
                Some(line)
            }
        },
        None => None,
    }
}

/// The line of each hop, where it has one.
pub open spec fn hop_lines(hops: Seq<Json>) -> Seq<Option<Text>> {
    Seq::new(hops.len(), |i: int| hop_line(hops[i]))
}

/// The lines of a trace.
pub open spec fn trace_lines(hops: Seq<Json>) -> Seq<Text> {
    present(hop_lines(hops))
}

fn render_hop(hop: &Json) -> (r: Option<String>)
    ensures
        opt_text(r) == hop_line(*hop),
{
    match hop.as_array() {
        Some(items) => {
            let near = termination_labels(get_item(items, 0));
            let far = termination_labels(get_item(items, 2));
            let mid = match get_item(items, 1) {
                Some(v) => match cable_label(v) {
                    Some(c) => cat3(" --[", c.as_str(), "]-- "),
                    None => " -- ".to_owned(),
                },
                None => " -- ".to_owned(),
            };
            let line = cat3(near.as_str(), mid.as_str(), far.as_str());
            let core = trimmed(line.as_str());
            if same(core.as_str(), "--") {
                None
            } else {
                Some(line)
            }
        },
        None => None,
    }
}

/// Renders a trace as one line per hop.
pub fn format_trace(hops: &Vec<Json>) -> (r: Vec<String>)
    ensures
        texts(r@) == trace_lines(hops@),
{
    let ghost all = hop_lines(hops@);
    let mut out: Vec<String> = Vec::new();
    let mut i: usize = 0;
    proof {
        assert(all.take(0) =~= Seq::empty());
        assert(texts(out@) =~= present(all.take(0)));
    }
    while i < hops.len()
        invariant
            i <= hops.len(),
            all == hop_lines(hops@),
            texts(out@) == present(all.take(i as int)),
        decreases hops.len() - i,
    {
        let ghost before = texts(out@);
        proof {
            assert(all.take(i as int + 1).drop_last() =~= all.take(i as int));
            assert(all.take(i as int + 1).last() == all[i as int]);
        }
        if let Some(line) = render_hop(&hops[i]) {
            out.push(line);
            proof {
                assert(texts(out@) =~= before.push(line@));
            }
        }
        i = i + 1;
    }
    proof {
        assert(all.take(i as int) =~= all);
    }
    out
}

// ===== The trace as a diagram ============================================

/// The label of a choice, else its value, else the string itself.
pub open spec fn choice_name(v: Option<Json>) -> Option<Text> {
    match v {
        Some(x) => {
            let found = if string_at_either(x, "label"@, "value"@) is Some {
                string_at_either(x, "label"@, "value"@)
            } else {
                x.string()
            };
            match found {
                Some(s) => text_if_any(s),
                None => None,
            }
        },
        None => None,
    }
}

/// The value of a choice, else the string itself.
pub open spec fn choice_short(v: Option<Json>) -> Option<Text> {
    match v {
        Some(x) => {
            let found = if string_at(x, "value"@) is Some {
                string_at(x, "value"@)
            } else {
                x.string()
            };
            match found {
                Some(s) => text_if_any(s),
                None => None,
            }
        },
        None => None,
    }
}

fn choice_label(v: Option<&Json>) -> (r: Option<String>)
    ensures
        opt_text(r) == choice_name(opt_json(v)),
{
    match v {
        Some(x) => {
            let found = match get_str_either(x, "label", "value") {
                Some(s) => Some(s),
                None => x.as_str(),
            };
            match found {
                Some(s) => non_empty_str(s),
                None => None,
            }
        },
        None => None,
    }
}

fn choice_value(v: Option<&Json>) -> (r: Option<String>)
    ensures
        opt_text(r) == choice_short(opt_json(v)),
{
    match v {
        Some(x) => {
            let found = match get_str(x, "value") {
                Some(s) => Some(s),
                None => x.as_str(),
            };
            match found {
                Some(s) => non_empty_str(s),
                None => None,
            }
        },
        None => None,
    }
}

/// The length of a cable with its unit.
pub open spec fn cable_length(v: Json) -> Option<Text> {
    match v.at("length"@) {
        Some(Json::Number(n)) => Some(
            n.decimal@ + match choice_short(v.at("length_unit"@)) {
                Some(u) => u,
                None => Seq::empty(),
            },
        ),
        _ => None,
    }
}

/// What is known of a cable: its label, type, length and status.
pub open spec fn cable_parts(v: Json) -> Seq<Text> {
    present(
        seq![
            cable_name(v),
            choice_name(v.at("type"@)),
            cable_length(v),
            choice_name(v.at("status"@)),
        ],
    )
}

/// A cable on one line.
pub open spec fn cable_text(v: Option<Json>) -> Text {
    match v {
        Some(x) => if cable_parts(x).len() == 0 {
            "cable"@
        } else {
            joined(cable_parts(x), " · "@)
        },
        None => "cable"@,
    }
}

fn length_text(v: &Json) -> (r: Option<String>)
    ensures
        opt_text(r) == cable_length(*v),
{
    match v.get("length") {
        Some(Json::Number(n)) => {
            let unit = match choice_value(v.get("length_unit")) {
                Some(u) => u,
                None => String::new(),
            };
            Some(cat2(n.decimal.as_str(), unit.as_str()))
        },
        _ => None,
    }
}

fn push_present(parts: &mut Vec<String>, part: Option<String>)
    ensures
        texts(final(parts)@) == match opt_text(part) {
            Some(t) => texts(old(parts)@).push(t),
            None => texts(old(parts)@),
        },
{
    let ghost before = texts(parts@);
    if let Some(s) = part {
        parts.push(s);
        proof {
            assert(texts(parts@) =~= before.push(s@));
        }
    }
}

/// Writes what is known of a cable.
pub fn cable_descr(v: Option<&Json>) -> (r: String)
    ensures
        r@ == cable_text(opt_json(v)),
{
    match v {
        Some(x) => {
            let mut parts: Vec<String> = Vec::new();
            proof {
                assert(texts(parts@) =~= Seq::empty());
            }
            push_present(&mut parts, cable_label(x));
            push_present(&mut parts, choice_label(x.get("type")));
            push_present(&mut parts, length_text(x));
            push_present(&mut parts, choice_label(x.get("status")));
            proof {
                let four = seq![
                    cable_name(*x),
                    choice_name(x.at("type"@)),
                    cable_length(*x),
                    choice_name(x.at("status"@)),
                ];
                reveal_with_fuel(present, 5);
                assert(four.drop_last() =~= four.take(3));
                assert(four.take(3).drop_last() =~= four.take(2));
                assert(four.take(2).drop_last() =~= four.take(1));
                assert(four.take(1).drop_last() =~= four.take(0));
                assert(texts(parts@) =~= present(four));
            }
            if parts.is_empty() {
                "cable".to_owned()
            } else {
                join(&parts, " · ")
            }
        },
        None => "cable".to_owned(),
    }
}

/// The diagram so far, and the far end it stopped at.
pub struct Drawing {
    pub lines: Seq<Text>,
    pub far: Option<Text>,
}

/// The lines of the cable in a diagram.
pub open spec fn cable_lines(cable: Option<Json>) -> Seq<Text> {
    seq!["  │"@, "  ┿ "@ + cable_text(cable), "  │"@]
}

/// A diagram with one more hop. A hop that is no list or has nothing at either
/// end adds nothing; a near end that repeats the last far end is not drawn again.
pub open spec fn draw_hop(d: Drawing, hop: Json) -> Drawing {
    match hop.array() {
        Some(items) => {
            let near = end_labels(item_at(items, 0));
            let far = end_labels(item_at(items, 2));
            if near.len() == 0 && far.len() == 0 {
                d
            } else {
                Drawing {
                    lines: d.lines + if near.len() > 0 && d.far != Some(near) {
                        seq![near]
                    } else {
                        Seq::empty()
                    } + cable_lines(item_at(items, 1)) + if far.len() > 0 {
                        seq![far]
                    } else {
                        Seq::empty()
                    },
                    far: text_if_any(far),
                }
            }
        },
        None => d,
    }
}

/// The diagram of a trace.
pub open spec fn drawing(hops: Seq<Json>) -> Drawing
    decreases hops.len(),
{
    if hops.len() == 0 {
        Drawing { lines: Seq::empty(), far: None }
    } else {
        draw_hop(drawing(hops.drop_last()), hops.last())
    }
}

fn push_text(lines: &mut Vec<String>, line: String)
    ensures
        texts(final(lines)@) == texts(old(lines)@).push(line@),
{
    let ghost before = texts(lines@);
    lines.push(line);
    proof {
        assert(texts(lines@) =~= before.push(line@));
    }
}

fn push_hop(lines: &mut Vec<String>, far_end: Option<String>, hop: &Json) -> (r: Option<String>)
    ensures
        ({
            let d = draw_hop(
                Drawing { lines: texts(old(lines)@), far: opt_text(far_end) },
                *hop,
            );
            texts(final(lines)@) == d.lines && opt_text(r) == d.far
        }),
{
    let ghost before = texts(lines@);
    match hop.as_array() {
        Some(items) => {
            let near = termination_labels(get_item(items, 0));
            let far = termination_labels(get_item(items, 2));
            if near.as_str().is_empty() && far.as_str().is_empty() {
                return far_end;
            }
            let repeats = match &far_end {
                Some(f) => same(f.as_str(), near.as_str()),
                None => false,
            };
            let ghost near_text = near@;
            if !near.as_str().is_empty() && !repeats {
                push_text(lines, near);
            }
            let descr = cable_descr(get_item(items, 1));
            push_text(lines, "  │".to_owned());
            push_text(lines, cat2("  ┿ ", descr.as_str()));
            push_text(lines, "  │".to_owned());
            if far.as_str().is_empty() {
                proof {
                    assert(texts(lines@) =~= draw_hop(
                        Drawing { lines: before, far: opt_text(far_end) },
                        *hop,
                    ).lines);
                }
                None
            } else {
                push_text(lines, far.clone());
                proof {
                    assert(texts(lines@) =~= draw_hop(
                        Drawing { lines: before, far: opt_text(far_end) },
                        *hop,
                    ).lines);
                }
                Some(far)
            }
        },
        None => far_end,
    }
}

/// Draws a trace as a vertical chain of terminations and cables.
pub fn format_trace_diagram(hops: &Vec<Json>) -> (r: Vec<String>)
    ensures
        texts(r@) == drawing(hops@).lines,
{
    let mut lines: Vec<String> = Vec::new();
    let mut far: Option<String> = None;
    let mut i: usize = 0;
    proof {
        assert(hops@.take(0) =~= Seq::empty());
        assert(texts(lines@) =~= Seq::empty());
    }
    while i < hops.len()
        invariant
            i <= hops.len(),
            texts(lines@) == drawing(hops@.take(i as int)).lines,
            opt_text(far) == drawing(hops@.take(i as int)).far,
        decreases hops.len() - i,
    {
        proof {
            assert(hops@.take(i as int + 1).drop_last() =~= hops@.take(i as int));
        }
        far = push_hop(&mut lines, far, &hops[i]);
        i = i + 1;
    }
    proof {
        assert(hops@.take(i as int) =~= hops@);
    }
    lines
}

// ===== The view ==========================================================

/// The endpoints an interface is connected to.
pub open spec fn endpoint_labels(o: Option<Vec<BriefObject>>) -> Seq<Text> {
    match o {
        Some(v) => labels(v@),
        None => Seq::empty(),
    }
}

/// The labels of the endpoints an interface is connected to.
pub fn endpoints_of(o: &Option<Vec<BriefObject>>) -> (r: Vec<String>)
    ensures
        texts(r@) == endpoint_labels(*o),
{
    match o {
        Some(v) => labels_of(v),
        None => {
            let out: Vec<String> = Vec::new();
            proof {
                assert(texts(out@) =~= Seq::empty());
            }
            out
        },
    }
}

/// The addresses of a list.
pub open spec fn addresses(ips: Seq<IpAddress>) -> Seq<Text> {
    Seq::new(ips.len(), |i: int| ips[i].address@)
}

fn addresses_of(ips: Vec<IpAddress>) -> (r: Vec<String>)
    ensures
        texts(r@) == addresses(ips@),
{
    let ghost all = ips@;
    let mut out: Vec<String> = Vec::new();
    for ip in it: ips
        invariant
            it.seq() == all,
            out@.len() == it.index(),
            forall|j: int| 0 <= j < out@.len() ==> (#[trigger] out@[j])@ == all[j].address@,
    {
        out.push(ip.address);
    }
    proof {
        assert(texts(out@) =~= addresses(all));
    }
    out
}

impl InterfaceView {
    /// Flattens an interface with its addresses and the hops of its cable trace.
    pub fn build(i: Interface, ips: Vec<IpAddress>, trace: Vec<Json>) -> (r: Self)
        ensures
            opt_text(r.device) == opt_label(i.device),
            r.name == i.name,
            r.enabled == i.enabled,
            opt_text(r.type_) == opt_choice_label(i.type_),
            r.mtu == i.mtu,
            opt_text(r.mac_address) == kept_text(i.mac_address),
            opt_text(r.mode) == opt_choice_label(i.mode),
            opt_text(r.untagged_vlan) == opt_label(i.untagged_vlan),
            texts(r.tagged_vlans@) == labels(i.tagged_vlans@),
            opt_text(r.cable) == opt_label(i.cable),
            texts(r.connected_to@) == endpoint_labels(i.connected_endpoints),
            opt_text(r.description) == kept_text(i.description),
            texts(r.ip_addresses@) == addresses(ips@),
            texts(r.trace@) == trace_lines(trace@),
            texts(r.diagram@) == drawing(trace@).lines,
            texts(r.tags@) == slugs(i.tags@),
            r.custom_fields@ == shown_fields(i.custom_fields),
            r.rows() == Self::rows_of(i),
    {
        proof {
            reveal(InterfaceView::rows);
            reveal(InterfaceView::rows_of);
        }
        InterfaceView {
            device: brief_label(&i.device),
            name: i.name,
            enabled: i.enabled,
            type_: choice_label_of(&i.type_),
            mtu: i.mtu,
            mac_address: keep_text(i.mac_address),
            mode: choice_label_of(&i.mode),
            untagged_vlan: brief_label(&i.untagged_vlan),
            tagged_vlans: labels_of(&i.tagged_vlans),
            cable: brief_label(&i.cable),
            connected_to: endpoints_of(&i.connected_endpoints),
            description: keep_text(i.description),
            ip_addresses: addresses_of(ips),
            trace: format_trace(&trace),
            diagram: format_trace_diagram(&trace),
            tags: slugs_of(&i.tags),
            custom_fields: fields(i.custom_fields),
        }
    }

    /// The attribute rows shown, in order.
    #[verifier::opaque]
    pub open spec fn rows(self) -> Seq<Row> {
        no_rows()
            + opt_row("device"@, opt_text(self.device))
            + row("name"@, self.name@)
            + flag_row("enabled"@, self.enabled)
            + opt_row("type"@, opt_text(self.type_))
            + count_row("mtu"@, widened(self.mtu))
            + opt_row("mac"@, opt_text(self.mac_address))
            + opt_row("mode"@, opt_text(self.mode))
            + opt_row("untagged_vlan"@, opt_text(self.untagged_vlan))
            + opt_row("cable"@, opt_text(self.cable))
            + opt_row("description"@, opt_text(self.description))
            + list_row("tags"@, texts(self.tags@))
            + field_rows(self.custom_fields@)
    }

    /// The attribute rows shown of an interface.
    #[verifier::opaque]
    pub open spec fn rows_of(i: Interface) -> Seq<Row> {
        no_rows()
            + opt_row("device"@, opt_label(i.device))
            + row("name"@, i.name@)
            + flag_row("enabled"@, i.enabled)
            + opt_row("type"@, opt_choice_label(i.type_))
            + count_row("mtu"@, widened(i.mtu))
            + opt_row("mac"@, kept_text(i.mac_address))
            + opt_row("mode"@, opt_choice_label(i.mode))
            + opt_row("untagged_vlan"@, opt_label(i.untagged_vlan))
            + opt_row("cable"@, opt_label(i.cable))
            + opt_row("description"@, kept_text(i.description))
            + list_row("tags"@, slugs(i.tags@))
            + field_rows(shown_fields(i.custom_fields))
    }

    fn attributes(&self) -> (r: String)
        ensures
            r@ == rendered(self.rows()),
    {
        proof {
            reveal(InterfaceView::rows);
        }
        let mut kv = KeyValues::new();
        kv.push_opt("device", &self.device);
        kv.push("name", self.name.as_str());
        kv.push_flag("enabled", self.enabled);
        kv.push_opt("type", &self.type_);
        kv.push_count("mtu", widen(self.mtu));
        kv.push_opt("mac", &self.mac_address);
        kv.push_opt("mode", &self.mode);
        kv.push_opt("untagged_vlan", &self.untagged_vlan);
        kv.push_opt("cable", &self.cable);
        kv.push_opt("description", &self.description);
        kv.push_list("tags", &self.tags);
        append(&mut kv, &self.custom_fields);
        kv.render()
    }

    /// Renders the attributes and all sections.
    pub fn to_plain(&self) -> (r: String)
        ensures
            r@ == rendered(self.rows()) + section_text("Tagged VLANs"@, texts(self.tagged_vlans@))
                + section_text("Connected To"@, texts(self.connected_to@)) + section_text(
                "Cable Path"@,
                texts(self.diagram@),
            ) + section_text("IP Addresses"@, texts(self.ip_addresses@)),
    {
        let mut out = self.attributes();
        let vlans = section("Tagged VLANs", &self.tagged_vlans);
        out.append(vlans.as_str());
        let ends = section("Connected To", &self.connected_to);
        out.append(ends.as_str());
        let path = section("Cable Path", &self.diagram);
        out.append(path.as_str());
        let ips = section("IP Addresses", &self.ip_addresses);
        out.append(ips.as_str());
        out
    }

    /// Renders the attributes and the sections, without the cable path.
    pub fn to_summary_plain(&self) -> (r: String)
        ensures
            r@ == rendered(self.rows()) + section_text("Tagged VLANs"@, texts(self.tagged_vlans@))
                + section_text("Connected To"@, texts(self.connected_to@)) + section_text(
                "IP Addresses"@,
                texts(self.ip_addresses@),
            ),
    {
        let mut out = self.attributes();
        let vlans = section("Tagged VLANs", &self.tagged_vlans);
        out.append(vlans.as_str());
        let ends = section("Connected To", &self.connected_to);
        out.append(ends.as_str());
        let ips = section("IP Addresses", &self.ip_addresses);
        out.append(ips.as_str());
        out
    }
}

// ===== Laws ==============================================================

/// The texts that are there, of two lists one behind the other, are those of the one
/// and then those of the other; what is there stays, and what is not adds nothing.
pub proof fn presence_is_item_by_item(
    front: Seq<Option<Text>>,
    back: Seq<Option<Text>>,
    item: Option<Text>,
)
    ensures
        present(front + back) == present(front) + present(back),
        present(Seq::empty()) == Seq::<Text>::empty(),
        item is Some ==> present(seq![item]) == seq![item->0],
        item is None ==> present(seq![item]) == Seq::<Text>::empty(),
    decreases back.len(),
{
    let one = seq![item];
    assert(one.drop_last() =~= Seq::empty());
    assert(one.last() == item);
    assert(Seq::<Text>::empty().push(item->0) =~= seq![item->0]);
    if back.len() == 0 {
        assert(front + back =~= front);
        assert(present(front) + Seq::<Text>::empty() =~= present(front));
    } else {
        presence_is_item_by_item(front, back.drop_last(), item);
        assert((front + back).drop_last() =~= front + back.drop_last());
        assert((front + back).last() == back.last());
        assert(present(front + back) =~= present(front) + present(back));
    }
}

/// A termination is labelled by its display text, or its name when it has no display
/// text, behind its device's; one without either has no label.
pub proof fn terminations_are_labelled(v: Json)
    ensures
        ({
            let own = match v.at("display"@) {
                Some(x) => x.string(),
                None => match v.at("name"@) {
                    Some(x) => x.string(),
                    None => None,
                },
            };
            let device = match v.at("device"@) {
                Some(d) => match d.at("display"@) {
                    Some(x) => x.string(),
                    None => match d.at("name"@) {
                        Some(x) => x.string(),
                        None => None,
                    },
                },
                None => None,
            };
            &&& termination_name(v) is Some <==> own is Some
            &&& own is Some && device is None ==> termination_name(v)->0 == own->0
            &&& own is Some && device is Some ==> termination_name(v)->0 == device->0 + " "@ + own->0
        }),
        !(v is Array) ==> end_labels(Some(v)) == match termination_name(v) {
            Some(t) => t,
            None => Seq::empty(),
        },
        end_labels(None).len() == 0,
        v is Array && v->items@.len() == 1 ==> end_labels(Some(v)) == match termination_name(
            v->items@[0],
        ) {
            Some(t) => t,
            None => Seq::empty(),
        },
        v is Array ==> end_labels(Some(v)) == joined(
            present(Seq::new(v->items@.len(), |k: int| termination_name(v->items@[k]))),
            ", "@,
        ),
{
    if v is Array && v->items@.len() == 1 {
        let names = termination_names(v->items@);
        assert(names =~= seq![termination_name(v->items@[0])]);
        presence_is_item_by_item(Seq::empty(), Seq::empty(), names[0]);
    }
    if v is Array {
        assert(termination_names(v->items@) =~= Seq::new(
            v->items@.len(),
            |k: int| termination_name(v->items@[k]),
        ));
    }
}

/// A cable reads as what is known of it: its label, type, length and status, in that
/// order; and as `cable` when nothing is.
pub proof fn cables_read_as_what_is_known(v: Json)
    ensures
        cable_text(None) == "cable"@,
        ({
            let name = match v.at("display"@) {
                Some(x) => x.string(),
                None => match v.at("label"@) {
                    Some(x) => x.string(),
                    None => None,
                },
            };
            let label = if name is Some && name->0.len() > 0 {
                name
            } else {
                None
            };
            let parts = present(
                seq![
                    label,
                    choice_name(v.at("type"@)),
                    cable_length(v),
                    choice_name(v.at("status"@)),
                ],
            );
            &&& cable_name(v) == label
            &&& parts.len() == 0 ==> cable_text(Some(v)) == "cable"@
            &&& parts.len() > 0 ==> cable_text(Some(v)) == joined(parts, " · "@)
        }),
        ({
            let unit = match v.at("length_unit"@) {
                Some(u) => match u.at("value"@) {
                    Some(x) => match x.string() {
                        Some(t) => t,
                        None => match u.string() {
                            Some(t) => t,
                            None => Seq::empty(),
                        },
                    },
                    None => match u.string() {
                        Some(t) => t,
                        None => Seq::empty(),
                    },
                },
                None => Seq::empty(),
            };
            &&& cable_length(v) is Some <==> v.at("length"@) is Some && v.at("length"@)->0 is Number
            &&& cable_length(v) is Some ==> cable_length(v)->0
                == v.at("length"@)->0->Number_0.decimal@ + unit
        }),
{
}

/// A choice is named by its label, else by its value, else by itself when it is a
/// string; an empty name counts as none.
pub proof fn choices_are_named(v: Json)
    ensures
        choice_name(None) is None,
        ({
            let inner = match v.at("label"@) {
                Some(x) => x.string(),
                None => match v.at("value"@) {
                    Some(x) => x.string(),
                    None => None,
                },
            };
            let found = if inner is Some {
                inner
            } else {
                v.string()
            };
            &&& choice_name(Some(v)) is Some <==> found is Some && found->0.len() > 0
            &&& choice_name(Some(v)) is Some ==> choice_name(Some(v)) == found
        }),
{
}

/// A diagram grows by one hop at a time and keeps what it has. A hop that is no list or
/// has nothing at either end adds nothing. Any other adds its cable: the line directly
/// above the cable is the hop's own near end, and the line directly below is its far
/// end, where it has them. Its near end is drawn anew unless the hop before ended at
/// it, and then it is not drawn twice.
pub proof fn diagrams_grow_hop_by_hop(hops: Seq<Json>, hop: Json)
    ensures
        ({
            let old_lines = drawing(hops).lines;
            let lines = drawing(hops.push(hop)).lines;
            let items = hop.array()->0;
            let near = if items.len() > 0 {
                end_labels(Some(items[0]))
            } else {
                Seq::empty()
            };
            let far = if items.len() > 2 {
                end_labels(Some(items[2]))
            } else {
                Seq::empty()
            };
            let cable = if items.len() > 1 {
                cable_text(Some(items[1]))
            } else {
                "cable"@
            };
            let p = lines.len() - 3 - if far.len() > 0 {
                1int
            } else {
                0int
            };
            &&& old_lines.len() <= lines.len() && lines.take(old_lines.len() as int) == old_lines
            &&& (hop.array() is None || (near.len() == 0 && far.len() == 0)) ==> lines == old_lines
            &&& hop.array() is Some && (near.len() > 0 || far.len() > 0) ==> {
                &&& p == old_lines.len() || p == old_lines.len() + 1
                &&& p == old_lines.len() + 1 ==> near.len() > 0
                &&& near.len() > 0 ==> p > 0 && lines[p - 1] == near
                &&& lines[p] == "  │"@
                &&& lines[p + 1] == "  ┿ "@ + cable
                &&& lines[p + 2] == "  │"@
                &&& far.len() > 0 ==> lines[p + 3] == far
                &&& hops.len() == 0 && near.len() > 0 ==> p == 1
            }
        }),
        drawing(Seq::empty()).lines.len() == 0,
{
    let next = hops.push(hop);
    assert(next.drop_last() =~= hops);
    assert(next.last() == hop);
    let old_lines = drawing(hops).lines;
    let lines = drawing(next).lines;
    far_is_last_line(hops);
    assert(lines.take(old_lines.len() as int) =~= old_lines);
}

proof fn far_is_last_line(hops: Seq<Json>)
    ensures
        drawing(hops).far is Some ==> drawing(hops).lines.len() > 0 && drawing(hops).lines.last()
            == drawing(hops).far->0 && drawing(hops).far->0.len() > 0,
    decreases hops.len(),
{
    if hops.len() > 0 {
        far_is_last_line(hops.drop_last());
    }
}

/// When a hop starts where the hop before it ended, that end is drawn once; when it
/// starts elsewhere, as behind a patch panel, both ends are drawn.
pub proof fn shared_ends_are_drawn_once(hops: Seq<Json>, one: Json, two: Json)
    requires
        one.array() is Some && one.array()->0.len() > 2,
        two.array() is Some && two.array()->0.len() > 2,
        end_labels(Some(one.array()->0[2])).len() > 0,
        end_labels(Some(two.array()->0[0])).len() > 0,
    ensures
        ({
            let far = end_labels(Some(one.array()->0[2]));
            let near = end_labels(Some(two.array()->0[0]));
            let end = end_labels(Some(two.array()->0[2]));
            let added = drawing(hops.push(one).push(two)).lines.len() - drawing(
                hops.push(one),
            ).lines.len();
            added == 3 + (if far == near {
                0int
            } else {
                1int
            }) + (if end.len() > 0 {
                1int
            } else {
                0int
            })
        }),
{
    assert(hops.push(one).drop_last() =~= hops);
    assert(hops.push(one).push(two).drop_last() =~= hops.push(one));
    assert(drawing(hops.push(one)).far == Some(end_labels(Some(one.array()->0[2]))));
}

proof fn diagram_keeps_its_start(hops: Seq<Json>, n: int)
    requires
        0 <= n <= hops.len(),
    ensures
        drawing(hops.take(n)).lines.len() <= drawing(hops).lines.len(),
        drawing(hops).lines.take(drawing(hops.take(n)).lines.len() as int) == drawing(
            hops.take(n),
        ).lines,
    decreases hops.len() - n,
{
    if n == hops.len() {
        assert(hops.take(n) =~= hops);
        assert(drawing(hops).lines.take(drawing(hops).lines.len() as int) =~= drawing(hops).lines);
    } else {
        diagram_keeps_its_start(hops, n + 1);
        diagrams_grow_hop_by_hop(hops.take(n), hops[n]);
        assert(hops.take(n).push(hops[n]) =~= hops.take(n + 1));
        let all = drawing(hops).lines;
        let mid = drawing(hops.take(n + 1)).lines;
        let start = drawing(hops.take(n)).lines;
        assert(all.take(start.len() as int) =~= mid.take(start.len() as int));
    }
}

/// Every hop of a trace stands in the diagram, in the order of the trace: its cable,
/// with its own near end on the line directly above and its far end on the line
/// directly below, where it has them.
pub proof fn every_hop_is_drawn(hops: Seq<Json>, i: int)
    requires
        0 <= i < hops.len(),
        hops[i].array() is Some,
        hops[i].array()->0.len() > 2,
        end_labels(Some(hops[i].array()->0[0])).len() > 0 || end_labels(
            Some(hops[i].array()->0[2]),
        ).len() > 0,
    ensures
        ({
            let lines = drawing(hops).lines;
            let items = hops[i].array()->0;
            let near = end_labels(Some(items[0]));
            let far = end_labels(Some(items[2]));
            let before = drawing(hops.take(i)).lines.len() as int;
            let behind = drawing(hops.take(i + 1)).lines.len() as int;
            let p = behind - 3 - if far.len() > 0 {
                1int
            } else {
                0int
            };
            &&& before <= p < behind <= lines.len()
            &&& near.len() > 0 ==> p > 0 && lines[p - 1] == near
            &&& lines[p] == "  │"@
            &&& lines[p + 1] == "  ┿ "@ + cable_text(Some(items[1]))
            &&& lines[p + 2] == "  │"@
            &&& far.len() > 0 ==> p + 3 < lines.len() && lines[p + 3] == far
        }),
{
    diagrams_grow_hop_by_hop(hops.take(i), hops[i]);
    assert(hops.take(i).push(hops[i]) =~= hops.take(i + 1));
    diagram_keeps_its_start(hops, i + 1);
    let all = drawing(hops).lines;
    let mid = drawing(hops.take(i + 1)).lines;
    assert(forall|k: int| 0 <= k < mid.len() ==> #[trigger] all.take(mid.len() as int)[k] == all[k]);
    assert(forall|k: int| 0 <= k < mid.len() ==> #[trigger] mid[k] == all[k]) by {
        assert forall|k: int| 0 <= k < mid.len() implies #[trigger] mid[k] == all[k] by {
            assert(all.take(mid.len() as int)[k] == all[k]);
        }
    }
}

/// The line of a hop names its near end, its cable and its far end, in that order; a
/// hop that is no list, or has neither ends nor a cable label, has no line.
pub proof fn hop_lines_name_both_ends(hop: Json)
    ensures
        hop.array() is None ==> hop_line(hop) is None,
        hop.array() is Some && hop.array()->0.len() > 2 ==> {
            let items = hop.array()->0;
            let near = end_labels(Some(items[0]));
            let far = end_labels(Some(items[2]));
            let line = match cable_name(items[1]) {
                Some(c) => near + (" --["@ + c + "]-- "@) + far,
                None => near + " -- "@ + far,
            };
            &&& hop_line(hop) is Some ==> hop_line(hop)->0 == line
            &&& hop_line(hop) is None ==> trim(line) == "--"@
        },
{
}

/// The lines of a trace are those of its hops, in order.
pub proof fn traces_are_read_hop_by_hop(front: Seq<Json>, back: Seq<Json>, hop: Json)
    ensures
        trace_lines(front + back) == trace_lines(front) + trace_lines(back),
        hop_line(hop) is Some ==> trace_lines(seq![hop]) == seq![hop_line(hop)->0],
        hop_line(hop) is None ==> trace_lines(seq![hop]) == Seq::<Text>::empty(),
{
    assert(hop_lines(front + back) =~= hop_lines(front) + hop_lines(back));
    assert(hop_lines(seq![hop]) =~= seq![hop_line(hop)]);
    presence_is_item_by_item(hop_lines(front), hop_lines(back), hop_line(hop));
}

/// The rows of an interface: each field that is set is shown under its own key and with
/// its own value, and nothing else is shown.
pub proof fn interface_rows_show_the_fields(i: Interface, k: Text, v: Text)
    ensures
        InterfaceView::rows_of(i).contains((k, v)) <==> {
            ||| (i.device is Some && k == "device"@ && v == i.device->0.label_text())
            ||| (k == "name"@ && v == i.name@)
            ||| (i.enabled is Some && k == "enabled"@
                && v == if i.enabled->0 { "true"@ } else { "false"@ })
            ||| (i.type_ is Some && k == "type"@ && v == i.type_->0.label@)
            ||| (i.mtu is Some && k == "mtu"@ && v == crate::number::decimal_text(i.mtu->0 as nat))
            ||| (i.mac_address is Some && i.mac_address->0@.len() > 0 && k == "mac"@
                && v == i.mac_address->0@)
            ||| (i.mode is Some && k == "mode"@ && v == i.mode->0.label@)
            ||| (i.untagged_vlan is Some && k == "untagged_vlan"@
                && v == i.untagged_vlan->0.label_text())
            ||| (i.cable is Some && k == "cable"@ && v == i.cable->0.label_text())
            ||| (i.description is Some && i.description->0@.len() > 0 && k == "description"@
                && v == i.description->0@)
            ||| (slugs(i.tags@).len() > 0 && k == "tags"@
                && v == crate::text::joined(slugs(i.tags@), ", "@))
            ||| {
                &&& i.custom_fields is Object
                &&& exists|m: crate::json::Member|
                    {
                        &&& #[trigger] i.custom_fields->members@.contains(m)
                        &&& !(m.value is Null)
                        &&& !(m.value is Text && m.value->Text_0@.len() == 0)
                        &&& k == "cf."@ + m.name@
                        &&& v == crate::domain::custom::shown_value(m.value)
                    }
            }
        },
{
    reveal(InterfaceView::rows_of);
    crate::output::rows_are_found_where_they_were_put();
    crate::domain::custom::custom_fields_have_rows(i.custom_fields, k, v);
}

} // verus!
