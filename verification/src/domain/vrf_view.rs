//! VRF views: the VRF itself, and its prefixes and addresses.

use vstd::prelude::*;
use vstd::string::StringExecFns;

use crate::domain::custom::{append, field_rows, fields, shown_fields};
use crate::domain::util::{
    keep_text,
    kept_text,
    lead_all,
    led,
    pad_right,
    padded,
    repeat,
    repeated,
};
use crate::json::Member;
use crate::netbox::models::{label_of, opt_label, slugs, slugs_of, BriefObject, Vrf};
use crate::number::{decimal, decimal_text};
use crate::output::{
    count_row,
    flag_row,
    list_row,
    no_rows,
    opt_row,
    rendered,
    row,
    KeyValues,
    Row,
};
use crate::text::{cat2, cat3, cat4, opt_text, texts, trim_end, trimmed_end, Text};

verus! {

/// A reference to a route target.
#[derive(Debug)]
pub struct RouteTargetRef {
    pub id: u64,
    pub name: String,
}

impl RouteTargetRef {
    /// The reference to a nested route target.
    pub fn from_brief(b: BriefObject) -> (r: Self)
        ensures
            r.id == b.id,
            r.name@ == b.label_text(),
    {
        RouteTargetRef { id: b.id, name: b.label() }
    }
}

/// Whether references are those of nested objects, one each.
pub open spec fn refer_to(refs: Seq<RouteTargetRef>, objects: Seq<BriefObject>) -> bool {
    refs.len() == objects.len() && forall|i: int|
        0 <= i < refs.len() ==> (#[trigger] refs[i]).id == objects[i].id && refs[i].name@
            == objects[i].label_text()
}

/// The names of references.
pub open spec fn target_names(refs: Seq<RouteTargetRef>) -> Seq<Text> {
    Seq::new(refs.len(), |i: int| refs[i].name@)
}

fn refs_of(objects: Vec<BriefObject>) -> (r: Vec<RouteTargetRef>)
    ensures
        refer_to(r@, objects@),
{
    let ghost all = objects@;
    let mut out: Vec<RouteTargetRef> = Vec::new();
    for b in it: objects
        invariant
            it.seq() == all,
            out@.len() == it.index(),
            forall|j: int|
                0 <= j < out@.len() ==> (#[trigger] out@[j]).id == all[j].id && out@[j].name@
                    == all[j].label_text(),
    {
        out.push(RouteTargetRef::from_brief(b));
    }
    out
}

fn names_of(refs: &Vec<RouteTargetRef>) -> (r: Vec<String>)
    ensures
        texts(r@) == target_names(refs@),
{
    let mut out: Vec<String> = Vec::new();
    let mut i: usize = 0;
    while i < refs.len()
        invariant
            i <= refs.len(),
            out.len() == i,
            forall|j: int| 0 <= j < i ==> (#[trigger] out@[j])@ == refs@[j].name@,
        decreases refs.len() - i,
    {
        out.push(refs[i].name.clone());
        i = i + 1;
    }
    proof {
        assert(texts(out@) =~= target_names(refs@));
    }
    out
}

/// Joins the names of route targets.
pub fn join_target_names(targets: &Vec<RouteTargetRef>) -> (r: String)
    ensures
        r@ == crate::text::joined(target_names(targets@), ", "@),
{
    let names = names_of(targets);
    crate::text::join(&names, ", ")
}

/// A VRF, flattened for display.
#[derive(Debug)]
pub struct VrfView {
    pub id: u64,
    pub name: String,
    pub rd: Option<String>,
    pub tenant: Option<String>,
    pub enforce_unique: Option<bool>,
    pub import_targets: Vec<RouteTargetRef>,
    pub export_targets: Vec<RouteTargetRef>,
    pub prefix_count: Option<u64>,
    pub ipaddress_count: Option<u64>,
    pub description: Option<String>,
    pub tags: Vec<String>,
    pub custom_fields: Vec<Member>,
}

impl VrfView {
    /// Whether this view carries what a VRF says.
    pub open spec fn is_of(self, v: Vrf) -> bool {
        &&& self.id == v.id
        &&& self.name == v.name
        &&& opt_text(self.rd) == kept_text(v.rd)
        &&& opt_text(self.tenant) == opt_label(v.tenant)
        &&& self.enforce_unique == v.enforce_unique
        &&& refer_to(self.import_targets@, v.import_targets@)
        &&& refer_to(self.export_targets@, v.export_targets@)
        &&& self.prefix_count == v.prefix_count
        &&& self.ipaddress_count == v.ipaddress_count
        &&& opt_text(self.description) == kept_text(v.description)
        &&& texts(self.tags@) == slugs(v.tags@)
        &&& self.custom_fields@ == shown_fields(v.custom_fields)
    }

    /// Flattens a VRF.
    pub fn from_model(v: Vrf) -> (r: Self)
        ensures
            r.is_of(v),
    {
        VrfView {
            id: v.id,
            name: v.name,
            rd: keep_text(v.rd),
            tenant: label_of(&v.tenant),
            enforce_unique: v.enforce_unique,
            import_targets: refs_of(v.import_targets),
            export_targets: refs_of(v.export_targets),
            prefix_count: v.prefix_count,
            ipaddress_count: v.ipaddress_count,
            description: keep_text(v.description),
            tags: slugs_of(&v.tags),
            custom_fields: fields(v.custom_fields),
        }
    }

    /// The rows shown, in order.
    #[verifier::opaque]
    pub open spec fn rows(self) -> Seq<Row> {
        no_rows()
            + row("name"@, self.name@)
            + opt_row("rd"@, opt_text(self.rd))
            + opt_row("tenant"@, opt_text(self.tenant))
            + flag_row("enforce_unique"@, self.enforce_unique)
            + list_row("import_targets"@, target_names(self.import_targets@))
            + list_row("export_targets"@, target_names(self.export_targets@))
            + count_row("prefixes"@, self.prefix_count)
            + count_row("addresses"@, self.ipaddress_count)
            + opt_row("description"@, opt_text(self.description))
            + list_row("tags"@, texts(self.tags@))
            + field_rows(self.custom_fields@)
    }

    /// Renders the view as rows.
    pub fn to_key_values(&self) -> (r: KeyValues)
        ensures
            r@ == self.rows(),
    {
        proof {
            reveal(VrfView::rows);
        }
        let mut kv = KeyValues::new();
        kv.push("name", self.name.as_str());
        kv.push_opt("rd", &self.rd);
        kv.push_opt("tenant", &self.tenant);
        kv.push_flag("enforce_unique", self.enforce_unique);
        let import = names_of(&self.import_targets);
        kv.push_list("import_targets", &import);
        let export = names_of(&self.export_targets);
        kv.push_list("export_targets", &export);
        kv.push_count("prefixes", self.prefix_count);
        kv.push_count("addresses", self.ipaddress_count);
        kv.push_opt("description", &self.description);
        kv.push_list("tags", &self.tags);
        append(&mut kv, &self.custom_fields);
        kv
    }
}

/// A VRF with its prefixes as a tree, its addresses, and how many there are of
/// each.
#[derive(Debug)]
pub struct VrfDetail {
    pub summary: VrfView,
    pub prefixes: Vec<VrfPrefixRow>,
    pub addresses: Vec<VrfAddressRow>,
    pub prefix_total: u64,
    pub address_total: u64,
}

/// One prefix in a VRF's tree.
#[derive(Debug)]
pub struct VrfPrefixRow {
    pub id: u64,
    pub prefix: String,
    pub depth: u64,
    pub status: Option<String>,
    pub description: String,
    pub utilization: Option<u8>,
}

/// One address in a VRF.
#[derive(Debug)]
pub struct VrfAddressRow {
    pub id: u64,
    pub address: String,
    pub status: Option<String>,
    pub dns_name: Option<String>,
}

/// How many of seven cells a percentage fills, rounded; over a hundred counts as
/// a hundred.
pub open spec fn filled_cells(pct: u8) -> nat {
    let p = if pct < 100 {
        pct as nat
    } else {
        100
    };
    ((p * 7 + 50) / 100) as nat
}

/// A bar of seven cells.
pub open spec fn cells_text(pct: u8) -> Text {
    repeated("▓"@, filled_cells(pct)) + repeated("░"@, (7 - filled_cells(pct)) as nat)
}

/// Draws a bar of seven cells.
pub fn util_bar(pct: u8) -> (r: String)
    ensures
        r@ == cells_text(pct),
{
    let p: u64 = if pct < 100 {
        pct as u64
    } else {
        100
    };
    let filled: u64 = (p * 7 + 50) / 100;
    let full = repeat("▓", filled);
    let free = repeat("░", 7 - filled);
    cat2(full.as_str(), free.as_str())
}

impl VrfPrefixRow {
    /// What stands at the end of the row: how full the prefix is, else its
    /// description.
    pub open spec fn tail(self) -> Text {
        match self.utilization {
            Some(pct) => cells_text(pct) + "  "@ + decimal_text(pct as nat) + "%"@,
            None => self.description@,
        }
    }

    /// The status, or nothing.
    pub open spec fn status_text(self) -> Text {
        match self.status {
            Some(s) => s@,
            None => Seq::empty(),
        }
    }

    /// The row: the prefix indented by its depth, its status, its tail, in
    /// columns.
    pub open spec fn line(self) -> Text {
        trim_end(
            padded(repeated("  "@, self.depth as nat) + self.prefix@, 28) + padded(
                self.status_text(),
                10,
            ) + self.tail(),
        )
    }

    /// Renders the row.
    pub fn display_line(&self) -> (r: String)
        ensures
            r@ == self.line(),
    {
        let indent = repeat("  ", self.depth);
        let label = cat2(indent.as_str(), self.prefix.as_str());
        let first = pad_right(label.as_str(), 28);
        let status = match &self.status {
            Some(s) => s.clone(),
            None => String::new(),
        };
        let second = pad_right(status.as_str(), 10);
        let tail = match self.utilization {
            Some(pct) => {
                let bar = util_bar(pct);
                let n = decimal(pct as u64);
                cat4(bar.as_str(), "  ", n.as_str(), "%")
            },
            None => self.description.clone(),
        };
        let whole = cat3(first.as_str(), second.as_str(), tail.as_str());
        trimmed_end(whole.as_str())
    }
}

impl VrfAddressRow {
    /// What stands behind the address: its DNS name, else its status.
    pub open spec fn note(self) -> Text {
        if crate::text::is_some_nonempty(opt_text(self.dns_name)) {
            self.dns_name->0@
        } else {
            match self.status {
                Some(s) => s@,
                None => Seq::empty(),
            }
        }
    }

    /// The row: the address and its note, in columns.
    pub open spec fn line(self) -> Text {
        trim_end(padded(self.address@, 24) + self.note())
    }

    fn note_text(&self) -> (r: String)
        ensures
            r@ == self.note(),
    {
        if let Some(d) = &self.dns_name {
            if !d.as_str().is_empty() {
                return d.clone();
            }
        }
        match &self.status {
            Some(s) => s.clone(),
            None => String::new(),
        }
    }

    /// Renders the row.
    pub fn display_line(&self) -> (r: String)
        ensures
            r@ == self.line(),
    {
        let first = pad_right(self.address.as_str(), 24);
        let note = self.note_text();
        let whole = cat2(first.as_str(), note.as_str());
        trimmed_end(whole.as_str())
    }
}

/// The lines of a list of prefixes.
pub open spec fn prefix_lines(rows: Seq<VrfPrefixRow>) -> Seq<Text> {
    Seq::new(rows.len(), |i: int| rows[i].line())
}

/// The lines of a list of addresses.
pub open spec fn address_lines(rows: Seq<VrfAddressRow>) -> Seq<Text> {
    Seq::new(rows.len(), |i: int| rows[i].line())
}

/// A titled list with its total; a note says how many are not listed.
pub open spec fn counted_section(title: Text, lines: Seq<Text>, total: u64) -> Text {
    "\n\n"@ + title + " ("@ + decimal_text(total as nat) + ")"@ + if lines.len() == 0 {
        "\n  (none)"@
    } else {
        led("\n  "@, lines) + if total > lines.len() {
            "\n  … "@ + decimal_text((total - lines.len()) as nat) + " more"@
        } else {
            Seq::empty()
        }
    }
}

fn render_counted(title: &str, lines: &Vec<String>, total: u64) -> (r: String)
    ensures
        r@ == counted_section(title@, texts(lines@), total),
{
    let n = decimal(total);
    let mut out = cat4("\n\n", title, " (", n.as_str());
    out.append(")");
    let ghost head = out@;
    if lines.is_empty() {
        out.append("\n  (none)");
        return out;
    }
    let mut body = lead_all("\n  ", lines);
    let ghost listed = body@;
    let shown: u64 = lines.len() as u64;
    if total > shown {
        let rest = decimal(total - shown);
        let more = cat3("\n  … ", rest.as_str(), " more");
        body.append(more.as_str());
    } else {
        proof {
            assert(listed =~= listed + Seq::empty());
        }
    }
    out.append(body.as_str());
    out
}

impl VrfDetail {
    /// The text shown: the VRF, then its prefixes, then its addresses.
    pub open spec fn plain(self) -> Text {
        rendered(self.summary.rows()) + counted_section(
            "Prefixes"@,
            prefix_lines(self.prefixes@),
            self.prefix_total,
        ) + counted_section("Addresses"@, address_lines(self.addresses@), self.address_total)
    }

    /// Renders the whole detail.
    pub fn to_plain(&self) -> (r: String)
        ensures
            r@ == self.plain(),
    {
        let kv = self.summary.to_key_values();
        let mut out = kv.render();
        let plines = prefix_texts(&self.prefixes);
        let prefixes = render_counted("Prefixes", &plines, self.prefix_total);
        out.append(prefixes.as_str());
        let alines = address_texts(&self.addresses);
        let addresses = render_counted("Addresses", &alines, self.address_total);
        out.append(addresses.as_str());
        out
    }
}

/// Renders a list of prefixes.
pub fn prefix_texts(rows: &Vec<VrfPrefixRow>) -> (r: Vec<String>)
    ensures
        texts(r@) == prefix_lines(rows@),
{
    let mut out: Vec<String> = Vec::new();
    let mut i: usize = 0;
    while i < rows.len()
        invariant
            i <= rows.len(),
            out.len() == i,
            forall|j: int| 0 <= j < i ==> (#[trigger] out@[j])@ == rows@[j].line(),
        decreases rows.len() - i,
    {
        out.push(rows[i].display_line());
        i = i + 1;
    }
    proof {
        assert(texts(out@) =~= prefix_lines(rows@));
    }
    out
}

/// Renders a list of addresses.
pub fn address_texts(rows: &Vec<VrfAddressRow>) -> (r: Vec<String>)
    ensures
        texts(r@) == address_lines(rows@),
{
    let mut out: Vec<String> = Vec::new();
    let mut i: usize = 0;
    while i < rows.len()
        invariant
            i <= rows.len(),
            out.len() == i,
            forall|j: int| 0 <= j < i ==> (#[trigger] out@[j])@ == rows@[j].line(),
        decreases rows.len() - i,
    {
        out.push(rows[i].display_line());
        i = i + 1;
    }
    proof {
        assert(texts(out@) =~= address_lines(rows@));
    }
    out
}

/// The rows of a VRF: each field that is set is shown under its own key and with
/// its own value, and nothing else is shown.
pub proof fn vrf_rows_show_the_fields(summary: VrfView, k: Text, v: Text)
    ensures
        summary.rows().contains((k, v)) <==> {
            ||| (k == "name"@ && v == summary.name@)
            ||| (summary.rd is Some && k == "rd"@ && v == summary.rd->0@)
            ||| (summary.tenant is Some && k == "tenant"@ && v == summary.tenant->0@)
            ||| (summary.enforce_unique is Some && k == "enforce_unique"@
                && v == if summary.enforce_unique->0 { "true"@ } else { "false"@ })
            ||| (target_names(summary.import_targets@).len() > 0 && k == "import_targets"@
                && v == crate::text::joined(target_names(summary.import_targets@), ", "@))
            ||| (target_names(summary.export_targets@).len() > 0 && k == "export_targets"@
                && v == crate::text::joined(target_names(summary.export_targets@), ", "@))
            ||| (summary.prefix_count is Some && k == "prefixes"@
                && v == crate::number::decimal_text(summary.prefix_count->0 as nat))
            ||| (summary.ipaddress_count is Some && k == "addresses"@
                && v == crate::number::decimal_text(summary.ipaddress_count->0 as nat))
            ||| (summary.description is Some && k == "description"@ && v == summary.description->0@)
            ||| (texts(summary.tags@).len() > 0 && k == "tags"@
                && v == crate::text::joined(texts(summary.tags@), ", "@))
            ||| (field_rows(summary.custom_fields@).contains((k, v)))
        },
{
    reveal(VrfView::rows);
    crate::output::rows_are_found_where_they_were_put();
}

/// A VRF's view keeps what the VRF says, its route targets by id and label, in order.
pub proof fn vrf_views_keep_their_targets(s: VrfView, v: Vrf, i: int)
    requires
        s.is_of(v),
    ensures
        s.id == v.id && s.name == v.name,
        s.rd is Some <==> v.rd is Some && v.rd->0@.len() > 0,
        s.rd is Some ==> s.rd->0@ == v.rd->0@,
        s.tenant is Some <==> v.tenant is Some,
        v.tenant is Some ==> s.tenant->0@ == v.tenant->0.label_text(),
        s.enforce_unique == v.enforce_unique,
        s.prefix_count == v.prefix_count && s.ipaddress_count == v.ipaddress_count,
        s.import_targets@.len() == v.import_targets@.len(),
        s.export_targets@.len() == v.export_targets@.len(),
        0 <= i < v.import_targets@.len() ==> s.import_targets@[i].id == v.import_targets@[i].id
            && s.import_targets@[i].name@ == v.import_targets@[i].label_text(),
        0 <= i < v.export_targets@.len() ==> s.export_targets@[i].id == v.export_targets@[i].id
            && s.export_targets@[i].name@ == v.export_targets@[i].label_text(),
{
}

/// The seven cells of a prefix are filled in proportion, to the nearest cell; a full
/// prefix fills them all and an empty one none.
pub proof fn cells_are_filled_in_proportion(pct: u8, more: u8)
    ensures
        filled_cells(pct) <= 7,
        pct <= 100 ==> 100 * filled_cells(pct) <= 7 * pct + 50 && 7 * pct < 100 * filled_cells(pct)
            + 50,
        filled_cells(0) == 0,
        pct >= 100 ==> filled_cells(pct) == 7,
        pct <= more ==> filled_cells(pct) <= filled_cells(more),
        cells_text(pct) == repeated("▓"@, filled_cells(pct)) + repeated(
            "░"@,
            (7 - filled_cells(pct)) as nat,
        ),
{
}

/// A prefix row starts indented by its depth, then tells its status, and ends with how far
/// it is used, or its description where that is unknown; no blanks are left behind it.
/// An address row ends with its DNS name, else with its status.
pub proof fn vrf_rows_read_in_columns(p: VrfPrefixRow, a: VrfAddressRow)
    ensures
        p.utilization is Some && p.status is Some ==> p.line() == trim_end(
            padded(repeated("  "@, p.depth as nat) + p.prefix@, 28) + padded(p.status->0@, 10) + (
            cells_text(p.utilization->0) + "  "@ + decimal_text(p.utilization->0 as nat) + "%"@),
        ),
        p.utilization is None && p.status is Some ==> p.line() == trim_end(
            padded(repeated("  "@, p.depth as nat) + p.prefix@, 28) + padded(p.status->0@, 10)
                + p.description@,
        ),
        p.utilization is None && p.status is None ==> p.line() == trim_end(
            padded(repeated("  "@, p.depth as nat) + p.prefix@, 28) + padded(Seq::empty(), 10)
                + p.description@,
        ),
        a.dns_name is Some && a.dns_name->0@.len() > 0 ==> a.line() == trim_end(
            padded(a.address@, 24) + a.dns_name->0@,
        ),
        (a.dns_name is None || a.dns_name->0@.len() == 0) && a.status is Some ==> a.line()
            == trim_end(padded(a.address@, 24) + a.status->0@),
        (a.dns_name is None || a.dns_name->0@.len() == 0) && a.status is None ==> a.line()
            == trim_end(padded(a.address@, 24) + Seq::<char>::empty()),
{
}

/// A section tells its total, lists its lines and says how many more there are; an empty
/// one says that there are none.
pub proof fn counted_sections_tell_what_is_left_out(title: Text, lines: Seq<Text>, total: u64)
    ensures
        ({
            let head = "\n\n"@ + title + " ("@ + decimal_text(total as nat) + ")"@;
            &&& lines.len() == 0 ==> counted_section(title, lines, total) == head + "\n  (none)"@
            &&& 0 < lines.len() && total <= lines.len() ==> counted_section(title, lines, total)
                == head + led("\n  "@, lines)
            &&& 0 < lines.len() < total ==> counted_section(title, lines, total) == head + led(
                "\n  "@,
                lines,
            ) + "\n  … "@ + decimal_text((total - lines.len()) as nat) + " more"@
        }),
{
    let head = "\n\n"@ + title + " ("@ + decimal_text(total as nat) + ")"@;
    let body = led("\n  "@, lines);
    assert(head + (body + Seq::<char>::empty()) =~= head + body);
    if 0 < lines.len() < total {
        let rest = "\n  … "@ + decimal_text((total - lines.len()) as nat) + " more"@;
        assert(head + (body + rest) =~= head + body + "\n  … "@ + decimal_text(
            (total - lines.len()) as nat,
        ) + " more"@);
    }
}

/// A VRF's text is its rows and then its prefixes and addresses, a line each, in order.
pub proof fn vrf_texts_list_both(d: VrfDetail, i: int)
    ensures
        d.plain() == rendered(d.summary.rows()) + counted_section(
            "Prefixes"@,
            prefix_lines(d.prefixes@),
            d.prefix_total,
        ) + counted_section("Addresses"@, address_lines(d.addresses@), d.address_total),
        prefix_lines(d.prefixes@).len() == d.prefixes@.len(),
        address_lines(d.addresses@).len() == d.addresses@.len(),
        0 <= i < d.prefixes@.len() ==> prefix_lines(d.prefixes@)[i] == d.prefixes@[i].line(),
        0 <= i < d.addresses@.len() ==> address_lines(d.addresses@)[i] == d.addresses@[i].line(),
{
}

/// Route targets are named one by one, in order.
pub proof fn targets_are_named_in_order(refs: Seq<RouteTargetRef>, i: int)
    ensures
        target_names(refs).len() == refs.len(),
        0 <= i < refs.len() ==> target_names(refs)[i] == refs[i].name@,
{
}

} // verus!
