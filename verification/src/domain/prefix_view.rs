//! Prefix view, with child prefixes and contained addresses.

use vstd::prelude::*;
use vstd::string::StringExecFns;

use crate::domain::ip_view::{assigned_of, opt_assigned};
use crate::domain::util::{keep_text, kept_text, repeat, repeated, section, section_text};
use crate::netbox::models::{
    label_of,
    opt_is,
    opt_label,
    opt_value,
    value_of,
    IpAddress,
    Prefix,
    Utilization,
};
use crate::output::{count_row, no_rows, opt_row, rendered, row, KeyValues, Row};
use crate::text::{
    cat3,
    opt_text,
    texts,
    trim,
    trim_end_char,
    trimmed,
    trimmed_end_char,
    Text,
};

verus! {

/// An address listed under a prefix.
#[derive(Debug)]
pub struct PrefixIp {
    pub address: String,
    pub assigned: Option<String>,
}

/// A prefix with its children and contained addresses.
#[derive(Debug)]
pub struct PrefixView {
    pub prefix: String,
    pub status: Option<String>,
    pub vrf: Option<String>,
    pub vlan: Option<String>,
    pub scope: Option<String>,
    pub tenant: Option<String>,
    pub role: Option<String>,
    pub children: Option<u64>,
    pub utilization: Option<Utilization>,
    pub description: Option<String>,
    pub child_prefixes: Vec<String>,
    pub ip_addresses: Vec<PrefixIp>,
}

/// The width of a utilization bar.
pub const BAR_WIDTH: u64 = 16;

/// A bar of sixteen cells, the filled ones first.
pub open spec fn bar_text(filled: u64) -> Text {
    let n = if filled < BAR_WIDTH {
        filled
    } else {
        BAR_WIDTH
    };
    "["@ + repeated("#"@, n as nat) + repeated("-"@, (BAR_WIDTH - n) as nat) + "]"@
}

/// The number in a percentage such as `75%`, without the sign and the whitespace.
pub fn percent_number(s: &str) -> (r: String)
    ensures
        r@ == trim(trim_end_char(trim(s@), '%')),
{
    let outer = trimmed(s);
    let bare = trimmed_end_char(outer.as_str(), '%');
    trimmed(bare.as_str())
}

/// A percentage with its bar, `52% [########--------]`.
pub open spec fn utilization_text(u: Utilization) -> Text {
    u.percent@ + "% "@ + bar_text(u.filled)
}

/// The utilization as it is shown, when it is known.
pub open spec fn opt_utilization(u: Option<Utilization>) -> Option<Text> {
    match u {
        Some(u) => Some(utilization_text(u)),
        None => None,
    }
}

/// Draws a utilization bar.
pub fn pct_bar(filled: u64) -> (r: String)
    ensures
        r@ == bar_text(filled),
{
    let n: u64 = if filled < BAR_WIDTH {
        filled
    } else {
        BAR_WIDTH
    };
    let full = repeat("#", n);
    let free = repeat("-", BAR_WIDTH - n);
    crate::text::cat4("[", full.as_str(), free.as_str(), "]")
}

/// Writes a percentage with its bar.
pub fn format_utilization(u: &Utilization) -> (r: String)
    ensures
        r@ == utilization_text(*u),
{
    let bar = pct_bar(u.filled);
    cat3(u.percent.as_str(), "% ", bar.as_str())
}

/// The scope shown of a prefix: only a site's.
pub open spec fn site_scope(p: Prefix) -> Option<Text> {
    if opt_text(p.scope_type) == Some("dcim.site"@) {
        opt_label(p.scope)
    } else {
        None
    }
}

/// The prefixes of a list, as text.
pub open spec fn cidrs(prefixes: Seq<Prefix>) -> Seq<Text> {
    Seq::new(prefixes.len(), |i: int| prefixes[i].prefix@)
}

/// The prefixes of a list, as text.
pub fn cidrs_of(prefixes: Vec<Prefix>) -> (r: Vec<String>)
    ensures
        texts(r@) == cidrs(prefixes@),
{
    let ghost all = prefixes@;
    let mut out: Vec<String> = Vec::new();
    for p in it: prefixes
        invariant
            it.seq() == all,
            out@.len() == it.index(),
            forall|j: int| 0 <= j < out@.len() ==> (#[trigger] out@[j])@ == all[j].prefix@,
    {
        out.push(p.prefix);
    }
    proof {
        assert(texts(out@) =~= cidrs(all));
    }
    out
}

/// Whether a listed address carries what an address says.
pub open spec fn listed_as(row: PrefixIp, ip: IpAddress) -> bool {
    row.address == ip.address && opt_text(row.assigned) == opt_assigned(ip.assigned_object)
}

/// The line of a listed address: the address, and what it is assigned to.
pub open spec fn address_line(address: Text, assigned: Option<Text>) -> Text {
    match assigned {
        Some(a) => address + "  "@ + a,
        None => address,
    }
}

/// The lines of listed addresses.
pub open spec fn address_lines(rows: Seq<PrefixIp>) -> Seq<Text> {
    Seq::new(rows.len(), |i: int| address_line(rows[i].address@, opt_text(rows[i].assigned)))
}

fn render_addresses(rows: &Vec<PrefixIp>) -> (r: Vec<String>)
    ensures
        texts(r@) == address_lines(rows@),
{
    let mut out: Vec<String> = Vec::new();
    let mut i: usize = 0;
    while i < rows.len()
        invariant
            i <= rows.len(),
            out.len() == i,
            forall|j: int|
                0 <= j < i ==> (#[trigger] out@[j])@ == address_line(
                    rows@[j].address@,
                    opt_text(rows@[j].assigned),
                ),
        decreases rows.len() - i,
    {
        let line = match &rows[i].assigned {
            Some(a) => cat3(rows[i].address.as_str(), "  ", a.as_str()),
            None => rows[i].address.clone(),
        };
        out.push(line);
        i = i + 1;
    }
    proof {
        assert(texts(out@) =~= address_lines(rows@));
    }
    out
}

impl PrefixView {
    /// Flattens a prefix with its children and contained addresses.
    pub fn build(p: Prefix, children: Vec<Prefix>, ips: Vec<IpAddress>) -> (r: Self)
        ensures
            r.prefix == p.prefix,
            opt_text(r.status) == opt_value(p.status),
            opt_text(r.vrf) == opt_label(p.vrf),
            opt_text(r.vlan) == opt_label(p.vlan),
            opt_text(r.scope) == site_scope(p),
            opt_text(r.tenant) == opt_label(p.tenant),
            opt_text(r.role) == opt_label(p.role),
            r.children == p.children,
            r.utilization == p.utilization,
            opt_text(r.description) == kept_text(p.description),
            texts(r.child_prefixes@) == cidrs(children@),
            r.ip_addresses@.len() == ips@.len(),
            forall|i: int| 0 <= i < ips@.len() ==> listed_as(#[trigger] r.ip_addresses@[i], ips@[i]),
            r.rows() == Self::rows_of(p),
    {
        proof {
            reveal(PrefixView::rows);
            reveal(PrefixView::rows_of);
        }
        let scope = if opt_is(&p.scope_type, "dcim.site") {
            label_of(&p.scope)
        } else {
            None
        };
        let ghost all = ips@;
        let mut listed: Vec<PrefixIp> = Vec::new();
        for ip in it: ips
            invariant
                it.seq() == all,
                listed@.len() == it.index(),
                forall|j: int| 0 <= j < listed@.len() ==> listed_as(#[trigger] listed@[j], all[j]),
        {
            let assigned = assigned_of(&ip.assigned_object);
            listed.push(PrefixIp { address: ip.address, assigned });
        }
        PrefixView {
            prefix: p.prefix,
            status: value_of(&p.status),
            vrf: label_of(&p.vrf),
            vlan: label_of(&p.vlan),
            scope,
            tenant: label_of(&p.tenant),
            role: label_of(&p.role),
            children: p.children,
            utilization: p.utilization,
            description: keep_text(p.description),
            child_prefixes: cidrs_of(children),
            ip_addresses: listed,
        }
    }

    /// The header rows shown, in order.
    #[verifier::opaque]
    pub open spec fn rows(self) -> Seq<Row> {
        no_rows()
            + row("prefix"@, self.prefix@)
            + opt_row("status"@, opt_text(self.status))
            + opt_row("vrf"@, opt_text(self.vrf))
            + opt_row("vlan"@, opt_text(self.vlan))
            + opt_row("scope"@, opt_text(self.scope))
            + opt_row("tenant"@, opt_text(self.tenant))
            + opt_row("role"@, opt_text(self.role))
            + count_row("children"@, self.children)
            + opt_row("utilization"@, opt_utilization(self.utilization))
            + opt_row("description"@, opt_text(self.description))
    }

    /// The header rows shown of a prefix.
    #[verifier::opaque]
    pub open spec fn rows_of(p: Prefix) -> Seq<Row> {
        no_rows()
            + row("prefix"@, p.prefix@)
            + opt_row("status"@, opt_value(p.status))
            + opt_row("vrf"@, opt_label(p.vrf))
            + opt_row("vlan"@, opt_label(p.vlan))
            + opt_row("scope"@, site_scope(p))
            + opt_row("tenant"@, opt_label(p.tenant))
            + opt_row("role"@, opt_label(p.role))
            + count_row("children"@, p.children)
            + opt_row("utilization"@, opt_utilization(p.utilization))
            + opt_row("description"@, kept_text(p.description))
    }

    fn header(&self) -> (r: KeyValues)
        ensures
            r@ == self.rows(),
    {
        proof {
            reveal(PrefixView::rows);
        }
        let mut kv = KeyValues::new();
        kv.push("prefix", self.prefix.as_str());
        kv.push_opt("status", &self.status);
        kv.push_opt("vrf", &self.vrf);
        kv.push_opt("vlan", &self.vlan);
        kv.push_opt("scope", &self.scope);
        kv.push_opt("tenant", &self.tenant);
        kv.push_opt("role", &self.role);
        kv.push_count("children", self.children);
        let used = match &self.utilization {
            Some(u) => Some(format_utilization(u)),
            None => None,
        };
        kv.push_opt("utilization", &used);
        kv.push_opt("description", &self.description);
        kv
    }

    /// Renders the header alone.
    pub fn to_detail_header(&self) -> (r: String)
        ensures
            r@ == rendered(self.rows()),
    {
        let kv = self.header();
        kv.render()
    }

    /// The text shown: the header, then the child prefixes, then the addresses.
    pub open spec fn plain(self) -> Text {
        rendered(self.rows()) + section_text("Child Prefixes"@, texts(self.child_prefixes@))
            + section_text("IP Addresses"@, address_lines(self.ip_addresses@))
    }

    /// Renders the header and the sections.
    pub fn to_plain(&self) -> (r: String)
        ensures
            r@ == self.plain(),
    {
        let mut out = self.to_detail_header();
        let children = section("Child Prefixes", &self.child_prefixes);
        out.append(children.as_str());
        let lines = render_addresses(&self.ip_addresses);
        let addresses = section("IP Addresses", &lines);
        out.append(addresses.as_str());
        out
    }
}

/// The rows of a prefix: each field that is set is shown under its own key and with
/// its own value, and nothing else is shown.
pub proof fn prefix_rows_show_the_fields(p: Prefix, k: Text, v: Text)
    ensures
        PrefixView::rows_of(p).contains((k, v)) <==> {
            ||| (k == "prefix"@ && v == p.prefix@)
            ||| (p.status is Some && k == "status"@ && v == p.status->0.value@)
            ||| (p.vrf is Some && k == "vrf"@ && v == p.vrf->0.label_text())
            ||| (p.vlan is Some && k == "vlan"@ && v == p.vlan->0.label_text())
            ||| (site_scope(p) is Some && k == "scope"@ && v == site_scope(p)->0)
            ||| (p.tenant is Some && k == "tenant"@ && v == p.tenant->0.label_text())
            ||| (p.role is Some && k == "role"@ && v == p.role->0.label_text())
            ||| (p.children is Some && k == "children"@
                && v == crate::number::decimal_text(p.children->0 as nat))
            ||| (opt_utilization(p.utilization) is Some && k == "utilization"@
                && v == opt_utilization(p.utilization)->0)
            ||| (p.description is Some && p.description->0@.len() > 0 && k == "description"@
                && v == p.description->0@)
        },
{
    reveal(PrefixView::rows_of);
    crate::output::rows_are_found_where_they_were_put();
}

/// The bar of a prefix has as many marks as cells are filled and keeps its width; one that
/// is full or over has no blank.
pub proof fn bars_keep_their_width(u: Utilization)
    ensures
        bar_text(u.filled).len() == BAR_WIDTH + 2,
        bar_text(u.filled)[0] == '[' && bar_text(u.filled).last() == ']',
        forall|i: int|
            0 < i <= BAR_WIDTH ==> #[trigger] bar_text(u.filled)[i] == if i <= u.filled {
                '#'
            } else {
                '-'
            },
        opt_utilization(Some(u)) == Some(u.percent@ + "% "@ + bar_text(u.filled)),
        opt_utilization(None) is None,
{
    reveal_strlit("#");
    reveal_strlit("-");
    reveal_strlit("[");
    reveal_strlit("]");
    let n: u64 = if u.filled < BAR_WIDTH {
        u.filled
    } else {
        BAR_WIDTH
    };
    repeated_char("#"@, n as nat);
    repeated_char("-"@, (BAR_WIDTH - n) as nat);
}

proof fn repeated_char(s: Text, n: nat)
    requires
        s.len() == 1,
    ensures
        repeated(s, n).len() == n,
        forall|i: int| 0 <= i < n ==> #[trigger] repeated(s, n)[i] == s[0],
    decreases n,
{
    if n > 0 {
        repeated_char(s, (n - 1) as nat);
    }
}

/// A prefix's scope is shown as a site only when it is one; its children read as their
/// CIDRs, in order, and its addresses with what they are assigned to.
pub proof fn prefix_parts_read_in_order(
    p: Prefix,
    children: Seq<Prefix>,
    rows: Seq<PrefixIp>,
    i: int,
)
    ensures
        site_scope(p) is Some <==> p.scope is Some && p.scope_type is Some && p.scope_type->0@
            == "dcim.site"@,
        site_scope(p) is Some ==> site_scope(p)->0 == p.scope->0.label_text(),
        cidrs(children).len() == children.len(),
        0 <= i < children.len() ==> cidrs(children)[i] == children[i].prefix@,
        address_lines(rows).len() == rows.len(),
        0 <= i < rows.len() && rows[i].assigned is None ==> address_lines(rows)[i]
            == rows[i].address@,
        0 <= i < rows.len() && rows[i].assigned is Some ==> address_lines(rows)[i]
            == rows[i].address@ + "  "@ + rows[i].assigned->0@,
{
}

/// An address in a prefix keeps its text and what it is assigned to.
pub proof fn listed_addresses_keep_their_holder(row: PrefixIp, ip: IpAddress)
    requires
        listed_as(row, ip),
    ensures
        row.address == ip.address,
        ip.assigned_object is None ==> row.assigned is None,
        ip.assigned_object is Some ==> opt_text(row.assigned) == opt_assigned(ip.assigned_object),
{
}

} // verus!
