//! Route-target views: the target itself and the VRFs that import and export it.

use vstd::prelude::*;
use vstd::string::StringExecFns;

use crate::domain::custom::{fields, shown_fields};
use crate::domain::util::{keep_text, kept_text};
use crate::json::Member;
use crate::netbox::models::{label_of, opt_label, slugs, slugs_of, RouteTarget, Vrf};
use crate::number::{decimal_len, decimal_text};
use crate::order::{le_text, text_le, text_le_total, text_le_transitive, Ranked};
use crate::output::{list_row, no_rows, opt_row, rendered, row, KeyValues, Row};
use crate::text::{cat4, copy_opt, opt_text, same, texts, Text};

verus! {

/// A reference to a VRF.
#[derive(Debug)]
pub struct VrfRef {
    pub id: u64,
    pub name: String,
    pub rd: Option<String>,
}

impl VrfRef {
    /// The reference to a VRF.
    pub fn from_model(v: &Vrf) -> (r: Self)
        ensures
            r.id == v.id,
            r.name == v.name,
            opt_text(r.rd) == kept_text(v.rd),
    {
        VrfRef { id: v.id, name: v.name.clone(), rd: keep_text(copy_opt(&v.rd)) }
    }

    /// `name (rd)`, or the name alone without a route distinguisher.
    pub open spec fn line(self) -> Text {
        match self.rd {
            Some(rd) => self.name@ + " ("@ + rd@ + ")"@,
            None => self.name@,
        }
    }

    /// Renders the reference on one line.
    pub fn display_line(&self) -> (r: String)
        ensures
            r@ == self.line(),
    {
        match &self.rd {
            Some(rd) => cat4(self.name.as_str(), " (", rd.as_str(), ")"),
            None => self.name.clone(),
        }
    }
}

/// Nothing comes before something.
pub open spec fn opt_text_le(a: Option<Text>, b: Option<Text>) -> bool {
    match (a, b) {
        (None, _) => true,
        (Some(_), None) => false,
        (Some(x), Some(y)) => text_le(x, y),
    }
}

impl Ranked for VrfRef {
    /// References are ordered by name, those of one name by route distinguisher.
    open spec fn ranks_le(&self, other: &Self) -> bool {
        if self.name@ == other.name@ {
            opt_text_le(opt_text(self.rd), opt_text(other.rd))
        } else {
            text_le(self.name@, other.name@)
        }
    }

    fn le(&self, other: &Self) -> (r: bool) {
        if same(self.name.as_str(), other.name.as_str()) {
            match (&self.rd, &other.rd) {
                (None, _) => true,
                (Some(_), None) => false,
                (Some(x), Some(y)) => le_text(x.as_str(), y.as_str()),
            }
        } else {
            le_text(self.name.as_str(), other.name.as_str())
        }
    }

    proof fn rank_total(&self, other: &Self) {
        text_le_total(self.name@, other.name@);
        if self.rd is Some && other.rd is Some {
            text_le_total(self.rd->0@, other.rd->0@);
        }
    }

    proof fn rank_transitive(&self, mid: &Self, other: &Self) {
        if self.name@ == mid.name@ && mid.name@ == other.name@ {
            if self.rd is Some && mid.rd is Some && other.rd is Some {
                text_le_transitive(self.rd->0@, mid.rd->0@, other.rd->0@);
            }
        } else if self.name@ != mid.name@ && mid.name@ != other.name@ {
            text_le_transitive(self.name@, mid.name@, other.name@);
            if self.name@ == other.name@ {
                crate::order::text_le_antisymmetric(self.name@, mid.name@);
            }
        }
    }
}

/// The header of a route target.
#[derive(Debug)]
pub struct RouteTargetView {
    pub id: u64,
    pub name: String,
    pub tenant: Option<String>,
    pub description: Option<String>,
    pub owner: Option<String>,
    pub tags: Vec<String>,
    pub custom_fields: Vec<Member>,
}

impl RouteTargetView {
    /// Flattens a route target.
    pub fn from_model(t: RouteTarget) -> (r: Self)
        ensures
            r.id == t.id,
            r.name == t.name,
            opt_text(r.tenant) == opt_label(t.tenant),
            opt_text(r.description) == kept_text(t.description),
            opt_text(r.owner) == opt_label(t.owner),
            texts(r.tags@) == slugs(t.tags@),
            r.custom_fields@ == shown_fields(t.custom_fields),
    {
        RouteTargetView {
            id: t.id,
            name: t.name,
            tenant: label_of(&t.tenant),
            description: keep_text(t.description),
            owner: label_of(&t.owner),
            tags: slugs_of(&t.tags),
            custom_fields: fields(t.custom_fields),
        }
    }

    /// The rows shown, in order.
    #[verifier::opaque]
    pub open spec fn rows(self) -> Seq<Row> {
        no_rows()
            + row("name"@, self.name@)
            + opt_row("tenant"@, opt_text(self.tenant))
            + opt_row("description"@, opt_text(self.description))
            + list_row("tags"@, texts(self.tags@))
    }

    /// Renders the header as rows.
    pub fn to_key_values(&self) -> (r: KeyValues)
        ensures
            r@ == self.rows(),
    {
        proof {
            reveal(RouteTargetView::rows);
        }
        let mut kv = KeyValues::new();
        kv.push("name", self.name.as_str());
        kv.push_opt("tenant", &self.tenant);
        kv.push_opt("description", &self.description);
        kv.push_list("tags", &self.tags);
        kv
    }
}

/// A route target and the VRFs that import and export it.
#[derive(Debug)]
pub struct RouteTargetDetail {
    pub summary: RouteTargetView,
    pub importing_vrfs: Vec<VrfRef>,
    pub exporting_vrfs: Vec<VrfRef>,
}

/// The indented lines of a list of references, each after a line break.
pub open spec fn vrf_lines(vrfs: Seq<VrfRef>) -> Text
    decreases vrfs.len(),
{
    if vrfs.len() == 0 {
        Seq::empty()
    } else {
        vrf_lines(vrfs.drop_last()) + "\n  "@ + vrfs.last().line()
    }
}

/// A titled list of VRFs with their number.
pub open spec fn vrf_section(title: Text, vrfs: Seq<VrfRef>) -> Text {
    "\n"@ + title + " ("@ + decimal_text(vrfs.len()) + ")"@ + if vrfs.len() == 0 {
        "\n  (none)"@
    } else {
        vrf_lines(vrfs)
    }
}

fn lines_of(vrfs: &Vec<VrfRef>) -> (r: String)
    ensures
        r@ == vrf_lines(vrfs@),
{
    let mut out = String::new();
    let mut i: usize = 0;
    proof {
        assert(vrfs@.take(0) =~= Seq::empty());
    }
    while i < vrfs.len()
        invariant
            i <= vrfs.len(),
            out@ == vrf_lines(vrfs@.take(i as int)),
        decreases vrfs.len() - i,
    {
        let line = vrfs[i].display_line();
        out.append("\n  ");
        out.append(line.as_str());
        proof {
            assert(vrfs@.take(i as int + 1).drop_last() =~= vrfs@.take(i as int));
        }
        i = i + 1;
    }
    proof {
        assert(vrfs@.take(i as int) =~= vrfs@);
    }
    out
}

/// Adds a titled list of VRFs.
pub fn push_vrf_section(out: &mut String, title: &str, vrfs: &Vec<VrfRef>)
    ensures
        final(out)@ == old(out)@ + vrf_section(title@, vrfs@),
{
    let n = decimal_len(vrfs.len());
    let mut s = cat4("\n", title, " (", n.as_str());
    s.append(")");
    if vrfs.is_empty() {
        s.append("\n  (none)");
    } else {
        let lines = lines_of(vrfs);
        s.append(lines.as_str());
    }
    out.append(s.as_str());
}

impl RouteTargetDetail {
    /// The text shown: the header, then the importing and the exporting VRFs.
    pub open spec fn plain(self) -> Text {
        rendered(self.summary.rows()) + "\n"@ + vrf_section(
            "Importing VRFs"@,
            self.importing_vrfs@,
        ) + vrf_section("Exporting VRFs"@, self.exporting_vrfs@)
    }

    /// Renders the whole detail.
    pub fn to_plain(&self) -> (r: String)
        ensures
            r@ == self.plain(),
    {
        let kv = self.summary.to_key_values();
        let mut out = kv.render();
        out.append("\n");
        push_vrf_section(&mut out, "Importing VRFs", &self.importing_vrfs);
        push_vrf_section(&mut out, "Exporting VRFs", &self.exporting_vrfs);
        out
    }
}

/// The rows of a route target: each field that is set is shown under its own key and with
/// its own value, and nothing else is shown.
pub proof fn route_target_rows_show_the_fields(summary: RouteTargetView, k: Text, v: Text)
    ensures
        summary.rows().contains((k, v)) <==> {
            ||| (k == "name"@ && v == summary.name@)
            ||| (summary.tenant is Some && k == "tenant"@ && v == summary.tenant->0@)
            ||| (summary.description is Some && k == "description"@ && v == summary.description->0@)
            ||| (texts(summary.tags@).len() > 0 && k == "tags"@
                && v == crate::text::joined(texts(summary.tags@), ", "@))
        },
{
    reveal(RouteTargetView::rows);
    crate::output::rows_are_found_where_they_were_put();
}

/// VRFs are ordered by name, and of one name by their route distinguisher, with those
/// that have none first.
pub proof fn vrfs_are_ordered_by_name(a: VrfRef, b: VrfRef)
    ensures
        a.name@ != b.name@ ==> (a.ranks_le(&b) <==> text_le(a.name@, b.name@)),
        a.name@ == b.name@ && a.rd is None ==> a.ranks_le(&b),
        a.name@ == b.name@ && a.rd is Some && b.rd is None ==> !a.ranks_le(&b),
        a.name@ == b.name@ && a.rd is Some && b.rd is Some ==> (a.ranks_le(&b) <==> text_le(
            a.rd->0@,
            b.rd->0@,
        )),
{
}

/// The VRFs of a side are listed under its title with their count, one to a line, each
/// with its route distinguisher where it has one.
pub proof fn vrfs_are_listed_line_by_line(
    title: Text,
    front: Seq<VrfRef>,
    back: Seq<VrfRef>,
    v: VrfRef,
)
    ensures
        v.rd is None ==> v.line() == v.name@,
        v.rd is Some ==> v.line() == v.name@ + " ("@ + v.rd->0@ + ")"@,
        vrf_section(title, Seq::empty()) == "\n"@ + title + " ("@ + decimal_text(0) + ")"@
            + "\n  (none)"@,
        front.len() > 0 ==> vrf_section(title, front) == "\n"@ + title + " ("@ + decimal_text(
            front.len(),
        ) + ")"@ + vrf_lines(front),
        vrf_lines(seq![v]) == "\n  "@ + v.line(),
        vrf_lines(front + back) == vrf_lines(front) + vrf_lines(back),
    decreases back.len(),
{
    reveal_with_fuel(vrf_lines, 2);
    assert(seq![v].drop_last() =~= Seq::<VrfRef>::empty());
    assert(Seq::<char>::empty() + "\n  "@ + v.line() =~= "\n  "@ + v.line());
    if back.len() == 0 {
        assert(front + back =~= front);
        assert(vrf_lines(front) + vrf_lines(back) =~= vrf_lines(front));
    } else {
        assert((front + back).drop_last() =~= front + back.drop_last());
        vrfs_are_listed_line_by_line(title, front, back.drop_last(), v);
        let a = vrf_lines(front);
        let b = vrf_lines(back.drop_last());
        let line = back.last().line();
        assert(a + b + "\n  "@ + line =~= a + (b + "\n  "@ + line));
    }
}

/// A route target's text is its rows, the VRFs that import it, and those that export it.
pub proof fn route_target_texts_list_both_sides(d: RouteTargetDetail)
    ensures
        d.plain() == rendered(d.summary.rows()) + "\n"@ + vrf_section(
            "Importing VRFs"@,
            d.importing_vrfs@,
        ) + vrf_section("Exporting VRFs"@, d.exporting_vrfs@),
{
}

} // verus!
