//! Circuit view: attributes, the two terminations, and the path between them as
//! a diagram.

use vstd::prelude::*;
use vstd::string::StringExecFns;

use crate::domain::custom::{append, field_rows, fields, shown_fields};
use crate::domain::util::{keep_text, kept_text, section, section_text};
use crate::domain::virtual_circuit_view::DeviceRef;
use crate::json::Member;
use crate::netbox::models::{
    label_of,
    opt_label,
    opt_value,
    slugs,
    slugs_of,
    value_of,
    Circuit,
    CircuitTermination,
};
use crate::order::{
    le_text,
    place_for,
    place_for_bound,
    sort_stable,
    stably_sorted,
    text_le,
    text_le_total,
    text_le_transitive,
    Ranked,
};
use crate::output::{list_row, no_rows, opt_row, rendered, row, KeyValues, Row};
use crate::rate::{humanize_kbps, rate_text};
use crate::split::{after_last, tail_after};
use crate::text::{
    cat2,
    cat3,
    cat5,
    chars_of,
    join,
    joined,
    opt_text,
    same,
    string_of,
    texts,
    Text,
};

verus! {

/// One cabled hop along a termination's path.
#[derive(Debug)]
pub struct PathHop {
    /// The device and port reached, or the port alone.
    pub to: String,
    /// The cable crossed to reach it.
    pub cable: Option<String>,
    /// Whether this is a device interface, where the path ends.
    pub endpoint: bool,
    /// The device at this hop.
    pub device: Option<DeviceRef>,
}

/// A termination with its resolved path.
#[derive(Debug)]
pub struct ResolvedTermination {
    pub termination: CircuitTermination,
    pub path: Vec<PathHop>,
}

/// One end of a circuit, flattened for display.
#[derive(Debug)]
pub struct CircuitTerminationView {
    pub side: String,
    pub endpoint: String,
    pub endpoint_kind: String,
    pub path: Vec<PathHop>,
    pub xconnect_id: Option<String>,
    pub pp_info: Option<String>,
    pub port_speed: Option<String>,
}

// ===== Small texts =======================================================

/// A text with one character replaced by another.
pub open spec fn replaced(s: Text, from: char, to: char) -> Text {
    Seq::new(
        s.len(),
        |i: int|
            if s[i] == from {
                to
            } else {
                s[i]
            },
    )
}

fn replace_char(s: &str, from: char, to: char) -> (r: String)
    ensures
        r@ == replaced(s@, from, to),
{
    let mut cs = chars_of(s);
    let mut i: usize = 0;
    while i < cs.len()
        invariant
            i <= cs.len(),
            cs.len() == s@.len(),
            forall|j: int| 0 <= j < i ==> cs@[j] == replaced(s@, from, to)[j],
            forall|j: int| i <= j < cs.len() ==> cs@[j] == s@[j],
        decreases cs.len() - i,
    {
        if cs[i] == from {
            cs.set(i, to);
        }
        i = i + 1;
    }
    proof {
        assert(cs@ =~= replaced(s@, from, to));
        assert(cs@.subrange(0, cs@.len() as int) =~= cs@);
    }
    string_of(&cs, 0, cs.len())
}

/// A termination's content type as a short name.
pub open spec fn endpoint_kind_name(termination_type: Option<Text>) -> Text {
    match termination_type {
        Some(t) => if t == "dcim.site"@ {
            "site"@
        } else if t == "circuits.providernetwork"@ {
            "provider network"@
        } else {
            replaced(after_last(t, '.'), '_', ' ')
        },
        None => Seq::empty(),
    }
}

/// The short name of a termination's content type.
pub fn endpoint_kind(termination_type: Option<&str>) -> (r: String)
    ensures
        r@ == endpoint_kind_name(crate::text::opt_str(termination_type)),
{
    match termination_type {
        Some(t) => if same(t, "dcim.site") {
            "site".to_owned()
        } else if same(t, "circuits.providernetwork") {
            "provider network".to_owned()
        } else {
            let last = tail_after(t, '.');
            replace_char(last.as_str(), '_', ' ')
        },
        None => String::new(),
    }
}

/// The upper case of a character, as Unicode maps it.
pub uninterp spec fn upper_case(c: char) -> Seq<char>;

/// `char::to_uppercase`, collected. Unicode fixes the mapping; within ASCII only
/// `a` to `z` change.
#[verifier::external_body]
fn to_upper(c: char) -> (r: String)
    ensures
        r@ == upper_case(c),
        97 <= (c as u32) <= 122 ==> r@ == seq![(c as u32 - 32) as char],
        (c as u32) < 97 || 122 < (c as u32) < 128 ==> r@ == seq![c],
{
    c.to_uppercase().collect()
}

/// A text with its first character in upper case.
pub open spec fn titled(s: Text) -> Text {
    if s.len() == 0 {
        s
    } else {
        upper_case(s[0]) + s.skip(1)
    }
}

/// Puts a first character, already in upper case, before the rest of a text.
pub fn with_first(upper: &str, s: &str) -> (r: String)
    requires
        s@.len() > 0,
    ensures
        r@ == upper@ + s@.skip(1),
{
    let cs = chars_of(s);
    let rest = string_of(&cs, 1, cs.len());
    proof {
        assert(cs@.subrange(1, cs@.len() as int) =~= cs@.skip(1));
    }
    cat2(upper, rest.as_str())
}

/// Puts the first character of a text in upper case.
pub fn title_first(s: &str) -> (r: String)
    ensures
        r@ == titled(s@),
        s@.len() == 0 ==> r@.len() == 0,
        s@.len() > 0 && 97 <= (s@[0] as u32) <= 122 ==> r@ == seq![(s@[0] as u32 - 32) as char]
            + s@.skip(1),
        s@.len() > 0 && ((s@[0] as u32) < 97 || 122 < (s@[0] as u32) < 128) ==> r@ == s@,
{
    let cs = chars_of(s);
    if cs.len() == 0 {
        return String::new();
    }
    let first = to_upper(cs[0]);
    let r = with_first(first.as_str(), s);
    proof {
        assert(seq![s@[0]] + s@.skip(1) =~= s@);
    }
    r
}

/// The middle of the diagram: what kind of circuit, how fast, in what state.
pub open spec fn segment_parts(
    type_: Option<Text>,
    rate: Option<u64>,
    status: Option<Text>,
) -> Seq<Text> {
    Seq::<Text>::empty() + match type_ {
        Some(t) => seq![t],
        None => Seq::empty(),
    } + match rate {
        Some(r) => seq![rate_text(r as nat)],
        None => Seq::empty(),
    } + match status {
        Some(s) => seq![titled(s)],
        None => Seq::empty(),
    }
}

/// The parts of a segment that are there, set apart by dots.
pub open spec fn segment_text(
    type_: Option<Text>,
    rate: Option<u64>,
    status: Option<Text>,
) -> Text {
    let parts = segment_parts(type_, rate, status);
    if parts.len() == 0 {
        "circuit"@
    } else {
        joined(parts, " · "@)
    }
}

/// Names the middle of the diagram.
pub fn circuit_segment(
    type_: Option<&str>,
    commit_rate_kbps: Option<u64>,
    status: Option<&str>,
) -> (r: String)
    ensures
        r@ == segment_text(
            crate::text::opt_str(type_),
            commit_rate_kbps,
            crate::text::opt_str(status),
        ),
{
    let ghost t = crate::text::opt_str(type_);
    let ghost s = crate::text::opt_str(status);
    let mut parts: Vec<String> = Vec::new();
    if let Some(x) = type_ {
        parts.push(x.to_owned());
    }
    if let Some(x) = commit_rate_kbps {
        parts.push(humanize_kbps(x));
    }
    if let Some(x) = status {
        parts.push(title_first(x));
    }
    proof {
        assert(texts(parts@) =~= segment_parts(t, commit_rate_kbps, s));
    }
    if parts.is_empty() {
        "circuit".to_owned()
    } else {
        join(&parts, " · ")
    }
}

// ===== Terminations ======================================================

/// Where a termination lands, by label.
pub open spec fn endpoint_name(t: CircuitTermination) -> Text {
    match t.termination {
        Some(b) => b.label_text(),
        None => "(unterminated)"@,
    }
}

/// The side of a termination.
pub open spec fn side_name(t: CircuitTermination) -> Text {
    match t.term_side {
        Some(s) => s@,
        None => "?"@,
    }
}

/// The port speed of a termination, readable.
pub open spec fn speed_text(t: CircuitTermination) -> Option<Text> {
    match t.port_speed {
        Some(n) => Some(rate_text(n as nat)),
        None => None,
    }
}

/// Whether a view carries what a resolved termination says.
pub open spec fn view_is_of(v: CircuitTerminationView, rt: ResolvedTermination) -> bool {
    &&& v.side@ == side_name(rt.termination)
    &&& v.endpoint@ == endpoint_name(rt.termination)
    &&& v.endpoint_kind@ == endpoint_kind_name(opt_text(rt.termination.termination_type))
    &&& v.path == rt.path
    &&& opt_text(v.xconnect_id) == kept_text(rt.termination.xconnect_id)
    &&& opt_text(v.pp_info) == kept_text(rt.termination.pp_info)
    &&& opt_text(v.port_speed) == speed_text(rt.termination)
}

impl CircuitTerminationView {
    /// Flattens a resolved termination.
    pub fn from_resolved(rt: ResolvedTermination) -> (r: Self)
        ensures
            view_is_of(r, rt),
    {
        let t = rt.termination;
        let endpoint = match &t.termination {
            Some(b) => b.label(),
            None => "(unterminated)".to_owned(),
        };
        let kind = endpoint_kind(crate::text::as_opt_str(&t.termination_type));
        let side = match t.term_side {
            Some(s) => s,
            None => "?".to_owned(),
        };
        let port_speed = match t.port_speed {
            Some(n) => Some(humanize_kbps(n)),
            None => None,
        };
        CircuitTerminationView {
            side,
            endpoint,
            endpoint_kind: kind,
            path: rt.path,
            xconnect_id: keep_text(t.xconnect_id),
            pp_info: keep_text(t.pp_info),
            port_speed,
        }
    }
}

/// Whether a side comes no later than another: known sides in the order of their
/// names, an unknown one, written `?`, after all of them.
pub open spec fn side_le(a: Text, b: Text) -> bool {
    b == "?"@ || (a != "?"@ && text_le(a, b))
}

fn le_side(a: &str, b: &str) -> (r: bool)
    ensures
        r == side_le(a@, b@),
{
    same(b, "?") || (!same(a, "?") && le_text(a, b))
}

/// An unknown side comes after every known one, and `A` before `Z`.
pub proof fn unknown_sides_come_last(side: Text)
    requires
        side != "?"@,
    ensures
        side_le(side, "?"@),
        !side_le("?"@, side),
        side_le("A"@, "Z"@),
        !side_le("Z"@, "A"@),
{
    reveal_strlit("A");
    reveal_strlit("Z");
    reveal_strlit("?");
    assert("A"@[0] == 'A' && "Z"@[0] == 'Z' && "?"@[0] == '?');
}

impl Ranked for CircuitTerminationView {
    /// Terminations are ordered by side, those of an unknown one last.
    open spec fn ranks_le(&self, other: &Self) -> bool {
        side_le(self.side@, other.side@)
    }

    fn le(&self, other: &Self) -> (r: bool) {
        le_side(self.side.as_str(), other.side.as_str())
    }

    proof fn rank_total(&self, other: &Self) {
        text_le_total(self.side@, other.side@);
    }

    proof fn rank_transitive(&self, mid: &Self, other: &Self) {
        if self.side@ != "?"@ && mid.side@ != "?"@ && other.side@ != "?"@ {
            text_le_transitive(self.side@, mid.side@, other.side@);
        }
    }
}

// ===== The diagram =======================================================

/// The line of a hop, with its cable behind it.
pub open spec fn hop_line(h: PathHop) -> Text {
    "    ↳ "@ + h.to@ + match h.cable {
        Some(c) => "  ·  "@ + c@,
        None => Seq::empty(),
    }
}

/// The lines of a path. Below the middle of the diagram it is read backwards, so
/// that the whole drawing follows one line of equipment.
pub open spec fn path_lines(path: Seq<PathHop>, below: bool) -> Seq<Text> {
    Seq::new(
        path.len(),
        |i: int|
            if below {
                hop_line(path[path.len() - 1 - i])
            } else {
                hop_line(path[i])
            },
    )
}

/// The heading of a termination: its side, its endpoint and what that is.
pub open spec fn termination_line(t: CircuitTerminationView) -> Text {
    " "@ + t.side@ + "  "@ + t.endpoint@ + if t.endpoint_kind@.len() == 0 {
        Seq::empty()
    } else {
        "  ("@ + t.endpoint_kind@ + ")"@
    }
}

/// The cross-connect and patch-panel remarks of a termination.
pub open spec fn connect_parts(t: CircuitTerminationView) -> Seq<Text> {
    Seq::<Text>::empty() + match t.xconnect_id {
        Some(x) => seq!["xconnect "@ + x@],
        None => Seq::empty(),
    } + match t.pp_info {
        Some(p) => seq!["pp "@ + p@],
        None => Seq::empty(),
    }
}

/// The lines on how a termination is connected.
pub open spec fn connect_lines(t: CircuitTerminationView) -> Seq<Text> {
    if connect_parts(t).len() == 0 {
        Seq::empty()
    } else {
        seq!["    "@ + joined(connect_parts(t), " · "@)]
    }
}

/// All lines of a termination.
pub open spec fn side_lines(t: CircuitTerminationView, below: bool) -> Seq<Text> {
    seq![termination_line(t)] + path_lines(t.path@, below) + connect_lines(t)
}

/// The lines between two terminations.
pub open spec fn middle_lines(segment: Text) -> Seq<Text> {
    seq!["    │"@, "    ┿ "@ + segment, "    │"@]
}

/// The diagram: the terminations from top to bottom, the circuit between each two.
pub open spec fn diagram_lines(segment: Text, terms: Seq<CircuitTerminationView>) -> Seq<Text>
    decreases terms.len(),
{
    if terms.len() == 0 {
        Seq::empty()
    } else if terms.len() == 1 {
        side_lines(terms[0], false)
    } else {
        diagram_lines(segment, terms.drop_last()) + middle_lines(segment) + side_lines(
            terms.last(),
            true,
        )
    }
}

fn push_text(lines: &mut Vec<String>, line: String)
    ensures
        texts(final(lines)@) == texts(old(lines)@).push(line@),
{
    let ghost before = texts(lines@);
    lines.push(line);
    proof {
        assert(texts(lines@) =~= before.push(line@));
    }
}

fn render_hop(h: &PathHop) -> (r: String)
    ensures
        r@ == hop_line(*h),
{
    match &h.cable {
        Some(c) => {
            let tail = cat2("  ·  ", c.as_str());
            cat3("    ↳ ", h.to.as_str(), tail.as_str())
        },
        None => {
            let r = cat2("    ↳ ", h.to.as_str());
            proof {
                assert(r@ =~= r@ + Seq::empty());
            }
            r
        },
    }
}

fn render_heading(t: &CircuitTerminationView) -> (r: String)
    ensures
        r@ == termination_line(*t),
{
    let kind = if t.endpoint_kind.as_str().is_empty() {
        String::new()
    } else {
        cat3("  (", t.endpoint_kind.as_str(), ")")
    };
    proof {
        if t.endpoint_kind@.len() == 0 {
            assert(kind@ =~= Seq::empty());
        }
    }
    cat5(" ", t.side.as_str(), "  ", t.endpoint.as_str(), kind.as_str())
}

fn push_path(lines: &mut Vec<String>, path: &Vec<PathHop>, below: bool)
    ensures
        texts(final(lines)@) == texts(old(lines)@) + path_lines(path@, below),
{
    let ghost before = texts(lines@);
    let mut i: usize = 0;
    proof {
        assert(before + path_lines(path@, below).take(0) =~= before);
    }
    while i < path.len()
        invariant
            i <= path.len(),
            texts(lines@) == before + path_lines(path@, below).take(i as int),
        decreases path.len() - i,
    {
        let at: usize = if below {
            path.len() - 1 - i
        } else {
            i
        };
        push_text(lines, render_hop(&path[at]));
        proof {
            let all = path_lines(path@, below);
            assert(all.take(i as int + 1) =~= all.take(i as int).push(all[i as int]));
            assert(before + all.take(i as int + 1) =~= (before + all.take(i as int)).push(
                all[i as int],
            ));
        }
        i = i + 1;
    }
    proof {
        assert(path_lines(path@, below).take(i as int) =~= path_lines(path@, below));
    }
}

fn push_side(lines: &mut Vec<String>, t: &CircuitTerminationView, below: bool)
    ensures
        texts(final(lines)@) == texts(old(lines)@) + side_lines(*t, below),
{
    let ghost before = texts(lines@);
    push_text(lines, render_heading(t));
    push_path(lines, &t.path, below);
    let mut parts: Vec<String> = Vec::new();
    if let Some(x) = &t.xconnect_id {
        parts.push(cat2("xconnect ", x.as_str()));
    }
    if let Some(p) = &t.pp_info {
        parts.push(cat2("pp ", p.as_str()));
    }
    proof {
        assert(texts(parts@) =~= connect_parts(*t));
    }
    if !parts.is_empty() {
        let remark = join(&parts, " · ");
        push_text(lines, cat2("    ", remark.as_str()));
    }
    proof {
        assert(texts(lines@) =~= before + side_lines(*t, below));
    }
}

/// Draws the path of a circuit.
pub fn format_circuit_diagram(segment: &str, terms: &Vec<CircuitTerminationView>) -> (r: Vec<
    String,
>)
    ensures
        texts(r@) == diagram_lines(segment@, terms@),
{
    let mut lines: Vec<String> = Vec::new();
    let mut i: usize = 0;
    proof {
        assert(terms@.take(0) =~= Seq::empty());
        assert(texts(lines@) =~= diagram_lines(segment@, terms@.take(0)));
    }
    while i < terms.len()
        invariant
            i <= terms.len(),
            texts(lines@) == diagram_lines(segment@, terms@.take(i as int)),
        decreases terms.len() - i,
    {
        let ghost before = texts(lines@);
        proof {
            assert(terms@.take(i as int + 1).drop_last() =~= terms@.take(i as int));
        }
        if i > 0 {
            push_text(&mut lines, "    │".to_owned());
            push_text(&mut lines, cat2("    ┿ ", segment));
            push_text(&mut lines, "    │".to_owned());
            proof {
                assert(texts(lines@) =~= before + middle_lines(segment@));
            }
        }
        push_side(&mut lines, &terms[i], i > 0);
        proof {
            if i == 0 {
                assert(texts(lines@) =~= side_lines(terms@[0], false));
            }
        }
        i = i + 1;
    }
    proof {
        assert(terms@.take(i as int) =~= terms@);
    }
    lines
}

// ===== The diagram, from the wire form ===================================

impl Ranked for ResolvedTermination {
    /// Terminations are ordered by side, those of an unknown one last.
    open spec fn ranks_le(&self, other: &Self) -> bool {
        side_le(side_name(self.termination), side_name(other.termination))
    }

    fn le(&self, other: &Self) -> (r: bool) {
        let a: &str = match &self.termination.term_side {
            Some(s) => s.as_str(),
            None => "?",
        };
        let b: &str = match &other.termination.term_side {
            Some(s) => s.as_str(),
            None => "?",
        };
        le_side(a, b)
    }

    proof fn rank_total(&self, other: &Self) {
        text_le_total(side_name(self.termination), side_name(other.termination));
    }

    proof fn rank_transitive(&self, mid: &Self, other: &Self) {
        let a = side_name(self.termination);
        let m = side_name(mid.termination);
        let b = side_name(other.termination);
        if a != "?"@ && m != "?"@ && b != "?"@ {
            text_le_transitive(a, m, b);
        }
    }
}

/// All lines of a resolved termination.
pub open spec fn resolved_lines(rt: ResolvedTermination, below: bool) -> Seq<Text> {
    let t = rt.termination;
    let kind = endpoint_kind_name(opt_text(t.termination_type));
    let parts = Seq::<Text>::empty() + match kept_text(t.xconnect_id) {
        Some(x) => seq!["xconnect "@ + x],
        None => Seq::empty(),
    } + match kept_text(t.pp_info) {
        Some(p) => seq!["pp "@ + p],
        None => Seq::empty(),
    };
    seq![
        " "@ + side_name(t) + "  "@ + endpoint_name(t) + if kind.len() == 0 {
            Seq::empty()
        } else {
            "  ("@ + kind + ")"@
        },
    ] + path_lines(rt.path@, below) + if parts.len() == 0 {
        Seq::empty()
    } else {
        seq!["    "@ + joined(parts, " · "@)]
    }
}

/// The diagram of resolved terminations, from top to bottom.
pub open spec fn resolved_diagram(segment: Text, ts: Seq<ResolvedTermination>) -> Seq<Text>
    decreases ts.len(),
{
    if ts.len() == 0 {
        Seq::empty()
    } else if ts.len() == 1 {
        resolved_lines(ts[0], false)
    } else {
        resolved_diagram(segment, ts.drop_last()) + middle_lines(segment) + resolved_lines(
            ts.last(),
            true,
        )
    }
}

proof fn lines_agree(v: CircuitTerminationView, rt: ResolvedTermination, below: bool)
    requires
        view_is_of(v, rt),
    ensures
        side_lines(v, below) == resolved_lines(rt, below),
{
}

proof fn diagrams_agree(
    segment: Text,
    views: Seq<CircuitTerminationView>,
    ts: Seq<ResolvedTermination>,
)
    requires
        views_are_of(views, ts),
    ensures
        diagram_lines(segment, views) == resolved_diagram(segment, ts),
    decreases ts.len(),
{
    if ts.len() == 1 {
        lines_agree(views[0], ts[0], false);
    } else if ts.len() > 1 {
        assert(views_are_of(views.drop_last(), ts.drop_last()));
        diagrams_agree(segment, views.drop_last(), ts.drop_last());
        lines_agree(views[views.len() - 1], ts[ts.len() - 1], true);
    }
}

proof fn places_agree(
    views: Seq<CircuitTerminationView>,
    ts: Seq<ResolvedTermination>,
    v: CircuitTerminationView,
    t: ResolvedTermination,
)
    requires
        views_are_of(views, ts),
        view_is_of(v, t),
    ensures
        place_for(views, v) == place_for(ts, t),
    decreases ts.len(),
{
    if ts.len() > 0 {
        assert(view_is_of(views[views.len() - 1], ts[ts.len() - 1]));
        assert(views_are_of(views.drop_last(), ts.drop_last()));
        places_agree(views.drop_last(), ts.drop_last(), v, t);
    }
}

/// Sorting and flattening can be done in either order.
proof fn sorts_agree(views: Seq<CircuitTerminationView>, ts: Seq<ResolvedTermination>)
    requires
        views_are_of(views, ts),
    ensures
        views_are_of(stably_sorted(views), stably_sorted(ts)),
    decreases ts.len(),
{
    if ts.len() > 0 {
        let vf = views.drop_last();
        let tf = ts.drop_last();
        assert(views_are_of(vf, tf));
        sorts_agree(vf, tf);
        let vs = stably_sorted(vf);
        let tss = stably_sorted(tf);
        assert(view_is_of(views[views.len() - 1], ts[ts.len() - 1]));
        places_agree(vs, tss, views.last(), ts.last());
        place_for_bound(vs, views.last());
        let at = place_for(vs, views.last()) as int;
        let a = vs.insert(at, views.last());
        let b = tss.insert(at, ts.last());
        assert forall|i: int| 0 <= i < b.len() implies view_is_of(#[trigger] a[i], b[i]) by {
            if i < at {
                assert(view_is_of(vs[i], tss[i]));
            } else if i > at {
                assert(view_is_of(vs[i - 1], tss[i - 1]));
            }
        }
    }
}

// ===== The view ==========================================================

/// A circuit, flattened for display.
#[derive(Debug)]
pub struct CircuitView {
    pub cid: String,
    pub provider: Option<String>,
    pub type_: Option<String>,
    pub status: Option<String>,
    pub tenant: Option<String>,
    pub install_date: Option<String>,
    pub commit_rate_kbps: Option<u64>,
    pub description: Option<String>,
    pub terminations: Vec<CircuitTerminationView>,
    pub diagram: Vec<String>,
    pub tags: Vec<String>,
    pub custom_fields: Vec<Member>,
}

/// Whether views carry what resolved terminations say, one each.
pub open spec fn views_are_of(
    views: Seq<CircuitTerminationView>,
    ts: Seq<ResolvedTermination>,
) -> bool {
    views.len() == ts.len() && forall|i: int|
        0 <= i < ts.len() ==> view_is_of(#[trigger] views[i], ts[i])
}

/// The middle of a circuit's diagram.
pub open spec fn circuit_middle(c: Circuit) -> Text {
    segment_text(opt_label(c.type_), c.commit_rate, opt_value(c.status))
}

/// A rate as text, when there is one.
pub open spec fn opt_rate(rate: Option<u64>) -> Option<Text> {
    match rate {
        Some(n) => Some(rate_text(n as nat)),
        None => None,
    }
}

impl CircuitView {
    /// Flattens a circuit without terminations.
    pub fn from_model(c: Circuit) -> (r: Self)
        ensures
            r.cid == c.cid,
            opt_text(r.provider) == opt_label(c.provider),
            opt_text(r.type_) == opt_label(c.type_),
            opt_text(r.status) == opt_value(c.status),
            opt_text(r.tenant) == opt_label(c.tenant),
            opt_text(r.install_date) == kept_text(c.install_date),
            r.commit_rate_kbps == c.commit_rate,
            opt_text(r.description) == kept_text(c.description),
            r.terminations@.len() == 0,
            r.diagram@.len() == 0,
            texts(r.tags@) == slugs(c.tags@),
            r.custom_fields@ == shown_fields(c.custom_fields),
            r.rows() == Self::rows_of(c),
    {
        let none: Vec<ResolvedTermination> = Vec::new();
        let ghost nothing = none@;
        let r = Self::build(c, none);
        proof {
            let views = choose|views: Seq<CircuitTerminationView>|
                views_are_of(views, nothing) && r.terminations@ == #[trigger] stably_sorted(views);
            assert(views =~= Seq::empty());
            assert(texts(r.diagram@).len() == 0);
        }
        r
    }

    /// Flattens a circuit and its terminations, those ordered by side, and draws
    /// the path between them.
    pub fn build(c: Circuit, terminations: Vec<ResolvedTermination>) -> (r: Self)
        ensures
            r.cid == c.cid,
            opt_text(r.provider) == opt_label(c.provider),
            opt_text(r.type_) == opt_label(c.type_),
            opt_text(r.status) == opt_value(c.status),
            opt_text(r.tenant) == opt_label(c.tenant),
            opt_text(r.install_date) == kept_text(c.install_date),
            r.commit_rate_kbps == c.commit_rate,
            opt_text(r.description) == kept_text(c.description),
            exists|views: Seq<CircuitTerminationView>|
                views_are_of(views, terminations@) && r.terminations@ == #[trigger] stably_sorted(
                    views,
                ),
            texts(r.diagram@) == resolved_diagram(circuit_middle(c), stably_sorted(terminations@)),
            texts(r.tags@) == slugs(c.tags@),
            r.custom_fields@ == shown_fields(c.custom_fields),
            r.rows() == Self::rows_of(c),
    {
        proof {
            reveal(CircuitView::rows);
            reveal(CircuitView::rows_of);
        }
        let ghost all = terminations@;
        let mut views: Vec<CircuitTerminationView> = Vec::new();
        for t in it: terminations
            invariant
                it.seq() == all,
                views@.len() == it.index(),
                forall|j: int| 0 <= j < views@.len() ==> view_is_of(#[trigger] views@[j], all[j]),
        {
            views.push(CircuitTerminationView::from_resolved(t));
        }
        let ghost flat = views@;
        let terms = sort_stable(views);
        proof {
            assert(views_are_of(flat, all) && terms@ == stably_sorted(flat));
        }
        let type_ = label_of(&c.type_);
        let status = value_of(&c.status);
        let segment = circuit_segment(
            crate::text::as_opt_str(&type_),
            c.commit_rate,
            crate::text::as_opt_str(&status),
        );
        let diagram = format_circuit_diagram(segment.as_str(), &terms);
        proof {
            sorts_agree(flat, all);
            diagrams_agree(segment@, terms@, stably_sorted(all));
        }
        CircuitView {
            cid: c.cid,
            provider: label_of(&c.provider),
            type_,
            status,
            tenant: label_of(&c.tenant),
            install_date: keep_text(c.install_date),
            commit_rate_kbps: c.commit_rate,
            description: keep_text(c.description),
            terminations: terms,
            diagram,
            tags: slugs_of(&c.tags),
            custom_fields: fields(c.custom_fields),
        }
    }

    /// The attribute rows shown, in order.
    #[verifier::opaque]
    pub open spec fn rows(self) -> Seq<Row> {
        no_rows()
            + row("cid"@, self.cid@)
            + opt_row("provider"@, opt_text(self.provider))
            + opt_row("type"@, opt_text(self.type_))
            + opt_row("status"@, opt_text(self.status))
            + opt_row("tenant"@, opt_text(self.tenant))
            + opt_row("install_date"@, opt_text(self.install_date))
            + opt_row("commit_rate"@, opt_rate(self.commit_rate_kbps))
            + opt_row("description"@, opt_text(self.description))
            + list_row("tags"@, texts(self.tags@))
            + field_rows(self.custom_fields@)
    }

    /// The attribute rows shown of a circuit.
    #[verifier::opaque]
    pub open spec fn rows_of(c: Circuit) -> Seq<Row> {
        no_rows()
            + row("cid"@, c.cid@)
            + opt_row("provider"@, opt_label(c.provider))
            + opt_row("type"@, opt_label(c.type_))
            + opt_row("status"@, opt_value(c.status))
            + opt_row("tenant"@, opt_label(c.tenant))
            + opt_row("install_date"@, kept_text(c.install_date))
            + opt_row("commit_rate"@, opt_rate(c.commit_rate))
            + opt_row("description"@, kept_text(c.description))
            + list_row("tags"@, slugs(c.tags@))
            + field_rows(shown_fields(c.custom_fields))
    }

    /// Renders the attributes as rows.
    pub fn to_key_values(&self) -> (r: KeyValues)
        ensures
            r@ == self.rows(),
    {
        proof {
            reveal(CircuitView::rows);
        }
        let mut kv = KeyValues::new();
        kv.push("cid", self.cid.as_str());
        kv.push_opt("provider", &self.provider);
        kv.push_opt("type", &self.type_);
        kv.push_opt("status", &self.status);
        kv.push_opt("tenant", &self.tenant);
        kv.push_opt("install_date", &self.install_date);
        let rate = match self.commit_rate_kbps {
            Some(n) => Some(humanize_kbps(n)),
            None => None,
        };
        kv.push_opt("commit_rate", &rate);
        kv.push_opt("description", &self.description);
        kv.push_list("tags", &self.tags);
        append(&mut kv, &self.custom_fields);
        kv
    }

    /// Renders the attributes and the path.
    pub fn to_plain(&self) -> (r: String)
        ensures
            r@ == rendered(self.rows()) + section_text("Circuit Path"@, texts(self.diagram@)),
    {
        let kv = self.to_key_values();
        let mut out = kv.render();
        let path = section("Circuit Path", &self.diagram);
        out.append(path.as_str());
        out
    }
}

/// The rows of a circuit: each field that is set is shown under its own key and with
/// its own value, and nothing else is shown.
pub proof fn circuit_rows_show_the_fields(c: Circuit, k: Text, v: Text)
    ensures
        CircuitView::rows_of(c).contains((k, v)) <==> {
            ||| (k == "cid"@ && v == c.cid@)
            ||| (c.provider is Some && k == "provider"@ && v == c.provider->0.label_text())
            ||| (c.type_ is Some && k == "type"@ && v == c.type_->0.label_text())
            ||| (c.status is Some && k == "status"@ && v == c.status->0.value@)
            ||| (c.tenant is Some && k == "tenant"@ && v == c.tenant->0.label_text())
            ||| (c.install_date is Some && c.install_date->0@.len() > 0 && k == "install_date"@
                && v == c.install_date->0@)
            ||| (opt_rate(c.commit_rate) is Some && k == "commit_rate"@
                && v == opt_rate(c.commit_rate)->0)
            ||| (c.description is Some && c.description->0@.len() > 0 && k == "description"@
                && v == c.description->0@)
            ||| (slugs(c.tags@).len() > 0 && k == "tags"@
                && v == crate::text::joined(slugs(c.tags@), ", "@))
            ||| {
                &&& c.custom_fields is Object
                &&& exists|m: crate::json::Member|
                    {
                        &&& #[trigger] c.custom_fields->members@.contains(m)
                        &&& !(m.value is Null)
                        &&& !(m.value is Text && m.value->Text_0@.len() == 0)
                        &&& k == "cf."@ + m.name@
                        &&& v == crate::domain::custom::shown_value(m.value)
                    }
            }
        },
{
    reveal(CircuitView::rows_of);
    crate::output::rows_are_found_where_they_were_put();
    crate::domain::custom::custom_fields_have_rows(c.custom_fields, k, v);
}

/// What a circuit ends at goes by a plain name: a site, a provider network, and anything
/// else by the last part of its type with blanks for underscores.
pub proof fn endpoints_go_by_plain_names(t: Text)
    ensures
        endpoint_kind_name(None).len() == 0,
        endpoint_kind_name(Some("dcim.site"@)) == "site"@,
        endpoint_kind_name(Some("circuits.providernetwork"@)) == "provider network"@,
        t != "dcim.site"@ && t != "circuits.providernetwork"@ ==> {
            let name = endpoint_kind_name(Some(t));
            let tail = after_last(t, '.');
            &&& name.len() == tail.len()
            &&& forall|i: int|
                0 <= i < tail.len() ==> (if tail[i] == '_' {
                    #[trigger] name[i] == ' '
                } else {
                    name[i] == tail[i]
                })
        },
{
    assert("circuits.providernetwork"@ != "dcim.site"@) by {
        reveal_strlit("circuits.providernetwork");
        reveal_strlit("dcim.site");
        assert("circuits.providernetwork"@.len() != "dcim.site"@.len());
    }
}

/// The segment between the two ends tells the type, the committed rate and the status,
/// as far as they are known, and otherwise just that it is a circuit.
pub proof fn segments_tell_what_is_known(c: Circuit)
    ensures
        c.type_ is None && c.commit_rate is None && c.status is None ==> circuit_middle(c)
            == "circuit"@,
        c.type_ is Some && c.commit_rate is None && c.status is None ==> circuit_middle(c)
            == c.type_->0.label_text(),
        c.type_ is None && c.commit_rate is Some && c.status is None ==> circuit_middle(c)
            == rate_text(c.commit_rate->0 as nat),
        c.type_ is None && c.commit_rate is None && c.status is Some ==> circuit_middle(c)
            == titled(c.status->0.value@),
        c.type_ is Some && c.commit_rate is Some && c.status is None ==> circuit_middle(c)
            == c.type_->0.label_text() + " · "@ + rate_text(c.commit_rate->0 as nat),
        c.type_ is Some && c.commit_rate is Some && c.status is Some ==> circuit_middle(c)
            == c.type_->0.label_text() + " · "@ + rate_text(c.commit_rate->0 as nat) + " · "@
            + titled(c.status->0.value@),
        titled(Seq::<char>::empty()).len() == 0,
        forall|s: Text| s.len() > 0 ==> #[trigger] titled(s) == upper_case(s[0]) + s.skip(1),
{
    let t = opt_label(c.type_);
    let s = opt_value(c.status);
    let parts = segment_parts(t, c.commit_rate, s);
    crate::text::joining_is_part_by_part(
        parts,
        Seq::empty(),
        if t is Some {
            t->0
        } else {
            Seq::empty()
        },
        " · "@,
    );
    reveal_with_fuel(joined, 4);
    if parts.len() == 1 {
        assert(parts =~= seq![parts[0]]);
        assert(joined(seq![parts[0]], " · "@) == parts[0]);
    }
    if parts.len() == 2 {
        assert(parts =~= seq![parts[0], parts[1]]);
        assert(parts.drop_last() =~= seq![parts[0]]);
    }
    if parts.len() == 3 {
        assert(parts =~= seq![parts[0], parts[1], parts[2]]);
        assert(parts.drop_last() =~= seq![parts[0], parts[1]]);
        assert(parts.drop_last().drop_last() =~= seq![parts[0]]);
    }
}

/// The path of a side is drawn away from the circuit: above it in the order it was
/// walked, below it the other way round, with every hop on a line of its own that names
/// where it leads and by which cable.
pub proof fn paths_are_drawn_hop_by_hop(path: Seq<PathHop>, i: int)
    requires
        0 <= i < path.len(),
    ensures
        path_lines(path, false).len() == path.len() && path_lines(path, true).len() == path.len(),
        path_lines(path, false)[i] == path_lines(path, true)[path.len() - 1 - i],
        path[i].cable is None ==> path_lines(path, false)[i] == "    ↳ "@ + path[i].to@,
        path[i].cable is Some ==> path_lines(path, false)[i] == "    ↳ "@ + path[i].to@ + "  ·  "@
            + path[i].cable->0@,
{
    let from = "    ↳ "@ + path[i].to@;
    assert(from + Seq::<char>::empty() =~= from);
    if path[i].cable is Some {
        assert(from + ("  ·  "@ + path[i].cable->0@) =~= from + "  ·  "@ + path[i].cable->0@);
    }
}

/// A side starts with its letter and where it ends, then its path; what is known of its
/// cross-connect and patch panel stands last.
pub proof fn sides_tell_where_they_end(rt: ResolvedTermination, below: bool)
    ensures
        ({
            let t = rt.termination;
            let kind = endpoint_kind_name(opt_text(t.termination_type));
            let side = if t.term_side is Some {
                t.term_side->0@
            } else {
                "?"@
            };
            let end = if t.termination is Some {
                t.termination->0.label_text()
            } else {
                "(unterminated)"@
            };
            let x = t.xconnect_id is Some && t.xconnect_id->0@.len() > 0;
            let p = t.pp_info is Some && t.pp_info->0@.len() > 0;
            let lines = resolved_lines(rt, below);
            &&& kind.len() == 0 ==> lines[0] == " "@ + side + "  "@ + end
            &&& kind.len() > 0 ==> lines[0] == " "@ + side + "  "@ + end + "  ("@ + kind + ")"@
            &&& lines.subrange(1, 1 + rt.path@.len() as int) == path_lines(rt.path@, below)
            &&& lines.len() == 1 + rt.path@.len() + if x || p {
                1int
            } else {
                0
            }
            &&& x && !p ==> lines.last() == "    "@ + ("xconnect "@ + t.xconnect_id->0@)
            &&& p && !x ==> lines.last() == "    "@ + ("pp "@ + t.pp_info->0@)
            &&& x && p ==> lines.last() == "    "@ + ("xconnect "@ + t.xconnect_id->0@ + " · "@ + (
            "pp "@ + t.pp_info->0@))
        }),
{
    let t = rt.termination;
    let kind = endpoint_kind_name(opt_text(t.termination_type));
    let first = " "@ + side_name(t) + "  "@ + endpoint_name(t);
    assert(first + Seq::<char>::empty() =~= first);
    assert(first + ("  ("@ + kind + ")"@) =~= first + "  ("@ + kind + ")"@);
    let lines = resolved_lines(rt, below);
    assert(lines.subrange(1, 1 + rt.path@.len() as int) =~= path_lines(rt.path@, below));
    let x = kept_text(t.xconnect_id);
    let p = kept_text(t.pp_info);
    let parts = Seq::<Text>::empty() + match x {
        Some(x) => seq!["xconnect "@ + x],
        None => Seq::empty(),
    } + match p {
        Some(p) => seq!["pp "@ + p],
        None => Seq::empty(),
    };
    reveal_with_fuel(joined, 3);
    if parts.len() == 1 {
        assert(parts =~= seq![parts[0]]);
    }
    if parts.len() == 2 {
        assert(parts =~= seq![parts[0], parts[1]]);
        assert(parts.drop_last() =~= seq![parts[0]]);
    }
}

/// A circuit is drawn from its first side to its last: the first stands above the
/// circuit and every other one below it, with the segment between any two.
pub proof fn circuits_are_drawn_side_by_side(
    segment: Text,
    a: ResolvedTermination,
    z: ResolvedTermination,
    front: Seq<ResolvedTermination>,
)
    ensures
        resolved_diagram(segment, Seq::empty()).len() == 0,
        resolved_diagram(segment, seq![a]) == resolved_lines(a, false),
        resolved_diagram(segment, seq![a, z]) == resolved_lines(a, false) + seq![
            "    │"@,
            "    ┿ "@ + segment,
            "    │"@,
        ] + resolved_lines(z, true),
        front.len() > 0 ==> resolved_diagram(segment, front.push(z)) == resolved_diagram(
            segment,
            front,
        ) + seq!["    │"@, "    ┿ "@ + segment, "    │"@] + resolved_lines(z, true),
{
    reveal_with_fuel(resolved_diagram, 3);
    assert(seq![a, z].drop_last() =~= seq![a]);
    assert(front.push(z).drop_last() =~= front);
}

/// A known side stands before an unknown one, and two known sides in the order of their
/// letters.
pub proof fn sides_go_by_their_letters(a: ResolvedTermination, b: ResolvedTermination)
    ensures
        b.termination.term_side is None ==> a.ranks_le(&b),
        a.termination.term_side is None && b.termination.term_side is Some
            && b.termination.term_side->0@ != "?"@ ==> !a.ranks_le(&b),
        a.termination.term_side is Some && b.termination.term_side is Some
            && a.termination.term_side->0@ != "?"@ && b.termination.term_side->0@ != "?"@ ==> (
        a.ranks_le(&b) <==> text_le(a.termination.term_side->0@, b.termination.term_side->0@)),
{
}

/// The view of a termination keeps its side and where it ends, its path, what is known of
/// its cross-connect and patch panel, and its speed in readable units.
pub proof fn termination_views_keep_their_fields(
    v: CircuitTerminationView,
    rt: ResolvedTermination,
)
    requires
        view_is_of(v, rt),
    ensures
        ({
            let t = rt.termination;
            &&& t.term_side is Some ==> v.side@ == t.term_side->0@
            &&& t.term_side is None ==> v.side@ == "?"@
            &&& t.termination is Some ==> v.endpoint@ == t.termination->0.label_text()
            &&& t.termination is None ==> v.endpoint@ == "(unterminated)"@
            &&& v.path == rt.path
            &&& v.xconnect_id is Some <==> t.xconnect_id is Some && t.xconnect_id->0@.len() > 0
            &&& v.xconnect_id is Some ==> v.xconnect_id->0@ == t.xconnect_id->0@
            &&& v.pp_info is Some <==> t.pp_info is Some && t.pp_info->0@.len() > 0
            &&& v.pp_info is Some ==> v.pp_info->0@ == t.pp_info->0@
            &&& v.port_speed is Some <==> t.port_speed is Some
            &&& t.port_speed is Some ==> v.port_speed->0@ == rate_text(t.port_speed->0 as nat)
        }),
{
}

/// A committed rate is shown in readable units, and only where there is one.
pub proof fn committed_rates_are_readable(rate: u64)
    ensures
        opt_rate(Some(rate)) == Some(rate_text(rate as nat)),
        opt_rate(None) is None,
{
}

} // verus!
