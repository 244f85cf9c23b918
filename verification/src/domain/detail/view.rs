//! The parts of a detail screen.

use vstd::prelude::*;

use crate::netbox::search::ObjectKind;
use crate::text::{join, joined, texts, Text};

verus! {

/// An object that a row or a link opens.
pub type Target = (ObjectKind, u64);

/// A row of a section, and the object it opens.
#[derive(Debug)]
pub struct DetailRow {
    pub text: String,
    pub target: Option<(ObjectKind, u64)>,
}

/// What a row shows and opens.
pub type Line = (Text, Option<Target>);

/// A row that opens an object.
pub open spec fn link_line(text: Text, kind: ObjectKind, id: u64) -> Line {
    (text, Some((kind, id)))
}

/// A row that opens nothing.
pub open spec fn plain_line(text: Text) -> Line {
    (text, None)
}

impl DetailRow {
    pub open spec fn view(&self) -> Line {
        (self.text@, self.target)
    }

    /// A row that opens an object.
    pub fn link(text: String, kind: ObjectKind, id: u64) -> (r: Self)
        ensures
            r@ == link_line(text@, kind, id),
            r.text == text,
    {
        DetailRow { text, target: Some((kind, id)) }
    }

    /// A row that opens nothing.
    pub fn plain(text: String) -> (r: Self)
        ensures
            r@ == plain_line(text@),
            r.text == text,
    {
        DetailRow { text, target: None }
    }
}

/// What rows show and open.
pub open spec fn lines_of(rows: Seq<DetailRow>) -> Seq<Line> {
    Seq::new(rows.len(), |i: int| rows[i]@)
}

/// What rows show, line by line.
pub open spec fn lines_text(lines: Seq<Line>) -> Text {
    joined(Seq::new(lines.len(), |i: int| lines[i].0), "\n"@)
}

/// Flattens rows to text, one line each.
pub fn rows_to_text(rows: &Vec<DetailRow>) -> (r: String)
    ensures
        r@ == lines_text(lines_of(rows@)),
{
    let mut out: Vec<String> = Vec::new();
    let mut i: usize = 0;
    while i < rows.len()
        invariant
            i <= rows.len(),
            out.len() == i,
            forall|j: int| 0 <= j < i ==> (#[trigger] out@[j])@ == rows@[j].text@,
        decreases rows.len() - i,
    {
        out.push(rows[i].text.clone());
        i = i + 1;
    }
    proof {
        let lines = lines_of(rows@);
        assert(texts(out@) =~= Seq::new(lines.len(), |k: int| lines[k].0));
    }
    join(&out, "\n")
}

/// Adds a row.
pub fn push_row(rows: &mut Vec<DetailRow>, row: DetailRow)
    ensures
        lines_of(final(rows)@) == lines_of(old(rows)@).push(row@),
{
    let ghost before = lines_of(rows@);
    rows.push(row);
    proof {
        assert(lines_of(rows@) =~= before.push(row@));
    }
}

/// A list of one row.
pub fn single_row(row: DetailRow) -> (r: Vec<DetailRow>)
    ensures
        lines_of(r@) == seq![row@],
{
    let mut rows: Vec<DetailRow> = Vec::new();
    rows.push(row);
    proof {
        assert(lines_of(rows@) =~= seq![row@]);
    }
    rows
}

/// A switchable section of a screen: text, or rows when there are any.
#[derive(Debug)]
pub struct DetailTab {
    pub key: char,
    pub label: String,
    pub body: String,
    pub rows: Vec<DetailRow>,
}

/// What a tab holds.
pub struct Tab {
    pub key: char,
    pub label: Text,
    pub body: Text,
    pub rows: Seq<Line>,
}

/// A tab of rows, with the same rows as its text.
pub open spec fn row_tab(key: char, label: Text, rows: Seq<Line>) -> Tab {
    Tab { key, label, body: lines_text(rows), rows }
}

/// A tab of text.
pub open spec fn text_tab(key: char, label: Text, body: Text) -> Tab {
    Tab { key, label, body, rows: Seq::empty() }
}

impl DetailTab {
    pub open spec fn view(&self) -> Tab {
        Tab { key: self.key, label: self.label@, body: self.body@, rows: lines_of(self.rows@) }
    }

    /// A tab of rows.
    pub fn of_rows(key: char, label: String, rows: Vec<DetailRow>) -> (r: Self)
        ensures
            r@ == row_tab(key, label@, lines_of(rows@)),
    {
        let body = rows_to_text(&rows);
        DetailTab { key, label, body, rows }
    }

    /// A tab of text.
    pub fn of_text(key: char, label: String, body: String) -> (r: Self)
        ensures
            r@ == text_tab(key, label@, body@),
    {
        let r = DetailTab { key, label, body, rows: Vec::new() };
        proof {
            assert(lines_of(r.rows@) =~= Seq::empty());
        }
        r
    }
}

/// What tabs hold.
pub open spec fn tabs_of(tabs: Seq<DetailTab>) -> Seq<Tab> {
    Seq::new(tabs.len(), |i: int| tabs[i]@)
}

/// Adds a tab.
pub fn push_tab(tabs: &mut Vec<DetailTab>, tab: DetailTab)
    ensures
        tabs_of(final(tabs)@) == tabs_of(old(tabs)@).push(tab@),
{
    let ghost before = tabs_of(tabs@);
    tabs.push(tab);
    proof {
        assert(tabs_of(tabs@) =~= before.push(tab@));
    }
}

/// A link to a related object.
#[derive(Debug)]
pub struct ObjectLink {
    pub kind: ObjectKind,
    pub id: u64,
    pub relation: String,
    pub label: String,
}

/// What a link names and opens.
pub struct Link {
    pub kind: ObjectKind,
    pub id: u64,
    pub relation: Text,
    pub label: Text,
}

impl ObjectLink {
    pub open spec fn view(&self) -> Link {
        Link { kind: self.kind, id: self.id, relation: self.relation@, label: self.label@ }
    }
}

/// What links name and open.
pub open spec fn links_of(links: Seq<ObjectLink>) -> Seq<Link> {
    Seq::new(links.len(), |i: int| links[i]@)
}

/// A detail screen.
#[derive(Debug)]
pub struct DetailView {
    pub kind: ObjectKind,
    pub id: u64,
    pub title: String,
    pub body: String,
    pub tabs: Vec<DetailTab>,
    pub links: Vec<ObjectLink>,
    pub header: Vec<String>,
    pub summary_label: String,
    pub summary_rows: Vec<DetailRow>,
}

/// What a detail screen holds.
pub struct Screen {
    pub kind: ObjectKind,
    pub id: u64,
    pub title: Text,
    pub body: Text,
    pub tabs: Seq<Tab>,
    pub links: Seq<Link>,
    pub header: Seq<Text>,
    pub summary_label: Text,
    pub summary_rows: Seq<Line>,
}

/// A screen with a title, a body, tabs and links.
pub open spec fn plain_screen(
    kind: ObjectKind,
    id: u64,
    title: Text,
    body: Text,
    tabs: Seq<Tab>,
    links: Seq<Link>,
) -> Screen {
    Screen {
        kind,
        id,
        title,
        body,
        tabs,
        links,
        header: Seq::empty(),
        summary_label: Seq::empty(),
        summary_rows: Seq::empty(),
    }
}

impl DetailView {
    pub open spec fn view(&self) -> Screen {
        Screen {
            kind: self.kind,
            id: self.id,
            title: self.title@,
            body: self.body@,
            tabs: tabs_of(self.tabs@),
            links: links_of(self.links@),
            header: texts(self.header@),
            summary_label: self.summary_label@,
            summary_rows: lines_of(self.summary_rows@),
        }
    }

    /// A screen without tabs or links.
    pub fn new(kind: ObjectKind, id: u64, title: String, body: String) -> (r: Self)
        ensures
            r@ == plain_screen(kind, id, title@, body@, Seq::empty(), Seq::empty()),
    {
        let r = DetailView {
            kind,
            id,
            title,
            body,
            tabs: Vec::new(),
            links: Vec::new(),
            header: Vec::new(),
            summary_label: String::new(),
            summary_rows: Vec::new(),
        };
        proof {
            assert(tabs_of(r.tabs@) =~= Seq::empty());
            assert(links_of(r.links@) =~= Seq::empty());
            assert(texts(r.header@) =~= Seq::empty());
            assert(lines_of(r.summary_rows@) =~= Seq::empty());
        }
        r
    }

    /// The screen with these tabs.
    pub fn with_tabs(self, tabs: Vec<DetailTab>) -> (r: Self)
        ensures
            r@ == (Screen { tabs: tabs_of(tabs@), ..self@ }),
    {
        let mut v = self;
        v.tabs = tabs;
        v
    }

    /// The screen with these links.
    pub fn with_links(self, links: Vec<ObjectLink>) -> (r: Self)
        ensures
            r@ == (Screen { links: links_of(links@), ..self@ }),
    {
        let mut v = self;
        v.links = links;
        v
    }

    /// The screen with this header.
    pub fn with_header(self, header: Vec<String>) -> (r: Self)
        ensures
            r@ == (Screen { header: texts(header@), ..self@ }),
    {
        let mut v = self;
        v.header = header;
        v
    }

    /// The screen with this label and these rows for its summary.
    pub fn with_summary(self, label: String, rows: Vec<DetailRow>) -> (r: Self)
        ensures
            r@ == (Screen {
                summary_label: label@,
                summary_rows: lines_of(rows@),
                ..self@
            }),
    {
        let mut v = self;
        v.summary_label = label;
        v.summary_rows = rows;
        v
    }
}

// ===== Laws ==============================================================

/// What a screen holds is what its fields hold, position by position: each row with its
/// text and the object it opens, each tab with its key, label, text and rows, each link
/// with its relation, label and the object it opens.
pub proof fn screens_hold_what_they_show(v: DetailView, i: int, j: int)
    ensures
        v@.kind == v.kind && v@.id == v.id && v@.title == v.title@ && v@.body == v.body@,
        v@.summary_label == v.summary_label@,
        v@.tabs.len() == v.tabs@.len(),
        0 <= i < v.tabs@.len() ==> {
            &&& v@.tabs[i].key == v.tabs@[i].key
            &&& v@.tabs[i].label == v.tabs@[i].label@
            &&& v@.tabs[i].body == v.tabs@[i].body@
            &&& v@.tabs[i].rows.len() == v.tabs@[i].rows@.len()
            &&& 0 <= j < v.tabs@[i].rows@.len() ==> v@.tabs[i].rows[j] == (
                v.tabs@[i].rows@[j].text@,
                v.tabs@[i].rows@[j].target,
            )
        },
        v@.links.len() == v.links@.len(),
        0 <= i < v.links@.len() ==> {
            &&& v@.links[i].kind == v.links@[i].kind
            &&& v@.links[i].id == v.links@[i].id
            &&& v@.links[i].relation == v.links@[i].relation@
            &&& v@.links[i].label == v.links@[i].label@
        },
        v@.header.len() == v.header@.len(),
        0 <= i < v.header@.len() ==> v@.header[i] == v.header@[i]@,
        v@.summary_rows.len() == v.summary_rows@.len(),
        0 <= i < v.summary_rows@.len() ==> v@.summary_rows[i] == (
            v.summary_rows@[i].text@,
            v.summary_rows@[i].target,
        ),
{
}

/// A tab of rows has the same rows as its text, one to a line; a tab of text has none.
pub proof fn tabs_read_as_their_rows(
    key: char,
    label: Text,
    body: Text,
    rows: Seq<Line>,
    more: Seq<Line>,
    line: Line,
)
    ensures
        row_tab(key, label, rows).key == key && row_tab(key, label, rows).label == label
            && row_tab(key, label, rows).rows == rows,
        row_tab(key, label, seq![line]).body == line.0,
        rows.len() > 0 && more.len() > 0 ==> row_tab(key, label, rows + more).body == row_tab(
            key,
            label,
            rows,
        ).body + "\n"@ + row_tab(key, label, more).body,
        text_tab(key, label, body).key == key && text_tab(key, label, body).label == label
            && text_tab(key, label, body).body == body && text_tab(key, label, body).rows.len() == 0,
{
    let a = Seq::new(rows.len(), |i: int| rows[i].0);
    let b = Seq::new(more.len(), |i: int| more[i].0);
    let both = rows + more;
    assert(Seq::new(both.len(), |i: int| both[i].0) =~= a + b);
    let one = seq![line];
    assert(Seq::new(one.len(), |i: int| one[i].0) =~= seq![line.0]);
    crate::text::joining_is_part_by_part(a, b, line.0, "\n"@);
}

} // verus!
