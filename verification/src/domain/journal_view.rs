//! Journal entries of an object.

use vstd::prelude::*;
use vstd::string::StringExecFns;

use crate::domain::util::{prefix_all, prefixed};
use crate::json::{get_str, string_at, Json};
use crate::netbox::models::{id_text, opt_value, value_of, JournalEntry};
use crate::split::{lines, split_lines};
use crate::text::{cat3, join, joined, opt_text, texts, Text};

verus! {

/// One journal entry, flattened for display.
#[derive(Debug)]
pub struct JournalEntryRow {
    pub created: Option<String>,
    pub kind: Option<String>,
    pub author: Option<String>,
    pub comments: String,
}

/// The journal entries of an object.
#[derive(Debug)]
pub struct JournalView {
    pub entries: Vec<JournalEntryRow>,
}

/// Who wrote an entry: the display text, user name or name of a nested user, or
/// `#<id>` of a bare one.
pub open spec fn author_name(v: Json) -> Option<Text> {
    if string_at(v, "display"@) is Some {
        string_at(v, "display"@)
    } else if string_at(v, "username"@) is Some {
        string_at(v, "username"@)
    } else if string_at(v, "name"@) is Some {
        string_at(v, "name"@)
    } else {
        match v.whole() {
            Some(n) => Some("#"@ + crate::number::decimal_text(n)),
            None => None,
        }
    }
}

/// The author of an entry.
pub open spec fn entry_author(e: JournalEntry) -> Option<Text> {
    match e.created_by {
        Some(v) => author_name(v),
        None => None,
    }
}

fn author_label(v: &Json) -> (r: Option<String>)
    ensures
        opt_text(r) == author_name(*v),
{
    if let Some(s) = get_str(v, "display") {
        return Some(s.to_owned());
    }
    if let Some(s) = get_str(v, "username") {
        return Some(s.to_owned());
    }
    if let Some(s) = get_str(v, "name") {
        return Some(s.to_owned());
    }
    match v.as_u64() {
        Some(n) => Some(id_text(n)),
        None => None,
    }
}

/// Whether a row carries what an entry says.
pub open spec fn row_is_of(row: JournalEntryRow, e: JournalEntry) -> bool {
    &&& row.created == e.created
    &&& opt_text(row.kind) == opt_value(e.kind)
    &&& opt_text(row.author) == entry_author(e)
    &&& row.comments == e.comments
}

/// The text of an optional part, or nothing.
pub open spec fn text_or_nothing(o: Option<String>) -> Text {
    match o {
        Some(s) => s@,
        None => Seq::empty(),
    }
}

impl JournalEntryRow {
    /// The heading: when, what kind, by whom.
    pub open spec fn heading(self) -> Text {
        text_or_nothing(self.created) + match self.kind {
            Some(k) => "  "@ + k@,
            None => Seq::empty(),
        } + match self.author {
            Some(a) => "  ("@ + a@ + ")"@,
            None => Seq::empty(),
        }
    }

    /// The comment, indented.
    pub open spec fn body(self) -> Text {
        joined(prefixed("  "@, lines(self.comments@)), "\n"@)
    }

    /// The heading with the comment below it.
    pub open spec fn block(self) -> Text {
        if self.body().len() == 0 {
            self.heading()
        } else {
            self.heading() + "\n"@ + self.body()
        }
    }

    fn render(&self) -> (r: String)
        ensures
            r@ == self.block(),
    {
        let mut header = String::new();
        if let Some(c) = &self.created {
            header.append(c.as_str());
        }
        proof {
            assert(header@ =~= text_or_nothing(self.created));
        }
        let ghost first = header@;
        if let Some(k) = &self.kind {
            let part = crate::text::cat2("  ", k.as_str());
            header.append(part.as_str());
        }
        let ghost second = header@;
        proof {
            if self.kind is None {
                assert(second =~= first + Seq::empty());
            }
        }
        if let Some(a) = &self.author {
            let part = cat3("  (", a.as_str(), ")");
            header.append(part.as_str());
        }
        proof {
            if self.author is None {
                assert(header@ =~= second + Seq::empty());
            }
            assert(header@ == self.heading());
        }
        let ls = split_lines(self.comments.as_str());
        let indented = prefix_all("  ", &ls);
        let body = join(&indented, "\n");
        if body.as_str().is_empty() {
            header
        } else {
            cat3(header.as_str(), "\n", body.as_str())
        }
    }
}

/// The blocks of a list of entries.
pub open spec fn entry_blocks(entries: Seq<JournalEntryRow>) -> Seq<Text> {
    Seq::new(entries.len(), |i: int| entries[i].block())
}

impl JournalView {
    /// Turns entries into rows, one each, in order.
    pub fn from_models(entries: Vec<JournalEntry>) -> (r: Self)
        ensures
            r.entries@.len() == entries@.len(),
            forall|i: int|
                0 <= i < entries@.len() ==> row_is_of(#[trigger] r.entries@[i], entries@[i]),
    {
        let ghost all = entries@;
        let mut rows: Vec<JournalEntryRow> = Vec::new();
        for e in it: entries
            invariant
                it.seq() == all,
                rows@.len() == it.index(),
                forall|j: int| 0 <= j < rows@.len() ==> row_is_of(#[trigger] rows@[j], all[j]),
        {
            let author = match &e.created_by {
                Some(v) => author_label(v),
                None => None,
            };
            let kind = value_of(&e.kind);
            rows.push(JournalEntryRow { created: e.created, kind, author, comments: e.comments });
        }
        JournalView { entries: rows }
    }

    /// The text shown: the blocks, a blank line apart.
    pub open spec fn plain(self) -> Text {
        if self.entries@.len() == 0 {
            "no journal entries"@
        } else {
            joined(entry_blocks(self.entries@), "\n\n"@)
        }
    }

    /// Renders the entries.
    pub fn to_plain(&self) -> (r: String)
        ensures
            r@ == self.plain(),
    {
        if self.entries.is_empty() {
            return "no journal entries".to_owned();
        }
        let mut blocks: Vec<String> = Vec::new();
        let mut i: usize = 0;
        while i < self.entries.len()
            invariant
                i <= self.entries.len(),
                blocks.len() == i,
                forall|j: int| 0 <= j < i ==> (#[trigger] blocks@[j])@ == self.entries@[j].block(),
            decreases self.entries.len() - i,
        {
            blocks.push(self.entries[i].render());
            i = i + 1;
        }
        proof {
            assert(texts(blocks@) =~= entry_blocks(self.entries@));
        }
        join(&blocks, "\n\n")
    }
}

// ===== Laws ==============================================================

/// An entry's author goes by the display text, else the user name, else the name, and a
/// bare number by `#` and that number.
pub proof fn authors_are_named(v: Json)
    ensures
        ({
            let display = string_at(v, "display"@);
            let username = string_at(v, "username"@);
            let name = string_at(v, "name"@);
            &&& display is Some ==> author_name(v) == display
            &&& display is None && username is Some ==> author_name(v) == username
            &&& display is None && username is None && name is Some ==> author_name(v) == name
            &&& display is None && username is None && name is None && v.whole() is Some
                ==> author_name(v) == Some("#"@ + crate::number::decimal_text(v.whole()->0))
            &&& display is None && username is None && name is None && v.whole() is None
                ==> author_name(v) is None
        }),
{
}

/// A row keeps its entry's time, kind, author and comments.
pub proof fn journal_rows_keep_their_entry(row: JournalEntryRow, e: JournalEntry)
    requires
        row_is_of(row, e),
    ensures
        row.created == e.created && row.comments == e.comments,
        row.kind is Some <==> e.kind is Some,
        e.kind is Some ==> row.kind->0@ == e.kind->0.value@,
        row.author is Some <==> e.created_by is Some && author_name(e.created_by->0) is Some,
        row.author is Some ==> Some(row.author->0@) == author_name(e.created_by->0),
{
}

/// An entry is headed by its time, its kind and its author, as far as they are known; its
/// comments follow below, each line indented, and an entry without any is just its heading.
pub proof fn entries_read_below_their_heading(row: JournalEntryRow)
    ensures
        row.created is Some && row.kind is Some && row.author is Some ==> row.heading()
            == row.created->0@ + "  "@ + row.kind->0@ + "  ("@ + row.author->0@ + ")"@,
        row.created is Some && row.kind is None && row.author is None ==> row.heading()
            == row.created->0@,
        row.created is Some && row.kind is Some && row.author is None ==> row.heading()
            == row.created->0@ + "  "@ + row.kind->0@,
        row.created is Some && row.kind is None && row.author is Some ==> row.heading()
            == row.created->0@ + "  ("@ + row.author->0@ + ")"@,
        row.created is None && row.kind is None && row.author is None ==> row.heading().len() == 0,
        row.body() == joined(
            Seq::new(lines(row.comments@).len(), |i: int| "  "@ + lines(row.comments@)[i]),
            "\n"@,
        ),
        row.comments@.len() == 0 ==> row.block() == row.heading(),
        row.body().len() > 0 ==> row.block() == row.heading() + "\n"@ + row.body(),
{
    if row.created is Some {
        let t = row.created->0@;
        assert(t + Seq::<char>::empty() =~= t);
        if row.kind is Some {
            let k = row.kind->0@;
            assert(t + ("  "@ + k) =~= t + "  "@ + k);
            assert(t + "  "@ + k + Seq::<char>::empty() =~= t + "  "@ + k);
            if row.author is Some {
                let a = row.author->0@;
                assert(t + "  "@ + k + ("  ("@ + a + ")"@) =~= t + "  "@ + k + "  ("@ + a + ")"@);
            }
        } else if row.author is Some {
            let a = row.author->0@;
            assert(t + ("  ("@ + a + ")"@) =~= t + "  ("@ + a + ")"@);
        }
    }
    assert(prefixed("  "@, lines(row.comments@)) =~= Seq::new(
        lines(row.comments@).len(),
        |i: int| "  "@ + lines(row.comments@)[i],
    ));
}

/// A journal is its entries with a blank line between them, in order, and says so when
/// there are none.
pub proof fn journals_are_their_entries(v: JournalView, i: int)
    ensures
        v.entries@.len() == 0 ==> v.plain() == "no journal entries"@,
        v.entries@.len() > 0 ==> v.plain() == joined(entry_blocks(v.entries@), "\n\n"@),
        entry_blocks(v.entries@).len() == v.entries@.len(),
        0 <= i < v.entries@.len() ==> entry_blocks(v.entries@)[i] == v.entries@[i].block(),
{
}

} // verus!
