//! Tag listing view.

use vstd::prelude::*;

use crate::netbox::models::TagInfo;
use crate::number::{decimal, decimal_text};
use crate::text::{cat3, cat5, join, joined, texts, Text};

verus! {

/// One tag.
#[derive(Debug)]
pub struct TagRow {
    pub name: String,
    pub slug: String,
    pub color: Option<String>,
    pub count: Option<u64>,
}

/// A list of tags.
#[derive(Debug)]
pub struct TagsView {
    pub tags: Vec<TagRow>,
}

impl TagRow {
    /// `slug  name`, with the number of tagged items behind it when known.
    pub open spec fn line(self) -> Text {
        match self.count {
            Some(n) => self.slug@ + "  "@ + self.name@ + "  ("@ + (decimal_text(n as nat) + ")"@),
            None => self.slug@ + "  "@ + self.name@,
        }
    }
}

/// Whether a row carries what a tag record says.
pub open spec fn row_is_of(row: TagRow, tag: TagInfo) -> bool {
    &&& row.name == tag.name
    &&& row.slug == tag.slug
    &&& row.color == tag.color
    &&& row.count == tag.tagged_items
}

/// The lines of a list of tags.
pub open spec fn tag_lines(tags: Seq<TagRow>) -> Seq<Text> {
    Seq::new(tags.len(), |i: int| tags[i].line())
}

impl TagsView {
    /// Turns tag records into rows, one each, in order.
    pub fn from_models(tags: Vec<TagInfo>) -> (r: Self)
        ensures
            r.tags@.len() == tags@.len(),
            forall|i: int| 0 <= i < tags@.len() ==> row_is_of(#[trigger] r.tags@[i], tags@[i]),
    {
        let ghost all = tags@;
        let mut rows: Vec<TagRow> = Vec::new();
        for t in it: tags
            invariant
                it.seq() == all,
                rows@.len() == it.index(),
                forall|j: int| 0 <= j < rows@.len() ==> row_is_of(#[trigger] rows@[j], all[j]),
        {
            rows.push(TagRow { name: t.name, slug: t.slug, color: t.color, count: t.tagged_items });
        }
        TagsView { tags: rows }
    }

    /// The text shown: one line per tag.
    pub open spec fn plain(self) -> Text {
        if self.tags@.len() == 0 {
            "no tags"@
        } else {
            joined(tag_lines(self.tags@), "\n"@)
        }
    }

    /// Renders one line per tag.
    pub fn to_plain(&self) -> (r: String)
        ensures
            r@ == self.plain(),
    {
        if self.tags.is_empty() {
            return "no tags".to_owned();
        }
        let mut lines: Vec<String> = Vec::new();
        let mut i: usize = 0;
        while i < self.tags.len()
            invariant
                i <= self.tags.len(),
                lines.len() == i,
                forall|j: int| 0 <= j < i ==> (#[trigger] lines@[j])@ == self.tags@[j].line(),
            decreases self.tags.len() - i,
        {
            let t = &self.tags[i];
            let line = match t.count {
                Some(n) => {
                    let count = decimal(n);
                    let tail = crate::text::cat2(count.as_str(), ")");
                    cat5(t.slug.as_str(), "  ", t.name.as_str(), "  (", tail.as_str())
                },
                None => cat3(t.slug.as_str(), "  ", t.name.as_str()),
            };
            lines.push(line);
            i = i + 1;
        }
        proof {
            assert(texts(lines@) =~= tag_lines(self.tags@));
        }
        join(&lines, "\n")
    }
}

// ===== Laws ==============================================================

/// Tags are listed one to a line, in order, by slug and name, with how many objects bear
/// them where that is known.
pub proof fn tags_are_listed_line_by_line(tags: Seq<TagRow>, i: int)
    requires
        0 <= i < tags.len(),
    ensures
        tag_lines(tags).len() == tags.len(),
        tags[i].count is None ==> tag_lines(tags)[i] == tags[i].slug@ + "  "@ + tags[i].name@,
        tags[i].count is Some ==> tag_lines(tags)[i] == tags[i].slug@ + "  "@ + tags[i].name@
            + "  ("@ + decimal_text(tags[i].count->0 as nat) + ")"@,
{
    if tags[i].count is Some {
        let start = tags[i].slug@ + "  "@ + tags[i].name@ + "  ("@;
        let n = decimal_text(tags[i].count->0 as nat);
        assert(start + (n + ")"@) =~= start + n + ")"@);
    }
}

/// A list of tags is its lines, and says so when there are none.
pub proof fn tag_lists_are_their_lines(v: TagsView)
    ensures
        v.tags@.len() == 0 ==> v.plain() == "no tags"@,
        v.tags@.len() > 0 ==> v.plain() == joined(tag_lines(v.tags@), "\n"@),
{
}

} // verus!
