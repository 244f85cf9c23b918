//! Plain-text output: `key: value` blocks.

use vstd::prelude::*;

use crate::number::{decimal, decimal_text};
use crate::text::{cat3, join, joined, opt_text, texts, Text};

verus! {

/// A labelled value.
pub type Row = (Text, Text);

/// The empty list of rows.
pub open spec fn no_rows() -> Seq<Row> {
    Seq::empty()
}

/// One row.
pub open spec fn row(key: Text, value: Text) -> Seq<Row> {
    seq![(key, value)]
}

/// One row when there is a value, none otherwise.
pub open spec fn opt_row(key: Text, value: Option<Text>) -> Seq<Row> {
    match value {
        Some(v) => seq![(key, v)],
        None => Seq::empty(),
    }
}

/// A row with a number, when there is one.
pub open spec fn count_row(key: Text, n: Option<u64>) -> Seq<Row> {
    match n {
        Some(n) => seq![(key, decimal_text(n as nat))],
        None => Seq::empty(),
    }
}

/// A row with the items of a list, when it has any.
pub open spec fn list_row(key: Text, items: Seq<Text>) -> Seq<Row> {
    if items.len() == 0 {
        Seq::empty()
    } else {
        seq![(key, joined(items, ", "@))]
    }
}

/// A truth value as text.
pub open spec fn flag_text(b: bool) -> Text {
    if b {
        "true"@
    } else {
        "false"@
    }
}

/// A row with a truth value, when there is one.
pub open spec fn flag_row(key: Text, b: Option<bool>) -> Seq<Row> {
    match b {
        Some(b) => seq![(key, flag_text(b))],
        None => Seq::empty(),
    }
}

/// A block of labelled values, in the order they were added.
#[derive(Debug)]
pub struct KeyValues {
    pub rows: Vec<(String, String)>,
}

impl KeyValues {
    pub open spec fn view(&self) -> Seq<Row> {
        Seq::new(self.rows@.len(), |i: int| (self.rows@[i].0@, self.rows@[i].1@))
    }

    /// Starts without rows.
    pub fn new() -> (r: Self)
        ensures
            r@ == no_rows(),
    {
        let r = KeyValues { rows: Vec::new() };
        proof {
            assert(r@ =~= no_rows());
        }
        r
    }

    /// Adds a row.
    pub fn push(&mut self, key: &str, value: &str)
        ensures
            final(self)@ == old(self)@ + row(key@, value@),
    {
        let ghost before = self@;
        self.rows.push((key.to_owned(), value.to_owned()));
        proof {
            assert(self@ =~= before + row(key@, value@));
        }
    }

    /// Adds a row when there is a value.
    pub fn push_opt(&mut self, key: &str, value: &Option<String>)
        ensures
            final(self)@ == old(self)@ + opt_row(key@, opt_text(*value)),
    {
        match value {
            Some(v) => self.push(key, v.as_str()),
            None => {
                proof {
                    assert(self@ + opt_row(key@, None) =~= self@);
                }
            },
        }
    }

    /// Adds a row with a number when there is one.
    pub fn push_count(&mut self, key: &str, n: Option<u64>)
        ensures
            final(self)@ == old(self)@ + count_row(key@, n),
    {
        match n {
            Some(n) => {
                let s = decimal(n);
                self.push(key, s.as_str())
            },
            None => {
                proof {
                    assert(self@ + count_row(key@, None) =~= self@);
                }
            },
        }
    }

    /// Adds a row with the items of a list when it has any.
    pub fn push_list(&mut self, key: &str, items: &Vec<String>)
        ensures
            final(self)@ == old(self)@ + list_row(key@, texts(items@)),
    {
        if items.is_empty() {
            proof {
                assert(self@ + list_row(key@, texts(items@)) =~= self@);
            }
        } else {
            let s = join(items, ", ");
            self.push(key, s.as_str());
        }
    }

    /// Adds a row with a truth value when there is one.
    pub fn push_flag(&mut self, key: &str, b: Option<bool>)
        ensures
            final(self)@ == old(self)@ + flag_row(key@, b),
    {
        match b {
            Some(b) => self.push(
                key,
                if b {
                    "true"
                } else {
                    "false"
                },
            ),
            None => {
                proof {
                    assert(self@ + flag_row(key@, None) =~= self@);
                }
            },
        }
    }

    /// Renders one `key: value` line per row.
    pub fn render(&self) -> (r: String)
        ensures
            r@ == rendered(self@),
    {
        let mut lines: Vec<String> = Vec::new();
        let mut i: usize = 0;
        while i < self.rows.len()
            invariant
                i <= self.rows.len(),
                texts(lines@) == row_lines(self@).take(i as int),
            decreases self.rows.len() - i,
        {
            let ghost before = texts(lines@);
            let line = cat3(self.rows[i].0.as_str(), ": ", self.rows[i].1.as_str());
            proof {
                assert(row_lines(self@)[i as int] == line@);
                assert(row_lines(self@).take(i as int + 1) =~= before.push(line@));
            }
            lines.push(line);
            proof {
                assert(texts(lines@) =~= before.push(line@));
            }
            i = i + 1;
        }
        proof {
            assert(row_lines(self@).take(i as int) =~= row_lines(self@));
        }
        join(&lines, "\n")
    }
}

/// The `key: value` lines of a block.
pub open spec fn row_lines(rows: Seq<Row>) -> Seq<Text> {
    Seq::new(rows.len(), |i: int| rows[i].0 + ": "@ + rows[i].1)
}

/// A block as text.
pub open spec fn rendered(rows: Seq<Row>) -> Text {
    joined(row_lines(rows), "\n"@)
}

// ===== Laws ==============================================================

/// What is in rows put together is in one of them; and a row is there with its own key
/// and value, or not at all.
pub proof fn rows_are_found_where_they_were_put()
    ensures
        forall|a: Seq<Row>, b: Seq<Row>, x: Row| #[trigger]
            (a + b).contains(x) <==> a.contains(x) || b.contains(x),
        forall|x: Row| !(#[trigger] no_rows().contains(x)),
        forall|k: Text, v: Text, x: Row| #[trigger] row(k, v).contains(x) <==> x == (k, v),
        forall|k: Text, o: Option<Text>, x: Row| #[trigger]
            opt_row(k, o).contains(x) <==> o is Some && x == (k, o->0),
        forall|k: Text, o: Option<u64>, x: Row| #[trigger]
            count_row(k, o).contains(x) <==> o is Some && x == (k, decimal_text(o->0 as nat)),
        forall|k: Text, items: Seq<Text>, x: Row| #[trigger]
            list_row(k, items).contains(x) <==> items.len() > 0 && x == (k, joined(items, ", "@)),
        forall|k: Text, o: Option<bool>, x: Row| #[trigger]
            flag_row(k, o).contains(x) <==> {
                ||| (o == Some(true) && x == (k, "true"@))
                ||| (o == Some(false) && x == (k, "false"@))
            },
{
    assert forall|a: Seq<Row>, b: Seq<Row>, x: Row| #[trigger] (a + b).contains(x) <==> a.contains(x)
        || b.contains(x) by {
        let c = a + b;
        if c.contains(x) {
            let i = choose|i: int| 0 <= i < c.len() && c[i] == x;
            if i < a.len() {
                assert(a[i] == x);
            } else {
                assert(b[i - a.len()] == x);
            }
        }
        if a.contains(x) {
            let i = choose|i: int| 0 <= i < a.len() && a[i] == x;
            assert(c[i] == x);
        }
        if b.contains(x) {
            let i = choose|i: int| 0 <= i < b.len() && b[i] == x;
            assert(c[a.len() + i] == x);
        }
    }
    assert forall|r: Row, x: Row| #[trigger] seq![r].contains(x) <==> x == r by {
        assert(seq![r][0] == r);
    }
    assert forall|k: Text, v: Text, x: Row| #[trigger] row(k, v).contains(x) <==> x == (k, v) by {
        assert(seq![(k, v)].contains(x) <==> x == (k, v));
    }
    assert forall|k: Text, o: Option<Text>, x: Row| #[trigger] opt_row(k, o).contains(x) <==> o is Some
        && x == (k, o->0) by {
        assert(seq![(k, o->0)].contains(x) <==> x == (k, o->0));
    }
    assert forall|k: Text, o: Option<u64>, x: Row| #[trigger] count_row(k, o).contains(x)
        <==> o is Some && x == (k, decimal_text(o->0 as nat)) by {
        let r = (k, decimal_text(o->0 as nat));
        assert(seq![r].contains(x) <==> x == r);
    }
    assert forall|k: Text, items: Seq<Text>, x: Row| #[trigger] list_row(k, items).contains(x)
        <==> items.len() > 0 && x == (k, joined(items, ", "@)) by {
        let r = (k, joined(items, ", "@));
        assert(seq![r].contains(x) <==> x == r);
    }
    assert forall|k: Text, o: Option<bool>, x: Row| #[trigger] flag_row(k, o).contains(x) <==> {
        ||| (o == Some(true) && x == (k, "true"@))
        ||| (o == Some(false) && x == (k, "false"@))
    } by {
        let r = (k, flag_text(o->0));
        assert(seq![r].contains(x) <==> x == r);
    }
}

/// Rows are rendered one to a line, each as its key, a colon and its value, in order.
pub proof fn rows_are_rendered_line_by_line(front: Seq<Row>, back: Seq<Row>, key: Text, value: Text)
    ensures
        rendered(Seq::empty()) == Seq::<char>::empty(),
        rendered(seq![(key, value)]) == key + ": "@ + value,
        front.len() > 0 && back.len() > 0 ==> rendered(front + back) == rendered(front) + "\n"@
            + rendered(back),
{
    crate::text::joining_is_part_by_part(
        row_lines(front),
        row_lines(back),
        key + ": "@ + value,
        "\n"@,
    );
    assert(row_lines(Seq::empty()) =~= Seq::empty());
    assert(row_lines(seq![(key, value)]) =~= seq![key + ": "@ + value]);
    assert(row_lines(front + back) =~= row_lines(front) + row_lines(back));
}

} // verus!
