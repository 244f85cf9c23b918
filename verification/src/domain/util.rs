//! Filters shared by the views: what is empty or zero counts as absent.

use vstd::prelude::*;
use vstd::string::StringExecFns;

use crate::text::{cat2, cat4, chars_of, join, joined, opt_text, texts, Text};

verus! {

/// A text, or nothing when it is empty.
pub open spec fn text_if_any(s: Text) -> Option<Text> {
    if s.len() == 0 {
        None
    } else {
        Some(s)
    }
}

/// An optional string that holds something.
pub open spec fn kept_text(o: Option<String>) -> Option<Text> {
    match o {
        Some(s) => text_if_any(s@),
        None => None,
    }
}

/// A count that is not zero.
pub open spec fn kept_count(count: Option<u64>) -> Option<u64> {
    match count {
        Some(n) => if n > 0 {
            Some(n)
        } else {
            None
        },
        None => None,
    }
}

/// Drops an empty string.
pub fn non_empty(s: String) -> (r: Option<String>)
    ensures
        opt_text(r) == text_if_any(s@),
        s@.len() > 0 ==> r == Some(s),
{
    if s.as_str().is_empty() {
        None
    } else {
        Some(s)
    }
}

/// Drops an absent or empty string.
pub fn keep_text(o: Option<String>) -> (r: Option<String>)
    ensures
        opt_text(r) == kept_text(o),
{
    match o {
        Some(s) => non_empty(s),
        None => None,
    }
}

/// Drops an absent or zero count.
pub fn non_zero(count: Option<u64>) -> (r: Option<u64>)
    ensures
        r == kept_count(count),
{
    match count {
        Some(n) => if n > 0 {
            Some(n)
        } else {
            None
        },
        None => None,
    }
}

/// A small number as a wide one.
pub open spec fn widened(n: Option<u32>) -> Option<u64> {
    match n {
        Some(n) => Some(n as u64),
        None => None,
    }
}

/// Widens a small number.
pub fn widen(n: Option<u32>) -> (r: Option<u64>)
    ensures
        r == widened(n),
{
    match n {
        Some(n) => Some(n as u64),
        None => None,
    }
}

// ===== Sections of text ==================================================

/// Each item behind a prefix.
pub open spec fn prefixed(prefix: Text, items: Seq<Text>) -> Seq<Text> {
    Seq::new(items.len(), |i: int| prefix + items[i])
}

/// Puts a prefix before each item.
pub fn prefix_all(prefix: &str, items: &Vec<String>) -> (r: Vec<String>)
    ensures
        texts(r@) == prefixed(prefix@, texts(items@)),
{
    let mut out: Vec<String> = Vec::new();
    let mut i: usize = 0;
    while i < items.len()
        invariant
            i <= items.len(),
            out.len() == i,
            forall|j: int| 0 <= j < i ==> (#[trigger] out@[j])@ == prefix@ + items@[j]@,
        decreases items.len() - i,
    {
        out.push(cat2(prefix, items[i].as_str()));
        i = i + 1;
    }
    proof {
        assert(texts(out@) =~= prefixed(prefix@, texts(items@)));
    }
    out
}

/// A titled block after a blank line, one indented item per line; nothing when
/// there are no items.
pub open spec fn section_text(title: Text, items: Seq<Text>) -> Text {
    if items.len() == 0 {
        Seq::empty()
    } else {
        "\n\n"@ + title + "\n"@ + joined(prefixed("  "@, items), "\n"@)
    }
}

/// Renders a titled block.
pub fn section(title: &str, items: &Vec<String>) -> (r: String)
    ensures
        r@ == section_text(title@, texts(items@)),
{
    if items.is_empty() {
        return String::new();
    }
    let lines = prefix_all("  ", items);
    let body = join(&lines, "\n");
    cat4("\n\n", title, "\n", body.as_str())
}

/// The items one after another, each behind a lead.
pub open spec fn led(lead: Text, items: Seq<Text>) -> Text
    decreases items.len(),
{
    if items.len() == 0 {
        Seq::empty()
    } else {
        led(lead, items.drop_last()) + lead + items.last()
    }
}

/// Writes the items one after another, each behind a lead.
pub fn lead_all(lead: &str, items: &Vec<String>) -> (r: String)
    ensures
        r@ == led(lead@, texts(items@)),
{
    let mut out = String::new();
    let mut i: usize = 0;
    proof {
        assert(texts(items@).take(0) =~= Seq::empty());
    }
    while i < items.len()
        invariant
            i <= items.len(),
            out@ == led(lead@, texts(items@).take(i as int)),
        decreases items.len() - i,
    {
        out.append(lead);
        out.append(items[i].as_str());
        proof {
            assert(texts(items@).take(i as int + 1).drop_last() =~= texts(items@).take(i as int));
        }
        i = i + 1;
    }
    proof {
        assert(texts(items@).take(i as int) =~= texts(items@));
    }
    out
}

/// A text several times over.
pub open spec fn repeated(s: Text, n: nat) -> Text
    decreases n,
{
    if n == 0 {
        Seq::empty()
    } else {
        repeated(s, (n - 1) as nat) + s
    }
}

/// Writes a text several times over.
pub fn repeat(s: &str, n: u64) -> (r: String)
    ensures
        r@ == repeated(s@, n as nat),
{
    let mut out = String::new();
    let mut i: u64 = 0;
    while i < n
        invariant
            i <= n,
            out@ == repeated(s@, i as nat),
        decreases n - i,
    {
        out.append(s);
        i = i + 1;
    }
    out
}

/// A text filled up with blanks to a width.
pub open spec fn padded(s: Text, width: nat) -> Text {
    if s.len() < width {
        s + repeated(" "@, (width - s.len()) as nat)
    } else {
        s
    }
}

/// Fills a text up with blanks to a width.
pub fn pad_right(s: &str, width: usize) -> (r: String)
    ensures
        r@ == padded(s@, width as nat),
{
    let len = chars_of(s).len();
    if len < width {
        let fill = repeat(" ", (width - len) as u64);
        cat2(s, fill.as_str())
    } else {
        s.to_owned()
    }
}

// ===== Laws ==============================================================

/// What is empty, or zero, or absent is left out; all else is kept as it is.
pub proof fn only_what_holds_something_is_kept(
    s: Text,
    o: Option<String>,
    n: Option<u64>,
    w: Option<u32>,
)
    ensures
        text_if_any(s) is Some <==> s.len() > 0,
        s.len() > 0 ==> text_if_any(s) == Some(s),
        kept_text(o) is Some <==> o is Some && o->0@.len() > 0,
        kept_text(o) is Some ==> kept_text(o) == Some(o->0@),
        kept_count(n) is Some <==> n is Some && n->0 > 0,
        kept_count(n) is Some ==> kept_count(n) == n,
        widened(w) is Some <==> w is Some,
        w is Some ==> widened(w)->0 == w->0,
{
}

/// A section stands behind a blank line under its title, one indented item to a line; a
/// section without items is not there at all.
pub proof fn sections_list_their_items(title: Text, items: Seq<Text>, more: Seq<Text>, x: Text)
    ensures
        section_text(title, Seq::empty()) == Seq::<char>::empty(),
        section_text(title, seq![x]) == "\n\n"@ + title + "\n"@ + ("  "@ + x),
        items.len() > 0 && more.len() > 0 ==> section_text(title, items + more) == section_text(
            title,
            items,
        ) + "\n"@ + joined(prefixed("  "@, more), "\n"@),
        prefixed("  "@, items).len() == items.len(),
        forall|i: int| 0 <= i < items.len() ==> #[trigger] prefixed("  "@, items)[i] == "  "@ + items[i],
{
    let (a, b) = (prefixed("  "@, items), prefixed("  "@, more));
    assert(prefixed("  "@, items + more) =~= a + b);
    assert(prefixed("  "@, seq![x]) =~= seq!["  "@ + x]);
    crate::text::joining_is_part_by_part(a, b, "  "@ + x, "\n"@);
    if items.len() > 0 && more.len() > 0 {
        assert(section_text(title, items + more) =~= section_text(title, items) + "\n"@ + joined(
            b,
            "\n"@,
        ));
    }
}

/// Padding puts blanks behind a text up to a width, and leaves one that is as wide.
pub proof fn padding_fills_up(s: Text, width: nat, n: nat, c: char)
    ensures
        s.len() >= width ==> padded(s, width) == s,
        s.len() < width ==> padded(s, width).len() == width,
        s.len() < width ==> padded(s, width).take(s.len() as int) == s,
        forall|i: int| s.len() <= i < padded(s, width).len() ==> padded(s, width)[i] == ' ',
        repeated(seq![c], n).len() == n,
        forall|i: int| 0 <= i < n ==> #[trigger] repeated(seq![c], n)[i] == c,
    decreases n,
{
    reveal_strlit(" ");
    assert(" "@ =~= seq![' ']);
    if n > 0 {
        padding_fills_up(s, width, (n - 1) as nat, c);
        let rest = repeated(seq![c], (n - 1) as nat);
        assert(repeated(seq![c], n) == rest + seq![c]);
    }
    if s.len() < width {
        repeats_are(' ', (width - s.len()) as nat);
        assert(padded(s, width).take(s.len() as int) =~= s);
    }
}

proof fn repeats_are(c: char, n: nat)
    ensures
        repeated(seq![c], n).len() == n,
        forall|i: int| 0 <= i < n ==> #[trigger] repeated(seq![c], n)[i] == c,
    decreases n,
{
    if n > 0 {
        repeats_are(c, (n - 1) as nat);
    }
}

/// A list led by a text has the text before each of its items, in order.
pub proof fn leads_stand_before_each(lead: Text, front: Seq<Text>, back: Seq<Text>, x: Text)
    ensures
        led(lead, Seq::empty()) == Seq::<char>::empty(),
        led(lead, seq![x]) == lead + x,
        led(lead, front + back) == led(lead, front) + led(lead, back),
    decreases back.len(),
{
    let one = seq![x];
    assert(one.drop_last() =~= Seq::empty());
    assert(one.last() == x);
    reveal_with_fuel(led, 2);
    assert(Seq::<char>::empty() + lead + x =~= lead + x);
    if back.len() == 0 {
        assert(front + back =~= front);
        assert(led(lead, front) + Seq::<char>::empty() =~= led(lead, front));
    } else {
        leads_stand_before_each(lead, front, back.drop_last(), x);
        assert((front + back).drop_last() =~= front + back.drop_last());
        assert((front + back).last() == back.last());
        assert(led(lead, front + back) =~= led(lead, front) + led(lead, back));
    }
}

} // verus!
