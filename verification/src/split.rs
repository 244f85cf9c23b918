//! Cutting text apart: words, lines, and the parts around a separator.

use vstd::prelude::*;
use vstd::string::*;

use crate::text::{chars_of, is_white, string_of, texts, white, Text};

verus! {

// ===== Parts around a separator ==========================================

/// The position of the first `c`, or the length when there is none.
pub open spec fn first_index(s: Text, c: char) -> nat
    decreases s.len(),
{
    if s.len() == 0 || s[0] == c {
        0
    } else {
        first_index(s.skip(1), c) + 1
    }
}

/// `first_index` is the least position that holds `c`.
pub proof fn first_index_is_least(s: Text, c: char)
    ensures
        first_index(s, c) <= s.len(),
        first_index(s, c) < s.len() ==> s[first_index(s, c) as int] == c,
        forall|i: int| 0 <= i < first_index(s, c) ==> s[i] != c,
    decreases s.len(),
{
    if s.len() > 0 && s[0] != c {
        first_index_is_least(s.skip(1), c);
        let n = first_index(s.skip(1), c);
        assert forall|i: int| 0 <= i < n + 1 implies s[i] != c by {
            if i > 0 {
                assert(s.skip(1)[i - 1] == s[i]);
            }
        }
    }
}

/// A position before which there is no `c` and at which there is one, or the
/// end, is `first_index`.
pub proof fn first_index_is(s: Text, c: char, n: int)
    requires
        0 <= n <= s.len(),
        forall|i: int| 0 <= i < n ==> s[i] != c,
        n < s.len() ==> s[n] == c,
    ensures
        first_index(s, c) == n,
{
    first_index_is_least(s, c);
}

/// The text before the first `c`; the whole text when there is none.
pub open spec fn before_first(s: Text, c: char) -> Text {
    s.take(first_index(s, c) as int)
}

/// The parts before and after the first `c`.
pub open spec fn split_first(s: Text, c: char) -> Option<(Text, Text)> {
    let n = first_index(s, c);
    if n < s.len() {
        Some((s.take(n as int), s.skip(n as int + 1)))
    } else {
        None
    }
}

/// The position after the last `c`; zero when there is none.
pub open spec fn after_last_index(s: Text, c: char) -> nat
    decreases s.len(),
{
    if s.len() == 0 || s.last() == c {
        s.len()
    } else {
        after_last_index(s.drop_last(), c)
    }
}

/// The text after the last `c`; the whole text when there is none.
pub open spec fn after_last(s: Text, c: char) -> Text {
    s.skip(after_last_index(s, c) as int)
}

/// The position of the first `c` in a string.
pub fn find_first(cs: &Vec<char>, c: char) -> (n: usize)
    ensures
        n == first_index(cs@, c),
        n <= cs.len(),
{
    let mut i: usize = 0;
    while i < cs.len() && cs[i] != c
        invariant
            i <= cs.len(),
            forall|j: int| 0 <= j < i ==> cs@[j] != c,
        decreases cs.len() - i,
    {
        i = i + 1;
    }
    proof {
        first_index_is(cs@, c, i as int);
    }
    i
}

/// The text before the first `c`.
pub fn head_before(s: &str, c: char) -> (r: String)
    ensures
        r@ == before_first(s@, c),
{
    let cs = chars_of(s);
    let n = find_first(&cs, c);
    proof {
        assert(cs@.subrange(0, n as int) =~= cs@.take(n as int));
    }
    string_of(&cs, 0, n)
}

/// Splits at the first `c`.
pub fn split_once(s: &str, c: char) -> (r: Option<(String, String)>)
    ensures
        match r {
            Some(p) => split_first(s@, c) == Some((p.0@, p.1@)),
            None => split_first(s@, c) is None,
        },
{
    let cs = chars_of(s);
    let n = find_first(&cs, c);
    if n < cs.len() {
        proof {
            assert(cs@.subrange(0, n as int) =~= cs@.take(n as int));
            assert(cs@.subrange(n as int + 1, cs@.len() as int) =~= cs@.skip(n as int + 1));
        }
        Some((string_of(&cs, 0, n), string_of(&cs, n + 1, cs.len())))
    } else {
        None
    }
}

/// The text after the last `c`.
pub fn tail_after(s: &str, c: char) -> (r: String)
    ensures
        r@ == after_last(s@, c),
{
    let cs = chars_of(s);
    let mut i: usize = cs.len();
    proof {
        assert(cs@.take(i as int) =~= cs@);
    }
    while i > 0 && cs[i - 1] != c
        invariant
            i <= cs.len(),
            cs@ == s@,
            after_last_index(s@, c) == after_last_index(cs@.take(i as int), c),
        decreases i,
    {
        proof {
            assert(cs@.take(i as int).drop_last() =~= cs@.take(i as int - 1));
        }
        i = i - 1;
    }
    proof {
        assert(after_last_index(s@, c) == i);
        assert(cs@.subrange(i as int, cs@.len() as int) =~= cs@.skip(i as int));
    }
    string_of(&cs, i, cs.len())
}

// ===== Words =============================================================

/// How many characters come before the first whitespace.
pub open spec fn word_len(s: Text) -> nat
    decreases s.len(),
{
    if s.len() == 0 || is_white(s[0]) {
        0
    } else {
        word_len(s.skip(1)) + 1
    }
}

/// A word is no longer than the text it starts.
pub proof fn word_len_bound(s: Text)
    ensures
        word_len(s) <= s.len(),
        s.len() > 0 && !is_white(s[0]) ==> word_len(s) > 0,
    decreases s.len(),
{
    if s.len() > 0 && !is_white(s[0]) {
        word_len_bound(s.skip(1));
    }
}

/// The maximal runs of non-whitespace characters, in order.
pub open spec fn words(s: Text) -> Seq<Text>
    decreases s.len(),
{
    if s.len() == 0 {
        Seq::empty()
    } else if is_white(s[0]) {
        words(s.skip(1))
    } else {
        proof {
            word_len_bound(s);
        }
        seq![s.take(word_len(s) as int)] + words(s.skip(word_len(s) as int))
    }
}

/// Splits on whitespace.
pub fn split_words(s: &str) -> (r: Vec<String>)
    ensures
        texts(r@) == words(s@),
{
    let cs = chars_of(s);
    let mut out: Vec<String> = Vec::new();
    let mut i: usize = 0;
    proof {
        assert(cs@.skip(0) =~= cs@);
        assert(texts(out@) + words(cs@) =~= words(cs@));
    }
    while i < cs.len()
        invariant
            i <= cs.len(),
            cs@ == s@,
            texts(out@) + words(cs@.skip(i as int)) == words(s@),
        decreases cs.len() - i,
    {
        let ghost rest = cs@.skip(i as int);
        if white(cs[i]) {
            proof {
                assert(rest.skip(1) =~= cs@.skip(i as int + 1));
            }
            i = i + 1;
        } else {
            let mut end: usize = i;
            while end < cs.len() && !white(cs[end])
                invariant
                    i <= end <= cs.len(),
                    rest == cs@.skip(i as int),
                    word_len(rest) == (end - i) + word_len(cs@.skip(end as int)),
                decreases cs.len() - end,
            {
                proof {
                    assert(cs@.skip(end as int).skip(1) =~= cs@.skip(end as int + 1));
                }
                end = end + 1;
            }
            let ghost before = texts(out@);
            let word = string_of(&cs, i, end);
            proof {
                word_len_bound(rest);
                assert(word_len(rest) == end - i);
                assert(rest.take(end - i) =~= cs@.subrange(i as int, end as int));
                assert(rest.skip(end - i) =~= cs@.skip(end as int));
            }
            out.push(word);
            proof {
                assert(texts(out@) =~= before.push(word@));
                assert(before.push(word@) + words(cs@.skip(end as int)) =~= before + (seq![word@]
                    + words(cs@.skip(end as int))));
            }
            i = end;
        }
    }
    proof {
        assert(words(cs@.skip(i as int)) =~= Seq::empty());
        assert(texts(out@) + words(cs@.skip(i as int)) =~= texts(out@));
    }
    out
}

// ===== Lines =============================================================

/// A line without the carriage return that precedes its line feed.
pub open spec fn without_cr(s: Text) -> Text {
    if s.len() > 0 && s.last() == '\r' {
        s.drop_last()
    } else {
        s
    }
}

/// The lines of a text: cut at line feeds, a line feed at the very end opening
/// no further line.
pub open spec fn lines(s: Text) -> Seq<Text>
    decreases s.len(),
{
    let n = first_index(s, '\n');
    if s.len() == 0 {
        Seq::empty()
    } else if n >= s.len() {
        seq![s]
    } else {
        seq![without_cr(s.take(n as int))] + lines(s.skip(n as int + 1))
    }
}

/// Splits into lines.
pub fn split_lines(s: &str) -> (r: Vec<String>)
    ensures
        texts(r@) == lines(s@),
{
    let cs = chars_of(s);
    let mut out: Vec<String> = Vec::new();
    let mut i: usize = 0;
    proof {
        assert(cs@.skip(0) =~= cs@);
        assert(texts(out@) + lines(cs@) =~= lines(cs@));
    }
    while i < cs.len()
        invariant
            i <= cs.len(),
            cs@ == s@,
            texts(out@) + lines(cs@.skip(i as int)) == lines(s@),
        decreases cs.len() - i,
    {
        let ghost rest = cs@.skip(i as int);
        let mut end: usize = i;
        while end < cs.len() && cs[end] != '\n'
            invariant
                i <= end <= cs.len(),
                forall|j: int| i <= j < end ==> cs@[j] != '\n',
            decreases cs.len() - end,
        {
            end = end + 1;
        }
        proof {
            assert forall|j: int| 0 <= j < end - i implies rest[j] != '\n' by {
                assert(rest[j] == cs@[i + j]);
            }
            if end < cs.len() {
                assert(rest[end - i] == cs@[end as int]);
            }
            first_index_is(rest, '\n', end - i);
        }
        let ghost before = texts(out@);
        let stop: usize = if end < cs.len() && end > i && cs[end - 1] == '\r' {
            end - 1
        } else {
            end
        };
        let line = string_of(&cs, i, stop);
        let next: usize = if end < cs.len() {
            end + 1
        } else {
            end
        };
        proof {
            assert(rest.take(end - i) =~= cs@.subrange(i as int, end as int));
            if end < cs.len() {
                assert(line@ =~= without_cr(rest.take(end - i)));
                assert(rest.skip(end - i + 1) =~= cs@.skip(next as int));
            } else {
                assert(line@ =~= rest);
                assert(lines(cs@.skip(next as int)) =~= Seq::empty());
            }
        }
        out.push(line);
        proof {
            assert(texts(out@) =~= before.push(line@));
            assert(before.push(line@) + lines(cs@.skip(next as int)) =~= before + (seq![line@]
                + lines(cs@.skip(next as int))));
            assert(seq![line@] + lines(cs@.skip(next as int)) =~= lines(rest));
        }
        i = next;
    }
    proof {
        assert(lines(cs@.skip(i as int)) =~= Seq::empty());
        assert(texts(out@) + lines(cs@.skip(i as int)) =~= texts(out@));
    }
    out
}

// ===== Prefixes and occurrences ==========================================

/// Whether `part` occurs at position `at`.
pub open spec fn occurs_at(s: Text, part: Text, at: int) -> bool {
    0 <= at && at + part.len() <= s.len() && s.subrange(at, at + part.len()) == part
}

/// Whether `part` occurs anywhere in `s`.
pub open spec fn occurs(s: Text, part: Text) -> bool {
    exists|at: int| occurs_at(s, part, at)
}

fn matches_at(s: &Vec<char>, part: &Vec<char>, at: usize) -> (r: bool)
    requires
        at <= s.len(),
    ensures
        r == occurs_at(s@, part@, at as int),
{
    if part.len() > s.len() - at {
        return false;
    }
    let mut i: usize = 0;
    while i < part.len()
        invariant
            i <= part.len(),
            at + part.len() <= s.len(),
            forall|j: int| 0 <= j < i ==> s@[at + j] == part@[j],
        decreases part.len() - i,
    {
        if s[at + i] != part[i] {
            proof {
                assert(s@.subrange(at as int, at + part@.len())[i as int] == s@[at + i]);
            }
            return false;
        }
        i = i + 1;
    }
    proof {
        assert(s@.subrange(at as int, at + part@.len()) =~= part@);
    }
    true
}

/// Whether `part` occurs in `s`.
pub fn contains(s: &str, part: &str) -> (r: bool)
    ensures
        r == occurs(s@, part@),
{
    let cs = chars_of(s);
    let ps = chars_of(part);
    let mut at: usize = 0;
    while at < cs.len()
        invariant
            at <= cs.len(),
            cs@ == s@,
            ps@ == part@,
            forall|j: int| 0 <= j < at ==> !occurs_at(s@, part@, j),
        decreases cs.len() - at,
    {
        if matches_at(&cs, &ps, at) {
            return true;
        }
        at = at + 1;
    }
    if matches_at(&cs, &ps, at) {
        return true;
    }
    false
}

// ===== Laws ==============================================================

/// Splitting at the first occurrence of a character gives what is before it and what
/// is behind it; and there is nothing to split only where it does not occur.
pub proof fn splits_are_at_the_first(s: Text, c: char)
    ensures
        split_first(s, c) is Some <==> s.contains(c),
        split_first(s, c) is Some ==> {
            let (a, b) = split_first(s, c)->0;
            s == a + seq![c] + b && !a.contains(c)
        },
        !s.contains(c) ==> before_first(s, c) == s,
        s.contains(c) ==> {
            let (a, b) = split_first(s, c)->0;
            before_first(s, c) == a
        },
{
    first_index_is_least(s, c);
    let n = first_index(s, c) as int;
    if s.contains(c) {
        let k = choose|k: int| 0 <= k < s.len() && s[k] == c;
        assert(n <= k);
    }
    if n < s.len() {
        let (a, b) = (s.take(n), s.skip(n + 1));
        assert(s =~= a + seq![c] + b);
        assert(s[n] == c);
        if a.contains(c) {
            let k = choose|k: int| 0 <= k < a.len() && a[k] == c;
            assert(s[k] == c);
        }
    } else {
        assert(s.take(n) =~= s);
    }
}

/// What is behind the last occurrence of a character has none of it, and what is before
/// ends with one; a text without any is behind as a whole.
pub proof fn tails_are_behind_the_last(s: Text, c: char)
    ensures
        after_last_index(s, c) <= s.len(),
        !after_last(s, c).contains(c),
        after_last_index(s, c) > 0 ==> s[after_last_index(s, c) - 1] == c,
        s == s.take(after_last_index(s, c) as int) + after_last(s, c),
    decreases s.len(),
{
    if s.len() > 0 && s.last() != c {
        let rest = s.drop_last();
        tails_are_behind_the_last(rest, c);
        let n = after_last_index(rest, c) as int;
        let tail = s.skip(n);
        if tail.contains(c) {
            let k = choose|k: int| 0 <= k < tail.len() && tail[k] == c;
            if k < tail.len() - 1 {
                assert(rest.skip(n)[k] == c);
            }
        }
        if n > 0 {
            assert(rest[n - 1] == s[n - 1]);
        }
    }
    let n = after_last_index(s, c) as int;
    assert(s =~= s.take(n) + s.skip(n));
}

proof fn word_len_is(w: Text, s: Text)
    requires
        forall|i: int| 0 <= i < w.len() ==> !is_white(#[trigger] w[i]),
        s.len() > 0 ==> is_white(s[0]),
    ensures
        word_len(w + s) == w.len(),
    decreases w.len(),
{
    if w.len() == 0 {
        assert(w + s =~= s);
    } else {
        assert((w + s).skip(1) =~= w.skip(1) + s);
        assert((w + s)[0] == w[0]);
        assert forall|i: int| 0 <= i < w.skip(1).len() implies !is_white(
            #[trigger] w.skip(1)[i],
        ) by {
            assert(w.skip(1)[i] == w[i + 1]);
        }
        word_len_is(w.skip(1), s);
    }
}

/// The words of a text: whitespace in front counts for nothing, a text without any is
/// one word, and a word ends at the first whitespace behind it.
pub proof fn words_end_at_whitespace(w: Text, blank: char, s: Text)
    requires
        is_white(blank),
        w.len() > 0,
        forall|i: int| 0 <= i < w.len() ==> !is_white(#[trigger] w[i]),
    ensures
        words(Seq::empty()) == Seq::<Text>::empty(),
        words(seq![blank] + s) == words(s),
        words(w) == seq![w],
        words(w + seq![blank] + s) == seq![w] + words(s),
{
    assert((seq![blank] + s).skip(1) =~= s);
    assert((seq![blank] + s)[0] == blank);
    word_len_is(w, Seq::empty());
    assert(w + Seq::<char>::empty() =~= w);
    assert(w.take(w.len() as int) =~= w);
    assert(w.skip(w.len() as int) =~= Seq::<char>::empty());
    reveal_with_fuel(words, 2);
    assert(seq![w] + Seq::<Text>::empty() =~= seq![w]);
    let tail = seq![blank] + s;
    let all = w + seq![blank] + s;
    assert(all =~= w + tail);
    word_len_is(w, tail);
    assert(all[0] == w[0]);
    assert(all.take(w.len() as int) =~= w);
    assert(all.skip(w.len() as int) =~= tail);
}

/// The lines of a text: it ends a line at each line feed, which drops a carriage return
/// before it; what is behind the last is a line when there is anything.
pub proof fn lines_end_at_line_feeds(a: Text, b: Text)
    requires
        forall|i: int| 0 <= i < a.len() ==> a[i] != '\n',
    ensures
        lines(Seq::empty()) == Seq::<Text>::empty(),
        a.len() > 0 ==> lines(a) == seq![a],
        lines(a + seq!['\n'] + b) == seq![without_cr(a)] + lines(b),
        without_cr(a + seq!['\r']) == a,
        a.len() > 0 && a.last() != '\r' ==> without_cr(a) == a,
{
    first_index_is(a, '\n', a.len() as int);
    let all = a + seq!['\n'] + b;
    assert(all[a.len() as int] == '\n');
    assert forall|i: int| 0 <= i < a.len() implies all[i] != '\n' by {
        assert(all[i] == a[i]);
    }
    first_index_is(all, '\n', a.len() as int);
    assert(all.take(a.len() as int) =~= a);
    assert(all.skip(a.len() as int + 1) =~= b);
    assert((a + seq!['\r']).drop_last() =~= a);
}

/// A text occurs in another exactly when the other is something, it, and something.
pub proof fn occurring_is_standing_inside(s: Text, part: Text, front: Text, back: Text)
    ensures
        occurs(front + part + back, part),
        occurs(s, part) ==> exists|a: Text, b: Text| #[trigger] (a + part + b) == s,
        occurs(s, Seq::empty()),
        part.len() > s.len() ==> !occurs(s, part),
{
    let all = front + part + back;
    assert(all.subrange(front.len() as int, (front.len() + part.len()) as int) =~= part);
    assert(occurs_at(all, part, front.len() as int));
    assert(s.subrange(0, 0) =~= Seq::<char>::empty());
    assert(occurs_at(s, Seq::empty(), 0));
    if occurs(s, part) {
        let at = choose|at: int| occurs_at(s, part, at);
        let (a, b) = (s.take(at), s.skip(at + part.len()));
        assert(a + part + b =~= s);
    }
}

} // verus!
