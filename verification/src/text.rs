//! Text primitives: building, trimming, splitting, padding and comparing strings.
//!
//! A string is modelled by its sequence of characters. Every function here is
//! stated over that sequence, so the views built on top can say what they render
//! character by character.

use vstd::prelude::*;
use vstd::string::*;

verus! {

/// The characters of a string.
pub type Text = Seq<char>;

/// `String::push` appends one character.
pub assume_specification[ String::push ](s: &mut String, c: char)
    ensures
        final(s)@ == old(s)@.push(c),
;

/// The view of an optional string.
pub open spec fn opt_text(o: Option<String>) -> Option<Text> {
    match o {
        Some(s) => Some(s@),
        None => None,
    }
}

/// The view of an optional string slice.
pub open spec fn opt_str(o: Option<&str>) -> Option<Text> {
    match o {
        Some(s) => Some(s@),
        None => None,
    }
}

/// The views of a list of strings.
pub open spec fn texts(v: Seq<String>) -> Seq<Text> {
    Seq::new(v.len(), |i: int| v[i]@)
}

/// Whether there is a text, and it is not empty.
pub open spec fn is_some_nonempty(o: Option<Text>) -> bool {
    o is Some && o->0.len() > 0
}

/// Copies an optional string.
pub fn copy_opt(o: &Option<String>) -> (r: Option<String>)
    ensures
        r == *o,
        opt_text(r) == opt_text(*o),
{
    match o {
        Some(s) => Some(s.clone()),
        None => None,
    }
}

/// An optional string as an optional slice.
pub fn as_opt_str(o: &Option<String>) -> (r: Option<&str>)
    ensures
        opt_str(r) == opt_text(*o),
{
    match o {
        Some(s) => Some(s.as_str()),
        None => None,
    }
}

/// Copies a list of strings.
pub fn copy_texts(v: &Vec<String>) -> (r: Vec<String>)
    ensures
        r@ == v@,
        texts(r@) == texts(v@),
{
    let mut out: Vec<String> = Vec::new();
    let mut i: usize = 0;
    while i < v.len()
        invariant
            i <= v.len(),
            out@ == v@.take(i as int),
        decreases v.len() - i,
    {
        out.push(v[i].clone());
        proof {
            assert(v@.take(i as int + 1) =~= v@.take(i as int).push(v@[i as int]));
        }
        i = i + 1;
    }
    proof {
        assert(v@.take(i as int) =~= v@);
    }
    out
}

// ===== Concatenation =====================================================

/// Two texts, one behind the other.
pub fn cat2(a: &str, b: &str) -> (r: String)
    ensures
        r@ == a@ + b@,
{
    let mut s = a.to_owned();
    s.append(b);
    s
}

/// Three texts, one behind the other.
pub fn cat3(a: &str, b: &str, c: &str) -> (r: String)
    ensures
        r@ == a@ + b@ + c@,
{
    let mut s = a.to_owned();
    s.append(b);
    s.append(c);
    s
}

/// Four texts, one behind the other.
pub fn cat4(a: &str, b: &str, c: &str, d: &str) -> (r: String)
    ensures
        r@ == a@ + b@ + c@ + d@,
{
    let mut s = a.to_owned();
    s.append(b);
    s.append(c);
    s.append(d);
    s
}

/// Five texts, one behind the other.
pub fn cat5(a: &str, b: &str, c: &str, d: &str, e: &str) -> (r: String)
    ensures
        r@ == a@ + b@ + c@ + d@ + e@,
{
    let mut s = a.to_owned();
    s.append(b);
    s.append(c);
    s.append(d);
    s.append(e);
    s
}

/// The parts in order, with the separator between neighbours.
pub open spec fn joined(parts: Seq<Text>, sep: Text) -> Text
    decreases parts.len(),
{
    if parts.len() == 0 {
        Seq::empty()
    } else if parts.len() == 1 {
        parts[0]
    } else {
        joined(parts.drop_last(), sep) + sep + parts.last()
    }
}

/// Joins strings with a separator.
pub fn join(parts: &Vec<String>, sep: &str) -> (r: String)
    ensures
        r@ == joined(texts(parts@), sep@),
{
    let mut out = String::new();
    let mut i: usize = 0;
    while i < parts.len()
        invariant
            i <= parts.len(),
            out@ == joined(texts(parts@).take(i as int), sep@),
        decreases parts.len() - i,
    {
        let ghost before = texts(parts@).take(i as int);
        let ghost after = texts(parts@).take(i as int + 1);
        proof {
            assert(after.drop_last() =~= before);
            assert(after.last() == parts@[i as int]@);
        }
        if i > 0 {
            out.append(sep);
        }
        out.append(parts[i].as_str());
        proof {
            if i == 0 {
                assert(out@ =~= after[0]);
            }
        }
        i = i + 1;
    }
    proof {
        assert(texts(parts@).take(i as int) =~= texts(parts@));
    }
    out
}

// ===== Characters ========================================================

/// The characters of a string as a vector.
pub fn chars_of(s: &str) -> (r: Vec<char>)
    ensures
        r@ == s@,
{
    let mut out: Vec<char> = Vec::new();
    for c in it: s.chars()
        invariant
            it.seq() == s@,
            out@ == s@.take(it.index() as int),
    {
        proof {
            assert(s@.take(it.index() as int + 1) =~= s@.take(it.index() as int).push(
                s@[it.index() as int],
            ));
        }
        out.push(c);
    }
    proof {
        assert(s@.take(s@.len() as int) =~= s@);
    }
    out
}

/// The string made of the characters in `from..to`.
pub fn string_of(cs: &Vec<char>, from: usize, to: usize) -> (r: String)
    requires
        from <= to <= cs.len(),
    ensures
        r@ == cs@.subrange(from as int, to as int),
{
    let mut out = String::new();
    let mut i: usize = from;
    while i < to
        invariant
            from <= i <= to <= cs.len(),
            out@ == cs@.subrange(from as int, i as int),
        decreases to - i,
    {
        out.push(cs[i]);
        proof {
            assert(cs@.subrange(from as int, i as int + 1) =~= cs@.subrange(
                from as int,
                i as int,
            ).push(cs@[i as int]));
        }
        i = i + 1;
    }
    out
}

/// Whether two strings hold the same characters.
pub fn same(a: &str, b: &str) -> (r: bool)
    ensures
        r == (a@ == b@),
{
    let x = chars_of(a);
    let y = chars_of(b);
    if x.len() != y.len() {
        return false;
    }
    let mut i: usize = 0;
    while i < x.len()
        invariant
            x.len() == y.len(),
            i <= x.len(),
            x@ == a@,
            y@ == b@,
            forall|j: int| 0 <= j < i ==> a@[j] == b@[j],
        decreases x.len() - i,
    {
        if x[i] != y[i] {
            return false;
        }
        i = i + 1;
    }
    proof {
        assert(a@ =~= b@);
    }
    true
}

/// Whether two optional strings are equal.
pub fn same_opt(a: &Option<String>, b: &Option<String>) -> (r: bool)
    ensures
        r == (opt_text(*a) == opt_text(*b)),
{
    match (a, b) {
        (Some(x), Some(y)) => same(x.as_str(), y.as_str()),
        (None, None) => true,
        _ => false,
    }
}

// ===== Whitespace ========================================================

/// The characters with the Unicode `White_Space` property.
pub open spec fn is_white(c: char) -> bool {
    ||| 0x9 <= c as u32 <= 0xD
    ||| c as u32 == 0x20
    ||| c as u32 == 0x85
    ||| c as u32 == 0xA0
    ||| c as u32 == 0x1680
    ||| 0x2000 <= c as u32 <= 0x200A
    ||| c as u32 == 0x2028
    ||| c as u32 == 0x2029
    ||| c as u32 == 0x202F
    ||| c as u32 == 0x205F
    ||| c as u32 == 0x3000
}

/// Tells whether a character is whitespace.
pub fn white(c: char) -> (r: bool)
    ensures
        r == is_white(c),
{
    let n: u32 = c as u32;
    (0x9 <= n && n <= 0xD) || n == 0x20 || n == 0x85 || n == 0xA0 || n == 0x1680 || (0x2000 <= n
        && n <= 0x200A) || n == 0x2028 || n == 0x2029 || n == 0x202F || n == 0x205F || n == 0x3000
}

/// A text without its leading whitespace.
pub open spec fn trim_start(s: Text) -> Text
    decreases s.len(),
{
    if s.len() > 0 && is_white(s[0]) {
        trim_start(s.skip(1))
    } else {
        s
    }
}

/// A text without its trailing whitespace.
pub open spec fn trim_end(s: Text) -> Text
    decreases s.len(),
{
    if s.len() > 0 && is_white(s.last()) {
        trim_end(s.drop_last())
    } else {
        s
    }
}

/// A text without whitespace at either end.
pub open spec fn trim(s: Text) -> Text {
    trim_end(trim_start(s))
}

/// A text without its trailing copies of `c`.
pub open spec fn trim_end_char(s: Text, c: char) -> Text
    decreases s.len(),
{
    if s.len() > 0 && s.last() == c {
        trim_end_char(s.drop_last(), c)
    } else {
        s
    }
}

/// A text without its leading copies of `c`.
pub open spec fn trim_start_char(s: Text, c: char) -> Text
    decreases s.len(),
{
    if s.len() > 0 && s[0] == c {
        trim_start_char(s.skip(1), c)
    } else {
        s
    }
}

/// Removes leading whitespace.
pub fn trimmed_start(s: &str) -> (r: String)
    ensures
        r@ == trim_start(s@),
{
    let cs = chars_of(s);
    let mut from: usize = 0;
    proof {
        assert(cs@.skip(0) =~= cs@);
    }
    while from < cs.len() && white(cs[from])
        invariant
            from <= cs.len(),
            cs@ == s@,
            trim_start(s@) == trim_start(cs@.skip(from as int)),
        decreases cs.len() - from,
    {
        proof {
            assert(cs@.skip(from as int).skip(1) =~= cs@.skip(from as int + 1));
        }
        from = from + 1;
    }
    proof {
        assert(cs@.skip(from as int) =~= cs@.subrange(from as int, cs@.len() as int));
    }
    string_of(&cs, from, cs.len())
}

/// Removes trailing whitespace.
pub fn trimmed_end(s: &str) -> (r: String)
    ensures
        r@ == trim_end(s@),
{
    let cs = chars_of(s);
    let mut to: usize = cs.len();
    proof {
        assert(cs@.take(to as int) =~= cs@);
    }
    while to > 0 && white(cs[to - 1])
        invariant
            to <= cs.len(),
            cs@ == s@,
            trim_end(s@) == trim_end(cs@.take(to as int)),
        decreases to,
    {
        proof {
            assert(cs@.take(to as int).drop_last() =~= cs@.take(to as int - 1));
        }
        to = to - 1;
    }
    proof {
        assert(cs@.take(to as int) =~= cs@.subrange(0, to as int));
    }
    string_of(&cs, 0, to)
}

/// Removes whitespace at both ends.
pub fn trimmed(s: &str) -> (r: String)
    ensures
        r@ == trim(s@),
{
    let front = trimmed_start(s);
    trimmed_end(front.as_str())
}

/// Removes trailing copies of a character.
pub fn trimmed_end_char(s: &str, c: char) -> (r: String)
    ensures
        r@ == trim_end_char(s@, c),
{
    let cs = chars_of(s);
    let mut to: usize = cs.len();
    proof {
        assert(cs@.take(to as int) =~= cs@);
    }
    while to > 0 && cs[to - 1] == c
        invariant
            to <= cs.len(),
            cs@ == s@,
            trim_end_char(s@, c) == trim_end_char(cs@.take(to as int), c),
        decreases to,
    {
        proof {
            assert(cs@.take(to as int).drop_last() =~= cs@.take(to as int - 1));
        }
        to = to - 1;
    }
    proof {
        assert(cs@.take(to as int) =~= cs@.subrange(0, to as int));
    }
    string_of(&cs, 0, to)
}

/// Removes leading copies of a character.
pub fn trimmed_start_char(s: &str, c: char) -> (r: String)
    ensures
        r@ == trim_start_char(s@, c),
{
    let cs = chars_of(s);
    let mut from: usize = 0;
    proof {
        assert(cs@.skip(0) =~= cs@);
    }
    while from < cs.len() && cs[from] == c
        invariant
            from <= cs.len(),
            cs@ == s@,
            trim_start_char(s@, c) == trim_start_char(cs@.skip(from as int), c),
        decreases cs.len() - from,
    {
        proof {
            assert(cs@.skip(from as int).skip(1) =~= cs@.skip(from as int + 1));
        }
        from = from + 1;
    }
    proof {
        assert(cs@.skip(from as int) =~= cs@.subrange(from as int, cs@.len() as int));
    }
    string_of(&cs, from, cs.len())
}

// ===== Laws of trimming ==================================================

/// Whether a text is nothing but whitespace.
pub open spec fn all_white(s: Text) -> bool {
    forall|i: int| 0 <= i < s.len() ==> is_white(#[trigger] s[i])
}

proof fn trim_start_drops(w: Text, s: Text)
    requires
        all_white(w),
    ensures
        trim_start(w + s) == trim_start(s),
    decreases w.len(),
{
    if w.len() == 0 {
        assert(w + s =~= s);
    } else {
        assert((w + s)[0] == w[0]);
        assert((w + s).skip(1) =~= w.skip(1) + s);
        assert(all_white(w.skip(1))) by {
            assert forall|i: int| 0 <= i < w.skip(1).len() implies is_white(
                #[trigger] w.skip(1)[i],
            ) by {
                assert(w.skip(1)[i] == w[i + 1]);
            }
        }
        trim_start_drops(w.skip(1), s);
    }
}

proof fn trim_end_drops(s: Text, w: Text)
    requires
        all_white(w),
    ensures
        trim_end(s + w) == trim_end(s),
    decreases w.len(),
{
    if w.len() == 0 {
        assert(s + w =~= s);
    } else {
        assert((s + w).last() == w.last());
        assert((s + w).drop_last() =~= s + w.drop_last());
        assert(all_white(w.drop_last())) by {
            assert forall|i: int| 0 <= i < w.drop_last().len() implies is_white(
                #[trigger] w.drop_last()[i],
            ) by {
                assert(w.drop_last()[i] == w[i]);
            }
        }
        trim_end_drops(s, w.drop_last());
    }
}

/// What `trim_start` leaves of a text with whitespace behind it.
proof fn trim_start_keeps_tail(s: Text, w: Text)
    requires
        all_white(w),
    ensures
        trim_end(trim_start(s + w)) == trim_end(trim_start(s)),
    decreases s.len(),
{
    if s.len() == 0 {
        assert(s + w =~= w);
        trim_start_drops(w, Seq::empty());
        assert(w + Seq::empty() =~= w);
    } else if is_white(s[0]) {
        assert((s + w)[0] == s[0]);
        assert((s + w).skip(1) =~= s.skip(1) + w);
        trim_start_keeps_tail(s.skip(1), w);
    } else {
        assert((s + w)[0] == s[0]);
        trim_end_drops(s, w);
    }
}

/// Whitespace around a text does not change what is left of it.
pub proof fn trim_ignores_surroundings(front: Text, s: Text, back: Text)
    requires
        all_white(front),
        all_white(back),
    ensures
        trim(front + s + back) == trim(s),
{
    assert(front + s + back =~= front + (s + back));
    trim_start_drops(front, s + back);
    trim_start_keeps_tail(s, back);
}

/// Trailing copies of a character do not change what is left of a text.
pub proof fn trim_end_char_ignores_tail(s: Text, c: char)
    ensures
        trim_end_char(s.push(c), c) == trim_end_char(s, c),
{
    assert(s.push(c).drop_last() =~= s);
}

// ===== Letters regardless of case ========================================

/// The code of a character, an ASCII capital counted as its small letter.
pub open spec fn folded(c: char) -> int {
    if 65 <= c as int <= 90 {
        c as int + 32
    } else {
        c as int
    }
}

/// Whether two texts are the same but for the case of ASCII letters.
pub open spec fn same_folded(a: Text, b: Text) -> bool {
    a.len() == b.len() && forall|i: int| 0 <= i < a.len() ==> folded(#[trigger] a[i]) == folded(b[i])
}

fn fold(c: char) -> (n: u32)
    ensures
        n as int == folded(c),
{
    let n: u32 = c as u32;
    if 65 <= n && n <= 90 {
        n + 32
    } else {
        n
    }
}

/// Compares two texts regardless of the case of ASCII letters.
pub fn same_ignoring_case(a: &str, b: &str) -> (r: bool)
    ensures
        r == same_folded(a@, b@),
{
    let x = chars_of(a);
    let y = chars_of(b);
    if x.len() != y.len() {
        return false;
    }
    let mut i: usize = 0;
    while i < x.len()
        invariant
            x.len() == y.len(),
            i <= x.len(),
            x@ == a@,
            y@ == b@,
            forall|j: int| 0 <= j < i ==> folded(#[trigger] a@[j]) == folded(b@[j]),
        decreases x.len() - i,
    {
        if fold(x[i]) != fold(y[i]) {
            return false;
        }
        i = i + 1;
    }
    true
}

// ===== Laws ==============================================================

/// Joining two lists, one behind the other, puts one separator between what each joins
/// to; a single part joins to itself, and no part to nothing.
pub proof fn joining_is_part_by_part(front: Seq<Text>, back: Seq<Text>, x: Text, sep: Text)
    ensures
        joined(Seq::empty(), sep) == Seq::<char>::empty(),
        joined(seq![x], sep) == x,
        front.len() > 0 && back.len() > 0 ==> joined(front + back, sep) == joined(front, sep) + sep
            + joined(back, sep),
    decreases back.len(),
{
    if front.len() > 0 && back.len() > 0 {
        let all = front + back;
        assert(all.drop_last() =~= front + back.drop_last());
        assert(all.last() == back.last());
        if back.len() == 1 {
            assert(front + back.drop_last() =~= front);
            assert(joined(all, sep) =~= joined(front, sep) + sep + joined(back, sep));
        } else {
            joining_is_part_by_part(front, back.drop_last(), x, sep);
            assert(joined(all, sep) =~= joined(front, sep) + sep + joined(back, sep));
        }
    }
}

proof fn trim_start_splits(s: Text)
    ensures
        trim_start(s).len() <= s.len(),
        s.skip(s.len() - trim_start(s).len()) == trim_start(s),
        all_white(s.take(s.len() - trim_start(s).len())),
        trim_start(s).len() > 0 ==> !is_white(trim_start(s)[0]),
    decreases s.len(),
{
    if s.len() > 0 && is_white(s[0]) {
        let rest = s.skip(1);
        trim_start_splits(rest);
        let n = rest.len() - trim_start(rest).len();
        assert(s.skip(n + 1) =~= rest.skip(n));
        assert forall|i: int| 0 <= i < n + 1 implies is_white(#[trigger] s.take(n + 1)[i]) by {
            if i > 0 {
                assert(rest.take(n)[i - 1] == s[i]);
            }
        }
    } else {
        assert(s.skip(0) =~= s);
    }
}

proof fn trim_end_splits(s: Text)
    ensures
        trim_end(s).len() <= s.len(),
        s.take(trim_end(s).len() as int) == trim_end(s),
        all_white(s.skip(trim_end(s).len() as int)),
        trim_end(s).len() > 0 ==> !is_white(trim_end(s).last()),
    decreases s.len(),
{
    if s.len() > 0 && is_white(s.last()) {
        let rest = s.drop_last();
        trim_end_splits(rest);
        let n = trim_end(rest).len() as int;
        assert(s.take(n) =~= rest.take(n));
        assert forall|i: int| 0 <= i < s.len() - n implies is_white(#[trigger] s.skip(n)[i]) by {
            if i < rest.len() - n {
                assert(rest.skip(n)[i] == s[n + i]);
            }
        }
    } else {
        assert(s.take(s.len() as int) =~= s);
    }
}

/// Trimming takes whitespace off both ends and nothing else: the text is what is left
/// with whitespace around it, and what is left neither starts nor ends with any.
pub proof fn trimming_takes_the_surroundings(s: Text)
    ensures
        exists|front: Text, back: Text| #[trigger]
            (front + trim(s) + back) == s && all_white(front) && all_white(back),
        trim(s).len() > 0 ==> !is_white(trim(s)[0]) && !is_white(trim(s).last()),
{
    trim_start_splits(s);
    let mid = trim_start(s);
    trim_end_splits(mid);
    let front = s.take(s.len() - mid.len());
    let back = mid.skip(trim(s).len() as int);
    assert(front + trim(s) + back =~= s) by {
        assert(mid =~= trim(s) + back) by {
            assert(mid =~= mid.take(trim(s).len() as int) + back);
        }
        assert(s =~= front + mid) by {
            assert(s =~= front + s.skip(s.len() - mid.len()));
        }
    }
    if trim(s).len() > 0 {
        assert(trim(s)[0] == mid[0]);
    }
}

/// Of the characters of plain text, the blank, the tab and the line ends are
/// whitespace, and no letter, digit or mark is.
pub proof fn whitespace_is_blank(c: char)
    ensures
        is_white(' ') && is_white('\t') && is_white('\n') && is_white('\r'),
        0x21 <= c as u32 <= 0x7e ==> !is_white(c),
        c as u32 <= 0x8 ==> !is_white(c),
        c as u32 == 0xa0 ==> is_white(c),
        c as u32 == 0x200b ==> !is_white(c),
        c as u32 > 0x3000 ==> !is_white(c),
{
}

/// Taking a character off the end of a text takes all of it there and nothing else.
pub proof fn ends_are_taken_off(s: Text, c: char)
    ensures
        trim_end_char(s, c).len() <= s.len(),
        s.take(trim_end_char(s, c).len() as int) == trim_end_char(s, c),
        forall|i: int| trim_end_char(s, c).len() <= i < s.len() ==> s[i] == c,
        trim_end_char(s, c).len() > 0 ==> trim_end_char(s, c).last() != c,
    decreases s.len(),
{
    if s.len() > 0 && s.last() == c {
        let rest = s.drop_last();
        ends_are_taken_off(rest, c);
        let n = trim_end_char(rest, c).len() as int;
        assert(s.take(n) =~= rest.take(n));
        assert forall|i: int| n <= i < s.len() implies s[i] == c by {
            if i < rest.len() {
                assert(rest[i] == s[i]);
            }
        }
    } else {
        assert(s.take(s.len() as int) =~= s);
    }
}

/// Taking a character off the start of a text takes all of it there and nothing else.
pub proof fn starts_are_taken_off(s: Text, c: char)
    ensures
        trim_start_char(s, c).len() <= s.len(),
        s.skip(s.len() - trim_start_char(s, c).len()) == trim_start_char(s, c),
        forall|i: int| 0 <= i < s.len() - trim_start_char(s, c).len() ==> s[i] == c,
        trim_start_char(s, c).len() > 0 ==> trim_start_char(s, c)[0] != c,
    decreases s.len(),
{
    if s.len() > 0 && s[0] == c {
        let rest = s.skip(1);
        starts_are_taken_off(rest, c);
        let n = rest.len() - trim_start_char(rest, c).len();
        assert(s.skip(n + 1) =~= rest.skip(n));
        assert forall|i: int| 0 <= i < n + 1 implies s[i] == c by {
            if i > 0 {
                assert(rest[i - 1] == s[i]);
            }
        }
    } else {
        assert(s.skip(0) =~= s);
    }
}

/// Regardless of case, a large letter is the same as its small one, and no two other
/// characters are the same.
pub proof fn only_letters_fold(c: char, d: char)
    ensures
        folded(c) == folded(d) <==> {
            ||| c == d
            ||| ('A' <= c <= 'Z' && d as u32 == c as u32 + 32)
            ||| ('A' <= d <= 'Z' && c as u32 == d as u32 + 32)
        },
        same_folded(seq![c], seq![d]) <==> folded(c) == folded(d),
{
    let (a, b) = (seq![c], seq![d]);
    if same_folded(a, b) {
        assert(folded(a[0]) == folded(b[0]));
    }
}

/// What is the same regardless of case is so character by character.
pub proof fn folding_is_char_by_char(a: Text, b: Text, x: Text, y: Text)
    requires
        a.len() == b.len(),
    ensures
        same_folded(a + x, b + y) <==> same_folded(a, b) && same_folded(x, y),
        same_folded(a, a),
{
    let (p, q) = (a + x, b + y);
    if same_folded(p, q) {
        assert forall|i: int| 0 <= i < a.len() implies folded(#[trigger] a[i]) == folded(b[i]) by {
            assert(p[i] == a[i] && q[i] == b[i]);
        }
        assert forall|i: int| 0 <= i < x.len() implies folded(#[trigger] x[i]) == folded(y[i]) by {
            assert(p[a.len() + i] == x[i] && q[b.len() + i] == y[i]);
        }
    }
    if same_folded(a, b) && same_folded(x, y) {
        assert forall|i: int| 0 <= i < p.len() implies folded(#[trigger] p[i]) == folded(q[i]) by {
            if i < a.len() {
                assert(p[i] == a[i] && q[i] == b[i]);
            } else {
                assert(p[i] == x[i - a.len()] && q[i] == y[i - b.len()]);
            }
        }
    }
}

} // verus!
