//! Ordering: the lexicographic order of text, and a stable sort.

use vstd::prelude::*;

use crate::text::{chars_of, same, texts, Text};

verus! {

// ===== Lexicographic order of text =======================================

/// Whether `a` comes before `b` or equals it, comparing code points from the
/// front. UTF-8 keeps this order, so it is also the order of the encoded bytes.
pub open spec fn text_le(a: Text, b: Text) -> bool
    decreases a.len(),
{
    if a.len() == 0 {
        true
    } else if b.len() == 0 {
        false
    } else if a[0] == b[0] {
        text_le(a.skip(1), b.skip(1))
    } else {
        (a[0] as int) < (b[0] as int)
    }
}

/// Every text comes no later than itself.
pub proof fn text_le_reflexive(a: Text)
    ensures
        text_le(a, a),
    decreases a.len(),
{
    if a.len() > 0 {
        text_le_reflexive(a.skip(1));
    }
}

/// Of two texts one comes no later than the other.
pub proof fn text_le_total(a: Text, b: Text)
    ensures
        text_le(a, b) || text_le(b, a),
    decreases a.len(),
{
    if a.len() > 0 && b.len() > 0 && a[0] == b[0] {
        text_le_total(a.skip(1), b.skip(1));
    }
}

/// Texts that come no later than each other are the same.
pub proof fn text_le_antisymmetric(a: Text, b: Text)
    requires
        text_le(a, b),
        text_le(b, a),
    ensures
        a == b,
    decreases a.len(),
{
    if a.len() > 0 && b.len() > 0 {
        text_le_antisymmetric(a.skip(1), b.skip(1));
        assert(a =~= seq![a[0]] + a.skip(1));
        assert(b =~= seq![b[0]] + b.skip(1));
    } else {
        assert(a =~= b);
    }
}

/// The order of texts carries over.
pub proof fn text_le_transitive(a: Text, b: Text, c: Text)
    requires
        text_le(a, b),
        text_le(b, c),
    ensures
        text_le(a, c),
    decreases a.len(),
{
    if a.len() > 0 && b.len() > 0 && c.len() > 0 && a[0] == b[0] && b[0] == c[0] {
        text_le_transitive(a.skip(1), b.skip(1), c.skip(1));
    }
}

fn code_point(c: char) -> (n: u32)
    ensures
        n as int == c as int,
{
    c as u32
}

/// Whether `a` comes before `b` or equals it.
pub fn le_text(a: &str, b: &str) -> (r: bool)
    ensures
        r == text_le(a@, b@),
{
    let x = chars_of(a);
    let y = chars_of(b);
    let mut i: usize = 0;
    proof {
        assert(x@.skip(0) =~= x@);
        assert(y@.skip(0) =~= y@);
    }
    while i < x.len() && i < y.len()
        invariant
            i <= x.len(),
            i <= y.len(),
            x@ == a@,
            y@ == b@,
            text_le(a@, b@) == text_le(x@.skip(i as int), y@.skip(i as int)),
        decreases x.len() - i,
    {
        let c: u32 = code_point(x[i]);
        let d: u32 = code_point(y[i]);
        proof {
            assert(x@.skip(i as int).skip(1) =~= x@.skip(i as int + 1));
            assert(y@.skip(i as int).skip(1) =~= y@.skip(i as int + 1));
        }
        if c != d {
            return c < d;
        }
        i = i + 1;
    }
    i == x.len()
}

// ===== Stable sort =======================================================

/// A value with a place in an order. Values may share a place.
pub trait Ranked: Sized {
    spec fn ranks_le(&self, other: &Self) -> bool;

    fn le(&self, other: &Self) -> (r: bool)
        ensures
            r == self.ranks_le(other),
    ;

    /// Any two values are comparable.
    proof fn rank_total(&self, other: &Self)
        ensures
            self.ranks_le(other) || other.ranks_le(self),
    ;

    proof fn rank_transitive(&self, mid: &Self, other: &Self)
        requires
            self.ranks_le(mid),
            mid.ranks_le(other),
        ensures
            self.ranks_le(other),
    ;
}

/// The position in a sorted list after everything that does not outrank `x`.
pub open spec fn place_for<T: Ranked>(s: Seq<T>, x: T) -> nat
    decreases s.len(),
{
    if s.len() == 0 || s.last().ranks_le(&x) {
        s.len()
    } else {
        place_for(s.drop_last(), x)
    }
}

/// The values in order, those of one place in the order they came in.
pub open spec fn stably_sorted<T: Ranked>(s: Seq<T>) -> Seq<T>
    decreases s.len(),
{
    if s.len() == 0 {
        s
    } else {
        let head = stably_sorted(s.drop_last());
        head.insert(place_for(head, s.last()) as int, s.last())
    }
}

/// Whether each item ranks no later than the next ones.
pub open spec fn in_rank_order<T: Ranked>(s: Seq<T>) -> bool {
    forall|i: int, j: int| #![trigger s[i], s[j]] 0 <= i < j < s.len() ==> s[i].ranks_le(&s[j])
}

/// The place for an item is within the list or behind it.
pub proof fn place_for_bound<T: Ranked>(s: Seq<T>, x: T)
    ensures
        place_for(s, x) <= s.len(),
    decreases s.len(),
{
    if s.len() > 0 {
        place_for_bound(s.drop_last(), x);
    }
}

/// In a sorted list, everything before the place ranks no higher than `x`, and
/// everything from there on does.
proof fn place_for_splits<T: Ranked>(s: Seq<T>, x: T)
    requires
        in_rank_order(s),
    ensures
        place_for(s, x) <= s.len(),
        forall|i: int| 0 <= i < place_for(s, x) ==> (#[trigger] s[i]).ranks_le(&x),
        forall|i: int| place_for(s, x) <= i < s.len() ==> !(#[trigger] s[i]).ranks_le(&x),
    decreases s.len(),
{
    if s.len() == 0 {
    } else if s.last().ranks_le(&x) {
        assert forall|i: int| 0 <= i < s.len() implies (#[trigger] s[i]).ranks_le(&x) by {
            if i < s.len() - 1 {
                s[i].rank_transitive(&s[s.len() - 1], &x);
            }
        }
    } else {
        let front = s.drop_last();
        assert(in_rank_order(front));
        place_for_splits(front, x);
        assert forall|i: int| place_for(s, x) <= i < s.len() implies !(#[trigger] s[i]).ranks_le(
            &x,
        ) by {
            if i < s.len() - 1 {
                assert(front[i] == s[i]);
            }
        }
        assert forall|i: int| 0 <= i < place_for(s, x) implies (#[trigger] s[i]).ranks_le(&x) by {
            assert(front[i] == s[i]);
        }
    }
}

/// Sorting keeps exactly the values that were there.
pub proof fn sorting_keeps_values<T: Ranked>(s: Seq<T>)
    ensures
        stably_sorted(s).len() == s.len(),
        stably_sorted(s).to_multiset() == s.to_multiset(),
    decreases s.len(),
{
    broadcast use vstd::seq_lib::group_to_multiset_ensures;

    if s.len() > 0 {
        let head = stably_sorted(s.drop_last());
        sorting_keeps_values(s.drop_last());
        place_for_bound(head, s.last());
        let at = place_for(head, s.last()) as int;
        vstd::seq_lib::to_multiset_insert(head, at, s.last());
        assert(s =~= s.drop_last().push(s.last()));
        assert(stably_sorted(s).to_multiset() =~= s.to_multiset());
    }
}

/// Sorting puts the values in order.
pub proof fn sorting_orders<T: Ranked>(s: Seq<T>)
    ensures
        in_rank_order(stably_sorted(s)),
    decreases s.len(),
{
    if s.len() > 0 {
        let head = stably_sorted(s.drop_last());
        let x = s.last();
        sorting_orders(s.drop_last());
        place_for_splits(head, x);
        let at = place_for(head, x) as int;
        let out = head.insert(at, x);
        assert forall|i: int, j: int| #![trigger out[i], out[j]]
            0 <= i < j < out.len() implies out[i].ranks_le(&out[j]) by {
            if i == at {
                head[j - 1].rank_total(&x);
            } else if j == at {
                assert(out[i] == head[i]);
            } else {
                let a = if i < at { i } else { i - 1 };
                let b = if j < at { j } else { j - 1 };
                assert(out[i] == head[a]);
                assert(out[j] == head[b]);
            }
        }
    }
}

/// A list already in order is left as it is: sorting twice changes nothing more.
pub proof fn sorting_leaves_sorted<T: Ranked>(s: Seq<T>)
    requires
        in_rank_order(s),
    ensures
        stably_sorted(s) == s,
    decreases s.len(),
{
    if s.len() > 0 {
        let front = s.drop_last();
        assert(in_rank_order(front));
        sorting_leaves_sorted(front);
        if front.len() > 0 {
            assert(front.last() == s[s.len() - 2]);
            assert(front.last().ranks_le(&s.last()));
        }
        assert(front.insert(front.len() as int, s.last()) =~= s);
    }
}

/// Whether values of one place are one value.
pub open spec fn places_are_unique<T: Ranked>(s: Seq<T>) -> bool {
    forall|x: T, y: T|
        s.contains(x) && s.contains(y) && #[trigger] x.ranks_le(&y) && #[trigger] y.ranks_le(&x)
            ==> x == y
}

proof fn sorted_lists_agree<T: Ranked>(a: Seq<T>, b: Seq<T>)
    requires
        in_rank_order(a),
        in_rank_order(b),
        places_are_unique(a),
        a.to_multiset() == b.to_multiset(),
    ensures
        a == b,
    decreases a.len(),
{
    broadcast use vstd::seq_lib::group_to_multiset_ensures;

    assert(a.len() == a.to_multiset().len());
    assert(b.len() == b.to_multiset().len());
    if a.len() == 0 {
        assert(a =~= b);
    } else {
        let x = a.last();
        let y = b.last();
        assert(a.contains(x)) by {
            assert(a[a.len() - 1] == x);
        }
        assert(b.contains(y)) by {
            assert(b[b.len() - 1] == y);
        }
        assert(a.to_multiset().count(y) > 0);
        assert(b.to_multiset().count(x) > 0);
        assert(a.contains(y));
        assert(b.contains(x));
        let i = choose|i: int| 0 <= i < a.len() && a[i] == y;
        let j = choose|j: int| 0 <= j < b.len() && b[j] == x;
        if i < a.len() - 1 {
            assert(a[i].ranks_le(&a[a.len() - 1]));
        }
        if j < b.len() - 1 {
            assert(b[j].ranks_le(&b[b.len() - 1]));
        }
        if x != y {
            assert(y.ranks_le(&x) && x.ranks_le(&y));
        }
        assert(x == y);
        let p = a.drop_last();
        let q = b.drop_last();
        assert(a =~= p.push(x));
        assert(b =~= q.push(x));
        assert(p.to_multiset() =~= a.to_multiset().remove(x));
        assert(q.to_multiset() =~= b.to_multiset().remove(x));
        assert forall|u: T, v: T|
            p.contains(u) && p.contains(v) && #[trigger] u.ranks_le(&v) && #[trigger] v.ranks_le(
                &u,
            ) implies u == v by {
            let k = choose|k: int| 0 <= k < p.len() && p[k] == u;
            let m = choose|m: int| 0 <= m < p.len() && p[m] == v;
            assert(a[k] == u && a[m] == v);
        }
        sorted_lists_agree(p, q);
    }
}

/// Sorting forgets the order in which values came: the same values sort to the
/// same list, as long as no two of them share a place.
pub proof fn sorting_forgets_order<T: Ranked>(a: Seq<T>, b: Seq<T>)
    requires
        a.to_multiset() == b.to_multiset(),
        places_are_unique(a),
    ensures
        stably_sorted(a) == stably_sorted(b),
{
    broadcast use vstd::seq_lib::group_to_multiset_ensures;

    sorting_keeps_values(a);
    sorting_keeps_values(b);
    sorting_orders(a);
    sorting_orders(b);
    let p = stably_sorted(a);
    assert forall|x: T, y: T|
        p.contains(x) && p.contains(y) && #[trigger] x.ranks_le(&y) && #[trigger] y.ranks_le(
            &x,
        ) implies x == y by {
        assert(p.to_multiset().count(x) > 0);
        assert(p.to_multiset().count(y) > 0);
        assert(a.contains(x));
        assert(a.contains(y));
    }
    sorted_lists_agree(p, stably_sorted(b));
}

/// Sorts stably, by insertion.
pub fn sort_stable<T: Ranked>(items: Vec<T>) -> (r: Vec<T>)
    ensures
        r@ == stably_sorted(items@),
{
    let ghost all = items@;
    let mut out: Vec<T> = Vec::new();
    proof {
        assert(all.take(0) =~= Seq::empty());
        assert(out@ =~= stably_sorted(all.take(0)));
    }
    for x in it: items
        invariant
            it.seq() == all,
            out@ == stably_sorted(all.take(it.index() as int)),
    {
        let ghost taken = all.take(it.index() as int + 1);
        proof {
            assert(taken.drop_last() =~= all.take(it.index() as int));
            assert(taken.last() == x);
        }
        let ghost before = out@;
        let mut at: usize = out.len();
        proof {
            assert(before.take(at as int) =~= before);
        }
        while at > 0 && !out[at - 1].le(&x)
            invariant
                out@ == before,
                at <= out.len(),
                place_for(before, x) == place_for(before.take(at as int), x),
            decreases at,
        {
            proof {
                assert(before.take(at as int).drop_last() =~= before.take(at as int - 1));
            }
            at = at - 1;
        }
        out.insert(at, x);
    }
    proof {
        assert(all.take(all.len() as int) =~= all);
    }
    out
}

// ===== Ascending lists ===================================================

/// Whether names ascend, none twice.
pub open spec fn ascending(names: Seq<Text>) -> bool {
    forall|i: int, j: int|
        #![trigger names[i], names[j]]
        0 <= i < j < names.len() ==> text_le(names[i], names[j]) && names[i] != names[j]
}

/// Adds a name to an ascending list, unless it is there.
pub fn insert_name(names: &mut Vec<String>, name: &str)
    requires
        ascending(texts(old(names)@)),
    ensures
        ascending(texts(final(names)@)),
        forall|n: Text|
            #[trigger] texts(final(names)@).contains(n) <==> texts(old(names)@).contains(n) || n
                == name@,
{
    let ghost before = texts(names@);
    let mut i: usize = 0;
    while i < names.len() && !le_text(name, names[i].as_str())
        invariant
            i <= names.len(),
            before == texts(names@),
            forall|j: int|
                0 <= j < i ==> text_le(#[trigger] before[j], name@) && before[j] != name@,
        decreases names.len() - i,
    {
        proof {
            text_le_total(name@, before[i as int]);
            text_le_reflexive(name@);
        }
        i = i + 1;
    }
    if i < names.len() && same(name, names[i].as_str()) {
        proof {
            assert(before[i as int] == name@);
            assert(before.contains(name@));
        }
        return;
    }
    names.insert(i, name.to_owned());
    proof {
        let after = texts(names@);
        assert(after =~= before.insert(i as int, name@));
        assert forall|a: int, b: int|
            #![trigger after[a], after[b]]
            0 <= a < b < after.len() implies text_le(after[a], after[b]) && after[a]
            != after[b] by {
            if a < i && b == i {
                assert(after[a] == before[a]);
            } else if a == i {
                assert(after[b] == before[b - 1]);
                if b - 1 > i {
                    assert(text_le(before[i as int], before[b - 1]));
                    text_le_transitive(name@, before[i as int], before[b - 1]);
                    if name@ == before[b - 1] {
                        text_le_antisymmetric(name@, before[i as int]);
                    }
                }
            } else {
                let p = if a < i { a } else { a - 1 };
                let q = if b < i { b } else { b - 1 };
                assert(after[a] == before[p]);
                assert(after[b] == before[q]);
            }
        }
        assert forall|n: Text| #[trigger] after.contains(n) <==> before.contains(n) || n
            == name@ by {
            if before.contains(n) {
                let k = choose|k: int| 0 <= k < before.len() && before[k] == n;
                if k < i {
                    assert(after[k] == n);
                } else {
                    assert(after[k + 1] == n);
                }
            }
            if n == name@ {
                assert(after[i as int] == n);
            }
            if after.contains(n) {
                let k = choose|k: int| 0 <= k < after.len() && after[k] == n;
                if k < i {
                    assert(before[k] == n);
                } else if k > i {
                    assert(before[k - 1] == n);
                }
            }
        }
    }
}

/// Two ascending lists of the same names are the same list.
pub proof fn ascending_lists_agree(a: Seq<Text>, b: Seq<Text>)
    requires
        ascending(a),
        ascending(b),
        forall|n: Text| a.contains(n) <==> b.contains(n),
    ensures
        a == b,
    decreases a.len(),
{
    if a.len() == 0 {
        if b.len() > 0 {
            assert(b.contains(b[0]));
            assert(a.contains(b[0]));
        }
        assert(a =~= b);
    } else {
        assert(a.contains(a.last()));
        assert(b.contains(a.last()));
        let k = choose|k: int| 0 <= k < b.len() && b[k] == a.last();
        assert(b.contains(b.last()));
        assert(a.contains(b.last()));
        let m = choose|m: int| 0 <= m < a.len() && a[m] == b.last();
        if k < b.len() - 1 {
            assert(text_le(b[k], b[b.len() - 1]) && b[k] != b[b.len() - 1]);
            if m < a.len() - 1 {
                assert(text_le(a[m], a[a.len() - 1]));
                text_le_antisymmetric(a.last(), b.last());
            }
        }
        assert(a.last() == b.last());
        let x = a.drop_last();
        let y = b.drop_last();
        assert(ascending(x)) by {
            assert forall|i: int, j: int|
                #![trigger x[i], x[j]]
                0 <= i < j < x.len() implies text_le(x[i], x[j]) && x[i] != x[j] by {
                assert(a[i] == x[i] && a[j] == x[j]);
            }
        }
        assert(ascending(y)) by {
            assert forall|i: int, j: int|
                #![trigger y[i], y[j]]
                0 <= i < j < y.len() implies text_le(y[i], y[j]) && y[i] != y[j] by {
                assert(b[i] == y[i] && b[j] == y[j]);
            }
        }
        assert forall|n: Text| x.contains(n) <==> y.contains(n) by {
            front_without_last(a, n);
            front_without_last(b, n);
        }
        ascending_lists_agree(x, y);
        assert(a =~= x.push(a.last()));
        assert(b =~= y.push(b.last()));
    }
}

proof fn front_without_last(a: Seq<Text>, n: Text)
    requires
        a.len() > 0,
        ascending(a),
    ensures
        a.drop_last().contains(n) <==> a.contains(n) && n != a.last(),
{
    let x = a.drop_last();
    if x.contains(n) {
        let i = choose|i: int| 0 <= i < x.len() && x[i] == n;
        assert(a[i] == n);
        assert(a[i] != a[a.len() - 1]);
    }
    if a.contains(n) && n != a.last() {
        let i = choose|i: int| 0 <= i < a.len() && a[i] == n;
        assert(x[i] == n);
    }
}

/// Texts are ordered by the first character in which they differ, by its code; and a
/// text comes before every longer one that starts with it.
pub proof fn texts_are_ordered_by_character(p: Text, x: char, a: Text, y: char, b: Text)
    ensures
        x != y ==> (text_le(p + seq![x] + a, p + seq![y] + b) <==> (x as u32) < (y as u32)),
        text_le(p, p + seq![x] + a),
        !text_le(p + seq![x] + a, p),
    decreases p.len(),
{
    let (s, t) = (p + seq![x] + a, p + seq![y] + b);
    if p.len() == 0 {
        assert(s[0] == x && t[0] == y);
    } else {
        let q = p.skip(1);
        assert(s.skip(1) =~= q + seq![x] + a);
        assert(t.skip(1) =~= q + seq![y] + b);
        assert(s[0] == p[0] && t[0] == p[0]);
        texts_are_ordered_by_character(q, x, a, y, b);
    }
}

/// What is sorted last into a list stands behind everything that does not outrank it
/// and before everything that does; the rest keeps its order. So equals stay in the
/// order they came in.
pub proof fn equals_keep_their_order<T: Ranked>(s: Seq<T>, x: T)
    ensures
        ({
            let before = stably_sorted(s);
            let after = stably_sorted(s.push(x));
            exists|n: int|
                {
                    &&& 0 <= n <= before.len()
                    &&& after == #[trigger] before.insert(n, x)
                    &&& forall|i: int| 0 <= i < n ==> (#[trigger] before[i]).ranks_le(&x)
                    &&& forall|i: int| n <= i < before.len() ==> !(#[trigger] before[i]).ranks_le(&x)
                }
        }),
{
    assert(s.push(x).drop_last() =~= s);
    assert(s.push(x).last() == x);
    sorting_orders(s);
    let before = stably_sorted(s);
    place_for_splits(before, x);
    let n = place_for(before, x) as int;
    assert(stably_sorted(s.push(x)) == before.insert(n, x));
}

} // verus!
