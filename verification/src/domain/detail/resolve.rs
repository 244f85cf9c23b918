//! Resolving a reference to one object.

use vstd::prelude::*;

use crate::error::NboxError;
use crate::netbox::models::{BriefObject, IpAddress, Prefix, Vlan};
use crate::number::{number_value, parse_u8};
use crate::split::{after_last, after_last_index, split_first, split_once, tail_after};
use crate::text::{cat3, cat5, join, joined, texts, Text};

verus! {

// ===== Narrowing candidates ==============================================

/// The scopes that a lookup can be narrowed by.
#[derive(Debug, Clone, Copy, PartialEq, Eq, Structural)]
pub enum ScopeField {
    Vrf,
    Site,
    Group,
}

/// An object that lives in scopes.
pub trait Scoped: Sized {
    spec fn scope(&self, field: ScopeField) -> Option<BriefObject>;

    fn scope_ref(&self, field: ScopeField) -> (r: Option<&BriefObject>)
        ensures
            self.scope(field) == match r {
                Some(b) => Some(*b),
                None => None,
            },
    ;
}

impl Scoped for IpAddress {
    open spec fn scope(&self, field: ScopeField) -> Option<BriefObject> {
        match field {
            ScopeField::Vrf => self.vrf,
            _ => None,
        }
    }

    fn scope_ref(&self, field: ScopeField) -> (r: Option<&BriefObject>) {
        match field {
            ScopeField::Vrf => self.vrf.as_ref(),
            _ => None,
        }
    }
}

impl Scoped for Prefix {
    open spec fn scope(&self, field: ScopeField) -> Option<BriefObject> {
        match field {
            ScopeField::Vrf => self.vrf,
            _ => None,
        }
    }

    fn scope_ref(&self, field: ScopeField) -> (r: Option<&BriefObject>) {
        match field {
            ScopeField::Vrf => self.vrf.as_ref(),
            _ => None,
        }
    }
}

impl Scoped for Vlan {
    open spec fn scope(&self, field: ScopeField) -> Option<BriefObject> {
        match field {
            ScopeField::Site => self.site,
            ScopeField::Group => self.group,
            ScopeField::Vrf => None,
        }
    }

    fn scope_ref(&self, field: ScopeField) -> (r: Option<&BriefObject>) {
        match field {
            ScopeField::Site => self.site.as_ref(),
            ScopeField::Group => self.group.as_ref(),
            ScopeField::Vrf => None,
        }
    }
}

/// Whether an object's scope is what a reference names: exactly, or loosely.
pub open spec fn in_scope<T: Scoped>(item: T, field: ScopeField, query: Text, exact: bool) -> bool {
    match item.scope(field) {
        Some(b) => if exact {
            b.named_exactly(query)
        } else {
            b.named_loosely(query)
        },
        None => false,
    }
}

/// Whether the scope of any object is named exactly.
pub open spec fn any_exact<T: Scoped>(items: Seq<T>, field: ScopeField, query: Text) -> bool {
    exists|i: int| 0 <= i < items.len() && in_scope(#[trigger] items[i], field, query, true)
}

/// The objects in a scope, in order.
pub open spec fn those_in<T: Scoped>(
    items: Seq<T>,
    field: ScopeField,
    query: Text,
    exact: bool,
) -> Seq<T>
    decreases items.len(),
{
    if items.len() == 0 {
        Seq::empty()
    } else {
        let rest = those_in(items.drop_last(), field, query, exact);
        if in_scope(items.last(), field, query, exact) {
            rest.push(items.last())
        } else {
            rest
        }
    }
}

/// The candidates left by a scope: those named exactly when there are any, else
/// those named loosely; all of them without a reference.
pub open spec fn retained<T: Scoped>(
    items: Seq<T>,
    query: Option<Text>,
    field: ScopeField,
) -> Seq<T> {
    match query {
        Some(q) => those_in(items, field, q, any_exact(items, field, q)),
        None => items,
    }
}

fn is_in_scope<T: Scoped>(item: &T, field: ScopeField, query: &str, exact: bool) -> (r: bool)
    ensures
        r == in_scope(*item, field, query@, exact),
{
    match item.scope_ref(field) {
        Some(b) => if exact {
            b.matches_exact(query)
        } else {
            b.matches(query)
        },
        None => false,
    }
}

/// Drops the candidates outside a scope.
pub fn retain_scope<T: Scoped>(items: Vec<T>, query: Option<&str>, field: ScopeField) -> (r: Vec<T>)
    ensures
        r@ == retained(items@, crate::text::opt_str(query), field),
{
    let q: &str = match query {
        Some(q) => q,
        None => return items,
    };
    let ghost all = items@;
    let mut has_exact = false;
    let mut i: usize = 0;
    while i < items.len()
        invariant
            i <= items.len(),
            has_exact == exists|j: int| 0 <= j < i && in_scope(#[trigger] items@[j], field, q@, true),
        decreases items.len() - i,
    {
        if is_in_scope(&items[i], field, q, true) {
            has_exact = true;
            proof {
                assert(in_scope(items@[i as int], field, q@, true));
            }
        }
        i = i + 1;
    }
    proof {
        assert(has_exact == any_exact(all, field, q@));
    }
    let mut out: Vec<T> = Vec::new();
    proof {
        assert(all.take(0) =~= Seq::empty());
        assert(out@ =~= those_in(all.take(0), field, q@, has_exact));
    }
    for x in it: items
        invariant
            it.seq() == all,
            out@ == those_in(all.take(it.index() as int), field, q@, has_exact),
    {
        proof {
            assert(all.take(it.index() as int + 1).drop_last() =~= all.take(it.index() as int));
            assert(all.take(it.index() as int + 1).last() == x);
        }
        if is_in_scope(&x, field, q, has_exact) {
            out.push(x);
        }
    }
    proof {
        assert(all.take(all.len() as int) =~= all);
    }
    out
}

/// When some scope is named exactly, every candidate kept is; a loose match never
/// survives beside an exact one. And nothing but candidates is kept.
pub proof fn exact_scope_wins<T: Scoped>(items: Seq<T>, query: Text, field: ScopeField, x: T)
    ensures
        retained(items, Some(query), field).contains(x) <==> items.contains(x) && in_scope(
            x,
            field,
            query,
            any_exact(items, field, query),
        ),
        any_exact(items, field, query) && retained(items, Some(query), field).contains(x)
            ==> in_scope(x, field, query, true),
{
    those_in_are(items, field, query, any_exact(items, field, query), x);
}

proof fn those_in_are<T: Scoped>(items: Seq<T>, field: ScopeField, query: Text, exact: bool, x: T)
    ensures
        those_in(items, field, query, exact).contains(x) <==> items.contains(x) && in_scope(
            x,
            field,
            query,
            exact,
        ),
    decreases items.len(),
{
    if items.len() > 0 {
        let front = items.drop_last();
        let last = items.last();
        those_in_are(front, field, query, exact, x);
        let rest = those_in(front, field, query, exact);
        let out = those_in(items, field, query, exact);
        if front.contains(x) {
            let i = choose|i: int| 0 <= i < front.len() && front[i] == x;
            assert(items[i] == x);
        }
        if items.contains(x) && x != last {
            let i = choose|i: int| 0 <= i < items.len() && items[i] == x;
            assert(front[i] == x);
        }
        if x == last {
            assert(items[items.len() - 1] == x);
        }
        if rest.contains(x) {
            let i = choose|i: int| 0 <= i < rest.len() && rest[i] == x;
            assert(out[i] == x);
        }
        if in_scope(last, field, query, exact) {
            assert(out[rest.len() as int] == last);
        }
        if out.contains(x) && !rest.contains(x) {
            let i = choose|i: int| 0 <= i < out.len() && out[i] == x;
            if i < rest.len() {
                assert(rest[i] == x);
            }
            assert(x == last);
        }
    }
}

// ===== One object out of the candidates ==================================

/// How many candidates an ambiguous reference lists.
pub const LISTED_CANDIDATES: usize = 8;

/// The number of candidates listed.
pub open spec fn listed_count(n: nat) -> nat {
    if n < LISTED_CANDIDATES {
        n
    } else {
        LISTED_CANDIDATES as nat
    }
}

/// Whether `names` are labels of the first candidates.
pub open spec fn labels_first<T, L: Fn(&T) -> String>(
    label: L,
    candidates: Seq<T>,
    names: Seq<String>,
) -> bool {
    names.len() == listed_count(candidates.len()) && forall|i: int|
        0 <= i < names.len() ==> call_ensures(label, (&candidates[i],), #[trigger] names[i])
}

/// Whether an error says that a reference is ambiguous, listing the labels of its
/// first candidates.
pub open spec fn is_ambiguity<T, L: Fn(&T) -> String>(
    e: NboxError,
    noun: Text,
    value: Text,
    label: L,
    candidates: Seq<T>,
) -> bool {
    &&& e is Ambiguous
    &&& e->Ambiguous_noun@ == noun
    &&& e->Ambiguous_value@ == value
    &&& exists|names: Seq<String>| #[trigger]
        labels_first(label, candidates, names) && e->Ambiguous_matches@ == joined(
            texts(names),
            ", "@,
        )
}

/// Whether an error says that a reference is ambiguous, listing the first of its
/// candidates by name.
pub open spec fn lists_candidates(e: NboxError, noun: Text, value: Text, names: Seq<Text>) -> bool {
    &&& e is Ambiguous
    &&& e->Ambiguous_noun@ == noun
    &&& e->Ambiguous_value@ == value
    &&& e->Ambiguous_matches@ == joined(names.take(listed_count(names.len()) as int), ", "@)
}

/// When a label names each candidate, an ambiguity lists their names.
pub proof fn labels_are_listed<T, L: Fn(&T) -> String>(
    e: NboxError,
    noun: Text,
    value: Text,
    label: L,
    candidates: Seq<T>,
    names: Seq<Text>,
)
    requires
        is_ambiguity(e, noun, value, label, candidates),
        names.len() == candidates.len(),
        forall|i: int, s: String|
            0 <= i < candidates.len() && #[trigger] call_ensures(label, (&candidates[i],), s)
                ==> s@ == names[i],
    ensures
        lists_candidates(e, noun, value, names),
{
    let found = choose|found: Seq<String>| #[trigger]
        labels_first(label, candidates, found) && e->Ambiguous_matches@ == joined(
            texts(found),
            ", "@,
        );
    assert(texts(found) =~= names.take(listed_count(names.len()) as int));
}

/// The one candidate of a lookup. None at all is what `not_found` makes of it;
/// several are an ambiguity, never a silent choice.
pub fn resolve_unique<T, L: Fn(&T) -> String, N: Fn(&str, &str) -> NboxError>(
    noun: &str,
    value: &str,
    candidates: Vec<T>,
    label: L,
    not_found: N,
) -> (r: Result<T, NboxError>)
    requires
        forall|t: &T| #[trigger] call_requires(label, (t,)),
        call_requires(not_found, (noun, value)),
    ensures
        candidates@.len() == 0 ==> r is Err && call_ensures(not_found, (noun, value), r->Err_0),
        candidates@.len() == 1 ==> r == Ok::<T, NboxError>(candidates@[0]),
        candidates@.len() > 1 ==> r is Err && is_ambiguity(
            r->Err_0,
            noun@,
            value@,
            label,
            candidates@,
        ),
{
    let n: usize = candidates.len();
    if n == 0 {
        return Err(not_found(noun, value));
    }
    if n == 1 {
        let mut rest = candidates;
        let one = rest.swap_remove(0);
        return Ok(one);
    }
    let mut names: Vec<String> = Vec::new();
    let mut i: usize = 0;
    while i < n && i < LISTED_CANDIDATES
        invariant
            n == candidates.len(),
            i <= n,
            i <= LISTED_CANDIDATES,
            names.len() == i,
            forall|t: &T| #[trigger] call_requires(label, (t,)),
            forall|j: int|
                0 <= j < i ==> call_ensures(label, (&candidates@[j],), #[trigger] names@[j]),
        decreases n - i,
    {
        names.push(label(&candidates[i]));
        i = i + 1;
    }
    let matches = join(&names, ", ");
    proof {
        assert(labels_first(label, candidates@, names@));
    }
    Err(NboxError::Ambiguous { noun: noun.to_owned(), value: value.to_owned(), matches })
}

/// The message of a lookup that found nothing.
pub open spec fn no_match_text(noun: Text, value: Text) -> Text {
    "no "@ + noun + " matched \""@ + value + "\""@
}

/// Says that a lookup found nothing.
pub fn tui_not_found(noun: &str, value: &str) -> (r: NboxError)
    ensures
        r is NotFound,
        r->NotFound_0@ == no_match_text(noun@, value@),
{
    NboxError::NotFound(cat5("no ", noun, " matched \"", value, "\""))
}

// ===== References ========================================================

/// The device and the name in an interface reference. The name is everything
/// after the first slash.
pub open spec fn interface_ref(value: Text) -> Option<(Text, Text)> {
    match split_first(value, '/') {
        Some((device, name)) => if device.len() > 0 && name.len() > 0 {
            Some((device, name))
        } else {
            None
        },
        None => None,
    }
}

/// Splits an interface reference `device/name`.
pub fn split_interface_ref(value: &str) -> (r: Result<(String, String), NboxError>)
    ensures
        match interface_ref(value@) {
            Some((device, name)) => r is Ok && r->Ok_0.0@ == device && r->Ok_0.1@ == name,
            None => {
                &&& r is Err
                &&& r->Err_0 is Usage
                &&& r->Err_0->Usage_0@
                    == "interface reference must be `<device>/<name>` (e.g. edge01/xe-0/0/1) — interface names may contain slashes; the part after the device is the name verbatim. Got \""@
                    + value@ + "\"."@
            },
        },
{
    if let Some((device, name)) = split_once(value, '/') {
        if !device.as_str().is_empty() && !name.as_str().is_empty() {
            return Ok((device, name));
        }
    }
    Err(
        NboxError::Usage(
            cat3(
                "interface reference must be `<device>/<name>` (e.g. edge01/xe-0/0/1) — interface names may contain slashes; the part after the device is the name verbatim. Got \"",
                value,
                "\".",
            ),
        ),
    )
}

/// The prefix length that a text ends in.
pub open spec fn trailing_len(cidr: Text) -> Option<nat> {
    if after_last_index(cidr, '/') == 0 {
        None
    } else {
        number_value(after_last(cidr, '/'), u8::MAX as nat)
    }
}

/// Whether a block can be cut into blocks of a length: its own is no longer.
pub fn prefix_satisfies_length(cidr: &str, target: u8) -> (r: bool)
    ensures
        r == (trailing_len(cidr@) is Some && trailing_len(cidr@)->0 <= target),
{
    let cs = crate::text::chars_of(cidr);
    let mut i: usize = cs.len();
    proof {
        assert(cs@.take(i as int) =~= cs@);
    }
    while i > 0 && cs[i - 1] != '/'
        invariant
            i <= cs.len(),
            cs@ == cidr@,
            after_last_index(cidr@, '/') == after_last_index(cs@.take(i as int), '/'),
        decreases i,
    {
        proof {
            assert(cs@.take(i as int).drop_last() =~= cs@.take(i as int - 1));
        }
        i = i - 1;
    }
    if i == 0 {
        return false;
    }
    let tail = tail_after(cidr, '/');
    match parse_u8(tail.as_str()) {
        Some(len) => len <= target,
        None => false,
    }
}

// ===== Laws ==============================================================

/// Narrowing two lists, one behind the other, narrows each; and of a single object it
/// leaves the object when it is in the scope, and nothing otherwise. So what is kept
/// keeps its order.
pub proof fn narrowing_is_one_by_one<T: Scoped>(
    front: Seq<T>,
    back: Seq<T>,
    x: T,
    field: ScopeField,
    query: Text,
    exact: bool,
)
    ensures
        those_in(front + back, field, query, exact) == those_in(front, field, query, exact)
            + those_in(back, field, query, exact),
        in_scope(x, field, query, exact) ==> those_in(seq![x], field, query, exact) == seq![x],
        !in_scope(x, field, query, exact) ==> those_in(seq![x], field, query, exact) == Seq::<
            T,
        >::empty(),
        those_in(Seq::<T>::empty(), field, query, exact) == Seq::<T>::empty(),
    decreases back.len(),
{
    reveal_with_fuel(those_in, 2);
    let one = seq![x];
    assert(one.drop_last() =~= Seq::empty());
    assert(one.last() == x);
    assert(Seq::<T>::empty().push(x) =~= one);
    if back.len() == 0 {
        assert(front + back =~= front);
        assert(those_in(front, field, query, exact) + Seq::<T>::empty() =~= those_in(
            front,
            field,
            query,
            exact,
        ));
    } else {
        narrowing_is_one_by_one(front, back.drop_last(), x, field, query, exact);
        assert((front + back).drop_last() =~= front + back.drop_last());
        assert((front + back).last() == back.last());
        assert(those_in(front + back, field, query, exact) =~= those_in(front, field, query, exact)
            + those_in(back, field, query, exact));
    }
}

/// Where one object alone is in a scope, narrowing leaves just that one.
pub proof fn the_only_one_is_left<T: Scoped>(
    items: Seq<T>,
    field: ScopeField,
    query: Text,
    exact: bool,
    i: int,
)
    requires
        0 <= i < items.len(),
        in_scope(items[i], field, query, exact),
        forall|j: int|
            0 <= j < items.len() && j != i ==> !in_scope(#[trigger] items[j], field, query, exact),
    ensures
        those_in(items, field, query, exact) == seq![items[i]],
{
    let front = items.take(i);
    let back = items.skip(i + 1);
    none_is_left(front, field, query, exact);
    none_is_left(back, field, query, exact);
    narrowing_is_one_by_one(front, seq![items[i]], items[i], field, query, exact);
    narrowing_is_one_by_one(front + seq![items[i]], back, items[i], field, query, exact);
    assert(items =~= front + seq![items[i]] + back);
    assert(Seq::<T>::empty() + seq![items[i]] + Seq::<T>::empty() =~= seq![items[i]]);
}

/// Where no object is in a scope, narrowing leaves none.
pub proof fn none_is_left<T: Scoped>(items: Seq<T>, field: ScopeField, query: Text, exact: bool)
    requires
        forall|j: int| 0 <= j < items.len() ==> !in_scope(#[trigger] items[j], field, query, exact),
    ensures
        those_in(items, field, query, exact).len() == 0,
    decreases items.len(),
{
    if items.len() > 0 {
        let front = items.drop_last();
        assert forall|j: int| 0 <= j < front.len() implies !in_scope(
            #[trigger] front[j],
            field,
            query,
            exact,
        ) by {
            assert(front[j] == items[j]);
        }
        none_is_left(front, field, query, exact);
        assert(!in_scope(items[items.len() - 1], field, query, exact));
    }
}

/// A VLAN lives in its own site and its own group, an address and a prefix in their
/// own VRF, and in no other scope.
pub proof fn scopes_are_the_fields(v: Vlan, ip: IpAddress, p: Prefix)
    ensures
        v.scope(ScopeField::Site) == v.site,
        v.scope(ScopeField::Group) == v.group,
        v.scope(ScopeField::Vrf) is None,
        ip.scope(ScopeField::Vrf) == ip.vrf,
        ip.scope(ScopeField::Site) is None && ip.scope(ScopeField::Group) is None,
        p.scope(ScopeField::Vrf) == p.vrf,
        p.scope(ScopeField::Site) is None && p.scope(ScopeField::Group) is None,
{
}

/// Without a reference nothing is dropped; with one, an object outside of any such
/// scope always is.
pub proof fn the_unscoped_are_dropped<T: Scoped>(
    items: Seq<T>,
    query: Text,
    field: ScopeField,
    x: T,
)
    ensures
        retained(items, None, field) == items,
        x.scope(field) is None ==> !retained(items, Some(query), field).contains(x),
        retained(items, Some(query), field).contains(x) ==> items.contains(x) && x.scope(
            field,
        ) is Some && (x.scope(field)->0.named_exactly(query) || x.scope(field)->0.named_loosely(
            query,
        )),
        x.scope(field) is Some && x.scope(field)->0.named_exactly(query) && items.contains(x)
            ==> retained(items, Some(query), field).contains(x),
{
    those_in_are(items, field, query, any_exact(items, field, query), x);
    if items.contains(x) && in_scope(x, field, query, true) {
        let k = choose|k: int| 0 <= k < items.len() && items[k] == x;
        assert(in_scope(items[k], field, query, true));
    }
}

/// An interface reference names its device before the first slash and its interface
/// behind it; one without a slash, a device or an interface is none.
pub proof fn interface_references_split_at_the_first_slash(value: Text, device: Text, name: Text)
    requires
        !device.contains('/'),
    ensures
        device.len() > 0 && name.len() > 0 ==> interface_ref(device + "/"@ + name) == Some(
            (device, name),
        ),
        interface_ref(device) is None,
        interface_ref("/"@ + name) is None,
        interface_ref(device + "/"@) is None,
        interface_ref(value) is Some ==> {
            let (d, n) = interface_ref(value)->0;
            &&& value == d + "/"@ + n
            &&& !d.contains('/')
            &&& d.len() > 0 && n.len() > 0
        },
{
    reveal_strlit("/");
    let slash = "/"@;
    assert(slash =~= seq!['/']);
    assert(forall|k: int| 0 <= k < device.len() ==> device[k] != '/') by {
        assert forall|k: int| 0 <= k < device.len() implies device[k] != '/' by {
            if device[k] == '/' {
                assert(device.contains('/'));
            }
        }
    }
    let whole = device + slash + name;
    assert(whole[device.len() as int] == '/');
    crate::split::first_index_is(whole, '/', device.len() as int);
    assert(whole.take(device.len() as int) =~= device);
    assert(whole.skip(device.len() as int + 1) =~= name);
    crate::split::first_index_is(device, '/', device.len() as int);
    let led = slash + name;
    assert(led[0] == '/');
    crate::split::first_index_is(led, '/', 0);
    assert(led.take(0).len() == 0);
    let tailed = device + slash;
    assert(tailed[device.len() as int] == '/');
    crate::split::first_index_is(tailed, '/', device.len() as int);
    assert(tailed.skip(device.len() as int + 1).len() == 0);
    crate::split::first_index_is_least(value, '/');
    if interface_ref(value) is Some {
        let (d, n) = interface_ref(value)->0;
        assert(value =~= d + slash + n);
        if d.contains('/') {
            let k = choose|k: int| 0 <= k < d.len() && d[k] == '/';
            assert(value[k] == '/');
        }
    }
}

/// At most eight candidates are listed, the first ones, in their order.
pub proof fn the_first_candidates_are_listed(
    e: NboxError,
    noun: Text,
    value: Text,
    names: Seq<Text>,
)
    requires
        lists_candidates(e, noun, value, names),
    ensures
        e is Ambiguous && e->Ambiguous_noun@ == noun && e->Ambiguous_value@ == value,
        names.len() <= 8 ==> e->Ambiguous_matches@ == joined(names, ", "@),
        names.len() > 8 ==> e->Ambiguous_matches@ == joined(names.subrange(0, 8), ", "@),
{
    assert(names.take(names.len() as int) =~= names);
    if names.len() > 8 {
        assert(names.take(8) =~= names.subrange(0, 8));
    }
}

/// The length of a prefix is the number behind its last slash, and there is none without
/// a slash.
pub proof fn lengths_stand_behind_the_slash(front: Text, len: u8)
    ensures
        trailing_len(front + "/"@ + crate::number::decimal_text(len as nat)) == Some(len as nat),
        !front.contains('/') ==> trailing_len(front) is None,
{
    let d = crate::number::decimal_text(len as nat);
    let s = front + "/"@ + d;
    reveal_strlit("/");
    crate::number::decimal_reads_back(len as nat);
    crate::number::decimal_round_trip(len as nat, u8::MAX as nat);
    crate::split::tails_are_behind_the_last(s, '/');
    let at = after_last_index(s, '/') as int;
    let tail = after_last(s, '/');
    assert(s[front.len() as int] == '/');
    if at <= front.len() {
        assert(tail[front.len() - at] == '/');
        assert(tail.contains('/'));
    }
    if at > front.len() + 1 {
        assert(s[at - 1] == d[at - 2 - front.len()]);
    }
    assert(tail =~= d);
    crate::split::tails_are_behind_the_last(front, '/');
    if !front.contains('/') && after_last_index(front, '/') > 0 {
        assert(front.contains(front[after_last_index(front, '/') - 1]));
    }
}

} // verus!
