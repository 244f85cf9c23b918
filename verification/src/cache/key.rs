//! Cache keys: the partition of a connection, and the key of an object in it.

use vstd::prelude::*;

use crate::config::BackendKind;
use crate::netbox::search::ObjectKind;
use crate::number::{decimal, decimal_is_injective, decimal_text};
use crate::text::{
    all_white,
    cat3,
    cat4,
    cat5,
    trim,
    trim_end_char,
    trim_end_char_ignores_tail,
    trim_ignores_surroundings,
    trimmed,
    trimmed_end_char,
    Text,
};

verus! {

/// The partition of a connection: the profile, its URL without trailing slashes,
/// and the backend.
pub open spec fn partition_text(name: Text, base_url: Text, backend: BackendKind) -> Text {
    name + "|"@ + trim_end_char(base_url, '/') + "|"@ + backend.name()
}

/// Names the partition of a connection.
pub fn profile_partition(name: &str, base_url: &str, backend: BackendKind) -> (r: String)
    ensures
        r@ == partition_text(name@, base_url@, backend),
{
    let url = trimmed_end_char(base_url, '/');
    cat5(name, "|", url.as_str(), "|", backend.as_str())
}

/// The key of an object within a partition.
#[derive(Debug, PartialEq, Eq, Hash)]
pub struct CacheKey(pub String);

/// The key of a detail view by kind and id.
pub open spec fn detail_text(kind: ObjectKind, id: u64) -> Text {
    "detail|"@ + kind.slug() + "|id:"@ + decimal_text(id as nat)
}

/// The key of a detail view by kind and reference.
pub open spec fn detail_ref_text(kind: ObjectKind, value: Text) -> Text {
    "detail|"@ + kind.slug() + "|ref:"@ + trim(value)
}

/// The key of a lookup by kind, reference and scope.
pub open spec fn object_text(kind: Text, reference: Text, scope: Text) -> Text {
    "get|"@ + kind + "|ref:"@ + trim(reference) + ("|"@ + scope)
}

impl CacheKey {
    pub open spec fn view(&self) -> Text {
        self.0@
    }

    /// The partition and the key around a unit separator.
    pub fn within(&self, partition: &str) -> (r: String)
        ensures
            r@ == partition@ + "\u{1f}"@ + self@,
    {
        cat3(partition, "\u{1f}", self.0.as_str())
    }

    /// The key of a detail view by kind and id.
    pub fn detail(kind: ObjectKind, id: u64) -> (r: Self)
        ensures
            r@ == detail_text(kind, id),
    {
        let n = decimal(id);
        CacheKey(cat4("detail|", kind.as_str(), "|id:", n.as_str()))
    }

    /// The key of a detail view by kind and reference. The reference is trimmed;
    /// its case is kept.
    pub fn detail_ref(kind: ObjectKind, value: &str) -> (r: Self)
        ensures
            r@ == detail_ref_text(kind, value@),
    {
        let v = trimmed(value);
        CacheKey(cat4("detail|", kind.as_str(), "|ref:", v.as_str()))
    }

    /// The key of a lookup by kind, reference and scope. The reference is trimmed.
    pub fn object(kind: &str, reference: &str, scope: &str) -> (r: Self)
        ensures
            r@ == object_text(kind@, reference@, scope@),
    {
        let v = trimmed(reference);
        let tail = crate::text::cat2("|", scope);
        CacheKey(cat5("get|", kind, "|ref:", v.as_str(), tail.as_str()))
    }

    /// The key as a string.
    pub fn as_str(&self) -> (r: &str)
        ensures
            r@ == self@,
    {
        self.0.as_str()
    }
}

// ===== Laws of partitions ================================================

/// A trailing slash on the URL makes no difference.
pub proof fn partition_ignores_trailing_slash(name: Text, base_url: Text, backend: BackendKind)
    ensures
        partition_text(name, base_url.push('/'), backend) == partition_text(
            name,
            base_url,
            backend,
        ),
{
    trim_end_char_ignores_tail(base_url, '/');
}

/// A profile's partition changes with its URL and with its backend.
pub proof fn partition_follows_the_target(
    name: Text,
    url_a: Text,
    backend_a: BackendKind,
    url_b: Text,
    backend_b: BackendKind,
)
    ensures
        partition_text(name, url_a, backend_a) == partition_text(name, url_b, backend_b) <==> (
        backend_a == backend_b && trim_end_char(url_a, '/') == trim_end_char(url_b, '/')),
{
    reveal_strlit("|");
    reveal_strlit("rest");
    reveal_strlit("graphql");
    let a = trim_end_char(url_a, '/');
    let b = trim_end_char(url_b, '/');
    let p = partition_text(name, url_a, backend_a);
    let q = partition_text(name, url_b, backend_b);
    if p == q {
        assert(p.last() == backend_a.name().last());
        assert(q.last() == backend_b.name().last());
        assert(backend_a == backend_b);
        assert(a.len() == b.len());
        assert forall|i: int| 0 <= i < a.len() implies a[i] == b[i] by {
            assert(p[name.len() + 1 + i] == a[i]);
            assert(q[name.len() + 1 + i] == b[i]);
        }
        assert(a =~= b);
    }
}

// ===== Laws of keys ======================================================

/// No kind's name contains a bar.
proof fn reveal_slugs()
    ensures
        forall|kind: ObjectKind, i: int|
            0 <= i < kind.slug().len() ==> #[trigger] kind.slug()[i] != '|',
        forall|a: ObjectKind, b: ObjectKind| #[trigger]
            a.slug() == #[trigger] b.slug() ==> a == b,
{
    reveal_strlit("device");
    reveal_strlit("site");
    reveal_strlit("rack");
    reveal_strlit("rack-group");
    reveal_strlit("interface");
    reveal_strlit("mac");
    reveal_strlit("ip");
    reveal_strlit("prefix");
    reveal_strlit("vlan");
    reveal_strlit("aggregate");
    reveal_strlit("asn");
    reveal_strlit("ip-range");
    reveal_strlit("vrf");
    reveal_strlit("route-target");
    reveal_strlit("tenant");
    reveal_strlit("contact");
    reveal_strlit("circuit");
    reveal_strlit("provider");
    reveal_strlit("virtual-circuit");
    reveal_strlit("vm");
    reveal_strlit("vm-type");
    reveal_strlit("cluster");
    assert forall|a: ObjectKind, b: ObjectKind| #[trigger] a.slug() == #[trigger] b.slug() implies a
        == b by {
        let x = a.slug();
        let y = b.slug();
        assert(x.len() == y.len());
        assert(x[0] == y[0] && x[1] == y[1]);
        assert(x.len() > 2 ==> x[2] == y[2]);
        assert(x.len() > 3 ==> x[3] == y[3]);
    }
}

/// Two texts made of a bar-free head and a tail that starts with a bar agree
/// only when heads and tails agree.
proof fn bar_splits(a: Text, x: Text, b: Text, y: Text)
    requires
        a + x == b + y,
        forall|i: int| 0 <= i < a.len() ==> #[trigger] a[i] != '|',
        forall|i: int| 0 <= i < b.len() ==> #[trigger] b[i] != '|',
        x.len() > 0 && x[0] == '|',
        y.len() > 0 && y[0] == '|',
    ensures
        a == b,
        x == y,
{
    let s = a + x;
    let t = b + y;
    if a.len() < b.len() {
        assert(s[a.len() as int] == x[0]);
        assert(t[a.len() as int] == b[a.len() as int]);
    }
    if b.len() < a.len() {
        assert(t[b.len() as int] == y[0]);
        assert(s[b.len() as int] == a[b.len() as int]);
    }
    assert(a =~= s.take(a.len() as int));
    assert(b =~= t.take(b.len() as int));
    assert(x =~= s.skip(a.len() as int));
    assert(y =~= t.skip(b.len() as int));
}

/// What follows the common head of two keys.
proof fn after_head(head: Text, a: Text, x: Text, b: Text, y: Text)
    requires
        head + a + x == head + b + y,
    ensures
        a + x == b + y,
{
    assert(head + a + x =~= head + (a + x));
    assert(head + b + y =~= head + (b + y));
    assert((head + (a + x)).skip(head.len() as int) =~= a + x);
    assert((head + (b + y)).skip(head.len() as int) =~= b + y);
}

/// Keys by id tell kinds and ids apart.
pub proof fn detail_keys_are_distinct(kind_a: ObjectKind, id_a: u64, kind_b: ObjectKind, id_b: u64)
    ensures
        detail_text(kind_a, id_a) == detail_text(kind_b, id_b) <==> (kind_a == kind_b && id_a
            == id_b),
{
    reveal_strlit("|id:");
    if detail_text(kind_a, id_a) == detail_text(kind_b, id_b) {
        let x = "|id:"@ + decimal_text(id_a as nat);
        let y = "|id:"@ + decimal_text(id_b as nat);
        assert(detail_text(kind_a, id_a) =~= "detail|"@ + kind_a.slug() + x);
        assert(detail_text(kind_b, id_b) =~= "detail|"@ + kind_b.slug() + y);
        after_head("detail|"@, kind_a.slug(), x, kind_b.slug(), y);
        reveal_slugs();
        bar_splits(kind_a.slug(), x, kind_b.slug(), y);
        assert(x.skip(4) =~= decimal_text(id_a as nat));
        assert(y.skip(4) =~= decimal_text(id_b as nat));
        decimal_is_injective(id_a as nat, id_b as nat);
    }
}

/// Keys by reference tell kinds and trimmed references apart.
pub proof fn ref_keys_are_distinct(kind_a: ObjectKind, a: Text, kind_b: ObjectKind, b: Text)
    ensures
        detail_ref_text(kind_a, a) == detail_ref_text(kind_b, b) <==> (kind_a == kind_b && trim(a)
            == trim(b)),
{
    reveal_strlit("|ref:");
    if detail_ref_text(kind_a, a) == detail_ref_text(kind_b, b) {
        let x = "|ref:"@ + trim(a);
        let y = "|ref:"@ + trim(b);
        assert(detail_ref_text(kind_a, a) =~= "detail|"@ + kind_a.slug() + x);
        assert(detail_ref_text(kind_b, b) =~= "detail|"@ + kind_b.slug() + y);
        after_head("detail|"@, kind_a.slug(), x, kind_b.slug(), y);
        reveal_slugs();
        bar_splits(kind_a.slug(), x, kind_b.slug(), y);
        assert(x.skip(5) =~= trim(a));
        assert(y.skip(5) =~= trim(b));
    }
}

/// A key by id is never a key by reference.
pub proof fn id_and_ref_keys_are_distinct(
    kind_a: ObjectKind,
    id: u64,
    kind_b: ObjectKind,
    value: Text,
)
    ensures
        detail_text(kind_a, id) != detail_ref_text(kind_b, value),
{
    reveal_strlit("|id:");
    reveal_strlit("|ref:");
    if detail_text(kind_a, id) == detail_ref_text(kind_b, value) {
        let x = "|id:"@ + decimal_text(id as nat);
        let y = "|ref:"@ + trim(value);
        assert(detail_text(kind_a, id) =~= "detail|"@ + kind_a.slug() + x);
        assert(detail_ref_text(kind_b, value) =~= "detail|"@ + kind_b.slug() + y);
        after_head("detail|"@, kind_a.slug(), x, kind_b.slug(), y);
        reveal_slugs();
        bar_splits(kind_a.slug(), x, kind_b.slug(), y);
        assert(x[1] == 'i');
        assert(y[1] == 'r');
    }
}

/// Whitespace around a reference makes no difference.
pub proof fn ref_keys_ignore_surroundings(kind: ObjectKind, front: Text, value: Text, back: Text)
    requires
        all_white(front),
        all_white(back),
    ensures
        detail_ref_text(kind, front + value + back) == detail_ref_text(kind, value),
{
    trim_ignores_surroundings(front, value, back);
}

/// A lookup's scope is part of its key, and whitespace around its reference is
/// not.
pub proof fn object_keys_follow_the_scope(
    kind: Text,
    reference: Text,
    scope_a: Text,
    scope_b: Text,
    front: Text,
    back: Text,
)
    requires
        all_white(front),
        all_white(back),
    ensures
        object_text(kind, reference, scope_a) == object_text(kind, reference, scope_b) <==> scope_a
            == scope_b,
        object_text(kind, front + reference + back, scope_a) == object_text(
            kind,
            reference,
            scope_a,
        ),
{
    trim_ignores_surroundings(front, reference, back);
    let head = "get|"@ + kind + "|ref:"@ + trim(reference);
    if object_text(kind, reference, scope_a) == object_text(kind, reference, scope_b) {
        reveal_strlit("|");
        let p = head + ("|"@ + scope_a);
        let q = head + ("|"@ + scope_b);
        assert(p.skip(head.len() as int + 1) =~= scope_a);
        assert(q.skip(head.len() as int + 1) =~= scope_b);
    }
}

/// A partition names the profile, the target and the backend, and a key in it the
/// object: what differs in any of them is kept apart.
pub proof fn keys_name_their_object(
    name: Text,
    other: Text,
    base_url: Text,
    backend: BackendKind,
    kind: Text,
    reference: Text,
    scope: Text,
    id: u64,
    object: ObjectKind,
)
    ensures
        partition_text(name, base_url, backend) == name + "|"@ + trim_end_char(base_url, '/') + "|"@
            + backend.name(),
        partition_text(name, base_url, backend) == partition_text(other, base_url, backend) ==> name
            == other,
        detail_text(object, id) == "detail|"@ + object.slug() + "|id:"@ + decimal_text(id as nat),
        detail_ref_text(object, reference) == "detail|"@ + object.slug() + "|ref:"@ + trim(
            reference,
        ),
        object_text(kind, reference, scope) == "get|"@ + kind + "|ref:"@ + trim(reference) + ("|"@
            + scope),
        object_text(kind, reference, scope) == object_text(other, reference, scope) ==> kind
            == other,
{
    let tail = "|"@ + trim_end_char(base_url, '/') + "|"@ + backend.name();
    let a = partition_text(name, base_url, backend);
    let b = partition_text(other, base_url, backend);
    assert(a =~= name + tail);
    assert(b =~= other + tail);
    if a == b {
        assert(name.len() == other.len());
        assert(name =~= a.take(name.len() as int));
        assert(other =~= b.take(other.len() as int));
    }
    let x = object_text(kind, reference, scope);
    let y = object_text(other, reference, scope);
    let rest = "|ref:"@ + trim(reference) + ("|"@ + scope);
    assert(x =~= "get|"@ + kind + rest);
    assert(y =~= "get|"@ + other + rest);
    if x == y {
        let n = "get|"@.len() as int;
        assert(kind.len() == other.len());
        assert(kind =~= x.subrange(n, n + kind.len()));
        assert(other =~= y.subrange(n, n + other.len()));
    }
}

} // verus!
