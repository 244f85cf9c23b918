//! JSON values as the views read them.
//!
//! A value is held decoded, and an array or object also keeps the value it was
//! received as, which `serde_json` renders.

use vstd::prelude::*;

use crate::number::{number_value, parse_u64};
use crate::order::{le_text, text_le, text_le_total, text_le_transitive, Ranked};
use crate::text::{same, Text};

verus! {

/// `serde_json::Value`, carried as it is.
#[verifier::external_type_specification]
#[verifier::external_body]
pub struct ExValue(serde_json::Value);

/// A number: its JSON text, and the shortest decimal of its floating-point value.
#[derive(Debug)]
pub struct JsonNumber {
    pub text: String,
    pub decimal: String,
}

/// A member of an object.
#[derive(Debug)]
pub struct Member {
    pub name: String,
    pub value: Json,
}

/// A decoded JSON value. The member names of an object are distinct.
#[derive(Debug)]
pub enum Json {
    Null,
    Bool(bool),
    Number(JsonNumber),
    Text(String),
    Array { items: Vec<Json>, raw: serde_json::Value },
    Object { members: Vec<Member>, raw: serde_json::Value },
}

/// What `serde_json` prints for a value on one line.
pub uninterp spec fn compact_form(value: serde_json::Value) -> Seq<char>;

/// What `serde_json` prints for a value, indented over several lines; `None` when
/// that fails.
pub uninterp spec fn pretty_form(value: serde_json::Value) -> Option<Seq<char>>;

/// `Value`'s `Display`. The result depends on the value alone.
#[verifier::external_body]
pub(crate) fn compact(value: &serde_json::Value) -> (r: String)
    ensures
        r@ == compact_form(*value),
{
    value.to_string()
}

/// `serde_json::to_string_pretty`. The result depends on the value alone.
#[verifier::external_body]
fn print_pretty(value: &serde_json::Value) -> (r: Option<String>)
    ensures
        match r {
            Some(s) => pretty_form(*value) == Some(s@),
            None => pretty_form(*value) is None,
        },
{
    serde_json::to_string_pretty(value).ok()
}

/// A value over several lines, or on one when that fails.
pub open spec fn pretty_or_compact(pretty: Option<Text>, compact: Text) -> Text {
    match pretty {
        Some(s) => s,
        None => compact,
    }
}

/// Chooses between the two forms of a value.
pub fn shown_form(pretty: Option<String>, compact: String) -> (r: String)
    ensures
        r@ == pretty_or_compact(crate::text::opt_text(pretty), compact@),
{
    match pretty {
        Some(s) => s,
        None => compact,
    }
}

/// Renders a value indented over several lines.
pub fn pretty(value: &serde_json::Value) -> (r: String)
    ensures
        r@ == pretty_or_compact(pretty_form(*value), compact_form(*value)),
{
    shown_form(print_pretty(value), compact(value))
}

// ===== Looking inside a value ============================================

/// The position of the first member named `key`, or the length.
pub open spec fn member_index(members: Seq<Member>, key: Text) -> nat
    decreases members.len(),
{
    if members.len() == 0 || members[0].name@ == key {
        0
    } else {
        member_index(members.skip(1), key) + 1
    }
}

/// The value of the member named `key`.
pub open spec fn member_of(members: Seq<Member>, key: Text) -> Option<Json> {
    let n = member_index(members, key);
    if n < members.len() {
        Some(members[n as int].value)
    } else {
        None
    }
}

/// Where `member_index` points.
pub proof fn member_index_is(members: Seq<Member>, key: Text, n: int)
    requires
        0 <= n <= members.len(),
        forall|i: int| 0 <= i < n ==> (#[trigger] members[i]).name@ != key,
        n < members.len() ==> members[n].name@ == key,
    ensures
        member_index(members, key) == n,
    decreases members.len(),
{
    if n > 0 {
        let rest = members.skip(1);
        assert forall|i: int| 0 <= i < n - 1 implies (#[trigger] rest[i]).name@ != key by {
            assert(rest[i] == members[i + 1]);
        }
        assert(members[0].name@ != key);
        member_index_is(rest, key, n - 1);
    }
}

impl Json {
    /// The members of an object.
    pub open spec fn object(self) -> Option<Seq<Member>> {
        match self {
            Json::Object { members, raw } => Some(members@),
            _ => None,
        }
    }

    /// The items of an array.
    pub open spec fn array(self) -> Option<Seq<Json>> {
        match self {
            Json::Array { items, raw } => Some(items@),
            _ => None,
        }
    }

    /// The member named `key`; `None` for anything but an object that has one.
    pub open spec fn at(self, key: Text) -> Option<Json> {
        match self {
            Json::Object { members, raw } => member_of(members@, key),
            _ => None,
        }
    }

    /// The characters of a string value.
    pub open spec fn string(self) -> Option<Text> {
        match self {
            Json::Text(s) => Some(s@),
            _ => None,
        }
    }

    /// The value of an unsigned whole number.
    pub open spec fn whole(self) -> Option<nat> {
        match self {
            Json::Number(n) => number_value(n.text@, u64::MAX as nat),
            _ => None,
        }
    }

    /// The member named `key`.
    pub fn get(&self, key: &str) -> (r: Option<&Json>)
        ensures
            match r {
                Some(v) => self.at(key@) == Some(*v),
                None => self.at(key@) is None,
            },
    {
        match self {
            Json::Object { members, raw: _ } => find_member(members, key),
            _ => None,
        }
    }

    /// The characters of a string value.
    pub fn as_str(&self) -> (r: Option<&str>)
        ensures
            crate::text::opt_str(r) == self.string(),
    {
        match self {
            Json::Text(s) => Some(s.as_str()),
            _ => None,
        }
    }

    /// The value of an unsigned whole number.
    pub fn as_u64(&self) -> (r: Option<u64>)
        ensures
            match r {
                Some(n) => self.whole() == Some(n as nat),
                None => self.whole() is None,
            },
    {
        match self {
            Json::Number(n) => parse_u64(n.text.as_str()),
            _ => None,
        }
    }

    /// The items of an array.
    pub fn as_array(&self) -> (r: Option<&Vec<Json>>)
        ensures
            match r {
                Some(v) => self.array() == Some(v@),
                None => self.array() is None,
            },
    {
        match self {
            Json::Array { items, raw: _ } => Some(items),
            _ => None,
        }
    }

    /// The members of an object.
    pub fn as_object(&self) -> (r: Option<&Vec<Member>>)
        ensures
            match r {
                Some(v) => self.object() == Some(v@),
                None => self.object() is None,
            },
    {
        match self {
            Json::Object { members, raw: _ } => Some(members),
            _ => None,
        }
    }
}

/// The member of a list with the given name.
pub fn find_member<'a>(members: &'a Vec<Member>, key: &str) -> (r: Option<&'a Json>)
    ensures
        match r {
            Some(v) => member_of(members@, key@) == Some(*v),
            None => member_of(members@, key@) is None,
        },
{
    let mut i: usize = 0;
    while i < members.len()
        invariant
            i <= members.len(),
            forall|j: int| 0 <= j < i ==> (#[trigger] members@[j]).name@ != key@,
        decreases members.len() - i,
    {
        if same(members[i].name.as_str(), key) {
            proof {
                member_index_is(members@, key@, i as int);
            }
            return Some(&members[i].value);
        }
        i = i + 1;
    }
    proof {
        member_index_is(members@, key@, i as int);
    }
    None
}

/// The string at the first of two keys that is present. A value that is present
/// under the first key but is no string hides the second.
pub open spec fn string_at_either(v: Json, first: Text, second: Text) -> Option<Text> {
    match v.at(first) {
        Some(x) => x.string(),
        None => match v.at(second) {
            Some(x) => x.string(),
            None => None,
        },
    }
}

/// Reads the string at the first of two keys that is present.
pub fn get_str_either<'a>(v: &'a Json, first: &str, second: &str) -> (r: Option<&'a str>)
    ensures
        crate::text::opt_str(r) == string_at_either(*v, first@, second@),
{
    match v.get(first) {
        Some(x) => x.as_str(),
        None => match v.get(second) {
            Some(x) => x.as_str(),
            None => None,
        },
    }
}

/// The string under a key.
pub open spec fn string_at(v: Json, key: Text) -> Option<Text> {
    match v.at(key) {
        Some(x) => x.string(),
        None => None,
    }
}

/// Reads the string under a key.
pub fn get_str<'a>(v: &'a Json, key: &str) -> (r: Option<&'a str>)
    ensures
        crate::text::opt_str(r) == string_at(*v, key@),
{
    match v.get(key) {
        Some(x) => x.as_str(),
        None => None,
    }
}

/// The whole number under a key.
pub open spec fn whole_at(v: Json, key: Text) -> Option<nat> {
    match v.at(key) {
        Some(x) => x.whole(),
        None => None,
    }
}

/// Reads the whole number under a key.
pub fn get_u64(v: &Json, key: &str) -> (r: Option<u64>)
    ensures
        match r {
            Some(n) => whole_at(*v, key@) == Some(n as nat),
            None => whole_at(*v, key@) is None,
        },
{
    match v.get(key) {
        Some(x) => x.as_u64(),
        None => None,
    }
}

// ===== Order and equality ================================================

impl Ranked for Member {
    /// Members are ordered by name.
    open spec fn ranks_le(&self, other: &Self) -> bool {
        text_le(self.name@, other.name@)
    }

    fn le(&self, other: &Self) -> (r: bool) {
        le_text(self.name.as_str(), other.name.as_str())
    }

    proof fn rank_total(&self, other: &Self) {
        text_le_total(self.name@, other.name@);
    }

    proof fn rank_transitive(&self, mid: &Self, other: &Self) {
        text_le_transitive(self.name@, mid.name@, other.name@);
    }
}

/// A number text, with the sign of a negative zero dropped.
pub open spec fn number_key(text: Text) -> Text {
    if text == "-0.0"@ {
        "0.0"@
    } else {
        text
    }
}

/// Whether two values are the same value. The order of an object's members does
/// not count, nor does what a value was received as.
pub open spec fn same_value(a: Json, b: Json) -> bool
    decreases a,
{
    match (a, b) {
        (Json::Null, Json::Null) => true,
        (Json::Bool(x), Json::Bool(y)) => x == y,
        (Json::Number(x), Json::Number(y)) => number_key(x.text@) == number_key(y.text@),
        (Json::Text(x), Json::Text(y)) => x@ == y@,
        (Json::Array { items: x, raw: _ }, Json::Array { items: y, raw: _ }) => {
            x@.len() == y@.len() && forall|i: int|
                0 <= i < x@.len() ==> same_value(#[trigger] x@[i], y@[i])
        },
        (Json::Object { members: x, raw: _ }, Json::Object { members: y, raw: _ }) => {
            x@.len() == y@.len() && forall|i: int|
                0 <= i < x@.len() ==> match member_of(y@, (#[trigger] x@[i]).name@) {
                    Some(v) => same_value(x@[i].value, v),
                    None => false,
                }
        },
        _ => false,
    }
}

/// Compares two values.
#[verifier::loop_isolation(false)]
pub fn values_equal(a: &Json, b: &Json) -> (r: bool)
    ensures
        r == same_value(*a, *b),
    decreases a,
{
    match (a, b) {
        (Json::Null, Json::Null) => true,
        (Json::Bool(x), Json::Bool(y)) => *x == *y,
        (Json::Number(x), Json::Number(y)) => numbers_equal(x, y),
        (Json::Text(x), Json::Text(y)) => same(x.as_str(), y.as_str()),
        (Json::Array { items: x, raw: _ }, Json::Array { items: y, raw: _ }) => {
            if x.len() != y.len() {
                return false;
            }
            let mut i: usize = 0;
            while i < x.len()
                invariant
                    i <= x.len(),
                    forall|j: int| 0 <= j < i ==> same_value(#[trigger] x@[j], y@[j]),
                decreases x.len() - i,
            {
                if !values_equal(&x[i], &y[i]) {
                    return false;
                }
                i = i + 1;
            }
            true
        },
        (Json::Object { members: x, raw: _ }, Json::Object { members: y, raw: _ }) => {
            if x.len() != y.len() {
                return false;
            }
            let mut i: usize = 0;
            while i < x.len()
                invariant
                    i <= x.len(),
                    forall|j: int|
                        0 <= j < i ==> match member_of(y@, (#[trigger] x@[j]).name@) {
                            Some(v) => same_value(x@[j].value, v),
                            None => false,
                        },
                decreases x.len() - i,
            {
                match find_member(y, x[i].name.as_str()) {
                    Some(v) => {
                        if !values_equal(&x[i].value, v) {
                            return false;
                        }
                    },
                    None => {
                        return false;
                    },
                }
                i = i + 1;
            }
            true
        },
        _ => false,
    }
}

fn numbers_equal(x: &JsonNumber, y: &JsonNumber) -> (r: bool)
    ensures
        r == (number_key(x.text@) == number_key(y.text@)),
{
    let a: &str = if same(x.text.as_str(), "-0.0") {
        "0.0"
    } else {
        x.text.as_str()
    };
    let b: &str = if same(y.text.as_str(), "-0.0") {
        "0.0"
    } else {
        y.text.as_str()
    };
    same(a, b)
}

// ===== Laws ==============================================================

/// A member is found by its name: the value is that of the first member of that name,
/// and there is none only where no member has the name. Only objects have members.
pub proof fn members_are_found_by_name(v: Json, members: Seq<Member>, key: Text, i: int)
    ensures
        v is Object ==> (v.at(key) is Some <==> exists|k: int|
            0 <= k < v->members@.len() && (#[trigger] v->members@[k]).name@ == key),
        !(v is Object) ==> v.at(key) is None,
        ({
            &&& 0 <= i < members.len()
            &&& members[i].name@ == key
            &&& forall|j: int| 0 <= j < i ==> (#[trigger] members[j]).name@ != key
        }) ==> member_of(members, key) == Some(members[i].value),
        v is Object ==> v.at(key) == member_of(v->members@, key),
{
    if 0 <= i < members.len() && members[i].name@ == key && (forall|j: int|
        0 <= j < i ==> (#[trigger] members[j]).name@ != key) {
        member_index_is(members, key, i);
    }
    if v is Object {
        let list = v->members@;
        if exists|k: int| 0 <= k < list.len() && (#[trigger] list[k]).name@ == key {
            let k = choose|k: int| 0 <= k < list.len() && (#[trigger] list[k]).name@ == key;
            first_of_a_name(list, key, k);
        } else {
            member_index_is(list, key, list.len() as int);
        }
    }
}

proof fn first_of_a_name(members: Seq<Member>, key: Text, k: int)
    requires
        0 <= k < members.len(),
        members[k].name@ == key,
    ensures
        member_index(members, key) <= k,
    decreases members.len(),
{
    if members[0].name@ != key {
        assert(members.skip(1)[k - 1] == members[k]);
        first_of_a_name(members.skip(1), key, k - 1);
    }
}

/// Only a string reads as a string, an array as items, an object as members, and a
/// number in plain digits as a whole number.
pub proof fn values_read_as_what_they_are(v: Json)
    ensures
        v is Text ==> v.string() == Some(v->Text_0@),
        !(v is Text) ==> v.string() is None,
        v is Array ==> v.array() == Some(v->items@),
        !(v is Array) ==> v.array() is None,
        v is Object ==> v.object() == Some(v->members@),
        !(v is Object) ==> v.object() is None,
        v is Number ==> v.whole() == number_value(v->Number_0.text@, 0xffff_ffff_ffff_ffff),
        !(v is Number) ==> v.whole() is None,
{
}

/// The string at the first of two keys is the first's whenever that is present, string
/// or not, and the second's otherwise.
pub proof fn the_first_key_hides_the_second(v: Json, first: Text, second: Text)
    ensures
        v.at(first) is Some ==> string_at_either(v, first, second) == v.at(first)->0.string(),
        v.at(first) is None && v.at(second) is Some ==> string_at_either(v, first, second) == v.at(
            second,
        )->0.string(),
        v.at(first) is None && v.at(second) is None ==> string_at_either(v, first, second) is None,
        v.at(first) is Some ==> string_at(v, first) == v.at(first)->0.string() && whole_at(v, first)
            == v.at(first)->0.whole(),
        v.at(first) is None ==> string_at(v, first) is None && whole_at(v, first) is None,
{
}

/// Every value is the same as itself where its objects name each member once, and
/// values of different sorts are never the same.
pub proof fn sameness_follows_the_sort(a: Json, b: Json)
    requires
        same_value(a, b),
    ensures
        a is Null <==> b is Null,
        a is Bool <==> b is Bool,
        a is Bool ==> a->Bool_0 == b->Bool_0,
        a is Number <==> b is Number,
        a is Text <==> b is Text,
        a is Text ==> a->Text_0@ == b->Text_0@,
        a is Array <==> b is Array,
        a is Array ==> a->items@.len() == b->items@.len() && forall|i: int|
            0 <= i < a->items@.len() ==> same_value(#[trigger] a->items@[i], b->items@[i]),
        a is Object <==> b is Object,
        a is Object ==> a->members@.len() == b->members@.len() && forall|i: int|
            0 <= i < a->members@.len() ==> b.at((#[trigger] a->members@[i]).name@) is Some
                && same_value(a->members@[i].value, b.at(a->members@[i].name@)->0),
{
}

/// Two numbers are the same when they are written alike, and the two zeros are the same.
pub proof fn numbers_are_the_same_as_written(a: Json, b: Json)
    requires
        a is Number,
        b is Number,
    ensures
        a->Number_0.text@ == b->Number_0.text@ ==> same_value(a, b),
        a->Number_0.text@ == "-0.0"@ && b->Number_0.text@ == "0.0"@ ==> same_value(a, b),
        same_value(a, b) && a->Number_0.text@ != "-0.0"@ && b->Number_0.text@ != "-0.0"@
            ==> a->Number_0.text@ == b->Number_0.text@,
{
    reveal_strlit("-0.0");
    reveal_strlit("0.0");
    assert("-0.0"@.len() != "0.0"@.len());
}

} // verus!
