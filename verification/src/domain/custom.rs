//! Custom fields: the non-empty ones, as `cf.<name>` rows.

use vstd::prelude::*;

use crate::json::{compact, compact_form, Json, Member};
use crate::order::{sort_stable, stably_sorted};
use crate::output::{row, KeyValues, Row};
use crate::text::{cat2, Text};

verus! {

/// Whether a value says nothing: null or an empty string.
pub open spec fn says_nothing(v: Json) -> bool {
    match v {
        Json::Null => true,
        Json::Text(s) => s@.len() == 0,
        _ => false,
    }
}

/// The members that say something, in their order.
pub open spec fn telling(members: Seq<Member>) -> Seq<Member>
    decreases members.len(),
{
    if members.len() == 0 {
        members
    } else {
        let rest = telling(members.drop_last());
        if says_nothing(members.last().value) {
            rest
        } else {
            rest.push(members.last())
        }
    }
}

/// The custom fields to show: those that say something, ordered by name.
pub open spec fn shown_fields(custom_fields: Json) -> Seq<Member> {
    match custom_fields {
        Json::Object { members, raw } => stably_sorted(telling(members@)),
        _ => Seq::empty(),
    }
}

/// A custom-field value as text.
pub open spec fn shown_value(v: Json) -> Text {
    match v {
        Json::Text(s) => s@,
        Json::Bool(b) => if b {
            "true"@
        } else {
            "false"@
        },
        Json::Number(n) => n.text@,
        Json::Null => "null"@,
        Json::Array { items, raw } => compact_form(raw),
        Json::Object { members, raw } => compact_form(raw),
    }
}

/// The row of one custom field.
pub open spec fn field_row(m: Member) -> Row {
    ("cf."@ + m.name@, shown_value(m.value))
}

/// The rows of the custom fields.
pub open spec fn field_rows(fields: Seq<Member>) -> Seq<Row> {
    Seq::new(fields.len(), |i: int| field_row(fields[i]))
}

fn is_empty(value: &Json) -> (r: bool)
    ensures
        r == says_nothing(*value),
{
    match value {
        Json::Null => true,
        Json::Text(s) => s.as_str().is_empty(),
        _ => false,
    }
}

/// The custom fields of an object that say something, ordered by name.
pub fn fields(custom_fields: Json) -> (r: Vec<Member>)
    ensures
        r@ == shown_fields(custom_fields),
{
    match custom_fields {
        Json::Object { members, raw: _ } => {
            let ghost all = members@;
            let mut out: Vec<Member> = Vec::new();
            proof {
                assert(all.take(0) =~= Seq::empty());
                assert(out@ =~= telling(all.take(0)));
            }
            for m in it: members
                invariant
                    it.seq() == all,
                    out@ == telling(all.take(it.index() as int)),
            {
                let ghost taken = all.take(it.index() as int + 1);
                proof {
                    assert(taken.drop_last() =~= all.take(it.index() as int));
                    assert(taken.last() == m);
                }
                if !is_empty(&m.value) {
                    out.push(m);
                }
            }
            proof {
                assert(all.take(all.len() as int) =~= all);
            }
            sort_stable(out)
        },
        _ => Vec::new(),
    }
}

/// Renders a custom-field value.
pub fn display(value: &Json) -> (r: String)
    ensures
        r@ == shown_value(*value),
{
    match value {
        Json::Text(s) => s.clone(),
        Json::Bool(b) => if *b {
            "true".to_owned()
        } else {
            "false".to_owned()
        },
        Json::Number(n) => n.text.clone(),
        Json::Null => "null".to_owned(),
        Json::Array { items: _, raw } => compact(raw),
        Json::Object { members: _, raw } => compact(raw),
    }
}

/// Adds a `cf.<name>` row for each custom field.
pub fn append(kv: &mut KeyValues, fields: &Vec<Member>)
    ensures
        final(kv)@ == old(kv)@ + field_rows(fields@),
{
    let ghost before = kv@;
    let mut i: usize = 0;
    proof {
        assert(before + field_rows(fields@).take(0) =~= before);
    }
    while i < fields.len()
        invariant
            i <= fields.len(),
            kv@ == before + field_rows(fields@).take(i as int),
        decreases fields.len() - i,
    {
        let key = cat2("cf.", fields[i].name.as_str());
        let value = display(&fields[i].value);
        kv.push(key.as_str(), value.as_str());
        proof {
            let r = field_row(fields@[i as int]);
            assert(field_rows(fields@).take(i as int + 1) =~= field_rows(fields@).take(
                i as int,
            ).push(r));
            assert(before + field_rows(fields@).take(i as int) + row(key@, value@) =~= before
                + field_rows(fields@).take(i as int + 1));
        }
        i = i + 1;
    }
    proof {
        assert(field_rows(fields@).take(i as int) =~= field_rows(fields@));
    }
}

/// Every custom field that is shown says something, and every one that says
/// something is shown.
pub proof fn shown_fields_are_telling(members: Seq<Member>, m: Member)
    ensures
        stably_sorted(telling(members)).contains(m) <==> members.contains(m) && !says_nothing(
            m.value,
        ),
{
    broadcast use vstd::seq_lib::group_to_multiset_ensures;

    telling_keeps(members, m);
    crate::order::sorting_keeps_values(telling(members));
    assert(telling(members).contains(m) <==> telling(members).to_multiset().count(m) > 0);
    let sorted = stably_sorted(telling(members));
    assert(sorted.contains(m) <==> sorted.to_multiset().count(m) > 0);
}

proof fn telling_keeps(members: Seq<Member>, m: Member)
    ensures
        telling(members).contains(m) <==> members.contains(m) && !says_nothing(m.value),
    decreases members.len(),
{
    if members.len() > 0 {
        let front = members.drop_last();
        let last = members.last();
        telling_keeps(front, m);
        assert(members =~= front.push(last));
        assert(members.contains(m) <==> front.contains(m) || m == last) by {
            if front.contains(m) {
                let i = choose|i: int| 0 <= i < front.len() && front[i] == m;
                assert(members[i] == m);
            }
            if m == last {
                assert(members[members.len() - 1] == m);
            }
            if members.contains(m) {
                let i = choose|i: int| 0 <= i < members.len() && members[i] == m;
                if i < front.len() {
                    assert(front[i] == m);
                }
            }
        }
        let rest = telling(front);
        assert(rest.push(last).contains(m) <==> rest.contains(m) || m == last) by {
            let pushed = rest.push(last);
            if rest.contains(m) {
                let i = choose|i: int| 0 <= i < rest.len() && rest[i] == m;
                assert(pushed[i] == m);
            }
            if m == last {
                assert(pushed[rest.len() as int] == m);
            }
            if pushed.contains(m) {
                let i = choose|i: int| 0 <= i < pushed.len() && pushed[i] == m;
                if i < rest.len() {
                    assert(rest[i] == m);
                }
            }
        }
    }
}

/// What says nothing is null or the empty string; all else is shown: a string as it is,
/// a truth value by name, a number by its text, anything else as it was received.
pub proof fn custom_values_are_shown(v: Json)
    ensures
        says_nothing(v) <==> v is Null || (v is Text && v->Text_0@.len() == 0),
        v is Text ==> shown_value(v) == v->Text_0@,
        v is Bool && v->Bool_0 ==> shown_value(v) == "true"@,
        v is Bool && !v->Bool_0 ==> shown_value(v) == "false"@,
        v is Number ==> shown_value(v) == v->Number_0.text@,
        v is Array ==> shown_value(v) == compact_form(v->Array_raw),
        v is Object ==> shown_value(v) == compact_form(v->Object_raw),
{
}

/// A custom field has a row exactly when it says something, under its own name and with
/// its own value; and the rows stand in the order of the names.
pub proof fn custom_fields_have_rows(custom_fields: Json, k: Text, v: Text)
    ensures
        field_rows(shown_fields(custom_fields)).contains((k, v)) <==> custom_fields is Object
            && exists|m: Member|
            {
                &&& #[trigger] custom_fields->members@.contains(m)
                &&& !(m.value is Null)
                &&& !(m.value is Text && m.value->Text_0@.len() == 0)
                &&& k == "cf."@ + m.name@
                &&& v == shown_value(m.value)
            },
        forall|i: int, j: int|
            #![trigger shown_fields(custom_fields)[i], shown_fields(custom_fields)[j]]
            0 <= i < j < shown_fields(custom_fields).len() ==> crate::order::text_le(
                shown_fields(custom_fields)[i].name@,
                shown_fields(custom_fields)[j].name@,
            ),
{
    let shown = shown_fields(custom_fields);
    let rows = field_rows(shown);
    if custom_fields is Object {
        let members = custom_fields->members@;
        crate::order::sorting_orders(telling(members));
        if rows.contains((k, v)) {
            let i = choose|i: int| 0 <= i < rows.len() && rows[i] == (k, v);
            let m = shown[i];
            assert(shown.contains(m));
            shown_fields_are_telling(members, m);
            assert(members.contains(m));
        }
        if exists|m: Member|
            {
                &&& #[trigger] members.contains(m)
                &&& !(m.value is Null)
                &&& !(m.value is Text && m.value->Text_0@.len() == 0)
                &&& k == "cf."@ + m.name@
                &&& v == shown_value(m.value)
            } {
            let m = choose|m: Member|
                {
                    &&& #[trigger] members.contains(m)
                    &&& !(m.value is Null)
                    &&& !(m.value is Text && m.value->Text_0@.len() == 0)
                    &&& k == "cf."@ + m.name@
                    &&& v == shown_value(m.value)
                };
            shown_fields_are_telling(members, m);
            let i = choose|i: int| 0 <= i < shown.len() && shown[i] == m;
            assert(rows[i] == (k, v));
        }
        assert forall|i: int, j: int|
            #![trigger shown[i], shown[j]]
            0 <= i < j < shown.len() implies crate::order::text_le(
            shown[i].name@,
            shown[j].name@,
        ) by {
            assert(crate::order::Ranked::ranks_le(&shown[i], &shown[j]));
        }
    }
}

} // verus!
