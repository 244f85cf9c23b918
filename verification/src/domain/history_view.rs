//! Object changes: who changed what, and when.

use vstd::prelude::*;
use vstd::string::StringExecFns;

use crate::domain::journal_view::text_or_nothing;
use crate::domain::util::{prefix_all, prefixed};
use crate::json::{
    compact_form,
    find_member,
    member_of,
    pretty,
    pretty_form,
    pretty_or_compact,
    same_value,
    values_equal,
    Member,
};
use crate::netbox::models::{
    choice_label_of,
    label_of,
    opt_choice_label,
    opt_label,
    opt_value,
    value_of,
    ObjectChange,
    Payload,
};
use crate::order::{ascending, insert_name};
use crate::split::{lines, split_lines};
use crate::text::{
    cat2,
    cat3,
    cat5,
    join,
    joined,
    opt_text,
    texts,
    trim_end,
    trimmed_end,
    Text,
};

verus! {

/// One change, flattened for display. The payloads are there only when they were
/// asked for.
#[derive(Debug)]
pub struct HistoryRow {
    pub time: Option<String>,
    pub action: Option<String>,
    pub action_label: Option<String>,
    pub user: Option<String>,
    pub object: Option<String>,
    pub message: String,
    pub fields_changed: Vec<String>,
    pub request_id: Option<String>,
    pub before: Option<Payload>,
    pub after: Option<Payload>,
}

/// The changes of an object, newest first.
#[derive(Debug)]
pub struct HistoryView {
    pub entries: Vec<HistoryRow>,
}

// ===== Which fields changed ==============================================

/// Whether the object after the change holds another value than `m`, or none,
/// under `m`'s name.
pub open spec fn differs(m: Member, post: Seq<Member>) -> bool {
    match member_of(post, m.name@) {
        Some(v) => !same_value(m.value, v),
        None => true,
    }
}

/// Whether a field was changed, removed or added.
pub open spec fn field_changed(pre: Seq<Member>, post: Seq<Member>, name: Text) -> bool {
    ||| exists|i: int|
        0 <= i < pre.len() && (#[trigger] pre[i]).name@ == name && differs(pre[i], post)
    ||| exists|i: int|
        0 <= i < post.len() && (#[trigger] post[i]).name@ == name && member_of(pre, name) is None
}

/// The objects on both sides of a change, when both sides are objects.
pub open spec fn both_objects(pre: Option<Payload>, post: Option<Payload>) -> Option<
    (Seq<Member>, Seq<Member>),
> {
    match (pre, post) {
        (Some(a), Some(b)) => match (a.value.object(), b.value.object()) {
            (Some(x), Some(y)) => Some((x, y)),
            _ => None,
        },
        _ => None,
    }
}

/// Whether `names` lists, in ascending order, exactly the fields that changed;
/// nothing when one side is missing or no object.
pub open spec fn lists_changes(
    names: Seq<Text>,
    pre: Option<Payload>,
    post: Option<Payload>,
) -> bool {
    match both_objects(pre, post) {
        Some((x, y)) => {
            &&& ascending(names)
            &&& forall|name: Text| names.contains(name) <==> #[trigger] field_changed(x, y, name)
        },
        None => names.len() == 0,
    }
}

/// The names of the fields that differ between two object states, ascending.
#[verifier::loop_isolation(false)]
fn changed_fields(pre: &Option<Payload>, post: &Option<Payload>) -> (r: Vec<String>)
    ensures
        lists_changes(texts(r@), *pre, *post),
{
    let mut changed: Vec<String> = Vec::new();
    let (a, b) = match (pre, post) {
        (Some(a), Some(b)) => (a, b),
        _ => return changed,
    };
    let (x, y) = match (a.value.as_object(), b.value.as_object()) {
        (Some(x), Some(y)) => (x, y),
        _ => return changed,
    };
    let mut i: usize = 0;
    while i < x.len()
        invariant
            i <= x.len(),
            ascending(texts(changed@)),
            forall|n: Text|
                #[trigger] texts(changed@).contains(n) <==> exists|k: int|
                    0 <= k < i && (#[trigger] x@[k]).name@ == n && differs(x@[k], y@),
        decreases x.len() - i,
    {
        let ghost seen = texts(changed@);
        let same_there = match find_member(y, x[i].name.as_str()) {
            Some(v) => values_equal(&x[i].value, v),
            None => false,
        };
        if !same_there {
            insert_name(&mut changed, x[i].name.as_str());
        }
        proof {
            assert forall|n: Text| #[trigger] texts(changed@).contains(n) <==> exists|k: int|
                0 <= k < i + 1 && (#[trigger] x@[k]).name@ == n && differs(x@[k], y@) by {
                if exists|k: int|
                    0 <= k < i + 1 && (#[trigger] x@[k]).name@ == n && differs(x@[k], y@) {
                    let k = choose|k: int|
                        0 <= k < i + 1 && (#[trigger] x@[k]).name@ == n && differs(x@[k], y@);
                    if k < i {
                        assert(seen.contains(n));
                    }
                }
                if seen.contains(n) {
                    let k = choose|k: int|
                        0 <= k < i && (#[trigger] x@[k]).name@ == n && differs(x@[k], y@);
                    assert(0 <= k < i + 1 && x@[k].name@ == n && differs(x@[k], y@));
                }
                if !same_there && n == x@[i as int].name@ {
                    assert(differs(x@[i as int], y@));
                }
            }
        }
        i = i + 1;
    }
    let ghost removed = texts(changed@);
    let mut j: usize = 0;
    while j < y.len()
        invariant
            j <= y.len(),
            ascending(texts(changed@)),
            forall|n: Text|
                #[trigger] texts(changed@).contains(n) <==> removed.contains(n) || exists|k: int|
                    0 <= k < j && (#[trigger] y@[k]).name@ == n && member_of(x@, n) is None,
        decreases y.len() - j,
    {
        let ghost seen = texts(changed@);
        let added = find_member(x, y[j].name.as_str()).is_none();
        if added {
            insert_name(&mut changed, y[j].name.as_str());
        }
        proof {
            assert forall|n: Text|
                #[trigger] texts(changed@).contains(n) <==> removed.contains(n) || exists|k: int|
                    0 <= k < j + 1 && (#[trigger] y@[k]).name@ == n && member_of(
                        x@,
                        n,
                    ) is None by {
                if exists|k: int|
                    0 <= k < j + 1 && (#[trigger] y@[k]).name@ == n && member_of(x@, n) is None {
                    let k = choose|k: int|
                        0 <= k < j + 1 && (#[trigger] y@[k]).name@ == n && member_of(x@, n) is None;
                    if k < j {
                        assert(seen.contains(n));
                    }
                }
                if seen.contains(n) && !removed.contains(n) {
                    let k = choose|k: int|
                        0 <= k < j && (#[trigger] y@[k]).name@ == n && member_of(x@, n) is None;
                    assert(0 <= k < j + 1 && y@[k].name@ == n && member_of(x@, n) is None);
                }
                if added && n == y@[j as int].name@ {
                    assert(member_of(x@, n) is None);
                }
            }
        }
        j = j + 1;
    }
    proof {
        assert forall|n: Text| texts(changed@).contains(n) <==> #[trigger] field_changed(
            x@,
            y@,
            n,
        ) by {
            assert(texts(changed@).contains(n) <==> removed.contains(n) || exists|k: int|
                0 <= k < y@.len() && (#[trigger] y@[k]).name@ == n && member_of(x@, n) is None);
        }
    }
    changed
}

// ===== Rows ==============================================================

/// Who made a change: the recorded name, else the nested user.
pub open spec fn change_user(c: ObjectChange) -> Option<Text> {
    match c.user_name {
        Some(n) => Some(n@),
        None => opt_label(c.user),
    }
}

/// Whether a row carries what a change says, with the payloads when `diff` is
/// set.
pub open spec fn row_is_of(row: HistoryRow, c: ObjectChange, diff: bool) -> bool {
    &&& row.time == c.time
    &&& opt_text(row.action) == opt_value(c.action)
    &&& opt_text(row.action_label) == opt_choice_label(c.action)
    &&& opt_text(row.user) == change_user(c)
    &&& row.object == c.object_repr
    &&& row.message == c.message
    &&& lists_changes(texts(row.fields_changed@), c.prechange_data, c.postchange_data)
    &&& row.request_id == c.request_id
    &&& row.before == if diff {
        c.prechange_data
    } else {
        None
    }
    &&& row.after == if diff {
        c.postchange_data
    } else {
        None
    }
}

/// A payload under its label, as an indented block of JSON.
pub open spec fn payload_block(label: Text, payload: Payload) -> Text {
    "  "@ + label + ":\n"@ + joined(
        prefixed(
            "    "@,
            lines(pretty_or_compact(pretty_form(payload.raw), compact_form(payload.raw))),
        ),
        "\n"@,
    ) + "\n"@
}

/// A block for an optional payload.
pub open spec fn opt_payload_block(label: Text, payload: Option<Payload>) -> Text {
    match payload {
        Some(p) => payload_block(label, p),
        None => Seq::empty(),
    }
}

fn render_payload(label: &str, payload: &Payload) -> (r: String)
    ensures
        r@ == payload_block(label@, *payload),
{
    let text = pretty(&payload.raw);
    let ls = split_lines(text.as_str());
    let indented = prefix_all("    ", &ls);
    let body = join(&indented, "\n");
    cat5("  ", label, ":\n", body.as_str(), "\n")
}

/// Indented lines, each closed by a line break.
pub open spec fn closed_lines(ls: Seq<Text>) -> Text
    decreases ls.len(),
{
    if ls.len() == 0 {
        Seq::empty()
    } else {
        closed_lines(ls.drop_last()) + ("  "@ + ls.last() + "\n"@)
    }
}

fn close_lines(ls: &Vec<String>) -> (r: String)
    ensures
        r@ == closed_lines(texts(ls@)),
{
    let mut out = String::new();
    let mut i: usize = 0;
    proof {
        assert(texts(ls@).take(0) =~= Seq::empty());
    }
    while i < ls.len()
        invariant
            i <= ls.len(),
            out@ == closed_lines(texts(ls@).take(i as int)),
        decreases ls.len() - i,
    {
        let line = cat3("  ", ls[i].as_str(), "\n");
        out.append(line.as_str());
        proof {
            assert(texts(ls@).take(i as int + 1).drop_last() =~= texts(ls@).take(i as int));
        }
        i = i + 1;
    }
    proof {
        assert(texts(ls@).take(i as int) =~= texts(ls@));
    }
    out
}

impl HistoryRow {
    /// The action: its label, else its value, else `changed`.
    pub open spec fn action_name(self) -> Text {
        match self.action_label {
            Some(l) => l@,
            None => match self.action {
                Some(a) => a@,
                None => "changed"@,
            },
        }
    }

    /// The heading: when, what, by whom, on what.
    pub open spec fn heading(self) -> Text {
        text_or_nothing(self.time) + ("  "@ + self.action_name()) + match self.user {
            Some(u) => "  "@ + u@,
            None => Seq::empty(),
        } + match self.object {
            Some(o) => "  — "@ + o@,
            None => Seq::empty(),
        }
    }

    /// The line that names the changed fields.
    pub open spec fn fields_line(self) -> Text {
        if self.fields_changed@.len() == 0 {
            Seq::empty()
        } else {
            "  fields: "@ + joined(texts(self.fields_changed@), ", "@) + "\n"@
        }
    }

    /// What stands below the heading: the changed fields, the payloads, the
    /// message.
    pub open spec fn body(self) -> Text {
        self.fields_line() + opt_payload_block("before"@, self.before) + opt_payload_block(
            "after"@,
            self.after,
        ) + closed_lines(lines(self.message@))
    }

    /// The heading with its body below it.
    pub open spec fn block(self) -> Text {
        if self.body().len() == 0 {
            self.heading()
        } else {
            self.heading() + "\n"@ + trim_end(self.body())
        }
    }

    fn render_heading(&self) -> (r: String)
        ensures
            r@ == self.heading(),
    {
        let mut header = String::new();
        if let Some(t) = &self.time {
            header.append(t.as_str());
        }
        proof {
            assert(header@ =~= text_or_nothing(self.time));
        }
        let action: &str = match &self.action_label {
            Some(l) => l.as_str(),
            None => match &self.action {
                Some(a) => a.as_str(),
                None => "changed",
            },
        };
        let part = cat2("  ", action);
        header.append(part.as_str());
        let ghost so_far = header@;
        if let Some(u) = &self.user {
            let part = cat2("  ", u.as_str());
            header.append(part.as_str());
        }
        proof {
            if self.user is None {
                assert(header@ =~= so_far + Seq::empty());
            }
        }
        let ghost so_far = header@;
        if let Some(o) = &self.object {
            let part = cat2("  — ", o.as_str());
            header.append(part.as_str());
        }
        proof {
            if self.object is None {
                assert(header@ =~= so_far + Seq::empty());
            }
        }
        header
    }

    fn render_body(&self) -> (r: String)
        ensures
            r@ == self.body(),
    {
        let mut body = String::new();
        if !self.fields_changed.is_empty() {
            let names = join(&self.fields_changed, ", ");
            let line = cat3("  fields: ", names.as_str(), "\n");
            body.append(line.as_str());
        }
        proof {
            assert(body@ =~= self.fields_line());
        }
        let ghost so_far = body@;
        if let Some(p) = &self.before {
            let block = render_payload("before", p);
            body.append(block.as_str());
        }
        proof {
            assert(body@ =~= so_far + opt_payload_block("before"@, self.before));
        }
        let ghost so_far = body@;
        if let Some(p) = &self.after {
            let block = render_payload("after", p);
            body.append(block.as_str());
        }
        proof {
            assert(body@ =~= so_far + opt_payload_block("after"@, self.after));
        }
        let ls = split_lines(self.message.as_str());
        let message = close_lines(&ls);
        body.append(message.as_str());
        body
    }

    fn render(&self) -> (r: String)
        ensures
            r@ == self.block(),
    {
        let header = self.render_heading();
        let body = self.render_body();
        if body.as_str().is_empty() {
            header
        } else {
            let trimmed = trimmed_end(body.as_str());
            cat3(header.as_str(), "\n", trimmed.as_str())
        }
    }
}

/// The blocks of a list of changes.
pub open spec fn change_blocks(entries: Seq<HistoryRow>) -> Seq<Text> {
    Seq::new(entries.len(), |i: int| entries[i].block())
}

impl HistoryView {
    /// Turns changes into rows, one each, in order. The payloads are kept only
    /// when `diff` is set; the changed fields are named either way.
    pub fn from_models(changes: Vec<ObjectChange>, diff: bool) -> (r: Self)
        ensures
            r.entries@.len() == changes@.len(),
            forall|i: int|
                0 <= i < changes@.len() ==> row_is_of(#[trigger] r.entries@[i], changes@[i], diff),
    {
        let ghost all = changes@;
        let mut rows: Vec<HistoryRow> = Vec::new();
        for c in it: changes
            invariant
                it.seq() == all,
                rows@.len() == it.index(),
                forall|j: int|
                    0 <= j < rows@.len() ==> row_is_of(#[trigger] rows@[j], all[j], diff),
        {
            let fields_changed = changed_fields(&c.prechange_data, &c.postchange_data);
            let action = value_of(&c.action);
            let action_label = choice_label_of(&c.action);
            let user = match &c.user_name {
                Some(n) => Some(n.clone()),
                None => label_of(&c.user),
            };
            let (before, after) = if diff {
                (c.prechange_data, c.postchange_data)
            } else {
                (None, None)
            };
            rows.push(
                HistoryRow {
                    time: c.time,
                    action,
                    action_label,
                    user,
                    object: c.object_repr,
                    message: c.message,
                    fields_changed,
                    request_id: c.request_id,
                    before,
                    after,
                },
            );
        }
        HistoryView { entries: rows }
    }

    /// The text shown: the blocks, a blank line apart.
    pub open spec fn plain(self) -> Text {
        if self.entries@.len() == 0 {
            "no change history"@
        } else {
            joined(change_blocks(self.entries@), "\n\n"@)
        }
    }

    /// Renders the changes.
    pub fn to_plain(&self) -> (r: String)
        ensures
            r@ == self.plain(),
    {
        if self.entries.is_empty() {
            return "no change history".to_owned();
        }
        let mut blocks: Vec<String> = Vec::new();
        let mut i: usize = 0;
        while i < self.entries.len()
            invariant
                i <= self.entries.len(),
                blocks.len() == i,
                forall|j: int| 0 <= j < i ==> (#[trigger] blocks@[j])@ == self.entries@[j].block(),
            decreases self.entries.len() - i,
        {
            blocks.push(self.entries[i].render());
            i = i + 1;
        }
        proof {
            assert(texts(blocks@) =~= change_blocks(self.entries@));
        }
        join(&blocks, "\n\n")
    }
}

/// A field is listed as changed when its value before differs from its value after, and
/// when it stands on one side only.
pub proof fn changed_fields_are_those_that_differ(
    pre: Seq<Member>,
    post: Seq<Member>,
    name: Text,
    i: int,
    j: int,
)
    requires
        forall|a: int, b: int|
            #![trigger pre[a], pre[b]]
            0 <= a < b < pre.len() ==> pre[a].name@ != pre[b].name@,
        forall|a: int, b: int|
            #![trigger post[a], post[b]]
            0 <= a < b < post.len() ==> post[a].name@ != post[b].name@,
    ensures
        0 <= i < pre.len() && pre[i].name@ == name && 0 <= j < post.len() && post[j].name@ == name
            ==> (field_changed(pre, post, name) <==> !same_value(pre[i].value, post[j].value)),
        0 <= i < pre.len() && pre[i].name@ == name && (forall|k: int|
            0 <= k < post.len() ==> (#[trigger] post[k]).name@ != name) ==> field_changed(
            pre,
            post,
            name,
        ),
        0 <= j < post.len() && post[j].name@ == name && (forall|k: int|
            0 <= k < pre.len() ==> (#[trigger] pre[k]).name@ != name) ==> field_changed(
            pre,
            post,
            name,
        ),
        (forall|k: int| 0 <= k < pre.len() ==> (#[trigger] pre[k]).name@ != name) && (forall|k: int|
            0 <= k < post.len() ==> (#[trigger] post[k]).name@ != name) ==> !field_changed(
            pre,
            post,
            name,
        ),
{
    if 0 <= j < post.len() && post[j].name@ == name {
        assert forall|k: int| 0 <= k < j implies (#[trigger] post[k]).name@ != name by {
            assert(post[k].name@ != post[j].name@);
        }
        crate::json::member_index_is(post, name, j);
    }
    if 0 <= i < pre.len() && pre[i].name@ == name {
        assert forall|k: int| 0 <= k < i implies (#[trigger] pre[k]).name@ != name by {
            assert(pre[k].name@ != pre[i].name@);
        }
        crate::json::member_index_is(pre, name, i);
        assert forall|k: int| 0 <= k < pre.len() && (#[trigger] pre[k]).name@ == name implies k
            == i by {
            if k < i {
                assert(pre[k].name@ != pre[i].name@);
            } else if k > i {
                assert(pre[i].name@ != pre[k].name@);
            }
        }
    }
    if forall|k: int| 0 <= k < post.len() ==> (#[trigger] post[k]).name@ != name {
        crate::json::member_index_is(post, name, post.len() as int);
    }
    if forall|k: int| 0 <= k < pre.len() ==> (#[trigger] pre[k]).name@ != name {
        crate::json::member_index_is(pre, name, pre.len() as int);
    }
}

/// A row keeps its change's time, action, user, object, message and request, and shows the
/// data before and after only where a diff was asked for.
pub proof fn history_rows_keep_their_change(row: HistoryRow, c: ObjectChange, diff: bool)
    requires
        row_is_of(row, c, diff),
    ensures
        row.time == c.time && row.object == c.object_repr && row.message == c.message
            && row.request_id == c.request_id,
        row.action is Some <==> c.action is Some,
        c.action is Some ==> row.action->0@ == c.action->0.value@,
        c.user_name is Some ==> row.user is Some && row.user->0@ == c.user_name->0@,
        c.user_name is None && c.user is Some ==> row.user is Some && row.user->0@
            == c.user->0.label_text(),
        c.user_name is None && c.user is None ==> row.user is None,
        diff ==> row.before == c.prechange_data && row.after == c.postchange_data,
        !diff ==> row.before is None && row.after is None,
        c.prechange_data is None || c.postchange_data is None ==> row.fields_changed@.len() == 0,
        c.prechange_data is Some && c.postchange_data is Some && c.prechange_data->0.value is Object
            && c.postchange_data->0.value is Object ==> forall|name: Text| #[trigger]
            texts(row.fields_changed@).contains(name) <==> field_changed(
                c.prechange_data->0.value->members@,
                c.postchange_data->0.value->members@,
                name,
            ),
{
    if c.prechange_data is Some && c.postchange_data is Some && c.prechange_data->0.value is Object
        && c.postchange_data->0.value is Object {
        let x = c.prechange_data->0.value->members@;
        let y = c.postchange_data->0.value->members@;
        crate::json::values_read_as_what_they_are(c.prechange_data->0.value);
        crate::json::values_read_as_what_they_are(c.postchange_data->0.value);
        let names = texts(row.fields_changed@);
        assert(lists_changes(names, c.prechange_data, c.postchange_data));
        match both_objects(c.prechange_data, c.postchange_data) {
            Some((a, b)) => {
                assert(a =~= x);
                assert(b =~= y);
                assert(forall|name: Text|
                    names.contains(name) <==> #[trigger] field_changed(a, b, name));
            },
            None => {
                assert(false);
            },
        }
        assert forall|name: Text| #[trigger]
            names.contains(name) <==> field_changed(x, y, name) by {}
    }
}

/// A change is headed by its time, what was done, by whom and to what. The action goes by
/// its label, else by its value.
pub proof fn changes_are_headed(row: HistoryRow)
    ensures
        row.action_label is Some ==> row.action_name() == row.action_label->0@,
        row.action_label is None && row.action is Some ==> row.action_name() == row.action->0@,
        row.action_label is None && row.action is None ==> row.action_name() == "changed"@,
        row.time is Some && row.user is Some && row.object is Some ==> row.heading()
            == row.time->0@ + "  "@ + row.action_name() + "  "@ + row.user->0@ + "  — "@
            + row.object->0@,
        row.time is Some && row.user is None && row.object is Some ==> row.heading()
            == row.time->0@ + "  "@ + row.action_name() + "  — "@ + row.object->0@,
        row.time is Some && row.user is Some && row.object is None ==> row.heading()
            == row.time->0@ + "  "@ + row.action_name() + "  "@ + row.user->0@,
        row.time is Some && row.user is None && row.object is None ==> row.heading()
            == row.time->0@ + "  "@ + row.action_name(),
{
    if row.time is Some {
        let t = row.time->0@;
        let a = row.action_name();
        let s = t + "  "@ + a;
        assert(t + ("  "@ + a) =~= s);
        assert(s + Seq::<char>::empty() =~= s);
        if row.user is Some {
            let u = row.user->0@;
            assert(s + ("  "@ + u) =~= s + "  "@ + u);
            assert(s + "  "@ + u + Seq::<char>::empty() =~= s + "  "@ + u);
            if row.object is Some {
                let o = row.object->0@;
                assert(s + "  "@ + u + ("  — "@ + o) =~= s + "  "@ + u + "  — "@ + o);
            }
        } else if row.object is Some {
            let o = row.object->0@;
            assert(s + ("  — "@ + o) =~= s + "  — "@ + o);
        }
    }
}

/// Below its heading a change lists its fields, what was before and after, and its
/// message, each only where there is some.
pub proof fn changes_read_below_their_heading(row: HistoryRow, front: Seq<Text>, x: Text)
    ensures
        row.fields_changed@.len() == 0 ==> row.fields_line().len() == 0,
        row.fields_changed@.len() > 0 ==> row.fields_line() == "  fields: "@ + joined(
            texts(row.fields_changed@),
            ", "@,
        ) + "\n"@,
        row.fields_changed@.len() > 0 && row.before is None && row.after is None
            && row.message@.len() == 0 ==> row.body() == row.fields_line(),
        row.fields_changed@.len() == 0 && row.before is None && row.after is None ==> row.body()
            == closed_lines(lines(row.message@)),
        row.fields_changed@.len() == 0 && row.before is Some && row.after is None
            && row.message@.len() == 0 ==> row.body() == payload_block("before"@, row.before->0),
        row.fields_changed@.len() == 0 && row.before is None && row.after is Some
            && row.message@.len() == 0 ==> row.body() == payload_block("after"@, row.after->0),
        closed_lines(Seq::empty()).len() == 0,
        closed_lines(front.push(x)) == closed_lines(front) + ("  "@ + x + "\n"@),
        row.body().len() == 0 ==> row.block() == row.heading(),
        row.body().len() > 0 ==> row.block() == row.heading() + "\n"@ + trim_end(row.body()),
{
    assert(front.push(x).drop_last() =~= front);
    reveal_with_fuel(closed_lines, 2);
    let none = Seq::<char>::empty();
    if row.fields_changed@.len() == 0 {
        assert(row.fields_line() =~= none);
    }
    if row.message@.len() == 0 {
        assert(lines(row.message@).len() == 0);
        assert(closed_lines(lines(row.message@)) =~= none);
    }
    let f = row.fields_line();
    let m = closed_lines(lines(row.message@));
    if row.before is None && row.after is None {
        assert(row.body() =~= f + m);
    }
    if row.fields_changed@.len() == 0 && row.message@.len() == 0 {
        if row.before is Some && row.after is None {
            assert(row.body() =~= payload_block("before"@, row.before->0));
        }
        if row.before is None && row.after is Some {
            assert(row.body() =~= payload_block("after"@, row.after->0));
        }
    }
}

/// A history is its changes with a blank line between them, in order, and says so when
/// there are none.
pub proof fn histories_are_their_changes(v: HistoryView, i: int)
    ensures
        v.entries@.len() == 0 ==> v.plain() == "no change history"@,
        v.entries@.len() > 0 ==> v.plain() == joined(change_blocks(v.entries@), "\n\n"@),
        change_blocks(v.entries@).len() == v.entries@.len(),
        0 <= i < v.entries@.len() ==> change_blocks(v.entries@)[i] == v.entries@[i].block(),
{
}

} // verus!
