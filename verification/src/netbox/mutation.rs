//! Planned writes: what is to change, on what condition, and what came of it.

use vstd::prelude::*;

use crate::error::NboxError;
use crate::number::{decimal_len, decimal_text};
use crate::text::{cat4, chars_of, copy_texts, opt_text, texts, Text};

verus! {

/// The version of the plan format.
pub const PLAN_SCHEMA_VERSION: u32 = 1;

/// What a write does.
#[derive(Debug, Clone, Copy, PartialEq, Eq, Structural)]
pub enum Operation {
    Update,
    Allocate,
}

/// A field's value in a plan.
#[derive(Debug)]
pub enum FieldValue {
    Null,
    Text(String),
    Number(u64),
    Texts(Vec<String>),
}

/// What a field's value holds.
pub enum Held {
    Null,
    Text(Text),
    Number(u64),
    Texts(Seq<Text>),
}

impl FieldValue {
    pub open spec fn view(&self) -> Held {
        match self {
            FieldValue::Null => Held::Null,
            FieldValue::Text(s) => Held::Text(s@),
            FieldValue::Number(n) => Held::Number(*n),
            FieldValue::Texts(v) => Held::Texts(texts(v@)),
        }
    }

    /// Copies the value.
    pub fn copy(&self) -> (r: Self)
        ensures
            r@ == self@,
    {
        match self {
            FieldValue::Null => FieldValue::Null,
            FieldValue::Text(s) => FieldValue::Text(s.clone()),
            FieldValue::Number(n) => FieldValue::Number(*n),
            FieldValue::Texts(v) => FieldValue::Texts(copy_texts(v)),
        }
    }
}

/// The value of an optional text: the text, or null.
pub open spec fn held_opt(o: Option<Text>) -> Held {
    match o {
        Some(t) => Held::Text(t),
        None => Held::Null,
    }
}

/// The value of an optional text.
pub fn opt_value(o: &Option<String>) -> (r: FieldValue)
    ensures
        r@ == held_opt(opt_text(*o)),
{
    match o {
        Some(s) => FieldValue::Text(s.clone()),
        None => FieldValue::Null,
    }
}

/// One field of a request body.
#[derive(Debug)]
pub struct PatchEntry {
    pub field: String,
    pub value: FieldValue,
}

/// What a request body says.
pub open spec fn patch_of(entries: Seq<PatchEntry>) -> Seq<(Text, Held)> {
    Seq::new(entries.len(), |i: int| (entries[i].field@, entries[i].value@))
}

/// A field's value before and after a write.
#[derive(Debug)]
pub struct FieldChange {
    pub field: String,
    pub before: FieldValue,
    pub after: FieldValue,
}

/// What changes say: field, value before, value after.
pub open spec fn changes_of(fields: Seq<FieldChange>) -> Seq<(Text, Held, Held)> {
    Seq::new(fields.len(), |i: int| (fields[i].field@, fields[i].before@, fields[i].after@))
}

/// The names of the fields that a plan changes.
pub open spec fn changed_names(fields: Seq<FieldChange>) -> Seq<Text> {
    Seq::new(fields.len(), |i: int| fields[i].field@)
}

/// What a write is aimed at.
#[derive(Debug)]
pub struct PlanTarget {
    pub kind: String,
    pub reference: String,
    pub id: u64,
    pub display: String,
    pub endpoint: String,
    pub profile: String,
}

/// What a target says.
pub struct Aim {
    pub kind: Text,
    pub reference: Text,
    pub id: u64,
    pub display: Text,
    pub endpoint: Text,
    pub profile: Text,
}

impl PlanTarget {
    pub open spec fn view(&self) -> Aim {
        Aim {
            kind: self.kind@,
            reference: self.reference@,
            id: self.id,
            display: self.display@,
            endpoint: self.endpoint@,
            profile: self.profile@,
        }
    }

    /// Copies the target.
    pub fn copy(&self) -> (r: Self)
        ensures
            r == *self,
    {
        PlanTarget {
            kind: self.kind.clone(),
            reference: self.reference.clone(),
            id: self.id,
            display: self.display.clone(),
            endpoint: self.endpoint.clone(),
            profile: self.profile.clone(),
        }
    }
}

/// The condition under which an update applies.
#[derive(Debug)]
pub enum Precondition {
    /// The object still carries this entity tag.
    Etag { etag: String },
    /// The object was not updated since, and the field still has its value.
    LastUpdated { last_updated: Option<String>, before_hash: String },
    /// There is no object yet.
    Absent,
}

/// What a condition says.
pub enum Condition {
    Etag(Text),
    LastUpdated(Option<Text>, Text),
    Absent,
}

impl Precondition {
    pub open spec fn view(&self) -> Condition {
        match self {
            Precondition::Etag { etag } => Condition::Etag(etag@),
            Precondition::LastUpdated { last_updated, before_hash } => Condition::LastUpdated(
                opt_text(*last_updated),
                before_hash@,
            ),
            Precondition::Absent => Condition::Absent,
        }
    }
}

/// A planned write, before it is sealed with a confirmation token.
#[derive(Debug)]
pub struct PlanDraft {
    pub operation: Operation,
    pub target: PlanTarget,
    pub precondition: Precondition,
    pub fields: Vec<FieldChange>,
    pub patch: Vec<PatchEntry>,
    pub no_op: bool,
    pub warnings: Vec<String>,
    pub changelog_message: Option<String>,
}

/// What a draft says.
pub struct Intent {
    pub operation: Operation,
    pub target: Aim,
    pub precondition: Condition,
    pub fields: Seq<(Text, Held, Held)>,
    pub patch: Seq<(Text, Held)>,
    pub no_op: bool,
    pub warnings: Seq<Text>,
    pub changelog_message: Option<Text>,
}

impl PlanDraft {
    pub open spec fn view(&self) -> Intent {
        Intent {
            operation: self.operation,
            target: self.target@,
            precondition: self.precondition@,
            fields: changes_of(self.fields@),
            patch: patch_of(self.patch@),
            no_op: self.no_op,
            warnings: texts(self.warnings@),
            changelog_message: opt_text(self.changelog_message),
        }
    }

    /// Seals the draft with the token that confirms it and the time it expires.
    pub fn seal(self, confirm_token: String, expires_at: String) -> (r: MutationPlan)
        ensures
            r.schema_version == PLAN_SCHEMA_VERSION,
            r@ == self@,
            r.errors@.len() == 0,
            r.confirm_token == confirm_token,
            r.expires_at == expires_at,
    {
        MutationPlan {
            schema_version: PLAN_SCHEMA_VERSION,
            operation: self.operation,
            target: self.target,
            precondition: self.precondition,
            fields: self.fields,
            patch: self.patch,
            no_op: self.no_op,
            warnings: self.warnings,
            errors: Vec::new(),
            changelog_message: self.changelog_message,
            confirm_token,
            expires_at,
        }
    }
}

/// A planned write.
#[derive(Debug)]
pub struct MutationPlan {
    pub schema_version: u32,
    pub operation: Operation,
    pub target: PlanTarget,
    pub precondition: Precondition,
    pub fields: Vec<FieldChange>,
    pub patch: Vec<PatchEntry>,
    pub no_op: bool,
    pub warnings: Vec<String>,
    pub errors: Vec<String>,
    pub changelog_message: Option<String>,
    pub confirm_token: String,
    pub expires_at: String,
}

impl MutationPlan {
    pub open spec fn view(&self) -> Intent {
        Intent {
            operation: self.operation,
            target: self.target@,
            precondition: self.precondition@,
            fields: changes_of(self.fields@),
            patch: patch_of(self.patch@),
            no_op: self.no_op,
            warnings: texts(self.warnings@),
            changelog_message: opt_text(self.changelog_message),
        }
    }

    /// The names of the fields that the plan changes.
    pub fn changed_field_names(&self) -> (r: Vec<String>)
        ensures
            texts(r@) == changed_names(self.fields@),
    {
        let mut out: Vec<String> = Vec::new();
        let mut i: usize = 0;
        while i < self.fields.len()
            invariant
                i <= self.fields.len(),
                out.len() == i,
                forall|j: int| 0 <= j < i ==> (#[trigger] out@[j])@ == self.fields@[j].field@,
            decreases self.fields.len() - i,
        {
            out.push(self.fields[i].field.clone());
            i = i + 1;
        }
        proof {
            assert(texts(out@) =~= changed_names(self.fields@));
        }
        out
    }
}

/// What came of a write. The created object, if any, is held as its JSON text.
#[derive(Debug)]
pub struct MutationReceipt {
    pub schema_version: u32,
    pub operation: Operation,
    pub target: PlanTarget,
    pub fields: Vec<FieldChange>,
    pub applied: bool,
    pub no_op: bool,
    pub status: u16,
    pub etag: Option<String>,
    pub request_id: Option<String>,
    pub object: Option<String>,
    pub message: String,
}

/// Copies changes.
pub fn copy_changes(fields: &Vec<FieldChange>) -> (r: Vec<FieldChange>)
    ensures
        changes_of(r@) == changes_of(fields@),
{
    let mut out: Vec<FieldChange> = Vec::new();
    let mut i: usize = 0;
    while i < fields.len()
        invariant
            i <= fields.len(),
            out.len() == i,
            forall|j: int|
                0 <= j < i ==> (#[trigger] out@[j]).field@ == fields@[j].field@ && out@[j].before@
                    == fields@[j].before@ && out@[j].after@ == fields@[j].after@,
        decreases fields.len() - i,
    {
        out.push(
            FieldChange {
                field: fields[i].field.clone(),
                before: fields[i].before.copy(),
                after: fields[i].after.copy(),
            },
        );
        i = i + 1;
    }
    proof {
        assert(changes_of(out@) =~= changes_of(fields@));
    }
    out
}

// ===== The message of a change ===========================================

/// A changelog message: what was given, unless that is empty.
pub open spec fn message_given(message: Option<Text>) -> Option<Text> {
    match message {
        Some(m) => if m.len() == 0 {
            None
        } else {
            Some(m)
        },
        None => None,
    }
}

/// A changelog message that the server accepts, or none.
#[derive(Debug)]
pub struct ChangelogMessage {
    text: Option<String>,
}

impl ChangelogMessage {
    /// Its text.
    pub closed spec fn given(self) -> Option<Text> {
        opt_text(self.text)
    }

    /// Gives the text out.
    pub fn into_text(self) -> (r: Option<String>)
        ensures
            opt_text(r) == self.given(),
    {
        self.text
    }
}

/// Takes a changelog message, refusing one over the server's limit. This needs
/// nothing from the server, and a plan cannot be made without it.
pub fn changelog_message(message: Option<&str>, limit: usize) -> (r: Result<
    ChangelogMessage,
    NboxError,
>)
    ensures
        ({
            let given = message_given(crate::text::opt_str(message));
            if given is Some && given->0.len() > limit {
                &&& r is Err
                &&& r->Err_0 is Usage
                &&& r->Err_0->Usage_0@ == "changelog message has "@ + decimal_text(given->0.len())
                    + " characters; NetBox accepts at most "@ + decimal_text(limit as nat)
            } else {
                r is Ok && r->Ok_0.given() == given
            }
        }),
{
    match message {
        Some(m) => {
            if m.is_empty() {
                return Ok(ChangelogMessage { text: None });
            }
            let n: usize = chars_of(m).len();
            if n > limit {
                let have = decimal_len(n);
                let most = decimal_len(limit);
                return Err(
                    NboxError::Usage(
                        cat4(
                            "changelog message has ",
                            have.as_str(),
                            " characters; NetBox accepts at most ",
                            most.as_str(),
                        ),
                    ),
                );
            }
            Ok(ChangelogMessage { text: Some(m.to_owned()) })
        },
        None => Ok(ChangelogMessage { text: None }),
    }
}

// ===== Laws ==============================================================

/// What a plan says is what its fields hold, position by position; sealing changes
/// nothing of it.
pub proof fn plans_say_what_they_hold(plan: MutationPlan, i: int)
    ensures
        plan@.operation == plan.operation,
        plan@.no_op == plan.no_op,
        plan@.target.kind == plan.target.kind@,
        plan@.target.reference == plan.target.reference@,
        plan@.target.id == plan.target.id,
        plan@.target.display == plan.target.display@,
        plan@.target.endpoint == plan.target.endpoint@,
        plan@.target.profile == plan.target.profile@,
        plan.precondition is Etag ==> plan@.precondition == Condition::Etag(
            plan.precondition->etag@,
        ),
        plan.precondition is LastUpdated ==> plan@.precondition == Condition::LastUpdated(
            opt_text(plan.precondition->last_updated),
            plan.precondition->before_hash@,
        ),
        plan.precondition is Absent ==> plan@.precondition == Condition::Absent,
        plan@.fields.len() == plan.fields@.len(),
        0 <= i < plan.fields@.len() ==> plan@.fields[i] == (
            plan.fields@[i].field@,
            plan.fields@[i].before@,
            plan.fields@[i].after@,
        ),
        plan@.patch.len() == plan.patch@.len(),
        0 <= i < plan.patch@.len() ==> plan@.patch[i] == (
            plan.patch@[i].field@,
            plan.patch@[i].value@,
        ),
        plan@.warnings.len() == plan.warnings@.len(),
        0 <= i < plan.warnings@.len() ==> plan@.warnings[i] == plan.warnings@[i]@,
        plan@.changelog_message == opt_text(plan.changelog_message),
        changed_names(plan.fields@).len() == plan.fields@.len(),
        0 <= i < plan.fields@.len() ==> changed_names(plan.fields@)[i] == plan.fields@[i].field@,
{
}

/// A value holds what it is: nothing, its text, its number, or its texts in order.
pub proof fn values_hold_what_they_are(v: FieldValue, o: Option<Text>, i: int)
    ensures
        v is Null ==> v@ == Held::Null,
        v is Text ==> v@ == Held::Text(v->Text_0@),
        v is Number ==> v@ == Held::Number(v->Number_0),
        v is Texts ==> v@ is Texts && v@->Texts_0.len() == v->Texts_0@.len(),
        v is Texts && 0 <= i < v->Texts_0@.len() ==> v@->Texts_0[i] == v->Texts_0@[i]@,
        o is Some ==> held_opt(o) == Held::Text(o->0),
        o is None ==> held_opt(o) == Held::Null,
{
}

/// A changelog message is kept as it was given; an empty one counts as none.
pub proof fn messages_are_kept(message: Option<Text>)
    ensures
        message_given(message) is Some <==> message is Some && message->0.len() > 0,
        message_given(message) is Some ==> message_given(message) == message,
{
}

} // verus!
