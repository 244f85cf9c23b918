//! Planning writes from what was read, and applying them.
//!
//! A plan is built from the object as it was just read. Applying it sends the
//! smallest request that does the change, on the condition that the object is
//! still what it was.

use vstd::prelude::*;

use crate::domain::detail::resolve::{prefix_satisfies_length, trailing_len};
use crate::error::{ErrorLink, NboxError};
use crate::netbox::choices::{refusal_text, resolve_choice, resolves_to, values};
use crate::netbox::models::{
    opt_value as opt_choice_value,
    value_of,
    Choice,
    Device,
    Interface,
    IpRange,
    Prefix,
};
use crate::netbox::mutation::{
    changed_names,
    changes_of,
    copy_changes,
    held_opt,
    opt_value,
    patch_of,
    Aim,
    ChangelogMessage,
    Condition,
    FieldChange,
    FieldValue,
    Held,
    Intent,
    MutationPlan,
    MutationReceipt,
    Operation,
    PatchEntry,
    PlanDraft,
    PlanTarget,
    Precondition,
    PLAN_SCHEMA_VERSION,
};
use crate::number::{decimal, decimal_text};
use crate::order::{ascending, insert_name};
use crate::text::{
    cat3,
    copy_opt,
    copy_texts,
    join,
    joined,
    opt_str,
    opt_text,
    same,
    same_opt,
    texts,
    Text,
};

verus! {

/// The field of an interface that can be written.
pub const INTERFACE_WRITABLE_FIELD: &'static str = "description";

/// The field of a device that can be written.
pub const DEVICE_WRITABLE_FIELD: &'static str = "status";

/// The field that tag writes replace.
pub const TAG_WRITABLE_FIELD: &'static str = "tags";

// ===== Parts of a plan ===================================================

/// The condition of an update: the entity tag when the server gave one, else the
/// time of the last update and the hash of what the field held.
pub open spec fn update_condition(
    etag: Option<Text>,
    last_updated: Option<Text>,
    before_hash: Text,
) -> Condition {
    match etag {
        Some(e) => Condition::Etag(e),
        None => Condition::LastUpdated(last_updated, before_hash),
    }
}

fn condition_of(etag: Option<String>, last_updated: &Option<String>, before_hash: String) -> (r:
    Precondition)
    ensures
        r@ == update_condition(opt_text(etag), opt_text(*last_updated), before_hash@),
{
    match etag {
        Some(etag) => Precondition::Etag { etag },
        None => Precondition::LastUpdated { last_updated: copy_opt(last_updated), before_hash },
    }
}

/// The plan of an update to one field. What already has its value is left alone.
pub open spec fn update_intent(
    target: Aim,
    condition: Condition,
    field: Text,
    before: Held,
    after: Held,
    no_op: bool,
    message: Option<Text>,
) -> Intent {
    Intent {
        operation: Operation::Update,
        target,
        precondition: condition,
        fields: seq![(field, before, after)],
        patch: if no_op {
            Seq::empty()
        } else {
            seq![(field, after)]
        },
        no_op,
        warnings: Seq::empty(),
        changelog_message: message,
    }
}

fn update_draft(
    target: PlanTarget,
    precondition: Precondition,
    field: &str,
    before: FieldValue,
    after: FieldValue,
    no_op: bool,
    message: Option<String>,
) -> (r: PlanDraft)
    ensures
        r@ == update_intent(
            target@,
            precondition@,
            field@,
            before@,
            after@,
            no_op,
            opt_text(message),
        ),
{
    let mut patch: Vec<PatchEntry> = Vec::new();
    if !no_op {
        patch.push(PatchEntry { field: field.to_owned(), value: after.copy() });
    }
    let mut fields: Vec<FieldChange> = Vec::new();
    fields.push(FieldChange { field: field.to_owned(), before, after });
    let warnings: Vec<String> = Vec::new();
    proof {
        assert(patch_of(patch@) =~= if no_op {
            Seq::empty()
        } else {
            seq![(field@, after@)]
        });
        assert(changes_of(fields@) =~= seq![(field@, before@, after@)]);
        assert(texts(warnings@) =~= Seq::empty());
    }
    PlanDraft {
        operation: Operation::Update,
        target,
        precondition,
        fields,
        patch,
        no_op,
        warnings,
        changelog_message: message,
    }
}

/// The endpoint of an object.
pub open spec fn object_endpoint(collection: Text, id: u64) -> Text {
    collection + decimal_text(id as nat) + "/"@
}

/// Writes the endpoint of an object.
pub fn endpoint_of(collection: &str, id: u64) -> (r: String)
    ensures
        r@ == object_endpoint(collection@, id),
{
    let n = decimal(id);
    cat3(collection, n.as_str(), "/")
}

// ===== Interface description =============================================

/// What a write to an interface is aimed at.
pub open spec fn interface_aim(
    device: Text,
    interface: Text,
    profile: Text,
    resolved_id: u64,
    current: Interface,
) -> Aim {
    Aim {
        kind: "interface"@,
        reference: device + "/"@ + interface,
        id: current.id,
        display: match current.display {
            Some(d) => d@,
            None => device + "/"@ + interface,
        },
        endpoint: object_endpoint("/api/dcim/interfaces/"@, resolved_id),
        profile,
    }
}

/// What is hashed to tell whether an interface's description changed.
pub fn interface_before_state(current: &Interface) -> (r: FieldValue)
    ensures
        r@ == held_opt(opt_text(current.description)),
{
    opt_value(&current.description)
}

/// Plans a new description for an interface.
pub fn plan_interface_description_update(
    device: &str,
    interface: &str,
    new_description: &str,
    message: ChangelogMessage,
    profile: &str,
    resolved_id: u64,
    current: &Interface,
    etag: Option<String>,
    before_hash: String,
) -> (r: PlanDraft)
    ensures
        r@ == update_intent(
            interface_aim(device@, interface@, profile@, resolved_id, *current),
            update_condition(opt_text(etag), opt_text(current.last_updated), before_hash@),
            "description"@,
            held_opt(opt_text(current.description)),
            Held::Text(new_description@),
            opt_text(current.description) == Some(new_description@),
            message.given(),
        ),
{
    let reference = cat3(device, "/", interface);
    let display = match &current.display {
        Some(d) => d.clone(),
        None => cat3(device, "/", interface),
    };
    let target = PlanTarget {
        kind: "interface".to_owned(),
        reference,
        id: current.id,
        display,
        endpoint: endpoint_of("/api/dcim/interfaces/", resolved_id),
        profile: profile.to_owned(),
    };
    let precondition = condition_of(etag, &current.last_updated, before_hash);
    let no_op = match &current.description {
        Some(d) => same(d.as_str(), new_description),
        None => false,
    };
    update_draft(
        target,
        precondition,
        INTERFACE_WRITABLE_FIELD,
        opt_value(&current.description),
        FieldValue::Text(new_description.to_owned()),
        no_op,
        message.into_text(),
    )
}

// ===== Device status =====================================================

/// What a write to a device is aimed at.
pub open spec fn device_aim(device: Text, profile: Text, resolved_id: u64, current: Device) -> Aim {
    Aim {
        kind: "device"@,
        reference: device,
        id: current.id,
        display: match current.display {
            Some(d) => d@,
            None => current.name@,
        },
        endpoint: object_endpoint("/api/dcim/devices/"@, resolved_id),
        profile,
    }
}

/// A status that the server takes.
#[derive(Debug)]
pub struct ChosenStatus {
    value: String,
}

impl ChosenStatus {
    /// The value that is sent.
    pub closed spec fn wire(self) -> Text {
        self.value@
    }

    /// The value that is sent.
    pub fn as_str(&self) -> (r: &str)
        ensures
            r@ == self.wire(),
    {
        self.value.as_str()
    }
}

/// The refusal to write when the allowed values are not known.
pub open spec fn no_choices_text(field: Text) -> Text {
    "could not enumerate allowed values for device "@ + field
        + " from NetBox OPTIONS; refusing to send an unvalidated write"@
}

/// Turns what an operator typed into a status that the server takes. It is one of
/// the values that the server offers, or nothing is planned at all.
pub fn choose_status(choices: &Vec<Choice>, input: &str) -> (r: Result<ChosenStatus, NboxError>)
    ensures
        match r {
            Ok(status) => choices@.len() > 0 && resolves_to(choices@, input@, status.wire()),
            Err(e) => {
                &&& e is Usage
                &&& e->Usage_0@ == if choices@.len() == 0 {
                    no_choices_text("status"@)
                } else {
                    refusal_text(choices@, "status"@, input@)
                }
                &&& forall|v: Text| !resolves_to(choices@, input@, v)
            },
        },
{
    if choices.is_empty() {
        proof {
            assert forall|v: Text| !resolves_to(choices@, input@, v) by {}
        }
        return Err(
            NboxError::Usage(
                cat3(
                    "could not enumerate allowed values for device ",
                    DEVICE_WRITABLE_FIELD,
                    " from NetBox OPTIONS; refusing to send an unvalidated write",
                ),
            ),
        );
    }
    match resolve_choice(choices, DEVICE_WRITABLE_FIELD, input) {
        Ok(value) => Ok(ChosenStatus { value }),
        Err(e) => Err(e),
    }
}

/// What is hashed to tell whether a device's status changed.
pub fn device_before_state(current: &Device) -> (r: FieldValue)
    ensures
        r@ == held_opt(opt_choice_value(current.status)),
{
    let status = value_of(&current.status);
    opt_value(&status)
}

/// Plans a new status for a device.
pub fn plan_device_status_update(
    device: &str,
    status: &ChosenStatus,
    message: ChangelogMessage,
    profile: &str,
    resolved_id: u64,
    current: &Device,
    etag: Option<String>,
    before_hash: String,
) -> (r: PlanDraft)
    ensures
        r@ == update_intent(
            device_aim(device@, profile@, resolved_id, *current),
            update_condition(opt_text(etag), opt_text(current.last_updated), before_hash@),
            "status"@,
            held_opt(opt_choice_value(current.status)),
            Held::Text(status.wire()),
            opt_choice_value(current.status) == Some(status.wire()),
            message.given(),
        ),
{
    let display = match &current.display {
        Some(d) => d.clone(),
        None => current.name.clone(),
    };
    let target = PlanTarget {
        kind: "device".to_owned(),
        reference: device.to_owned(),
        id: current.id,
        display,
        endpoint: endpoint_of("/api/dcim/devices/", resolved_id),
        profile: profile.to_owned(),
    };
    let precondition = condition_of(etag, &current.last_updated, before_hash);
    let no_op = match &current.status {
        Some(c) => same(c.value.as_str(), status.as_str()),
        None => false,
    };
    update_draft(
        target,
        precondition,
        DEVICE_WRITABLE_FIELD,
        device_before_state(current),
        FieldValue::Text(status.as_str().to_owned()),
        no_op,
        message.into_text(),
    )
}

// ===== Tags ==============================================================

/// Whether a tag is added or removed.
#[derive(Debug, Clone, Copy, PartialEq, Eq, Structural)]
pub enum TagOperation {
    Add,
    Remove,
}

/// A tag as an object carries it.
#[derive(Debug)]
pub struct ObjectTag {
    pub id: Option<u64>,
    pub name: Option<String>,
    pub slug: Option<String>,
}

/// What a tag write reads of its target.
#[derive(Debug)]
pub struct TagTargetObject {
    pub display: Option<String>,
    pub last_updated: Option<String>,
    pub tags: Vec<ObjectTag>,
}

/// The slugs of an object's tags, in order.
pub open spec fn tag_slugs(tags: Seq<ObjectTag>) -> Seq<Text>
    decreases tags.len(),
{
    if tags.len() == 0 {
        Seq::empty()
    } else {
        match tags.last().slug {
            Some(s) => tag_slugs(tags.drop_last()).push(s@),
            None => tag_slugs(tags.drop_last()),
        }
    }
}

/// A list without a slug.
pub open spec fn without(slugs: Seq<Text>, slug: Text) -> Seq<Text>
    decreases slugs.len(),
{
    if slugs.len() == 0 {
        Seq::empty()
    } else if slugs.last() == slug {
        without(slugs.drop_last(), slug)
    } else {
        without(slugs.drop_last(), slug).push(slugs.last())
    }
}

/// Whether a tag write has nothing to do.
pub open spec fn tag_no_op(operation: TagOperation, slugs: Seq<Text>, slug: Text) -> bool {
    match operation {
        TagOperation::Add => slugs.contains(slug),
        TagOperation::Remove => !slugs.contains(slug),
    }
}

/// The slugs after a tag write.
pub open spec fn tags_after(operation: TagOperation, slugs: Seq<Text>, slug: Text) -> Seq<Text> {
    if tag_no_op(operation, slugs, slug) {
        slugs
    } else {
        match operation {
            TagOperation::Add => slugs.push(slug),
            TagOperation::Remove => without(slugs, slug),
        }
    }
}

fn slugs_of_tags(tags: &Vec<ObjectTag>) -> (r: Vec<String>)
    ensures
        texts(r@) == tag_slugs(tags@),
{
    let mut out: Vec<String> = Vec::new();
    let mut i: usize = 0;
    proof {
        assert(tags@.take(0) =~= Seq::empty());
        assert(texts(out@) =~= tag_slugs(tags@.take(0)));
    }
    while i < tags.len()
        invariant
            i <= tags.len(),
            texts(out@) == tag_slugs(tags@.take(i as int)),
        decreases tags.len() - i,
    {
        let ghost before = texts(out@);
        proof {
            assert(tags@.take(i as int + 1).drop_last() =~= tags@.take(i as int));
        }
        if let Some(s) = &tags[i].slug {
            out.push(s.clone());
            proof {
                assert(texts(out@) =~= before.push(s@));
            }
        }
        i = i + 1;
    }
    proof {
        assert(tags@.take(i as int) =~= tags@);
    }
    out
}

fn has_slug(slugs: &Vec<String>, slug: &str) -> (r: bool)
    ensures
        r == texts(slugs@).contains(slug@),
{
    let mut i: usize = 0;
    while i < slugs.len()
        invariant
            i <= slugs.len(),
            forall|j: int| 0 <= j < i ==> (#[trigger] slugs@[j])@ != slug@,
        decreases slugs.len() - i,
    {
        if same(slugs[i].as_str(), slug) {
            proof {
                assert(texts(slugs@)[i as int] == slug@);
            }
            return true;
        }
        i = i + 1;
    }
    proof {
        if texts(slugs@).contains(slug@) {
            let k = choose|k: int| 0 <= k < texts(slugs@).len() && texts(slugs@)[k] == slug@;
            assert(slugs@[k]@ == slug@);
        }
    }
    false
}

fn drop_slug(slugs: &Vec<String>, slug: &str) -> (r: Vec<String>)
    ensures
        texts(r@) == without(texts(slugs@), slug@),
{
    let ghost all = texts(slugs@);
    let mut out: Vec<String> = Vec::new();
    let mut i: usize = 0;
    proof {
        assert(all.take(0) =~= Seq::empty());
        assert(texts(out@) =~= without(all.take(0), slug@));
    }
    while i < slugs.len()
        invariant
            i <= slugs.len(),
            all == texts(slugs@),
            texts(out@) == without(all.take(i as int), slug@),
        decreases slugs.len() - i,
    {
        let ghost before = texts(out@);
        proof {
            assert(all.take(i as int + 1).drop_last() =~= all.take(i as int));
            assert(all.take(i as int + 1).last() == slugs@[i as int]@);
        }
        if !same(slugs[i].as_str(), slug) {
            out.push(slugs[i].clone());
            proof {
                assert(texts(out@) =~= before.push(slugs@[i as int]@));
            }
        }
        i = i + 1;
    }
    proof {
        assert(all.take(i as int) =~= all);
    }
    out
}

/// What is hashed to tell whether an object's tags changed: their slugs, each
/// once, in ascending order.
pub fn tags_before_state(tags: &Vec<ObjectTag>) -> (r: Vec<String>)
    ensures
        ascending(texts(r@)),
        forall|s: Text| #[trigger] texts(r@).contains(s) <==> tag_slugs(tags@).contains(s),
{
    let slugs = slugs_of_tags(tags);
    let mut out: Vec<String> = Vec::new();
    let mut i: usize = 0;
    let ghost all = texts(slugs@);
    while i < slugs.len()
        invariant
            i <= slugs.len(),
            all == texts(slugs@),
            ascending(texts(out@)),
            forall|s: Text| #[trigger] texts(out@).contains(s) <==> all.take(i as int).contains(s),
        decreases slugs.len() - i,
    {
        let ghost before = texts(out@);
        insert_name(&mut out, slugs[i].as_str());
        proof {
            let next = all.take(i as int + 1);
            let prev = all.take(i as int);
            assert forall|s: Text| #[trigger] texts(out@).contains(s) <==> next.contains(s) by {
                assert(before.contains(s) <==> prev.contains(s));
                if prev.contains(s) {
                    let k = choose|k: int| 0 <= k < prev.len() && prev[k] == s;
                    assert(next[k] == s);
                }
                if s == slugs@[i as int]@ {
                    assert(next[i as int] == s);
                }
                if next.contains(s) {
                    let k = choose|k: int| 0 <= k < next.len() && next[k] == s;
                    if k < i {
                        assert(prev[k] == s);
                    }
                }
            }
        }
        i = i + 1;
    }
    proof {
        assert(all.take(i as int) =~= all);
    }
    out
}

/// What a tag write is aimed at.
pub open spec fn tag_aim(
    object_type: Text,
    object_name: Text,
    profile: Text,
    endpoint: Text,
    id: u64,
    current: TagTargetObject,
) -> Aim {
    Aim {
        kind: object_type,
        reference: object_name,
        id,
        display: match current.display {
            Some(d) => d@,
            None => object_name,
        },
        endpoint,
        profile,
    }
}

/// Plans adding a tag to an object, or removing it. The whole list of tags is
/// replaced.
pub fn plan_tag_update(
    operation: TagOperation,
    object_type: &str,
    object_name: &str,
    tag_slug: &str,
    message: ChangelogMessage,
    profile: &str,
    endpoint: &str,
    id: u64,
    current: &TagTargetObject,
    etag: Option<String>,
    before_hash: String,
) -> (r: PlanDraft)
    ensures
        r@ == update_intent(
            tag_aim(object_type@, object_name@, profile@, endpoint@, id, *current),
            update_condition(opt_text(etag), opt_text(current.last_updated), before_hash@),
            "tags"@,
            Held::Texts(tag_slugs(current.tags@)),
            Held::Texts(tags_after(operation, tag_slugs(current.tags@), tag_slug@)),
            tag_no_op(operation, tag_slugs(current.tags@), tag_slug@),
            message.given(),
        ),
{
    let display = match &current.display {
        Some(d) => d.clone(),
        None => object_name.to_owned(),
    };
    let target = PlanTarget {
        kind: object_type.to_owned(),
        reference: object_name.to_owned(),
        id,
        display,
        endpoint: endpoint.to_owned(),
        profile: profile.to_owned(),
    };
    let precondition = condition_of(etag, &current.last_updated, before_hash);
    let slugs = slugs_of_tags(&current.tags);
    let present = has_slug(&slugs, tag_slug);
    let no_op = match operation {
        TagOperation::Add => present,
        TagOperation::Remove => !present,
    };
    let after: Vec<String> = if no_op {
        copy_texts(&slugs)
    } else {
        match operation {
            TagOperation::Add => {
                let mut v = copy_texts(&slugs);
                v.push(tag_slug.to_owned());
                proof {
                    assert(texts(v@) =~= texts(slugs@).push(tag_slug@));
                }
                v
            },
            TagOperation::Remove => drop_slug(&slugs, tag_slug),
        }
    };
    update_draft(
        target,
        precondition,
        TAG_WRITABLE_FIELD,
        FieldValue::Texts(slugs),
        FieldValue::Texts(after),
        no_op,
        message.into_text(),
    )
}

// ===== Reservations ======================================================

/// The fields set by a reservation, those that were given.
pub open spec fn set_text(field: Text, value: Option<Text>) -> Seq<(Text, Held)> {
    match value {
        Some(v) => if v.len() > 0 {
            seq![(field, Held::Text(v))]
        } else {
            Seq::empty()
        },
        None => Seq::empty(),
    }
}

/// A number set by a reservation, when it was given.
pub open spec fn set_number(field: Text, value: Option<u8>) -> Seq<(Text, Held)> {
    match value {
        Some(n) => seq![(field, Held::Number(n as u64))],
        None => Seq::empty(),
    }
}

/// The changes of a creation: from null to each value that is set.
pub open spec fn created(patch: Seq<(Text, Held)>) -> Seq<(Text, Held, Held)> {
    Seq::new(patch.len(), |i: int| (patch[i].0, Held::Null, patch[i].1))
}

/// The plan of a reservation. The server picks what is reserved, so there is no
/// condition, and nothing is ever already done.
pub open spec fn reserve_intent(
    target: Aim,
    patch: Seq<(Text, Held)>,
    warning: Text,
    message: Option<Text>,
) -> Intent {
    Intent {
        operation: Operation::Allocate,
        target,
        precondition: Condition::Absent,
        fields: created(patch),
        patch,
        no_op: false,
        warnings: seq![warning],
        changelog_message: message,
    }
}

fn push_text(patch: &mut Vec<PatchEntry>, field: &str, value: Option<&str>)
    ensures
        patch_of(final(patch)@) == patch_of(old(patch)@) + set_text(field@, opt_str(value)),
{
    let ghost before = patch_of(patch@);
    if let Some(v) = value {
        if !v.is_empty() {
            patch.push(
                PatchEntry { field: field.to_owned(), value: FieldValue::Text(v.to_owned()) },
            );
        }
    }
    proof {
        assert(patch_of(patch@) =~= before + set_text(field@, opt_str(value)));
    }
}

fn push_number(patch: &mut Vec<PatchEntry>, field: &str, value: Option<u8>)
    ensures
        patch_of(final(patch)@) == patch_of(old(patch)@) + set_number(field@, value),
{
    let ghost before = patch_of(patch@);
    if let Some(n) = value {
        patch.push(PatchEntry { field: field.to_owned(), value: FieldValue::Number(n as u64) });
    }
    proof {
        assert(patch_of(patch@) =~= before + set_number(field@, value));
    }
}

fn empty_patch() -> (r: Vec<PatchEntry>)
    ensures
        patch_of(r@) == Seq::<(Text, Held)>::empty(),
{
    let r: Vec<PatchEntry> = Vec::new();
    proof {
        assert(patch_of(r@) =~= Seq::empty());
    }
    r
}

fn reserve_draft(
    target: PlanTarget,
    patch: Vec<PatchEntry>,
    warning: String,
    message: Option<String>,
) -> (r: PlanDraft)
    ensures
        r@ == reserve_intent(target@, patch_of(patch@), warning@, opt_text(message)),
{
    let mut fields: Vec<FieldChange> = Vec::new();
    let mut i: usize = 0;
    while i < patch.len()
        invariant
            i <= patch.len(),
            fields.len() == i,
            forall|j: int|
                0 <= j < i ==> (#[trigger] fields@[j]).field@ == patch@[j].field@
                    && fields@[j].before@ == Held::Null && fields@[j].after@ == patch@[j].value@,
        decreases patch.len() - i,
    {
        fields.push(
            FieldChange {
                field: patch[i].field.clone(),
                before: FieldValue::Null,
                after: patch[i].value.copy(),
            },
        );
        i = i + 1;
    }
    let mut warnings: Vec<String> = Vec::new();
    warnings.push(warning);
    proof {
        assert(changes_of(fields@) =~= created(patch_of(patch@)));
        assert(texts(warnings@) =~= seq![warning@]);
    }
    PlanDraft {
        operation: Operation::Allocate,
        target,
        precondition: Precondition::Absent,
        fields,
        patch,
        no_op: false,
        warnings,
        changelog_message: message,
    }
}

/// What a look at the next free address gave.
#[derive(Debug)]
pub enum NextFree {
    /// This one is next.
    Next(String),
    /// There is none.
    Full,
    /// It could not be read.
    Unreadable,
}

/// The advice on the next address of a prefix or range.
pub open spec fn address_advice(next: NextFree, container: Text) -> Text {
    match next {
        NextFree::Next(a) => "currently next: "@ + a@
            + " — NetBox allocates at apply; the applied address may differ"@,
        NextFree::Full => "no available addresses in this "@ + container
            + " — the reserve will fail at apply"@,
        NextFree::Unreadable => "could not read the next available address (advisory only)"@,
    }
}

fn advise_address(next: &NextFree, container: &str) -> (r: String)
    ensures
        r@ == address_advice(*next, container@),
{
    match next {
        NextFree::Next(a) => cat3(
            "currently next: ",
            a.as_str(),
            " — NetBox allocates at apply; the applied address may differ",
        ),
        NextFree::Full => cat3(
            "no available addresses in this ",
            container,
            " — the reserve will fail at apply",
        ),
        NextFree::Unreadable => {
            "could not read the next available address (advisory only)".to_owned()
        },
    }
}

/// What a reservation in a prefix is aimed at.
pub open spec fn prefix_aim(
    kind: Text,
    reference: Text,
    profile: Text,
    prefix: Prefix,
    tail: Text,
) -> Aim {
    Aim {
        kind,
        reference,
        id: prefix.id,
        display: prefix.prefix@,
        endpoint: object_endpoint("/api/ipam/prefixes/"@, prefix.id) + tail,
        profile,
    }
}

fn prefix_target(kind: &str, reference: &str, profile: &str, prefix: &Prefix, tail: &str) -> (r:
    PlanTarget)
    ensures
        r@ == prefix_aim(kind@, reference@, profile@, *prefix, tail@),
{
    let object = endpoint_of("/api/ipam/prefixes/", prefix.id);
    PlanTarget {
        kind: kind.to_owned(),
        reference: reference.to_owned(),
        id: prefix.id,
        display: prefix.prefix.clone(),
        endpoint: crate::text::cat2(object.as_str(), tail),
        profile: profile.to_owned(),
    }
}

/// Plans reserving an address in a prefix.
pub fn plan_ip_reserve(
    prefix_ref: &str,
    description: Option<&str>,
    dns_name: Option<&str>,
    message: ChangelogMessage,
    profile: &str,
    prefix: &Prefix,
    next: &NextFree,
) -> (r: PlanDraft)
    ensures
        r@ == reserve_intent(
            prefix_aim("ip"@, prefix_ref@, profile@, *prefix, "available-ips/"@),
            Seq::<(Text, Held)>::empty() + set_text("description"@, opt_str(description))
                + set_text("dns_name"@, opt_str(dns_name)),
            address_advice(*next, "prefix"@),
            message.given(),
        ),
{
    let target = prefix_target("ip", prefix_ref, profile, prefix, "available-ips/");
    let mut patch = empty_patch();
    push_text(&mut patch, "description", description);
    push_text(&mut patch, "dns_name", dns_name);
    reserve_draft(target, patch, advise_address(next, "prefix"), message.into_text())
}

/// What a reservation in a range is aimed at.
pub open spec fn range_aim(reference: Text, profile: Text, range: IpRange) -> Aim {
    Aim {
        kind: "ip"@,
        reference,
        id: range.id,
        display: range.start_address@ + " – "@ + range.end_address@,
        endpoint: object_endpoint("/api/ipam/ip-ranges/"@, range.id) + "available-ips/"@,
        profile,
    }
}

/// Plans reserving an address in a range.
pub fn plan_ip_range_reserve(
    range_ref: &str,
    description: Option<&str>,
    dns_name: Option<&str>,
    message: ChangelogMessage,
    profile: &str,
    range: &IpRange,
    next: &NextFree,
) -> (r: PlanDraft)
    ensures
        r@ == reserve_intent(
            range_aim(range_ref@, profile@, *range),
            Seq::<(Text, Held)>::empty() + set_text("description"@, opt_str(description))
                + set_text("dns_name"@, opt_str(dns_name)),
            address_advice(*next, "range"@),
            message.given(),
        ),
{
    let object = endpoint_of("/api/ipam/ip-ranges/", range.id);
    let target = PlanTarget {
        kind: "ip".to_owned(),
        reference: range_ref.to_owned(),
        id: range.id,
        display: cat3(range.start_address.as_str(), " – ", range.end_address.as_str()),
        endpoint: crate::text::cat2(object.as_str(), "available-ips/"),
        profile: profile.to_owned(),
    };
    let mut patch = empty_patch();
    push_text(&mut patch, "description", description);
    push_text(&mut patch, "dns_name", dns_name);
    reserve_draft(target, patch, advise_address(next, "range"), message.into_text())
}

/// Whether a free block can hold one of the requested length; any can, without
/// a request.
pub open spec fn block_fits(block: Text, length: Option<u8>) -> bool {
    match length {
        Some(n) => trailing_len(block) is Some && trailing_len(block)->0 <= n,
        None => true,
    }
}

/// The position of the first free block that fits, or the length of the list.
pub open spec fn first_fit(blocks: Seq<Text>, length: Option<u8>) -> nat
    decreases blocks.len(),
{
    if blocks.len() == 0 || block_fits(blocks[0], length) {
        0
    } else {
        first_fit(blocks.skip(1), length) + 1
    }
}

/// The length asked for, as it is written.
pub open spec fn requested_text(length: Option<u8>) -> Text {
    match length {
        Some(n) => "/"@ + decimal_text(n as nat),
        None => "any"@,
    }
}

/// The advice on the next block of a prefix; `None` for free blocks that could not
/// be read.
pub open spec fn block_advice(blocks: Option<Seq<Text>>, length: Option<u8>) -> Text {
    match blocks {
        Some(list) => if list.len() == 0 {
            "no available prefixes in this prefix — the reserve will fail at apply"@
        } else if first_fit(list, length) < list.len() {
            "currently next: "@ + list[first_fit(list, length) as int]
                + " — NetBox allocates at apply; the applied prefix may differ"@
        } else {
            "no available block of length "@ + requested_text(length)
                + " in this prefix — the reserve will fail at apply"@
        },
        None => "could not read the next available prefix (advisory only)"@,
    }
}

fn find_fit(blocks: &Vec<String>, length: Option<u8>) -> (r: usize)
    ensures
        r == first_fit(texts(blocks@), length),
        r <= blocks.len(),
{
    let ghost all = texts(blocks@);
    let mut i: usize = 0;
    proof {
        assert(all.skip(0) =~= all);
    }
    while i < blocks.len()
        invariant
            i <= blocks.len(),
            all == texts(blocks@),
            first_fit(all, length) == i + first_fit(all.skip(i as int), length),
        decreases blocks.len() - i,
    {
        let fits = match length {
            Some(n) => prefix_satisfies_length(blocks[i].as_str(), n),
            None => true,
        };
        proof {
            assert(all.skip(i as int)[0] == blocks@[i as int]@);
            assert(all.skip(i as int).skip(1) =~= all.skip(i as int + 1));
        }
        if fits {
            return i;
        }
        i = i + 1;
    }
    i
}

fn advise_block(blocks: Option<&Vec<String>>, length: Option<u8>) -> (r: String)
    ensures
        r@ == block_advice(
            match blocks {
                Some(v) => Some(texts(v@)),
                None => None,
            },
            length,
        ),
{
    match blocks {
        Some(list) => {
            if list.is_empty() {
                return "no available prefixes in this prefix — the reserve will fail at apply".to_owned();
            }
            let at = find_fit(list, length);
            if at < list.len() {
                cat3(
                    "currently next: ",
                    list[at].as_str(),
                    " — NetBox allocates at apply; the applied prefix may differ",
                )
            } else {
                let requested = match length {
                    Some(n) => {
                        let d = decimal(n as u64);
                        crate::text::cat2("/", d.as_str())
                    },
                    None => "any".to_owned(),
                };
                cat3(
                    "no available block of length ",
                    requested.as_str(),
                    " in this prefix — the reserve will fail at apply",
                )
            }
        },
        None => "could not read the next available prefix (advisory only)".to_owned(),
    }
}

/// Plans reserving a block in a prefix.
pub fn plan_prefix_reserve(
    prefix_ref: &str,
    length: Option<u8>,
    description: Option<&str>,
    message: ChangelogMessage,
    profile: &str,
    prefix: &Prefix,
    blocks: Option<&Vec<String>>,
) -> (r: PlanDraft)
    ensures
        r@ == reserve_intent(
            prefix_aim("prefix"@, prefix_ref@, profile@, *prefix, "available-prefixes/"@),
            Seq::<(Text, Held)>::empty() + set_number("prefix_length"@, length) + set_text(
                "description"@,
                opt_str(description),
            ),
            block_advice(
                match blocks {
                    Some(v) => Some(texts(v@)),
                    None => None,
                },
                length,
            ),
            message.given(),
        ),
{
    let target = prefix_target("prefix", prefix_ref, profile, prefix, "available-prefixes/");
    let mut patch = empty_patch();
    push_number(&mut patch, "prefix_length", length);
    push_text(&mut patch, "description", description);
    reserve_draft(target, patch, advise_block(blocks, length), message.into_text())
}

// ===== Applying ==========================================================

/// A body with a field set: replaced where it stands, else added.
pub open spec fn with_field(body: Seq<(Text, Held)>, field: Text, value: Held) -> Seq<(Text, Held)>
    decreases body.len(),
{
    if body.len() == 0 {
        seq![(field, value)]
    } else if body[0].0 == field {
        seq![(field, value)] + body.skip(1)
    } else {
        seq![body[0]] + with_field(body.skip(1), field, value)
    }
}

/// The body that is sent: the patch, with the changelog message when there is one.
pub open spec fn sent_body(plan: Intent) -> Seq<(Text, Held)> {
    match plan.changelog_message {
        Some(m) => with_field(plan.patch, "changelog_message"@, Held::Text(m)),
        None => plan.patch,
    }
}

/// The body that is sent for a plan.
pub fn wire_body(plan: &MutationPlan) -> (r: Vec<PatchEntry>)
    ensures
        patch_of(r@) == sent_body(plan@),
{
    let ghost all = patch_of(plan.patch@);
    let mut out: Vec<PatchEntry> = Vec::new();
    let mut i: usize = 0;
    let mut set = false;
    let ghost message = opt_text(plan.changelog_message);
    proof {
        assert(patch_of(out@) =~= Seq::empty());
        assert(all.skip(0) =~= all);
        assert(patch_of(out@) + sent_body(plan@) =~= sent_body(plan@));
    }
    while i < plan.patch.len()
        invariant
            i <= plan.patch.len(),
            all == patch_of(plan.patch@),
            message == opt_text(plan.changelog_message),
            set ==> message is Some,
            sent_body(plan@) == patch_of(out@) + if set || message is None {
                all.skip(i as int)
            } else {
                with_field(all.skip(i as int), "changelog_message"@, Held::Text(message->0))
            },
        decreases plan.patch.len() - i,
    {
        let ghost before = patch_of(out@);
        let ghost rest = all.skip(i as int);
        let e = &plan.patch[i];
        proof {
            assert(rest[0] == (e.field@, e.value@));
            assert(rest.skip(1) =~= all.skip(i as int + 1));
            assert(rest =~= seq![rest[0]] + rest.skip(1));
        }
        let mut value = e.value.copy();
        if !set {
            if let Some(m) = &plan.changelog_message {
                if same(e.field.as_str(), "changelog_message") {
                    value = FieldValue::Text(m.clone());
                    set = true;
                }
            }
        }
        let entry = PatchEntry { field: e.field.clone(), value };
        let ghost added = (entry.field@, entry.value@);
        out.push(entry);
        proof {
            assert(patch_of(out@) =~= before.push(added));
            let tail = if set || message is None {
                all.skip(i as int + 1)
            } else {
                with_field(all.skip(i as int + 1), "changelog_message"@, Held::Text(message->0))
            };
            assert(before.push(added) + tail =~= before + (seq![added] + tail));
        }
        i = i + 1;
    }
    proof {
        assert(all.skip(i as int) =~= Seq::empty());
    }
    if !set {
        if let Some(m) = &plan.changelog_message {
            let ghost before = patch_of(out@);
            out.push(
                PatchEntry {
                    field: "changelog_message".to_owned(),
                    value: FieldValue::Text(m.clone()),
                },
            );
            proof {
                assert(patch_of(out@) =~= before + seq![
                    ("changelog_message"@, Held::Text(m@)),
                ]);
            }
            return out;
        }
    }
    proof {
        assert(patch_of(out@) + Seq::<(Text, Held)>::empty() =~= patch_of(out@));
    }
    out
}

/// What to do first to apply an update.
#[derive(Debug)]
pub enum ApplyStep {
    /// There is nothing to do.
    Nothing(MutationReceipt),
    /// Send this body, on the condition that the object carries this tag.
    Send { endpoint: String, body: Vec<PatchEntry>, if_match: String },
    /// Read the object again, and send only if it is unchanged.
    Reread { endpoint: String },
    /// The plan is not an update.
    Refuse(ErrorLink),
}

/// Whether a receipt tells of a plan that had nothing to do.
pub open spec fn is_no_op_receipt(r: MutationReceipt, plan: MutationPlan) -> bool {
    &&& r.schema_version == PLAN_SCHEMA_VERSION
    &&& r.operation == plan.operation
    &&& r.target == plan.target
    &&& changes_of(r.fields@) == changes_of(plan.fields@)
    &&& !r.applied
    &&& r.no_op
    &&& r.status == 0
    &&& r.etag is None
    &&& r.request_id is None
    &&& r.object is None
    &&& r.message@ == "no change: current value already matches"@
}

/// Says that there was nothing to do.
pub fn no_op_receipt(plan: &MutationPlan) -> (r: MutationReceipt)
    ensures
        is_no_op_receipt(r, *plan),
{
    MutationReceipt {
        schema_version: PLAN_SCHEMA_VERSION,
        operation: plan.operation,
        target: plan.target.copy(),
        fields: copy_changes(&plan.fields),
        applied: false,
        no_op: true,
        status: 0,
        etag: None,
        request_id: None,
        object: None,
        message: "no change: current value already matches".to_owned(),
    }
}

/// Starts applying an update. `noun` names the kind of plan in the refusal of one
/// that carries no condition.
pub fn start_update(plan: &MutationPlan, noun: &str) -> (r: ApplyStep)
    ensures
        plan.no_op ==> r is Nothing && is_no_op_receipt(r->Nothing_0, *plan),
        !plan.no_op ==> match plan.precondition@ {
            Condition::Etag(e) => {
                &&& r is Send
                &&& r->Send_endpoint@ == plan.target.endpoint@
                &&& patch_of(r->Send_body@) == sent_body(plan@)
                &&& r->if_match@ == e
            },
            Condition::LastUpdated(_, _) => r is Reread && r->Reread_endpoint@
                == plan.target.endpoint@,
            Condition::Absent => {
                &&& r is Refuse
                &&& r->Refuse_0 is Note
                &&& r->Refuse_0->Note_0@ == "internal error: "@ + noun@
                    + " plan carried a None precondition"@
            },
        },
{
    if plan.no_op {
        return ApplyStep::Nothing(no_op_receipt(plan));
    }
    match &plan.precondition {
        Precondition::Etag { etag } => ApplyStep::Send {
            endpoint: plan.target.endpoint.clone(),
            body: wire_body(plan),
            if_match: etag.clone(),
        },
        Precondition::LastUpdated { last_updated: _, before_hash: _ } => ApplyStep::Reread {
            endpoint: plan.target.endpoint.clone(),
        },
        Precondition::Absent => ApplyStep::Refuse(
            ErrorLink::Note(cat3("internal error: ", noun, " plan carried a None precondition")),
        ),
    }
}

/// Whether an object that was read again is still the one planned on.
pub open spec fn still_as_planned(
    condition: Condition,
    last_updated: Option<Text>,
    before_hash: Text,
) -> bool {
    match condition {
        Condition::LastUpdated(t, h) => t == last_updated && h == before_hash,
        _ => false,
    }
}

/// Goes on after an object was read again: the body to send if it is unchanged,
/// else the refusal.
pub fn check_reread(plan: &MutationPlan, last_updated: &Option<String>, before_hash: &str) -> (r:
    Result<Vec<PatchEntry>, NboxError>)
    ensures
        still_as_planned(plan.precondition@, opt_text(*last_updated), before_hash@) ==> r is Ok
            && patch_of(r->Ok_0@) == sent_body(plan@),
        !still_as_planned(plan.precondition@, opt_text(*last_updated), before_hash@) ==> r is Err
            && r->Err_0 is StalePrecondition && r->Err_0->StalePrecondition_0@.len() == 0,
{
    if let Precondition::LastUpdated { last_updated: planned, before_hash: hash } =
        &plan.precondition {
        if same_opt(planned, last_updated) && same(hash.as_str(), before_hash) {
            return Ok(wire_body(plan));
        }
    }
    Err(NboxError::StalePrecondition(String::new()))
}

/// Whether a receipt tells of an update that was applied.
pub open spec fn is_applied_receipt(
    r: MutationReceipt,
    plan: MutationPlan,
    etag: Option<String>,
    status: u16,
) -> bool {
    &&& r.schema_version == PLAN_SCHEMA_VERSION
    &&& r.operation == plan.operation
    &&& r.target == plan.target
    &&& changes_of(r.fields@) == changes_of(plan.fields@)
    &&& r.applied
    &&& !r.no_op
    &&& r.status == status
    &&& r.etag == etag
    &&& r.request_id is None
    &&& r.object is None
    &&& r.message@ == "applied: "@ + plan.target.kind@ + " "@ + plan.target.display@ + (" ("@
        + joined(changed_names(plan.fields@), ", "@) + ")"@)
}

/// Says that an update was applied.
pub fn finish_update(plan: &MutationPlan, etag: Option<String>, status: u16) -> (r: MutationReceipt)
    ensures
        is_applied_receipt(r, *plan, etag, status),
{
    let names = plan.changed_field_names();
    let list = join(&names, ", ");
    let tail = cat3(" (", list.as_str(), ")");
    let message = crate::text::cat5(
        "applied: ",
        plan.target.kind.as_str(),
        " ",
        plan.target.display.as_str(),
        tail.as_str(),
    );
    MutationReceipt {
        schema_version: PLAN_SCHEMA_VERSION,
        operation: plan.operation,
        target: plan.target.copy(),
        fields: copy_changes(&plan.fields),
        applied: true,
        no_op: false,
        status,
        etag,
        request_id: None,
        object: None,
        message,
    }
}

/// Whether a receipt tells of a reservation.
pub open spec fn is_reserved_receipt(
    r: MutationReceipt,
    plan: MutationPlan,
    reserved: Text,
    status: u16,
    object: Option<String>,
) -> bool {
    &&& r.schema_version == PLAN_SCHEMA_VERSION
    &&& r.operation == plan.operation
    &&& r.target == plan.target
    &&& changes_of(r.fields@) == changes_of(plan.fields@)
    &&& r.applied
    &&& !r.no_op
    &&& r.status == status
    &&& r.etag is None
    &&& r.request_id is None
    &&& r.object == object
    &&& r.message@ == "reserved: "@ + reserved + " in "@ + plan.target.display@
}

/// Says what was reserved.
pub fn finish_reserve(plan: &MutationPlan, reserved: &str, status: u16, object: Option<String>) -> (
r: MutationReceipt)
    ensures
        is_reserved_receipt(r, *plan, reserved@, status, object),
{
    MutationReceipt {
        schema_version: PLAN_SCHEMA_VERSION,
        operation: plan.operation,
        target: plan.target.copy(),
        fields: copy_changes(&plan.fields),
        applied: true,
        no_op: false,
        status,
        etag: None,
        request_id: None,
        object,
        message: crate::text::cat4(
            "reserved: ",
            reserved,
            " in ",
            plan.target.display.as_str(),
        ),
    }
}

// ===== Laws ==============================================================

/// A status is only ever written when it is one of the values that the server
/// offers.
pub proof fn only_offered_values_are_written(choices: Seq<Choice>, input: Text, value: Text)
    requires
        resolves_to(choices, input, value),
    ensures
        values(choices).contains(value),
{
    if !values(choices).contains(input) {
        let i = choose|i: int|
            0 <= i < choices.len() && crate::netbox::choices::meant(#[trigger] choices[i], input)
                && choices[i].value@ == value;
        assert(values(choices)[i] == value);
    }
}

/// A planned update sends either nothing or its one field, never more; and it
/// sends nothing exactly when there is nothing to do.
pub proof fn updates_are_minimal(
    target: Aim,
    condition: Condition,
    field: Text,
    before: Held,
    after: Held,
    no_op: bool,
    message: Option<Text>,
)
    ensures
        ({
            let plan = update_intent(target, condition, field, before, after, no_op, message);
            &&& plan.patch.len() == 0 <==> plan.no_op
            &&& plan.patch.len() <= 1
            &&& plan.patch.len() == 1 ==> plan.patch[0] == (field, after)
        }),
{
}

proof fn without_drops(slugs: Seq<Text>, slug: Text)
    ensures
        !without(slugs, slug).contains(slug),
        !slugs.contains(slug) ==> without(slugs, slug) == slugs,
    decreases slugs.len(),
{
    if slugs.len() > 0 {
        let front = slugs.drop_last();
        without_drops(front, slug);
        let rest = without(front, slug);
        if without(slugs, slug).contains(slug) {
            let k = choose|k: int|
                0 <= k < without(slugs, slug).len() && without(slugs, slug)[k] == slug;
            if k < rest.len() {
                assert(rest[k] == slug);
            }
        }
        if !slugs.contains(slug) {
            assert(slugs.last() != slug) by {
                assert(slugs[slugs.len() - 1] == slugs.last());
            }
            assert(!front.contains(slug)) by {
                if front.contains(slug) {
                    let k = choose|k: int| 0 <= k < front.len() && front[k] == slug;
                    assert(slugs[k] == slug);
                }
            }
            assert(front.push(slugs.last()) =~= slugs);
        }
    }
}

/// After an addition the tag is there, after a removal it is not, and doing the
/// same again has nothing to do.
pub proof fn tag_writes_take_hold(operation: TagOperation, slugs: Seq<Text>, slug: Text)
    ensures
        tags_after(operation, slugs, slug).contains(slug) <==> operation == TagOperation::Add,
        tag_no_op(operation, tags_after(operation, slugs, slug), slug),
{
    without_drops(slugs, slug);
    let pushed = slugs.push(slug);
    assert(pushed[slugs.len() as int] == slug);
}

/// Removing a tag that was just added gives the tags from before.
pub proof fn removing_undoes_adding(slugs: Seq<Text>, slug: Text)
    requires
        !slugs.contains(slug),
    ensures
        tags_after(TagOperation::Remove, tags_after(TagOperation::Add, slugs, slug), slug) == slugs,
{
    let pushed = slugs.push(slug);
    assert(pushed[slugs.len() as int] == slug);
    assert(pushed.drop_last() =~= slugs);
    without_drops(slugs, slug);
}

/// Other tags are neither added nor lost.
pub proof fn other_tags_are_kept(operation: TagOperation, slugs: Seq<Text>, slug: Text, other: Text)
    requires
        other != slug,
    ensures
        tags_after(operation, slugs, slug).contains(other) <==> slugs.contains(other),
{
    without_keeps(slugs, slug, other);
    let pushed = slugs.push(slug);
    if slugs.contains(other) {
        let k = choose|k: int| 0 <= k < slugs.len() && slugs[k] == other;
        assert(pushed[k] == other);
    }
    if pushed.contains(other) {
        let k = choose|k: int| 0 <= k < pushed.len() && pushed[k] == other;
        assert(slugs[k] == other);
    }
}

proof fn without_keeps(slugs: Seq<Text>, slug: Text, other: Text)
    requires
        other != slug,
    ensures
        without(slugs, slug).contains(other) <==> slugs.contains(other),
    decreases slugs.len(),
{
    if slugs.len() > 0 {
        let front = slugs.drop_last();
        without_keeps(front, slug, other);
        let rest = without(front, slug);
        let out = without(slugs, slug);
        if front.contains(other) {
            let k = choose|k: int| 0 <= k < front.len() && front[k] == other;
            assert(slugs[k] == other);
            let m = choose|m: int| 0 <= m < rest.len() && rest[m] == other;
            assert(out[m] == other);
        }
        if slugs.last() == other {
            assert(slugs[slugs.len() - 1] == other);
            assert(out[rest.len() as int] == other);
        }
        if slugs.contains(other) && slugs.last() != other {
            let k = choose|k: int| 0 <= k < slugs.len() && slugs[k] == other;
            assert(front[k] == other);
        }
        if out.contains(other) && slugs.last() != other {
            let k = choose|k: int| 0 <= k < out.len() && out[k] == other;
            assert(rest[k] == other);
        }
    }
}

/// An object that moved since the plan is never written: unless both the time of
/// its last update and the hash still agree, nothing is sent.
pub proof fn moved_objects_are_refused(
    planned_at: Option<Text>,
    planned_hash: Text,
    seen_at: Option<Text>,
    seen_hash: Text,
)
    ensures
        still_as_planned(Condition::LastUpdated(planned_at, planned_hash), seen_at, seen_hash)
            <==> planned_at == seen_at && planned_hash == seen_hash,
{
}

/// The slugs of two lists of tags, one behind the other, are the slugs of the one and
/// then those of the other; and a single tag gives its slug, when it has one. Ids and
/// names of tags play no part.
pub proof fn slugs_are_read_tag_by_tag(front: Seq<ObjectTag>, back: Seq<ObjectTag>, tag: ObjectTag)
    ensures
        tag_slugs(front + back) == tag_slugs(front) + tag_slugs(back),
        tag_slugs(Seq::empty()) == Seq::<Text>::empty(),
        tag.slug is Some ==> tag_slugs(seq![tag]) == seq![tag.slug->0@],
        tag.slug is None ==> tag_slugs(seq![tag]) == Seq::<Text>::empty(),
    decreases back.len(),
{
    let one = seq![tag];
    assert(one.drop_last() =~= Seq::empty());
    assert(one.last() == tag);
    assert(Seq::<Text>::empty().push(tag.slug->0@) =~= seq![tag.slug->0@]);
    if back.len() == 0 {
        assert(front + back =~= front);
        assert(tag_slugs(front) + Seq::<Text>::empty() =~= tag_slugs(front));
    } else {
        slugs_are_read_tag_by_tag(front, back.drop_last(), tag);
        assert((front + back).drop_last() =~= front + back.drop_last());
        assert((front + back).last() == back.last());
        assert(tag_slugs(front + back) =~= tag_slugs(front) + tag_slugs(back));
    }
}

/// The current tags are slugs and nothing else: a text is among them exactly when some
/// tag has it as its slug, and where all tags have slugs they stand in the places of
/// their tags.
pub proof fn current_tags_are_slugs(tags: Seq<ObjectTag>, s: Text)
    ensures
        tag_slugs(tags).contains(s) <==> exists|i: int|
            0 <= i < tags.len() && (#[trigger] tags[i]).slug is Some && tags[i].slug->0@ == s,
        tag_slugs(tags).len() <= tags.len(),
        (forall|i: int| 0 <= i < tags.len() ==> (#[trigger] tags[i]).slug is Some) ==> {
            &&& tag_slugs(tags).len() == tags.len()
            &&& forall|i: int|
                0 <= i < tags.len() ==> #[trigger] tag_slugs(tags)[i] == tags[i].slug->0@
        },
    decreases tags.len(),
{
    if tags.len() > 0 {
        let front = tags.drop_last();
        let rest = tag_slugs(front);
        let all = tag_slugs(tags);
        current_tags_are_slugs(front, s);
        if rest.contains(s) {
            let k = choose|k: int| 0 <= k < rest.len() && rest[k] == s;
            assert(all[k] == s);
            let j = choose|j: int|
                0 <= j < front.len() && (#[trigger] front[j]).slug is Some && front[j].slug->0@
                    == s;
            assert(tags[j] == front[j]);
        }
        if tags.last().slug is Some && tags.last().slug->0@ == s {
            assert(tags[tags.len() - 1] == tags.last());
            assert(all[rest.len() as int] == s);
        }
        if all.contains(s) && !rest.contains(s) {
            let k = choose|k: int| 0 <= k < all.len() && all[k] == s;
            if k < rest.len() {
                assert(rest[k] == s);
            }
        }
        if exists|i: int|
            0 <= i < tags.len() && (#[trigger] tags[i]).slug is Some && tags[i].slug->0@ == s {
            let j = choose|j: int|
                0 <= j < tags.len() && (#[trigger] tags[j]).slug is Some && tags[j].slug->0@ == s;
            if j < front.len() {
                assert(front[j] == tags[j]);
            }
        }
        if forall|i: int| 0 <= i < tags.len() ==> (#[trigger] tags[i]).slug is Some {
            assert forall|i: int| 0 <= i < front.len() implies (
            #[trigger] front[i]).slug is Some by {
                assert(front[i] == tags[i]);
            }
            assert(tags[tags.len() - 1].slug is Some);
            assert forall|i: int| 0 <= i < tags.len() implies #[trigger] all[i]
                == tags[i].slug->0@ by {
                if i < front.len() {
                    assert(rest[i] == front[i].slug->0@);
                }
            }
        }
    }
}

/// Taking a slug out of two lists, one behind the other, takes it out of each; and of
/// a single slug it leaves nothing when it is that slug, and the slug otherwise. So
/// the others keep their order.
pub proof fn slugs_are_dropped_one_by_one(front: Seq<Text>, back: Seq<Text>, x: Text, slug: Text)
    ensures
        without(front + back, slug) == without(front, slug) + without(back, slug),
        without(Seq::empty(), slug) == Seq::<Text>::empty(),
        x == slug ==> without(seq![x], slug) == Seq::<Text>::empty(),
        x != slug ==> without(seq![x], slug) == seq![x],
    decreases back.len(),
{
    let one = seq![x];
    assert(one.drop_last() =~= Seq::empty());
    assert(one.last() == x);
    assert(Seq::<Text>::empty().push(x) =~= one);
    if back.len() == 0 {
        assert(front + back =~= front);
        assert(without(front, slug) + Seq::<Text>::empty() =~= without(front, slug));
    } else {
        slugs_are_dropped_one_by_one(front, back.drop_last(), x, slug);
        assert((front + back).drop_last() =~= front + back.drop_last());
        assert((front + back).last() == back.last());
        assert(without(front + back, slug) =~= without(front, slug) + without(back, slug));
    }
}

/// A plan to add or remove a tag. It has nothing to do exactly when some tag of the
/// object has the slug already, or when none has it. Otherwise it sends the tags as
/// one field: all the slugs that are there and the new one behind them, or all the
/// slugs that are there but the one. It is aimed at the object it was made from, on
/// the condition that the object is still what it was.
pub proof fn tag_plans_send_the_new_tags(
    r: PlanDraft,
    operation: TagOperation,
    object_type: Text,
    object_name: Text,
    tag_slug: Text,
    message: Option<Text>,
    profile: Text,
    endpoint: Text,
    id: u64,
    current: TagTargetObject,
    etag: Option<Text>,
    before_hash: Text,
)
    requires
        r@ == update_intent(
            tag_aim(object_type, object_name, profile, endpoint, id, current),
            update_condition(etag, opt_text(current.last_updated), before_hash),
            "tags"@,
            Held::Texts(tag_slugs(current.tags@)),
            Held::Texts(tags_after(operation, tag_slugs(current.tags@), tag_slug)),
            tag_no_op(operation, tag_slugs(current.tags@), tag_slug),
            message,
        ),
    ensures
        r.operation == Operation::Update,
        r.target.kind@ == object_type,
        r.target.reference@ == object_name,
        r.target.id == id,
        r.target.endpoint@ == endpoint,
        r.target.profile@ == profile,
        r.target.display@ == match current.display {
            Some(d) => d@,
            None => object_name,
        },
        etag is Some ==> r.precondition is Etag && r.precondition->etag@ == etag->0,
        etag is None ==> r.precondition is LastUpdated && r.precondition->before_hash@
            == before_hash && opt_text(r.precondition->last_updated) == opt_text(
            current.last_updated,
        ),
        r.warnings@.len() == 0,
        opt_text(r.changelog_message) == message,
        r.no_op <==> match operation {
            TagOperation::Add => exists|i: int|
                0 <= i < current.tags@.len() && (#[trigger] current.tags@[i]).slug is Some
                    && current.tags@[i].slug->0@ == tag_slug,
            TagOperation::Remove => forall|i: int|
                0 <= i < current.tags@.len() && (#[trigger] current.tags@[i]).slug is Some
                    ==> current.tags@[i].slug->0@ != tag_slug,
        },
        r.fields@.len() == 1,
        r.fields@[0].field@ == "tags"@,
        r.fields@[0].before is Texts,
        texts(r.fields@[0].before->Texts_0@) == tag_slugs(current.tags@),
        r.fields@[0].after is Texts,
        r.no_op ==> r.patch@.len() == 0 && texts(r.fields@[0].after->Texts_0@) == tag_slugs(
            current.tags@,
        ),
        !r.no_op ==> {
            let after = texts(r.fields@[0].after->Texts_0@);
            &&& r.patch@.len() == 1
            &&& r.patch@[0].field@ == "tags"@
            &&& r.patch@[0].value is Texts
            &&& texts(r.patch@[0].value->Texts_0@) == after
            &&& operation == TagOperation::Add ==> after == tag_slugs(current.tags@) + seq![tag_slug]
            &&& operation == TagOperation::Remove ==> {
                &&& after == without(tag_slugs(current.tags@), tag_slug)
                &&& !after.contains(tag_slug)
                &&& forall|s: Text|
                    s != tag_slug ==> (#[trigger] after.contains(s) <==> tag_slugs(
                        current.tags@,
                    ).contains(s))
            }
        },
{
    let slugs = tag_slugs(current.tags@);
    let after = tags_after(operation, slugs, tag_slug);
    current_tags_are_slugs(current.tags@, tag_slug);
    assert(changes_of(r.fields@) == seq![("tags"@, Held::Texts(slugs), Held::Texts(after))]);
    assert(changes_of(r.fields@)[0] == (
        r.fields@[0].field@,
        r.fields@[0].before@,
        r.fields@[0].after@,
    ));
    assert(texts(r.warnings@).len() == r.warnings@.len());
    assert(patch_of(r.patch@).len() == r.patch@.len());
    if !r.no_op {
        assert(patch_of(r.patch@) == seq![("tags"@, Held::Texts(after))]);
        assert(patch_of(r.patch@)[0] == (r.patch@[0].field@, r.patch@[0].value@));
        assert(slugs.push(tag_slug) =~= slugs + seq![tag_slug]);
        without_drops(slugs, tag_slug);
        assert forall|s: Text| s != tag_slug implies (#[trigger] without(slugs, tag_slug).contains(s)
            <==> slugs.contains(s)) by {
            without_keeps(slugs, tag_slug, s);
        }
    }
}

/// A plan for a new description sends that text and nothing else, unless it is the
/// description already. It is aimed at the interface that was read, on the condition
/// that it is still what it was.
pub proof fn description_plans_send_the_text(
    r: PlanDraft,
    device: Text,
    interface: Text,
    new_description: Text,
    message: Option<Text>,
    profile: Text,
    resolved_id: u64,
    current: Interface,
    etag: Option<Text>,
    before_hash: Text,
)
    requires
        r@ == update_intent(
            interface_aim(device, interface, profile, resolved_id, current),
            update_condition(etag, opt_text(current.last_updated), before_hash),
            "description"@,
            held_opt(opt_text(current.description)),
            Held::Text(new_description),
            opt_text(current.description) == Some(new_description),
            message,
        ),
    ensures
        r.operation == Operation::Update,
        r.target.kind@ == "interface"@,
        r.target.reference@ == device + "/"@ + interface,
        r.target.id == current.id,
        r.target.endpoint@ == "/api/dcim/interfaces/"@ + decimal_text(resolved_id as nat) + "/"@,
        r.target.profile@ == profile,
        r.target.display@ == match current.display {
            Some(d) => d@,
            None => device + "/"@ + interface,
        },
        etag is Some ==> r.precondition is Etag && r.precondition->etag@ == etag->0,
        etag is None ==> r.precondition is LastUpdated && r.precondition->before_hash@
            == before_hash && opt_text(r.precondition->last_updated) == opt_text(
            current.last_updated,
        ),
        r.warnings@.len() == 0,
        opt_text(r.changelog_message) == message,
        r.no_op <==> current.description is Some && current.description->0@ == new_description,
        r.fields@.len() == 1,
        r.fields@[0].field@ == "description"@,
        r.fields@[0].after is Text && r.fields@[0].after->Text_0@ == new_description,
        current.description is Some ==> r.fields@[0].before is Text
            && r.fields@[0].before->Text_0@ == current.description->0@,
        current.description is None ==> r.fields@[0].before is Null,
        r.no_op ==> r.patch@.len() == 0,
        !r.no_op ==> {
            &&& r.patch@.len() == 1
            &&& r.patch@[0].field@ == "description"@
            &&& r.patch@[0].value is Text
            &&& r.patch@[0].value->Text_0@ == new_description
        },
{
    draft_says_what_it_shows(r);
    assert(r@.fields[0] == (r.fields@[0].field@, r.fields@[0].before@, r.fields@[0].after@));
    assert(shows(r.fields@[0].before) && shows(r.fields@[0].after));
    if !r.no_op {
        assert(r@.patch[0] == (r.patch@[0].field@, r.patch@[0].value@));
        assert(shows(r.patch@[0].value));
    }
}

/// A plan for a new status sends that value and nothing else, unless the device has it
/// already. It is aimed at the device that was read, on the condition that it is still
/// what it was.
pub proof fn status_plans_send_the_value(
    r: PlanDraft,
    device: Text,
    status: Text,
    message: Option<Text>,
    profile: Text,
    resolved_id: u64,
    current: Device,
    etag: Option<Text>,
    before_hash: Text,
)
    requires
        r@ == update_intent(
            device_aim(device, profile, resolved_id, current),
            update_condition(etag, opt_text(current.last_updated), before_hash),
            "status"@,
            held_opt(opt_choice_value(current.status)),
            Held::Text(status),
            opt_choice_value(current.status) == Some(status),
            message,
        ),
    ensures
        r.operation == Operation::Update,
        r.target.kind@ == "device"@,
        r.target.reference@ == device,
        r.target.id == current.id,
        r.target.endpoint@ == "/api/dcim/devices/"@ + decimal_text(resolved_id as nat) + "/"@,
        r.target.profile@ == profile,
        r.target.display@ == match current.display {
            Some(d) => d@,
            None => current.name@,
        },
        etag is Some ==> r.precondition is Etag && r.precondition->etag@ == etag->0,
        etag is None ==> r.precondition is LastUpdated && r.precondition->before_hash@
            == before_hash && opt_text(r.precondition->last_updated) == opt_text(
            current.last_updated,
        ),
        r.warnings@.len() == 0,
        opt_text(r.changelog_message) == message,
        r.no_op <==> current.status is Some && current.status->0.value@ == status,
        r.fields@.len() == 1,
        r.fields@[0].field@ == "status"@,
        r.fields@[0].after is Text && r.fields@[0].after->Text_0@ == status,
        current.status is Some ==> r.fields@[0].before is Text && r.fields@[0].before->Text_0@
            == current.status->0.value@,
        current.status is None ==> r.fields@[0].before is Null,
        r.no_op ==> r.patch@.len() == 0,
        !r.no_op ==> {
            &&& r.patch@.len() == 1
            &&& r.patch@[0].field@ == "status"@
            &&& r.patch@[0].value is Text
            &&& r.patch@[0].value->Text_0@ == status
        },
{
    draft_says_what_it_shows(r);
    assert(r@.fields[0] == (r.fields@[0].field@, r.fields@[0].before@, r.fields@[0].after@));
    assert(shows(r.fields@[0].before) && shows(r.fields@[0].after));
    if !r.no_op {
        assert(r@.patch[0] == (r.patch@[0].field@, r.patch@[0].value@));
        assert(shows(r.patch@[0].value));
    }
}

/// What a draft says is what its fields hold, position by position.
pub proof fn draft_says_what_it_shows(r: PlanDraft)
    ensures
        r@.fields.len() == r.fields@.len(),
        forall|i: int|
            0 <= i < r.fields@.len() ==> #[trigger] r@.fields[i] == (
                r.fields@[i].field@,
                r.fields@[i].before@,
                r.fields@[i].after@,
            ),
        r@.patch.len() == r.patch@.len(),
        forall|i: int|
            0 <= i < r.patch@.len() ==> #[trigger] r@.patch[i] == (
                r.patch@[i].field@,
                r.patch@[i].value@,
            ),
        r@.warnings.len() == r.warnings@.len(),
        forall|i: int| 0 <= i < r.warnings@.len() ==> #[trigger] r@.warnings[i] == r.warnings@[i]@,
        r@.operation == r.operation,
        r@.no_op == r.no_op,
        r@.changelog_message == opt_text(r.changelog_message),
        r@.target.kind == r.target.kind@,
        r@.target.reference == r.target.reference@,
        r@.target.id == r.target.id,
        r@.target.display == r.target.display@,
        r@.target.endpoint == r.target.endpoint@,
        r@.target.profile == r.target.profile@,
        r@.precondition is Etag <==> r.precondition is Etag,
        r.precondition is Etag ==> r@.precondition == Condition::Etag(r.precondition->etag@),
        r@.precondition is Absent <==> r.precondition is Absent,
        r.precondition is LastUpdated ==> r@.precondition == Condition::LastUpdated(
            opt_text(r.precondition->last_updated),
            r.precondition->before_hash@,
        ),
        forall|i: int| 0 <= i < r.fields@.len() ==> shows(#[trigger] r.fields@[i].before),
        forall|i: int| 0 <= i < r.fields@.len() ==> shows(#[trigger] r.fields@[i].after),
        forall|i: int| 0 <= i < r.patch@.len() ==> shows(#[trigger] r.patch@[i].value),
{
}

/// Whether what a value holds is what it is.
pub open spec fn shows(v: FieldValue) -> bool {
    match v {
        FieldValue::Null => v@ is Null,
        FieldValue::Text(t) => v@ == Held::Text(t@),
        FieldValue::Number(n) => v@ == Held::Number(n),
        FieldValue::Texts(list) => v@ is Texts && v@->Texts_0 == texts(list@),
    }
}

/// A reservation sends the texts that were given and are not empty, and nothing else;
/// it has no condition, is never already done, and asks the server for a free address
/// of the very prefix it names.
pub proof fn address_plans_ask_their_prefix(
    r: PlanDraft,
    prefix_ref: Text,
    description: Option<Text>,
    dns_name: Option<Text>,
    message: Option<Text>,
    profile: Text,
    prefix: Prefix,
    next: NextFree,
)
    requires
        r@ == reserve_intent(
            prefix_aim("ip"@, prefix_ref, profile, prefix, "available-ips/"@),
            Seq::<(Text, Held)>::empty() + set_text("description"@, description) + set_text(
                "dns_name"@,
                dns_name,
            ),
            address_advice(next, "prefix"@),
            message,
        ),
    ensures
        r.operation == Operation::Allocate,
        r.precondition is Absent,
        !r.no_op,
        r.target.kind@ == "ip"@,
        r.target.reference@ == prefix_ref,
        r.target.id == prefix.id,
        r.target.display@ == prefix.prefix@,
        r.target.endpoint@ == "/api/ipam/prefixes/"@ + decimal_text(prefix.id as nat) + "/"@
            + "available-ips/"@,
        r.target.profile@ == profile,
        opt_text(r.changelog_message) == message,
        r.warnings@.len() == 1,
        next is Next ==> r.warnings@[0]@ == "currently next: "@ + next->Next_0@
            + " — NetBox allocates at apply; the applied address may differ"@,
        next is Full ==> r.warnings@[0]@ == "no available addresses in this "@ + "prefix"@
            + " — the reserve will fail at apply"@,
        next is Unreadable ==> r.warnings@[0]@
            == "could not read the next available address (advisory only)"@,
        r.patch@.len() == (if description is Some && description->0.len() > 0 {
            1int
        } else {
            0int
        }) + (if dns_name is Some && dns_name->0.len() > 0 {
            1int
        } else {
            0int
        }),
        description is Some && description->0.len() > 0 ==> {
            &&& r.patch@[0].field@ == "description"@
            &&& r.patch@[0].value is Text
            &&& r.patch@[0].value->Text_0@ == description->0
        },
        dns_name is Some && dns_name->0.len() > 0 ==> {
            let at = r.patch@.len() - 1;
            &&& r.patch@[at].field@ == "dns_name"@
            &&& r.patch@[at].value is Text
            &&& r.patch@[at].value->Text_0@ == dns_name->0
        },
        r.fields@.len() == r.patch@.len(),
        forall|i: int|
            0 <= i < r.fields@.len() ==> {
                &&& (#[trigger] r.fields@[i]).before is Null
                &&& r.fields@[i].field@ == r.patch@[i].field@
                &&& r.fields@[i].after@ == r.patch@[i].value@
            },
{
    draft_says_what_it_shows(r);
    let a = set_text("description"@, description);
    let b = set_text("dns_name"@, dns_name);
    assert(Seq::<(Text, Held)>::empty() + a + b =~= a + b);
    assert forall|i: int| 0 <= i < r.fields@.len() implies {
        &&& (#[trigger] r.fields@[i]).before is Null
        &&& r.fields@[i].field@ == r.patch@[i].field@
        &&& r.fields@[i].after@ == r.patch@[i].value@
    } by {
        assert(r@.fields[i] == (r.patch@[i].field@, Held::Null, r.patch@[i].value@)) by {
            assert(r@.patch[i] == (r.patch@[i].field@, r.patch@[i].value@));
        }
        assert(shows(r.fields@[i].before));
    }
    if description is Some && description->0.len() > 0 {
        assert(r@.patch[0] == a[0]);
        assert(shows(r.patch@[0].value));
    }
    if dns_name is Some && dns_name->0.len() > 0 {
        let at = r.patch@.len() - 1;
        assert(r@.patch[at] == b[0]);
        assert(shows(r.patch@[at].value));
    }
    assert(r@.warnings[0] == r.warnings@[0]@);
}

/// A reservation in a range asks the server for a free address of that very range,
/// and shows the range by its two ends.
pub proof fn range_plans_ask_their_range(
    r: PlanDraft,
    range_ref: Text,
    description: Option<Text>,
    dns_name: Option<Text>,
    message: Option<Text>,
    profile: Text,
    range: IpRange,
    next: NextFree,
)
    requires
        r@ == reserve_intent(
            range_aim(range_ref, profile, range),
            Seq::<(Text, Held)>::empty() + set_text("description"@, description) + set_text(
                "dns_name"@,
                dns_name,
            ),
            address_advice(next, "range"@),
            message,
        ),
    ensures
        r.operation == Operation::Allocate,
        r.precondition is Absent,
        !r.no_op,
        r.target.kind@ == "ip"@,
        r.target.reference@ == range_ref,
        r.target.id == range.id,
        r.target.display@ == range.start_address@ + " – "@ + range.end_address@,
        r.target.endpoint@ == "/api/ipam/ip-ranges/"@ + decimal_text(range.id as nat) + "/"@
            + "available-ips/"@,
        r.target.profile@ == profile,
        opt_text(r.changelog_message) == message,
        r.warnings@.len() == 1,
        next is Next ==> r.warnings@[0]@ == "currently next: "@ + next->Next_0@
            + " — NetBox allocates at apply; the applied address may differ"@,
        next is Full ==> r.warnings@[0]@ == "no available addresses in this "@ + "range"@
            + " — the reserve will fail at apply"@,
        r.patch@.len() == (if description is Some && description->0.len() > 0 {
            1int
        } else {
            0int
        }) + (if dns_name is Some && dns_name->0.len() > 0 {
            1int
        } else {
            0int
        }),
        description is Some && description->0.len() > 0 ==> {
            &&& r.patch@[0].field@ == "description"@
            &&& r.patch@[0].value is Text
            &&& r.patch@[0].value->Text_0@ == description->0
        },
        dns_name is Some && dns_name->0.len() > 0 ==> {
            let at = r.patch@.len() - 1;
            &&& r.patch@[at].field@ == "dns_name"@
            &&& r.patch@[at].value is Text
            &&& r.patch@[at].value->Text_0@ == dns_name->0
        },
{
    draft_says_what_it_shows(r);
    let a = set_text("description"@, description);
    let b = set_text("dns_name"@, dns_name);
    assert(Seq::<(Text, Held)>::empty() + a + b =~= a + b);
    if description is Some && description->0.len() > 0 {
        assert(r@.patch[0] == a[0]);
        assert(shows(r.patch@[0].value));
    }
    if dns_name is Some && dns_name->0.len() > 0 {
        let at = r.patch@.len() - 1;
        assert(r@.patch[at] == b[0]);
        assert(shows(r.patch@[at].value));
    }
    assert(r@.warnings[0] == r.warnings@[0]@);
}

/// The first block that fits: it fits, none before it does, and there is none only
/// when no block fits. A block fits when its own length is at most the one asked for.
pub proof fn first_fitting_block_is_taken(blocks: Seq<Text>, length: Option<u8>)
    ensures
        first_fit(blocks, length) <= blocks.len(),
        length is None && blocks.len() > 0 ==> first_fit(blocks, length) == 0,
        length is Some ==> forall|j: int|
            0 <= j < first_fit(blocks, length) ==> {
                ||| trailing_len(#[trigger] blocks[j]) is None
                ||| trailing_len(blocks[j])->0 > length->0
            },
        length is Some && first_fit(blocks, length) < blocks.len() ==> {
            let at = first_fit(blocks, length) as int;
            trailing_len(blocks[at]) is Some && trailing_len(blocks[at])->0 <= length->0
        },
    decreases blocks.len(),
{
    if blocks.len() > 0 && !block_fits(blocks[0], length) {
        let rest = blocks.skip(1);
        first_fitting_block_is_taken(rest, length);
        assert forall|j: int| 0 <= j < first_fit(blocks, length) implies {
            ||| trailing_len(#[trigger] blocks[j]) is None
            ||| trailing_len(blocks[j])->0 > length->0
        } by {
            if j > 0 {
                assert(rest[j - 1] == blocks[j]);
            }
        }
    }
}

/// A reservation of a block sends the length and the description that were given, and
/// asks the server for a free block of the very prefix it names. It tells of the first
/// free block that fits, or that none does.
pub proof fn block_plans_ask_their_prefix(
    r: PlanDraft,
    prefix_ref: Text,
    length: Option<u8>,
    description: Option<Text>,
    message: Option<Text>,
    profile: Text,
    prefix: Prefix,
    blocks: Option<Seq<Text>>,
)
    requires
        r@ == reserve_intent(
            prefix_aim("prefix"@, prefix_ref, profile, prefix, "available-prefixes/"@),
            Seq::<(Text, Held)>::empty() + set_number("prefix_length"@, length) + set_text(
                "description"@,
                description,
            ),
            block_advice(blocks, length),
            message,
        ),
    ensures
        r.operation == Operation::Allocate,
        r.precondition is Absent,
        !r.no_op,
        r.target.kind@ == "prefix"@,
        r.target.reference@ == prefix_ref,
        r.target.id == prefix.id,
        r.target.display@ == prefix.prefix@,
        r.target.endpoint@ == "/api/ipam/prefixes/"@ + decimal_text(prefix.id as nat) + "/"@
            + "available-prefixes/"@,
        r.target.profile@ == profile,
        opt_text(r.changelog_message) == message,
        r.warnings@.len() == 1,
        blocks is None ==> r.warnings@[0]@
            == "could not read the next available prefix (advisory only)"@,
        blocks is Some && blocks->0.len() == 0 ==> r.warnings@[0]@
            == "no available prefixes in this prefix — the reserve will fail at apply"@,
        blocks is Some ==> forall|i: int|
            {
                &&& 0 <= i < blocks->0.len()
                &&& length is Some ==> trailing_len(#[trigger] blocks->0[i]) is Some
                    && trailing_len(blocks->0[i])->0 <= length->0
                &&& forall|j: int|
                    0 <= j < i ==> length is Some && {
                        ||| trailing_len(#[trigger] blocks->0[j]) is None
                        ||| trailing_len(blocks->0[j])->0 > length->0
                    }
            } ==> r.warnings@[0]@ == "currently next: "@ + blocks->0[i]
                + " — NetBox allocates at apply; the applied prefix may differ"@,
        blocks is Some && blocks->0.len() > 0 && length is Some && (forall|i: int|
            0 <= i < blocks->0.len() ==> {
                ||| trailing_len(#[trigger] blocks->0[i]) is None
                ||| trailing_len(blocks->0[i])->0 > length->0
            }) ==> r.warnings@[0]@ == "no available block of length "@ + ("/"@ + decimal_text(
            length->0 as nat,
        )) + " in this prefix — the reserve will fail at apply"@,
        r.patch@.len() == (if length is Some {
            1int
        } else {
            0int
        }) + (if description is Some && description->0.len() > 0 {
            1int
        } else {
            0int
        }),
        length is Some ==> {
            &&& r.patch@[0].field@ == "prefix_length"@
            &&& r.patch@[0].value is Number
            &&& r.patch@[0].value->Number_0 == length->0
        },
        description is Some && description->0.len() > 0 ==> {
            let at = r.patch@.len() - 1;
            &&& r.patch@[at].field@ == "description"@
            &&& r.patch@[at].value is Text
            &&& r.patch@[at].value->Text_0@ == description->0
        },
{
    draft_says_what_it_shows(r);
    let a = set_number("prefix_length"@, length);
    let b = set_text("description"@, description);
    assert(Seq::<(Text, Held)>::empty() + a + b =~= a + b);
    if length is Some {
        assert(r@.patch[0] == a[0]);
        assert(shows(r.patch@[0].value));
    }
    if description is Some && description->0.len() > 0 {
        let at = r.patch@.len() - 1;
        assert(r@.patch[at] == b[0]);
        assert(shows(r.patch@[at].value));
    }
    assert(r@.warnings[0] == r.warnings@[0]@);
    if blocks is Some {
        let list = blocks->0;
        first_fitting_block_is_taken(list, length);
        let n = first_fit(list, length) as int;
        assert forall|i: int|
            {
                &&& 0 <= i < list.len()
                &&& length is Some ==> trailing_len(#[trigger] list[i]) is Some && trailing_len(
                    list[i],
                )->0 <= length->0
                &&& forall|j: int|
                    0 <= j < i ==> length is Some && {
                        ||| trailing_len(#[trigger] list[j]) is None
                        ||| trailing_len(list[j])->0 > length->0
                    }
            } implies i == n by {
            if i > n {
                assert(trailing_len(list[n]) is None || length is None || trailing_len(list[n])->0
                    > length->0);
            }
        }
    }
}

proof fn field_is_set(body: Seq<(Text, Held)>, field: Text, value: Held)
    ensures
        with_field(body, field, value).contains((field, value)),
        forall|e: (Text, Held)|
            e.0 != field ==> (#[trigger] with_field(body, field, value).contains(e)
                <==> body.contains(e)),
        with_field(body, field, value).len() == body.len() + if exists|i: int|
            0 <= i < body.len() && (#[trigger] body[i]).0 == field {
            0int
        } else {
            1int
        },
        forall|i: int|
            0 <= i < body.len() && (#[trigger] body[i]).0 != field ==> with_field(
                body,
                field,
                value,
            )[i] == body[i],
    decreases body.len(),
{
    let out = with_field(body, field, value);
    if body.len() == 0 {
        assert(out[0] == (field, value));
    } else if body[0].0 == field {
        assert(out[0] == (field, value));
        assert forall|e: (Text, Held)| e.0 != field implies (#[trigger] out.contains(e)
            <==> body.contains(e)) by {
            if out.contains(e) {
                let k = choose|k: int| 0 <= k < out.len() && out[k] == e;
                assert(body[k] == e);
            }
            if body.contains(e) {
                let k = choose|k: int| 0 <= k < body.len() && body[k] == e;
                assert(out[k] == e);
            }
        }
    } else {
        let rest = body.skip(1);
        let tail = with_field(rest, field, value);
        field_is_set(rest, field, value);
        let k = choose|k: int| 0 <= k < tail.len() && tail[k] == (field, value);
        assert(out[k + 1] == (field, value));
        assert forall|e: (Text, Held)| e.0 != field implies (#[trigger] out.contains(e)
            <==> body.contains(e)) by {
            assert(tail.contains(e) <==> rest.contains(e));
            if out.contains(e) {
                let k = choose|k: int| 0 <= k < out.len() && out[k] == e;
                if k > 0 {
                    assert(tail[k - 1] == e);
                    let m = choose|m: int| 0 <= m < rest.len() && rest[m] == e;
                    assert(body[m + 1] == e);
                } else {
                    assert(body[0] == e);
                }
            }
            if body.contains(e) {
                let k = choose|k: int| 0 <= k < body.len() && body[k] == e;
                if k > 0 {
                    assert(rest[k - 1] == e);
                    let m = choose|m: int| 0 <= m < tail.len() && tail[m] == e;
                    assert(out[m + 1] == e);
                } else {
                    assert(out[0] == e);
                }
            }
        }
        assert forall|i: int| 0 <= i < body.len() && (
        #[trigger] body[i]).0 != field implies out[i] == body[i] by {
            if i > 0 {
                assert(rest[i - 1] == body[i]);
            }
        }
        if exists|i: int| 0 <= i < body.len() && (#[trigger] body[i]).0 == field {
            let i = choose|i: int| 0 <= i < body.len() && (#[trigger] body[i]).0 == field;
            assert(rest[i - 1].0 == field);
        } else {
            assert forall|i: int| 0 <= i < rest.len() implies (#[trigger] rest[i]).0 != field by {
                assert(rest[i] == body[i + 1]);
            }
        }
    }
}

/// What is sent for a plan is its patch: every field of it keeps its place and its
/// value. A changelog message is sent beside them under its own name, and without one
/// nothing is added.
pub proof fn bodies_carry_patch_and_message(plan: MutationPlan, body: Seq<PatchEntry>)
    requires
        patch_of(body) == sent_body(plan@),
    ensures
        plan.changelog_message is None ==> {
            &&& body.len() == plan.patch@.len()
            &&& forall|i: int|
                0 <= i < body.len() ==> (#[trigger] body[i]).field@ == plan.patch@[i].field@
                    && body[i].value@ == plan.patch@[i].value@
        },
        plan.changelog_message is Some ==> exists|i: int|
            0 <= i < body.len() && (#[trigger] body[i]).field@ == "changelog_message"@
                && body[i].value@ == Held::Text(plan.changelog_message->0@),
        forall|i: int|
            0 <= i < plan.patch@.len() && (#[trigger] plan.patch@[i]).field@
                != "changelog_message"@ ==> i < body.len() && body[i].field@
                == plan.patch@[i].field@ && body[i].value@ == plan.patch@[i].value@,
        body.len() <= plan.patch@.len() + 1,
        (forall|i: int|
            0 <= i < plan.patch@.len() ==> (#[trigger] plan.patch@[i]).field@
                != "changelog_message"@) ==> body.len() == plan.patch@.len()
            + if plan.changelog_message is Some {
            1int
        } else {
            0int
        },
{
    let patch = patch_of(plan.patch@);
    let sent = patch_of(body);
    assert(forall|i: int|
        0 <= i < patch.len() ==> #[trigger] patch[i] == (
            plan.patch@[i].field@,
            plan.patch@[i].value@,
        ));
    assert(forall|i: int|
        0 <= i < sent.len() ==> #[trigger] sent[i] == (body[i].field@, body[i].value@));
    if plan.changelog_message is Some {
        let value = Held::Text(plan.changelog_message->0@);
        field_is_set(patch, "changelog_message"@, value);
        assert(sent == with_field(patch, "changelog_message"@, value));
        let k = choose|k: int| 0 <= k < sent.len() && sent[k] == ("changelog_message"@, value);
        assert(body[k].field@ == "changelog_message"@);
        assert forall|i: int| 0 <= i < plan.patch@.len() && (#[trigger] plan.patch@[i]).field@
            != "changelog_message"@ implies i < body.len() && body[i].field@
            == plan.patch@[i].field@ && body[i].value@ == plan.patch@[i].value@ by {
            assert(patch[i].0 != "changelog_message"@);
            assert(sent[i] == patch[i]);
        }
        if forall|i: int|
            0 <= i < plan.patch@.len() ==> (#[trigger] plan.patch@[i]).field@
                != "changelog_message"@ {
            assert forall|i: int| 0 <= i < patch.len() implies (#[trigger] patch[i]).0
                != "changelog_message"@ by {
                assert(plan.patch@[i].field@ != "changelog_message"@);
            }
        }
    } else {
        assert(sent == patch);
        assert forall|i: int| 0 <= i < body.len() implies (#[trigger] body[i]).field@
            == plan.patch@[i].field@ && body[i].value@ == plan.patch@[i].value@ by {
            assert(sent[i] == patch[i]);
        }
        assert forall|i: int| 0 <= i < plan.patch@.len() implies i < body.len() && body[i].field@
            == (#[trigger] plan.patch@[i]).field@ && body[i].value@ == plan.patch@[i].value@ by {
            assert(sent[i] == patch[i]);
        }
    }
}

/// A plan that has nothing to do is never sent; one with an entity tag is sent on the
/// condition of that tag; one without is sent only after the object was read again and
/// neither the time of its last update nor its hash has changed; one without any
/// condition is refused.
pub proof fn updates_are_sent_on_their_condition(
    plan: MutationPlan,
    step: ApplyStep,
    reread: Result<Vec<PatchEntry>, NboxError>,
    last_updated: Option<Text>,
    before_hash: Text,
)
    requires
        plan.no_op ==> step is Nothing && is_no_op_receipt(step->Nothing_0, plan),
        !plan.no_op ==> match plan.precondition@ {
            Condition::Etag(e) => {
                &&& step is Send
                &&& step->Send_endpoint@ == plan.target.endpoint@
                &&& patch_of(step->Send_body@) == sent_body(plan@)
                &&& step->if_match@ == e
            },
            Condition::LastUpdated(_, _) => step is Reread && step->Reread_endpoint@
                == plan.target.endpoint@,
            Condition::Absent => step is Refuse,
        },
        still_as_planned(plan.precondition@, last_updated, before_hash) ==> reread is Ok,
        !still_as_planned(plan.precondition@, last_updated, before_hash) ==> reread is Err
            && reread->Err_0 is StalePrecondition,
    ensures
        step is Send ==> !plan.no_op && plan.precondition is Etag && step->if_match@
            == plan.precondition->etag@,
        step is Nothing <==> plan.no_op,
        step is Nothing ==> !step->Nothing_0.applied && step->Nothing_0.no_op
            && step->Nothing_0.status == 0,
        !plan.no_op && plan.precondition is LastUpdated ==> step is Reread,
        !plan.no_op && plan.precondition is Absent ==> step is Refuse,
        reread is Ok <==> plan.precondition is LastUpdated && opt_text(
            plan.precondition->last_updated,
        ) == last_updated && plan.precondition->before_hash@ == before_hash,
{
}

/// A receipt tells what was applied: the operation and target of its plan, every change
/// of it, and how the server answered.
pub proof fn receipts_tell_what_was_applied(
    r: MutationReceipt,
    plan: MutationPlan,
    etag: Option<String>,
    status: u16,
    i: int,
)
    requires
        is_applied_receipt(r, plan, etag, status),
    ensures
        r.applied && !r.no_op,
        r.operation == plan.operation && r.target == plan.target,
        r.status == status && r.etag == etag,
        r.object is None,
        r.fields@.len() == plan.fields@.len(),
        0 <= i < plan.fields@.len() ==> r.fields@[i].field@ == plan.fields@[i].field@
            && r.fields@[i].before@ == plan.fields@[i].before@ && r.fields@[i].after@
            == plan.fields@[i].after@,
        r.message@ == "applied: "@ + plan.target.kind@ + " "@ + plan.target.display@ + (" ("@
            + joined(Seq::new(plan.fields@.len(), |k: int| plan.fields@[k].field@), ", "@) + ")"@),
{
    assert(changes_of(r.fields@).len() == changes_of(plan.fields@).len());
    if 0 <= i < plan.fields@.len() {
        assert(changes_of(r.fields@)[i] == changes_of(plan.fields@)[i]);
    }
    assert(changed_names(plan.fields@) =~= Seq::new(
        plan.fields@.len(),
        |k: int| plan.fields@[k].field@,
    ));
}

/// A receipt of a reservation tells what was reserved and in what, and hands on the
/// object as the server sent it.
pub proof fn receipts_tell_what_was_reserved(
    r: MutationReceipt,
    plan: MutationPlan,
    reserved: Text,
    status: u16,
    object: Option<String>,
    i: int,
)
    requires
        is_reserved_receipt(r, plan, reserved, status, object),
    ensures
        r.applied && !r.no_op,
        r.operation == plan.operation && r.target == plan.target,
        r.status == status && r.object == object && r.etag is None,
        r.fields@.len() == plan.fields@.len(),
        0 <= i < plan.fields@.len() ==> r.fields@[i].field@ == plan.fields@[i].field@
            && r.fields@[i].before@ == plan.fields@[i].before@ && r.fields@[i].after@
            == plan.fields@[i].after@,
        r.message@ == "reserved: "@ + reserved + " in "@ + plan.target.display@,
{
    assert(changes_of(r.fields@).len() == changes_of(plan.fields@).len());
    if 0 <= i < plan.fields@.len() {
        assert(changes_of(r.fields@)[i] == changes_of(plan.fields@)[i]);
    }
}

/// What can be said beforehand of a reservation: the block that comes next, that none is
/// left, that none is of the length asked for, or that it could not be read.
pub proof fn advice_tells_what_comes_next(blocks: Seq<Text>, length: Option<u8>, i: int)
    ensures
        block_advice(None, length) == "could not read the next available prefix (advisory only)"@,
        blocks.len() == 0 ==> block_advice(Some(blocks), length)
            == "no available prefixes in this prefix — the reserve will fail at apply"@,
        blocks.len() > 0 && length is None ==> block_advice(Some(blocks), length)
            == "currently next: "@ + blocks[0]
            + " — NetBox allocates at apply; the applied prefix may differ"@,
        blocks.len() > 0 && length is Some && trailing_len(blocks[0]) is Some && trailing_len(
            blocks[0],
        )->0 <= length->0 ==> block_advice(Some(blocks), length) == "currently next: "@ + blocks[0]
            + " — NetBox allocates at apply; the applied prefix may differ"@,
        blocks.len() == 1 && length is Some && (trailing_len(blocks[0]) is None || trailing_len(
            blocks[0],
        )->0 > length->0) ==> block_advice(Some(blocks), length)
            == "no available block of length "@ + ("/"@ + decimal_text(length->0 as nat))
            + " in this prefix — the reserve will fail at apply"@,
{
    reveal_with_fuel(first_fit, 2);
}

} // verus!
