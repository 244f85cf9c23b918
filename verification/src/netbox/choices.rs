//! Choice fields: turning what an operator typed into a value the server takes.

use vstd::prelude::*;

use crate::error::NboxError;
use crate::netbox::models::Choice;
use crate::text::{cat5, join, joined, same, same_folded, same_ignoring_case, texts, Text};

verus! {

/// The values of a list of choices.
pub open spec fn values(choices: Seq<Choice>) -> Seq<Text> {
    Seq::new(choices.len(), |i: int| choices[i].value@)
}

/// Whether a choice is what was typed: its value or its label, regardless of case.
pub open spec fn meant(c: Choice, input: Text) -> bool {
    same_folded(c.value@, input) || same_folded(c.label@, input)
}

/// Whether the choices meant all have this value, and there is one.
pub open spec fn means_only(choices: Seq<Choice>, input: Text, value: Text) -> bool {
    &&& exists|i: int|
        0 <= i < choices.len() && meant(#[trigger] choices[i], input) && choices[i].value@ == value
    &&& forall|i: int|
        0 <= i < choices.len() && meant(#[trigger] choices[i], input) ==> choices[i].value@
            == value
}

/// What was typed, resolved: an exact value is taken as it is; otherwise the one
/// value that is meant.
pub open spec fn resolves_to(choices: Seq<Choice>, input: Text, value: Text) -> bool {
    if values(choices).contains(input) {
        value == input
    } else {
        means_only(choices, input, value)
    }
}

/// The message for what does not resolve.
pub open spec fn refusal_text(choices: Seq<Choice>, field: Text, input: Text) -> Text {
    "invalid "@ + field + " \""@ + input + ("\" — allowed values: "@ + joined(
        values(choices),
        ", "@,
    ))
}

fn values_of(choices: &Vec<Choice>) -> (r: Vec<String>)
    ensures
        texts(r@) == values(choices@),
{
    let mut out: Vec<String> = Vec::new();
    let mut i: usize = 0;
    while i < choices.len()
        invariant
            i <= choices.len(),
            out.len() == i,
            forall|j: int| 0 <= j < i ==> (#[trigger] out@[j])@ == choices@[j].value@,
        decreases choices.len() - i,
    {
        out.push(choices[i].value.clone());
        i = i + 1;
    }
    proof {
        assert(texts(out@) =~= values(choices@));
    }
    out
}

fn has_value(choices: &Vec<Choice>, input: &str) -> (r: bool)
    ensures
        r == values(choices@).contains(input@),
{
    let mut i: usize = 0;
    while i < choices.len()
        invariant
            i <= choices.len(),
            forall|j: int| 0 <= j < i ==> (#[trigger] choices@[j]).value@ != input@,
        decreases choices.len() - i,
    {
        if same(choices[i].value.as_str(), input) {
            proof {
                assert(values(choices@)[i as int] == input@);
            }
            return true;
        }
        i = i + 1;
    }
    proof {
        if values(choices@).contains(input@) {
            let k = choose|k: int| 0 <= k < values(choices@).len() && values(choices@)[k] == input@;
            assert(choices@[k].value@ == input@);
        }
    }
    false
}

fn only_meant(choices: &Vec<Choice>, input: &str) -> (r: Option<String>)
    ensures
        match r {
            Some(v) => means_only(choices@, input@, v@),
            None => forall|v: Text| !means_only(choices@, input@, v),
        },
{
    let mut found: Option<usize> = None;
    let mut i: usize = 0;
    while i < choices.len()
        invariant
            i <= choices.len(),
            match found {
                Some(k) => {
                    &&& k < i
                    &&& meant(choices@[k as int], input@)
                    &&& forall|j: int|
                        0 <= j < i && meant(#[trigger] choices@[j], input@) ==> choices@[j].value@
                            == choices@[k as int].value@
                },
                None => forall|j: int| 0 <= j < i ==> !meant(#[trigger] choices@[j], input@),
            },
        decreases choices.len() - i,
    {
        let c = &choices[i];
        if same_ignoring_case(c.value.as_str(), input) || same_ignoring_case(
            c.label.as_str(),
            input,
        ) {
            match found {
                Some(k) => {
                    if !same(choices[k].value.as_str(), c.value.as_str()) {
                        proof {
                            assert forall|v: Text| !means_only(choices@, input@, v) by {
                                assert(meant(choices@[k as int], input@));
                                assert(meant(choices@[i as int], input@));
                            }
                        }
                        return None;
                    }
                },
                None => {
                    found = Some(i);
                },
            }
        }
        i = i + 1;
    }
    match found {
        Some(k) => Some(choices[k].value.clone()),
        None => None,
    }
}

/// Resolves what was typed to a value the server takes. What names no value, or
/// more than one, is refused with the values that are allowed.
pub fn resolve_choice(choices: &Vec<Choice>, field: &str, input: &str) -> (r: Result<
    String,
    NboxError,
>)
    ensures
        match r {
            Ok(v) => resolves_to(choices@, input@, v@),
            Err(e) => {
                &&& forall|v: Text| !resolves_to(choices@, input@, v)
                &&& e is Usage
                &&& e->Usage_0@ == refusal_text(choices@, field@, input@)
            },
        },
{
    if has_value(choices, input) {
        return Ok(input.to_owned());
    }
    match only_meant(choices, input) {
        Some(v) => Ok(v),
        None => {
            let all = values_of(choices);
            let list = join(&all, ", ");
            let tail = crate::text::cat2("\" — allowed values: ", list.as_str());
            Err(NboxError::Usage(cat5("invalid ", field, " \"", input, tail.as_str())))
        },
    }
}

/// What was typed resolves to one value at most.
pub proof fn one_value_is_meant(choices: Seq<Choice>, input: Text, a: Text, b: Text)
    requires
        resolves_to(choices, input, a),
        resolves_to(choices, input, b),
    ensures
        a == b,
{
}

/// What was typed is taken as it is when it is one of the values; else it stands for the
/// one value that it names, by value or by label, regardless of case. What names no
/// value, or two different ones, resolves to nothing.
pub proof fn choices_resolve_to_what_is_meant(
    choices: Seq<Choice>,
    input: Text,
    value: Text,
    i: int,
    j: int,
)
    ensures
        (exists|k: int| 0 <= k < choices.len() && (#[trigger] choices[k]).value@ == input) ==> (
        resolves_to(choices, input, value) <==> value == input),
        ({
            &&& forall|k: int| 0 <= k < choices.len() ==> (#[trigger] choices[k]).value@ != input
            &&& 0 <= i < choices.len()
            &&& same_folded(choices[i].value@, input) || same_folded(choices[i].label@, input)
            &&& forall|k: int|
                0 <= k < choices.len() && choices[k].value@ != choices[i].value@ ==> !same_folded(
                    (#[trigger] choices[k]).value@,
                    input,
                ) && !same_folded(choices[k].label@, input)
        }) ==> (resolves_to(choices, input, value) <==> value == choices[i].value@),
        ({
            &&& forall|k: int| 0 <= k < choices.len() ==> (#[trigger] choices[k]).value@ != input
            &&& 0 <= i < choices.len() && 0 <= j < choices.len()
            &&& choices[i].value@ != choices[j].value@
            &&& same_folded(choices[i].value@, input) || same_folded(choices[i].label@, input)
            &&& same_folded(choices[j].value@, input) || same_folded(choices[j].label@, input)
        }) ==> !resolves_to(choices, input, value),
        (forall|k: int|
            0 <= k < choices.len() ==> (#[trigger] choices[k]).value@ != input && !same_folded(
                choices[k].value@,
                input,
            ) && !same_folded(choices[k].label@, input)) ==> !resolves_to(choices, input, value),
{
    let all = values(choices);
    assert(all.contains(input) <==> exists|k: int|
        0 <= k < choices.len() && (#[trigger] choices[k]).value@ == input) by {
        if all.contains(input) {
            let k = choose|k: int| 0 <= k < all.len() && all[k] == input;
            assert(choices[k].value@ == input);
        }
        if exists|k: int| 0 <= k < choices.len() && (#[trigger] choices[k]).value@ == input {
            let k = choose|k: int| 0 <= k < choices.len() && (#[trigger] choices[k]).value@ == input;
            assert(all[k] == input);
        }
    }
    if 0 <= i < choices.len() {
        assert(meant(choices[i], input) == (same_folded(choices[i].value@, input) || same_folded(
            choices[i].label@,
            input,
        )));
    }
    if 0 <= j < choices.len() {
        assert(meant(choices[j], input) == (same_folded(choices[j].value@, input) || same_folded(
            choices[j].label@,
            input,
        )));
    }
}

/// What is refused is answered with the values that are allowed, in order.
pub proof fn refusals_list_the_values(choices: Seq<Choice>, field: Text, input: Text)
    ensures
        refusal_text(choices, field, input) == "invalid "@ + field + " \""@ + input + (
        "\" — allowed values: "@ + joined(
            Seq::new(choices.len(), |k: int| choices[k].value@),
            ", "@,
        )),
{
    assert(values(choices) =~= Seq::new(choices.len(), |k: int| choices[k].value@));
}

} // verus!
