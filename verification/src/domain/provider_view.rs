//! Provider view: the fields shown and the rows they make.

use vstd::prelude::*;

use crate::domain::custom::{append, field_rows, fields, shown_fields};
use crate::domain::util::{keep_text, kept_count, kept_text, non_zero};
use crate::json::Member;
use crate::netbox::models::{slugs, slugs_of, Provider, ProviderAccount, ProviderAsn};
use crate::number::{decimal, decimal_text};
use crate::output::{count_row, list_row, no_rows, opt_row, row, KeyValues, Row};
use crate::text::{cat2, opt_text, texts, Text};

verus! {

/// A provider, flattened for display.
#[derive(Debug)]
pub struct ProviderView {
    pub id: u64,
    pub name: String,
    pub slug: String,
    pub asns: Vec<u32>,
    pub accounts: Vec<String>,
    pub description: Option<String>,
    pub circuit_count: Option<u64>,
    pub tags: Vec<String>,
    pub custom_fields: Vec<Member>,
}

/// The AS numbers of a provider.
pub open spec fn asn_numbers(asns: Seq<ProviderAsn>) -> Seq<u32> {
    Seq::new(asns.len(), |i: int| asns[i].asn)
}

/// The labels of a provider's accounts.
pub open spec fn account_labels(accounts: Seq<ProviderAccount>) -> Seq<Text> {
    Seq::new(accounts.len(), |i: int| accounts[i].label_text())
}

/// AS numbers as they are written, `AS65000`.
pub open spec fn asn_names(asns: Seq<u32>) -> Seq<Text> {
    Seq::new(asns.len(), |i: int| "AS"@ + decimal_text(asns[i] as nat))
}

fn numbers_of(asns: &Vec<ProviderAsn>) -> (r: Vec<u32>)
    ensures
        r@ == asn_numbers(asns@),
{
    let mut out: Vec<u32> = Vec::new();
    let mut i: usize = 0;
    while i < asns.len()
        invariant
            i <= asns.len(),
            out@ == asn_numbers(asns@).take(i as int),
        decreases asns.len() - i,
    {
        out.push(asns[i].asn);
        proof {
            assert(asn_numbers(asns@).take(i as int + 1) =~= asn_numbers(asns@).take(i as int).push(
                asns@[i as int].asn,
            ));
        }
        i = i + 1;
    }
    proof {
        assert(asn_numbers(asns@).take(i as int) =~= asn_numbers(asns@));
    }
    out
}

fn accounts_of(accounts: &Vec<ProviderAccount>) -> (r: Vec<String>)
    ensures
        texts(r@) == account_labels(accounts@),
{
    let mut out: Vec<String> = Vec::new();
    let mut i: usize = 0;
    while i < accounts.len()
        invariant
            i <= accounts.len(),
            out.len() == i,
            forall|j: int| 0 <= j < i ==> (#[trigger] out@[j])@ == accounts@[j].label_text(),
        decreases accounts.len() - i,
    {
        out.push(accounts[i].label());
        i = i + 1;
    }
    proof {
        assert(texts(out@) =~= account_labels(accounts@));
    }
    out
}

fn names_of(asns: &Vec<u32>) -> (r: Vec<String>)
    ensures
        texts(r@) == asn_names(asns@),
{
    let mut out: Vec<String> = Vec::new();
    let mut i: usize = 0;
    while i < asns.len()
        invariant
            i <= asns.len(),
            out.len() == i,
            forall|j: int|
                0 <= j < i ==> (#[trigger] out@[j])@ == "AS"@ + decimal_text(asns@[j] as nat),
        decreases asns.len() - i,
    {
        let n = decimal(asns[i] as u64);
        out.push(cat2("AS", n.as_str()));
        i = i + 1;
    }
    proof {
        assert(texts(out@) =~= asn_names(asns@));
    }
    out
}

impl ProviderView {
    /// Flattens a provider.
    pub fn from_model(p: Provider) -> (r: Self)
        ensures
            r.id == p.id,
            r.name == p.name,
            r.slug == p.slug,
            r.asns@ == asn_numbers(p.asns@),
            texts(r.accounts@) == account_labels(p.accounts@),
            opt_text(r.description) == kept_text(p.description),
            r.circuit_count == kept_count(p.circuit_count),
            texts(r.tags@) == slugs(p.tags@),
            r.custom_fields@ == shown_fields(p.custom_fields),
            r.rows() == Self::rows_of(p),
    {
        proof {
            reveal(ProviderView::rows);
            reveal(ProviderView::rows_of);
        }
        ProviderView {
            id: p.id,
            name: p.name,
            slug: p.slug,
            asns: numbers_of(&p.asns),
            accounts: accounts_of(&p.accounts),
            description: keep_text(p.description),
            circuit_count: non_zero(p.circuit_count),
            tags: slugs_of(&p.tags),
            custom_fields: fields(p.custom_fields),
        }
    }

    /// The rows shown, in order.
    #[verifier::opaque]
    pub open spec fn rows(self) -> Seq<Row> {
        no_rows()
            + row("name"@, self.name@)
            + row("slug"@, self.slug@)
            + list_row("asns"@, asn_names(self.asns@))
            + list_row("accounts"@, texts(self.accounts@))
            + opt_row("description"@, opt_text(self.description))
            + count_row("circuit_count"@, self.circuit_count)
            + list_row("tags"@, texts(self.tags@))
            + field_rows(self.custom_fields@)
    }

    /// The rows shown of a provider.
    #[verifier::opaque]
    pub open spec fn rows_of(p: Provider) -> Seq<Row> {
        no_rows()
            + row("name"@, p.name@)
            + row("slug"@, p.slug@)
            + list_row("asns"@, asn_names(asn_numbers(p.asns@)))
            + list_row("accounts"@, account_labels(p.accounts@))
            + opt_row("description"@, kept_text(p.description))
            + count_row("circuit_count"@, kept_count(p.circuit_count))
            + list_row("tags"@, slugs(p.tags@))
            + field_rows(shown_fields(p.custom_fields))
    }

    /// Renders the view as rows.
    pub fn to_key_values(&self) -> (r: KeyValues)
        ensures
            r@ == self.rows(),
    {
        proof {
            reveal(ProviderView::rows);
        }
        let mut kv = KeyValues::new();
        kv.push("name", self.name.as_str());
        kv.push("slug", self.slug.as_str());
        let names = names_of(&self.asns);
        kv.push_list("asns", &names);
        kv.push_list("accounts", &self.accounts);
        kv.push_opt("description", &self.description);
        kv.push_count("circuit_count", self.circuit_count);
        kv.push_list("tags", &self.tags);
        append(&mut kv, &self.custom_fields);
        kv
    }
}

/// The rows of a provider: each field that is set is shown under its own key and with
/// its own value, and nothing else is shown.
pub proof fn provider_rows_show_the_fields(p: Provider, k: Text, v: Text)
    ensures
        ProviderView::rows_of(p).contains((k, v)) <==> {
            ||| (k == "name"@ && v == p.name@)
            ||| (k == "slug"@ && v == p.slug@)
            ||| (asn_names(asn_numbers(p.asns@)).len() > 0 && k == "asns"@
                && v == crate::text::joined(asn_names(asn_numbers(p.asns@)), ", "@))
            ||| (account_labels(p.accounts@).len() > 0 && k == "accounts"@
                && v == crate::text::joined(account_labels(p.accounts@), ", "@))
            ||| (p.description is Some && p.description->0@.len() > 0 && k == "description"@
                && v == p.description->0@)
            ||| (p.circuit_count is Some && p.circuit_count->0 > 0 && k == "circuit_count"@
                && v == crate::number::decimal_text(p.circuit_count->0 as nat))
            ||| (slugs(p.tags@).len() > 0 && k == "tags"@
                && v == crate::text::joined(slugs(p.tags@), ", "@))
            ||| {
                &&& p.custom_fields is Object
                &&& exists|m: crate::json::Member|
                    {
                        &&& #[trigger] p.custom_fields->members@.contains(m)
                        &&& !(m.value is Null)
                        &&& !(m.value is Text && m.value->Text_0@.len() == 0)
                        &&& k == "cf."@ + m.name@
                        &&& v == crate::domain::custom::shown_value(m.value)
                    }
            }
        },
{
    reveal(ProviderView::rows_of);
    crate::output::rows_are_found_where_they_were_put();
    crate::domain::custom::custom_fields_have_rows(p.custom_fields, k, v);
}

/// A provider's AS numbers and accounts are named one by one, in order: a number behind
/// `AS`, an account by its display text, its name, its number, or its id.
pub proof fn providers_name_numbers_and_accounts(p: Provider, i: int)
    ensures
        asn_names(asn_numbers(p.asns@)).len() == p.asns@.len(),
        0 <= i < p.asns@.len() ==> asn_names(asn_numbers(p.asns@))[i] == "AS"@ + decimal_text(
            p.asns@[i].asn as nat,
        ),
        account_labels(p.accounts@).len() == p.accounts@.len(),
        0 <= i < p.accounts@.len() ==> {
            let a = p.accounts@[i];
            let label = account_labels(p.accounts@)[i];
            &&& a.display is Some && a.display->0@.len() > 0 ==> label == a.display->0@
            &&& (a.display is None || a.display->0@.len() == 0) && a.name is Some
                && a.name->0@.len() > 0 ==> label == a.name->0@
            &&& a.display is None && a.name is None && a.account is Some && a.account->0@.len() > 0
                ==> label == a.account->0@
            &&& a.display is None && a.name is None && a.account is None ==> label == "#"@
                + decimal_text(a.id as nat)
        },
{
}

} // verus!
