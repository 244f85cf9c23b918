//! Editable TOML documents, as `toml_edit` keeps them.
//!
//! A document is modelled by everything that its text depends on: the items of its
//! tables, their order and spelling, and the whitespace and comments around them.

use vstd::prelude::*;

use crate::text::{opt_str, Text};

verus! {

/// `toml_edit::DocumentMut`, carried as it is.
#[verifier::external_type_specification]
#[verifier::external_body]
pub struct ExDocumentMut(toml_edit::DocumentMut);

/// `toml_edit::Table`, carried as it is.
#[verifier::external_type_specification]
#[verifier::external_body]
pub struct ExTable(toml_edit::Table);

/// `toml_edit::Item`, carried as it is.
#[verifier::external_type_specification]
#[verifier::external_body]
pub struct ExItem(toml_edit::Item);

// ===== Documents as values ===============================================

/// The whitespace and comments around something; what is not set is printed as
/// the printer sees fit.
#[verifier::ext_equal]
pub struct Decor {
    pub before: Option<Text>,
    pub behind: Option<Text>,
}

impl Decor {
    /// Nothing set.
    pub open spec fn unset() -> Decor {
        Decor { before: None, behind: None }
    }
}

/// How a key is written: its spelling, when it has one of its own, what stands
/// around it on its line, and what stands around it between dots.
#[verifier::ext_equal]
pub struct KeyForm {
    pub spelling: Option<Text>,
    pub line: Decor,
    pub dots: Decor,
}

impl KeyForm {
    /// A key that was not read from a file.
    pub open spec fn unset() -> KeyForm {
        KeyForm { spelling: None, line: Decor::unset(), dots: Decor::unset() }
    }
}

/// Keys in order, each with how it is written.
pub type Layout = Seq<(Seq<char>, KeyForm)>;

/// An item: nothing, a table, or anything else. That is written out with all that
/// is in it, its spelling, whitespace and comments among it, so that items that
/// differ in anything are written out differently.
#[verifier::ext_equal]
pub enum Node {
    Nothing,
    Table(Items),
    Leaf(Seq<char>),
}

/// What a table holds and how it is laid out.
#[verifier::ext_equal]
pub struct Items {
    pub held: Map<Seq<char>, Node>,
    pub layout: Layout,
    /// What stands around the header.
    pub heading: Decor,
    /// Whether the header goes unprinted while there are no values under it.
    pub implicit: bool,
    /// Whether the table stands for dotted keys and has no header.
    pub dotted: bool,
    /// Where among the tables of the document it is printed.
    pub place: Option<int>,
}

/// A document: its root, and the whitespace and comments at its end.
#[verifier::ext_equal]
pub struct Document {
    pub root: Node,
    pub tail: Text,
}

/// A document as a value.
pub uninterp spec fn document_view(doc: toml_edit::DocumentMut) -> Document;

/// A table as a value.
pub uninterp spec fn table_view(table: toml_edit::Table) -> Items;

/// An item as a value.
pub uninterp spec fn item_view(item: toml_edit::Item) -> Node;

/// What a text reads as: a document, or what is wrong with the text.
pub uninterp spec fn parsed(text: Seq<char>) -> Result<Document, Seq<char>>;

/// The text of a document.
pub uninterp spec fn printed(doc: Document) -> Seq<char>;

/// The string that an item written out is, as `Item::as_str` gives it.
pub uninterp spec fn leaf_text(leaf: Seq<char>) -> Option<Seq<char>>;

/// The whole number that an item written out is, as `Item::as_integer` gives it.
pub uninterp spec fn leaf_int(leaf: Seq<char>) -> Option<i64>;

/// The truth value that an item written out is, as `Item::as_bool` gives it.
pub uninterp spec fn leaf_flag(leaf: Seq<char>) -> Option<bool>;

/// A new string item, written out.
pub uninterp spec fn text_leaf(text: Seq<char>) -> Seq<char>;

/// A new whole number item, written out.
pub uninterp spec fn int_leaf(n: i64) -> Seq<char>;

/// A new truth value item, written out.
pub uninterp spec fn flag_leaf(b: bool) -> Seq<char>;

// ===== Tables as values ==================================================

/// A layout without a key.
pub open spec fn without(layout: Layout, key: Text) -> Layout
    decreases layout.len(),
{
    if layout.len() == 0 {
        layout
    } else {
        let rest = without(layout.drop_last(), key);
        if layout.last().0 == key {
            rest
        } else {
            rest.push(layout.last())
        }
    }
}

impl Items {
    /// A new table.
    pub open spec fn empty(implicit: bool) -> Items {
        Items {
            held: Map::empty(),
            layout: Seq::empty(),
            heading: Decor::unset(),
            implicit,
            dotted: false,
            place: None,
        }
    }

    /// Whether there is an item under a key.
    pub open spec fn contains_key(self, key: Text) -> bool {
        self.held.contains_key(key)
    }

    /// The item under a key.
    pub open spec fn spec_index(self, key: Text) -> Node {
        self.held[key]
    }

    /// With an item under a key. A key that is there keeps its place and its
    /// comments; a new one comes last, without any.
    pub open spec fn insert(self, key: Text, item: Node) -> Items {
        Items {
            held: self.held.insert(key, item),
            layout: if self.held.contains_key(key) {
                self.layout
            } else {
                self.layout.push((key, KeyForm::unset()))
            },
            ..self
        }
    }

    /// Without a key. The others keep their places and their comments.
    pub open spec fn remove(self, key: Text) -> Items {
        Items { held: self.held.remove(key), layout: without(self.layout, key), ..self }
    }
}

impl Document {
    /// A document without items.
    pub open spec fn empty() -> Document {
        Document {
            root: Node::Table(Items { place: Some(0), ..Items::empty(false) }),
            tail: Seq::empty(),
        }
    }
}

/// The string that an item is.
pub open spec fn node_text(item: Node) -> Option<Text> {
    match item {
        Node::Leaf(leaf) => leaf_text(leaf),
        _ => None,
    }
}

/// The whole number that an item is.
pub open spec fn node_int(item: Node) -> Option<i64> {
    match item {
        Node::Leaf(leaf) => leaf_int(leaf),
        _ => None,
    }
}

/// The truth value that an item is.
pub open spec fn node_flag(item: Node) -> Option<bool> {
    match item {
        Node::Leaf(leaf) => leaf_flag(leaf),
        _ => None,
    }
}

/// Taking a key out twice is taking it out once.
pub proof fn without_twice(layout: Layout, key: Text)
    ensures
        without(without(layout, key), key) == without(layout, key),
    decreases layout.len(),
{
    if layout.len() > 0 {
        let rest = without(layout.drop_last(), key);
        without_twice(layout.drop_last(), key);
        assert(rest.push(layout.last()).drop_last() =~= rest);
    }
}

/// Taking out a key that was just appended gives back the rest.
pub proof fn without_appended(layout: Layout, key: Text, form: KeyForm)
    ensures
        without(layout.push((key, form)), key) == without(layout, key),
{
    assert(layout.push((key, form)).drop_last() =~= layout);
}

// ===== Reading and printing ==============================================

/// `DocumentMut::from_str`. What comes of it depends on the text alone: the order
/// of the items, too, is that of the text. The root of a document that was read is
/// a table.
#[verifier::external_body]
pub(crate) fn parse_document(text: &str) -> (r: Result<toml_edit::DocumentMut, String>)
    ensures
        match r {
            Ok(doc) => {
                &&& parsed(text@) is Ok
                &&& parsed(text@)->Ok_0 == document_view(doc)
                &&& document_view(doc).root is Table
            },
            Err(e) => parsed(text@) is Err && parsed(text@)->Err_0 == e@,
        },
{
    text.parse::<toml_edit::DocumentMut>().map_err(|e| e.to_string())
}

/// `DocumentMut::new`: a document without items, with nothing behind it.
#[verifier::external_body]
pub(crate) fn new_document() -> (r: toml_edit::DocumentMut)
    ensures
        document_view(r) == Document::empty(),
{
    toml_edit::DocumentMut::new()
}

/// `DocumentMut`'s `Display`, for a document whose root is a table. The text
/// depends on nothing but the document as a value: its tables come by their places,
/// and what is in one in the order of its layout.
#[verifier::external_body]
pub(crate) fn print_document(doc: &toml_edit::DocumentMut) -> (r: String)
    requires
        document_view(*doc).root is Table,
    ensures
        r@ == printed(document_view(*doc)),
{
    doc.to_string()
}

/// `DocumentMut::as_item`: the root item.
#[verifier::external_body]
pub(crate) fn root_item(doc: &toml_edit::DocumentMut) -> (r: &toml_edit::Item)
    ensures
        item_view(*r) == document_view(*doc).root,
{
    doc.as_item()
}

/// `DocumentMut::as_item_mut`: the root item, to change. The end of the document
/// stays.
#[verifier::external_body]
pub(crate) fn root_item_mut(doc: &mut toml_edit::DocumentMut) -> (r: &mut toml_edit::Item)
    ensures
        item_view(*r) == document_view(*old(doc)).root,
        document_view(*final(doc)) == (Document {
            root: item_view(*final(r)),
            tail: document_view(*old(doc)).tail,
        }),
{
    doc.as_item_mut()
}

// ===== Items =============================================================

/// `Item::as_table`.
#[verifier::external_body]
pub(crate) fn as_table(item: &toml_edit::Item) -> (r: Option<&toml_edit::Table>)
    ensures
        match r {
            Some(t) => item_view(*item) == Node::Table(table_view(*t)),
            None => !(item_view(*item) is Table),
        },
{
    item.as_table()
}

/// `Item::as_table_mut`: the table that an item is, to change; the item stays a
/// table. An item that is none is left as it is.
#[verifier::external_body]
pub(crate) fn as_table_mut(item: &mut toml_edit::Item) -> (r: Option<&mut toml_edit::Table>)
    ensures
        match r {
            Some(t) => {
                &&& item_view(*old(item)) == Node::Table(table_view(*t))
                &&& item_view(*final(item)) == Node::Table(table_view(*final(t)))
            },
            None => !(item_view(*old(item)) is Table) && *final(item) == *old(item),
        },
{
    item.as_table_mut()
}

/// `Item::as_str`: the string that an item is, which no table is.
#[verifier::external_body]
pub(crate) fn as_str(item: &toml_edit::Item) -> (r: Option<&str>)
    ensures
        opt_str(r) == node_text(item_view(*item)),
{
    item.as_str()
}

/// `toml_edit::value` of a string, which reads back as it.
#[verifier::external_body]
pub(crate) fn text_item(s: &str) -> (r: toml_edit::Item)
    ensures
        item_view(r) == Node::Leaf(text_leaf(s@)),
        leaf_text(item_view(r)->Leaf_0) == Some(s@),
{
    toml_edit::value(s)
}

/// `toml_edit::value` of a whole number, which reads back as it.
#[verifier::external_body]
pub(crate) fn int_item(n: i64) -> (r: toml_edit::Item)
    ensures
        item_view(r) == Node::Leaf(int_leaf(n)),
        leaf_int(item_view(r)->Leaf_0) == Some(n),
{
    toml_edit::value(n)
}

/// `toml_edit::value` of a truth value, which reads back as it.
#[verifier::external_body]
pub(crate) fn flag_item(b: bool) -> (r: toml_edit::Item)
    ensures
        item_view(r) == Node::Leaf(flag_leaf(b)),
        leaf_flag(item_view(r)->Leaf_0) == Some(b),
{
    toml_edit::value(b)
}

/// `toml_edit::table`: a new table without items, keys or comments.
#[verifier::external_body]
pub(crate) fn new_table() -> (r: toml_edit::Item)
    ensures
        item_view(r) == Node::Table(Items::empty(false)),
{
    toml_edit::table()
}

// ===== Tables ============================================================

/// `Table::set_implicit`: says whether a table without values of its own goes
/// unprinted. Its items and its layout stay.
#[verifier::external_body]
pub(crate) fn set_implicit(table: &mut toml_edit::Table, implicit: bool)
    ensures
        table_view(*final(table)) == (Items { implicit, ..table_view(*old(table)) }),
{
    table.set_implicit(implicit)
}

/// `Table::get`: the item under a key; one that is nothing counts as absent.
#[verifier::external_body]
pub(crate) fn get<'a>(table: &'a toml_edit::Table, key: &str) -> (r: Option<&'a toml_edit::Item>)
    ensures
        match r {
            Some(i) => {
                &&& table_view(*table).contains_key(key@)
                &&& table_view(*table)[key@] == item_view(*i)
                &&& !(item_view(*i) is Nothing)
            },
            None => !table_view(*table).contains_key(key@) || table_view(*table)[key@] is Nothing,
        },
{
    table.get(key)
}

/// `Table::get_mut`: the item under a key, to change; one that is nothing counts
/// as absent. The layout stays.
#[verifier::external_body]
pub(crate) fn get_mut<'a>(table: &'a mut toml_edit::Table, key: &str) -> (r: Option<
    &'a mut toml_edit::Item,
>)
    ensures
        match r {
            Some(i) => {
                &&& table_view(*old(table)).contains_key(key@)
                &&& table_view(*old(table))[key@] == item_view(*i)
                &&& !(item_view(*i) is Nothing)
                &&& table_view(*final(table)) == table_view(*old(table)).insert(
                    key@,
                    item_view(*final(i)),
                )
            },
            None => {
                &&& !table_view(*old(table)).contains_key(key@) || table_view(
                    *old(table),
                )[key@] is Nothing
                &&& *final(table) == *old(table)
            },
        },
{
    table.get_mut(key)
}

/// `Table::entry`, then `Entry::or_insert`: the item under a key, to change; a
/// default is put there first when the key is absent. A new key comes last and
/// without comments; all others stay where they are.
#[verifier::external_body]
pub(crate) fn entry_or<'a>(
    table: &'a mut toml_edit::Table,
    key: &str,
    default: toml_edit::Item,
) -> (r: &'a mut toml_edit::Item)
    ensures
        item_view(*r) == if table_view(*old(table)).contains_key(key@) {
            table_view(*old(table))[key@]
        } else {
            item_view(default)
        },
        table_view(*final(table)) == table_view(*old(table)).insert(key@, item_view(*final(r))),
{
    table.entry(key).or_insert(default)
}

/// `Table`'s `IndexMut`, assigned to: the item under a key is replaced, or added
/// as the last one and without comments. All other keys stay where they are.
#[verifier::external_body]
pub(crate) fn set_item(table: &mut toml_edit::Table, key: &str, item: toml_edit::Item)
    ensures
        table_view(*final(table)) == table_view(*old(table)).insert(key@, item_view(item)),
{
    table[key] = item;
}

/// `Table::remove`: the item under a key is taken out. The others keep their order
/// and their comments.
#[verifier::external_body]
pub(crate) fn remove(table: &mut toml_edit::Table, key: &str) -> (r: Option<toml_edit::Item>)
    ensures
        match r {
            Some(i) => table_view(*old(table)).contains_key(key@) && table_view(*old(table))[key@]
                == item_view(i),
            None => !table_view(*old(table)).contains_key(key@),
        },
        table_view(*final(table)) == table_view(*old(table)).remove(key@),
{
    table.remove(key)
}

/// The keys of the items that are something.
pub open spec fn real_keys(items: Items) -> Set<Text> {
    Set::new(|key: Text| items.contains_key(key) && !(items[key] is Nothing))
}

/// Whether a table has this many items that are something: their keys can be
/// listed, each once.
pub open spec fn has_count(items: Items, n: nat) -> bool {
    exists|keys: Seq<Text>|
        keys.no_duplicates() && keys.len() == n && #[trigger] keys.to_set() == real_keys(items)
}

/// The keys of a table that has a count are as many as that says.
pub proof fn counted_keys(items: Items, n: nat)
    requires
        has_count(items, n),
    ensures
        real_keys(items).finite(),
        real_keys(items).len() == n,
        n == 0 <==> real_keys(items) == Set::<Text>::empty(),
{
    let keys = choose|keys: Seq<Text>|
        keys.no_duplicates() && keys.len() == n && #[trigger] keys.to_set() == real_keys(items);
    keys.unique_seq_to_set();
    vstd::seq_lib::seq_to_set_is_finite(keys);
    if n == 0 {
        assert(real_keys(items) =~= Set::empty());
    }
}

/// `Table::len`: how many items are something.
#[verifier::external_body]
pub(crate) fn len(table: &toml_edit::Table) -> (r: usize)
    ensures
        has_count(table_view(*table), r as nat),
{
    table.len()
}

/// Taking a key out of a layout leaves the other keys in their order and form.
pub proof fn other_keys_keep_their_place(front: Layout, x: (Text, KeyForm), key: Text)
    ensures
        x.0 == key ==> without(front.push(x), key) == without(front, key),
        x.0 != key ==> without(front.push(x), key) == without(front, key).push(x),
        without(Seq::empty(), key).len() == 0,
{
    assert(front.push(x).drop_last() =~= front);
}

/// What is put under a key is held there and nothing else changes; a new key comes last.
/// What is taken out is gone, and nothing else is.
pub proof fn items_change_at_their_key(items: Items, key: Text, item: Node, other: Text)
    requires
        other != key,
    ensures
        items.insert(key, item).contains_key(key) && items.insert(key, item)[key] == item,
        items.insert(key, item).contains_key(other) == items.contains_key(other),
        items.contains_key(other) ==> items.insert(key, item)[other] == items[other],
        !items.contains_key(key) ==> items.insert(key, item).layout == items.layout.push(
            (key, KeyForm::unset()),
        ),
        items.contains_key(key) ==> items.insert(key, item).layout == items.layout,
        !items.remove(key).contains_key(key),
        items.remove(key).contains_key(other) == items.contains_key(other),
        items.contains_key(other) ==> items.remove(key)[other] == items[other],
        items.insert(key, item).heading == items.heading && items.remove(key).heading
            == items.heading,
{
}

} // verus!
