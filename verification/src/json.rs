//! JSON documents, read and written by `serde_json`, and the mathematical
//! tree that contracts speak of.

use vstd::prelude::*;
use crate::options::chars_of;

verus! {

/// `serde_json::Value`, of which Verus sees nothing but the name.
#[verifier::external_type_specification]
#[verifier::external_body]
pub struct ExValue(serde_json::Value);

/// A JSON value as a mathematical tree. The members of an object keep the
/// order in which they are written, and no two of them have the same key.
pub enum JsonTree {
    Null,
    Bool(bool),
    /// A number without fraction or exponent.
    Integer(int),
    /// Any other number, by its decimal text.
    Real(Seq<char>),
    Text(Seq<char>),
    Array(Seq<JsonTree>),
    Object(Seq<(Seq<char>, JsonTree)>),
}

/// Whether `index` is the position of the first member of `members` with the key `key`.
pub open spec fn is_member_index(
    members: Seq<(Seq<char>, JsonTree)>,
    key: Seq<char>,
    index: int,
) -> bool {
    &&& 0 <= index < members.len()
    &&& members[index].0 == key
    &&& forall|j: int| 0 <= j < index ==> (#[trigger] members[j]).0 != key
}

/// Whether the keys of `members` differ from one another.
pub open spec fn distinct_keys(members: Seq<(Seq<char>, JsonTree)>) -> bool {
    forall|i: int, j: int|
        0 <= i < j < members.len() ==> (#[trigger] members[i]).0 != (#[trigger] members[j]).0
}

impl JsonTree {
    /// The member with the key `key`, if this is an object that has one.
    pub open spec fn field(self, key: Seq<char>) -> Option<JsonTree> {
        match self {
            JsonTree::Object(members) => {
                if exists|i: int| is_member_index(members, key, i) {
                    Some(members[choose|i: int| is_member_index(members, key, i)].1)
                } else {
                    None
                }
            },
            _ => None,
        }
    }

    /// The number, if this is an integer that a signed 64-bit integer holds.
    pub open spec fn as_i64(self) -> Option<i64> {
        match self {
            JsonTree::Integer(n) => if i64::MIN <= n <= i64::MAX {
                Some(n as i64)
            } else {
                None
            },
            _ => None,
        }
    }

    /// The characters, if this is a string.
    pub open spec fn as_text(self) -> Option<Seq<char>> {
        match self {
            JsonTree::Text(text) => Some(text),
            _ => None,
        }
    }

    /// The items, if this is an array.
    pub open spec fn as_items(self) -> Option<Seq<JsonTree>> {
        match self {
            JsonTree::Array(items) => Some(items),
            _ => None,
        }
    }
}

/// The tree that a `serde_json::Value` holds.
pub uninterp spec fn json_tree(value: serde_json::Value) -> JsonTree;

/// The tree that `serde_json` reads from `text`, or `None` where it refuses the text.
pub uninterp spec fn json_reading(text: Seq<u8>) -> Option<JsonTree>;

/// The compact text that `serde_json` writes for `tree`.
pub uninterp spec fn json_writing(tree: JsonTree) -> Seq<char>;

/// The tree of a value that may be absent.
pub open spec fn tree_of(value: Option<serde_json::Value>) -> Option<JsonTree> {
    match value {
        Some(value) => Some(json_tree(value)),
        None => None,
    }
}

/// The tree of a borrowed value that may be absent.
pub open spec fn tree_of_ref(value: Option<&serde_json::Value>) -> Option<JsonTree> {
    match value {
        Some(value) => Some(json_tree(*value)),
        None => None,
    }
}

/// The trees of a list of values.
pub open spec fn item_trees(items: Seq<serde_json::Value>) -> Seq<JsonTree> {
    items.map_values(|item: serde_json::Value| json_tree(item))
}

/// The trees of a borrowed list of values that may be absent.
pub open spec fn item_trees_of(items: Option<&Vec<serde_json::Value>>) -> Option<Seq<JsonTree>> {
    match items {
        Some(items) => Some(item_trees(items@)),
        None => None,
    }
}

/// `serde_json::from_slice` at the type `Value`. What it reads depends on the
/// bytes alone; every error counts as a refusal.
#[verifier::external_body]
pub(crate) fn value_from_slice(text: &[u8]) -> (r: Option<serde_json::Value>)
    ensures
        tree_of(r) == json_reading(text@),
{
    serde_json::from_slice::<serde_json::Value>(text).ok()
}

/// `Value::get` with a string key: the member of that key where the value is
/// an object that has one, and nothing in every other case.
#[verifier::external_body]
pub(crate) fn value_get<'a>(value: &'a serde_json::Value, key: &str) -> (r: Option<
    &'a serde_json::Value,
>)
    ensures
        tree_of_ref(r) == json_tree(*value).field(key@),
{
    value.get(key)
}

/// `Value::as_i64`: the number where the value is an integer that `i64` holds.
#[verifier::external_body]
pub(crate) fn value_as_i64(value: &serde_json::Value) -> (r: Option<i64>)
    ensures
        r == json_tree(*value).as_i64(),
{
    value.as_i64()
}

/// `Value::as_str`: the characters where the value is a string.
#[verifier::external_body]
pub(crate) fn value_as_str<'a>(value: &'a serde_json::Value) -> (r: Option<&'a str>)
    ensures
        chars_of(r) == json_tree(*value).as_text(),
{
    value.as_str()
}

/// `Value::as_array`: the items where the value is an array.
#[verifier::external_body]
pub(crate) fn value_as_array<'a>(value: &'a serde_json::Value) -> (r: Option<
    &'a Vec<serde_json::Value>,
>)
    ensures
        item_trees_of(r) == json_tree(*value).as_items(),
{
    value.as_array()
}

/// `Value::from` on a `String`: the string value of those characters.
#[verifier::external_body]
pub(crate) fn value_from_string(text: String) -> (value: serde_json::Value)
    ensures
        json_tree(value) == JsonTree::Text(text@),
{
    serde_json::Value::from(text)
}

/// `Value::from` on an `i64`: the integer value of that number.
#[verifier::external_body]
pub(crate) fn value_from_i64(number: i64) -> (value: serde_json::Value)
    ensures
        json_tree(value) == JsonTree::Integer(number as int),
{
    serde_json::Value::from(number)
}

/// `Value::from` on a `Vec<Value>`: the array of those items, in their order.
#[verifier::external_body]
pub(crate) fn value_from_vec(items: Vec<serde_json::Value>) -> (value: serde_json::Value)
    ensures
        json_tree(value) == JsonTree::Array(item_trees(items@)),
{
    serde_json::Value::from(items)
}

/// The members that a list of keys and values stands for.
pub open spec fn member_trees(members: Seq<(String, serde_json::Value)>) -> Seq<
    (Seq<char>, JsonTree),
> {
    members.map_values(|member: (String, serde_json::Value)| (member.0@, json_tree(member.1)))
}

/// `Value::from_iter` on pairs of key and value: the object of those members.
/// With the crate's `preserve_order` feature the members stay in the order
/// given as long as no key comes twice, which `requires` leaves out.
#[verifier::external_body]
pub(crate) fn value_from_members(members: Vec<(String, serde_json::Value)>) -> (value:
    serde_json::Value)
    requires
        distinct_keys(member_trees(members@)),
    ensures
        json_tree(value) == JsonTree::Object(member_trees(members@)),
{
    members.into_iter().collect::<serde_json::Value>()
}

/// `serde_json::to_string` on a `Value`. Writing a `Value` into a string has
/// no failing case: its keys are strings and its own `Serialize` reports no
/// error. The text depends on the tree alone.
#[verifier::external_body]
pub(crate) fn value_to_string(value: &serde_json::Value) -> (text: String)
    ensures
        text@ == json_writing(json_tree(*value)),
{
    match serde_json::to_string(value) {
        Ok(text) => text,
        Err(_) => String::new(),
    }
}

/// A JSON document in memory.
pub struct Document {
    value: serde_json::Value,
}

impl View for Document {
    type V = JsonTree;

    closed spec fn view(&self) -> JsonTree {
        json_tree(self.value)
    }
}

/// The tree of a document that may be absent.
pub open spec fn document_tree(document: Option<Document>) -> Option<JsonTree> {
    match document {
        Some(document) => Some(document@),
        None => None,
    }
}

impl Document {
    /// Reads a document from JSON text; `None` where the text is refused.
    pub fn parse(text: &[u8]) -> (r: Option<Document>)
        ensures
            document_tree(r) == json_reading(text@),
    {
        match value_from_slice(text) {
            Some(value) => Some(Document { value }),
            None => None,
        }
    }

    /// Writes the document as compact JSON text.
    pub fn render(&self) -> (text: String)
        ensures
            text@ == json_writing(self@),
    {
        value_to_string(&self.value)
    }

    pub(crate) fn from_value(value: serde_json::Value) -> (document: Document)
        ensures
            document@ == json_tree(value),
    {
        Document { value }
    }

    pub(crate) fn value(&self) -> (value: &serde_json::Value)
        ensures
            json_tree(*value) == self@,
    {
        &self.value
    }
}

/// The member found at `index` is the one that `field` gives.
pub proof fn lemma_field_at(members: Seq<(Seq<char>, JsonTree)>, key: Seq<char>, index: int)
    requires
        is_member_index(members, key, index),
    ensures
        JsonTree::Object(members).field(key) == Some(members[index].1),
{
    let chosen = choose|i: int| is_member_index(members, key, i);
    assert(is_member_index(members, key, chosen));
    if chosen < index {
        assert(members[chosen].0 != key);
    } else if index < chosen {
        assert(members[index].0 != key);
    }
}

/// An object without a member of the key `key` gives no field for it.
pub proof fn lemma_field_absent(members: Seq<(Seq<char>, JsonTree)>, key: Seq<char>)
    requires
        forall|i: int| 0 <= i < members.len() ==> (#[trigger] members[i]).0 != key,
    ensures
        JsonTree::Object(members).field(key) is None,
{
}

} // verus!
