use vstd::prelude::*;

verus! {

/// `serde_json::Value`: a JSON document in memory.
#[verifier::external_type_specification]
#[verifier::external_body]
pub struct ExValue(serde_json::Value);

/// `serde_json::Error`: why a text is not a JSON document.
#[verifier::external_type_specification]
#[verifier::external_body]
pub struct ExError(serde_json::Error);

/// What a JSON value holds, as far as this library reads it: numbers are
/// told apart from the rest but not from each other.
pub enum JsonView {
    Null,
    Bool(bool),
    Number,
    Text(Seq<char>),
    Array(Seq<JsonView>),
    Object(Map<Seq<char>, JsonView>),
}

impl JsonView {
    /// The member called `key` of an object that has one; null for an
    /// object without it and for a value that is no object.
    pub open spec fn member(self, key: Seq<char>) -> JsonView {
        match self {
            JsonView::Object(members) => if members.dom().contains(key) {
                members[key]
            } else {
                JsonView::Null
            },
            _ => JsonView::Null,
        }
    }

    /// The item at `index` of an array that has one; null for an array too
    /// short and for a value that is no array.
    pub open spec fn item(self, index: int) -> JsonView {
        match self {
            JsonView::Array(items) => if 0 <= index < items.len() {
                items[index]
            } else {
                JsonView::Null
            },
            _ => JsonView::Null,
        }
    }

    /// The text of a value that is a string.
    pub open spec fn text(self) -> Option<Seq<char>> {
        match self {
            JsonView::Text(text) => Some(text),
            _ => None,
        }
    }
}

/// What a `serde_json::Value` holds.
pub uninterp spec fn json_view(value: serde_json::Value) -> JsonView;

/// The document that `serde_json::from_str` reads from `text`, where it
/// reads one.
pub uninterp spec fn json_parse(text: Seq<char>) -> Option<JsonView>;

/// `serde_json::from_str` for a `serde_json::Value`. What it reads depends
/// on the text alone; this library does not say which texts are documents.
#[verifier::external_body]
pub(crate) fn parse_json(text: &str) -> (document: Result<serde_json::Value, serde_json::Error>)
    ensures
        match document {
            Ok(value) => json_parse(text@) == Some(json_view(value)),
            Err(_) => json_parse(text@) is None,
        },
{
    serde_json::from_str::<serde_json::Value>(text)
}

/// Indexing a `serde_json::Value` by a string: the member of that name, or
/// null where the value is no object or has no such member.
#[verifier::external_body]
pub(crate) fn json_member<'a>(value: &'a serde_json::Value, key: &str) -> (member:
    &'a serde_json::Value)
    ensures
        json_view(*member) == json_view(*value).member(key@),
{
    &value[key]
}

/// Indexing a `serde_json::Value` by a number: the item at that position, or
/// null where the value is no array or is too short.
#[verifier::external_body]
pub(crate) fn json_item<'a>(value: &'a serde_json::Value, index: usize) -> (item:
    &'a serde_json::Value)
    ensures
        json_view(*item) == json_view(*value).item(index as int),
{
    &value[index]
}

/// `serde_json::Value::as_str`: the text of a value that is a string, and
/// nothing for any other value.
#[verifier::external_body]
pub(crate) fn json_text<'a>(value: &'a serde_json::Value) -> (text: Option<&'a str>)
    ensures
        match text {
            Some(t) => json_view(*value).text() == Some(t@),
            None => json_view(*value).text() is None,
        },
{
    value.as_str()
}

} // verus!
