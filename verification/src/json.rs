//! A plain tree model of JSON documents, filled by `serde_json`.

use vstd::prelude::*;

verus! {

/// A JSON document as a tree of plain values.
///
/// Numbers keep their decimal text. The members of an object come in the
/// order in which the parser hands them out, each key once.
#[derive(Debug, PartialEq)]
pub enum JsonValue {
    Null,
    Bool(bool),
    Number(String),
    Text(String),
    Array(Vec<JsonValue>),
    Object(Vec<(String, JsonValue)>),
}

/// `serde_json::Value`, carried from the parser to `tree_of` unopened.
#[verifier::external_type_specification]
#[verifier::external_body]
pub struct ExSerdeValue(serde_json::Value);

/// The tree that a `serde_json::Value` stands for.
pub uninterp spec fn document_tree(document: serde_json::Value) -> JsonValue;

/// The tree that `serde_json` reads from a text, or `None` where it rejects
/// the text.
pub uninterp spec fn parsed_tree(text: Seq<char>) -> Option<JsonValue>;

/// Calls `serde_json::from_str` for a `serde_json::Value`.
///
/// Claims only that the outcome is the one that `parsed_tree` names for this
/// text: a document standing for that tree, or no document where the text is
/// rejected.
#[verifier::external_body]
fn read_document(text: &str) -> (r: Option<serde_json::Value>)
    ensures
        match r {
            Some(document) => parsed_tree(text@) == Some(document_tree(document)),
            None => parsed_tree(text@) is None,
        },
{
    serde_json::from_str::<serde_json::Value>(text).ok()
}

/// Takes a `serde_json::Value` apart, variant by variant, into a `JsonValue`.
///
/// Claims only that the result is the tree that `document_tree` names for the
/// document.
#[verifier::external_body]
fn tree_of(document: serde_json::Value) -> (r: JsonValue)
    ensures
        r == document_tree(document),
{
    match document {
        serde_json::Value::Null => JsonValue::Null,
        serde_json::Value::Bool(b) => JsonValue::Bool(b),
        serde_json::Value::Number(n) => JsonValue::Number(n.to_string()),
        serde_json::Value::String(s) => JsonValue::Text(s),
        serde_json::Value::Array(items) => JsonValue::Array(items.into_iter().map(tree_of).collect()),
        serde_json::Value::Object(m) => JsonValue::Object(
            m.into_iter().map(|(k, v)| (k, tree_of(v))).collect(),
        ),
    }
}

/// The value stored under `key` among `members`, searching from `from`.
pub open spec fn member_from(members: Seq<(String, JsonValue)>, key: Seq<char>, from: int) -> Option<
    JsonValue,
>
    decreases members.len() - from,
{
    if from < 0 || from >= members.len() {
        None
    } else if members[from].0@ == key {
        Some(members[from].1)
    } else {
        member_from(members, key, from + 1)
    }
}

impl JsonValue {
    /// The value of the member `key`, where `self` is an object that has one.
    pub open spec fn member_of(self, key: Seq<char>) -> Option<JsonValue> {
        match self {
            JsonValue::Object(members) => member_from(members@, key, 0),
            _ => None,
        }
    }

    /// The text of a string value.
    pub open spec fn text_of(self) -> Option<Seq<char>> {
        match self {
            JsonValue::Text(s) => Some(s@),
            _ => None,
        }
    }

    /// The items of an array value; no items for any other value.
    pub open spec fn items_of(self) -> Seq<JsonValue> {
        match self {
            JsonValue::Array(items) => items@,
            _ => Seq::empty(),
        }
    }

    /// Reads a JSON text.
    pub fn parse(text: &str) -> (r: Option<JsonValue>)
        ensures
            r == parsed_tree(text@),
    {
        match read_document(text) {
            Some(document) => Some(tree_of(document)),
            None => None,
        }
    }

    /// Looks a member up by its key.
    pub fn member(&self, key: &str) -> (r: Option<&JsonValue>)
        ensures
            match r {
                Some(v) => self.member_of(key@) == Some(*v),
                None => self.member_of(key@) is None,
            },
    {
        match self {
            JsonValue::Object(members) => {
                let wanted = key.to_owned();
                let mut i: usize = 0;
                while i < members.len()
                    invariant
                        i <= members.len(),
                        wanted@ == key@,
                        self.member_of(key@) == member_from(members@, key@, i as int),
                    decreases members.len() - i,
                {
                    if members[i].0 == wanted {
                        assert(members@[i as int].0@ == key@);
                        return Some(&members[i].1);
                    }
                    i += 1;
                }
                None
            },
            _ => None,
        }
    }

    /// The text of a string value.
    pub fn text(&self) -> (r: Option<&String>)
        ensures
            match r {
                Some(s) => self.text_of() == Some(s@),
                None => self.text_of() is None,
            },
    {
        match self {
            JsonValue::Text(s) => Some(s),
            _ => None,
        }
    }
}

} // verus!
