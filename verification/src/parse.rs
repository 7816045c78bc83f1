//! Reading JSON text with `serde_json`.

use vstd::prelude::*;
use crate::error::FetchError;
use crate::json::{Json, Tree};

verus! {

/// `serde_json::Value`, opaque to the verifier.
#[verifier::external_type_specification]
#[verifier::external_body]
pub struct ExValue(serde_json::Value);

/// `serde_json::Error`, opaque to the verifier.
#[verifier::external_type_specification]
#[verifier::external_body]
pub struct ExError(serde_json::Error);

/// What `serde_json::from_str` makes of a text: the document it reads, or
/// `None` where it reports an error.
pub uninterp spec fn parsed(text: Seq<char>) -> Option<Tree>;

/// The document that a `serde_json::Value` holds.
pub uninterp spec fn value_tree(value: serde_json::Value) -> Tree;

/// One level of a `serde_json::Value`: its variant, with the children still
/// held by the outside type.
enum Node<'a> {
    Null,
    Bool(bool),
    Number(String),
    Text(String),
    Array(&'a Vec<serde_json::Value>),
    Object(Vec<(String, &'a serde_json::Value)>),
}

impl<'a> Node<'a> {
    /// The document that the node stands for.
    spec fn tree(self) -> Tree {
        match self {
            Node::Null => Tree::Null,
            Node::Bool(b) => Tree::Bool(b),
            Node::Number(text) => Tree::Number(text@),
            Node::Text(text) => Tree::Text(text@),
            Node::Array(items) => Tree::Array(items@.map_values(|v: serde_json::Value| value_tree(v))),
            Node::Object(entries) => Tree::Object(
                entries@.map_values(|e: (String, &serde_json::Value)| (e.0@, value_tree(*e.1))),
            ),
        }
    }
}

/// Calls `serde_json::from_str` for a `serde_json::Value`. The contract gives
/// the outcome its name: on success the value holds the document `parsed`
/// names, and an error comes back exactly where `parsed` is `None`.
#[verifier::external_body]
fn read_value(text: &str) -> (result: Result<serde_json::Value, serde_json::Error>)
    ensures
        match result {
            Ok(value) => parsed(text@) == Some(value_tree(value)),
            Err(_) => parsed(text@) is None,
        },
{
    serde_json::from_str::<serde_json::Value>(text)
}

/// Tells the six variants of `serde_json::Value` apart. Scalars are copied
/// out (a number as the text `serde_json` prints for it), an array hands out
/// its items and an object its entries in the order the map walks them.
#[verifier::external_body]
fn open_value<'a>(value: &'a serde_json::Value) -> (node: Node<'a>)
    ensures
        value_tree(*value) == node.tree(),
{
    match value {
        serde_json::Value::Null => Node::Null,
        serde_json::Value::Bool(b) => Node::Bool(*b),
        serde_json::Value::Number(n) => Node::Number(n.to_string()),
        serde_json::Value::String(s) => Node::Text(s.clone()),
        serde_json::Value::Array(items) => Node::Array(items),
        serde_json::Value::Object(map) => Node::Object(map.iter().map(|(k, v)| (k.clone(), v)).collect()),
    }
}

/// Copies a `serde_json::Value` into a [`Json`] holding the same document.
pub fn lift(value: &serde_json::Value) -> (json: Json)
    ensures
        json@ == value_tree(*value),
    decreases value_tree(*value),
{
    match open_value(value) {
        Node::Null => Json::Null,
        Node::Bool(b) => Json::Bool(b),
        Node::Number(text) => Json::Number(text),
        Node::Text(text) => Json::Text(text),
        Node::Array(items) => {
            let mut out: Vec<Json> = Vec::new();
            let mut i: usize = 0;
            while i < items.len()
                invariant
                    i <= items.len(),
                    out.len() == i,
                    value_tree(*value) == Tree::Array(
                        items@.map_values(|v: serde_json::Value| value_tree(v)),
                    ),
                    forall|j: int| 0 <= j < i ==> (#[trigger] out[j])@ == value_tree(items[j]),
                decreases items.len() - i,
            {
                proof {
                    let tree = value_tree(*value);
                    assert(tree->Array_0[i as int] == value_tree(items[i as int]));
                    assert(decreases_to!(tree => tree->Array_0));
                    assert(decreases_to!(tree->Array_0 => tree->Array_0[i as int]));
                }
                let item = lift(&items[i]);
                out.push(item);
                i += 1;
            }
            let json = Json::Array(out);
            assert(json@->Array_0 =~= items@.map_values(|v: serde_json::Value| value_tree(v)));
            json
        },
        Node::Object(entries) => {
            let mut out: Vec<(String, Json)> = Vec::new();
            let mut i: usize = 0;
            while i < entries.len()
                invariant
                    i <= entries.len(),
                    out.len() == i,
                    value_tree(*value) == Tree::Object(
                        entries@.map_values(|e: (String, &serde_json::Value)| (e.0@, value_tree(*e.1))),
                    ),
                    forall|j: int|
                        0 <= j < i ==> (#[trigger] out[j]).0@ == entries[j].0@ && out[j].1@ == value_tree(
                            *entries[j].1,
                        ),
                decreases entries.len() - i,
            {
                proof {
                    let tree = value_tree(*value);
                    assert(tree->Object_0[i as int].1 == value_tree(*entries[i as int].1));
                    assert(decreases_to!(tree => tree->Object_0));
                    assert(decreases_to!(tree->Object_0 => tree->Object_0[i as int]));
                    assert(decreases_to!(tree->Object_0[i as int] => tree->Object_0[i as int].1));
                }
                let item = lift(entries[i].1);
                out.push((entries[i].0.clone(), item));
                i += 1;
            }
            let json = Json::Object(out);
            assert(json@->Object_0 =~= entries@.map_values(
                |e: (String, &serde_json::Value)| (e.0@, value_tree(*e.1)),
            ));
            json
        },
    }
}

/// Reads a JSON document from its text.
pub fn parse(text: &str) -> (result: Result<Json, FetchError>)
    ensures
        match result {
            Ok(json) => parsed(text@) == Some(json@),
            Err(error) => parsed(text@) is None && error == FetchError::MalformedMetadata,
        },
{
    match read_value(text) {
        Ok(value) => Ok(lift(&value)),
        Err(_) => Err(FetchError::MalformedMetadata),
    }
}

} // verus!
