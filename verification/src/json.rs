//! Reading strings out of JSON documents with `serde_json`.
//!
//! A parsed `serde_json::Value` is opaque to Verus. What the library reads of
//! it is modelled as a map from paths to nodes: each path is a sequence of
//! steps (an object member by its key, an array element by its index), and the
//! node at a path says whether the value there is a string, and which.

use serde_json::Value;
use vstd::prelude::*;

verus! {

#[verifier::external_type_specification]
#[verifier::external_body]
pub struct ExJsonValue(serde_json::Value);

/// One step into a JSON value.
pub enum JsonStep {
    /// The member of an object with this key.
    Member(Seq<char>),
    /// The element of an array at this position.
    Element(nat),
}

/// What stands at a path of a JSON value.
pub enum JsonNode {
    /// A string with these characters.
    Text(Seq<char>),
    /// Anything else: null, a boolean, a number, an array or an object.
    Other,
}

/// The nodes of a JSON document, by path.
pub type JsonNodes = Map<Seq<JsonStep>, JsonNode>;

/// What `serde_json::from_str::<Value>` gives for a text: `None` where the
/// text is no JSON document, else the nodes of the document.
pub uninterp spec fn json_document(text: Seq<char>) -> Option<Map<Seq<JsonStep>, JsonNode>>;

/// The nodes that a `serde_json::Value` holds, by path from the value itself;
/// the empty path leads to the value.
pub uninterp spec fn json_nodes(value: Value) -> Map<Seq<JsonStep>, JsonNode>;

/// The nodes below one step: those whose path begins with `step`, by the rest
/// of their path.
pub open spec fn json_child(nodes: JsonNodes, step: JsonStep) -> JsonNodes {
    Map::new(
        |p: Seq<JsonStep>| nodes.contains_key(seq![step] + p),
        |p: Seq<JsonStep>| nodes[seq![step] + p],
    )
}

/// The string reached by following `path` one step at a time, as a chain of
/// `Value::get` calls ending in `Value::as_str` does: `None` where a step
/// leads nowhere or the value reached is no string.
pub open spec fn json_text_along(nodes: JsonNodes, path: Seq<JsonStep>) -> Option<Seq<char>>
    decreases path.len(),
{
    if path.len() == 0 {
        if nodes.contains_key(Seq::empty()) && nodes[Seq::empty()] is Text {
            Some(nodes[Seq::empty()]->Text_0)
        } else {
            None
        }
    } else if nodes.contains_key(seq![path[0]]) {
        json_text_along(json_child(nodes, path[0]), path.drop_first())
    } else {
        None
    }
}

/// The string at `path` of the JSON document `text`, if `text` is one.
pub open spec fn document_text_at(text: Seq<char>, path: Seq<JsonStep>) -> Option<Seq<char>> {
    match json_document(text) {
        Some(nodes) => json_text_along(nodes, path),
        None => None,
    }
}

/// The path `choices[0].message.content` of a chat completion.
pub open spec fn completion_content_path() -> Seq<JsonStep> {
    seq![
        JsonStep::Member("choices"@),
        JsonStep::Element(0),
        JsonStep::Member("message"@),
        JsonStep::Member("content"@),
    ]
}

/// The path `error.message` of an API error body.
pub open spec fn error_message_path() -> Seq<JsonStep> {
    seq![JsonStep::Member("error"@), JsonStep::Member("message"@)]
}

/// Parses a JSON document: `serde_json::from_str::<Value>`.
/// The contract says that parsing succeeds exactly where the name
/// `json_document` has a document, and that the value holds its nodes.
#[verifier::external_body]
fn parse_json(text: &str) -> (r: Option<Value>)
    ensures
        r is Some <==> json_document(text@) is Some,
        r matches Some(v) ==> json_nodes(v) == json_document(text@)->0,
{
    serde_json::from_str::<Value>(text).ok()
}

/// `Value::get` with a string key. Its contract: an object member is found
/// exactly where the nodes have that member, and the member holds the nodes
/// below it.
#[verifier::external_body]
fn json_member<'a>(value: &'a Value, key: &str) -> (r: Option<&'a Value>)
    ensures
        r is Some <==> json_nodes(*value).contains_key(seq![JsonStep::Member(key@)]),
        r matches Some(c) ==> json_nodes(*c) == json_child(
            json_nodes(*value),
            JsonStep::Member(key@),
        ),
{
    value.get(key)
}

/// `Value::get` with an array index. Its contract: an element is found
/// exactly where the nodes have that element, and the element holds the
/// nodes below it.
#[verifier::external_body]
fn json_element<'a>(value: &'a Value, index: usize) -> (r: Option<&'a Value>)
    ensures
        r is Some <==> json_nodes(*value).contains_key(seq![JsonStep::Element(index as nat)]),
        r matches Some(c) ==> json_nodes(*c) == json_child(
            json_nodes(*value),
            JsonStep::Element(index as nat),
        ),
{
    value.get(index)
}

/// `Value::as_str`. Its contract: a string comes back exactly where the
/// value itself is a string node, and it is that string.
#[verifier::external_body]
fn json_string<'a>(value: &'a Value) -> (r: Option<&'a str>)
    ensures
        r matches Some(s) ==> json_nodes(*value).contains_key(Seq::empty())
            && json_nodes(*value)[Seq::empty()] == JsonNode::Text(s@),
        r is None ==> !(json_nodes(*value).contains_key(Seq::empty())
            && json_nodes(*value)[Seq::empty()] is Text),
{
    value.as_str()
}

/// The string of a value reached so far, following no further step.
fn text_here(value: &Value) -> (r: Option<String>)
    ensures
        match r {
            Some(s) => json_text_along(json_nodes(*value), Seq::empty()) == Some(s@),
            None => json_text_along(json_nodes(*value), Seq::empty()) is None,
        },
{
    match json_string(value) {
        Some(s) => Some(String::from_str(s)),
        None => None,
    }
}

proof fn lemma_along_step(nodes: JsonNodes, path: Seq<JsonStep>)
    requires
        path.len() > 0,
    ensures
        json_text_along(nodes, path) == if nodes.contains_key(seq![path[0]]) {
            json_text_along(json_child(nodes, path[0]), path.drop_first())
        } else {
            None
        },
{
}

/// The string at `choices[0].message.content` of the JSON text `raw`:
/// `None` where `raw` is no JSON document, `Some(None)` where the document
/// holds no string there.
pub fn completion_content(raw: &str) -> (r: Option<Option<String>>)
    ensures
        r is None <==> json_document(raw@) is None,
        r matches Some(found) ==> match found {
            Some(s) => document_text_at(raw@, completion_content_path()) == Some(s@),
            None => document_text_at(raw@, completion_content_path()) is None,
        },
{
    let ghost path = completion_content_path();
    let ghost p1 = path.drop_first();
    let ghost p2 = p1.drop_first();
    let ghost p3 = p2.drop_first();
    assert(p3.drop_first() =~= Seq::<JsonStep>::empty());
    let value = match parse_json(raw) {
        Some(v) => v,
        None => return None,
    };
    proof {
        lemma_along_step(json_nodes(value), path);
    }
    let choices = match json_member(&value, "choices") {
        Some(c) => c,
        None => return Some(None),
    };
    proof {
        lemma_along_step(json_nodes(*choices), p1);
    }
    let first = match json_element(choices, 0) {
        Some(c) => c,
        None => return Some(None),
    };
    proof {
        lemma_along_step(json_nodes(*first), p2);
    }
    let message = match json_member(first, "message") {
        Some(c) => c,
        None => return Some(None),
    };
    proof {
        lemma_along_step(json_nodes(*message), p3);
    }
    let content = match json_member(message, "content") {
        Some(c) => c,
        None => return Some(None),
    };
    Some(text_here(content))
}

/// The string at `error.message` of the JSON text `body`, if `body` is a JSON
/// document with a string there.
pub fn error_message_content(body: &str) -> (r: Option<String>)
    ensures
        match r {
            Some(s) => document_text_at(body@, error_message_path()) == Some(s@),
            None => document_text_at(body@, error_message_path()) is None,
        },
{
    let ghost path = error_message_path();
    let ghost p1 = path.drop_first();
    assert(p1.drop_first() =~= Seq::<JsonStep>::empty());
    let value = match parse_json(body) {
        Some(v) => v,
        None => return None,
    };
    proof {
        lemma_along_step(json_nodes(value), path);
    }
    let error = match json_member(&value, "error") {
        Some(c) => c,
        None => return None,
    };
    proof {
        lemma_along_step(json_nodes(*error), p1);
    }
    let message = match json_member(error, "message") {
        Some(c) => c,
        None => return None,
    };
    text_here(message)
}

} // verus!
