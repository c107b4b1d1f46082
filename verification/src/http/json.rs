//! One level of a parsed JSON document, and the lookup of the error message
//! that the API puts in the body of a failed response.

use vstd::prelude::*;
use vstd::string::StringExecFns;
use serde_json::Value;

verus! {

/// A parsed JSON value, one level deep: the children of an array or an
/// object are kept as their compact JSON text.
#[derive(Debug, Clone, PartialEq)]
pub enum JsonNode {
    Null,
    Bool(bool),
    /// A number, as its JSON text
    Number(String),
    String(String),
    /// The items of an array, each as JSON text
    Array(Vec<String>),
    /// The members of an object in the parser's order, each value as JSON text
    Object(Vec<(String, String)>),
}

/// A JSON node with its strings as characters.
pub enum JsonNodeView {
    Null,
    Bool(bool),
    Number(Seq<char>),
    String(Seq<char>),
    Array(Seq<Seq<char>>),
    Object(Seq<(Seq<char>, Seq<char>)>),
}

impl View for JsonNode {
    type V = JsonNodeView;

    open spec fn view(&self) -> JsonNodeView {
        match self {
            JsonNode::Null => JsonNodeView::Null,
            JsonNode::Bool(b) => JsonNodeView::Bool(*b),
            JsonNode::Number(n) => JsonNodeView::Number(n@),
            JsonNode::String(s) => JsonNodeView::String(s@),
            JsonNode::Array(items) => JsonNodeView::Array(items@.map_values(|s: String| s@)),
            JsonNode::Object(members) => JsonNodeView::Object(
                members@.map_values(|m: (String, String)| (m.0@, m.1@)),
            ),
        }
    }
}

/// An optional node by its view.
pub open spec fn opt_node_view(n: Option<JsonNode>) -> Option<JsonNodeView> {
    match n {
        Some(node) => Some(node@),
        None => None,
    }
}

/// What serde_json makes of a text: `None` when it is not JSON, else the
/// top-level value with its children as compact JSON text.
pub uninterp spec fn parsed_json(text: Seq<char>) -> Option<JsonNodeView>;

/// Parses `text` with `serde_json::from_str` into a `serde_json::Value` and
/// converts the top level to a `JsonNode`, writing each child of an array or
/// object back as text with serde_json's `Display`. The contract claims only
/// that the result is the named function `parsed_json` of the text.
#[verifier::external_body]
fn parse_json(text: &str) -> (r: Option<JsonNode>)
    ensures
        opt_node_view(r) == parsed_json(text@),
{
    Some(match serde_json::from_str::<Value>(text).ok()? {
        Value::Null => JsonNode::Null,
        Value::Bool(b) => JsonNode::Bool(b),
        Value::Number(n) => JsonNode::Number(n.to_string()),
        Value::String(s) => JsonNode::String(s),
        Value::Array(items) => JsonNode::Array(items.iter().map(|x| x.to_string()).collect()),
        Value::Object(map) => JsonNode::Object(map.iter().map(|(k, x)| (k.clone(), x.to_string())).collect()),
    })
}

/// The value text of the first member named `key`.
pub open spec fn member_text(members: Seq<(Seq<char>, Seq<char>)>, key: Seq<char>) -> Option<
    Seq<char>,
>
    decreases members.len(),
{
    if members.len() == 0 {
        None
    } else if members[0].0 == key {
        Some(members[0].1)
    } else {
        member_text(members.drop_first(), key)
    }
}

/// The text of a node's member `key`, when the node is an object that has it.
pub open spec fn field_text(node: Option<JsonNodeView>, key: Seq<char>) -> Option<Seq<char>> {
    match node {
        Some(JsonNodeView::Object(members)) => member_text(members, key),
        _ => None,
    }
}

/// The string a node holds, when it is a string.
pub open spec fn node_string(node: Option<JsonNodeView>) -> Option<Seq<char>> {
    match node {
        Some(JsonNodeView::String(s)) => Some(s),
        _ => None,
    }
}

/// The string at `error.message` in a JSON body, if there is one.
pub open spec fn json_error_message(body: Seq<char>) -> Option<Seq<char>> {
    match field_text(parsed_json(body), "error"@) {
        None => None,
        Some(error) => match field_text(parsed_json(error), "message"@) {
            None => None,
            Some(message) => node_string(parsed_json(message)),
        },
    }
}

/// The text of member `key` of a node, when the node is an object with such
/// a member (the first one, if several share the name).
pub fn object_field(node: &JsonNode, key: &str) -> (r: Option<String>)
    ensures
        match r {
            Some(t) => field_text(Some(node@), key@) == Some(t@),
            None => field_text(Some(node@), key@) is None,
        },
{
    match node {
        JsonNode::Object(members) => {
            let ghost ms = members@.map_values(|m: (String, String)| (m.0@, m.1@));
            assert(node@ == JsonNodeView::Object(ms));
            assert(field_text(Some(node@), key@) == member_text(ms, key@));
            let wanted = String::from_str(key);
            let n = members.len();
            let mut i: usize = 0;
            assert(ms.subrange(0, n as int) =~= ms);
            while i < n
                invariant
                    n == members.len(),
                    i <= n,
                    wanted@ == key@,
                    field_text(Some(node@), key@) == member_text(ms, key@),
                    ms == members@.map_values(|m: (String, String)| (m.0@, m.1@)),
                    member_text(ms, key@) == member_text(ms.subrange(i as int, n as int), key@),
                decreases n - i,
            {
                let ghost rest = ms.subrange(i as int, n as int);
                assert(rest[0] == ms[i as int]);
                assert(ms[i as int] == (members@[i as int].0@, members@[i as int].1@));
                if members[i].0 == wanted {
                    let t = members[i].1.clone();
                    assert(rest.len() > 0 && rest[0].0 == key@);
                    assert(member_text(rest, key@) == Some(rest[0].1));
                    return Some(t);
                }
                assert(rest.drop_first() =~= ms.subrange(i + 1, n as int));
                i += 1;
            }
            assert(ms.subrange(n as int, n as int).len() == 0);
            None
        },
        _ => None,
    }
}

/// The string a node holds, when it is a JSON string.
pub fn node_as_str(node: &JsonNode) -> (r: Option<String>)
    ensures
        match r {
            Some(s) => node_string(Some(node@)) == Some(s@),
            None => node_string(Some(node@)) is None,
        },
{
    match node {
        JsonNode::String(s) => Some(s.clone()),
        _ => None,
    }
}

/// The error message that the API puts at `error.message` in the JSON body
/// of a failed response, if the body holds one.
pub fn extract_error_message(body: &str) -> (r: Option<String>)
    ensures
        match r {
            Some(m) => json_error_message(body@) == Some(m@),
            None => json_error_message(body@) is None,
        },
{
    let top = match parse_json(body) {
        Some(node) => node,
        None => return None,
    };
    let error_text = match object_field(&top, "error") {
        Some(t) => t,
        None => return None,
    };
    let error = match parse_json(error_text.as_str()) {
        Some(node) => node,
        None => return None,
    };
    let message_text = match object_field(&error, "message") {
        Some(t) => t,
        None => return None,
    };
    match parse_json(message_text.as_str()) {
        Some(node) => node_as_str(&node),
        None => None,
    }
}

} // verus!
