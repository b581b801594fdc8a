//! JSON text, read and written by `serde_json`.
//!
//! The grammar of JSON is not restated here. Parsing and printing are left to
//! `serde_json`, and what they return is given a name: `parsed` for the
//! document that a text holds, `rendered` for the text of a document. The
//! functions of this module carry a document between the parser's own tree
//! and `Json`, one level at a time, and are verified against those names.

use crate::json::{
    items_model, members_model, well_keyed, well_keyed_item, Json, JsonModel, Member,
};
use crate::number::{numeric, JsonNumber};
use vstd::prelude::*;

verus! {

#[verifier::external_type_specification]
#[verifier::external_body]
pub struct OutsideValue(serde_json::Value);

/// The document that a `serde_json::Value` holds. The members of an object
/// come in the order in which the value hands them out, which is the order
/// in which they were put in.
pub uninterp spec fn content(v: serde_json::Value) -> JsonModel;

/// What `serde_json::from_str` makes of a text: the document that it holds,
/// or the parser's message when the text is not one JSON value.
pub uninterp spec fn parsed(text: Seq<char>) -> Result<JsonModel, Seq<char>>;

/// What `serde_json::to_string` makes of a document: its compact text, or the
/// serializer's message when it gives up.
pub uninterp spec fn rendered(doc: JsonModel) -> Result<Seq<char>, Seq<char>>;

/// One level of the parser's tree: the variant with what it holds, the values
/// below it still in the parser's form.
enum Node {
    Null,
    Bool(bool),
    Number(serde_json::Number),
    Text(String),
    Array(Vec<serde_json::Value>),
    Object(Vec<(String, serde_json::Value)>),
}

impl Node {
    /// The document that the node stands for.
    spec fn model(self) -> JsonModel {
        match self {
            Node::Null => JsonModel::Null,
            Node::Bool(b) => JsonModel::Bool(b),
            Node::Number(n) => JsonModel::Number(numeric(n)),
            Node::Text(s) => JsonModel::Text(s@),
            Node::Array(items) => JsonModel::Array(
                Seq::new(items@.len(), |i: int| content(items@[i])),
            ),
            Node::Object(members) => JsonModel::Object(
                Seq::new(members@.len(), |i: int| (members@[i].0@, content(members@[i].1))),
            ),
        }
    }
}

/// `serde_json::from_str` at the type `serde_json::Value`, with the error
/// turned into its message by `to_string`. The result is what `parsed` names
/// for this text.
#[verifier::external_body]
fn parse_value(text: &str) -> (result: Result<serde_json::Value, String>)
    ensures
        match result {
            Ok(v) => parsed(text@) == Ok::<JsonModel, Seq<char>>(content(v)),
            Err(message) => parsed(text@) == Err::<JsonModel, Seq<char>>(message@),
        },
{
    match serde_json::from_str::<serde_json::Value>(text) {
        Ok(v) => Ok(v),
        Err(e) => Err(e.to_string()),
    }
}

/// `serde_json::to_string` on a `serde_json::Value`, with the error turned
/// into its message by `to_string`. The result is what `rendered` names for
/// the document that the value holds.
#[verifier::external_body]
fn render_value(v: &serde_json::Value) -> (result: Result<String, String>)
    ensures
        match result {
            Ok(text) => rendered(content(*v)) == Ok::<Seq<char>, Seq<char>>(text@),
            Err(message) => rendered(content(*v)) == Err::<Seq<char>, Seq<char>>(message@),
        },
{
    match serde_json::to_string(v) {
        Ok(text) => Ok(text),
        Err(e) => Err(e.to_string()),
    }
}

/// Takes a `serde_json::Value` apart by its variant. Strings, numbers and the
/// values below are copies of what the value holds; the members of an object
/// come in the order of `serde_json::Map::iter`.
#[verifier::external_body]
fn unfold(v: &serde_json::Value) -> (node: Node)
    ensures
        node.model() == content(*v),
{
    match v {
        serde_json::Value::Null => Node::Null,
        serde_json::Value::Bool(b) => Node::Bool(*b),
        serde_json::Value::Number(n) => Node::Number(n.clone()),
        serde_json::Value::String(s) => Node::Text(s.clone()),
        serde_json::Value::Array(a) => Node::Array(a.clone()),
        serde_json::Value::Object(m) => Node::Object(
            m.iter().map(|(k, x)| (k.clone(), x.clone())).collect(),
        ),
    }
}

/// Builds the `serde_json::Value` of one variant from what it holds. The
/// members of an object go into a `serde_json::Map` in the order given; with
/// no key named twice the map keeps every one of them, in that order.
#[verifier::external_body]
fn fold(node: Node) -> (v: serde_json::Value)
    requires
        node matches Node::Object(members) ==> forall|i: int, j: int|
            0 <= i < j < members@.len() ==> members@[i].0@ != members@[j].0@,
    ensures
        content(v) == node.model(),
{
    match node {
        Node::Null => serde_json::Value::Null,
        Node::Bool(b) => serde_json::Value::Bool(b),
        Node::Number(n) => serde_json::Value::Number(n),
        Node::Text(s) => serde_json::Value::String(s),
        Node::Array(a) => serde_json::Value::Array(a),
        Node::Object(m) => serde_json::Value::Object(m.into_iter().collect()),
    }
}

/// The document that the parser's tree holds.
pub fn read(v: &serde_json::Value) -> (doc: Json)
    ensures
        doc@ == content(*v),
    decreases content(*v),
{
    match unfold(v) {
        Node::Null => Json::Null,
        Node::Bool(b) => Json::Bool(b),
        Node::Number(n) => Json::Number(JsonNumber::from_outside(&n)),
        Node::Text(s) => Json::Text(s),
        Node::Array(items) => {
            let ghost below = content(*v)->Array_0;
            let mut out: Vec<Json> = Vec::new();
            let mut i: usize = 0;
            while i < items.len()
                invariant
                    i <= items.len(),
                    out.len() == i,
                    content(*v) == JsonModel::Array(below),
                    below == Seq::new(items@.len(), |k: int| content(items@[k])),
                    forall|k: int| 0 <= k < i ==> (#[trigger] out@[k])@ == content(items@[k]),
                decreases items.len() - i,
            {
                proof {
                    assert(below[i as int] == content(items@[i as int]));
                    assert(decreases_to!(content(*v) => content(*v)->Array_0));
                    assert(decreases_to!(below => below[i as int]));
                }
                let item = read(&items[i]);
                out.push(item);
                i = i + 1;
            }
            let doc = Json::Array(out);
            assert(doc@->Array_0 =~= below);
            doc
        },
        Node::Object(members) => {
            let ghost below = content(*v)->Object_0;
            let mut out: Vec<Member> = Vec::new();
            let mut i: usize = 0;
            while i < members.len()
                invariant
                    i <= members.len(),
                    out.len() == i,
                    content(*v) == JsonModel::Object(below),
                    below == Seq::new(
                        members@.len(),
                        |k: int| (members@[k].0@, content(members@[k].1)),
                    ),
                    forall|k: int|
                        0 <= k < i ==> (#[trigger] out@[k])@ == (
                            members@[k].0@,
                            content(members@[k].1),
                        ),
                decreases members.len() - i,
            {
                proof {
                    assert(below[i as int] == (members@[i as int].0@, content(members@[i as int].1)));
                    assert(decreases_to!(content(*v) => content(*v)->Object_0));
                    assert(decreases_to!(below => below[i as int]));
                    assert(decreases_to!(below[i as int] => below[i as int].1));
                }
                let value = read(&members[i].1);
                let key = members[i].0.clone();
                out.push(Member { key, value });
                i = i + 1;
            }
            let doc = Json::Object(out);
            proof {
                assert forall|k: int| 0 <= k < below.len() implies doc@->Object_0[k]
                    == below[k] by {
                    assert(out@[k]@ == (members@[k].0@, content(members@[k].1)));
                }
                assert(doc@->Object_0 =~= below);
            }
            doc
        },
    }
}

/// The parser's tree of a document in which no object names a key twice.
pub(crate) fn write(doc: &Json) -> (v: serde_json::Value)
    requires
        well_keyed(doc@),
    ensures
        content(v) == doc@,
    decreases doc,
{
    match doc {
        Json::Null => fold(Node::Null),
        Json::Bool(b) => fold(Node::Bool(*b)),
        Json::Number(n) => fold(Node::Number(n.to_outside())),
        Json::Text(s) => fold(Node::Text(s.clone())),
        Json::Array(items) => {
            let ghost below = items_model(items@);
            proof {
                Json::array_view(*items);
            }
            let mut out: Vec<serde_json::Value> = Vec::new();
            let mut i: usize = 0;
            while i < items.len()
                invariant
                    i <= items.len(),
                    out.len() == i,
                    *doc == Json::Array(*items),
                    doc@ == JsonModel::Array(below),
                    below == items_model(items@),
                    well_keyed(doc@),
                    forall|k: int| 0 <= k < i ==> content(#[trigger] out@[k]) == items@[k]@,
                decreases items.len() - i,
            {
                proof {
                    assert(decreases_to!(*doc => doc->Array_0));
                    assert(decreases_to!(doc->Array_0 => doc->Array_0[i as int]));
                    assert(below[i as int] == items@[i as int]@);
                    well_keyed_item(below, i as int);
                }
                let item = write(&items[i]);
                out.push(item);
                i = i + 1;
            }
            let node = Node::Array(out);
            assert(node.model()->Array_0 =~= below);
            fold(node)
        },
        Json::Object(members) => {
            let ghost below = members_model(members@);
            proof {
                Json::object_view(*members);
            }
            let mut out: Vec<(String, serde_json::Value)> = Vec::new();
            let mut i: usize = 0;
            while i < members.len()
                invariant
                    i <= members.len(),
                    out.len() == i,
                    *doc == Json::Object(*members),
                    doc@ == JsonModel::Object(below),
                    below == members_model(members@),
                    well_keyed(doc@),
                    forall|k: int|
                        0 <= k < i ==> (#[trigger] out@[k]).0@ == members@[k].key@ && content(
                            out@[k].1,
                        ) == members@[k].value@,
                decreases members.len() - i,
            {
                proof {
                    assert(decreases_to!(*doc => doc->Object_0));
                    assert(decreases_to!(doc->Object_0 => doc->Object_0[i as int]));
                    assert(decreases_to!(doc->Object_0[i as int] => doc->Object_0[i as int].value));
                    assert(below[i as int] == members@[i as int]@);
                    assert(well_keyed(below[i as int].1));
                }
                let value = write(&members[i].value);
                let key = members[i].key.clone();
                out.push((key, value));
                i = i + 1;
            }
            let node = Node::Object(out);
            proof {
                assert forall|a: int, b: int| 0 <= a < b < out@.len() implies out@[a].0@
                    != out@[b].0@ by {
                    assert(below[a] == members@[a]@);
                    assert(below[b] == members@[b]@);
                }
                assert forall|k: int| 0 <= k < below.len() implies node.model()->Object_0[k]
                    == below[k] by {
                    assert(below[k] == members@[k]@);
                }
                assert(node.model()->Object_0 =~= below);
            }
            fold(node)
        },
    }
}

/// What the result of parsing denotes.
pub open spec fn parse_model(result: Result<Json, String>) -> Result<JsonModel, Seq<char>> {
    match result {
        Ok(doc) => Ok(doc@),
        Err(message) => Err(message@),
    }
}

/// What the result of printing denotes.
pub open spec fn render_model(result: Result<String, String>) -> Result<Seq<char>, Seq<char>> {
    match result {
        Ok(text) => Ok(text@),
        Err(message) => Err(message@),
    }
}

/// Parses a text as one JSON value.
pub fn parse(text: &str) -> (result: Result<Json, String>)
    ensures
        parse_model(result) == parsed(text@),
{
    match parse_value(text) {
        Ok(v) => Ok(read(&v)),
        Err(message) => Err(message),
    }
}

/// Prints a document in which no object names a key twice as compact JSON
/// text.
pub(crate) fn render(doc: &Json) -> (result: Result<String, String>)
    requires
        well_keyed(doc@),
    ensures
        render_model(result) == rendered(doc@),
{
    let v = write(doc);
    render_value(&v)
}

} // verus!
