//! JSON text to structured values and back, by way of `serde_json`.
//!
//! `serde_json` parses text into its own document type and prints from it. A document is
//! opened one level at a time, so that moving it into a [`Json`], and a [`Json`] into a
//! document, is done here, level by level.

use vstd::prelude::*;
use vstd::std_specs::vec::axiom_vec_index_decreases;
use crate::value::{members_view, Json, JsonView};

verus! {

/// `serde_json::Value`, the document type that `serde_json` parses into and prints from.
#[verifier::external_type_specification]
#[verifier::external_body]
pub struct ExDocument(serde_json::Value);

/// What a `serde_json` document holds.
pub uninterp spec fn json_model(document: serde_json::Value) -> JsonView;

/// How deep a `serde_json` document nests: more than any document inside it.
pub uninterp spec fn json_depth(document: serde_json::Value) -> nat;

/// What `serde_json::from_str` makes of a text: the document's contents, or the message of
/// the error it stops with.
pub uninterp spec fn json_parse(text: Seq<char>) -> Result<JsonView, Seq<char>>;

/// The text that `serde_json` prints for a document with these contents.
pub uninterp spec fn json_text(contents: JsonView) -> Seq<char>;

/// One level of a document: its variant, with the documents inside it unopened.
enum Node {
    Null,
    Bool(bool),
    Number(serde_json::Number),
    String(String),
    Array(Vec<serde_json::Value>),
    Object(Vec<(String, serde_json::Value)>),
}

/// The map that the first `n` members make, each put into the map of those before it.
spec fn members_model(members: Seq<(String, serde_json::Value)>, n: nat) -> Map<
    Seq<char>,
    JsonView,
>
    decreases n,
{
    if n == 0 || n > members.len() {
        Map::empty()
    } else {
        members_model(members, (n - 1) as nat).insert(
            members[n - 1].0@,
            json_model(members[n - 1].1),
        )
    }
}

/// What a node holds, given what the documents inside it hold.
spec fn node_model(node: Node) -> JsonView {
    match node {
        Node::Null => JsonView::Null,
        Node::Bool(b) => JsonView::Bool(b),
        Node::Number(n) => JsonView::Number(n),
        Node::String(s) => JsonView::String(s@),
        Node::Array(items) => JsonView::Array(
            Seq::new(items@.len(), |i: int| json_model(items@[i])),
        ),
        Node::Object(members) => JsonView::Object(members_model(members@, members@.len())),
    }
}

/// Whether every document inside the node nests less deeply than `depth`.
spec fn node_below(node: Node, depth: nat) -> bool {
    match node {
        Node::Array(items) => forall|i: int|
            0 <= i < items@.len() ==> json_depth(#[trigger] items@[i]) < depth,
        Node::Object(members) => forall|i: int|
            0 <= i < members@.len() ==> json_depth((#[trigger] members@[i]).1) < depth,
        _ => true,
    }
}

/// Calls `serde_json::from_str` for a `serde_json::Value`. The outcome depends on the text
/// alone; an error is handed back as the text of its `Display`.
#[verifier::external_body]
fn parse_document(text: &str) -> (parsed: Result<serde_json::Value, String>)
    ensures
        match parsed {
            Ok(document) => json_parse(text@) == Ok::<JsonView, Seq<char>>(json_model(document)),
            Err(cause) => json_parse(text@) == Err::<JsonView, Seq<char>>(cause@),
        },
{
    match serde_json::from_str::<serde_json::Value>(text) {
        Ok(document) => Ok(document),
        Err(error) => Err(error.to_string()),
    }
}

/// Opens a `serde_json::Value` by one level, variant by variant. The members of an object
/// come as `serde_json::Map` hands them out, each key once. What is inside nests less deeply
/// than the document itself.
#[verifier::external_body]
fn open_document(document: serde_json::Value) -> (node: Node)
    ensures
        node_model(node) == json_model(document),
        node_below(node, json_depth(document)),
{
    match document {
        serde_json::Value::Null => Node::Null,
        serde_json::Value::Bool(b) => Node::Bool(b),
        serde_json::Value::Number(n) => Node::Number(n),
        serde_json::Value::String(s) => Node::String(s),
        serde_json::Value::Array(items) => Node::Array(items),
        serde_json::Value::Object(members) => Node::Object(members.into_iter().collect()),
    }
}

/// Closes a node into a `serde_json::Value`, variant by variant. The members of an object are
/// put in with `serde_json::Map::insert`, in order, so that a later member replaces an
/// earlier one of the same key.
#[verifier::external_body]
fn close_document(node: Node) -> (document: serde_json::Value)
    ensures
        json_model(document) == node_model(node),
{
    match node {
        Node::Null => serde_json::Value::Null,
        Node::Bool(b) => serde_json::Value::Bool(b),
        Node::Number(n) => serde_json::Value::Number(n),
        Node::String(s) => serde_json::Value::String(s),
        Node::Array(items) => serde_json::Value::Array(items),
        Node::Object(members) => {
            let mut map = serde_json::Map::new();
            for (key, member) in members {
                map.insert(key, member);
            }
            serde_json::Value::Object(map)
        },
    }
}

/// Prints a document with the `Display` of `serde_json::Value`, which writes compact JSON.
/// `serde_json` is built without `preserve_order` here, so the members of an object come in
/// the order of their keys and the text depends on the document's contents alone.
#[verifier::external_body]
fn print_document(document: &serde_json::Value) -> (text: String)
    ensures
        text@ == json_text(json_model(*document)),
{
    document.to_string()
}

/// Members that agree one by one make the same map.
proof fn lemma_members_agree(
    values: Vec<(String, Json)>,
    documents: Seq<(String, serde_json::Value)>,
    n: nat,
)
    requires
        n <= values@.len(),
        n <= documents.len(),
        forall|i: int|
            0 <= i < n ==> values@[i].0@ == documents[i].0@ && values@[i].1@ == json_model(
                documents[i].1,
            ),
    ensures
        members_view(values, n) == members_model(documents, n),
    decreases n,
{
    if n > 0 {
        lemma_members_agree(values, documents, (n - 1) as nat);
    }
}

/// Moves a document into a value of the same contents.
pub fn from_document(document: serde_json::Value) -> (value: Json)
    ensures
        value@ == json_model(document),
    decreases json_depth(document),
{
    let ghost depth = json_depth(document);
    match open_document(document) {
        Node::Null => Json::Null,
        Node::Bool(b) => Json::Bool(b),
        Node::Number(n) => Json::Number(n),
        Node::String(s) => Json::String(s),
        Node::Array(items) => {
            let ghost all = items@;
            let mut values: Vec<Json> = Vec::new();
            for item in it: items.into_iter()
                invariant
                    it.seq() == all,
                    values@.len() == it.index(),
                    depth == json_depth(document),
                    forall|i: int| 0 <= i < all.len() ==> json_depth(#[trigger] all[i]) < depth,
                    forall|i: int| 0 <= i < values@.len() ==> values@[i]@ == json_model(all[i]),
            {
                assert(json_depth(all[it.index()]) < depth);
                values.push(from_document(item));
            }
            let value = Json::Array(values);
            assert(value@->Array_0 =~= Seq::new(all.len(), |i: int| json_model(all[i])));
            value
        },
        Node::Object(members) => {
            let ghost all = members@;
            let mut values: Vec<(String, Json)> = Vec::new();
            for member in it: members.into_iter()
                invariant
                    it.seq() == all,
                    values@.len() == it.index(),
                    depth == json_depth(document),
                    forall|i: int|
                        0 <= i < all.len() ==> json_depth((#[trigger] all[i]).1) < depth,
                    forall|i: int|
                        0 <= i < values@.len() ==> values@[i].0@ == all[i].0@ && values@[i].1@
                            == json_model(all[i].1),
            {
                assert(json_depth(all[it.index()].1) < depth);
                let (key, document) = member;
                values.push((key, from_document(document)));
            }
            proof {
                lemma_members_agree(values, all, all.len());
            }
            Json::Object(values)
        },
    }
}

/// Copies a value into a document of the same contents.
pub fn to_document(value: &Json) -> (document: serde_json::Value)
    ensures
        json_model(document) == value@,
    decreases value,
{
    match value {
        Json::Null => close_document(Node::Null),
        Json::Bool(b) => close_document(Node::Bool(*b)),
        Json::Number(n) => close_document(Node::Number(n.clone())),
        Json::String(s) => close_document(Node::String(s.clone())),
        Json::Array(items) => {
            let mut documents: Vec<serde_json::Value> = Vec::new();
            let mut i: usize = 0;
            while i < items.len()
                invariant
                    i <= items.len(),
                    documents@.len() == i,
                    *value == Json::Array(*items),
                    decreases_to!(*value => *items),
                    forall|k: int| 0 <= k < i ==> json_model(documents@[k]) == items@[k]@,
                decreases items.len() - i,
            {
                proof {
                    axiom_vec_index_decreases(*items, i as int);
                }
                documents.push(to_document(&items[i]));
                i += 1;
            }
            let ghost contents = Seq::new(documents@.len(), |k: int| json_model(documents@[k]));
            assert(contents =~= value@->Array_0);
            close_document(Node::Array(documents))
        },
        Json::Object(members) => {
            let mut documents: Vec<(String, serde_json::Value)> = Vec::new();
            let mut i: usize = 0;
            while i < members.len()
                invariant
                    i <= members.len(),
                    documents@.len() == i,
                    *value == Json::Object(*members),
                    decreases_to!(*value => *members),
                    forall|k: int|
                        0 <= k < i ==> members@[k].0@ == documents@[k].0@ && members@[k].1@
                            == json_model(documents@[k].1),
                decreases members.len() - i,
            {
                proof {
                    axiom_vec_index_decreases(*members, i as int);
                }
                let document = to_document(&members[i].1);
                documents.push((members[i].0.clone(), document));
                i += 1;
            }
            proof {
                lemma_members_agree(*members, documents@, documents@.len());
            }
            close_document(Node::Object(documents))
        },
    }
}

/// The reading of a parse result.
pub open spec fn parsed_view(parsed: Result<Json, String>) -> Result<JsonView, Seq<char>> {
    match parsed {
        Ok(value) => Ok(value@),
        Err(cause) => Err(cause@),
    }
}

/// Parses JSON text into a value, or gives the parser's message.
pub fn parse(text: &str) -> (parsed: Result<Json, String>)
    ensures
        parsed_view(parsed) == json_parse(text@),
{
    match parse_document(text) {
        Ok(document) => Ok(from_document(document)),
        Err(cause) => Err(cause),
    }
}

/// Writes a value as compact JSON text.
pub fn render(value: &Json) -> (text: String)
    ensures
        text@ == json_text(value@),
{
    let document = to_document(value);
    print_document(&document)
}

} // verus!
