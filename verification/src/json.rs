//! A JSON document as plain data, read from bytes by `serde_json`.

use vstd::prelude::*;

verus! {

/// `serde_json::Value`, carried through as an opaque value.
#[verifier::external_type_specification]
#[verifier::external_body]
pub struct ExValue(serde_json::Value);

/// A JSON document. Numbers are kept only as the fact that a number stood
/// there. An object is the list of its members.
#[derive(Debug)]
pub enum Json {
    Null,
    Bool(bool),
    Number,
    Str(String),
    Array(Vec<Json>),
    Object(Vec<(String, Json)>),
}

/// Mathematical model of a [`Json`] document.
pub enum JsonView {
    Null,
    Bool(bool),
    Number,
    Str(Seq<char>),
    Array(Seq<JsonView>),
    /// The members as `(name, value)` pairs, in the order of the list.
    Object(Seq<(Seq<char>, JsonView)>),
}

impl View for Json {
    type V = JsonView;

    open spec fn view(&self) -> JsonView
        decreases self,
    {
        match self {
            Json::Null => JsonView::Null,
            Json::Bool(b) => JsonView::Bool(*b),
            Json::Number => JsonView::Number,
            Json::Str(s) => JsonView::Str(s@),
            Json::Array(items) => JsonView::Array(
                Seq::new(
                    items@.len(),
                    |i: int|
                        if 0 <= i < items@.len() {
                            items@[i]@
                        } else {
                            JsonView::Null
                        },
                ),
            ),
            Json::Object(members) => JsonView::Object(
                Seq::new(
                    members@.len(),
                    |i: int|
                        (
                            members@[i].0@,
                            if 0 <= i < members@.len() {
                                members@[i].1@
                            } else {
                                JsonView::Null
                            },
                        ),
                ),
            ),
        }
    }
}

/// The views of a list of documents, in order.
pub open spec fn item_views(items: Seq<Json>) -> Seq<JsonView> {
    Seq::new(items.len(), |i: int| items[i]@)
}

/// The views of a list of members, in order.
pub open spec fn member_views(members: Seq<(String, Json)>) -> Seq<(Seq<char>, JsonView)> {
    Seq::new(members.len(), |i: int| (members[i].0@, members[i].1@))
}

/// The view of an array is the array of the views of its items.
pub proof fn lemma_array_view(items: Vec<Json>)
    ensures
        Json::Array(items)@ == JsonView::Array(item_views(items@)),
{
    assert(Json::Array(items)@->Array_0 =~= item_views(items@));
}

/// The view of an object is the list of the views of its members.
pub proof fn lemma_object_view(members: Vec<(String, Json)>)
    ensures
        Json::Object(members)@ == JsonView::Object(member_views(members@)),
{
    assert(Json::Object(members)@->Object_0 =~= member_views(members@));
}

/// The document that `serde_json::from_slice` reads from `bytes`, or `None`
/// where it reports an error. It is not defined here: the JSON grammar is
/// `serde_json`'s.
pub uninterp spec fn parsed_json(bytes: Seq<u8>) -> Option<JsonView>;

/// The document that a `serde_json::Value` holds: the same tree, with each
/// number replaced by [`JsonView::Number`] and each object by the list of
/// its members in the order in which `serde_json` walks them.
pub uninterp spec fn held_json(value: serde_json::Value) -> JsonView;

/// Calls `serde_json::from_slice` for a `serde_json::Value`. Trusted: the
/// value it returns holds the document that the bytes spell, it returns
/// nothing exactly where the bytes spell none, and empty input spells none
/// (the parser reports end of input while looking for a value).
#[verifier::external_body]
fn value_from_slice(bytes: &[u8]) -> (value: Option<serde_json::Value>)
    ensures
        match value {
            Some(v) => parsed_json(bytes@) == Some(held_json(v)),
            None => parsed_json(bytes@) is None,
        },
        bytes@.len() == 0 ==> value is None,
{
    serde_json::from_slice::<serde_json::Value>(bytes).ok()
}

/// The top of a `serde_json::Value`: which variant it is, with the values
/// below it still unopened.
enum Node<'a> {
    Null,
    Bool(bool),
    Number,
    Str(&'a String),
    Array(&'a Vec<serde_json::Value>),
    Object(Vec<(&'a String, &'a serde_json::Value)>),
}

/// The document that a node stands for, given what the values below it hold.
spec fn node_view(node: Node) -> JsonView {
    match node {
        Node::Null => JsonView::Null,
        Node::Bool(b) => JsonView::Bool(b),
        Node::Number => JsonView::Number,
        Node::Str(s) => JsonView::Str(s@),
        Node::Array(items) => JsonView::Array(
            Seq::new(items@.len(), |i: int| held_json(items@[i])),
        ),
        Node::Object(members) => JsonView::Object(
            Seq::new(members@.len(), |i: int| (members@[i].0@, held_json(*members@[i].1))),
        ),
    }
}

/// Tells the variants of a `serde_json::Value` apart and hands out what the
/// variant holds, an object as the list of its members. Trusted: the value
/// holds the document of that variant whose parts are what the handed-out
/// parts hold.
#[verifier::external_body]
fn open_value<'a>(value: &'a serde_json::Value) -> (node: Node<'a>)
    ensures
        node_view(node) == held_json(*value),
{
    match value {
        serde_json::Value::Null => Node::Null,
        serde_json::Value::Bool(b) => Node::Bool(*b),
        serde_json::Value::Number(_) => Node::Number,
        serde_json::Value::String(s) => Node::Str(s),
        serde_json::Value::Array(items) => Node::Array(items),
        serde_json::Value::Object(members) => Node::Object(members.iter().collect()),
    }
}

/// Copies a `serde_json::Value` into a [`Json`], level by level.
fn json_of_value(value: &serde_json::Value) -> (json: Json)
    ensures
        json@ == held_json(*value),
    decreases held_json(*value),
{
    match open_value(value) {
        Node::Null => Json::Null,
        Node::Bool(b) => Json::Bool(b),
        Node::Number => Json::Number,
        Node::Str(s) => Json::Str(s.clone()),
        Node::Array(items) => {
            let ghost held = Seq::new(items@.len(), |i: int| held_json(items@[i]));
            let mut out: Vec<Json> = Vec::new();
            let mut i: usize = 0;
            while i < items.len()
                invariant
                    i <= items.len(),
                    out@.len() == i,
                    held == Seq::new(items@.len(), |i: int| held_json(items@[i])),
                    held_json(*value) == JsonView::Array(held),
                    forall|k: int| 0 <= k < i ==> (#[trigger] out@[k])@ == held[k],
                decreases items.len() - i,
            {
                proof {
                    vstd::seq::axiom_seq_index_decreases(held, i as int);
                    assert(held[i as int] == held_json(items@[i as int]));
                    assert(decreases_to!(held_json(*value) => held_json(*value)->Array_0));
                }
                out.push(json_of_value(&items[i]));
                i += 1;
            }
            proof {
                lemma_array_view(out);
                assert(item_views(out@) =~= held);
            }
            Json::Array(out)
        },
        Node::Object(members) => {
            let ghost held = Seq::new(
                members@.len(),
                |i: int| (members@[i].0@, held_json(*members@[i].1)),
            );
            let mut out: Vec<(String, Json)> = Vec::new();
            let mut i: usize = 0;
            while i < members.len()
                invariant
                    i <= members.len(),
                    out@.len() == i,
                    held == Seq::new(
                        members@.len(),
                        |i: int| (members@[i].0@, held_json(*members@[i].1)),
                    ),
                    held_json(*value) == JsonView::Object(held),
                    forall|k: int|
                        0 <= k < i ==> ((#[trigger] out@[k]).0@, out@[k].1@) == held[k],
                decreases members.len() - i,
            {
                proof {
                    vstd::seq::axiom_seq_index_decreases(held, i as int);
                    assert(held[i as int].1 == held_json(*members@[i as int].1));
                    assert(decreases_to!(held_json(*value) => held_json(*value)->Object_0));
                    assert(decreases_to!(held[i as int] => held[i as int].1));
                }
                let name: String = members[i].0.clone();
                out.push((name, json_of_value(members[i].1)));
                i += 1;
            }
            proof {
                lemma_object_view(out);
                assert(member_views(out@) =~= held);
            }
            Json::Object(out)
        },
    }
}

/// Reads a JSON document from `bytes`; `None` where they spell none.
pub fn parse(bytes: &[u8]) -> (json: Option<Json>)
    ensures
        match json {
            Some(j) => parsed_json(bytes@) == Some(j@),
            None => parsed_json(bytes@) is None,
        },
        bytes@.len() == 0 ==> json is None,
{
    match value_from_slice(bytes) {
        Some(value) => Some(json_of_value(&value)),
        None => None,
    }
}

} // verus!
